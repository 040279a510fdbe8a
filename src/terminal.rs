//! The terminal: the interpreter and the buffer it drives, under one owner.

use vstd::prelude::*;
use crate::buffer::TerminalBuffer;
use crate::color::TerminalSize;
use crate::interp::{Interpreter, InterpModel, feed};
use crate::model::BufferModel;

verus! {

/// Feeds bytes through the interpreter into its buffer.
pub struct TerminalParser {
    buffer: TerminalBuffer,
    interp: Interpreter,
}

impl View for TerminalParser {
    type V = (BufferModel, InterpModel);

    closed spec fn view(&self) -> (BufferModel, InterpModel) {
        (self.buffer@, self.interp@)
    }
}

impl TerminalParser {
    pub open spec fn wf(&self) -> bool {
        self@.0.wf() && self@.1.wf()
    }

    pub fn new(cols: u16, rows: u16, scrollback: usize) -> (p: TerminalParser)
        ensures
            p.wf(),
            p@ == (BufferModel::initial(cols as nat, rows as nat, scrollback as nat), InterpModel::initial()),
    {
        TerminalParser { buffer: TerminalBuffer::new(cols, rows, scrollback), interp: Interpreter::new() }
    }

    /// Feeds `data` one byte at a time. A sequence may be split across calls
    /// at any byte: the interpreter keeps its place in between.
    pub fn process(&mut self, data: &[u8])
        requires
            old(self).wf(),
        ensures
            final(self).wf(),
            final(self)@ == feed(old(self)@, data@),
    {
        let ghost t0 = self@;
        let mut i: usize = 0;
        while i < data.len()
            invariant
                i <= data@.len(),
                self.wf(),
                self@ == feed(t0, data@.take(i as int)),
            decreases data@.len() - i,
        {
            self.interp.advance(&mut self.buffer, data[i]);
            proof {
                assert(data@.take(i + 1).drop_last() =~= data@.take(i as int));
            }
            i += 1;
        }
        proof {
            assert(data@.take(data@.len() as int) =~= data@);
        }
    }

    pub fn buffer(&self) -> (b: &TerminalBuffer)
        ensures
            b@ == self@.0,
    {
        &self.buffer
    }

    /// The buffer, for direct changes; the interpreter is not touched.
    pub fn buffer_mut(&mut self) -> (b: &mut TerminalBuffer)
        ensures
            b@ == old(self)@.0,
            final(self)@ == (final(b)@, old(self)@.1),
    {
        &mut self.buffer
    }

    /// Resizes the buffer; the interpreter keeps its place.
    pub fn resize(&mut self, cols: u16, rows: u16)
        requires
            old(self).wf(),
        ensures
            final(self).wf(),
            final(self)@ == (old(self)@.0.resize(cols as nat, rows as nat), old(self)@.1),
    {
        self.buffer.resize(cols, rows);
    }
}

/// The terminal facade: bytes from the remote side go through `process`;
/// `write` puts text straight into the buffer.
pub struct Terminal {
    parser: TerminalParser,
}

impl View for Terminal {
    type V = (BufferModel, InterpModel);

    closed spec fn view(&self) -> (BufferModel, InterpModel) {
        self.parser@
    }
}

impl Terminal {
    pub open spec fn wf(&self) -> bool {
        self@.0.wf() && self@.1.wf()
    }

    pub fn new(cols: u16, rows: u16, scrollback: usize) -> (t: Terminal)
        ensures
            t.wf(),
            t@ == (BufferModel::initial(cols as nat, rows as nat, scrollback as nat), InterpModel::initial()),
    {
        Terminal { parser: TerminalParser::new(cols, rows, scrollback) }
    }

    /// Processes input from the remote side.
    pub fn process(&mut self, data: &[u8])
        requires
            old(self).wf(),
        ensures
            final(self).wf(),
            final(self)@ == feed(old(self)@, data@),
    {
        self.parser.process(data);
    }

    pub fn resize(&mut self, cols: u16, rows: u16)
        requires
            old(self).wf(),
        ensures
            final(self).wf(),
            final(self)@ == (old(self)@.0.resize(cols as nat, rows as nat), old(self)@.1),
    {
        self.parser.resize(cols, rows);
    }

    pub fn size(&self) -> (s: TerminalSize)
        ensures
            s.cols == self@.0.cols,
            s.rows == self@.0.rows,
    {
        self.parser.buffer().size()
    }

    pub fn buffer(&self) -> (b: &TerminalBuffer)
        ensures
            b@ == self@.0,
    {
        self.parser.buffer()
    }

    /// The buffer, for direct changes; the interpreter is not touched.
    pub fn buffer_mut(&mut self) -> (b: &mut TerminalBuffer)
        ensures
            b@ == old(self)@.0,
            final(self)@ == (final(b)@, old(self)@.1),
    {
        self.parser.buffer_mut()
    }

    /// Writes text straight into the buffer, bypassing the interpreter.
    pub fn write(&mut self, text: &str)
        requires
            old(self).wf(),
        ensures
            final(self).wf(),
            final(self)@ == (old(self)@.0.write_str(text@), old(self)@.1),
    {
        self.parser.buffer.write_str(text);
    }

    /// Clears the screen; the cursor stays.
    pub fn clear(&mut self)
        requires
            old(self).wf(),
        ensures
            final(self).wf(),
            final(self)@ == (old(self)@.0.clear(), old(self)@.1),
    {
        self.parser.buffer.clear();
    }
}

impl Default for Terminal {
    fn default() -> (t: Terminal)
        ensures
            t.wf(),
            t@ == (BufferModel::initial(80, 24, 10000), InterpModel::initial()),
    {
        Terminal::new(80, 24, 10000)
    }
}

} // verus!
