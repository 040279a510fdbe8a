use tabssh::buffer::TerminalBuffer;
use tabssh::cell::{Cell, CellAttributes};
use tabssh::color::{color_from_256, Color, TerminalSize};
use tabssh::search::search;
use tabssh::terminal::{Terminal, TerminalParser};

fn cell(t: &Terminal, x: usize, y: usize) -> Cell {
    *t.buffer().get_cell(x, y).unwrap()
}

fn row_text(b: &TerminalBuffer, y: usize) -> String {
    b.get_row(y).unwrap().iter().map(|c| c.character).collect()
}

fn all_default(t: &Terminal) -> bool {
    let size = t.size();
    for y in 0..size.rows as usize {
        for x in 0..size.cols as usize {
            if cell(t, x, y) != Cell::default() {
                return false;
            }
        }
    }
    true
}

#[test]
fn cursor_commands_stay_on_screen() {
    let mut t = Terminal::new(10, 5, 100);
    let seqs: [&[u8]; 10] = [
        b"\x1b[999A", b"\x1b[999B", b"\x1b[999C", b"\x1b[999D", b"\x1b[999E", b"\x1b[999F",
        b"\x1b[999G", b"\x1b[999;999H", b"\x1b[999d", b"\x1b[0;0f",
    ];
    for s in seqs.iter() {
        t.process(s);
        let (x, y) = t.buffer().cursor_position();
        assert!(x < 10 && y < 5, "cursor off screen after {:?}", s);
    }
    t.process(b"\x1b[999;999H");
    assert_eq!(t.buffer().cursor_position(), (9, 4));
    t.process(b"\x1b[H");
    assert_eq!(t.buffer().cursor_position(), (0, 0));
}

#[test]
fn erase_display_resets_every_cell() {
    let mut t = Terminal::new(20, 6, 100);
    t.process(b"\x1b[1;31;44mhello\r\nworld\x1b[7m!!");
    assert!(!all_default(&t));
    t.process(b"\x1b[2J");
    assert!(all_default(&t));
}

#[test]
fn red_x_at_cursor() {
    let mut t = Terminal::new(20, 6, 100);
    t.process(b"\x1b[3;5H");
    let (x, y) = t.buffer().cursor_position();
    assert_eq!((x, y), (4, 2));
    t.process(b"\x1b[31mX");
    let c = cell(&t, x, y);
    assert_eq!(c.character, 'X');
    assert_eq!(c.fg, Color::red());
    assert_eq!(c.fg, Color::rgb(205, 49, 49));
    assert_eq!(t.buffer().cursor_position(), (5, 2));
}

#[test]
fn eighty_first_character_wraps() {
    let mut t = Terminal::new(80, 24, 100);
    let line: String = std::iter::repeat('a').take(80).collect();
    t.write(&line);
    assert_eq!(t.buffer().cursor_position(), (79, 0));
    t.write("b");
    assert_eq!(cell(&t, 0, 1).character, 'b');
    assert_eq!(t.buffer().cursor_position(), (1, 1));
    assert_eq!(t.buffer().scrollback_len(), 0);
}

#[test]
fn eighty_first_character_on_last_row_scrolls_once() {
    let mut t = Terminal::new(80, 24, 100);
    t.process(b"\x1b[24;1H");
    let line: String = std::iter::repeat('a').take(80).collect();
    t.write(&line);
    t.write("b");
    assert_eq!(t.buffer().scrollback_len(), 1);
    assert_eq!(cell(&t, 0, 23).character, 'b');
    assert_eq!(cell(&t, 0, 22).character, 'a');
    assert_eq!(t.buffer().cursor_position(), (1, 23));
}

#[test]
fn newline_at_bottom_adds_one_scrollback_row() {
    let mut t = Terminal::new(10, 3, 4);
    t.process(b"one\r\ntwo\r\nthree");
    assert_eq!(t.buffer().scrollback_len(), 0);
    t.process(b"\n");
    assert_eq!(t.buffer().scrollback_len(), 1);
    assert_eq!(row_text(t.buffer(), 0).trim_end(), "two");
    let first: String = t.buffer().get_scrollback_row(0).unwrap().iter().map(|c| c.character).collect();
    assert_eq!(first.trim_end(), "one");
    for _ in 0..20 {
        t.process(b"\n");
        assert!(t.buffer().scrollback_len() <= 4);
    }
    assert_eq!(t.buffer().scrollback_len(), 4);
}

#[test]
fn zero_scrollback_keeps_nothing() {
    let mut b = TerminalBuffer::new(5, 2, 0);
    b.write_str("a\nb\nc\n");
    assert_eq!(b.scrollback_len(), 0);
}

#[test]
fn alternate_screen_round_trip() {
    let mut t = Terminal::new(12, 4, 100);
    t.process(b"primary\r\nscreen\x1b[2;3H");
    let before: Vec<String> = (0..4).map(|y| row_text(t.buffer(), y)).collect();
    let cursor = t.buffer().cursor_position();
    t.process(b"\x1b[?1049h");
    assert!(all_default(&t));
    assert_eq!(t.buffer().cursor_position(), (0, 0));
    t.process(b"vim stuff\r\nmore");
    t.process(b"\x1b[?1049l");
    let after: Vec<String> = (0..4).map(|y| row_text(t.buffer(), y)).collect();
    assert_eq!(before, after);
    assert_eq!(t.buffer().cursor_position(), cursor);
}

#[test]
fn switch_to_alternate_twice_is_a_no_op() {
    let mut b = TerminalBuffer::new(5, 2, 10);
    b.write_str("ab");
    b.switch_to_alternate();
    b.write_str("x");
    b.switch_to_alternate();
    assert_eq!(b.get_cell(0, 0).unwrap().character, 'x');
    b.switch_to_main();
    assert_eq!(row_text(&b, 0), "ab   ");
    assert_eq!(b.cursor_position(), (2, 0));
    b.switch_to_main();
    assert_eq!(row_text(&b, 0), "ab   ");
}

#[test]
fn sgr_zero_resets_pen() {
    let mut t = Terminal::new(10, 2, 10);
    t.process(b"\x1b[1;2;3;4;5;7;8;9;38;2;1;2;3;48;5;200m");
    let a = t.buffer().current_attrs();
    assert!(a.bold && a.dim && a.italic && a.underline && a.blink && a.inverse && a.hidden && a.strikethrough);
    t.process(b"\x1b[0m");
    assert_eq!(t.buffer().current_attrs(), CellAttributes::default());
    t.process(b"Z");
    let c = cell(&t, 0, 0);
    assert_eq!(c.fg, Color::white());
    assert_eq!(c.bg, Color::black());
    assert_eq!(c.attrs, CellAttributes::default());
}

#[test]
fn split_sequence_equals_whole() {
    let mut whole = Terminal::new(10, 4, 10);
    whole.process(b"abc\x1b[2J\x1b[2;3Hx");
    let mut split = Terminal::new(10, 4, 10);
    split.process(b"abc\x1b");
    split.process(b"[");
    split.process(b"2");
    split.process(b"J\x1b[2;");
    split.process(b"3Hx");
    for y in 0..4 {
        assert_eq!(row_text(whole.buffer(), y), row_text(split.buffer(), y));
    }
    assert_eq!(whole.buffer().cursor_position(), split.buffer().cursor_position());
    assert_eq!(cell(&split, 2, 1).character, 'x');
}

#[test]
fn extended_colors() {
    let mut t = Terminal::new(10, 2, 10);
    t.process(b"\x1b[38;5;196m\x1b[48;2;10;20;30mA\x1b[92;103mB\x1b[39;49mC");
    let a = cell(&t, 0, 0);
    assert_eq!(a.fg, Color::rgb(255, 0, 0));
    assert_eq!(a.bg, Color::rgb(10, 20, 30));
    let b = cell(&t, 1, 0);
    assert_eq!(b.fg, Color::bright_green());
    assert_eq!(b.bg, Color::bright_yellow());
    let c = cell(&t, 2, 0);
    assert_eq!(c.fg, Color::white());
    assert_eq!(c.bg, Color::black());
}

#[test]
fn palette_lookup() {
    assert_eq!(color_from_256(1), Color::red());
    assert_eq!(color_from_256(9), Color::bright_red());
    assert_eq!(color_from_256(16), Color::rgb(0, 0, 0));
    assert_eq!(color_from_256(21), Color::rgb(0, 0, 255));
    assert_eq!(color_from_256(231), Color::rgb(255, 255, 255));
    assert_eq!(color_from_256(232), Color::rgb(8, 8, 8));
    assert_eq!(color_from_256(255), Color::rgb(238, 238, 238));
    assert_eq!(color_from_256(300), Color::white());
}

#[test]
fn attribute_resets() {
    let mut t = Terminal::new(10, 2, 10);
    t.process(b"\x1b[1;2;3;4m\x1b[22;23m");
    let a = t.buffer().current_attrs();
    assert!(!a.bold && !a.dim && !a.italic && a.underline);
}

#[test]
fn control_characters() {
    let mut t = Terminal::new(20, 3, 10);
    t.process(b"ab\x08c");
    assert_eq!(row_text(t.buffer(), 0).trim_end(), "ac");
    t.process(b"\tX");
    assert_eq!(cell(&t, 8, 0).character, 'X');
    t.process(b"\r\x0bY\x07");
    assert_eq!(cell(&t, 0, 1).character, 'Y');
    t.process(b"\x1b[1;19H\t\tZ");
    assert_eq!(cell(&t, 19, 0).character, 'Z');
}

#[test]
fn erase_in_line_variants() {
    let mut t = Terminal::new(6, 2, 10);
    t.process(b"abcdef\x1b[1;3H\x1b[K");
    assert_eq!(row_text(t.buffer(), 0), "ab    ");
    t.process(b"\x1b[1;1Habcdef\x1b[1;3H\x1b[1K");
    assert_eq!(row_text(t.buffer(), 0), "   def");
    t.process(b"\x1b[2K");
    assert_eq!(row_text(t.buffer(), 0), "      ");
    t.process(b"\x1b[1;1Habcdef\x1b[1;2H\x1b[2X");
    assert_eq!(row_text(t.buffer(), 0), "a  def");
    assert_eq!(t.buffer().cursor_position(), (1, 0));
}

#[test]
fn erase_in_display_variants() {
    let mut t = Terminal::new(3, 3, 10);
    t.process(b"abcdefghi\x1b[2;2H\x1b[J");
    assert_eq!(row_text(t.buffer(), 0), "abc");
    assert_eq!(row_text(t.buffer(), 1), "d  ");
    assert_eq!(row_text(t.buffer(), 2), "   ");
    t.process(b"\x1b[1;1Habcdefghi\x1b[2;2H\x1b[1J");
    assert_eq!(row_text(t.buffer(), 0), "   ");
    assert_eq!(row_text(t.buffer(), 1), "  f");
    assert_eq!(row_text(t.buffer(), 2), "ghi");
}

#[test]
fn insert_and_delete_characters() {
    let mut t = Terminal::new(6, 2, 10);
    t.process(b"abcdef\x1b[1;2H\x1b[2@");
    assert_eq!(row_text(t.buffer(), 0), "a  bcd");
    t.process(b"\x1b[3P");
    assert_eq!(row_text(t.buffer(), 0), "acd   ");
    t.process(b"\x1b[4hXY\x1b[4l");
    assert_eq!(row_text(t.buffer(), 0), "aXYcd ");
}

#[test]
fn insert_and_delete_lines_inside_region() {
    let mut t = Terminal::new(3, 4, 10);
    t.process(b"aaabbbcccddd");
    t.process(b"\x1b[2;3r\x1b[2;1H\x1b[L");
    assert_eq!(row_text(t.buffer(), 0), "aaa");
    assert_eq!(row_text(t.buffer(), 1), "   ");
    assert_eq!(row_text(t.buffer(), 2), "bbb");
    assert_eq!(row_text(t.buffer(), 3), "ddd");
    t.process(b"\x1b[M");
    assert_eq!(row_text(t.buffer(), 1), "bbb");
    assert_eq!(row_text(t.buffer(), 2), "   ");
    t.process(b"\x1b[4;1H\x1b[L");
    assert_eq!(row_text(t.buffer(), 3), "ddd");
}

#[test]
fn scroll_region_keeps_scrollback_clean() {
    let mut t = Terminal::new(3, 4, 10);
    t.process(b"aaabbbcccddd\x1b[2;3r\x1b[3;1H\n\n");
    assert_eq!(t.buffer().scrollback_len(), 0);
    assert_eq!(row_text(t.buffer(), 0), "aaa");
    assert_eq!(row_text(t.buffer(), 3), "ddd");
    t.process(b"\x1b[r\x1b[S");
    assert_eq!(t.buffer().scrollback_len(), 1);
    t.process(b"\x1b[T");
    assert_eq!(row_text(t.buffer(), 0), "   ");
}

#[test]
fn escape_sequences_without_bracket() {
    let mut t = Terminal::new(5, 3, 10);
    t.process(b"\x1b[2;3H\x1b7\x1b[H\x1b8");
    assert_eq!(t.buffer().cursor_position(), (2, 1));
    t.process(b"\x1b[1mab\x1bc");
    assert!(all_default(&t));
    assert_eq!(t.buffer().cursor_position(), (0, 0));
    assert_eq!(t.buffer().current_attrs(), CellAttributes::default());
    t.process(b"\x1b(Bq");
    assert_eq!(cell(&t, 0, 0).character, 'q');
}

#[test]
fn origin_mode_addresses_the_region() {
    let mut t = Terminal::new(5, 6, 10);
    t.process(b"\x1b[2;4r\x1b[?6h");
    assert_eq!(t.buffer().cursor_position(), (0, 1));
    t.process(b"\x1b[9;1H");
    assert_eq!(t.buffer().cursor_position(), (0, 3));
    t.process(b"\x1b[9A");
    assert_eq!(t.buffer().cursor_position(), (0, 1));
}

#[test]
fn auto_wrap_off_overwrites_last_column() {
    let mut t = Terminal::new(3, 2, 10);
    t.process(b"\x1b[?7labcde");
    assert_eq!(row_text(t.buffer(), 0), "abe");
    assert_eq!(row_text(t.buffer(), 1), "   ");
}

#[test]
fn utf8_and_invalid_bytes() {
    let mut t = Terminal::new(6, 2, 10);
    t.process("é".as_bytes());
    t.process(&[0xE2, 0x94]);
    t.process(&[0x80]);
    t.process(&[0xFF, b'k', 0xC3, b'z']);
    assert_eq!(row_text(t.buffer(), 0), "é─\u{FFFD}k\u{FFFD}z");
}

#[test]
fn osc_strings_are_discarded() {
    let mut t = Terminal::new(10, 2, 10);
    t.process(b"\x1b]0;my title\x07ok\x1b]2;other\x1b\\!");
    assert_eq!(row_text(t.buffer(), 0).trim_end(), "ok!");
}

#[test]
fn malformed_input_is_absorbed() {
    let mut t = Terminal::new(8, 3, 10);
    t.process(b"\x1b[99999999;x\x1b[?1;2;3;4;5;6;7;8;9;10;11;12;13;14;15;16;17;18;19;20;21;22;23;24;25;26;27;28;29;30;31;32;33;34;35z");
    t.process(b"\x1b[38;5m\x1b[48;2;1m\x1b[4:3m");
    t.process(b"ok");
    let (x, y) = t.buffer().cursor_position();
    assert!(x < 8 && y < 3);
    assert!(row_text(t.buffer(), 0).contains("ok"));
}

#[test]
fn resize_keeps_top_left() {
    let mut t = Terminal::new(4, 3, 10);
    t.process(b"abcdefghijk");
    t.resize(2, 2);
    assert_eq!(t.size(), TerminalSize::new(2, 2));
    assert_eq!(row_text(t.buffer(), 0), "ab");
    assert_eq!(row_text(t.buffer(), 1), "ef");
    assert!(t.buffer().get_row(2).is_none());
    assert_eq!(t.buffer().cursor_position(), (1, 1));
    t.resize(0, 0);
    assert_eq!(t.size(), TerminalSize::new(1, 1));
    t.resize(5, 3);
    assert_eq!(row_text(t.buffer(), 0), "a    ");
}

#[test]
fn write_and_clear_bypass_interpreter() {
    let mut t = Terminal::new(10, 2, 10);
    t.write("\x1b[2J");
    assert_eq!(cell(&t, 0, 0).character, '\x1b');
    t.clear();
    assert!(all_default(&t));
    assert_eq!(t.buffer().cursor_position(), (4, 0));
}

#[test]
fn parser_facade() {
    let mut p = TerminalParser::new(4, 2, 5);
    p.process(b"hi\x1b[2");
    p.process(b"D!");
    assert_eq!(row_text(p.buffer(), 0), "!i  ");
    p.resize(3, 1);
    assert_eq!(p.buffer().size(), TerminalSize::new(3, 1));
}

#[test]
fn default_sizes() {
    let t = Terminal::default();
    assert_eq!(t.size(), TerminalSize::new(80, 24));
    let b = TerminalBuffer::default();
    assert_eq!(b.size(), TerminalSize::default());
    assert!(b.get_cell(80, 0).is_none());
    assert!(b.get_cell(79, 23).is_some());
    assert!(b.get_scrollback_row(0).is_none());
}

#[test]
fn cell_model() {
    let mut c = Cell::with_colors('q', Color::red(), Color::blue());
    assert!(!c.is_empty());
    c.attrs.bold = true;
    c.clear();
    assert!(c.is_empty());
    assert_eq!(c.fg, Color::red());
    assert_eq!(c.attrs, CellAttributes::default());
    assert_eq!(Cell::new('z').fg, Color::white());
    assert!(!Cell::new('\0').is_empty());
    assert!(Cell::default().is_empty());
    let mut a = CellAttributes::default();
    a.italic = true;
    a.reset();
    assert_eq!(a, CellAttributes::default());
}

#[test]
fn buffer_direct_operations() {
    let mut b = TerminalBuffer::new(5, 3, 10);
    b.write_str("abcde");
    b.set_cursor(1, 0);
    b.erase_chars(10);
    assert_eq!(row_text(&b, 0), "a    ");
    b.move_cursor(-5, 7);
    assert_eq!(b.cursor_position(), (0, 2));
    b.set_fg(Color::green());
    b.set_bg(Color::cyan());
    b.write_char('g');
    assert_eq!(b.get_cell(0, 2).unwrap().fg, Color::green());
    assert_eq!(b.get_cell(0, 2).unwrap().bg, Color::cyan());
    b.reset_attrs();
    b.set_scroll_region(5, 1);
    b.reset_scroll_region();
    b.save_cursor();
    b.set_cursor(4, 0);
    b.restore_cursor();
    assert_eq!(b.cursor_position(), (1, 2));
    b.set_auto_wrap(false);
    b.set_insert_mode(false);
    b.set_origin_mode(false);
    b.set_attr(CellAttributes { bold: true, ..CellAttributes::default() });
    assert!(b.current_attrs().bold);
    b.scroll_up(1);
    assert_eq!(b.scrollback_len(), 1);
    b.scroll_down(2);
    assert_eq!(row_text(&b, 0), "     ");
}

#[test]
fn search_scrollback_and_screen() {
    let mut t = Terminal::new(8, 2, 10);
    t.process(b"foo bar\r\nFoo\r\nbarfoo");
    assert_eq!(t.buffer().scrollback_len(), 1);
    assert_eq!(search(t.buffer(), "foo", true), vec![(0, 0), (2, 3)]);
    assert_eq!(search(t.buffer(), "foo", false), vec![(0, 0), (1, 0), (2, 3)]);
    assert_eq!(search(t.buffer(), "", false), vec![]);
    assert_eq!(search(t.buffer(), "oo", true), vec![(0, 1), (1, 1), (2, 4)]);
    assert_eq!(search(t.buffer(), "zzz", false), vec![]);
}

#[test]
fn buffer_mut_changes_the_buffer_only() {
    let mut t = Terminal::new(6, 2, 10);
    t.process(b"\x1b[");
    t.buffer_mut().write_str("hi");
    assert_eq!(row_text(t.buffer(), 0), "hi    ");
    t.process(b"2D!");
    assert_eq!(row_text(t.buffer(), 0), "!i    ");
    let mut p = TerminalParser::new(3, 1, 0);
    p.buffer_mut().set_cursor(2, 0);
    p.process(b"z");
    assert_eq!(row_text(p.buffer(), 0), "  z");
}

#[test]
fn cursor_never_reaches_cols() {
    let mut b = TerminalBuffer::new(1, 3, 10);
    b.write_char('a');
    assert_eq!(b.cursor_position(), (0, 0));
    b.write_char('b');
    assert_eq!(b.get_cell(0, 1).unwrap().character, 'b');
    assert_eq!(b.cursor_position(), (0, 1));

    let mut p = TerminalParser::new(1, 2, 10);
    p.process(b"a");
    assert_eq!(p.buffer().cursor_position(), (0, 0));
}

#[test]
fn saved_cursor_stays_on_screen() {
    let mut b = TerminalBuffer::new(4, 2, 10);
    b.write_str("abcd");
    assert_eq!(b.cursor_position(), (3, 0));
    b.save_cursor();
    b.set_cursor(0, 1);
    b.restore_cursor();
    assert_eq!(b.cursor_position(), (3, 0));
    b.write_char('e');
    assert_eq!(b.get_cell(3, 0).unwrap().character, 'e');
    assert_eq!(b.cursor_position(), (3, 0));
    b.write_char('\x08');
    b.write_char('f');
    assert_eq!(row_text(&b, 0), "abcf");
    assert_eq!(row_text(&b, 1), "    ");
}

#[test]
fn scrollback_evicts_oldest_first() {
    let mut b = TerminalBuffer::new(2, 2, 3);
    b.write_str("r1\r\nr2\r\nr3\r\nr4\r\nr5\r\nr6");
    assert_eq!(b.scrollback_len(), 3);
    let rows: Vec<String> = (0..3)
        .map(|i| b.get_scrollback_row(i).unwrap().iter().map(|c| c.character).collect())
        .collect();
    assert_eq!(rows, vec!["r2", "r3", "r4"]);
    assert_eq!(row_text(&b, 0), "r5");
    assert_eq!(row_text(&b, 1), "r6");
}

#[test]
fn search_folds_non_ascii_case() {
    let mut t = Terminal::new(8, 2, 10);
    t.process("ÄBC äbc".as_bytes());
    assert_eq!(search(t.buffer(), "äbc", false), vec![(0, 0), (0, 4)]);
    assert_eq!(search(t.buffer(), "äbc", true), vec![(0, 4)]);
    assert_eq!(search(t.buffer(), "ÄB", false), vec![(0, 0), (0, 4)]);
}

#[test]
fn alternate_screen_keeps_scrollback() {
    let mut t = Terminal::new(4, 2, 10);
    t.process(b"a\r\nb\r\nc");
    let before = t.buffer().scrollback_len();
    t.process(b"\x1b[?1049h\x1b[?1049l");
    assert_eq!(t.buffer().scrollback_len(), before);
}
