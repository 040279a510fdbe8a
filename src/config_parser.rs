//! SSH client configuration (`~/.ssh/config`): host blocks and their options.

use vstd::prelude::*;
use vstd::string::StringExecFns;
use crate::helpers::push_char;
use crate::ssh_config::{parse_forward_words, forward_spec, parse_u16, parse_u16_spec, parse_u32, parse_u32_spec, wild_match, match_from, chars_of, substring, words_view};

verus! {

/// The characters `char::is_whitespace` accepts (Unicode White_Space).
pub open spec fn is_ws(c: char) -> bool {
    ('\u{9}' <= c && c <= '\u{d}') || c == ' ' || c == '\u{85}' || c == '\u{a0}' || c == '\u{1680}'
        || ('\u{2000}' <= c && c <= '\u{200a}') || c == '\u{2028}' || c == '\u{2029}' || c == '\u{202f}'
        || c == '\u{205f}' || c == '\u{3000}'
}

fn is_ws_exec(c: char) -> (r: bool)
    ensures
        r == is_ws(c),
{
    ('\u{9}' <= c && c <= '\u{d}') || c == ' ' || c == '\u{85}' || c == '\u{a0}' || c == '\u{1680}'
        || ('\u{2000}' <= c && c <= '\u{200a}') || c == '\u{2028}' || c == '\u{2029}' || c == '\u{202f}'
        || c == '\u{205f}' || c == '\u{3000}'
}

/// ASCII letters folded to lower case.
pub open spec fn ascii_lower(c: char) -> char {
    if 'A' <= c && c <= 'Z' {
        ((c as u32) + 32) as char
    } else {
        c
    }
}

/// `w` equals the lower-case keyword `k`, ignoring ASCII case.
pub open spec fn keyword_is(w: Seq<char>, k: Seq<char>) -> bool {
    w.len() == k.len() && forall|i: int| 0 <= i < w.len() ==> ascii_lower(#[trigger] w[i]) == k[i]
}

/// The options of one `Host` block.
pub struct HostModel {
    pub host_pattern: Seq<char>,
    pub hostname: Option<Seq<char>>,
    pub port: Option<u16>,
    pub user: Option<Seq<char>>,
    pub identity_file: Seq<Seq<char>>,
    pub proxy_jump: Option<Seq<char>>,
    pub proxy_command: Option<Seq<char>>,
    pub local_forward: Seq<(u16, Seq<char>, u16)>,
    pub remote_forward: Seq<(u16, Seq<char>, u16)>,
    pub dynamic_forward: Seq<u16>,
    pub compression: Option<bool>,
    pub server_alive_interval: Option<u32>,
}

pub open spec fn new_host(pattern: Seq<char>) -> HostModel {
    HostModel {
        host_pattern: pattern,
        hostname: None,
        port: None,
        user: None,
        identity_file: Seq::empty(),
        proxy_jump: None,
        proxy_command: None,
        local_forward: Seq::empty(),
        remote_forward: Seq::empty(),
        dynamic_forward: Seq::empty(),
        compression: None,
        server_alive_interval: None,
    }
}

/// The words joined by single spaces.
pub open spec fn join_words(ws: Seq<Seq<char>>) -> Seq<char>
    decreases ws.len(),
{
    if ws.len() == 0 {
        Seq::empty()
    } else if ws.len() == 1 {
        ws[0]
    } else {
        join_words(ws.drop_last()) + seq![' '] + ws.last()
    }
}

/// A leading `~` replaced by the home directory, when there is one.
pub open spec fn expand_tilde(w: Seq<char>, home: Option<Seq<char>>) -> Seq<char> {
    if w.len() > 0 && w[0] == '~' && home is Some {
        home->0 + w.drop_first()
    } else {
        w
    }
}

/// The last host with pattern `p`, or -1.
pub open spec fn find_host(hosts: Seq<HostModel>, p: Seq<char>) -> int
    decreases hosts.len(),
{
    if hosts.len() == 0 {
        -1
    } else if hosts.last().host_pattern == p {
        hosts.len() - 1
    } else {
        find_host(hosts.drop_last(), p)
    }
}

/// Stores a finished host block: it replaces the block with the same
/// pattern, or is added at the end.
pub open spec fn save_host(hosts: Seq<HostModel>, h: HostModel) -> Seq<HostModel> {
    let i = find_host(hosts, h.host_pattern);
    if i >= 0 {
        hosts.update(i, h)
    } else {
        hosts.push(h)
    }
}

/// The reader's state: the stored blocks, the block being read, the words
/// of the current line and the word being read.
pub struct CfgModel {
    pub hosts: Seq<HostModel>,
    pub current: Option<HostModel>,
    pub words: Seq<Seq<char>>,
    pub word: Seq<char>,
}

/// An option line applied to the block being read. Keywords are matched
/// ignoring ASCII case; unknown keywords, missing values and values that do
/// not parse leave the block as it is.
pub open spec fn option_update(h: HostModel, ws: Seq<Seq<char>>, home: Option<Seq<char>>) -> HostModel {
    let k = ws[0];
    if keyword_is(k, "hostname"@) && ws.len() > 1 {
        HostModel { hostname: Some(ws[1]), ..h }
    } else if keyword_is(k, "port"@) && ws.len() > 1 {
        match parse_u16_spec(ws[1]) {
            Some(p) => HostModel { port: Some(p), ..h },
            None => h,
        }
    } else if keyword_is(k, "user"@) && ws.len() > 1 {
        HostModel { user: Some(ws[1]), ..h }
    } else if keyword_is(k, "identityfile"@) && ws.len() > 1 {
        HostModel { identity_file: h.identity_file.push(expand_tilde(ws[1], home)), ..h }
    } else if keyword_is(k, "proxyjump"@) && ws.len() > 1 {
        HostModel { proxy_jump: Some(ws[1]), ..h }
    } else if keyword_is(k, "proxycommand"@) && ws.len() > 1 {
        HostModel { proxy_command: Some(join_words(ws.skip(1))), ..h }
    } else if keyword_is(k, "localforward"@) && ws.len() > 2 {
        match forward_spec(ws.skip(1)) {
            Some(f) => HostModel { local_forward: h.local_forward.push(f), ..h },
            None => h,
        }
    } else if keyword_is(k, "remoteforward"@) && ws.len() > 2 {
        match forward_spec(ws.skip(1)) {
            Some(f) => HostModel { remote_forward: h.remote_forward.push(f), ..h },
            None => h,
        }
    } else if keyword_is(k, "dynamicforward"@) && ws.len() > 1 {
        match parse_u16_spec(ws[1]) {
            Some(p) => HostModel { dynamic_forward: h.dynamic_forward.push(p), ..h },
            None => h,
        }
    } else if keyword_is(k, "compression"@) && ws.len() > 1 {
        HostModel { compression: Some(keyword_is(ws[1], "yes"@)), ..h }
    } else if keyword_is(k, "serveraliveinterval"@) && ws.len() > 1 {
        match parse_u32_spec(ws[1]) {
            Some(v) => HostModel { server_alive_interval: Some(v), ..h },
            None => h,
        }
    } else {
        h
    }
}

/// One line, as words, applied to the state: blank lines and lines starting
/// with `#` are skipped; `Host` stores the block being read and opens a new
/// one (none without a pattern); other lines change the open block, if any.
pub open spec fn apply_line(st: CfgModel, ws: Seq<Seq<char>>, home: Option<Seq<char>>) -> CfgModel {
    if ws.len() == 0 || ws[0][0] == '#' {
        st
    } else if keyword_is(ws[0], "host"@) {
        CfgModel {
            hosts: match st.current {
                Some(h) => save_host(st.hosts, h),
                None => st.hosts,
            },
            current: if ws.len() > 1 {
                Some(new_host(ws[1]))
            } else {
                None
            },
            ..st
        }
    } else {
        match st.current {
            Some(h) => CfgModel { current: Some(option_update(h, ws, home)), ..st },
            None => st,
        }
    }
}

/// The word being read, if any, closed and added to the line's words.
pub open spec fn flush_word(st: CfgModel) -> CfgModel {
    if st.word.len() > 0 {
        CfgModel { words: st.words.push(st.word), word: Seq::empty(), ..st }
    } else {
        st
    }
}

/// One character of the file: a line feed ends the line, whitespace ends a
/// word, anything else continues the word.
pub open spec fn cfg_step(st: CfgModel, c: char, home: Option<Seq<char>>) -> CfgModel {
    if c == '\n' {
        let f = flush_word(st);
        apply_line(CfgModel { words: Seq::empty(), ..f }, f.words, home)
    } else if is_ws(c) {
        flush_word(st)
    } else {
        CfgModel { word: st.word.push(c), ..st }
    }
}

pub open spec fn cfg_feed(st: CfgModel, s: Seq<char>, home: Option<Seq<char>>) -> CfgModel
    decreases s.len(),
{
    if s.len() == 0 {
        st
    } else {
        cfg_step(cfg_feed(st, s.drop_last(), home), s.last(), home)
    }
}

/// The blocks after reading `content` on top of `hosts`: the last line ends
/// at the end of the text, and the last block is stored.
pub open spec fn parsed(hosts: Seq<HostModel>, content: Seq<char>, home: Option<Seq<char>>) -> Seq<HostModel> {
    let st = cfg_step(
        cfg_feed(CfgModel { hosts, current: None, words: Seq::empty(), word: Seq::empty() }, content, home),
        '\n',
        home,
    );
    match st.current {
        Some(h) => save_host(st.hosts, h),
        None => st.hosts,
    }
}

/// The first host whose pattern matches `name` as a wildcard pattern, or -1.
pub open spec fn first_wild(hosts: Seq<HostModel>, name: Seq<char>) -> int
    decreases hosts.len(),
{
    if hosts.len() == 0 {
        -1
    } else if first_wild(hosts.drop_last(), name) >= 0 {
        first_wild(hosts.drop_last(), name)
    } else if wild_match(hosts.last().host_pattern, name) {
        hosts.len() - 1
    } else {
        -1
    }
}

/// The block for `name`: the one with exactly that pattern, else the first
/// whose pattern matches it.
pub open spec fn lookup(hosts: Seq<HostModel>, name: Seq<char>) -> int {
    if find_host(hosts, name) >= 0 {
        find_host(hosts, name)
    } else {
        first_wild(hosts, name)
    }
}

/// One `Host` block of an SSH configuration.
#[derive(Debug, Clone)]
pub struct HostConfig {
    pub host_pattern: String,
    pub hostname: Option<String>,
    pub port: Option<u16>,
    pub user: Option<String>,
    pub identity_file: Vec<String>,
    pub proxy_jump: Option<String>,
    pub proxy_command: Option<String>,
    pub local_forward: Vec<(u16, String, u16)>,
    pub remote_forward: Vec<(u16, String, u16)>,
    pub dynamic_forward: Vec<u16>,
    pub compression: Option<bool>,
    pub server_alive_interval: Option<u32>,
}

pub open spec fn opt_view(o: Option<String>) -> Option<Seq<char>> {
    match o {
        Some(s) => Some(s@),
        None => None,
    }
}

pub open spec fn strings_view(v: Seq<String>) -> Seq<Seq<char>> {
    Seq::new(v.len(), |i: int| v[i]@)
}

pub open spec fn forwards_view(v: Seq<(u16, String, u16)>) -> Seq<(u16, Seq<char>, u16)> {
    Seq::new(v.len(), |i: int| (v[i].0, v[i].1@, v[i].2))
}

impl View for HostConfig {
    type V = HostModel;

    open spec fn view(&self) -> HostModel {
        HostModel {
            host_pattern: self.host_pattern@,
            hostname: opt_view(self.hostname),
            port: self.port,
            user: opt_view(self.user),
            identity_file: strings_view(self.identity_file@),
            proxy_jump: opt_view(self.proxy_jump),
            proxy_command: opt_view(self.proxy_command),
            local_forward: forwards_view(self.local_forward@),
            remote_forward: forwards_view(self.remote_forward@),
            dynamic_forward: self.dynamic_forward@,
            compression: self.compression,
            server_alive_interval: self.server_alive_interval,
        }
    }
}

pub open spec fn hosts_view(v: Seq<HostConfig>) -> Seq<HostModel> {
    Seq::new(v.len(), |i: int| v[i]@)
}

fn string_of(v: &Vec<char>) -> (r: String)
    ensures
        r@ == v@,
{
    let r = substring(v, 0, v.len());
    assert(v@.subrange(0, v@.len() as int) =~= v@);
    r
}

fn keyword_eq(w: &Vec<char>, k: &str) -> (r: bool)
    ensures
        r == keyword_is(w@, k@),
{
    let kc = chars_of(k);
    if w.len() != kc.len() {
        return false;
    }
    let mut i: usize = 0;
    while i < w.len()
        invariant
            i <= w@.len(),
            w@.len() == kc@.len(),
            kc@ == k@,
            forall|j: int| 0 <= j < i ==> ascii_lower(#[trigger] w@[j]) == kc@[j],
        decreases w@.len() - i,
    {
        let c = w[i];
        let lc = if 'A' <= c && c <= 'Z' { ((c as u8) + 32) as char } else { c };
        if lc != kc[i] {
            assert(ascii_lower(w@[i as int]) != k@[i as int]);
            return false;
        }
        i += 1;
    }
    true
}

fn new_host_exec(pattern: &Vec<char>) -> (h: HostConfig)
    ensures
        h@ == new_host(pattern@),
{
    let h = HostConfig {
        host_pattern: string_of(pattern),
        hostname: None,
        port: None,
        user: None,
        identity_file: Vec::new(),
        proxy_jump: None,
        proxy_command: None,
        local_forward: Vec::new(),
        remote_forward: Vec::new(),
        dynamic_forward: Vec::new(),
        compression: None,
        server_alive_interval: None,
    };
    assert(h@.identity_file =~= Seq::empty());
    assert(h@.local_forward =~= Seq::empty());
    assert(h@.remote_forward =~= Seq::empty());
    h
}

fn join_exec(ws: &Vec<Vec<char>>, from: usize) -> (r: String)
    requires
        from <= ws@.len(),
    ensures
        r@ == join_words(words_view(ws@).skip(from as int)),
{
    let ghost all = words_view(ws@).skip(from as int);
    let mut r = String::new();
    let mut i = from;
    while i < ws.len()
        invariant
            from <= i <= ws@.len(),
            all == words_view(ws@).skip(from as int),
            r@ == join_words(all.take(i - from)),
        decreases ws@.len() - i,
    {
        let ghost t = all.take(i - from + 1);
        assert(t.drop_last() =~= all.take(i - from));
        assert(t.last() == ws@[i as int]@);
        if i > from {
            push_char(&mut r, ' ');
        } else {
            assert(t =~= seq![ws@[i as int]@]);
        }
        let w = string_of(&ws[i]);
        r.append(w.as_str());
        i += 1;
        assert(r@ =~= join_words(all.take(i - from)));
    }
    assert(all.take(ws@.len() - from) =~= all);
    r
}

fn expand_tilde_exec(w: &Vec<char>, home: &Option<String>) -> (r: String)
    ensures
        r@ == expand_tilde(w@, opt_view(*home)),
{
    if w.len() > 0 && w[0] == '~' {
        match home {
            Some(hd) => {
                let mut r = hd.clone();
                let rest = substring(w, 1, w.len());
                r.append(rest.as_str());
                assert(w@.subrange(1, w@.len() as int) =~= w@.drop_first());
                r
            },
            None => string_of(w),
        }
    } else {
        string_of(w)
    }
}

fn save_host_exec(hosts: &mut Vec<HostConfig>, h: HostConfig)
    ensures
        hosts_view(final(hosts)@) == save_host(hosts_view(old(hosts)@), h@),
{
    let ghost hv = hosts_view(hosts@);
    let mut i = hosts.len();
    assert(hv.take(i as int) =~= hv);
    while i > 0
        invariant
            i <= hosts@.len(),
            hosts@ == old(hosts)@,
            hv == hosts_view(hosts@),
            find_host(hv, h@.host_pattern) == find_host(hv.take(i as int), h@.host_pattern),
        decreases i,
    {
        assert(hv.take(i as int).drop_last() =~= hv.take(i - 1));
        if hosts[i - 1].host_pattern == h.host_pattern {
            assert(hv.take(i as int).last() == hosts@[i - 1]@);
            assert(hv.take(i as int).last().host_pattern == h@.host_pattern);
            assert(find_host(hv, h@.host_pattern) == i - 1);
            hosts.set(i - 1, h);
            assert(hosts_view(hosts@) =~= hv.update(i - 1, h@));
            return;
        }
        i -= 1;
    }
    assert(hv.take(0) =~= Seq::<HostModel>::empty());
    hosts.push(h);
    assert(hosts_view(hosts@) =~= hv.push(h@));
}

fn push_string(v: &mut Vec<String>, s: String)
    ensures
        strings_view(final(v)@) == strings_view(old(v)@).push(s@),
{
    v.push(s);
    assert(strings_view(v@) =~= strings_view(old(v)@).push(s@));
}

fn push_forward(v: &mut Vec<(u16, String, u16)>, f: (u16, String, u16))
    ensures
        forwards_view(final(v)@) == forwards_view(old(v)@).push((f.0, f.1@, f.2)),
{
    v.push(f);
    assert(forwards_view(v@) =~= forwards_view(old(v)@).push((f.0, f.1@, f.2)));
}

/// Applies an option line to a block (see `option_update`).
fn update_host(h: HostConfig, ws: &Vec<Vec<char>>, home: &Option<String>) -> (r: HostConfig)
    requires
        ws@.len() > 0,
    ensures
        r@ == option_update(h@, words_view(ws@), opt_view(*home)),
{
    let ghost wv = words_view(ws@);
    assert(wv[0] == ws@[0]@);
    if ws.len() > 1 {
        assert(wv[1] == ws@[1]@);
    }
    let mut h = h;
    let n = ws.len();
    let k = &ws[0];
    if keyword_eq(k, "hostname") && n > 1 {
        h.hostname = Some(string_of(&ws[1]));
    } else if keyword_eq(k, "port") && n > 1 {
        proof {
            assert(ws@[1]@.subrange(0, ws@[1]@.len() as int) =~= ws@[1]@);
        }
        match parse_u16(&ws[1], 0, ws[1].len()) {
            Some(p) => h.port = Some(p),
            None => {},
        }
    } else if keyword_eq(k, "user") && n > 1 {
        h.user = Some(string_of(&ws[1]));
    } else if keyword_eq(k, "identityfile") && n > 1 {
        let path = expand_tilde_exec(&ws[1], home);
        push_string(&mut h.identity_file, path);
    } else if keyword_eq(k, "proxyjump") && n > 1 {
        h.proxy_jump = Some(string_of(&ws[1]));
    } else if keyword_eq(k, "proxycommand") && n > 1 {
        h.proxy_command = Some(join_exec(ws, 1));
    } else if keyword_eq(k, "localforward") && n > 2 {
        match parse_forward_words(ws, 1) {
            Some(f) => push_forward(&mut h.local_forward, f),
            None => {},
        }
    } else if keyword_eq(k, "remoteforward") && n > 2 {
        match parse_forward_words(ws, 1) {
            Some(f) => push_forward(&mut h.remote_forward, f),
            None => {},
        }
    } else if keyword_eq(k, "dynamicforward") && n > 1 {
        proof {
            assert(ws@[1]@.subrange(0, ws@[1]@.len() as int) =~= ws@[1]@);
        }
        match parse_u16(&ws[1], 0, ws[1].len()) {
            Some(p) => h.dynamic_forward.push(p),
            None => {},
        }
    } else if keyword_eq(k, "compression") && n > 1 {
        h.compression = Some(keyword_eq(&ws[1], "yes"));
    } else if keyword_eq(k, "serveraliveinterval") && n > 1 {
        proof {
            assert(ws@[1]@.subrange(0, ws@[1]@.len() as int) =~= ws@[1]@);
        }
        match parse_u32(&ws[1], 0, ws[1].len()) {
            Some(v) => h.server_alive_interval = Some(v),
            None => {},
        }
    }
    h
}

pub open spec fn opt_host_view(o: Option<HostConfig>) -> Option<HostModel> {
    match o {
        Some(h) => Some(h@),
        None => None,
    }
}

/// Every word is non-empty.
pub open spec fn words_nonempty(ws: Seq<Seq<char>>) -> bool {
    forall|i: int| 0 <= i < ws.len() ==> (#[trigger] ws[i]).len() > 0
}

/// The state of a configuration file being read character by character.
struct ConfigReader {
    hosts: Vec<HostConfig>,
    current: Option<HostConfig>,
    words: Vec<Vec<char>>,
    word: Vec<char>,
}

impl View for ConfigReader {
    type V = CfgModel;

    closed spec fn view(&self) -> CfgModel {
        CfgModel {
            hosts: hosts_view(self.hosts@),
            current: opt_host_view(self.current),
            words: words_view(self.words@),
            word: self.word@,
        }
    }
}

impl ConfigReader {
    fn flush_word(&mut self)
        requires
            words_nonempty(old(self)@.words),
        ensures
            words_nonempty(final(self)@.words),
            final(self)@ == flush_word(old(self)@),
    {
        if self.word.len() > 0 {
            let mut w: Vec<char> = Vec::new();
            std::mem::swap(&mut self.word, &mut w);
            let ghost ws0 = self.words@;
            self.words.push(w);
            assert(words_view(self.words@) =~= words_view(ws0).push(w@));
            assert(self.word@ =~= Seq::<char>::empty());
        }
    }

    fn apply_line(&mut self, ws: Vec<Vec<char>>, home: &Option<String>)
        requires
            words_nonempty(words_view(ws@)),
        ensures
            final(self)@ == apply_line(old(self)@, words_view(ws@), opt_view(*home)),
    {
        let ghost wv = words_view(ws@);
        if ws.len() == 0 {
            return;
        }
        assert(wv[0] == ws@[0]@);
        assert(wv[0].len() > 0);
        if ws[0][0] == '#' {
            return;
        }
        if keyword_eq(&ws[0], "host") {
            let mut slot: Option<HostConfig> = None;
            std::mem::swap(&mut self.current, &mut slot);
            match slot {
                Some(h) => save_host_exec(&mut self.hosts, h),
                None => {},
            }
            if ws.len() > 1 {
                assert(wv[1] == ws@[1]@);
                self.current = Some(new_host_exec(&ws[1]));
            }
            return;
        }
        let mut slot: Option<HostConfig> = None;
        std::mem::swap(&mut self.current, &mut slot);
        match slot {
            Some(h) => {
                self.current = Some(update_host(h, &ws, home));
            },
            None => {},
        }
    }

    fn step(&mut self, c: char, home: &Option<String>)
        requires
            words_nonempty(old(self)@.words),
        ensures
            words_nonempty(final(self)@.words),
            final(self)@ == cfg_step(old(self)@, c, opt_view(*home)),
    {
        if c == '\n' {
            self.flush_word();
            let mut ws: Vec<Vec<char>> = Vec::new();
            std::mem::swap(&mut self.words, &mut ws);
            assert(words_view(self.words@) =~= Seq::<Seq<char>>::empty());
            self.apply_line(ws, home);
        } else if is_ws_exec(c) {
            self.flush_word();
        } else {
            self.word.push(c);
        }
    }
}

/// Relies on `dirs::home_dir`: the user's home directory, if it can be
/// found; it depends on the environment, so nothing is promised of it.
#[verifier::external_body]
fn home_dir_text() -> (r: Option<String>) {
    dirs::home_dir().map(|p| p.to_string_lossy().into_owned())
}

/// SSH configuration: the `Host` blocks read so far, one per pattern, in
/// the order their patterns first appeared.
pub struct SshConfigParser {
    configs: Vec<HostConfig>,
}

impl View for SshConfigParser {
    type V = Seq<HostModel>;

    closed spec fn view(&self) -> Seq<HostModel> {
        hosts_view(self.configs@)
    }
}

impl SshConfigParser {
    pub fn new() -> (p: SshConfigParser)
        ensures
            p@ == Seq::<HostModel>::empty(),
    {
        let p = SshConfigParser { configs: Vec::new() };
        assert(p@ =~= Seq::<HostModel>::empty());
        p
    }

    /// Reads configuration text, with `home` standing for a leading `~` in
    /// identity file paths. Blocks with a pattern already held replace it.
    pub fn parse_content_with_home(&mut self, content: &str, home: Option<String>) -> (r: Result<(), String>)
        ensures
            r is Ok,
            final(self)@ == parsed(old(self)@, content@, opt_view(home)),
    {
        let mut hosts: Vec<HostConfig> = Vec::new();
        std::mem::swap(&mut self.configs, &mut hosts);
        let mut reader = ConfigReader { hosts, current: None, words: Vec::new(), word: Vec::new() };
        let ghost st0 = reader@;
        assert(reader@.words =~= Seq::<Seq<char>>::empty());
        let ghost hv = opt_view(home);
        for c in it: content.chars()
            invariant
                it.seq() == content@,
                hv == opt_view(home),
                words_nonempty(reader@.words),
                reader@ == cfg_feed(st0, it.seq().take(it.index() as int), hv),
        {
            proof {
                assert(it.seq().take(it.index() + 1).drop_last() =~= it.seq().take(it.index() as int));
            }
            reader.step(c, &home);
        }
        proof {
            assert(content@.take(content@.len() as int) =~= content@);
        }
        reader.step('\n', &home);
        let ConfigReader { hosts, current, words: _, word: _ } = reader;
        let mut hosts = hosts;
        match current {
            Some(h) => save_host_exec(&mut hosts, h),
            None => {},
        }
        self.configs = hosts;
        Ok(())
    }

    /// Reads configuration text; a leading `~` in identity file paths stands
    /// for the user's home directory.
    pub fn parse_content(&mut self, content: &str) -> (r: Result<(), String>)
        ensures
            r is Ok,
            exists|home: Option<Seq<char>>| final(self)@ == parsed(old(self)@, content@, home),
    {
        let home = home_dir_text();
        self.parse_content_with_home(content, home)
    }

    /// The block for `host`: the one with exactly that pattern, else the
    /// first whose pattern matches it (`*` and `?` wildcards).
    pub fn get_config(&self, host: &str) -> (r: Option<&HostConfig>)
        ensures
            match r {
                Some(c) => lookup(self@, host@) >= 0 && c@ == self@[lookup(self@, host@)],
                None => lookup(self@, host@) < 0,
            },
    {
        let ghost hv = self@;
        let name = chars_of(host);
        let mut i = self.configs.len();
        assert(hv.take(i as int) =~= hv);
        while i > 0
            invariant
                i <= self.configs@.len(),
                hv == self@,
                name@ == host@,
                find_host(hv, host@) == find_host(hv.take(i as int), host@),
            decreases i,
        {
            assert(hv.take(i as int).drop_last() =~= hv.take(i - 1));
            if string_eq_chars(&self.configs[i - 1].host_pattern, &name) {
                assert(hv.take(i as int).last() == hv[i - 1]);
                return Some(&self.configs[i - 1]);
            }
            i -= 1;
        }
        assert(hv.take(0) =~= Seq::<HostModel>::empty());
        let mut j: usize = 0;
        while j < self.configs.len()
            invariant
                j <= self.configs@.len(),
                hv == self@,
                name@ == host@,
                first_wild(hv.take(j as int), host@) == -1,
                find_host(hv, host@) == -1,
            decreases self.configs@.len() - j,
        {
            let p = chars_of(self.configs[j].host_pattern.as_str());
            proof {
                assert(p@.skip(0) =~= p@);
                assert(name@.skip(0) =~= name@);
                assert(hv.take(j + 1).drop_last() =~= hv.take(j as int));
            }
            if match_from(&p, &name, 0, 0) {
                proof {
                    lemma_first_wild_prefix(hv, host@, j as int);
                }
                return Some(&self.configs[j]);
            }
            j += 1;
        }
        assert(hv.take(hv.len() as int) =~= hv);
        None
    }

    /// Every host pattern, in the order of the blocks.
    pub fn get_all_hosts(&self) -> (r: Vec<String>)
        ensures
            strings_view(r@) == Seq::new(self@.len(), |i: int| self@[i].host_pattern),
    {
        let mut r: Vec<String> = Vec::new();
        let mut i: usize = 0;
        while i < self.configs.len()
            invariant
                i <= self.configs@.len(),
                strings_view(r@) == Seq::new(i as nat, |k: int| self@[k].host_pattern),
            decreases self.configs@.len() - i,
        {
            let p = self.configs[i].host_pattern.clone();
            push_string(&mut r, p);
            i += 1;
            assert(strings_view(r@) =~= Seq::new(i as nat, |k: int| self@[k].host_pattern));
        }
        r
    }
}

impl Default for SshConfigParser {
    fn default() -> (p: SshConfigParser)
        ensures
            p@ == Seq::<HostModel>::empty(),
    {
        SshConfigParser::new()
    }
}

fn string_eq_chars(s: &String, c: &Vec<char>) -> (r: bool)
    ensures
        r == (s@ == c@),
{
    let sc = chars_of(s.as_str());
    if sc.len() != c.len() {
        return false;
    }
    let mut i: usize = 0;
    while i < sc.len()
        invariant
            i <= sc@.len(),
            sc@.len() == c@.len(),
            sc@ == s@,
            forall|j: int| 0 <= j < i ==> sc@[j] == c@[j],
        decreases sc@.len() - i,
    {
        if sc[i] != c[i] {
            return false;
        }
        i += 1;
    }
    assert(sc@ =~= c@);
    true
}

proof fn lemma_first_wild_prefix(hosts: Seq<HostModel>, name: Seq<char>, j: int)
    requires
        0 <= j < hosts.len(),
        first_wild(hosts.take(j), name) == -1,
        wild_match(hosts[j].host_pattern, name),
    ensures
        first_wild(hosts, name) == j,
    decreases hosts.len(),
{
    if j < hosts.len() - 1 {
        assert(hosts.drop_last().take(j) =~= hosts.take(j));
        assert(hosts.drop_last()[j] == hosts[j]);
        lemma_first_wild_prefix(hosts.drop_last(), name, j);
    } else {
        assert(hosts.drop_last() =~= hosts.take(j));
    }
}

} // verus!
