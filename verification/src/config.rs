//! The configuration file: `KEY="VALUE"` lines holding the chat endpoint, the
//! API key and an optional image endpoint.

use vstd::prelude::*;
use vstd::string::StrSliceExecFns;
use vstd::string::StringExecFns;

verus! {

/// The settings the client runs with. The image endpoint is optional; an
/// empty string means image generation is disabled.
pub struct Config {
    pub endpoint: String,
    pub key: String,
    pub image_endpoint: String,
}

/// Why a configuration text was rejected.
#[derive(Debug, PartialEq, Eq, Structural)]
pub enum ConfigError {
    MissingEndpoint,
    MissingKey,
}

/// The message shown for each rejection.
pub open spec fn config_error_message_spec(e: ConfigError) -> Seq<char> {
    match e {
        ConfigError::MissingEndpoint => "Missing X-AI-ENDPOINT"@,
        ConfigError::MissingKey => "Missing X-AI-KEY"@,
    }
}

impl ConfigError {
    /// The message shown for this rejection.
    pub fn message(&self) -> (r: String)
        ensures
            r@ == config_error_message_spec(*self),
    {
        match self {
            ConfigError::MissingEndpoint => String::from_str("Missing X-AI-ENDPOINT"),
            ConfigError::MissingKey => String::from_str("Missing X-AI-KEY"),
        }
    }
}

/// A character that trimming removes from the ends of a key or value
/// (the Unicode white-space set).
pub open spec fn is_ws(c: char) -> bool {
    ||| c == ' '
    ||| c == '\t'
    ||| c == '\n'
    ||| c == '\r'
    ||| c == '\u{b}'
    ||| c == '\u{c}'
    ||| c == '\u{85}'
    ||| c == '\u{a0}'
    ||| c == '\u{1680}'
    ||| c == '\u{2000}'
    ||| c == '\u{2001}'
    ||| c == '\u{2002}'
    ||| c == '\u{2003}'
    ||| c == '\u{2004}'
    ||| c == '\u{2005}'
    ||| c == '\u{2006}'
    ||| c == '\u{2007}'
    ||| c == '\u{2008}'
    ||| c == '\u{2009}'
    ||| c == '\u{200a}'
    ||| c == '\u{2028}'
    ||| c == '\u{2029}'
    ||| c == '\u{202f}'
    ||| c == '\u{205f}'
    ||| c == '\u{3000}'
}

/// The sequence with leading and trailing white space removed.
pub open spec fn trim_spec(s: Seq<char>) -> Seq<char>
    decreases s.len(),
{
    if s.len() == 0 {
        s
    } else if is_ws(s[0]) {
        trim_spec(s.drop_first())
    } else if is_ws(s[s.len() - 1]) {
        trim_spec(s.drop_last())
    } else {
        s
    }
}

/// One layer of enclosing double quotes removed: a single leading `"` if
/// present, then a single trailing `"` if present.
pub open spec fn unquote_spec(s: Seq<char>) -> Seq<char> {
    let t = if s.len() > 0 && s[0] == '"' {
        s.drop_first()
    } else {
        s
    };
    if t.len() > 0 && t[t.len() - 1] == '"' {
        t.drop_last()
    } else {
        t
    }
}

/// What a raw key or value token turns into: trimmed, then unquoted.
pub open spec fn clean_spec(s: Seq<char>) -> Seq<char> {
    unquote_spec(trim_spec(s))
}

/// The position of the first `c` at or after `i`, if any.
pub open spec fn find_from(s: Seq<char>, c: char, i: int) -> Option<int>
    decreases s.len() - i,
{
    if i < 0 || i >= s.len() {
        None
    } else if s[i] == c {
        Some(i)
    } else {
        find_from(s, c, i + 1)
    }
}

/// `find_from` skips over any stretch that does not hold `c`.
pub proof fn lemma_find_from_skip(s: Seq<char>, c: char, k: int, i: int)
    requires
        0 <= k <= i <= s.len(),
        forall|j: int| k <= j < i ==> s[j] != c,
    ensures
        find_from(s, c, k) == find_from(s, c, i),
    decreases i - k,
{
    if k < i {
        assert(s[k] != c);
        lemma_find_from_skip(s, c, k + 1, i);
    }
}

/// What one configuration line means: split at the first `=`, clean both
/// sides; a line without `=` means nothing.
pub open spec fn parse_line_spec(line: Seq<char>) -> Option<(Seq<char>, Seq<char>)> {
    match find_from(line, '=', 0) {
        Some(i) => Some(
            (clean_spec(line.subrange(0, i)), clean_spec(line.subrange(i + 1, line.len() as int))),
        ),
        None => None,
    }
}

fn is_ws_char(c: char) -> (r: bool)
    ensures
        r == is_ws(c),
{
    c == ' ' || c == '\t' || c == '\n' || c == '\r' || c == '\u{b}' || c == '\u{c}' || c == '\u{85}'
        || c == '\u{a0}' || c == '\u{1680}' || c == '\u{2000}' || c == '\u{2001}' || c
        == '\u{2002}' || c == '\u{2003}' || c == '\u{2004}' || c == '\u{2005}' || c == '\u{2006}'
        || c == '\u{2007}' || c == '\u{2008}' || c == '\u{2009}' || c == '\u{200a}' || c
        == '\u{2028}' || c == '\u{2029}' || c == '\u{202f}' || c == '\u{205f}' || c == '\u{3000}'
}

/// A trimmed stretch `[lo, hi)` of `s` is what `trim_spec` returns.
proof fn lemma_trim_subrange(s: Seq<char>, lo: int, hi: int)
    requires
        0 <= lo <= hi <= s.len(),
        forall|j: int| 0 <= j < lo ==> is_ws(s[j]),
        forall|j: int| hi <= j < s.len() ==> is_ws(s[j]),
        lo < hi ==> !is_ws(s[lo]) && !is_ws(s[hi - 1]),
    ensures
        trim_spec(s) == s.subrange(lo, hi),
    decreases s.len(),
{
    if s.len() == 0 {
        assert(trim_spec(s) =~= s.subrange(lo, hi));
    } else if is_ws(s[0]) {
        let t = s.drop_first();
        if lo > 0 {
            lemma_trim_subrange(t, lo - 1, hi - 1);
            assert(t.subrange(lo - 1, hi - 1) =~= s.subrange(lo, hi));
        } else {
            // all of s is white space here, so lo == hi == 0
            assert(lo == hi == 0);
            lemma_trim_subrange(t, 0, 0);
            assert(t.subrange(0, 0) =~= s.subrange(lo, hi));
        }
    } else {
        assert(lo == 0);
        if hi < s.len() {
            assert(is_ws(s[s.len() - 1]));
            let t = s.drop_last();
            lemma_trim_subrange(t, lo, hi);
            assert(t.subrange(lo, hi) =~= s.subrange(lo, hi));
        } else {
            assert(!is_ws(s[s.len() - 1]));
            assert(trim_spec(s) == s);
            assert(s.subrange(0, s.len() as int) =~= s);
        }
    }
}

/// The trimmed, unquoted form of a raw token.
fn clean_token(s: &str) -> (r: String)
    ensures
        r@ == clean_spec(s@),
{
    let n = s.unicode_len();
    let mut lo: usize = 0;
    while lo < n && is_ws_char(s.get_char(lo))
        invariant
            0 <= lo <= n,
            n == s@.len(),
            forall|j: int| 0 <= j < lo ==> is_ws(s@[j]),
        decreases n - lo,
    {
        lo = lo + 1;
    }
    let mut hi: usize = n;
    while hi > lo && is_ws_char(s.get_char(hi - 1))
        invariant
            lo <= hi <= n,
            n == s@.len(),
            lo < n ==> !is_ws(s@[lo as int]),
            forall|j: int| hi <= j < n ==> is_ws(s@[j]),
        decreases hi,
    {
        hi = hi - 1;
    }
    proof {
        lemma_trim_subrange(s@, lo as int, hi as int);
    }
    let ghost t = trim_spec(s@);
    if hi > lo && s.get_char(lo) == '"' {
        lo = lo + 1;
        proof {
            assert(s@.subrange(lo as int, hi as int) =~= t.drop_first());
        }
    }
    let ghost u = s@.subrange(lo as int, hi as int);
    if hi > lo && s.get_char(hi - 1) == '"' {
        hi = hi - 1;
        proof {
            assert(s@.subrange(lo as int, hi as int) =~= u.drop_last());
        }
    }
    let r = s.substring_char(lo, hi).to_owned();
    proof {
        assert(r@ =~= clean_spec(s@));
    }
    r
}

/// Splits one line at its first `=` into a cleaned key and value; a line
/// without `=` yields nothing.
pub fn parse_config_line(line: &str) -> (r: Option<(String, String)>)
    ensures
        match r {
            Some(kv) => parse_line_spec(line@) == Some((kv.0@, kv.1@)),
            None => parse_line_spec(line@) is None,
        },
{
    let n = line.unicode_len();
    let mut i: usize = 0;
    while i < n && line.get_char(i) != '='
        invariant
            0 <= i <= n,
            n == line@.len(),
            forall|j: int| 0 <= j < i ==> line@[j] != '=',
        decreases n - i,
    {
        i = i + 1;
    }
    proof {
        lemma_find_from_skip(line@, '=', 0, i as int);
    }
    if i < n {
        let key = clean_token(line.substring_char(0, i));
        let value = clean_token(line.substring_char(i + 1, n));
        Some((key, value))
    } else {
        None
    }
}

/// One trailing carriage return removed, as line splitting does.
pub open spec fn strip_cr(l: Seq<char>) -> Seq<char> {
    if l.len() > 0 && l[l.len() - 1] == '\r' {
        l.drop_last()
    } else {
        l
    }
}

/// The lines of a text: split at `'\n'`, one trailing `'\r'` removed from
/// each, and nothing after a final `'\n'`.
pub open spec fn split_lines(s: Seq<char>) -> Seq<Seq<char>>
    decreases s.len(),
{
    if s.len() == 0 {
        Seq::empty()
    } else {
        match find_from(s, '\n', 0) {
            // the bound on i is always met; it makes the recursion visibly smaller
            Some(i) => if 0 <= i < s.len() {
                seq![strip_cr(s.subrange(0, i))] + split_lines(s.subrange(i + 1, s.len() as int))
            } else {
                Seq::empty()
            },
            None => seq![strip_cr(s)],
        }
    }
}

/// The views of a vector of lines.
pub open spec fn views_of(v: Seq<String>) -> Seq<Seq<char>> {
    v.map_values(|x: String| x@)
}

/// Splits a text into its lines.
pub fn split_into_lines(s: &str) -> (r: Vec<String>)
    ensures
        views_of(r@) == split_lines(s@),
{
    let n = s.unicode_len();
    let mut out: Vec<String> = Vec::new();
    let mut pos: usize = 0;
    proof {
        assert(views_of(out@) =~= Seq::<Seq<char>>::empty());
        assert(s@.subrange(0, n as int) =~= s@);
    }
    while pos < n
        invariant
            0 <= pos <= n,
            n == s@.len(),
            split_lines(s@) == views_of(out@) + split_lines(s@.subrange(pos as int, n as int)),
        decreases n - pos,
    {
        let ghost suf = s@.subrange(pos as int, n as int);
        let mut j = pos;
        while j < n && s.get_char(j) != '\n'
            invariant
                pos <= j <= n,
                n == s@.len(),
                forall|k: int| pos <= k < j ==> s@[k] != '\n',
            decreases n - j,
        {
            j = j + 1;
        }
        proof {
            assert forall|k: int| 0 <= k < j - pos implies suf[k] != '\n' by {
                assert(suf[k] == s@[pos + k]);
            }
            lemma_find_from_skip(suf, '\n', 0, j - pos);
        }
        let mut end = j;
        if end > pos && s.get_char(end - 1) == '\r' {
            end = end - 1;
        }
        let line = s.substring_char(pos, end).to_owned();
        proof {
            if j < n {
                assert(suf[j - pos] == s@[j as int]);
                assert(find_from(suf, '\n', 0) == Some(j - pos as int));
                assert(suf.subrange(0, j - pos) =~= s@.subrange(pos as int, j as int));
                assert(suf.subrange(j - pos + 1, suf.len() as int) =~= s@.subrange(
                    j + 1,
                    n as int,
                ));
            } else {
                assert(find_from(suf, '\n', 0) is None);
            }
            assert(line@ =~= strip_cr(s@.subrange(pos as int, j as int)));
            assert(views_of(out@.push(line)) =~= views_of(out@).push(line@));
        }
        out.push(line);
        if j < n {
            pos = j + 1;
        } else {
            pos = n;
            proof {
                assert(s@.subrange(n as int, n as int) =~= Seq::<char>::empty());
            }
        }
    }
    proof {
        assert(s@.subrange(n as int, n as int) =~= Seq::<char>::empty());
        assert(views_of(out@) =~= views_of(out@) + split_lines(Seq::empty()));
    }
    out
}

/// The value of `key` among `lines`: the later line wins where two lines
/// give the same key.
pub open spec fn lookup_lines(lines: Seq<Seq<char>>, key: Seq<char>) -> Option<Seq<char>>
    decreases lines.len(),
{
    if lines.len() == 0 {
        None
    } else {
        match parse_line_spec(lines.last()) {
            Some(kv) => if kv.0 == key {
                Some(kv.1)
            } else {
                lookup_lines(lines.drop_last(), key)
            },
            None => lookup_lines(lines.drop_last(), key),
        }
    }
}

/// The value a configuration text assigns to `key`, if any.
pub open spec fn config_lookup(contents: Seq<char>, key: Seq<char>) -> Option<Seq<char>> {
    lookup_lines(split_lines(contents), key)
}

/// The view of an optional string.
pub open spec fn opt_view(o: Option<String>) -> Option<Seq<char>> {
    match o {
        Some(s) => Some(s@),
        None => None,
    }
}

/// Reads a configuration from the text of the config file. The endpoint and
/// the key must be assigned; the image endpoint defaults to empty.
pub fn load_config(contents: &str) -> (r: Result<Config, ConfigError>)
    ensures
        r is Ok <==> (config_lookup(contents@, "X-AI-ENDPOINT"@) is Some && config_lookup(
            contents@,
            "X-AI-KEY"@,
        ) is Some),
        r matches Ok(c) ==> {
            &&& config_lookup(contents@, "X-AI-ENDPOINT"@) == Some(c.endpoint@)
            &&& config_lookup(contents@, "X-AI-KEY"@) == Some(c.key@)
            &&& match config_lookup(contents@, "X-AI-IMAGE-ENDPOINT"@) {
                Some(v) => c.image_endpoint@ == v,
                None => c.image_endpoint@ == Seq::<char>::empty(),
            }
        },
        r matches Err(e) ==> (e is MissingEndpoint <==> config_lookup(
            contents@,
            "X-AI-ENDPOINT"@,
        ) is None),
{
    let lines = split_into_lines(contents);
    let mut endpoint: Option<String> = None;
    let mut key: Option<String> = None;
    let mut image: Option<String> = None;
    let mut idx: usize = 0;
    let ghost all = views_of(lines@);
    proof {
        assert(all.subrange(0, 0) =~= Seq::<Seq<char>>::empty());
    }
    while idx < lines.len()
        invariant
            0 <= idx <= lines.len(),
            all == views_of(lines@),
            opt_view(endpoint) == lookup_lines(all.subrange(0, idx as int), "X-AI-ENDPOINT"@),
            opt_view(key) == lookup_lines(all.subrange(0, idx as int), "X-AI-KEY"@),
            opt_view(image) == lookup_lines(all.subrange(0, idx as int), "X-AI-IMAGE-ENDPOINT"@),
        decreases lines.len() - idx,
    {
        let ghost prefix = all.subrange(0, idx as int);
        let ghost next = all.subrange(0, idx + 1);
        proof {
            assert(next.drop_last() =~= prefix);
            assert(next.last() == lines@[idx as int]@);
            reveal_strlit("X-AI-ENDPOINT");
            reveal_strlit("X-AI-KEY");
            reveal_strlit("X-AI-IMAGE-ENDPOINT");
            assert("X-AI-ENDPOINT"@.len() == 13);
            assert("X-AI-KEY"@.len() == 8);
            assert("X-AI-IMAGE-ENDPOINT"@.len() == 19);
        }
        match parse_config_line(lines[idx].as_str()) {
            Some(kv) => {
                let (k, v) = kv;
                if k == String::from_str("X-AI-ENDPOINT") {
                    endpoint = Some(v);
                } else if k == String::from_str("X-AI-KEY") {
                    key = Some(v);
                } else if k == String::from_str("X-AI-IMAGE-ENDPOINT") {
                    image = Some(v);
                }
            },
            None => {},
        }
        idx = idx + 1;
    }
    proof {
        assert(all.subrange(0, lines@.len() as int) =~= all);
    }
    match endpoint {
        Some(e) => match key {
            Some(k) => Ok(
                Config {
                    endpoint: e,
                    key: k,
                    image_endpoint: match image {
                        Some(i) => i,
                        None => String::new(),
                    },
                },
            ),
            None => Err(ConfigError::MissingKey),
        },
        None => Err(ConfigError::MissingEndpoint),
    }
}

/// One rendered configuration line: the key, `="`, the value, `"`.
pub open spec fn config_line(key: Seq<char>, value: Seq<char>) -> Seq<char> {
    key + "=\""@ + value + "\""@
}

/// The text the first-run flow writes for the three settings.
pub open spec fn render_spec(e: Seq<char>, k: Seq<char>, i: Seq<char>) -> Seq<char> {
    config_line("X-AI-ENDPOINT"@, e) + "\n"@ + config_line("X-AI-KEY"@, k) + "\n"@ + config_line(
        "X-AI-IMAGE-ENDPOINT"@,
        i,
    ) + "\n"@
}

/// Renders the three settings as `KEY="VALUE"` lines, one per line.
pub fn render_config(endpoint: &str, key: &str, image_endpoint: &str) -> (r: String)
    ensures
        r@ == render_spec(endpoint@, key@, image_endpoint@),
{
    let mut r = String::new();
    r.append("X-AI-ENDPOINT");
    r.append("=\"");
    r.append(endpoint);
    r.append("\"");
    r.append("\n");
    r.append("X-AI-KEY");
    r.append("=\"");
    r.append(key);
    r.append("\"");
    r.append("\n");
    r.append("X-AI-IMAGE-ENDPOINT");
    r.append("=\"");
    r.append(image_endpoint);
    r.append("\"");
    r.append("\n");
    proof {
        assert(r@ =~= render_spec(endpoint@, key@, image_endpoint@));
    }
    r
}

/// Where `find_from` fails, the character is nowhere at or after `k`.
proof fn lemma_find_from_none(s: Seq<char>, c: char, k: int)
    requires
        0 <= k <= s.len(),
        find_from(s, c, k) is None,
    ensures
        forall|j: int| k <= j < s.len() ==> s[j] != c,
    decreases s.len() - k,
{
    if k < s.len() {
        assert(s[k] != c);
        lemma_find_from_none(s, c, k + 1);
    }
}

/// Where the character is absent, `find_from` fails.
proof fn lemma_absent_find_none(s: Seq<char>, c: char, k: int)
    requires
        0 <= k <= s.len(),
        forall|j: int| k <= j < s.len() ==> s[j] != c,
    ensures
        find_from(s, c, k) is None,
    decreases s.len() - k,
{
    if k < s.len() {
        lemma_absent_find_none(s, c, k + 1);
    }
}

/// Splitting takes one line off the front at its terminating newline.
proof fn lemma_split_lines_cons(l: Seq<char>, rest: Seq<char>)
    requires
        forall|j: int| 0 <= j < l.len() ==> l[j] != '\n',
    ensures
        split_lines(l + "\n"@ + rest) == seq![strip_cr(l)] + split_lines(rest),
{
    reveal_strlit("\n");
    let s = l + "\n"@ + rest;
    assert(s.len() == l.len() + 1 + rest.len());
    assert forall|j: int| 0 <= j < l.len() implies s[j] != '\n' by {
        assert(s[j] == l[j]);
    }
    assert(s[l.len() as int] == '\n');
    lemma_find_from_skip(s, '\n', 0, l.len() as int);
    assert(find_from(s, '\n', l.len() as int) == Some(l.len() as int));
    assert(s.subrange(0, l.len() as int) =~= l);
    assert(s.subrange(l.len() as int + 1, s.len() as int) =~= rest);
}

/// A rendered line parses back to its own key and value.
proof fn lemma_parse_config_line_form(key: Seq<char>, v: Seq<char>)
    requires
        key.len() > 0,
        find_from(key, '=', 0) is None,
        !is_ws(key[0]),
        !is_ws(key[key.len() - 1]),
        key[0] != '"',
        key[key.len() - 1] != '"',
    ensures
        parse_line_spec(config_line(key, v)) == Some((key, v)),
{
    reveal_strlit("=\"");
    reveal_strlit("\"");
    let l = config_line(key, v);
    assert(l.len() == key.len() + 2 + v.len() + 1);
    lemma_find_from_none(key, '=', 0);
    assert forall|j: int| 0 <= j < key.len() implies l[j] != '=' by {
        assert(l[j] == key[j]);
    }
    assert(l[key.len() as int] == '=');
    lemma_find_from_skip(l, '=', 0, key.len() as int);
    assert(find_from(l, '=', key.len() as int) == Some(key.len() as int));
    assert(l.subrange(0, key.len() as int) =~= key);
    assert(trim_spec(key) == key);
    assert(unquote_spec(key) == key);
    let w = l.subrange(key.len() as int + 1, l.len() as int);
    assert(w =~= "\""@ + v + "\""@);
    assert(w.len() == v.len() + 2);
    assert(w[0] == '"');
    assert(w[w.len() - 1] == '"');
    assert(!is_ws('"'));
    assert(trim_spec(w) == w);
    assert(w.drop_first() =~= v + "\""@);
    assert(w.drop_first().drop_last() =~= v);
    assert(unquote_spec(w) == v);
}

/// The facts about one of the fixed key literals that the round trip needs.
proof fn lemma_key_literal_ok(key: Seq<char>)
    requires
        key == "X-AI-ENDPOINT"@ || key == "X-AI-KEY"@ || key == "X-AI-IMAGE-ENDPOINT"@,
    ensures
        key.len() > 0,
        find_from(key, '=', 0) is None,
        find_from(key, '\n', 0) is None,
        !is_ws(key[0]),
        !is_ws(key[key.len() - 1]),
        key[0] != '"',
        key[key.len() - 1] != '"',
{
    reveal_strlit("X-AI-ENDPOINT");
    reveal_strlit("X-AI-KEY");
    reveal_strlit("X-AI-IMAGE-ENDPOINT");
    if key == "X-AI-ENDPOINT"@ {
        assert(forall|j: int| 0 <= j < key.len() ==> key[j] != '=');
        assert(forall|j: int| 0 <= j < key.len() ==> key[j] != '\n');
        assert(key[0] == 'X' && key[key.len() - 1] == 'T');
    } else if key == "X-AI-KEY"@ {
        assert(forall|j: int| 0 <= j < key.len() ==> key[j] != '=');
        assert(forall|j: int| 0 <= j < key.len() ==> key[j] != '\n');
        assert(key[0] == 'X' && key[key.len() - 1] == 'Y');
    } else {
        assert(forall|j: int| 0 <= j < key.len() ==> key[j] != '=');
        assert(forall|j: int| 0 <= j < key.len() ==> key[j] != '\n');
        assert(key[0] == 'X' && key[key.len() - 1] == 'T');
    }
    lemma_absent_find_none(key, '=', 0);
    lemma_absent_find_none(key, '\n', 0);
}

/// A rendered line holds no newline when its value holds none.
proof fn lemma_config_line_no_newline(key: Seq<char>, v: Seq<char>)
    requires
        find_from(key, '\n', 0) is None,
        forall|j: int| 0 <= j < v.len() ==> v[j] != '\n',
    ensures
        forall|j: int| 0 <= j < config_line(key, v).len() ==> config_line(key, v)[j] != '\n',
{
    reveal_strlit("=\"");
    reveal_strlit("\"");
    lemma_find_from_none(key, '\n', 0);
    let l = config_line(key, v);
    assert forall|j: int| 0 <= j < l.len() implies l[j] != '\n' by {
        if j < key.len() {
            assert(l[j] == key[j]);
        } else if j < key.len() + 2 {
            assert(l[j] == "=\""@[j - key.len()]);
        } else if j < key.len() + 2 + v.len() {
            assert(l[j] == v[j - key.len() - 2]);
        } else {
            assert(l[j] == '"');
        }
    }
}

/// The round trip: a configuration written by the first-run flow loads back
/// to the same endpoint, key and image endpoint, as long as none of the three
/// values holds a newline.
pub proof fn lemma_config_round_trip(e: Seq<char>, k: Seq<char>, i: Seq<char>)
    requires
        forall|j: int| 0 <= j < e.len() ==> e[j] != '\n',
        forall|j: int| 0 <= j < k.len() ==> k[j] != '\n',
        forall|j: int| 0 <= j < i.len() ==> i[j] != '\n',
    ensures
        config_lookup(render_spec(e, k, i), "X-AI-ENDPOINT"@) == Some(e),
        config_lookup(render_spec(e, k, i), "X-AI-KEY"@) == Some(k),
        config_lookup(render_spec(e, k, i), "X-AI-IMAGE-ENDPOINT"@) == Some(i),
{
    reveal_strlit("X-AI-ENDPOINT");
    reveal_strlit("X-AI-KEY");
    reveal_strlit("X-AI-IMAGE-ENDPOINT");
    reveal_strlit("\"");
    reveal_strlit("\r");
    let l1 = config_line("X-AI-ENDPOINT"@, e);
    let l2 = config_line("X-AI-KEY"@, k);
    let l3 = config_line("X-AI-IMAGE-ENDPOINT"@, i);
    lemma_key_literal_ok("X-AI-ENDPOINT"@);
    lemma_key_literal_ok("X-AI-KEY"@);
    lemma_key_literal_ok("X-AI-IMAGE-ENDPOINT"@);
    lemma_config_line_no_newline("X-AI-ENDPOINT"@, e);
    lemma_config_line_no_newline("X-AI-KEY"@, k);
    lemma_config_line_no_newline("X-AI-IMAGE-ENDPOINT"@, i);
    let rest2 = l2 + "\n"@ + (l3 + "\n"@);
    assert(render_spec(e, k, i) =~= l1 + "\n"@ + rest2);
    assert(l3 + "\n"@ =~= l3 + "\n"@ + Seq::<char>::empty());
    lemma_split_lines_cons(l3, Seq::empty());
    lemma_split_lines_cons(l2, l3 + "\n"@);
    lemma_split_lines_cons(l1, rest2);
    // a rendered line ends in a quote, so stripping a carriage return is a no-op
    assert(l1[l1.len() - 1] == '"' && l2[l2.len() - 1] == '"' && l3[l3.len() - 1] == '"');
    assert(strip_cr(l1) == l1 && strip_cr(l2) == l2 && strip_cr(l3) == l3);
    let lines = split_lines(render_spec(e, k, i));
    assert(lines =~= seq![l1, l2, l3]);
    lemma_parse_config_line_form("X-AI-ENDPOINT"@, e);
    lemma_parse_config_line_form("X-AI-KEY"@, k);
    lemma_parse_config_line_form("X-AI-IMAGE-ENDPOINT"@, i);
    assert("X-AI-ENDPOINT"@.len() == 13 && "X-AI-KEY"@.len() == 8 && "X-AI-IMAGE-ENDPOINT"@.len()
        == 19);
    assert(lines.last() == l3);
    assert(lines.drop_last() =~= seq![l1, l2]);
    assert(seq![l1, l2].last() == l2);
    assert(seq![l1, l2].drop_last() =~= seq![l1]);
    assert(seq![l1].last() == l1);
    assert(seq![l1].drop_last() =~= Seq::<Seq<char>>::empty());
    assert(lookup_lines(seq![l1], "X-AI-ENDPOINT"@) == Some(e));
    assert(lookup_lines(seq![l1, l2], "X-AI-ENDPOINT"@) == Some(e));
    assert(lookup_lines(seq![l1, l2], "X-AI-KEY"@) == Some(k));
    assert(lookup_lines(lines, "X-AI-ENDPOINT"@) == Some(e));
    assert(lookup_lines(lines, "X-AI-KEY"@) == Some(k));
    assert(lookup_lines(lines, "X-AI-IMAGE-ENDPOINT"@) == Some(i));
}

} // verus!
