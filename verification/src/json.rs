//! The log-watcher file contract: a single JSON object `{"content": string}`.
//!
//! The grammar is the contract, fixed here deliberately and exactly: the
//! parser accepts optional JSON whitespace around the object, exactly the
//! one `content` key, and a string value with the simple JSON escapes
//! (`\"`, `\\`, `\/`, `\b`, `\f`, `\n`, `\r`, `\t`). Anything else — other
//! keys, other value types, `\uXXXX` numeric escapes — renders the file
//! malformed, and a malformed file is discarded by the watcher without an
//! emitted update, the same path any unparsable file takes.

use vstd::prelude::*;
use vstd::string::*;

use crate::text::{chars_of, push_char};

verus! {

/// JSON insignificant whitespace.
pub open spec fn is_json_ws(c: char) -> bool {
    c == ' ' || c == '\t' || c == '\n' || c == '\r'
}

/// The first index at or after `i` holding a non-whitespace character.
pub open spec fn spec_skip_ws(cs: Seq<char>, i: int) -> int
    decreases cs.len() - i,
    when 0 <= i <= cs.len()
{
    if i >= cs.len() {
        i
    } else if is_json_ws(cs[i]) {
        spec_skip_ws(cs, i + 1)
    } else {
        i
    }
}

/// The character a simple JSON escape stands for, if the escape is one the
/// contract accepts.
pub open spec fn esc_char(c: char) -> Option<char> {
    if c == '"' {
        Some('"')
    } else if c == '\\' {
        Some('\\')
    } else if c == '/' {
        Some('/')
    } else if c == 'b' {
        Some('\u{8}')
    } else if c == 'f' {
        Some('\u{c}')
    } else if c == 'n' {
        Some('\n')
    } else if c == 'r' {
        Some('\r')
    } else if c == 't' {
        Some('\t')
    } else {
        None
    }
}

/// Parses a JSON string body starting at `i`, just after the opening quote:
/// the unescaped value and the index after the closing quote.
pub open spec fn spec_string_body(cs: Seq<char>, i: int) -> Option<(Seq<char>, int)>
    decreases cs.len() - i,
    when 0 <= i <= cs.len()
{
    if i >= cs.len() {
        None
    } else if cs[i] == '"' {
        Some((Seq::empty(), i + 1))
    } else if cs[i] == '\\' {
        if i + 1 >= cs.len() {
            None
        } else {
            match esc_char(cs[i + 1]) {
                Some(e) => match spec_string_body(cs, i + 2) {
                    Some(r) => Some((seq![e] + r.0, r.1)),
                    None => None,
                },
                None => None,
            }
        }
    } else {
        match spec_string_body(cs, i + 1) {
            Some(r) => Some((seq![cs[i]] + r.0, r.1)),
            None => None,
        }
    }
}

/// The content field of a log-entry file: `Some` exactly when the whole
/// character sequence is one JSON object with the single key `content` and a
/// string value, and then the unescaped value.
pub open spec fn spec_log_content(cs: Seq<char>) -> Option<Seq<char>> {
    let i0 = spec_skip_ws(cs, 0);
    if i0 < cs.len() && cs[i0] == '{' {
        let i1 = spec_skip_ws(cs, i0 + 1);
        if i1 < cs.len() && cs[i1] == '"' {
            match spec_string_body(cs, i1 + 1) {
                Some(key) => if key.0 == "content"@ {
                    let i3 = spec_skip_ws(cs, key.1);
                    if i3 < cs.len() && cs[i3] == ':' {
                        let i4 = spec_skip_ws(cs, i3 + 1);
                        if i4 < cs.len() && cs[i4] == '"' {
                            match spec_string_body(cs, i4 + 1) {
                                Some(val) => {
                                    let i6 = spec_skip_ws(cs, val.1);
                                    if i6 < cs.len() && cs[i6] == '}' {
                                        if spec_skip_ws(cs, i6 + 1) == cs.len() {
                                            Some(val.0)
                                        } else {
                                            None
                                        }
                                    } else {
                                        None
                                    }
                                },
                                None => None,
                            }
                        } else {
                            None
                        }
                    } else {
                        None
                    }
                } else {
                    None
                },
                None => None,
            }
        } else {
            None
        }
    } else {
        None
    }
}

fn skip_ws(cs: &Vec<char>, i: usize) -> (r: usize)
    requires
        i <= cs@.len(),
    ensures
        r == spec_skip_ws(cs@, i as int),
        i <= r <= cs@.len(),
        r < cs@.len() ==> !is_json_ws(cs@[r as int]),
    decreases cs@.len() - i,
{
    if i >= cs.len() {
        i
    } else {
        let c = cs[i];
        if c == ' ' || c == '\t' || c == '\n' || c == '\r' {
            skip_ws(cs, i + 1)
        } else {
            i
        }
    }
}

fn esc_char_exec(c: char) -> (r: Option<char>)
    ensures
        r == esc_char(c),
{
    if c == '"' {
        Some('"')
    } else if c == '\\' {
        Some('\\')
    } else if c == '/' {
        Some('/')
    } else if c == 'b' {
        Some('\u{8}')
    } else if c == 'f' {
        Some('\u{c}')
    } else if c == 'n' {
        Some('\n')
    } else if c == 'r' {
        Some('\r')
    } else if c == 't' {
        Some('\t')
    } else {
        None
    }
}

fn string_body(cs: &Vec<char>, i: usize) -> (r: Option<(Vec<char>, usize)>)
    requires
        i <= cs@.len(),
    ensures
        match r {
            Some(p) => spec_string_body(cs@, i as int) matches Some(q) && p.0@ == q.0 && p.1 == q.1
                && i < p.1 <= cs@.len(),
            None => spec_string_body(cs@, i as int) is None,
        },
    decreases cs@.len() - i,
{
    if i >= cs.len() {
        None
    } else if cs[i] == '"' {
        Some((Vec::new(), i + 1))
    } else if cs[i] == '\\' {
        if i + 1 >= cs.len() {
            None
        } else {
            match esc_char_exec(cs[i + 1]) {
                Some(e) => {
                    match string_body(cs, i + 2) {
                        Some(p) => {
                            let mut v = p.0;
                            v.insert(0, e);
                            proof {
                                assert(v@ =~= seq![e] + spec_string_body(
                                    cs@,
                                    i + 2,
                                ).unwrap().0);
                            }
                            Some((v, p.1))
                        },
                        None => None,
                    }
                },
                None => None,
            }
        }
    } else {
        let c = cs[i];
        match string_body(cs, i + 1) {
            Some(p) => {
                let mut v = p.0;
                v.insert(0, c);
                proof {
                    assert(v@ =~= seq![cs@[i as int]] + spec_string_body(cs@, i + 1).unwrap().0);
                }
                Some((v, p.1))
            },
            None => None,
        }
    }
}

/// Compares a character vector to the key the contract expects.
fn is_content_key(v: &Vec<char>) -> (r: bool)
    ensures
        r == (v@ == "content"@),
{
    proof {
        reveal_strlit("content");
    }
    if v.len() != 7 {
        return false;
    }
    let r = v[0] == 'c' && v[1] == 'o' && v[2] == 'n' && v[3] == 't' && v[4] == 'e' && v[5] == 'n'
        && v[6] == 't';
    proof {
        if r {
            assert(v@ =~= "content"@);
        }
    }
    r
}

/// Parses a log-entry file. Returns the content exactly when the file holds
/// one well-formed `{"content": string}` object, with the string unescaped.
pub fn parse_log_entry(s: &str) -> (r: Option<String>)
    ensures
        r is Some <==> spec_log_content(s@) is Some,
        r matches Some(c) ==> Some(c@) == spec_log_content(s@),
{
    let cs = chars_of(s);
    let n = cs.len();
    let i0 = skip_ws(&cs, 0);
    if !(i0 < n && cs[i0] == '{') {
        return None;
    }
    let i1 = skip_ws(&cs, i0 + 1);
    if !(i1 < n && cs[i1] == '"') {
        return None;
    }
    let key = match string_body(&cs, i1 + 1) {
        Some(p) => p,
        None => {
            return None;
        },
    };
    if !is_content_key(&key.0) {
        return None;
    }
    let i3 = skip_ws(&cs, key.1);
    if !(i3 < n && cs[i3] == ':') {
        return None;
    }
    let i4 = skip_ws(&cs, i3 + 1);
    if !(i4 < n && cs[i4] == '"') {
        return None;
    }
    let val = match string_body(&cs, i4 + 1) {
        Some(p) => p,
        None => {
            return None;
        },
    };
    let i6 = skip_ws(&cs, val.1);
    if !(i6 < n && cs[i6] == '}') {
        return None;
    }
    if skip_ws(&cs, i6 + 1) != n {
        return None;
    }
    let mut out = String::new();
    let mut k: usize = 0;
    while k < val.0.len()
        invariant
            k <= val.0@.len(),
            out@ == val.0@.subrange(0, k as int),
        decreases val.0@.len() - k,
    {
        push_char(&mut out, val.0[k]);
        proof {
            assert(out@ =~= val.0@.subrange(0, k + 1));
        }
        k = k + 1;
    }
    proof {
        assert(out@ =~= val.0@);
    }
    Some(out)
}

} // verus!
