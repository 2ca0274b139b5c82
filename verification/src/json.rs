//! A small JSON reader for the tool's `--json` output. The specification
//! functions define the accepted grammar directly over character sequences;
//! each executable function mirrors its specification one branch at a time
//! and is proved to return exactly what the specification says.
//!
//! Strings support the standard escapes, including `\uXXXX` with surrogate
//! pairs; raw control characters and lone surrogates are rejected. Values of
//! unknown object members are skipped whatever their shape.

use vstd::prelude::*;
use vstd::string::StrSliceExecFns;
use vstd::utf8::{char_u32_cast, is_scalar};

verus! {

/// JSON whitespace.
pub open spec fn is_ws(c: char) -> bool {
    c == ' ' || c == '\t' || c == '\n' || c == '\r'
}

/// An ASCII decimal digit.
pub open spec fn is_digit(c: char) -> bool {
    48 <= c as int <= 57
}

/// The value of one hex digit.
pub open spec fn hex_val(c: char) -> Option<int> {
    let v = c as int;
    if 48 <= v <= 57 {
        Some(v - 48)
    } else if 65 <= v <= 70 {
        Some(v - 55)
    } else if 97 <= v <= 102 {
        Some(v - 87)
    } else {
        None
    }
}

/// The character a single-character escape stands for.
pub open spec fn esc_char(c: char) -> Option<char> {
    if c == '"' {
        Some('"')
    } else if c == '\\' {
        Some('\\')
    } else if c == '/' {
        Some('/')
    } else if c == 'b' {
        Some('\u{0008}')
    } else if c == 'f' {
        Some('\u{000c}')
    } else if c == 'n' {
        Some('\n')
    } else if c == 'r' {
        Some('\r')
    } else if c == 't' {
        Some('\t')
    } else {
        None
    }
}

/// The first index at or after `i` holding no whitespace.
pub open spec fn sp_skip_ws(s: Seq<char>, i: int) -> int
    decreases s.len() - i,
{
    if 0 <= i < s.len() && is_ws(s[i]) {
        sp_skip_ws(s, i + 1)
    } else {
        i
    }
}

/// Four hex digits starting at `i`, as one value.
pub open spec fn sp_hex4(s: Seq<char>, i: int) -> Option<int> {
    if 0 <= i && i + 4 <= s.len() {
        match (hex_val(s[i]), hex_val(s[i + 1]), hex_val(s[i + 2]), hex_val(s[i + 3])) {
            (Some(a), Some(b), Some(c), Some(d)) => Some(a * 4096 + b * 256 + c * 16 + d),
            _ => None,
        }
    } else {
        None
    }
}

/// The rest of a string body starting at `i` (after the opening quote), with
/// the characters read so far in `acc`: the full content and the index after
/// the closing quote.
pub open spec fn sp_string_body(s: Seq<char>, i: int, acc: Seq<char>) -> Option<(Seq<char>, int)>
    decreases s.len() - i,
{
    if !(0 <= i < s.len()) {
        None
    } else {
        let c = s[i];
        if c == '"' {
            Some((acc, i + 1))
        } else if c == '\\' {
            if i + 1 < s.len() {
                let e = s[i + 1];
                if e == 'u' {
                    match sp_hex4(s, i + 2) {
                        None => None,
                        Some(v1) => {
                            if 0xD800 <= v1 < 0xDC00 {
                                if i + 7 < s.len() && s[i + 6] == '\\' && s[i + 7] == 'u' {
                                    match sp_hex4(s, i + 8) {
                                        None => None,
                                        Some(v2) => {
                                            if 0xDC00 <= v2 < 0xE000 {
                                                let cp = 0x10000 + (v1 - 0xD800) * 0x400 + (v2
                                                    - 0xDC00);
                                                sp_string_body(
                                                    s,
                                                    i + 12,
                                                    acc.push((cp as u32) as char),
                                                )
                                            } else {
                                                None
                                            }
                                        },
                                    }
                                } else {
                                    None
                                }
                            } else if 0xDC00 <= v1 < 0xE000 {
                                None
                            } else {
                                sp_string_body(s, i + 6, acc.push((v1 as u32) as char))
                            }
                        },
                    }
                } else {
                    match esc_char(e) {
                        None => None,
                        Some(d) => sp_string_body(s, i + 2, acc.push(d)),
                    }
                }
            } else {
                None
            }
        } else if (c as int) < 32 {
            None
        } else {
            sp_string_body(s, i + 1, acc.push(c))
        }
    }
}

/// A quoted string starting at `i`: its content and the index after it.
pub open spec fn sp_parse_string(s: Seq<char>, i: int) -> Option<(Seq<char>, int)> {
    if 0 <= i < s.len() && s[i] == '"' {
        sp_string_body(s, i + 1, seq![])
    } else {
        None
    }
}

/// A `true` or `false` literal starting at `i`.
pub open spec fn sp_parse_bool(s: Seq<char>, i: int) -> Option<(bool, int)> {
    if 0 <= i && i + 4 <= s.len() && s[i] == 't' && s[i + 1] == 'r' && s[i + 2] == 'u' && s[i + 3]
        == 'e' {
        Some((true, i + 4))
    } else if 0 <= i && i + 5 <= s.len() && s[i] == 'f' && s[i + 1] == 'a' && s[i + 2] == 'l' && s[i
        + 3] == 's' && s[i + 4] == 'e' {
        Some((false, i + 5))
    } else {
        None
    }
}

/// The first index at or after `i` holding no digit.
pub open spec fn sp_skip_digits(s: Seq<char>, i: int) -> int
    decreases s.len() - i,
{
    if 0 <= i < s.len() && is_digit(s[i]) {
        sp_skip_digits(s, i + 1)
    } else {
        i
    }
}

/// A JSON number starting at `i`: the index after it.
pub open spec fn sp_skip_number(s: Seq<char>, i: int) -> Option<int> {
    let j = if 0 <= i < s.len() && s[i] == '-' {
        i + 1
    } else {
        i
    };
    if !(0 <= j < s.len() && is_digit(s[j])) {
        None
    } else {
        let k = if s[j] == '0' {
            j + 1
        } else {
            sp_skip_digits(s, j + 1)
        };
        let k2 = if k < s.len() && s[k] == '.' {
            if k + 1 < s.len() && is_digit(s[k + 1]) {
                Some(sp_skip_digits(s, k + 1))
            } else {
                None
            }
        } else {
            Some(k)
        };
        match k2 {
            None => None,
            Some(k2v) => {
                if k2v < s.len() && (s[k2v] == 'e' || s[k2v] == 'E') {
                    let k3 = if k2v + 1 < s.len() && (s[k2v + 1] == '+' || s[k2v + 1] == '-') {
                        k2v + 2
                    } else {
                        k2v + 1
                    };
                    if k3 < s.len() && is_digit(s[k3]) {
                        Some(sp_skip_digits(s, k3))
                    } else {
                        None
                    }
                } else {
                    Some(k2v)
                }
            },
        }
    }
}

/// Any JSON value starting at `i`: the index after it.
pub open spec fn sp_skip_value(s: Seq<char>, i: int) -> Option<int>
    decreases s.len() - i, 0int,
{
    if !(0 <= i < s.len()) {
        None
    } else {
        let c = s[i];
        if c == '"' {
            match sp_parse_string(s, i) {
                None => None,
                Some((_content, j)) => Some(j),
            }
        } else if c == '{' {
            sp_skip_members(s, i + 1, true)
        } else if c == '[' {
            sp_skip_elements(s, i + 1, true)
        } else if c == 't' || c == 'f' {
            match sp_parse_bool(s, i) {
                None => None,
                Some((_b, j)) => Some(j),
            }
        } else if c == 'n' {
            if i + 4 <= s.len() && s[i + 1] == 'u' && s[i + 2] == 'l' && s[i + 3] == 'l' {
                Some(i + 4)
            } else {
                None
            }
        } else if c == '-' || is_digit(c) {
            sp_skip_number(s, i)
        } else {
            None
        }
    }
}

/// One object member (key, colon, value) starting at the key's quote at `m`:
/// the index after the value.
pub open spec fn sp_skip_member(s: Seq<char>, m: int) -> Option<int>
    decreases s.len() - m, 1int,
{
    match sp_parse_string(s, m) {
        None => None,
        Some((_key, a)) => {
            let b = sp_skip_ws(s, a);
            if !(0 <= b < s.len() && s[b] == ':') {
                None
            } else {
                let v = sp_skip_ws(s, b + 1);
                if m < v <= s.len() {
                    sp_skip_value(s, v)
                } else {
                    None
                }
            }
        },
    }
}

/// The members of an object being skipped, from `i` just after `{` (when
/// `first`) or just after a member: the index after the closing `}`.
pub open spec fn sp_skip_members(s: Seq<char>, i: int, first: bool) -> Option<int>
    decreases s.len() - i, 2int,
{
    let j = sp_skip_ws(s, i);
    if !(i <= j < s.len()) {
        None
    } else if s[j] == '}' {
        Some(j + 1)
    } else {
        let m = if first {
            j
        } else if s[j] == ',' {
            sp_skip_ws(s, j + 1)
        } else {
            (s.len() + 1) as int
        };
        if !(j <= m < s.len()) {
            None
        } else {
            match sp_skip_member(s, m) {
                None => None,
                Some(k) => {
                    if m < k <= s.len() {
                        sp_skip_members(s, k, false)
                    } else {
                        None
                    }
                },
            }
        }
    }
}

/// The elements of an array being skipped, from `i` just after `[` (when
/// `first`) or just after an element: the index after the closing `]`.
pub open spec fn sp_skip_elements(s: Seq<char>, i: int, first: bool) -> Option<int>
    decreases s.len() - i, 1int,
{
    let j = sp_skip_ws(s, i);
    if !(i <= j < s.len()) {
        None
    } else if s[j] == ']' {
        Some(j + 1)
    } else {
        let m = if first {
            j
        } else if s[j] == ',' {
            sp_skip_ws(s, j + 1)
        } else {
            (s.len() + 1) as int
        };
        if !(j <= m < s.len()) {
            None
        } else {
            match sp_skip_value(s, m) {
                None => None,
                Some(k) => {
                    if m < k <= s.len() {
                        sp_skip_elements(s, k, false)
                    } else {
                        None
                    }
                },
            }
        }
    }
}

/// Relies on `String::push`: it appends exactly the one character.
#[verifier::external_body]
pub fn push_char(s: &mut String, c: char)
    ensures
        final(s)@ == old(s)@.push(c),
{
    s.push(c);
}

/// Relies on `char::from_u32`: `Some` exactly for Unicode scalar values, and
/// the returned character is that code point.
#[verifier::external_body]
pub fn char_of_u32(v: u32) -> (r: Option<char>)
    ensures
        r is Some <==> is_scalar(v),
        r matches Some(c) ==> c as u32 == v,
{
    char::from_u32(v)
}

/// See `sp_skip_ws`.
pub fn skip_ws(s: &str, from: usize) -> (r: usize)
    requires
        from as int <= s@.len(),
    ensures
        r as int == sp_skip_ws(s@, from as int),
        from <= r <= s@.len(),
{
    let n = s.unicode_len();
    let mut j = from;
    while j < n
        invariant
            from <= j <= n,
            n == s@.len(),
            sp_skip_ws(s@, from as int) == sp_skip_ws(s@, j as int),
        decreases n - j,
    {
        let c = s.get_char(j);
        if !(c == ' ' || c == '\t' || c == '\n' || c == '\r') {
            return j;
        }
        j = j + 1;
    }
    j
}

/// See `hex_val`.
fn hex_digit(c: char) -> (r: Option<u32>)
    ensures
        r matches Some(v) ==> hex_val(c) == Some(v as int) && v < 16,
        r is None ==> hex_val(c) is None,
{
    let v = c as u32;
    if 48 <= v && v <= 57 {
        Some(v - 48)
    } else if 65 <= v && v <= 70 {
        Some(v - 55)
    } else if 97 <= v && v <= 102 {
        Some(v - 87)
    } else {
        None
    }
}

/// See `sp_hex4`.
fn hex4_at(s: &str, i: usize) -> (r: Option<u32>)
    ensures
        r matches Some(v) ==> sp_hex4(s@, i as int) == Some(v as int) && v < 0x10000 && i + 4
            <= s@.len(),
        r is None ==> sp_hex4(s@, i as int) is None,
{
    let n = s.unicode_len();
    if i >= n || n - i < 4 {
        return None;
    }
    let a = hex_digit(s.get_char(i));
    let b = hex_digit(s.get_char(i + 1));
    let c = hex_digit(s.get_char(i + 2));
    let d = hex_digit(s.get_char(i + 3));
    match (a, b, c, d) {
        (Some(a), Some(b), Some(c), Some(d)) => Some(a * 4096 + b * 256 + c * 16 + d),
        _ => None,
    }
}

/// See `sp_string_body`.
fn string_body_at(s: &str, i: usize, acc: String) -> (r: Option<(String, usize)>)
    ensures
        r matches Some(p) ==> (sp_string_body(s@, i as int, acc@) matches Some(q) && q.0 == p.0@
            && q.1 == p.1 as int && i < p.1 <= s@.len()),
        r is None ==> sp_string_body(s@, i as int, acc@) is None,
    decreases s@.len() - i,
{
    let n = s.unicode_len();
    if i >= n {
        return None;
    }
    let c = s.get_char(i);
    if c == '"' {
        return Some((acc, i + 1));
    }
    if c == '\\' {
        if n - i < 2 {
            return None;
        }
        let e = s.get_char(i + 1);
        if e == 'u' {
            match hex4_at(s, i + 2) {
                None => None,
                Some(v1) => {
                    if 0xD800 <= v1 && v1 < 0xDC00 {
                        if n - i < 8 {
                            return None;
                        }
                        if !(s.get_char(i + 6) == '\\' && s.get_char(i + 7) == 'u') {
                            return None;
                        }
                        match hex4_at(s, i + 8) {
                            None => None,
                            Some(v2) => {
                                if 0xDC00 <= v2 && v2 < 0xE000 {
                                    let cp: u32 = 0x10000 + (v1 - 0xD800) * 0x400 + (v2 - 0xDC00);
                                    proof {
                                        assert(is_scalar(cp));
                                    }
                                    let c2 = char_of_u32(cp).unwrap();
                                    proof {
                                        char_u32_cast(c2, cp);
                                    }
                                    let mut acc2 = acc;
                                    push_char(&mut acc2, c2);
                                    string_body_at(s, i + 12, acc2)
                                } else {
                                    None
                                }
                            },
                        }
                    } else if 0xDC00 <= v1 && v1 < 0xE000 {
                        None
                    } else {
                        proof {
                            assert(is_scalar(v1));
                        }
                        let c2 = char_of_u32(v1).unwrap();
                        proof {
                            char_u32_cast(c2, v1);
                        }
                        let mut acc2 = acc;
                        push_char(&mut acc2, c2);
                        string_body_at(s, i + 6, acc2)
                    }
                },
            }
        } else {
            let d: Option<char> = if e == '"' {
                Some('"')
            } else if e == '\\' {
                Some('\\')
            } else if e == '/' {
                Some('/')
            } else if e == 'b' {
                Some('\u{0008}')
            } else if e == 'f' {
                Some('\u{000c}')
            } else if e == 'n' {
                Some('\n')
            } else if e == 'r' {
                Some('\r')
            } else if e == 't' {
                Some('\t')
            } else {
                None
            };
            match d {
                None => None,
                Some(d) => {
                    let mut acc2 = acc;
                    push_char(&mut acc2, d);
                    string_body_at(s, i + 2, acc2)
                },
            }
        }
    } else if (c as u32) < 32 {
        None
    } else {
        let mut acc2 = acc;
        push_char(&mut acc2, c);
        string_body_at(s, i + 1, acc2)
    }
}

/// See `sp_parse_string`.
pub fn parse_string_at(s: &str, i: usize) -> (r: Option<(String, usize)>)
    ensures
        r matches Some(p) ==> (sp_parse_string(s@, i as int) matches Some(q) && q.0 == p.0@ && q.1
            == p.1 as int && i < p.1 <= s@.len()),
        r is None ==> sp_parse_string(s@, i as int) is None,
{
    let n = s.unicode_len();
    if i >= n || s.get_char(i) != '"' {
        return None;
    }
    string_body_at(s, i + 1, String::new())
}

/// See `sp_parse_bool`.
pub fn parse_bool_at(s: &str, i: usize) -> (r: Option<(bool, usize)>)
    ensures
        r matches Some(p) ==> sp_parse_bool(s@, i as int) == Some((p.0, p.1 as int)) && i < p.1
            <= s@.len(),
        r is None ==> sp_parse_bool(s@, i as int) is None,
{
    let n = s.unicode_len();
    if i < n && n - i >= 4 && s.get_char(i) == 't' && s.get_char(i + 1) == 'r' && s.get_char(i + 2)
        == 'u' && s.get_char(i + 3) == 'e' {
        Some((true, i + 4))
    } else if i < n && n - i >= 5 && s.get_char(i) == 'f' && s.get_char(i + 1) == 'a' && s.get_char(
        i + 2,
    ) == 'l' && s.get_char(i + 3) == 's' && s.get_char(i + 4) == 'e' {
        Some((false, i + 5))
    } else {
        None
    }
}

/// See `sp_skip_digits`.
fn skip_digits(s: &str, from: usize) -> (r: usize)
    requires
        from as int <= s@.len(),
    ensures
        r as int == sp_skip_digits(s@, from as int),
        from <= r <= s@.len(),
{
    let n = s.unicode_len();
    let mut j = from;
    while j < n
        invariant
            from <= j <= n,
            n == s@.len(),
            sp_skip_digits(s@, from as int) == sp_skip_digits(s@, j as int),
        decreases n - j,
    {
        let c = s.get_char(j);
        let v = c as u32;
        if !(48 <= v && v <= 57) {
            return j;
        }
        j = j + 1;
    }
    j
}

/// See `sp_skip_number`.
fn skip_number_at(s: &str, i: usize) -> (r: Option<usize>)
    ensures
        r matches Some(k) ==> sp_skip_number(s@, i as int) == Some(k as int) && i < k <= s@.len(),
        r is None ==> sp_skip_number(s@, i as int) is None,
{
    let n = s.unicode_len();
    let j = if i < n && s.get_char(i) == '-' {
        i + 1
    } else {
        i
    };
    if j >= n {
        return None;
    }
    let c = s.get_char(j);
    if !(48 <= c as u32 && c as u32 <= 57) {
        return None;
    }
    let k = if c == '0' {
        j + 1
    } else {
        skip_digits(s, j + 1)
    };
    let k2: usize;
    if k < n && s.get_char(k) == '.' {
        if k + 1 < n {
            let f = s.get_char(k + 1);
            if 48 <= f as u32 && f as u32 <= 57 {
                k2 = skip_digits(s, k + 1);
            } else {
                return None;
            }
        } else {
            return None;
        }
    } else {
        k2 = k;
    }
    if k2 < n {
        let x = s.get_char(k2);
        if x == 'e' || x == 'E' {
            let k3 = if k2 + 1 < n {
                let sg = s.get_char(k2 + 1);
                if sg == '+' || sg == '-' {
                    k2 + 2
                } else {
                    k2 + 1
                }
            } else {
                k2 + 1
            };
            if k3 < n {
                let y = s.get_char(k3);
                if 48 <= y as u32 && y as u32 <= 57 {
                    return Some(skip_digits(s, k3));
                }
            }
            return None;
        }
    }
    Some(k2)
}

/// See `sp_skip_value`.
pub fn skip_value_at(s: &str, i: usize) -> (r: Option<usize>)
    ensures
        r matches Some(k) ==> sp_skip_value(s@, i as int) == Some(k as int) && i < k <= s@.len(),
        r is None ==> sp_skip_value(s@, i as int) is None,
    decreases s@.len() - i, 0int,
{
    let n = s.unicode_len();
    if i >= n {
        return None;
    }
    let c = s.get_char(i);
    if c == '"' {
        match parse_string_at(s, i) {
            None => None,
            Some(p) => Some(p.1),
        }
    } else if c == '{' {
        skip_members_at(s, i + 1, true)
    } else if c == '[' {
        skip_elements_at(s, i + 1, true)
    } else if c == 't' || c == 'f' {
        match parse_bool_at(s, i) {
            None => None,
            Some(p) => Some(p.1),
        }
    } else if c == 'n' {
        if n - i >= 4 && s.get_char(i + 1) == 'u' && s.get_char(i + 2) == 'l' && s.get_char(i + 3)
            == 'l' {
            Some(i + 4)
        } else {
            None
        }
    } else if c == '-' || (48 <= c as u32 && c as u32 <= 57) {
        skip_number_at(s, i)
    } else {
        None
    }
}

/// See `sp_skip_member`.
fn skip_member_at(s: &str, m: usize) -> (r: Option<usize>)
    ensures
        r matches Some(k) ==> sp_skip_member(s@, m as int) == Some(k as int) && m < k <= s@.len(),
        r is None ==> sp_skip_member(s@, m as int) is None,
    decreases s@.len() - m, 1int,
{
    match parse_string_at(s, m) {
        None => None,
        Some(p) => {
            let a = p.1;
            let b = skip_ws(s, a);
            let n = s.unicode_len();
            if !(b < n && s.get_char(b) == ':') {
                return None;
            }
            let v = skip_ws(s, b + 1);
            if m < v && v <= n {
                skip_value_at(s, v)
            } else {
                None
            }
        },
    }
}

/// See `sp_skip_members`.
fn skip_members_at(s: &str, i: usize, first: bool) -> (r: Option<usize>)
    requires
        i as int <= s@.len(),
    ensures
        r matches Some(k) ==> sp_skip_members(s@, i as int, first) == Some(k as int) && i < k
            <= s@.len(),
        r is None ==> sp_skip_members(s@, i as int, first) is None,
    decreases s@.len() - i, 2int,
{
    let n = s.unicode_len();
    let j = skip_ws(s, i);
    if !(j < n) {
        return None;
    }
    if s.get_char(j) == '}' {
        return Some(j + 1);
    }
    let m: usize;
    if first {
        m = j;
    } else if s.get_char(j) == ',' {
        m = skip_ws(s, j + 1);
    } else {
        return None;
    }
    if !(m < n) {
        return None;
    }
    match skip_member_at(s, m) {
        None => None,
        Some(k) => {
            if m < k && k <= n {
                skip_members_at(s, k, false)
            } else {
                None
            }
        },
    }
}

/// See `sp_skip_elements`.
fn skip_elements_at(s: &str, i: usize, first: bool) -> (r: Option<usize>)
    requires
        i as int <= s@.len(),
    ensures
        r matches Some(k) ==> sp_skip_elements(s@, i as int, first) == Some(k as int) && i < k
            <= s@.len(),
        r is None ==> sp_skip_elements(s@, i as int, first) is None,
    decreases s@.len() - i, 1int,
{
    let n = s.unicode_len();
    let j = skip_ws(s, i);
    if !(j < n) {
        return None;
    }
    if s.get_char(j) == ']' {
        return Some(j + 1);
    }
    let m: usize;
    if first {
        m = j;
    } else if s.get_char(j) == ',' {
        m = skip_ws(s, j + 1);
    } else {
        return None;
    }
    if !(m < n) {
        return None;
    }
    match skip_value_at(s, m) {
        None => None,
        Some(k) => {
            if m < k && k <= n {
                skip_elements_at(s, k, false)
            } else {
                None
            }
        },
    }
}

} // verus!
