//! A verified decoder for the external API's response body.
//!
//! The expected payload is a JSON object with one required member,
//! `"text"`, holding a string; additional members of any JSON shape are
//! ignored.  The grammar is defined by the `spec_*` functions below as
//! recursive functions over the byte sequence, and the executable parser is
//! proved to return exactly what the grammar defines.  Escape sequences
//! `\" \\ \/ \b \f \n \r \t` are resolved; `\u` escapes are not accepted.
//! A duplicated `"text"` member, a `"text"` member that is not a string,
//! or trailing bytes after the object make the document invalid.

use vstd::prelude::*;

verus! {

pub open spec fn is_ws_byte(b: u8) -> bool {
    b == 0x20 || b == 0x09 || b == 0x0a || b == 0x0d
}

pub open spec fn is_digit_byte(b: u8) -> bool {
    0x30 <= b && b <= 0x39
}

/// The key of the one required member, `"text"`, as bytes.
pub open spec fn text_key() -> Seq<u8> {
    seq![0x74u8, 0x65u8, 0x78u8, 0x74u8]
}

/// The index of the first non-whitespace byte at or after `i`.
pub open spec fn spec_skip_ws(s: Seq<u8>, i: int) -> int
    decreases s.len() - i,
{
    if 0 <= i && i < s.len() && is_ws_byte(s[i]) {
        spec_skip_ws(s, i + 1)
    } else {
        i
    }
}

/// The resolution of a one-byte escape sequence, `None` for an escape the
/// grammar does not accept.
pub open spec fn spec_unescape(b: u8) -> Option<u8> {
    if b == 0x22 {
        Some(0x22u8)
    } else if b == 0x5c {
        Some(0x5cu8)
    } else if b == 0x2f {
        Some(0x2fu8)
    } else if b == 0x62 {
        Some(0x08u8)
    } else if b == 0x66 {
        Some(0x0cu8)
    } else if b == 0x6e {
        Some(0x0au8)
    } else if b == 0x72 {
        Some(0x0du8)
    } else if b == 0x74 {
        Some(0x09u8)
    } else {
        None
    }
}

/// The rest of a string whose opening quote stands just before `i`:
/// the index just past the closing quote, and the content with escapes
/// resolved.
pub open spec fn spec_string_rest(s: Seq<u8>, i: int) -> Option<(int, Seq<u8>)>
    decreases s.len() - i,
{
    if !(0 <= i && i < s.len()) {
        None
    } else if s[i] == 0x22 {
        Some((i + 1, Seq::empty()))
    } else if s[i] == 0x5c {
        if i + 1 < s.len() {
            match spec_unescape(s[i + 1]) {
                Some(c) => match spec_string_rest(s, i + 2) {
                    Some(p) => Some((p.0, p.1.insert(0, c))),
                    None => None,
                },
                None => None,
            }
        } else {
            None
        }
    } else if s[i] >= 0x20 {
        match spec_string_rest(s, i + 1) {
            Some(p) => Some((p.0, p.1.insert(0, s[i]))),
            None => None,
        }
    } else {
        None
    }
}

/// The index of the first non-digit byte at or after `i`.
pub open spec fn spec_digits_end(s: Seq<u8>, i: int) -> int
    decreases s.len() - i,
{
    if 0 <= i && i < s.len() && is_digit_byte(s[i]) {
        spec_digits_end(s, i + 1)
    } else {
        i
    }
}

/// The index just past a number starting at `i`: an optional minus sign, an
/// integer part without leading zeros, an optional fraction, an optional
/// exponent.
pub open spec fn spec_number_end(s: Seq<u8>, i: int) -> Option<int> {
    let p = if 0 <= i && i < s.len() && s[i] == 0x2d {
        i + 1
    } else {
        i
    };
    if 0 <= p && p < s.len() && is_digit_byte(s[p]) {
        let q = if s[p] == 0x30 {
            p + 1
        } else {
            spec_digits_end(s, p)
        };
        let q2 = if q < s.len() && s[q] == 0x2e {
            if q + 1 < s.len() && is_digit_byte(s[q + 1]) {
                Some(spec_digits_end(s, q + 1))
            } else {
                None
            }
        } else {
            Some(q)
        };
        match q2 {
            None => None,
            Some(q3) => if q3 < s.len() && (s[q3] == 0x65 || s[q3] == 0x45) {
                let p2 = if q3 + 1 < s.len() && (s[q3 + 1] == 0x2b || s[q3 + 1] == 0x2d) {
                    q3 + 2
                } else {
                    q3 + 1
                };
                if p2 < s.len() && is_digit_byte(s[p2]) {
                    Some(spec_digits_end(s, p2))
                } else {
                    None
                }
            } else {
                Some(q3)
            },
        }
    } else {
        None
    }
}

/// The index just past one of the literals `true`, `false`, `null`
/// starting at `i`.
pub open spec fn spec_literal_end(s: Seq<u8>, i: int) -> Option<int> {
    if !(0 <= i) {
        None
    } else if i + 4 <= s.len() && s[i] == 0x74 && s[i + 1] == 0x72 && s[i + 2] == 0x75 && s[i + 3]
        == 0x65 {
        Some(i + 4)
    } else if i + 5 <= s.len() && s[i] == 0x66 && s[i + 1] == 0x61 && s[i + 2] == 0x6c && s[i + 3]
        == 0x73 && s[i + 4] == 0x65 {
        Some(i + 5)
    } else if i + 4 <= s.len() && s[i] == 0x6e && s[i + 1] == 0x75 && s[i + 2] == 0x6c && s[i + 3]
        == 0x6c {
        Some(i + 4)
    } else {
        None
    }
}

/// What a member whose value starts at `v` contributes to the captured
/// `"text"` content: `None` for an invalid member (a `"text"` value that is
/// not a string), `Some(None)` for a member under another key, and
/// `Some(Some(content))` for a string `"text"` member.
pub open spec fn spec_member_capture(s: Seq<u8>, v: int, key: Seq<u8>) -> Option<Option<Seq<u8>>> {
    if key == text_key() {
        if 0 <= v && v < s.len() && s[v] == 0x22 {
            match spec_string_rest(s, v + 1) {
                Some(sp) => Some(Some(sp.1)),
                None => None,
            }
        } else {
            None
        }
    } else {
        Some(None)
    }
}

/// The index just past a value starting at `i`.
pub open spec fn spec_value_end(s: Seq<u8>, i: int) -> Option<int>
    decreases s.len() - i, 0int,
{
    if !(0 <= i && i < s.len()) {
        None
    } else if s[i] == 0x22 {
        match spec_string_rest(s, i + 1) {
            Some(p) => Some(p.0),
            None => None,
        }
    } else if s[i] == 0x7b {
        let j = spec_skip_ws(s, i + 1);
        if !(i + 1 <= j && j <= s.len()) {
            None
        } else if j < s.len() && s[j] == 0x7d {
            Some(j + 1)
        } else {
            match spec_members_end(s, j) {
                Some(p) => Some(p.0),
                None => None,
            }
        }
    } else if s[i] == 0x5b {
        let j = spec_skip_ws(s, i + 1);
        if !(i + 1 <= j && j <= s.len()) {
            None
        } else if j < s.len() && s[j] == 0x5d {
            Some(j + 1)
        } else {
            spec_items_end(s, j)
        }
    } else if s[i] == 0x74 || s[i] == 0x66 || s[i] == 0x6e {
        spec_literal_end(s, i)
    } else if s[i] == 0x2d || is_digit_byte(s[i]) {
        spec_number_end(s, i)
    } else {
        None
    }
}

/// The index just past an object's member list starting at the first
/// member's key at `i`, together with the captured `"text"` content.
/// A duplicated `"text"` member makes the list invalid.
pub open spec fn spec_members_end(s: Seq<u8>, i: int) -> Option<(int, Option<Seq<u8>>)>
    decreases s.len() - i, 1int,
{
    if !(0 <= i && i < s.len() && s[i] == 0x22) {
        None
    } else {
        match spec_string_rest(s, i + 1) {
            None => None,
            Some(kp) => if !(i + 1 < kp.0 && kp.0 <= s.len()) {
                None
            } else {
                let c = spec_skip_ws(s, kp.0);
                if !(kp.0 <= c && c < s.len() && s[c] == 0x3a) {
                    None
                } else {
                    let v = spec_skip_ws(s, c + 1);
                    if !(c + 1 <= v && v <= s.len()) {
                        None
                    } else {
                        match spec_value_end(s, v) {
                            None => None,
                            Some(e) => if !(v < e && e <= s.len()) {
                                None
                            } else {
                                match spec_member_capture(s, v, kp.1) {
                                    None => None,
                                    Some(cap0) => {
                                        let w = spec_skip_ws(s, e);
                                        if !(e <= w && w < s.len()) {
                                            None
                                        } else if s[w] == 0x7d {
                                            Some((w + 1, cap0))
                                        } else if s[w] == 0x2c {
                                            let n = spec_skip_ws(s, w + 1);
                                            if !(w + 1 <= n && n <= s.len()) {
                                                None
                                            } else {
                                                match spec_members_end(s, n) {
                                                    None => None,
                                                    Some(rp) => match (cap0, rp.1) {
                                                        (Some(_), Some(_)) => None,
                                                        (Some(t), None) => Some((rp.0, Some(t))),
                                                        (None, rest) => Some((rp.0, rest)),
                                                    },
                                                }
                                            }
                                        } else {
                                            None
                                        }
                                    },
                                }
                            },
                        }
                    }
                }
            },
        }
    }
}

/// The index just past an array's item list starting at the first item's
/// value at `i`.
pub open spec fn spec_items_end(s: Seq<u8>, i: int) -> Option<int>
    decreases s.len() - i, 1int,
{
    match spec_value_end(s, i) {
        None => None,
        Some(e) => if !(i < e && e <= s.len()) {
            None
        } else {
            let w = spec_skip_ws(s, e);
            if !(e <= w && w < s.len()) {
                None
            } else if s[w] == 0x5d {
                Some(w + 1)
            } else if s[w] == 0x2c {
                let n = spec_skip_ws(s, w + 1);
                if !(w + 1 <= n && n <= s.len()) {
                    None
                } else {
                    spec_items_end(s, n)
                }
            } else {
                None
            }
        },
    }
}

/// The `"text"` member's content of a document that is one JSON object with
/// a string `"text"` member and nothing but whitespace around it; `None`
/// for every other byte sequence.
pub open spec fn spec_fact_text(s: Seq<u8>) -> Option<Seq<u8>> {
    let i = spec_skip_ws(s, 0);
    if !(i < s.len() && s[i] == 0x7b) {
        None
    } else {
        let j = spec_skip_ws(s, i + 1);
        if !(i + 1 <= j && j <= s.len()) {
            None
        } else if j < s.len() && s[j] == 0x7d {
            None
        } else {
            match spec_members_end(s, j) {
                None => None,
                Some(p) => if !(p.0 <= s.len()) {
                    None
                } else if spec_skip_ws(s, p.0) == s.len() {
                    p.1
                } else {
                    None
                },
            }
        }
    }
}

fn skip_ws(s: &Vec<u8>, i: usize) -> (r: usize)
    requires
        i <= s.len(),
    ensures
        i <= r <= s.len(),
        r as int == spec_skip_ws(s@, i as int),
{
    let mut j = i;
    while j < s.len() && (s[j] == 0x20 || s[j] == 0x09 || s[j] == 0x0a || s[j] == 0x0d)
        invariant
            i <= j <= s.len(),
            spec_skip_ws(s@, i as int) == spec_skip_ws(s@, j as int),
        decreases s.len() - j,
    {
        j = j + 1;
    }
    j
}

fn string_rest(s: &Vec<u8>, i: usize) -> (r: Option<(usize, Vec<u8>)>)
    requires
        i <= s.len(),
    ensures
        match r {
            Some(p) => {
                &&& spec_string_rest(s@, i as int) == Some((p.0 as int, p.1@))
                &&& i < p.0 <= s.len()
            },
            None => spec_string_rest(s@, i as int) is None,
        },
    decreases s.len() - i,
{
    if i >= s.len() {
        None
    } else if s[i] == 0x22 {
        Some((i + 1, Vec::new()))
    } else if s[i] == 0x5c {
        if i + 1 < s.len() {
            let c = match unescape(s[i + 1]) {
                Some(c) => c,
                None => {
                    return None;
                },
            };
            match string_rest(s, i + 2) {
                Some((e, mut content)) => {
                    content.insert(0, c);
                    Some((e, content))
                },
                None => None,
            }
        } else {
            None
        }
    } else if s[i] >= 0x20 {
        let c = s[i];
        match string_rest(s, i + 1) {
            Some((e, mut content)) => {
                content.insert(0, c);
                Some((e, content))
            },
            None => None,
        }
    } else {
        None
    }
}

fn unescape(b: u8) -> (r: Option<u8>)
    ensures
        r == spec_unescape(b),
{
    if b == 0x22 {
        Some(0x22)
    } else if b == 0x5c {
        Some(0x5c)
    } else if b == 0x2f {
        Some(0x2f)
    } else if b == 0x62 {
        Some(0x08)
    } else if b == 0x66 {
        Some(0x0c)
    } else if b == 0x6e {
        Some(0x0a)
    } else if b == 0x72 {
        Some(0x0d)
    } else if b == 0x74 {
        Some(0x09)
    } else {
        None
    }
}

fn digits_end(s: &Vec<u8>, i: usize) -> (r: usize)
    requires
        i <= s.len(),
    ensures
        i <= r <= s.len(),
        r as int == spec_digits_end(s@, i as int),
{
    let mut j = i;
    while j < s.len() && 0x30 <= s[j] && s[j] <= 0x39
        invariant
            i <= j <= s.len(),
            spec_digits_end(s@, i as int) == spec_digits_end(s@, j as int),
        decreases s.len() - j,
    {
        j = j + 1;
    }
    j
}

fn number_end(s: &Vec<u8>, i: usize) -> (r: Option<usize>)
    requires
        i <= s.len(),
    ensures
        match r {
            Some(e) => spec_number_end(s@, i as int) == Some(e as int) && e <= s.len(),
            None => spec_number_end(s@, i as int) is None,
        },
{
    let p = if i < s.len() && s[i] == 0x2d {
        i + 1
    } else {
        i
    };
    if p < s.len() && 0x30 <= s[p] && s[p] <= 0x39 {
        let q = if s[p] == 0x30 {
            p + 1
        } else {
            digits_end(s, p)
        };
        let q2 = if q < s.len() && s[q] == 0x2e {
            if q + 1 < s.len() && 0x30 <= s[q + 1] && s[q + 1] <= 0x39 {
                Some(digits_end(s, q + 1))
            } else {
                None
            }
        } else {
            Some(q)
        };
        match q2 {
            None => None,
            Some(q3) => if q3 < s.len() && (s[q3] == 0x65 || s[q3] == 0x45) {
                let p2 = if q3 + 1 < s.len() && (s[q3 + 1] == 0x2b || s[q3 + 1] == 0x2d) {
                    q3 + 2
                } else {
                    q3 + 1
                };
                if p2 < s.len() && 0x30 <= s[p2] && s[p2] <= 0x39 {
                    Some(digits_end(s, p2))
                } else {
                    None
                }
            } else {
                Some(q3)
            },
        }
    } else {
        None
    }
}

fn literal_end(s: &Vec<u8>, i: usize) -> (r: Option<usize>)
    requires
        i <= s.len(),
    ensures
        match r {
            Some(e) => spec_literal_end(s@, i as int) == Some(e as int) && e <= s.len(),
            None => spec_literal_end(s@, i as int) is None,
        },
{
    if s.len() >= 4 && i <= s.len() - 4 && s[i] == 0x74 && s[i + 1] == 0x72 && s[i + 2] == 0x75
        && s[i + 3] == 0x65 {
        Some(i + 4)
    } else if s.len() >= 5 && i <= s.len() - 5 && s[i] == 0x66 && s[i + 1] == 0x61 && s[i + 2]
        == 0x6c && s[i + 3] == 0x73 && s[i + 4] == 0x65 {
        Some(i + 5)
    } else if s.len() >= 4 && i <= s.len() - 4 && s[i] == 0x6e && s[i + 1] == 0x75 && s[i + 2]
        == 0x6c && s[i + 3] == 0x6c {
        Some(i + 4)
    } else {
        None
    }
}

fn value_end(s: &Vec<u8>, i: usize) -> (r: Option<usize>)
    requires
        i <= s.len(),
    ensures
        match r {
            Some(e) => spec_value_end(s@, i as int) == Some(e as int) && e <= s.len(),
            None => spec_value_end(s@, i as int) is None,
        },
    decreases s.len() - i, 0int,
{
    if i >= s.len() {
        None
    } else if s[i] == 0x22 {
        match string_rest(s, i + 1) {
            Some((e, _content)) => Some(e),
            None => None,
        }
    } else if s[i] == 0x7b {
        let j = skip_ws(s, i + 1);
        if j < s.len() && s[j] == 0x7d {
            Some(j + 1)
        } else {
            match members_end(s, j) {
                Some((e, _cap)) => Some(e),
                None => None,
            }
        }
    } else if s[i] == 0x5b {
        let j = skip_ws(s, i + 1);
        if j < s.len() && s[j] == 0x5d {
            Some(j + 1)
        } else {
            items_end(s, j)
        }
    } else if s[i] == 0x74 || s[i] == 0x66 || s[i] == 0x6e {
        literal_end(s, i)
    } else if s[i] == 0x2d || (0x30 <= s[i] && s[i] <= 0x39) {
        number_end(s, i)
    } else {
        None
    }
}

fn members_end(s: &Vec<u8>, i: usize) -> (r: Option<(usize, Option<Vec<u8>>)>)
    requires
        i <= s.len(),
    ensures
        match r {
            Some(p) => {
                &&& p.0 <= s.len()
                &&& match p.1 {
                    Some(t) => spec_members_end(s@, i as int) == Some(
                        (p.0 as int, Some(t@)),
                    ),
                    None => spec_members_end(s@, i as int) == Some(
                        (p.0 as int, None::<Seq<u8>>),
                    ),
                }
            },
            None => spec_members_end(s@, i as int) is None,
        },
    decreases s.len() - i, 1int,
{
    if !(i < s.len() && s[i] == 0x22) {
        return None;
    }
    let (key_end, key) = match string_rest(s, i + 1) {
        Some(p) => p,
        None => {
            return None;
        },
    };
    let c = skip_ws(s, key_end);
    if !(c < s.len() && s[c] == 0x3a) {
        return None;
    }
    let v = skip_ws(s, c + 1);
    let e = match value_end(s, v) {
        Some(e) => e,
        None => {
            return None;
        },
    };
    if !(v < e) {
        return None;
    }
    let is_text = key.len() == 4 && key[0] == 0x74 && key[1] == 0x65 && key[2] == 0x78 && key[3]
        == 0x74;
    proof {
        if is_text {
            assert(key@ =~= text_key());
        } else {
            assert(key@ != text_key()) by {
                if key@ == text_key() {
                    assert(key@.len() == 4);
                    assert(key@[0] == 0x74 && key@[1] == 0x65 && key@[2] == 0x78 && key@[3]
                        == 0x74);
                }
            }
        }
    }
    let cap0: Option<Vec<u8>> = if is_text {
        if v < s.len() && s[v] == 0x22 {
            match string_rest(s, v + 1) {
                Some((_se, content)) => Some(content),
                None => {
                    return None;
                },
            }
        } else {
            return None;
        }
    } else {
        None
    };
    let w = skip_ws(s, e);
    if !(w < s.len()) {
        return None;
    }
    if s[w] == 0x7d {
        Some((w + 1, cap0))
    } else if s[w] == 0x2c {
        let n = skip_ws(s, w + 1);
        match members_end(s, n) {
            None => None,
            Some((rest_end, rest_cap)) => match (cap0, rest_cap) {
                (Some(_), Some(_)) => None,
                (Some(t), None) => Some((rest_end, Some(t))),
                (None, rest) => Some((rest_end, rest)),
            },
        }
    } else {
        None
    }
}

fn items_end(s: &Vec<u8>, i: usize) -> (r: Option<usize>)
    requires
        i <= s.len(),
    ensures
        match r {
            Some(e) => spec_items_end(s@, i as int) == Some(e as int) && e <= s.len(),
            None => spec_items_end(s@, i as int) is None,
        },
    decreases s.len() - i, 1int,
{
    let e = match value_end(s, i) {
        Some(e) => e,
        None => {
            return None;
        },
    };
    if !(i < e) {
        return None;
    }
    let w = skip_ws(s, e);
    if !(w < s.len()) {
        return None;
    }
    if s[w] == 0x5d {
        Some(w + 1)
    } else if s[w] == 0x2c {
        let n = skip_ws(s, w + 1);
        items_end(s, n)
    } else {
        None
    }
}

/// The `"text"` member's content of the given document, exactly as the
/// grammar [`spec_fact_text`] defines it.
pub fn fact_text(s: &Vec<u8>) -> (r: Option<Vec<u8>>)
    ensures
        match r {
            Some(t) => spec_fact_text(s@) == Some(t@),
            None => spec_fact_text(s@) is None,
        },
{
    let i = skip_ws(s, 0);
    if !(i < s.len() && s[i] == 0x7b) {
        return None;
    }
    let j = skip_ws(s, i + 1);
    if j < s.len() && s[j] == 0x7d {
        return None;
    }
    match members_end(s, j) {
        None => None,
        Some((e, cap)) => {
            if skip_ws(s, e) == s.len() {
                cap
            } else {
                None
            }
        },
    }
}

} // verus!
