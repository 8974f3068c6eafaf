//! RTP payload types as they appear in the keys of a payload-type map:
//! decimal text, read the way Rust reads a `u8` from a string and written
//! the way Rust writes one.
use vstd::prelude::*;

verus! {

/// A decimal digit character.
pub open spec fn is_digit(c: char) -> bool {
    '0' <= c && c <= '9'
}

/// Every character of `d` is a decimal digit.
pub open spec fn all_digits(d: Seq<char>) -> bool {
    forall|i: int| 0 <= i < d.len() ==> is_digit(#[trigger] d[i])
}

/// The value of a decimal digit character.
pub open spec fn digit_value(c: char) -> nat {
    ((c as int) - ('0' as int)) as nat
}

/// The digit character of a value below ten.
pub open spec fn digit_char(d: u8) -> char {
    ((d as int) + ('0' as int)) as char
}

/// The number that a string of decimal digits denotes (most significant first).
pub open spec fn digits_value(d: Seq<char>) -> nat
    decreases d.len(),
{
    if d.len() == 0 {
        0
    } else {
        digits_value(d.drop_last()) * 10 + digit_value(d.last())
    }
}

/// The digits of a key: one leading `+` is allowed and skipped.
pub open spec fn pt_digits(s: Seq<char>) -> Seq<char> {
    if s.len() > 0 && s[0] == '+' {
        s.skip(1)
    } else {
        s
    }
}

/// What reading `s` as a `u8` gives: an optional `+`, then at least one
/// decimal digit and nothing else, of value at most 255.
pub open spec fn spec_parse_pt(s: Seq<char>) -> Option<u8> {
    let d = pt_digits(s);
    if d.len() > 0 && all_digits(d) && digits_value(d) <= 255 {
        Some(digits_value(d) as u8)
    } else {
        None
    }
}

/// The decimal text of `v`, without leading zeros or sign.
pub open spec fn spec_pt_string(v: u8) -> Seq<char> {
    if v < 10 {
        seq![digit_char(v)]
    } else if v < 100 {
        seq![digit_char(v / 10), digit_char(v % 10)]
    } else {
        seq![digit_char(v / 100), digit_char((v / 10) % 10), digit_char(v % 10)]
    }
}

/// A prefix of a digit string never denotes more than the whole string.
pub proof fn lemma_digits_prefix_le(d: Seq<char>, k: int)
    requires
        all_digits(d),
        0 <= k <= d.len(),
    ensures
        digits_value(d.take(k)) <= digits_value(d),
    decreases d.len(),
{
    if k < d.len() {
        let e = d.drop_last();
        assert(all_digits(e));
        lemma_digits_prefix_le(e, k);
        assert(e.take(k) =~= d.take(k));
    } else {
        assert(d.take(k) =~= d);
    }
}

/// A digit character is a digit and denotes its value.
proof fn lemma_digit_char(d: u8)
    requires
        d < 10,
    ensures
        is_digit(digit_char(d)),
        digit_value(digit_char(d)) == d,
{
}

/// Reading back the text that `pt_to_string` writes gives the value written.
pub proof fn lemma_parse_pt_string(v: u8)
    ensures
        spec_parse_pt(spec_pt_string(v)) == Some(v),
{
    let s = spec_pt_string(v);
    lemma_digit_char(v % 10);
    lemma_digit_char((v / 10) % 10);
    if v < 100 {
        lemma_digit_char(v / 10);
    } else {
        lemma_digit_char(v / 100);
    }
    assert(pt_digits(s) == s);
    assert(all_digits(s));
    if v < 10 {
        assert(s.drop_last() =~= Seq::<char>::empty());
        assert(s.last() == digit_char(v));
        assert(digits_value(s.drop_last()) == 0);
        assert(digits_value(s) == v);
    } else if v < 100 {
        assert(s.drop_last() =~= seq![digit_char(v / 10)]);
        assert(s.drop_last().drop_last() =~= Seq::<char>::empty());
        let t = s.drop_last();
        assert(t.last() == digit_char(v / 10));
        assert(digits_value(t.drop_last()) == 0);
        assert(digits_value(t) == v / 10);
        assert(digits_value(s) == (v / 10) * 10 + v % 10);
        assert(digits_value(s) == v);
    } else {
        assert(s.drop_last() =~= seq![digit_char(v / 100), digit_char((v / 10) % 10)]);
        assert(s.drop_last().drop_last() =~= seq![digit_char(v / 100)]);
        assert(s.drop_last().drop_last().drop_last() =~= Seq::<char>::empty());
        let u = s.drop_last().drop_last();
        assert(u.last() == digit_char(v / 100));
        assert(digits_value(u.drop_last()) == 0);
        assert(digits_value(u) == v / 100);
        assert(s.drop_last().last() == digit_char((v / 10) % 10));
        assert(digits_value(s.drop_last()) == (v / 100) * 10 + (v / 10) % 10);
        assert(digits_value(s) == ((v / 100) * 10 + (v / 10) % 10) * 10 + v % 10);
        assert(digits_value(s) == v);
    }
}

/// Two payload types with the same text are the same payload type.
pub proof fn lemma_pt_string_injective(a: u8, b: u8)
    requires
        spec_pt_string(a) == spec_pt_string(b),
    ensures
        a == b,
{
    lemma_parse_pt_string(a);
    lemma_parse_pt_string(b);
}

/// The one-character string of a digit.
fn digit_str(d: u8) -> (s: &'static str)
    requires
        d < 10,
    ensures
        s@ == seq![digit_char(d)],
{
    match d {
        0 => {
            proof { reveal_strlit("0"); }
            "0"
        },
        1 => {
            proof { reveal_strlit("1"); }
            "1"
        },
        2 => {
            proof { reveal_strlit("2"); }
            "2"
        },
        3 => {
            proof { reveal_strlit("3"); }
            "3"
        },
        4 => {
            proof { reveal_strlit("4"); }
            "4"
        },
        5 => {
            proof { reveal_strlit("5"); }
            "5"
        },
        6 => {
            proof { reveal_strlit("6"); }
            "6"
        },
        7 => {
            proof { reveal_strlit("7"); }
            "7"
        },
        8 => {
            proof { reveal_strlit("8"); }
            "8"
        },
        _ => {
            proof { reveal_strlit("9"); }
            "9"
        },
    }
}

/// Writes a payload type as decimal text, as `u8::to_string` does.
pub fn pt_to_string(v: u8) -> (s: String)
    ensures
        s@ == spec_pt_string(v),
{
    let mut s = String::new();
    if v >= 100 {
        s.append(digit_str(v / 100));
    }
    if v >= 10 {
        s.append(digit_str((v / 10) % 10));
    }
    s.append(digit_str(v % 10));
    assert(s@ =~= spec_pt_string(v));
    s
}

/// Reads a payload type from a key, as `str::parse::<u8>` does: `None`
/// exactly where that parse fails.
pub fn parse_pt(s: &str) -> (r: Option<u8>)
    ensures
        r == spec_parse_pt(s@),
{
    let n = s.unicode_len();
    if n == 0 {
        return None;
    }
    let mut start: usize = 0;
    if s.get_char(0) == '+' {
        start = 1;
        if n == 1 {
            assert(pt_digits(s@).len() == 0);
            return None;
        }
    }
    let ghost d = pt_digits(s@);
    assert(d =~= s@.subrange(start as int, n as int));
    let mut i: usize = start;
    let mut acc: u32 = 0;
    assert(s@.subrange(start as int, i as int) =~= Seq::<char>::empty());
    while i < n
        invariant
            n == s@.len(),
            start <= i <= n,
            start < n,
            d == s@.subrange(start as int, n as int),
            d == pt_digits(s@),
            acc as nat == digits_value(s@.subrange(start as int, i as int)),
            acc <= 255,
            all_digits(s@.subrange(start as int, i as int)),
        decreases n - i,
    {
        let c = s.get_char(i);
        let ghost pre = s@.subrange(start as int, i as int);
        let ghost next = s@.subrange(start as int, i + 1);
        assert(next.drop_last() =~= pre);
        assert(next.last() == c);
        if c < '0' || c > '9' {
            assert(d[i - start] == c);
            assert(!is_digit(d[i - start]));
            assert(!all_digits(d));
            assert(spec_parse_pt(s@).is_none());
            return None;
        }
        let v: u32 = (c as u32) - 48;
        acc = acc * 10 + v;
        assert(all_digits(next)) by {
            assert forall|j: int| 0 <= j < next.len() implies is_digit(#[trigger] next[j]) by {
                if j < pre.len() {
                    assert(next[j] == pre[j]);
                }
            }
        }
        if acc > 255 {
            proof {
                if all_digits(d) {
                    lemma_digits_prefix_le(d, (i + 1 - start) as int);
                    assert(d.take((i + 1 - start) as int) =~= next);
                }
                assert(spec_parse_pt(s@).is_none());
            }
            return None;
        }
        i = i + 1;
    }
    assert(s@.subrange(start as int, i as int) =~= d);
    Some(acc as u8)
}

} // verus!
