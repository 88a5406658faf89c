//! Decoding of `%XX` and `&#NNN;` sequences in text.
use vstd::prelude::*;
use vstd::std_specs::iter::IteratorSpec;

use crate::decimal::{digits_value, is_digit};

verus! {

broadcast use vstd::string::group_string_axioms;

/// The characters of `s`, in order.
fn chars_of(s: &str) -> (r: Vec<char>)
    ensures
        r@ == s@,
{
    let mut out: Vec<char> = Vec::new();
    for c in it: s.chars()
        invariant
            it.seq() == s@,
            out@ == s@.take(it.index() as int),
    {
        out.push(c);
        assert(out@ =~= s@.take(it.index() + 1));
    }
    assert(out@ =~= s@);
    out
}


/// Whether `c` is a hexadecimal digit, in either case.
pub open spec fn is_hex(c: char) -> bool {
    ('0' <= c && c <= '9') || ('a' <= c && c <= 'f') || ('A' <= c && c <= 'F')
}

/// The value of a hexadecimal digit.
pub open spec fn hex_value(c: char) -> nat {
    if '0' <= c && c <= '9' {
        (c as u32 - 48) as nat
    } else if 'a' <= c && c <= 'f' {
        (c as u32 - 87) as nat
    } else {
        (c as u32 - 55) as nat
    }
}

/// The character of the byte written by two hexadecimal digits.
pub open spec fn hex_byte_char(hi: char, lo: char) -> char {
    ((hex_value(hi) * 16 + hex_value(lo)) as u8) as char
}

/// Whether `n` is a Unicode scalar value.
pub open spec fn is_scalar_value(n: nat) -> bool {
    n <= 0x10FFFF && !(0xD800 <= n && n <= 0xDFFF)
}

/// The number of consecutive decimal digits in `s` from position `j` on.
pub open spec fn digit_run(s: Seq<char>, j: int) -> nat
    decreases s.len() - j,
{
    if 0 <= j < s.len() && is_digit(s[j]) {
        1 + digit_run(s, j + 1)
    } else {
        0
    }
}

/// The number written by the digits of an entity at the start of `s`.
pub open spec fn entity_value(s: Seq<char>) -> nat {
    digits_value(s.subrange(2, 2 + digit_run(s, 2) as int))
}

/// Whether `s` starts with a well-formed numeric entity `&#NNN;` whose
/// number is a Unicode scalar value.
pub open spec fn is_entity(s: Seq<char>) -> bool {
    let n = digit_run(s, 2);
    &&& s.len() >= 2
    &&& s[0] == '&'
    &&& s[1] == '#'
    &&& n >= 1
    &&& 2 + n < s.len()
    &&& s[2 + n as int] == ';'
    &&& is_scalar_value(entity_value(s))
}

/// The number of characters of the entity at the start of `s`.
pub open spec fn entity_len(s: Seq<char>) -> nat {
    3 + digit_run(s, 2)
}

/// The character that the entity at the start of `s` denotes.
pub open spec fn entity_char(s: Seq<char>) -> char {
    (entity_value(s) as u32) as char
}

/// The decoded form of `s`, scanned left to right: a numeric entity
/// becomes its character; `%` and two hexadecimal digits become the
/// character of that byte; `%` and two other characters stay as they are,
/// as does a `%` with fewer than two characters after it; every other
/// character stays.
pub open spec fn decoded(s: Seq<char>) -> Seq<char>
    decreases s.len(),
{
    if s.len() == 0 {
        Seq::empty()
    } else if is_entity(s) {
        seq![entity_char(s)] + decoded(s.skip(entity_len(s) as int))
    } else if s[0] == '%' {
        if s.len() < 3 {
            s
        } else if is_hex(s[1]) && is_hex(s[2]) {
            seq![hex_byte_char(s[1], s[2])] + decoded(s.skip(3))
        } else {
            s.take(3) + decoded(s.skip(3))
        }
    } else {
        seq![s[0]] + decoded(s.skip(1))
    }
}

/// Relies on `char::from_u32`: a character exactly for a scalar value,
/// and then the character of that value.
pub assume_specification[ char::from_u32 ](i: u32) -> (r: Option<char>)
    ensures
        r is Some <==> is_scalar_value(i as nat),
        r is Some ==> r->0 as u32 == i,
;

const SCALAR_CAP: u32 = 0x110000;

/// The value of a hexadecimal digit, if `c` is one.
fn hex_digit(c: char) -> (r: Option<u32>)
    ensures
        r is Some <==> is_hex(c),
        r is Some ==> r->0 as nat == hex_value(c) && r->0 < 16,
{
    if '0' <= c && c <= '9' {
        Some(c as u32 - 48)
    } else if 'a' <= c && c <= 'f' {
        Some(c as u32 - 87)
    } else if 'A' <= c && c <= 'F' {
        Some(c as u32 - 55)
    } else {
        None
    }
}

proof fn lemma_digit_run_split(s: Seq<char>, a: int, b: int)
    requires
        0 <= a <= b <= s.len(),
        forall|k: int| a <= k < b ==> is_digit(#[trigger] s[k]),
    ensures
        digit_run(s, a) == (b - a) + digit_run(s, b),
    decreases b - a,
{
    if a < b {
        lemma_digit_run_split(s, a + 1, b);
    }
}

/// The entity at position `i` of `cs`, if one starts there: its
/// character and its length.
fn entity_at(cs: &Vec<char>, i: usize) -> (r: Option<(char, usize)>)
    requires
        i < cs.len(),
    ensures
        r is Some <==> is_entity(cs@.skip(i as int)),
        r matches Some((c, k)) ==> c == entity_char(cs@.skip(i as int)) && k == entity_len(
            cs@.skip(i as int),
        ),
{
    let ghost s = cs@.skip(i as int);
    if i + 1 >= cs.len() || cs[i] != '&' || cs[i + 1] != '#' {
        return None;
    }
    let mut j: usize = i + 2;
    let mut value: u32 = 0;
    while j < cs.len() && '0' <= cs[j] && cs[j] <= '9'
        invariant
            i + 2 <= j <= cs.len(),
            s == cs@.skip(i as int),
            forall|k: int| 2 <= k < j - i ==> is_digit(#[trigger] s[k]),
            value as nat == if digits_value(s.subrange(2, j - i)) < SCALAR_CAP {
                digits_value(s.subrange(2, j - i))
            } else {
                SCALAR_CAP as nat
            },
        decreases cs.len() - j,
    {
        let d: u32 = cs[j] as u32 - 48;
        let ghost prev = digits_value(s.subrange(2, j - i));
        assert(s.subrange(2, j + 1 - i).drop_last() =~= s.subrange(2, j - i));
        assert(digits_value(s.subrange(2, j + 1 - i)) == prev * 10 + d);
        if value >= SCALAR_CAP {
            assert(prev * 10 + d >= SCALAR_CAP) by (nonlinear_arith)
                requires prev >= SCALAR_CAP;
        } else {
            value = value * 10 + d;
            if value > SCALAR_CAP {
                value = SCALAR_CAP;
            }
        }
        j += 1;
    }
    proof {
        lemma_digit_run_split(s, 2, j - i);
    }
    if j == i + 2 || j >= cs.len() || cs[j] != ';' {
        return None;
    }
    assert(s.subrange(2, 2 + digit_run(s, 2) as int) == s.subrange(2, j - i));
    match char::from_u32(value) {
        Some(c) => {
            proof {
                vstd::utf8::char_u32_cast(c, value);
            }
            Some((c, j + 1 - i))
        },
        None => None,
    }
}

/// Decodes `%XX` and `&#NNN;` sequences; malformed sequences pass
/// through unchanged.
pub fn decode_html(input: &str) -> (r: String)
    ensures
        r@ == decoded(input@),
{
    let cs = chars_of(input);
    let mut out = String::new();
    let mut i: usize = 0;
    assert(cs@.skip(0) =~= cs@);
    assert(out@ + decoded(cs@) =~= decoded(cs@));
    while i < cs.len()
        invariant
            i <= cs.len(),
            out@ + decoded(cs@.skip(i as int)) == decoded(cs@),
        decreases cs.len() - i,
    {
        let ghost t = cs@.skip(i as int);
        let c = cs[i];
        match entity_at(&cs, i) {
            Some((ch, len)) => {
                assert(t.skip(len as int) =~= cs@.skip(i + len));
                out.push(ch);
                i = i + len;
            },
            None => {
                if c == '%' {
                    if cs.len() - i < 3 {
                        while i < cs.len()
                            invariant
                                i <= cs.len(),
                                out@ + cs@.skip(i as int) == decoded(cs@),
                            decreases cs.len() - i,
                        {
                            assert(cs@.skip(i as int) =~= seq![cs[i as int]] + cs@.skip(i + 1));
                            out.push(cs[i]);
                            i += 1;
                        }
                        assert(cs@.skip(i as int) =~= Seq::<char>::empty());
                    } else {
                        assert(t.skip(3) =~= cs@.skip(i + 3));
                        match (hex_digit(cs[i + 1]), hex_digit(cs[i + 2])) {
                            (Some(hi), Some(lo)) => {
                                out.push(((hi * 16 + lo) as u8) as char);
                            },
                            _ => {
                                assert(t.take(3) =~= seq![c, cs[i + 1 as int], cs[i + 2 as int]]);
                                out.push(c);
                                out.push(cs[i + 1]);
                                out.push(cs[i + 2]);
                            },
                        }
                        i = i + 3;
                    }
                } else {
                    assert(t.skip(1) =~= cs@.skip(i + 1));
                    out.push(c);
                    i = i + 1;
                }
            },
        }
    }
    assert(cs@.skip(i as int) =~= Seq::<char>::empty());
    out
}

/// Text with no `%` and no `&#` decodes to itself.
pub proof fn lemma_plain_text_unchanged(s: Seq<char>)
    requires
        forall|i: int| 0 <= i < s.len() ==> #[trigger] s[i] != '%',
        forall|i: int| 0 <= i < s.len() - 1 ==> !(#[trigger] s[i] == '&' && s[i + 1] == '#'),
    ensures
        decoded(s) == s,
    decreases s.len(),
{
    if s.len() > 0 {
        let t = s.skip(1);
        assert forall|i: int| 0 <= i < t.len() - 1 implies !(#[trigger] t[i] == '&' && t[i + 1] == '#') by {
            assert(t[i] == s[i + 1] && t[i + 1] == s[i + 2]);
        }
        lemma_plain_text_unchanged(t);
        assert(s =~= seq![s[0]] + t);
    }
}

} // verus!
