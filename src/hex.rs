//! Hexadecimal text of frame words, as written on the wire and read back.

use vstd::prelude::*;

verus! {

/// ASCII `0`.
pub const ASCII_ZERO: u8 = 48;

/// ASCII `9`.
pub const ASCII_NINE: u8 = 57;

/// ASCII `a`.
pub const ASCII_LOWER_A: u8 = 97;

/// ASCII `f`.
pub const ASCII_LOWER_F: u8 = 102;

/// ASCII `A`.
pub const ASCII_UPPER_A: u8 = 65;

/// ASCII `F`.
pub const ASCII_UPPER_F: u8 = 70;

/// ASCII `+`, the sign that may lead a number.
pub const ASCII_PLUS: u8 = 43;

/// Whether `c` is an ASCII hexadecimal digit, in either case.
pub open spec fn is_hex_digit(c: u8) -> bool {
    (ASCII_ZERO <= c && c <= ASCII_NINE) || (ASCII_LOWER_A <= c && c <= ASCII_LOWER_F) || (
    ASCII_UPPER_A <= c && c <= ASCII_UPPER_F)
}

/// The value of a hexadecimal digit.
pub open spec fn digit_value(c: u8) -> nat {
    if ASCII_ZERO <= c && c <= ASCII_NINE {
        (c - ASCII_ZERO) as nat
    } else if ASCII_LOWER_A <= c && c <= ASCII_LOWER_F {
        (c - ASCII_LOWER_A + 10) as nat
    } else {
        (c - ASCII_UPPER_A + 10) as nat
    }
}

/// The lowercase digit for a value below sixteen.
pub open spec fn digit_char(d: nat) -> u8 {
    if d < 10 {
        (ASCII_ZERO + d) as u8
    } else {
        (ASCII_LOWER_A + d - 10) as u8
    }
}

/// Whether every byte of `s` is a hexadecimal digit.
pub open spec fn all_hex_digits(s: Seq<u8>) -> bool {
    forall|i: int| 0 <= i < s.len() ==> #[trigger] is_hex_digit(s[i])
}

/// The number that the digits `s` spell, most significant first.
pub open spec fn hex_value(s: Seq<u8>) -> nat
    decreases s.len(),
{
    if s.len() == 0 {
        0
    } else {
        16 * hex_value(s.drop_last()) + digit_value(s.last())
    }
}

/// The lowercase hexadecimal text of `w`, without leading zeros.
pub open spec fn hex_text(w: nat) -> Seq<u8>
    decreases w,
{
    if w < 16 {
        seq![digit_char(w)]
    } else {
        hex_text(w / 16).push(digit_char(w % 16))
    }
}

/// The text `s` without one leading `+`.
pub open spec fn unsigned_part(s: Seq<u8>) -> Seq<u8> {
    if s.len() > 0 && s[0] == ASCII_PLUS {
        s.drop_first()
    } else {
        s
    }
}

/// What `s` reads as: an optional `+` and at least one hexadecimal digit,
/// spelling a number no larger than `max`; `None` for any other text.
pub open spec fn parse_hex_spec(s: Seq<u8>, max: nat) -> Option<nat> {
    let d = unsigned_part(s);
    if d.len() > 0 && all_hex_digits(d) && hex_value(d) <= max {
        Some(hex_value(d))
    } else {
        None
    }
}

proof fn lemma_prefix_value_le(d: Seq<u8>, k: int)
    requires
        0 <= k <= d.len(),
    ensures
        hex_value(d.take(k)) <= hex_value(d),
    decreases d.len(),
{
    if k < d.len() {
        lemma_prefix_value_le(d.drop_last(), k);
        assert(d.drop_last().take(k) =~= d.take(k));
    } else {
        assert(d.take(k) =~= d);
    }
}

proof fn lemma_digit_reads_back(d: nat)
    requires
        d < 16,
    ensures
        is_hex_digit(digit_char(d)),
        digit_value(digit_char(d)) == d,
{
}

proof fn lemma_hex_text_reads_back(w: nat)
    ensures
        hex_text(w).len() > 0,
        all_hex_digits(hex_text(w)),
        hex_text(w)[0] != ASCII_PLUS,
        hex_value(hex_text(w)) == w,
    decreases w,
{
    lemma_digit_reads_back(w % 16);
    if w < 16 {
        assert(hex_text(w).drop_last() =~= Seq::<u8>::empty());
        assert(hex_value(Seq::<u8>::empty()) == 0);
    } else {
        lemma_hex_text_reads_back(w / 16);
        assert(hex_text(w).drop_last() =~= hex_text(w / 16));
        assert(hex_text(w).last() == digit_char(w % 16));
        assert(hex_value(hex_text(w)) == 16 * hex_value(hex_text(w / 16)) + digit_value(
            digit_char(w % 16),
        ));
        assert(w == 16 * (w / 16) + w % 16);
    }
}

/// Rendering a word as hexadecimal text and reading that text back gives the
/// word again, whatever its number of significant digits.
pub proof fn lemma_wire_round_trip(w: u32)
    ensures
        parse_hex_spec(hex_text(w as nat), u32::MAX as nat) == Some(w as nat),
{
    lemma_hex_text_reads_back(w as nat);
}

fn digit_of(d: u32) -> (r: u8)
    requires
        d < 16,
    ensures
        r == digit_char(d as nat),
{
    if d < 10 {
        ASCII_ZERO + d as u8
    } else {
        ASCII_LOWER_A + (d as u8 - 10)
    }
}

/// The lowercase hexadecimal text of `w`, with no leading zeros.
pub fn render_hex(w: u32) -> (r: Vec<u8>)
    ensures
        r@ == hex_text(w as nat),
    decreases w,
{
    if w < 16 {
        vec![digit_of(w)]
    } else {
        let mut r = render_hex(w / 16);
        r.push(digit_of(w % 16));
        r
    }
}

fn digit_value_of(c: u8) -> (r: Option<u32>)
    ensures
        is_hex_digit(c) ==> r == Some(digit_value(c) as u32),
        !is_hex_digit(c) ==> r is None,
{
    if ASCII_ZERO <= c && c <= ASCII_NINE {
        Some((c - ASCII_ZERO) as u32)
    } else if ASCII_LOWER_A <= c && c <= ASCII_LOWER_F {
        Some((c - ASCII_LOWER_A + 10) as u32)
    } else if ASCII_UPPER_A <= c && c <= ASCII_UPPER_F {
        Some((c - ASCII_UPPER_A + 10) as u32)
    } else {
        None
    }
}

/// Reads `s` as a hexadecimal number no larger than `max`: an optional `+`,
/// then one or more digits of either case, leading zeros allowed.
pub fn parse_hex(s: &[u8], max: u32) -> (r: Option<u32>)
    ensures
        r is Some <==> parse_hex_spec(s@, max as nat) is Some,
        r is Some ==> parse_hex_spec(s@, max as nat) == Some(r->0 as nat),
{
    let start: usize = if s.len() > 0 && s[0] == ASCII_PLUS {
        1
    } else {
        0
    };
    let ghost d = unsigned_part(s@);
    assert(d =~= s@.subrange(start as int, s@.len() as int));
    if start == s.len() {
        return None;
    }
    let mut acc: u64 = 0;
    let mut i: usize = start;
    while i < s.len()
        invariant
            start <= i <= s.len(),
            d =~= s@.subrange(start as int, s@.len() as int),
            d == unsigned_part(s@),
            acc as nat == hex_value(d.take(i - start)),
            acc <= max,
            all_hex_digits(d.take(i - start)),
        decreases s.len() - i,
    {
        let ghost k = i - start;
        assert(d.take(k + 1).drop_last() =~= d.take(k));
        assert(d.take(k + 1).last() == s@[i as int]);
        match digit_value_of(s[i]) {
            None => {
                assert(d[k] == s@[i as int]);
                assert(!is_hex_digit(d[k]));
                assert(!all_hex_digits(d));
                return None;
            },
            Some(v) => {
                acc = acc * 16 + v as u64;
                if acc > max as u64 {
                    assert(d.take(k + 1).last() == d[k]);
                    assert(hex_value(d.take(k + 1)) == acc);
                    proof {
                        lemma_prefix_value_le(d, k + 1);
                    }
                    return None;
                }
                assert(all_hex_digits(d.take(k + 1))) by {
                    assert forall|j: int| 0 <= j < k + 1 implies #[trigger] is_hex_digit(
                        d.take(k + 1)[j],
                    ) by {
                        if j < k {
                            assert(d.take(k + 1)[j] == d.take(k)[j]);
                        }
                    }
                }
            },
        }
        i = i + 1;
    }
    assert(d.take(d.len() as int) =~= d);
    Some(acc as u32)
}

} // verus!
