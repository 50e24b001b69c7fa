//! The text form of an attribute identifier.
//!
//! Native stacks exchange identifiers as hexadecimal strings: the full
//! canonical form `xxxxxxxx-xxxx-xxxx-xxxx-xxxxxxxxxxxx`, or — for
//! identifiers on the Bluetooth base — a bare four or eight digit short
//! form. Formatting always produces the full lowercase form; parsing
//! accepts either case and expands the short forms onto the base, so a
//! stack that reports `180A` and one that reports the full string name the
//! same attribute.

use vstd::prelude::*;

use crate::uuid128::{uuid_bytes, Uuid, BASE_UUID_HI, BASE_UUID_LO};

verus! {

/// The byte value of the ASCII hyphen.
pub const HYPHEN: u8 = 45;

/// The lowercase hexadecimal digit of a value below sixteen, as its ASCII
/// byte: `0` to `9` are 48 to 57, `a` to `f` are 97 to 102.
pub open spec fn hex_lower(n: nat) -> u8 {
    if n < 10 {
        (48 + n) as u8
    } else {
        (87 + n) as u8
    }
}

/// The two digits of one byte, high nibble first.
pub open spec fn hex_pair(b: u8) -> Seq<u8> {
    seq![hex_lower(b as nat / 16), hex_lower(b as nat % 16)]
}

/// The digits of a byte sequence.
pub open spec fn hex_text(bytes: Seq<u8>) -> Seq<u8>
    decreases bytes.len(),
{
    if bytes.len() == 0 {
        Seq::empty()
    } else {
        hex_pair(bytes[0]) + hex_text(bytes.drop_first())
    }
}

/// The canonical hyphenated text of an identifier: the sixteen bytes as
/// lowercase digits, grouped four-two-two-two-six.
pub open spec fn uuid_text(u: Uuid) -> Seq<u8> {
    let b = uuid_bytes(u);
    hex_text(b.subrange(0, 4)) + seq![HYPHEN] + hex_text(b.subrange(4, 6)) + seq![HYPHEN]
        + hex_text(b.subrange(6, 8)) + seq![HYPHEN] + hex_text(b.subrange(8, 10)) + seq![HYPHEN]
        + hex_text(b.subrange(10, 16))
}

/// Whether `c` is a hexadecimal digit in either case.
pub open spec fn is_hex_digit(c: u8) -> bool {
    (48 <= c <= 57) || (97 <= c <= 102) || (65 <= c <= 70)
}

/// The value of a hexadecimal digit (zero on other bytes).
pub open spec fn hex_val(c: u8) -> nat {
    if 48 <= c <= 57 {
        (c - 48) as nat
    } else if 97 <= c <= 102 {
        (c - 87) as nat
    } else if 65 <= c <= 70 {
        (c - 55) as nat
    } else {
        0
    }
}

/// Every byte of `s` is a hexadecimal digit.
pub open spec fn all_hex(s: Seq<u8>) -> bool {
    forall|i: int| 0 <= i < s.len() ==> is_hex_digit(s[i])
}

/// The number written by the digits of `s`, most significant first.
pub open spec fn hex_value(s: Seq<u8>) -> nat
    decreases s.len(),
{
    if s.len() == 0 {
        0
    } else {
        hex_value(s.drop_last()) * 16 + hex_val(s.last())
    }
}

/// Sixteen to the power `n`.
pub open spec fn pow16(n: nat) -> nat
    decreases n,
{
    if n == 0 {
        1
    } else {
        16 * pow16((n - 1) as nat)
    }
}

/// The digit positions of the canonical hyphenated form, with the four
/// hyphens taken out.
pub open spec fn strip_hyphens(s: Seq<u8>) -> Seq<u8> {
    s.subrange(0, 8) + s.subrange(9, 13) + s.subrange(14, 18) + s.subrange(19, 23) + s.subrange(
        24,
        36,
    )
}

/// The shape of the canonical hyphenated form: hyphens exactly where they
/// belong, digits everywhere else.
pub open spec fn valid_hyphenated(s: Seq<u8>) -> bool {
    &&& s.len() == 36
    &&& s[8] == HYPHEN
    &&& s[13] == HYPHEN
    &&& s[18] == HYPHEN
    &&& s[23] == HYPHEN
    &&& all_hex(strip_hyphens(s))
}

proof fn lemma_hex_text_push(bytes: Seq<u8>, b: u8)
    ensures
        hex_text(bytes.push(b)) == hex_text(bytes) + hex_pair(b),
    decreases bytes.len(),
{
    if bytes.len() == 0 {
        assert(bytes.push(b).drop_first() =~= bytes);
        assert(hex_text(bytes.push(b)) =~= hex_text(bytes) + hex_pair(b));
    } else {
        assert(bytes.push(b).drop_first() =~= bytes.drop_first().push(b));
        lemma_hex_text_push(bytes.drop_first(), b);
        assert(hex_text(bytes.push(b)) =~= hex_text(bytes) + hex_pair(b));
    }
}

/// The lowercase digit byte of a nibble.
fn hex_lower_digit(n: u8) -> (c: u8)
    requires
        n < 16,
    ensures
        c == hex_lower(n as nat),
{
    if n < 10 {
        48 + n
    } else {
        87 + n
    }
}

/// Appends the digits of `bytes[from..to]`.
fn push_hex(out: &mut Vec<u8>, bytes: &Vec<u8>, from: usize, to: usize)
    requires
        from <= to <= bytes@.len(),
    ensures
        final(out)@ == old(out)@ + hex_text(bytes@.subrange(from as int, to as int)),
{
    let mut i: usize = from;
    proof {
        assert(bytes@.subrange(from as int, from as int) =~= Seq::<u8>::empty());
        assert(out@ =~= old(out)@ + hex_text(bytes@.subrange(from as int, from as int)));
    }
    while i < to
        invariant
            from <= i <= to <= bytes@.len(),
            out@ == old(out)@ + hex_text(bytes@.subrange(from as int, i as int)),
        decreases to - i,
    {
        let b = bytes[i];
        out.push(hex_lower_digit(b / 16));
        out.push(hex_lower_digit(b % 16));
        proof {
            let prefix = bytes@.subrange(from as int, i as int);
            assert(bytes@.subrange(from as int, i + 1) =~= prefix.push(b));
            lemma_hex_text_push(prefix, b);
            assert(out@ =~= old(out)@ + hex_text(bytes@.subrange(from as int, i + 1)));
        }
        i += 1;
    }
}

impl Uuid {
    /// The canonical lowercase hyphenated text of this identifier, as
    /// ASCII bytes.
    pub fn to_uuid_text(&self) -> (text: Vec<u8>)
        ensures
            text@ == uuid_text(*self),
    {
        let bytes = self.to_bytes();
        proof {
            crate::uuid128::lemma_be_bytes_rec_len(self.hi as nat, 8);
            crate::uuid128::lemma_be_bytes_rec_len(self.lo as nat, 8);
            assert(bytes@.len() == 16);
        }
        let mut out: Vec<u8> = Vec::new();
        push_hex(&mut out, &bytes, 0, 4);
        out.push(HYPHEN);
        push_hex(&mut out, &bytes, 4, 6);
        out.push(HYPHEN);
        push_hex(&mut out, &bytes, 6, 8);
        out.push(HYPHEN);
        push_hex(&mut out, &bytes, 8, 10);
        out.push(HYPHEN);
        push_hex(&mut out, &bytes, 10, 16);
        proof {
            assert(out@ =~= uuid_text(*self));
        }
        out
    }
}

/// The digit's value, or nothing on a byte that is no digit.
fn hex_digit_value(c: u8) -> (r: Option<u8>)
    ensures
        r is Some <==> is_hex_digit(c),
        r matches Some(v) ==> v == hex_val(c) && v < 16,
{
    if 48 <= c && c <= 57 {
        Some(c - 48)
    } else if 97 <= c && c <= 102 {
        Some(c - 87)
    } else if 65 <= c && c <= 70 {
        Some(c - 55)
    } else {
        None
    }
}

/// Digit values stay below the next power of sixteen.
proof fn lemma_hex_value_bound(s: Seq<u8>)
    ensures
        hex_value(s) < pow16(s.len()),
    decreases s.len(),
{
    if s.len() > 0 {
        lemma_hex_value_bound(s.drop_last());
    }
}

/// The powers of sixteen a 64-bit parse meets.
proof fn lemma_pow16_le_16(n: nat)
    requires
        n <= 16,
    ensures
        pow16(n) <= 0x1_0000_0000_0000_0000,
    decreases 16 - n,
{
    if n < 16 {
        lemma_pow16_le_16(n + 1);
        assert(pow16(n + 1) == 16 * pow16(n));
    } else {
        assert(pow16(16) == 0x1_0000_0000_0000_0000) by {
            reveal_with_fuel(pow16, 17);
        };
    }
}

/// Parses `digits[from..to]` as one hexadecimal number. Fails exactly when
/// a byte in the range is no digit.
fn parse_hex_u64(digits: &Vec<u8>, from: usize, to: usize) -> (r: Option<u64>)
    requires
        from <= to <= digits@.len(),
        to - from <= 16,
    ensures
        r is Some <==> all_hex(digits@.subrange(from as int, to as int)),
        r matches Some(v) ==> v == hex_value(digits@.subrange(from as int, to as int)),
{
    let mut acc: u64 = 0;
    let mut i: usize = from;
    proof {
        assert(digits@.subrange(from as int, from as int) =~= Seq::<u8>::empty());
    }
    while i < to
        invariant
            from <= i <= to <= digits@.len(),
            to - from <= 16,
            all_hex(digits@.subrange(from as int, i as int)),
            acc == hex_value(digits@.subrange(from as int, i as int)),
        decreases to - i,
    {
        let c = digits[i];
        match hex_digit_value(c) {
            None => {
                proof {
                    assert(digits@.subrange(from as int, to as int)[i - from] == c);
                }
                return None;
            },
            Some(v) => {
                proof {
                    let prefix = digits@.subrange(from as int, i as int);
                    lemma_hex_value_bound(prefix);
                    lemma_pow16_le_16((i - from + 1) as nat);
                    assert(pow16((i - from + 1) as nat) == 16 * pow16((i - from) as nat));
                    assert(acc * 16 + v < pow16((i - from + 1) as nat));
                }
                acc = acc * 16 + (v as u64);
                proof {
                    let prefix = digits@.subrange(from as int, i as int);
                    let grown = digits@.subrange(from as int, i + 1);
                    assert(grown =~= prefix.push(c));
                    assert(grown.drop_last() =~= prefix);
                    assert(grown.last() == c);
                }
            },
        }
        i += 1;
    }
    proof {
        assert(digits@.subrange(from as int, i as int) =~= digits@.subrange(
            from as int,
            to as int,
        ));
    }
    Some(acc)
}

/// Appends `text[from..to]` unchanged.
fn push_range(out: &mut Vec<u8>, text: &[u8], from: usize, to: usize)
    requires
        from <= to <= text@.len(),
    ensures
        final(out)@ == old(out)@ + text@.subrange(from as int, to as int),
{
    let mut i: usize = from;
    proof {
        assert(out@ =~= old(out)@ + text@.subrange(from as int, from as int));
    }
    while i < to
        invariant
            from <= i <= to <= text@.len(),
            out@ == old(out)@ + text@.subrange(from as int, i as int),
        decreases to - i,
    {
        let c = text[i];
        out.push(c);
        proof {
            assert(out@ =~= old(out)@ + text@.subrange(from as int, i + 1));
        }
        i += 1;
    }
}

/// Parses an identifier from its text: the canonical hyphenated form in
/// either case, or a four or eight digit short form, which expands onto
/// the Bluetooth base identifier. Nothing else is accepted.
pub fn parse_uuid_text(text: &[u8]) -> (r: Option<Uuid>)
    ensures
        text@.len() == 4 ==> ((r is Some <==> all_hex(text@)) && (r matches Some(u) ==> u.hi
            == BASE_UUID_HI + hex_value(text@) * 0x1_0000_0000 && u.lo == BASE_UUID_LO)),
        text@.len() == 8 ==> ((r is Some <==> all_hex(text@)) && (r matches Some(u) ==> u.hi
            == BASE_UUID_HI + hex_value(text@) * 0x1_0000_0000 && u.lo == BASE_UUID_LO)),
        text@.len() == 36 ==> ((r is Some <==> valid_hyphenated(text@)) && (r matches Some(u)
            ==> u.hi == hex_value(strip_hyphens(text@).subrange(0, 16)) && u.lo == hex_value(
            strip_hyphens(text@).subrange(16, 32),
        ))),
        text@.len() != 4 && text@.len() != 8 && text@.len() != 36 ==> r is None,
{
    let n = text.len();
    if n == 4 || n == 8 {
        let mut digits: Vec<u8> = Vec::new();
        push_range(&mut digits, text, 0, n);
        proof {
            assert(digits@ =~= text@);
        }
        match parse_hex_u64(&digits, 0, n) {
            None => None,
            Some(short) => {
                proof {
                    lemma_hex_value_bound(digits@.subrange(0, n as int));
                    assert(pow16(4) == 0x1_0000 && pow16(8) == 0x1_0000_0000) by {
                        reveal_with_fuel(pow16, 9);
                    };
                    assert(short < 0x1_0000_0000);
                    assert(digits@.subrange(0, n as int) =~= text@);
                }
                Some(Uuid::from_u64_pair(BASE_UUID_HI + short * 0x1_0000_0000, BASE_UUID_LO))
            },
        }
    } else if n == 36 {
        if text[8] != HYPHEN || text[13] != HYPHEN || text[18] != HYPHEN || text[23] != HYPHEN {
            return None;
        }
        let mut digits: Vec<u8> = Vec::new();
        push_range(&mut digits, text, 0, 8);
        push_range(&mut digits, text, 9, 13);
        push_range(&mut digits, text, 14, 18);
        push_range(&mut digits, text, 19, 23);
        push_range(&mut digits, text, 24, 36);
        proof {
            assert(digits@ =~= strip_hyphens(text@));
        }
        let hi = match parse_hex_u64(&digits, 0, 16) {
            None => {
                return None;
            },
            Some(v) => v,
        };
        let lo = match parse_hex_u64(&digits, 16, 32) {
            None => {
                return None;
            },
            Some(v) => v,
        };
        proof {
            if all_hex(digits@.subrange(0, 16)) && all_hex(digits@.subrange(16, 32)) {
                assert forall|i: int| 0 <= i < digits@.len() implies is_hex_digit(
                    digits@[i],
                ) by {
                    if i < 16 {
                        assert(digits@.subrange(0, 16)[i] == digits@[i]);
                    } else {
                        assert(digits@.subrange(16, 32)[i - 16] == digits@[i]);
                    }
                }
            }
        }
        Some(Uuid::from_u64_pair(hi, lo))
    } else {
        None
    }
}

} // verus!
