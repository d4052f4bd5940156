//! The indicator side channel: parsing a controller index out of a device
//! name and rendering a player index for the control surface.
//!
//! An external driver exposes one write-only control surface per physical
//! device, addressed by a numeric controller index embedded in the
//! device's name string: a fixed per-product prefix, the decimal index,
//! and a closing bracket. Writing the ASCII decimal player index as the
//! entire content sets the indicator. The parser here validates the whole
//! name shape and fails cleanly on anything unexpected; the file write
//! itself happens in the I/O layer and its failure is non-fatal.

use vstd::prelude::*;
use crate::events::{VENDOR_NINTENDO, PRODUCT_LEFT_JOYCON, PRODUCT_RIGHT_JOYCON, PRODUCT_PROCON};

verus! {

/// The device-name prefix of a left Joy-Con's indicator name.
pub open spec fn left_prefix() -> Seq<char> {
    "Nintendo Switch Left JoyCon [controller "@
}

/// The device-name prefix of a right Joy-Con's indicator name.
pub open spec fn right_prefix() -> Seq<char> {
    "Nintendo Switch Right JoyCon [controller "@
}

/// The device-name prefix of a Pro Controller's indicator name.
pub open spec fn procon_prefix() -> Seq<char> {
    "Nintendo Switch ProCon [controller "@
}

/// Is `c` an ASCII decimal digit?
pub open spec fn is_digit_char(c: char) -> bool {
    48 <= c as u32 <= 57
}

/// The numeric value of a digit character.
pub open spec fn digit_val(c: char) -> int {
    c as u32 - 48
}

/// Does `s` consist of decimal digits only?
pub open spec fn all_digits(s: Seq<char>) -> bool {
    forall|i: int| 0 <= i < s.len() ==> is_digit_char(#[trigger] s[i])
}

/// The number a digit string denotes, most significant digit first.
pub open spec fn digits_value(s: Seq<char>) -> int
    decreases s.len(),
{
    if s.len() == 0 {
        0
    } else {
        digits_value(s.drop_last()) * 10 + digit_val(s.last())
    }
}

/// A valid indicator name: the product's prefix, then at least one digit,
/// then a closing bracket at the very end.
pub open spec fn valid_indicator_name(prefix: Seq<char>, name: Seq<char>) -> bool {
    &&& name.len() > prefix.len() + 1
    &&& name.subrange(0, prefix.len() as int) == prefix
    &&& name.last() == ']'
    &&& all_digits(name.subrange(prefix.len() as int, name.len() - 1))
}

/// The controller index a name denotes under a given prefix, if the name
/// is valid.
pub open spec fn parse_with_prefix(prefix: Seq<char>, name: Seq<char>) -> Option<int> {
    if valid_indicator_name(prefix, name) {
        Some(digits_value(name.subrange(prefix.len() as int, name.len() - 1)))
    } else {
        None
    }
}

/// The controller index of a device, from its kernel identity and name:
/// only recognized identities have an indicator surface, each product with
/// its own name prefix.
pub open spec fn indicator_index(vendor: u16, product: u16, name: Seq<char>) -> Option<int> {
    if vendor != VENDOR_NINTENDO {
        None
    } else if product == PRODUCT_LEFT_JOYCON {
        parse_with_prefix(left_prefix(), name)
    } else if product == PRODUCT_RIGHT_JOYCON {
        parse_with_prefix(right_prefix(), name)
    } else if product == PRODUCT_PROCON {
        parse_with_prefix(procon_prefix(), name)
    } else {
        None
    }
}

/// A digit string denotes a nonnegative number.
pub proof fn lemma_digits_value_nonneg(s: Seq<char>)
    requires
        all_digits(s),
    ensures
        digits_value(s) >= 0,
    decreases s.len(),
{
    if s.len() > 0 {
        assert(all_digits(s.drop_last())) by {
            assert(forall|i: int| 0 <= i < s.len() - 1 ==> s.drop_last()[i] == s[i]);
        }
        lemma_digits_value_nonneg(s.drop_last());
    }
}

/// A prefix of a digit string denotes no more than the whole string.
pub proof fn lemma_digits_value_take(s: Seq<char>, i: int)
    requires
        all_digits(s),
        0 <= i <= s.len(),
    ensures
        digits_value(s.take(i)) <= digits_value(s),
    decreases s.len(),
{
    if i == s.len() {
        assert(s.take(i) =~= s);
    } else {
        assert(all_digits(s.drop_last())) by {
            assert(forall|j: int| 0 <= j < s.len() - 1 ==> s.drop_last()[j] == s[j]);
        }
        assert(s.take(i) =~= s.drop_last().take(i));
        lemma_digits_value_take(s.drop_last(), i);
        lemma_digits_value_nonneg(s.drop_last());
        assert(digits_value(s) == digits_value(s.drop_last()) * 10 + digit_val(s.last()));
        assert(digit_val(s.last()) >= 0);
        assert(digits_value(s.drop_last()) * 10 >= digits_value(s.drop_last()));
    }
}

/// Does `name` begin with `prefix`?
fn check_prefix(name: &str, prefix: &str) -> (r: bool)
    ensures
        r == (name@.len() >= prefix@.len() && name@.subrange(0, prefix@.len() as int)
            == prefix@),
{
    let plen = prefix.unicode_len();
    let nlen = name.unicode_len();
    if nlen < plen {
        return false;
    }
    let mut i: usize = 0;
    while i < plen
        invariant
            0 <= i <= plen,
            plen == prefix@.len(),
            nlen == name@.len(),
            plen <= nlen,
            forall|j: int| 0 <= j < i ==> name@[j] == prefix@[j],
        decreases plen - i,
    {
        if name.get_char(i) != prefix.get_char(i) {
            proof {
                assert(name@.subrange(0, plen as int)[i as int] != prefix@[i as int]);
            }
            return false;
        }
        i = i + 1;
    }
    proof {
        assert(name@.subrange(0, plen as int) =~= prefix@);
    }
    true
}

/// Parses the digit run `name[from..to]` into a number, rejecting
/// non-digits and values beyond the index range.
fn parse_digits(name: &str, from: usize, to: usize) -> (r: Option<u32>)
    requires
        from <= to <= name@.len(),
    ensures
        ({
            let sub = name@.subrange(from as int, to as int);
            if all_digits(sub) && digits_value(sub) <= u32::MAX {
                r == Some(digits_value(sub) as u32)
            } else {
                r is None
            }
        }),
{
    let ghost sub = name@.subrange(from as int, to as int);
    let mut i: usize = from;
    let mut acc: u32 = 0;
    while i < to
        invariant
            from <= i <= to <= name@.len(),
            sub == name@.subrange(from as int, to as int),
            all_digits(name@.subrange(from as int, i as int)),
            acc as int == digits_value(name@.subrange(from as int, i as int)),
        decreases to - i,
    {
        let ghost pre = name@.subrange(from as int, i as int);
        let c = name.get_char(i);
        let d32 = c as u32;
        proof {
            assert(sub[i - from] == name@[i as int]);
        }
        if d32 < 48 || d32 > 57 {
            proof {
                assert(!is_digit_char(sub[i - from]));
            }
            return None;
        }
        let d = d32 - 48;
        let wide: u64 = acc as u64 * 10 + d as u64;
        proof {
            assert(pre.push(c) =~= name@.subrange(from as int, i + 1));
            assert(digits_value(pre.push(c)) == digits_value(pre) * 10 + digit_val(c)) by {
                assert(pre.push(c).drop_last() =~= pre);
                assert(pre.push(c).last() == c);
            }
        }
        if wide > 0xffff_ffff {
            proof {
                let k = i + 1 - from;
                assert(sub.take(k) =~= name@.subrange(from as int, i + 1));
                if all_digits(sub) {
                    lemma_digits_value_take(sub, k);
                    assert(digits_value(sub) > u32::MAX);
                }
            }
            return None;
        }
        acc = wide as u32;
        i = i + 1;
    }
    proof {
        assert(name@.subrange(from as int, i as int) =~= sub);
    }
    Some(acc)
}

/// Parses the controller index out of a device's identity and name,
/// validating the whole name shape; any unexpected shape, unrecognized
/// identity, or out-of-range index yields `None` rather than a misread.
pub fn parse_controller_index(vendor: u16, product: u16, name: &str) -> (r: Option<u32>)
    ensures
        match indicator_index(vendor, product, name@) {
            Some(v) => if v <= u32::MAX {
                r == Some(v as u32)
            } else {
                r is None
            },
            None => r is None,
        },
        r is Some ==> indicator_index(vendor, product, name@) == Some(r.unwrap() as int),
{
    if vendor != VENDOR_NINTENDO {
        return None;
    }
    let prefix: &str = if product == PRODUCT_LEFT_JOYCON {
        "Nintendo Switch Left JoyCon [controller "
    } else if product == PRODUCT_RIGHT_JOYCON {
        "Nintendo Switch Right JoyCon [controller "
    } else if product == PRODUCT_PROCON {
        "Nintendo Switch ProCon [controller "
    } else {
        return None;
    };
    let plen = prefix.unicode_len();
    let nlen = name.unicode_len();
    if nlen < plen || nlen - plen < 2 {
        return None;
    }
    if !check_prefix(name, prefix) {
        return None;
    }
    let last = name.get_char(nlen - 1);
    if last != ']' {
        return None;
    }
    let r = parse_digits(name, plen, nlen - 1);
    proof {
        let sub = name@.subrange(plen as int, nlen - 1);
        assert(valid_indicator_name(prefix@, name@) == all_digits(sub));
        if r is Some {
            lemma_digits_value_nonneg(sub);
        }
    }
    r
}

/// The ASCII decimal rendering of a player index: the shortest digit
/// string denoting `n`, most significant digit first.
pub open spec fn decimal_digits(n: int) -> Seq<u8>
    recommends
        n >= 0,
    decreases n,
{
    if n < 10 {
        seq![(48 + if n >= 0 { n } else { 0 }) as u8]
    } else {
        decimal_digits(n / 10).push((48 + n % 10) as u8)
    }
}

/// Renders a player index as the bytes the indicator control surface
/// takes as its entire content.
pub fn player_content(player: u8) -> (r: Vec<u8>)
    ensures
        r@ == decimal_digits(player as int),
{
    let mut r: Vec<u8> = Vec::new();
    let n = player;
    if n >= 100 {
        r.push(48 + n / 100);
    }
    if n >= 10 {
        r.push(48 + (n / 10) % 10);
    }
    r.push(48 + n % 10);
    proof {
        let v = n as int;
        if v >= 100 {
            vstd::arithmetic::div_mod::lemma_div_denominator(v, 10, 10);
            assert(v / 10 / 10 == v / 100);
            assert(decimal_digits(v / 10) == decimal_digits(v / 100).push(
                (48 + (v / 10) % 10) as u8,
            ));
            assert(v / 100 < 10);
            assert(r@ =~= decimal_digits(v));
        } else if v >= 10 {
            assert(v / 10 < 10);
            assert((v / 10) % 10 == v / 10);
            assert(decimal_digits(v / 10) =~= seq![(48 + v / 10) as u8]);
            assert(r@ =~= decimal_digits(v));
        } else {
            assert(r@ =~= decimal_digits(v));
        }
    }
    r
}

/// Why an indicator write could not even be planned.
#[derive(Clone, Copy, PartialEq, Eq, Structural, Debug)]
pub enum IndicatorError {
    /// The device's name does not have the expected indicator shape, or
    /// its identity has no indicator surface.
    UnresolvableName,
}

/// A planned indicator write: which control surface, and the exact bytes
/// to write as its entire content.
#[derive(Debug)]
pub struct IndicatorWrite {
    pub controller_index: u32,
    pub content: Vec<u8>,
}

/// Plans the indicator write that shows `player` on the device with the
/// given identity and name: the control surface is addressed by the index
/// parsed from the name, the content is the ASCII decimal player index.
/// An unresolvable name is reported, never misread; the caller logs it
/// and carries on.
pub fn indicator_write_plan(vendor: u16, product: u16, name: &str, player: u8) -> (r: Result<
    IndicatorWrite,
    IndicatorError,
>)
    ensures
        match r {
            Ok(w) => ({
                &&& indicator_index(vendor, product, name@) == Some(w.controller_index as int)
                &&& w.content@ == decimal_digits(player as int)
            }),
            Err(e) => ({
                &&& e == IndicatorError::UnresolvableName
                &&& (indicator_index(vendor, product, name@) is None || indicator_index(
                    vendor,
                    product,
                    name@,
                ).unwrap() > u32::MAX)
            }),
        },
{
    match parse_controller_index(vendor, product, name) {
        None => Err(IndicatorError::UnresolvableName),
        Some(idx) => Ok(IndicatorWrite { controller_index: idx, content: player_content(player) }),
    }
}

} // verus!
