//! Reading a number out of free-form recognised text.

use vstd::prelude::*;
use vstd::string::StringSliceAdditionalSpecFns;

verus! {

pub open spec fn is_ascii_digit(b: u8) -> bool {
    48 <= b && b <= 57
}

/// The ASCII digits of `s`, in order.
pub open spec fn digits_of(s: Seq<u8>) -> Seq<u8>
    decreases s.len(),
{
    if s.len() == 0 {
        Seq::empty()
    } else {
        let prev = digits_of(s.drop_last());
        if is_ascii_digit(s.last()) {
            prev.push(s.last())
        } else {
            prev
        }
    }
}

/// The number that a sequence of ASCII digits spells in base ten.
pub open spec fn decimal_value(d: Seq<u8>) -> int
    decreases d.len(),
{
    if d.len() == 0 {
        0
    } else {
        decimal_value(d.drop_last()) * 10 + (d.last() - 48)
    }
}

/// What the digits of `text` spell, where there are any and the number fits
/// an `i32`.
pub open spec fn ocr_number_spec(text: Seq<u8>) -> Option<i32> {
    let d = digits_of(text);
    if d.len() == 0 || decimal_value(d) > 0x7fff_ffff {
        None
    } else {
        Some(decimal_value(d) as i32)
    }
}

proof fn lemma_digits_are_digits(s: Seq<u8>)
    ensures
        forall|k: int| 0 <= k < digits_of(s).len() ==> is_ascii_digit(#[trigger] digits_of(s)[k]),
    decreases s.len(),
{
    if s.len() > 0 {
        let prev = digits_of(s.drop_last());
        lemma_digits_are_digits(s.drop_last());
        assert forall|k: int| 0 <= k < digits_of(s).len() implies is_ascii_digit(
            #[trigger] digits_of(s)[k],
        ) by {
            if k < prev.len() {
                assert(digits_of(s)[k] == prev[k]);
            }
        }
    }
}

proof fn lemma_decimal_nonnegative(d: Seq<u8>)
    requires
        forall|k: int| 0 <= k < d.len() ==> is_ascii_digit(#[trigger] d[k]),
    ensures
        decimal_value(d) >= 0,
    decreases d.len(),
{
    if d.len() > 0 {
        lemma_decimal_nonnegative(d.drop_last());
    }
}

/// The number spelled by the ASCII digits of `text`, all other characters
/// dropped; `None` where there is no digit or the number exceeds `i32::MAX`.
pub fn number_from_text(text: &str) -> (r: Option<i32>)
    ensures
        r == ocr_number_spec(text.spec_bytes()),
{
    let bytes = text.as_bytes();
    let ghost s = bytes@;
    let mut any = false;
    let mut overflow = false;
    let mut value: u64 = 0;
    let mut i: usize = 0;
    while i < bytes.len()
        invariant
            s == bytes@,
            i <= s.len(),
            any == (digits_of(s.subrange(0, i as int)).len() > 0),
            overflow == (decimal_value(digits_of(s.subrange(0, i as int))) > 0x7fff_ffff),
            !overflow ==> value == decimal_value(digits_of(s.subrange(0, i as int))),
        decreases s.len() - i,
    {
        let b = bytes[i];
        proof {
            let prefix = s.subrange(0, i as int);
            assert(s.subrange(0, i + 1).drop_last() =~= prefix);
            assert(s.subrange(0, i + 1).last() == b);
            lemma_digits_are_digits(prefix);
            lemma_decimal_nonnegative(digits_of(prefix));
        }
        if 48 <= b && b <= 57 {
            any = true;
            if !overflow {
                let next = value * 10 + (b - 48) as u64;
                if next > 0x7fff_ffff {
                    overflow = true;
                } else {
                    value = next;
                }
            }
            proof {
                let prefix = s.subrange(0, i as int);
                let d = digits_of(prefix);
                assert(d.push(b).drop_last() =~= d);
            }
        }
        i = i + 1;
    }
    proof {
        assert(s.subrange(0, s.len() as int) =~= s);
    }
    if !any || overflow {
        None
    } else {
        Some(value as i32)
    }
}

} // verus!
