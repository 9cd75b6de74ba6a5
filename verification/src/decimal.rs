//! Decimal text for the numeric identifiers that appear in paths and bodies,
//! and the strict reading of such text back into a number.

use vstd::prelude::*;
use vstd::string::*;

verus! {

/// The character for a digit below ten.
pub open spec fn digit_char(d: nat) -> char {
    (0x30 + d) as char
}

/// Whether `c` is one of `0` to `9`.
pub open spec fn is_digit(c: char) -> bool {
    0x30 <= (c as u32) <= 0x39
}

/// The shortest decimal text of `n`: no sign, no leading zero but for zero itself.
pub open spec fn decimal(n: nat) -> Seq<char>
    decreases n,
{
    if n < 10 {
        seq![digit_char(n)]
    } else {
        decimal(n / 10).push(digit_char(n % 10))
    }
}

/// Whether every character of `text` is a digit.
pub open spec fn all_digits(text: Seq<char>) -> bool {
    forall|i: int| 0 <= i < text.len() ==> is_digit(#[trigger] text[i])
}

/// The number that a run of digits denotes, most significant digit first.
pub open spec fn digits_value(text: Seq<char>) -> nat
    decreases text.len(),
{
    if text.len() == 0 {
        0
    } else {
        digits_value(text.drop_last()) * 10 + ((text.last() as u32) - 0x30) as nat
    }
}

/// What `text` denotes when read strictly as an unsigned 64-bit number: it
/// must be a non-empty run of digits whose value fits.
pub open spec fn parsed_u64(text: Seq<char>) -> Option<u64> {
    if text.len() > 0 && all_digits(text) && digits_value(text) <= u64::MAX {
        Some(digits_value(text) as u64)
    } else {
        None
    }
}

/// Reading the decimal text of a number gives the number back.
pub proof fn lemma_decimal_round_trip(n: nat)
    ensures
        decimal(n).len() > 0,
        all_digits(decimal(n)),
        digits_value(decimal(n)) == n,
    decreases n,
{
    if n < 10 {
        let text = decimal(n);
        assert(text.drop_last() =~= Seq::<char>::empty());
        assert(digits_value(text.drop_last()) == 0);
        assert(text.last() == digit_char(n));
    } else {
        lemma_decimal_round_trip(n / 10);
        let text = decimal(n);
        assert(text.drop_last() =~= decimal(n / 10));
        assert(text.last() == digit_char(n % 10));
        assert forall|i: int| 0 <= i < text.len() implies is_digit(#[trigger] text[i]) by {
            if i < text.len() - 1 {
                assert(text[i] == decimal(n / 10)[i]);
            }
        }
    }
}

/// Decimal text is made of unreserved characters only, so percent-encoding
/// leaves it as it is.
pub proof fn lemma_decimal_is_plain(n: nat)
    ensures
        crate::encoding::is_plain(decimal(n)),
        crate::encoding::escaped(decimal(n)) == decimal(n),
{
    lemma_decimal_round_trip(n);
    let text = decimal(n);
    assert forall|i: int| 0 <= i < text.len() implies crate::encoding::is_encoded_char(
        #[trigger] text[i],
    ) && text[i] != '%' by {
        assert(is_digit(text[i]));
        crate::encoding::lemma_char_range(text[i]);
    }
    crate::encoding::lemma_escaped_plain(text);
}

/// A run of digits denotes at least as much as any of its prefixes.
proof fn lemma_prefix_value(text: Seq<char>, k: int)
    requires
        0 <= k <= text.len(),
        all_digits(text),
    ensures
        digits_value(text.take(k)) <= digits_value(text),
    decreases text.len() - k,
{
    if k == text.len() {
        assert(text.take(k) =~= text);
    } else {
        lemma_prefix_value(text, k + 1);
        let longer = text.take(k + 1);
        assert(longer.drop_last() =~= text.take(k));
        assert(longer.last() == text[k]);
        assert(is_digit(text[k]));
    }
}

fn digit(d: u64) -> (c: char)
    requires
        d < 10,
    ensures
        c == digit_char(d as nat),
{
    let low: u8 = d as u8;
    (0x30 + low) as char
}

/// Appends the decimal text of `n` to `out`.
pub fn push_decimal(out: &mut String, n: u64)
    ensures
        final(out)@ == old(out)@ + decimal(n as nat),
    decreases n,
{
    if n >= 10 {
        push_decimal(out, n / 10);
    }
    out.push(digit(n % 10));
    assert(out@ =~= old(out)@ + decimal(n as nat));
}

/// Reads `text` strictly as an unsigned 64-bit number.
pub fn parse_u64(text: &str) -> (value: Option<u64>)
    ensures
        value == parsed_u64(text@),
{
    if !text.is_ascii() {
        proof {
            let at = choose|i: int|
                0 <= i < text@.len() && !('\0' <= #[trigger] text@[i] <= '\u{7f}');
            crate::encoding::lemma_char_range(text@[at]);
            assert(!is_digit(text@[at]));
        }
        return None;
    }
    let raw = text.as_bytes();
    proof {
        is_ascii_spec_bytes(text);
        assert forall|k: int| 0 <= k < text@.len() implies #[trigger] raw@[k] as char == text@[k] by {
            assert('\0' <= text@[k] <= '\u{7f}');
            assert(raw@[k] == text@[k] as u8);
        }
    }
    let n = raw.len();
    if n == 0 {
        return None;
    }
    let mut acc: u64 = 0;
    let mut i: usize = 0;
    assert(text@.take(0) =~= Seq::<char>::empty());
    while i < n
        invariant
            n == raw@.len(),
            n == text@.len(),
            i <= n,
            forall|k: int| 0 <= k < n ==> #[trigger] raw@[k] as char == text@[k],
            all_digits(text@.take(i as int)),
            acc == digits_value(text@.take(i as int)),
        decreases n - i,
    {
        let b = raw[i];
        assert(b as char == text@[i as int]);
        if b < 0x30 || b > 0x39 {
            assert(!is_digit(text@[i as int]));
            return None;
        }
        let d: u64 = (b - 0x30) as u64;
        let ghost longer = text@.take(i + 1);
        proof {
            assert(longer.drop_last() =~= text@.take(i as int));
            assert(longer.last() == text@[i as int]);
            assert(digits_value(longer) == acc * 10 + d);
            assert forall|k: int| 0 <= k < longer.len() implies is_digit(#[trigger] longer[k]) by {
                if k < i {
                    assert(longer[k] == text@.take(i as int)[k]);
                }
            }
        }
        if acc > (u64::MAX - d) / 10 {
            proof {
                assert(acc * 10 + d > u64::MAX);
                if all_digits(text@) {
                    lemma_prefix_value(text@, i + 1);
                }
            }
            return None;
        }
        acc = acc * 10 + d;
        i += 1;
    }
    assert(text@.take(n as int) =~= text@);
    Some(acc)
}

} // verus!
