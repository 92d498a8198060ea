//! Reading the amount out of a payment receipt: the receipt's description
//! tag embeds the payment request, and the request's amount tag names the
//! amount in thousandths of a unit. Anything missing or malformed along the
//! way means an amount of zero — a receipt is never an error.

use vstd::prelude::*;

use crate::event::Event;
use crate::event::Tag;
use crate::event::ZapRequest;
use crate::event::opt_str_view;
use vstd::string::StrSliceExecFns;

verus! {

pub open spec fn spec_is_digit(c: char) -> bool {
    48 <= (c as u32) && (c as u32) <= 57
}

pub open spec fn spec_digit_val(c: char) -> int {
    c as u32 - 48
}

pub open spec fn spec_all_digits(s: Seq<char>) -> bool {
    forall|i: int| 0 <= i < s.len() ==> spec_is_digit(s[i])
}

/// The number a sequence of decimal digits denotes.
pub open spec fn spec_digits_val(s: Seq<char>) -> int
    decreases s.len(),
{
    if s.len() == 0 {
        0
    } else {
        spec_digits_val(s.drop_last()) * 10 + spec_digit_val(s.last())
    }
}

/// What parsing a string as an unsigned 32-bit decimal yields: an optional
/// leading plus sign, then one or more digits, denoting a value that fits.
pub open spec fn spec_parse_u32(s: Seq<char>) -> Option<u32> {
    let digits = if s.len() > 0 && s[0] == '+' {
        s.drop_first()
    } else {
        s
    };
    if digits.len() > 0 && spec_all_digits(digits) && spec_digits_val(digits) <= u32::MAX {
        Some(spec_digits_val(digits) as u32)
    } else {
        None
    }
}

proof fn lemma_digits_val_nonneg(s: Seq<char>)
    requires
        spec_all_digits(s),
    ensures
        spec_digits_val(s) >= 0,
    decreases s.len(),
{
    if s.len() > 0 {
        assert forall|i: int| 0 <= i < s.drop_last().len() implies spec_is_digit(
            s.drop_last()[i],
        ) by {
            assert(s.drop_last()[i] == s[i]);
        }
        lemma_digits_val_nonneg(s.drop_last());
        assert(s.last() == s[s.len() - 1]);
    }
}

/// A digit string denotes at least what any of its prefixes denotes.
proof fn lemma_digits_val_prefix_le(s: Seq<char>, j: int)
    requires
        spec_all_digits(s),
        0 <= j <= s.len(),
    ensures
        spec_digits_val(s.take(j)) <= spec_digits_val(s),
    decreases s.len() - j,
{
    if j == s.len() {
        assert(s.take(j) =~= s);
    } else {
        lemma_digits_val_prefix_le(s, j + 1);
        assert(s.take(j + 1).drop_last() =~= s.take(j));
        assert(s.take(j + 1).last() == s[j]);
        assert forall|k: int| 0 <= k < j implies spec_is_digit(s.take(j)[k]) by {
            assert(s.take(j)[k] == s[k]);
        }
        lemma_digits_val_nonneg(s.take(j));
        assert(spec_digits_val(s.take(j + 1)) == spec_digits_val(s.take(j)) * 10 + spec_digit_val(
            s[j],
        ));
    }
}

/// Parses a decimal unsigned 32-bit number exactly as the standard library
/// does for this type: an optional leading plus sign, then only digits, and
/// the value must fit.
pub fn parse_u32(s: &str) -> (r: Option<u32>)
    ensures
        r == spec_parse_u32(s@),
{
    let n = s.unicode_len();
    let mut i: usize = 0;
    if n > 0 {
        if s.get_char(0) == '+' {
            i = 1;
        }
    }
    let ghost digits = if s@.len() > 0 && s@[0] == '+' {
        s@.drop_first()
    } else {
        s@
    };
    proof {
        assert(digits =~= s@.skip(i as int));
    }
    if i == n {
        return None;
    }
    let ghost start = i as int;
    let mut acc: u32 = 0;
    while i < n
        invariant
            0 <= start <= i <= n,
            start < n,
            n == s@.len(),
            digits == s@.skip(start),
            digits == (if s@.len() > 0 && s@[0] == '+' {
                s@.drop_first()
            } else {
                s@
            }),
            digits.len() == n - start,
            spec_all_digits(digits.take(i - start)),
            acc == spec_digits_val(digits.take(i - start)),
        decreases n - i,
    {
        let c = s.get_char(i);
        let u = c as u32;
        proof {
            vstd::seq_lib::lemma_seq_skip_index(s@, start, i - start);
            assert(s@.skip(start)[i - start] == s@[i as int]);
        }
        if u < 48 || u > 57 {
            proof {
                assert(!spec_is_digit(digits[i - start]));
            }
            return None;
        }
        let d = u - 48;
        let next64 = (acc as u64) * 10 + (d as u64);
        proof {
            assert(digits.take(i - start + 1).drop_last() =~= digits.take(i - start));
            assert(digits.take(i - start + 1).last() == digits[i - start]);
            assert forall|k: int| 0 <= k < i - start + 1 implies spec_is_digit(
                #[trigger] digits.take(i - start + 1)[k],
            ) by {
                assert(digits.take(i - start + 1)[k] == digits[k]);
                if k < i - start {
                    assert(digits.take(i - start)[k] == digits[k]);
                }
            }
            assert(spec_digits_val(digits.take(i - start + 1)) == acc * 10 + d);
        }
        if next64 > u32::MAX as u64 {
            proof {
                if spec_all_digits(digits) {
                    lemma_digits_val_prefix_le(digits, i - start + 1);
                }
            }
            return None;
        }
        acc = next64 as u32;
        i = i + 1;
    }
    proof {
        assert(digits.take(n - start) =~= digits);
    }
    Some(acc)
}

/// The content of the first description tag: `None` when no description tag
/// is present; the first one found decides, valid or not.
pub open spec fn spec_first_description(tags: Seq<Tag>) -> Option<Option<ZapRequest>>
    decreases tags.len(),
{
    if tags.len() == 0 {
        None
    } else {
        match tags[0] {
            Tag::Description(c) => Some(c),
            _ => spec_first_description(tags.drop_first()),
        }
    }
}

/// The content of the first amount tag.
pub open spec fn spec_first_amount(tags: Seq<Tag>) -> Option<Option<Seq<char>>>
    decreases tags.len(),
{
    if tags.len() == 0 {
        None
    } else {
        match tags[0] {
            Tag::Amount(c) => Some(opt_str_view(c)),
            _ => spec_first_amount(tags.drop_first()),
        }
    }
}

/// The amount a receipt carries: the first description tag's embedded
/// request, read for its first amount tag, parsed as a decimal number —
/// zero at every dead end.
pub open spec fn spec_zap_request_amount(e: Event) -> u32 {
    match spec_first_description(e.tags@) {
        Some(Some(zr)) => match spec_first_amount(zr.tags@) {
            Some(Some(content)) => match spec_parse_u32(content) {
                Some(v) => v,
                None => 0,
            },
            _ => 0,
        },
        _ => 0,
    }
}

/// The embedded payment request, when the first description tag carries a
/// valid one.
fn get_zap_request(tags: &Vec<Tag>) -> (r: Option<&ZapRequest>)
    ensures
        match r {
            Some(z) => spec_first_description(tags@) == Some(Some(*z)),
            None => spec_first_description(tags@) is None || spec_first_description(tags@)
                == Some(None::<ZapRequest>),
        },
{
    let n = tags.len();
    let mut i: usize = 0;
    proof {
        assert(tags@.skip(0) =~= tags@);
    }
    while i < n
        invariant
            0 <= i <= n,
            n == tags@.len(),
            spec_first_description(tags@) == spec_first_description(tags@.skip(i as int)),
        decreases n - i,
    {
        proof {
            assert(tags@.skip(i as int)[0] == tags@[i as int]);
            assert(tags@.skip(i as int).drop_first() =~= tags@.skip(i as int + 1));
        }
        match &tags[i] {
            Tag::Description(Some(z)) => {
                return Some(z);
            },
            Tag::Description(None) => {
                return None;
            },
            _ => {},
        }
        i = i + 1;
    }
    proof {
        assert(tags@.skip(n as int) =~= Seq::<Tag>::empty());
    }
    None
}

/// The content of the first amount tag, when it has one.
fn get_amount_content(tags: &Vec<Tag>) -> (r: Option<&String>)
    ensures
        match r {
            Some(s) => spec_first_amount(tags@) == Some(Some(s@)),
            None => spec_first_amount(tags@) is None || spec_first_amount(tags@) == Some(
                None::<Seq<char>>,
            ),
        },
{
    let n = tags.len();
    let mut i: usize = 0;
    proof {
        assert(tags@.skip(0) =~= tags@);
    }
    while i < n
        invariant
            0 <= i <= n,
            n == tags@.len(),
            spec_first_amount(tags@) == spec_first_amount(tags@.skip(i as int)),
        decreases n - i,
    {
        proof {
            assert(tags@.skip(i as int)[0] == tags@[i as int]);
            assert(tags@.skip(i as int).drop_first() =~= tags@.skip(i as int + 1));
        }
        match &tags[i] {
            Tag::Amount(Some(s)) => {
                return Some(s);
            },
            Tag::Amount(None) => {
                return None;
            },
            _ => {},
        }
        i = i + 1;
    }
    proof {
        assert(tags@.skip(n as int) =~= Seq::<Tag>::empty());
    }
    None
}

/// The amount, in thousandths of a unit, that the payment request embedded in
/// this receipt names; zero when the description tag, the request, the amount
/// tag or its number is missing or malformed.
pub fn get_zap_request_amount(event: &Event) -> (r: u32)
    ensures
        r == spec_zap_request_amount(*event),
{
    match get_zap_request(&event.tags) {
        Some(request) => match get_amount_content(&request.tags) {
            Some(content) => match parse_u32(content.as_str()) {
                Some(v) => v,
                None => 0,
            },
            None => 0,
        },
        None => 0,
    }
}

} // verus!
