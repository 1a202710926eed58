//! How numbers and durations are shown.
use vstd::prelude::*;
use vstd::string::StringExecFns;
use crate::text::{decimal, decimal_string, padded, push_decimal};

verus! {

/// A duration of `duration` milliseconds as it is shown: hours, minutes and
/// seconds where it lasts an hour or more, minutes and seconds otherwise,
/// with minutes and seconds filled up to two digits. Parts of a second are
/// cut off. A negative duration shows its minutes and seconds with their
/// sign.
pub open spec fn duration_text(duration: int) -> Seq<char> {
    let size = if duration < 0 {
        -duration
    } else {
        duration
    };
    let hour = size / 3_600_000;
    let minute = (size % 3_600_000) / 60_000;
    let second = (size % 60_000) / 1000;
    if duration < 0 {
        padded(decimal(-minute), 2, '0') + seq![':'] + padded(decimal(-second), 2, '0')
    } else if hour > 0 {
        decimal(hour) + seq![':'] + padded(decimal(minute), 2, '0') + seq![':'] + padded(
            decimal(second),
            2,
            '0',
        )
    } else {
        padded(decimal(minute), 2, '0') + seq![':'] + padded(decimal(second), 2, '0')
    }
}

/// Appends `i` in base ten, filled up on the left with `prefix` to `len`
/// characters.
fn push_padded(s: &mut String, i: i64, len: usize, prefix: char)
    ensures
        final(s)@ == old(s)@ + padded(decimal(i as int), len as nat, prefix),
{
    let digits = decimal_string(i);
    let have = digits.as_str().unicode_len();
    let ghost start = s@;
    if have < len {
        let fill = len - have;
        let mut k: usize = 0;
        while k < fill
            invariant
                k <= fill,
                s@ == start + Seq::new(k as nat, |j: int| prefix),
            decreases fill - k,
        {
            s.push(prefix);
            k += 1;
            proof {
                assert(s@ =~= start + Seq::new(k as nat, |j: int| prefix));
            }
        }
    } else {
        proof {
            assert(s@ =~= start + Seq::new(0nat, |j: int| prefix));
        }
    }
    s.append(digits.as_str());
    proof {
        assert(s@ =~= start + padded(decimal(i as int), len as nat, prefix));
    }
}

/// Writes `i` in base ten and fills it up on the left with `prefix` to
/// `len` characters.
pub fn pre_format(i: i64, len: usize, prefix: char) -> (text: String)
    ensures
        text@ == padded(decimal(i as int), len as nat, prefix),
{
    let mut s = String::new();
    push_padded(&mut s, i, len, prefix);
    proof {
        assert(Seq::<char>::empty() + padded(decimal(i as int), len as nat, prefix) =~= padded(
            decimal(i as int),
            len as nat,
            prefix,
        ));
    }
    s
}

/// Shows a duration given in milliseconds.
pub fn show_duration(duration: i32) -> (text: String)
    ensures
        text@ == duration_text(duration as int),
{
    let d: i64 = duration as i64;
    let size: i64 = if d < 0 {
        -d
    } else {
        d
    };
    let hour = size / 3_600_000;
    let minute = (size % 3_600_000) / 60_000;
    let second = (size % 60_000) / 1000;
    let mut s = String::new();
    if d < 0 {
        push_padded(&mut s, -minute, 2, '0');
        s.push(':');
        push_padded(&mut s, -second, 2, '0');
    } else {
        if hour > 0 {
            push_decimal(&mut s, hour);
            s.push(':');
        }
        push_padded(&mut s, minute, 2, '0');
        s.push(':');
        push_padded(&mut s, second, 2, '0');
    }
    proof {
        assert(s@ =~= duration_text(duration as int));
    }
    s
}

} // verus!
