//! Cutting a download into ranges of bytes.
use vstd::prelude::*;
use vstd::string::StringExecFns;
use crate::text::{decimal_digits, push_digits};

verus! {

/// Why a range walk cannot be made.
#[derive(Debug, Clone, Copy, PartialEq, Eq, Structural)]
pub enum RangeError {
    /// The buffer size is zero, so no range would ever move on.
    ZeroBufferSize,
}

/// A walk over the bytes `start..=end` in ranges of at most `buffer_size`
/// bytes.
#[derive(Debug)]
pub struct PartialRangeIter {
    pub start: u64,
    pub end: u64,
    pub buffer_size: u32,
}

/// The length of the next range: the buffer size, or what is left where that
/// is less.
pub open spec fn range_len(start: u64, end: u64, buffer_size: u32) -> int {
    if end - start + 1 < buffer_size {
        end - start + 1
    } else {
        buffer_size as int
    }
}

/// The header value that asks for the bytes `from..=to`.
pub open spec fn range_header(from: u64, to: u64) -> Seq<char> {
    "bytes="@ + decimal_digits(from as nat) + seq!['-'] + decimal_digits(to as nat)
}

impl PartialRangeIter {
    /// Whether the walk can go on without leaving the numbers of the
    /// machine.
    pub open spec fn wf(&self) -> bool {
        self.buffer_size > 0 && self.end < u64::MAX
    }

    /// A walk over `start..=end`. The last byte that can be asked for is the
    /// one before `u64::MAX`.
    pub fn new(start: u64, end: u64, buffer_size: u32) -> (r: Result<Self, RangeError>)
        requires
            end < u64::MAX,
        ensures
            buffer_size == 0 ==> r == Err::<Self, RangeError>(RangeError::ZeroBufferSize),
            buffer_size > 0 ==> r == Ok::<Self, RangeError>(
                PartialRangeIter { start, end, buffer_size },
            ),
            r.is_ok() ==> r.unwrap().wf(),
    {
        if buffer_size == 0 {
            return Err(RangeError::ZeroBufferSize);
        }
        Ok(PartialRangeIter { start, end, buffer_size })
    }

    /// The header value for the next range, or nothing when the walk is
    /// over. The walk moves behind the range that it hands out.
    pub fn next(&mut self) -> (header: Option<String>)
        requires
            old(self).wf(),
        ensures
            final(self).wf(),
            final(self).end == old(self).end,
            final(self).buffer_size == old(self).buffer_size,
            old(self).start > old(self).end ==> header.is_none() && final(self).start == old(
                self,
            ).start,
            old(self).start <= old(self).end ==> final(self).start == old(self).start + range_len(
                old(self).start,
                old(self).end,
                old(self).buffer_size,
            ) && header.is_some() && header.unwrap()@ == range_header(
                old(self).start,
                (final(self).start - 1) as u64,
            ),
    {
        if self.start > self.end {
            None
        } else {
            let prev_start = self.start;
            let left = self.end - self.start;
            let step: u64 = if left < self.buffer_size as u64 {
                left + 1
            } else {
                self.buffer_size as u64
            };
            self.start = self.start + step;
            let mut header = String::from_str("bytes=");
            push_digits(&mut header, prev_start);
            header.push('-');
            push_digits(&mut header, self.start - 1);
            proof {
                assert(header@ =~= range_header(prev_start, (self.start - 1) as u64));
            }
            Some(header)
        }
    }
}

} // verus!
