use vstd::prelude::*;

use crate::status::{ERROR_INSUFFICIENT_BUFFER, ERROR_SUCCESS};

verus! {

/// Header flag: the event was logged by a 32-bit process.
pub const EVENT_HEADER_FLAG_32_BIT_HEADER: u16 = 0x20;

/// Header flag: the event was logged by a 64-bit process.
pub const EVENT_HEADER_FLAG_64_BIT_HEADER: u16 = 0x40;

/// The type that governs how a property is displayed: the out-type where one is
/// given, the in-type where the out-type is zero.
pub open spec fn display_type(in_type: u16, out_type: u16) -> u16 {
    if out_type == 0 {
        in_type
    } else {
        out_type
    }
}

/// The pointer width, in bytes, of the process that logged an event.
pub open spec fn event_pointer_size(header_flags: u16, native: u32) -> u32 {
    if header_flags & EVENT_HEADER_FLAG_32_BIT_HEADER != 0 {
        4
    } else if header_flags & EVENT_HEADER_FLAG_64_BIT_HEADER != 0 {
        8
    } else {
        native
    }
}

/// The schema and formatting helpers of the trace data helper service.
pub struct Tdh;

impl Tdh {
    /// The type to format a property with, from its in-type and out-type.
    pub fn display_type(in_type: u16, out_type: u16) -> (r: u16)
        ensures
            r == display_type(in_type, out_type),
    {
        if out_type == 0 {
            in_type
        } else {
            out_type
        }
    }

    /// The pointer width of the event's originating process: 4 or 8 from the
    /// header flags, else `native`, the consuming process's own width.
    pub fn pointer_size(header_flags: u16, native: u32) -> (r: u32)
        ensures
            r == event_pointer_size(header_flags, native),
    {
        if header_flags & EVENT_HEADER_FLAG_32_BIT_HEADER != 0 {
            4
        } else if header_flags & EVENT_HEADER_FLAG_64_BIT_HEADER != 0 {
            8
        } else {
            native
        }
    }
}

/// What a two-phase query returns, given the answers `first` (status, size) to
/// the sizing call and `second` to the data call: the data where sizing said
/// "buffer too small" and the data call succeeded, else the failing status.
pub open spec fn query_result<T>(first: (u32, u32), second: Option<(u32, T)>) -> Result<T, u32> {
    if first.0 != ERROR_INSUFFICIENT_BUFFER {
        Err(first.0)
    } else {
        match second {
            Some((status, data)) => if status == ERROR_SUCCESS {
                Ok(data)
            } else {
                Err(status)
            },
            None => Err(first.0),
        }
    }
}

impl Tdh {
    /// Asks for an event's schema by the two-phase size query. `query(None)`
    /// makes the call without a buffer and answers (status, required size,
    /// nothing); `query(Some(n))` makes it with a buffer of `n` bytes and
    /// answers (status, size, buffer). The sizing call is made exactly once
    /// and first; the data call is made only after a "buffer too small"
    /// answer, with exactly the size reported.
    pub fn get_event_information<F>(query: F) -> (r: Result<Vec<u8>, u32>) where
        F: Fn(Option<u32>) -> (u32, u32, Vec<u8>),

        requires
            forall|a: Option<u32>| #[trigger] query.requires((a,)),
        ensures
            exists|first: (u32, u32, Vec<u8>)|
                #![trigger query.ensures((None,), first)]
                query.ensures((None,), first) && if first.0 != ERROR_INSUFFICIENT_BUFFER {
                    r == Err::<Vec<u8>, u32>(first.0)
                } else {
                    exists|second: (u32, u32, Vec<u8>)|
                        #![trigger query.ensures((Some(first.1),), second)]
                        query.ensures((Some(first.1),), second) && r == query_result(
                            (first.0, first.1),
                            Some((second.0, second.2)),
                        )
                },
    {
        let first = query(None);
        if first.0 != ERROR_INSUFFICIENT_BUFFER {
            return Err(first.0);
        }
        let second = query(Some(first.1));
        if second.0 == ERROR_SUCCESS {
            Ok(second.2)
        } else {
            Err(second.0)
        }
    }

    /// Formats one property of in-type `in_type` and out-type `out_type` by the
    /// two-phase size query. `query(size, in_type, display)` makes the
    /// formatter call with the value's native type `in_type` and the display
    /// type `display`; with `size` `None` it has no buffer and answers (status,
    /// required size in units, nothing, bytes consumed), with `Some(n)` it has
    /// a buffer of `n` units and answers (status, size, text units, payload
    /// bytes consumed). Both calls get the in-type unchanged and the display
    /// type [`display_type`]`(in_type, out_type)`: a zero out-type formats as
    /// the in-type. The sizing call is made exactly once and first; the data
    /// call is made only after a "buffer too small" answer, with exactly the
    /// size reported. On success the result is the text and the consumed byte
    /// count.
    pub fn format_property<F>(in_type: u16, out_type: u16, query: F) -> (r: Result<
        (Vec<u16>, usize),
        u32,
    >) where F: Fn(Option<u32>, u16, u16) -> (u32, u32, Vec<u16>, u16),

        requires
            forall|a: Option<u32>| #[trigger] query.requires((a, in_type, display_type(in_type, out_type))),
        ensures
            exists|first: (u32, u32, Vec<u16>, u16)|
                #![trigger query.ensures((None, in_type, display_type(in_type, out_type)), first)]
                query.ensures((None, in_type, display_type(in_type, out_type)), first) && if first.0
                    != ERROR_INSUFFICIENT_BUFFER {
                    r == Err::<(Vec<u16>, usize), u32>(first.0)
                } else {
                    exists|second: (u32, u32, Vec<u16>, u16)|
                        #![trigger query.ensures((Some(first.1), in_type, display_type(in_type, out_type)), second)]
                        query.ensures(
                            (Some(first.1), in_type, display_type(in_type, out_type)),
                            second,
                        ) && r == query_result(
                            (first.0, first.1),
                            Some((second.0, (second.2, second.3 as usize))),
                        )
                },
    {
        let display = Tdh::display_type(in_type, out_type);
        let first = query(None, in_type, display);
        if first.0 != ERROR_INSUFFICIENT_BUFFER {
            return Err(first.0);
        }
        let second = query(Some(first.1), in_type, display);
        if second.0 == ERROR_SUCCESS {
            Ok((second.2, second.3 as usize))
        } else {
            Err(second.0)
        }
    }
}

/// The data call is reached only through a "buffer too small" answer to the
/// sizing call: a first answer of immediate success, whatever size it reports
/// and whatever a later call would answer, is a failure carrying that status.
pub proof fn lemma_immediate_success_rejected<T>(reported_size: u32, second: Option<(u32, T)>)
    ensures
        query_result((ERROR_SUCCESS, reported_size), second) == Err::<T, u32>(ERROR_SUCCESS),
{
}

/// A property whose out-type is zero is displayed exactly as one whose
/// out-type names its in-type: [`Tdh::format_property`] hands the formatter the
/// same in-type and display type for both.
pub proof fn lemma_zero_out_type_uses_in_type(in_type: u16)
    ensures
        display_type(in_type, 0) == in_type,
        display_type(in_type, 0) == display_type(in_type, in_type),
{
}

} // verus!
