use vstd::prelude::*;

verus! {

/// Where the underlying stream must go for a position counted from the start of a window
/// that begins at `offset`; `None` where that lies beyond the largest `u64`.
pub fn window_to_stream(position: u64, offset: u64) -> (r: Option<u64>)
    ensures
        position + offset <= u64::MAX <==> r is Some,
        r matches Some(p) ==> p == position + offset,
{
    position.checked_add(offset)
}

/// The position within the window for a position of the underlying stream; `None` where
/// the stream lies before the window's start.
pub fn stream_to_window(stream_position: u64, offset: u64) -> (r: Option<u64>)
    ensures
        stream_position >= offset <==> r is Some,
        r matches Some(p) ==> p == stream_position - offset,
{
    if stream_position >= offset {
        Some(stream_position - offset)
    } else {
        None
    }
}

} // verus!
