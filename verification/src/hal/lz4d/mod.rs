//! LZ4 decompressor.
use vstd::prelude::*;

pub mod register;

use crate::bits;
use register::{DestinationEnd, DestinationStart, Interrupt, InterruptState};

verus! {

/// LZ4 decompressor error.
#[derive(Clone, Copy, Debug, PartialEq, Eq, Structural)]
pub struct Error;

/// What one look at the decompressor finds: `None` while it is still
/// working; once it is done, the number of bytes it wrote (from the start
/// to the end of the destination); or an error. Done takes precedence
/// over an error.
pub fn poll_decompress(
    state: InterruptState,
    destination_start: DestinationStart,
    destination_end: DestinationEnd,
) -> (r: Option<Result<usize, Error>>)
    requires
        bits::field(state.0, 0, 1) == 1 ==> bits::field(destination_start.0, 0, 26) <= bits::field(
            destination_end.0,
            0,
            26,
        ),
    ensures
        bits::field(state.0, 0, 1) == 1 ==> r == Some(
            Ok::<usize, Error>((bits::field(destination_end.0, 0, 26) - bits::field(destination_start.0, 0, 26)) as usize),
        ),
        bits::field(state.0, 0, 1) != 1 && bits::field(state.0, 1, 1) == 1 ==> r == Some(Err::<usize, Error>(Error)),
        bits::field(state.0, 0, 1) != 1 && bits::field(state.0, 1, 1) != 1 ==> r is None,
{
    if state.has_interrupt(Interrupt::Done) {
        let len = destination_end.end() - destination_start.start();
        return Some(Ok(len as usize));
    }
    if state.has_interrupt(Interrupt::Error) {
        return Some(Err(Error));
    }
    None
}

} // verus!
