//! The code scanner's handle: when it is released, and what a resize call's status
//! means.

use vstd::prelude::*;

verus! {

/// The scanner could not be given an image buffer of the size that was asked for.
#[derive(Debug, Clone, Copy, PartialEq, Eq, Structural)]
pub struct ResizeFailed;

/// The ownership of one native scanner. The owner of the native side asks `release`
/// when it is dropped, so that the native scanner is destroyed once.
#[derive(Debug)]
pub struct Quirc {
    live: bool,
}

impl Quirc {
    /// Whether the native scanner is still held.
    pub closed spec fn is_live(&self) -> bool {
        self.live
    }

    /// The state right after the native scanner was made.
    pub fn new() -> (scanner: Quirc)
        ensures
            scanner.is_live(),
    {
        Quirc { live: true }
    }

    /// Gives the native scanner up. The result says whether it has to be destroyed
    /// now: it does the first time, and never again.
    pub fn release(&mut self) -> (destroy: bool)
        ensures
            destroy == old(self).is_live(),
            !final(self).is_live(),
    {
        let destroy = self.live;
        self.live = false;
        destroy
    }

    /// Whether the native scanner is still held.
    pub fn live(&self) -> (live: bool)
        ensures
            live == self.is_live(),
    {
        self.live
    }

    /// What a resize call that returned `status` amounts to: a negative status says
    /// that it failed, any other that the buffer has the new size.
    pub fn resize_status(status: i32) -> (r: Result<(), ResizeFailed>)
        ensures
            r is Err <==> status < 0,
    {
        if status < 0 {
            Err(ResizeFailed)
        } else {
            Ok(())
        }
    }
}

} // verus!
