//! The frame decoder's handle: when it is released, and what a decode call's status
//! means.

use vstd::prelude::*;
use vstd::string::*;

verus! {

/// A compressed frame does not fit the bounds that were declared for its target.
#[derive(Debug, Clone, Copy, PartialEq, Eq, Structural)]
pub struct FrameTooBig;

impl FrameTooBig {
    /// The text shown to the user for this error.
    pub open spec fn message_spec(self) -> Seq<char> {
        "MJPEG: frame too big"@
    }

    /// The text shown to the user for this error.
    pub fn message(&self) -> (r: String)
        ensures
            r@ == self.message_spec(),
    {
        "MJPEG: frame too big".to_owned()
    }
}

/// The ownership of one native decoder. The owner of the native side asks `free`
/// whether the release is due, so that it happens once however often it is asked for.
#[derive(Debug)]
pub struct MjpegDecoder {
    live: bool,
}

impl MjpegDecoder {
    /// Whether the native decoder is still held.
    pub closed spec fn is_live(&self) -> bool {
        self.live
    }

    /// The state right after the native decoder was made.
    pub fn new() -> (decoder: MjpegDecoder)
        ensures
            decoder.is_live(),
    {
        MjpegDecoder { live: true }
    }

    /// Gives the native decoder up. The result says whether it has to be released
    /// now: it does the first time, and never again.
    pub fn free(&mut self) -> (release: bool)
        ensures
            release == old(self).is_live(),
            !final(self).is_live(),
    {
        let release = self.live;
        self.live = false;
        release
    }

    /// Whether the native decoder is still held.
    pub fn live(&self) -> (live: bool)
        ensures
            live == self.is_live(),
    {
        self.live
    }

    /// What a decode call that returned `status` amounts to: a negative status says
    /// that the frame did not fit, any other that it was decoded.
    pub fn decode_status(status: i32) -> (r: Result<(), FrameTooBig>)
        ensures
            r is Err <==> status < 0,
    {
        if status < 0 {
            Err(FrameTooBig)
        } else {
            Ok(())
        }
    }
}

} // verus!
