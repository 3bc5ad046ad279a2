//! The frame-rate counter: frames are counted second by second, and the count of a
//! second becomes the displayed text when the next one begins.

use vstd::prelude::*;
use vstd::string::*;
use crate::text::{decimal, push_decimal};

verus! {

/// The counter as a plain value.
pub struct RateView {
    /// The frames counted since the displayed text was last renewed.
    pub count: nat,
    /// The second of the minute in which counting began or a frame was last counted.
    pub last_sec: int,
    /// The text on display.
    pub text: Seq<char>,
}

/// The frame-rate counter of a run.
#[derive(Debug)]
pub struct FrameRate {
    count: u64,
    last_sec: i32,
    text: String,
}

/// The text that reports `count` frames in a second.
pub open spec fn rate_text(count: nat) -> Seq<char> {
    "Frame rate: "@ + decimal(count) + " fps"@
}

/// The counter once it has noticed the second `now`. In a new second the text becomes
/// the count so far and the count is reset to zero; within the same second nothing
/// changes.
pub open spec fn renew_spec(rate: RateView, now: int) -> RateView {
    if now != rate.last_sec {
        RateView { count: 0, last_sec: now, text: rate_text(rate.count) }
    } else {
        rate
    }
}

/// The counter after a frame that ended when the clock showed the second `now`: the
/// text is renewed first, if a new second has begun, and then the frame is counted.
/// So the frame that notices a new second is the first one counted in it.
pub open spec fn tick_spec(rate: RateView, now: int) -> RateView {
    let renewed = renew_spec(rate, now);
    RateView { count: renewed.count + 1, last_sec: renewed.last_sec, text: renewed.text }
}

/// The counter after `frames` frames that all ended in the second `now`.
pub open spec fn ticks_spec(rate: RateView, now: int, frames: nat) -> RateView
    decreases frames,
{
    if frames == 0 {
        rate
    } else {
        tick_spec(ticks_spec(rate, now, (frames - 1) as nat), now)
    }
}

impl View for FrameRate {
    type V = RateView;

    closed spec fn view(&self) -> RateView {
        RateView { count: self.count as nat, last_sec: self.last_sec as int, text: self.text@ }
    }
}

impl FrameRate {
    /// A counter that starts in the second `now_sec`, with no frame counted and
    /// nothing to display yet.
    pub fn new(now_sec: i32) -> (rate: FrameRate)
        ensures
            rate@ == (RateView { count: 0, last_sec: now_sec as int, text: Seq::<char>::empty() }),
    {
        FrameRate { count: 0, last_sec: now_sec, text: String::new() }
    }

    /// Counts a frame that ended when the clock showed the second `now_sec`.
    pub fn tick(&mut self, now_sec: i32)
        requires
            old(self)@.count < u64::MAX,
        ensures
            final(self)@ == tick_spec(old(self)@, now_sec as int),
    {
        if now_sec != self.last_sec {
            let mut text: String = String::new();
            text.append("Frame rate: ");
            push_decimal(&mut text, self.count);
            text.append(" fps");
            assert(text@ =~= rate_text(self.count as nat));
            self.text = text;
            self.count = 0;
            self.last_sec = now_sec;
        }
        self.count = self.count + 1;
    }

    /// The text on display.
    pub fn text(&self) -> (text: &str)
        ensures
            text@ == self@.text,
    {
        self.text.as_str()
    }

    /// The frames counted since the text was last renewed.
    pub fn count(&self) -> (count: u64)
        ensures
            count == self@.count,
    {
        self.count
    }

    /// The second of the minute at which a frame was last counted.
    pub fn last_sec(&self) -> (sec: i32)
        ensures
            sec == self@.last_sec,
    {
        self.last_sec
    }
}

/// Within one second the text on display does not change, and every frame is counted.
pub proof fn lemma_text_stays_within_second(rate: RateView, frames: nat)
    ensures
        ticks_spec(rate, rate.last_sec, frames).text == rate.text,
        ticks_spec(rate, rate.last_sec, frames).count == rate.count + frames,
        ticks_spec(rate, rate.last_sec, frames).last_sec == rate.last_sec,
    decreases frames,
{
    if frames > 0 {
        lemma_text_stays_within_second(rate, (frames - 1) as nat);
    }
}

/// The text is renewed once for each new second, and it then reports the frames of
/// the second that has passed: after `frames` frames in the second `second`, which
/// was new to the counter, the first frame of another second makes the text report
/// `frames`, and counting starts again with that frame. Until then the text is the
/// one that the first frame of `second` gave.
pub proof fn lemma_text_reports_last_second(rate: RateView, second: int, frames: nat, next: int)
    requires
        second != rate.last_sec,
        next != second,
        frames >= 1,
    ensures
        ticks_spec(rate, second, frames).text == rate_text(rate.count),
        ticks_spec(rate, second, frames).count == frames,
        tick_spec(ticks_spec(rate, second, frames), next).text == rate_text(frames),
        tick_spec(ticks_spec(rate, second, frames), next).count == 1,
        tick_spec(ticks_spec(rate, second, frames), next).last_sec == next,
    decreases frames,
{
    if frames == 1 {
        assert(ticks_spec(rate, second, 0) == rate);
    } else {
        lemma_text_reports_last_second(rate, second, (frames - 1) as nat, next);
    }
    assert(ticks_spec(rate, second, frames).last_sec == second);
}

} // verus!
