//! The state of the capture loop: whether it still runs, what it draws over a frame,
//! and what an input event does to it.

use vstd::prelude::*;
use vstd::string::*;
use crate::code::Detected;
use crate::overlay::{draw_qr, fat_text, is_fat_text, is_overlay_of, FatText, Overlay, CORNER};
use crate::params::RunParms;
use crate::rate::{tick_spec, FrameRate, RateView};

verus! {

/// A key of the keyboard, as far as the loop tells keys apart.
#[derive(Debug, Clone, Copy, PartialEq, Eq, Structural)]
pub enum Key {
    /// The escape key.
    Escape,
    /// Any other key.
    Other,
}

/// What polling the input queue gave.
#[derive(Debug, Clone, Copy, PartialEq, Eq, Structural)]
pub enum Event {
    /// Nothing: the queue is empty.
    Empty,
    /// The window was closed.
    Quit,
    /// A key went down or up.
    Key(Key),
    /// Anything else.
    Other,
}

/// What the loop does after an event.
#[derive(Debug, Clone, Copy, PartialEq, Eq, Structural)]
pub enum Poll {
    /// The event is ignored: poll again.
    More,
    /// The queue is empty: go on with the next frame.
    Drained,
    /// The run is over.
    Quit,
}

/// What is drawn over one frame before it is shown.
#[derive(Debug)]
pub struct Frame {
    /// One overlay for each located symbol.
    pub overlays: Vec<Overlay>,
    /// The frame rate, where it is displayed.
    pub rate: Option<FatText>,
}

/// The loop as a plain value.
pub struct RunView {
    /// Whether the loop still runs.
    pub running: bool,
    /// Whether each symbol is labelled with its size.
    pub verbose: bool,
    /// The frame-rate counter, where the frame rate is displayed.
    pub rate: Option<RateView>,
}

/// The capture loop of one run.
#[derive(Debug)]
pub struct RunLoop {
    running: bool,
    verbose: bool,
    rate: Option<FrameRate>,
}

/// Whether `event` ends the run: the window was closed, or the escape key was used.
pub open spec fn is_quit(event: Event) -> bool {
    event == Event::Quit || event == Event::Key(Key::Escape)
}

/// The loop after `event`, and what it does next. A loop that has ended stays so.
pub open spec fn poll_spec(state: RunView, event: Event) -> (RunView, Poll) {
    if !state.running {
        (state, Poll::Quit)
    } else if is_quit(event) {
        (RunView { running: false, verbose: state.verbose, rate: state.rate }, Poll::Quit)
    } else if event == Event::Empty {
        (state, Poll::Drained)
    } else {
        (state, Poll::More)
    }
}

/// The loop after the events of `events` were polled in order, up to the first one
/// after which it does not poll again.
pub open spec fn drain_spec(state: RunView, events: Seq<Event>) -> RunView
    decreases events.len(),
{
    if events.len() == 0 {
        state
    } else if poll_spec(state, events[0]).1 == Poll::More {
        drain_spec(poll_spec(state, events[0]).0, events.skip(1))
    } else {
        poll_spec(state, events[0]).0
    }
}

/// The loop after a frame that ended when the clock showed the second `now`: where
/// the frame rate is displayed and the loop still runs, the frame is counted.
pub open spec fn end_frame_spec(state: RunView, now: int) -> RunView {
    match state.rate {
        Some(rate) if state.running => RunView {
            running: state.running,
            verbose: state.verbose,
            rate: Some(tick_spec(rate, now)),
        },
        _ => state,
    }
}

impl View for RunLoop {
    type V = RunView;

    closed spec fn view(&self) -> RunView {
        RunView {
            running: self.running,
            verbose: self.verbose,
            rate: match self.rate {
                Some(rate) => Some(rate@),
                None => None,
            },
        }
    }
}

impl RunLoop {
    /// A loop that runs, for a run with the parameters `parms` that starts in the
    /// second `now_sec`.
    pub fn new(parms: &RunParms, now_sec: i32) -> (run: RunLoop)
        ensures
            run@.running,
            run@.verbose == parms.verbose,
            run@.rate == if parms.show_frame_rate {
                Some(RateView { count: 0, last_sec: now_sec as int, text: Seq::<char>::empty() })
            } else {
                None
            },
    {
        let rate: Option<FrameRate> = if parms.show_frame_rate {
            Some(FrameRate::new(now_sec))
        } else {
            None
        };
        RunLoop { running: true, verbose: parms.verbose, rate }
    }

    /// Whether the loop still runs.
    pub fn is_running(&self) -> (running: bool)
        ensures
            running == self@.running,
    {
        self.running
    }

    /// Whether counting one more frame stays within what the counter holds.
    pub fn can_count(&self) -> (ok: bool)
        ensures
            ok == (self@.rate matches Some(rate) ==> rate.count < u64::MAX),
    {
        match &self.rate {
            Some(rate) => rate.count() < u64::MAX,
            None => true,
        }
    }

    /// What is drawn over a frame in which the symbols `codes` were located: the
    /// overlay of each symbol, in order, and then the frame rate in the corner of the
    /// screen where it is displayed. A loop that has ended draws nothing.
    pub fn render(&self, codes: &Vec<Detected>) -> (frame: Frame)
        ensures
            self@.running ==> {
                &&& frame.overlays@.len() == codes@.len()
                &&& forall|i: int|
                    0 <= i < codes@.len() ==> is_overlay_of(
                        #[trigger] frame.overlays@[i],
                        self@.verbose,
                        codes@[i],
                    )
                &&& match self@.rate {
                    Some(rate) => frame.rate matches Some(fat) && is_fat_text(
                        fat,
                        CORNER as int,
                        CORNER as int,
                        rate.text,
                    ),
                    None => frame.rate is None,
                }
            },
            !self@.running ==> frame.overlays@.len() == 0 && frame.rate is None,
    {
        if !self.running {
            return Frame { overlays: Vec::new(), rate: None };
        }
        let overlays = draw_qr(self.verbose, codes);
        let rate: Option<FatText> = match &self.rate {
            Some(rate) => Some(fat_text(CORNER, CORNER, rate.text())),
            None => None,
        };
        Frame { overlays, rate }
    }

    /// Takes one polled event. Closing the window or the escape key ends the run, an
    /// empty queue ends the polling for this frame, and anything else is ignored.
    pub fn on_event(&mut self, event: Event) -> (verdict: Poll)
        ensures
            final(self)@ == poll_spec(old(self)@, event).0,
            verdict == poll_spec(old(self)@, event).1,
    {
        if !self.running {
            return Poll::Quit;
        }
        match event {
            Event::Quit => {
                self.running = false;
                Poll::Quit
            },
            Event::Key(Key::Escape) => {
                self.running = false;
                Poll::Quit
            },
            Event::Empty => Poll::Drained,
            _ => Poll::More,
        }
    }

    /// Ends a frame at the second `now_sec` of the clock.
    pub fn end_frame(&mut self, now_sec: i32)
        requires
            old(self)@.running ==> (old(self)@.rate matches Some(rate) ==> rate.count < u64::MAX),
        ensures
            final(self)@ == end_frame_spec(old(self)@, now_sec as int),
    {
        if self.running {
            match &mut self.rate {
                Some(rate) => {
                    rate.tick(now_sec);
                },
                None => {},
            }
        }
    }
}

/// A loop that has ended stays ended whatever is polled, and nothing else of it
/// changes either.
pub proof fn lemma_ended_stays_ended(state: RunView, events: Seq<Event>, now: int)
    requires
        !state.running,
    ensures
        drain_spec(state, events) == state,
        end_frame_spec(state, now) == state,
{
}

/// Polling changes nothing of the loop but whether it runs.
pub proof fn lemma_drain_keeps_the_rest(state: RunView, events: Seq<Event>)
    ensures
        drain_spec(state, events).verbose == state.verbose,
        drain_spec(state, events).rate == state.rate,
        drain_spec(state, events).running ==> state.running,
    decreases events.len(),
{
    if events.len() > 0 && poll_spec(state, events[0]).1 == Poll::More {
        lemma_drain_keeps_the_rest(poll_spec(state, events[0]).0, events.skip(1));
    }
}

/// Whether the event at `i` ends the run and is reached: no poll before it found the
/// queue empty.
pub open spec fn quits_at(events: Seq<Event>, i: int) -> bool {
    &&& 0 <= i < events.len()
    &&& is_quit(events[i])
    &&& forall|j: int| 0 <= j < i ==> #[trigger] events[j] != Event::Empty
}

/// A running loop has ended after polling exactly when a closed window or an escape
/// key was polled before the queue was found empty.
pub proof fn lemma_quit_ends_the_loop(state: RunView, events: Seq<Event>)
    requires
        state.running,
    ensures
        !drain_spec(state, events).running <==> exists|i: int| quits_at(events, i),
    decreases events.len(),
{
    if events.len() == 0 {
    } else if is_quit(events[0]) {
        assert(quits_at(events, 0));
    } else if events[0] == Event::Empty {
        assert forall|i: int| !quits_at(events, i) by {
            if 0 < i < events.len() {
                assert(events[0] == Event::Empty);
            }
        }
    } else {
        let rest = events.skip(1);
        lemma_quit_ends_the_loop(state, rest);
        if !drain_spec(state, events).running {
            let i = choose|i: int| quits_at(rest, i);
            assert(is_quit(events[i + 1]));
            assert forall|j: int| 0 <= j < i + 1 implies #[trigger] events[j] != Event::Empty by {
                if j > 0 {
                    assert(rest[j - 1] == events[j]);
                }
            }
            assert(quits_at(events, i + 1));
        }
        if exists|i: int| quits_at(events, i) {
            let i = choose|i: int| quits_at(events, i);
            assert(i > 0);
            assert(is_quit(rest[i - 1]));
            assert forall|j: int| 0 <= j < i - 1 implies #[trigger] rest[j] != Event::Empty by {
                assert(rest[j] == events[j + 1]);
            }
            assert(quits_at(rest, i - 1));
        }
    }
}

} // verus!
