use quirc::{
    DecodeError, DecodeFailure, Detected, Event, Key, Poll, QuircCode, QuircData, QuircPoint,
    RunLoop, RunParms, Stroke,
};

fn parms(verbose: bool, show_frame_rate: bool) -> RunParms {
    RunParms { device: "/dev/video0".to_string(), width: 640, height: 480, verbose, show_frame_rate }
}

fn symbol(left: i32, text: Option<&str>) -> Detected {
    let code = QuircCode {
        corners: [
            QuircPoint { x: left, y: 0 },
            QuircPoint { x: left + 20, y: 0 },
            QuircPoint { x: left + 20, y: 20 },
            QuircPoint { x: left, y: 20 },
        ],
        size: 25,
    };
    let decoded = match text {
        Some(t) => Ok(QuircData::new(2, 0, 0, 4, t.to_string()).unwrap()),
        None => Err(DecodeFailure { kind: DecodeError::DataEcc, message: "ECC failure".to_string() }),
    };
    Detected { code, decoded }
}

/// Feeds the events as a poll loop would, and says how many were polled.
fn drain(run: &mut RunLoop, events: &[Event]) -> usize {
    let mut polled = 0;
    for event in events {
        polled += 1;
        if run.on_event(*event) != Poll::More {
            break;
        }
    }
    polled
}

#[test]
fn a_new_loop_runs() {
    let run = RunLoop::new(&parms(false, false), 0);
    assert!(run.is_running());
    assert!(run.can_count());
}

#[test]
fn an_empty_queue_ends_the_polling() {
    let mut run = RunLoop::new(&parms(false, false), 0);
    assert_eq!(run.on_event(Event::Empty), Poll::Drained);
    assert!(run.is_running());
}

#[test]
fn other_events_are_ignored() {
    let mut run = RunLoop::new(&parms(false, false), 0);
    assert_eq!(run.on_event(Event::Other), Poll::More);
    assert_eq!(run.on_event(Event::Key(Key::Other)), Poll::More);
    assert!(run.is_running());
}

#[test]
fn closing_the_window_ends_the_run() {
    let mut run = RunLoop::new(&parms(false, false), 0);
    assert_eq!(run.on_event(Event::Quit), Poll::Quit);
    assert!(!run.is_running());
}

#[test]
fn the_escape_key_ends_the_run() {
    let mut run = RunLoop::new(&parms(false, false), 0);
    assert_eq!(run.on_event(Event::Key(Key::Escape)), Poll::Quit);
    assert!(!run.is_running());
}

#[test]
fn a_quit_anywhere_before_the_queue_is_empty_ends_the_run() {
    let noise = [Event::Other, Event::Key(Key::Other), Event::Other, Event::Other];
    for quit in [Event::Quit, Event::Key(Key::Escape)] {
        for at in 0..=noise.len() {
            let mut events: Vec<Event> = noise[..at].to_vec();
            events.push(quit);
            events.extend_from_slice(&noise[at..]);
            events.push(Event::Empty);
            let mut run = RunLoop::new(&parms(true, true), 0);
            assert_eq!(drain(&mut run, &events), at + 1);
            assert!(!run.is_running());
        }
    }
}

#[test]
fn a_quit_behind_an_empty_queue_is_not_reached() {
    let mut run = RunLoop::new(&parms(false, false), 0);
    let events = [Event::Other, Event::Empty, Event::Quit];
    assert_eq!(drain(&mut run, &events), 2);
    assert!(run.is_running());
}

#[test]
fn an_ended_loop_stays_ended() {
    let mut run = RunLoop::new(&parms(true, true), 5);
    run.end_frame(5);
    run.end_frame(6);
    assert_eq!(run.on_event(Event::Quit), Poll::Quit);
    for event in [Event::Empty, Event::Other, Event::Key(Key::Other), Event::Quit] {
        assert_eq!(run.on_event(event), Poll::Quit);
        assert!(!run.is_running());
    }
    let frame = run.render(&vec![symbol(0, Some("a")), symbol(40, None)]);
    assert!(frame.overlays.is_empty());
    assert!(frame.rate.is_none());
}

#[test]
fn an_ended_loop_counts_no_more_frames() {
    let mut ended = RunLoop::new(&parms(false, true), 5);
    let mut going = RunLoop::new(&parms(false, true), 5);
    for run in [&mut ended, &mut going] {
        run.end_frame(5);
        run.end_frame(5);
    }
    ended.on_event(Event::Key(Key::Escape));
    ended.end_frame(6);
    going.end_frame(6);
    assert_eq!(going.render(&Vec::new()).rate.unwrap().text, "Frame rate: 2 fps");
    assert!(ended.render(&Vec::new()).rate.is_none());
}

#[test]
fn render_draws_one_overlay_for_each_symbol() {
    let run = RunLoop::new(&parms(false, false), 0);
    let codes = vec![symbol(0, Some("one")), symbol(100, None), symbol(200, Some("three"))];
    let frame = run.render(&codes);
    assert_eq!(frame.overlays.len(), 3);
    assert!(frame.rate.is_none());
    assert_eq!(frame.overlays[0].report, "==> one (len 3)");
    assert_eq!(frame.overlays[1].report, "Error: ECC failure");
    assert_eq!(frame.overlays[2].report, "==> three (len 5)");
    assert!(frame.overlays[0].payload.is_some());
    assert!(frame.overlays[1].payload.is_none());
    assert!(frame.overlays[2].payload.is_some());
    assert!(frame.overlays.iter().all(|o| o.label.is_none()));
}

#[test]
fn render_labels_symbols_in_verbose_mode() {
    let run = RunLoop::new(&parms(true, false), 0);
    let frame = run.render(&vec![symbol(0, None)]);
    assert_eq!(frame.overlays[0].label.as_ref().unwrap().text, "Code size: 25 cells");
}

#[test]
fn render_puts_the_frame_rate_in_the_corner() {
    let mut run = RunLoop::new(&parms(false, true), 41);
    let first = run.render(&Vec::new()).rate.unwrap();
    assert_eq!(first.text, "");
    assert_eq!(first.strokes[8], Stroke { x: 5, y: 5, color: 0xff00_00ff });
    assert_eq!(first.strokes[0], Stroke { x: 4, y: 4, color: 0x0000_00ff });
    for _ in 0..15 {
        run.end_frame(41);
    }
    assert_eq!(run.render(&Vec::new()).rate.unwrap().text, "");
    run.end_frame(42);
    let shown = run.render(&vec![symbol(0, Some("x"))]);
    assert_eq!(shown.overlays.len(), 1);
    let rate = shown.rate.unwrap();
    assert_eq!(rate.text, "Frame rate: 15 fps");
    assert_eq!(rate.strokes.len(), 9);
    assert_eq!(rate.strokes[8], Stroke { x: 5, y: 5, color: 0xff00_00ff });
}

#[test]
fn no_frame_rate_is_counted_unless_it_is_displayed() {
    let mut run = RunLoop::new(&parms(true, false), 41);
    for second in [41, 41, 42, 43] {
        run.end_frame(second);
        assert!(run.can_count());
        assert!(run.render(&Vec::new()).rate.is_none());
    }
}

#[test]
fn events_do_not_touch_the_frame_rate() {
    let mut run = RunLoop::new(&parms(false, true), 1);
    run.end_frame(1);
    run.end_frame(2);
    for event in [Event::Other, Event::Key(Key::Other), Event::Empty] {
        run.on_event(event);
    }
    assert_eq!(run.render(&Vec::new()).rate.unwrap().text, "Frame rate: 1 fps");
}
