use quirc::params::{DEFAULT_HEIGHT, DEFAULT_WIDTH};
use quirc::{choose_device, IntError, InvalidInput, ParseError, RunParms};

#[test]
fn no_options_give_the_defaults() {
    let parms = RunParms::from_options("", "", false, false).unwrap();
    assert_eq!(parms.device, "/dev/video0");
    assert_eq!((parms.width, parms.height), (640, 480));
    assert_eq!((DEFAULT_WIDTH, DEFAULT_HEIGHT), (640, 480));
    assert!(!parms.verbose);
    assert!(!parms.show_frame_rate);
}

#[test]
fn options_replace_the_defaults() {
    let parms = RunParms::from_options("/dev/video2", "1280x720", true, true).unwrap();
    assert_eq!(parms.device, "/dev/video2");
    assert_eq!((parms.width, parms.height), (1280, 720));
    assert!(parms.verbose);
    assert!(parms.show_frame_rate);
}

#[test]
fn each_flag_is_taken_by_itself() {
    let parms = RunParms::from_options("", "", true, false).unwrap();
    assert!(parms.verbose && !parms.show_frame_rate);
    let parms = RunParms::from_options("", "", false, true).unwrap();
    assert!(!parms.verbose && parms.show_frame_rate);
}

#[test]
fn a_bad_size_is_the_error_of_the_options() {
    let cases = [
        ("0x480", ParseError::Io(InvalidInput::OutOfRange)),
        ("640x10000", ParseError::Io(InvalidInput::OutOfRange)),
        ("640", ParseError::Io(InvalidInput::ExpectedSize)),
        ("abcxdef", ParseError::Parse(IntError::InvalidDigit)),
        ("640x", ParseError::Parse(IntError::Empty)),
        ("99999999999x1", ParseError::Parse(IntError::PosOverflow)),
    ];
    for (size, error) in cases {
        assert_eq!(RunParms::from_options("/dev/video1", size, true, true).unwrap_err(), error);
    }
}

#[test]
fn the_device_is_the_one_asked_for_or_the_default() {
    assert_eq!(choose_device(""), "/dev/video0");
    assert_eq!(choose_device("/dev/video7"), "/dev/video7");
    assert_eq!(choose_device(" "), " ");
}

#[test]
fn a_quiet_run_prints_no_banner() {
    let parms = RunParms::from_options("", "", false, true).unwrap();
    assert!(parms.banner().is_empty());
}

#[test]
fn a_verbose_run_prints_device_and_size() {
    let parms = RunParms::from_options("", "", true, false).unwrap();
    assert_eq!(parms.banner(), vec!["Camera Device: /dev/video0", "Video Size:    640x480"]);
    let parms = RunParms::from_options("/dev/cam", "9999x1", true, false).unwrap();
    assert_eq!(parms.banner(), vec!["Camera Device: /dev/cam", "Video Size:    9999x1"]);
}
