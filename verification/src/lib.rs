//! The decisions of a camera-to-screen QR code reader: what the command line asks for,
//! what is drawn over each frame, how the frame rate is counted, and when the loop ends.
//! Capturing, decoding and drawing belong to the program around this library.

pub mod code;
pub mod decoder;
pub mod overlay;
pub mod params;
pub mod rate;
pub mod run_loop;
pub mod scanner;
pub mod size;
pub mod text;

pub use code::{Code, Data, DecodeError, DecodeFailure, Detected, QuircCode, QuircData, QuircPoint};
pub use decoder::{FrameTooBig, MjpegDecoder};
pub use overlay::{draw_qr, fat_text, fat_text_centered, overlay_of, FatText, Line, Overlay, Stroke};
pub use params::{choose_device, RunParms};
pub use rate::FrameRate;
pub use run_loop::{Event, Frame, Key, Poll, RunLoop};
pub use scanner::{Quirc, ResizeFailed};
pub use size::{parse_size, IntError, InvalidInput, ParseError};
