//! The parameters of one run, as the command line gives them.

use vstd::prelude::*;
use vstd::string::*;
use crate::size::{dimension_in_range, parse_size, parse_size_spec, ParseError};
use crate::text::{decimal, push_decimal};

verus! {

/// The width that is asked of the camera when no size is given.
pub const DEFAULT_WIDTH: u32 = 640;

/// The height that is asked of the camera when no size is given.
pub const DEFAULT_HEIGHT: u32 = 480;

/// The camera that is opened when no device is given.
pub open spec fn default_device() -> Seq<char> {
    "/dev/video0"@
}

/// What a run works with; it does not change while the run lasts.
#[derive(Debug)]
pub struct RunParms {
    pub device: String,
    pub width: u32,
    pub height: u32,
    pub verbose: bool,
    pub show_frame_rate: bool,
}

/// The device to open: the one that was asked for, or the default where none was.
pub open spec fn chosen_device(asked: Seq<char>) -> Seq<char> {
    if asked.len() == 0 {
        default_device()
    } else {
        asked
    }
}

/// The size to ask of the camera: the one that was asked for, if it is a valid
/// size, or the default where none was.
pub open spec fn chosen_size(asked: Seq<char>) -> Result<(u32, u32), ParseError> {
    if asked.len() == 0 {
        Ok((DEFAULT_WIDTH, DEFAULT_HEIGHT))
    } else {
        parse_size_spec(asked)
    }
}

/// The first line that a verbose run prints.
pub open spec fn device_line(device: Seq<char>) -> Seq<char> {
    "Camera Device: "@ + device
}

/// The second line that a verbose run prints.
pub open spec fn size_line(width: nat, height: nat) -> Seq<char> {
    "Video Size:    "@ + decimal(width) + "x"@ + decimal(height)
}

/// The device to open for the option `asked`, which is empty where the command line
/// names none.
pub fn choose_device(asked: &str) -> (device: String)
    ensures
        device@ == chosen_device(asked@),
{
    if asked.is_empty() {
        "/dev/video0".to_owned()
    } else {
        asked.to_owned()
    }
}

impl RunParms {
    /// Both dimensions are between 1 and 9999.
    pub open spec fn wf(&self) -> bool {
        dimension_in_range(self.width as int) && dimension_in_range(self.height as int)
    }

    /// The parameters for the options of a command line. An option that was not
    /// given is passed as the empty text and stands for its default; a size that
    /// was given and is not valid is the error.
    pub fn from_options(device: &str, size: &str, verbose: bool, show_frame_rate: bool) -> (r:
        Result<RunParms, ParseError>)
        ensures
            match chosen_size(size@) {
                Ok((width, height)) => {
                    &&& r matches Ok(parms)
                    &&& parms.device@ == chosen_device(device@)
                    &&& parms.width == width
                    &&& parms.height == height
                    &&& parms.verbose == verbose
                    &&& parms.show_frame_rate == show_frame_rate
                    &&& parms.wf()
                },
                Err(e) => r matches Err(got) && got == e,
            },
    {
        let (width, height) = if size.is_empty() {
            (DEFAULT_WIDTH, DEFAULT_HEIGHT)
        } else {
            match parse_size(size) {
                Ok(pair) => pair,
                Err(e) => {
                    return Err(e);
                },
            }
        };
        Ok(RunParms { device: choose_device(device), width, height, verbose, show_frame_rate })
    }

    /// What the run prints before it starts: nothing, or in verbose mode the device
    /// and the size.
    pub fn banner(&self) -> (lines: Vec<String>)
        ensures
            !self.verbose ==> lines@.len() == 0,
            self.verbose ==> {
                &&& lines@.len() == 2
                &&& lines@[0]@ == device_line(self.device@)
                &&& lines@[1]@ == size_line(self.width as nat, self.height as nat)
            },
    {
        let mut lines: Vec<String> = Vec::new();
        if self.verbose {
            let mut first: String = String::new();
            first.append("Camera Device: ");
            first.append(self.device.as_str());
            assert(first@ =~= device_line(self.device@));
            lines.push(first);
            let mut second: String = String::new();
            second.append("Video Size:    ");
            push_decimal(&mut second, self.width as u64);
            second.append("x");
            push_decimal(&mut second, self.height as u64);
            assert(second@ =~= size_line(self.width as nat, self.height as nat));
            lines.push(second);
        }
        lines
    }
}

} // verus!
