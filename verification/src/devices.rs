//! Which devices a start request selects.
//!
//! The host lists the names of the input and output devices; this module
//! finds the requested names among them. A session needs an input and an
//! output device; the monitor device is optional.

use crate::text::is_first_position;
use crate::text::lists;
use crate::text::position_of;
use crate::text::str_equal;
use vstd::prelude::*;
use vstd::string::*;

verus! {

/// Sample frames that every stream asks its device to deliver per callback.
pub const STREAM_BUFFER_FRAMES: u32 = 480;

/// The devices of a session, by their positions in the host's lists.
#[derive(Debug, Clone, Copy, PartialEq, Eq, Structural)]
pub struct DeviceSelection {
    /// Position among the input devices.
    pub input: usize,
    /// Position among the output devices.
    pub output: usize,
    /// Position of the monitor among the output devices.
    pub monitor: Option<usize>,
}

/// Format of one stream.
#[derive(Debug, Clone, Copy, PartialEq, Eq, Structural)]
pub struct StreamSettings {
    pub channels: u16,
    pub sample_rate: u32,
    pub buffer_frames: u32,
}

/// Whether a monitor device is asked for: a name is given and it is not the
/// word `None`.
pub open spec fn wants_monitor(monitor_name: Option<&str>) -> bool {
    monitor_name is Some && monitor_name->0@ != "None"@
}

/// Selects the devices of a session. There is a selection exactly when an
/// input and an output name are given, both are found, and the monitor, if
/// one is asked for, is found among the output devices. Each device is the
/// first of its name.
pub fn resolve_devices(
    inputs: &Vec<String>,
    outputs: &Vec<String>,
    input_name: Option<&str>,
    output_name: Option<&str>,
    monitor_name: Option<&str>,
) -> (r: Option<DeviceSelection>)
    ensures
        r is Some <==> {
            &&& input_name is Some
            &&& output_name is Some
            &&& lists(inputs@, input_name->0@)
            &&& lists(outputs@, output_name->0@)
            &&& wants_monitor(monitor_name) ==> lists(outputs@, monitor_name->0@)
        },
        r is Some ==> {
            &&& is_first_position(inputs@, input_name->0@, r->0.input as int)
            &&& is_first_position(outputs@, output_name->0@, r->0.output as int)
            &&& r->0.monitor is Some <==> wants_monitor(monitor_name)
            &&& r->0.monitor is Some ==> is_first_position(
                outputs@,
                monitor_name->0@,
                r->0.monitor->0 as int,
            )
        },
{
    let input_name = match input_name {
        Some(name) => name,
        None => return None,
    };
    let output_name = match output_name {
        Some(name) => name,
        None => return None,
    };
    let input = match position_of(inputs, input_name) {
        Some(i) => i,
        None => return None,
    };
    let output = match position_of(outputs, output_name) {
        Some(i) => i,
        None => return None,
    };
    let monitor = match monitor_name {
        None => None,
        Some(name) => {
            if str_equal(name, "None") {
                None
            } else {
                match position_of(outputs, name) {
                    Some(i) => Some(i),
                    None => return None,
                }
            }
        },
    };
    Some(DeviceSelection { input, output, monitor })
}

/// The format that a session asks of a device whose native format has
/// `channels` channels at `sample_rate`.
pub fn stream_settings(channels: u16, sample_rate: u32) -> (s: StreamSettings)
    ensures
        s == (StreamSettings { channels, sample_rate, buffer_frames: STREAM_BUFFER_FRAMES }),
{
    StreamSettings { channels, sample_rate, buffer_frames: STREAM_BUFFER_FRAMES }
}

} // verus!
