//! The audio device list shown to the user.
use vstd::prelude::*;
use crate::text::str_equals;

verus! {

/// Whether a device records or plays audio.
#[derive(Clone, Copy, Debug, PartialEq, Eq, Structural)]
pub enum AudioDeviceType {
    Output,
    Input,
}

/// One entry of the device list.
pub struct AudioDevice {
    pub kind: AudioDeviceType,
    pub name: String,
    pub default: bool,
}

/// What the audio host reports of one device: its name, and whether it has any
/// input configuration.
pub struct DeviceInfo {
    pub name: String,
    pub has_input_configs: bool,
}

/// The name of a default device; empty when there is none.
pub fn default_device_name(name: Option<String>) -> (s: String)
    ensures
        match name {
            Some(n) => s@ == n@,
            None => s@ == Seq::<char>::empty(),
        },
{
    match name {
        Some(n) => n,
        None => String::new(),
    }
}

/// The list entry of a device: an input device when it has input configurations,
/// otherwise an output device; marked default when its name is the default input's
/// or the default output's.
pub fn describe_device(device: DeviceInfo, default_in: &str, default_out: &str) -> (d: AudioDevice)
    ensures
        d.kind == (if device.has_input_configs { AudioDeviceType::Input } else { AudioDeviceType::Output }),
        d.name@ == device.name@,
        d.default == (device.name@ == default_in@ || device.name@ == default_out@),
{
    let is_default_device = if str_equals(default_in, device.name.as_str()) {
        true
    } else if str_equals(default_out, device.name.as_str()) {
        true
    } else {
        false
    };
    let kind = if device.has_input_configs { AudioDeviceType::Input } else { AudioDeviceType::Output };
    AudioDevice { kind, name: device.name, default: is_default_device }
}

/// The device list: every device the host reports, in order, described against the
/// default input and output names (empty when a default is missing).
pub fn enumerate(devices: Vec<DeviceInfo>, default_in: Option<String>, default_out: Option<String>) -> (list: Vec<AudioDevice>)
    ensures
        list@.len() == devices@.len(),
        forall|i: int| 0 <= i < list@.len() ==> {
            let din = match default_in { Some(n) => n@, None => Seq::<char>::empty() };
            let dout = match default_out { Some(n) => n@, None => Seq::<char>::empty() };
            &&& (#[trigger] list@[i]).name@ == devices@[i].name@
            &&& list@[i].kind == (if devices@[i].has_input_configs { AudioDeviceType::Input } else { AudioDeviceType::Output })
            &&& list@[i].default == (devices@[i].name@ == din || devices@[i].name@ == dout)
        },
{
    let ghost input = devices@;
    let default_in_name = default_device_name(default_in);
    let default_out_name = default_device_name(default_out);
    let mut audio_devices: Vec<AudioDevice> = Vec::new();
    let mut rest = devices;
    let mut taken: Vec<DeviceInfo> = Vec::new();
    let mut i: usize = 0;
    let n = rest.len();
    while i < n
        invariant
            n == input.len(),
            i <= n,
            rest@ == input.skip(i as int),
            audio_devices@.len() == i,
            forall|k: int| 0 <= k < i ==> {
                &&& (#[trigger] audio_devices@[k]).name@ == input[k].name@
                &&& audio_devices@[k].kind == (if input[k].has_input_configs { AudioDeviceType::Input } else { AudioDeviceType::Output })
                &&& audio_devices@[k].default == (input[k].name@ == default_in_name@ || input[k].name@ == default_out_name@)
            },
        decreases n - i,
    {
        let device = rest.remove(0);
        assert(device == input[i as int]);
        audio_devices.push(describe_device(device, default_in_name.as_str(), default_out_name.as_str()));
        assert(rest@ == input.skip(i + 1));
        i = i + 1;
    }
    audio_devices
}

} // verus!
