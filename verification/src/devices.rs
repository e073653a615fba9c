//! Read-only audio device listings.
//!
//! The platform shell enumerates device names and the current default
//! device's name; this module builds the listing the caller sees. A device
//! is flagged as default exactly when its name equals the platform's current
//! default device name — a best-effort comparison: when no default is known,
//! every flag degrades to `false`, never to an error.

use vstd::prelude::*;

verus! {

/// One enumerated audio device.
pub struct AudioDevice {
    pub id: String,
    pub name: String,
    pub is_default: bool,
}

/// All enumerated devices, inputs and outputs apart.
pub struct AudioDevices {
    pub input_devices: Vec<AudioDevice>,
    pub output_devices: Vec<AudioDevice>,
}

/// Whether a device name equals the known default device's name.
pub open spec fn spec_is_default(name: Seq<char>, default_name: Option<String>) -> bool {
    match default_name {
        Some(d) => d@ == name,
        None => false,
    }
}

/// A device listing built from enumerated names: one entry per name, in
/// order, whose identifier equals its name and whose default flag marks
/// exactly the names equal to the default device's.
pub open spec fn spec_marked_devices(
    devices: Seq<AudioDevice>,
    names: Seq<String>,
    default_name: Option<String>,
) -> bool {
    &&& devices.len() == names.len()
    &&& forall|i: int|
        0 <= i < names.len() ==> {
            &&& (#[trigger] devices[i]).id@ == names[i]@
            &&& devices[i].name@ == names[i]@
            &&& devices[i].is_default == spec_is_default(names[i]@, default_name)
        }
}

/// Builds the device entries for one direction of enumeration.
pub fn mark_devices(names: &Vec<String>, default_name: &Option<String>) -> (r: Vec<AudioDevice>)
    ensures
        spec_marked_devices(r@, names@, *default_name),
{
    let n = names.len();
    let mut out: Vec<AudioDevice> = Vec::new();
    let mut i: usize = 0;
    while i < n
        invariant
            i <= n,
            n == names@.len(),
            out@.len() == i,
            forall|k: int|
                0 <= k < i ==> {
                    &&& (#[trigger] out@[k]).id@ == names@[k]@
                    &&& out@[k].name@ == names@[k]@
                    &&& out@[k].is_default == spec_is_default(names@[k]@, *default_name)
                },
        decreases n - i,
    {
        let name = names[i].clone();
        let is_default = match default_name {
            Some(d) => *d == names[i],
            None => false,
        };
        out.push(AudioDevice { id: name.clone(), name, is_default });
        i += 1;
    }
    out
}

/// Builds the whole listing from both enumerations and the two known
/// defaults.
pub fn build_device_list(
    input_names: &Vec<String>,
    default_input: &Option<String>,
    output_names: &Vec<String>,
    default_output: &Option<String>,
) -> (r: AudioDevices)
    ensures
        spec_marked_devices(r.input_devices@, input_names@, *default_input),
        spec_marked_devices(r.output_devices@, output_names@, *default_output),
{
    AudioDevices {
        input_devices: mark_devices(input_names, default_input),
        output_devices: mark_devices(output_names, default_output),
    }
}

} // verus!
