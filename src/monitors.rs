//! Monitors, the enumeration records they are built from, and the
//! correlation of device identities with physical handles.

use vstd::prelude::*;

verus! {

/// A physical monitor with its ordinal and display name. `handle` is the
/// value of the OS handle through which its DDC/CI features are reached.
pub struct Monitor {
    id: i32,
    name: String,
    handle: usize,
}

impl Monitor {
    pub closed spec fn id_spec(&self) -> i32 {
        self.id
    }

    pub closed spec fn name_spec(&self) -> Seq<char> {
        self.name@
    }

    pub closed spec fn handle_spec(&self) -> usize {
        self.handle
    }

    pub fn new(id: i32, name: String, handle: usize) -> (m: Monitor)
        ensures
            m.id_spec() == id,
            m.name_spec() == name@,
            m.handle_spec() == handle,
    {
        Monitor { id, name, handle }
    }

    pub fn id(&self) -> (r: i32)
        ensures
            r == self.id_spec(),
    {
        self.id
    }

    pub fn name(&self) -> (r: &str)
        ensures
            r@ == self.name_spec(),
    {
        self.name.as_str()
    }

    pub fn handle(&self) -> (r: usize)
        ensures
            r == self.handle_spec(),
    {
        self.handle
    }
}

/// An active display target as the display configuration reports it.
pub struct DisplayDevice {
    pub friendly_name: String,
    /// The adapter-level device name, e.g. `\\.\DISPLAY1\Monitor0`.
    pub device_name: String,
}

/// One physical handle of a logical monitor region.
pub struct DisplayMonitor {
    /// The region's device name, e.g. `\\.\DISPLAY1`.
    pub device_name: String,
    pub handle: usize,
}

/// Whether the display monitor's name is a prefix of the device name.
pub open spec fn names_match(monitor: DisplayMonitor, device_name: Seq<char>) -> bool {
    monitor.device_name@.is_prefix_of(device_name)
}

/// Whether `i` is the first display monitor whose name prefixes `device_name`.
pub open spec fn is_first_match(
    monitors: Seq<DisplayMonitor>,
    device_name: Seq<char>,
    i: int,
) -> bool {
    &&& 0 <= i < monitors.len()
    &&& names_match(monitors[i], device_name)
    &&& forall|j: int| 0 <= j < i ==> !names_match(#[trigger] monitors[j], device_name)
}

/// Whether some display monitor's name prefixes `device_name`.
pub open spec fn has_match(monitors: Seq<DisplayMonitor>, device_name: Seq<char>) -> bool {
    exists|i: int| 0 <= i < monitors.len() && names_match(#[trigger] monitors[i], device_name)
}

/// Whether `m` is the monitor correlated from the `k`-th device: ordinal
/// `k + 1`, the device's friendly name, and the handle of the first display
/// monitor that matches the device.
pub open spec fn correlated(
    m: Monitor,
    k: int,
    device: DisplayDevice,
    monitors: Seq<DisplayMonitor>,
) -> bool {
    &&& m.id_spec() == k + 1
    &&& m.name_spec() == device.friendly_name@
    &&& exists|i: int|
        is_first_match(monitors, device.device_name@, i) && m.handle_spec()
            == #[trigger] monitors[i].handle
}

/// Relies on `str::starts_with`: whether `prefix` is a prefix of `s`.
#[verifier::external_body]
fn starts_with(s: &str, prefix: &str) -> (r: bool)
    ensures
        r == prefix@.is_prefix_of(s@),
{
    s.starts_with(prefix)
}

/// The index of the first display monitor whose name is a prefix of
/// `device_name`, if any.
pub fn find_display_monitor(device_name: &str, monitors: &Vec<DisplayMonitor>) -> (r: Option<
    usize,
>)
    ensures
        r is None <==> !has_match(monitors@, device_name@),
        r matches Some(i) ==> is_first_match(monitors@, device_name@, i as int),
{
    let mut i: usize = 0;
    while i < monitors.len()
        invariant
            i <= monitors@.len(),
            forall|j: int| 0 <= j < i ==> !names_match(#[trigger] monitors@[j], device_name@),
        decreases monitors@.len() - i,
    {
        if starts_with(device_name, monitors[i].device_name.as_str()) {
            return Some(i);
        }
        i = i + 1;
    }
    None
}

/// Correlates identities with handles: for each device, in order, the first
/// display monitor whose name prefixes the device's name gives its handle,
/// and the devices are numbered from 1. `None` when some device matches no
/// display monitor, which means the two enumerations disagree.
pub fn get_monitors(devices: &Vec<DisplayDevice>, display_monitors: &Vec<DisplayMonitor>) -> (r:
    Option<Vec<Monitor>>)
    requires
        devices@.len() <= i32::MAX,
    ensures
        r is Some <==> forall|k: int|
            0 <= k < devices@.len() ==> has_match(
                display_monitors@,
                #[trigger] devices@[k].device_name@,
            ),
        r matches Some(ms) ==> {
            &&& ms@.len() == devices@.len()
            &&& forall|k: int|
                0 <= k < ms@.len() ==> correlated(
                    #[trigger] ms@[k],
                    k,
                    devices@[k],
                    display_monitors@,
                )
        },
{
    let mut monitors: Vec<Monitor> = Vec::new();
    let mut k: usize = 0;
    while k < devices.len()
        invariant
            k <= devices@.len() <= i32::MAX,
            monitors@.len() == k,
            forall|j: int|
                0 <= j < k ==> has_match(display_monitors@, #[trigger] devices@[j].device_name@),
            forall|j: int|
                0 <= j < k ==> correlated(
                    #[trigger] monitors@[j],
                    j,
                    devices@[j],
                    display_monitors@,
                ),
        decreases devices@.len() - k,
    {
        let device = &devices[k];
        match find_display_monitor(device.device_name.as_str(), display_monitors) {
            Some(i) => {
                let m = Monitor::new(
                    (k + 1) as i32,
                    device.friendly_name.clone(),
                    display_monitors[i].handle,
                );
                monitors.push(m);
            },
            None => {
                return None;
            },
        }
        k = k + 1;
    }
    Some(monitors)
}

} // verus!
