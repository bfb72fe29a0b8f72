//! The computing half of monitor discovery: the OS walks hand over raw
//! UTF-16 records, and these functions turn them into the identity and
//! handle records that the correlator consumes.

use vstd::prelude::*;

use crate::monitors::{DisplayDevice, DisplayMonitor};
use crate::text::{utf16_nt_text, utf16_nt_to_string};

verus! {

/// A monitor record of the adapter walk: its device interface path and its
/// device name, each a null-terminated UTF-16 buffer.
pub struct DeviceEntry {
    pub device_id: Vec<u16>,
    pub device_name: Vec<u16>,
}

/// The name block of a display-configuration target mode: friendly name and
/// device path, each a null-terminated UTF-16 buffer.
pub struct TargetName {
    pub friendly_name: Vec<u16>,
    pub device_path: Vec<u16>,
}

/// The device name of the first entry whose device id equals `path`.
pub open spec fn lookup_device(map: Seq<DeviceEntry>, path: Seq<u16>) -> Option<Seq<u16>>
    decreases map.len(),
{
    if map.len() == 0 {
        None
    } else if map[0].device_id@ == path {
        Some(map[0].device_name@)
    } else {
        lookup_device(map.drop_first(), path)
    }
}

/// The (friendly name, device name) pairs that the targets resolve to, in
/// order; a target whose path is not in the map is left out.
pub open spec fn resolved_devices(map: Seq<DeviceEntry>, targets: Seq<TargetName>) -> Seq<
    (Seq<char>, Seq<char>),
>
    decreases targets.len(),
{
    if targets.len() == 0 {
        Seq::empty()
    } else {
        let prev = resolved_devices(map, targets.drop_last());
        match lookup_device(map, targets.last().device_path@) {
            Some(name) => prev.push((utf16_nt_text(targets.last().friendly_name@), utf16_nt_text(name))),
            None => prev,
        }
    }
}

/// The view of a display device as a (friendly name, device name) pair.
pub open spec fn device_pair(d: DisplayDevice) -> (Seq<char>, Seq<char>) {
    (d.friendly_name@, d.device_name@)
}

/// Whether two code-unit buffers are equal.
pub fn units_equal(a: &[u16], b: &[u16]) -> (r: bool)
    ensures
        r == (a@ == b@),
{
    if a.len() != b.len() {
        return false;
    }
    let mut i: usize = 0;
    while i < a.len()
        invariant
            i <= a@.len() == b@.len(),
            a@.take(i as int) == b@.take(i as int),
        decreases a@.len() - i,
    {
        if a[i] != b[i] {
            return false;
        }
        proof {
            assert(a@.take(i + 1) =~= a@.take(i as int).push(a@[i as int]));
            assert(b@.take(i + 1) =~= b@.take(i as int).push(b@[i as int]));
        }
        i = i + 1;
    }
    proof {
        assert(a@ =~= a@.take(i as int));
        assert(b@ =~= b@.take(i as int));
    }
    true
}

/// The index of the first map entry whose device id equals `path`.
pub fn find_device(map: &Vec<DeviceEntry>, path: &[u16]) -> (r: Option<usize>)
    ensures
        r is None <==> lookup_device(map@, path@) is None,
        r matches Some(i) ==> i < map@.len() && lookup_device(map@, path@) == Some(
            map@[i as int].device_name@,
        ),
{
    let mut i: usize = 0;
    proof {
        assert(map@.skip(0) =~= map@);
    }
    while i < map.len()
        invariant
            i <= map@.len(),
            lookup_device(map@, path@) == lookup_device(map@.skip(i as int), path@),
        decreases map@.len() - i,
    {
        proof {
            assert(map@.skip(i as int).drop_first() =~= map@.skip(i + 1));
        }
        if units_equal(map[i].device_id.as_slice(), path) {
            return Some(i);
        }
        i = i + 1;
    }
    None
}

/// Resolves each target's device path against the adapter walk's map and
/// pairs the target's friendly name with the adapter-level device name.
/// Targets whose path the map lacks are skipped.
pub fn get_display_devices(device_map: &Vec<DeviceEntry>, targets: &Vec<TargetName>) -> (r: Vec<
    DisplayDevice,
>)
    ensures
        r@.map_values(|d: DisplayDevice| device_pair(d)) == resolved_devices(device_map@, targets@),
{
    let mut devices: Vec<DisplayDevice> = Vec::new();
    let mut k: usize = 0;
    while k < targets.len()
        invariant
            k <= targets@.len(),
            devices@.map_values(|d: DisplayDevice| device_pair(d)) == resolved_devices(
                device_map@,
                targets@.take(k as int),
            ),
        decreases targets@.len() - k,
    {
        let target = &targets[k];
        proof {
            assert(targets@.take(k + 1).drop_last() =~= targets@.take(k as int));
            assert(targets@.take(k + 1).last() == targets@[k as int]);
        }
        match find_device(device_map, target.device_path.as_slice()) {
            Some(i) => {
                let d = DisplayDevice {
                    friendly_name: utf16_nt_to_string(target.friendly_name.as_slice()),
                    device_name: utf16_nt_to_string(device_map[i].device_name.as_slice()),
                };
                let ghost before = devices@;
                devices.push(d);
                proof {
                    assert(devices@.map_values(|d: DisplayDevice| device_pair(d)) =~= before.map_values(
                        |d: DisplayDevice| device_pair(d),
                    ).push(device_pair(d)));
                }
            },
            None => {},
        }
        k = k + 1;
    }
    proof {
        assert(targets@.take(k as int) =~= targets@);
    }
    devices
}

/// The records of one logical monitor region: one per physical handle, each
/// with the region's device name.
pub fn region_display_monitors(device_name: &[u16], handles: &Vec<usize>) -> (r: Vec<
    DisplayMonitor,
>)
    ensures
        r@.len() == handles@.len(),
        forall|k: int|
            0 <= k < r@.len() ==> (#[trigger] r@[k]).handle == handles@[k] && r@[k].device_name@
                == utf16_nt_text(device_name@),
{
    let name = utf16_nt_to_string(device_name);
    let mut monitors: Vec<DisplayMonitor> = Vec::new();
    let mut k: usize = 0;
    while k < handles.len()
        invariant
            k <= handles@.len(),
            name@ == utf16_nt_text(device_name@),
            monitors@.len() == k,
            forall|j: int|
                0 <= j < k ==> (#[trigger] monitors@[j]).handle == handles@[j]
                    && monitors@[j].device_name@ == name@,
        decreases handles@.len() - k,
    {
        monitors.push(DisplayMonitor { device_name: name.clone(), handle: handles[k] });
        k = k + 1;
    }
    monitors
}

} // verus!
