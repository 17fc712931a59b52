//! Playback devices: choosing one by name, listing them, describing one.
use vstd::prelude::*;
use vstd::string::*;

use crate::error::OperationError;
use crate::response::Response;
use crate::text::{copy_string, push_line};

verus! {

/// A device that can play, as the service reports it.
#[derive(Clone, Debug, PartialEq, Eq)]
pub struct Device {
    /// Absent for some classes of device.
    pub id: Option<String>,
    pub name: String,
    /// The kind of device, as the service names it.
    pub device_type: String,
    pub is_active: bool,
    pub volume_percent: Option<u32>,
}

/// The id text of a device, or "None" when it has none.
pub open spec fn id_text(id: Option<String>) -> Seq<char> {
    match id {
        Some(s) => s@,
        None => "None"@,
    }
}

/// Index of the first device at or after `from` named exactly `name`, or
/// `devices.len()` if there is none.
pub open spec fn first_named(devices: Seq<Device>, name: Seq<char>, from: int) -> int
    decreases devices.len() - from,
{
    if from < 0 || from >= devices.len() {
        devices.len() as int
    } else if devices[from].name@ == name {
        from
    } else {
        first_named(devices, name, from + 1)
    }
}

proof fn lemma_first_named_bounds(devices: Seq<Device>, name: Seq<char>, from: int)
    requires
        0 <= from <= devices.len(),
    ensures
        from <= first_named(devices, name, from) <= devices.len(),
    decreases devices.len() - from,
{
    if from < devices.len() && devices[from].name@ != name {
        lemma_first_named_bounds(devices, name, from + 1);
    }
}

/// Which device a request names: the first one with exactly that name, or,
/// when no name is given, the first device listed. Index into `devices`.
pub open spec fn chosen_device(devices: Seq<Device>, name: Option<Seq<char>>) -> Result<
    int,
    OperationError,
> {
    match name {
        None => if devices.len() == 0 {
            Err(OperationError::NoDevicesFound)
        } else {
            Ok(0)
        },
        Some(n) => {
            let i = first_named(devices, n, 0);
            if i < devices.len() {
                Ok(i)
            } else {
                Err(OperationError::DeviceNotFound)
            }
        },
    }
}

/// Picks a device from the list the service gave: the first whose name is
/// exactly `name`, or the first of all when no name is given. Fails with
/// `DeviceNotFound` when no device has that name, and with `NoDevicesFound`
/// when no name is given and the list is empty.
pub fn device_get(devices: Vec<Device>, name: Option<String>) -> (r: Result<Device, OperationError>)
    ensures
        match chosen_device(
            devices@,
            match name {
                Some(n) => Some(n@),
                None => None,
            },
        ) {
            Ok(i) => r == Ok::<Device, OperationError>(devices@[i]),
            Err(e) => r == Err::<Device, OperationError>(e),
        },
{
    let ghost all = devices@;
    let mut list = devices;
    match name {
        None => if list.len() == 0 {
            Err(OperationError::NoDevicesFound)
        } else {
            Ok(list.swap_remove(0))
        },
        Some(target) => {
            let mut i: usize = 0;
            proof {
                lemma_first_named_bounds(all, target@, 0);
            }
            while i < list.len()
                invariant
                    list@ == all,
                    all == devices@,
                    name == Some(target),
                    i <= list.len(),
                    first_named(all, target@, i as int) == first_named(all, target@, 0),
                decreases list.len() - i,
            {
                if list[i].name == target {
                    assert(first_named(all, target@, i as int) == i as int);
                    let d = list.swap_remove(i);
                    assert(d == all[i as int]);

                    return Ok(d);
                }
                i += 1;
            }
            Err(OperationError::DeviceNotFound)
        },
    }
}

/// The line that lists one device: its type, its name and its id.
pub open spec fn device_line(d: Device) -> Seq<char> {
    d.device_type@ + " "@ + d.name@ + " \u{2014} "@ + id_text(d.id)
}

fn id_string(id: &Option<String>) -> (r: String)
    ensures
        r@ == id_text(*id),
{
    match id {
        Some(s) => copy_string(s),
        None => String::from_str("None"),
    }
}

/// Lists the devices, one line each, in the order given.
pub fn device_list(devices: &Vec<Device>) -> (r: Response)
    ensures
        r@ == (Seq::new(devices@.len(), |i: int| device_line(devices@[i])), true),
{
    let mut lines: Vec<String> = Vec::new();
    let mut i: usize = 0;
    proof {
        reveal_strlit(" ");
        reveal_strlit(" \u{2014} ");
    }
    while i < devices.len()
        invariant
            i <= devices.len(),
            lines.deep_view() =~= Seq::new(i as nat, |j: int| device_line(devices@[j])),
        decreases devices.len() - i,
    {
        let d = &devices[i];
        let mut line = copy_string(&d.device_type);
        line.append(" ");
        line.append(d.name.as_str());
        line.append(" \u{2014} ");
        line.append(id_string(&d.id).as_str());
        push_line(&mut lines, line);
        i += 1;
    }
    Response::from_lines(lines, true)
}

/// What is said of the device in use: its name, id, whether it is active,
/// and its type.
pub open spec fn device_status_lines(d: Device) -> Seq<Seq<char>> {
    seq![
        "Device: "@ + d.name@,
        "Id: "@ + id_text(d.id),
        "Active: "@ + if d.is_active {
            "true"@
        } else {
            "false"@
        },
        "Type: "@ + d.device_type@,
    ]
}

/// Describes the device in use; fails with `NoActivePlayback` when there is
/// no playback session and so no device in use.
pub fn device_status(device: Option<Device>) -> (r: Result<Response, OperationError>)
    ensures
        match device {
            None => r == Err::<Response, OperationError>(OperationError::NoActivePlayback),
            Some(d) => r matches Ok(resp) && resp@ == (device_status_lines(d), true),
        },
{
    match device {
        None => Err(OperationError::NoActivePlayback),
        Some(d) => {
            let mut lines: Vec<String> = Vec::new();
            let mut l1 = String::from_str("Device: ");
            l1.append(d.name.as_str());
            push_line(&mut lines, l1);
            let mut l2 = String::from_str("Id: ");
            l2.append(id_string(&d.id).as_str());
            push_line(&mut lines, l2);
            let mut l3 = String::from_str("Active: ");
            l3.append(if d.is_active {
                "true"
            } else {
                "false"
            });
            push_line(&mut lines, l3);
            let mut l4 = String::from_str("Type: ");
            l4.append(d.device_type.as_str());
            push_line(&mut lines, l4);
            assert(lines.deep_view() =~= device_status_lines(d));
            Ok(Response::from_lines(lines, true))
        },
    }
}

/// The device to connect to, as its id and name; fails as `device_get` does,
/// and with `MissingDeviceId` when the chosen device has no id.
pub fn connect_target(devices: Vec<Device>, name: Option<String>) -> (r: Result<(String, String), OperationError>)
    ensures
        match chosen_device(
            devices@,
            match name {
                Some(n) => Some(n@),
                None => None,
            },
        ) {
            Ok(i) => match devices@[i].id {
                Some(id) => r matches Ok(p) && p.0@ == id@ && p.1@ == devices@[i].name@,
                None => r == Err::<(String, String), OperationError>(
                    OperationError::MissingDeviceId,
                ),
            },
            Err(e) => r == Err::<(String, String), OperationError>(e),
        },
{
    match device_get(devices, name) {
        Err(e) => Err(e),
        Ok(d) => match d.id {
            Some(id) => Ok((id, d.name)),
            None => Err(OperationError::MissingDeviceId),
        },
    }
}

/// The acknowledgement of a transfer of playback.
pub fn connected(name: &str) -> (r: Response)
    ensures
        r@ == (seq!["Connected to "@ + name@], false),
{
    let mut line = String::from_str("Connected to ");
    line.append(name);
    Response::single(line, false)
}

} // verus!

verus! {

proof fn lemma_first_named_absent(devices: Seq<Device>, name: Seq<char>, from: int)
    requires
        0 <= from <= devices.len(),
        forall|i: int| 0 <= i < devices.len() ==> devices[i].name@ != name,
    ensures
        first_named(devices, name, from) == devices.len(),
    decreases devices.len() - from,
{
    if from < devices.len() {
        lemma_first_named_absent(devices, name, from + 1);
    }
}

/// Asking for the first device when there is none fails with
/// `NoDevicesFound`; asking for a name that no device has fails with
/// `DeviceNotFound`.
pub proof fn lemma_device_choice_failures(devices: Seq<Device>, name: Seq<char>)
    ensures
        devices.len() == 0 ==> chosen_device(devices, None) == Err::<int, OperationError>(
            OperationError::NoDevicesFound,
        ),
        (forall|i: int| 0 <= i < devices.len() ==> devices[i].name@ != name) ==> chosen_device(
            devices,
            Some(name),
        ) == Err::<int, OperationError>(OperationError::DeviceNotFound),
{
    if forall|i: int| 0 <= i < devices.len() ==> devices[i].name@ != name {
        lemma_first_named_absent(devices, name, 0);
    }
}

} // verus!
