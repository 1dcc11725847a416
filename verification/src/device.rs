//! Telling the device's port from the others.

use vstd::prelude::*;

verus! {

/// The name under which the device announces its ports.
pub const MIDI_DEVICE_NAME: &'static str = "X-TOUCH MINI";

/// Whether a port is the device's: it has a name, and the name is the
/// device's.
pub open spec fn is_device_port(name: Option<String>) -> bool {
    name matches Some(name) && name@ == MIDI_DEVICE_NAME@
}

/// The first of the ports, given by name in the order in which the system
/// lists them, that is the device's. A port whose name could not be read
/// is `None` and is never chosen.
pub fn find_device_port(names: &[Option<String>]) -> (found: Option<usize>)
    ensures
        match found {
            Some(index) => {
                &&& index < names@.len()
                &&& is_device_port(names@[index as int])
                &&& forall|earlier: int| 0 <= earlier < index ==> !is_device_port(names@[earlier])
            },
            None => forall|index: int| 0 <= index < names@.len() ==> !is_device_port(names@[index]),
        },
{
    let wanted = MIDI_DEVICE_NAME.to_owned();
    let mut index: usize = 0;
    while index < names.len()
        invariant
            index <= names@.len(),
            wanted@ == MIDI_DEVICE_NAME@,
            forall|earlier: int| 0 <= earlier < index ==> !is_device_port(names@[earlier]),
        decreases names@.len() - index,
    {
        match &names[index] {
            Some(name) => {
                if *name == wanted {
                    return Some(index);
                }
            },
            None => {},
        }
        index += 1;
    }
    None
}

} // verus!
