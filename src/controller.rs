//! Tracking of the lights that the engine itself turned on.

use vstd::prelude::*;
use crate::device::DeviceInfo;
use crate::strategies::DeviceSelector;

verus! {

/// The serial numbers of the devices in `devices` that `selector` admits and
/// that are off, in order.
pub open spec fn serials_to_turn_on<S: DeviceSelector>(
    selector: S,
    devices: Seq<DeviceInfo>,
) -> Seq<Seq<char>>
    decreases devices.len(),
{
    if devices.len() == 0 {
        Seq::empty()
    } else {
        let rest = serials_to_turn_on(selector, devices.drop_last());
        let d = devices.last();
        if selector.controls(d) && !d.is_on {
            rest.push(d.serial_number@)
        } else {
            rest
        }
    }
}

/// The set of controlled devices after `serial` was turned on.
pub open spec fn with_controlled(controlled: Seq<Seq<char>>, serial: Seq<char>) -> Seq<Seq<char>> {
    if controlled.contains(serial) {
        controlled
    } else {
        controlled.push(serial)
    }
}

/// The views of a list of strings.
pub open spec fn string_views(v: Seq<String>) -> Seq<Seq<char>> {
    v.map_values(|s: String| s@)
}

/// The serial numbers of the devices this engine turned on, each once.
#[derive(Debug)]
pub struct DeviceController {
    controlled: Vec<String>,
}

impl View for DeviceController {
    type V = Seq<Seq<char>>;

    closed spec fn view(&self) -> Seq<Seq<char>> {
        string_views(self.controlled@)
    }
}

impl DeviceController {
    /// A controller that controls no device.
    pub fn new() -> (r: DeviceController)
        ensures
            r@ == Seq::<Seq<char>>::empty(),
    {
        DeviceController { controlled: Vec::new() }
    }

    /// The serial numbers of the controlled devices.
    pub fn controlled_devices(&self) -> (r: Vec<String>)
        ensures
            string_views(r@) == self@,
    {
        let mut r: Vec<String> = Vec::new();
        let mut i: usize = 0;
        while i < self.controlled.len()
            invariant
                0 <= i <= self.controlled@.len(),
                r@.len() == i,
                forall|j: int| 0 <= j < i ==> r@[j]@ == self.controlled@[j]@,
            decreases self.controlled@.len() - i,
        {
            let s = self.controlled[i].clone();
            r.push(s);
            i = i + 1;
        }
        assert(string_views(r@) =~= string_views(self.controlled@));
        r
    }

    /// Whether `serial` is controlled.
    pub fn is_controlled(&self, serial: &String) -> (r: bool)
        ensures
            r == self@.contains(serial@),
    {
        let mut i: usize = 0;
        while i < self.controlled.len()
            invariant
                0 <= i <= self.controlled@.len(),
                forall|j: int| 0 <= j < i ==> self.controlled@[j]@ != serial@,
            decreases self.controlled@.len() - i,
        {
            if self.controlled[i] == *serial {
                assert(self@[i as int] == serial@);
                return true;
            }
            i = i + 1;
        }
        assert(!self@.contains(serial@)) by {
            if self@.contains(serial@) {
                let k = choose|k: int| 0 <= k < self@.len() && self@[k] == serial@;
                assert(self.controlled@[k]@ == serial@);
            }
        }
        false
    }

    /// The serial numbers of the devices in `devices` that should be turned
    /// on: those that `selector` admits and that are off, in order.
    pub fn devices_to_turn_on<S: DeviceSelector>(selector: &S, devices: &Vec<DeviceInfo>) -> (r:
        Vec<String>)
        ensures
            string_views(r@) == serials_to_turn_on(*selector, devices@),
    {
        let mut r: Vec<String> = Vec::new();
        let mut i: usize = 0;
        while i < devices.len()
            invariant
                0 <= i <= devices@.len(),
                string_views(r@) == serials_to_turn_on(*selector, devices@.subrange(0, i as int)),
            decreases devices@.len() - i,
        {
            proof {
                let s = devices@.subrange(0, i as int + 1);
                assert(s.drop_last() =~= devices@.subrange(0, i as int));
            }
            let device = &devices[i];
            if selector.should_control_device(device) && !device.is_on {
                r.push(device.serial_number.clone());
                proof {
                    assert(string_views(r@) =~= serials_to_turn_on(
                        *selector,
                        devices@.subrange(0, i as int + 1),
                    ));
                }
            }
            i = i + 1;
        }
        assert(devices@.subrange(0, devices@.len() as int) =~= devices@);
        r
    }

    /// Records that `serial` was turned on by this engine.
    pub fn record_turned_on(&mut self, serial: String)
        ensures
            final(self)@ == with_controlled(old(self)@, serial@),
    {
        if !self.is_controlled(&serial) {
            self.controlled.push(serial);
            proof {
                assert(string_views(self.controlled@) =~= old(self)@.push(serial@));
            }
        }
    }

    /// Forgets every controlled device and returns their serial numbers, to
    /// be turned off. The set is empty afterwards whatever the outcome of
    /// those commands.
    pub fn deactivate_all(&mut self) -> (r: Vec<String>)
        ensures
            string_views(r@) == old(self)@,
            final(self)@ == Seq::<Seq<char>>::empty(),
    {
        let mut taken: Vec<String> = Vec::new();
        std::mem::swap(&mut taken, &mut self.controlled);
        proof {
            assert(string_views(self.controlled@) =~= Seq::<Seq<char>>::empty());
        }
        taken
    }
}

} // verus!
