//! The input devices of the server and what their axes mean.

use vstd::prelude::*;
use crate::fixed::{UNIT, floor_div, floor_div_i128};

verus! {

/// What kind of tool a device is.
#[derive(Clone, Copy, Debug, PartialEq, Eq, Structural)]
pub enum DeviceKind {
    Mouse,
    Pen,
    Eraser,
    Touch,
}

/// The place of a device in the hierarchy of input devices.
#[derive(Clone, Copy, Debug, PartialEq, Eq, Structural)]
pub enum DeviceType {
    MasterPointer,
    MasterKeyboard,
    SlavePointer,
    SlaveKeyboard,
    FloatingSlave,
}

/// An axis of a device: its number among the axes of the device, and its
/// calibrated range in the fixed-point units of the axis.
#[derive(Clone, Copy, Debug, PartialEq, Eq, Structural)]
pub struct Valuator {
    pub number: u16,
    pub min: i64,
    pub max: i64,
}

/// A number as input events carry it: a whole part and a fraction in
/// units of 2^-32.
#[derive(Clone, Copy, Debug, PartialEq, Eq, Structural)]
pub struct Fp3232 {
    pub integral: i32,
    pub frac: u32,
}

impl Fp3232 {
    /// The number in the library's fixed point, the fraction cut to
    /// sixteen bits.
    pub open spec fn spec_to_fixed(self) -> i64 {
        (self.integral * 65536 + self.frac / 65536) as i64
    }

    /// The number in the library's fixed point.
    pub fn to_fixed(&self) -> (v: i64)
        ensures
            v == self.spec_to_fixed(),
    {
        let whole: i64 = self.integral as i64;
        let part: i64 = (self.frac / 65536) as i64;
        whole * 65536 + part
    }
}

/// Whether an event has a value for the axis `number`: whether the bit
/// `number` is set in the mask of the event.
pub open spec fn has_axis(mask: Seq<u32>, number: int) -> bool {
    0 <= number / 32 < mask.len() && (mask[number / 32] >> ((number % 32) as u32)) & 1u32 == 1u32
}

/// The number of axes below `number` that an event has a value for.
pub open spec fn axes_below(mask: Seq<u32>, number: int) -> nat
    decreases number,
{
    if number <= 0 {
        0
    } else {
        axes_below(mask, number - 1) + if has_axis(mask, number - 1) {
            1nat
        } else {
            0nat
        }
    }
}

/// The value that an event has for the axis `number`, if it has one: the
/// values of an event stand in the order of their axes, one for each bit
/// set in the mask.
pub open spec fn spec_read_axis(mask: Seq<u32>, values: Seq<Fp3232>, number: u16) -> Option<i64> {
    if has_axis(mask, number as int) && axes_below(mask, number as int) < values.len() {
        Some(values[axes_below(mask, number as int) as int].spec_to_fixed())
    } else {
        None
    }
}

/// Whether an event has a value for the axis `number`.
pub fn axis_present(mask: &Vec<u32>, number: u16) -> (b: bool)
    ensures
        b == has_axis(mask@, number as int),
{
    let word: usize = (number / 32) as usize;
    if word < mask.len() {
        let bit: u32 = (number % 32) as u32;
        (mask[word] >> bit) & 1u32 == 1u32
    } else {
        false
    }
}

/// The value that an event has for the axis `number`, if it has one.
pub fn read_axis(mask: &Vec<u32>, values: &Vec<Fp3232>, number: u16) -> (v: Option<i64>)
    ensures
        v == spec_read_axis(mask@, values@, number),
{
    if !axis_present(mask, number) {
        return None;
    }
    let mut below: usize = 0;
    let mut k: u16 = 0;
    while k < number
        invariant
            0 <= k <= number,
            below == axes_below(mask@, k as int),
            below <= k,
        decreases number - k,
    {
        if axis_present(mask, k) {
            below += 1;
        }
        k += 1;
    }
    if below < values.len() {
        Some(values[below].to_fixed())
    } else {
        None
    }
}

impl DeviceInfo {
    /// The readings that an event of this device carries for the axes of a
    /// pen.
    pub open spec fn spec_read_axes(self, mask: Seq<u32>, values: Seq<Fp3232>) -> AxisValues {
        AxisValues {
            pressure: match self.valuators.pressure {
                Some(v) => spec_read_axis(mask, values, v.number),
                None => None,
            },
            x_tilt: match self.valuators.x_tilt {
                Some(v) => spec_read_axis(mask, values, v.number),
                None => None,
            },
            y_tilt: match self.valuators.y_tilt {
                Some(v) => spec_read_axis(mask, values, v.number),
                None => None,
            },
        }
    }

    /// The readings that an event of this device carries for the axes of a
    /// pen.
    pub fn read_axes(&self, mask: &Vec<u32>, values: &Vec<Fp3232>) -> (a: AxisValues)
        ensures
            a == self.spec_read_axes(mask@, values@),
    {
        AxisValues {
            pressure: match self.valuators.pressure {
                Some(v) => read_axis(mask, values, v.number),
                None => None,
            },
            x_tilt: match self.valuators.x_tilt {
                Some(v) => read_axis(mask, values, v.number),
                None => None,
            },
            y_tilt: match self.valuators.y_tilt {
                Some(v) => read_axis(mask, values, v.number),
                None => None,
            },
        }
    }
}

/// The axes of a device that carry pen data, where it has them.
#[derive(Clone, Copy, Debug, PartialEq, Eq, Structural)]
pub struct Valuators {
    pub pressure: Option<Valuator>,
    pub x_tilt: Option<Valuator>,
    pub y_tilt: Option<Valuator>,
}

/// An input device.
#[derive(Clone, Copy, Debug, PartialEq, Eq, Structural)]
pub struct DeviceInfo {
    pub id: u16,
    pub device_type: DeviceType,
    pub device_kind: DeviceKind,
    pub valuators: Valuators,
}

/// The axis readings that came with an event, where the event has them.
/// Tilts are fixed-point degrees.
#[derive(Clone, Copy, Debug, PartialEq, Eq, Structural)]
pub struct AxisValues {
    pub pressure: Option<i64>,
    pub x_tilt: Option<i64>,
    pub y_tilt: Option<i64>,
}

impl Valuator {
    /// The place of `raw` in the range, as a fixed-point fraction between
    /// zero and one: zero at `min` and below, one at `max` and above. A
    /// missing reading counts as `min`; a range without extent gives zero.
    pub open spec fn spec_normalize(self, raw: Option<i64>) -> int {
        if self.max <= self.min {
            0
        } else {
            let r: int = match raw {
                Some(v) => v as int,
                None => self.min as int,
            };
            let f = floor_div((r - self.min) * UNIT, self.max - self.min);
            if f < 0 {
                0
            } else if f > UNIT {
                UNIT as int
            } else {
                f
            }
        }
    }

    /// The place of `raw` in the range, as a fixed-point fraction between
    /// zero and one.
    pub fn normalize(&self, raw: Option<i64>) -> (p: i64)
        ensures
            p == self.spec_normalize(raw),
            0 <= p <= UNIT,
    {
        if self.max <= self.min {
            return 0;
        }
        let r: i64 = match raw {
            Some(v) => v,
            None => self.min,
        };
        let num: i128 = (r as i128 - self.min as i128) * 65536;
        let den: i128 = self.max as i128 - self.min as i128;
        let f: i128 = floor_div_i128(num, den);
        if f < 0 {
            0
        } else if f > 65536 {
            65536
        } else {
            f as i64
        }
    }
}

/// The reading of a tilt axis: the value that came with the event, and zero
/// where the device has no such axis or the event no value for it.
pub open spec fn spec_tilt(axis: Option<Valuator>, raw: Option<i64>) -> i64 {
    match (axis, raw) {
        (Some(_), Some(v)) => v,
        _ => 0,
    }
}

/// The reading of a tilt axis.
pub fn tilt(axis: Option<Valuator>, raw: Option<i64>) -> (t: i64)
    ensures
        t == spec_tilt(axis, raw),
{
    match (axis, raw) {
        (Some(_), Some(v)) => v,
        _ => 0,
    }
}

/// The devices that the server reported last.
#[derive(Clone, Debug, PartialEq, Eq)]
pub struct PointersState {
    devices: Vec<DeviceInfo>,
}

impl PointersState {
    /// The devices, in the order in which the server listed them.
    pub closed spec fn spec_devices(self) -> Seq<DeviceInfo> {
        self.devices@
    }

    /// The first device with the given id, if there is one.
    pub open spec fn spec_device_info(self, id: u16) -> Option<DeviceInfo> {
        first_with_id(self.spec_devices(), id)
    }

    /// The state that holds `devices`.
    pub fn new(devices: Vec<DeviceInfo>) -> (p: PointersState)
        ensures
            p.spec_devices() == devices@,
    {
        PointersState { devices }
    }

    /// The first device with the given id, if there is one.
    pub fn device_info(&self, id: u16) -> (d: Option<DeviceInfo>)
        ensures
            d == self.spec_device_info(id),
    {
        let mut i: usize = 0;
        assert(self.devices@.skip(0) == self.devices@);
        while i < self.devices.len()
            invariant
                0 <= i <= self.devices.len(),
                first_with_id(self.devices@, id) == first_with_id(self.devices@.skip(i as int), id),
            decreases self.devices.len() - i,
        {
            if self.devices[i].id == id {
                return Some(self.devices[i]);
            }
            proof {
                assert(self.devices@.skip(i as int).skip(1) == self.devices@.skip(i as int + 1));
            }
            i += 1;
        }
        None
    }
}

/// The first device of `devices` with the given id, if there is one.
pub open spec fn first_with_id(devices: Seq<DeviceInfo>, id: u16) -> Option<DeviceInfo>
    decreases devices.len(),
{
    if devices.len() == 0 {
        None
    } else if devices[0].id == id {
        Some(devices[0])
    } else {
        first_with_id(devices.skip(1), id)
    }
}

} // verus!
