//! Per-device configuration decisions.
//!
//! When the host reports a new input device, the decision of which
//! properties to set depends only on whether the device has a pointer
//! capability. The host-facing shell applies the plan.

use vstd::prelude::*;

verus! {

/// What to apply to one newly attached input device.
#[derive(Clone, Copy, Debug, PartialEq, Eq, Structural)]
pub struct DevicePlan {
    /// Mark the device left-handed.
    pub left_handed: bool,
    /// Apply the fixed coarse transform matrix.
    pub apply_transform: bool,
    /// Enable tap-to-click.
    pub tap_enabled: bool,
    /// Assign the device to the default seat.
    pub assign_to_seat: bool,
}

/// Seat-level state owned by the configuration: the hardware-cursor flag,
/// flipped by exactly one binding and read by nobody else. All callbacks
/// run on one logical thread, so a plain value suffices.
#[derive(Clone, Copy, Debug, PartialEq, Eq, Structural)]
pub struct SeatState {
    pub hardware_cursor: bool,
}

impl SeatState {
    /// The initial seat state: the hardware cursor starts enabled.
    pub fn new() -> (s: Self)
        ensures
            s.hardware_cursor,
    {
        SeatState { hardware_cursor: true }
    }

    /// Flip the hardware-cursor flag; the returned value is what the host
    /// should now use.
    pub fn toggle_hardware_cursor(&mut self) -> (r: bool)
        ensures
            final(self).hardware_cursor == !old(self).hardware_cursor,
            r == final(self).hardware_cursor,
    {
        self.hardware_cursor = !self.hardware_cursor;
        self.hardware_cursor
    }
}

/// Decide the plan for a device: pointer-capable devices are made
/// left-handed and get the coarse transform; every device gets
/// tap-to-click and the default seat.
pub fn plan_input_device(has_pointer: bool) -> (r: DevicePlan)
    ensures
        r.left_handed == has_pointer,
        r.apply_transform == has_pointer,
        r.tap_enabled,
        r.assign_to_seat,
{
    DevicePlan { left_handed: has_pointer, apply_transform: has_pointer, tap_enabled: true, assign_to_seat: true }
}

} // verus!
