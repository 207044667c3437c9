//! The AiP31068 seen as an adapter: a controller with an I2C interface of its own has no port
//! and no lines to set.

use vstd::prelude::*;
use crate::adapter_config::AdapterError;
use crate::bus::BusPlan;
use crate::LcdDisplayType;

verus! {

/// The port that the AiP31068 does not have. Its byte is always zero and its setters do
/// nothing.
#[derive(Debug, PartialEq, Eq, Clone, Copy, Structural)]
pub struct GenericAiP31068 {
}

impl Default for GenericAiP31068 {
    fn default() -> (config: Self) {
        GenericAiP31068 {  }
    }
}

impl GenericAiP31068 {
    /// Returns the port byte: zero.
    pub fn bits(&self) -> (byte: u8)
        ensures
            byte == 0,
    {
        0
    }

    /// Returns the default I2C address of the controller.
    pub fn default_i2c_address() -> (address: u8)
        ensures
            address == 0x3e,
    {
        0x3E
    }

    /// Plans what the controller needs before its power-on sequence: nothing.
    pub fn init(&self, i2c_address: u8) -> (plan: BusPlan)
        ensures
            plan@ == Seq::<crate::bus::BusOp>::empty(),
    {
        BusPlan::new()
    }

    /// There is no RS line to set.
    pub fn set_rs(&mut self, value: bool)
        ensures
            *final(self) == *old(self),
    {
    }

    /// There is no RW line to set.
    pub fn set_rw(&mut self, value: bool)
        ensures
            *final(self) == *old(self),
    {
    }

    /// There is no enable line to set: every device index is accepted and nothing changes.
    pub fn set_enable(&mut self, value: bool, device: usize) -> (result: Result<(), AdapterError>)
        ensures
            *final(self) == *old(self),
            result == Ok::<(), AdapterError>(()),
    {
        Ok(())
    }

    /// There is no backlight line to set.
    pub fn set_backlight(&mut self, value: bool)
        ensures
            *final(self) == *old(self),
    {
    }

    /// There are no data lines to set.
    pub fn set_data(&mut self, value: u8)
        ensures
            *final(self) == *old(self),
    {
    }

    /// The controller drives panels of every type.
    pub fn is_supported(display_type: LcdDisplayType) -> (supported: bool)
        ensures
            supported,
    {
        true
    }
}

} // verus!
