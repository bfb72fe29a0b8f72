//! The monitor power mode and its DDC/CI feature values.

use vstd::prelude::*;

verus! {

/// The VCP feature code of the monitor power mode.
pub const VCP_POWER_MODE: u8 = 0xd6;

/// Feature value for a monitor that reports no power mode; read as off.
pub const VCP_POWER_MODE_NONE: u32 = 0x00;

/// Feature value for a monitor that is on.
pub const VCP_POWER_MODE_ON: u32 = 0x01;

/// Feature value for a monitor that is off.
pub const VCP_POWER_MODE_OFF: u32 = 0x05;

#[derive(Copy, Clone, Debug, PartialEq, Eq, Structural)]
pub enum PowerMode {
    On,
    Off,
}

/// The power mode that a feature value stands for, if any.
pub open spec fn mode_of_vcp(value: u32) -> Option<PowerMode> {
    if value == VCP_POWER_MODE_ON {
        Some(PowerMode::On)
    } else if value == VCP_POWER_MODE_NONE || value == VCP_POWER_MODE_OFF {
        Some(PowerMode::Off)
    } else {
        None
    }
}

/// The feature value written to switch a monitor to `mode`.
pub open spec fn vcp_of_mode(mode: PowerMode) -> u32 {
    match mode {
        PowerMode::On => VCP_POWER_MODE_ON,
        PowerMode::Off => VCP_POWER_MODE_OFF,
    }
}

impl PowerMode {
    /// Decodes a power-mode feature value read from a monitor. A value
    /// outside the three known ones is a decode failure (`None`).
    pub fn from_vcp_code(value: u32) -> (r: Option<PowerMode>)
        ensures
            r == mode_of_vcp(value),
    {
        match value {
            VCP_POWER_MODE_ON => Some(PowerMode::On),
            VCP_POWER_MODE_NONE | VCP_POWER_MODE_OFF => Some(PowerMode::Off),
            _ => None,
        }
    }

    /// The feature value that switches a monitor to this mode.
    pub fn vcp_code(&self) -> (r: u32)
        ensures
            r == vcp_of_mode(*self),
    {
        match self {
            PowerMode::On => VCP_POWER_MODE_ON,
            PowerMode::Off => VCP_POWER_MODE_OFF,
        }
    }
}

/// Writing a mode and reading the value back gives the same mode, and a
/// monitor that reports no mode reads as off.
pub proof fn lemma_vcp_round_trip(mode: PowerMode)
    ensures
        mode_of_vcp(vcp_of_mode(mode)) == Some(mode),
        mode_of_vcp(VCP_POWER_MODE_NONE) == Some(PowerMode::Off),
{
}

} // verus!
