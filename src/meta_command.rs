//! High-level intents that clients and backends ask the CEC device to carry out.
use vstd::prelude::*;

verus! {

/// A high-level intent, carried out by one or more native CEC calls.
#[derive(Debug, Clone, Copy, PartialEq, Eq, Structural)]
pub enum MetaCommand {
    /// Change the active source device.
    Active(Active),
    /// Change the power status of the devices on the bus.
    Power(Power),
    /// Change the TV / AVR volume.
    Volume(Volume),
    /// Change the TV / AVR mute status; no sub-command means toggle.
    Mute { command: Option<Mute> },
    /// Report the playback state of this device.
    DeckInfo(DeckInfo),
}

#[derive(Debug, Clone, Copy, PartialEq, Eq, Structural)]
pub enum Active {
    /// Make this device the active source; when cooperative, only if the
    /// current active source is not powered on.
    SetSource { cooperative: bool },
    /// Stop being the active source.
    Unset,
}

#[derive(Debug, Clone, Copy, PartialEq, Eq, Structural)]
pub enum Power {
    /// Power on all devices.
    On,
    /// Power off all devices; when cooperative, only if this device is the
    /// active source.
    Off { cooperative: bool },
}

#[derive(Debug, Clone, Copy, PartialEq, Eq, Structural)]
pub enum Volume {
    Up { steps: u8 },
    Down { steps: u8 },
    SetLevel { volume: u8 },
}

#[derive(Debug, Clone, Copy, PartialEq, Eq, Structural)]
pub enum Mute {
    Toggle,
    On,
    Off,
}

/// Transport state reported as the CEC deck status, ordered from the most
/// active to the least: `Play < Still < Stop`.
#[derive(Debug, Clone, Copy, PartialEq, Eq, Structural)]
pub enum DeckInfo {
    Play,
    Still,
    Stop,
}

impl DeckInfo {
    /// Position of the value in the order `Play < Still < Stop`.
    pub open spec fn rank(self) -> nat {
        match self {
            DeckInfo::Play => 0,
            DeckInfo::Still => 1,
            DeckInfo::Stop => 2,
        }
    }

    /// The more active of two deck states.
    pub open spec fn spec_min(self, other: DeckInfo) -> DeckInfo {
        if self.rank() <= other.rank() {
            self
        } else {
            other
        }
    }

    pub fn min(self, other: DeckInfo) -> (r: DeckInfo)
        ensures
            r == self.spec_min(other),
            r.rank() <= self.rank(),
            r.rank() <= other.rank(),
            r == self || r == other,
    {
        match (self, other) {
            (DeckInfo::Play, _) => DeckInfo::Play,
            (_, DeckInfo::Play) => DeckInfo::Play,
            (DeckInfo::Still, _) => DeckInfo::Still,
            (_, DeckInfo::Still) => DeckInfo::Still,
            _ => DeckInfo::Stop,
        }
    }
}

impl Default for DeckInfo {
    /// Nothing is playing until a player says otherwise.
    fn default() -> (r: DeckInfo)
        ensures
            r == DeckInfo::Stop,
    {
        DeckInfo::Stop
    }
}

} // verus!
