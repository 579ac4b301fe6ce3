//! The native CEC library as the command translation sees it: the calls it
//! can make, what each call reports back, and the errors it can end with.
use vstd::prelude::*;

use crate::meta_command::DeckInfo;

verus! {

/// A logical address on the CEC bus.
#[derive(Debug, Clone, Copy, PartialEq, Eq, Structural)]
pub enum LogicalAddress {
    Unknown,
    Tv,
    RecordingDevice1,
    RecordingDevice2,
    Tuner1,
    PlaybackDevice1,
    AudioSystem,
    Tuner2,
    Tuner3,
    PlaybackDevice2,
    RecordingDevice3,
    Tuner4,
    PlaybackDevice3,
    Reserved1,
    Reserved2,
    FreeUse,
    /// Unregistered devices, and the broadcast address.
    Unregistered,
}

impl LogicalAddress {
    /// A known address that a device can register under.
    pub open spec fn is_registered(self) -> bool {
        !(self is Unknown) && !(self is Unregistered)
    }

    pub fn registered(self) -> (r: bool)
        ensures
            r == self.is_registered(),
    {
        match self {
            LogicalAddress::Unknown | LogicalAddress::Unregistered => false,
            _ => true,
        }
    }
}

/// The power status that a device reports.
#[derive(Debug, Clone, Copy, PartialEq, Eq, Structural)]
pub enum PowerStatus {
    On,
    Standby,
    InTransitionStandbyToOn,
    InTransitionOnToStandby,
    Unknown,
}

/// Why opening the connection or transmitting on it failed.
#[derive(Debug, Clone, Copy, PartialEq, Eq, Structural)]
pub enum ConnectionError {
    LibInitFailed,
    NoAdapterFound,
    AdapterOpenFailed,
    CallbackRegistrationFailed,
    TransmitFailed,
}

impl ConnectionError {
    /// A failure of the native library itself, as opposed to one of the
    /// adapter or the bus: the process cannot go on without the library.
    pub open spec fn is_fatal(self) -> bool {
        self is LibInitFailed || self is CallbackRegistrationFailed
    }

    pub fn fatal(self) -> (r: bool)
        ensures
            r == self.is_fatal(),
    {
        match self {
            ConnectionError::LibInitFailed | ConnectionError::CallbackRegistrationFailed => true,
            _ => false,
        }
    }
}

/// Why an audio status could not be read from the audio system's answer.
#[derive(Debug, Clone, Copy, PartialEq, Eq, Structural)]
pub enum AudioStatusError {
    /// The answer holds a volume value that the standard reserves.
    Reserved(u8),
    /// The audio status is unknown, as when no audio system answers.
    Unknown,
}

/// An error of the CEC layer.
#[derive(Debug, Clone, PartialEq, Eq)]
pub enum CecError {
    Connection(ConnectionError),
    AudioStatus(AudioStatusError),
    /// A log message of error severity from the native library.
    Log(String),
}

/// Remote-control keys sent to the TV in place of an audio primitive.
#[derive(Debug, Clone, Copy, PartialEq, Eq, Structural)]
pub enum MuteKey {
    Mute,
    MuteFunction,
    RestoreVolumeFunction,
}

/// A call into the native CEC library. Calls that transmit wait for the
/// acknowledgement; broadcasts go to the unregistered address.
#[derive(Debug, Clone, Copy, PartialEq, Eq, Structural)]
pub enum NativeCall {
    /// Announce this device as the active source.
    SetActiveSource,
    /// Announce that this device is no longer the active source.
    SetInactiveView,
    GetActiveSource,
    GetDevicePowerStatus(LogicalAddress),
    /// The addresses this device has registered under.
    GetLogicalAddresses,
    /// Broadcast power-on.
    PowerOnDevices,
    /// Broadcast standby.
    StandbyDevices,
    /// One volume step up, with the key release sent.
    VolumeUp,
    /// One volume step down, with the key release sent.
    VolumeDown,
    AudioGetStatus,
    AudioToggleMute,
    AudioMute,
    AudioUnmute,
    /// Press a key on the TV.
    SendKeypress(MuteKey),
    /// Release the key pressed on the TV.
    SendKeyRelease,
    /// Report the deck status, sending the update.
    SetDeckInfo(DeckInfo),
}

/// What a native call reported back.
#[derive(Debug, PartialEq, Eq)]
pub enum CallOutcome {
    /// The result of a call that transmits and returns nothing else.
    Transmitted(Result<(), ConnectionError>),
    ActiveSource(LogicalAddress),
    PowerStatus(PowerStatus),
    LogicalAddresses(Vec<LogicalAddress>),
    /// The result of a call that returns the audio status: the volume
    /// level on success.
    Audio(Result<u8, AudioStatusError>),
}

impl NativeCall {
    /// Whether `outcome` is of the kind that this call reports.
    pub open spec fn reports(self, outcome: CallOutcome) -> bool {
        match self {
            NativeCall::GetActiveSource => outcome is ActiveSource,
            NativeCall::GetDevicePowerStatus(_) => outcome is PowerStatus,
            NativeCall::GetLogicalAddresses => outcome is LogicalAddresses,
            NativeCall::VolumeUp | NativeCall::VolumeDown | NativeCall::AudioGetStatus
            | NativeCall::AudioToggleMute | NativeCall::AudioMute
            | NativeCall::AudioUnmute => outcome is Audio,
            _ => outcome is Transmitted,
        }
    }
}

} // verus!
