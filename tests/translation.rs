use cec_sync::cec::{
    AudioStatusError, CallOutcome, CecError, ConnectionError, LogicalAddress, MuteKey, NativeCall,
    PowerStatus,
};
use cec_sync::meta_command::{Active, DeckInfo, MetaCommand, Mute, Power, Volume};
use cec_sync::translate::{active_source_idle, volume_steps, Step, Translation};

/// Carries out `command`, answering each call with `answer`, and returns the
/// calls made and the result.
fn run(
    command: MetaCommand,
    mut answer: impl FnMut(NativeCall) -> CallOutcome,
) -> (Vec<NativeCall>, Result<(), CecError>) {
    let mut calls = Vec::new();
    let (mut state, mut step) = Translation::start(command);
    loop {
        match step {
            Step::Finished(result) => return (calls, result),
            Step::Call(call) => {
                calls.push(call);
                let outcome = answer(call);
                assert!(state.accepts(&outcome));
                (state, step) = state.resume(outcome);
            }
        }
    }
}

fn ok() -> CallOutcome {
    CallOutcome::Transmitted(Ok(()))
}

#[test]
fn volume_set_up_from_three_to_seven() {
    let (calls, result) = run(MetaCommand::Volume(Volume::SetLevel { volume: 7 }), |call| {
        match call {
            NativeCall::AudioGetStatus => CallOutcome::Audio(Ok(3)),
            _ => CallOutcome::Audio(Ok(4)),
        }
    });
    assert_eq!(result, Ok(()));
    assert_eq!(calls[0], NativeCall::AudioGetStatus);
    assert_eq!(calls[1..].to_vec(), vec![NativeCall::VolumeUp; 4]);
}

#[test]
fn volume_set_down_from_five_to_two() {
    let (calls, result) = run(MetaCommand::Volume(Volume::SetLevel { volume: 2 }), |call| {
        match call {
            NativeCall::AudioGetStatus => CallOutcome::Audio(Ok(5)),
            _ => CallOutcome::Audio(Ok(4)),
        }
    });
    assert_eq!(result, Ok(()));
    assert_eq!(calls[1..].to_vec(), vec![NativeCall::VolumeDown; 3]);
}

#[test]
fn volume_set_at_target_makes_no_step() {
    let (calls, result) = run(MetaCommand::Volume(Volume::SetLevel { volume: 40 }), |_| {
        CallOutcome::Audio(Ok(40))
    });
    assert_eq!(result, Ok(()));
    assert_eq!(calls, vec![NativeCall::AudioGetStatus]);
}

#[test]
fn volume_set_with_unknown_status_fails() {
    let (calls, result) = run(MetaCommand::Volume(Volume::SetLevel { volume: 9 }), |_| {
        CallOutcome::Audio(Err(AudioStatusError::Unknown))
    });
    assert_eq!(result, Err(CecError::AudioStatus(AudioStatusError::Unknown)));
    assert_eq!(calls, vec![NativeCall::AudioGetStatus]);
}

#[test]
fn volume_steps_ignore_unknown_status() {
    let (calls, result) = run(MetaCommand::Volume(Volume::Up { steps: 3 }), |_| {
        CallOutcome::Audio(Err(AudioStatusError::Unknown))
    });
    assert_eq!(result, Ok(()));
    assert_eq!(calls, vec![NativeCall::VolumeUp; 3]);
    let (calls, result) = run(MetaCommand::Volume(Volume::Down { steps: 0 }), |_| ok());
    assert_eq!(result, Ok(()));
    assert!(calls.is_empty());
}

#[test]
fn volume_steps_stop_on_reserved_status() {
    let mut n = 0;
    let (calls, result) = run(MetaCommand::Volume(Volume::Down { steps: 5 }), |_| {
        n += 1;
        if n == 2 {
            CallOutcome::Audio(Err(AudioStatusError::Reserved(0x70)))
        } else {
            CallOutcome::Audio(Ok(10))
        }
    });
    assert_eq!(result, Err(CecError::AudioStatus(AudioStatusError::Reserved(0x70))));
    assert_eq!(calls, vec![NativeCall::VolumeDown; 2]);
}

#[test]
fn cooperative_activation_leaves_a_source_that_is_on() {
    let (calls, result) =
        run(MetaCommand::Active(Active::SetSource { cooperative: true }), |call| match call {
            NativeCall::GetActiveSource => CallOutcome::ActiveSource(LogicalAddress::Tuner1),
            _ => CallOutcome::PowerStatus(PowerStatus::On),
        });
    assert_eq!(result, Ok(()));
    assert_eq!(
        calls,
        vec![
            NativeCall::GetActiveSource,
            NativeCall::GetDevicePowerStatus(LogicalAddress::Tuner1)
        ]
    );
}

#[test]
fn cooperative_activation_takes_over_from_standby() {
    let (calls, result) =
        run(MetaCommand::Active(Active::SetSource { cooperative: true }), |call| match call {
            NativeCall::GetActiveSource => CallOutcome::ActiveSource(LogicalAddress::Tv),
            NativeCall::GetDevicePowerStatus(_) => CallOutcome::PowerStatus(PowerStatus::Standby),
            _ => ok(),
        });
    assert_eq!(result, Ok(()));
    assert_eq!(calls.last(), Some(&NativeCall::SetActiveSource));
    assert_eq!(calls.len(), 3);
}

#[test]
fn active_source_power_states() {
    assert!(active_source_idle(PowerStatus::Standby));
    assert!(active_source_idle(PowerStatus::InTransitionOnToStandby));
    assert!(active_source_idle(PowerStatus::Unknown));
    assert!(!active_source_idle(PowerStatus::On));
    assert!(!active_source_idle(PowerStatus::InTransitionStandbyToOn));
}

#[test]
fn cooperative_power_off_spares_another_source() {
    let (calls, result) =
        run(MetaCommand::Power(Power::Off { cooperative: true }), |call| match call {
            NativeCall::GetActiveSource => CallOutcome::ActiveSource(LogicalAddress::Tuner1),
            _ => CallOutcome::LogicalAddresses(vec![LogicalAddress::PlaybackDevice1]),
        });
    assert_eq!(result, Ok(()));
    assert!(!calls.contains(&NativeCall::StandbyDevices));
    let (calls, _) = run(MetaCommand::Power(Power::Off { cooperative: true }), |_| {
        CallOutcome::ActiveSource(LogicalAddress::Unknown)
    });
    assert_eq!(calls, vec![NativeCall::GetActiveSource]);
}

#[test]
fn cooperative_power_off_when_active() {
    let (calls, result) =
        run(MetaCommand::Power(Power::Off { cooperative: true }), |call| match call {
            NativeCall::GetActiveSource => {
                CallOutcome::ActiveSource(LogicalAddress::PlaybackDevice1)
            }
            NativeCall::GetLogicalAddresses => CallOutcome::LogicalAddresses(vec![
                LogicalAddress::Tuner1,
                LogicalAddress::PlaybackDevice1,
            ]),
            _ => ok(),
        });
    assert_eq!(result, Ok(()));
    assert_eq!(calls.last(), Some(&NativeCall::StandbyDevices));
}

#[test]
fn plain_commands_make_one_call() {
    let cases = [
        (MetaCommand::Active(Active::SetSource { cooperative: false }), NativeCall::SetActiveSource),
        (MetaCommand::Active(Active::Unset), NativeCall::SetInactiveView),
        (MetaCommand::Power(Power::On), NativeCall::PowerOnDevices),
        (MetaCommand::Power(Power::Off { cooperative: false }), NativeCall::StandbyDevices),
        (MetaCommand::DeckInfo(DeckInfo::Still), NativeCall::SetDeckInfo(DeckInfo::Still)),
    ];
    for (command, expected) in cases {
        let (calls, result) = run(command, |_| ok());
        assert_eq!(result, Ok(()));
        assert_eq!(calls, vec![expected]);
    }
}

#[test]
fn transmit_failure_is_reported() {
    let (_, result) = run(MetaCommand::Power(Power::On), |_| {
        CallOutcome::Transmitted(Err(ConnectionError::TransmitFailed))
    });
    assert_eq!(result, Err(CecError::Connection(ConnectionError::TransmitFailed)));
}

#[test]
fn mute_falls_back_to_key_press() {
    let cases = [
        (None, NativeCall::AudioToggleMute, MuteKey::Mute),
        (Some(Mute::Toggle), NativeCall::AudioToggleMute, MuteKey::Mute),
        (Some(Mute::On), NativeCall::AudioMute, MuteKey::MuteFunction),
        (Some(Mute::Off), NativeCall::AudioUnmute, MuteKey::RestoreVolumeFunction),
    ];
    for (command, primitive, key) in cases {
        let (calls, result) = run(MetaCommand::Mute { command }, |call| match call {
            NativeCall::AudioToggleMute | NativeCall::AudioMute | NativeCall::AudioUnmute => {
                CallOutcome::Audio(Err(AudioStatusError::Unknown))
            }
            _ => ok(),
        });
        assert_eq!(result, Ok(()));
        assert_eq!(calls, vec![primitive, NativeCall::SendKeypress(key), NativeCall::SendKeyRelease]);
    }
}

#[test]
fn mute_with_known_status_needs_no_key() {
    let (calls, result) = run(MetaCommand::Mute { command: None }, |_| CallOutcome::Audio(Ok(20)));
    assert_eq!(result, Ok(()));
    assert_eq!(calls, vec![NativeCall::AudioToggleMute]);
    let (_, result) = run(MetaCommand::Mute { command: Some(Mute::On) }, |_| {
        CallOutcome::Audio(Err(AudioStatusError::Reserved(0x7f)))
    });
    assert_eq!(result, Err(CecError::AudioStatus(AudioStatusError::Reserved(0x7f))));
}

#[test]
fn mute_key_press_failure_is_reported() {
    let (calls, result) = run(MetaCommand::Mute { command: None }, |call| match call {
        NativeCall::AudioToggleMute => CallOutcome::Audio(Err(AudioStatusError::Unknown)),
        _ => CallOutcome::Transmitted(Err(ConnectionError::TransmitFailed)),
    });
    assert_eq!(result, Err(CecError::Connection(ConnectionError::TransmitFailed)));
    assert_eq!(calls.len(), 2);
}

#[test]
fn volume_step_counts() {
    assert_eq!(volume_steps(7, 3), (true, 4));
    assert_eq!(volume_steps(2, 5), (false, 3));
    assert_eq!(volume_steps(0, 255), (false, 255));
    assert_eq!(volume_steps(100, 100), (true, 0));
}

#[test]
fn outcome_of_the_wrong_kind_is_not_accepted() {
    let (state, _) = Translation::start(MetaCommand::Power(Power::On));
    assert!(!state.accepts(&CallOutcome::Audio(Ok(1))));
    assert!(!Translation::Done.accepts(&ok()));
    assert!(!ConnectionError::TransmitFailed.fatal());
    assert!(ConnectionError::LibInitFailed.fatal());
    assert!(ConnectionError::CallbackRegistrationFailed.fatal());
    assert!(!ConnectionError::NoAdapterFound.fatal());
    assert!(LogicalAddress::Tv.registered());
    assert!(!LogicalAddress::Unregistered.registered());
}

#[test]
fn mute_off_unmutes() {
    let (calls, result) = run(MetaCommand::Mute { command: Some(Mute::Off) }, |_| {
        CallOutcome::Audio(Ok(30))
    });
    assert_eq!(result, Ok(()));
    assert_eq!(calls, vec![NativeCall::AudioUnmute]);
}
