//! Carries out a [`MetaCommand`] as a sequence of native CEC calls.
//!
//! The translation is a state machine: it names the next call to make, the
//! caller makes it and hands back what it reported, and the machine names the
//! next call or finishes with the command's result. The calls block, so the
//! caller decides where they run.
use vstd::prelude::*;

use crate::cec::{
    AudioStatusError, CallOutcome, CecError, ConnectionError, LogicalAddress, MuteKey, NativeCall,
    PowerStatus,
};
use crate::meta_command::{Active, MetaCommand, Mute, Power, Volume};

verus! {

/// Where a translation stands: which call it waits on, and what it does
/// with the answer.
#[derive(Debug, Clone, Copy, PartialEq, Eq, Structural)]
pub enum Translation {
    /// Waiting for a transmit call, the last one of the command.
    Transmit,
    /// Cooperative activation, waiting for the current active source.
    ActivationSource,
    /// Cooperative activation, waiting for the active source's power status.
    ActivationPower,
    /// Cooperative standby, waiting for the current active source.
    StandbySource,
    /// Cooperative standby, waiting for this device's own addresses.
    StandbyOwnAddresses { active: LogicalAddress },
    /// Waiting for a volume step; `remaining` more steps follow it.
    VolumeStep { up: bool, remaining: u8 },
    /// Waiting for the audio status that a change of level starts from.
    VolumeLevel { target: u8 },
    /// Waiting for the audio mute primitive; `key` is sent to the TV in its
    /// place when the audio status is unknown.
    MuteAudio { key: MuteKey },
    /// Waiting for the fallback key press; its release follows.
    MuteKeyPress,
    /// Finished.
    Done,
}

/// What to do next.
#[derive(Debug, PartialEq, Eq)]
pub enum Step {
    Call(NativeCall),
    Finished(Result<(), CecError>),
}

/// Whether cooperative activation takes over from an active source in this
/// state: it does unless the source is on or turning on.
pub open spec fn source_is_idle(status: PowerStatus) -> bool {
    status is Standby || status is InTransitionOnToStandby || status is Unknown
}

pub fn active_source_idle(status: PowerStatus) -> (r: bool)
    ensures
        r == source_is_idle(status),
{
    match status {
        PowerStatus::Standby | PowerStatus::InTransitionOnToStandby | PowerStatus::Unknown => true,
        PowerStatus::On | PowerStatus::InTransitionStandbyToOn => false,
    }
}

/// Whether cooperative standby may go ahead: the active source is a
/// registered address that this device holds.
pub open spec fn may_stand_by(active: LogicalAddress, own: Seq<LogicalAddress>) -> bool {
    active.is_registered() && own.contains(active)
}

fn holds_address(own: &Vec<LogicalAddress>, address: LogicalAddress) -> (r: bool)
    ensures
        r == own@.contains(address),
{
    let mut i: usize = 0;
    while i < own.len()
        invariant
            i <= own@.len(),
            forall|j: int| 0 <= j < i ==> own@[j] != address,
        decreases own@.len() - i,
    {
        if own[i] == address {
            return true;
        }
        i += 1;
    }
    false
}

/// The volume steps that move the level from `current` to `target`: up
/// when the target is at or above the current level, and as many steps as
/// the two differ.
pub open spec fn level_steps(target: u8, current: u8) -> (bool, int) {
    if target >= current {
        (true, target - current)
    } else {
        (false, current - target)
    }
}

pub fn volume_steps(target: u8, current: u8) -> (r: (bool, u8))
    ensures
        (r.0, r.1 as int) == level_steps(target, current),
{
    if target >= current {
        (true, target - current)
    } else {
        (false, current - target)
    }
}

/// The step that finishes with success.
pub open spec fn succeeded() -> (Translation, Step) {
    (Translation::Done, Step::Finished(Ok(())))
}

/// The step that finishes with `e`.
pub open spec fn failed(e: CecError) -> (Translation, Step) {
    (Translation::Done, Step::Finished(Err(e)))
}

/// `count` volume steps, up or down, one call each.
pub open spec fn stepping(up: bool, count: int) -> (Translation, Step) {
    if count <= 0 {
        succeeded()
    } else {
        (
            Translation::VolumeStep { up, remaining: (count - 1) as u8 },
            Step::Call(if up { NativeCall::VolumeUp } else { NativeCall::VolumeDown }),
        )
    }
}

fn stepping_exec(up: bool, count: u8) -> (r: (Translation, Step))
    ensures
        r == stepping(up, count as int),
{
    if count == 0 {
        (Translation::Done, Step::Finished(Ok(())))
    } else {
        (
            Translation::VolumeStep { up, remaining: count - 1 },
            Step::Call(if up { NativeCall::VolumeUp } else { NativeCall::VolumeDown }),
        )
    }
}

impl Translation {
    /// The first step of carrying out `command`.
    pub open spec fn first(command: MetaCommand) -> (Translation, Step) {
        match command {
            MetaCommand::Active(Active::SetSource { cooperative }) => if cooperative {
                (Translation::ActivationSource, Step::Call(NativeCall::GetActiveSource))
            } else {
                (Translation::Transmit, Step::Call(NativeCall::SetActiveSource))
            },
            MetaCommand::Active(Active::Unset) => (
                Translation::Transmit,
                Step::Call(NativeCall::SetInactiveView),
            ),
            MetaCommand::Power(Power::On) => (
                Translation::Transmit,
                Step::Call(NativeCall::PowerOnDevices),
            ),
            MetaCommand::Power(Power::Off { cooperative }) => if cooperative {
                (Translation::StandbySource, Step::Call(NativeCall::GetActiveSource))
            } else {
                (Translation::Transmit, Step::Call(NativeCall::StandbyDevices))
            },
            MetaCommand::Volume(Volume::Up { steps }) => stepping(true, steps as int),
            MetaCommand::Volume(Volume::Down { steps }) => stepping(false, steps as int),
            MetaCommand::Volume(Volume::SetLevel { volume }) => (
                Translation::VolumeLevel { target: volume },
                Step::Call(NativeCall::AudioGetStatus),
            ),
            MetaCommand::Mute { command } => match command {
                Some(Mute::On) => (
                    Translation::MuteAudio { key: MuteKey::MuteFunction },
                    Step::Call(NativeCall::AudioMute),
                ),
                Some(Mute::Off) => (
                    Translation::MuteAudio { key: MuteKey::RestoreVolumeFunction },
                    Step::Call(NativeCall::AudioUnmute),
                ),
                _ => (
                    Translation::MuteAudio { key: MuteKey::Mute },
                    Step::Call(NativeCall::AudioToggleMute),
                ),
            },
            MetaCommand::DeckInfo(info) => (
                Translation::Transmit,
                Step::Call(NativeCall::SetDeckInfo(info)),
            ),
        }
    }

    /// Whether `outcome` is of the kind that the awaited call reports.
    pub open spec fn awaits(self, outcome: CallOutcome) -> bool {
        match self {
            Translation::Transmit | Translation::MuteKeyPress => outcome is Transmitted,
            Translation::ActivationSource | Translation::StandbySource => outcome is ActiveSource,
            Translation::ActivationPower => outcome is PowerStatus,
            Translation::StandbyOwnAddresses { .. } => outcome is LogicalAddresses,
            Translation::VolumeStep { .. } | Translation::VolumeLevel { .. }
            | Translation::MuteAudio { .. } => outcome is Audio,
            Translation::Done => false,
        }
    }

    /// The step that follows once the awaited call reported `outcome`.
    pub open spec fn next(self, outcome: CallOutcome) -> (Translation, Step) {
        match (self, outcome) {
            (Translation::Transmit, CallOutcome::Transmitted(result)) => match result {
                Ok(_) => succeeded(),
                Err(e) => failed(CecError::Connection(e)),
            },
            (Translation::ActivationSource, CallOutcome::ActiveSource(active)) => (
                Translation::ActivationPower,
                Step::Call(NativeCall::GetDevicePowerStatus(active)),
            ),
            (Translation::ActivationPower, CallOutcome::PowerStatus(status)) => if source_is_idle(
                status,
            ) {
                (Translation::Transmit, Step::Call(NativeCall::SetActiveSource))
            } else {
                succeeded()
            },
            (Translation::StandbySource, CallOutcome::ActiveSource(active)) => if active.is_registered() {
                (
                    Translation::StandbyOwnAddresses { active },
                    Step::Call(NativeCall::GetLogicalAddresses),
                )
            } else {
                succeeded()
            },
            (
                Translation::StandbyOwnAddresses { active },
                CallOutcome::LogicalAddresses(own),
            ) => if may_stand_by(active, own@) {
                (Translation::Transmit, Step::Call(NativeCall::StandbyDevices))
            } else {
                succeeded()
            },
            (Translation::VolumeStep { up, remaining }, CallOutcome::Audio(result)) => match result {
                Err(AudioStatusError::Reserved(v)) => failed(
                    CecError::AudioStatus(AudioStatusError::Reserved(v)),
                ),
                _ => stepping(up, remaining as int),
            },
            (Translation::VolumeLevel { target }, CallOutcome::Audio(result)) => match result {
                Ok(current) => stepping(level_steps(target, current).0, level_steps(target, current).1),
                Err(e) => failed(CecError::AudioStatus(e)),
            },
            (Translation::MuteAudio { key }, CallOutcome::Audio(result)) => match result {
                Ok(_) => succeeded(),
                Err(AudioStatusError::Unknown) => (
                    Translation::MuteKeyPress,
                    Step::Call(NativeCall::SendKeypress(key)),
                ),
                Err(e) => failed(CecError::AudioStatus(e)),
            },
            (Translation::MuteKeyPress, CallOutcome::Transmitted(result)) => match result {
                Ok(_) => (Translation::Transmit, Step::Call(NativeCall::SendKeyRelease)),
                Err(e) => failed(CecError::Connection(e)),
            },
            _ => succeeded(),
        }
    }

    /// Starts carrying out `command`.
    pub fn start(command: MetaCommand) -> (r: (Translation, Step))
        ensures
            r == Translation::first(command),
    {
        match command {
            MetaCommand::Active(Active::SetSource { cooperative }) => if cooperative {
                (Translation::ActivationSource, Step::Call(NativeCall::GetActiveSource))
            } else {
                (Translation::Transmit, Step::Call(NativeCall::SetActiveSource))
            },
            MetaCommand::Active(Active::Unset) => (
                Translation::Transmit,
                Step::Call(NativeCall::SetInactiveView),
            ),
            MetaCommand::Power(Power::On) => (
                Translation::Transmit,
                Step::Call(NativeCall::PowerOnDevices),
            ),
            MetaCommand::Power(Power::Off { cooperative }) => if cooperative {
                (Translation::StandbySource, Step::Call(NativeCall::GetActiveSource))
            } else {
                (Translation::Transmit, Step::Call(NativeCall::StandbyDevices))
            },
            MetaCommand::Volume(Volume::Up { steps }) => stepping_exec(true, steps),
            MetaCommand::Volume(Volume::Down { steps }) => stepping_exec(false, steps),
            MetaCommand::Volume(Volume::SetLevel { volume }) => (
                Translation::VolumeLevel { target: volume },
                Step::Call(NativeCall::AudioGetStatus),
            ),
            MetaCommand::Mute { command } => match command {
                Some(Mute::On) => (
                    Translation::MuteAudio { key: MuteKey::MuteFunction },
                    Step::Call(NativeCall::AudioMute),
                ),
                Some(Mute::Off) => (
                    Translation::MuteAudio { key: MuteKey::RestoreVolumeFunction },
                    Step::Call(NativeCall::AudioUnmute),
                ),
                _ => (
                    Translation::MuteAudio { key: MuteKey::Mute },
                    Step::Call(NativeCall::AudioToggleMute),
                ),
            },
            MetaCommand::DeckInfo(info) => (
                Translation::Transmit,
                Step::Call(NativeCall::SetDeckInfo(info)),
            ),
        }
    }

    /// Whether `outcome` answers the call this translation waits on; a
    /// caller that made the call the last step named gets `true`.
    pub fn accepts(&self, outcome: &CallOutcome) -> (r: bool)
        ensures
            r == self.awaits(*outcome),
    {
        match (self, outcome) {
            (Translation::Transmit, CallOutcome::Transmitted(_)) => true,
            (Translation::MuteKeyPress, CallOutcome::Transmitted(_)) => true,
            (Translation::ActivationSource, CallOutcome::ActiveSource(_)) => true,
            (Translation::StandbySource, CallOutcome::ActiveSource(_)) => true,
            (Translation::ActivationPower, CallOutcome::PowerStatus(_)) => true,
            (Translation::StandbyOwnAddresses { .. }, CallOutcome::LogicalAddresses(_)) => true,
            (Translation::VolumeStep { .. }, CallOutcome::Audio(_)) => true,
            (Translation::VolumeLevel { .. }, CallOutcome::Audio(_)) => true,
            (Translation::MuteAudio { .. }, CallOutcome::Audio(_)) => true,
            _ => false,
        }
    }

    /// Goes on once the awaited call reported `outcome`.
    pub fn resume(self, outcome: CallOutcome) -> (r: (Translation, Step))
        requires
            self.awaits(outcome),
        ensures
            r == self.next(outcome),
    {
        match (self, outcome) {
            (Translation::Transmit, CallOutcome::Transmitted(result)) => match result {
                Ok(_) => (Translation::Done, Step::Finished(Ok(()))),
                Err(e) => (Translation::Done, Step::Finished(Err(CecError::Connection(e)))),
            },
            (Translation::ActivationSource, CallOutcome::ActiveSource(active)) => (
                Translation::ActivationPower,
                Step::Call(NativeCall::GetDevicePowerStatus(active)),
            ),
            (Translation::ActivationPower, CallOutcome::PowerStatus(status)) => {
                if active_source_idle(status) {
                    (Translation::Transmit, Step::Call(NativeCall::SetActiveSource))
                } else {
                    (Translation::Done, Step::Finished(Ok(())))
                }
            },
            (Translation::StandbySource, CallOutcome::ActiveSource(active)) => {
                if active.registered() {
                    (
                        Translation::StandbyOwnAddresses { active },
                        Step::Call(NativeCall::GetLogicalAddresses),
                    )
                } else {
                    (Translation::Done, Step::Finished(Ok(())))
                }
            },
            (Translation::StandbyOwnAddresses { active }, CallOutcome::LogicalAddresses(own)) => {
                if active.registered() && holds_address(&own, active) {
                    (Translation::Transmit, Step::Call(NativeCall::StandbyDevices))
                } else {
                    (Translation::Done, Step::Finished(Ok(())))
                }
            },
            (Translation::VolumeStep { up, remaining }, CallOutcome::Audio(result)) => match result {
                Err(AudioStatusError::Reserved(v)) => (
                    Translation::Done,
                    Step::Finished(Err(CecError::AudioStatus(AudioStatusError::Reserved(v)))),
                ),
                _ => stepping_exec(up, remaining),
            },
            (Translation::VolumeLevel { target }, CallOutcome::Audio(result)) => match result {
                Ok(current) => {
                    let (up, count) = volume_steps(target, current);
                    stepping_exec(up, count)
                },
                Err(e) => (Translation::Done, Step::Finished(Err(CecError::AudioStatus(e)))),
            },
            (Translation::MuteAudio { key }, CallOutcome::Audio(result)) => match result {
                Ok(_) => (Translation::Done, Step::Finished(Ok(()))),
                Err(AudioStatusError::Unknown) => (
                    Translation::MuteKeyPress,
                    Step::Call(NativeCall::SendKeypress(key)),
                ),
                Err(e) => (Translation::Done, Step::Finished(Err(CecError::AudioStatus(e)))),
            },
            (Translation::MuteKeyPress, CallOutcome::Transmitted(result)) => match result {
                Ok(_) => (Translation::Transmit, Step::Call(NativeCall::SendKeyRelease)),
                Err(e) => (Translation::Done, Step::Finished(Err(CecError::Connection(e)))),
            },
            _ => (Translation::Done, Step::Finished(Ok(()))),
        }
    }
}

/// A step that names a call leaves the translation waiting on that call:
/// whatever the call reports is an outcome the translation accepts.
pub open spec fn step_is_coherent(r: (Translation, Step)) -> bool {
    match r.1 {
        Step::Call(call) => forall|o: CallOutcome| #[trigger] call.reports(o) ==> r.0.awaits(o),
        Step::Finished(_) => r.0 is Done,
    }
}

/// Each step of a translation, the first one and every later one, asks for
/// a call whose outcome the translation then accepts, or finishes it.
pub proof fn lemma_steps_coherent(command: MetaCommand, t: Translation, outcome: CallOutcome)
    requires
        t.awaits(outcome),
    ensures
        step_is_coherent(Translation::first(command)),
        step_is_coherent(t.next(outcome)),
{
}

/// Each mute command first tries its own audio primitive: toggling for
/// toggle (also when no sub-command is given), muting for on, unmuting for
/// off. When the audio status is unknown it presses the matching key on the
/// TV instead, then releases it.
pub proof fn lemma_mute_primitives(command: Option<Mute>)
    ensures
        Translation::first(MetaCommand::Mute { command: Some(Mute::Off) }) == (
            Translation::MuteAudio { key: MuteKey::RestoreVolumeFunction },
            Step::Call(NativeCall::AudioUnmute),
        ),
        Translation::first(MetaCommand::Mute { command: Some(Mute::On) }) == (
            Translation::MuteAudio { key: MuteKey::MuteFunction },
            Step::Call(NativeCall::AudioMute),
        ),
        (command is None || command == Some(Mute::Toggle)) ==> Translation::first(
            MetaCommand::Mute { command },
        ) == (Translation::MuteAudio { key: MuteKey::Mute }, Step::Call(NativeCall::AudioToggleMute)),
        forall|key: MuteKey|
            #![auto]
            (Translation::MuteAudio { key }).next(
                CallOutcome::Audio(Err(AudioStatusError::Unknown)),
            ) == (Translation::MuteKeyPress, Step::Call(NativeCall::SendKeypress(key))),
        Translation::MuteKeyPress.next(CallOutcome::Transmitted(Ok(()))) == (
            Translation::Transmit,
            Step::Call(NativeCall::SendKeyRelease),
        ),
{
}

/// Cooperative activation sends nothing when the active source is on or
/// turning on, and announces this device when it is in standby, turning
/// off, or in an unknown state.
pub proof fn lemma_cooperative_activation(status: PowerStatus)
    ensures
        (status is On || status is InTransitionStandbyToOn) ==> Translation::ActivationPower.next(
            CallOutcome::PowerStatus(status),
        ) == succeeded(),
        !(status is On || status is InTransitionStandbyToOn) ==> Translation::ActivationPower.next(
            CallOutcome::PowerStatus(status),
        ) == (Translation::Transmit, Step::Call(NativeCall::SetActiveSource)),
{
}

/// Cooperative standby finishes without a call when the active source is
/// not a registered address, or is one that this device does not hold; it
/// broadcasts standby when this device holds it.
pub proof fn lemma_cooperative_standby(active: LogicalAddress, own: Vec<LogicalAddress>)
    ensures
        !active.is_registered() ==> Translation::StandbySource.next(
            CallOutcome::ActiveSource(active),
        ) == succeeded(),
        !own@.contains(active) ==> (Translation::StandbyOwnAddresses { active }).next(
            CallOutcome::LogicalAddresses(own),
        ) == succeeded(),
        (active.is_registered() && own@.contains(active)) ==> (Translation::StandbyOwnAddresses {
            active,
        }).next(CallOutcome::LogicalAddresses(own)) == (
            Translation::Transmit,
            Step::Call(NativeCall::StandbyDevices),
        ),
{
}

/// The calls made from `state` and `step` on, answering each with
/// `answer`, for at most `fuel` calls, and the result if it finished.
pub open spec fn run_with(
    state: Translation,
    step: Step,
    answer: spec_fn(NativeCall) -> CallOutcome,
    fuel: nat,
) -> (Seq<NativeCall>, Option<Result<(), CecError>>)
    decreases fuel,
{
    match step {
        Step::Finished(result) => (Seq::empty(), Some(result)),
        Step::Call(call) => if fuel == 0 {
            (Seq::empty(), None)
        } else {
            let (s2, step2) = state.next(answer(call));
            let rest = run_with(s2, step2, answer, (fuel - 1) as nat);
            (seq![call] + rest.0, rest.1)
        },
    }
}

/// The calls that carrying out `command` makes, answering each with
/// `answer`, and its result; ample fuel for every command.
pub open spec fn run_command(command: MetaCommand, answer: spec_fn(NativeCall) -> CallOutcome) -> (
    Seq<NativeCall>,
    Option<Result<(), CecError>>,
) {
    run_with(Translation::first(command).0, Translation::first(command).1, answer, 300)
}

/// Every answer to a volume step is a volume level, or an unknown status.
pub open spec fn volume_steps_go_through(answer: spec_fn(NativeCall) -> CallOutcome) -> bool {
    forall|call: NativeCall|
        (call is VolumeUp || call is VolumeDown) ==> match #[trigger] answer(call) {
            CallOutcome::Audio(Ok(_)) => true,
            CallOutcome::Audio(Err(AudioStatusError::Unknown)) => true,
            _ => false,
        }
}

/// `count` volume calls in one direction.
pub open spec fn volume_calls(up: bool, count: nat) -> Seq<NativeCall> {
    Seq::new(count, |i: int| if up { NativeCall::VolumeUp } else { NativeCall::VolumeDown })
}

proof fn lemma_stepping_runs(
    up: bool,
    count: nat,
    answer: spec_fn(NativeCall) -> CallOutcome,
    fuel: nat,
)
    requires
        count <= 256,
        count <= fuel,
        volume_steps_go_through(answer),
    ensures
        run_with(stepping(up, count as int).0, stepping(up, count as int).1, answer, fuel) == (
            volume_calls(up, count),
            Some(Ok::<(), CecError>(())),
        ),
    decreases count,
{
    if count == 0 {
        assert(volume_calls(up, 0) =~= Seq::empty());
    } else {
        let call = if up {
            NativeCall::VolumeUp
        } else {
            NativeCall::VolumeDown
        };
        let o = answer(call);
        assert(stepping(up, (count - 1) as nat as int) == (Translation::VolumeStep {
            up,
            remaining: (count - 1) as u8,
        }).next(o));
        lemma_stepping_runs(up, (count - 1) as nat, answer, (fuel - 1) as nat);
        assert(seq![call] + volume_calls(up, (count - 1) as nat) =~= volume_calls(up, count));
    }
}

/// Setting the volume level asks for the audio status, then makes one step
/// toward `target` per unit that the reported level `current` is away from
/// it, all up or all down, and succeeds; from 3 to 7 that is four steps up,
/// from 5 to 2 three steps down.
pub proof fn lemma_volume_level_calls(
    target: u8,
    current: u8,
    answer: spec_fn(NativeCall) -> CallOutcome,
)
    requires
        answer(NativeCall::AudioGetStatus) == CallOutcome::Audio(Ok::<u8, AudioStatusError>(current)),
        volume_steps_go_through(answer),
    ensures
        run_command(MetaCommand::Volume(Volume::SetLevel { volume: target }), answer) == (
            seq![NativeCall::AudioGetStatus] + volume_calls(
                level_steps(target, current).0,
                level_steps(target, current).1 as nat,
            ),
            Some(Ok::<(), CecError>(())),
        ),
{
    let (up, count) = level_steps(target, current);
    lemma_stepping_runs(up, count as nat, answer, 299);
}

/// Stepping the volume up or down makes exactly the asked number of calls
/// in that direction, ignoring an unknown audio status, and succeeds.
pub proof fn lemma_volume_step_calls(steps: u8, answer: spec_fn(NativeCall) -> CallOutcome)
    requires
        volume_steps_go_through(answer),
    ensures
        run_command(MetaCommand::Volume(Volume::Up { steps }), answer) == (
            volume_calls(true, steps as nat),
            Some(Ok::<(), CecError>(())),
        ),
        run_command(MetaCommand::Volume(Volume::Down { steps }), answer) == (
            volume_calls(false, steps as nat),
            Some(Ok::<(), CecError>(())),
        ),
{
    lemma_stepping_runs(true, steps as nat, answer, 300);
    lemma_stepping_runs(false, steps as nat, answer, 300);
}

/// Cooperative activation against an active source that is on makes only
/// the two queries and succeeds; against one in standby it then announces
/// this device, and finishes with that call's result.
pub proof fn lemma_cooperative_activation_calls(
    active: LogicalAddress,
    status: PowerStatus,
    answer: spec_fn(NativeCall) -> CallOutcome,
)
    requires
        answer(NativeCall::GetActiveSource) == CallOutcome::ActiveSource(active),
        answer(NativeCall::GetDevicePowerStatus(active)) == CallOutcome::PowerStatus(status),
        answer(NativeCall::SetActiveSource) is Transmitted,
    ensures
        status is On ==> run_command(
            MetaCommand::Active(Active::SetSource { cooperative: true }),
            answer,
        ) == (
            seq![NativeCall::GetActiveSource, NativeCall::GetDevicePowerStatus(active)],
            Some(Ok::<(), CecError>(())),
        ),
        status is Standby ==> run_command(
            MetaCommand::Active(Active::SetSource { cooperative: true }),
            answer,
        ).0 == seq![
            NativeCall::GetActiveSource,
            NativeCall::GetDevicePowerStatus(active),
            NativeCall::SetActiveSource,
        ],
{
    let c = MetaCommand::Active(Active::SetSource { cooperative: true });
    let (t0, s0) = Translation::first(c);
    let (t1, s1) = t0.next(answer(NativeCall::GetActiveSource));
    let (t2, s2) = t1.next(answer(NativeCall::GetDevicePowerStatus(active)));
    assert(s1 == Step::Call(NativeCall::GetDevicePowerStatus(active)));
    if status is On {
        assert(s2 == Step::Finished(Ok::<(), CecError>(())));
        let r2 = run_with(t2, s2, answer, 298);
        assert(r2.0 =~= Seq::empty() && r2.1 == Some(Ok::<(), CecError>(())));
        let r1 = run_with(t1, s1, answer, 299);
        assert(r1.0 =~= seq![NativeCall::GetDevicePowerStatus(active)] + r2.0);
        let r0 = run_with(t0, s0, answer, 300);
        assert(r0.0 =~= seq![NativeCall::GetActiveSource] + r1.0);
        assert(r0.0 =~= seq![
            NativeCall::GetActiveSource,
            NativeCall::GetDevicePowerStatus(active),
        ]);
    }
    if status is Standby {
        assert(s2 == Step::Call(NativeCall::SetActiveSource));
        let (t3, s3) = t2.next(answer(NativeCall::SetActiveSource));
        assert(s3 is Finished);
        let r3 = run_with(t3, s3, answer, 297);
        assert(r3.0 =~= Seq::empty());
        let r2 = run_with(t2, s2, answer, 298);
        assert(r2.0 =~= seq![NativeCall::SetActiveSource] + r3.0);
        let r1 = run_with(t1, s1, answer, 299);
        assert(r1.0 =~= seq![NativeCall::GetDevicePowerStatus(active)] + r2.0);
        let r0 = run_with(t0, s0, answer, 300);
        assert(r0.0 =~= seq![NativeCall::GetActiveSource] + r1.0);
        assert(r0.0 =~= seq![
            NativeCall::GetActiveSource,
            NativeCall::GetDevicePowerStatus(active),
            NativeCall::SetActiveSource,
        ]);
    }
}

/// Cooperative power-off when this device does not hold the active
/// source's address makes no standby call: it asks for the active source
/// and for its own addresses, and succeeds.
pub proof fn lemma_cooperative_standby_calls(
    active: LogicalAddress,
    own: Vec<LogicalAddress>,
    answer: spec_fn(NativeCall) -> CallOutcome,
)
    requires
        answer(NativeCall::GetActiveSource) == CallOutcome::ActiveSource(active),
        answer(NativeCall::GetLogicalAddresses) == CallOutcome::LogicalAddresses(own),
        !own@.contains(active),
    ensures
        !run_command(MetaCommand::Power(Power::Off { cooperative: true }), answer).0.contains(
            NativeCall::StandbyDevices,
        ),
        run_command(MetaCommand::Power(Power::Off { cooperative: true }), answer).1 == Some(
            Ok::<(), CecError>(()),
        ),
{
    let c = MetaCommand::Power(Power::Off { cooperative: true });
    let (t0, s0) = Translation::first(c);
    let (t1, s1) = t0.next(answer(NativeCall::GetActiveSource));
    let r0 = run_with(t0, s0, answer, 300);
    let r1 = run_with(t1, s1, answer, 299);
    assert(r0.0 =~= seq![NativeCall::GetActiveSource] + r1.0 && r0.1 == r1.1);
    if active.is_registered() {
        assert(s1 == Step::Call(NativeCall::GetLogicalAddresses));
        let (t2, s2) = t1.next(answer(NativeCall::GetLogicalAddresses));
        assert(s2 == Step::Finished(Ok::<(), CecError>(())));
        let r2 = run_with(t2, s2, answer, 298);
        assert(r2.0 =~= Seq::empty() && r2.1 == Some(Ok::<(), CecError>(())));
        assert(r1.0 =~= seq![NativeCall::GetLogicalAddresses] + r2.0 && r1.1 == r2.1);
        assert(r0.0 =~= seq![NativeCall::GetActiveSource, NativeCall::GetLogicalAddresses]);
    } else {
        assert(s1 == Step::Finished(Ok::<(), CecError>(())));
        assert(r1.0 =~= Seq::empty() && r1.1 == Some(Ok::<(), CecError>(())));
        assert(r0.0 =~= seq![NativeCall::GetActiveSource]);
    }
    assert(!r0.0.contains(NativeCall::StandbyDevices)) by {
        if r0.0.contains(NativeCall::StandbyDevices) {
            let i = choose|i: int| 0 <= i < r0.0.len() && r0.0[i] == NativeCall::StandbyDevices;
        }
    }
}

} // verus!
