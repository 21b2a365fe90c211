use vstd::prelude::*;

verus! {

/// A device property that can name a device.
#[derive(Debug, Clone, Copy, PartialEq, Eq, Structural)]
pub enum DeviceProperty {
    FriendlyName,
    Description,
}

/// A change of a device's enabled state, applied at global scope.
#[derive(Debug, Clone, Copy, PartialEq, Eq, Structural)]
pub enum StateChange {
    Disable,
    Enable,
}

/// A failed system call of the device recovery, with its status code.
#[derive(Debug, Clone, Copy, PartialEq, Eq, Structural)]
pub struct DeviceError {
    pub code: i32,
}

/// How a device recovery ended.
#[derive(Debug, Clone, Copy, PartialEq, Eq, Structural)]
pub enum RecoveryOutcome {
    /// The device was disabled and enabled again.
    Restarted,
    /// No present device carries the target name.
    DeviceNotFound,
    /// A system call failed; the first failure is kept.
    Failed(DeviceError),
}

/// Where a device recovery stands.
#[derive(Debug, Clone, Copy, PartialEq, Eq, Structural)]
pub enum RecoveryPhase {
    /// The set of present devices is to be acquired.
    Open,
    /// The device at `index` in the set is to be enumerated.
    Enumerate { index: u32 },
    /// A name of the device at `index` is to be read.
    QueryName { index: u32, property: DeviceProperty },
    /// The matching device is to be disabled.
    Disable { index: u32 },
    /// The disabled device is left to settle.
    Dwell { index: u32 },
    /// The matching device is to be enabled again.
    Enable { index: u32 },
    /// The device set is to be released; `outcome` is what the recovery reports after.
    Release { outcome: RecoveryOutcome },
    /// The recovery is over.
    Finished { outcome: RecoveryOutcome },
}

/// What the caller is to do next on behalf of a device recovery.
#[derive(Debug, Clone, Copy, PartialEq, Eq, Structural)]
pub enum RecoveryAction {
    /// Acquire the set of all present devices, of every class.
    OpenDeviceSet,
    /// Read the device record at `index` of the set.
    EnumerateDevice { index: u32 },
    /// Read a name property of the device at `index`.
    QueryProperty { index: u32, property: DeviceProperty },
    /// Change the enabled state of the device at `index`.
    ChangeState { index: u32, change: StateChange },
    /// Block for this many seconds.
    Wait { secs: u64 },
    /// Release the device set.
    ReleaseDeviceSet,
    /// Nothing is left to do: report this outcome.
    Finish { outcome: RecoveryOutcome },
}

/// What came of the last action.
#[derive(Debug, Clone)]
pub enum RecoveryEvent {
    /// The action succeeded (for an enumeration: the device exists).
    Done,
    /// The enumeration has no device at the requested index.
    NoMoreDevices,
    /// The property read: its text, or `None` where the device lacks it.
    Property(Option<String>),
    /// The system call failed with this status code.
    Failed(i32),
}

/// A recovery that toggles the first present device named `target`.
#[derive(Debug, Clone)]
pub struct DeviceRecovery {
    pub target: String,
    pub dwell_secs: u64,
    pub phase: RecoveryPhase,
}

/// The phase after the device at `index` turned out not to be the target.
pub open spec fn after_device(index: u32) -> RecoveryPhase {
    if index < u32::MAX {
        RecoveryPhase::Enumerate { index: (index + 1) as u32 }
    } else {
        RecoveryPhase::Release { outcome: RecoveryOutcome::DeviceNotFound }
    }
}

/// The phase after a name property of the device at `index` was not available.
pub open spec fn after_missing_name(index: u32, property: DeviceProperty) -> RecoveryPhase {
    match property {
        DeviceProperty::FriendlyName => RecoveryPhase::QueryName {
            index,
            property: DeviceProperty::Description,
        },
        DeviceProperty::Description => after_device(index),
    }
}

/// How a recovery moves on when `event` answers the action of `phase`.
/// An event that does not answer that action leaves the phase as it is.
pub open spec fn next_phase(phase: RecoveryPhase, event: RecoveryEvent, target: Seq<char>) -> RecoveryPhase {
    match phase {
        RecoveryPhase::Open => match event {
            RecoveryEvent::Done => RecoveryPhase::Enumerate { index: 0 },
            RecoveryEvent::Failed(code) => RecoveryPhase::Finished {
                outcome: RecoveryOutcome::Failed(DeviceError { code }),
            },
            _ => phase,
        },
        RecoveryPhase::Enumerate { index } => match event {
            RecoveryEvent::Done => RecoveryPhase::QueryName {
                index,
                property: DeviceProperty::FriendlyName,
            },
            RecoveryEvent::NoMoreDevices => RecoveryPhase::Release { outcome: RecoveryOutcome::DeviceNotFound },
            // an enumeration that fails ends the scan, as the end of the list does
            RecoveryEvent::Failed(_) => RecoveryPhase::Release { outcome: RecoveryOutcome::DeviceNotFound },
            _ => phase,
        },
        RecoveryPhase::QueryName { index, property } => match event {
            RecoveryEvent::Property(Some(name)) => if name@ == target {
                RecoveryPhase::Disable { index }
            } else {
                after_device(index)
            },
            RecoveryEvent::Property(None) => after_missing_name(index, property),
            RecoveryEvent::Failed(_) => after_missing_name(index, property),
            _ => phase,
        },
        RecoveryPhase::Disable { index } => match event {
            RecoveryEvent::Done => RecoveryPhase::Dwell { index },
            RecoveryEvent::Failed(code) => RecoveryPhase::Release {
                outcome: RecoveryOutcome::Failed(DeviceError { code }),
            },
            _ => phase,
        },
        RecoveryPhase::Dwell { index } => match event {
            RecoveryEvent::Done => RecoveryPhase::Enable { index },
            _ => phase,
        },
        RecoveryPhase::Enable { index } => match event {
            RecoveryEvent::Done => RecoveryPhase::Release { outcome: RecoveryOutcome::Restarted },
            RecoveryEvent::Failed(code) => RecoveryPhase::Release {
                outcome: RecoveryOutcome::Failed(DeviceError { code }),
            },
            _ => phase,
        },
        RecoveryPhase::Release { outcome } => match event {
            RecoveryEvent::Done => RecoveryPhase::Finished { outcome },
            RecoveryEvent::Failed(code) => RecoveryPhase::Finished {
                outcome: if outcome is Failed {
                    outcome
                } else {
                    RecoveryOutcome::Failed(DeviceError { code })
                },
            },
            _ => phase,
        },
        RecoveryPhase::Finished { .. } => phase,
    }
}

/// The action that a phase asks of the caller.
pub open spec fn phase_action(phase: RecoveryPhase, dwell_secs: u64) -> RecoveryAction {
    match phase {
        RecoveryPhase::Open => RecoveryAction::OpenDeviceSet,
        RecoveryPhase::Enumerate { index } => RecoveryAction::EnumerateDevice { index },
        RecoveryPhase::QueryName { index, property } => RecoveryAction::QueryProperty {
            index,
            property,
        },
        RecoveryPhase::Disable { index } => RecoveryAction::ChangeState {
            index,
            change: StateChange::Disable,
        },
        RecoveryPhase::Dwell { .. } => RecoveryAction::Wait { secs: dwell_secs },
        RecoveryPhase::Enable { index } => RecoveryAction::ChangeState {
            index,
            change: StateChange::Enable,
        },
        RecoveryPhase::Release { .. } => RecoveryAction::ReleaseDeviceSet,
        RecoveryPhase::Finished { outcome } => RecoveryAction::Finish { outcome },
    }
}

impl DeviceRecovery {
    /// A recovery of the device named `target`, to be left disabled for
    /// `dwell_secs` seconds before it is enabled again.
    pub fn new(target: String, dwell_secs: u64) -> (r: DeviceRecovery)
        ensures
            r.target == target,
            r.dwell_secs == dwell_secs,
            r.phase == RecoveryPhase::Open,
    {
        DeviceRecovery { target, dwell_secs, phase: RecoveryPhase::Open }
    }

    /// The action that the caller is to perform next.
    pub fn action(&self) -> (a: RecoveryAction)
        ensures
            a == phase_action(self.phase, self.dwell_secs),
    {
        match self.phase {
            RecoveryPhase::Open => RecoveryAction::OpenDeviceSet,
            RecoveryPhase::Enumerate { index } => RecoveryAction::EnumerateDevice { index },
            RecoveryPhase::QueryName { index, property } => RecoveryAction::QueryProperty {
                index,
                property,
            },
            RecoveryPhase::Disable { index } => RecoveryAction::ChangeState {
                index,
                change: StateChange::Disable,
            },
            RecoveryPhase::Dwell { .. } => RecoveryAction::Wait { secs: self.dwell_secs },
            RecoveryPhase::Enable { index } => RecoveryAction::ChangeState {
                index,
                change: StateChange::Enable,
            },
            RecoveryPhase::Release { .. } => RecoveryAction::ReleaseDeviceSet,
            RecoveryPhase::Finished { outcome } => RecoveryAction::Finish { outcome },
        }
    }

    /// Moves the recovery on by what came of its last action.
    pub fn advance(&mut self, event: RecoveryEvent)
        ensures
            final(self).target == old(self).target,
            final(self).dwell_secs == old(self).dwell_secs,
            final(self).phase == next_phase(old(self).phase, event, old(self).target@),
    {
        let next = match self.phase {
            RecoveryPhase::Open => match event {
                RecoveryEvent::Done => RecoveryPhase::Enumerate { index: 0 },
                RecoveryEvent::Failed(code) => RecoveryPhase::Finished {
                    outcome: RecoveryOutcome::Failed(DeviceError { code }),
                },
                _ => self.phase,
            },
            RecoveryPhase::Enumerate { index } => match event {
                RecoveryEvent::Done => RecoveryPhase::QueryName {
                    index,
                    property: DeviceProperty::FriendlyName,
                },
                RecoveryEvent::NoMoreDevices => RecoveryPhase::Release { outcome: RecoveryOutcome::DeviceNotFound },
                RecoveryEvent::Failed(_) => RecoveryPhase::Release { outcome: RecoveryOutcome::DeviceNotFound },
                _ => self.phase,
            },
            RecoveryPhase::QueryName { index, property } => match event {
                RecoveryEvent::Property(Some(name)) => {
                    if name == self.target {
                        RecoveryPhase::Disable { index }
                    } else {
                        next_device(index)
                    }
                },
                RecoveryEvent::Property(None) => missing_name(index, property),
                RecoveryEvent::Failed(_) => missing_name(index, property),
                _ => self.phase,
            },
            RecoveryPhase::Disable { index } => match event {
                RecoveryEvent::Done => RecoveryPhase::Dwell { index },
                RecoveryEvent::Failed(code) => RecoveryPhase::Release {
                    outcome: RecoveryOutcome::Failed(DeviceError { code }),
                },
                _ => self.phase,
            },
            RecoveryPhase::Dwell { index } => match event {
                RecoveryEvent::Done => RecoveryPhase::Enable { index },
                _ => self.phase,
            },
            RecoveryPhase::Enable { index } => match event {
                RecoveryEvent::Done => RecoveryPhase::Release { outcome: RecoveryOutcome::Restarted },
                RecoveryEvent::Failed(code) => RecoveryPhase::Release {
                    outcome: RecoveryOutcome::Failed(DeviceError { code }),
                },
                _ => self.phase,
            },
            RecoveryPhase::Release { outcome } => match event {
                RecoveryEvent::Done => RecoveryPhase::Finished { outcome },
                RecoveryEvent::Failed(code) => RecoveryPhase::Finished {
                    outcome: if matches!(outcome, RecoveryOutcome::Failed(_)) {
                        outcome
                    } else {
                        RecoveryOutcome::Failed(DeviceError { code })
                    },
                },
                _ => self.phase,
            },
            RecoveryPhase::Finished { .. } => self.phase,
        };
        self.phase = next;
    }

    /// The outcome of a recovery that is over, `None` while it runs.
    pub fn outcome(&self) -> (r: Option<RecoveryOutcome>)
        ensures
            r == (match self.phase {
                (RecoveryPhase::Finished { outcome }) => Some(outcome),
                _ => None,
            }),
    {
        match self.phase {
            RecoveryPhase::Finished { outcome } => Some(outcome),
            _ => None,
        }
    }
}

fn next_device(index: u32) -> (r: RecoveryPhase)
    ensures
        r == after_device(index),
{
    if index < u32::MAX {
        RecoveryPhase::Enumerate { index: index + 1 }
    } else {
        RecoveryPhase::Release { outcome: RecoveryOutcome::DeviceNotFound }
    }
}

fn missing_name(index: u32, property: DeviceProperty) -> (r: RecoveryPhase)
    ensures
        r == after_missing_name(index, property),
{
    match property {
        DeviceProperty::FriendlyName => RecoveryPhase::QueryName {
            index,
            property: DeviceProperty::Description,
        },
        DeviceProperty::Description => next_device(index),
    }
}

/// A present device as a recovery sees it: its friendly name and its
/// description, each absent where the device lacks it.
pub type DeviceNames = (Option<String>, Option<String>);

/// The name a device is matched by: its friendly name, else its description.
pub open spec fn resolved_name(d: DeviceNames) -> Option<Seq<char>> {
    match d.0 {
        Some(name) => Some(name@),
        None => match d.1 {
            Some(desc) => Some(desc@),
            None => None,
        },
    }
}

/// The answer of a system holding the present devices `devices`, on which
/// every call succeeds, to `action`.
pub open spec fn model_event(devices: Seq<DeviceNames>, action: RecoveryAction) -> RecoveryEvent {
    match action {
        RecoveryAction::EnumerateDevice { index } => if index < devices.len() {
            RecoveryEvent::Done
        } else {
            RecoveryEvent::NoMoreDevices
        },
        RecoveryAction::QueryProperty { index, property } => RecoveryEvent::Property(
            match property {
                DeviceProperty::FriendlyName => devices[index as int].0,
                DeviceProperty::Description => devices[index as int].1,
            },
        ),
        _ => RecoveryEvent::Done,
    }
}

/// One step of a recovery run against the system `devices`.
pub open spec fn model_step(
    phase: RecoveryPhase,
    devices: Seq<DeviceNames>,
    target: Seq<char>,
    dwell_secs: u64,
) -> RecoveryPhase {
    next_phase(phase, model_event(devices, phase_action(phase, dwell_secs)), target)
}

/// The phase after `n` steps against the system `devices`.
pub open spec fn model_phase_after(
    phase: RecoveryPhase,
    devices: Seq<DeviceNames>,
    target: Seq<char>,
    dwell_secs: u64,
    n: nat,
) -> RecoveryPhase
    decreases n,
{
    if n == 0 {
        phase
    } else {
        model_phase_after(model_step(phase, devices, target, dwell_secs), devices, target, dwell_secs, (n - 1) as nat)
    }
}

/// An action that acts on a device or waits on one.
pub open spec fn is_device_command(a: RecoveryAction) -> bool {
    a is ChangeState || a is Wait
}

/// The device commands issued, in order, during `n` steps against the system `devices`.
pub open spec fn model_commands(
    phase: RecoveryPhase,
    devices: Seq<DeviceNames>,
    target: Seq<char>,
    dwell_secs: u64,
    n: nat,
) -> Seq<RecoveryAction>
    decreases n,
{
    if n == 0 {
        Seq::empty()
    } else {
        let a = phase_action(phase, dwell_secs);
        let rest = model_commands(
            model_step(phase, devices, target, dwell_secs),
            devices,
            target,
            dwell_secs,
            (n - 1) as nat,
        );
        if is_device_command(a) {
            seq![a] + rest
        } else {
            rest
        }
    }
}

proof fn lemma_run_split(
    phase: RecoveryPhase,
    devices: Seq<DeviceNames>,
    target: Seq<char>,
    dwell_secs: u64,
    a: nat,
    b: nat,
)
    ensures
        model_phase_after(phase, devices, target, dwell_secs, a + b) == model_phase_after(
            model_phase_after(phase, devices, target, dwell_secs, a),
            devices,
            target,
            dwell_secs,
            b,
        ),
        model_commands(phase, devices, target, dwell_secs, a + b) == model_commands(
            phase,
            devices,
            target,
            dwell_secs,
            a,
        ) + model_commands(
            model_phase_after(phase, devices, target, dwell_secs, a),
            devices,
            target,
            dwell_secs,
            b,
        ),
    decreases a,
{
    if a == 0 {
        assert(model_commands(phase, devices, target, dwell_secs, 0) =~= Seq::empty());
        assert(Seq::<RecoveryAction>::empty() + model_commands(phase, devices, target, dwell_secs, b)
            =~= model_commands(phase, devices, target, dwell_secs, b));
    } else {
        let next = model_step(phase, devices, target, dwell_secs);
        lemma_run_split(next, devices, target, dwell_secs, (a - 1) as nat, b);
        assert((a + b - 1) as nat == (a - 1) as nat + b);
        let act = phase_action(phase, dwell_secs);
        if is_device_command(act) {
            assert(model_commands(phase, devices, target, dwell_secs, a + b) =~= model_commands(
                phase,
                devices,
                target,
                dwell_secs,
                a,
            ) + model_commands(
                model_phase_after(phase, devices, target, dwell_secs, a),
                devices,
                target,
                dwell_secs,
                b,
            ));
        }
    }
}

/// Scanning one device that is not the target moves on to the next one
/// without any device command; scanning the target reaches its disabling.
proof fn lemma_scan_one(devices: Seq<DeviceNames>, target: Seq<char>, dwell_secs: u64, i: int) -> (n: nat)
    requires
        0 <= i < devices.len(),
        i <= u32::MAX,
    ensures
        model_phase_after(RecoveryPhase::Enumerate { index: i as u32 }, devices, target, dwell_secs, n)
            == (if resolved_name(devices[i]) == Some(target) {
            (RecoveryPhase::Disable { index: i as u32 })
        } else {
            after_device(i as u32)
        }),
        model_commands(RecoveryPhase::Enumerate { index: i as u32 }, devices, target, dwell_secs, n)
            == Seq::<RecoveryAction>::empty(),
{
    let enumerate = RecoveryPhase::Enumerate { index: i as u32 };
    let by_friendly = RecoveryPhase::QueryName { index: i as u32, property: DeviceProperty::FriendlyName };
    let by_description = RecoveryPhase::QueryName { index: i as u32, property: DeviceProperty::Description };
    assert(model_step(enumerate, devices, target, dwell_secs) == by_friendly);
    reveal_with_fuel(model_phase_after, 4);
    reveal_with_fuel(model_commands, 4);
    if devices[i].0 is Some {
        2
    } else {
        assert(model_step(by_friendly, devices, target, dwell_secs) == by_description);
        3
    }
}

/// Scanning devices `i` up to `k`, none of which is the target before `k`,
/// reaches device `k` without any device command.
proof fn lemma_scan(devices: Seq<DeviceNames>, target: Seq<char>, dwell_secs: u64, i: int, k: int) -> (n: nat)
    requires
        0 <= i <= k <= devices.len(),
        k <= u32::MAX,
        forall|j: int| i <= j < k ==> resolved_name(#[trigger] devices[j]) != Some(target),
    ensures
        model_phase_after(RecoveryPhase::Enumerate { index: i as u32 }, devices, target, dwell_secs, n)
            == (RecoveryPhase::Enumerate { index: k as u32 }),
        model_commands(RecoveryPhase::Enumerate { index: i as u32 }, devices, target, dwell_secs, n)
            == Seq::<RecoveryAction>::empty(),
    decreases k - i,
{
    let p = RecoveryPhase::Enumerate { index: i as u32 };
    if i == k {
        0
    } else {
        let m = lemma_scan_one(devices, target, dwell_secs, i);
        let rest = lemma_scan(devices, target, dwell_secs, i + 1, k);
        lemma_run_split(p, devices, target, dwell_secs, m, rest);
        assert(Seq::<RecoveryAction>::empty() + Seq::<RecoveryAction>::empty() =~= Seq::<RecoveryAction>::empty());
        m + rest
    }
}

/// Given present devices of which exactly one, at `k`, carries the target
/// name, a recovery in which every call succeeds disables that device once,
/// waits the dwell, enables it once, in that order and with no other device
/// command, and reports the device restarted.
pub proof fn lemma_single_match_restarts_once(
    devices: Seq<DeviceNames>,
    target: Seq<char>,
    dwell_secs: u64,
    k: int,
)
    requires
        0 <= k < devices.len(),
        k <= u32::MAX,
        resolved_name(devices[k]) == Some(target),
        forall|j: int| 0 <= j < devices.len() && j != k ==> resolved_name(#[trigger] devices[j]) != Some(target),
    ensures
        exists|n: nat|
            model_phase_after(RecoveryPhase::Open, devices, target, dwell_secs, n)
                == (RecoveryPhase::Finished { outcome: RecoveryOutcome::Restarted })
            && #[trigger] model_commands(RecoveryPhase::Open, devices, target, dwell_secs, n)
                == seq![
                (RecoveryAction::ChangeState { index: k as u32, change: StateChange::Disable }),
                (RecoveryAction::Wait { secs: dwell_secs }),
                (RecoveryAction::ChangeState { index: k as u32, change: StateChange::Enable }),
            ],
{
    let open = RecoveryPhase::Open;
    let start = RecoveryPhase::Enumerate { index: 0 };
    let at_k = RecoveryPhase::Enumerate { index: k as u32 };
    let disable = RecoveryPhase::Disable { index: k as u32 };
    reveal_with_fuel(model_phase_after, 5);
    reveal_with_fuel(model_commands, 5);
    assert(model_phase_after(open, devices, target, dwell_secs, 1) == start);
    assert(model_commands(open, devices, target, dwell_secs, 1) =~= Seq::<RecoveryAction>::empty());
    let scan = lemma_scan(devices, target, dwell_secs, 0, k);
    let one = lemma_scan_one(devices, target, dwell_secs, k);
    let toggle = model_commands(disable, devices, target, dwell_secs, 4);
    assert(model_phase_after(disable, devices, target, dwell_secs, 4)
        == RecoveryPhase::Finished { outcome: RecoveryOutcome::Restarted });
    assert(toggle =~= seq![
        RecoveryAction::ChangeState { index: k as u32, change: StateChange::Disable },
        RecoveryAction::Wait { secs: dwell_secs },
        RecoveryAction::ChangeState { index: k as u32, change: StateChange::Enable },
    ]);
    lemma_run_split(at_k, devices, target, dwell_secs, one, 4);
    lemma_run_split(start, devices, target, dwell_secs, scan, one + 4);
    lemma_run_split(open, devices, target, dwell_secs, 1, scan + one + 4);
    let n = 1 + scan + one + 4;
    assert(Seq::<RecoveryAction>::empty() + toggle =~= toggle);
    assert(Seq::<RecoveryAction>::empty() + (Seq::<RecoveryAction>::empty() + toggle) =~= toggle);
    assert(model_commands(open, devices, target, dwell_secs, (1 + (scan + (one + 4))) as nat) == toggle);
    assert((1 + (scan + (one + 4))) as nat == n);
}

/// Given present devices none of which carries the target name, a recovery
/// in which every call succeeds issues no device command and reports the
/// device not found.
pub proof fn lemma_no_match_changes_nothing(
    devices: Seq<DeviceNames>,
    target: Seq<char>,
    dwell_secs: u64,
)
    requires
        forall|j: int| 0 <= j < devices.len() ==> resolved_name(#[trigger] devices[j]) != Some(target),
    ensures
        exists|n: nat|
            model_phase_after(RecoveryPhase::Open, devices, target, dwell_secs, n)
                == (RecoveryPhase::Finished { outcome: RecoveryOutcome::DeviceNotFound })
            && #[trigger] model_commands(RecoveryPhase::Open, devices, target, dwell_secs, n)
                == Seq::<RecoveryAction>::empty(),
{
    let empty = Seq::<RecoveryAction>::empty();
    let open = RecoveryPhase::Open;
    let start = RecoveryPhase::Enumerate { index: 0 };
    let release = RecoveryPhase::Release { outcome: RecoveryOutcome::DeviceNotFound };
    let done = RecoveryPhase::Finished { outcome: RecoveryOutcome::DeviceNotFound };
    reveal_with_fuel(model_phase_after, 3);
    reveal_with_fuel(model_commands, 3);
    assert(model_commands(open, devices, target, dwell_secs, 1) =~= empty);
    assert(model_phase_after(release, devices, target, dwell_secs, 1) == done);
    assert(model_commands(release, devices, target, dwell_secs, 1) =~= empty);
    assert(empty + empty =~= empty);
    // the scan ends at the end of the list, or at the last index the
    // enumeration can address
    let last: int = if devices.len() <= u32::MAX {
        devices.len() as int
    } else {
        u32::MAX as int
    };
    let at_last = RecoveryPhase::Enumerate { index: last as u32 };
    let scan = lemma_scan(devices, target, dwell_secs, 0, last);
    let tail: nat = if devices.len() <= u32::MAX {
        assert(model_phase_after(at_last, devices, target, dwell_secs, 1) == release);
        assert(model_commands(at_last, devices, target, dwell_secs, 1) =~= empty);
        1
    } else {
        let one = lemma_scan_one(devices, target, dwell_secs, last);
        one
    };
    lemma_run_split(at_last, devices, target, dwell_secs, tail, 1);
    lemma_run_split(start, devices, target, dwell_secs, scan, tail + 1);
    lemma_run_split(open, devices, target, dwell_secs, 1, scan + (tail + 1));
    assert(model_phase_after(open, devices, target, dwell_secs, (1 + (scan + (tail + 1))) as nat) == done);
    assert(model_commands(open, devices, target, dwell_secs, (1 + (scan + (tail + 1))) as nat) =~= empty);
}

} // verus!
