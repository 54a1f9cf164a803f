//! The two cooperating processes of a session, as state machines. Each
//! machine names the next action; the caller performs it and reports what
//! happened. The parent maps the child's ids and then releases it over a
//! one-shot channel; the child waits for that release before it builds the
//! sandbox.
use vstd::prelude::*;

verus! {

/// Why the tool refuses to start.
#[derive(Clone, Copy, Debug, PartialEq, Eq, Structural)]
pub enum PrivilegeError {
    /// The process already runs inside a sandbox of this tool.
    Stacked,
    /// The invoker is root.
    RunAsRoot,
}

/// The admission policy, checked before anything else is done: no sandbox
/// inside a sandbox, and none for root.
pub fn check_admission(already_sandboxed: bool, uid: u32) -> (r: Result<(), PrivilegeError>)
    ensures
        already_sandboxed ==> r == Err::<(), PrivilegeError>(PrivilegeError::Stacked),
        !already_sandboxed && uid == 0 ==> r == Err::<(), PrivilegeError>(
            PrivilegeError::RunAsRoot,
        ),
        !already_sandboxed && uid != 0 ==> r == Ok::<(), PrivilegeError>(()),
{
    if already_sandboxed {
        Err(PrivilegeError::Stacked)
    } else if uid == 0 {
        Err(PrivilegeError::RunAsRoot)
    } else {
        Ok(())
    }
}

/// How the child ended, as the wait for it reports.
#[derive(Clone, Copy, Debug, PartialEq, Eq, Structural)]
pub enum ChildStatus {
    /// It exited with this status.
    Exited(i32),
    /// A signal with this number ended it.
    Signaled(i32),
    /// Any other report.
    Other,
}

/// The meaning of a child's end for the session.
#[derive(Clone, Copy, Debug, PartialEq, Eq, Structural)]
pub enum ExitOutcome {
    Clean,
    Failed(i32),
    Killed(i32),
    Abnormal,
}

/// Exit status 0 is clean, any other exit a failure, a signal a kill.
pub open spec fn spec_classify(status: ChildStatus) -> ExitOutcome {
    match status {
        ChildStatus::Exited(c) => if c == 0 {
            ExitOutcome::Clean
        } else {
            ExitOutcome::Failed(c)
        },
        ChildStatus::Signaled(s) => ExitOutcome::Killed(s),
        ChildStatus::Other => ExitOutcome::Abnormal,
    }
}

/// The tool's own exit status for an outcome: 0 for a clean end; the
/// child's status when it is a valid non-zero one; 128 plus the signal
/// number for a kill by a valid signal; 1 otherwise.
pub open spec fn spec_exit_code(outcome: ExitOutcome) -> i32 {
    match outcome {
        ExitOutcome::Clean => 0,
        ExitOutcome::Failed(c) => if 0 < c < 256 {
            c
        } else {
            1
        },
        ExitOutcome::Killed(s) => if 0 < s < 128 {
            (128 + s) as i32
        } else {
            1
        },
        ExitOutcome::Abnormal => 1,
    }
}

/// Classifies how the child ended.
pub fn classify(status: ChildStatus) -> (r: ExitOutcome)
    ensures
        r == spec_classify(status),
{
    match status {
        ChildStatus::Exited(c) => if c == 0 {
            ExitOutcome::Clean
        } else {
            ExitOutcome::Failed(c)
        },
        ChildStatus::Signaled(s) => ExitOutcome::Killed(s),
        ChildStatus::Other => ExitOutcome::Abnormal,
    }
}

/// The exit status of the tool for `outcome`; zero only for a clean end.
pub fn exit_code(outcome: ExitOutcome) -> (r: i32)
    ensures
        r == spec_exit_code(outcome),
        r == 0 <==> outcome == ExitOutcome::Clean,
{
    match outcome {
        ExitOutcome::Clean => 0,
        ExitOutcome::Failed(c) => if 0 < c && c < 256 {
            c
        } else {
            1
        },
        ExitOutcome::Killed(s) => if 0 < s && s < 128 {
            128 + s
        } else {
            1
        },
        ExitOutcome::Abnormal => 1,
    }
}

/// The number of identity-control writes that the parent makes for the
/// child: uid map, group-change denial, gid map.
pub const CHILD_WRITES: usize = 3;

/// What the parent process does next.
#[derive(Clone, Copy, Debug, PartialEq, Eq, Structural)]
pub enum ParentAction {
    /// Refuse to run; nothing has been touched.
    Refuse(PrivilegeError),
    /// Lay out the session, create its directories, resolve the command.
    Prepare,
    /// Create the one-shot channel.
    OpenChannel,
    /// Create the child inside new user and mount namespaces.
    SpawnChild,
    /// Close the parent's copy of the channel's read end.
    CloseReadEnd,
    /// Look at the parent's capabilities, for diagnostics only.
    ProbeCapabilities,
    /// Make the write of this index among the child's identity writes.
    WriteChildControl(usize),
    /// Put a failure byte on the channel, so that the child does not go on.
    SignalFailure,
    /// Close the channel's write end, which wakes the child.
    CloseWriteEnd,
    /// Wait for the child to end.
    AwaitChild,
    /// End the process with this status.
    Exit(i32),
}

/// What came of the parent's last action.
#[derive(Clone, Copy, Debug, PartialEq, Eq, Structural)]
pub enum ParentEvent {
    Succeeded,
    Failed,
    /// The wait reported the child's end.
    ChildEnded(ChildStatus),
}

/// Where the parent stands.
#[derive(Clone, Copy, Debug, PartialEq, Eq, Structural)]
pub enum ParentPhase {
    Refused(PrivilegeError),
    Preparing,
    OpeningChannel,
    Spawning,
    ClosingReadEnd,
    Probing,
    /// The next identity write to make, by index.
    Mapping(usize),
    Aborting,
    ReleasingAfterFailure,
    Releasing,
    Waiting,
    Reaping,
    Finished(i32),
}

/// The first phase: refused by the admission policy, or preparing.
pub open spec fn spec_parent_start(already_sandboxed: bool, uid: u32) -> ParentPhase {
    if already_sandboxed {
        ParentPhase::Refused(PrivilegeError::Stacked)
    } else if uid == 0 {
        ParentPhase::Refused(PrivilegeError::RunAsRoot)
    } else {
        ParentPhase::Preparing
    }
}

pub open spec fn spec_parent_action(p: ParentPhase) -> ParentAction {
    match p {
        ParentPhase::Refused(e) => ParentAction::Refuse(e),
        ParentPhase::Preparing => ParentAction::Prepare,
        ParentPhase::OpeningChannel => ParentAction::OpenChannel,
        ParentPhase::Spawning => ParentAction::SpawnChild,
        ParentPhase::ClosingReadEnd => ParentAction::CloseReadEnd,
        ParentPhase::Probing => ParentAction::ProbeCapabilities,
        ParentPhase::Mapping(k) => ParentAction::WriteChildControl(k),
        ParentPhase::Aborting => ParentAction::SignalFailure,
        ParentPhase::ReleasingAfterFailure => ParentAction::CloseWriteEnd,
        ParentPhase::Releasing => ParentAction::CloseWriteEnd,
        ParentPhase::Waiting => ParentAction::AwaitChild,
        ParentPhase::Reaping => ParentAction::AwaitChild,
        ParentPhase::Finished(c) => ParentAction::Exit(c),
    }
}

/// The phase after the action of `p` had the result `e`. A failure before
/// the child exists ends the session; one after it has been created signals
/// the child, releases it and reaps it. The capability probe never fails the
/// session.
pub open spec fn spec_parent_advance(p: ParentPhase, e: ParentEvent) -> ParentPhase {
    let ok = e == ParentEvent::Succeeded;
    match p {
        ParentPhase::Refused(x) => ParentPhase::Refused(x),
        ParentPhase::Preparing => if ok {
            ParentPhase::OpeningChannel
        } else {
            ParentPhase::Finished(1)
        },
        ParentPhase::OpeningChannel => if ok {
            ParentPhase::Spawning
        } else {
            ParentPhase::Finished(1)
        },
        ParentPhase::Spawning => if ok {
            ParentPhase::ClosingReadEnd
        } else {
            ParentPhase::Finished(1)
        },
        ParentPhase::ClosingReadEnd => if ok {
            ParentPhase::Probing
        } else {
            ParentPhase::Aborting
        },
        ParentPhase::Probing => ParentPhase::Mapping(0),
        ParentPhase::Mapping(k) => if !ok {
            ParentPhase::Aborting
        } else if k + 1 < CHILD_WRITES {
            ParentPhase::Mapping((k + 1) as usize)
        } else {
            ParentPhase::Releasing
        },
        ParentPhase::Aborting => ParentPhase::ReleasingAfterFailure,
        ParentPhase::ReleasingAfterFailure => ParentPhase::Reaping,
        ParentPhase::Releasing => if ok {
            ParentPhase::Waiting
        } else {
            ParentPhase::Finished(1)
        },
        ParentPhase::Waiting => match e {
            ParentEvent::ChildEnded(st) => ParentPhase::Finished(spec_exit_code(spec_classify(st))),
            _ => ParentPhase::Finished(1),
        },
        ParentPhase::Reaping => ParentPhase::Finished(1),
        ParentPhase::Finished(c) => ParentPhase::Finished(c),
    }
}

impl ParentPhase {
    /// The first phase of a parent process that runs as `uid`, already
    /// inside a sandbox or not.
    pub fn start(already_sandboxed: bool, uid: u32) -> (r: ParentPhase)
        ensures
            r == spec_parent_start(already_sandboxed, uid),
    {
        match check_admission(already_sandboxed, uid) {
            Ok(()) => ParentPhase::Preparing,
            Err(e) => ParentPhase::Refused(e),
        }
    }

    /// The action to perform in this phase.
    pub fn action(&self) -> (r: ParentAction)
        ensures
            r == spec_parent_action(*self),
    {
        match *self {
            ParentPhase::Refused(e) => ParentAction::Refuse(e),
            ParentPhase::Preparing => ParentAction::Prepare,
            ParentPhase::OpeningChannel => ParentAction::OpenChannel,
            ParentPhase::Spawning => ParentAction::SpawnChild,
            ParentPhase::ClosingReadEnd => ParentAction::CloseReadEnd,
            ParentPhase::Probing => ParentAction::ProbeCapabilities,
            ParentPhase::Mapping(k) => ParentAction::WriteChildControl(k),
            ParentPhase::Aborting => ParentAction::SignalFailure,
            ParentPhase::ReleasingAfterFailure => ParentAction::CloseWriteEnd,
            ParentPhase::Releasing => ParentAction::CloseWriteEnd,
            ParentPhase::Waiting => ParentAction::AwaitChild,
            ParentPhase::Reaping => ParentAction::AwaitChild,
            ParentPhase::Finished(c) => ParentAction::Exit(c),
        }
    }

    /// The phase that follows once this phase's action had the result `e`.
    pub fn advance(&self, e: ParentEvent) -> (r: ParentPhase)
        ensures
            r == spec_parent_advance(*self, e),
    {
        let ok = e == ParentEvent::Succeeded;
        match *self {
            ParentPhase::Refused(x) => ParentPhase::Refused(x),
            ParentPhase::Preparing => if ok {
                ParentPhase::OpeningChannel
            } else {
                ParentPhase::Finished(1)
            },
            ParentPhase::OpeningChannel => if ok {
                ParentPhase::Spawning
            } else {
                ParentPhase::Finished(1)
            },
            ParentPhase::Spawning => if ok {
                ParentPhase::ClosingReadEnd
            } else {
                ParentPhase::Finished(1)
            },
            ParentPhase::ClosingReadEnd => if ok {
                ParentPhase::Probing
            } else {
                ParentPhase::Aborting
            },
            ParentPhase::Probing => ParentPhase::Mapping(0),
            ParentPhase::Mapping(k) => if !ok {
                ParentPhase::Aborting
            } else if k < CHILD_WRITES - 1 {
                ParentPhase::Mapping(k + 1)
            } else {
                ParentPhase::Releasing
            },
            ParentPhase::Aborting => ParentPhase::ReleasingAfterFailure,
            ParentPhase::ReleasingAfterFailure => ParentPhase::Reaping,
            ParentPhase::Releasing => if ok {
                ParentPhase::Waiting
            } else {
                ParentPhase::Finished(1)
            },
            ParentPhase::Waiting => match e {
                ParentEvent::ChildEnded(st) => ParentPhase::Finished(exit_code(classify(st))),
                _ => ParentPhase::Finished(1),
            },
            ParentPhase::Reaping => ParentPhase::Finished(1),
            ParentPhase::Finished(c) => ParentPhase::Finished(c),
        }
    }
}

/// The parent's phase after the first `n` results of `events`, from `p0`.
pub open spec fn parent_state_at(p0: ParentPhase, events: Seq<ParentEvent>, n: nat) -> ParentPhase
    decreases n,
{
    if n == 0 {
        p0
    } else {
        spec_parent_advance(parent_state_at(p0, events, (n - 1) as nat), events[n - 1])
    }
}

/// The parent's action at position `n` of a run from `p0` on `events`.
pub open spec fn parent_action_at(p0: ParentPhase, events: Seq<ParentEvent>, n: nat) -> ParentAction {
    spec_parent_action(parent_state_at(p0, events, n))
}

/// Before position `n`, the identity write `k` was made and succeeded.
pub open spec fn write_succeeded_before(
    p0: ParentPhase,
    events: Seq<ParentEvent>,
    k: usize,
    n: nat,
) -> bool {
    exists|j: nat|
        j < n && #[trigger] parent_action_at(p0, events, j) == ParentAction::WriteChildControl(k)
            && events[j as int] == ParentEvent::Succeeded
}

/// Before position `n`, the parent signalled failure on the channel.
pub open spec fn failure_signalled_before(p0: ParentPhase, events: Seq<ParentEvent>, n: nat) -> bool {
    exists|j: nat| j < n && #[trigger] parent_action_at(p0, events, j) == ParentAction::SignalFailure
}

proof fn lemma_parent_history(p0: ParentPhase, events: Seq<ParentEvent>, n: nat)
    requires
        p0 == ParentPhase::Preparing || p0 is Refused,
        n <= events.len(),
    ensures
        parent_state_at(p0, events, n) matches ParentPhase::Mapping(k) ==> (k < CHILD_WRITES
            && forall|m: usize| m < k ==> write_succeeded_before(p0, events, m, n)),
        parent_state_at(p0, events, n) == ParentPhase::Releasing ==> forall|m: usize|
            m < CHILD_WRITES ==> write_succeeded_before(p0, events, m, n),
        parent_state_at(p0, events, n) == ParentPhase::ReleasingAfterFailure
            ==> failure_signalled_before(p0, events, n),
    decreases n,
{
    if n > 0 {
        let n1 = (n - 1) as nat;
        lemma_parent_history(p0, events, n1);
        let s = parent_state_at(p0, events, n1);
        let e = events[n1 as int];
        assert(parent_state_at(p0, events, n) == spec_parent_advance(s, e));
        assert forall|m: usize| #[trigger] write_succeeded_before(p0, events, m, n1)
            implies write_succeeded_before(p0, events, m, n) by {
            let j = choose|j: nat|
                j < n1 && #[trigger] parent_action_at(p0, events, j)
                    == ParentAction::WriteChildControl(m) && events[j as int]
                    == ParentEvent::Succeeded;
            assert(parent_action_at(p0, events, j) == ParentAction::WriteChildControl(m));
        }
        match s {
            ParentPhase::Mapping(k) => {
                if e == ParentEvent::Succeeded {
                    assert(parent_action_at(p0, events, n1) == ParentAction::WriteChildControl(k));
                    assert(write_succeeded_before(p0, events, k, n));
                    assert forall|m: usize| m <= k implies write_succeeded_before(
                        p0,
                        events,
                        m,
                        n,
                    ) by {
                        if m < k {
                            assert(write_succeeded_before(p0, events, m, n1));
                        }
                    }
                }
            },
            ParentPhase::Aborting => {
                assert(parent_action_at(p0, events, n1) == ParentAction::SignalFailure);
            },
            _ => {},
        }
    }
}

/// The rendezvous, parent side: in every run of a parent, whatever the
/// results of its actions, the channel's write end is closed only after all
/// three identity writes for the child were made and succeeded, or after the
/// parent put a failure byte on the channel.
pub proof fn lemma_release_follows_mapping(
    already_sandboxed: bool,
    uid: u32,
    events: Seq<ParentEvent>,
    n: nat,
)
    requires
        n <= events.len(),
        parent_action_at(spec_parent_start(already_sandboxed, uid), events, n)
            == ParentAction::CloseWriteEnd,
    ensures
        (forall|m: usize|
            m < CHILD_WRITES ==> write_succeeded_before(
                spec_parent_start(already_sandboxed, uid),
                events,
                m,
                n,
            )) || failure_signalled_before(spec_parent_start(already_sandboxed, uid), events, n),
{
    lemma_parent_history(spec_parent_start(already_sandboxed, uid), events, n);
}

/// An action that changes the system: creating the session's directories,
/// the channel or the child, or writing to the channel, to the child's
/// identity files or to anything else. Only refusing and exiting do not.
pub open spec fn touches_system(a: ParentAction) -> bool {
    !(a is Refuse || a is Exit)
}

/// A refused start does nothing: a parent that already runs inside a sandbox,
/// or runs as root, refuses at every position of its run, whatever results
/// are reported, so no directory is created and no channel, child, namespace,
/// mount or identity write ever comes about.
pub proof fn lemma_refusal_touches_nothing(
    already_sandboxed: bool,
    uid: u32,
    events: Seq<ParentEvent>,
    n: nat,
)
    requires
        already_sandboxed || uid == 0,
    ensures
        parent_action_at(spec_parent_start(already_sandboxed, uid), events, n) == ParentAction::Refuse(
            if already_sandboxed {
                PrivilegeError::Stacked
            } else {
                PrivilegeError::RunAsRoot
            },
        ),
        !touches_system(parent_action_at(spec_parent_start(already_sandboxed, uid), events, n)),
    decreases n,
{
    if n > 0 {
        lemma_refusal_touches_nothing(already_sandboxed, uid, events, (n - 1) as nat);
    }
}

/// What the child's blocking read on the channel returned.
#[derive(Clone, Copy, Debug, PartialEq, Eq, Structural)]
pub enum Wake {
    /// End of stream with no data: the parent closed its end after mapping.
    EndOfStream,
    /// A byte arrived: the parent reports that mapping failed.
    Data,
}

/// What the child process does next.
#[derive(Clone, Copy, Debug, PartialEq, Eq, Structural)]
pub enum ChildAction {
    /// Close the child's copy of the channel's write end.
    CloseWriteEnd,
    /// Block on a one-byte read of the channel.
    AwaitParent,
    /// Ask for a termination signal when the parent dies.
    SetDeathSignal,
    /// Run the setup step of this index.
    RunStep(usize),
    /// Replace the process with the resolved command.
    ExecCommand,
    /// End the process with this status.
    Exit(i32),
}

/// What came of the child's last action.
#[derive(Clone, Copy, Debug, PartialEq, Eq, Structural)]
pub enum ChildEvent {
    Succeeded,
    Failed,
    /// The read on the channel returned.
    Woken(Wake),
}

/// Where the child stands.
#[derive(Clone, Copy, Debug, PartialEq, Eq, Structural)]
pub enum ChildPhase {
    ClosingWriteEnd,
    Awaiting,
    Arming,
    /// The next setup step to run, by index.
    Setup(usize),
    Executing,
    Finished(i32),
}

/// The child of a session whose setup has `steps` steps.
#[derive(Clone, Copy, Debug, PartialEq, Eq, Structural)]
pub struct ChildProtocol {
    pub phase: ChildPhase,
    pub steps: usize,
}

pub open spec fn spec_child_action(c: ChildProtocol) -> ChildAction {
    match c.phase {
        ChildPhase::ClosingWriteEnd => ChildAction::CloseWriteEnd,
        ChildPhase::Awaiting => ChildAction::AwaitParent,
        ChildPhase::Arming => ChildAction::SetDeathSignal,
        ChildPhase::Setup(i) => ChildAction::RunStep(i),
        ChildPhase::Executing => ChildAction::ExecCommand,
        ChildPhase::Finished(x) => ChildAction::Exit(x),
    }
}

/// The child after its action had the result `e`. Only an end of stream
/// releases it; data on the channel, or any failure, ends it with status 1.
/// Steps run in order, each only after the one before it succeeded; an
/// exec that returns has failed.
pub open spec fn spec_child_advance(c: ChildProtocol, e: ChildEvent) -> ChildProtocol {
    let ok = e == ChildEvent::Succeeded;
    let next = match c.phase {
        ChildPhase::ClosingWriteEnd => if ok {
            ChildPhase::Awaiting
        } else {
            ChildPhase::Finished(1)
        },
        ChildPhase::Awaiting => if e == ChildEvent::Woken(Wake::EndOfStream) {
            ChildPhase::Arming
        } else {
            ChildPhase::Finished(1)
        },
        ChildPhase::Arming => if !ok {
            ChildPhase::Finished(1)
        } else if c.steps == 0 {
            ChildPhase::Executing
        } else {
            ChildPhase::Setup(0)
        },
        ChildPhase::Setup(i) => if !ok {
            ChildPhase::Finished(1)
        } else if i + 1 < c.steps {
            ChildPhase::Setup((i + 1) as usize)
        } else {
            ChildPhase::Executing
        },
        ChildPhase::Executing => ChildPhase::Finished(1),
        ChildPhase::Finished(x) => ChildPhase::Finished(x),
    };
    ChildProtocol { phase: next, steps: c.steps }
}

impl ChildProtocol {
    /// A child that has just been created, with `steps` setup steps ahead.
    pub fn new(steps: usize) -> (r: ChildProtocol)
        ensures
            r == (ChildProtocol { phase: ChildPhase::ClosingWriteEnd, steps }),
    {
        ChildProtocol { phase: ChildPhase::ClosingWriteEnd, steps }
    }

    /// The action to perform now.
    pub fn action(&self) -> (r: ChildAction)
        ensures
            r == spec_child_action(*self),
    {
        match self.phase {
            ChildPhase::ClosingWriteEnd => ChildAction::CloseWriteEnd,
            ChildPhase::Awaiting => ChildAction::AwaitParent,
            ChildPhase::Arming => ChildAction::SetDeathSignal,
            ChildPhase::Setup(i) => ChildAction::RunStep(i),
            ChildPhase::Executing => ChildAction::ExecCommand,
            ChildPhase::Finished(x) => ChildAction::Exit(x),
        }
    }

    /// Takes in the result `e` of the current action.
    pub fn advance(&mut self, e: ChildEvent)
        ensures
            *final(self) == spec_child_advance(*old(self), e),
    {
        let ok = e == ChildEvent::Succeeded;
        let next = match self.phase {
            ChildPhase::ClosingWriteEnd => if ok {
                ChildPhase::Awaiting
            } else {
                ChildPhase::Finished(1)
            },
            ChildPhase::Awaiting => if e == ChildEvent::Woken(Wake::EndOfStream) {
                ChildPhase::Arming
            } else {
                ChildPhase::Finished(1)
            },
            ChildPhase::Arming => if !ok {
                ChildPhase::Finished(1)
            } else if self.steps == 0 {
                ChildPhase::Executing
            } else {
                ChildPhase::Setup(0)
            },
            ChildPhase::Setup(i) => if !ok {
                ChildPhase::Finished(1)
            } else if i < self.steps && i + 1 < self.steps {
                ChildPhase::Setup(i + 1)
            } else {
                ChildPhase::Executing
            },
            ChildPhase::Executing => ChildPhase::Finished(1),
            ChildPhase::Finished(x) => ChildPhase::Finished(x),
        };
        self.phase = next;
    }
}

/// The event that the child's one-byte read on the channel gives: `None`
/// when the read failed, else the number of bytes read. Only a read of no
/// byte at all (end of stream) releases the child.
pub fn read_event(bytes_read: Option<usize>) -> (r: ChildEvent)
    ensures
        bytes_read == Some(0usize) <==> r == ChildEvent::Woken(Wake::EndOfStream),
        bytes_read is None <==> r == ChildEvent::Failed,
        (bytes_read matches Some(k) && k > 0) <==> r == ChildEvent::Woken(Wake::Data),
{
    match bytes_read {
        None => ChildEvent::Failed,
        Some(k) => if k == 0 {
            ChildEvent::Woken(Wake::EndOfStream)
        } else {
            ChildEvent::Woken(Wake::Data)
        },
    }
}

/// The child after the first `n` results of `events`, from `c0`.
pub open spec fn child_state_at(c0: ChildProtocol, events: Seq<ChildEvent>, n: nat) -> ChildProtocol
    decreases n,
{
    if n == 0 {
        c0
    } else {
        spec_child_advance(child_state_at(c0, events, (n - 1) as nat), events[n - 1])
    }
}

/// The child's action at position `n` of a run from `c0` on `events`.
pub open spec fn child_action_at(c0: ChildProtocol, events: Seq<ChildEvent>, n: nat) -> ChildAction {
    spec_child_action(child_state_at(c0, events, n))
}

/// Before position `n`, the child's read on the channel returned end of
/// stream.
pub open spec fn released_before(c0: ChildProtocol, events: Seq<ChildEvent>, n: nat) -> bool {
    exists|j: nat|
        j < n && #[trigger] child_action_at(c0, events, j) == ChildAction::AwaitParent && events[j as int]
            == ChildEvent::Woken(Wake::EndOfStream)
}

/// Before position `n`, setup step `k` ran and succeeded.
pub open spec fn step_succeeded_before(
    c0: ChildProtocol,
    events: Seq<ChildEvent>,
    k: usize,
    n: nat,
) -> bool {
    exists|j: nat|
        j < n && #[trigger] child_action_at(c0, events, j) == ChildAction::RunStep(k) && events[j as int]
            == ChildEvent::Succeeded
}

proof fn lemma_child_history(steps: usize, events: Seq<ChildEvent>, n: nat)
    requires
        n <= events.len(),
    ensures
        ({
            let c0 = ChildProtocol { phase: ChildPhase::ClosingWriteEnd, steps };
            let c = child_state_at(c0, events, n);
            &&& c.steps == steps
            &&& (c.phase is Arming || c.phase is Setup || c.phase is Executing) ==> released_before(
                c0,
                events,
                n,
            )
            &&& (c.phase matches ChildPhase::Setup(k) ==> k < steps && forall|m: usize|
                m < k ==> step_succeeded_before(c0, events, m, n))
            &&& c.phase is Executing ==> forall|m: usize|
                m < steps ==> step_succeeded_before(c0, events, m, n)
        }),
    decreases n,
{
    let c0 = ChildProtocol { phase: ChildPhase::ClosingWriteEnd, steps };
    if n > 0 {
        let n1 = (n - 1) as nat;
        lemma_child_history(steps, events, n1);
        let c = child_state_at(c0, events, n1);
        let e = events[n1 as int];
        assert(child_state_at(c0, events, n) == spec_child_advance(c, e));
        if released_before(c0, events, n1) {
            let j = choose|j: nat|
                j < n1 && #[trigger] child_action_at(c0, events, j) == ChildAction::AwaitParent
                    && events[j as int] == ChildEvent::Woken(Wake::EndOfStream);
            assert(child_action_at(c0, events, j) == ChildAction::AwaitParent);
        }
        assert forall|m: usize| #[trigger] step_succeeded_before(c0, events, m, n1)
            implies step_succeeded_before(c0, events, m, n) by {
            let j = choose|j: nat|
                j < n1 && #[trigger] child_action_at(c0, events, j) == ChildAction::RunStep(m)
                    && events[j as int] == ChildEvent::Succeeded;
            assert(child_action_at(c0, events, j) == ChildAction::RunStep(m));
        }
        match c.phase {
            ChildPhase::Awaiting => {
                assert(child_action_at(c0, events, n1) == ChildAction::AwaitParent);
            },
            ChildPhase::Setup(k) => {
                if e == ChildEvent::Succeeded {
                    assert(child_action_at(c0, events, n1) == ChildAction::RunStep(k));
                    assert(step_succeeded_before(c0, events, k, n));
                    assert forall|m: usize| m <= k implies step_succeeded_before(
                        c0,
                        events,
                        m,
                        n,
                    ) by {
                        if m < k {
                            assert(step_succeeded_before(c0, events, m, n1));
                        }
                    }
                }
            },
            _ => {},
        }
    }
}

/// The rendezvous, child side, and the order of the setup: in every run of
/// a child, whatever the results of its actions, a setup step runs only
/// after the channel was read to its end with no data, and only after every
/// earlier step succeeded; the command is executed only after all steps
/// succeeded.
pub proof fn lemma_setup_follows_release(steps: usize, events: Seq<ChildEvent>, n: nat)
    requires
        n <= events.len(),
    ensures
        ({
            let c0 = ChildProtocol { phase: ChildPhase::ClosingWriteEnd, steps };
            &&& child_action_at(c0, events, n) matches ChildAction::RunStep(k) ==> released_before(
                c0,
                events,
                n,
            ) && k < steps && forall|m: usize| m < k ==> step_succeeded_before(c0, events, m, n)
            &&& child_action_at(c0, events, n) == ChildAction::ExecCommand ==> released_before(
                c0,
                events,
                n,
            ) && forall|m: usize| m < steps ==> step_succeeded_before(c0, events, m, n)
        }),
{
    lemma_child_history(steps, events, n);
}

} // verus!
