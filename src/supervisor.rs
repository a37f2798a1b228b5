use vstd::prelude::*;
use crate::outcome::{SendStatus, StartStatus, StopStatus, SupervisorError};

verus! {

/// The supervisor's record of one live worker: its process identifier and
/// whatever the host keeps to write to it and to terminate it.
pub struct ProcessHandle<P> {
    pub id: u32,
    pub process: P,
}

/// What the supervisor holds: at most one live worker.
pub type Slot<P> = Option<ProcessHandle<P>>;

/// The slot of the one worker this supervisor manages. Every transition
/// takes `&mut self`, so whoever shares a supervisor between threads puts it
/// behind one lock and the transitions are linearised by that lock.
pub struct ProcessSupervisor<P> {
    slot: Slot<P>,
}

/// The first half of `start`.
pub enum StartStep {
    /// Nothing to launch; report this status.
    Done(StartStatus),
    /// The slot is empty: launch the worker, then call `finish_start`.
    Spawn,
}

/// The first half of `stop`.
pub enum StopStep<P> {
    /// Nothing to terminate; report this status.
    Done(StopStatus),
    /// This worker was taken out of the slot: terminate it, then call
    /// `finish_stop` with it.
    Terminate(ProcessHandle<P>),
}

/// The first half of `send`.
pub enum SendStep<P> {
    /// Nothing to write to; report this failure.
    Done(SupervisorError),
    /// Write the payload to this worker's input, then call `finish_send`
    /// with it.
    Write(ProcessHandle<P>),
}

/// How writing a payload to the worker's input stream went.
pub enum WriteOutcome {
    Written,
    /// The worker has no input stream.
    StdinUnavailable,
    /// The write failed; carries the error text.
    Failed(String),
}

/// `start` as a whole: on an occupied slot nothing is launched; on an empty
/// slot the outcome of the launch decides.
pub open spec fn start_spec<P>(slot: Slot<P>, spawned: Result<ProcessHandle<P>, String>) -> (
    Slot<P>,
    Result<StartStatus, SupervisorError>,
) {
    match slot {
        Some(h) => (Some(h), Ok(StartStatus::AlreadyRunning)),
        None => match spawned {
            Ok(h) => (Some(h), Ok(StartStatus::Started { id: h.id })),
            Err(e) => (None, Err(SupervisorError::SpawnFailed(e))),
        },
    }
}

/// `stop` as a whole: the worker leaves the slot unless terminating it fails,
/// in which case it is put back.
pub open spec fn stop_spec<P>(slot: Slot<P>, killed: Result<(), String>) -> (
    Slot<P>,
    Result<StopStatus, SupervisorError>,
) {
    match slot {
        None => (None, Ok(StopStatus::WasNotRunning)),
        Some(h) => match killed {
            Ok(_) => (None, Ok(StopStatus::Stopped)),
            Err(e) => (Some(h), Err(SupervisorError::TerminationFailed(e))),
        },
    }
}

/// `send` as a whole: the slot never changes; the outcome of the write
/// decides the reply.
pub open spec fn send_spec<P>(slot: Slot<P>, written: WriteOutcome) -> (
    Slot<P>,
    Result<SendStatus, SupervisorError>,
) {
    match slot {
        None => (None, Err(SupervisorError::NotRunning)),
        Some(h) => (
            Some(h),
            match written {
                WriteOutcome::Written => Ok(SendStatus::Sent),
                WriteOutcome::StdinUnavailable => Err(SupervisorError::StdinUnavailable),
                WriteOutcome::Failed(e) => Err(SupervisorError::WriteFailed(e)),
            },
        ),
    }
}

/// A run of `start` calls on `slot`, one after the other. `spawns[i]` is
/// what launching a worker would give at the i-th call; it is consulted only
/// by a call that finds the slot empty. Gives the final slot, how many calls
/// launched a worker, and each call's reply.
pub open spec fn start_run<P>(slot: Slot<P>, spawns: Seq<Result<ProcessHandle<P>, String>>) -> (
    Slot<P>,
    nat,
    Seq<Result<StartStatus, SupervisorError>>,
)
    decreases spawns.len(),
{
    if spawns.len() == 0 {
        (slot, 0, seq![])
    } else {
        let (next, reply) = start_spec(slot, spawns[0]);
        let (last, launched, replies) = start_run(next, spawns.drop_first());
        (last, launched + if slot is None { 1nat } else { 0nat }, seq![reply] + replies)
    }
}

proof fn lemma_start_run_occupied<P>(h: ProcessHandle<P>, spawns: Seq<Result<ProcessHandle<P>, String>>)
    ensures
        start_run(Some(h), spawns).0 == Some(h),
        start_run(Some(h), spawns).1 == 0,
        start_run(Some(h), spawns).2.len() == spawns.len(),
        forall|i: int|
            0 <= i < spawns.len() ==> #[trigger] start_run(Some(h), spawns).2[i] == Ok::<
                StartStatus,
                SupervisorError,
            >(StartStatus::AlreadyRunning),
    decreases spawns.len(),
{
    if spawns.len() > 0 {
        lemma_start_run_occupied(h, spawns.drop_first());
        let rest = start_run(Some(h), spawns.drop_first()).2;
        let all = start_run(Some(h), spawns).2;
        assert forall|i: int| 0 <= i < spawns.len() implies all[i] == Ok::<
            StartStatus,
            SupervisorError,
        >(StartStatus::AlreadyRunning) by {
            if i > 0 {
                assert(all[i] == rest[i - 1]);
            }
        }
    }
}

/// Mutual exclusion: in any run of `start` calls whose launches would all
/// succeed, exactly one call launches a worker when the slot starts empty,
/// and none when it starts occupied. Every other call reports
/// `AlreadyRunning`, and the slot ends occupied.
pub proof fn lemma_one_launch<P>(slot: Slot<P>, spawns: Seq<Result<ProcessHandle<P>, String>>)
    requires
        spawns.len() > 0,
        forall|i: int| 0 <= i < spawns.len() ==> #[trigger] spawns[i] is Ok,
    ensures
        start_run(slot, spawns).0 is Some,
        start_run(slot, spawns).1 == (if slot is None { 1nat } else { 0nat }),
        start_run(slot, spawns).2.len() == spawns.len(),
        slot is Some ==> start_run(slot, spawns).2[0] == Ok::<StartStatus, SupervisorError>(
            StartStatus::AlreadyRunning,
        ),
        forall|i: int|
            1 <= i < spawns.len() ==> #[trigger] start_run(slot, spawns).2[i] == Ok::<
                StartStatus,
                SupervisorError,
            >(StartStatus::AlreadyRunning),
{
    let next = start_spec(slot, spawns[0]).0;
    assert(spawns[0] is Ok);
    let h = next.unwrap();
    lemma_start_run_occupied(h, spawns.drop_first());
    let rest = start_run(next, spawns.drop_first()).2;
    let all = start_run(slot, spawns).2;
    assert forall|i: int| 1 <= i < spawns.len() implies all[i] == Ok::<
        StartStatus,
        SupervisorError,
    >(StartStatus::AlreadyRunning) by {
        assert(all[i] == rest[i - 1]);
    }
}

/// Stopping twice in a row: when the first `stop` leaves the slot empty
/// (it was empty, or the termination succeeded), the second reports
/// `WasNotRunning` and no error, whatever its termination would do.
pub proof fn lemma_stop_twice<P>(slot: Slot<P>, first: Result<(), String>, second: Result<(), String>)
    requires
        slot is None || first is Ok,
    ensures
        stop_spec(stop_spec(slot, first).0, second) == (Slot::<P>::None, Ok::<
            StopStatus,
            SupervisorError,
        >(StopStatus::WasNotRunning)),
{
}

/// After a successful `start`, a `stop` whose termination succeeds reports
/// `Stopped`, and a following `send` fails with `NotRunning` whatever its
/// write would do.
pub proof fn lemma_start_stop_send<P>(
    slot: Slot<P>,
    spawned: Result<ProcessHandle<P>, String>,
    killed: Result<(), String>,
    written: WriteOutcome,
)
    requires
        start_spec(slot, spawned).1 is Ok,
        killed is Ok,
    ensures
        start_spec(slot, spawned).0 is Some,
        stop_spec(start_spec(slot, spawned).0, killed) == (Slot::<P>::None, Ok::<
            StopStatus,
            SupervisorError,
        >(StopStatus::Stopped)),
        send_spec(stop_spec(start_spec(slot, spawned).0, killed).0, written) == (
            Slot::<P>::None,
            Err::<SendStatus, SupervisorError>(SupervisorError::NotRunning),
        ),
{
}

/// `send` on an empty slot fails with `NotRunning` and leaves the slot
/// empty, whatever a write would have done.
pub proof fn lemma_send_before_start<P>(written: WriteOutcome)
    ensures
        send_spec(Slot::<P>::None, written) == (Slot::<P>::None, Err::<
            SendStatus,
            SupervisorError,
        >(SupervisorError::NotRunning)),
{
}

/// A failed termination keeps the worker: the slot holds the same handle
/// again, so a following `send` whose write succeeds reports `Sent`.
pub proof fn lemma_failed_stop_keeps_worker<P>(h: ProcessHandle<P>, error: String)
    ensures
        stop_spec(Some(h), Err(error)) == (Some(h), Err::<StopStatus, SupervisorError>(
            SupervisorError::TerminationFailed(error),
        )),
        send_spec(stop_spec(Some(h), Err(error)).0, WriteOutcome::Written) == (
            Some(h),
            Ok::<SendStatus, SupervisorError>(SendStatus::Sent),
        ),
{
}

impl<P> View for ProcessSupervisor<P> {
    type V = Slot<P>;

    closed spec fn view(&self) -> Slot<P> {
        self.slot
    }
}

impl<P> ProcessSupervisor<P> {
    /// A supervisor with an empty slot.
    pub fn new() -> (r: Self)
        ensures
            r@ is None,
    {
        ProcessSupervisor { slot: None }
    }

    /// Whether a worker occupies the slot.
    pub fn is_running(&self) -> (r: bool)
        ensures
            r == self@ is Some,
    {
        self.slot.is_some()
    }

    /// The identifier of the worker in the slot, if any.
    pub fn running_id(&self) -> (r: Option<u32>)
        ensures
            r == (match self@ {
                Some(h) => Some(h.id),
                None => None,
            }),
    {
        match &self.slot {
            Some(h) => Some(h.id),
            None => None,
        }
    }

    /// Decides whether `start` launches a worker. An occupied slot makes
    /// `start` a no-op that reports `AlreadyRunning`.
    pub fn begin_start(&self) -> (r: StartStep)
        ensures
            r == (if self@ is Some {
                StartStep::Done(StartStatus::AlreadyRunning)
            } else {
                StartStep::Spawn
            }),
            forall|spawned: Result<ProcessHandle<P>, String>|
                #![trigger start_spec(self@, spawned)]
                r matches StartStep::Done(st) ==> start_spec(self@, spawned) == (self@, Ok::<
                    StartStatus,
                    SupervisorError,
                >(st)),
    {
        if self.slot.is_some() {
            StartStep::Done(StartStatus::AlreadyRunning)
        } else {
            StartStep::Spawn
        }
    }

    /// Records the outcome of launching a worker into the empty slot.
    pub fn finish_start(&mut self, spawned: Result<ProcessHandle<P>, String>) -> (r: Result<
        StartStatus,
        SupervisorError,
    >)
        requires
            old(self)@ is None,
        ensures
            (final(self)@, r) == start_spec(old(self)@, spawned),
    {
        match spawned {
            Ok(h) => {
                let id = h.id;
                self.slot = Some(h);
                Ok(StartStatus::Started { id })
            },
            Err(e) => Err(SupervisorError::SpawnFailed(e)),
        }
    }

    /// Takes the worker out of the slot for termination. The slot is empty
    /// afterwards, so later operations see no worker while it is being
    /// terminated.
    pub fn begin_stop(&mut self) -> (r: StopStep<P>)
        ensures
            final(self)@ is None,
            r == (match old(self)@ {
                Some(h) => StopStep::Terminate(h),
                None => StopStep::Done(StopStatus::WasNotRunning),
            }),
            forall|killed: Result<(), String>|
                #![trigger stop_spec(old(self)@, killed)]
                r matches StopStep::Done(st) ==> stop_spec(old(self)@, killed) == (final(self)@, Ok::<
                    StopStatus,
                    SupervisorError,
                >(st)),
    {
        match self.slot.take() {
            Some(h) => StopStep::Terminate(h),
            None => StopStep::Done(StopStatus::WasNotRunning),
        }
    }

    /// Records the outcome of terminating `handle`, which `begin_stop` took
    /// out of the slot. A failed termination puts it back.
    pub fn finish_stop(&mut self, handle: ProcessHandle<P>, killed: Result<(), String>) -> (r:
        Result<StopStatus, SupervisorError>)
        requires
            old(self)@ is None,
        ensures
            (final(self)@, r) == stop_spec(Some(handle), killed),
    {
        match killed {
            Ok(_) => Ok(StopStatus::Stopped),
            Err(e) => {
                self.slot = Some(handle);
                Err(SupervisorError::TerminationFailed(e))
            },
        }
    }

    /// Hands out the worker so that a payload can be written to its input.
    /// An empty slot makes `send` fail with `NotRunning`, and no worker is
    /// handed out, so nothing is written.
    pub fn begin_send(&mut self) -> (r: SendStep<P>)
        ensures
            final(self)@ is None,
            r == (match old(self)@ {
                Some(h) => SendStep::Write(h),
                None => SendStep::Done(SupervisorError::NotRunning),
            }),
            forall|written: WriteOutcome|
                #![trigger send_spec(old(self)@, written)]
                r matches SendStep::Done(e) ==> send_spec(old(self)@, written) == (final(self)@, Err::<
                    SendStatus,
                    SupervisorError,
                >(e)),
    {
        match self.slot.take() {
            Some(h) => SendStep::Write(h),
            None => SendStep::Done(SupervisorError::NotRunning),
        }
    }

    /// Puts `handle`, which `begin_send` handed out, back into the slot and
    /// turns the outcome of the write into the reply. A failed write leaves
    /// the worker in the slot.
    pub fn finish_send(&mut self, handle: ProcessHandle<P>, written: WriteOutcome) -> (r: Result<
        SendStatus,
        SupervisorError,
    >)
        requires
            old(self)@ is None,
        ensures
            (final(self)@, r) == send_spec(Some(handle), written),
    {
        self.slot = Some(handle);
        match written {
            WriteOutcome::Written => Ok(SendStatus::Sent),
            WriteOutcome::StdinUnavailable => Err(SupervisorError::StdinUnavailable),
            WriteOutcome::Failed(e) => Err(SupervisorError::WriteFailed(e)),
        }
    }
}

}
