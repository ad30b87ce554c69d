//! Spawning the worker at most once and shutting it down by a handshake.
//!
//! Launching a process and writing to its input stream are the host's work.
//! Each request is therefore split where the host has to act: the first half
//! decides what the host must do, the second half takes what came of it. The
//! host keeps the supervisor behind one lock and holds it from the first half
//! of a request to the second, so that requests are served one at a time.
//!
//! [`spawn`] and [`shutdown`] say what a whole request does to the
//! supervision, each put together from what its two halves do; the laws at
//! the end of this file are stated over them.

use vstd::prelude::*;
use crate::registry::{ProcessHandle, SidecarRegistry};

verus! {

/// How a spawn request ended without an error.
#[derive(Clone, Copy, Debug, PartialEq, Eq, Structural)]
pub enum SpawnOutcome {
    /// The worker was launched and its handle is stored.
    Started,
    /// A worker was running already; nothing was launched.
    AlreadyRunning,
}

/// Why a spawn request failed.
#[derive(Debug, PartialEq, Eq)]
pub enum SpawnError {
    /// The host could not launch the worker binary.
    LaunchFailed(String),
    /// No registry is installed.
    StateUnavailable,
}

/// The shutdown command was written to the worker's input stream.
#[derive(Clone, Copy, Debug, PartialEq, Eq, Structural)]
pub struct Acknowledged;

/// Why a shutdown request failed.
#[derive(Debug, PartialEq, Eq)]
pub enum ShutdownError {
    /// No worker is running.
    NotRunning,
    /// The command could not be written; the handle is back in the registry.
    WriteFailed(String),
    /// No registry is installed.
    StateUnavailable,
}

/// What the host has to do for a spawn request.
#[derive(Clone, Copy, Debug, PartialEq, Eq)]
pub enum SpawnPlan<'a> {
    /// Nothing: a worker is running.
    AlreadyRunning,
    /// Launch the binary `worker` without arguments.
    Launch { worker: &'a str },
}

/// The handle taken out of the registry for a shutdown, with the command that
/// the host has to write to the worker's input stream.
#[derive(Debug, PartialEq, Eq)]
pub struct Handshake<C> {
    pub handle: ProcessHandle<C>,
    pub command: &'static str,
}

/// The supervision as a request finds or leaves it.
pub enum Supervision<C> {
    /// No registry is installed.
    Unavailable,
    /// The registry is empty: no worker is running.
    Empty,
    /// The registry holds the handle of the running worker.
    Running(ProcessHandle<C>),
}

/// The supervision where the registry is installed and holds `slot`.
pub open spec fn supervised<C>(slot: Option<ProcessHandle<C>>) -> Supervision<C> {
    match slot {
        None => Supervision::Empty,
        Some(handle) => Supervision::Running(handle),
    }
}

/// The supervisor of the worker. It is made when the application starts and
/// handed to every command; its registry is installed in the course of the
/// setup, and until then no request can reach it.
pub struct SidecarSupervisor<C> {
    registry: Option<SidecarRegistry<C>>,
}

impl<C> View for SidecarSupervisor<C> {
    type V = Supervision<C>;

    closed spec fn view(&self) -> Supervision<C> {
        match self.registry {
            None => Supervision::Unavailable,
            Some(registry) => supervised(registry@),
        }
    }
}

/// The line that asks the worker to terminate itself, without its newline.
pub open spec fn shutdown_line() -> Seq<char> {
    "sidecar shutdown"@
}

/// Whether a spawn request has the worker launched: it has, unless one is
/// running.
pub open spec fn launch_needed<C>(state: Supervision<C>) -> bool {
    !(state is Running)
}

/// What storing the result of a launch does: a failed launch changes nothing
/// and is reported; a launched worker is stored where a registry is
/// installed.
pub open spec fn launch_stored<C>(
    state: Supervision<C>,
    launched: Result<ProcessHandle<C>, String>,
) -> (Supervision<C>, Result<SpawnOutcome, SpawnError>) {
    match launched {
        Err(reason) => (state, Err(SpawnError::LaunchFailed(reason))),
        Ok(handle) => match state {
            Supervision::Unavailable => (state, Err(SpawnError::StateUnavailable)),
            _ => (Supervision::Running(handle), Ok(SpawnOutcome::Started)),
        },
    }
}

/// What a whole spawn request does, where `launched` is what the host's
/// launch gives: with a worker running nothing is launched and nothing
/// changes.
pub open spec fn spawn<C>(state: Supervision<C>, launched: Result<ProcessHandle<C>, String>) -> (
    Supervision<C>,
    Result<SpawnOutcome, SpawnError>,
) {
    if launch_needed(state) {
        launch_stored(state, launched)
    } else {
        (state, Ok(SpawnOutcome::AlreadyRunning))
    }
}

/// What beginning a handshake does: the handle of a running worker is taken
/// out of the registry; without one the request is refused and nothing
/// changes.
pub open spec fn handshake_begun<C>(state: Supervision<C>) -> (
    Supervision<C>,
    Result<ProcessHandle<C>, ShutdownError>,
) {
    match state {
        Supervision::Unavailable => (state, Err(ShutdownError::StateUnavailable)),
        Supervision::Empty => (state, Err(ShutdownError::NotRunning)),
        Supervision::Running(handle) => (Supervision::Empty, Ok(handle)),
    }
}

/// What settling a handshake does to a supervision from which `handle` was
/// taken: after a failed write the handle is stored again.
pub open spec fn handshake_settled<C>(
    state: Supervision<C>,
    handle: ProcessHandle<C>,
    written: Result<(), String>,
) -> (Supervision<C>, Result<Acknowledged, ShutdownError>) {
    match written {
        Ok(_) => (state, Ok(Acknowledged)),
        Err(reason) => (
            if state is Unavailable {
                state
            } else {
                Supervision::Running(handle)
            },
            Err(ShutdownError::WriteFailed(reason)),
        ),
    }
}

/// What a whole shutdown request does, where `written` is what the host's
/// write of the command gives: without a running worker nothing is written.
pub open spec fn shutdown<C>(state: Supervision<C>, written: Result<(), String>) -> (
    Supervision<C>,
    Result<Acknowledged, ShutdownError>,
) {
    match handshake_begun(state).1 {
        Ok(handle) => handshake_settled(handshake_begun(state).0, handle, written),
        Err(refusal) => (handshake_begun(state).0, Err(refusal)),
    }
}

/// The command of the shutdown handshake: one ASCII line that ends in a
/// newline.
pub fn shutdown_command() -> (command: &'static str)
    ensures
        command@ == shutdown_line().push('\n'),
        command.is_ascii(),
{
    let command = "sidecar shutdown\n";
    proof {
        reveal_strlit("sidecar shutdown\n");
        reveal_strlit("sidecar shutdown");
        assert(command@ =~= shutdown_line().push('\n'));
    }
    command
}

impl<C> SidecarSupervisor<C> {
    /// A supervisor whose registry is not installed yet.
    pub fn new() -> (supervisor: Self)
        ensures
            supervisor@ is Unavailable,
    {
        SidecarSupervisor { registry: None }
    }

    /// Installs an empty registry, unless one is installed already, and says
    /// whether it did.
    pub fn install_registry(&mut self) -> (installed: bool)
        ensures
            installed == (old(self)@ is Unavailable),
            installed ==> final(self)@ is Empty,
            !installed ==> final(self)@ == old(self)@,
    {
        if self.registry.is_some() {
            false
        } else {
            self.registry = Some(SidecarRegistry::new());
            true
        }
    }

    /// A look at the registry, if it is installed.
    pub fn registry(&self) -> (registry: Option<&SidecarRegistry<C>>)
        ensures
            registry is None ==> self@ is Unavailable,
            registry matches Some(r) ==> self@ == supervised(r@),
    {
        self.registry.as_ref()
    }

    /// First half of a spawn request: the worker named `worker` has to be
    /// launched unless one is running. Without a registry the launch is asked
    /// for all the same, and [`Self::complete_spawn`] reports the registry.
    pub fn plan_spawn<'a>(&self, worker: &'a str) -> (plan: SpawnPlan<'a>)
        ensures
            plan is Launch <==> launch_needed(self@),
            (plan matches SpawnPlan::Launch { worker: named } ==> named@ == worker@),
    {
        match &self.registry {
            Some(registry) => {
                if registry.is_occupied() {
                    return SpawnPlan::AlreadyRunning;
                }
            },
            None => {},
        }
        SpawnPlan::Launch { worker }
    }

    /// Second half of a spawn request, for the plan [`SpawnPlan::Launch`]:
    /// `launched` is what the host's launch gave. After `Started` the host
    /// starts relaying the worker's output.
    pub fn complete_spawn(
        &mut self,
        launched: Result<ProcessHandle<C>, String>,
    ) -> (result: Result<SpawnOutcome, SpawnError>)
        ensures
            (final(self)@, result) == launch_stored(old(self)@, launched),
    {
        match launched {
            Err(reason) => Err(SpawnError::LaunchFailed(reason)),
            Ok(handle) => match &mut self.registry {
                Some(registry) => {
                    registry.set(handle);
                    Ok(SpawnOutcome::Started)
                },
                None => Err(SpawnError::StateUnavailable),
            },
        }
    }

    /// First half of a shutdown request: takes the handle out of the
    /// registry, so that nobody else can act on the worker while the host
    /// writes the command to its input stream. Without a running worker
    /// nothing is handed out and nothing is to be written.
    pub fn begin_shutdown(&mut self) -> (result: Result<Handshake<C>, ShutdownError>)
        ensures
            final(self)@ == handshake_begun(old(self)@).0,
            handshake_begun(old(self)@).1 matches Err(refusal) ==> result == Err::<
                Handshake<C>,
                ShutdownError,
            >(refusal),
            handshake_begun(old(self)@).1 matches Ok(handle) ==> result matches Ok(handshake)
                && handshake.handle == handle && handshake.command@ == shutdown_line().push('\n'),
    {
        match &mut self.registry {
            None => Err(ShutdownError::StateUnavailable),
            Some(registry) => match registry.take() {
                None => Err(ShutdownError::NotRunning),
                Some(handle) => Ok(Handshake { handle, command: shutdown_command() }),
            },
        }
    }

    /// Second half of a shutdown request: `handle` is what
    /// [`Self::begin_shutdown`] handed out and `written` what the host's write
    /// of the command gave. The worker is trusted to terminate itself:
    /// nothing waits for it and nothing kills it.
    pub fn finish_shutdown(
        &mut self,
        handle: ProcessHandle<C>,
        written: Result<(), String>,
    ) -> (result: Result<Acknowledged, ShutdownError>)
        ensures
            (final(self)@, result) == handshake_settled(old(self)@, handle, written),
    {
        match written {
            Ok(_) => Ok(Acknowledged),
            Err(reason) => {
                match &mut self.registry {
                    Some(registry) => {
                        registry.set(handle);
                    },
                    None => {},
                }
                Err(ShutdownError::WriteFailed(reason))
            },
        }
    }

    /// First half of the handshake on application exit: as
    /// [`Self::begin_shutdown`], but where there is nothing to shut down the
    /// exit simply goes on.
    pub fn begin_exit(&mut self) -> (handshake: Option<Handshake<C>>)
        ensures
            final(self)@ == handshake_begun(old(self)@).0,
            handshake_begun(old(self)@).1 is Err ==> handshake is None,
            handshake_begun(old(self)@).1 matches Ok(handle) ==> handshake matches Some(h)
                && h.handle == handle && h.command@ == shutdown_line().push('\n'),
    {
        match self.begin_shutdown() {
            Ok(handshake) => Some(handshake),
            Err(_) => None,
        }
    }

    /// Second half of the handshake on application exit: as
    /// [`Self::finish_shutdown`], but a failed write is the host's to log and
    /// keeps the exit from nothing.
    pub fn finish_exit(&mut self, handle: ProcessHandle<C>, written: Result<(), String>)
        ensures
            final(self)@ == handshake_settled(old(self)@, handle, written).0,
    {
        let _ = self.finish_shutdown(handle, written);
    }
}

/// A request to the supervisor together with what the host's part of it
/// gives: the result of the launch that a spawn may ask for, or of the write
/// that a shutdown may ask for.
pub enum Request<C> {
    Spawn { launched: Result<ProcessHandle<C>, String> },
    Shutdown { written: Result<(), String> },
}

/// What the supervisor answers to a [`Request`].
pub enum Reply {
    Spawn(Result<SpawnOutcome, SpawnError>),
    Shutdown(Result<Acknowledged, ShutdownError>),
}

/// The supervision after `request` has been served, and the answer.
pub open spec fn served<C>(state: Supervision<C>, request: Request<C>) -> (Supervision<C>, Reply) {
    match request {
        Request::Spawn { launched } => (
            spawn(state, launched).0,
            Reply::Spawn(spawn(state, launched).1),
        ),
        Request::Shutdown { written } => (
            shutdown(state, written).0,
            Reply::Shutdown(shutdown(state, written).1),
        ),
    }
}

/// The supervision after `requests` have been served one after the other.
/// Requests that arrive at the same time are served in the order in which
/// they get the registry's lock.
pub open spec fn state_after<C>(state: Supervision<C>, requests: Seq<Request<C>>) -> Supervision<C>
    decreases requests.len(),
{
    if requests.len() == 0 {
        state
    } else {
        served(state_after(state, requests.drop_last()), requests.last()).0
    }
}

/// The answer to the request at index `i` of `requests`.
pub open spec fn reply_to<C>(state: Supervision<C>, requests: Seq<Request<C>>, i: int) -> Reply {
    served(state_after(state, requests.subrange(0, i)), requests[i]).1
}

/// Whether every request of `requests` is a spawn request.
pub open spec fn only_spawns<C>(requests: Seq<Request<C>>) -> bool {
    forall|i: int| 0 <= i < requests.len() ==> (#[trigger] requests[i]) is Spawn
}

/// Whether every request of `requests` is a shutdown request.
pub open spec fn only_shutdowns<C>(requests: Seq<Request<C>>) -> bool {
    forall|i: int| 0 <= i < requests.len() ==> (#[trigger] requests[i]) is Shutdown
}

/// Serving a request leaves the supervision as it was, fills an empty
/// registry with the handle of a launched worker, or empties the registry of
/// a running worker after the handshake: there are no other transitions.
pub proof fn no_other_transitions<C>(state: Supervision<C>, request: Request<C>)
    ensures
        ({
            let (next, reply) = served(state, request);
            ||| next == state
            ||| {
                &&& state is Empty
                &&& request matches Request::Spawn { launched: Ok(handle) }
                &&& next == Supervision::Running(handle)
                &&& reply == Reply::Spawn(Ok(SpawnOutcome::Started))
            }
            ||| {
                &&& state is Running
                &&& request matches Request::Shutdown { written: Ok(_) }
                &&& next is Empty
                &&& reply == Reply::Shutdown(Ok(Acknowledged))
            }
        }),
{
}

/// Spawn requests leave a running worker's handle where it is.
proof fn spawns_keep_running<C>(state: Supervision<C>, requests: Seq<Request<C>>)
    requires
        state is Running,
        only_spawns(requests),
    ensures
        state_after(state, requests) == state,
    decreases requests.len(),
{
    if requests.len() > 0 {
        spawns_keep_running(state, requests.drop_last());
    }
}

/// While a worker is running, spawn requests launch nothing: each is answered
/// with `AlreadyRunning`, and the registry holds the handle it held before.
pub proof fn spawn_is_idempotent<C>(state: Supervision<C>, requests: Seq<Request<C>>)
    requires
        state is Running,
        only_spawns(requests),
    ensures
        state_after(state, requests) == state,
        forall|i: int|
            0 <= i < requests.len() ==> #[trigger] reply_to(state, requests, i) == Reply::Spawn(
                Ok(SpawnOutcome::AlreadyRunning),
            ),
{
    spawns_keep_running(state, requests);
    assert forall|i: int| 0 <= i < requests.len() implies #[trigger] reply_to(state, requests, i)
        == Reply::Spawn(Ok(SpawnOutcome::AlreadyRunning)) by {
        spawns_keep_running(state, requests.subrange(0, i));
    }
}

/// Of a run of spawn requests on an empty registry whose first launch
/// succeeds, only the first starts a worker: the others are answered with
/// `AlreadyRunning`, and the registry holds the handle of the first launch.
pub proof fn only_first_spawn_starts<C>(requests: Seq<Request<C>>, handle: ProcessHandle<C>)
    requires
        requests.len() > 0,
        only_spawns(requests),
        requests[0] == (Request::Spawn { launched: Ok(handle) }),
    ensures
        state_after(Supervision::Empty, requests) == Supervision::Running(handle),
        reply_to(Supervision::Empty, requests, 0) == Reply::Spawn(Ok(SpawnOutcome::Started)),
        forall|i: int|
            1 <= i < requests.len() ==> #[trigger] reply_to(Supervision::Empty, requests, i)
                == Reply::Spawn(Ok(SpawnOutcome::AlreadyRunning)),
{
    let empty = Supervision::<C>::Empty;
    let running = Supervision::Running(handle);
    let first = requests.subrange(0, 1);
    assert(state_after(empty, first) == running) by {
        reveal_with_fuel(state_after, 2);
    }
    let rest = requests.subrange(1, requests.len() as int);
    state_after_concat(empty, first, rest);
    assert(first + rest =~= requests);
    spawn_is_idempotent(running, rest);
    assert forall|i: int| 1 <= i < requests.len() implies #[trigger] reply_to(empty, requests, i)
        == Reply::Spawn(Ok(SpawnOutcome::AlreadyRunning)) by {
        let earlier = rest.subrange(0, i - 1);
        state_after_concat(empty, first, earlier);
        assert(first + earlier =~= requests.subrange(0, i));
        assert(reply_to(running, rest, i - 1) == Reply::Spawn(Ok(SpawnOutcome::AlreadyRunning)));
    }
}

/// Serving `first` and then `rest` is serving `rest` from where `first` ends.
pub proof fn state_after_concat<C>(
    state: Supervision<C>,
    first: Seq<Request<C>>,
    rest: Seq<Request<C>>,
)
    ensures
        state_after(state, first + rest) == state_after(state_after(state, first), rest),
    decreases rest.len(),
{
    if rest.len() > 0 {
        state_after_concat(state, first, rest.drop_last());
        assert((first + rest).drop_last() =~= first + rest.drop_last());
    }
}

/// Shutdown requests leave an empty registry empty.
proof fn shutdowns_keep_empty<C>(requests: Seq<Request<C>>)
    requires
        only_shutdowns(requests),
    ensures
        state_after(Supervision::Empty, requests) == Supervision::<C>::Empty,
    decreases requests.len(),
{
    if requests.len() > 0 {
        shutdowns_keep_empty(requests.drop_last());
    }
}

/// Without a running worker, shutdown requests write nothing and change
/// nothing: each is answered with `NotRunning`.
pub proof fn shutdown_of_empty_is_refused<C>(requests: Seq<Request<C>>)
    requires
        only_shutdowns(requests),
    ensures
        state_after(Supervision::Empty, requests) == Supervision::<C>::Empty,
        forall|i: int|
            0 <= i < requests.len() ==> #[trigger] reply_to(Supervision::Empty, requests, i)
                == Reply::Shutdown(Err(ShutdownError::NotRunning)),
{
    shutdowns_keep_empty(requests);
    assert forall|i: int| 0 <= i < requests.len() implies #[trigger] reply_to(
        Supervision::Empty,
        requests,
        i,
    ) == Reply::Shutdown(Err(ShutdownError::NotRunning)) by {
        shutdowns_keep_empty(requests.subrange(0, i));
    }
}

/// Of a run of shutdown requests on a running worker whose first write
/// succeeds, only the first performs the handshake and empties the registry:
/// the others are answered with `NotRunning`.
pub proof fn only_first_shutdown_acts<C>(state: Supervision<C>, requests: Seq<Request<C>>)
    requires
        state is Running,
        requests.len() > 0,
        only_shutdowns(requests),
        requests[0] == (Request::<C>::Shutdown { written: Ok(()) }),
    ensures
        state_after(state, requests) == Supervision::<C>::Empty,
        reply_to(state, requests, 0) == Reply::Shutdown(Ok(Acknowledged)),
        forall|i: int|
            1 <= i < requests.len() ==> #[trigger] reply_to(state, requests, i) == Reply::Shutdown(
                Err(ShutdownError::NotRunning),
            ),
{
    let empty = Supervision::<C>::Empty;
    let first = requests.subrange(0, 1);
    assert(state_after(state, first) == empty) by {
        reveal_with_fuel(state_after, 2);
    }
    let rest = requests.subrange(1, requests.len() as int);
    state_after_concat(state, first, rest);
    assert(first + rest =~= requests);
    shutdown_of_empty_is_refused(rest);
    assert forall|i: int| 1 <= i < requests.len() implies #[trigger] reply_to(state, requests, i)
        == Reply::Shutdown(Err(ShutdownError::NotRunning)) by {
        let earlier = rest.subrange(0, i - 1);
        state_after_concat(state, first, earlier);
        assert(first + earlier =~= requests.subrange(0, i));
        assert(reply_to(empty, rest, i - 1) == Reply::Shutdown(Err(ShutdownError::NotRunning)));
    }
}

/// A handshake whose write fails leaves the worker running under the handle
/// it had, so that the shutdown can be asked for again; the next request
/// whose write succeeds is acknowledged and empties the registry.
pub proof fn failed_handshake_can_be_retried<C>(handle: ProcessHandle<C>, reason: String)
    ensures
        shutdown(Supervision::Running(handle), Err(reason)) == (
            Supervision::Running(handle),
            Err::<Acknowledged, ShutdownError>(ShutdownError::WriteFailed(reason)),
        ),
        shutdown(shutdown(Supervision::Running(handle), Err(reason)).0, Ok(())) == (
            Supervision::<C>::Empty,
            Ok::<Acknowledged, ShutdownError>(Acknowledged),
        ),
{
}

/// Whatever requests are served from an empty registry and in whatever
/// order, the registry is then empty or holds the handle that one of the
/// spawn requests launched.
pub proof fn running_handle_was_launched<C>(requests: Seq<Request<C>>)
    ensures
        !(state_after(Supervision::<C>::Empty, requests) is Unavailable),
        state_after(Supervision::Empty, requests) matches Supervision::Running(handle)
            ==> exists|i: int|
            0 <= i < requests.len() && #[trigger] requests[i] == (Request::Spawn {
                launched: Ok(handle),
            }),
    decreases requests.len(),
{
    if requests.len() > 0 {
        let earlier = requests.drop_last();
        running_handle_was_launched(earlier);
        match state_after(Supervision::Empty, requests) {
            Supervision::Running(handle) => {
                if state_after(Supervision::Empty, earlier) == Supervision::Running(handle) {
                    let i = choose|i: int|
                        0 <= i < earlier.len() && #[trigger] earlier[i] == (Request::Spawn {
                            launched: Ok(handle),
                        });
                    assert(requests[i] == earlier[i]);
                } else {
                    assert(requests[requests.len() - 1] == (Request::Spawn {
                        launched: Ok(handle),
                    }));
                }
            },
            _ => {},
        }
    }
}

} // verus!
