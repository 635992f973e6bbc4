use vstd::prelude::*;

verus! {

#[verifier::external_type_specification]
#[verifier::external_body]
pub struct ExIoError(std::io::Error);

#[verifier::external_type_specification]
pub struct ExIoErrorKind(std::io::ErrorKind);

/// The kind that an I/O error reports.
pub uninterp spec fn kind_of(e: std::io::Error) -> std::io::ErrorKind;

/// Relies on `std::io::Error::kind`: it reads the kind that the error carries,
/// so one error always reports one kind.
pub assume_specification[ std::io::Error::kind ](e: &std::io::Error) -> (r: std::io::ErrorKind)
    ensures
        r == kind_of(*e),
;

/// The kinds by which a failed connection says that no coordinator is present:
/// the socket path does not exist, or nothing listens on it.
pub open spec fn absent_kind(kind: std::io::ErrorKind) -> bool {
    kind == std::io::ErrorKind::NotFound || kind == std::io::ErrorKind::ConnectionRefused
}

/// Whether an error kind means that no coordinator is present.
pub fn is_absent_kind(kind: std::io::ErrorKind) -> (r: bool)
    ensures
        r == absent_kind(kind),
{
    match kind {
        std::io::ErrorKind::NotFound => true,
        std::io::ErrorKind::ConnectionRefused => true,
        _ => false,
    }
}

/// Whether a failed client operation failed because no coordinator is present.
pub fn missing_socket(e: &std::io::Error) -> (r: bool)
    ensures
        r == absent_kind(kind_of(*e)),
{
    is_absent_kind(e.kind())
}

/// The operation that an invocation asks for.
#[derive(Clone, Copy, Debug, PartialEq, Eq, Structural)]
pub enum Mode {
    /// Block until some other process signals the rendezvous point.
    Wait,
    /// Release every process that waits on the rendezvous point.
    Signal,
}

/// What the invoking process is to do next.
#[derive(Debug)]
pub enum Next {
    /// Run the client operation of this mode against the socket path.
    Attempt(Mode),
    /// Bind the socket path and detach a coordinator from this process.
    Spawn,
    /// End the invocation with this result.
    Finish(Result<(), std::io::Error>),
}

/// The state of one invocation: what it asks for, and whether it has already
/// spawned a coordinator and is retrying its wait.
#[derive(Clone, Copy, Debug, PartialEq, Eq, Structural)]
pub struct Invocation {
    pub mode: Mode,
    pub retried: bool,
}

/// What follows a client operation that returned `result`.
///
/// Success ends the invocation. A signal that finds no coordinator has no one
/// to release and succeeds. A first wait that finds no coordinator spawns one.
/// Every other failure ends the invocation with that failure.
pub open spec fn attempt_next(mode: Mode, retried: bool, result: Result<(), std::io::Error>) -> Next {
    match result {
        Ok(()) => Next::Finish(Ok(())),
        Err(e) => if absent_kind(kind_of(e)) && mode == Mode::Signal {
            Next::Finish(Ok(()))
        } else if absent_kind(kind_of(e)) && !retried {
            Next::Spawn
        } else {
            Next::Finish(Err(e))
        },
    }
}

/// What follows an attempt to spawn a coordinator that returned `spawned`:
/// the spawning process retries its wait, or ends with the failure.
pub open spec fn spawn_next(spawned: Result<(), std::io::Error>) -> Next {
    match spawned {
        Ok(()) => Next::Attempt(Mode::Wait),
        Err(e) => Next::Finish(Err(e)),
    }
}

impl Invocation {
    /// A fresh invocation of `mode`.
    pub fn new(mode: Mode) -> (r: Self)
        ensures
            r.mode == mode,
            !r.retried,
    {
        Invocation { mode, retried: false }
    }

    /// The first step: try the operation against an existing coordinator.
    pub fn first(&self) -> (r: Next)
        ensures
            r == Next::Attempt(self.mode),
    {
        Next::Attempt(self.mode)
    }

    /// Decides what follows a client operation.
    pub fn after_attempt(&mut self, result: Result<(), std::io::Error>) -> (r: Next)
        ensures
            r == attempt_next(old(self).mode, old(self).retried, result),
            *final(self) == *old(self),
    {
        match result {
            Ok(()) => Next::Finish(Ok(())),
            Err(e) => {
                let absent = missing_socket(&e);
                if absent && self.mode == Mode::Signal {
                    Next::Finish(Ok(()))
                } else if absent && !self.retried {
                    Next::Spawn
                } else {
                    Next::Finish(Err(e))
                }
            },
        }
    }

    /// Decides what follows an attempt to spawn a coordinator. After a spawn
    /// the invocation is retrying, and will not spawn again.
    pub fn after_spawn(&mut self, spawned: Result<(), std::io::Error>) -> (r: Next)
        ensures
            r == spawn_next(spawned),
            final(self).mode == old(self).mode,
            final(self).retried == (old(self).retried || spawned is Ok),
    {
        match spawned {
            Ok(()) => {
                self.retried = true;
                Next::Attempt(Mode::Wait)
            },
            Err(e) => Next::Finish(Err(e)),
        }
    }
}

/// A signal that finds no coordinator succeeds at once, and never spawns one:
/// it binds no socket path and so leaves the filesystem as it was.
pub proof fn lemma_signal_without_coordinator(retried: bool, result: Result<(), std::io::Error>)
    ensures
        !(attempt_next(Mode::Signal, retried, result) is Spawn),
        result matches Err(e) && absent_kind(kind_of(e)) ==> attempt_next(Mode::Signal, retried, result)
            == Next::Finish(Ok(())),
{
}

/// A first wait that finds no coordinator, because none was ever bound or the
/// last one released and removed its path, spawns a fresh one.
pub proof fn lemma_wait_without_coordinator_spawns(e: std::io::Error)
    requires
        absent_kind(kind_of(e)),
    ensures
        attempt_next(Mode::Wait, false, Err(e)) == Next::Spawn,
{
}

/// An invocation spawns at most once: after its spawn it retries its wait
/// once, and whatever that retry returns ends the invocation.
pub proof fn lemma_spawn_at_most_once(
    mode: Mode,
    first: Result<(), std::io::Error>,
    spawned: Result<(), std::io::Error>,
    retry: Result<(), std::io::Error>,
)
    requires
        attempt_next(mode, false, first) is Spawn,
    ensures
        mode == Mode::Wait,
        spawn_next(spawned) == Next::Attempt(Mode::Wait) <==> spawned is Ok,
        attempt_next(mode, true, retry) is Finish,
{
}

} // verus!
