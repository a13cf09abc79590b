use vstd::prelude::*;

verus! {

/// Why a request to the audio server did not complete.
#[derive(Clone, Copy, Debug, PartialEq, Eq, Structural)]
pub enum VolumeError {
    /// The connection never reached the ready state.
    Access,
    /// The server rejected a query or a change.
    Internal,
    /// The event loop was told to quit.
    Killed,
    /// The event loop itself failed, with the server's error code.
    Transport(i32),
}

/// What one blocking turn of the audio server's event loop reported.
#[derive(Clone, Copy, Debug, PartialEq, Eq, Structural)]
pub enum IterateOutcome {
    /// At least one event was dispatched.
    Success,
    /// The loop was told to quit.
    Quit,
    /// The loop failed with the given error code.
    Error(i32),
}

/// The failure that a turn of the event loop ends a wait with, if any.
pub open spec fn iterate_failure_spec(o: IterateOutcome) -> Option<VolumeError> {
    match o {
        IterateOutcome::Success => None,
        IterateOutcome::Quit => Some(VolumeError::Killed),
        IterateOutcome::Error(code) => Some(VolumeError::Transport(code)),
    }
}

/// Classifies a turn of the event loop: a quit request ends a wait as
/// `Killed`, a loop error is passed on as it came, success keeps waiting.
pub fn iterate_failure(o: IterateOutcome) -> (r: Option<VolumeError>)
    ensures
        r == iterate_failure_spec(o),
{
    match o {
        IterateOutcome::Success => None,
        IterateOutcome::Quit => Some(VolumeError::Killed),
        IterateOutcome::Error(code) => Some(VolumeError::Transport(code)),
    }
}

/// The slot after a completion callback writes `r`: the first write wins.
pub open spec fn resolve_spec<T>(
    slot: Option<Result<T, VolumeError>>,
    r: Result<T, VolumeError>,
) -> Option<Result<T, VolumeError>> {
    if slot is None {
        Some(r)
    } else {
        slot
    }
}

/// The slot after a sequence of writes, in order.
pub open spec fn resolve_all<T>(
    slot: Option<Result<T, VolumeError>>,
    writes: Seq<Result<T, VolumeError>>,
) -> Option<Result<T, VolumeError>>
    decreases writes.len(),
{
    if writes.len() == 0 {
        slot
    } else {
        resolve_all(resolve_spec(slot, writes[0]), writes.drop_first())
    }
}

/// A one-shot completion cell: written at most once by a callback, taken at
/// most once by the waiter.
pub struct PendingResult<T> {
    slot: Option<Result<T, VolumeError>>,
}

impl<T> View for PendingResult<T> {
    type V = Option<Result<T, VolumeError>>;

    closed spec fn view(&self) -> Option<Result<T, VolumeError>> {
        self.slot
    }
}

impl<T> PendingResult<T> {
    /// An empty cell.
    pub fn new() -> (r: PendingResult<T>)
        ensures
            r@ is None,
    {
        PendingResult { slot: None }
    }

    /// Records a completion unless one is already held.
    pub fn resolve(&mut self, r: Result<T, VolumeError>)
        ensures
            final(self)@ == resolve_spec(old(self)@, r),
    {
        if self.slot.is_none() {
            self.slot = Some(r);
        }
    }

    /// Whether a completion is held.
    pub fn is_resolved(&self) -> (r: bool)
        ensures
            r == (self@ is Some),
    {
        self.slot.is_some()
    }

    /// Hands out the completion, leaving the cell empty.
    pub fn take(&mut self) -> (r: Option<Result<T, VolumeError>>)
        ensures
            r == old(self)@,
            final(self)@ is None,
    {
        self.slot.take()
    }
}

/// What a waiter does next.
pub enum BridgeStep<T> {
    /// The wait is over with this result.
    Resolved(Result<T, VolumeError>),
    /// Nothing yet: drive one more turn of the event loop.
    Iterate,
}

/// One turn of the blocking wait: a held completion is taken and returned,
/// otherwise the loop is to be driven again.
pub fn poll<T>(cell: &mut PendingResult<T>) -> (r: BridgeStep<T>)
    ensures
        old(cell)@ is None ==> r is Iterate && final(cell)@ is None,
        old(cell)@ is Some ==> r == BridgeStep::Resolved(old(cell)@->0) && final(cell)@ is None,
{
    match cell.take() {
        Some(r) => BridgeStep::Resolved(r),
        None => BridgeStep::Iterate,
    }
}

/// Once a callback has written an error, further completions change nothing:
/// the waiter takes that error.
pub proof fn lemma_first_write_wins<T>(
    slot: Option<Result<T, VolumeError>>,
    e: VolumeError,
    later: Seq<Result<T, VolumeError>>,
)
    requires
        slot is None,
    ensures
        resolve_all(resolve_spec(slot, Err(e)), later) == Some(Err::<T, VolumeError>(e)),
    decreases later.len(),
{
    if later.len() > 0 {
        lemma_first_write_wins(slot, e, later.drop_first());
    }
}

} // verus!
