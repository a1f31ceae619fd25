//! The ready-state latch through which the engine reports that a requested
//! frame has settled, and the redraw signal it raises in between.

use vstd::prelude::*;

verus! {

/// What the engine reports about a requested frame.
#[derive(Clone, Copy, Debug, PartialEq, Eq, Structural)]
pub enum ReadyState {
    /// Resources are still loading; this is where every request starts.
    NotReady,
    /// Everything is drawn and the frame may be captured.
    Ready,
    /// The engine gave up on the frame.
    Error,
    /// The engine ran out of time while waiting for resources.
    TimeoutError,
}

impl ReadyState {
    /// A state is terminal when it is anything but `NotReady`.
    pub open spec fn is_terminal_spec(self) -> bool {
        self != ReadyState::NotReady
    }

    /// Tells whether the state ends a frame request.
    #[verifier::when_used_as_spec(is_terminal_spec)]
    pub fn is_terminal(self) -> (terminal: bool)
        ensures
            terminal == self.is_terminal_spec(),
    {
        match self {
            ReadyState::NotReady => false,
            _ => true,
        }
    }
}

/// The state a latch holds after `reported` arrives while it holds `current`:
/// a terminal state stays for good, anything else is replaced.
pub open spec fn latch(current: ReadyState, reported: ReadyState) -> ReadyState {
    if current.is_terminal_spec() {
        current
    } else {
        reported
    }
}

/// The state a latch holds after all of `reports` arrived in order.
pub open spec fn latch_all(current: ReadyState, reports: Seq<ReadyState>) -> ReadyState
    decreases reports.len(),
{
    if reports.len() == 0 {
        current
    } else {
        latch_all(latch(current, reports[0]), reports.drop_first())
    }
}

/// The engine-facing end of the ready-state path: a single slot that keeps
/// the first terminal state it is told about.
pub struct MapReadyCallbackInterfaceImpl {
    state: ReadyState,
}

impl MapReadyCallbackInterfaceImpl {
    /// The state the slot holds.
    pub closed spec fn state(&self) -> ReadyState {
        self.state
    }

    /// A slot that has heard nothing yet.
    pub fn new() -> (slot: Self)
        ensures
            slot.state() == ReadyState::NotReady,
    {
        MapReadyCallbackInterfaceImpl { state: ReadyState::NotReady }
    }

    /// Records a report of the engine. Reports that arrive after a terminal
    /// state are ignored.
    pub fn stateDidUpdate(&mut self, state: ReadyState)
        ensures
            final(self).state() == latch(old(self).state(), state),
    {
        if !self.state.is_terminal() {
            self.state = state;
        }
    }

    /// Reads the slot without blocking and without consuming it.
    pub fn poll(&self) -> (state: ReadyState)
        ensures
            state == self.state(),
    {
        self.state
    }
}

impl Default for MapReadyCallbackInterfaceImpl {
    fn default() -> (slot: Self)
        ensures
            slot.state() == ReadyState::NotReady,
    {
        MapReadyCallbackInterfaceImpl::new()
    }
}

/// The number of redraw requests that wait after one more was raised. The
/// count stops at the largest number it can hold.
pub open spec fn raised(pending: nat) -> nat {
    if pending < u64::MAX {
        pending + 1
    } else {
        pending
    }
}

/// The engine-facing end of the redraw signal. The engine raises it whenever
/// the picture has to be drawn again; the signal carries nothing but the
/// fact, and the raises are counted until they are taken.
pub struct MapCallbackInterfaceImpl {
    pending: u64,
}

impl MapCallbackInterfaceImpl {
    /// The number of redraw requests that were raised and not yet taken.
    pub closed spec fn pending(&self) -> nat {
        self.pending as nat
    }

    /// A signal that was never raised.
    pub fn new() -> (signal: Self)
        ensures
            signal.pending() == 0,
    {
        MapCallbackInterfaceImpl { pending: 0 }
    }

    /// Raises the signal: a redraw is required.
    pub fn invalidate(&mut self)
        ensures
            final(self).pending() == raised(old(self).pending()),
    {
        if self.pending < u64::MAX {
            self.pending = self.pending + 1;
        }
    }

    /// Takes one redraw request, if there is one, without blocking.
    pub fn try_recv(&mut self) -> (taken: bool)
        ensures
            taken == (old(self).pending() > 0),
            final(self).pending() == if taken {
                (old(self).pending() - 1) as nat
            } else {
                0
            },
    {
        if self.pending > 0 {
            self.pending = self.pending - 1;
            true
        } else {
            false
        }
    }
}

impl Default for MapCallbackInterfaceImpl {
    fn default() -> (signal: Self)
        ensures
            signal.pending() == 0,
    {
        MapCallbackInterfaceImpl::new()
    }
}

/// Once a terminal state is held, no sequence of reports changes it.
pub proof fn lemma_terminal_state_is_final(current: ReadyState, reports: Seq<ReadyState>)
    requires
        current.is_terminal_spec(),
    ensures
        latch_all(current, reports) == current,
    decreases reports.len(),
{
    if reports.len() > 0 {
        lemma_terminal_state_is_final(current, reports.drop_first());
    }
}

/// Starting from `NotReady`, the latch ends up with the first terminal
/// report, and stays at `NotReady` when there is none.
pub proof fn lemma_first_terminal_report_wins(reports: Seq<ReadyState>)
    ensures
        (forall|i: int| 0 <= i < reports.len() ==> !(#[trigger] reports[i]).is_terminal_spec())
            ==> latch_all(ReadyState::NotReady, reports) == ReadyState::NotReady,
        forall|i: int|
            0 <= i < reports.len() && (#[trigger] reports[i]).is_terminal_spec() && (forall|j: int|
                0 <= j < i ==> !(#[trigger] reports[j]).is_terminal_spec())
                ==> latch_all(ReadyState::NotReady, reports) == reports[i],
    decreases reports.len(),
{
    if reports.len() > 0 {
        let rest = reports.drop_first();
        if reports[0].is_terminal_spec() {
            lemma_terminal_state_is_final(reports[0], rest);
            assert forall|i: int|
                0 <= i < reports.len() && (#[trigger] reports[i]).is_terminal_spec() && (forall|
                    j: int,
                | 0 <= j < i ==> !(#[trigger] reports[j]).is_terminal_spec()) implies latch_all(
                ReadyState::NotReady,
                reports,
            ) == reports[i] by {
                if i > 0 {
                    assert(!reports[0].is_terminal_spec());
                }
            }
        } else {
            lemma_first_terminal_report_wins(rest);
            assert(reports[0] == ReadyState::NotReady);
            assert forall|i: int|
                0 <= i < reports.len() && (#[trigger] reports[i]).is_terminal_spec() && (forall|
                    j: int,
                | 0 <= j < i ==> !(#[trigger] reports[j]).is_terminal_spec()) implies latch_all(
                ReadyState::NotReady,
                reports,
            ) == reports[i] by {
                assert(i > 0);
                assert(rest[i - 1] == reports[i]);
                assert forall|j: int| 0 <= j < i - 1 implies !(#[trigger] rest[j]).is_terminal_spec() by {
                    assert(rest[j] == reports[j + 1]);
                }
            }
            if forall|i: int| 0 <= i < reports.len() ==> !(#[trigger] reports[i]).is_terminal_spec() {
                assert forall|i: int| 0 <= i < rest.len() implies !(#[trigger] rest[i]).is_terminal_spec() by {
                    assert(rest[i] == reports[i + 1]);
                }
            }
        }
    }
}

} // verus!
