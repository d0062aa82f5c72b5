//! The lifecycle of a handle on the native library.
//!
//! The native calls themselves are made by the caller; a `Lifecycle` decides,
//! at each step, what the caller may do next. It guarantees that the native
//! shutdown entry point is called at most once per handle, that the loaded
//! library is released at most once, right after that shutdown attempt, and
//! that nothing is called once the handle is closed.

use vstd::prelude::*;
use crate::error::{RsmiError, rsmi_try, rsmi_sym, status_error, names_symbol, STATUS_SUCCESS};
use crate::flags::InitFlags;

verus! {

/// The name of the native init entry point.
pub const INIT_ENTRY_POINT: &'static str = "rsmi_init";

/// The name of the native shutdown entry point.
pub const SHUTDOWN_ENTRY_POINT: &'static str = "rsmi_shut_down";

/// Where a handle stands.
#[derive(Clone, Copy, PartialEq, Eq, Structural, Debug)]
pub enum Phase {
    /// Nothing is loaded yet.
    Uninitialized,
    /// The library is open and the native init entry point has not yet succeeded.
    Initializing,
    /// Initialized: every operation may be called.
    Ready,
    /// The native shutdown entry point is being called.
    ShuttingDown,
    /// Finished: the library is released, or was never opened.
    Closed,
}

/// Whether the loaded library is held in phase `p`.
pub open spec fn holds_library_in(p: Phase) -> bool {
    p == Phase::Initializing || p == Phase::Ready || p == Phase::ShuttingDown
}

/// What a lifecycle records: its phase, then how many times the init entry
/// point, the shutdown entry point and the release of the library were handed out.
pub type LifecycleState = (Phase, nat, nat, nat);

/// The state of a fresh lifecycle.
pub open spec fn initial_state() -> LifecycleState {
    (Phase::Uninitialized, 0, 0, 0)
}

/// Closing: counts a release when the library was held.
pub open spec fn closed_from(s: LifecycleState) -> LifecycleState {
    (Phase::Closed, s.1, s.2, if holds_library_in(s.0) { s.3 + 1 } else { s.3 })
}

/// After opening the library succeeded (`opened`) or failed.
pub open spec fn open_step(s: LifecycleState, opened: bool) -> LifecycleState {
    if opened { (Phase::Initializing, s.1, s.2, s.3) } else { (Phase::Closed, s.1, s.2, s.3) }
}

/// After looking up the init entry point, found or not.
pub open spec fn init_symbol_step(s: LifecycleState, found: bool) -> LifecycleState {
    if found { (s.0, 1, s.2, s.3) } else { closed_from(s) }
}

/// After the init entry point returned `status`.
pub open spec fn init_status_step(s: LifecycleState, status: u32) -> LifecycleState {
    if status == STATUS_SUCCESS { (Phase::Ready, s.1, s.2, s.3) } else { closed_from(s) }
}

/// After looking up the shutdown entry point, found or not.
pub open spec fn shutdown_symbol_step(s: LifecycleState, found: bool) -> LifecycleState {
    if found { (Phase::ShuttingDown, s.1, 1, s.3) } else { closed_from(s) }
}

/// After the shutdown entry point returned, whatever its status.
pub open spec fn shutdown_status_step(s: LifecycleState) -> LifecycleState {
    closed_from(s)
}

/// The decisions of one handle, from loading to release.
pub struct Lifecycle {
    phase: Phase,
    /// How many times the native init entry point has been handed out for a call.
    init_calls: Ghost<nat>,
    /// How many times the native shutdown entry point has been handed out for a call.
    shutdown_calls: Ghost<nat>,
    /// How many times the loaded library has been released.
    releases: Ghost<nat>,
}

impl View for Lifecycle {
    type V = LifecycleState;

    open spec fn view(&self) -> LifecycleState {
        (self.phase_spec(), self.init_calls(), self.shutdown_calls(), self.releases())
    }
}

impl Lifecycle {
    pub closed spec fn phase_spec(&self) -> Phase {
        self.phase
    }

    pub closed spec fn init_calls(&self) -> nat {
        self.init_calls@
    }

    pub closed spec fn shutdown_calls(&self) -> nat {
        self.shutdown_calls@
    }

    pub closed spec fn releases(&self) -> nat {
        self.releases@
    }

    /// The init and shutdown entry points have each been called at most once
    /// and the library released at most once; no count has moved past what
    /// the phase allows, and a handle that got ready was initialized once.
    pub open spec fn wf(&self) -> bool {
        &&& self.init_calls() <= 1
        &&& self.phase_spec() == Phase::Uninitialized ==> self.init_calls() == 0
        &&& (self.phase_spec() == Phase::Ready || self.phase_spec() == Phase::ShuttingDown)
            ==> self.init_calls() == 1
        &&& self.shutdown_calls() <= 1
        &&& self.releases() <= 1
        &&& (self.phase_spec() == Phase::Uninitialized || self.phase_spec() == Phase::Initializing
            || self.phase_spec() == Phase::Ready) ==> self.shutdown_calls() == 0
            && self.releases() == 0
        &&& self.phase_spec() == Phase::ShuttingDown ==> self.shutdown_calls() == 1
            && self.releases() == 0
    }

    /// A lifecycle before anything is loaded.
    pub fn new() -> (r: Lifecycle)
        ensures
            r.wf(),
            r@ == initial_state(),
            r.phase_spec() == Phase::Uninitialized,
            r.init_calls() == 0,
            r.shutdown_calls() == 0,
            r.releases() == 0,
    {
        Lifecycle {
            phase: Phase::Uninitialized,
            init_calls: Ghost(0),
            shutdown_calls: Ghost(0),
            releases: Ghost(0),
        }
    }

    /// The current phase.
    pub fn phase(&self) -> (r: Phase)
        ensures
            r == self.phase_spec(),
    {
        self.phase
    }

    /// Whether operations may be called.
    pub fn is_ready(&self) -> (r: bool)
        ensures
            r == (self.phase_spec() == Phase::Ready),
    {
        self.phase == Phase::Ready
    }

    /// Whether the caller still holds the loaded library.
    pub fn holds_library(&self) -> (r: bool)
        ensures
            r == holds_library_in(self.phase_spec()),
    {
        match self.phase {
            Phase::Initializing | Phase::Ready | Phase::ShuttingDown => true,
            _ => false,
        }
    }

    /// Records the outcome of opening the library. On failure the handle is
    /// closed with nothing to release, and the error is returned.
    pub fn library_opened<L>(&mut self, opened: Result<L, libloading::Error>) -> (r: Result<L, RsmiError>)
        requires
            old(self).wf(),
            old(self).phase_spec() == Phase::Uninitialized,
        ensures
            final(self).wf(),
            final(self)@ == open_step(old(self)@, opened is Ok),
            opened is Ok ==> r is Ok && r->Ok_0 == opened->Ok_0,
            opened is Ok ==> final(self).phase_spec() == Phase::Initializing,
            opened is Err ==> r == Err::<L, RsmiError>(RsmiError::LibloadingError(opened->Err_0)),
            opened is Err ==> final(self).phase_spec() == Phase::Closed,
            final(self).init_calls() == 0,
            final(self).shutdown_calls() == 0,
            final(self).releases() == 0,
    {
        match opened {
            Ok(lib) => {
                self.phase = Phase::Initializing;
                Ok(lib)
            },
            Err(e) => {
                self.phase = Phase::Closed;
                Err(RsmiError::LibloadingError(e))
            },
        }
    }

    /// Moves to `Closed`, counting a release when the library was held.
    fn close(&mut self)
        requires
            old(self).wf(),
            old(self).phase_spec() != Phase::Closed,
        ensures
            final(self).wf(),
            final(self).phase_spec() == Phase::Closed,
            final(self).init_calls() == old(self).init_calls(),
            final(self).shutdown_calls() == old(self).shutdown_calls(),
            final(self).releases() == old(self).releases() + (if holds_library_in(
                old(self).phase_spec(),
            ) {
                1nat
            } else {
                0nat
            }),
    {
        if self.holds_library() {
            self.releases = Ghost(self.releases@ + 1);
        }
        self.phase = Phase::Closed;
    }

    /// Records the lookup of the native init entry point, which is handed
    /// out, together with the argument to call it with, at most once per
    /// handle. When it is present the caller is to call it once with `flags`'
    /// bits and report its status. When it is absent the handle closes, the
    /// library is to be released, and `FailedToLoadSymbol` naming the entry
    /// point is returned.
    pub fn init_symbol<T: Clone>(&mut self, sym: &Result<T, libloading::Error>, flags: InitFlags) -> (r: Result<(T, u64), RsmiError>)
        requires
            old(self).wf(),
            old(self).phase_spec() == Phase::Initializing,
            old(self).init_calls() == 0,
        ensures
            final(self).wf(),
            final(self)@ == init_symbol_step(old(self)@, sym is Ok),
            sym is Ok <==> r is Ok,
            r is Ok ==> cloned(sym->Ok_0, r->Ok_0.0),
            r is Ok ==> r->Ok_0.1 == flags@,
            r is Err ==> r->Err_0 is FailedToLoadSymbol,
            r is Err ==> names_symbol(r->Err_0->FailedToLoadSymbol_0@, INIT_ENTRY_POINT@),
            r is Ok ==> final(self).phase_spec() == Phase::Initializing && final(self).init_calls() == 1,
            r is Err ==> final(self).phase_spec() == Phase::Closed && final(self).init_calls() == 0,
            final(self).shutdown_calls() == 0,
            final(self).releases() == (if r is Err { 1nat } else { 0nat }),
    {
        match rsmi_sym(INIT_ENTRY_POINT, sym) {
            Ok(f) => {
                self.init_calls = Ghost(1);
                Ok((f, flags.bits()))
            },
            Err(e) => {
                self.close();
                Err(e)
            },
        }
    }

    /// Records the status that the native init entry point returned. On
    /// success the handle is ready; otherwise it closes, the library is to be
    /// released, and the status's error is returned.
    pub fn init_returned(&mut self, status: u32) -> (r: Result<(), RsmiError>)
        requires
            old(self).wf(),
            old(self).phase_spec() == Phase::Initializing,
            old(self).init_calls() == 1,
        ensures
            final(self).wf(),
            final(self)@ == init_status_step(old(self)@, status),
            final(self).init_calls() == 1,
            status == STATUS_SUCCESS ==> r is Ok && final(self).phase_spec() == Phase::Ready,
            status != STATUS_SUCCESS ==> r == Err::<(), RsmiError>(status_error(status)->Some_0)
                && final(self).phase_spec() == Phase::Closed,
            final(self).shutdown_calls() == 0,
            final(self).releases() == (if status == STATUS_SUCCESS { 0nat } else { 1nat }),
    {
        let r = rsmi_try(status);
        if r.is_ok() {
            self.phase = Phase::Ready;
        } else {
            self.close();
        }
        r
    }

    /// The first stage of an operation on a ready handle: the resolved entry
    /// point `name`, or `FailedToLoadSymbol` naming it when this library version lacks it. The
    /// handle is only read, so a missing entry point leaves it ready for the
    /// operations that the library does have.
    pub fn operation_symbol<T: Clone>(&self, name: &str, sym: &Result<T, libloading::Error>) -> (r: Result<T, RsmiError>)
        requires
            self.wf(),
            self.phase_spec() == Phase::Ready,
        ensures
            sym is Ok <==> r is Ok,
            r is Ok ==> cloned(sym->Ok_0, r->Ok_0),
            r is Err ==> r->Err_0 is FailedToLoadSymbol,
            r is Err ==> names_symbol(r->Err_0->FailedToLoadSymbol_0@, name@),
    {
        rsmi_sym(name, sym)
    }

    /// Records the lookup of the native shutdown entry point, the first step of
    /// either exit path. When it is present the caller is to call it once and
    /// report its status; when it is absent the handle closes without a call,
    /// the library is to be released, and `FailedToLoadSymbol` is returned.
    pub fn shutdown_symbol<T: Clone>(&mut self, sym: &Result<T, libloading::Error>) -> (r: Result<T, RsmiError>)
        requires
            old(self).wf(),
            old(self).phase_spec() == Phase::Ready,
        ensures
            final(self).wf(),
            final(self)@ == shutdown_symbol_step(old(self)@, sym is Ok),
            sym is Ok <==> r is Ok,
            r is Ok ==> cloned(sym->Ok_0, r->Ok_0),
            r is Err ==> r->Err_0 is FailedToLoadSymbol,
            r is Err ==> names_symbol(r->Err_0->FailedToLoadSymbol_0@, SHUTDOWN_ENTRY_POINT@),
            final(self).init_calls() == 1,
            r is Ok ==> final(self).phase_spec() == Phase::ShuttingDown
                && final(self).shutdown_calls() == 1 && final(self).releases() == 0,
            r is Err ==> final(self).phase_spec() == Phase::Closed
                && final(self).shutdown_calls() == 0 && final(self).releases() == 1,
    {
        let r = rsmi_sym(SHUTDOWN_ENTRY_POINT, sym);
        if r.is_ok() {
            self.phase = Phase::ShuttingDown;
            self.shutdown_calls = Ghost(1);
        } else {
            self.close();
        }
        r
    }

    /// Records the status that the native shutdown entry point returned. The
    /// handle closes and the library is to be released whatever the status;
    /// the status is translated for the explicit path, which reports it.
    pub fn shutdown_returned(&mut self, status: u32) -> (r: Result<(), RsmiError>)
        requires
            old(self).wf(),
            old(self).phase_spec() == Phase::ShuttingDown,
        ensures
            final(self).wf(),
            final(self)@ == shutdown_status_step(old(self)@),
            final(self).phase_spec() == Phase::Closed,
            final(self).init_calls() == 1,
            final(self).shutdown_calls() == 1,
            final(self).releases() == 1,
            status == STATUS_SUCCESS ==> r is Ok,
            status != STATUS_SUCCESS ==> r == Err::<(), RsmiError>(status_error(status)->Some_0),
    {
        self.close();
        rsmi_try(status)
    }
}

/// Over the whole life of a handle, the native shutdown entry point is called
/// at most once and the library is released at most once.
pub proof fn lemma_teardown_at_most_once(l: Lifecycle)
    requires
        l.wf(),
    ensures
        l.shutdown_calls() <= 1,
        l.releases() <= 1,
{
}

/// A session that opens the library, initializes it with success, runs
/// operations and shuts down with success: init is called exactly once, the
/// handle is ready in between, and the end is one shutdown call and one
/// release. A successful status passes an operation's value on unchanged and
/// makes the explicit shutdown report no error.
pub proof fn lemma_successful_session()
    ensures
        ({
            let ready = init_status_step(
                init_symbol_step(open_step(initial_state(), true), true),
                STATUS_SUCCESS,
            );
            &&& ready == (Phase::Ready, 1nat, 0nat, 0nat)
            &&& shutdown_status_step(shutdown_symbol_step(ready, true)) == (
                Phase::Closed,
                1nat,
                1nat,
                1nat,
            )
        }),
        status_error(STATUS_SUCCESS) is None,
{
}

/// Construction whose init reports a failure ends with no handle: the
/// lifecycle is closed, the library released once, shutdown never called, and
/// the failure is reported as the status's error.
pub proof fn lemma_failed_init(status: u32)
    requires
        status != STATUS_SUCCESS,
    ensures
        init_status_step(init_symbol_step(open_step(initial_state(), true), true), status) == (
            Phase::Closed,
            1nat,
            0nat,
            1nat,
        ),
        status_error(status) is Some,
{
}

/// During construction the native init entry point is called at most once and
/// nothing else is: no shutdown has been handed out, and the other entry
/// points need a ready handle. A handle that is ready was initialized exactly once.
pub proof fn lemma_construction_calls(l: Lifecycle)
    requires
        l.wf(),
    ensures
        l.init_calls() <= 1,
        l.phase_spec() == Phase::Uninitialized || l.phase_spec() == Phase::Initializing
            ==> l.shutdown_calls() == 0,
        l.phase_spec() == Phase::Ready ==> l.init_calls() == 1 && l.shutdown_calls() == 0,
{
}

/// Once the shutdown entry point has been handed out for a call, the handle is
/// never ready again, so no exit path can hand it out a second time.
pub proof fn lemma_no_second_shutdown(l: Lifecycle)
    requires
        l.wf(),
        l.shutdown_calls() == 1,
    ensures
        l.phase_spec() != Phase::Ready,
{
}

/// A closed handle holds nothing and allows no operation: the steps that call
/// into the native library all require another phase.
pub proof fn lemma_closed_is_final(l: Lifecycle)
    requires
        l.wf(),
        l.phase_spec() == Phase::Closed,
    ensures
        !holds_library_in(l.phase_spec()),
        l.phase_spec() != Phase::Ready,
        l.phase_spec() != Phase::Initializing,
        l.phase_spec() != Phase::ShuttingDown,
{
}

} // verus!
