//! The engine lifecycle: a single codec handle that is initialized exactly
//! once from a binary payload before any transcoding call is legal.
//!
//! The host shell owns the opaque compiled module; this module owns every
//! decision around it. Initialization runs in three observable steps:
//! [`Engine::begin_initialize`] claims the single initialization slot, the
//! host then instantiates the module from the payload, and either
//! [`Engine::report_init_failure`] (payload rejected, engine back to square
//! one, retry permitted) or [`initialize_basis`] (one-time internal table
//! setup done, readiness signaled) finishes the attempt. Once ready, the
//! engine never changes state again: a second initialization attempt fails
//! explicitly with [`TranscodeError::AlreadyInitialized`] and the live handle
//! is never replaced.

use vstd::prelude::*;

use crate::TranscodeError;

verus! {

/// The lifecycle state of the engine.
#[derive(Clone, Copy, Debug, PartialEq, Eq, Structural)]
pub enum EngineState {
    /// No initialization has succeeded or is in flight.
    Uninitialized,
    /// The single initialization slot is claimed; the host is instantiating
    /// the compiled module.
    Initializing,
    /// The module is live and its one-time tables are set up; every
    /// operation is legal from here on.
    Ready,
}

/// The observable lifecycle operations on the engine.
#[derive(Clone, Copy, Debug, PartialEq, Eq, Structural)]
pub enum EngineOp {
    /// Claim the initialization slot before instantiating the module.
    BeginInitialize,
    /// The module rejected the initialization payload.
    ReportInitFailure,
    /// The module was instantiated and its one-time internal tables are set
    /// up; signal readiness.
    InitializeBasis,
}

/// The complete transition relation of the engine lifecycle: for each state
/// and operation, the next state and the operation's result.
///
/// Every executable lifecycle operation is proved to follow this function
/// exactly, so the lifecycle laws below are theorems about all of them at
/// once.
pub open spec fn engine_step(s: EngineState, op: EngineOp) -> (EngineState, Result<
    (),
    TranscodeError,
>) {
    match op {
        EngineOp::BeginInitialize => match s {
            EngineState::Uninitialized => (EngineState::Initializing, Ok(())),
            _ => (s, Err(TranscodeError::AlreadyInitialized)),
        },
        EngineOp::ReportInitFailure => match s {
            EngineState::Initializing => (
                EngineState::Uninitialized,
                Err(TranscodeError::EngineInitError),
            ),
            EngineState::Uninitialized => (s, Err(TranscodeError::EngineNotReady)),
            EngineState::Ready => (s, Err(TranscodeError::AlreadyInitialized)),
        },
        EngineOp::InitializeBasis => match s {
            EngineState::Initializing => (EngineState::Ready, Ok(())),
            EngineState::Uninitialized => (s, Err(TranscodeError::EngineNotReady)),
            EngineState::Ready => (s, Err(TranscodeError::AlreadyInitialized)),
        },
    }
}

/// Once the engine is ready it stays ready: no lifecycle operation leaves the
/// ready state, none replaces the live handle (every operation from `Ready`
/// is a rejected no-op), and none reports `EngineNotReady`. Together with
/// [`lemma_ready_reached_once`] this pins the lifecycle to at most one
/// successful `Uninitialized -> Initializing -> Ready` pass.
pub proof fn lemma_ready_is_stable(op: EngineOp)
    ensures
        engine_step(EngineState::Ready, op).0 == EngineState::Ready,
        engine_step(EngineState::Ready, op).1 != Err::<(), TranscodeError>(
            TranscodeError::EngineNotReady,
        ),
        engine_step(EngineState::Ready, op).1 == Err::<(), TranscodeError>(
            TranscodeError::AlreadyInitialized,
        ),
{
}

/// The ready state is entered only by `InitializeBasis` from `Initializing`:
/// the one-time table setup is the only door to readiness.
pub proof fn lemma_ready_reached_once(s: EngineState, op: EngineOp)
    ensures
        (engine_step(s, op).0 == EngineState::Ready && s != EngineState::Ready) ==> (s
            == EngineState::Initializing && op == EngineOp::InitializeBasis),
{
}

/// While the engine is uninitialized, every operation other than beginning
/// initialization returns `EngineNotReady` and has no effect on the state.
pub proof fn lemma_uninitialized_rejects(op: EngineOp)
    requires
        op != EngineOp::BeginInitialize,
    ensures
        engine_step(EngineState::Uninitialized, op).0 == EngineState::Uninitialized,
        engine_step(EngineState::Uninitialized, op).1 == Err::<(), TranscodeError>(
            TranscodeError::EngineNotReady,
        ),
{
}

/// A failed initialization attempt leaves the engine exactly where it
/// started, so a retry with a corrected payload is permitted.
pub proof fn lemma_failed_init_is_recoverable()
    ensures
        engine_step(EngineState::Initializing, EngineOp::ReportInitFailure).0
            == EngineState::Uninitialized,
        engine_step(EngineState::Uninitialized, EngineOp::BeginInitialize).1 == Ok::<
            (),
            TranscodeError,
        >(()),
{
}

/// The singleton codec handle. Holds no codec data itself — the compiled
/// module stays with the host — only the lifecycle state every operation is
/// gated on.
pub struct Engine {
    state: EngineState,
}

impl Engine {
    /// The engine's current lifecycle state.
    pub closed spec fn lifecycle(&self) -> EngineState {
        self.state
    }

    /// A fresh, uninitialized engine.
    pub fn new() -> (e: Engine)
        ensures
            e.lifecycle() == EngineState::Uninitialized,
    {
        Engine { state: EngineState::Uninitialized }
    }

    /// Whether the engine is ready, i.e. initialization has completed
    /// successfully.
    pub fn is_ready(&self) -> (r: bool)
        ensures
            r == (self.lifecycle() == EngineState::Ready),
    {
        matches!(self.state, EngineState::Ready)
    }

    /// Claims the single initialization slot.
    ///
    /// On `Ok` the caller must hand the binary payload to the compiled
    /// module and finish the attempt with either [`initialize_basis`] or
    /// [`Engine::report_init_failure`]; no other operation becomes legal yet.
    /// Any later attempt fails with `AlreadyInitialized` and leaves the
    /// engine untouched.
    pub fn begin_initialize(&mut self) -> (r: Result<(), TranscodeError>)
        ensures
            final(self).lifecycle() == engine_step(
                old(self).lifecycle(),
                EngineOp::BeginInitialize,
            ).0,
            r == engine_step(old(self).lifecycle(), EngineOp::BeginInitialize).1,
    {
        match self.state {
            EngineState::Uninitialized => {
                self.state = EngineState::Initializing;
                Ok(())
            },
            _ => Err(TranscodeError::AlreadyInitialized),
        }
    }

    /// Records that the compiled module rejected the initialization payload.
    ///
    /// The attempt's error is `EngineInitError`; the engine returns to
    /// `Uninitialized` and a retry with a corrected payload is permitted.
    pub fn report_init_failure(&mut self) -> (r: Result<(), TranscodeError>)
        ensures
            final(self).lifecycle() == engine_step(
                old(self).lifecycle(),
                EngineOp::ReportInitFailure,
            ).0,
            r == engine_step(old(self).lifecycle(), EngineOp::ReportInitFailure).1,
    {
        match self.state {
            EngineState::Initializing => {
                self.state = EngineState::Uninitialized;
                Err(TranscodeError::EngineInitError)
            },
            EngineState::Uninitialized => Err(TranscodeError::EngineNotReady),
            EngineState::Ready => Err(TranscodeError::AlreadyInitialized),
        }
    }
}

/// Records that the compiled module's one-time internal table setup ran and
/// signals readiness: the final step of a successful initialization.
///
/// Legal exactly once, while an initialization is in flight; before that it
/// reports `EngineNotReady`, after readiness `AlreadyInitialized`. Either
/// way the failure leaves the engine unchanged.
pub fn initialize_basis(engine: &mut Engine) -> (r: Result<(), TranscodeError>)
    ensures
        final(engine).lifecycle() == engine_step(
            old(engine).lifecycle(),
            EngineOp::InitializeBasis,
        ).0,
        r == engine_step(old(engine).lifecycle(), EngineOp::InitializeBasis).1,
{
    match engine.state {
        EngineState::Initializing => {
            engine.state = EngineState::Ready;
            Ok(())
        },
        EngineState::Uninitialized => Err(TranscodeError::EngineNotReady),
        EngineState::Ready => Err(TranscodeError::AlreadyInitialized),
    }
}

} // verus!
