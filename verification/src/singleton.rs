//! One-time construction of a process-wide value under concurrent first
//! access.
//!
//! The runtime type models the protocol's sequential core: a tri-state
//! flag and the value it guards.  The concurrent protocol itself — each
//! caller attempts the atomic begin step, spins while another caller is
//! constructing, and proceeds once the flag reads initialized — is
//! captured by the step function below, and the trace lemma shows that
//! whatever order the callers' steps interleave in, the constructor can
//! run at most once.

use vstd::prelude::*;

verus! {

/// The tri-state initialisation flag.
#[derive(Debug, Clone, Copy, PartialEq, Eq, Structural)]
pub enum InitState {
    /// Nothing has happened yet; the first accessor will construct.
    Uninit,
    /// Some accessor is running the constructor; others wait.
    Initializing,
    /// The value is ready; every accessor proceeds directly.
    Initialized,
}

/// One step a caller can take against the flag.
pub enum SingletonEvent {
    /// The atomic attempt to move the flag from uninitialised to
    /// initialising; it takes effect only in that state.
    Begin,
    /// The constructor's completion, publishing the value.
    Finish,
    /// A read of the flag, as the spin-wait performs; changes nothing.
    Read,
}

/// What one step does to the flag.
pub open spec fn singleton_step(s: InitState, e: SingletonEvent) -> InitState {
    match e {
        SingletonEvent::Begin => if s == InitState::Uninit {
            InitState::Initializing
        } else {
            s
        },
        SingletonEvent::Finish => if s == InitState::Initializing {
            InitState::Initialized
        } else {
            s
        },
        SingletonEvent::Read => s,
    }
}

/// The flag after a whole trace of steps.
pub open spec fn singleton_run(s: InitState, t: Seq<SingletonEvent>) -> InitState
    decreases t.len(),
{
    if t.len() == 0 {
        s
    } else {
        singleton_run(singleton_step(s, t[0]), t.drop_first())
    }
}

/// How many steps of the trace actually start the constructor: the
/// effective begin steps, those taken while the flag is uninitialised.
pub open spec fn singleton_constructions(s: InitState, t: Seq<SingletonEvent>) -> nat
    decreases t.len(),
{
    if t.len() == 0 {
        0
    } else {
        (if s == InitState::Uninit && t[0] is Begin {
            1nat
        } else {
            0nat
        }) + singleton_constructions(singleton_step(s, t[0]), t.drop_first())
    }
}

/// Once the flag has left the uninitialised state, no trace of steps
/// brings it back, and no further step can start the constructor.
pub proof fn lemma_singleton_no_reconstruction(s: InitState, t: Seq<SingletonEvent>)
    requires
        s != InitState::Uninit,
    ensures
        singleton_run(s, t) != InitState::Uninit,
        singleton_constructions(s, t) == 0,
    decreases t.len(),
{
    if t.len() > 0 {
        lemma_singleton_no_reconstruction(singleton_step(s, t[0]), t.drop_first());
    }
}

/// However the callers' steps interleave, the constructor runs at most
/// once: a trace from the uninitialised flag contains at most one
/// effective begin step.
pub proof fn lemma_singleton_constructs_at_most_once(s: InitState, t: Seq<SingletonEvent>)
    ensures
        singleton_constructions(s, t) <= 1,
    decreases t.len(),
{
    if t.len() > 0 {
        if s == InitState::Uninit && t[0] is Begin {
            lemma_singleton_no_reconstruction(singleton_step(s, t[0]), t.drop_first());
        } else {
            lemma_singleton_constructs_at_most_once(singleton_step(s, t[0]), t.drop_first());
        }
    }
}

/// A process-wide value behind the tri-state flag.
pub struct Singleton<T> {
    state: InitState,
    value: Option<T>,
}

impl<T> View for Singleton<T> {
    type V = (InitState, Option<T>);

    closed spec fn view(&self) -> (InitState, Option<T>) {
        (self.state, self.value)
    }
}

impl<T> Singleton<T> {
    /// The value is present exactly when the flag says initialized.
    pub open spec fn wf(self) -> bool {
        (self@.0 == InitState::Initialized) == (self@.1 is Some)
            && (self@.0 == InitState::Initializing ==> self@.1 is None)
    }

    /// An uninitialised singleton.
    pub fn new() -> (r: Singleton<T>)
        ensures
            r.wf(),
            r@.0 == InitState::Uninit,
            r@.1 is None,
    {
        Singleton { state: InitState::Uninit, value: None }
    }

    /// The flag as an accessor reads it.
    pub fn state(&self) -> (r: InitState)
        ensures
            r == self@.0,
    {
        self.state
    }

    /// The atomic first step of an accessor: succeeds, moving the flag
    /// to initialising, exactly when nothing had happened yet; otherwise
    /// changes nothing.  This is the begin event of the protocol.
    pub fn try_begin_init(&mut self) -> (r: bool)
        ensures
            r == (old(self)@.0 == InitState::Uninit),
            r ==> final(self)@ == (InitState::Initializing, old(self)@.1),
            !r ==> final(self)@ == old(self)@,
            final(self)@.0 == singleton_step(old(self)@.0, SingletonEvent::Begin),
    {
        if self.state == InitState::Uninit {
            self.state = InitState::Initializing;
            true
        } else {
            false
        }
    }

    /// The constructor's completion: publishes the constructed value and
    /// flips the flag to initialized.  Only the accessor whose begin
    /// step succeeded performs this.
    pub fn finish_init(&mut self, value: T)
        requires
            old(self)@.0 == InitState::Initializing,
        ensures
            final(self).wf(),
            final(self)@ == (InitState::Initialized, Some(value)),
            final(self)@.0 == singleton_step(old(self)@.0, SingletonEvent::Finish),
    {
        self.value = Some(value);
        self.state = InitState::Initialized;
    }

    /// A whole first touch by one caller, with the constructed value in
    /// hand: constructs when nothing had happened, and leaves an already
    /// constructed value exactly as it was.  A caller must not re-enter
    /// while the constructor is running.
    pub fn init(&mut self, value: T)
        requires
            old(self).wf(),
            old(self)@.0 != InitState::Initializing,
        ensures
            final(self).wf(),
            final(self)@.0 == InitState::Initialized,
            old(self)@.0 == InitState::Uninit ==> final(self)@.1 == Some(value),
            old(self)@.0 == InitState::Initialized ==> final(self)@ == old(self)@,
    {
        if self.try_begin_init() {
            self.finish_init(value);
        }
    }

    /// The constructed value; every reader sees the one instance.
    pub fn get(&self) -> (r: &T)
        requires
            self.wf(),
            self@.0 == InitState::Initialized,
        ensures
            Some(*r) == self@.1,
    {
        match &self.value {
            Some(v) => v,
            None => vstd::pervasive::unreached(),
        }
    }
}

} // verus!
