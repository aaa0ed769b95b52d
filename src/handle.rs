//! The opaque per-instance handle and the lifecycle that guards every call.
use vstd::prelude::*;

verus! {

/// Where a model instance stands in its life.
#[derive(Debug, Clone, Copy, PartialEq, Eq, Structural)]
pub enum Lifecycle {
    /// Bound to the function table, not yet initialized.
    Registered,
    /// Initialized, not yet advanced in time.
    Initialized,
    /// Advanced in time at least once.
    Updated,
    /// Finalized and released: every later call fails.
    Finalized,
}

/// The classes of calls that the host makes on a handle.
#[derive(Debug, Clone, Copy, PartialEq, Eq, Structural)]
pub enum Call {
    /// `initialize`
    Initialize,
    /// `update` and `update_until`
    Update,
    /// the metadata, time and grid queries
    Query,
    /// the value getters and setters
    Access,
    /// `finalize`
    Finalize,
}

/// Whether a call of class `call` may reach the model in state `s`.
pub open spec fn admits(s: Lifecycle, call: Call) -> bool {
    match call {
        Call::Initialize => s == Lifecycle::Registered,
        Call::Update | Call::Access => s == Lifecycle::Initialized || s == Lifecycle::Updated,
        Call::Query | Call::Finalize => s != Lifecycle::Finalized,
    }
}

/// The state after a call of class `call` in state `s` that the model
/// answered with success or not. A call that is not admitted changes nothing.
pub open spec fn next_state(s: Lifecycle, call: Call, succeeded: bool) -> Lifecycle {
    if !admits(s, call) {
        s
    } else {
        match call {
            Call::Initialize => if succeeded {
                Lifecycle::Initialized
            } else {
                s
            },
            Call::Update => if succeeded {
                Lifecycle::Updated
            } else {
                s
            },
            Call::Finalize => Lifecycle::Finalized,
            Call::Query | Call::Access => s,
        }
    }
}

/// Whether a call of class `call` may reach the model in state `s`.
pub fn is_admitted(s: Lifecycle, call: Call) -> (r: bool)
    ensures
        r == admits(s, call),
{
    match call {
        Call::Initialize => s == Lifecycle::Registered,
        Call::Update | Call::Access => s == Lifecycle::Initialized || s == Lifecycle::Updated,
        Call::Query | Call::Finalize => s != Lifecycle::Finalized,
    }
}

/// Return the state after a call of class `call` in state `s` that the model
/// answered with success or not.
pub fn step(s: Lifecycle, call: Call, succeeded: bool) -> (r: Lifecycle)
    ensures
        r == next_state(s, call, succeeded),
{
    if !is_admitted(s, call) {
        return s;
    }
    match call {
        Call::Initialize => if succeeded {
            Lifecycle::Initialized
        } else {
            s
        },
        Call::Update => if succeeded {
            Lifecycle::Updated
        } else {
            s
        },
        Call::Finalize => Lifecycle::Finalized,
        Call::Query | Call::Access => s,
    }
}

/// Finalize is final: from any state in which it is admitted it leads to
/// `Finalized`, whatever the model answered; in `Finalized` no call is
/// admitted, a second finalize included, and no call leaves that state.
pub proof fn lemma_finalize_is_terminal(s: Lifecycle, call: Call, succeeded: bool)
    ensures
        admits(s, Call::Finalize) ==> next_state(s, Call::Finalize, succeeded)
            == Lifecycle::Finalized,
        !admits(Lifecycle::Finalized, call),
        next_state(Lifecycle::Finalized, call, succeeded) == Lifecycle::Finalized,
{
}

/// The opaque per-instance state behind the function table: it owns one
/// model from registration until finalize, and remembers the model's
/// lifecycle so that calls out of order, and every call after finalize,
/// are refused instead of reaching the model.
pub struct Handle<M> {
    model: Option<M>,
    state: Lifecycle,
}

impl<M> Handle<M> {
    /// The handle's lifecycle state.
    pub closed spec fn lifecycle(&self) -> Lifecycle {
        self.state
    }

    /// The model that the handle owns, if any.
    pub closed spec fn model(&self) -> Option<M> {
        self.model
    }

    /// The handle owns a model exactly until it is finalized.
    pub open spec fn wf(&self) -> bool {
        self.model() is Some <==> self.lifecycle() != Lifecycle::Finalized
    }

    /// Take ownership of `model` for a newly registered instance.
    pub fn new(model: M) -> (h: Self)
        ensures
            h.lifecycle() == Lifecycle::Registered,
            h.model() == Some(model),
            h.wf(),
    {
        Handle { model: Some(model), state: Lifecycle::Registered }
    }

    /// Return the handle's lifecycle state.
    pub fn state(&self) -> (r: Lifecycle)
        ensures
            r == self.lifecycle(),
    {
        self.state
    }

    /// Resolve the handle to its model for a call of class `call`: the model
    /// where the call is admitted and the model is still owned, else nothing.
    /// The state does not change.
    pub fn begin(&mut self, call: Call) -> (r: Option<&mut M>)
        ensures
            final(self).lifecycle() == old(self).lifecycle(),
            r is Some <==> admits(old(self).lifecycle(), call) && old(self).model() is Some,
            r matches Some(m) ==> *m == old(self).model().unwrap() && final(self).model() == Some(
                *final(m),
            ),
            r is None ==> final(self).model() == old(self).model(),
    {
        if is_admitted(self.state, call) {
            self.model.as_mut()
        } else {
            None
        }
    }

    /// Record the outcome of a call of class `call`. After an admitted
    /// finalize the model is released, exactly once.
    pub fn finish(&mut self, call: Call, succeeded: bool)
        ensures
            final(self).lifecycle() == next_state(old(self).lifecycle(), call, succeeded),
            final(self).lifecycle() == Lifecycle::Finalized ==> final(self).model() is None,
            final(self).lifecycle() != Lifecycle::Finalized ==> final(self).model() == old(
                self,
            ).model(),
            old(self).wf() ==> final(self).wf(),
    {
        self.state = step(self.state, call, succeeded);
        if self.state == Lifecycle::Finalized {
            self.model = None;
        }
    }
}

} // verus!
