//! The context: the owner of one backend, checked once for compatibility when
//! it is built.

use vstd::prelude::*;
use crate::backend::{Backend, BackendCall, SwapBuffersError};

verus! {

/// How diagnostic messages of the driver are handled.
#[derive(Clone, Copy, PartialEq, Eq, Debug, Structural)]
pub enum DebugCallbackBehavior {
    /// Messages are dropped.
    Ignore,
    /// A message is reported when it accompanies an error.
    DebugMessageOnError,
    /// Every message is reported.
    PrintAll,
}

impl Default for DebugCallbackBehavior {
    fn default() -> (behavior: DebugCallbackBehavior)
        ensures
            behavior == DebugCallbackBehavior::DebugMessageOnError,
    {
        DebugCallbackBehavior::DebugMessageOnError
    }
}

/// The backend lacks something that the library needs; the text says what.
#[derive(Debug)]
pub struct IncompatibleOpenGl(pub String);

/// The entry points that every backend has to resolve, in the order in which
/// they are probed.
pub open spec fn required() -> Seq<&'static str> {
    seq!["glGetString", "glGetIntegerv", "glGetError", "glViewport", "glClear"]
}

/// The entry points that every backend has to resolve.
pub fn required_symbols() -> (symbols: Vec<&'static str>)
    ensures
        symbols@ == required(),
{
    let symbols = vec!["glGetString", "glGetIntegerv", "glGetError", "glViewport", "glClear"];
    assert(symbols@ =~= required());
    symbols
}

/// The text of the error for a required entry point that is missing.
pub open spec fn incompatibility_message(symbol: Seq<char>) -> Seq<char> {
    "missing required OpenGL function: "@ + symbol
}

/// Whether every probed entry point was resolved.
pub open spec fn all_resolved(probes: Seq<(&'static str, usize)>) -> bool {
    forall|i: int| 0 <= i < probes.len() ==> (#[trigger] probes[i]).1 != 0
}

/// Whether probe `i` is the first whose entry point was not resolved.
pub open spec fn first_unresolved(probes: Seq<(&'static str, usize)>, i: int) -> bool {
    &&& 0 <= i < probes.len()
    &&& probes[i].1 == 0
    &&& forall|j: int| 0 <= j < i ==> (#[trigger] probes[j]).1 != 0
}

/// Judges the answers of a backend: each probe is the name of an entry point
/// and the address that the backend gave for it, 0 where it has none.
///
/// Succeeds exactly when every address is non-zero; otherwise the error names
/// the first entry point that was not resolved.
pub fn verify_compatibility(probes: &Vec<(&'static str, usize)>) -> (outcome: Result<
    (),
    IncompatibleOpenGl,
>)
    ensures
        outcome is Ok <==> all_resolved(probes@),
        outcome matches Err(error) ==> exists|i: int|
            first_unresolved(probes@, i) && error.0@ == incompatibility_message(probes@[i].0@),
{
    let mut i: usize = 0;
    while i < probes.len()
        invariant
            i <= probes@.len(),
            forall|j: int| 0 <= j < i ==> (#[trigger] probes@[j]).1 != 0,
        decreases probes@.len() - i,
    {
        if probes[i].1 == 0 {
            let text = String::from_str("missing required OpenGL function: ").concat(probes[i].0);
            assert(first_unresolved(probes@, i as int));
            return Err(IncompatibleOpenGl(text));
        }
        i += 1;
    }
    Ok(())
}

/// Whether `backend` resolves every required entry point.
pub open spec fn compatible<B: Backend>(backend: B) -> bool {
    forall|i: int| 0 <= i < required().len() ==> backend.resolves((#[trigger] required()[i])@)
}

/// Whether entry `i` of the required entry points is the first that `backend`
/// does not resolve.
pub open spec fn first_lacking<B: Backend>(backend: B, i: int) -> bool {
    &&& 0 <= i < required().len()
    &&& !backend.resolves(required()[i]@)
    &&& forall|j: int| 0 <= j < i ==> backend.resolves((#[trigger] required()[j])@)
}

/// One backend together with the outcome of its compatibility check and the
/// policy for diagnostic messages.
pub struct Context<B: Backend> {
    backend: B,
    checked: bool,
    debug: DebugCallbackBehavior,
}

impl<B: Backend> Context<B> {
    /// The backend that the context owns.
    pub closed spec fn spec_backend(&self) -> B {
        self.backend
    }

    /// Whether compatibility was verified when the context was built.
    pub closed spec fn spec_checked(&self) -> bool {
        self.checked
    }

    /// The policy for diagnostic messages.
    pub closed spec fn spec_debug(&self) -> DebugCallbackBehavior {
        self.debug
    }

    /// Whether `self` is `before` after exactly `calls` were made of its
    /// backend, where `calls` is no request or one: the history grew by them,
    /// the outcome of the check, the policy and what the backend resolves are
    /// the same, with no request the context is the same, and with one the
    /// backend is in a state that it promises for that request.
    pub open spec fn extends(&self, before: &Self, calls: Seq<BackendCall>) -> bool {
        &&& self.spec_backend().issued() == before.spec_backend().issued() + calls
        &&& self.spec_checked() == before.spec_checked()
        &&& self.spec_debug() == before.spec_debug()
        &&& forall|symbol: Seq<char>|
            self.spec_backend().resolves(symbol) == before.spec_backend().resolves(symbol)
        &&& calls.len() == 0 ==> *self == *before
        &&& calls.len() == 1 ==> before.spec_backend().step(calls[0], self.spec_backend())
    }

    /// Whether the context keeps what it was built on: one that was checked
    /// has a backend that resolves every required entry point.
    pub open spec fn wf(&self) -> bool {
        self.spec_checked() ==> compatible(self.spec_backend())
    }

    /// Takes a backend whose context is current and builds a context on it.
    ///
    /// With `checked`, every required entry point is probed, and the context is
    /// refused exactly when the backend lacks one: the error names the first.
    /// Without `checked` nothing is probed and the context is always built.
    pub fn new(backend: B, checked: bool, debug: DebugCallbackBehavior) -> (outcome: Result<
        Context<B>,
        IncompatibleOpenGl,
    >)
        ensures
            outcome is Err <==> checked && !compatible(backend),
            outcome matches Ok(context) ==> {
                &&& context.spec_backend() == backend
                &&& context.spec_checked() == checked
                &&& context.spec_debug() == debug
                &&& context.wf()
            },
            outcome matches Err(error) ==> exists|i: int|
                first_lacking(backend, i) && error.0@ == incompatibility_message(required()[i]@),
    {
        if checked {
            let symbols = required_symbols();
            let mut probes: Vec<(&'static str, usize)> = Vec::new();
            let mut i: usize = 0;
            while i < symbols.len()
                invariant
                    i <= symbols@.len(),
                    symbols@ == required(),
                    probes@.len() == i,
                    forall|j: int|
                        0 <= j < i ==> {
                            &&& (#[trigger] probes@[j]).0 == symbols@[j]
                            &&& (probes@[j].1 != 0) == backend.resolves(symbols@[j]@)
                        },
                decreases symbols@.len() - i,
            {
                let address = backend.get_proc_address(symbols[i]);
                probes.push((symbols[i], address));
                i += 1;
            }
            match verify_compatibility(&probes) {
                Ok(()) => {
                    assert forall|k: int| 0 <= k < required().len() implies backend.resolves(
                        (#[trigger] required()[k])@,
                    ) by {
                        assert(probes@[k].1 != 0);
                    }
                },
                Err(error) => {
                    let ghost at = choose|k: int|
                        first_unresolved(probes@, k) && error.0@ == incompatibility_message(
                            probes@[k].0@,
                        );
                    assert(first_lacking(backend, at)) by {
                        assert(probes@[at].1 == 0);
                        assert forall|j: int| 0 <= j < at implies backend.resolves(
                            (#[trigger] required()[j])@,
                        ) by {
                            assert(probes@[j].1 != 0);
                        }
                    }
                    return Err(error);
                },
            }
        }
        Ok(Context { backend, checked, debug })
    }

    /// Puts the context on another backend, whose context is current, in
    /// place.
    ///
    /// A context that was checked probes the new backend as `new` does and
    /// refuses it exactly when it lacks a required entry point: the context
    /// then stays as it was. Otherwise the new backend takes the place of the
    /// old one, and the outcome of the check and the policy stay.
    pub fn rebuild(&mut self, backend: B) -> (outcome: Result<(), IncompatibleOpenGl>)
        ensures
            outcome is Err <==> old(self).spec_checked() && !compatible(backend),
            outcome is Ok ==> {
                &&& final(self).spec_backend() == backend
                &&& final(self).spec_checked() == old(self).spec_checked()
                &&& final(self).spec_debug() == old(self).spec_debug()
                &&& final(self).wf()
            },
            outcome matches Err(error) ==> *final(self) == *old(self) && exists|i: int|
                first_lacking(backend, i) && error.0@ == incompatibility_message(required()[i]@),
    {
        match Context::new(backend, self.checked, self.debug) {
            Ok(context) => {
                *self = context;
                Ok(())
            },
            Err(error) => Err(error),
        }
    }

    /// Whether compatibility was verified when the context was built.
    pub fn is_checked(&self) -> (checked: bool)
        ensures
            checked == self.spec_checked(),
    {
        self.checked
    }

    /// The policy for diagnostic messages.
    pub fn debug_behavior(&self) -> (debug: DebugCallbackBehavior)
        ensures
            debug == self.spec_debug(),
    {
        self.debug
    }

    /// The backend, to read.
    pub fn backend(&self) -> (backend: &B)
        ensures
            *backend == self.spec_backend(),
    {
        &self.backend
    }

    /// The backend, to change: the rest of the context stays as it is.
    pub fn backend_mut(&mut self) -> (backend: &mut B)
        ensures
            *backend == old(self).spec_backend(),
            final(self).spec_backend() == *final(backend),
            final(self).spec_checked() == old(self).spec_checked(),
            final(self).spec_debug() == old(self).spec_debug(),
    {
        &mut self.backend
    }

    /// Whether `dimensions` is a size that `backend` may report: one that its
    /// own `get_framebuffer_dimensions` promises.
    pub open spec fn reports(backend: B, dimensions: (u32, u32)) -> bool {
        call_ensures(B::get_framebuffer_dimensions, (&backend,), dimensions)
    }

    /// Whether `current` is an answer that `backend` may give when asked
    /// whether it is current: one that its own `is_current` promises.
    pub open spec fn answers_current(backend: B, current: bool) -> bool {
        call_ensures(B::is_current, (&backend,), current)
    }

    /// The size of the framebuffer as the backend reports it now. Nothing is
    /// cached here.
    pub fn get_framebuffer_dimensions(&self) -> (dimensions: (u32, u32))
        ensures
            Self::reports(self.spec_backend(), dimensions),
    {
        self.backend.get_framebuffer_dimensions()
    }

    /// Asks the backend to present, once, and hands its answer on.
    pub fn swap_buffers(&mut self) -> (outcome: Result<(), SwapBuffersError>)
        ensures
            final(self).extends(old(self), seq![BackendCall::SwapBuffers]),
            old(self).spec_backend().presents(outcome),
    {
        let outcome = self.backend.swap_buffers();
        assert(self.backend.issued() =~= old(self).backend.issued() + seq![
            BackendCall::SwapBuffers,
        ]);
        outcome
    }

    /// The address of the entry point called `symbol`; 0 exactly where the
    /// backend has none of that name.
    pub fn get_proc_address(&self, symbol: &str) -> (address: usize)
        ensures
            (address != 0) == self.spec_backend().resolves(symbol@),
    {
        self.backend.get_proc_address(symbol)
    }

    /// Whether the backend reports its context as the current one.
    pub fn is_current(&self) -> (current: bool)
        ensures
            Self::answers_current(self.spec_backend(), current),
    {
        self.backend.is_current()
    }

    /// Asks the backend, once, to make its context the current one.
    pub fn make_current(&mut self)
        ensures
            final(self).extends(old(self), seq![BackendCall::MakeCurrent]),
    {
        self.backend.make_current();
        assert(self.backend.issued() =~= old(self).backend.issued() + seq![
            BackendCall::MakeCurrent,
        ]);
    }

    /// Asks the backend, once, to reconfigure its surface to `width` by
    /// `height` pixels.
    pub fn resize(&mut self, width: u32, height: u32)
        ensures
            final(self).extends(old(self), seq![BackendCall::Resize(width, height)]),
    {
        self.backend.resize(width, height);
        assert(self.backend.issued() =~= old(self).backend.issued() + seq![
            BackendCall::Resize(width, height),
        ]);
    }
}

/// Requests made of the backend do not undo the compatibility check: a
/// context that is a well-formed one with requests added is well-formed.
pub proof fn lemma_extends_keeps_wf<B: Backend>(
    before: Context<B>,
    after: Context<B>,
    calls: Seq<BackendCall>,
)
    requires
        before.wf(),
        after.extends(&before, calls),
    ensures
        after.wf(),
{
    if after.spec_checked() {
        assert forall|i: int| 0 <= i < required().len() implies after.spec_backend().resolves(
            (#[trigger] required()[i])@,
        ) by {
            assert(before.spec_backend().resolves(required()[i]@));
        }
    }
}

} // verus!
