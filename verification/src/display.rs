//! The display: a context together with the framebuffer size that the last
//! frame was started at.

use vstd::prelude::*;
use vstd::std_specs::convert::FromSpec;
use vstd::std_specs::convert::FromSpecImpl;
use crate::backend::{Backend, BackendCall, NullBacked, SwapBuffersError};
use crate::context::{
    compatible, first_lacking, incompatibility_message, required, Context, DebugCallbackBehavior,
    IncompatibleOpenGl,
};
use crate::frame::{Frame, FrameState};

verus! {

/// glutin's error for a window or context that could not be created. Nothing
/// inside it is visible here.
#[verifier::external_type_specification]
#[verifier::external_body]
pub struct ExCreationError(glutin::CreationError);

/// The text that glutin gives as the description of a creation error.
pub uninterp spec fn creation_error_description(error: glutin::CreationError) -> Seq<char>;

/// `std::error::Error::description` as glutin implements it for
/// `glutin::CreationError`: a text that is fixed by the error's variant and
/// the message it carries.
#[verifier::external_body]
fn describe_creation_error(error: &glutin::CreationError) -> (text: &str)
    ensures
        text@ == creation_error_description(*error),
{
    #[allow(deprecated)]
    std::error::Error::description(error)
}

/// Why a display could not be created.
#[derive(Debug)]
pub enum DisplayCreationError {
    /// The backend could not be created.
    GlutinCreationError(glutin::CreationError),
    /// The backend lacks something that the library needs.
    IncompatibleOpenGl(IncompatibleOpenGl),
}

/// The error that a `DisplayCreationError` wraps.
#[derive(Debug)]
pub enum Cause<'a> {
    /// The error of the backend's creation.
    GlutinCreationError(&'a glutin::CreationError),
    /// The error of the compatibility check.
    IncompatibleOpenGl(&'a IncompatibleOpenGl),
}

impl DisplayCreationError {
    /// The text of the wrapped error.
    pub open spec fn spec_description(&self) -> Seq<char> {
        match self {
            DisplayCreationError::GlutinCreationError(error) => creation_error_description(*error),
            DisplayCreationError::IncompatibleOpenGl(error) => error.0@,
        }
    }

    /// The wrapped error.
    pub open spec fn spec_cause(&self) -> Cause<'_> {
        match self {
            DisplayCreationError::GlutinCreationError(error) => Cause::GlutinCreationError(error),
            DisplayCreationError::IncompatibleOpenGl(error) => Cause::IncompatibleOpenGl(error),
        }
    }

    /// The text of the wrapped error.
    pub fn description(&self) -> (text: &str)
        ensures
            text@ == self.spec_description(),
    {
        match self {
            DisplayCreationError::GlutinCreationError(error) => describe_creation_error(error),
            DisplayCreationError::IncompatibleOpenGl(error) => error.0.as_str(),
        }
    }

    /// The wrapped error: there always is one.
    pub fn cause(&self) -> (cause: Option<Cause<'_>>)
        ensures
            cause == Some(self.spec_cause()),
    {
        match self {
            DisplayCreationError::GlutinCreationError(error) => Some(
                Cause::GlutinCreationError(error),
            ),
            DisplayCreationError::IncompatibleOpenGl(error) => Some(
                Cause::IncompatibleOpenGl(error),
            ),
        }
    }
}

impl From<glutin::CreationError> for DisplayCreationError {
    fn from(err: glutin::CreationError) -> (error: DisplayCreationError) {
        DisplayCreationError::GlutinCreationError(err)
    }
}

impl FromSpecImpl<glutin::CreationError> for DisplayCreationError {
    open spec fn obeys_from_spec() -> bool {
        true
    }

    open spec fn from_spec(err: glutin::CreationError) -> DisplayCreationError {
        DisplayCreationError::GlutinCreationError(err)
    }
}

impl From<IncompatibleOpenGl> for DisplayCreationError {
    fn from(err: IncompatibleOpenGl) -> (error: DisplayCreationError) {
        DisplayCreationError::IncompatibleOpenGl(err)
    }
}

impl FromSpecImpl<IncompatibleOpenGl> for DisplayCreationError {
    open spec fn obeys_from_spec() -> bool {
        true
    }

    open spec fn from_spec(err: IncompatibleOpenGl) -> DisplayCreationError {
        DisplayCreationError::IncompatibleOpenGl(err)
    }
}

/// A creation error of the backend, wrapped, gives itself back as the cause,
/// and its description is the backend's own.
pub proof fn lemma_backend_error_round_trip(err: glutin::CreationError)
    ensures
        <DisplayCreationError as FromSpec<glutin::CreationError>>::from_spec(err).spec_cause()
            == Cause::GlutinCreationError(&err),
        <DisplayCreationError as FromSpec<glutin::CreationError>>::from_spec(
            err,
        ).spec_description() == creation_error_description(err),
{
}

/// An error of the compatibility check, wrapped, gives itself back as the
/// cause, and its description is the text it carries.
pub proof fn lemma_incompatibility_round_trip(err: IncompatibleOpenGl)
    ensures
        <DisplayCreationError as FromSpec<IncompatibleOpenGl>>::from_spec(err).spec_cause()
            == Cause::IncompatibleOpenGl(&err),
        <DisplayCreationError as FromSpec<IncompatibleOpenGl>>::from_spec(
            err,
        ).spec_description() == err.0@,
{
}

/// The requests that starting a frame makes of the backend: none while the
/// reported size is the one the last frame was started at, else one to resize
/// to the reported size.
pub open spec fn resize_calls(last: (u32, u32), reported: (u32, u32)) -> Seq<BackendCall> {
    if last == reported {
        Seq::empty()
    } else {
        seq![BackendCall::Resize(reported.0, reported.1)]
    }
}

/// A context and the framebuffer size that the last frame was started at.
pub struct Display<B: Backend> {
    context: Context<B>,
    last_framebuffer_dimensions: (u32, u32),
}

impl<B: Backend> Display<B> {
    /// The context that the display owns.
    pub closed spec fn spec_context(&self) -> Context<B> {
        self.context
    }

    /// The framebuffer size that the last frame was started at; before the
    /// first frame, the size that the backend reported when the display was
    /// built.
    pub closed spec fn spec_last_framebuffer_dimensions(&self) -> (u32, u32) {
        self.last_framebuffer_dimensions
    }

    /// Whether `context` is the context of this display as a frame started
    /// at the size `reported` gets it: the backend was asked to resize exactly
    /// when that size is not the remembered one, and nothing else changed.
    pub open spec fn starts_frame(&self, reported: (u32, u32), context: Context<B>) -> bool {
        context.extends(
            &self.spec_context(),
            resize_calls(self.spec_last_framebuffer_dimensions(), reported),
        )
    }

    /// Builds a display on `backend`, whose context is current, with or
    /// without the compatibility check.
    ///
    /// Fails exactly when the check was asked for and the backend lacks a
    /// required entry point; the error names the first one lacking.
    pub fn from_backend(backend: B, debug: DebugCallbackBehavior, checked: bool) -> (outcome:
        Result<Display<B>, IncompatibleOpenGl>)
        ensures
            outcome is Err <==> checked && !compatible(backend),
            outcome matches Ok(display) ==> {
                &&& display.spec_context().spec_backend() == backend
                &&& display.spec_context().spec_checked() == checked
                &&& display.spec_context().spec_debug() == debug
                &&& display.spec_context().wf()
                &&& Context::<B>::reports(backend, display.spec_last_framebuffer_dimensions())
            },
            outcome matches Err(error) ==> exists|i: int|
                first_lacking(backend, i) && error.0@ == incompatibility_message(required()[i]@),
    {
        let framebuffer_dimensions = backend.get_framebuffer_dimensions();
        match Context::new(backend, checked, debug) {
            Ok(context) => Ok(
                Display { context, last_framebuffer_dimensions: framebuffer_dimensions },
            ),
            Err(error) => Err(error),
        }
    }

    /// Rebuilds the display in place on what building a new window and
    /// context gave: the backend made from them, or the error of the attempt.
    ///
    /// Where the attempt failed, its error comes back wrapped and the display
    /// stays as it was. Where it gave a backend, the display moves to it as
    /// `rebuild_on` says: a display whose context was checked refuses a
    /// backend that lacks a required entry point and stays as it was;
    /// otherwise the new backend takes the place of the old one, and the
    /// outcome of the check, the policy and the remembered size stay.
    pub fn rebuild(&mut self, built: Result<B, glutin::CreationError>) -> (outcome: Result<
        (),
        DisplayCreationError,
    >)
        ensures
            built matches Err(cause) ==> outcome == Err::<(), DisplayCreationError>(
                DisplayCreationError::GlutinCreationError(cause),
            ),
            built matches Ok(backend) ==> {
                &&& outcome is Err <==> old(self).spec_context().spec_checked() && !compatible(
                    backend,
                )
                &&& outcome is Ok ==> final(self).moved_to(old(self), backend)
                &&& outcome matches Err(error) ==> {
                    &&& error is IncompatibleOpenGl
                    &&& exists|i: int|
                        first_lacking(backend, i) && error.spec_description()
                            == incompatibility_message(required()[i]@)
                }
            },
            outcome matches Err(error) ==> (error is GlutinCreationError <==> built is Err),
            outcome is Err ==> *final(self) == *old(self),
    {
        match built {
            Ok(backend) => self.rebuild_on(backend),
            Err(cause) => Err(DisplayCreationError::from(cause)),
        }
    }

    /// Whether `self` is `before` moved to `backend`: the context is on
    /// `backend`, the outcome of the check, the policy and the remembered size
    /// are those of `before`, and a checked context still has a backend that
    /// resolves every required entry point.
    pub open spec fn moved_to(&self, before: &Self, backend: B) -> bool {
        &&& self.spec_context().spec_backend() == backend
        &&& self.spec_context().spec_checked() == before.spec_context().spec_checked()
        &&& self.spec_context().spec_debug() == before.spec_context().spec_debug()
        &&& self.spec_context().wf()
        &&& self.spec_last_framebuffer_dimensions() == before.spec_last_framebuffer_dimensions()
    }

    /// Puts the display on another backend, whose context is current, in
    /// place.
    ///
    /// A display whose context was checked refuses a backend that lacks a
    /// required entry point and then stays as it was. Otherwise the new
    /// backend takes the place of the old one; the outcome of the check, the
    /// policy and the remembered size stay.
    pub fn rebuild_on(&mut self, backend: B) -> (outcome: Result<(), DisplayCreationError>)
        ensures
            outcome is Err <==> old(self).spec_context().spec_checked() && !compatible(backend),
            outcome is Ok ==> final(self).moved_to(old(self), backend),
            outcome matches Err(error) ==> {
                &&& *final(self) == *old(self)
                &&& error is IncompatibleOpenGl
                &&& exists|i: int|
                    first_lacking(backend, i) && error.spec_description()
                        == incompatibility_message(required()[i]@)
            },
    {
        match self.context.rebuild(backend) {
            Ok(()) => Ok(()),
            Err(error) => Err(DisplayCreationError::from(error)),
        }
    }

    /// Starts a frame at the size `reported`.
    ///
    /// Where `reported` differs from the size of the last frame, the backend
    /// is asked once to resize to it before the frame is made. The size is
    /// remembered, and the display has its context back, with all that the
    /// frame did to it, when the frame ends.
    pub fn draw_with_dimensions(&mut self, reported: (u32, u32)) -> (frame: Frame<'_, B>)
        ensures
            frame.spec_dimensions() == reported,
            frame.spec_state() == FrameState::Active,
            old(self).starts_frame(reported, *frame.context),
            final(self).spec_last_framebuffer_dimensions() == reported,
            final(self).spec_context() == *final(frame.context),
    {
        let (last_width, last_height) = self.last_framebuffer_dimensions;
        if last_width != reported.0 || last_height != reported.1 {
            self.context.resize(reported.0, reported.1);
            self.last_framebuffer_dimensions = reported;
        } else {
            assert(self.context.spec_backend().issued() + Seq::<BackendCall>::empty()
                =~= self.context.spec_backend().issued());
        }
        Frame::new(&mut self.context, reported)
    }

    /// Starts a frame at the size that the backend reports now.
    ///
    /// Where that size differs from the size of the last frame, the backend is
    /// asked once to resize to it before the frame is made. The size is
    /// remembered, and the display has its context back, with all that the
    /// frame did to it, when the frame ends.
    pub fn draw(&mut self) -> (frame: Frame<'_, B>)
        ensures
            Context::<B>::reports(old(self).spec_context().spec_backend(), frame.spec_dimensions()),
            frame.spec_state() == FrameState::Active,
            old(self).starts_frame(frame.spec_dimensions(), *frame.context),
            final(self).spec_last_framebuffer_dimensions() == frame.spec_dimensions(),
            final(self).spec_context() == *final(frame.context),
    {
        let reported = self.context.get_framebuffer_dimensions();
        self.draw_with_dimensions(reported)
    }

    /// The framebuffer size that the last frame was started at.
    pub fn last_framebuffer_dimensions(&self) -> (dimensions: (u32, u32))
        ensures
            dimensions == self.spec_last_framebuffer_dimensions(),
    {
        self.last_framebuffer_dimensions
    }

    /// The context, to read.
    pub fn get_context(&self) -> (context: &Context<B>)
        ensures
            *context == self.spec_context(),
    {
        &self.context
    }

    /// The context, to change: the remembered size stays as it is.
    pub fn get_context_mut(&mut self) -> (context: &mut Context<B>)
        ensures
            *context == old(self).spec_context(),
            final(self).spec_context() == *final(context),
            final(self).spec_last_framebuffer_dimensions() == old(
                self,
            ).spec_last_framebuffer_dimensions(),
    {
        &mut self.context
    }

    /// The size of the framebuffer as the backend reports it now.
    pub fn get_framebuffer_dimensions(&self) -> (dimensions: (u32, u32))
        ensures
            Context::<B>::reports(self.spec_context().spec_backend(), dimensions),
    {
        self.context.get_framebuffer_dimensions()
    }

    /// Asks the backend to present, once, and hands its answer on.
    pub fn swap_buffers(&mut self) -> (outcome: Result<(), SwapBuffersError>)
        ensures
            final(self).spec_last_framebuffer_dimensions() == old(
                self,
            ).spec_last_framebuffer_dimensions(),
            final(self).spec_context().extends(
                &old(self).spec_context(),
                seq![BackendCall::SwapBuffers],
            ),
            old(self).spec_context().spec_backend().presents(outcome),
    {
        self.context.swap_buffers()
    }

    /// The address of the entry point called `symbol`; 0 exactly where the
    /// backend has none of that name.
    pub fn get_proc_address(&self, symbol: &str) -> (address: usize)
        ensures
            (address != 0) == self.spec_context().spec_backend().resolves(symbol@),
    {
        self.context.get_proc_address(symbol)
    }

    /// Whether the backend reports its context as the current one.
    pub fn is_current(&self) -> (current: bool)
        ensures
            Context::<B>::answers_current(self.spec_context().spec_backend(), current),
    {
        self.context.is_current()
    }
}

/// A frame started at the size that the display remembers, which is the
/// size of the frame before it, asks nothing of the backend.
pub proof fn lemma_unchanged_size_no_resize<B: Backend>(
    display: Display<B>,
    size: (u32, u32),
    context: Context<B>,
)
    requires
        display.spec_last_framebuffer_dimensions() == size,
        display.starts_frame(size, context),
    ensures
        context.spec_backend().issued() == display.spec_context().spec_backend().issued(),
{
    assert(display.spec_context().spec_backend().issued() + Seq::<BackendCall>::empty()
        =~= display.spec_context().spec_backend().issued());
}

/// A frame started at a size that differs from the one the display
/// remembers asks the backend exactly once, to resize to the new size.
pub proof fn lemma_new_size_one_resize<B: Backend>(
    display: Display<B>,
    size: (u32, u32),
    context: Context<B>,
)
    requires
        display.spec_last_framebuffer_dimensions() != size,
        display.starts_frame(size, context),
    ensures
        context.spec_backend().issued() == display.spec_context().spec_backend().issued().push(
            BackendCall::Resize(size.0, size.1),
        ),
{
    assert(display.spec_context().spec_backend().issued() + seq![
        BackendCall::Resize(size.0, size.1),
    ] =~= display.spec_context().spec_backend().issued().push(BackendCall::Resize(size.0, size.1)));
}

impl Display<NullBacked> {
    /// A display on the built-in backend, with the compatibility check and
    /// the default policy for diagnostic messages.
    ///
    /// The built-in backend resolves no entry point, so the check refuses it:
    /// the error names the first required entry point.
    pub fn new() -> (outcome: Result<Display<NullBacked>, DisplayCreationError>)
        ensures
            outcome matches Err(DisplayCreationError::IncompatibleOpenGl(error)) && error.0@
                == incompatibility_message(required()[0]@),
    {
        match Self::from_gl_window() {
            Ok(display) => Ok(display),
            Err(error) => Err(DisplayCreationError::from(error)),
        }
    }

    /// As `new`, with the error of the compatibility check itself.
    pub fn from_gl_window() -> (outcome: Result<Display<NullBacked>, IncompatibleOpenGl>)
        ensures
            outcome matches Err(error) && error.0@ == incompatibility_message(required()[0]@),
    {
        Self::with_debug(DebugCallbackBehavior::default())
    }

    /// A display on the built-in backend, without the compatibility check and
    /// with the default policy for diagnostic messages. Always succeeds.
    pub fn unchecked() -> (outcome: Result<Display<NullBacked>, IncompatibleOpenGl>)
        ensures
            outcome matches Ok(display) && display.fresh(
                false,
                DebugCallbackBehavior::DebugMessageOnError,
            ),
    {
        Self::unchecked_with_debug(DebugCallbackBehavior::default())
    }

    /// As `new`, with the given policy for diagnostic messages.
    pub fn with_debug(debug: DebugCallbackBehavior) -> (outcome: Result<
        Display<NullBacked>,
        IncompatibleOpenGl,
    >)
        ensures
            outcome matches Err(error) && error.0@ == incompatibility_message(required()[0]@),
    {
        Self::new_inner(debug, true)
    }

    /// As `unchecked`, with the given policy for diagnostic messages.
    pub fn unchecked_with_debug(debug: DebugCallbackBehavior) -> (outcome: Result<
        Display<NullBacked>,
        IncompatibleOpenGl,
    >)
        ensures
            outcome matches Ok(display) && display.fresh(false, debug),
    {
        Self::new_inner(debug, false)
    }

    /// Whether the display is one just built on the built-in backend: nothing
    /// was asked of the backend yet and the remembered size is 800 by 600.
    pub open spec fn fresh(&self, checked: bool, debug: DebugCallbackBehavior) -> bool {
        &&& self.spec_last_framebuffer_dimensions() == (800u32, 600u32)
        &&& self.spec_context().spec_backend().issued() == Seq::<BackendCall>::empty()
        &&& self.spec_context().spec_checked() == checked
        &&& self.spec_context().spec_debug() == debug
    }

    fn new_inner(debug: DebugCallbackBehavior, checked: bool) -> (outcome: Result<
        Display<NullBacked>,
        IncompatibleOpenGl,
    >)
        ensures
            outcome is Err <==> checked,
            outcome matches Ok(display) ==> display.fresh(checked, debug),
            outcome matches Err(error) ==> error.0@ == incompatibility_message(required()[0]@),
    {
        let glutin_backend = NullBacked::new();
        assert(!glutin_backend.resolves(required()[0]@));
        Display::from_backend(glutin_backend, debug, checked)
    }
}

} // verus!
