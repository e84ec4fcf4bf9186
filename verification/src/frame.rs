//! A drawing session: it borrows the context it draws into and ends with one
//! request to present.

use vstd::prelude::*;
use crate::backend::{Backend, BackendCall, SwapBuffersError};
use crate::context::Context;

verus! {

/// Where a frame is in its life.
#[derive(Clone, Copy, PartialEq, Eq, Debug, Structural)]
pub enum FrameState {
    /// Drawing is permitted; nothing was presented yet.
    Active,
    /// The frame was presented; it stays so.
    Released,
}

/// A drawing session on a surface of a fixed size.
///
/// The frame holds its context for as long as it lives, so a display has one
/// live frame at most, and a frame is released on the context it was started
/// on and on no other.
#[must_use]
pub struct Frame<'a, B: Backend> {
    /// The context that the frame draws into.
    pub context: &'a mut Context<B>,
    /// The size and the state of the session.
    pub session: Session,
}

/// What a frame keeps of itself: the size it was started at and where it is
/// in its life. Only a frame's own operations make or change one.
#[derive(Debug)]
pub struct Session {
    dimensions: (u32, u32),
    state: FrameState,
}

impl Session {
    /// The size of the surface when the frame was started.
    pub closed spec fn spec_dimensions(&self) -> (u32, u32) {
        self.dimensions
    }

    /// Where the frame is in its life.
    pub closed spec fn spec_state(&self) -> FrameState {
        self.state
    }
}

/// The requests that releasing a frame makes of the backend: one to present
/// for an active frame, none for one that was released before.
pub open spec fn release_calls(state: FrameState) -> Seq<BackendCall> {
    match state {
        FrameState::Active => seq![BackendCall::SwapBuffers],
        FrameState::Released => Seq::empty(),
    }
}

impl<'a, B: Backend> Frame<'a, B> {
    /// The size of the surface when the frame was started.
    pub open spec fn spec_dimensions(&self) -> (u32, u32) {
        self.session.spec_dimensions()
    }

    /// Where the frame is in its life.
    pub open spec fn spec_state(&self) -> FrameState {
        self.session.spec_state()
    }

    /// Starts a frame on `context`, on a surface of the given size. Nothing
    /// is asked of the backend.
    pub fn new(context: &'a mut Context<B>, dimensions: (u32, u32)) -> (frame: Frame<'a, B>)
        ensures
            *frame.context == *old(context),
            *final(context) == *final(frame.context),
            frame.spec_dimensions() == dimensions,
            frame.spec_state() == FrameState::Active,
    {
        Frame { context, session: Session { dimensions, state: FrameState::Active } }
    }

    /// The size of the surface when the frame was started.
    pub fn get_dimensions(&self) -> (dimensions: (u32, u32))
        ensures
            dimensions == self.spec_dimensions(),
    {
        self.session.dimensions
    }

    /// Where the frame is in its life.
    pub fn state(&self) -> (state: FrameState)
        ensures
            state == self.spec_state(),
    {
        self.session.state
    }

    /// Whether drawing is still permitted.
    pub fn is_active(&self) -> (active: bool)
        ensures
            active == (self.spec_state() == FrameState::Active),
    {
        match self.session.state {
            FrameState::Active => true,
            FrameState::Released => false,
        }
    }

    /// Releases the frame.
    ///
    /// An active frame asks its context to present exactly once and hands the
    /// backend's answer on. A frame that was released before asks for nothing,
    /// leaves the context as it is and answers `AlreadySwapped`. Either way the
    /// frame is released afterwards, on the same context and of the same size.
    pub fn set_finish(&mut self) -> (outcome: Result<(), SwapBuffersError>)
        ensures
            final(self).spec_state() == FrameState::Released,
            final(self).spec_dimensions() == old(self).spec_dimensions(),
            (*final(self).context).extends(
                &*old(self).context,
                release_calls(old(self).spec_state()),
            ),
            *final(final(self).context) == *final(old(self).context),
            old(self).spec_state() == FrameState::Active ==> old(
                self,
            ).context.spec_backend().presents(outcome),
            old(self).spec_state() == FrameState::Released ==> outcome == Err::<
                (),
                SwapBuffersError,
            >(SwapBuffersError::AlreadySwapped),
    {
        match self.session.state {
            FrameState::Active => {
                self.session.state = FrameState::Released;
                self.context.swap_buffers()
            },
            FrameState::Released => {
                assert(self.context.spec_backend().issued() + Seq::<BackendCall>::empty()
                    =~= self.context.spec_backend().issued());
                Err(SwapBuffersError::AlreadySwapped)
            },
        }
    }

    /// Ends the frame: releases it and gives the context back.
    ///
    /// The context is then the one that the frame held, with one request to
    /// present added for an active frame and none for a released one.
    pub fn finish(self) -> (outcome: Result<(), SwapBuffersError>)
        ensures
            (*final(self.context)).extends(&*old(self.context), release_calls(self.spec_state())),
            self.spec_state() == FrameState::Active ==> old(
                self.context,
            ).spec_backend().presents(outcome),
            self.spec_state() == FrameState::Released ==> outcome == Err::<(), SwapBuffersError>(
                SwapBuffersError::AlreadySwapped,
            ),
    {
        let mut frame = self;
        frame.set_finish()
    }
}

/// Ending a frame that was not released before asks the backend to present
/// exactly once, whatever was drawn; ending one that was released before
/// leaves the context as it was.
pub proof fn lemma_release_presents_once<B: Backend>(
    before: Context<B>,
    after: Context<B>,
    state: FrameState,
)
    requires
        after.extends(&before, release_calls(state)),
    ensures
        state == FrameState::Active ==> after.spec_backend().issued()
            == before.spec_backend().issued().push(BackendCall::SwapBuffers),
        state == FrameState::Released ==> after == before,
{
    if state == FrameState::Active {
        assert(before.spec_backend().issued() + seq![BackendCall::SwapBuffers]
            =~= before.spec_backend().issued().push(BackendCall::SwapBuffers));
    }
}

} // verus!
