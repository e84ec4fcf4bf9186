//! A display handle over a graphics backend: context acquisition, the
//! one-time compatibility check, resize detection between frames, and the
//! frame/present protocol.
//!
//! Every state-changing request that reaches a backend is part of that
//! backend's history (`Backend::issued`), and the contracts of `Context`,
//! `Display` and `Frame` say exactly which requests each operation adds to it.

pub mod backend;
pub mod context;
pub mod frame;
pub mod display;

pub use backend::{Backend, BackendCall, NullBacked, StubBackend, SwapBuffersError};
pub use context::{Context, DebugCallbackBehavior, IncompatibleOpenGl};
pub use display::{Cause, Display, DisplayCreationError};
pub use frame::{Frame, FrameState, Session};
