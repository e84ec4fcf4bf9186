//! The capability that a windowing integration provides to a context, and two
//! stand-ins for it.

use vstd::prelude::*;

verus! {

/// Why presenting a frame failed.
#[derive(Clone, Copy, PartialEq, Eq, Debug, Structural)]
pub enum SwapBuffersError {
    /// The context is no longer usable for presentation.
    ContextLost,
    /// The frame had already been released, so nothing was presented again.
    AlreadySwapped,
}

/// A state-changing request made of a backend.
#[derive(Clone, Copy, PartialEq, Eq, Debug, Structural)]
pub enum BackendCall {
    /// Present the buffer that was drawn last.
    SwapBuffers,
    /// Reconfigure the surface to a width and a height in pixels.
    Resize(u32, u32),
    /// Make the context the current one.
    MakeCurrent,
}

/// What a context needs from the windowing side.
///
/// `issued` is the history of the state-changing requests that the backend
/// has received, oldest first, and `resolves` says which symbols it can
/// resolve. What else a backend promises of a request is its own to say:
/// `step` relates its state before a request to its state after, and
/// `presents` says which answers it may give when asked to present. The size
/// of the framebuffer and whether the context is current belong to the
/// surroundings, so the trait states nothing of those two answers.
pub trait Backend: Sized {
    /// The requests received so far, oldest first.
    spec fn issued(&self) -> Seq<BackendCall>;

    /// Whether the backend has an entry point of this name.
    spec fn resolves(&self, symbol: Seq<char>) -> bool;

    /// Whether `after` is a state that this backend promises to be in once
    /// `call` was made of it in the state `self`.
    spec fn step(&self, call: BackendCall, after: Self) -> bool;

    /// Whether `outcome` is an answer that this backend promises to give when
    /// it is asked to present in the state `self`.
    spec fn presents(&self, outcome: Result<(), SwapBuffersError>) -> bool;

    /// Presents the buffer that was drawn last.
    fn swap_buffers(&mut self) -> (outcome: Result<(), SwapBuffersError>)
        ensures
            final(self).issued() == old(self).issued().push(BackendCall::SwapBuffers),
            forall|symbol: Seq<char>| final(self).resolves(symbol) == old(self).resolves(symbol),
            old(self).step(BackendCall::SwapBuffers, *final(self)),
            old(self).presents(outcome),
    ;

    /// The address of the entry point called `symbol`, or 0 where the backend
    /// has none of that name.
    fn get_proc_address(&self, symbol: &str) -> (address: usize)
        ensures
            (address != 0) == self.resolves(symbol@),
    ;

    /// The size of the framebuffer in pixels, as it is now.
    fn get_framebuffer_dimensions(&self) -> (dimensions: (u32, u32));

    /// Whether the context is the current one.
    fn is_current(&self) -> (current: bool);

    /// Makes the context the current one.
    fn make_current(&mut self)
        ensures
            final(self).issued() == old(self).issued().push(BackendCall::MakeCurrent),
            forall|symbol: Seq<char>| final(self).resolves(symbol) == old(self).resolves(symbol),
            old(self).step(BackendCall::MakeCurrent, *final(self)),
    ;

    /// Reconfigures the surface to `width` by `height` pixels.
    fn resize(&mut self, width: u32, height: u32)
        ensures
            final(self).issued() == old(self).issued().push(BackendCall::Resize(width, height)),
            forall|symbol: Seq<char>| final(self).resolves(symbol) == old(self).resolves(symbol),
            old(self).step(BackendCall::Resize(width, height), *final(self)),
    ;
}

/// A backend that does nothing: a surface of 800 by 600 pixels that is always
/// current, presents successfully and resolves no symbol.
pub struct NullBacked {
    received: Ghost<Seq<BackendCall>>,
}

impl NullBacked {
    /// A fresh backend that has received no request.
    pub fn new() -> (backend: NullBacked)
        ensures
            backend.issued() == Seq::<BackendCall>::empty(),
    {
        NullBacked { received: Ghost(Seq::empty()) }
    }
}

impl Backend for NullBacked {
    closed spec fn issued(&self) -> Seq<BackendCall> {
        self.received@
    }

    open spec fn resolves(&self, symbol: Seq<char>) -> bool {
        false
    }

    open spec fn step(&self, call: BackendCall, after: Self) -> bool {
        true
    }

    open spec fn presents(&self, outcome: Result<(), SwapBuffersError>) -> bool {
        outcome is Ok
    }

    fn swap_buffers(&mut self) -> (outcome: Result<(), SwapBuffersError>) {
        self.received = Ghost(self.received@.push(BackendCall::SwapBuffers));
        Ok(())
    }

    fn get_proc_address(&self, symbol: &str) -> (address: usize)
        ensures
            address == 0,
    {
        0
    }

    fn get_framebuffer_dimensions(&self) -> (dimensions: (u32, u32))
        ensures
            dimensions == (800u32, 600u32),
    {
        (800, 600)
    }

    fn is_current(&self) -> (current: bool)
        ensures
            current,
    {
        true
    }

    fn make_current(&mut self) {
        self.received = Ghost(self.received@.push(BackendCall::MakeCurrent));
    }

    fn resize(&mut self, width: u32, height: u32) {
        self.received = Ghost(self.received@.push(BackendCall::Resize(width, height)));
    }
}

/// A backend whose answers are plain data: it reports the size and the
/// current flag it holds, resolves the symbols it lists, and keeps every
/// state-changing request it receives. Presenting succeeds while it is
/// current and fails with `ContextLost` while it is not; being made current
/// sets the flag; no request changes the size or the symbols.
pub struct StubBackend {
    /// The framebuffer size it reports.
    pub dimensions: (u32, u32),
    /// Whether it reports to be current; presenting fails while it is not.
    pub current: bool,
    /// The symbols it resolves.
    pub symbols: Vec<String>,
    /// The requests received so far, oldest first.
    pub calls: Vec<BackendCall>,
}

impl StubBackend {
    /// Whether `symbol` is one of the listed symbols.
    pub open spec fn lists(&self, symbol: Seq<char>) -> bool {
        exists|i: int| 0 <= i < self.symbols@.len() && (#[trigger] self.symbols@[i])@ == symbol
    }

    /// A current backend of the given size that resolves `symbols` and has
    /// received no request.
    pub fn new(dimensions: (u32, u32), symbols: Vec<String>) -> (backend: StubBackend)
        ensures
            backend.dimensions == dimensions,
            backend.current,
            backend.symbols == symbols,
            backend.calls@ == Seq::<BackendCall>::empty(),
    {
        StubBackend { dimensions, current: true, symbols, calls: Vec::new() }
    }
}

impl Backend for StubBackend {
    open spec fn issued(&self) -> Seq<BackendCall> {
        self.calls@
    }

    open spec fn resolves(&self, symbol: Seq<char>) -> bool {
        self.lists(symbol)
    }

    open spec fn step(&self, call: BackendCall, after: Self) -> bool {
        &&& after.dimensions == self.dimensions
        &&& after.symbols == self.symbols
        &&& after.current == (self.current || call == BackendCall::MakeCurrent)
    }

    open spec fn presents(&self, outcome: Result<(), SwapBuffersError>) -> bool {
        outcome == (if self.current {
            Ok::<(), SwapBuffersError>(())
        } else {
            Err::<(), SwapBuffersError>(SwapBuffersError::ContextLost)
        })
    }

    fn swap_buffers(&mut self) -> (outcome: Result<(), SwapBuffersError>) {
        self.calls.push(BackendCall::SwapBuffers);
        assert(self.symbols@ == old(self).symbols@);
        if self.current {
            Ok(())
        } else {
            Err(SwapBuffersError::ContextLost)
        }
    }

    fn get_proc_address(&self, symbol: &str) -> (address: usize)
        ensures
            address != 0 ==> 0 < address <= self.symbols@.len()
                && self.symbols@[address - 1]@ == symbol@,
    {
        let wanted = String::from_str(symbol);
        let mut i: usize = 0;
        while i < self.symbols.len()
            invariant
                i <= self.symbols@.len(),
                wanted@ == symbol@,
                forall|j: int| 0 <= j < i ==> (#[trigger] self.symbols@[j])@ != symbol@,
            decreases self.symbols@.len() - i,
        {
            if self.symbols[i] == wanted {
                return i + 1;
            }
            i += 1;
        }
        0
    }

    fn get_framebuffer_dimensions(&self) -> (dimensions: (u32, u32))
        ensures
            dimensions == self.dimensions,
    {
        self.dimensions
    }

    fn is_current(&self) -> (current: bool)
        ensures
            current == self.current,
    {
        self.current
    }

    fn make_current(&mut self) {
        self.calls.push(BackendCall::MakeCurrent);
        self.current = true;
        assert(self.symbols@ == old(self).symbols@);
    }

    fn resize(&mut self, width: u32, height: u32) {
        self.calls.push(BackendCall::Resize(width, height));
        assert(self.symbols@ == old(self).symbols@);
    }
}

} // verus!
