use vstd::prelude::*;
use crate::handler::SomeHandler;

verus! {

/// The one-shot envelope that moves a freshly built handler from the code
/// that built it to the host. Unwrapping consumes it, so it is unwrapped at
/// most once.
pub struct HandlerWrapper<H>(pub Box<H>);

impl<H> HandlerWrapper<H> {
    /// Packs an owned handler for transfer.
    pub fn wrap(handler: H) -> (r: Box<HandlerWrapper<H>>)
        ensures
            *r.0 == handler,
    {
        Box::new(HandlerWrapper(Box::new(handler)))
    }

    /// Takes the handler out, discarding the envelope.
    pub fn unwrap(self) -> (r: Box<H>)
        ensures
            *r == *self.0,
    {
        self.0
    }
}

/// The construction function a handler module exports: builds the embedded
/// handler, not yet set up, and packs it for transfer.
pub fn create_handler() -> (r: Box<HandlerWrapper<SomeHandler>>)
    ensures
        r.0.data_view() is None,
{
    HandlerWrapper::wrap(SomeHandler::uninit())
}

} // verus!
