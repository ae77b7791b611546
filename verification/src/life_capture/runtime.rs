//! The process-wide life-capture runtime slot.
//!
//! The runtime (personal index plus embedder) is set once at startup and
//! read by every later call. A second initialisation is refused, and a read
//! before initialisation reports how to enable the runtime.

use vstd::prelude::*;

verus! {

/// The life-capture runtime: the personal index and the embedder that
/// feeds it.
pub struct LifeCaptureRuntime<I, E> {
    pub index: I,
    pub embedder: E,
}

/// The error of a second initialisation.
pub const ALREADY_INITIALISED: &'static str = "life_capture runtime already initialised";
/// The error of a read before initialisation.
pub const NOT_INITIALISED: &'static str =
    "life_capture runtime not initialised — set embeddings.api_key in config";

/// A slot that holds a value once set; it is never replaced.
pub struct RuntimeSlot<T> {
    value: Option<T>,
}

impl<T> View for RuntimeSlot<T> {
    type V = Option<T>;

    closed spec fn view(&self) -> Option<T> {
        self.value
    }
}

impl<T> RuntimeSlot<T> {
    /// An empty slot.
    pub fn new() -> (s: Self)
        ensures
            s@ is None,
    {
        RuntimeSlot { value: None }
    }

    /// Store `rt` if the slot is empty; otherwise leave it unchanged and
    /// report that it was already initialised.
    pub fn init(&mut self, rt: T) -> (r: Result<(), &'static str>)
        ensures
            old(self)@ is None ==> r is Ok && final(self)@ == Some(rt),
            old(self)@ is Some ==> (r matches Err(e) && e@ == ALREADY_INITIALISED@)
                && final(self)@ == old(self)@,
    {
        if self.value.is_some() {
            return Err(ALREADY_INITIALISED);
        }
        self.value = Some(rt);
        Ok(())
    }

    /// The stored value, or the error that tells how to enable it.
    pub fn get(&self) -> (r: Result<&T, &'static str>)
        ensures
            match self@ {
                Some(v) => r matches Ok(x) && *x == v,
                None => r matches Err(e) && e@ == NOT_INITIALISED@,
            },
    {
        match &self.value {
            Some(v) => Ok(v),
            None => Err(NOT_INITIALISED),
        }
    }
}

} // verus!
