use vstd::prelude::*;

verus! {

/// The engine could not load the model.
#[derive(Debug, Clone, Copy, PartialEq, Eq, Structural)]
pub enum InitializationError {
    InitializationFailed,
}

/// The engine could not open a streaming session.
#[derive(Debug, Clone, Copy, PartialEq, Eq, Structural)]
pub enum StreamInitializationError {
    StreamInitializationFailed,
}

impl InitializationError {
    /// The error's message.
    pub fn message(&self) -> (r: &'static str)
        ensures
            r@ == "Failed to initialize model"@,
    {
        "Failed to initialize model"
    }
}

impl StreamInitializationError {
    /// The error's message.
    pub fn message(&self) -> (r: &'static str)
        ensures
            r@ == "Failed to create streaming context"@,
    {
        "Failed to create streaming context"
    }
}

} // verus!
