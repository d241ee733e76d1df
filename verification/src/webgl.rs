//! Settings handed to the graphics context: the values a context is
//! created with, how a creation attempt ended, and the stencil test.

use vstd::prelude::*;

verus! {

/// Comparison that never passes.
pub const NEVER: u32 = 0x0200;

/// Comparison that passes where the reference is less than the stored value.
pub const LESS: u32 = 0x0201;

/// Comparison that passes where the reference equals the stored value.
pub const EQUAL: u32 = 0x0202;

/// Comparison that passes where the reference is greater than the stored
/// value.
pub const GREATER: u32 = 0x0204;

/// Comparison that always passes.
pub const ALWAYS: u32 = 0x0207;

/// Stencil operation that leaves the stored value alone.
pub const KEEP: u32 = 0x1E00;

/// Stencil operation that stores the reference value.
pub const REPLACE: u32 = 0x1E01;

/// Stencil operation that adds one, stopping at the maximum.
pub const INCR: u32 = 0x1E02;

/// Stencil operation that subtracts one, stopping at zero.
pub const DECR: u32 = 0x1E03;

/// Stencil operation that flips every bit.
pub const INVERT: u32 = 0x150A;

/// Result code of the host for "not supported".
pub const RESULT_NOT_SUPPORTED: i32 = -1;

/// Result code of the host for "failed, and will not be retried later".
pub const RESULT_FAILED_NOT_DEFERRED: i32 = -2;

/// Result code of the host for "failed".
pub const RESULT_FAILED: i32 = -6;

/// How the stencil test compares and what it does to the stencil buffer.
#[derive(Copy, Clone, Debug, PartialEq, Eq)]
pub struct StencilParams {
    /// The comparison between `reference` and the stored value.
    pub condition: u32,
    /// The value compared against, and stored by `REPLACE`.
    pub reference: u8,
    /// Operation when the stencil test fails.
    pub stencil_fail: u32,
    /// Operation when the stencil test passes and the depth test fails.
    pub depth_fail: u32,
    /// Operation when both tests pass.
    pub pass: u32,
}

impl StencilParams {
    /// A test that never passes and never changes the buffer.
    pub fn new(reference: u8) -> (out: Self)
        ensures
            out == (StencilParams {
                condition: NEVER,
                reference,
                stencil_fail: KEEP,
                depth_fail: KEEP,
                pass: KEEP,
            }),
    {
        StencilParams {
            reference,
            condition: NEVER,
            stencil_fail: KEEP,
            depth_fail: KEEP,
            pass: KEEP,
        }
    }

    /// Compares with `condition` instead.
    pub fn pass_if(self, condition: u32) -> (out: Self)
        ensures
            out == (StencilParams { condition, ..self }),
    {
        StencilParams { condition, ..self }
    }

    /// Lets every fragment pass.
    pub fn always(self) -> (out: Self)
        ensures
            out == (StencilParams { condition: ALWAYS, ..self }),
    {
        self.pass_if(ALWAYS)
    }

    /// Lets no fragment pass.
    pub fn never(self) -> (out: Self)
        ensures
            out == (StencilParams { condition: NEVER, ..self }),
    {
        self.pass_if(NEVER)
    }

    /// Lets a fragment pass where the stored value equals the reference.
    pub fn equal(self) -> (out: Self)
        ensures
            out == (StencilParams { condition: EQUAL, ..self }),
    {
        self.pass_if(EQUAL)
    }

    /// Lets a fragment pass where the reference is less than the stored
    /// value.
    pub fn less_than_stencil(self) -> (out: Self)
        ensures
            out == (StencilParams { condition: LESS, ..self }),
    {
        self.pass_if(LESS)
    }

    /// Lets a fragment pass where the reference is greater than the stored
    /// value.
    pub fn greater_than_stencil(self) -> (out: Self)
        ensures
            out == (StencilParams { condition: GREATER, ..self }),
    {
        self.pass_if(GREATER)
    }

    /// Stores the reference where both tests pass.
    pub fn replace(self) -> (out: Self)
        ensures
            out == (StencilParams { pass: REPLACE, ..self }),
    {
        StencilParams { pass: REPLACE, ..self }
    }

    /// Adds one to the stored value where both tests pass.
    pub fn increment(self) -> (out: Self)
        ensures
            out == (StencilParams { pass: INCR, ..self }),
    {
        StencilParams { pass: INCR, ..self }
    }

    /// Subtracts one from the stored value where both tests pass.
    pub fn decrement(self) -> (out: Self)
        ensures
            out == (StencilParams { pass: DECR, ..self }),
    {
        StencilParams { pass: DECR, ..self }
    }

    /// Flips the bits of the stored value where both tests pass.
    pub fn invert(self) -> (out: Self)
        ensures
            out == (StencilParams { pass: INVERT, ..self }),
    {
        StencilParams { pass: INVERT, ..self }
    }
}

/// What a context is asked for when it is created.
#[derive(Copy, Clone, Debug, PartialEq, Eq)]
pub struct ContextAttributes {
    pub alpha: bool,
    pub stencil: bool,
    pub antialias: bool,
    pub preserve_drawing_buffer: bool,
    pub enable_extensions_by_default: bool,
}

/// Why no context could be created.
#[derive(Copy, Clone, Debug, PartialEq, Eq)]
pub enum ContextError {
    /// The host has no WebGL.
    NotSupported,
    /// Creation failed and will not be retried later.
    FailedNotDeferred,
    /// Creation failed.
    Failed,
    /// Creation failed with another negative result code.
    Other(i32),
}

/// The error that the result `handle` of a creation attempt stands for;
/// `None` for a usable handle.
pub open spec fn creation_error(handle: i32) -> Option<ContextError> {
    if handle == RESULT_NOT_SUPPORTED {
        Some(ContextError::NotSupported)
    } else if handle == RESULT_FAILED_NOT_DEFERRED {
        Some(ContextError::FailedNotDeferred)
    } else if handle == RESULT_FAILED {
        Some(ContextError::Failed)
    } else if handle < 0 {
        Some(ContextError::Other(handle))
    } else {
        None
    }
}

/// The attributes a context is created with: a stencil buffer and
/// antialiasing always, an alpha channel on request, and neither a
/// preserved drawing buffer nor extensions by default.
pub fn context_attributes(alpha: bool) -> (out: ContextAttributes)
    ensures
        out == (ContextAttributes {
            alpha,
            stencil: true,
            antialias: true,
            preserve_drawing_buffer: false,
            enable_extensions_by_default: false,
        }),
{
    ContextAttributes {
        alpha,
        stencil: true,
        antialias: true,
        preserve_drawing_buffer: false,
        enable_extensions_by_default: false,
    }
}

/// Judges the result of a creation attempt: every negative result code is
/// an error, anything else is a usable handle.
pub fn check_context_handle(handle: i32) -> (out: Result<(), ContextError>)
    ensures
        match out {
            Ok(_) => creation_error(handle) is None,
            Err(error) => creation_error(handle) == Some(error),
        },
{
    if handle == RESULT_NOT_SUPPORTED {
        Err(ContextError::NotSupported)
    } else if handle == RESULT_FAILED_NOT_DEFERRED {
        Err(ContextError::FailedNotDeferred)
    } else if handle == RESULT_FAILED {
        Err(ContextError::Failed)
    } else if handle < 0 {
        Err(ContextError::Other(handle))
    } else {
        Ok(())
    }
}

} // verus!
