//! Buffer objects and binding targets.
//!
//! A `Buffer` owns one host-allocated buffer handle; a `BufferBinding` is
//! not an owner but the mutable association between one binding target and
//! whichever buffer is currently bound to it.

use vstd::prelude::*;

use crate::context::GlContext;
use crate::error::GlError;
use crate::host::{BufferBindingTarget, BufferUsageHint, HostCall};

verus! {

/// Owns exactly one host-allocated buffer handle.
#[derive(Debug)]
pub struct Buffer(pub u32);

impl Buffer {
    /// Release the buffer's handle. Consuming the wrapper, this records
    /// exactly one delete call for the handle, so a second delete of the
    /// same wrapper cannot be issued.
    pub fn delete(self, ctx: &mut GlContext)
        ensures
            final(ctx)@ == old(ctx)@.push(HostCall::DeleteBuffer { buffer: self.0 }),
    {
        ctx.calls.push(HostCall::DeleteBuffer { buffer: self.0 });
    }
}

/// The mutable association between one binding target and the buffer
/// currently bound to it. Holds no host resource of its own.
#[derive(Debug)]
pub struct BufferBinding {
    pub target: BufferBindingTarget,
}

impl BufferBinding {
    /// Bind `buffer` (or clear the binding) for this target. A target
    /// always accepts a rebind; the call itself raises no typed error, and
    /// the host's polled status is decoded and returned for the caller's
    /// diagnostic sink.
    pub fn bind(&self, ctx: &mut GlContext, buffer: Option<&Buffer>, polled: u32) -> (r: Option<
        GlError,
    >)
        ensures
            buffer is None ==> final(ctx)@ == old(ctx)@ + seq![
                HostCall::BindBuffer { target: self.target, buffer: None },
                HostCall::GetError { code: polled },
            ],
            buffer matches Some(b) ==> final(ctx)@ == old(ctx)@ + seq![
                HostCall::BindBuffer { target: self.target, buffer: Some(b.0) },
                HostCall::GetError { code: polled },
            ],
            r == GlError::spec_from_gl_enum(polled),
    {
        let handle: Option<u32> = match buffer {
            Some(b) => Some(b.0),
            None => None,
        };
        ctx.calls.push(HostCall::BindBuffer { target: self.target, buffer: handle });
        ctx.get_error(polled)
    }

    /// Upload `byte_len` bytes of host data into the buffer currently bound
    /// to this target, with a usage hint. Whether a buffer is bound is a
    /// caller invariant the host does not check; the polled status is
    /// decoded and returned.
    pub fn write(&self, ctx: &mut GlContext, byte_len: usize, usage: BufferUsageHint, polled: u32)
        -> (r: Option<GlError>)
        ensures
            final(ctx)@ == old(ctx)@ + seq![
                HostCall::BufferData { target: self.target, byte_len: byte_len, usage: usage },
                HostCall::GetError { code: polled },
            ],
            r == GlError::spec_from_gl_enum(polled),
    {
        ctx.calls.push(HostCall::BufferData { target: self.target, byte_len, usage });
        ctx.get_error(polled)
    }
}

} // verus!
