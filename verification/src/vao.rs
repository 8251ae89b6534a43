//! Vertex array objects.
//!
//! A `VertexArray` owns one host-allocated vertex-array handle; binding it
//! captures whatever attribute-pointer state is configured at bind time.

use vstd::prelude::*;

use crate::context::GlContext;
use crate::host::HostCall;

verus! {

/// Owns exactly one host-allocated vertex-array handle.
#[derive(Debug)]
pub struct VertexArray {
    pub vao: u32,
}

impl VertexArray {
    /// Release the vertex array's handle. Consuming the wrapper, this
    /// records exactly one delete call for the handle.
    pub fn delete(self, ctx: &mut GlContext)
        ensures
            final(ctx)@ == old(ctx)@.push(HostCall::DeleteVertexArray { vao: self.vao }),
    {
        ctx.calls.push(HostCall::DeleteVertexArray { vao: self.vao });
    }
}

} // verus!
