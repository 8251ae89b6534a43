//! The GPU context: factories for host objects, baseline render state, the
//! per-frame passthrough calls, and error polling.
//!
//! A `GlContext` stands for one host GPU context. Every call the core
//! issues against the host is recorded, in order, in `calls`; host
//! responses (created handles, polled status codes) arrive as arguments.

use vstd::prelude::*;

use crate::buffer::{Buffer, BufferBinding};
use crate::error::{BufferCreationError, GlError, VaoCreationError};
use crate::host::{BufferBindingTarget, DrawMethod, HostCall};
use crate::shader::{pointer_calls, ShaderCompiler, ShaderProgram, UniformLocation};
use crate::vao::VertexArray;

verus! {

/// The calls `init` issues to set the baseline render state, ending with
/// a viewport covering the full drawing buffer.
pub open spec fn init_calls(width: i32, height: i32) -> Seq<HostCall> {
    seq![
        HostCall::ClearColor,
        HostCall::ClearDepth,
        HostCall::EnableDepthTest,
        HostCall::DepthFuncLequal,
        HostCall::EnableBlend,
        HostCall::BlendFuncStandardAlpha,
        (HostCall::Viewport { width, height }),
    ]
}

/// One host GPU context. Owns the append-only record of every call issued
/// against the host; every object the context creates tears itself down
/// through a `&mut` borrow of it, so the context outlives them all.
#[derive(Debug)]
pub struct GlContext {
    pub calls: Vec<HostCall>,
}

impl View for GlContext {
    type V = Seq<HostCall>;

    open spec fn view(&self) -> Seq<HostCall> {
        self.calls@
    }
}

impl GlContext {
    /// A fresh context: nothing issued against the host yet.
    pub fn new() -> (c: GlContext)
        ensures
            c@ == Seq::<HostCall>::empty(),
    {
        let c = GlContext { calls: Vec::new() };
        proof {
            assert(c@ =~= Seq::<HostCall>::empty());
        }
        c
    }

    /// Set the baseline render state: clear color and depth, depth test
    /// with a less-or-equal comparison, standard alpha blending, and a
    /// viewport of the host's full drawing-buffer size (handed in by the
    /// driver). Polls once afterwards and returns the decoded status for
    /// the caller's diagnostic sink.
    pub fn init(&mut self, width: i32, height: i32, polled: u32) -> (r: Option<GlError>)
        ensures
            final(self)@ == old(self)@ + init_calls(width, height) + seq![
                (HostCall::GetError { code: polled }),
            ],
            r == GlError::spec_from_gl_enum(polled),
    {
        self.calls.push(HostCall::ClearColor);
        self.calls.push(HostCall::ClearDepth);
        self.calls.push(HostCall::EnableDepthTest);
        self.calls.push(HostCall::DepthFuncLequal);
        self.calls.push(HostCall::EnableBlend);
        self.calls.push(HostCall::BlendFuncStandardAlpha);
        self.calls.push(HostCall::Viewport { width, height });
        let r = self.get_error(polled);
        proof {
            assert(self@ =~= old(self)@ + init_calls(width, height) + seq![
                (HostCall::GetError { code: polled }),
            ]);
        }
        r
    }

    /// A fresh shader compiler holding no stages. No host allocation
    /// happens yet, so this cannot fail.
    pub fn make_shader_compiler(&self) -> (c: ShaderCompiler)
        ensures
            c.shaders@ == Seq::<u32>::empty(),
    {
        let c = ShaderCompiler { shaders: Vec::new() };
        proof {
            assert(c.shaders@ =~= Seq::<u32>::empty());
        }
        c
    }

    /// Bind `program` as the active program (or unbind with `None`). When
    /// binding, every vertex-attribute pointer registered on the program is
    /// re-applied, because in the host API attribute pointers follow the
    /// currently bound buffer, not the program. Each of the two steps is
    /// polled once; the decoded pair is returned.
    pub fn use_program(
        &mut self,
        program: Option<&ShaderProgram>,
        polled_use: u32,
        polled_attribs: u32,
    ) -> (r: (Option<GlError>, Option<GlError>))
        requires
            program matches Some(p) ==> p.wf(),
        ensures
            program is None ==> final(self)@ == old(self)@.push(HostCall::UseProgram { program: None })
                && r == (None::<GlError>, None::<GlError>),
            program matches Some(p) ==> final(self)@ == old(self)@ + seq![
                (HostCall::UseProgram { program: Some(p.program) }),
                (HostCall::GetError { code: polled_use }),
            ] + pointer_calls(p.attributes@) + seq![(HostCall::GetError { code: polled_attribs })]
                && r.0 == GlError::spec_from_gl_enum(polled_use) && r.1
                == GlError::spec_from_gl_enum(polled_attribs),
    {
        let p = match program {
            None => {
                self.calls.push(HostCall::UseProgram { program: None });
                return (None, None);
            },
            Some(p) => p,
        };
        self.calls.push(HostCall::UseProgram { program: Some(p.program) });
        let r_use = self.get_error(polled_use);
        let r_attribs = p.configure_vertex_attrib_pointers(self, polled_attribs);
        proof {
            assert(self@ =~= old(self)@ + seq![
                (HostCall::UseProgram { program: Some(p.program) }),
                (HostCall::GetError { code: polled_use }),
            ] + pointer_calls(p.attributes@) + seq![
                (HostCall::GetError { code: polled_attribs }),
            ]);
        }
        (r_use, r_attribs)
    }

    /// Ask the host for a buffer object. Fails with `CreationFailed`
    /// exactly when the host refuses to allocate one.
    pub fn make_buffer(&mut self, created: Option<u32>) -> (r: Result<Buffer, BufferCreationError>)
        ensures
            final(self)@ == old(self)@.push(HostCall::CreateBuffer { result: created }),
            created matches Some(h) ==> r matches Ok(b) && b.0 == h,
            created is None ==> r == Err::<Buffer, BufferCreationError>(
                BufferCreationError::CreationFailed,
            ),
    {
        self.calls.push(HostCall::CreateBuffer { result: created });
        match created {
            Some(h) => Ok(Buffer(h)),
            None => Err(BufferCreationError::CreationFailed),
        }
    }

    /// The binding slot for `target`: pure value construction, no host call.
    pub fn get_buffer_binding(&self, target: BufferBindingTarget) -> (b: BufferBinding)
        ensures
            b.target == target,
    {
        BufferBinding { target }
    }

    /// Ask the host for a vertex array object. Fails with `CreationFailed`
    /// exactly when the host refuses to allocate one.
    pub fn make_vao(&mut self, created: Option<u32>) -> (r: Result<VertexArray, VaoCreationError>)
        ensures
            final(self)@ == old(self)@.push(HostCall::CreateVertexArray { result: created }),
            created matches Some(h) ==> r matches Ok(v) && v.vao == h,
            created is None ==> r == Err::<VertexArray, VaoCreationError>(
                VaoCreationError::CreationFailed,
            ),
    {
        self.calls.push(HostCall::CreateVertexArray { result: created });
        match created {
            Some(h) => Ok(VertexArray { vao: h }),
            None => Err(VaoCreationError::CreationFailed),
        }
    }

    /// Bind `vao` (or unbind with `None`), then poll once and return the
    /// decoded status.
    pub fn bind_vao(&mut self, vao: Option<&VertexArray>, polled: u32) -> (r: Option<GlError>)
        ensures
            vao is None ==> final(self)@ == old(self)@ + seq![
                (HostCall::BindVertexArray { vao: None }),
                (HostCall::GetError { code: polled }),
            ],
            vao matches Some(v) ==> final(self)@ == old(self)@ + seq![
                (HostCall::BindVertexArray { vao: Some(v.vao) }),
                (HostCall::GetError { code: polled }),
            ],
            r == GlError::spec_from_gl_enum(polled),
    {
        let handle: Option<u32> = match vao {
            Some(v) => Some(v.vao),
            None => None,
        };
        self.calls.push(HostCall::BindVertexArray { vao: handle });
        let r = self.get_error(polled);
        proof {
            assert(self@ =~= old(self)@ + seq![
                (HostCall::BindVertexArray { vao: handle }),
                (HostCall::GetError { code: polled }),
            ]);
        }
        r
    }

    /// Set a single-float uniform. The value travels as its bit pattern,
    /// which the driver obtains from the float it was handed; the host call
    /// is polled once and the decoded status returned.
    pub fn set_uniform_1_f32(&mut self, location: &UniformLocation, value_bits: u32, polled: u32)
        -> (r: Option<GlError>)
        ensures
            final(self)@ == old(self)@ + seq![
                (HostCall::Uniform1f { location: location.0, value_bits }),
                (HostCall::GetError { code: polled }),
            ],
            r == GlError::spec_from_gl_enum(polled),
    {
        self.calls.push(HostCall::Uniform1f { location: location.0, value_bits });
        let r = self.get_error(polled);
        proof {
            assert(self@ =~= old(self)@ + seq![
                (HostCall::Uniform1f { location: location.0, value_bits }),
                (HostCall::GetError { code: polled }),
            ]);
        }
        r
    }

    /// Clear the color and depth buffers, poll once and return the decoded
    /// status.
    pub fn clear(&mut self, polled: u32) -> (r: Option<GlError>)
        ensures
            final(self)@ == old(self)@ + seq![HostCall::Clear, (HostCall::GetError { code: polled })],
            r == GlError::spec_from_gl_enum(polled),
    {
        self.calls.push(HostCall::Clear);
        let r = self.get_error(polled);
        proof {
            assert(self@ =~= old(self)@ + seq![
                HostCall::Clear,
                (HostCall::GetError { code: polled }),
            ]);
        }
        r
    }

    /// Draw `num_vertices` vertices with the given primitive kind, poll
    /// once and return the decoded status.
    pub fn draw(&mut self, method: DrawMethod, num_vertices: u16, polled: u32) -> (r: Option<
        GlError,
    >)
        ensures
            final(self)@ == old(self)@ + seq![
                (HostCall::DrawArrays { method, count: num_vertices }),
                (HostCall::GetError { code: polled }),
            ],
            r == GlError::spec_from_gl_enum(polled),
    {
        self.calls.push(HostCall::DrawArrays { method, count: num_vertices });
        let r = self.get_error(polled);
        proof {
            assert(self@ =~= old(self)@ + seq![
                (HostCall::DrawArrays { method, count: num_vertices }),
                (HostCall::GetError { code: polled }),
            ]);
        }
        r
    }

    /// Poll the one pending host error code (first error wins on the host
    /// side) and decode it: exactly the six enumerated codes are surfaced,
    /// anything else is absent.
    pub fn get_error(&mut self, code: u32) -> (r: Option<GlError>)
        ensures
            final(self)@ == old(self)@.push(HostCall::GetError { code }),
            r == GlError::spec_from_gl_enum(code),
    {
        self.calls.push(HostCall::GetError { code });
        GlError::from_gl_enum(code)
    }
}

} // verus!
