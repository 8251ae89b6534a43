//! Shader compilation, linking, and the packed vertex layout.
//!
//! A `ShaderCompiler` is a transient builder: it accumulates compiled
//! stage handles and is consumed either by `link`, which releases every
//! stage on every exit path, or by `discard`, which releases them without
//! linking. A `ShaderProgram` owns the linked program handle and derives a
//! tightly packed vertex layout from the attributes it was told to bind.

use vstd::prelude::*;
use vstd::string::*;

use crate::context::GlContext;
use crate::error::{
    AttributeConfigError, CompilationError, GetUniformLocationError, GlError, LinkingError,
};
use crate::host::{GlType, HostCall, ShaderType};

verus! {

/// An opaque, program-scoped identifier for a named uniform. Owns no GPU
/// memory and is immutable once obtained.
#[derive(Clone, Copy, Debug, PartialEq, Eq, Structural)]
pub struct UniformLocation(pub u32);

/// One vertex attribute registered on a program: the index the host
/// resolved for its name, its element count, element type, and whether
/// integer data is normalized.
#[derive(Clone, Copy, Debug, PartialEq, Eq, Structural)]
pub struct VertexAttribute {
    pub index: u32,
    pub size: u16,
    pub attr_type: GlType,
    pub normalized: bool,
}

/// The sum of the sizes of all registered attributes: the stride of the
/// packed, tightly interleaved vertex layout.
pub open spec fn total_size(attrs: Seq<VertexAttribute>) -> int
    decreases attrs.len(),
{
    if attrs.len() == 0 {
        0
    } else {
        total_size(attrs.drop_last()) + attrs.last().size
    }
}

/// The byte offset of attribute `i` in the packed layout: the sum of the
/// sizes of the attributes registered before it.
pub open spec fn offset_of(attrs: Seq<VertexAttribute>, i: int) -> int {
    total_size(attrs.take(i))
}

/// The attribute-pointer call the host receives for attribute `i`: its
/// resolved index, its own size and type, and the packed layout's stride
/// and prefix-sum offset (the host API takes the gap between consecutive
/// fields, the layout's stride less the attribute's own size).
pub open spec fn pointer_call(attrs: Seq<VertexAttribute>, i: int) -> HostCall {
    HostCall::VertexAttribPointer {
        index: attrs[i].index,
        size: attrs[i].size,
        attr_type: attrs[i].attr_type,
        normalized: attrs[i].normalized,
        stride: (total_size(attrs) - attrs[i].size) as u16,
        offset: offset_of(attrs, i) as u16,
    }
}

/// The attribute-pointer calls for a whole attribute list, in registration
/// order.
pub open spec fn pointer_calls(attrs: Seq<VertexAttribute>) -> Seq<HostCall> {
    Seq::new(attrs.len(), |i: int| pointer_call(attrs, i))
}

/// The attach calls linking issues: one per accumulated stage, in order.
pub open spec fn attach_calls(program: u32, stages: Seq<u32>) -> Seq<HostCall> {
    Seq::new(stages.len(), |i: int| (HostCall::AttachShader { program, shader: stages[i] }))
}

/// The delete calls that release a compiler's accumulated stages: one per
/// stage, in order.
pub open spec fn delete_stage_calls(stages: Seq<u32>) -> Seq<HostCall> {
    Seq::new(stages.len(), |i: int| (HostCall::DeleteShader { shader: stages[i] }))
}

/// How often `h` occurs among `stages`.
pub open spec fn stage_count(stages: Seq<u32>, h: u32) -> int
    decreases stages.len(),
{
    if stages.len() == 0 {
        0
    } else {
        stage_count(stages.drop_last(), h) + if stages.last() == h {
            1int
        } else {
            0int
        }
    }
}

/// How many delete calls for stage handle `h` a call record holds.
pub open spec fn stage_delete_count(calls: Seq<HostCall>, h: u32) -> int
    decreases calls.len(),
{
    if calls.len() == 0 {
        0
    } else {
        stage_delete_count(calls.drop_last(), h) + if calls.last() == (HostCall::DeleteShader {
            shader: h,
        }) {
            1int
        } else {
            0int
        }
    }
}

pub proof fn lemma_total_size_nonneg(attrs: Seq<VertexAttribute>)
    ensures
        total_size(attrs) >= 0,
    decreases attrs.len(),
{
    if attrs.len() > 0 {
        lemma_total_size_nonneg(attrs.drop_last());
    }
}

/// Extending a prefix by one attribute grows its size sum by exactly that
/// attribute's size.
pub proof fn lemma_total_size_take_succ(attrs: Seq<VertexAttribute>, i: int)
    requires
        0 <= i < attrs.len(),
    ensures
        total_size(attrs.take(i + 1)) == total_size(attrs.take(i)) + attrs[i].size,
{
    assert(attrs.take(i + 1).drop_last() =~= attrs.take(i));
    assert(attrs.take(i + 1).last() == attrs[i]);
}

/// A prefix's size sum is bounded by the whole list's.
pub proof fn lemma_total_size_take_le(attrs: Seq<VertexAttribute>, i: int)
    requires
        0 <= i <= attrs.len(),
    ensures
        0 <= total_size(attrs.take(i)) <= total_size(attrs),
    decreases attrs.len() - i,
{
    lemma_total_size_nonneg(attrs.take(i));
    if i == attrs.len() {
        assert(attrs.take(i) =~= attrs);
    } else {
        lemma_total_size_take_succ(attrs, i);
        lemma_total_size_take_le(attrs, i + 1);
    }
}

/// Packed layout law: for every attribute list, the first byte offset is
/// zero, each next offset advances by exactly the previous attribute's
/// size, and the offset past the last attribute equals the computed stride,
/// the sum of all registered sizes.
pub proof fn lemma_packed_layout(attrs: Seq<VertexAttribute>)
    ensures
        offset_of(attrs, 0) == 0,
        forall|i: int|
            0 <= i < attrs.len() ==> #[trigger] offset_of(attrs, i + 1) == offset_of(attrs, i)
                + attrs[i].size,
        offset_of(attrs, attrs.len() as int) == total_size(attrs),
{
    assert(attrs.take(0) =~= Seq::<VertexAttribute>::empty());
    assert forall|i: int| 0 <= i < attrs.len() implies #[trigger] offset_of(attrs, i + 1)
        == offset_of(attrs, i) + attrs[i].size by {
        lemma_total_size_take_succ(attrs, i);
    }
    assert(attrs.take(attrs.len() as int) =~= attrs);
}

/// Stage release law: releasing a compiler's stages issues, for every
/// handle, exactly as many delete calls as the compiler holds occurrences
/// of that handle — no stage leaked, none deleted twice.
pub proof fn lemma_delete_stage_calls_count(stages: Seq<u32>, h: u32)
    ensures
        stage_delete_count(delete_stage_calls(stages), h) == stage_count(stages, h),
    decreases stages.len(),
{
    if stages.len() == 0 {
        assert(delete_stage_calls(stages) =~= Seq::<HostCall>::empty());
    } else {
        lemma_delete_stage_calls_count(stages.drop_last(), h);
        assert(delete_stage_calls(stages).drop_last() =~= delete_stage_calls(stages.drop_last()));
        assert(delete_stage_calls(stages).last() == (HostCall::DeleteShader {
            shader: stages.last(),
        }));
    }
}

/// Counting delete calls distributes over appending call records, so a
/// release's effect on the whole log is exactly its own delete calls.
pub proof fn lemma_stage_delete_count_add(a: Seq<HostCall>, b: Seq<HostCall>, h: u32)
    ensures
        stage_delete_count(a + b, h) == stage_delete_count(a, h) + stage_delete_count(b, h),
    decreases b.len(),
{
    if b.len() == 0 {
        assert(a + b =~= a);
    } else {
        lemma_stage_delete_count_add(a, b.drop_last(), h);
        assert((a + b).drop_last() =~= a + b.drop_last());
        assert((a + b).last() == b.last());
    }
}

/// Owns one linked program handle, resolves named attributes and uniforms,
/// and derives the packed vertex layout from the attributes registered on
/// it.
#[derive(Debug)]
pub struct ShaderProgram {
    pub program: u32,
    pub attributes: Vec<VertexAttribute>,
}

impl ShaderProgram {
    /// The registered attribute sizes sum to a representable stride.
    pub open spec fn wf(&self) -> bool {
        total_size(self.attributes@) <= 0xFFFF
    }

    /// Register the attribute the host resolved `name` to. `location` is
    /// the host's answer for `name` on this program: negative means the
    /// name is absent, and the call fails with `DoesNotExist`; otherwise
    /// the attribute is appended to the layout, whose order defines the
    /// packed offsets.
    pub fn configure_attribute(
        &mut self,
        ctx: &mut GlContext,
        name: &str,
        size: u16,
        attr_type: GlType,
        normalized: bool,
        location: i32,
    ) -> (r: Result<(), AttributeConfigError>)
        requires
            old(self).wf(),
            total_size(old(self).attributes@) + size <= 0xFFFF,
        ensures
            final(self).program == old(self).program,
            final(self).wf(),
            final(ctx)@ == old(ctx)@.push(
                HostCall::GetAttribLocation { program: old(self).program, location },
            ),
            location < 0 ==> (r matches Err(AttributeConfigError::DoesNotExist(n)) && n@ == name@
                && final(self).attributes@ == old(self).attributes@),
            location >= 0 ==> r == Ok::<(), AttributeConfigError>(()) && final(self).attributes@ == old(
                self,
            ).attributes@.push(
                VertexAttribute { index: location as u32, size, attr_type, normalized },
            ),
    {
        ctx.calls.push(HostCall::GetAttribLocation { program: self.program, location });
        if location < 0 {
            return Err(AttributeConfigError::DoesNotExist(name.to_owned()));
        }
        let attr = VertexAttribute { index: location as u32, size, attr_type, normalized };
        self.attributes.push(attr);
        proof {
            assert(self.attributes@.drop_last() =~= old(self).attributes@);
        }
        Ok(())
    }

    /// Resolve the location of the uniform named `name`. `location` is the
    /// host's answer: absent means the name does not exist in the linked
    /// program, and the call fails with `DoesNotExist`.
    pub fn get_uniform_location(&self, ctx: &mut GlContext, name: &str, location: Option<u32>)
        -> (r: Result<UniformLocation, GetUniformLocationError>)
        ensures
            final(ctx)@ == old(ctx)@.push(
                HostCall::GetUniformLocation { program: self.program, result: location },
            ),
            location matches Some(l) ==> r == Ok::<UniformLocation, GetUniformLocationError>(
                UniformLocation(l),
            ),
            location is None ==> (r matches Err(GetUniformLocationError::DoesNotExist(n)) && n@
                == name@),
    {
        ctx.calls.push(HostCall::GetUniformLocation { program: self.program, result: location });
        match location {
            Some(l) => Ok(UniformLocation(l)),
            None => Err(GetUniformLocationError::DoesNotExist(name.to_owned())),
        }
    }

    /// The attribute-pointer calls this program's layout asks of the host,
    /// as data: attribute `i` gets the packed layout's prefix-sum offset
    /// and the gap `total - size` the host API expects. A driver replays
    /// these against the real host, one call per entry, in order.
    pub fn vertex_attrib_pointer_calls(&self) -> (v: Vec<HostCall>)
        requires
            self.wf(),
        ensures
            v@ == pointer_calls(self.attributes@),
    {
        let ghost attrs = self.attributes@;
        let n = self.attributes.len();
        let mut vertex_size: u16 = 0;
        for i in 0..n
            invariant
                n == attrs.len(),
                attrs == self.attributes@,
                self.wf(),
                vertex_size == total_size(attrs.take(i as int)),
        {
            proof {
                lemma_total_size_take_succ(attrs, i as int);
                lemma_total_size_take_le(attrs, i + 1 as int);
                lemma_total_size_take_le(attrs, i as int);
            }
            vertex_size = vertex_size + self.attributes[i].size;
        }
        proof {
            assert(attrs.take(n as int) =~= attrs);
        }
        let mut v: Vec<HostCall> = Vec::new();
        let mut vertex_offset: u16 = 0;
        for i in 0..n
            invariant
                n == attrs.len(),
                attrs == self.attributes@,
                self.wf(),
                vertex_size == total_size(attrs),
                vertex_offset == offset_of(attrs, i as int),
                v@ == pointer_calls(attrs).take(i as int),
        {
            proof {
                lemma_total_size_take_le(attrs, i as int);
                lemma_total_size_take_succ(attrs, i as int);
                lemma_total_size_take_le(attrs, i + 1 as int);
            }
            let attrib = self.attributes[i];
            let call = HostCall::VertexAttribPointer {
                index: attrib.index,
                size: attrib.size,
                attr_type: attrib.attr_type,
                normalized: attrib.normalized,
                stride: vertex_size - attrib.size,
                offset: vertex_offset,
            };
            v.push(call);
            proof {
                assert(call == pointer_call(attrs, i as int));
                assert(pointer_calls(attrs).take(i + 1 as int) =~= pointer_calls(attrs).take(
                    i as int,
                ).push(call));
            }
            vertex_offset = vertex_offset + attrib.size;
        }
        proof {
            assert(pointer_calls(attrs).take(n as int) =~= pointer_calls(attrs));
        }
        v
    }

    /// Re-issue every registered attribute pointer against the currently
    /// bound buffer, recording the calls of `vertex_attrib_pointer_calls`.
    /// Polls once afterwards and returns the decoded status.
    pub fn configure_vertex_attrib_pointers(&self, ctx: &mut GlContext, polled: u32) -> (r: Option<
        GlError,
    >)
        requires
            self.wf(),
        ensures
            final(ctx)@ == old(ctx)@ + pointer_calls(self.attributes@) + seq![
                (HostCall::GetError { code: polled }),
            ],
            r == GlError::spec_from_gl_enum(polled),
    {
        let entries = self.vertex_attrib_pointer_calls();
        let n = entries.len();
        for i in 0..n
            invariant
                n == entries.len(),
                entries@ == pointer_calls(self.attributes@),
                ctx@ == old(ctx)@ + entries@.take(i as int),
        {
            ctx.calls.push(entries[i]);
            proof {
                assert(entries@.take(i + 1 as int) =~= entries@.take(i as int).push(
                    entries@[i as int],
                ));
            }
        }
        proof {
            assert(entries@.take(n as int) =~= entries@);
        }
        let r = ctx.get_error(polled);
        proof {
            assert(ctx@ =~= old(ctx)@ + pointer_calls(self.attributes@) + seq![
                (HostCall::GetError { code: polled }),
            ]);
        }
        r
    }

    /// Release the program's handle. Consuming the wrapper, this records
    /// exactly one delete call for the handle.
    pub fn delete(self, ctx: &mut GlContext)
        ensures
            final(ctx)@ == old(ctx)@.push(HostCall::DeleteProgram { program: self.program }),
    {
        ctx.calls.push(HostCall::DeleteProgram { program: self.program });
    }
}

/// The message a failed compilation carries: the host's info log, or a
/// fixed fallback when the host provides none.
pub open spec fn compile_failure_message(info_log: Option<String>) -> Seq<char> {
    match info_log {
        Some(log) => log@,
        None => "Unknown compilation error"@,
    }
}

/// The message a failed link carries: the host's info log, or a fixed
/// fallback when the host provides none.
pub open spec fn link_failure_message(info_log: Option<String>) -> Seq<char> {
    match info_log {
        Some(log) => log@,
        None => "Unknown linking error"@,
    }
}

/// A transient builder that accumulates compiled-but-not-yet-linked stage
/// handles. It is consumed by `link` or by `discard`; either way every
/// accumulated stage is released, so no stage handle outlives its compiler.
#[derive(Debug)]
pub struct ShaderCompiler {
    pub shaders: Vec<u32>,
}

impl ShaderCompiler {
    /// Compile one stage. The host's answers decide the outcome: `created`
    /// is the stage handle the host allocated (absent: fail with
    /// `CreationFailed` and nothing retained); `compile_status` is the
    /// host's compile-status flag for the uploaded source; `info_log` is
    /// the host's diagnostic for a failed compile. A failed stage is
    /// deleted immediately and not retained, so a later `link` omits it; a
    /// successful stage is retained for linking.
    pub fn compile(
        &mut self,
        ctx: &mut GlContext,
        shader_type: ShaderType,
        source: &str,
        created: Option<u32>,
        compile_status: bool,
        info_log: Option<String>,
    ) -> (r: Result<(), CompilationError>)
        ensures
            created is None ==> r == Err::<(), CompilationError>(CompilationError::CreationFailed)
                && final(self).shaders@ == old(self).shaders@ && final(ctx)@ == old(ctx)@.push(
                HostCall::CreateShader { kind: shader_type, result: None },
            ),
            created matches Some(s) ==> ({
                &&& compile_status ==> r == Ok::<(), CompilationError>(()) && final(self).shaders@ == old(
                    self,
                ).shaders@.push(s) && final(ctx)@ == old(ctx)@ + seq![
                    (HostCall::CreateShader { kind: shader_type, result: Some(s) }),
                    (HostCall::ShaderSource { shader: s }),
                    (HostCall::CompileShader { shader: s }),
                    (HostCall::GetCompileStatus { shader: s, status: true }),
                ]
                &&& !compile_status ==> (r matches Err(CompilationError::CompilationFailed(m))
                    && m@ == compile_failure_message(info_log)) && final(self).shaders@ == old(
                    self,
                ).shaders@ && final(ctx)@ == old(ctx)@ + seq![
                    (HostCall::CreateShader { kind: shader_type, result: Some(s) }),
                    (HostCall::ShaderSource { shader: s }),
                    (HostCall::CompileShader { shader: s }),
                    (HostCall::GetCompileStatus { shader: s, status: false }),
                    (HostCall::GetShaderInfoLog { shader: s }),
                    (HostCall::DeleteShader { shader: s }),
                ]
                &&& !compile_status && (info_log is None || (info_log matches Some(l) && l@.len()
                    > 0)) ==> (r matches Err(CompilationError::CompilationFailed(m)) && m@.len()
                    > 0)
            }),
    {
        let s = match created {
            None => {
                ctx.calls.push(HostCall::CreateShader { kind: shader_type, result: None });
                return Err(CompilationError::CreationFailed);
            },
            Some(s) => s,
        };
        ctx.calls.push(HostCall::CreateShader { kind: shader_type, result: Some(s) });
        ctx.calls.push(HostCall::ShaderSource { shader: s });
        ctx.calls.push(HostCall::CompileShader { shader: s });
        ctx.calls.push(HostCall::GetCompileStatus { shader: s, status: compile_status });
        if !compile_status {
            ctx.calls.push(HostCall::GetShaderInfoLog { shader: s });
            ctx.calls.push(HostCall::DeleteShader { shader: s });
            let message = match info_log {
                Some(log) => log,
                None => "Unknown compilation error".to_owned(),
            };
            proof {
                reveal_strlit("Unknown compilation error");
                assert(ctx@ =~= old(ctx)@ + seq![
                    (HostCall::CreateShader { kind: shader_type, result: Some(s) }),
                    (HostCall::ShaderSource { shader: s }),
                    (HostCall::CompileShader { shader: s }),
                    (HostCall::GetCompileStatus { shader: s, status: false }),
                    (HostCall::GetShaderInfoLog { shader: s }),
                    (HostCall::DeleteShader { shader: s }),
                ]);
            }
            return Err(CompilationError::CompilationFailed(message));
        }
        self.shaders.push(s);
        proof {
            assert(ctx@ =~= old(ctx)@ + seq![
                (HostCall::CreateShader { kind: shader_type, result: Some(s) }),
                (HostCall::ShaderSource { shader: s }),
                (HostCall::CompileShader { shader: s }),
                (HostCall::GetCompileStatus { shader: s, status: true }),
            ]);
        }
        Ok(())
    }

    /// Link the accumulated stages into a program. The host's answers
    /// decide the outcome: `created` is the program handle (absent: fail
    /// with `CreationFailed`); `link_status` is the host's link-status flag
    /// after every retained stage was attached; `info_log` is the host's
    /// diagnostic for a failed link, after which the program handle is
    /// deleted again. The compiler is consumed: on every path, each
    /// accumulated stage handle is released once, last.
    pub fn link(self, ctx: &mut GlContext, created: Option<u32>, link_status: bool, info_log: Option<
        String,
    >) -> (r: Result<ShaderProgram, LinkingError>)
        ensures
            created is None ==> r == Err::<ShaderProgram, LinkingError>(
                LinkingError::CreationFailed,
            ) && final(ctx)@ == old(ctx)@.push(HostCall::CreateProgram { result: None })
                + delete_stage_calls(self.shaders@),
            created matches Some(p) ==> ({
                &&& link_status ==> (r matches Ok(prog) && prog.program == p
                    && prog.attributes@.len() == 0 && prog.wf()) && final(ctx)@ == old(ctx)@.push(
                    HostCall::CreateProgram { result: Some(p) },
                ) + attach_calls(p, self.shaders@) + seq![
                    (HostCall::LinkProgram { program: p }),
                    (HostCall::GetLinkStatus { program: p, status: true }),
                ] + delete_stage_calls(self.shaders@)
                &&& !link_status ==> (r matches Err(LinkingError::LinkingFailed(m)) && m@
                    == link_failure_message(info_log)) && final(ctx)@ == old(ctx)@.push(
                    HostCall::CreateProgram { result: Some(p) },
                ) + attach_calls(p, self.shaders@) + seq![
                    (HostCall::LinkProgram { program: p }),
                    (HostCall::GetLinkStatus { program: p, status: false }),
                    (HostCall::GetProgramInfoLog { program: p }),
                    (HostCall::DeleteProgram { program: p }),
                ] + delete_stage_calls(self.shaders@)
                &&& !link_status && (info_log is None || (info_log matches Some(l) && l@.len()
                    > 0)) ==> (r matches Err(LinkingError::LinkingFailed(m)) && m@.len() > 0)
            }),
    {
        let ghost stages = self.shaders@;
        let p = match created {
            None => {
                ctx.calls.push(HostCall::CreateProgram { result: None });
                self.discard(ctx);
                proof {
                    assert(ctx@ =~= old(ctx)@.push(HostCall::CreateProgram { result: None })
                        + delete_stage_calls(stages));
                }
                return Err(LinkingError::CreationFailed);
            },
            Some(p) => p,
        };
        ctx.calls.push(HostCall::CreateProgram { result: Some(p) });
        let ghost after_create = ctx@;
        let n = self.shaders.len();
        for i in 0..n
            invariant
                n == stages.len(),
                stages == self.shaders@,
                ctx@ == after_create + attach_calls(p, stages).take(i as int),
        {
            let call = HostCall::AttachShader { program: p, shader: self.shaders[i] };
            ctx.calls.push(call);
            proof {
                assert(attach_calls(p, stages).take(i + 1 as int) =~= attach_calls(p, stages).take(
                    i as int,
                ).push(call));
            }
        }
        proof {
            assert(attach_calls(p, stages).take(n as int) =~= attach_calls(p, stages));
        }
        ctx.calls.push(HostCall::LinkProgram { program: p });
        ctx.calls.push(HostCall::GetLinkStatus { program: p, status: link_status });
        if !link_status {
            ctx.calls.push(HostCall::GetProgramInfoLog { program: p });
            ctx.calls.push(HostCall::DeleteProgram { program: p });
            let message = match info_log {
                Some(log) => log,
                None => "Unknown linking error".to_owned(),
            };
            self.discard(ctx);
            proof {
                reveal_strlit("Unknown linking error");
                assert(ctx@ =~= old(ctx)@.push(HostCall::CreateProgram { result: Some(p) })
                    + attach_calls(p, stages) + seq![
                    (HostCall::LinkProgram { program: p }),
                    (HostCall::GetLinkStatus { program: p, status: false }),
                    (HostCall::GetProgramInfoLog { program: p }),
                    (HostCall::DeleteProgram { program: p }),
                ] + delete_stage_calls(stages));
            }
            return Err(LinkingError::LinkingFailed(message));
        }
        self.discard(ctx);
        let prog = ShaderProgram { program: p, attributes: Vec::new() };
        proof {
            assert(ctx@ =~= old(ctx)@.push(HostCall::CreateProgram { result: Some(p) })
                + attach_calls(p, stages) + seq![
                (HostCall::LinkProgram { program: p }),
                (HostCall::GetLinkStatus { program: p, status: true }),
            ] + delete_stage_calls(stages));
            assert(prog.attributes@ =~= Seq::<VertexAttribute>::empty());
        }
        Ok(prog)
    }

    /// Release every accumulated stage handle without linking: one delete
    /// call per retained stage, in order. Consumes the compiler, standing
    /// for dropping it before `link`.
    pub fn discard(self, ctx: &mut GlContext)
        ensures
            final(ctx)@ == old(ctx)@ + delete_stage_calls(self.shaders@),
    {
        let ghost stages = self.shaders@;
        let n = self.shaders.len();
        for i in 0..n
            invariant
                n == stages.len(),
                stages == self.shaders@,
                ctx@ == old(ctx)@ + delete_stage_calls(stages).take(i as int),
        {
            let call = HostCall::DeleteShader { shader: self.shaders[i] };
            ctx.calls.push(call);
            proof {
                assert(delete_stage_calls(stages).take(i + 1 as int) =~= delete_stage_calls(
                    stages,
                ).take(i as int).push(call));
            }
        }
        proof {
            assert(delete_stage_calls(stages).take(n as int) =~= delete_stage_calls(stages));
        }
    }
}

} // verus!
