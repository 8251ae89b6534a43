//! The vocabulary of the host GPU API: the enumerated constants the core is
//! allowed to use, and the record of every call issued against the host.

use vstd::prelude::*;

verus! {

/// Binding targets for buffer objects.
#[derive(Clone, Copy, Debug, PartialEq, Eq, Structural)]
pub enum BufferBindingTarget {
    ArrayBuffer,
}

/// Draw primitive kinds.
#[derive(Clone, Copy, Debug, PartialEq, Eq, Structural)]
pub enum DrawMethod {
    TriangleStrip,
}

/// Element types of a vertex attribute.
#[derive(Clone, Copy, Debug, PartialEq, Eq, Structural)]
pub enum GlType {
    Float,
}

/// Shader stage kinds.
#[derive(Clone, Copy, Debug, PartialEq, Eq, Structural)]
pub enum ShaderType {
    Vertex,
    Fragment,
}

/// Usage hints for buffer uploads.
#[derive(Clone, Copy, Debug, PartialEq, Eq, Structural)]
pub enum BufferUsageHint {
    StaticDraw,
}

pub const GL_ARRAY_BUFFER: u32 = 0x8892;

pub const GL_TRIANGLE_STRIP: u32 = 0x0005;

pub const GL_FLOAT: u32 = 0x1406;

pub const GL_VERTEX_SHADER: u32 = 0x8B31;

pub const GL_FRAGMENT_SHADER: u32 = 0x8B30;

pub const GL_STATIC_DRAW: u32 = 0x88E4;

impl BufferBindingTarget {
    /// The host's numeric code for this target.
    pub fn code(&self) -> (r: u32)
        ensures
            r == GL_ARRAY_BUFFER,
    {
        GL_ARRAY_BUFFER
    }
}

impl DrawMethod {
    /// The host's numeric code for this primitive kind.
    pub fn code(&self) -> (r: u32)
        ensures
            r == GL_TRIANGLE_STRIP,
    {
        GL_TRIANGLE_STRIP
    }
}

impl GlType {
    /// The host's numeric code for this element type.
    pub fn code(&self) -> (r: u32)
        ensures
            r == GL_FLOAT,
    {
        GL_FLOAT
    }
}

impl ShaderType {
    /// The host's numeric code for this stage kind.
    pub fn code(&self) -> (r: u32)
        ensures
            *self == ShaderType::Vertex ==> r == GL_VERTEX_SHADER,
            *self == ShaderType::Fragment ==> r == GL_FRAGMENT_SHADER,
    {
        match self {
            ShaderType::Vertex => GL_VERTEX_SHADER,
            ShaderType::Fragment => GL_FRAGMENT_SHADER,
        }
    }
}

impl BufferUsageHint {
    /// The host's numeric code for this usage hint.
    pub fn code(&self) -> (r: u32)
        ensures
            r == GL_STATIC_DRAW,
    {
        GL_STATIC_DRAW
    }
}

/// One call issued against the host GPU API, with the host's answer where
/// the answer decides what the core does next (created handles, status
/// flags, polled error codes).
///
/// The core appends to a log of these as it runs; the log is the complete
/// record of the interaction, so exactly-once release and the attribute
/// layout handed to the host can be stated over it.
#[derive(Clone, Copy, Debug, PartialEq, Eq)]
pub enum HostCall {
    ClearColor,
    ClearDepth,
    EnableDepthTest,
    DepthFuncLequal,
    EnableBlend,
    BlendFuncStandardAlpha,
    Viewport { width: i32, height: i32 },
    UseProgram { program: Option<u32> },
    VertexAttribPointer {
        index: u32,
        size: u16,
        attr_type: GlType,
        normalized: bool,
        stride: u16,
        offset: u16,
    },
    CreateBuffer { result: Option<u32> },
    DeleteBuffer { buffer: u32 },
    BindBuffer { target: BufferBindingTarget, buffer: Option<u32> },
    BufferData { target: BufferBindingTarget, byte_len: usize, usage: BufferUsageHint },
    CreateVertexArray { result: Option<u32> },
    DeleteVertexArray { vao: u32 },
    BindVertexArray { vao: Option<u32> },
    CreateShader { kind: ShaderType, result: Option<u32> },
    ShaderSource { shader: u32 },
    CompileShader { shader: u32 },
    GetCompileStatus { shader: u32, status: bool },
    GetShaderInfoLog { shader: u32 },
    DeleteShader { shader: u32 },
    CreateProgram { result: Option<u32> },
    AttachShader { program: u32, shader: u32 },
    LinkProgram { program: u32 },
    GetLinkStatus { program: u32, status: bool },
    GetProgramInfoLog { program: u32 },
    DeleteProgram { program: u32 },
    GetAttribLocation { program: u32, location: i32 },
    GetUniformLocation { program: u32, result: Option<u32> },
    Uniform1f { location: u32, value_bits: u32 },
    Clear,
    DrawArrays { method: DrawMethod, count: u16 },
    GetError { code: u32 },
}

} // verus!
