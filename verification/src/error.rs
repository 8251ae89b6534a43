//! Error decoding and the closed set of typed errors the core can return.
//!
//! The host reports asynchronous failures through a single polled status
//! code; `GlError` is the closed set of codes this layer surfaces, and every
//! unrecognized code decodes to "no error". Typed, recoverable failures
//! (creation, compilation, linking, name resolution) are separate enums,
//! each able to render itself as a diagnostic message.

use vstd::prelude::*;
use vstd::string::*;

verus! {

pub const GL_INVALID_ENUM: u32 = 0x0500;

pub const GL_INVALID_VALUE: u32 = 0x0501;

pub const GL_INVALID_OPERATION: u32 = 0x0502;

pub const GL_INVALID_FRAMEBUFFER_OPERATION: u32 = 0x0506;

pub const GL_OUT_OF_MEMORY: u32 = 0x0505;

pub const GL_CONTEXT_LOST_WEBGL: u32 = 0x9242;

/// A pending host error status, decoded from the host's numeric code.
#[derive(Clone, Copy, Debug, PartialEq, Eq, Structural)]
pub enum GlError {
    InvalidEnum,
    InvalidValue,
    InvalidOperation,
    InvalidFramebufferOperation,
    OutOfMemory,
    ContextLostWebgl,
}

impl GlError {
    /// What decoding a host status code yields: exactly the six enumerated
    /// codes are surfaced, every other code (including "no error") is absent.
    pub open spec fn spec_from_gl_enum(gl_enum: u32) -> Option<GlError> {
        if gl_enum == GL_INVALID_ENUM {
            Some(GlError::InvalidEnum)
        } else if gl_enum == GL_INVALID_VALUE {
            Some(GlError::InvalidValue)
        } else if gl_enum == GL_INVALID_OPERATION {
            Some(GlError::InvalidOperation)
        } else if gl_enum == GL_INVALID_FRAMEBUFFER_OPERATION {
            Some(GlError::InvalidFramebufferOperation)
        } else if gl_enum == GL_OUT_OF_MEMORY {
            Some(GlError::OutOfMemory)
        } else if gl_enum == GL_CONTEXT_LOST_WEBGL {
            Some(GlError::ContextLostWebgl)
        } else {
            None
        }
    }

    /// Decode a host status code.
    pub fn from_gl_enum(gl_enum: u32) -> (r: Option<GlError>)
        ensures
            r == Self::spec_from_gl_enum(gl_enum),
    {
        if gl_enum == GL_INVALID_ENUM {
            Some(GlError::InvalidEnum)
        } else if gl_enum == GL_INVALID_VALUE {
            Some(GlError::InvalidValue)
        } else if gl_enum == GL_INVALID_OPERATION {
            Some(GlError::InvalidOperation)
        } else if gl_enum == GL_INVALID_FRAMEBUFFER_OPERATION {
            Some(GlError::InvalidFramebufferOperation)
        } else if gl_enum == GL_OUT_OF_MEMORY {
            Some(GlError::OutOfMemory)
        } else if gl_enum == GL_CONTEXT_LOST_WEBGL {
            Some(GlError::ContextLostWebgl)
        } else {
            None
        }
    }

    /// The diagnostic message for this status.
    pub open spec fn spec_message(&self) -> Seq<char> {
        match self {
            GlError::InvalidEnum => "Invalid enum"@,
            GlError::InvalidValue => "Invalid value"@,
            GlError::InvalidOperation => "Invalid operation"@,
            GlError::InvalidFramebufferOperation => "Invalid framebuffer operation"@,
            GlError::OutOfMemory => "Out of memory"@,
            GlError::ContextLostWebgl => "WebGL context lost"@,
        }
    }

    /// Render this status as a diagnostic message.
    pub fn message(&self) -> (r: String)
        ensures
            r@ == self.spec_message(),
    {
        match self {
            GlError::InvalidEnum => "Invalid enum".to_owned(),
            GlError::InvalidValue => "Invalid value".to_owned(),
            GlError::InvalidOperation => "Invalid operation".to_owned(),
            GlError::InvalidFramebufferOperation => "Invalid framebuffer operation".to_owned(),
            GlError::OutOfMemory => "Out of memory".to_owned(),
            GlError::ContextLostWebgl => "WebGL context lost".to_owned(),
        }
    }
}

/// Failure to allocate a buffer object on the host.
#[derive(Clone, Copy, Debug, PartialEq, Eq, Structural)]
pub enum BufferCreationError {
    CreationFailed,
}

impl BufferCreationError {
    /// Render this error as a diagnostic message.
    pub fn message(&self) -> (r: String)
        ensures
            r@ == "Failed to create WebGL buffer"@,
    {
        "Failed to create WebGL buffer".to_owned()
    }
}

/// Failure to allocate a vertex array object on the host.
#[derive(Clone, Copy, Debug, PartialEq, Eq, Structural)]
pub enum VaoCreationError {
    CreationFailed,
}

impl VaoCreationError {
    /// Render this error as a diagnostic message.
    pub fn message(&self) -> (r: String)
        ensures
            r@ == "Failed to create vertex array object"@,
    {
        "Failed to create vertex array object".to_owned()
    }
}

/// Failure to resolve a named vertex attribute in a linked program.
#[derive(Clone, Debug, PartialEq, Eq)]
pub enum AttributeConfigError {
    DoesNotExist(String),
}

impl AttributeConfigError {
    /// The diagnostic message for this error.
    pub open spec fn spec_message(&self) -> Seq<char> {
        match self {
            AttributeConfigError::DoesNotExist(name) => "Vertex attribute \""@ + name@
                + "\" does not exist"@,
        }
    }

    /// Render this error as a diagnostic message.
    pub fn message(&self) -> (r: String)
        ensures
            r@ == self.spec_message(),
    {
        match self {
            AttributeConfigError::DoesNotExist(name) => {
                let m = "Vertex attribute \"".to_owned();
                let m = m.concat(name.as_str());
                m.concat("\" does not exist")
            },
        }
    }
}

/// Failure to resolve a named uniform in a linked program.
#[derive(Clone, Debug, PartialEq, Eq)]
pub enum GetUniformLocationError {
    DoesNotExist(String),
}

impl GetUniformLocationError {
    /// The diagnostic message for this error.
    pub open spec fn spec_message(&self) -> Seq<char> {
        match self {
            GetUniformLocationError::DoesNotExist(name) => "Uniform \""@ + name@
                + "\" does not exist"@,
        }
    }

    /// Render this error as a diagnostic message.
    pub fn message(&self) -> (r: String)
        ensures
            r@ == self.spec_message(),
    {
        match self {
            GetUniformLocationError::DoesNotExist(name) => {
                let m = "Uniform \"".to_owned();
                let m = m.concat(name.as_str());
                m.concat("\" does not exist")
            },
        }
    }
}

/// Failure to compile one shader stage.
#[derive(Clone, Debug, PartialEq, Eq)]
pub enum CompilationError {
    CreationFailed,
    CompilationFailed(String),
}

impl CompilationError {
    /// The diagnostic message for this error.
    pub open spec fn spec_message(&self) -> Seq<char> {
        match self {
            CompilationError::CreationFailed => "Failed to create WebGL shader"@,
            CompilationError::CompilationFailed(log) => "Shader compilation failed: "@ + log@,
        }
    }

    /// Render this error as a diagnostic message.
    pub fn message(&self) -> (r: String)
        ensures
            r@ == self.spec_message(),
    {
        match self {
            CompilationError::CreationFailed => "Failed to create WebGL shader".to_owned(),
            CompilationError::CompilationFailed(log) => {
                let m = "Shader compilation failed: ".to_owned();
                m.concat(log.as_str())
            },
        }
    }
}

/// Failure to link accumulated stages into a program.
#[derive(Clone, Debug, PartialEq, Eq)]
pub enum LinkingError {
    CreationFailed,
    LinkingFailed(String),
}

impl LinkingError {
    /// The diagnostic message for this error.
    pub open spec fn spec_message(&self) -> Seq<char> {
        match self {
            LinkingError::CreationFailed => "Failed to create WebGL shader program"@,
            LinkingError::LinkingFailed(log) => "Shader program linking failed: "@ + log@,
        }
    }

    /// Render this error as a diagnostic message.
    pub fn message(&self) -> (r: String)
        ensures
            r@ == self.spec_message(),
    {
        match self {
            LinkingError::CreationFailed => "Failed to create WebGL shader program".to_owned(),
            LinkingError::LinkingFailed(log) => {
                let m = "Shader program linking failed: ".to_owned();
                m.concat(log.as_str())
            },
        }
    }
}

} // verus!
