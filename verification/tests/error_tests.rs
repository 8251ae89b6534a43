use glcore::context::GlContext;
use glcore::error::{
    AttributeConfigError, BufferCreationError, CompilationError, GetUniformLocationError, GlError,
    LinkingError, VaoCreationError, GL_CONTEXT_LOST_WEBGL, GL_INVALID_ENUM,
    GL_INVALID_FRAMEBUFFER_OPERATION, GL_INVALID_OPERATION, GL_INVALID_VALUE, GL_OUT_OF_MEMORY,
};
use glcore::host::HostCall;

#[test]
fn decodes_each_enumerated_code() {
    assert_eq!(GlError::from_gl_enum(GL_INVALID_ENUM), Some(GlError::InvalidEnum));
    assert_eq!(GlError::from_gl_enum(GL_INVALID_VALUE), Some(GlError::InvalidValue));
    assert_eq!(GlError::from_gl_enum(GL_INVALID_OPERATION), Some(GlError::InvalidOperation));
    assert_eq!(
        GlError::from_gl_enum(GL_INVALID_FRAMEBUFFER_OPERATION),
        Some(GlError::InvalidFramebufferOperation)
    );
    assert_eq!(GlError::from_gl_enum(GL_OUT_OF_MEMORY), Some(GlError::OutOfMemory));
    assert_eq!(GlError::from_gl_enum(GL_CONTEXT_LOST_WEBGL), Some(GlError::ContextLostWebgl));
}

#[test]
fn unrecognized_codes_decode_to_absent() {
    assert_eq!(GlError::from_gl_enum(0), None);
    assert_eq!(GlError::from_gl_enum(1), None);
    assert_eq!(GlError::from_gl_enum(0x0503), None);
    assert_eq!(GlError::from_gl_enum(u32::MAX), None);
}

#[test]
fn get_error_surfaces_invalid_enum_after_bad_call() {
    // The host was fed an invalid enum value by some operation; its next
    // poll answers with the invalid-enum status code.
    let mut ctx = GlContext::new();
    let got = ctx.get_error(GL_INVALID_ENUM);
    assert_eq!(got, Some(GlError::InvalidEnum));
    assert_eq!(ctx.calls, vec![HostCall::GetError { code: GL_INVALID_ENUM }]);
}

#[test]
fn get_error_after_clean_sequence_is_absent() {
    // A clean sequence of valid calls: the host polls answer "no error"
    // (code zero) throughout.
    let mut ctx = GlContext::new();
    ctx.init(640, 480, 0);
    let r_clear = ctx.clear(0);
    assert_eq!(r_clear, None);
    let got = ctx.get_error(0);
    assert_eq!(got, None);
}

#[test]
fn gl_error_messages() {
    assert_eq!(GlError::InvalidEnum.message(), "Invalid enum");
    assert_eq!(GlError::InvalidValue.message(), "Invalid value");
    assert_eq!(GlError::InvalidOperation.message(), "Invalid operation");
    assert_eq!(
        GlError::InvalidFramebufferOperation.message(),
        "Invalid framebuffer operation"
    );
    assert_eq!(GlError::OutOfMemory.message(), "Out of memory");
    assert_eq!(GlError::ContextLostWebgl.message(), "WebGL context lost");
}

#[test]
fn typed_error_messages() {
    assert_eq!(
        BufferCreationError::CreationFailed.message(),
        "Failed to create WebGL buffer"
    );
    assert_eq!(
        VaoCreationError::CreationFailed.message(),
        "Failed to create vertex array object"
    );
    assert_eq!(
        AttributeConfigError::DoesNotExist("pos".to_string()).message(),
        "Vertex attribute \"pos\" does not exist"
    );
    assert_eq!(
        GetUniformLocationError::DoesNotExist("aspect_ratio".to_string()).message(),
        "Uniform \"aspect_ratio\" does not exist"
    );
    assert_eq!(
        CompilationError::CreationFailed.message(),
        "Failed to create WebGL shader"
    );
    assert_eq!(
        CompilationError::CompilationFailed("bad token".to_string()).message(),
        "Shader compilation failed: bad token"
    );
    assert_eq!(
        LinkingError::CreationFailed.message(),
        "Failed to create WebGL shader program"
    );
    assert_eq!(
        LinkingError::LinkingFailed("mismatch".to_string()).message(),
        "Shader program linking failed: mismatch"
    );
}

#[test]
fn creation_failures_are_typed() {
    let mut ctx = GlContext::new();
    let b = ctx.make_buffer(None);
    assert!(matches!(b, Err(BufferCreationError::CreationFailed)));
    let v = ctx.make_vao(None);
    assert!(matches!(v, Err(VaoCreationError::CreationFailed)));
    let mut compiler = ctx.make_shader_compiler();
    let c = compiler.compile(
        &mut ctx,
        glcore::host::ShaderType::Vertex,
        "void main() {}",
        None,
        false,
        None,
    );
    assert!(matches!(c, Err(CompilationError::CreationFailed)));
    let l = compiler.link(&mut ctx, None, false, None);
    assert!(matches!(l, Err(LinkingError::CreationFailed)));
}
