use glcore::context::GlContext;
use glcore::error::AttributeConfigError;
use glcore::host::{BufferBindingTarget, BufferUsageHint, DrawMethod, GlType, HostCall, ShaderType};
use glcore::shader::UniformLocation;

#[test]
fn full_pipeline_with_present_and_absent_names() {
    // Create the context and set the baseline state; the host stays clean.
    let mut ctx = GlContext::new();
    assert_eq!(ctx.init(800, 600, 0), None);

    // Compile a valid vertex + fragment pair; the host allocates stages
    // 1 and 2 and reports both compiles as succeeded.
    let mut compiler = ctx.make_shader_compiler();
    compiler
        .compile(&mut ctx, ShaderType::Vertex, "attribute vec2 pos;", Some(1), true, None)
        .unwrap();
    compiler
        .compile(&mut ctx, ShaderType::Fragment, "void main() {}", Some(2), true, None)
        .unwrap();

    // Link: the host allocates program 9 and reports success.
    let mut program = compiler.link(&mut ctx, Some(9), true, None).unwrap();

    // A 2-wide float attribute named "pos" present in the source: the host
    // resolves it to index 0, and registration succeeds.
    let configured = program.configure_attribute(&mut ctx, "pos", 2, GlType::Float, false, 0);
    assert_eq!(configured, Ok(()));

    // A uniform present in the source resolves to a usable location.
    let location = program.get_uniform_location(&mut ctx, "aspect_ratio", Some(4)).unwrap();
    assert_eq!(location, UniformLocation(4));
    assert_eq!(ctx.set_uniform_1_f32(&location, 1.5f32.to_bits(), 0), None);

    // An attribute "missing" not present in the source fails typed.
    let missing = program.configure_attribute(&mut ctx, "missing", 2, GlType::Float, false, -1);
    assert_eq!(
        missing,
        Err(AttributeConfigError::DoesNotExist("missing".to_string()))
    );

    // The frame loop runs clean.
    assert_eq!(ctx.use_program(Some(&program), 0, 0), (None, None));
    assert_eq!(ctx.clear(0), None);
    assert_eq!(ctx.draw(DrawMethod::TriangleStrip, 4, 0), None);
}

#[test]
fn buffer_write_and_rebind_without_unbinding() {
    let mut ctx = GlContext::new();
    let binding = ctx.get_buffer_binding(BufferBindingTarget::ArrayBuffer);

    // Create a buffer, bind it to the array-buffer target, and write 16
    // bytes with a static-draw hint.
    let first = ctx.make_buffer(Some(1)).unwrap();
    assert_eq!(binding.bind(&mut ctx, Some(&first), 0), None);
    assert_eq!(binding.write(&mut ctx, 16, BufferUsageHint::StaticDraw, 0), None);

    // Rebind a different buffer to the same target without unbinding
    // first: targets always accept rebinds, so no error comes back.
    let second = ctx.make_buffer(Some(2)).unwrap();
    assert_eq!(binding.bind(&mut ctx, Some(&second), 0), None);

    // The host received exactly the upload and both binds, in order.
    let relevant: Vec<&HostCall> = ctx
        .calls
        .iter()
        .filter(|c| {
            matches!(c, HostCall::BindBuffer { .. } | HostCall::BufferData { .. })
        })
        .collect();
    assert_eq!(
        relevant,
        vec![
            &HostCall::BindBuffer {
                target: BufferBindingTarget::ArrayBuffer,
                buffer: Some(1)
            },
            &HostCall::BufferData {
                target: BufferBindingTarget::ArrayBuffer,
                byte_len: 16,
                usage: BufferUsageHint::StaticDraw
            },
            &HostCall::BindBuffer {
                target: BufferBindingTarget::ArrayBuffer,
                buffer: Some(2)
            },
        ]
    );
}

#[test]
fn unbinding_program_and_vao() {
    let mut ctx = GlContext::new();
    let vao = ctx.make_vao(Some(5)).unwrap();
    assert_eq!(ctx.bind_vao(Some(&vao), 0), None);
    assert_eq!(ctx.bind_vao(None, 0), None);
    assert_eq!(ctx.use_program(None, 0, 0), (None, None));
    let tail = &ctx.calls[ctx.calls.len() - 1..];
    assert_eq!(tail, &[HostCall::UseProgram { program: None }]);
}

#[test]
fn host_codes_for_the_vocabulary() {
    assert_eq!(BufferBindingTarget::ArrayBuffer.code(), 0x8892);
    assert_eq!(DrawMethod::TriangleStrip.code(), 0x0005);
    assert_eq!(GlType::Float.code(), 0x1406);
    assert_eq!(ShaderType::Vertex.code(), 0x8B31);
    assert_eq!(ShaderType::Fragment.code(), 0x8B30);
    assert_eq!(BufferUsageHint::StaticDraw.code(), 0x88E4);
}

#[test]
fn init_issues_the_baseline_state_calls_and_one_poll() {
    let mut ctx = GlContext::new();
    assert_eq!(ctx.init(320, 200, 0), None);
    assert_eq!(
        ctx.calls,
        vec![
            HostCall::ClearColor,
            HostCall::ClearDepth,
            HostCall::EnableDepthTest,
            HostCall::DepthFuncLequal,
            HostCall::EnableBlend,
            HostCall::BlendFuncStandardAlpha,
            HostCall::Viewport { width: 320, height: 200 },
            HostCall::GetError { code: 0 },
        ]
    );
}
