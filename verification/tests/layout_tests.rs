use glcore::context::GlContext;
use glcore::error::AttributeConfigError;
use glcore::host::{GlType, HostCall};
use glcore::shader::{ShaderCompiler, VertexAttribute};

fn linked_program(ctx: &mut GlContext, handle: u32) -> glcore::shader::ShaderProgram {
    let compiler = ShaderCompiler { shaders: Vec::new() };
    compiler.link(ctx, Some(handle), true, None).expect("link with a true status succeeds")
}

#[test]
fn stride_is_sum_and_offsets_are_prefix_sums() {
    let mut ctx = GlContext::new();
    let mut program = linked_program(&mut ctx, 10);
    // The host resolves three attribute names to indices 0, 1 and 2.
    program.configure_attribute(&mut ctx, "pos", 2, GlType::Float, false, 0).unwrap();
    program.configure_attribute(&mut ctx, "color", 3, GlType::Float, false, 1).unwrap();
    program.configure_attribute(&mut ctx, "alpha", 1, GlType::Float, true, 2).unwrap();

    let before = ctx.calls.len();
    let (r_use, r_attribs) = ctx.use_program(Some(&program), 0, 0);
    assert_eq!(r_use, None);
    assert_eq!(r_attribs, None);

    // Total size is 2 + 3 + 1 = 6; the host receives, per attribute, the
    // gap (total - own size) and the prefix-sum offset.
    let expected = vec![
        HostCall::UseProgram { program: Some(10) },
        HostCall::GetError { code: 0 },
        HostCall::VertexAttribPointer {
            index: 0,
            size: 2,
            attr_type: GlType::Float,
            normalized: false,
            stride: 4,
            offset: 0,
        },
        HostCall::VertexAttribPointer {
            index: 1,
            size: 3,
            attr_type: GlType::Float,
            normalized: false,
            stride: 3,
            offset: 2,
        },
        HostCall::VertexAttribPointer {
            index: 2,
            size: 1,
            attr_type: GlType::Float,
            normalized: true,
            stride: 5,
            offset: 5,
        },
        HostCall::GetError { code: 0 },
    ];
    assert_eq!(&ctx.calls[before..], &expected[..]);
}

#[test]
fn single_attribute_is_packed_at_offset_zero() {
    let mut ctx = GlContext::new();
    let mut program = linked_program(&mut ctx, 3);
    program.configure_attribute(&mut ctx, "vertex_position", 2, GlType::Float, false, 0).unwrap();
    let before = ctx.calls.len();
    program.configure_vertex_attrib_pointers(&mut ctx, 0);
    assert_eq!(
        &ctx.calls[before..],
        &[
            HostCall::VertexAttribPointer {
                index: 0,
                size: 2,
                attr_type: GlType::Float,
                normalized: false,
                stride: 0,
                offset: 0,
            },
            HostCall::GetError { code: 0 },
        ]
    );
}

#[test]
fn attributes_record_resolved_index_and_order() {
    let mut ctx = GlContext::new();
    let mut program = linked_program(&mut ctx, 4);
    program.configure_attribute(&mut ctx, "a", 1, GlType::Float, false, 5).unwrap();
    program.configure_attribute(&mut ctx, "b", 4, GlType::Float, false, 2).unwrap();
    assert_eq!(
        program.attributes,
        vec![
            VertexAttribute { index: 5, size: 1, attr_type: GlType::Float, normalized: false },
            VertexAttribute { index: 2, size: 4, attr_type: GlType::Float, normalized: false },
        ]
    );
}

#[test]
fn absent_attribute_name_fails_and_registers_nothing() {
    let mut ctx = GlContext::new();
    let mut program = linked_program(&mut ctx, 4);
    // The host answers a negative location: the name is absent.
    let r = program.configure_attribute(&mut ctx, "missing", 2, GlType::Float, false, -1);
    assert_eq!(r, Err(AttributeConfigError::DoesNotExist("missing".to_string())));
    assert!(program.attributes.is_empty());
    // Re-applying pointers for this program issues no pointer calls.
    let before = ctx.calls.len();
    program.configure_vertex_attrib_pointers(&mut ctx, 0);
    assert_eq!(&ctx.calls[before..], &[HostCall::GetError { code: 0 }]);
}
