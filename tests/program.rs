use golem::shader::{frag_output_location, vertex_layout_fits};
use golem::{
    gl, Attribute, AttributePointer, AttributeType, Buffer, BufferTarget, Context, DepthTestFunction,
    BuildAction, BuildStage, Dialect, Dimension, DrawCall, GeometryMode, GolemError, ShaderBuild,
    ShaderDescription, ShaderProgram,
};

fn triangle_program() -> ShaderProgram {
    let inputs = [
        Attribute::new("vert_position", AttributeType::Vector(Dimension::D2)),
        Attribute::new("vert_color", AttributeType::Vector(Dimension::D4)),
    ];
    ShaderProgram::new(100, 101, 102, &inputs)
}

fn float_bytes(values: &[f32]) -> Vec<u8> {
    values.iter().flat_map(|v| v.to_ne_bytes()).collect()
}

#[test]
fn triangle_draw() {
    let mut ctx = Context::new(Dialect::Desktop, 4096);
    let program = triangle_program();
    assert_eq!((program.id(), program.vertex_shader(), program.fragment_shader()), (100, 101, 102));
    let vertices: [f32; 18] = [
        -0.5, -0.5, 1.0, 0.0, 0.0, 1.0, //
        0.5, -0.5, 0.0, 1.0, 0.0, 1.0, //
        0.0, 0.5, 0.0, 0.0, 1.0, 1.0,
    ];
    let mut vb = Buffer::new(1, BufferTarget::Vertex);
    let mut eb = Buffer::new(2, BufferTarget::Element);
    let upload = vb.set_data(&float_bytes(&vertices));
    assert_eq!(upload.allocate, Some(144));
    let indices: Vec<u8> = [0u32, 1, 2].iter().flat_map(|i| i.to_ne_bytes()).collect();
    eb.set_data(&indices);
    let binding = program.bind(&mut ctx, &vb);
    assert_eq!(binding.program, 100);
    assert_eq!(binding.vertex_buffer, 1);
    assert_eq!(binding.vertex_target, glow::ARRAY_BUFFER);
    assert_eq!(
        binding.pointers,
        vec![
            AttributePointer { index: 0, size: 2, data_type: gl::FLOAT, normalized: false, stride: 24, offset: 0 },
            AttributePointer { index: 1, size: 4, data_type: gl::FLOAT, normalized: false, stride: 24, offset: 8 },
        ]
    );
    let call = ctx.draw(&eb, 0, 3, GeometryMode::Triangles);
    assert_eq!(
        call,
        Ok(DrawCall {
            element_buffer: 2,
            mode: glow::TRIANGLES,
            count: 3,
            element_type: glow::UNSIGNED_INT,
            offset: 0,
        })
    );
}

#[test]
fn draw_sub_range() {
    let mut ctx = Context::new(Dialect::Web, 4096);
    let program = triangle_program();
    let vb = Buffer::new(1, BufferTarget::Vertex);
    let eb = Buffer::new(2, BufferTarget::Element);
    program.bind(&mut ctx, &vb);
    let call = ctx.draw(&eb, 2, 8, GeometryMode::Lines).unwrap();
    assert_eq!((call.count, call.offset, call.mode), (6, 8, glow::LINES));
}

#[test]
fn draw_without_program() {
    let ctx = Context::new(Dialect::Desktop, 4096);
    let eb = Buffer::new(2, BufferTarget::Element);
    assert_eq!(ctx.draw(&eb, 0, 3, GeometryMode::Triangles), Err(GolemError::NoBoundProgram));
}

#[test]
fn uniform_on_unbound_program() {
    let ctx = Context::new(Dialect::Desktop, 4096);
    let program = triangle_program();
    assert!(!program.is_bound(&ctx));
    assert_eq!(program.uniform_program(&ctx), Err(GolemError::NotCurrentProgram));
}

#[test]
fn uniform_on_other_program() {
    let mut ctx = Context::new(Dialect::Desktop, 4096);
    let first = triangle_program();
    let second = ShaderProgram::new(200, 201, 202, &[]);
    let vb = Buffer::new(1, BufferTarget::Vertex);
    first.bind(&mut ctx, &vb);
    assert_eq!(first.uniform_program(&ctx), Ok(100));
    second.bind(&mut ctx, &vb);
    assert_eq!(first.uniform_program(&ctx), Err(GolemError::NotCurrentProgram));
    assert_eq!(second.uniform_program(&ctx), Ok(200));
}

#[test]
fn bind_twice_same_state() {
    let mut once = Context::new(Dialect::Desktop, 4096);
    let mut twice = Context::new(Dialect::Desktop, 4096);
    let program = triangle_program();
    let vb = Buffer::new(1, BufferTarget::Vertex);
    let a = program.bind(&mut once, &vb);
    program.bind(&mut twice, &vb);
    let b = program.bind(&mut twice, &vb);
    assert_eq!(once.current_program(), twice.current_program());
    assert_eq!(once.current_surface(), twice.current_surface());
    assert_eq!(a.pointers, b.pointers);
    assert!(program.is_bound(&twice));
}

const VERTEX_BODY: &str = " void main() { gl_Position = vec4(vert_position, 0, 1); frag_color = vert_color; }";
const BROKEN_FRAGMENT: &str = " void main() { gl_FragColor = frag_color }";

fn triangle_description<'a>(inputs: &'a [Attribute], frag: &'a [Attribute], fragment: &'a str) -> ShaderDescription<'a> {
    ShaderDescription {
        vertex_input: inputs,
        fragment_input: frag,
        uniforms: &[],
        vertex_shader: VERTEX_BODY,
        fragment_shader: fragment,
    }
}

#[test]
fn build_in_order() {
    let inputs = [
        Attribute::new("vert_position", AttributeType::Vector(Dimension::D2)),
        Attribute::new("vert_color", AttributeType::Vector(Dimension::D4)),
    ];
    let frag = [Attribute::new("frag_color", AttributeType::Vector(Dimension::D4))];
    let desc = triangle_description(&inputs, &frag, " void main() { gl_FragColor = frag_color; }");
    let mut build = ShaderBuild::new(Dialect::Desktop);
    assert_eq!(build.stage(), BuildStage::CompileVertex);
    match build.next_action(&desc) {
        Some(BuildAction::Compile { shader_type, source }) => {
            assert_eq!(shader_type, glow::VERTEX_SHADER);
            assert_eq!(source, desc.vertex_source(Dialect::Desktop));
        }
        other => panic!("unexpected {:?}", other),
    }
    assert_eq!(build.report(true, String::new()), Ok(()));
    match build.next_action(&desc) {
        Some(BuildAction::Compile { shader_type, source }) => {
            assert_eq!(shader_type, glow::FRAGMENT_SHADER);
            assert_eq!(source, desc.fragment_source(Dialect::Desktop));
        }
        other => panic!("unexpected {:?}", other),
    }
    assert_eq!(build.report(true, String::from("warning: unused")), Ok(()));
    match build.next_action(&desc) {
        Some(BuildAction::Link { frag_output, attributes }) => {
            assert_eq!(frag_output, Some((0, "golem_FragColor")));
            assert_eq!(attributes, vec![(0, "vert_position"), (1, "vert_color")]);
        }
        other => panic!("unexpected {:?}", other),
    }
    assert_eq!(build.report(true, String::new()), Ok(()));
    assert_eq!(build.stage(), BuildStage::Built);
    assert!(build.next_action(&desc).is_none());
}

#[test]
fn web_build_links_without_frag_output() {
    let mut build = ShaderBuild::new(Dialect::Web);
    let desc = triangle_description(&[], &[], "");
    build.report(true, String::new()).unwrap();
    build.report(true, String::new()).unwrap();
    match build.next_action(&desc) {
        Some(BuildAction::Link { frag_output, attributes }) => {
            assert_eq!(frag_output, None);
            assert!(attributes.is_empty());
        }
        other => panic!("unexpected {:?}", other),
    }
}

#[test]
fn fragment_syntax_error_stops_build() {
    let inputs = [Attribute::new("vert_position", AttributeType::Vector(Dimension::D2))];
    let frag = [Attribute::new("frag_color", AttributeType::Vector(Dimension::D4))];
    let desc = triangle_description(&inputs, &frag, BROKEN_FRAGMENT);
    let mut build = ShaderBuild::new(Dialect::Desktop);
    build.report(true, String::new()).unwrap();
    assert!(matches!(build.next_action(&desc), Some(BuildAction::Compile { .. })));
    let log = String::from("0:4(44): error: syntax error, unexpected '}', expecting ',' or ';'");
    assert_eq!(build.report(false, log.clone()), Err(GolemError::ShaderCompilationError(log)));
    assert_eq!(build.stage(), BuildStage::Failed);
    assert!(build.next_action(&desc).is_none());
}

#[test]
fn link_failure_keeps_log() {
    let mut build = ShaderBuild::new(Dialect::Desktop);
    build.report(true, String::new()).unwrap();
    build.report(true, String::new()).unwrap();
    match build.report(false, String::from("error: fragment input frag_color is not written")) {
        Err(GolemError::ShaderCompilationError(text)) => assert!(text.contains("frag_color")),
        other => panic!("unexpected {:?}", other),
    }
    assert_eq!(build.stage(), BuildStage::Failed);
}

#[test]
fn vertex_failure_stops_build() {
    let mut build = ShaderBuild::new(Dialect::Web);
    let desc = triangle_description(&[], &[], "");
    let result = build.report(false, String::from("ERROR: 0:1: 'vert_colr' : undeclared identifier"));
    assert_eq!(
        result,
        Err(GolemError::ShaderCompilationError(String::from("ERROR: 0:1: 'vert_colr' : undeclared identifier")))
    );
    assert!(build.next_action(&desc).is_none());
}

#[test]
fn frag_output_per_dialect() {
    assert_eq!(frag_output_location(Dialect::Desktop), Some((0, "golem_FragColor")));
    assert_eq!(frag_output_location(Dialect::Web), None);
}

#[test]
fn layout_limits() {
    let attrs = [Attribute::new("m", AttributeType::Matrix(Dimension::D4, Dimension::D4))];
    assert!(vertex_layout_fits(&attrs));
    assert!(vertex_layout_fits(&[]));
    let many = vec![Attribute::new("v", AttributeType::Vector(Dimension::D4)); 1000];
    assert!(vertex_layout_fits(&many));
}

#[test]
fn layout_of_mixed_attributes() {
    let mut ctx = Context::new(Dialect::Desktop, 4096);
    let inputs = [
        Attribute::new("a", AttributeType::Scalar),
        Attribute::new("b", AttributeType::Matrix(Dimension::D2, Dimension::D3)),
        Attribute::new("c", AttributeType::Vector(Dimension::D3)),
    ];
    let program = ShaderProgram::new(5, 6, 7, &inputs);
    let vb = Buffer::new(1, BufferTarget::Vertex);
    let binding = program.bind(&mut ctx, &vb);
    let offsets: Vec<(i32, i32, i32)> = binding.pointers.iter().map(|p| (p.size, p.stride, p.offset)).collect();
    assert_eq!(offsets, vec![(1, 40, 0), (6, 40, 4), (3, 40, 28)]);
}

#[test]
fn clear_mask_is_color_and_depth() {
    let ctx = Context::new(Dialect::Desktop, 4096);
    assert_eq!(ctx.clear_mask(), glow::COLOR_BUFFER_BIT | glow::DEPTH_BUFFER_BIT);
}

#[test]
fn dialect_of_driver() {
    assert_eq!(Dialect::for_driver(true), Dialect::Web);
    assert_eq!(Dialect::for_driver(false), Dialect::Desktop);
}

#[test]
fn context_starts_unbound() {
    let ctx = Context::new(Dialect::Web, 1024);
    assert_eq!(ctx.dialect(), Dialect::Web);
    assert_eq!(ctx.max_texture_size(), 1024);
    assert_eq!(ctx.current_program(), None);
    assert_eq!(ctx.current_surface(), None);
    assert!(!ctx.is_program_bound(0));
}

#[test]
fn error_from_string() {
    assert_eq!(GolemError::from(String::from("lost")), GolemError::ContextError(String::from("lost")));
}

#[test]
fn depth_functions() {
    assert_eq!(DepthTestFunction::default(), DepthTestFunction::Less);
    let cases = [
        (DepthTestFunction::Never, glow::NEVER),
        (DepthTestFunction::Less, glow::LESS),
        (DepthTestFunction::Equal, glow::EQUAL),
        (DepthTestFunction::LessOrEqual, glow::LEQUAL),
        (DepthTestFunction::Greater, glow::GREATER),
        (DepthTestFunction::NotEqual, glow::NOTEQUAL),
        (DepthTestFunction::GreaterOrEqual, glow::GEQUAL),
        (DepthTestFunction::Always, glow::ALWAYS),
    ];
    for (f, expected) in cases {
        assert_eq!(f.to_gl(), expected);
    }
}

#[test]
fn geometry_modes() {
    let cases = [
        (GeometryMode::Points, glow::POINTS),
        (GeometryMode::Lines, glow::LINES),
        (GeometryMode::LineStrip, glow::LINE_STRIP),
        (GeometryMode::LineLoop, glow::LINE_LOOP),
        (GeometryMode::TriangleStrip, glow::TRIANGLE_STRIP),
        (GeometryMode::TriangleFan, glow::TRIANGLE_FAN),
        (GeometryMode::Triangles, glow::TRIANGLES),
    ];
    for (m, expected) in cases {
        assert_eq!(m.to_gl(), expected);
    }
}

#[test]
fn enum_values_match_driver_binding() {
    let pairs = [
        (gl::UNSIGNED_BYTE, glow::UNSIGNED_BYTE),
        (gl::UNSIGNED_INT, glow::UNSIGNED_INT),
        (gl::FLOAT, glow::FLOAT),
        (gl::NEAREST, glow::NEAREST),
        (gl::LINEAR, glow::LINEAR),
        (gl::REPEAT, glow::REPEAT),
        (gl::CLAMP_TO_EDGE, glow::CLAMP_TO_EDGE),
        (gl::MIRRORED_REPEAT, glow::MIRRORED_REPEAT),
        (gl::TEXTURE_MIN_FILTER, glow::TEXTURE_MIN_FILTER),
        (gl::TEXTURE_MAG_FILTER, glow::TEXTURE_MAG_FILTER),
        (gl::TEXTURE_WRAP_S, glow::TEXTURE_WRAP_S),
        (gl::TEXTURE_WRAP_T, glow::TEXTURE_WRAP_T),
        (gl::TEXTURE_2D, glow::TEXTURE_2D),
        (gl::TEXTURE0, glow::TEXTURE0),
        (gl::ARRAY_BUFFER, glow::ARRAY_BUFFER),
        (gl::ELEMENT_ARRAY_BUFFER, glow::ELEMENT_ARRAY_BUFFER),
        (gl::STREAM_DRAW, glow::STREAM_DRAW),
        (gl::FRAMEBUFFER, glow::FRAMEBUFFER),
        (gl::COLOR_ATTACHMENT0, glow::COLOR_ATTACHMENT0),
        (gl::VERTEX_SHADER, glow::VERTEX_SHADER),
        (gl::FRAGMENT_SHADER, glow::FRAGMENT_SHADER),
        (gl::RGB, glow::RGB),
        (gl::RGBA, glow::RGBA),
    ];
    for (ours, theirs) in pairs {
        assert_eq!(ours, theirs);
    }
}
