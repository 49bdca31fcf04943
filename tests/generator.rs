use golem::attribute::write_declarations;
use golem::shader::generate_source;
use golem::uniform::write_decimal;
use golem::{Attribute, AttributeType, Dialect, Dimension, NumberType, Position, ShaderDescription, Uniform, UniformType};

fn triangle_inputs() -> Vec<Attribute> {
    vec![
        Attribute::new("vert_position", AttributeType::Vector(Dimension::D2)),
        Attribute::new("vert_color", AttributeType::Vector(Dimension::D4)),
    ]
}

const VERTEX_BODY: &str = " void main() {
    gl_Position = vec4(vert_position, 0, 1);
    frag_color = vert_color;
}";

const FRAGMENT_BODY: &str = " void main() {
    gl_FragColor = frag_color;
}";

#[test]
fn attribute_sizes() {
    assert_eq!(Attribute::new("s", AttributeType::Scalar).size(), 1);
    assert_eq!(Attribute::new("v", AttributeType::Vector(Dimension::D3)).size(), 3);
    assert_eq!(Attribute::new("m", AttributeType::Matrix(Dimension::D2, Dimension::D4)).size(), 8);
    assert_eq!(Attribute::new("m", AttributeType::Matrix(Dimension::D4, Dimension::D4)).size(), 16);
}

#[test]
fn attribute_name_and_type() {
    let a = Attribute::new("uv", AttributeType::Vector(Dimension::D2));
    assert_eq!(a.name(), "uv");
    assert_eq!(a.attribute_type(), AttributeType::Vector(Dimension::D2));
}

#[test]
fn declarations_desktop_vertex() {
    let mut text = String::new();
    let attrs = vec![
        Attribute::new("a", AttributeType::Scalar),
        Attribute::new("b", AttributeType::Vector(Dimension::D3)),
        Attribute::new("c", AttributeType::Matrix(Dimension::D3, Dimension::D2)),
    ];
    write_declarations(&attrs, Dialect::Desktop, true, Position::Input, &mut text);
    assert_eq!(text, "in float a;\nin vec3 b;\nin mat3x2 c;\n");
    let mut out = String::new();
    write_declarations(&attrs, Dialect::Desktop, true, Position::Output, &mut out);
    assert_eq!(out, "out float a;\nout vec3 b;\nout mat3x2 c;\n");
}

#[test]
fn declarations_web_roles() {
    let attrs = vec![Attribute::new("v", AttributeType::Vector(Dimension::D4))];
    let mut vin = String::new();
    write_declarations(&attrs, Dialect::Web, true, Position::Input, &mut vin);
    assert_eq!(vin, "attribute vec4 v;\n");
    let mut vout = String::new();
    write_declarations(&attrs, Dialect::Web, true, Position::Output, &mut vout);
    assert_eq!(vout, "varying vec4 v;\n");
    let mut fin = String::new();
    write_declarations(&attrs, Dialect::Web, false, Position::Input, &mut fin);
    assert_eq!(fin, "varying vec4 v;\n");
}

#[test]
fn declarations_one_line_each_in_order() {
    let attrs = vec![
        Attribute::new("first", AttributeType::Scalar),
        Attribute::new("second", AttributeType::Vector(Dimension::D2)),
        Attribute::new("third", AttributeType::Vector(Dimension::D4)),
        Attribute::new("fourth", AttributeType::Matrix(Dimension::D4, Dimension::D4)),
    ];
    let mut text = String::new();
    write_declarations(&attrs, Dialect::Web, true, Position::Input, &mut text);
    let lines: Vec<&str> = text.lines().collect();
    assert_eq!(lines.len(), attrs.len());
    for (line, attr) in lines.iter().zip(attrs.iter()) {
        assert!(line.starts_with("attribute "));
        assert!(line.ends_with(&format!("{};", attr.name())));
    }
}

#[test]
fn empty_declarations() {
    let mut text = String::from("keep");
    write_declarations(&[], Dialect::Desktop, true, Position::Input, &mut text);
    assert_eq!(text, "keep");
}

#[test]
fn decimal_text() {
    for (n, expected) in [(0usize, "0"), (7, "7"), (10, "10"), (4096, "4096")] {
        let mut text = String::new();
        write_decimal(n, &mut text);
        assert_eq!(text, expected);
    }
    let mut text = String::new();
    write_decimal(usize::MAX, &mut text);
    assert_eq!(text, usize::MAX.to_string());
}

#[test]
fn uniform_declarations() {
    let cases = vec![
        (UniformType::Scalar(NumberType::Int), "uniform int u;\n"),
        (UniformType::Scalar(NumberType::Float), "uniform float u;\n"),
        (UniformType::Vector(NumberType::Int, Dimension::D3), "uniform ivec3 u;\n"),
        (UniformType::Vector(NumberType::Float, Dimension::D2), "uniform vec2 u;\n"),
        (UniformType::Matrix(Dimension::D4), "uniform mat4 u;\n"),
        (UniformType::Sampler2D, "uniform sampler2D u;\n"),
        (
            UniformType::Array(Box::new(UniformType::Scalar(NumberType::Float)), 12),
            "uniform float [12]u;\n",
        ),
        (UniformType::UserType(String::from("Light")), "uniform Lightu;\n"),
    ];
    for (t, expected) in cases {
        let mut text = String::new();
        Uniform::new("u", t).as_glsl(&mut text);
        assert_eq!(text, expected);
    }
}

#[test]
fn nested_array_uniform() {
    let t = UniformType::Array(
        Box::new(UniformType::Array(Box::new(UniformType::Matrix(Dimension::D3)), 2)),
        3,
    );
    let mut text = String::new();
    Uniform::new("grid", t).as_glsl(&mut text);
    assert_eq!(text, "uniform mat3 [2][3]grid;\n");
}

#[test]
fn desktop_vertex_source() {
    let inputs = triangle_inputs();
    let outputs = vec![Attribute::new("frag_color", AttributeType::Vector(Dimension::D4))];
    let uniforms = vec![Uniform::new("scale", UniformType::Scalar(NumberType::Float))];
    let text = generate_source(Dialect::Desktop, true, VERTEX_BODY, &inputs, &outputs, &uniforms);
    let expected = format!(
        "#version 150\nin vec2 vert_position;\nin vec4 vert_color;\nout vec4 frag_color;\nuniform float scale;\n{}",
        VERTEX_BODY
    );
    assert_eq!(text, expected);
}

#[test]
fn desktop_fragment_replaces_legacy_output() {
    let inputs = vec![Attribute::new("frag_color", AttributeType::Vector(Dimension::D4))];
    let text = generate_source(Dialect::Desktop, false, FRAGMENT_BODY, &inputs, &[], &[]);
    let expected = "#version 150\nin vec4 frag_color;\nout vec4 golem_FragColor;\n void main() {
    golem_FragColor = frag_color;
}";
    assert_eq!(text, expected);
    assert!(!text.contains("gl_FragColor"));
}

#[test]
fn desktop_fragment_replaces_every_occurrence() {
    let body = "gl_FragColor = a; gl_FragColor.w = 1.0; gl_FragColorgl_FragColor";
    let text = generate_source(Dialect::Desktop, false, body, &[], &[], &[]);
    assert_eq!(
        text,
        "#version 150\nout vec4 golem_FragColor;\ngolem_FragColor = a; golem_FragColor.w = 1.0; golem_FragColorgolem_FragColor"
    );
}

#[test]
fn web_fragment_keeps_legacy_output() {
    let inputs = vec![Attribute::new("frag_color", AttributeType::Vector(Dimension::D4))];
    let text = generate_source(Dialect::Web, false, FRAGMENT_BODY, &inputs, &[], &[]);
    let expected = format!("precision mediump float;\nvarying vec4 frag_color;\n{}", FRAGMENT_BODY);
    assert_eq!(text, expected);
}

#[test]
fn description_sources() {
    let inputs = triangle_inputs();
    let frag = vec![Attribute::new("frag_color", AttributeType::Vector(Dimension::D4))];
    let uniforms = vec![Uniform::new("image", UniformType::Sampler2D)];
    let desc = ShaderDescription {
        vertex_input: &inputs,
        fragment_input: &frag,
        uniforms: &uniforms,
        vertex_shader: VERTEX_BODY,
        fragment_shader: FRAGMENT_BODY,
    };
    assert_eq!(
        desc.vertex_source(Dialect::Web),
        format!(
            "precision mediump float;\nattribute vec2 vert_position;\nattribute vec4 vert_color;\nvarying vec4 frag_color;\nuniform sampler2D image;\n{}",
            VERTEX_BODY
        )
    );
    assert_eq!(
        desc.fragment_source(Dialect::Web),
        format!(
            "precision mediump float;\nvarying vec4 frag_color;\nuniform sampler2D image;\n{}",
            FRAGMENT_BODY
        )
    );
    assert_eq!(
        desc.fragment_source(Dialect::Desktop),
        "#version 150\nin vec4 frag_color;\nuniform sampler2D image;\nout vec4 golem_FragColor;\n void main() {
    golem_FragColor = frag_color;
}"
    );
}

#[test]
fn attribute_locations_follow_order() {
    let inputs = triangle_inputs();
    let desc = ShaderDescription {
        vertex_input: &inputs,
        fragment_input: &[],
        uniforms: &[],
        vertex_shader: "",
        fragment_shader: "",
    };
    assert_eq!(desc.attribute_locations(), vec![(0, "vert_position"), (1, "vert_color")]);
}
