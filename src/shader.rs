//! Shader descriptions, the shader text generated from them, and compiled
//! shader programs.
use vstd::prelude::*;
use crate::attribute::{declaration_block, write_declarations, Attribute, Position};
use crate::uniform::{uniform_block, write_uniforms, Uniform};
use crate::buffer::{Buffer, BufferTarget};
use crate::context::{draw_result, Context, ContextView, DrawCall};
use crate::{gl, Dialect, GeometryMode, GolemError};

verus! {

/// The name of the fragment output that desktop shaders write in place of
/// the legacy `gl_FragColor`.
pub open spec fn frag_output_name() -> Seq<char> {
    "golem_FragColor"@
}

/// The legacy fragment output that shader bodies are written against.
pub open spec fn legacy_frag_output() -> Seq<char> {
    "gl_FragColor"@
}

/// `s` with each occurrence of `from` replaced by `to`, the occurrences being
/// found from left to right without overlap.
pub open spec fn replace_all(s: Seq<char>, from: Seq<char>, to: Seq<char>) -> Seq<char>
    decreases s.len(),
{
    if s.len() == 0 {
        s
    } else if 0 < from.len() <= s.len() && s.subrange(0, from.len() as int) == from {
        to + replace_all(s.subrange(from.len() as int, s.len() as int), from, to)
    } else {
        seq![s[0]] + replace_all(s.subrange(1, s.len() as int), from, to)
    }
}

/// Relies on `str::replace` with a string pattern: the matches of `from` are
/// found from left to right without overlap, and each is replaced by `to`.
#[verifier::external_body]
fn replace(s: &str, from: &str, to: &str) -> (r: String)
    requires
        from@.len() > 0,
    ensures
        r@ == replace_all(s@, from@, to@),
{
    s.replace(from, to)
}

/// The first lines of every generated shader.
pub open spec fn preamble(dialect: Dialect) -> Seq<char> {
    match dialect {
        Dialect::Desktop => "#version 150\n"@,
        Dialect::Web => "precision mediump float;\n"@,
    }
}

/// Whether the stage declares its own color output (desktop fragment stages).
pub open spec fn declares_frag_output(dialect: Dialect, is_vertex: bool) -> bool {
    dialect == Dialect::Desktop && !is_vertex
}

/// The declaration of the color output, where the stage has one.
pub open spec fn frag_output_declaration(dialect: Dialect, is_vertex: bool) -> Seq<char> {
    if declares_frag_output(dialect, is_vertex) {
        "out vec4 "@ + frag_output_name() + ";\n"@
    } else {
        Seq::empty()
    }
}

/// The body as it stands in the generated text.
pub open spec fn stage_body(dialect: Dialect, is_vertex: bool, body: Seq<char>) -> Seq<char> {
    if declares_frag_output(dialect, is_vertex) {
        replace_all(body, legacy_frag_output(), frag_output_name())
    } else {
        body
    }
}

/// The complete text of one shader stage.
pub open spec fn shader_text(
    dialect: Dialect,
    is_vertex: bool,
    body: Seq<char>,
    inputs: Seq<Attribute>,
    outputs: Seq<Attribute>,
    uniforms: Seq<Uniform>,
) -> Seq<char> {
    preamble(dialect)
        + declaration_block(inputs, dialect, is_vertex, Position::Input)
        + declaration_block(outputs, dialect, is_vertex, Position::Output)
        + uniform_block(uniforms)
        + frag_output_declaration(dialect, is_vertex)
        + stage_body(dialect, is_vertex, body)
}

/// Generates the text of one shader stage: the dialect's preamble, one
/// declaration per input, per output and per uniform, in their order, the
/// color output of a desktop fragment stage, and then the body.
pub fn generate_source(
    dialect: Dialect,
    is_vertex: bool,
    body: &str,
    inputs: &[Attribute],
    outputs: &[Attribute],
    uniforms: &[Uniform],
) -> (r: String)
    ensures
        r@ == shader_text(dialect, is_vertex, body@, inputs@, outputs@, uniforms@),
{
    let mut shader = String::new();
    match dialect {
        Dialect::Desktop => shader.append("#version 150\n"),
        Dialect::Web => shader.append("precision mediump float;\n"),
    }
    write_declarations(inputs, dialect, is_vertex, Position::Input, &mut shader);
    write_declarations(outputs, dialect, is_vertex, Position::Output, &mut shader);
    write_uniforms(uniforms, &mut shader);
    if dialect == Dialect::Desktop && !is_vertex {
        shader.append("out vec4 ");
        shader.append("golem_FragColor");
        shader.append(";\n");
        proof {
            reveal_strlit("gl_FragColor");
        }
        let replaced = replace(body, "gl_FragColor", "golem_FragColor");
        shader.append(replaced.as_str());
    } else {
        shader.append(body);
    }
    assert(shader@ =~= shader_text(dialect, is_vertex, body@, inputs@, outputs@, uniforms@));
    shader
}

/// Everything needed to build a shader program: the vertex stage's inputs,
/// the values passed from the vertex stage to the fragment stage, the
/// uniforms, and the two bodies.
pub struct ShaderDescription<'a> {
    pub vertex_input: &'a [Attribute],
    pub fragment_input: &'a [Attribute],
    pub uniforms: &'a [Uniform],
    pub vertex_shader: &'a str,
    pub fragment_shader: &'a str,
}

impl<'a> ShaderDescription<'a> {
    pub open spec fn spec_vertex_source(&self, dialect: Dialect) -> Seq<char> {
        shader_text(
            dialect,
            true,
            self.vertex_shader@,
            self.vertex_input@,
            self.fragment_input@,
            self.uniforms@,
        )
    }

    pub open spec fn spec_fragment_source(&self, dialect: Dialect) -> Seq<char> {
        shader_text(
            dialect,
            false,
            self.fragment_shader@,
            self.fragment_input@,
            Seq::empty(),
            self.uniforms@,
        )
    }

    /// The text of the vertex stage: it reads the vertex inputs and writes the
    /// fragment inputs.
    pub fn vertex_source(&self, dialect: Dialect) -> (r: String)
        ensures
            r@ == self.spec_vertex_source(dialect),
    {
        generate_source(
            dialect,
            true,
            self.vertex_shader,
            self.vertex_input,
            self.fragment_input,
            self.uniforms,
        )
    }

    /// The text of the fragment stage: it reads the fragment inputs.
    pub fn fragment_source(&self, dialect: Dialect) -> (r: String)
        ensures
            r@ == self.spec_fragment_source(dialect),
    {
        let no_outputs: [Attribute; 0] = [];
        assert(no_outputs@ =~= Seq::<Attribute>::empty());
        generate_source(
            dialect,
            false,
            self.fragment_shader,
            self.fragment_input,
            &no_outputs,
            self.uniforms,
        )
    }
}

/// The sum of the sizes, in floats, of `attrs`.
pub open spec fn total_size(attrs: Seq<Attribute>) -> int
    decreases attrs.len(),
{
    if attrs.len() == 0 {
        0
    } else {
        total_size(attrs.drop_last()) + attrs.last().spec_size()
    }
}

/// Whether a vertex of `attrs` can be described to the driver: its stride in
/// bytes fits in an `i32` and each attribute has a `u32` location.
pub open spec fn layout_fits(attrs: Seq<Attribute>) -> bool {
    attrs.len() <= u32::MAX && 4 * total_size(attrs) <= i32::MAX
}

pub proof fn lemma_size_bounds(a: Attribute)
    ensures
        1 <= a.spec_size() <= 16,
{
    match a.spec_type() {
        crate::AttributeType::Matrix(m, n) => {
            let (x, y) = (m.spec_value(), n.spec_value());
            assert(4 <= x * y <= 16) by (nonlinear_arith)
                requires
                    2 <= x <= 4,
                    2 <= y <= 4,
            ;
        },
        _ => {},
    }
}

/// The floats before the `i`-th attribute are no more than those of the
/// whole vertex.
pub proof fn lemma_prefix_size(attrs: Seq<Attribute>, i: int)
    requires
        0 <= i <= attrs.len(),
    ensures
        0 <= total_size(attrs.subrange(0, i)) <= total_size(attrs),
    decreases attrs.len(),
{
    if i == attrs.len() {
        assert(attrs.subrange(0, i) =~= attrs);
        if attrs.len() > 0 {
            lemma_prefix_size(attrs.drop_last(), i - 1);
            assert(attrs.drop_last().subrange(0, i - 1) =~= attrs.drop_last());
            lemma_size_bounds(attrs.last());
        }
    } else {
        lemma_prefix_size(attrs.drop_last(), i);
        assert(attrs.drop_last().subrange(0, i) =~= attrs.subrange(0, i));
        lemma_size_bounds(attrs.last());
    }
}

/// The configuration of one vertex attribute: location `index`, `size`
/// floats of type `data_type`, `stride` bytes from one vertex to the next,
/// starting `offset` bytes into the vertex.
#[derive(Clone, Copy, Debug, PartialEq, Eq, Structural)]
pub struct AttributePointer {
    pub index: u32,
    pub size: i32,
    pub data_type: u32,
    pub normalized: bool,
    pub stride: i32,
    pub offset: i32,
}

/// The configuration of the `i`-th attribute of a vertex of `attrs`: the
/// attributes are packed as floats in their order, so the stride is four
/// bytes per float of the vertex and the offset four bytes per float before
/// the attribute.
pub open spec fn attribute_pointer(attrs: Seq<Attribute>, i: int) -> AttributePointer {
    AttributePointer {
        index: i as u32,
        size: attrs[i].spec_size() as i32,
        data_type: gl::FLOAT,
        normalized: false,
        stride: (4 * total_size(attrs)) as i32,
        offset: (4 * total_size(attrs.subrange(0, i))) as i32,
    }
}

/// The driver calls of binding a program: use `program`, bind
/// `vertex_buffer` to `vertex_target`, then configure and enable each attribute of `pointers`.
#[derive(Debug)]
pub struct ProgramBinding {
    pub program: u32,
    pub vertex_target: u32,
    pub vertex_buffer: u32,
    pub pointers: Vec<AttributePointer>,
}

/// Whether a vertex of `attrs` can be described to the driver.
pub fn vertex_layout_fits(attrs: &[Attribute]) -> (r: bool)
    ensures
        r == layout_fits(attrs@),
{
    if attrs.len() > u32::MAX as usize {
        return false;
    }
    let mut total: u64 = 0;
    let mut i: usize = 0;
    while i < attrs.len()
        invariant
            i <= attrs@.len(),
            total == total_size(attrs@.subrange(0, i as int)),
            4 * total <= i32::MAX,
        decreases attrs@.len() - i,
    {
        let size = attrs[i].size();
        let ghost prefix = attrs@.subrange(0, i as int + 1);
        assert(prefix.drop_last() =~= attrs@.subrange(0, i as int));
        total = total + size as u64;
        i = i + 1;
        if 4 * total > i32::MAX as u64 {
            proof {
                lemma_prefix_size(attrs@, i as int);
            }
            return false;
        }
    }
    assert(attrs@.subrange(0, attrs@.len() as int) =~= attrs@);
    true
}

/// What compiling a stage, or linking a program, returns: nothing where the
/// driver reports success, else the driver's diagnostic text.
pub open spec fn compile_result(compiled: bool, log: String) -> Result<(), GolemError> {
    if compiled {
        Ok(())
    } else {
        Err(GolemError::ShaderCompilationError(log))
    }
}

/// The location the fragment color output is bound to, with its name, in a
/// dialect whose fragment stages declare it.
pub fn frag_output_location(dialect: Dialect) -> (r: Option<(u32, &'static str)>)
    ensures
        r is Some <==> declares_frag_output(dialect, false),
        r matches Some((loc, name)) ==> loc == 0 && name@ == frag_output_name(),
{
    match dialect {
        Dialect::Desktop => Some((0, "golem_FragColor")),
        Dialect::Web => None,
    }
}

impl<'a> ShaderDescription<'a> {
    /// The location each vertex input is bound to before linking: its place
    /// in `vertex_input`.
    pub fn attribute_locations(&self) -> (r: Vec<(u32, &'static str)>)
        requires
            self.vertex_input@.len() <= u32::MAX,
        ensures
            r@.len() == self.vertex_input@.len(),
            forall|i: int|
                0 <= i < r@.len() ==> (#[trigger] r@[i]).0 == i && r@[i].1@ == self.vertex_input@[i].spec_name(),
    {
        let mut r: Vec<(u32, &'static str)> = Vec::new();
        let mut i: usize = 0;
        while i < self.vertex_input.len()
            invariant
                i <= self.vertex_input@.len() <= u32::MAX,
                r@.len() == i,
                forall|j: int|
                    0 <= j < i ==> (#[trigger] r@[j]).0 == j && r@[j].1@ == self.vertex_input@[j].spec_name(),
            decreases self.vertex_input@.len() - i,
        {
            r.push((i as u32, self.vertex_input[i].name()));
            i = i + 1;
        }
        r
    }
}

/// Where the build of a program stands.
#[derive(Clone, Copy, Debug, PartialEq, Eq, Structural)]
pub enum BuildStage {
    CompileVertex,
    CompileFragment,
    Link,
    Built,
    Failed,
}

/// The driver work that a build asks for next.
#[derive(Debug)]
pub enum BuildAction {
    /// Create a stage of type `shader_type` from `source` and compile it.
    Compile { shader_type: u32, source: String },
    /// Create a program, attach the compiled stages, bind the fragment output
    /// (where there is one) and each vertex input to its location, and link.
    Link { frag_output: Option<(u32, &'static str)>, attributes: Vec<(u32, &'static str)> },
}

/// Whether `action` compiles a stage of type `shader_type` from `source`.
pub open spec fn is_compile(action: Option<BuildAction>, shader_type: u32, source: Seq<char>) -> bool {
    match action {
        Some(BuildAction::Compile { shader_type: t, source: s }) => t == shader_type && s@ == source,
        _ => false,
    }
}

/// Whether `action` links a program whose vertex inputs are `inputs`: the
/// fragment output of `dialect` (where it has one) goes to location 0, and
/// each vertex input to its place in `inputs`.
pub open spec fn is_link(action: Option<BuildAction>, inputs: Seq<Attribute>, dialect: Dialect) -> bool {
    match action {
        Some(BuildAction::Link { frag_output, attributes }) => {
            &&& (frag_output is Some <==> declares_frag_output(dialect, false))
            &&& (frag_output matches Some((loc, name)) ==> loc == 0 && name@ == frag_output_name())
            &&& attributes@.len() == inputs.len()
            &&& forall|i: int|
                0 <= i < attributes@.len() ==> (#[trigger] attributes@[i]).0 == i
                    && attributes@[i].1@ == inputs[i].spec_name()
        },
        _ => false,
    }
}

/// The stage a build moves to when the driver reports on the action of
/// `stage`: the next step on success, `Failed` otherwise.
pub open spec fn next_stage(stage: BuildStage, succeeded: bool) -> BuildStage {
    if !succeeded {
        BuildStage::Failed
    } else {
        match stage {
            BuildStage::CompileVertex => BuildStage::CompileFragment,
            BuildStage::CompileFragment => BuildStage::Link,
            BuildStage::Link => BuildStage::Built,
            other => other,
        }
    }
}

/// The build of a program from a description: vertex stage, fragment stage,
/// link, stopping at the first step the driver reports as failed.
#[derive(Debug)]
pub struct ShaderBuild {
    dialect: Dialect,
    stage: BuildStage,
}

impl ShaderBuild {
    pub closed spec fn spec_dialect(self) -> Dialect {
        self.dialect
    }

    pub closed spec fn spec_stage(self) -> BuildStage {
        self.stage
    }

    /// A build in `dialect` that starts with the vertex stage.
    pub fn new(dialect: Dialect) -> (r: ShaderBuild)
        ensures
            r.spec_dialect() == dialect,
            r.spec_stage() == BuildStage::CompileVertex,
    {
        ShaderBuild { dialect, stage: BuildStage::CompileVertex }
    }

    pub fn stage(&self) -> (r: BuildStage)
        ensures
            r == self.spec_stage(),
    {
        self.stage
    }

    /// The driver work to do next for `desc`: compile the vertex stage, then
    /// the fragment stage, then link; nothing once the build is over.
    pub fn next_action(&self, desc: &ShaderDescription) -> (r: Option<BuildAction>)
        requires
            desc.vertex_input@.len() <= u32::MAX,
        ensures
            self.spec_stage() == BuildStage::CompileVertex ==> is_compile(
                r,
                gl::VERTEX_SHADER,
                desc.spec_vertex_source(self.spec_dialect()),
            ),
            self.spec_stage() == BuildStage::CompileFragment ==> is_compile(
                r,
                gl::FRAGMENT_SHADER,
                desc.spec_fragment_source(self.spec_dialect()),
            ),
            self.spec_stage() == BuildStage::Link ==> is_link(r, desc.vertex_input@, self.spec_dialect()),
            self.spec_stage() == BuildStage::Built || self.spec_stage() == BuildStage::Failed
                ==> r is None,
    {
        match self.stage {
            BuildStage::CompileVertex => Some(
                BuildAction::Compile {
                    shader_type: gl::VERTEX_SHADER,
                    source: desc.vertex_source(self.dialect),
                },
            ),
            BuildStage::CompileFragment => Some(
                BuildAction::Compile {
                    shader_type: gl::FRAGMENT_SHADER,
                    source: desc.fragment_source(self.dialect),
                },
            ),
            BuildStage::Link => Some(
                BuildAction::Link {
                    frag_output: frag_output_location(self.dialect),
                    attributes: desc.attribute_locations(),
                },
            ),
            BuildStage::Built | BuildStage::Failed => None,
        }
    }

    /// Takes the driver's report on the last action: on success the build
    /// moves to its next step, else it fails with the driver's diagnostic
    /// text.
    pub fn report(&mut self, succeeded: bool, log: String) -> (r: Result<(), GolemError>)
        ensures
            r == compile_result(succeeded, log),
            final(self).spec_dialect() == old(self).spec_dialect(),
            final(self).spec_stage() == next_stage(old(self).spec_stage(), succeeded),
    {
        if !succeeded {
            self.stage = BuildStage::Failed;
            return Err(GolemError::ShaderCompilationError(log));
        }
        self.stage = match self.stage {
            BuildStage::CompileVertex => BuildStage::CompileFragment,
            BuildStage::CompileFragment => BuildStage::Link,
            BuildStage::Link => BuildStage::Built,
            other => other,
        };
        Ok(())
    }
}

/// A linked shader program: the driver's program and its two stages, and the
/// vertex inputs it was built with, which decide how vertex data is laid out.
#[derive(Debug)]
pub struct ShaderProgram {
    id: u32,
    vertex: u32,
    fragment: u32,
    input: Vec<Attribute>,
}

impl ShaderProgram {
    #[verifier::type_invariant]
    spec fn layout_ok(self) -> bool {
        layout_fits(self.input@)
    }

    pub closed spec fn spec_id(self) -> u32 {
        self.id
    }

    pub closed spec fn spec_vertex(self) -> u32 {
        self.vertex
    }

    pub closed spec fn spec_fragment(self) -> u32 {
        self.fragment
    }

    pub closed spec fn spec_input(self) -> Seq<Attribute> {
        self.input@
    }

    /// Wraps the linked program `id`, built from the stages `vertex` and
    /// `fragment`, whose vertex inputs are `input`.
    pub fn new(id: u32, vertex: u32, fragment: u32, input: &[Attribute]) -> (r: ShaderProgram)
        requires
            layout_fits(input@),
        ensures
            r.spec_id() == id,
            r.spec_vertex() == vertex,
            r.spec_fragment() == fragment,
            r.spec_input() == input@,
    {
        let mut attrs: Vec<Attribute> = Vec::new();
        let mut i: usize = 0;
        while i < input.len()
            invariant
                i <= input@.len(),
                attrs@ == input@.subrange(0, i as int),
            decreases input@.len() - i,
        {
            attrs.push(input[i]);
            i = i + 1;
            assert(attrs@ =~= input@.subrange(0, i as int));
        }
        assert(input@.subrange(0, input@.len() as int) =~= input@);
        ShaderProgram { id, vertex, fragment, input: attrs }
    }

    pub fn id(&self) -> (r: u32)
        ensures
            r == self.spec_id(),
    {
        self.id
    }

    pub fn vertex_shader(&self) -> (r: u32)
        ensures
            r == self.spec_vertex(),
    {
        self.vertex
    }

    pub fn fragment_shader(&self) -> (r: u32)
        ensures
            r == self.spec_fragment(),
    {
        self.fragment
    }

    /// Whether this program is the context's current one.
    pub fn is_bound(&self, ctx: &Context) -> (r: bool)
        ensures
            r == (ctx@.current_program == Some(self.spec_id())),
    {
        ctx.is_program_bound(self.id)
    }

    /// The program that a uniform value is sent to: this one where it is
    /// current, else `NotCurrentProgram`, and no value is sent.
    pub fn uniform_program(&self, ctx: &Context) -> (r: Result<u32, GolemError>)
        ensures
            r == (if ctx@.current_program == Some(self.spec_id()) {
                Ok::<u32, GolemError>(self.spec_id())
            } else {
                Err(GolemError::NotCurrentProgram)
            }),
    {
        if self.is_bound(ctx) {
            Ok(self.id)
        } else {
            Err(GolemError::NotCurrentProgram)
        }
    }

    /// Makes this program the current one and lays its vertex inputs over
    /// the data of `vertices`.
    pub fn bind(&self, ctx: &mut Context, vertices: &Buffer) -> (r: ProgramBinding)
        requires
            vertices.spec_target() == BufferTarget::Vertex,
        ensures
            final(ctx)@ == old(ctx)@.with_program(self.spec_id()),
            layout_fits(self.spec_input()),
            4 * total_size(self.spec_input()) <= i32::MAX,
            r.program == self.spec_id(),
            r.vertex_target == gl::ARRAY_BUFFER,
            r.vertex_buffer == vertices.spec_id(),
            r.pointers@.len() == self.spec_input().len(),
            forall|i: int|
                0 <= i < r.pointers@.len() ==> #[trigger] r.pointers@[i] == attribute_pointer(
                    self.spec_input(),
                    i,
                ),
    {
        proof {
            use_type_invariant(self);
        }
        ctx.bind_program(self.id);
        let attrs = &self.input;
        let ghost s = attrs@;
        let mut stride: i32 = 0;
        let mut i: usize = 0;
        while i < attrs.len()
            invariant
                s == attrs@,
                layout_fits(s),
                i <= s.len(),
                stride == 4 * total_size(s.subrange(0, i as int)),
            decreases s.len() - i,
        {
            proof {
                lemma_prefix_size(s, i as int + 1);
                let prefix = s.subrange(0, i as int + 1);
                assert(prefix.drop_last() =~= s.subrange(0, i as int));
            }
            stride = stride + 4 * attrs[i].size();
            i = i + 1;
        }
        assert(s.subrange(0, s.len() as int) =~= s);
        let mut pointers: Vec<AttributePointer> = Vec::new();
        let mut offset: i32 = 0;
        let mut i: usize = 0;
        while i < attrs.len()
            invariant
                s == attrs@,
                layout_fits(s),
                i <= s.len(),
                stride == 4 * total_size(s),
                offset == 4 * total_size(s.subrange(0, i as int)),
                pointers@.len() == i,
                forall|j: int| 0 <= j < i ==> #[trigger] pointers@[j] == attribute_pointer(s, j),
            decreases s.len() - i,
        {
            let size = attrs[i].size();
            pointers.push(
                AttributePointer {
                    index: i as u32,
                    size,
                    data_type: gl::FLOAT,
                    normalized: false,
                    stride,
                    offset,
                },
            );
            proof {
                lemma_prefix_size(s, i as int + 1);
                let prefix = s.subrange(0, i as int + 1);
                assert(prefix.drop_last() =~= s.subrange(0, i as int));
            }
            offset = offset + 4 * size;
            i = i + 1;
        }
        ProgramBinding {
            program: self.id,
            vertex_target: vertices.target().to_gl(),
            vertex_buffer: vertices.id(),
            pointers,
        }
    }
}

/// A program whose two stages compile and which links is built without
/// error: the three reports succeed and the build ends `Built`. Binding it
/// makes it current and configures each vertex input at its own location;
/// after that, drawing needs no other setup and issues exactly one draw call
/// over the requested indices.
pub proof fn lemma_built_program_draws(
    ctx: ContextView,
    vertex_log: String,
    fragment_log: String,
    link_log: String,
    program: ShaderProgram,
    elements: u32,
    start: nat,
    end: nat,
    mode: GeometryMode,
)
    requires
        layout_fits(program.spec_input()),
        start <= end,
        4 * end <= i32::MAX,
    ensures
        compile_result(true, vertex_log) == Ok::<(), GolemError>(()),
        compile_result(true, fragment_log) == Ok::<(), GolemError>(()),
        compile_result(true, link_log) == Ok::<(), GolemError>(()),
        next_stage(next_stage(next_stage(BuildStage::CompileVertex, true), true), true)
            == BuildStage::Built,
        ctx.with_program(program.spec_id()).current_program == Some(program.spec_id()),
        forall|i: int|
            0 <= i < program.spec_input().len() ==> #[trigger] attribute_pointer(
                program.spec_input(),
                i,
            ).index == i,
        draw_result(ctx.with_program(program.spec_id()), elements, start, end, mode) == Ok::<
            DrawCall,
            GolemError,
        >(
            DrawCall {
                element_buffer: elements,
                mode: mode.spec_to_gl(),
                count: (end - start) as i32,
                element_type: gl::UNSIGNED_INT,
                offset: (4 * start) as i32,
            },
        ),
{
}

} // verus!
