//! Vertex attributes and the GLSL declarations generated from them.
use vstd::prelude::*;
use crate::{Dialect, Dimension};

verus! {

/// Whether an attribute is read or written by the stage being generated.
#[derive(Clone, Copy, Debug, PartialEq, Eq, Structural)]
pub enum Position {
    Input,
    Output,
}

impl Position {
    /// The storage qualifier of a declaration at this position.
    pub open spec fn spec_qualifier(self, dialect: Dialect) -> Seq<char> {
        match (dialect, self) {
            (Dialect::Desktop, Position::Input) => "in "@,
            (Dialect::Desktop, Position::Output) => "out "@,
            (Dialect::Web, Position::Input) => "attribute "@,
            (Dialect::Web, Position::Output) => "varying "@,
        }
    }

    pub fn glsl_string(self, dialect: Dialect) -> (r: &'static str)
        ensures
            r@ == self.spec_qualifier(dialect),
    {
        match (dialect, self) {
            (Dialect::Desktop, Position::Input) => "in ",
            (Dialect::Desktop, Position::Output) => "out ",
            (Dialect::Web, Position::Input) => "attribute ",
            (Dialect::Web, Position::Output) => "varying ",
        }
    }
}

/// The position whose qualifier a declaration takes.
///
/// GLSL ES has no `in` for a fragment stage: what a fragment stage reads is
/// declared `varying`, as the vertex stage writes it.
pub open spec fn effective_position(dialect: Dialect, is_vertex: bool, pos: Position) -> Position {
    if dialect == Dialect::Web && !is_vertex {
        Position::Output
    } else {
        pos
    }
}

/// The shape of a vertex attribute.
#[derive(Clone, Copy, Debug, PartialEq, Eq, Structural)]
pub enum AttributeType {
    Scalar,
    Vector(Dimension),
    Matrix(Dimension, Dimension),
}

impl AttributeType {
    /// How many floats one value of this shape takes.
    pub open spec fn spec_size(self) -> int {
        match self {
            AttributeType::Scalar => 1,
            AttributeType::Vector(n) => n.spec_value(),
            AttributeType::Matrix(m, n) => m.spec_value() * n.spec_value(),
        }
    }

    /// The GLSL type name, followed by one space.
    pub open spec fn spec_glsl_type(self) -> Seq<char> {
        match self {
            AttributeType::Scalar => "float "@,
            AttributeType::Vector(n) => "vec"@ + n.spec_digit() + " "@,
            AttributeType::Matrix(m, n) => "mat"@ + m.spec_digit() + "x"@ + n.spec_digit() + " "@,
        }
    }

    /// Appends the GLSL type name and one space to `text`.
    pub fn write_glsl_type(&self, text: &mut String)
        ensures
            final(text)@ == old(text)@ + self.spec_glsl_type(),
    {
        let ghost start = text@;
        match self {
            AttributeType::Scalar => {
                text.append("float ");
            },
            AttributeType::Vector(n) => {
                text.append("vec");
                n.write_digit(text);
                text.append(" ");
            },
            AttributeType::Matrix(m, n) => {
                text.append("mat");
                m.write_digit(text);
                text.append("x");
                n.write_digit(text);
                text.append(" ");
            },
        }
        assert(text@ =~= start + self.spec_glsl_type());
    }
}

/// A named vertex attribute: an input of the vertex stage, or a value passed
/// from the vertex stage to the fragment stage.
#[derive(Clone, Copy, Debug)]
pub struct Attribute {
    name: &'static str,
    value: AttributeType,
}

impl Attribute {
    pub closed spec fn spec_name(self) -> Seq<char> {
        self.name@
    }

    pub closed spec fn spec_type(self) -> AttributeType {
        self.value
    }

    pub open spec fn spec_size(self) -> int {
        self.spec_type().spec_size()
    }

    /// The declaration of this attribute: qualifier, type, name, `;` and a
    /// line break.
    pub open spec fn spec_declaration(self, dialect: Dialect, is_vertex: bool, pos: Position) -> Seq<char> {
        effective_position(dialect, is_vertex, pos).spec_qualifier(dialect)
            + self.spec_type().spec_glsl_type() + self.spec_name() + ";\n"@
    }

    pub fn new(name: &'static str, value: AttributeType) -> (r: Attribute)
        ensures
            r.spec_name() == name@,
            r.spec_type() == value,
    {
        Attribute { name, value }
    }

    pub fn name(&self) -> (r: &'static str)
        ensures
            r@ == self.spec_name(),
    {
        self.name
    }

    pub fn attribute_type(&self) -> (r: AttributeType)
        ensures
            r == self.spec_type(),
    {
        self.value
    }

    /// How many floats one value of this attribute takes.
    pub fn size(&self) -> (r: i32)
        ensures
            r as int == self.spec_size(),
            1 <= r <= 16,
    {
        match self.value {
            AttributeType::Scalar => 1,
            AttributeType::Vector(n) => n.value(),
            AttributeType::Matrix(m, n) => {
                let (a, b) = (m.value(), n.value());
                assert(4 <= a * b <= 16) by (nonlinear_arith)
                    requires
                        2 <= a <= 4,
                        2 <= b <= 4,
                ;
                a * b
            },
        }
    }

    /// Appends the declaration of this attribute to `shader`.
    pub fn as_glsl(&self, dialect: Dialect, is_vertex: bool, pos: Position, shader: &mut String)
        ensures
            final(shader)@ == old(shader)@ + self.spec_declaration(dialect, is_vertex, pos),
    {
        let ghost start = shader@;
        let pos = if dialect == Dialect::Web && !is_vertex {
            Position::Output
        } else {
            pos
        };
        shader.append(pos.glsl_string(dialect));
        self.value.write_glsl_type(shader);
        shader.append(self.name);
        shader.append(";\n");
        assert(shader@ =~= start + self.spec_declaration(dialect, is_vertex, pos));
    }
}

/// The declarations of `attrs`, one after another in their order.
pub open spec fn declaration_block(
    attrs: Seq<Attribute>,
    dialect: Dialect,
    is_vertex: bool,
    pos: Position,
) -> Seq<char>
    decreases attrs.len(),
{
    if attrs.len() == 0 {
        Seq::empty()
    } else {
        declaration_block(attrs.drop_last(), dialect, is_vertex, pos)
            + attrs.last().spec_declaration(dialect, is_vertex, pos)
    }
}

/// Appends the declarations of `attrs`, in their order, to `shader`.
pub fn write_declarations(
    attrs: &[Attribute],
    dialect: Dialect,
    is_vertex: bool,
    pos: Position,
    shader: &mut String,
)
    ensures
        final(shader)@ == old(shader)@ + declaration_block(attrs@, dialect, is_vertex, pos),
{
    let ghost start = shader@;
    let mut i: usize = 0;
    while i < attrs.len()
        invariant
            i <= attrs@.len(),
            shader@ == start + declaration_block(attrs@.subrange(0, i as int), dialect, is_vertex, pos),
        decreases attrs@.len() - i,
    {
        attrs[i].as_glsl(dialect, is_vertex, pos, shader);
        let ghost prefix = attrs@.subrange(0, i as int + 1);
        assert(prefix.drop_last() =~= attrs@.subrange(0, i as int));
        assert(prefix.last() == attrs@[i as int]);
        i = i + 1;
        assert(shader@ =~= start + declaration_block(attrs@.subrange(0, i as int), dialect, is_vertex, pos));
    }
    assert(attrs@.subrange(0, attrs@.len() as int) =~= attrs@);
}

/// The number of line breaks in `s`.
pub open spec fn line_breaks(s: Seq<char>) -> nat
    decreases s.len(),
{
    if s.len() == 0 {
        0
    } else {
        line_breaks(s.drop_last()) + if s.last() == '\n' {
            1nat
        } else {
            0nat
        }
    }
}

proof fn lemma_line_breaks_concat(a: Seq<char>, b: Seq<char>)
    ensures
        line_breaks(a + b) == line_breaks(a) + line_breaks(b),
    decreases b.len(),
{
    if b.len() == 0 {
        assert(a + b =~= a);
    } else {
        lemma_line_breaks_concat(a, b.drop_last());
        assert((a + b).drop_last() =~= a + b.drop_last());
    }
}

proof fn lemma_no_line_breaks(s: Seq<char>)
    requires
        !s.contains('\n'),
    ensures
        line_breaks(s) == 0,
    decreases s.len(),
{
    if s.len() > 0 {
        assert(!s.drop_last().contains('\n')) by {
            if s.drop_last().contains('\n') {
                let i = choose|i: int| 0 <= i < s.drop_last().len() && s.drop_last()[i] == '\n';
                assert(s[i] == '\n');
            }
        }
        lemma_no_line_breaks(s.drop_last());
        assert(s[s.len() - 1] != '\n');
    }
}

/// A declaration is one line: it starts with the qualifier of its dialect
/// and stage role, and its one line break ends it.
pub proof fn lemma_declaration_is_one_line(a: Attribute, dialect: Dialect, is_vertex: bool, pos: Position)
    requires
        !a.spec_name().contains('\n'),
    ensures
        ({
            let d = a.spec_declaration(dialect, is_vertex, pos);
            let q = effective_position(dialect, is_vertex, pos).spec_qualifier(dialect);
            &&& q.len() <= d.len()
            &&& d.subrange(0, q.len() as int) == q
            &&& d.last() == '\n'
            &&& line_breaks(d) == 1
        }),
{
    reveal_strlit("in ");
    reveal_strlit("out ");
    reveal_strlit("attribute ");
    reveal_strlit("varying ");
    reveal_strlit("float ");
    reveal_strlit("vec");
    reveal_strlit("mat");
    reveal_strlit("x");
    reveal_strlit(" ");
    reveal_strlit(";\n");
    let q = effective_position(dialect, is_vertex, pos).spec_qualifier(dialect);
    let t = a.spec_type().spec_glsl_type();
    let n = a.spec_name();
    let e = ";\n"@;
    let d = a.spec_declaration(dialect, is_vertex, pos);
    assert(d == q + t + n + e);
    assert(!q.contains('\n'));
    assert(!t.contains('\n')) by {
        if t.contains('\n') {
            let i = choose|i: int| 0 <= i < t.len() && t[i] == '\n';
            match a.spec_type() {
                AttributeType::Scalar => {},
                AttributeType::Vector(k) => {
                    assert(t == seq!['v', 'e', 'c'] + k.spec_digit() + seq![' ']);
                },
                AttributeType::Matrix(k, m) => {
                    assert(t == seq!['m', 'a', 't'] + k.spec_digit() + seq!['x'] + m.spec_digit()
                        + seq![' ']);
                },
            }
        }
    }
    lemma_no_line_breaks(q);
    lemma_no_line_breaks(t);
    lemma_no_line_breaks(n);
    lemma_line_breaks_concat(q, t);
    lemma_line_breaks_concat(q + t, n);
    lemma_line_breaks_concat(q + t + n, e);
    assert(e =~= seq![';', '\n']);
    assert(e.drop_last() =~= seq![';']);
    assert(seq![';'].drop_last() =~= Seq::<char>::empty());
    assert(line_breaks(Seq::<char>::empty()) == 0);
    assert(line_breaks(seq![';']) == 0);
    assert(line_breaks(e) == 1);
    assert(d.subrange(0, q.len() as int) =~= q);
}

/// The declaration block of `attrs` holds exactly one declaration line per
/// attribute, in the attributes' order, each with the qualifier of the
/// dialect and stage role.
pub proof fn lemma_declaration_block_lines(
    attrs: Seq<Attribute>,
    dialect: Dialect,
    is_vertex: bool,
    pos: Position,
)
    requires
        forall|i: int| 0 <= i < attrs.len() ==> !(#[trigger] attrs[i]).spec_name().contains('\n'),
    ensures
        declaration_block(attrs, dialect, is_vertex, pos) == attrs.map_values(
            |a: Attribute| a.spec_declaration(dialect, is_vertex, pos),
        ).flatten(),
        line_breaks(declaration_block(attrs, dialect, is_vertex, pos)) == attrs.len(),
        forall|i: int|
            0 <= i < attrs.len() ==> {
                let d = (#[trigger] attrs[i]).spec_declaration(dialect, is_vertex, pos);
                let q = effective_position(dialect, is_vertex, pos).spec_qualifier(dialect);
                &&& q.len() <= d.len()
                &&& d.subrange(0, q.len() as int) == q
                &&& d.last() == '\n'
                &&& line_breaks(d) == 1
            },
    decreases attrs.len(),
{
    let f = |a: Attribute| a.spec_declaration(dialect, is_vertex, pos);
    let lines = attrs.map_values(f);
    lines.lemma_flatten_and_flatten_alt_are_equivalent();
    assert forall|i: int| 0 <= i < attrs.len() implies {
        let d = (#[trigger] attrs[i]).spec_declaration(dialect, is_vertex, pos);
        let q = effective_position(dialect, is_vertex, pos).spec_qualifier(dialect);
        &&& q.len() <= d.len()
        &&& d.subrange(0, q.len() as int) == q
        &&& d.last() == '\n'
        &&& line_breaks(d) == 1
    } by {
        lemma_declaration_is_one_line(attrs[i], dialect, is_vertex, pos);
    }
    if attrs.len() > 0 {
        let rest = attrs.drop_last();
        assert forall|i: int| 0 <= i < rest.len() implies !(#[trigger] rest[i]).spec_name().contains(
            '\n',
        ) by {
            assert(rest[i] == attrs[i]);
        }
        lemma_declaration_block_lines(rest, dialect, is_vertex, pos);
        assert(rest.map_values(f) =~= lines.drop_last());
        rest.map_values(f).lemma_flatten_and_flatten_alt_are_equivalent();
        lemma_declaration_is_one_line(attrs.last(), dialect, is_vertex, pos);
        lemma_line_breaks_concat(
            declaration_block(rest, dialect, is_vertex, pos),
            attrs.last().spec_declaration(dialect, is_vertex, pos),
        );
    } else {
        assert(lines.flatten_alt() =~= Seq::<char>::empty());
    }
}

} // verus!
