//! Uniform descriptions and the GLSL declarations generated from them.
use vstd::prelude::*;
use crate::{Dimension, NumberType};

verus! {

/// The character of a decimal digit `d < 10`.
pub open spec fn digit_char(d: nat) -> char {
    if d == 0 { '0' }
    else if d == 1 { '1' }
    else if d == 2 { '2' }
    else if d == 3 { '3' }
    else if d == 4 { '4' }
    else if d == 5 { '5' }
    else if d == 6 { '6' }
    else if d == 7 { '7' }
    else if d == 8 { '8' }
    else { '9' }
}

/// `n` written in decimal, without leading zeros.
pub open spec fn decimal(n: nat) -> Seq<char>
    decreases n,
{
    if n < 10 {
        seq![digit_char(n)]
    } else {
        decimal(n / 10) + seq![digit_char(n % 10)]
    }
}

/// Appends the digit `d` to `text`.
fn write_digit(d: usize, text: &mut String)
    requires
        d < 10,
    ensures
        final(text)@ == old(text)@ + seq![digit_char(d as nat)],
{
    let s = if d == 0 { "0" }
        else if d == 1 { "1" }
        else if d == 2 { "2" }
        else if d == 3 { "3" }
        else if d == 4 { "4" }
        else if d == 5 { "5" }
        else if d == 6 { "6" }
        else if d == 7 { "7" }
        else if d == 8 { "8" }
        else { "9" };
    proof {
        reveal_strlit("0");
        reveal_strlit("1");
        reveal_strlit("2");
        reveal_strlit("3");
        reveal_strlit("4");
        reveal_strlit("5");
        reveal_strlit("6");
        reveal_strlit("7");
        reveal_strlit("8");
        reveal_strlit("9");
    }
    assert(s@ =~= seq![digit_char(d as nat)]);
    text.append(s);
}

/// Appends `n` in decimal to `text`.
pub fn write_decimal(n: usize, text: &mut String)
    ensures
        final(text)@ == old(text)@ + decimal(n as nat),
    decreases n,
{
    let ghost start = text@;
    if n >= 10 {
        write_decimal(n / 10, text);
    }
    write_digit(n % 10, text);
    assert(text@ =~= start + decimal(n as nat));
}

/// The GLSL type of a uniform.
#[derive(Debug)]
pub enum UniformType {
    Scalar(NumberType),
    Vector(NumberType, Dimension),
    Matrix(Dimension),
    Sampler2D,
    Array(Box<UniformType>, usize),
    UserType(String),
}

impl UniformType {
    /// The GLSL text of the type as it stands before the uniform's name.
    pub open spec fn spec_glsl_type(self) -> Seq<char>
        decreases self,
    {
        match self {
            UniformType::Scalar(NumberType::Int) => "int "@,
            UniformType::Scalar(NumberType::Float) => "float "@,
            UniformType::Vector(NumberType::Int, d) => "ivec"@ + d.spec_digit() + " "@,
            UniformType::Vector(NumberType::Float, d) => "vec"@ + d.spec_digit() + " "@,
            UniformType::Matrix(d) => "mat"@ + d.spec_digit() + " "@,
            UniformType::Sampler2D => "sampler2D "@,
            UniformType::Array(t, n) => t.spec_glsl_type() + "["@ + decimal(n as nat) + "]"@,
            UniformType::UserType(s) => s@,
        }
    }

    /// Appends the GLSL text of the type to `shader`.
    pub fn write_type(&self, shader: &mut String)
        ensures
            final(shader)@ == old(shader)@ + self.spec_glsl_type(),
        decreases self,
    {
        let ghost start = shader@;
        match self {
            UniformType::Scalar(NumberType::Int) => {
                shader.append("int ");
            },
            UniformType::Scalar(NumberType::Float) => {
                shader.append("float ");
            },
            UniformType::Vector(NumberType::Int, d) => {
                shader.append("ivec");
                d.write_digit(shader);
                shader.append(" ");
            },
            UniformType::Vector(NumberType::Float, d) => {
                shader.append("vec");
                d.write_digit(shader);
                shader.append(" ");
            },
            UniformType::Matrix(d) => {
                shader.append("mat");
                d.write_digit(shader);
                shader.append(" ");
            },
            UniformType::Sampler2D => {
                shader.append("sampler2D ");
            },
            UniformType::Array(t, n) => {
                t.write_type(shader);
                shader.append("[");
                write_decimal(*n, shader);
                shader.append("]");
            },
            UniformType::UserType(s) => {
                shader.append(s.as_str());
            },
        }
        assert(shader@ =~= start + self.spec_glsl_type());
    }
}

/// A named uniform of a shader program.
#[derive(Debug)]
pub struct Uniform {
    pub name: &'static str,
    pub u_type: UniformType,
}

impl Uniform {
    /// The declaration of this uniform: `uniform`, type, name, `;` and a line
    /// break.
    pub open spec fn spec_declaration(self) -> Seq<char> {
        "uniform "@ + self.u_type.spec_glsl_type() + self.name@ + ";\n"@
    }

    pub fn new(name: &'static str, u_type: UniformType) -> (r: Uniform)
        ensures
            r.name@ == name@,
            r.u_type == u_type,
    {
        Uniform { name, u_type }
    }

    /// Appends the declaration of this uniform to `shader`.
    pub fn as_glsl(&self, shader: &mut String)
        ensures
            final(shader)@ == old(shader)@ + self.spec_declaration(),
    {
        let ghost start = shader@;
        shader.append("uniform ");
        self.u_type.write_type(shader);
        shader.append(self.name);
        shader.append(";\n");
        assert(shader@ =~= start + self.spec_declaration());
    }
}

/// The declarations of `uniforms`, one after another in their order.
pub open spec fn uniform_block(uniforms: Seq<Uniform>) -> Seq<char>
    decreases uniforms.len(),
{
    if uniforms.len() == 0 {
        Seq::empty()
    } else {
        uniform_block(uniforms.drop_last()) + uniforms.last().spec_declaration()
    }
}

/// Appends the declarations of `uniforms`, in their order, to `shader`.
pub fn write_uniforms(uniforms: &[Uniform], shader: &mut String)
    ensures
        final(shader)@ == old(shader)@ + uniform_block(uniforms@),
{
    let ghost start = shader@;
    let mut i: usize = 0;
    while i < uniforms.len()
        invariant
            i <= uniforms@.len(),
            shader@ == start + uniform_block(uniforms@.subrange(0, i as int)),
        decreases uniforms@.len() - i,
    {
        uniforms[i].as_glsl(shader);
        let ghost prefix = uniforms@.subrange(0, i as int + 1);
        assert(prefix.drop_last() =~= uniforms@.subrange(0, i as int));
        assert(prefix.last() == uniforms@[i as int]);
        i = i + 1;
        assert(shader@ =~= start + uniform_block(uniforms@.subrange(0, i as int)));
    }
    assert(uniforms@.subrange(0, uniforms@.len() as int) =~= uniforms@);
}

} // verus!
