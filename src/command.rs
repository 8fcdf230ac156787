use vstd::prelude::*;

verus! {

/// Primitive topology of a draw call.
#[derive(Clone, Copy, Debug, PartialEq, Eq, Structural)]
pub enum Prim {
    Triangles,
    Quads,
}

/// One call into the rendering backend. Float data travels as the IEEE-754
/// bit patterns of its values; handle 0 stands for "none" (unbind, deactivate).
#[derive(Debug, PartialEq, Eq)]
pub enum Command {
    BindBuffer { buffer: u32 },
    /// Upload `data` to the bound array buffer, for static drawing.
    BufferData { data: Vec<u32> },
    DeleteBuffer { buffer: u32 },
    ShaderSource { shader: u32, source: String },
    CompileShader { shader: u32 },
    DeleteShader { shader: u32 },
    AttachShader { program: u32, shader: u32 },
    DetachShader { program: u32, shader: u32 },
    LinkProgram { program: u32 },
    DeleteProgram { program: u32 },
    UseProgram { program: u32 },
    /// Upload a vector of 1 to 4 floats to a uniform.
    UniformVector { location: i32, data: Vec<u32> },
    /// Upload a square matrix of 4, 9 or 16 floats, given in row-major order.
    UniformMatrix { location: i32, data: Vec<u32> },
    EnableAttrib { location: u32 },
    /// Describe the bound buffer as the source of an attribute, `components` floats per vertex.
    AttribPointer { location: u32, components: i32 },
    DisableAttrib { location: u32 },
    DrawArrays { prim: Prim, first: i32, count: i32 },
}

/// `c` sets the source text of `shader` to `text`.
pub open spec fn sets_source(c: Command, shader: u32, text: Seq<char>) -> bool {
    match c {
        Command::ShaderSource { shader: s, source } => s == shader && source@ == text,
        _ => false,
    }
}

} // verus!
