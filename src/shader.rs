use vstd::prelude::*;

use crate::command::{sets_source, Command};
use crate::error::{Error, ErrorKind};

verus! {

/// The pipeline stage a shader serves.
#[derive(Clone, Copy, Debug, PartialEq, Eq, Structural)]
pub enum Type {
    Vertex,
    Fragment,
}

/// A shader object of the backend: its handle, its stage, and the name of
/// its source's origin, used in diagnostics.
pub struct RawShader {
    pub id: u32,
    pub name: String,
    pub stage: Type,
}

impl RawShader {
    /// Wraps the handle `id` that the backend created for a shader of stage `t`.
    pub fn new(t: Type, id: u32) -> (r: RawShader)
        ensures
            r.id == id,
            r.stage == t,
            r.name@ == Seq::<char>::empty(),
    {
        RawShader { id, name: String::new(), stage: t }
    }

    /// Releases the shader's handle, whatever state it reached.
    pub fn release(self, q: &mut Vec<Command>)
        ensures
            final(q)@ == old(q)@.push(Command::DeleteShader { shader: self.id }),
    {
        q.push(Command::DeleteShader { shader: self.id });
    }
}

/// A shader with no source yet.
pub struct ShaderNew {
    pub raw: RawShader,
}

/// A shader whose source has been handed to the backend, not yet compiled.
pub struct ShaderLoaded {
    pub raw: RawShader,
}

/// A compiled shader, ready to be attached to programs.
pub struct ShaderCompiled {
    pub raw: RawShader,
}

impl ShaderCompiled {
    /// Starts a shader of stage `t` on the handle `id` the backend created for it.
    pub fn new(t: Type, id: u32) -> (r: ShaderNew)
        ensures
            r.raw.id == id,
            r.raw.stage == t,
            r.raw.name@ == Seq::<char>::empty(),
    {
        ShaderNew { raw: RawShader::new(t, id) }
    }

    pub fn name(&self) -> (r: &str)
        ensures
            r@ == self.raw.name@,
    {
        self.raw.name.as_str()
    }

    pub fn id(&self) -> (r: u32)
        ensures
            r == self.raw.id,
    {
        self.raw.id
    }
}

impl ShaderNew {
    /// Hands `src` to the backend verbatim as the shader's source.
    pub fn load_str(self, q: &mut Vec<Command>, src: &str) -> (r: ShaderLoaded)
        ensures
            r.raw == self.raw,
            final(q)@.len() == old(q)@.len() + 1,
            final(q)@.drop_last() == old(q)@,
            sets_source(final(q)@.last(), self.raw.id, src@),
    {
        q.push(Command::ShaderSource { shader: self.raw.id, source: src.to_owned() });
        ShaderLoaded { raw: self.raw }
    }

    /// Like `load_str`, and records `origin` as the shader's name for diagnostics.
    pub fn load_named(self, q: &mut Vec<Command>, origin: &str, src: &str) -> (r: ShaderLoaded)
        ensures
            r.raw.id == self.raw.id,
            r.raw.stage == self.raw.stage,
            r.raw.name@ == origin@,
            final(q)@.len() == old(q)@.len() + 1,
            final(q)@.drop_last() == old(q)@,
            sets_source(final(q)@.last(), self.raw.id, src@),
    {
        let ShaderNew { raw } = self;
        let RawShader { id, name: _, stage } = raw;
        let named = ShaderNew { raw: RawShader { id, name: origin.to_owned(), stage } };
        named.load_str(q, src)
    }
}

impl ShaderLoaded {
    /// Asks the backend to compile the shader's source.
    pub fn request_compile(&self, q: &mut Vec<Command>)
        ensures
            final(q)@ == old(q)@.push(Command::CompileShader { shader: self.raw.id }),
    {
        q.push(Command::CompileShader { shader: self.raw.id });
    }

    /// Decides the outcome of compiling, from the backend's compile status
    /// `compiled` and its info log `log`. The log comes back either way; the
    /// shader becomes `ShaderCompiled` exactly when the backend compiled it,
    /// and is released otherwise. The shader is consumed, so a compile is
    /// never retried on it.
    pub fn compile(self, q: &mut Vec<Command>, compiled: bool, log: String) -> (r: Result<
        (ShaderCompiled, String),
        (Error, String),
    >)
        ensures
            compiled <==> r is Ok,
            r matches Ok((s, l)) ==> s.raw == self.raw && l == log,
            r matches Err((e, l)) ==> e.kind == ErrorKind::Compile && e.name == self.raw.name
                && e.message == log && l == log,
            compiled ==> final(q)@ == old(q)@,
            !compiled ==> final(q)@ == old(q)@.push(Command::DeleteShader { shader: self.raw.id }),
    {
        if compiled {
            Ok((ShaderCompiled { raw: self.raw }, log))
        } else {
            let err = Error { kind: ErrorKind::Compile, name: self.raw.name.clone(), message: log.clone() };
            self.raw.release(q);
            Err((err, log))
        }
    }
}

/// One compiled shader held in a pool, with the number of references to it.
pub struct Shared {
    pub shader: ShaderCompiled,
    pub refs: usize,
}

/// Compiled shaders shared by reference counting: an index names a shader,
/// each holder (a program, or the caller) owns one reference, and the
/// backend handle is released when the last reference goes.
pub struct ShaderPool {
    pub entries: Vec<Shared>,
}

impl ShaderPool {
    pub open spec fn live(&self, i: int) -> bool {
        0 <= i < self.entries@.len() && self.entries@[i].refs > 0
    }

    pub open spec fn handle(&self, i: int) -> u32 {
        self.entries@[i].shader.raw.id
    }

    pub open spec fn refs_of(&self, i: int) -> nat {
        self.entries@[i].refs as nat
    }

    pub fn new() -> (r: ShaderPool)
        ensures
            r.entries@.len() == 0,
    {
        ShaderPool { entries: Vec::new() }
    }

    /// Puts `shader` into the pool with one reference, owned by the caller.
    pub fn share(&mut self, shader: ShaderCompiled) -> (i: usize)
        ensures
            i == old(self).entries@.len(),
            final(self).entries@.len() == old(self).entries@.len() + 1,
            forall|j: int| 0 <= j < i ==> final(self).entries@[j] == old(self).entries@[j],
            final(self).entries@[i as int].shader.raw == shader.raw,
            final(self).refs_of(i as int) == 1,
    {
        let i = self.entries.len();
        self.entries.push(Shared { shader, refs: 1 });
        i
    }

    /// The number of references to shader `i`.
    pub fn refs(&self, i: usize) -> (r: usize)
        requires
            i < self.entries@.len(),
        ensures
            r == self.entries@[i as int].refs,
    {
        self.entries[i].refs
    }

    /// The handle of shader `i`.
    pub fn id(&self, i: usize) -> (r: u32)
        requires
            i < self.entries@.len(),
        ensures
            r == self.handle(i as int),
    {
        self.entries[i].shader.raw.id
    }

    /// Takes one more reference to a live shader; nothing is recompiled.
    pub fn retain(&mut self, i: usize)
        requires
            old(self).live(i as int),
            old(self).entries@[i as int].refs < usize::MAX,
        ensures
            final(self).entries@.len() == old(self).entries@.len(),
            forall|j: int|
                0 <= j < old(self).entries@.len() && j != i ==> final(self).entries@[j] == old(
                    self,
                ).entries@[j],
            final(self).entries@[i as int].shader == old(self).entries@[i as int].shader,
            final(self).refs_of(i as int) == old(self).refs_of(i as int) + 1,
    {
        let e = &mut self.entries[i];
        e.refs = e.refs + 1;
    }

    /// Drops one reference to a live shader; the last one releases its handle.
    pub fn release(&mut self, i: usize, q: &mut Vec<Command>)
        requires
            old(self).live(i as int),
        ensures
            final(self).entries@.len() == old(self).entries@.len(),
            forall|j: int|
                0 <= j < old(self).entries@.len() && j != i ==> final(self).entries@[j] == old(
                    self,
                ).entries@[j],
            final(self).entries@[i as int].shader == old(self).entries@[i as int].shader,
            final(self).refs_of(i as int) == old(self).refs_of(i as int) - 1,
            old(self).refs_of(i as int) == 1 ==> final(q)@ == old(q)@.push(
                Command::DeleteShader { shader: old(self).handle(i as int) },
            ),
            old(self).refs_of(i as int) != 1 ==> final(q)@ == old(q)@,
    {
        let e = &mut self.entries[i];
        e.refs = e.refs - 1;
        if e.refs == 0 {
            q.push(Command::DeleteShader { shader: e.shader.raw.id });
        }
    }
}

} // verus!
