use vstd::prelude::*;

use crate::command::{Command, Prim};
use crate::error::{Error, ErrorKind};
use crate::pass::Pass;
use crate::shader::{ShaderCompiled, ShaderPool};

verus! {

/// How many times `x` occurs in `s`.
pub open spec fn occurrences(s: Seq<usize>, x: usize) -> nat
    decreases s.len(),
{
    if s.len() == 0 {
        0
    } else {
        occurrences(s.drop_last(), x) + if s.last() == x {
            1nat
        } else {
            0nat
        }
    }
}

/// An element of a sequence occurs in it.
pub proof fn lemma_occurs(s: Seq<usize>, k: int)
    requires
        0 <= k < s.len(),
    ensures
        occurrences(s, s[k]) >= 1,
    decreases s.len(),
{
    if k < s.len() - 1 {
        lemma_occurs(s.drop_last(), k);
        assert(s.drop_last()[k] == s[k]);
    }
}

/// The commands that attach each pooled shader of `shaders` to `program`, in order.
pub open spec fn attaches(program: u32, pool: ShaderPool, shaders: Seq<usize>) -> Seq<Command> {
    shaders.map_values(|i: usize| Command::AttachShader { program, shader: pool.handle(i as int) })
}

/// The commands that detach each pooled shader of `shaders` from `program`, in order.
pub open spec fn detaches(program: u32, pool: ShaderPool, shaders: Seq<usize>) -> Seq<Command> {
    shaders.map_values(|i: usize| Command::DetachShader { program, shader: pool.handle(i as int) })
}

/// The commands that delete the handle of each pooled shader of `gone`, in order.
pub open spec fn shader_deletes(pool: ShaderPool, gone: Seq<usize>) -> Seq<Command> {
    gone.map_values(|j: usize| Command::DeleteShader { shader: pool.handle(j as int) })
}

/// `gone` lists, each once, the shaders of `pool` whose last reference was
/// among `shaders`: those held there whose count went from `p0` to none in `p1`.
pub open spec fn last_released(shaders: Seq<usize>, p0: ShaderPool, p1: ShaderPool, gone: Seq<
    usize,
>) -> bool {
    &&& gone.no_duplicates()
    &&& forall|k: int| 0 <= k < gone.len() ==> #[trigger] gone[k] < p0.entries@.len()
    &&& forall|j: usize|
        j < p0.entries@.len() ==> (#[trigger] gone.contains(j) <==> (occurrences(shaders, j) > 0
            && p1.refs_of(j as int) == 0))
}

/// A program object of the backend, with the pooled shaders it holds a
/// reference to, in the order attached.
pub struct RawProgram {
    pub id: u32,
    pub name: String,
    pub shaders: Vec<usize>,
}

impl RawProgram {
    /// Every shader the program holds is in `pool`, with at least as many
    /// references as the program holds to it.
    pub open spec fn held_in(&self, pool: ShaderPool) -> bool {
        forall|k: int|
            0 <= k < self.shaders@.len() ==> {
                let i = #[trigger] self.shaders@[k];
                &&& i < pool.entries@.len()
                &&& pool.refs_of(i as int) >= occurrences(self.shaders@, i)
            }
    }

    /// Wraps the handle `id` that the backend created for a new program.
    pub fn new(id: u32) -> (r: RawProgram)
        ensures
            r.id == id,
            r.name@ == Seq::<char>::empty(),
            r.shaders@.len() == 0,
    {
        RawProgram { id, name: String::new(), shaders: Vec::new() }
    }

    /// Records a reference, already taken by the caller, to pooled shader `i`.
    pub fn attach_shader(&mut self, i: usize)
        ensures
            final(self).id == old(self).id,
            final(self).name == old(self).name,
            final(self).shaders@ == old(self).shaders@.push(i),
    {
        self.shaders.push(i);
    }

    /// What releasing the program does, from queue `q0` and pool `p0` to
    /// `q1` and `p1`: every shader is detached, in order, then the program
    /// handle is deleted; each shader loses the program's references to it;
    /// and then the handle of each shader whose last reference the program
    /// held is deleted, once, and no other.
    pub open spec fn release_post(
        &self,
        q0: Seq<Command>,
        q1: Seq<Command>,
        p0: ShaderPool,
        p1: ShaderPool,
    ) -> bool {
        let head = (q0 + detaches(self.id, p0, self.shaders@)).push(
            Command::DeleteProgram { program: self.id },
        );
        &&& p1.entries@.len() == p0.entries@.len()
        &&& forall|j: usize|
            j < p0.entries@.len() ==> (#[trigger] p1.entries@[j as int]).shader
                == p0.entries@[j as int].shader && p1.refs_of(j as int) == p0.refs_of(j as int)
                - occurrences(self.shaders@, j)
        &&& head.len() <= q1.len()
        &&& q1.subrange(0, head.len() as int) == head
        &&& exists|gone: Seq<usize>|
            #[trigger] last_released(self.shaders@, p0, p1, gone) && q1.subrange(
                head.len() as int,
                q1.len() as int,
            ) == shader_deletes(p0, gone)
    }

    /// Releases the program: detaches every shader, deletes the program
    /// handle, then drops the program's reference to each shader, which
    /// releases the handle of each shader whose last reference it held.
    pub fn release(self, q: &mut Vec<Command>, pool: &mut ShaderPool)
        requires
            self.held_in(*old(pool)),
        ensures
            self.release_post(old(q)@, final(q)@, *old(pool), *final(pool)),
    {
        let n = self.shaders.len();
        let ghost q0 = q@;
        let mut k: usize = 0;
        while k < n
            invariant
                n == self.shaders@.len(),
                0 <= k <= n,
                self.held_in(*pool),
                q@ == q0 + detaches(self.id, *pool, self.shaders@.subrange(0, k as int)),
            decreases n - k,
        {
            let i = self.shaders[k];
            let h = pool.id(i);
            q.push(Command::DetachShader { program: self.id, shader: h });
            assert(self.shaders@.subrange(0, k + 1) == self.shaders@.subrange(0, k as int).push(i));
            k = k + 1;
        }
        assert(self.shaders@.subrange(0, n as int) == self.shaders@);
        q.push(Command::DeleteProgram { program: self.id });
        let ghost prefix = q@;
        let ghost pool0 = *pool;
        let ghost mut gone: Seq<usize> = Seq::empty();
        let RawProgram { id: _, name: _, shaders } = self;
        let mut rest = shaders;
        assert(q@ =~= prefix + shader_deletes(pool0, gone));
        while rest.len() > 0
            invariant
                pool.entries@.len() == pool0.entries@.len(),
                self.held_in(pool0),
                forall|j: usize|
                    j < pool0.entries@.len() ==> (#[trigger] pool.entries@[j as int]).shader
                        == pool0.entries@[j as int].shader && pool.refs_of(j as int) + occurrences(
                        self.shaders@,
                        j,
                    ) == pool0.refs_of(j as int) + occurrences(rest@, j),
                forall|k: int|
                    0 <= k < rest@.len() ==> {
                        let i = #[trigger] rest@[k];
                        &&& i < pool.entries@.len()
                        &&& pool.refs_of(i as int) >= occurrences(rest@, i)
                    },
                rest@.len() <= self.shaders@.len(),
                rest@ == self.shaders@.subrange(0, rest@.len() as int),
                q@ == prefix + shader_deletes(pool0, gone),
                gone.no_duplicates(),
                forall|k: int| 0 <= k < gone.len() ==> #[trigger] gone[k] < pool0.entries@.len(),
                forall|j: usize|
                    j < pool0.entries@.len() ==> (#[trigger] gone.contains(j) <==> (occurrences(
                        self.shaders@,
                        j,
                    ) > occurrences(rest@, j) && pool.refs_of(j as int) == 0)),
            decreases rest@.len(),
        {
            let ghost before = rest@;
            let i = rest.pop().unwrap();
            assert(before.drop_last() == rest@);
            assert(before[before.len() - 1] == i);
            assert(rest@ =~= self.shaders@.subrange(0, rest@.len() as int));
            assert(self.shaders@[rest@.len() as int] == i);
            assert(occurrences(before, i) == occurrences(rest@, i) + 1);
            proof {
                lemma_occurs(self.shaders@, rest@.len() as int);
            }
            assert(!gone.contains(i));
            let ghost pb = *pool;
            let ghost gb = gone;
            pool.release(i, q);
            proof {
                if pb.refs_of(i as int) == 1 {
                    gone = gb.push(i);
                    assert(shader_deletes(pool0, gone) =~= shader_deletes(pool0, gb).push(
                        Command::DeleteShader { shader: pool0.handle(i as int) },
                    ));
                    assert(pool.entries@[i as int].shader == pool0.entries@[i as int].shader);
                    assert forall|a: int, b: int|
                        0 <= a < gone.len() && 0 <= b < gone.len() && a != b implies gone[a]
                        != gone[b] by {
                        if a < gb.len() && b < gb.len() {
                            assert(gone[a] == gb[a] && gone[b] == gb[b]);
                        } else if a < gb.len() {
                            assert(gone[a] == gb[a]);
                        } else if b < gb.len() {
                            assert(gone[b] == gb[b]);
                        }
                    }
                    assert forall|k: int| 0 <= k < gone.len() implies #[trigger] gone[k]
                        < pool0.entries@.len() by {
                        if k < gb.len() {
                            assert(gone[k] == gb[k]);
                        }
                    }
                }
                assert forall|j: usize| j < pool0.entries@.len() implies (#[trigger] gone.contains(j)
                    <==> (occurrences(self.shaders@, j) > occurrences(rest@, j) && pool.refs_of(
                    j as int,
                ) == 0)) by {
                    if j != i {
                        assert(pool.entries@[j as int] == pb.entries@[j as int]);
                        if pb.refs_of(i as int) == 1 {
                            if gb.contains(j) {
                                let k = choose|k: int| 0 <= k < gb.len() && gb[k] == j;
                                assert(gone[k] == j);
                            }
                            if gone.contains(j) {
                                let k = choose|k: int| 0 <= k < gone.len() && gone[k] == j;
                                assert(k < gb.len());
                                assert(gb[k] == j);
                            }
                        }
                        assert(gone.contains(j) == gb.contains(j));
                    } else {
                        assert(gone.contains(i) == (pb.refs_of(i as int) == 1)) by {
                            if pb.refs_of(i as int) == 1 {
                                assert(gone[gone.len() - 1] == i);
                            }
                        }
                    }
                }
            }
            assert forall|k: int| 0 <= k < rest@.len() implies {
                let x = #[trigger] rest@[k];
                &&& x < pool.entries@.len()
                &&& pool.refs_of(x as int) >= occurrences(rest@, x)
            } by {
                assert(rest@[k] == before[k]);
            }
        }
        assert(last_released(self.shaders@, pool0, *pool, gone));
        assert(q@.subrange(0, prefix.len() as int) =~= prefix);
        assert(q@.subrange(prefix.len() as int, q@.len() as int) =~= shader_deletes(pool0, gone));
    }
}

/// A program being assembled: shaders are attached, then it is linked.
pub struct ProgramNew {
    pub raw: RawProgram,
}

/// A linked program, ready for passes.
pub struct ProgramLinked {
    pub raw: RawProgram,
}

impl ProgramLinked {
    /// Starts a program on the handle `id` the backend created for it.
    pub fn new(id: u32) -> (r: ProgramNew)
        ensures
            r.raw.id == id,
            r.raw.name@ == Seq::<char>::empty(),
            r.raw.shaders@.len() == 0,
    {
        ProgramNew { raw: RawProgram::new(id) }
    }

    /// Activates the program and starts a pass on it.
    pub fn use_(&self, q: &mut Vec<Command>) -> (r: Result<Pass, Error>)
        ensures
            r matches Ok(p) && p.id == self.raw.id && p.attribs@.len() == 0 && p.first == 0
                && p.count == 0 && p.prim == Prim::Triangles && p.wf(),
            final(q)@ == old(q)@.push(Command::UseProgram { program: self.raw.id }),
    {
        Ok(Pass::new(q, self.raw.id))
    }

    pub fn name(&self) -> (r: &str)
        ensures
            r@ == self.raw.name@,
    {
        self.raw.name.as_str()
    }

    pub fn set_name(&mut self, name: &str)
        ensures
            final(self).raw.name@ == name@,
            final(self).raw.id == old(self).raw.id,
            final(self).raw.shaders == old(self).raw.shaders,
    {
        self.raw.name = name.to_owned();
    }

    pub fn id(&self) -> (r: u32)
        ensures
            r == self.raw.id,
    {
        self.raw.id
    }
}

impl ProgramNew {
    /// Attaches a compiled shader that only this program will hold: it
    /// enters `pool` with the program's reference as its only one.
    pub fn attach(self, pool: &mut ShaderPool, shader: ShaderCompiled) -> (r: ProgramNew)
        ensures
            final(pool).entries@.len() == old(pool).entries@.len() + 1,
            forall|j: int|
                0 <= j < old(pool).entries@.len() ==> final(pool).entries@[j] == old(
                    pool,
                ).entries@[j],
            final(pool).entries@.last().shader.raw == shader.raw,
            final(pool).refs_of(old(pool).entries@.len() as int) == 1,
            r.raw.id == self.raw.id,
            r.raw.name == self.raw.name,
            r.raw.shaders@ == self.raw.shaders@.push(old(pool).entries@.len() as usize),
    {
        let i = pool.share(shader);
        let mut p = self;
        p.raw.attach_shader(i);
        p
    }

    /// Attaches the pooled shader `i`, shared with its other holders: the
    /// program takes one more reference to it; nothing is recompiled.
    pub fn attach_rc(self, pool: &mut ShaderPool, i: usize) -> (r: ProgramNew)
        requires
            old(pool).live(i as int),
            old(pool).entries@[i as int].refs < usize::MAX,
        ensures
            final(pool).entries@.len() == old(pool).entries@.len(),
            forall|j: int|
                0 <= j < old(pool).entries@.len() && j != i ==> final(pool).entries@[j] == old(
                    pool,
                ).entries@[j],
            final(pool).entries@[i as int].shader == old(pool).entries@[i as int].shader,
            final(pool).refs_of(i as int) == old(pool).refs_of(i as int) + 1,
            r.raw.id == self.raw.id,
            r.raw.name == self.raw.name,
            r.raw.shaders@ == self.raw.shaders@.push(i),
    {
        pool.retain(i);
        let mut p = self;
        p.raw.attach_shader(i);
        p
    }

    /// Attaches every shader to the program object, in order, then asks
    /// the backend to link it.
    pub fn request_link(&self, q: &mut Vec<Command>, pool: &ShaderPool)
        requires
            forall|k: int|
                0 <= k < self.raw.shaders@.len() ==> #[trigger] self.raw.shaders@[k]
                    < pool.entries@.len(),
        ensures
            final(q)@ == (old(q)@ + attaches(self.raw.id, *pool, self.raw.shaders@)).push(
                Command::LinkProgram { program: self.raw.id },
            ),
    {
        let n = self.raw.shaders.len();
        let ghost q0 = q@;
        let mut k: usize = 0;
        while k < n
            invariant
                n == self.raw.shaders@.len(),
                0 <= k <= n,
                forall|m: int|
                    0 <= m < self.raw.shaders@.len() ==> #[trigger] self.raw.shaders@[m]
                        < pool.entries@.len(),
                q@ == q0 + attaches(self.raw.id, *pool, self.raw.shaders@.subrange(0, k as int)),
            decreases n - k,
        {
            let i = self.raw.shaders[k];
            let h = pool.id(i);
            q.push(Command::AttachShader { program: self.raw.id, shader: h });
            assert(self.raw.shaders@.subrange(0, k + 1) == self.raw.shaders@.subrange(0, k as int).push(
                i,
            ));
            k = k + 1;
        }
        assert(self.raw.shaders@.subrange(0, n as int) == self.raw.shaders@);
        q.push(Command::LinkProgram { program: self.raw.id });
    }

    /// Decides the outcome of linking from the backend's link status `linked`
    /// and its info log `log`. A program with no shaders follows the same
    /// rule: it links exactly when the backend says so. A program that fails
    /// to link is released, and its log comes back in the error.
    pub fn link(self, q: &mut Vec<Command>, pool: &mut ShaderPool, linked: bool, log: String) -> (r:
        Result<ProgramLinked, Error>)
        requires
            self.raw.held_in(*old(pool)),
        ensures
            linked <==> r is Ok,
            r matches Ok(p) ==> p.raw == self.raw,
            linked ==> final(q)@ == old(q)@ && *final(pool) == *old(pool),
            r matches Err(e) ==> e.kind == ErrorKind::Link && e.name == self.raw.name && e.message
                == log,
            !linked ==> self.raw.release_post(old(q)@, final(q)@, *old(pool), *final(pool)),
    {
        if linked {
            Ok(ProgramLinked { raw: self.raw })
        } else {
            let e = Error { kind: ErrorKind::Link, name: self.raw.name.clone(), message: log };
            self.raw.release(q, pool);
            Err(e)
        }
    }
}

/// Releasing a program never deletes the handle of a shader that another
/// holder still references: of the shaders a release deletes, none had more
/// references than the program held.
pub proof fn lemma_shared_shader_kept(
    p: RawProgram,
    q0: Seq<Command>,
    q1: Seq<Command>,
    p0: ShaderPool,
    p1: ShaderPool,
    j: usize,
)
    requires
        p.release_post(q0, q1, p0, p1),
        j < p0.entries@.len(),
        p0.refs_of(j as int) > occurrences(p.shaders@, j),
    ensures
        p1.refs_of(j as int) > 0,
        forall|gone: Seq<usize>| #[trigger]
            last_released(p.shaders@, p0, p1, gone) ==> !gone.contains(j),
{
    assert(p1.entries@[j as int] == p1.entries@[j as int]);
}

/// Once no reference to a pooled shader is left (its handle is released),
/// no program whose references the pool accounts for still holds it, so no
/// later release deletes that handle again.
pub proof fn lemma_released_shader_unheld(p: RawProgram, pool: ShaderPool, j: usize)
    requires
        p.held_in(pool),
        j < pool.entries@.len(),
        pool.refs_of(j as int) == 0,
    ensures
        !p.shaders@.contains(j),
{
    if p.shaders@.contains(j) {
        let k = choose|k: int| 0 <= k < p.shaders@.len() && p.shaders@[k] == j;
        lemma_occurs(p.shaders@, k);
    }
}

} // verus!
