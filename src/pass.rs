use vstd::prelude::*;

use crate::buffer::Buffer;
use crate::command::{Command, Prim};
use crate::error::{Error, ErrorKind, LocationKind};

verus! {

/// One draw invocation of a linked program: the attribute locations it
/// enabled, in order, and the draw parameters.
pub struct Pass {
    pub id: u32,
    pub attribs: Vec<i32>,
    pub first: i32,
    pub count: i32,
    pub prim: Prim,
}

/// The commands that disable each of `locs`, in order.
pub open spec fn disables(locs: Seq<i32>) -> Seq<Command> {
    locs.map_values(|l: i32| Command::DisableAttrib { location: l as u32 })
}

/// The data lengths that a vector upload takes.
pub open spec fn vector_arity(n: nat) -> bool {
    1 <= n <= 4
}

/// The data lengths that a square matrix upload takes: 2x2, 3x3 and 4x4.
pub open spec fn matrix_arity(n: nat) -> bool {
    n == 4 || n == 9 || n == 16
}

/// The commands that bind `buffer` to the attribute at `location`.
pub open spec fn binds_attribute(location: i32, buffer: Buffer) -> Seq<Command> {
    seq![
        Command::EnableAttrib { location: location as u32 },
        Command::BindBuffer { buffer: buffer.id },
        Command::AttribPointer { location: location as u32, components: buffer.dim },
        Command::BindBuffer { buffer: 0 },
    ]
}

/// `c` uploads the vector `data` to the uniform at `location`.
pub open spec fn uploads_vector(c: Command, location: i32, data: Seq<u32>) -> bool {
    match c {
        Command::UniformVector { location: l, data: d } => l == location && d@ == data,
        _ => false,
    }
}

impl Pass {
    /// Every recorded location was a resolved one.
    pub open spec fn wf(&self) -> bool {
        forall|k: int| 0 <= k < self.attribs@.len() ==> self.attribs@[k] >= 0
    }

    /// Activates program `id` and starts a pass on it, with no attribute,
    /// an empty range and triangles.
    pub fn new(q: &mut Vec<Command>, id: u32) -> (r: Pass)
        ensures
            final(q)@ == old(q)@.push(Command::UseProgram { program: id }),
            r.id == id,
            r.attribs@.len() == 0,
            r.first == 0,
            r.count == 0,
            r.prim == Prim::Triangles,
            r.wf(),
    {
        q.push(Command::UseProgram { program: id });
        Pass { id, attribs: Vec::new(), first: 0, count: 0, prim: Prim::Triangles }
    }

    /// Uploads one float (its bits `value`) to uniform `name`, which the
    /// backend resolved to `location` (negative: no such active uniform).
    pub fn uniform_scalar(self, q: &mut Vec<Command>, name: &str, location: i32, value: u32) -> (r:
        Result<Pass, Error>)
        ensures
            location >= 0 <==> r is Ok,
            r matches Ok(p) ==> p == self && final(q)@.len() == old(q)@.len() + 1
                && final(q)@.drop_last() == old(q)@ && uploads_vector(
                final(q)@.last(),
                location,
                seq![value],
            ),
            r matches Err(e) ==> e.kind == ErrorKind::Location(LocationKind::Uniform) && e.name@
                == name@ && final(q)@ == old(q)@,
    {
        if location < 0 {
            return Err(Error::location(LocationKind::Uniform, name));
        }
        let data = vec![value];
        assert(data@ == seq![value]);
        q.push(Command::UniformVector { location, data });
        Ok(self)
    }

    /// Uploads `data` (1 to 4 floats) to uniform `name`, resolved to `location`.
    /// A length outside 1..=4 is rejected first, then an unresolved name;
    /// a rejected call issues no command.
    pub fn uniform_vector(self, q: &mut Vec<Command>, name: &str, location: i32, data: Vec<u32>) -> (r:
        Result<Pass, Error>)
        ensures
            (vector_arity(data@.len()) && location >= 0) <==> r is Ok,
            r matches Ok(p) ==> p == self && final(q)@ == old(q)@.push(
                Command::UniformVector { location, data },
            ),
            r matches Err(e) ==> e.name@ == name@ && final(q)@ == old(q)@,
            r matches Err(e) ==> (!vector_arity(data@.len()) ==> e.kind == ErrorKind::InvalidArity(
                data@.len() as usize,
            )),
            r matches Err(e) ==> (vector_arity(data@.len()) ==> e.kind == ErrorKind::Location(
                LocationKind::Uniform,
            )),
    {
        let n = data.len();
        if n < 1 || n > 4 {
            return Err(Error::arity(name, n));
        }
        if location < 0 {
            return Err(Error::location(LocationKind::Uniform, name));
        }
        q.push(Command::UniformVector { location, data });
        Ok(self)
    }

    /// Uploads the row-major square matrix `data` (4, 9 or 16 floats) to
    /// uniform `name`, resolved to `location`. A length outside {4, 9, 16} is
    /// rejected first, then an unresolved name; a rejected call issues no command.
    pub fn uniform_matrix(self, q: &mut Vec<Command>, name: &str, location: i32, data: Vec<u32>) -> (r:
        Result<Pass, Error>)
        ensures
            (matrix_arity(data@.len()) && location >= 0) <==> r is Ok,
            r matches Ok(p) ==> p == self && final(q)@ == old(q)@.push(
                Command::UniformMatrix { location, data },
            ),
            r matches Err(e) ==> e.name@ == name@ && final(q)@ == old(q)@,
            r matches Err(e) ==> (!matrix_arity(data@.len()) ==> e.kind == ErrorKind::InvalidArity(
                data@.len() as usize,
            )),
            r matches Err(e) ==> (matrix_arity(data@.len()) ==> e.kind == ErrorKind::Location(
                LocationKind::Uniform,
            )),
    {
        let n = data.len();
        if n != 4 && n != 9 && n != 16 {
            return Err(Error::arity(name, n));
        }
        if location < 0 {
            return Err(Error::location(LocationKind::Uniform, name));
        }
        q.push(Command::UniformMatrix { location, data });
        Ok(self)
    }

    /// Binds `buffer` to attribute `name`, resolved to `location`: enables
    /// the attribute, describes the buffer as its source and records the
    /// location for `draw` to disable. An unresolved name issues no command.
    pub fn attribute(self, q: &mut Vec<Command>, name: &str, location: i32, buffer: &Buffer) -> (r:
        Result<Pass, Error>)
        requires
            self.wf(),
        ensures
            location >= 0 <==> r is Ok,
            r matches Ok(p) ==> p.id == self.id && p.first == self.first && p.count == self.count
                && p.prim == self.prim && p.attribs@ == self.attribs@.push(location) && p.wf()
                && final(q)@ == old(q)@ + binds_attribute(location, *buffer),
            r matches Err(e) ==> e.kind == ErrorKind::Location(LocationKind::Attribute) && e.name@
                == name@ && final(q)@ == old(q)@,
    {
        if location < 0 {
            return Err(Error::location(LocationKind::Attribute, name));
        }
        let mut p = self;
        p.attribs.push(location);
        let l = location as u32;
        q.push(Command::EnableAttrib { location: l });
        buffer.bind(q);
        q.push(Command::AttribPointer { location: l, components: buffer.dim });
        Buffer::unbind(q);
        assert(final(q)@ == old(q)@ + binds_attribute(location, *buffer));
        Ok(p)
    }

    /// Sets the vertex range to draw: `count` vertices from `first`.
    pub fn range(self, first: i32, count: i32) -> (r: Pass)
        ensures
            r.id == self.id && r.attribs == self.attribs && r.prim == self.prim,
            r.first == first && r.count == count,
    {
        let mut p = self;
        p.first = first;
        p.count = count;
        p
    }

    /// Sets the primitive topology to draw.
    pub fn primitive(self, prim: Prim) -> (r: Pass)
        ensures
            r.id == self.id && r.attribs == self.attribs && r.first == self.first && r.count
                == self.count,
            r.prim == prim,
    {
        let mut p = self;
        p.prim = prim;
        p
    }

    /// Issues the draw call, then disables every recorded attribute in the
    /// order recorded, then deactivates the program. Never fails.
    pub fn draw(self, q: &mut Vec<Command>) -> (r: Result<(), Error>)
        ensures
            r is Ok,
            final(q)@ == (old(q)@.push(
                Command::DrawArrays { prim: self.prim, first: self.first, count: self.count },
            ) + disables(self.attribs@)).push(Command::UseProgram { program: 0 }),
    {
        q.push(Command::DrawArrays { prim: self.prim, first: self.first, count: self.count });
        let ghost start = q@;
        let n = self.attribs.len();
        let mut k: usize = 0;
        while k < n
            invariant
                n == self.attribs@.len(),
                0 <= k <= n,
                q@ == start + disables(self.attribs@.subrange(0, k as int)),
            decreases n - k,
        {
            let l = self.attribs[k];
            q.push(Command::DisableAttrib { location: l as u32 });
            assert(self.attribs@.subrange(0, k + 1) == self.attribs@.subrange(0, k as int).push(l));
            assert(disables(self.attribs@.subrange(0, k + 1)) == disables(
                self.attribs@.subrange(0, k as int),
            ).push(Command::DisableAttrib { location: l as u32 }));
            k = k + 1;
        }
        assert(self.attribs@.subrange(0, n as int) == self.attribs@);
        q.push(Command::UseProgram { program: 0 });
        Ok(())
    }
}

} // verus!
