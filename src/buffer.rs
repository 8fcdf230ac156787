use vstd::prelude::*;

use crate::command::Command;

verus! {

/// A vertex buffer of the backend: its handle, and how many floats make up
/// one element of an attribute read from it.
pub struct Buffer {
    pub id: u32,
    pub dim: i32,
}

impl Buffer {
    /// Wraps the handle `id` that the backend allocated for a new buffer.
    pub fn new(id: u32, dim: i32) -> (r: Buffer)
        requires
            1 <= dim <= 4,
        ensures
            r.id == id,
            r.dim == dim,
    {
        Buffer { id, dim }
    }

    pub fn bind(&self, q: &mut Vec<Command>)
        ensures
            final(q)@ == old(q)@.push(Command::BindBuffer { buffer: self.id }),
    {
        q.push(Command::BindBuffer { buffer: self.id });
    }

    pub fn unbind(q: &mut Vec<Command>)
        ensures
            final(q)@ == old(q)@.push(Command::BindBuffer { buffer: 0 }),
    {
        q.push(Command::BindBuffer { buffer: 0 });
    }

    /// Replaces the buffer's content with `data`: bind, upload, unbind.
    pub fn load_float(&mut self, q: &mut Vec<Command>, data: Vec<u32>)
        ensures
            *final(self) == *old(self),
            final(q)@ == old(q)@.push(Command::BindBuffer { buffer: old(self).id }).push(
                Command::BufferData { data },
            ).push(Command::BindBuffer { buffer: 0 }),
    {
        self.bind(q);
        q.push(Command::BufferData { data });
        Self::unbind(q);
    }

    /// Releases the buffer's handle.
    pub fn release(self, q: &mut Vec<Command>)
        ensures
            final(q)@ == old(q)@.push(Command::DeleteBuffer { buffer: self.id }),
    {
        q.push(Command::DeleteBuffer { buffer: self.id });
    }
}

} // verus!
