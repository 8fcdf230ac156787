use vstd::prelude::*;

verus! {

/// Which kind of name a program failed to resolve.
#[derive(Clone, Copy, Debug, PartialEq, Eq, Structural)]
pub enum LocationKind {
    Uniform,
    Attribute,
}

/// What went wrong.
#[derive(Clone, Copy, Debug, PartialEq, Eq, Structural)]
pub enum ErrorKind {
    /// A plain message, such as a failure to read shader source.
    Message,
    /// A shader failed to compile.
    Compile,
    /// A program failed to link.
    Link,
    /// A program has no active uniform or attribute of that name.
    Location(LocationKind),
    /// Uniform data of a length that no upload call takes.
    InvalidArity(usize),
}

/// An error: its kind, the name of the object or variable concerned, and
/// the diagnostic text (a backend log, or a message).
#[derive(Debug)]
pub struct Error {
    pub kind: ErrorKind,
    pub name: String,
    pub message: String,
}

impl Error {
    pub fn new(msg: String) -> (r: Error)
        ensures
            r.kind == ErrorKind::Message,
            r.name@ == Seq::<char>::empty(),
            r.message@ == msg@,
    {
        Error { kind: ErrorKind::Message, name: String::new(), message: msg }
    }

    /// The failure to resolve `name` as a uniform or attribute.
    pub fn location(kind: LocationKind, name: &str) -> (r: Error)
        ensures
            r.kind == ErrorKind::Location(kind),
            r.name@ == name@,
            r.message@ == Seq::<char>::empty(),
    {
        Error { kind: ErrorKind::Location(kind), name: name.to_owned(), message: String::new() }
    }

    /// Uniform data of `got` values handed for `name`, a length that no upload call takes.
    pub fn arity(name: &str, got: usize) -> (r: Error)
        ensures
            r.kind == ErrorKind::InvalidArity(got),
            r.name@ == name@,
            r.message@ == Seq::<char>::empty(),
    {
        Error { kind: ErrorKind::InvalidArity(got), name: name.to_owned(), message: String::new() }
    }

    /// The diagnostic text of the error.
    pub fn description(&self) -> (r: &str)
        ensures
            r@ == self.message@,
    {
        self.message.as_str()
    }
}

} // verus!
