use glpass::buffer::Buffer;
use glpass::command::{Command, Prim};
use glpass::error::{Error, ErrorKind, LocationKind};
use glpass::pass::Pass;
use glpass::program::{ProgramLinked, ProgramNew};
use glpass::shader::{ShaderCompiled, ShaderPool, Type};

fn bits(v: &[f32]) -> Vec<u32> {
    v.iter().map(|x| x.to_bits()).collect()
}

fn compiled(q: &mut Vec<Command>, t: Type, id: u32) -> ShaderCompiled {
    let loaded = ShaderCompiled::new(t, id).load_str(q, "void main(){}");
    match loaded.compile(q, true, String::new()) {
        Ok((s, _)) => s,
        Err(_) => panic!("compile failed"),
    }
}

fn linked(prog: ProgramNew, pool: &mut ShaderPool) -> ProgramLinked {
    let mut q: Vec<Command> = Vec::new();
    match prog.link(&mut q, pool, true, String::new()) {
        Ok(p) => p,
        Err(_) => panic!("link failed"),
    }
}

#[test]
fn end_to_end_draw() {
    let mut q: Vec<Command> = Vec::new();
    let mut pool = ShaderPool::new();
    let vs = compiled(&mut q, Type::Vertex, 1);
    let fs = compiled(&mut q, Type::Fragment, 2);
    assert_eq!(
        q,
        vec![
            Command::ShaderSource { shader: 1, source: "void main(){}".to_string() },
            Command::ShaderSource { shader: 2, source: "void main(){}".to_string() },
        ]
    );
    let prog = ProgramLinked::new(10).attach(&mut pool, vs).attach(&mut pool, fs);
    q.clear();
    prog.request_link(&mut q, &pool);
    assert_eq!(
        q,
        vec![
            Command::AttachShader { program: 10, shader: 1 },
            Command::AttachShader { program: 10, shader: 2 },
            Command::LinkProgram { program: 10 },
        ]
    );
    let prog = linked(prog, &mut pool);

    let mut buf = Buffer::new(20, 3);
    let data = bits(&[0.0, 0.0, 0.0, 1.0, 0.0, 0.0, 0.0, 1.0, 0.0]);
    q.clear();
    buf.load_float(&mut q, data.clone());
    assert_eq!(
        q,
        vec![
            Command::BindBuffer { buffer: 20 },
            Command::BufferData { data },
            Command::BindBuffer { buffer: 0 },
        ]
    );

    q.clear();
    let pass = prog.use_(&mut q).ok().unwrap();
    let pass = pass.attribute(&mut q, "pos", 5, &buf).ok().unwrap();
    let pass = pass.range(0, 3).primitive(Prim::Triangles);
    pass.draw(&mut q).ok().unwrap();
    assert_eq!(
        q,
        vec![
            Command::UseProgram { program: 10 },
            Command::EnableAttrib { location: 5 },
            Command::BindBuffer { buffer: 20 },
            Command::AttribPointer { location: 5, components: 3 },
            Command::BindBuffer { buffer: 0 },
            Command::DrawArrays { prim: Prim::Triangles, first: 0, count: 3 },
            Command::DisableAttrib { location: 5 },
            Command::UseProgram { program: 0 },
        ]
    );
    let draws = q.iter().filter(|c| matches!(c, Command::DrawArrays { .. })).count();
    assert_eq!(draws, 1);
}

#[test]
fn pass_defaults() {
    let mut q: Vec<Command> = Vec::new();
    let pass = Pass::new(&mut q, 4);
    assert_eq!(pass.first, 0);
    assert_eq!(pass.count, 0);
    assert_eq!(pass.prim, Prim::Triangles);
    pass.range(1, 2).range(3, 6).primitive(Prim::Quads).draw(&mut q).ok().unwrap();
    assert_eq!(
        q,
        vec![
            Command::UseProgram { program: 4 },
            Command::DrawArrays { prim: Prim::Quads, first: 3, count: 6 },
            Command::UseProgram { program: 0 },
        ]
    );
}

#[test]
fn duplicate_attribute_disabled_twice() {
    let mut q: Vec<Command> = Vec::new();
    let buf = Buffer::new(7, 2);
    let pass = Pass::new(&mut q, 1);
    let pass = pass.attribute(&mut q, "uv", 2, &buf).ok().unwrap();
    let pass = pass.attribute(&mut q, "uv", 2, &buf).ok().unwrap();
    let pass = pass.attribute(&mut q, "pos", 0, &buf).ok().unwrap();
    assert_eq!(pass.attribs, vec![2, 2, 0]);
    q.clear();
    pass.draw(&mut q).ok().unwrap();
    assert_eq!(
        q,
        vec![
            Command::DrawArrays { prim: Prim::Triangles, first: 0, count: 0 },
            Command::DisableAttrib { location: 2 },
            Command::DisableAttrib { location: 2 },
            Command::DisableAttrib { location: 0 },
            Command::UseProgram { program: 0 },
        ]
    );
}

#[test]
fn uniform_uploads() {
    let mut q: Vec<Command> = Vec::new();
    let pass = Pass::new(&mut q, 1);
    q.clear();
    let pass = pass.uniform_scalar(&mut q, "t", 3, 1.5f32.to_bits()).ok().unwrap();
    let pass = pass.uniform_vector(&mut q, "c", 4, bits(&[1.0, 0.5])).ok().unwrap();
    let m = bits(&[1.0, 0.0, 0.0, 0.0, 1.0, 0.0, 0.0, 0.0, 1.0]);
    let _pass = pass.uniform_matrix(&mut q, "m", 6, m.clone()).ok().unwrap();
    assert_eq!(
        q,
        vec![
            Command::UniformVector { location: 3, data: vec![1.5f32.to_bits()] },
            Command::UniformVector { location: 4, data: bits(&[1.0, 0.5]) },
            Command::UniformMatrix { location: 6, data: m },
        ]
    );
}

fn expect_err(r: Result<Pass, Error>) -> Error {
    match r {
        Ok(_) => panic!("expected an error"),
        Err(e) => e,
    }
}

#[test]
fn uniform_vector_rejects_lengths() {
    for n in [0usize, 5, 16] {
        let mut q: Vec<Command> = Vec::new();
        let pass = Pass::new(&mut q, 1);
        q.clear();
        let e = expect_err(pass.uniform_vector(&mut q, "v", 2, vec![0u32; n]));
        assert_eq!(e.kind, ErrorKind::InvalidArity(n));
        assert_eq!(e.name, "v");
        assert!(q.is_empty());
    }
}

#[test]
fn uniform_matrix_rejects_lengths() {
    for n in [0usize, 1, 3, 8, 10, 15, 17] {
        let mut q: Vec<Command> = Vec::new();
        let pass = Pass::new(&mut q, 1);
        q.clear();
        let e = expect_err(pass.uniform_matrix(&mut q, "m", 2, vec![0u32; n]));
        assert_eq!(e.kind, ErrorKind::InvalidArity(n));
        assert!(q.is_empty());
    }
}

#[test]
fn unknown_uniform_is_location_error() {
    let mut q: Vec<Command> = Vec::new();
    let pass = Pass::new(&mut q, 1);
    q.clear();
    let e = expect_err(pass.uniform_scalar(&mut q, "nope", -1, 0));
    assert_eq!(e.kind, ErrorKind::Location(LocationKind::Uniform));
    assert_eq!(e.name, "nope");
    assert!(q.is_empty());
}

#[test]
fn unknown_attribute_is_location_error() {
    let mut q: Vec<Command> = Vec::new();
    let buf = Buffer::new(3, 3);
    let pass = Pass::new(&mut q, 1);
    q.clear();
    let e = expect_err(pass.attribute(&mut q, "missing", -1, &buf));
    assert_eq!(e.kind, ErrorKind::Location(LocationKind::Attribute));
    assert_eq!(e.name, "missing");
    assert!(q.is_empty());
}

#[test]
fn failed_compile_keeps_log() {
    let mut q: Vec<Command> = Vec::new();
    let loaded = ShaderCompiled::new(Type::Fragment, 9).load_named(&mut q, "frag.glsl", "bad");
    q.clear();
    loaded.request_compile(&mut q);
    assert_eq!(q, vec![Command::CompileShader { shader: 9 }]);
    q.clear();
    match loaded.compile(&mut q, false, "0:1: syntax error".to_string()) {
        Ok(_) => panic!("compile should fail"),
        Err((e, log)) => {
            assert_eq!(q, vec![Command::DeleteShader { shader: 9 }]);
            assert_eq!(e.kind, ErrorKind::Compile);
            assert_eq!(e.name, "frag.glsl");
            assert_eq!(e.description(), "0:1: syntax error");
            assert_eq!(log, "0:1: syntax error");
        }
    }
}

#[test]
fn compile_returns_log_on_success() {
    let mut q: Vec<Command> = Vec::new();
    let loaded = ShaderCompiled::new(Type::Vertex, 3).load_named(&mut q, "v.glsl", "x");
    q.clear();
    let (s, log) = loaded.compile(&mut q, true, "warning".to_string()).ok().unwrap();
    assert!(q.is_empty());
    assert_eq!(log, "warning");
    assert_eq!(s.id(), 3);
    assert_eq!(s.name(), "v.glsl");
}

#[test]
fn empty_program_link_failure() {
    let mut q: Vec<Command> = Vec::new();
    let mut pool = ShaderPool::new();
    let prog = ProgramLinked::new(8);
    prog.request_link(&mut q, &pool);
    assert_eq!(q, vec![Command::LinkProgram { program: 8 }]);
    q.clear();
    match prog.link(&mut q, &mut pool, false, String::new()) {
        Ok(_) => panic!("link should fail"),
        Err(e) => {
            assert_eq!(e.kind, ErrorKind::Link);
            assert_eq!(e.description(), "");
            assert_eq!(q, vec![Command::DeleteProgram { program: 8 }]);
        }
    }
}

#[test]
fn failed_link_releases_program() {
    let mut q: Vec<Command> = Vec::new();
    let mut pool = ShaderPool::new();
    let vs = compiled(&mut q, Type::Vertex, 1);
    let i = pool.share(vs);
    let mut prog = ProgramLinked::new(12).attach_rc(&mut pool, i);
    prog.raw.name = "sky".to_string();
    q.clear();
    match prog.link(&mut q, &mut pool, false, "missing main".to_string()) {
        Ok(_) => panic!("link should fail"),
        Err(e) => {
            assert_eq!(e.kind, ErrorKind::Link);
            assert_eq!(e.name, "sky");
            assert_eq!(e.description(), "missing main");
        }
    }
    assert_eq!(
        q,
        vec![
            Command::DetachShader { program: 12, shader: 1 },
            Command::DeleteProgram { program: 12 },
        ]
    );
    assert_eq!(pool.refs(i), 1);
}

#[test]
fn new_pass_draws_triangles() {
    let mut q: Vec<Command> = Vec::new();
    let mut pool = ShaderPool::new();
    let p = linked(ProgramLinked::new(2), &mut pool);
    let pass = p.use_(&mut q).ok().unwrap();
    assert_eq!(pass.prim, Prim::Triangles);
    assert_eq!(q, vec![Command::UseProgram { program: 2 }]);
}

#[test]
fn shared_shader_released_once() {
    let mut q: Vec<Command> = Vec::new();
    let mut pool = ShaderPool::new();
    let vs = compiled(&mut q, Type::Vertex, 1);
    let i = pool.share(vs);
    let a = ProgramLinked::new(10).attach_rc(&mut pool, i);
    let a = linked(a, &mut pool);
    let b = ProgramLinked::new(11).attach_rc(&mut pool, i);
    let b = linked(b, &mut pool);
    assert_eq!(pool.refs(i), 3);
    q.clear();
    pool.release(i, &mut q);
    assert!(q.is_empty());
    a.raw.release(&mut q, &mut pool);
    assert_eq!(
        q,
        vec![
            Command::DetachShader { program: 10, shader: 1 },
            Command::DeleteProgram { program: 10 },
        ]
    );
    assert_eq!(pool.refs(i), 1);
    q.clear();
    b.raw.release(&mut q, &mut pool);
    assert_eq!(
        q,
        vec![
            Command::DetachShader { program: 11, shader: 1 },
            Command::DeleteProgram { program: 11 },
            Command::DeleteShader { shader: 1 },
        ]
    );
    assert_eq!(pool.refs(i), 0);
}

#[test]
fn program_releases_own_shaders() {
    let mut q: Vec<Command> = Vec::new();
    let mut pool = ShaderPool::new();
    let vs = compiled(&mut q, Type::Vertex, 1);
    let fs = compiled(&mut q, Type::Fragment, 2);
    let p = ProgramLinked::new(5).attach(&mut pool, vs).attach(&mut pool, fs);
    let mut p = linked(p, &mut pool);
    p.set_name("main");
    assert_eq!(p.name(), "main");
    assert_eq!(p.id(), 5);
    q.clear();
    p.raw.release(&mut q, &mut pool);
    assert_eq!(
        q,
        vec![
            Command::DetachShader { program: 5, shader: 1 },
            Command::DetachShader { program: 5, shader: 2 },
            Command::DeleteProgram { program: 5 },
            Command::DeleteShader { shader: 2 },
            Command::DeleteShader { shader: 1 },
        ]
    );
}

#[test]
fn unshared_objects_release() {
    let mut q: Vec<Command> = Vec::new();
    Buffer::new(4, 1).release(&mut q);
    ShaderCompiled::new(Type::Vertex, 6).raw.release(&mut q);
    assert_eq!(q, vec![Command::DeleteBuffer { buffer: 4 }, Command::DeleteShader { shader: 6 }]);
}

#[test]
fn error_new_message() {
    let e = Error::new("shader.vert: not found".to_string());
    assert_eq!(e.kind, ErrorKind::Message);
    assert_eq!(e.description(), "shader.vert: not found");
    assert_eq!(e.name, "");
}
