use framework::mesh::{DrawRun, Mesh, DRAWN_VERTICES};
use framework::protocol::{Command, Fault, Progress, Reply};

fn bits(x: f32) -> u32 {
    x.to_bits()
}

fn rectangle() -> Mesh {
    let mut mesh = Mesh::new();
    mesh.clear();
    let (l, r, t, b) = (bits(-1.0), bits(1.0), bits(-1.0), bits(1.0));
    let z = bits(0.0);
    mesh.add_vertex(l, t, z);
    mesh.add_vertex(r, t, z);
    mesh.add_vertex(l, b, z);
    mesh.add_vertex(l, b, z);
    mesh.add_vertex(r, t, z);
    mesh.add_vertex(r, b, z);
    mesh
}

fn issued(p: Progress<()>) -> Vec<Command> {
    match p {
        Progress::Issue(calls) => calls,
        _ => panic!("expected more commands"),
    }
}

fn finished(p: Progress<()>) -> Vec<Command> {
    match p {
        Progress::Finish(calls, ()) => calls,
        _ => panic!("expected the end"),
    }
}

#[test]
fn new_mesh_is_empty() {
    let mesh = Mesh::new();
    assert!(mesh.coordinates().is_empty());
}

#[test]
fn add_vertex_appends_three_coordinates_in_order() {
    let mut mesh = Mesh::new();
    mesh.add_vertex(1, 2, 3);
    mesh.add_vertex(4, 5, 6);
    assert_eq!(mesh.coordinates(), &[1, 2, 3, 4, 5, 6]);
}

#[test]
fn add_vertex_keeps_float_bits() {
    let mut mesh = Mesh::new();
    mesh.add_vertex(bits(0.5), bits(-2.25), bits(1e-3));
    let c = mesh.coordinates();
    assert_eq!(f32::from_bits(c[0]), 0.5);
    assert_eq!(f32::from_bits(c[1]), -2.25);
    assert_eq!(f32::from_bits(c[2]), 1e-3);
}

#[test]
fn clear_removes_every_vertex() {
    let mut mesh = rectangle();
    assert_eq!(mesh.coordinates().len(), 18);
    mesh.clear();
    assert!(mesh.coordinates().is_empty());
    mesh.add_vertex(7, 8, 9);
    assert_eq!(mesh.coordinates(), &[7, 8, 9]);
}

#[test]
fn whole_vertices_always() {
    let mut mesh = Mesh::new();
    for i in 0..5u32 {
        mesh.add_vertex(i, i + 1, i + 2);
        assert_eq!(mesh.coordinates().len() % 3, 0);
        assert_eq!(mesh.coordinates().len(), 3 * (i as usize + 1));
    }
}

#[test]
fn draw_issues_the_whole_trace() {
    let mesh = rectangle();
    let (mut run, first): (DrawRun, Vec<Command>) = mesh.draw();
    assert_eq!(first, vec![Command::GenBuffer]);
    let upload = issued(run.step(Reply::Object(5)));
    assert_eq!(
        upload,
        vec![
            Command::BindArrayBuffer { buffer: 5 },
            Command::UploadVertices { byte_len: 72 },
            Command::BindArrayBuffer { buffer: 0 },
            Command::GenVertexArray,
        ]
    );
    let render = finished(run.step(Reply::Object(9)));
    assert_eq!(
        render,
        vec![
            Command::BindVertexArray { array: 9 },
            Command::BindArrayBuffer { buffer: 5 },
            Command::EnableVertexAttribArray { index: 0 },
            Command::FloatAttribPointer { index: 0, components: 3, stride: 12, offset: 0 },
            Command::BindArrayBuffer { buffer: 0 },
            Command::BindVertexArray { array: 0 },
            Command::BindVertexArray { array: 9 },
            Command::DrawTriangles { first: 0, count: 6 },
            Command::BindVertexArray { array: 0 },
        ]
    );
}

#[test]
fn draw_renders_six_vertices_whatever_the_mesh_holds() {
    let mut mesh = Mesh::new();
    mesh.add_vertex(1, 2, 3);
    let (mut run, _) = mesh.draw();
    let upload = issued(run.step(Reply::Object(1)));
    assert_eq!(upload[1], Command::UploadVertices { byte_len: 12 });
    let render = finished(run.step(Reply::Object(2)));
    assert!(render.contains(&Command::DrawTriangles { first: 0, count: DRAWN_VERTICES }));
    assert_eq!(DRAWN_VERTICES, 6);
}

#[test]
fn draw_of_an_empty_mesh_uploads_nothing() {
    let mesh = Mesh::new();
    let (mut run, _) = mesh.draw();
    let upload = issued(run.step(Reply::Object(3)));
    assert_eq!(upload[1], Command::UploadVertices { byte_len: 0 });
}

#[test]
fn draw_faults_on_a_wrong_reply() {
    let mesh = rectangle();
    let (mut run, _) = mesh.draw();
    match run.step(Reply::Int(4)) {
        Progress::Fault(f) => assert_eq!(f, Fault::UnexpectedReply),
        _ => panic!("expected a fault"),
    }
    match run.step(Reply::Object(4)) {
        Progress::Fault(f) => assert_eq!(f, Fault::UnexpectedReply),
        _ => panic!("a finished draw takes no more replies"),
    }
}
