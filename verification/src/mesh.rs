//! Triangle meshes: a flat list of vertex coordinates, drawn through a
//! vertex buffer and a vertex array.
use vstd::prelude::*;

use crate::protocol::{Command, Fault, Progress, ProgressView, Reply, ReplyView};

verus! {

/// Bytes in one coordinate (a 32-bit float) as it is uploaded.
pub const FLOAT_BYTES: usize = 4;

/// Coordinates per vertex.
pub const COMPONENTS_PER_VERTEX: i32 = 3;

/// Bytes from one vertex to the next in the uploaded buffer.
pub const VERTEX_STRIDE: i32 = 12;

/// Vertices a draw renders, whatever the mesh holds: two triangles.
pub const DRAWN_VERTICES: i32 = 6;

/// A list of vertices, three coordinates each. Every coordinate is held as
/// the bit pattern of the 32-bit float it stands for, which is what is
/// uploaded to the driver.
pub struct Mesh {
    vertices: Vec<u32>,
}

impl View for Mesh {
    type V = Seq<u32>;

    closed spec fn view(&self) -> Seq<u32> {
        self.vertices@
    }
}

impl Mesh {
    #[verifier::type_invariant]
    closed spec fn whole_vertices(self) -> bool {
        self.vertices@.len() % 3 == 0
    }

    /// An empty mesh.
    pub fn new() -> (mesh: Mesh)
        ensures
            mesh@ == Seq::<u32>::empty(),
    {
        Mesh { vertices: Vec::new() }
    }

    /// Removes every vertex.
    pub fn clear(&mut self)
        ensures
            final(self)@ == Seq::<u32>::empty(),
    {
        let mut vertices: Vec<u32> = Vec::new();
        std::mem::swap(&mut vertices, &mut self.vertices);
        vertices.clear();
        self.vertices = vertices;
    }

    /// Appends the vertex (`x`, `y`, `z`).
    pub fn add_vertex(&mut self, x: u32, y: u32, z: u32)
        ensures
            final(self)@ == old(self)@ + seq![x, y, z],
            final(self)@.len() % 3 == 0,
    {
        proof {
            use_type_invariant(&*self);
        }
        let mut vertices: Vec<u32> = Vec::new();
        std::mem::swap(&mut vertices, &mut self.vertices);
        vertices.push(x);
        vertices.push(y);
        vertices.push(z);
        assert(vertices@ =~= old(self)@ + seq![x, y, z]);
        self.vertices = vertices;
    }

    /// The coordinates, three per vertex, in the order they were added.
    pub fn coordinates(&self) -> (coords: &[u32])
        ensures
            coords@ == self@,
            coords@.len() % 3 == 0,
    {
        proof {
            use_type_invariant(self);
        }
        self.vertices.as_slice()
    }

    /// Starts drawing the mesh: the coordinates go into a fresh vertex
    /// buffer, described by a fresh vertex array as one attribute of three
    /// floats per vertex, and six vertices are drawn as triangles. Neither
    /// object is deleted afterwards.
    pub fn draw(&self) -> (r: (DrawRun, Vec<Command>))
        requires
            self@.len() * FLOAT_BYTES <= isize::MAX,
        ensures
            r.0.stage() == DrawStage::AwaitBuffer,
            r.0.coordinates() == self@,
            r.0.byte_len() == self@.len() * FLOAT_BYTES,
            r.1@ == seq![Command::GenBuffer],
    {
        let byte_len: isize = (self.vertices.len() * FLOAT_BYTES) as isize;
        let mut calls: Vec<Command> = Vec::new();
        calls.push(Command::GenBuffer);
        (
            DrawRun {
                stage: DrawStage::AwaitBuffer,
                byte_len,
                coordinates: Ghost(self.vertices@),
            },
            calls,
        )
    }
}

/// Where a draw stands.
#[derive(Clone, Copy, PartialEq, Eq, Debug)]
pub enum DrawStage {
    /// Waiting for the buffer name.
    AwaitBuffer,
    /// Waiting for the vertex-array name; `buffer` holds the coordinates.
    AwaitArray { buffer: u32 },
    /// The draw is over.
    Finished,
}

/// The commands that fill the fresh buffer and ask for a vertex array.
pub open spec fn upload_calls(buffer: u32, byte_len: isize) -> Seq<Command> {
    seq![
        Command::BindArrayBuffer { buffer },
        Command::UploadVertices { byte_len },
        Command::BindArrayBuffer { buffer: 0 },
        Command::GenVertexArray,
    ]
}

/// The commands that describe the vertex layout in `array` and draw.
pub open spec fn render_calls(buffer: u32, array: u32) -> Seq<Command> {
    seq![
        Command::BindVertexArray { array },
        Command::BindArrayBuffer { buffer },
        Command::EnableVertexAttribArray { index: 0 },
        Command::FloatAttribPointer {
            index: 0,
            components: COMPONENTS_PER_VERTEX,
            stride: VERTEX_STRIDE,
            offset: 0,
        },
        Command::BindArrayBuffer { buffer: 0 },
        Command::BindVertexArray { array: 0 },
        Command::BindVertexArray { array },
        Command::DrawTriangles { first: 0, count: DRAWN_VERTICES },
        Command::BindVertexArray { array: 0 },
    ]
}

/// How a draw moves on from `stage` on `reply`.
pub open spec fn draw_next(stage: DrawStage, byte_len: isize, reply: ReplyView) -> (
    DrawStage,
    ProgressView<()>,
) {
    match (stage, reply) {
        (DrawStage::AwaitBuffer, ReplyView::Object(buffer)) => (
            DrawStage::AwaitArray { buffer },
            ProgressView::Issue(upload_calls(buffer, byte_len)),
        ),
        (DrawStage::AwaitArray { buffer }, ReplyView::Object(array)) => (
            DrawStage::Finished,
            ProgressView::Finish(render_calls(buffer, array), ()),
        ),
        _ => (DrawStage::Finished, ProgressView::Fault(Fault::UnexpectedReply)),
    }
}

/// Every command of a draw of `byte_len` bytes of coordinates, when the
/// driver names the buffer `buffer` and the vertex array `array`.
pub open spec fn draw_trace(byte_len: isize, buffer: u32, array: u32) -> Seq<Command> {
    seq![Command::GenBuffer] + upload_calls(buffer, byte_len) + render_calls(buffer, array)
}

/// A draw in progress.
pub struct DrawRun {
    stage: DrawStage,
    byte_len: isize,
    coordinates: Ghost<Seq<u32>>,
}

impl DrawRun {
    /// Where the draw stands.
    pub closed spec fn stage(&self) -> DrawStage {
        self.stage
    }

    /// The bytes of coordinates the draw uploads.
    pub closed spec fn byte_len(&self) -> isize {
        self.byte_len
    }

    /// The coordinates the draw uploads: those of the mesh it was started
    /// on, as they were then, four bytes each.
    pub closed spec fn coordinates(&self) -> Seq<u32> {
        self.coordinates@
    }

    /// Takes the reply to the last command issued and says what comes next.
    pub fn step(&mut self, reply: Reply) -> (p: Progress<()>)
        ensures
            (final(self).stage(), p@) == draw_next(old(self).stage(), old(self).byte_len(), reply@),
            final(self).byte_len() == old(self).byte_len(),
            final(self).coordinates() == old(self).coordinates(),
    {
        match (self.stage, reply) {
            (DrawStage::AwaitBuffer, Reply::Object(buffer)) => {
                self.stage = DrawStage::AwaitArray { buffer };
                let mut calls: Vec<Command> = Vec::new();
                calls.push(Command::BindArrayBuffer { buffer });
                calls.push(Command::UploadVertices { byte_len: self.byte_len });
                calls.push(Command::BindArrayBuffer { buffer: 0 });
                calls.push(Command::GenVertexArray);
                assert(calls@ =~= upload_calls(buffer, self.byte_len));
                Progress::Issue(calls)
            },
            (DrawStage::AwaitArray { buffer }, Reply::Object(array)) => {
                self.stage = DrawStage::Finished;
                let mut calls: Vec<Command> = Vec::new();
                calls.push(Command::BindVertexArray { array });
                calls.push(Command::BindArrayBuffer { buffer });
                // One attribute: three floats at offset zero.
                calls.push(Command::EnableVertexAttribArray { index: 0 });
                calls.push(
                    Command::FloatAttribPointer {
                        index: 0,
                        components: COMPONENTS_PER_VERTEX,
                        stride: VERTEX_STRIDE,
                        offset: 0,
                    },
                );
                calls.push(Command::BindArrayBuffer { buffer: 0 });
                calls.push(Command::BindVertexArray { array: 0 });
                calls.push(Command::BindVertexArray { array });
                calls.push(Command::DrawTriangles { first: 0, count: DRAWN_VERTICES });
                calls.push(Command::BindVertexArray { array: 0 });
                assert(calls@ =~= render_calls(buffer, array));
                Progress::Finish(calls, ())
            },
            _ => {
                self.stage = DrawStage::Finished;
                Progress::Fault(Fault::UnexpectedReply)
            },
        }
    }
}

/// A draw issues exactly the calls of [`draw_trace`], whatever names the
/// driver hands out: it uploads four bytes per coordinate into one buffer,
/// describes one attribute of three floats twelve bytes apart, and draws six
/// vertices as triangles.
pub proof fn draw_issues_its_trace(byte_len: isize, buffer: u32, array: u32)
    ensures
        ({
            let (s1, p1) = draw_next(DrawStage::AwaitBuffer, byte_len, ReplyView::Object(buffer));
            let (s2, p2) = draw_next(s1, byte_len, ReplyView::Object(array));
            &&& p1 matches ProgressView::Issue(c1)
            &&& p2 matches ProgressView::Finish(c2, _)
            &&& seq![Command::GenBuffer] + c1 + c2 == draw_trace(byte_len, buffer, array)
            &&& s2 == DrawStage::Finished
        }),
{
}

/// For every buffer name and vertex-array name the driver hands out (equal
/// or not), a draw uploads the coordinates into that buffer and then
/// describes one attribute of three floats, twelve bytes apart from offset
/// zero, and draws six vertices as triangles from the first.
pub proof fn draw_batches(byte_len: isize, buffer: u32, array: u32)
    ensures
        draw_next(DrawStage::AwaitBuffer, byte_len, ReplyView::Object(buffer)) == (
            DrawStage::AwaitArray { buffer },
            ProgressView::<()>::Issue(
                seq![
                    Command::BindArrayBuffer { buffer },
                    Command::UploadVertices { byte_len },
                    Command::BindArrayBuffer { buffer: 0 },
                    Command::GenVertexArray,
                ],
            ),
        ),
        draw_next(DrawStage::AwaitArray { buffer }, byte_len, ReplyView::Object(array)) == (
            DrawStage::Finished,
            ProgressView::<()>::Finish(
                seq![
                    Command::BindVertexArray { array },
                    Command::BindArrayBuffer { buffer },
                    Command::EnableVertexAttribArray { index: 0 },
                    Command::FloatAttribPointer { index: 0, components: 3, stride: 12, offset: 0 },
                    Command::BindArrayBuffer { buffer: 0 },
                    Command::BindVertexArray { array: 0 },
                    Command::BindVertexArray { array },
                    Command::DrawTriangles { first: 0, count: 6 },
                    Command::BindVertexArray { array: 0 },
                ],
                (),
            ),
        ),
{
}

/// One call that changes a mesh.
pub enum MeshOp {
    /// `add_vertex(x, y, z)`.
    Add(u32, u32, u32),
    /// `clear()`.
    Clear,
}

/// The coordinates of a mesh made by `new` and then changed by `ops`, in
/// order, as the contracts of `new`, `add_vertex` and `clear` give them.
pub open spec fn coordinates_after(ops: Seq<MeshOp>) -> Seq<u32>
    decreases ops.len(),
{
    if ops.len() == 0 {
        Seq::empty()
    } else {
        match ops.last() {
            MeshOp::Add(x, y, z) => coordinates_after(ops.drop_last()) + seq![x, y, z],
            MeshOp::Clear => Seq::empty(),
        }
    }
}

/// How many of `ops` are `add_vertex` calls made since the last `clear`
/// (or since the start, if there was none).
pub open spec fn adds_since_clear(ops: Seq<MeshOp>) -> nat
    decreases ops.len(),
{
    if ops.len() == 0 {
        0
    } else {
        match ops.last() {
            MeshOp::Add(..) => adds_since_clear(ops.drop_last()) + 1,
            MeshOp::Clear => 0,
        }
    }
}

/// After any sequence of calls, a mesh holds one vertex (three coordinates)
/// per `add_vertex` call since the last `clear`, and the last of them is the
/// last vertex added.
pub proof fn vertices_count_adds_since_clear(ops: Seq<MeshOp>)
    ensures
        coordinates_after(ops).len() == 3 * adds_since_clear(ops),
        coordinates_after(ops).len() % 3 == 0,
        ops.len() > 0 ==> (ops.last() matches MeshOp::Add(x, y, z) ==> coordinates_after(
            ops,
        ).subrange(
            coordinates_after(ops).len() - 3,
            coordinates_after(ops).len() as int,
        ) == seq![x, y, z]),
    decreases ops.len(),
{
    if ops.len() > 0 {
        vertices_count_adds_since_clear(ops.drop_last());
        match ops.last() {
            MeshOp::Add(x, y, z) => {
                let before = coordinates_after(ops.drop_last());
                assert((before + seq![x, y, z]).subrange(before.len() as int, before.len() as int + 3)
                    =~= seq![x, y, z]);
            },
            MeshOp::Clear => {},
        }
    }
}

} // verus!
