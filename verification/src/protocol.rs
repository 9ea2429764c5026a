//! The conversation between the library and the caller that owns the
//! graphics context: the library issues commands, the caller performs them
//! and answers with the reply of the last one.
use vstd::prelude::*;

use crate::clock::Timestamp;

verus! {

/// The programmable stage a shader source is compiled for.
#[derive(Clone, Copy, PartialEq, Eq, Debug)]
pub enum ShaderStage {
    Vertex,
    Fragment,
}

/// An integer property of a shader object or of a program.
#[derive(Clone, Copy, PartialEq, Eq, Debug)]
pub enum ObjectParam {
    CompileStatus,
    LinkStatus,
    InfoLogLength,
}

/// One call the library asks its caller to make. Calls whose reply the
/// library needs are named in their doc; all others are answered with
/// [`Reply::Done`].
#[derive(Clone, Copy, PartialEq, Eq, Debug)]
pub enum Command {
    /// Generate one buffer name; answered with [`Reply::Object`].
    GenBuffer,
    /// Bind `buffer` to the array-buffer target (0 unbinds).
    BindArrayBuffer { buffer: u32 },
    /// Fill the bound array buffer, for static drawing, with the first
    /// `byte_len` bytes of the coordinates of the mesh being drawn
    /// ([`crate::mesh::DrawRun::coordinates`]), each as the four bytes of
    /// its bits.
    UploadVertices { byte_len: isize },
    /// Generate one vertex-array name; answered with [`Reply::Object`].
    GenVertexArray,
    /// Bind vertex array `array` (0 unbinds).
    BindVertexArray { array: u32 },
    /// Enable the generic vertex attribute `index`.
    EnableVertexAttribArray { index: u32 },
    /// Describe attribute `index` as `components` floats, not normalized,
    /// `stride` bytes apart, starting `offset` bytes into the buffer.
    FloatAttribPointer { index: u32, components: i32, stride: i32, offset: usize },
    /// Draw `count` vertices as triangles, starting at vertex `first`.
    DrawTriangles { first: i32, count: i32 },
    /// Create a shader object for `stage`; answered with [`Reply::Object`].
    CreateShader { stage: ShaderStage },
    /// Give `shader` the source text that was read for it.
    ShaderSource { shader: u32 },
    /// Compile `shader`.
    CompileShader { shader: u32 },
    /// Query `param` of `shader`; answered with [`Reply::Int`].
    ShaderParam { shader: u32, param: ObjectParam },
    /// Fetch at most `max_len` bytes (terminator included) of the info log of
    /// `shader` into the buffer that
    /// [`crate::info_log::create_whitespace_cstring_with_len`] makes for
    /// `max_len` (`max_len` spaces and a terminator); answered with
    /// [`Reply::Bytes`], the buffer without its last byte.
    ShaderInfoLog { shader: u32, max_len: i32 },
    /// Delete `shader`.
    DeleteShader { shader: u32 },
    /// Create a program object; answered with [`Reply::Object`].
    CreateProgram,
    /// Attach `shader` to `program`.
    AttachShader { program: u32, shader: u32 },
    /// Link `program`.
    LinkProgram { program: u32 },
    /// Query `param` of `program`; answered with [`Reply::Int`].
    ProgramParam { program: u32, param: ObjectParam },
    /// As [`Command::ShaderInfoLog`], for the info log of `program`.
    ProgramInfoLog { program: u32, max_len: i32 },
    /// Detach `shader` from `program`.
    DetachShader { program: u32, shader: u32 },
    /// Delete `program`.
    DeleteProgram { program: u32 },
    /// Make `program` current.
    UseProgram { program: u32 },
    /// Set the named `int` (or `bool`) uniform of `program`.
    UniformInt { program: u32, value: i32 },
    /// Set the named `float` uniform of `program`; `float_bits` holds the
    /// bits of the float.
    UniformFloat { program: u32, float_bits: u32 },
    /// Set the named `vec2` uniform of `program` from two floats' bits.
    UniformVec2 { program: u32, vec2_bits: [u32; 2] },
    /// Set the named `vec3` uniform of `program` from three floats' bits.
    UniformVec3 { program: u32, vec3_bits: [u32; 3] },
    /// Set the named `vec3` uniform of `program` from an array of one vector,
    /// given as three floats' bits.
    UniformVec3Array { program: u32, vec3_bits: [u32; 3] },
    /// Set the named `mat4` uniform of `program`, not transposed, from sixteen
    /// floats' bits in column-major order.
    UniformMat4 { program: u32, matrix_bits: [u32; 16] },
    /// Read the source file of `stage` and compile it as
    /// [`crate::shader::Shader::shader_from_source`] does; answered with
    /// [`Reply::Built`].
    CompileFile { stage: ShaderStage },
    /// Link the two shaders as [`crate::shader::Shader::program_from_shaders`]
    /// does; answered with [`Reply::Built`].
    LinkShaders { vertex: u32, fragment: u32 },
    /// Build a program from both source files as
    /// [`crate::shader::Shader::load`] does; answered with [`Reply::Built`].
    LoadProgram,
    /// Read the modification time of the source file of `stage`; answered
    /// with [`Reply::Time`].
    ReadModTime { stage: ShaderStage },
    /// Read the wall clock; answered with [`Reply::Time`].
    ReadClock,
    /// Report that the source file of `stage` was modified.
    AnnounceModified { stage: ShaderStage },
}

/// A reply the library cannot go on from. Each stands where the calls that
/// are being coordinated would have panicked.
#[derive(Clone, Copy, PartialEq, Eq, Debug)]
pub enum Fault {
    /// The reply is not of the kind the last command gives.
    UnexpectedReply,
    /// The driver reported a negative info-log length.
    NegativeLogLength,
    /// The clock reads earlier than the last check.
    ClockWentBackwards,
    /// Rebuilding the program after a source file changed failed.
    ReloadFailed,
}

/// What building a shader object, a program or a shader came to.
pub enum Outcome<T> {
    Ready(T),
    /// The build failed with this message.
    Failed(String),
}

/// The mathematical value of an [`Outcome`].
pub enum OutcomeView<V> {
    Ready(V),
    Failed(Seq<char>),
}

impl<T: View> View for Outcome<T> {
    type V = OutcomeView<T::V>;

    open spec fn view(&self) -> OutcomeView<T::V> {
        match self {
            Outcome::Ready(t) => OutcomeView::Ready(t@),
            Outcome::Failed(message) => OutcomeView::Failed(message@),
        }
    }
}

impl<T> Outcome<T> {
    /// The outcome as a `Result`, the message as the error.
    pub fn into_result(self) -> (r: Result<T, String>)
        ensures
            match self {
                Outcome::Ready(t) => r == Ok::<T, String>(t),
                Outcome::Failed(m) => r is Err && r->Err_0@ == m@,
            },
    {
        match self {
            Outcome::Ready(t) => Ok(t),
            Outcome::Failed(m) => Err(m),
        }
    }
}

/// The caller's answer to the last command of a batch.
pub enum Reply {
    /// The last command gives nothing back (or the batch was empty).
    Done,
    /// A name the driver generated.
    Object(u32),
    /// An integer the driver reported.
    Int(i32),
    /// The bytes of an info-log buffer.
    Bytes(Vec<u8>),
    /// An instant read from the clock or from a file's metadata.
    Time(Timestamp),
    /// What a nested build came to.
    Built(Outcome<u32>),
}

/// The mathematical value of a [`Reply`].
pub enum ReplyView {
    Done,
    Object(u32),
    Int(i32),
    Bytes(Seq<u8>),
    Time(Timestamp),
    Built(OutcomeView<u32>),
}

impl View for Reply {
    type V = ReplyView;

    open spec fn view(&self) -> ReplyView {
        match self {
            Reply::Done => ReplyView::Done,
            Reply::Object(name) => ReplyView::Object(*name),
            Reply::Int(value) => ReplyView::Int(*value),
            Reply::Bytes(bytes) => ReplyView::Bytes(bytes@),
            Reply::Time(t) => ReplyView::Time(*t),
            Reply::Built(outcome) => ReplyView::Built(outcome@),
        }
    }
}

/// What the library asks for after a reply.
pub enum Progress<T> {
    /// Perform these commands in order and answer with the reply of the last.
    Issue(Vec<Command>),
    /// Perform these commands in order; then the run is over with this result.
    Finish(Vec<Command>, T),
    /// The run cannot go on.
    Fault(Fault),
}

/// The mathematical value of a [`Progress`].
pub enum ProgressView<V> {
    Issue(Seq<Command>),
    Finish(Seq<Command>, V),
    Fault(Fault),
}

impl<T: View> View for Progress<T> {
    type V = ProgressView<T::V>;

    open spec fn view(&self) -> ProgressView<T::V> {
        match self {
            Progress::Issue(calls) => ProgressView::Issue(calls@),
            Progress::Finish(calls, result) => ProgressView::Finish(calls@, result@),
            Progress::Fault(fault) => ProgressView::Fault(*fault),
        }
    }
}

} // verus!
