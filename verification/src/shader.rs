//! Shader programs built from a vertex and a fragment source file, rebuilt
//! when either file changes.
use vstd::prelude::*;

use crate::clock::{whole_secs, whole_secs_between, whole_secs_is_the_floor, Timestamp};
use crate::protocol::{
    Command, Fault, Outcome, OutcomeView, Progress, ProgressView, Reply, ReplyView, ShaderStage,
};

verus! {

/// The state of a shader program: its name and the instants the reload
/// check goes by.
#[derive(Clone, Copy, PartialEq, Eq, Debug)]
pub struct ShaderState {
    pub program_id: u32,
    pub last_vert_mod_time: Timestamp,
    pub last_frag_mod_time: Timestamp,
    pub last_check_time: Timestamp,
}

/// A linked shader program that watches its source files.
pub struct Shader {
    program_id: u32,
    last_vert_mod_time: Timestamp,
    last_frag_mod_time: Timestamp,
    last_check_time: Timestamp,
}

impl View for Shader {
    type V = ShaderState;

    closed spec fn view(&self) -> ShaderState {
        ShaderState {
            program_id: self.program_id,
            last_vert_mod_time: self.last_vert_mod_time,
            last_frag_mod_time: self.last_frag_mod_time,
            last_check_time: self.last_check_time,
        }
    }
}

impl Shader {
    /// The name of the linked program.
    pub fn program_id(&self) -> (id: u32)
        ensures
            id == self@.program_id,
    {
        self.program_id
    }

    /// The instant of the last reload check (or of the construction).
    pub fn last_check_time(&self) -> (t: Timestamp)
        ensures
            t == self@.last_check_time,
    {
        self.last_check_time
    }

    /// The modification time of the vertex source as last recorded.
    pub fn last_vert_mod_time(&self) -> (t: Timestamp)
        ensures
            t == self@.last_vert_mod_time,
    {
        self.last_vert_mod_time
    }

    /// The modification time of the fragment source as last recorded.
    pub fn last_frag_mod_time(&self) -> (t: Timestamp)
        ensures
            t == self@.last_frag_mod_time,
    {
        self.last_frag_mod_time
    }

    /// Makes the program current.
    pub fn begin(&self) -> (call: Command)
        ensures
            call == (Command::UseProgram { program: self@.program_id }),
    {
        Command::UseProgram { program: self.program_id }
    }

    /// Sets a `bool` uniform of the program, as the integer 1 or 0. The
    /// uniform's name stays with the caller, which looks up its location.
    pub fn set_bool(&self, value: bool) -> (call: Command)
        ensures
            call == (Command::UniformInt {
                program: self@.program_id,
                value: if value {
                    1i32
                } else {
                    0i32
                },
            }),
    {
        Command::UniformInt { program: self.program_id, value: if value { 1 } else { 0 } }
    }

    /// Sets an `int` uniform of the program.
    pub fn set_int(&self, value: i32) -> (call: Command)
        ensures
            call == (Command::UniformInt { program: self@.program_id, value }),
    {
        Command::UniformInt { program: self.program_id, value }
    }

    /// Sets a `float` uniform of the program; `float_bits` are the bits of
    /// the float.
    pub fn set_float(&self, float_bits: u32) -> (call: Command)
        ensures
            call == (Command::UniformFloat { program: self@.program_id, float_bits }),
    {
        Command::UniformFloat { program: self.program_id, float_bits }
    }

    /// Sets a `vec3` uniform of the program from one vector (the bits of its
    /// three floats), passed as an array of one.
    pub fn set_vector3(&self, vec3_bits: [u32; 3]) -> (call: Command)
        ensures
            call == (Command::UniformVec3Array { program: self@.program_id, vec3_bits }),
    {
        Command::UniformVec3Array { program: self.program_id, vec3_bits }
    }

    /// Sets a `vec2` uniform of the program from the bits of two floats.
    pub fn set_vec2(&self, x_bits: u32, y_bits: u32) -> (call: Command)
        ensures
            call == (Command::UniformVec2 { program: self@.program_id, vec2_bits: [x_bits, y_bits] }),
    {
        Command::UniformVec2 { program: self.program_id, vec2_bits: [x_bits, y_bits] }
    }

    /// Sets a `vec3` uniform of the program from the bits of three floats.
    pub fn set_vec3(&self, x_bits: u32, y_bits: u32, z_bits: u32) -> (call: Command)
        ensures
            call == (Command::UniformVec3 {
                program: self@.program_id,
                vec3_bits: [x_bits, y_bits, z_bits],
            }),
    {
        Command::UniformVec3 { program: self.program_id, vec3_bits: [x_bits, y_bits, z_bits] }
    }

    /// Sets a `mat4` uniform of the program, not transposed, from the bits of
    /// sixteen floats in column-major order.
    pub fn set_mat4(&self, matrix_bits: [u32; 16]) -> (call: Command)
        ensures
            call == (Command::UniformMat4 { program: self@.program_id, matrix_bits }),
    {
        Command::UniformMat4 { program: self.program_id, matrix_bits }
    }

    /// What disposing of the shader does: the program is deleted.
    pub fn release(&self) -> (call: Command)
        ensures
            call == (Command::DeleteProgram { program: self@.program_id }),
    {
        Command::DeleteProgram { program: self.program_id }
    }
}

/// Where the building of a program from both source files stands.
#[derive(Clone, Copy, PartialEq, Eq, Debug)]
pub enum LoadStage {
    /// Waiting for the vertex shader.
    AwaitVertex,
    /// Waiting for the fragment shader.
    AwaitFragment { vertex: u32 },
    /// Waiting for the program linked from both.
    AwaitProgram { vertex: u32, fragment: u32 },
    /// The build is over.
    Finished,
}

/// How a build moves on from `stage` on `reply`. The first failure ends it
/// with that failure's message; only a linked program has its shaders
/// deleted.
pub open spec fn load_next(stage: LoadStage, reply: ReplyView) -> (
    LoadStage,
    ProgressView<OutcomeView<u32>>,
) {
    match (stage, reply) {
        (LoadStage::AwaitVertex, ReplyView::Built(OutcomeView::Ready(vertex))) => (
            LoadStage::AwaitFragment { vertex },
            ProgressView::Issue(seq![Command::CompileFile { stage: ShaderStage::Fragment }]),
        ),
        (LoadStage::AwaitFragment { vertex }, ReplyView::Built(OutcomeView::Ready(fragment))) => (
            LoadStage::AwaitProgram { vertex, fragment },
            ProgressView::Issue(seq![Command::LinkShaders { vertex, fragment }]),
        ),
        (
            LoadStage::AwaitProgram { vertex, fragment },
            ReplyView::Built(OutcomeView::Ready(program)),
        ) => (
            LoadStage::Finished,
            ProgressView::Finish(
                seq![
                    Command::DeleteShader { shader: vertex },
                    Command::DeleteShader { shader: fragment },
                ],
                OutcomeView::Ready(program),
            ),
        ),
        (LoadStage::AwaitVertex, ReplyView::Built(OutcomeView::Failed(message)))
        | (LoadStage::AwaitFragment { .. }, ReplyView::Built(OutcomeView::Failed(message)))
        | (LoadStage::AwaitProgram { .. }, ReplyView::Built(OutcomeView::Failed(message))) => (
            LoadStage::Finished,
            ProgressView::Finish(seq![], OutcomeView::Failed(message)),
        ),
        _ => (LoadStage::Finished, ProgressView::Fault(Fault::UnexpectedReply)),
    }
}

/// The building of a program from both source files, in progress.
pub struct LoadRun {
    stage: LoadStage,
}

impl LoadRun {
    /// Where the build stands.
    pub closed spec fn stage(&self) -> LoadStage {
        self.stage
    }

    /// Takes the reply to the last command issued and says what comes next.
    pub fn step(&mut self, reply: Reply) -> (p: Progress<Outcome<u32>>)
        ensures
            (final(self).stage(), p@) == load_next(old(self).stage(), reply@),
    {
        match (self.stage, reply) {
            (LoadStage::AwaitVertex, Reply::Built(Outcome::Ready(vertex))) => {
                self.stage = LoadStage::AwaitFragment { vertex };
                Progress::Issue(one_call(Command::CompileFile { stage: ShaderStage::Fragment }))
            },
            (LoadStage::AwaitFragment { vertex }, Reply::Built(Outcome::Ready(fragment))) => {
                self.stage = LoadStage::AwaitProgram { vertex, fragment };
                Progress::Issue(one_call(Command::LinkShaders { vertex, fragment }))
            },
            (LoadStage::AwaitProgram { vertex, fragment }, Reply::Built(Outcome::Ready(program))) => {
                self.stage = LoadStage::Finished;
                let mut calls: Vec<Command> = Vec::new();
                calls.push(Command::DeleteShader { shader: vertex });
                calls.push(Command::DeleteShader { shader: fragment });
                assert(calls@ =~= seq![
                    Command::DeleteShader { shader: vertex },
                    Command::DeleteShader { shader: fragment },
                ]);
                Progress::Finish(calls, Outcome::Ready(program))
            },
            (LoadStage::Finished, _) => {
                Progress::Fault(Fault::UnexpectedReply)
            },
            (_, Reply::Built(Outcome::Failed(message))) => {
                self.stage = LoadStage::Finished;
                Progress::Finish(no_calls(), Outcome::Failed(message))
            },
            _ => {
                self.stage = LoadStage::Finished;
                Progress::Fault(Fault::UnexpectedReply)
            },
        }
    }
}

/// A batch of one command.
fn one_call(call: Command) -> (calls: Vec<Command>)
    ensures
        calls@ == seq![call],
{
    let mut calls: Vec<Command> = Vec::new();
    calls.push(call);
    assert(calls@ =~= seq![call]);
    calls
}

/// An empty batch.
fn no_calls() -> (calls: Vec<Command>)
    ensures
        calls@ == Seq::<Command>::empty(),
{
    let calls: Vec<Command> = Vec::new();
    assert(calls@ =~= Seq::<Command>::empty());
    calls
}

/// Where the construction of a shader stands.
#[derive(Clone, Copy, PartialEq, Eq, Debug)]
pub enum NewStage {
    /// Waiting for the modification time of the vertex source.
    AwaitVertexTime,
    /// Waiting for the modification time of the fragment source.
    AwaitFragmentTime { vert: Timestamp },
    /// Waiting for the clock.
    AwaitClock { vert: Timestamp, frag: Timestamp },
    /// Waiting for the program built from both sources.
    AwaitProgram { vert: Timestamp, frag: Timestamp, now: Timestamp },
    /// The construction is over.
    Finished,
}

/// How a construction moves on from `stage` on `reply`: both modification
/// times and the clock are read before the program is built, and a built
/// program gives the shader those instants.
pub open spec fn new_next(stage: NewStage, reply: ReplyView) -> (
    NewStage,
    ProgressView<OutcomeView<ShaderState>>,
) {
    match (stage, reply) {
        (NewStage::AwaitVertexTime, ReplyView::Time(vert)) => (
            NewStage::AwaitFragmentTime { vert },
            ProgressView::Issue(seq![Command::ReadModTime { stage: ShaderStage::Fragment }]),
        ),
        (NewStage::AwaitFragmentTime { vert }, ReplyView::Time(frag)) => (
            NewStage::AwaitClock { vert, frag },
            ProgressView::Issue(seq![Command::ReadClock]),
        ),
        (NewStage::AwaitClock { vert, frag }, ReplyView::Time(now)) => (
            NewStage::AwaitProgram { vert, frag, now },
            ProgressView::Issue(seq![Command::LoadProgram]),
        ),
        (NewStage::AwaitProgram { vert, frag, now }, ReplyView::Built(OutcomeView::Ready(program))) => (
            NewStage::Finished,
            ProgressView::Finish(
                seq![],
                OutcomeView::Ready(
                    ShaderState {
                        program_id: program,
                        last_vert_mod_time: vert,
                        last_frag_mod_time: frag,
                        last_check_time: now,
                    },
                ),
            ),
        ),
        (NewStage::AwaitProgram { .. }, ReplyView::Built(OutcomeView::Failed(message))) => (
            NewStage::Finished,
            ProgressView::Finish(seq![], OutcomeView::Failed(message)),
        ),
        _ => (NewStage::Finished, ProgressView::Fault(Fault::UnexpectedReply)),
    }
}

/// The construction of a shader, in progress.
pub struct NewRun {
    stage: NewStage,
}

impl NewRun {
    /// Where the construction stands.
    pub closed spec fn stage(&self) -> NewStage {
        self.stage
    }

    /// Takes the reply to the last command issued and says what comes next.
    pub fn step(&mut self, reply: Reply) -> (p: Progress<Outcome<Shader>>)
        ensures
            (final(self).stage(), p@) == new_next(old(self).stage(), reply@),
    {
        match (self.stage, reply) {
            (NewStage::AwaitVertexTime, Reply::Time(vert)) => {
                self.stage = NewStage::AwaitFragmentTime { vert };
                Progress::Issue(one_call(Command::ReadModTime { stage: ShaderStage::Fragment }))
            },
            (NewStage::AwaitFragmentTime { vert }, Reply::Time(frag)) => {
                self.stage = NewStage::AwaitClock { vert, frag };
                Progress::Issue(one_call(Command::ReadClock))
            },
            (NewStage::AwaitClock { vert, frag }, Reply::Time(now)) => {
                self.stage = NewStage::AwaitProgram { vert, frag, now };
                Progress::Issue(one_call(Command::LoadProgram))
            },
            (NewStage::AwaitProgram { vert, frag, now }, Reply::Built(Outcome::Ready(program))) => {
                self.stage = NewStage::Finished;
                let shader = Shader {
                    program_id: program,
                    last_vert_mod_time: vert,
                    last_frag_mod_time: frag,
                    last_check_time: now,
                };
                Progress::Finish(no_calls(), Outcome::Ready(shader))
            },
            (NewStage::AwaitProgram { .. }, Reply::Built(Outcome::Failed(message))) => {
                self.stage = NewStage::Finished;
                Progress::Finish(no_calls(), Outcome::Failed(message))
            },
            _ => {
                self.stage = NewStage::Finished;
                Progress::Fault(Fault::UnexpectedReply)
            },
        }
    }
}

/// Where a reload check stands.
#[derive(Clone, Copy, PartialEq, Eq, Debug)]
pub enum UpdateStage {
    /// Waiting for the clock.
    AwaitClock,
    /// A check is due; waiting for the clock again, to record the check.
    AwaitRecheck,
    /// Waiting for the modification time of `stage`'s source, to compare.
    Compare { stage: ShaderStage },
    /// `stage`'s source changed; waiting for its modification time, to record.
    Record { stage: ShaderStage },
    /// Waiting for the rebuilt program after `stage`'s source changed.
    AwaitReload { stage: ShaderStage },
    /// The check is over.
    Finished,
}

/// The recorded modification time of `stage`'s source.
pub open spec fn mod_time(s: ShaderState, stage: ShaderStage) -> Timestamp {
    match stage {
        ShaderStage::Vertex => s.last_vert_mod_time,
        ShaderStage::Fragment => s.last_frag_mod_time,
    }
}

/// `s` with `t` recorded as the modification time of `stage`'s source.
pub open spec fn with_mod_time(s: ShaderState, stage: ShaderStage, t: Timestamp) -> ShaderState {
    match stage {
        ShaderStage::Vertex => ShaderState { last_vert_mod_time: t, ..s },
        ShaderStage::Fragment => ShaderState { last_frag_mod_time: t, ..s },
    }
}

/// What follows once `stage`'s source is dealt with: the fragment source
/// after the vertex source, then the end.
pub open spec fn after_source(stage: ShaderStage) -> (UpdateStage, ProgressView<()>) {
    match stage {
        ShaderStage::Vertex => (
            UpdateStage::Compare { stage: ShaderStage::Fragment },
            ProgressView::Issue(seq![Command::ReadModTime { stage: ShaderStage::Fragment }]),
        ),
        ShaderStage::Fragment => (UpdateStage::Finished, ProgressView::Finish(seq![], ())),
    }
}

/// How a reload check moves on from `stage`, with the shader in state `s`,
/// on `reply`. A check is due when more than one whole second has passed
/// since the last; a source whose modification time differs from the one
/// recorded is read again, recorded, announced, and the program rebuilt.
pub open spec fn update_next(stage: UpdateStage, s: ShaderState, reply: ReplyView) -> (
    UpdateStage,
    ShaderState,
    ProgressView<()>,
) {
    match (stage, reply) {
        (UpdateStage::AwaitClock, ReplyView::Time(now)) => if now.nanos < s.last_check_time.nanos {
            (UpdateStage::Finished, s, ProgressView::Fault(Fault::ClockWentBackwards))
        } else if whole_secs(s.last_check_time, now) > 1 {
            (UpdateStage::AwaitRecheck, s, ProgressView::Issue(seq![Command::ReadClock]))
        } else {
            (UpdateStage::Finished, s, ProgressView::Finish(seq![], ()))
        },
        (UpdateStage::AwaitRecheck, ReplyView::Time(now)) => (
            UpdateStage::Compare { stage: ShaderStage::Vertex },
            ShaderState { last_check_time: now, ..s },
            ProgressView::Issue(seq![Command::ReadModTime { stage: ShaderStage::Vertex }]),
        ),
        (UpdateStage::Compare { stage }, ReplyView::Time(t)) => if t != mod_time(s, stage) {
            (UpdateStage::Record { stage }, s, ProgressView::Issue(seq![Command::ReadModTime { stage }]))
        } else {
            (after_source(stage).0, s, after_source(stage).1)
        },
        (UpdateStage::Record { stage }, ReplyView::Time(t)) => (
            UpdateStage::AwaitReload { stage },
            with_mod_time(s, stage, t),
            ProgressView::Issue(seq![Command::AnnounceModified { stage }, Command::LoadProgram]),
        ),
        (UpdateStage::AwaitReload { stage }, ReplyView::Built(OutcomeView::Ready(program))) => (
            after_source(stage).0,
            ShaderState { program_id: program, ..s },
            after_source(stage).1,
        ),
        (UpdateStage::AwaitReload { .. }, ReplyView::Built(OutcomeView::Failed(_))) => (
            UpdateStage::Finished,
            s,
            ProgressView::Fault(Fault::ReloadFailed),
        ),
        _ => (UpdateStage::Finished, s, ProgressView::Fault(Fault::UnexpectedReply)),
    }
}

/// A reload check, in progress.
pub struct UpdateRun {
    stage: UpdateStage,
}

impl UpdateRun {
    /// Where the check stands.
    pub closed spec fn stage(&self) -> UpdateStage {
        self.stage
    }

    /// The batch that follows once `stage`'s source is dealt with.
    fn after_source(&mut self, stage: ShaderStage) -> (p: Progress<()>)
        ensures
            (final(self).stage(), p@) == after_source(stage),
    {
        match stage {
            ShaderStage::Vertex => {
                self.stage = UpdateStage::Compare { stage: ShaderStage::Fragment };
                Progress::Issue(one_call(Command::ReadModTime { stage: ShaderStage::Fragment }))
            },
            ShaderStage::Fragment => {
                self.stage = UpdateStage::Finished;
                Progress::Finish(no_calls(), ())
            },
        }
    }

    /// Takes the reply to the last command issued and says what comes next;
    /// the shader's state moves on with the check.
    pub fn step(&mut self, shader: &mut Shader, reply: Reply) -> (p: Progress<()>)
        ensures
            (final(self).stage(), final(shader)@, p@) == update_next(
                old(self).stage(),
                old(shader)@,
                reply@,
            ),
    {
        match (self.stage, reply) {
            (UpdateStage::AwaitClock, Reply::Time(now)) => {
                if now.nanos < shader.last_check_time.nanos {
                    self.stage = UpdateStage::Finished;
                    Progress::Fault(Fault::ClockWentBackwards)
                } else if whole_secs_between(shader.last_check_time, now) > 1 {
                    self.stage = UpdateStage::AwaitRecheck;
                    Progress::Issue(one_call(Command::ReadClock))
                } else {
                    self.stage = UpdateStage::Finished;
                    Progress::Finish(no_calls(), ())
                }
            },
            (UpdateStage::AwaitRecheck, Reply::Time(now)) => {
                shader.last_check_time = now;
                self.stage = UpdateStage::Compare { stage: ShaderStage::Vertex };
                Progress::Issue(one_call(Command::ReadModTime { stage: ShaderStage::Vertex }))
            },
            (UpdateStage::Compare { stage }, Reply::Time(t)) => {
                let recorded: Timestamp = match stage {
                    ShaderStage::Vertex => shader.last_vert_mod_time,
                    ShaderStage::Fragment => shader.last_frag_mod_time,
                };
                if t.nanos != recorded.nanos {
                    self.stage = UpdateStage::Record { stage };
                    Progress::Issue(one_call(Command::ReadModTime { stage }))
                } else {
                    self.after_source(stage)
                }
            },
            (UpdateStage::Record { stage }, Reply::Time(t)) => {
                match stage {
                    ShaderStage::Vertex => shader.last_vert_mod_time = t,
                    ShaderStage::Fragment => shader.last_frag_mod_time = t,
                }
                self.stage = UpdateStage::AwaitReload { stage };
                let mut calls: Vec<Command> = Vec::new();
                calls.push(Command::AnnounceModified { stage });
                calls.push(Command::LoadProgram);
                assert(calls@ =~= seq![Command::AnnounceModified { stage }, Command::LoadProgram]);
                Progress::Issue(calls)
            },
            (UpdateStage::AwaitReload { stage }, Reply::Built(Outcome::Ready(program))) => {
                shader.program_id = program;
                self.after_source(stage)
            },
            (UpdateStage::AwaitReload { .. }, Reply::Built(Outcome::Failed(_))) => {
                self.stage = UpdateStage::Finished;
                Progress::Fault(Fault::ReloadFailed)
            },
            _ => {
                self.stage = UpdateStage::Finished;
                Progress::Fault(Fault::UnexpectedReply)
            },
        }
    }
}

impl Shader {
    /// Starts building a program from the vertex and the fragment source
    /// file: each is compiled in turn, then both are linked and, once the
    /// program is linked, deleted.
    pub fn load() -> (r: (LoadRun, Vec<Command>))
        ensures
            r.0.stage() == LoadStage::AwaitVertex,
            r.1@ == seq![Command::CompileFile { stage: ShaderStage::Vertex }],
    {
        (
            LoadRun { stage: LoadStage::AwaitVertex },
            one_call(Command::CompileFile { stage: ShaderStage::Vertex }),
        )
    }

    /// Starts constructing a shader from its two source files.
    pub fn new() -> (r: (NewRun, Vec<Command>))
        ensures
            r.0.stage() == NewStage::AwaitVertexTime,
            r.1@ == seq![Command::ReadModTime { stage: ShaderStage::Vertex }],
    {
        (
            NewRun { stage: NewStage::AwaitVertexTime },
            one_call(Command::ReadModTime { stage: ShaderStage::Vertex }),
        )
    }

    /// Starts a reload check: the program is rebuilt from any source file
    /// that changed, at most once every two seconds. A rebuilt program
    /// replaces the current one, which is not deleted.
    pub fn update(&self) -> (r: (UpdateRun, Vec<Command>))
        ensures
            r.0.stage() == UpdateStage::AwaitClock,
            r.1@ == seq![Command::ReadClock],
    {
        (UpdateRun { stage: UpdateStage::AwaitClock }, one_call(Command::ReadClock))
    }
}

/// A build that succeeds compiles the vertex source, then the fragment
/// source, links the two shaders in that order, deletes both and gives the
/// linked program.
pub proof fn load_builds_then_deletes(vertex: u32, fragment: u32, program: u32)
    ensures
        ({
            let (s1, p1) = load_next(LoadStage::AwaitVertex, ReplyView::Built(OutcomeView::Ready(vertex)));
            let (s2, p2) = load_next(s1, ReplyView::Built(OutcomeView::Ready(fragment)));
            let (s3, p3) = load_next(s2, ReplyView::Built(OutcomeView::Ready(program)));
            &&& p1 == ProgressView::<OutcomeView<u32>>::Issue(
                seq![Command::CompileFile { stage: ShaderStage::Fragment }],
            )
            &&& p2 == ProgressView::<OutcomeView<u32>>::Issue(
                seq![Command::LinkShaders { vertex, fragment }],
            )
            &&& p3 == ProgressView::Finish(
                seq![
                    Command::DeleteShader { shader: vertex },
                    Command::DeleteShader { shader: fragment },
                ],
                OutcomeView::Ready(program),
            )
            &&& s3 == LoadStage::Finished
        }),
{
}

/// A build stops at its first failure with that failure's message and
/// deletes nothing: a failed vertex source keeps the fragment source from
/// being compiled, and shaders that were built stay alive.
pub proof fn load_stops_at_first_failure(stage: LoadStage, message: Seq<char>)
    requires
        stage != LoadStage::Finished,
    ensures
        load_next(stage, ReplyView::Built(OutcomeView::Failed(message))) == (
            LoadStage::Finished,
            ProgressView::Finish(seq![], OutcomeView::<u32>::Failed(message)),
        ),
{
}

/// Construction reads the vertex source's modification time, then the
/// fragment source's, then the clock, before it builds the program; the
/// shader holds the program and those three instants.
pub proof fn new_records_times_before_loading(
    vert: Timestamp,
    frag: Timestamp,
    now: Timestamp,
    program: u32,
)
    ensures
        ({
            let (s1, p1) = new_next(NewStage::AwaitVertexTime, ReplyView::Time(vert));
            let (s2, p2) = new_next(s1, ReplyView::Time(frag));
            let (s3, p3) = new_next(s2, ReplyView::Time(now));
            let (s4, p4) = new_next(s3, ReplyView::Built(OutcomeView::Ready(program)));
            &&& p1 == ProgressView::<OutcomeView<ShaderState>>::Issue(
                seq![Command::ReadModTime { stage: ShaderStage::Fragment }],
            )
            &&& p2 == ProgressView::<OutcomeView<ShaderState>>::Issue(seq![Command::ReadClock])
            &&& p3 == ProgressView::<OutcomeView<ShaderState>>::Issue(seq![Command::LoadProgram])
            &&& p4 == ProgressView::Finish(
                seq![],
                OutcomeView::Ready(
                    ShaderState {
                        program_id: program,
                        last_vert_mod_time: vert,
                        last_frag_mod_time: frag,
                        last_check_time: now,
                    },
                ),
            )
        }),
{
}

/// No check happens until more than one whole second has passed since the
/// last: the check ends at once and the shader is left as it was.
pub proof fn update_waits_two_seconds(s: ShaderState, now: Timestamp)
    requires
        s.last_check_time.nanos <= now.nanos,
        whole_secs(s.last_check_time, now) <= 1,
    ensures
        update_next(UpdateStage::AwaitClock, s, ReplyView::Time(now)) == (
            UpdateStage::Finished,
            s,
            ProgressView::Finish(seq![], ()),
        ),
{
}

/// A clock that reads earlier than the last check stops the check.
pub proof fn update_refuses_a_clock_going_back(s: ShaderState, now: Timestamp)
    requires
        now.nanos < s.last_check_time.nanos,
    ensures
        update_next(UpdateStage::AwaitClock, s, ReplyView::Time(now)) == (
            UpdateStage::Finished,
            s,
            ProgressView::<()>::Fault(Fault::ClockWentBackwards),
        ),
{
}

/// A due check with neither source changed reads the clock twice and each
/// modification time once, and changes nothing but the instant of the last
/// check, which becomes the second clock reading.
pub proof fn update_without_changes_only_records_the_check(
    s: ShaderState,
    now: Timestamp,
    later: Timestamp,
)
    requires
        s.last_check_time.nanos <= now.nanos,
        whole_secs(s.last_check_time, now) > 1,
    ensures
        ({
            let (u1, s1, p1) = update_next(UpdateStage::AwaitClock, s, ReplyView::Time(now));
            let (u2, s2, p2) = update_next(u1, s1, ReplyView::Time(later));
            let (u3, s3, p3) = update_next(u2, s2, ReplyView::Time(s.last_vert_mod_time));
            let (u4, s4, p4) = update_next(u3, s3, ReplyView::Time(s.last_frag_mod_time));
            &&& p1 == ProgressView::<()>::Issue(seq![Command::ReadClock])
            &&& p2 == ProgressView::<()>::Issue(
                seq![Command::ReadModTime { stage: ShaderStage::Vertex }],
            )
            &&& p3 == ProgressView::<()>::Issue(
                seq![Command::ReadModTime { stage: ShaderStage::Fragment }],
            )
            &&& p4 == ProgressView::Finish(seq![], ())
            &&& s4 == ShaderState { last_check_time: later, ..s }
            &&& u4 == UpdateStage::Finished
        }),
{
}

/// A source whose modification time differs from the one recorded is read
/// again; that second reading is recorded, the change announced, and the
/// program rebuilt from both sources becomes the shader's program.
pub proof fn update_reloads_a_changed_source(
    stage: ShaderStage,
    s: ShaderState,
    seen: Timestamp,
    reread: Timestamp,
    program: u32,
)
    requires
        seen != mod_time(s, stage),
    ensures
        ({
            let (u1, s1, p1) = update_next(UpdateStage::Compare { stage }, s, ReplyView::Time(seen));
            let (u2, s2, p2) = update_next(u1, s1, ReplyView::Time(reread));
            let (u3, s3, p3) = update_next(u2, s2, ReplyView::Built(OutcomeView::Ready(program)));
            &&& p1 == ProgressView::<()>::Issue(seq![Command::ReadModTime { stage }])
            &&& p2 == ProgressView::<()>::Issue(
                seq![Command::AnnounceModified { stage }, Command::LoadProgram],
            )
            &&& s3 == ShaderState { program_id: program, ..with_mod_time(s, stage, reread) }
            &&& (u3, p3) == after_source(stage)
        }),
{
}

/// A rebuild that fails after a source changed stops the check; the new
/// modification time stays recorded and the old program stays current.
pub proof fn update_stops_when_a_reload_fails(
    stage: ShaderStage,
    s: ShaderState,
    message: Seq<char>,
)
    ensures
        update_next(
            UpdateStage::AwaitReload { stage },
            s,
            ReplyView::Built(OutcomeView::Failed(message)),
        ) == (UpdateStage::Finished, s, ProgressView::<()>::Fault(Fault::ReloadFailed)),
{
}

/// Where a reload check stands, and the shader's state, after `replies`
/// were fed in order to a check that stood at `stage` with state `s`.
pub open spec fn update_run(stage: UpdateStage, s: ShaderState, replies: Seq<ReplyView>) -> (
    UpdateStage,
    ShaderState,
)
    decreases replies.len(),
{
    if replies.len() == 0 {
        (stage, s)
    } else {
        let (u, t) = update_run(stage, s, replies.drop_last());
        let (u2, t2, _) = update_next(u, t, replies.last());
        (u2, t2)
    }
}

/// The program of the latest successful rebuild among `replies` (a
/// `Built(Ready(p))` answered while the check awaited a reload), or `s`'s
/// program if there was none.
pub open spec fn latest_program(stage: UpdateStage, s: ShaderState, replies: Seq<ReplyView>) -> u32
    decreases replies.len(),
{
    if replies.len() == 0 {
        s.program_id
    } else {
        let (u, _) = update_run(stage, s, replies.drop_last());
        match (u, replies.last()) {
            (UpdateStage::AwaitReload { .. }, ReplyView::Built(OutcomeView::Ready(p))) => p,
            _ => latest_program(stage, s, replies.drop_last()),
        }
    }
}

/// The latest modification time of `source` recorded among `replies` (a
/// `Time(t)` answered while the check stood at `Record { stage: source }`),
/// or the one `s` holds if there was none.
pub open spec fn latest_mod_time(
    source: ShaderStage,
    stage: UpdateStage,
    s: ShaderState,
    replies: Seq<ReplyView>,
) -> Timestamp
    decreases replies.len(),
{
    if replies.len() == 0 {
        mod_time(s, source)
    } else {
        let (u, _) = update_run(stage, s, replies.drop_last());
        match (u, replies.last()) {
            (UpdateStage::Record { stage: st }, ReplyView::Time(t)) if st == source => t,
            _ => latest_mod_time(source, stage, s, replies.drop_last()),
        }
    }
}

/// A check enters `Record { stage }` only by asking for the modification
/// time of `stage`'s source, and `AwaitReload { stage }` only by asking for
/// the program to be rebuilt: the replies taken there are a file's
/// modification time and the outcome of a rebuild.
pub proof fn update_asks_before_recording(stage: UpdateStage, s: ShaderState, reply: ReplyView)
    ensures
        ({
            let (u, _, p) = update_next(stage, s, reply);
            &&& u matches UpdateStage::Record { stage: st } ==> p == ProgressView::<()>::Issue(
                seq![Command::ReadModTime { stage: st }],
            )
            &&& u matches UpdateStage::AwaitReload { stage: st } ==> p == ProgressView::<()>::Issue(
                seq![Command::AnnounceModified { stage: st }, Command::LoadProgram],
            )
        }),
{
}

/// Over any sequence of replies, the shader's program is the one of the
/// latest successful rebuild (or the one it had), and each source's
/// modification time is the latest reading recorded for it (or the one it
/// had).
pub proof fn update_keeps_latest_program_and_times(
    stage: UpdateStage,
    s: ShaderState,
    replies: Seq<ReplyView>,
)
    ensures
        update_run(stage, s, replies).1.program_id == latest_program(stage, s, replies),
        update_run(stage, s, replies).1.last_vert_mod_time == latest_mod_time(
            ShaderStage::Vertex,
            stage,
            s,
            replies,
        ),
        update_run(stage, s, replies).1.last_frag_mod_time == latest_mod_time(
            ShaderStage::Fragment,
            stage,
            s,
            replies,
        ),
    decreases replies.len(),
{
    if replies.len() > 0 {
        update_keeps_latest_program_and_times(stage, s, replies.drop_last());
    }
}

/// A reload check is due exactly when at least two seconds (2e9
/// nanoseconds) have passed since the last check, whenever that was: then
/// the clock is read again; before that the check ends at once and the
/// shader stays as it is.
pub proof fn update_is_due_after_two_seconds(s: ShaderState, now: Timestamp)
    requires
        s.last_check_time.nanos <= now.nanos,
    ensures
        now.nanos - s.last_check_time.nanos >= 2_000_000_000 ==> update_next(
            UpdateStage::AwaitClock,
            s,
            ReplyView::Time(now),
        ) == (UpdateStage::AwaitRecheck, s, ProgressView::<()>::Issue(seq![Command::ReadClock])),
        now.nanos - s.last_check_time.nanos < 2_000_000_000 ==> update_next(
            UpdateStage::AwaitClock,
            s,
            ReplyView::Time(now),
        ) == (UpdateStage::Finished, s, ProgressView::<()>::Finish(seq![], ())),
{
    whole_secs_is_the_floor(s.last_check_time, now);
}

} // verus!
