//! Compiling one shader source and linking shaders into a program, with the
//! driver's info log as the error when either fails.
use vstd::prelude::*;

use crate::info_log::{ascii_chars, decode_lossy, is_ascii, utf8_lossy};
use crate::protocol::{
    Command, Fault, ObjectParam, Outcome, OutcomeView, Progress, ProgressView, Reply, ReplyView,
    ShaderStage,
};
use crate::shader::Shader;

verus! {

/// Where the compilation of one shader stands.
#[derive(Clone, Copy, PartialEq, Eq, Debug)]
pub enum CompileStage {
    /// Waiting for the name of the new shader object.
    AwaitShader,
    /// Waiting for the compile status of `shader`.
    AwaitStatus { shader: u32 },
    /// Compilation failed; waiting for the length of the info log.
    AwaitLogLength { shader: u32 },
    /// Waiting for the info-log buffer.
    AwaitLog { shader: u32 },
    /// The compilation is over.
    Finished,
}

/// How a compilation moves on from `stage` on `reply`.
pub open spec fn compile_next(stage: CompileStage, reply: ReplyView) -> (
    CompileStage,
    ProgressView<OutcomeView<u32>>,
) {
    match (stage, reply) {
        (CompileStage::AwaitShader, ReplyView::Object(shader)) => (
            CompileStage::AwaitStatus { shader },
            ProgressView::Issue(
                seq![
                    Command::ShaderSource { shader },
                    Command::CompileShader { shader },
                    Command::ShaderParam { shader, param: ObjectParam::CompileStatus },
                ],
            ),
        ),
        (CompileStage::AwaitStatus { shader }, ReplyView::Int(status)) => if status == 0 {
            (
                CompileStage::AwaitLogLength { shader },
                ProgressView::Issue(
                    seq![Command::ShaderParam { shader, param: ObjectParam::InfoLogLength }],
                ),
            )
        } else {
            (CompileStage::Finished, ProgressView::Finish(seq![], OutcomeView::Ready(shader)))
        },
        (CompileStage::AwaitLogLength { shader }, ReplyView::Int(len)) => if len < 0 {
            (CompileStage::Finished, ProgressView::Fault(Fault::NegativeLogLength))
        } else {
            (
                CompileStage::AwaitLog { shader },
                ProgressView::Issue(seq![Command::ShaderInfoLog { shader, max_len: len }]),
            )
        },
        (CompileStage::AwaitLog { shader }, ReplyView::Bytes(buffer)) => (
            CompileStage::Finished,
            ProgressView::Finish(seq![], OutcomeView::Failed(utf8_lossy(buffer))),
        ),
        _ => (CompileStage::Finished, ProgressView::Fault(Fault::UnexpectedReply)),
    }
}

/// The compilation of one shader source, in progress.
pub struct CompileRun {
    stage: CompileStage,
}

impl CompileRun {
    /// Where the compilation stands.
    pub closed spec fn stage(&self) -> CompileStage {
        self.stage
    }

    /// Takes the reply to the last command issued and says what comes next.
    pub fn step(&mut self, reply: Reply) -> (p: Progress<Outcome<u32>>)
        ensures
            (final(self).stage(), p@) == compile_next(old(self).stage(), reply@),
            old(self).stage() is AwaitLog && reply@ is Bytes && is_ascii(reply@->Bytes_0) ==> p@
                == ProgressView::Finish(
                seq![],
                OutcomeView::<u32>::Failed(ascii_chars(reply@->Bytes_0)),
            ),
    {
        match (self.stage, reply) {
            (CompileStage::AwaitShader, Reply::Object(shader)) => {
                self.stage = CompileStage::AwaitStatus { shader };
                let mut calls: Vec<Command> = Vec::new();
                calls.push(Command::ShaderSource { shader });
                calls.push(Command::CompileShader { shader });
                calls.push(Command::ShaderParam { shader, param: ObjectParam::CompileStatus });
                assert(calls@ =~= seq![
                    Command::ShaderSource { shader },
                    Command::CompileShader { shader },
                    Command::ShaderParam { shader, param: ObjectParam::CompileStatus },
                ]);
                Progress::Issue(calls)
            },
            (CompileStage::AwaitStatus { shader }, Reply::Int(status)) => {
                if status == 0 {
                    self.stage = CompileStage::AwaitLogLength { shader };
                    let mut calls: Vec<Command> = Vec::new();
                    calls.push(Command::ShaderParam { shader, param: ObjectParam::InfoLogLength });
                    assert(calls@ =~= seq![
                        Command::ShaderParam { shader, param: ObjectParam::InfoLogLength },
                    ]);
                    Progress::Issue(calls)
                } else {
                    self.stage = CompileStage::Finished;
                    let calls: Vec<Command> = Vec::new();
                    assert(calls@ =~= Seq::<Command>::empty());
                    Progress::Finish(calls, Outcome::Ready(shader))
                }
            },
            (CompileStage::AwaitLogLength { shader }, Reply::Int(len)) => {
                if len < 0 {
                    self.stage = CompileStage::Finished;
                    Progress::Fault(Fault::NegativeLogLength)
                } else {
                    self.stage = CompileStage::AwaitLog { shader };
                    let mut calls: Vec<Command> = Vec::new();
                    calls.push(Command::ShaderInfoLog { shader, max_len: len });
                    assert(calls@ =~= seq![Command::ShaderInfoLog { shader, max_len: len }]);
                    Progress::Issue(calls)
                }
            },
            (CompileStage::AwaitLog { shader }, Reply::Bytes(buffer)) => {
                self.stage = CompileStage::Finished;
                let message = decode_lossy(buffer.as_slice());
                let calls: Vec<Command> = Vec::new();
                assert(calls@ =~= Seq::<Command>::empty());
                Progress::Finish(calls, Outcome::Failed(message))
            },
            _ => {
                self.stage = CompileStage::Finished;
                Progress::Fault(Fault::UnexpectedReply)
            },
        }
    }
}

/// Where the linking of a program stands.
#[derive(Clone, Copy, PartialEq, Eq, Debug)]
pub enum LinkStage {
    /// Waiting for the name of the new program object.
    AwaitProgram,
    /// Waiting for the link status of `program`.
    AwaitStatus { program: u32 },
    /// Linking failed; waiting for the length of the info log.
    AwaitLogLength { program: u32 },
    /// Waiting for the info-log buffer.
    AwaitLog { program: u32 },
    /// The linking is over.
    Finished,
}

/// Attaching each of `shaders` to `program`, in order.
pub open spec fn attach_calls(program: u32, shaders: Seq<u32>) -> Seq<Command> {
    shaders.map_values(|shader: u32| Command::AttachShader { program, shader })
}

/// Detaching each of `shaders` from `program`, in order.
pub open spec fn detach_calls(program: u32, shaders: Seq<u32>) -> Seq<Command> {
    shaders.map_values(|shader: u32| Command::DetachShader { program, shader })
}

/// How a linking of `shaders` moves on from `stage` on `reply`.
pub open spec fn link_next(stage: LinkStage, shaders: Seq<u32>, reply: ReplyView) -> (
    LinkStage,
    ProgressView<OutcomeView<u32>>,
) {
    match (stage, reply) {
        (LinkStage::AwaitProgram, ReplyView::Object(program)) => (
            LinkStage::AwaitStatus { program },
            ProgressView::Issue(
                attach_calls(program, shaders) + seq![
                    Command::LinkProgram { program },
                    Command::ProgramParam { program, param: ObjectParam::LinkStatus },
                ],
            ),
        ),
        (LinkStage::AwaitStatus { program }, ReplyView::Int(status)) => if status == 0 {
            (
                LinkStage::AwaitLogLength { program },
                ProgressView::Issue(
                    seq![Command::ProgramParam { program, param: ObjectParam::InfoLogLength }],
                ),
            )
        } else {
            (
                LinkStage::Finished,
                ProgressView::Finish(detach_calls(program, shaders), OutcomeView::Ready(program)),
            )
        },
        (LinkStage::AwaitLogLength { program }, ReplyView::Int(len)) => if len < 0 {
            (LinkStage::Finished, ProgressView::Fault(Fault::NegativeLogLength))
        } else {
            (
                LinkStage::AwaitLog { program },
                ProgressView::Issue(seq![Command::ProgramInfoLog { program, max_len: len }]),
            )
        },
        (LinkStage::AwaitLog { program }, ReplyView::Bytes(buffer)) => (
            LinkStage::Finished,
            ProgressView::Finish(seq![], OutcomeView::Failed(utf8_lossy(buffer))),
        ),
        _ => (LinkStage::Finished, ProgressView::Fault(Fault::UnexpectedReply)),
    }
}

/// The linking of a program from shaders, in progress.
pub struct LinkRun {
    stage: LinkStage,
    shaders: Vec<u32>,
}

/// One command per shader: attach (or detach) it to (from) `program`.
fn per_shader_calls(program: u32, shaders: &Vec<u32>, attach: bool) -> (calls: Vec<Command>)
    ensures
        calls@ == if attach {
            attach_calls(program, shaders@)
        } else {
            detach_calls(program, shaders@)
        },
{
    let mut calls: Vec<Command> = Vec::new();
    let mut i: usize = 0;
    while i < shaders.len()
        invariant
            i <= shaders@.len(),
            calls@ == if attach {
                attach_calls(program, shaders@.take(i as int))
            } else {
                detach_calls(program, shaders@.take(i as int))
            },
        decreases shaders@.len() - i,
    {
        let shader: u32 = shaders[i];
        if attach {
            calls.push(Command::AttachShader { program, shader });
        } else {
            calls.push(Command::DetachShader { program, shader });
        }
        assert(shaders@.take(i + 1) =~= shaders@.take(i as int).push(shader));
        i = i + 1;
        proof {
            if attach {
                assert(calls@ =~= attach_calls(program, shaders@.take(i as int)));
            } else {
                assert(calls@ =~= detach_calls(program, shaders@.take(i as int)));
            }
        }
    }
    assert(shaders@.take(i as int) =~= shaders@);
    calls
}

impl LinkRun {
    /// Where the linking stands.
    pub closed spec fn stage(&self) -> LinkStage {
        self.stage
    }

    /// The shaders being linked, in the order given.
    pub closed spec fn shaders(&self) -> Seq<u32> {
        self.shaders@
    }

    /// Takes the reply to the last command issued and says what comes next.
    pub fn step(&mut self, reply: Reply) -> (p: Progress<Outcome<u32>>)
        ensures
            (final(self).stage(), p@) == link_next(old(self).stage(), old(self).shaders(), reply@),
            final(self).shaders() == old(self).shaders(),
            old(self).stage() is AwaitLog && reply@ is Bytes && is_ascii(reply@->Bytes_0) ==> p@
                == ProgressView::Finish(
                seq![],
                OutcomeView::<u32>::Failed(ascii_chars(reply@->Bytes_0)),
            ),
    {
        match (self.stage, reply) {
            (LinkStage::AwaitProgram, Reply::Object(program)) => {
                self.stage = LinkStage::AwaitStatus { program };
                let mut calls = per_shader_calls(program, &self.shaders, true);
                let ghost attached = calls@;
                calls.push(Command::LinkProgram { program });
                calls.push(Command::ProgramParam { program, param: ObjectParam::LinkStatus });
                assert(calls@ =~= attached + seq![
                    Command::LinkProgram { program },
                    Command::ProgramParam { program, param: ObjectParam::LinkStatus },
                ]);
                Progress::Issue(calls)
            },
            (LinkStage::AwaitStatus { program }, Reply::Int(status)) => {
                if status == 0 {
                    self.stage = LinkStage::AwaitLogLength { program };
                    let mut calls: Vec<Command> = Vec::new();
                    calls.push(Command::ProgramParam { program, param: ObjectParam::InfoLogLength });
                    assert(calls@ =~= seq![
                        Command::ProgramParam { program, param: ObjectParam::InfoLogLength },
                    ]);
                    Progress::Issue(calls)
                } else {
                    self.stage = LinkStage::Finished;
                    let calls = per_shader_calls(program, &self.shaders, false);
                    Progress::Finish(calls, Outcome::Ready(program))
                }
            },
            (LinkStage::AwaitLogLength { program }, Reply::Int(len)) => {
                if len < 0 {
                    self.stage = LinkStage::Finished;
                    Progress::Fault(Fault::NegativeLogLength)
                } else {
                    self.stage = LinkStage::AwaitLog { program };
                    let mut calls: Vec<Command> = Vec::new();
                    calls.push(Command::ProgramInfoLog { program, max_len: len });
                    assert(calls@ =~= seq![Command::ProgramInfoLog { program, max_len: len }]);
                    Progress::Issue(calls)
                }
            },
            (LinkStage::AwaitLog { program }, Reply::Bytes(buffer)) => {
                self.stage = LinkStage::Finished;
                let message = decode_lossy(buffer.as_slice());
                let calls: Vec<Command> = Vec::new();
                assert(calls@ =~= Seq::<Command>::empty());
                Progress::Finish(calls, Outcome::Failed(message))
            },
            _ => {
                self.stage = LinkStage::Finished;
                Progress::Fault(Fault::UnexpectedReply)
            },
        }
    }
}

impl Shader {
    /// Starts compiling the source read for `stage` into a new shader object.
    /// The object's name is the result when the driver reports a nonzero
    /// compile status; otherwise the driver's info log is the error (the
    /// object is not deleted).
    pub fn shader_from_source(stage: ShaderStage) -> (r: (CompileRun, Vec<Command>))
        ensures
            r.0.stage() == CompileStage::AwaitShader,
            r.1@ == seq![Command::CreateShader { stage }],
    {
        let mut calls: Vec<Command> = Vec::new();
        calls.push(Command::CreateShader { stage });
        assert(calls@ =~= seq![Command::CreateShader { stage }]);
        (CompileRun { stage: CompileStage::AwaitShader }, calls)
    }

    /// Starts linking `shader_ids`, in order, into a new program. On a
    /// nonzero link status the shaders are detached again and the program's
    /// name is the result; otherwise the driver's info log is the error (the
    /// shaders stay attached and the program is not deleted).
    pub fn program_from_shaders(shader_ids: &[u32]) -> (r: (LinkRun, Vec<Command>))
        ensures
            r.0.stage() == LinkStage::AwaitProgram,
            r.0.shaders() == shader_ids@,
            r.1@ == seq![Command::CreateProgram],
    {
        let mut shaders: Vec<u32> = Vec::new();
        let mut i: usize = 0;
        while i < shader_ids.len()
            invariant
                i <= shader_ids@.len(),
                shaders@ == shader_ids@.take(i as int),
            decreases shader_ids@.len() - i,
        {
            shaders.push(shader_ids[i]);
            i = i + 1;
            assert(shaders@ =~= shader_ids@.take(i as int));
        }
        assert(shader_ids@.take(i as int) =~= shader_ids@);
        let mut calls: Vec<Command> = Vec::new();
        calls.push(Command::CreateProgram);
        assert(calls@ =~= seq![Command::CreateProgram]);
        (LinkRun { stage: LinkStage::AwaitProgram, shaders }, calls)
    }
}

/// A shader compiles exactly when the driver reports a nonzero status: the
/// source is handed to the object the driver created, it is compiled, its
/// status is read, and that object's name is the result.
pub proof fn compile_succeeds_on_nonzero_status(shader: u32, status: i32)
    requires
        status != 0,
    ensures
        ({
            let (s1, p1) = compile_next(CompileStage::AwaitShader, ReplyView::Object(shader));
            let (s2, p2) = compile_next(s1, ReplyView::Int(status));
            &&& p1 == ProgressView::<OutcomeView<u32>>::Issue(
                seq![
                    Command::ShaderSource { shader },
                    Command::CompileShader { shader },
                    Command::ShaderParam { shader, param: ObjectParam::CompileStatus },
                ],
            )
            &&& p2 == ProgressView::Finish(seq![], OutcomeView::Ready(shader))
            &&& s2 == CompileStage::Finished
        }),
{
}

/// On a zero compile status the info log is fetched with the length the
/// driver reports, and its decoded text is the error.
pub proof fn compile_fails_with_the_log(shader: u32, len: i32, buffer: Seq<u8>)
    requires
        len >= 0,
    ensures
        ({
            let (s1, p1) = compile_next(CompileStage::AwaitStatus { shader }, ReplyView::Int(0));
            let (s2, p2) = compile_next(s1, ReplyView::Int(len));
            let (s3, p3) = compile_next(s2, ReplyView::Bytes(buffer));
            &&& p1 == ProgressView::<OutcomeView<u32>>::Issue(
                seq![Command::ShaderParam { shader, param: ObjectParam::InfoLogLength }],
            )
            &&& p2 == ProgressView::<OutcomeView<u32>>::Issue(
                seq![Command::ShaderInfoLog { shader, max_len: len }],
            )
            &&& p3 == ProgressView::Finish(seq![], OutcomeView::<u32>::Failed(utf8_lossy(buffer)))
            &&& s3 == CompileStage::Finished
        }),
{
}

/// A program links exactly when the driver reports a nonzero status: every
/// shader is attached in the order given before the link, and on success
/// each is detached again, in the same order, before the program's name is
/// the result.
pub proof fn link_attaches_then_detaches(shaders: Seq<u32>, program: u32, status: i32)
    requires
        status != 0,
    ensures
        ({
            let (s1, p1) = link_next(LinkStage::AwaitProgram, shaders, ReplyView::Object(program));
            let (s2, p2) = link_next(s1, shaders, ReplyView::Int(status));
            &&& p1 == ProgressView::<OutcomeView<u32>>::Issue(
                attach_calls(program, shaders) + seq![
                    Command::LinkProgram { program },
                    Command::ProgramParam { program, param: ObjectParam::LinkStatus },
                ],
            )
            &&& p2 == ProgressView::Finish(detach_calls(program, shaders), OutcomeView::Ready(program))
            &&& forall|i: int|
                0 <= i < shaders.len() ==> attach_calls(program, shaders)[i]
                    == Command::AttachShader { program, shader: shaders[i] }
                    && detach_calls(program, shaders)[i]
                    == Command::DetachShader { program, shader: shaders[i] }
            &&& attach_calls(program, shaders).len() == shaders.len()
            &&& detach_calls(program, shaders).len() == shaders.len()
        }),
{
}

/// When linking fails, nothing is detached: the info log's decoded text is
/// the error and the shaders stay attached.
pub proof fn link_fails_with_the_log(shaders: Seq<u32>, program: u32, len: i32, buffer: Seq<u8>)
    requires
        len >= 0,
    ensures
        ({
            let (s1, p1) = link_next(LinkStage::AwaitStatus { program }, shaders, ReplyView::Int(0));
            let (s2, p2) = link_next(s1, shaders, ReplyView::Int(len));
            let (s3, p3) = link_next(s2, shaders, ReplyView::Bytes(buffer));
            &&& p1 == ProgressView::<OutcomeView<u32>>::Issue(
                seq![Command::ProgramParam { program, param: ObjectParam::InfoLogLength }],
            )
            &&& p2 == ProgressView::<OutcomeView<u32>>::Issue(
                seq![Command::ProgramInfoLog { program, max_len: len }],
            )
            &&& p3 == ProgressView::Finish(seq![], OutcomeView::<u32>::Failed(utf8_lossy(buffer)))
        }),
{
}

/// From a fresh compilation, for every shader name the driver hands out: on
/// a zero compile status the log length of that shader is asked for, then its
/// log, and the compilation fails with the decoded log; nothing is reported
/// as compiled.
pub proof fn compile_failure_from_the_start(shader: u32, len: i32, buffer: Seq<u8>)
    requires
        len >= 0,
    ensures
        ({
            let (s1, p1) = compile_next(CompileStage::AwaitShader, ReplyView::Object(shader));
            let (s2, p2) = compile_next(s1, ReplyView::Int(0));
            let (s3, p3) = compile_next(s2, ReplyView::Int(len));
            let (s4, p4) = compile_next(s3, ReplyView::Bytes(buffer));
            &&& p1 == ProgressView::<OutcomeView<u32>>::Issue(
                seq![
                    Command::ShaderSource { shader },
                    Command::CompileShader { shader },
                    Command::ShaderParam { shader, param: ObjectParam::CompileStatus },
                ],
            )
            &&& p2 == ProgressView::<OutcomeView<u32>>::Issue(
                seq![Command::ShaderParam { shader, param: ObjectParam::InfoLogLength }],
            )
            &&& p3 == ProgressView::<OutcomeView<u32>>::Issue(
                seq![Command::ShaderInfoLog { shader, max_len: len }],
            )
            &&& p4 == ProgressView::Finish(seq![], OutcomeView::<u32>::Failed(utf8_lossy(buffer)))
            &&& s4 == CompileStage::Finished
        }),
{
}

/// From a fresh link, for every program name the driver hands out and every
/// list of shaders: on a zero link status the log length of that program is
/// asked for, then its log, and the link fails with the decoded log, with no
/// shader detached.
pub proof fn link_failure_from_the_start(
    shaders: Seq<u32>,
    program: u32,
    len: i32,
    buffer: Seq<u8>,
)
    requires
        len >= 0,
    ensures
        ({
            let (s1, p1) = link_next(LinkStage::AwaitProgram, shaders, ReplyView::Object(program));
            let (s2, p2) = link_next(s1, shaders, ReplyView::Int(0));
            let (s3, p3) = link_next(s2, shaders, ReplyView::Int(len));
            let (s4, p4) = link_next(s3, shaders, ReplyView::Bytes(buffer));
            &&& p1 == ProgressView::<OutcomeView<u32>>::Issue(
                attach_calls(program, shaders) + seq![
                    Command::LinkProgram { program },
                    Command::ProgramParam { program, param: ObjectParam::LinkStatus },
                ],
            )
            &&& p2 == ProgressView::<OutcomeView<u32>>::Issue(
                seq![Command::ProgramParam { program, param: ObjectParam::InfoLogLength }],
            )
            &&& p3 == ProgressView::<OutcomeView<u32>>::Issue(
                seq![Command::ProgramInfoLog { program, max_len: len }],
            )
            &&& p4 == ProgressView::Finish(seq![], OutcomeView::<u32>::Failed(utf8_lossy(buffer)))
            &&& s4 == LinkStage::Finished
        }),
{
}

} // verus!
