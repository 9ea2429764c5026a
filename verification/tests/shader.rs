use framework::clock::Timestamp;
use framework::info_log::create_whitespace_cstring_with_len;
use framework::protocol::{Command, Fault, ObjectParam, Outcome, Progress, Reply, ShaderStage};
use framework::shader::Shader;

fn at(secs: i128) -> Timestamp {
    Timestamp { nanos: secs * 1_000_000_000 }
}

fn issued<T>(p: Progress<T>) -> Vec<Command> {
    match p {
        Progress::Issue(calls) => calls,
        Progress::Finish(..) => panic!("finished early"),
        Progress::Fault(f) => panic!("fault: {:?}", f),
    }
}

fn finished<T>(p: Progress<T>) -> (Vec<Command>, T) {
    match p {
        Progress::Finish(calls, r) => (calls, r),
        Progress::Issue(calls) => panic!("more commands: {:?}", calls),
        Progress::Fault(f) => panic!("fault: {:?}", f),
    }
}

fn fault<T>(p: Progress<T>) -> Fault {
    match p {
        Progress::Fault(f) => f,
        _ => panic!("expected a fault"),
    }
}

/// A shader built with program 7, vertex source from 100 s, fragment source
/// from 200 s, constructed at 1000 s.
fn built_shader() -> Shader {
    let (mut run, first) = Shader::new();
    assert_eq!(first, vec![Command::ReadModTime { stage: ShaderStage::Vertex }]);
    assert_eq!(
        issued(run.step(Reply::Time(at(100)))),
        vec![Command::ReadModTime { stage: ShaderStage::Fragment }]
    );
    assert_eq!(issued(run.step(Reply::Time(at(200)))), vec![Command::ReadClock]);
    assert_eq!(issued(run.step(Reply::Time(at(1000)))), vec![Command::LoadProgram]);
    let (calls, outcome) = finished(run.step(Reply::Built(Outcome::Ready(7))));
    assert!(calls.is_empty());
    match outcome {
        Outcome::Ready(shader) => shader,
        Outcome::Failed(m) => panic!("{}", m),
    }
}

#[test]
fn whitespace_buffer_holds_len_spaces() {
    assert_eq!(create_whitespace_cstring_with_len(0), vec![0u8]);
    assert_eq!(create_whitespace_cstring_with_len(3), vec![b' ', b' ', b' ', 0u8]);
    assert_eq!(create_whitespace_cstring_with_len(4), b"    \0".to_vec());
}

#[test]
fn compile_succeeds_on_nonzero_status() {
    let (mut run, first) = Shader::shader_from_source(ShaderStage::Vertex);
    assert_eq!(first, vec![Command::CreateShader { stage: ShaderStage::Vertex }]);
    assert_eq!(
        issued(run.step(Reply::Object(3))),
        vec![
            Command::ShaderSource { shader: 3 },
            Command::CompileShader { shader: 3 },
            Command::ShaderParam { shader: 3, param: ObjectParam::CompileStatus },
        ]
    );
    let (calls, outcome) = finished(run.step(Reply::Int(1)));
    assert!(calls.is_empty());
    assert_eq!(outcome.into_result(), Ok(3));
}

#[test]
fn compile_fails_with_the_info_log() {
    let (mut run, _) = Shader::shader_from_source(ShaderStage::Fragment);
    issued(run.step(Reply::Object(4)));
    assert_eq!(
        issued(run.step(Reply::Int(0))),
        vec![Command::ShaderParam { shader: 4, param: ObjectParam::InfoLogLength }]
    );
    assert_eq!(
        issued(run.step(Reply::Int(6))),
        vec![Command::ShaderInfoLog { shader: 4, max_len: 6 }]
    );
    let (calls, outcome) = finished(run.step(Reply::Bytes(b"error\0".to_vec())));
    assert!(calls.is_empty());
    assert_eq!(outcome.into_result(), Err("error\0".to_string()));
}

#[test]
fn compile_log_replaces_invalid_utf8() {
    let (mut run, _) = Shader::shader_from_source(ShaderStage::Vertex);
    issued(run.step(Reply::Object(1)));
    issued(run.step(Reply::Int(0)));
    issued(run.step(Reply::Int(3)));
    let (_, outcome) = finished(run.step(Reply::Bytes(vec![b'a', 0xff, b'b'])));
    assert_eq!(outcome.into_result(), Err("a\u{fffd}b".to_string()));
}

#[test]
fn compile_refuses_a_negative_log_length() {
    let (mut run, _) = Shader::shader_from_source(ShaderStage::Vertex);
    issued(run.step(Reply::Object(1)));
    issued(run.step(Reply::Int(0)));
    assert_eq!(fault(run.step(Reply::Int(-1))), Fault::NegativeLogLength);
}

#[test]
fn compile_faults_on_a_wrong_reply() {
    let (mut run, _) = Shader::shader_from_source(ShaderStage::Vertex);
    assert_eq!(fault(run.step(Reply::Int(1))), Fault::UnexpectedReply);
}

#[test]
fn link_attaches_links_and_detaches_in_order() {
    let (mut run, first) = Shader::program_from_shaders(&[3, 4]);
    assert_eq!(first, vec![Command::CreateProgram]);
    assert_eq!(
        issued(run.step(Reply::Object(9))),
        vec![
            Command::AttachShader { program: 9, shader: 3 },
            Command::AttachShader { program: 9, shader: 4 },
            Command::LinkProgram { program: 9 },
            Command::ProgramParam { program: 9, param: ObjectParam::LinkStatus },
        ]
    );
    let (calls, outcome) = finished(run.step(Reply::Int(1)));
    assert_eq!(
        calls,
        vec![
            Command::DetachShader { program: 9, shader: 3 },
            Command::DetachShader { program: 9, shader: 4 },
        ]
    );
    assert_eq!(outcome.into_result(), Ok(9));
}

#[test]
fn link_of_no_shaders() {
    let (mut run, _) = Shader::program_from_shaders(&[]);
    assert_eq!(
        issued(run.step(Reply::Object(2))),
        vec![
            Command::LinkProgram { program: 2 },
            Command::ProgramParam { program: 2, param: ObjectParam::LinkStatus },
        ]
    );
    let (calls, outcome) = finished(run.step(Reply::Int(1)));
    assert!(calls.is_empty());
    assert_eq!(outcome.into_result(), Ok(2));
}

#[test]
fn link_failure_keeps_shaders_attached() {
    let (mut run, _) = Shader::program_from_shaders(&[3, 4]);
    issued(run.step(Reply::Object(9)));
    assert_eq!(
        issued(run.step(Reply::Int(0))),
        vec![Command::ProgramParam { program: 9, param: ObjectParam::InfoLogLength }]
    );
    assert_eq!(
        issued(run.step(Reply::Int(4))),
        vec![Command::ProgramInfoLog { program: 9, max_len: 4 }]
    );
    let (calls, outcome) = finished(run.step(Reply::Bytes(b"bad\0".to_vec())));
    assert!(calls.is_empty());
    assert_eq!(outcome.into_result(), Err("bad\0".to_string()));
}

#[test]
fn load_compiles_links_and_deletes() {
    let (mut run, first) = Shader::load();
    assert_eq!(first, vec![Command::CompileFile { stage: ShaderStage::Vertex }]);
    assert_eq!(
        issued(run.step(Reply::Built(Outcome::Ready(1)))),
        vec![Command::CompileFile { stage: ShaderStage::Fragment }]
    );
    assert_eq!(
        issued(run.step(Reply::Built(Outcome::Ready(2)))),
        vec![Command::LinkShaders { vertex: 1, fragment: 2 }]
    );
    let (calls, outcome) = finished(run.step(Reply::Built(Outcome::Ready(3))));
    assert_eq!(
        calls,
        vec![Command::DeleteShader { shader: 1 }, Command::DeleteShader { shader: 2 }]
    );
    assert_eq!(outcome.into_result(), Ok(3));
}

#[test]
fn load_stops_when_the_vertex_source_fails() {
    let (mut run, _) = Shader::load();
    let (calls, outcome) =
        finished(run.step(Reply::Built(Outcome::Failed("vertex log".to_string()))));
    assert!(calls.is_empty());
    assert_eq!(outcome.into_result(), Err("vertex log".to_string()));
}

#[test]
fn load_keeps_the_vertex_shader_when_the_fragment_fails() {
    let (mut run, _) = Shader::load();
    issued(run.step(Reply::Built(Outcome::Ready(1))));
    let (calls, outcome) =
        finished(run.step(Reply::Built(Outcome::Failed("fragment log".to_string()))));
    assert!(calls.is_empty());
    assert_eq!(outcome.into_result(), Err("fragment log".to_string()));
}

#[test]
fn load_deletes_nothing_when_linking_fails() {
    let (mut run, _) = Shader::load();
    issued(run.step(Reply::Built(Outcome::Ready(1))));
    issued(run.step(Reply::Built(Outcome::Ready(2))));
    let (calls, outcome) =
        finished(run.step(Reply::Built(Outcome::Failed("link log".to_string()))));
    assert!(calls.is_empty());
    assert_eq!(outcome.into_result(), Err("link log".to_string()));
}

#[test]
fn new_records_times_and_program() {
    let shader = built_shader();
    assert_eq!(shader.program_id(), 7);
    assert_eq!(shader.last_vert_mod_time(), at(100));
    assert_eq!(shader.last_frag_mod_time(), at(200));
    assert_eq!(shader.last_check_time(), at(1000));
}

#[test]
fn new_fails_when_loading_fails() {
    let (mut run, _) = Shader::new();
    issued(run.step(Reply::Time(at(1))));
    issued(run.step(Reply::Time(at(2))));
    issued(run.step(Reply::Time(at(3))));
    match finished(run.step(Reply::Built(Outcome::Failed("no".to_string())))).1 {
        Outcome::Failed(m) => assert_eq!(m, "no"),
        Outcome::Ready(_) => panic!("expected a failure"),
    }
}

#[test]
fn update_waits_two_whole_seconds() {
    let mut shader = built_shader();
    let (mut run, first) = shader.update();
    assert_eq!(first, vec![Command::ReadClock]);
    let just_short = Timestamp { nanos: at(1002).nanos - 1 };
    let (calls, ()) = finished(run.step(&mut shader, Reply::Time(just_short)));
    assert!(calls.is_empty());
    assert_eq!(shader.last_check_time(), at(1000));
    assert_eq!(shader.program_id(), 7);
}

#[test]
fn update_refuses_a_clock_going_back() {
    let mut shader = built_shader();
    let (mut run, _) = shader.update();
    assert_eq!(fault(run.step(&mut shader, Reply::Time(at(999)))), Fault::ClockWentBackwards);
}

#[test]
fn update_without_changes_only_records_the_check() {
    let mut shader = built_shader();
    let (mut run, _) = shader.update();
    assert_eq!(issued(run.step(&mut shader, Reply::Time(at(1002)))), vec![Command::ReadClock]);
    assert_eq!(
        issued(run.step(&mut shader, Reply::Time(at(1003)))),
        vec![Command::ReadModTime { stage: ShaderStage::Vertex }]
    );
    assert_eq!(shader.last_check_time(), at(1003));
    assert_eq!(
        issued(run.step(&mut shader, Reply::Time(at(100)))),
        vec![Command::ReadModTime { stage: ShaderStage::Fragment }]
    );
    let (calls, ()) = finished(run.step(&mut shader, Reply::Time(at(200))));
    assert!(calls.is_empty());
    assert_eq!(shader.program_id(), 7);
    assert_eq!(shader.last_vert_mod_time(), at(100));
    assert_eq!(shader.last_frag_mod_time(), at(200));
}

#[test]
fn update_reloads_for_each_changed_source() {
    let mut shader = built_shader();
    let (mut run, _) = shader.update();
    issued(run.step(&mut shader, Reply::Time(at(1005))));
    issued(run.step(&mut shader, Reply::Time(at(1005))));
    assert_eq!(
        issued(run.step(&mut shader, Reply::Time(at(150)))),
        vec![Command::ReadModTime { stage: ShaderStage::Vertex }]
    );
    assert_eq!(
        issued(run.step(&mut shader, Reply::Time(at(151)))),
        vec![
            Command::AnnounceModified { stage: ShaderStage::Vertex },
            Command::LoadProgram,
        ]
    );
    assert_eq!(shader.last_vert_mod_time(), at(151));
    assert_eq!(
        issued(run.step(&mut shader, Reply::Built(Outcome::Ready(8)))),
        vec![Command::ReadModTime { stage: ShaderStage::Fragment }]
    );
    assert_eq!(shader.program_id(), 8);
    issued(run.step(&mut shader, Reply::Time(at(250))));
    assert_eq!(
        issued(run.step(&mut shader, Reply::Time(at(250)))),
        vec![
            Command::AnnounceModified { stage: ShaderStage::Fragment },
            Command::LoadProgram,
        ]
    );
    let (calls, ()) = finished(run.step(&mut shader, Reply::Built(Outcome::Ready(9))));
    assert!(calls.is_empty());
    assert_eq!(shader.program_id(), 9);
    assert_eq!(shader.last_frag_mod_time(), at(250));
    assert_eq!(shader.last_check_time(), at(1005));
}

#[test]
fn update_stops_when_a_reload_fails() {
    let mut shader = built_shader();
    let (mut run, _) = shader.update();
    issued(run.step(&mut shader, Reply::Time(at(1010))));
    issued(run.step(&mut shader, Reply::Time(at(1010))));
    issued(run.step(&mut shader, Reply::Time(at(101))));
    issued(run.step(&mut shader, Reply::Time(at(101))));
    assert_eq!(
        fault(run.step(&mut shader, Reply::Built(Outcome::Failed("x".to_string())))),
        Fault::ReloadFailed
    );
    assert_eq!(shader.program_id(), 7);
    assert_eq!(shader.last_vert_mod_time(), at(101));
}

#[test]
fn uniforms_and_program_commands() {
    let shader = built_shader();
    assert_eq!(shader.begin(), Command::UseProgram { program: 7 });
    assert_eq!(shader.set_bool(true), Command::UniformInt { program: 7, value: 1 });
    assert_eq!(shader.set_bool(false), Command::UniformInt { program: 7, value: 0 });
    assert_eq!(shader.set_int(-5), Command::UniformInt { program: 7, value: -5 });
    assert_eq!(
        shader.set_float(1.5f32.to_bits()),
        Command::UniformFloat { program: 7, float_bits: 1.5f32.to_bits() }
    );
    assert_eq!(shader.set_vec2(1, 2), Command::UniformVec2 { program: 7, vec2_bits: [1, 2] });
    assert_eq!(
        shader.set_vec3(1, 2, 3),
        Command::UniformVec3 { program: 7, vec3_bits: [1, 2, 3] }
    );
    assert_eq!(
        shader.set_vector3([4, 5, 6]),
        Command::UniformVec3Array { program: 7, vec3_bits: [4, 5, 6] }
    );
    let m: [u32; 16] = core::array::from_fn(|i| i as u32);
    assert_eq!(shader.set_mat4(m), Command::UniformMat4 { program: 7, matrix_bits: m });
    assert_eq!(shader.release(), Command::DeleteProgram { program: 7 });
}

#[test]
fn an_empty_link_log_gives_an_empty_message() {
    let (mut run, _) = Shader::program_from_shaders(&[1]);
    issued(run.step(Reply::Object(2)));
    issued(run.step(Reply::Int(0)));
    issued(run.step(Reply::Int(0)));
    let (_, outcome) = finished(run.step(Reply::Bytes(Vec::new())));
    assert_eq!(outcome.into_result(), Err(String::new()));
}
