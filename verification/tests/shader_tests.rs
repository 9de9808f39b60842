use triangle_demo::commands::GlCommand;
use triangle_demo::shader::{
    interpret_link, link_plan, CompiledShader, ShaderStage, ShaderUnit, INFO_LOG_CAP,
};

#[test]
fn compile_success_keeps_handle_and_stage() {
    let unit = ShaderUnit::new(String::from("void main() {}"), ShaderStage::Vertex);
    let compiled = unit.interpret_compile(7, true, Vec::new()).unwrap();
    assert_eq!(compiled, CompiledShader { handle: 7, stage: ShaderStage::Vertex });
}

#[test]
fn compile_failure_carries_stage_and_log() {
    let unit = ShaderUnit::new(String::from("nonsense"), ShaderStage::Fragment);
    let err = unit
        .interpret_compile(7, false, b"0:1: syntax error".to_vec())
        .unwrap_err();
    assert_eq!(err.stage, ShaderStage::Fragment);
    assert_eq!(err.log, b"0:1: syntax error".to_vec());
}

#[test]
fn compile_with_zero_handle_is_a_failure() {
    let unit = ShaderUnit::new(String::from("void main() {}"), ShaderStage::Vertex);
    assert!(unit.interpret_compile(0, true, Vec::new()).is_err());
}

#[test]
fn compile_failure_log_is_bounded() {
    let unit = ShaderUnit::new(String::from("nonsense"), ShaderStage::Vertex);
    let long_log = vec![b'x'; 600];
    let err = unit.interpret_compile(1, false, long_log).unwrap_err();
    assert_eq!(err.log.len(), INFO_LOG_CAP);
    assert!(err.log.iter().all(|b| *b == b'x'));
}

#[test]
fn link_success_yields_the_nonzero_program_handle() {
    let program = interpret_link(5, true, Vec::new()).unwrap();
    assert_eq!(program, 5);
    assert_ne!(program, 0);
}

#[test]
fn link_failure_carries_bounded_log() {
    let err = interpret_link(5, false, vec![b'e'; 700]).unwrap_err();
    assert_eq!(err.log.len(), INFO_LOG_CAP);
}

#[test]
fn link_with_zero_handle_is_a_failure() {
    assert!(interpret_link(0, true, Vec::new()).is_err());
}

#[test]
fn link_plan_attaches_links_then_deletes() {
    let shaders = vec![
        CompiledShader { handle: 3, stage: ShaderStage::Vertex },
        CompiledShader { handle: 4, stage: ShaderStage::Fragment },
    ];
    let plan = link_plan(9, &shaders);
    assert_eq!(
        plan,
        vec![
            GlCommand::AttachShader { program: 9, shader: 3 },
            GlCommand::AttachShader { program: 9, shader: 4 },
            GlCommand::LinkProgram { program: 9 },
            GlCommand::DeleteShader { shader: 3 },
            GlCommand::DeleteShader { shader: 4 },
        ]
    );
}

#[test]
fn link_plan_deletes_every_attached_shader() {
    let shaders = vec![
        CompiledShader { handle: 11, stage: ShaderStage::Vertex },
        CompiledShader { handle: 12, stage: ShaderStage::Fragment },
    ];
    let plan = link_plan(2, &shaders);
    for s in &shaders {
        assert!(plan.contains(&GlCommand::DeleteShader { shader: s.handle }));
    }
}
