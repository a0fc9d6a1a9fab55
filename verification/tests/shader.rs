use glsprite::device::Destroy;
use glsprite::errors::Error;
use glsprite::gl::{GlCommand, ShaderStage};
use glsprite::shader::Shader;

#[test]
fn stage_is_given_its_source_and_compiled() {
    assert_eq!(
        Shader::compile(ShaderStage::Vertex, 5),
        vec![
            GlCommand::ShaderSource { shader: 5, stage: ShaderStage::Vertex },
            GlCommand::CompileShader { shader: 5 },
        ]
    );
    assert_eq!(
        Shader::compile(ShaderStage::Fragment, 6),
        vec![
            GlCommand::ShaderSource { shader: 6, stage: ShaderStage::Fragment },
            GlCommand::CompileShader { shader: 6 },
        ]
    );
}

#[test]
fn stage_types() {
    assert_eq!(Shader::shader_type(ShaderStage::Vertex), glow::VERTEX_SHADER);
    assert_eq!(Shader::shader_type(ShaderStage::Fragment), glow::FRAGMENT_SHADER);
}

#[test]
fn compiled_stage_is_attached() {
    assert_eq!(
        Shader::attach(1, 5, true, "warning: unused".to_string()),
        Ok(vec![GlCommand::AttachShader { program: 1, shader: 5 }])
    );
}

#[test]
fn failed_stage_gives_its_log() {
    assert_eq!(
        Shader::attach(1, 5, false, "0:3: syntax error".to_string()),
        Err(Error::ShaderCompile("0:3: syntax error".to_string()))
    );
}

#[test]
fn program_is_linked() {
    assert_eq!(Shader::link(9), vec![GlCommand::LinkProgram { program: 9 }]);
}

#[test]
fn linked_program_drops_its_stages() {
    let (shader, commands) = Shader::from_source(9, 5, 6, true, String::new()).unwrap();
    assert_eq!(shader.program(), 9);
    assert_eq!(
        commands,
        vec![
            GlCommand::DetachShader { program: 9, shader: 5 },
            GlCommand::DeleteShader { shader: 5 },
            GlCommand::DetachShader { program: 9, shader: 6 },
            GlCommand::DeleteShader { shader: 6 },
        ]
    );
    assert_eq!(shader.destroy(), Destroy::Shader(9));
}

#[test]
fn failed_link_gives_its_log() {
    assert_eq!(
        Shader::from_source(9, 5, 6, false, "missing main".to_string()).err(),
        Some(Error::ShaderLink("missing main".to_string()))
    );
}
