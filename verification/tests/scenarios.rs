//! End-to-end runs of the renderer's logic against a mock driver.
//!
//! The mock stands in for a healthy graphics driver: it allocates non-zero
//! handles in sequence, stores what the commands upload (through the
//! library's own driver-state model), accepts shader text that starts with
//! a version directive, and links a program exactly when two successfully
//! compiled stages are attached.

use triangle_gl::buffer::{Buffer, VertexArray};
use triangle_gl::command::GlCommand;
use triangle_gl::gl;
use triangle_gl::gl_types::{BufferType, ShaderType};
use triangle_gl::model::GlState;
use triangle_gl::run::{frame_action, setup_step, AppPhase, FrameAction, WinEvent};
use triangle_gl::shader::Shader;
use triangle_gl::template::substitute_window_height;
use triangle_gl::window::WindowConfig;

const GL_STATIC_DRAW: u32 = 0x88E4;
const GL_FLOAT: u32 = 0x1406;

struct MockShader {
    handle: u32,
    source: String,
    compile_ok: Option<bool>,
}

struct MockProgram {
    handle: u32,
    attached: Vec<u32>,
    link_ok: Option<bool>,
}

struct MockDriver {
    next_handle: u32,
    state: GlState,
    shaders: Vec<MockShader>,
    programs: Vec<MockProgram>,
    current_program: u32,
    draws: Vec<(i32, i32)>,
}

impl MockDriver {
    fn new() -> MockDriver {
        MockDriver {
            next_handle: 1,
            state: GlState::new(),
            shaders: Vec::new(),
            programs: Vec::new(),
            current_program: 0,
            draws: Vec::new(),
        }
    }

    fn fresh_handle(&mut self) -> u32 {
        let h = self.next_handle;
        self.next_handle += 1;
        h
    }

    fn create_shader(&mut self) -> u32 {
        let h = self.fresh_handle();
        self.shaders.push(MockShader { handle: h, source: String::new(), compile_ok: None });
        h
    }

    fn create_program(&mut self) -> u32 {
        let h = self.fresh_handle();
        self.programs.push(MockProgram { handle: h, attached: Vec::new(), link_ok: None });
        h
    }

    fn shader_mut(&mut self, handle: u32) -> &mut MockShader {
        self.shaders.iter_mut().find(|s| s.handle == handle).unwrap()
    }

    fn program_mut(&mut self, handle: u32) -> &mut MockProgram {
        self.programs.iter_mut().find(|p| p.handle == handle).unwrap()
    }

    fn shader_status(&self, handle: u32) -> (i32, Vec<u8>) {
        let s = self.shaders.iter().find(|s| s.handle == handle).unwrap();
        if s.compile_ok == Some(true) {
            (1, Vec::new())
        } else {
            (0, b"0:1(1): error: syntax error, unexpected token".to_vec())
        }
    }

    fn program_status(&self, handle: u32) -> (i32, Vec<u8>) {
        let p = self.programs.iter().find(|p| p.handle == handle).unwrap();
        if p.link_ok == Some(true) {
            (1, Vec::new())
        } else {
            (0, b"error: program lacks two compiled stages".to_vec())
        }
    }

    fn exec(&mut self, cmd: &GlCommand) {
        self.state.apply(cmd);
        match cmd {
            GlCommand::ShaderSource { shader, source } => {
                self.shader_mut(*shader).source = source.clone();
            }
            GlCommand::CompileShader { shader } => {
                let s = self.shader_mut(*shader);
                let ok = s.source.starts_with("#version");
                s.compile_ok = Some(ok);
            }
            GlCommand::AttachShader { program, shader } => {
                let sh = *shader;
                self.program_mut(*program).attached.push(sh);
            }
            GlCommand::LinkProgram { program } => {
                let compiled: Vec<u32> = self
                    .shaders
                    .iter()
                    .filter(|s| s.compile_ok == Some(true))
                    .map(|s| s.handle)
                    .collect();
                let p = self.program_mut(*program);
                let ok = p.attached.len() == 2 && p.attached.iter().all(|h| compiled.contains(h));
                p.link_ok = Some(ok);
            }
            GlCommand::UseProgram { program } => {
                self.current_program = *program;
            }
            GlCommand::DrawArrays { first, count } => {
                self.draws.push((*first, *count));
            }
            _ => {}
        }
    }
}

fn vertex_bytes(vertices: &[[f32; 3]]) -> Vec<u8> {
    let mut out = Vec::new();
    for v in vertices {
        for c in v {
            out.extend_from_slice(&c.to_le_bytes());
        }
    }
    out
}

const VERT_SHADER: &str = "#version 330 core\nlayout (location = 0) in vec3 pos;\nvoid main() {\n    gl_Position = vec4(pos.x, pos.y, pos.z, 1.0);\n}\n";
const FRAG_SHADER: &str = "#version 330 core\nout vec4 final_color;\nvoid main() {\n    final_color = vec4(1.0, 0.5, 0.2, 1.0);\n}\n";

/// Drive the whole application once: setup in the fixed phase order, then
/// the loop until the given event batches are exhausted or a quit arrives.
fn run_app(
    driver: &mut MockDriver,
    vertices: &[[f32; 3]],
    vert_src: &str,
    frag_src: &str,
    event_batches: &[Vec<WinEvent>],
) -> Result<(u32, usize), String> {
    let mut phase = AppPhase::Uninitialized;

    // Window and context: the mock environment always provides them.
    let _config = WindowConfig::new("My triangle", 800, 600);
    phase = setup_step(phase, true);
    assert_eq!(phase, AppPhase::WindowReady);
    phase = setup_step(phase, true);
    assert_eq!(phase, AppPhase::ContextReady);

    // Upload the vertex data.
    let data = vertex_bytes(vertices);
    let upload = (|| -> Result<(VertexArray, Buffer), String> {
        let vao = VertexArray::new(driver.fresh_handle())?;
        driver.exec(&vao.bind());
        let mut vbo = Buffer::new(driver.fresh_handle())?;
        driver.exec(&vbo.bind(BufferType::Array));
        driver.exec(&vbo.buffer_data(&data, GL_STATIC_DRAW)?);
        driver.exec(&gl::vertex_attrib_pointer(0, 3, GL_FLOAT, false, 12));
        driver.exec(&gl::enable_vertex_attrib_array(0));
        Ok((vao, vbo))
    })();
    phase = setup_step(phase, upload.is_ok());
    let (_vao, vbo) = match upload {
        Ok(pair) => pair,
        Err(e) => return Err(e),
    };
    assert_eq!(phase, AppPhase::BuffersUploaded);

    // Assemble the program: create, then per stage create/upload/compile/
    // check/attach, then link, check, delete the stages, use the program.
    let assemble = (|| -> Result<u32, String> {
        let program = gl::create_program(driver.create_program())?;
        let mut shaders = Vec::new();
        for (stage, src) in [
            (ShaderType::Vertex, vert_src),
            (ShaderType::Fragment, frag_src),
        ] {
            let handle = driver.create_shader();
            let (shader, source_cmd) = Shader::new(stage, src.to_string(), handle)?;
            driver.exec(&source_cmd);
            shaders.push((shader, handle));
        }
        for (shader, handle) in &shaders {
            driver.exec(&shader.compile());
            let (status, log) = driver.shader_status(*handle);
            let len = log.len() as i32;
            shader.get_shader_iv(status, triangle_gl::log::get_info_log(&log, len))?;
            driver.exec(&shader.attach(program));
        }
        driver.exec(&gl::link_program(program));
        let (status, log) = driver.program_status(program);
        let len = log.len() as i32;
        gl::get_program_iv(status, triangle_gl::log::get_info_log(&log, len))?;
        for (shader, _) in &shaders {
            driver.exec(&shader.delete());
        }
        driver.exec(&gl::use_program(program));
        Ok(program)
    })();
    phase = setup_step(phase, assemble.is_ok());
    let program = match assemble {
        Ok(p) => p,
        Err(e) => return Err(e),
    };
    assert_eq!(phase, AppPhase::ProgramLinked);

    phase = setup_step(phase, true);
    assert_eq!(phase, AppPhase::Running);

    // The loop: drain events, stop on quit, otherwise clear + draw.
    let vertex_count = vertices.len();
    let mut frames: usize = 0;
    for batch in event_batches {
        match frame_action(batch, vertex_count) {
            FrameAction::Stop => {
                phase = AppPhase::Terminated;
                break;
            }
            FrameAction::Render { commands } => {
                for cmd in &commands {
                    driver.exec(cmd);
                }
                frames += 1;
            }
        }
    }
    assert_eq!(phase, AppPhase::Terminated);
    let _ = vbo.clear_binding();
    Ok((program, frames))
}

#[test]
fn one_triangle_runs_and_quits_cleanly() {
    let mut driver = MockDriver::new();
    let vertices = [[-0.5f32, -0.5, 0.0], [0.5, -0.5, 0.0], [0.0, 0.5, 0.0]];
    let batches = vec![vec![WinEvent::Other], vec![], vec![WinEvent::Other, WinEvent::Quit]];
    let result = run_app(&mut driver, &vertices, VERT_SHADER, FRAG_SHADER, &batches);
    let (program, frames) = result.expect("the run must end without an error");

    // Two frames were drawn before the quit event arrived.
    assert_eq!(frames, 2);
    assert_eq!(driver.draws, vec![(0, 3), (0, 3)]);
    assert_eq!(driver.current_program, program);

    // The uploaded bytes are stored as the buffer's contents.
    let expected = vertex_bytes(&vertices);
    let vbo_handle = driver.state.binding(BufferType::Array);
    assert_ne!(vbo_handle, 0);
    assert_eq!(driver.state.buffer_contents(vbo_handle).unwrap(), &expected);
    assert_eq!(expected.len(), 36);
}

#[test]
fn two_triangles_draw_exactly_six_vertices() {
    let mut driver = MockDriver::new();
    let vertices = [
        [-0.5f32, -0.5, 0.0],
        [0.5, -0.5, 0.0],
        [0.0, 0.5, 0.0],
        [-0.5, -0.5, 0.0],
        [0.5, -0.5, 0.0],
        [0.0, -1.0, 0.0],
    ];
    let batches = vec![vec![], vec![WinEvent::Quit]];
    let result = run_app(&mut driver, &vertices, VERT_SHADER, FRAG_SHADER, &batches);
    result.expect("the run must end without an error");

    // The draw call requests exactly the uploaded vertex count.
    assert_eq!(driver.draws, vec![(0, 6)]);
    let vbo_handle = driver.state.binding(BufferType::Array);
    let stored = driver.state.buffer_contents(vbo_handle).unwrap();
    assert_eq!(stored.len(), 6 * 12);
    assert_eq!(driver.draws[0].1 as usize, stored.len() / 12);
}

#[test]
fn templated_shader_compiles_after_substitution() {
    let template =
        "#version 330 core\nout vec4 final_color;\nvoid main() {\n    float h = {WINDOW_HEIGHT};\n    final_color = vec4(h / {WINDOW_HEIGHT}, 0.5, 0.2, 1.0);\n}\n";
    let substituted =
        String::from_utf8(substitute_window_height(template.as_bytes(), 600)).unwrap();
    assert!(substituted.contains("float h = 600;"));
    assert!(substituted.contains("vec4(h / 600, 0.5, 0.2, 1.0)"));
    assert!(!substituted.contains("{WINDOW_HEIGHT}"));

    let mut driver = MockDriver::new();
    let vertices = [[-0.5f32, -0.5, 0.0], [0.5, -0.5, 0.0], [0.0, 0.5, 0.0]];
    let batches = vec![vec![WinEvent::Quit]];
    let result = run_app(&mut driver, &vertices, VERT_SHADER, &substituted, &batches);
    result.expect("the substituted shader must compile and link");
}

#[test]
fn invalid_shader_source_fails_with_driver_log() {
    let mut driver = MockDriver::new();
    let vertices = [[-0.5f32, -0.5, 0.0], [0.5, -0.5, 0.0], [0.0, 0.5, 0.0]];
    let batches = vec![vec![WinEvent::Quit]];
    let result = run_app(&mut driver, &vertices, "not a shader at all", FRAG_SHADER, &batches);
    let err = result.expect_err("an invalid stage must fail the run");
    assert!(!err.is_empty());
    assert!(err.contains("error"));
    assert!(err.len() <= 1024);
}

#[test]
fn unattached_program_fails_to_link_with_program_log() {
    let mut driver = MockDriver::new();
    let program = gl::create_program(driver.create_program()).unwrap();
    driver.exec(&gl::link_program(program));
    let (status, log) = driver.program_status(program);
    let len = log.len() as i32;
    let err = gl::get_program_iv(status, triangle_gl::log::get_info_log(&log, len))
        .expect_err("a program with no attached stages must not link");
    assert_eq!(err, "error: program lacks two compiled stages");
}
