use scene_render::back_end::{check_draw, Colored, GlGraphics, GpuCommand, Textured};
use scene_render::draw_state::DrawState;
use scene_render::error::UsageViolation;
use scene_render::shader_utils::Shader;

/// A shader with every channel, three numbers to a position, and a buffer of sixteen vertices.
struct Lit {
    program: u32,
    offset: usize,
    positions: Vec<[u32; 3]>,
    colours: Vec<[u32; 4]>,
    uvs: Vec<[u32; 2]>,
    indices: Vec<u16>,
    normals: Vec<[u32; 3]>,
    texture: u32,
    drawn: Vec<(Vec<[u32; 3]>, Vec<u16>, u32)>,
}

fn lit() -> Lit {
    Lit {
        program: 77,
        offset: 0,
        positions: vec![[0; 3]; 16],
        colours: vec![[0; 4]; 16],
        uvs: vec![[0; 2]; 16],
        indices: Vec::new(),
        normals: vec![[0; 3]; 16],
        texture: 0,
        drawn: Vec::new(),
    }
}

impl Shader for Lit {
    type Vertex = [u32; 3];

    fn flush(&mut self) {
        self.drawn.push((
            self.positions[..self.offset].to_vec(),
            self.indices.clone(),
            self.texture,
        ));
        self.indices.clear();
        self.offset = 0;
    }

    fn program(&self) -> u32 {
        self.program
    }

    fn offset(&mut self) -> &mut usize {
        &mut self.offset
    }

    fn pos_buffer(&mut self) -> &mut Vec<[u32; 3]> {
        &mut self.positions
    }

    fn colour_buffer(&mut self) -> Option<&mut Vec<[u32; 4]>> {
        Some(&mut self.colours)
    }

    fn uv_buffer(&mut self) -> Option<&mut Vec<[u32; 2]>> {
        Some(&mut self.uvs)
    }

    fn index_buffer(&mut self) -> Option<&mut Vec<u16>> {
        Some(&mut self.indices)
    }

    fn normal_buffer(&mut self) -> Option<&mut Vec<[u32; 3]>> {
        Some(&mut self.normals)
    }

    fn texture_id(&mut self) -> Option<&mut u32> {
        Some(&mut self.texture)
    }

    fn has_texture(&self) -> bool {
        true
    }
}

fn renderer() -> GlGraphics {
    GlGraphics::from_colored_textured(Colored::from_program(11), Textured::from_program(22))
}

fn corners(first: u32, n: u32) -> Vec<[u32; 3]> {
    (first..first + n).map(|i| [i, i + 1, i + 2]).collect()
}

#[test]
fn shader_with_every_channel_takes_every_array() {
    let mut gl = renderer();
    let mut shader = lit();
    let vertices = corners(0, 4);
    let indices = [0u16, 1, 2, 2, 3, 0];
    let uvs = [[1u32, 1]; 4];
    let colours = [[2u32, 2, 2, 2]; 4];
    let normals = [[3u32, 3, 3]; 4];
    let done = gl.try_shader_draw(
        &mut shader,
        &DrawState::new_alpha(),
        &vertices,
        Some(&indices),
        Some((5, &uvs)),
        Some(&colours),
        Some(&normals),
        |_, _| {},
    );
    assert_eq!(done, Ok(()));
    assert_eq!(shader.drawn.len(), 1);
    assert_eq!(shader.drawn[0].0, vertices);
    assert_eq!(shader.drawn[0].1, indices.to_vec());
    assert_eq!(shader.drawn[0].2, 5);
    assert_eq!(shader.offset, 0);
    assert_eq!(&shader.colours[..4], &colours[..]);
    assert_eq!(&shader.uvs[..4], &uvs[..]);
    assert_eq!(&shader.normals[..4], &normals[..]);
    assert_eq!(shader.colours[4], [0; 4]);
    let commands = gl.take_commands();
    assert!(matches!(commands[0], GpuCommand::UseProgram { program: 77 }));
    assert!(matches!(commands[commands.len() - 1], GpuCommand::DrawCustom { program: 77 }));
}

#[test]
fn each_missing_array_is_told() {
    let mut shader = lit();
    let vertices = corners(0, 4);
    let indices = [0u16, 1, 2];
    let uvs = [[1u32, 1]; 4];
    let colours = [[2u32, 2, 2, 2]; 4];
    let normals = [[3u32, 3, 3]; 4];
    assert_eq!(
        check_draw(&mut shader, &vertices, None, Some((5, &uvs)), Some(&colours), Some(&normals)),
        Err(UsageViolation::IndicesMissing)
    );
    assert_eq!(
        check_draw(&mut shader, &vertices, Some(&indices), Some((5, &uvs)), Some(&colours), None),
        Err(UsageViolation::NormalsMissing)
    );
    assert_eq!(
        check_draw(
            &mut shader,
            &vertices,
            Some(&indices),
            Some((5, &uvs)),
            Some(&colours),
            Some(&normals[..3])
        ),
        Err(UsageViolation::NormalCount)
    );
    assert_eq!(
        check_draw(&mut shader, &vertices, Some(&indices), None, Some(&colours), Some(&normals)),
        Err(UsageViolation::TextureMissing)
    );
    let many = corners(0, 17);
    assert_eq!(
        check_draw(&mut shader, &many, Some(&indices), None, None, None),
        Err(UsageViolation::TooManyVertices)
    );
    assert_eq!(shader.offset, 0);
    assert!(shader.drawn.is_empty());
}

#[test]
fn full_shader_flushes_before_it_takes_more() {
    let mut gl = renderer();
    let mut shader = lit();
    shader.offset = 14;
    let vertices = corners(100, 4);
    let indices = [0u16, 1, 2];
    let uvs = [[1u32, 1]; 4];
    let colours = [[2u32, 2, 2, 2]; 4];
    let normals = [[3u32, 3, 3]; 4];
    gl.shader_draw(
        &mut shader,
        &DrawState::new_alpha(),
        &vertices,
        Some(&indices),
        Some((5, &uvs)),
        Some(&colours),
        Some(&normals),
        |_, _| {},
    );
    assert_eq!(shader.drawn.len(), 2);
    assert_eq!(shader.drawn[0].0.len(), 14);
    assert_eq!(shader.drawn[1].0, vertices);
    assert_eq!(&shader.positions[..4], &vertices[..]);
    let commands = gl.take_commands();
    let draws = commands.iter().filter(|c| matches!(c, GpuCommand::DrawCustom { program: 77 })).count();
    assert_eq!(draws, 2);
}
