use scene_render::back_end::{
    check_draw, Colored, ColoredCall, GlGraphics, GpuCommand, Textured, TexturedCall, CHUNKS,
};
use scene_render::draw_state::{Blend, DrawState, Stencil, Viewport};
use scene_render::shader_uniforms::{SUFloat, ShaderUniform};
use scene_render::error::{ConstructionFailure, ShaderStage, UsageViolation};
use scene_render::version::{pass_through, set_source, Glsl, OpenGl};
use shader_version::glsl::GLSL;
use shader_version::Shaders;
use scene_render::shader_utils::Shader;

const CAPACITY: usize = 102300;

fn pos(x: f32, y: f32) -> [u32; 2] {
    [x.to_bits(), y.to_bits()]
}

fn rgba(r: f32, g: f32, b: f32, a: f32) -> [u32; 4] {
    [r.to_bits(), g.to_bits(), b.to_bits(), a.to_bits()]
}

fn piece(first: usize, len: usize) -> Vec<[u32; 2]> {
    (first..first + len).map(|i| pos(i as f32, (i % 7) as f32)).collect()
}

fn renderer() -> GlGraphics {
    GlGraphics::from_colored_textured(Colored::from_program(11), Textured::from_program(22))
}

fn viewport() -> Viewport {
    Viewport {
        rect: [0, 0, 640, 480],
        draw_size: [640, 480],
        window_size: [640f64.to_bits(), 480f64.to_bits()],
    }
}

fn draws(commands: &[GpuCommand]) -> usize {
    commands
        .iter()
        .filter(|c| {
            matches!(c, GpuCommand::DrawColored | GpuCommand::DrawTextured | GpuCommand::DrawCustom { .. })
        })
        .count()
}

fn colored_calls(gl: &mut GlGraphics) -> Vec<ColoredCall> {
    gl.take_colored_calls()
}

fn textured_calls(gl: &mut GlGraphics) -> Vec<TexturedCall> {
    gl.take_textured_calls()
}

#[test]
fn fixed_shaders_hold_a_hundred_chunks() {
    assert_eq!(CHUNKS, 100);
    let colored = Colored::from_program(3);
    let textured = Textured::from_program(4);
    assert_eq!(colored.capacity(), CAPACITY);
    let gl = renderer();
    assert_eq!(gl.colored_capacity(), CAPACITY);
    assert_eq!(gl.textured_capacity(), CAPACITY);
    assert_eq!(textured.capacity(), 100 * 1023);
    assert_eq!(colored.pending(), 0);
    assert_eq!(textured.pending(), 0);
    assert_eq!(colored.program(), 3);
    assert_eq!(textured.program(), 4);
}

#[test]
fn frame_without_draws_makes_no_draw_call() {
    let mut gl = renderer();
    gl.draw_begin(viewport());
    gl.draw_end();
    let commands = gl.take_commands();
    assert_eq!(draws(&commands), 0);
    assert_eq!(commands.len(), 1);
    assert!(matches!(commands[0], GpuCommand::Viewport { x: 0, y: 0, w: 640, h: 480 }));
    assert!(colored_calls(&mut gl).is_empty());
    assert!(textured_calls(&mut gl).is_empty());
    assert_eq!(gl.get_current_program(), None);
}

#[test]
fn colour_fills_that_pack_tightly_draw_once_per_run_of_capacity() {
    let mut gl = renderer();
    let state = DrawState::new_alpha();
    let color = rgba(0.25, 0.5, 0.75, 1.0);
    gl.draw_begin(viewport());
    let mut input: Vec<[u32; 2]> = Vec::new();
    let mut next = 0usize;
    for _call in 0..5 {
        let mut batches = Vec::new();
        for _ in 0..50 {
            let p = piece(next, 1023);
            next += 1023;
            input.extend_from_slice(&p);
            batches.push(p);
        }
        gl.tri_list(&state, &color, &batches);
    }
    gl.draw_end();
    assert_eq!(input.len(), 255750);
    let calls = colored_calls(&mut gl);
    assert_eq!(calls.len(), 3);
    assert_eq!(calls[0].positions.len(), CAPACITY);
    assert_eq!(calls[1].positions.len(), CAPACITY);
    assert_eq!(calls[2].positions.len(), 255750 - 2 * CAPACITY);
    let mut flushed: Vec<[u32; 2]> = Vec::new();
    for call in &calls {
        assert_eq!(call.positions.len(), call.colors.len());
        assert!(call.colors.iter().all(|c| *c == color));
        flushed.extend_from_slice(&call.positions);
    }
    assert_eq!(flushed, input);
    let commands = gl.take_commands();
    assert_eq!(draws(&commands), 3);
    assert!(textured_calls(&mut gl).is_empty());
}

#[test]
fn piece_across_a_capacity_boundary_costs_a_draw_call() {
    let mut gl = renderer();
    let state = DrawState::new_alpha();
    let color = rgba(1.0, 1.0, 1.0, 1.0);
    gl.draw_begin(viewport());
    let batches = vec![piece(0, 60000), piece(60000, 60000), piece(120000, 60000)];
    gl.tri_list(&state, &color, &batches);
    gl.draw_end();
    let calls = colored_calls(&mut gl);
    assert_eq!(calls.len(), 3);
    let flushed: Vec<[u32; 2]> = calls.iter().flat_map(|c| c.positions.clone()).collect();
    assert_eq!(flushed, piece(0, 180000));
}

#[test]
fn colour_fill_binds_program_and_state_once() {
    let mut gl = renderer();
    let state = DrawState::new_alpha();
    let color = rgba(1.0, 0.0, 0.0, 1.0);
    gl.tri_list(&state, &color, &vec![piece(0, 3)]);
    gl.tri_list(&state, &color, &vec![piece(3, 3)]);
    let commands = gl.take_commands();
    assert_eq!(commands.len(), 3);
    assert!(matches!(commands[0], GpuCommand::UseProgram { program: 11 }));
    match commands[1] {
        GpuCommand::BindDrawState { previous, next, viewport } => {
            assert!(previous.is_none());
            assert!(next.same_as(&DrawState::new_alpha()));
            assert!(viewport.is_none());
        }
        _ => panic!("expected the default draw state to be bound first"),
    }
    match commands[2] {
        GpuCommand::BindDrawState { previous, next, .. } => {
            assert!(previous.unwrap().same_as(&DrawState::new_alpha()));
            assert!(next.same_as(&state));
        }
        _ => panic!("expected the draw state to be bound"),
    }
    assert_eq!(gl.get_current_program(), Some(11));
    gl.draw_end();
    let calls = colored_calls(&mut gl);
    assert_eq!(calls.len(), 1);
    assert_eq!(calls[0].positions, piece(0, 6));
}

#[test]
fn colour_fill_under_another_draw_state_draws_what_is_buffered() {
    let mut gl = renderer();
    let alpha = DrawState::new_alpha();
    let clip = DrawState { stencil: Some(Stencil::Clip(255)), ..DrawState::new_alpha() };
    let color = rgba(0.0, 1.0, 0.0, 1.0);
    gl.tri_list(&alpha, &color, &vec![piece(0, 3)]);
    gl.tri_list(&clip, &color, &vec![piece(3, 6)]);
    let calls = colored_calls(&mut gl);
    assert_eq!(calls.len(), 1);
    assert_eq!(calls[0].positions, piece(0, 3));
    gl.draw_end();
    let calls = colored_calls(&mut gl);
    assert_eq!(calls.len(), 1);
    assert_eq!(calls[0].positions, piece(3, 6));
}

#[test]
fn textured_fill_with_another_texture_draws_exactly_once_between() {
    let mut gl = renderer();
    let state = DrawState::new_alpha();
    let color = rgba(1.0, 1.0, 1.0, 1.0);
    gl.draw_begin(viewport());
    gl.tri_list_uv(&state, &color, 7, &vec![(piece(0, 6), piece(100, 6))]);
    assert!(textured_calls(&mut gl).is_empty());
    gl.tri_list_uv(&state, &color, 8, &vec![(piece(6, 3), piece(106, 3))]);
    let calls = textured_calls(&mut gl);
    assert_eq!(calls.len(), 1);
    assert_eq!(calls[0].texture_id, 7);
    assert_eq!(calls[0].color, color);
    assert_eq!(calls[0].positions, piece(0, 6));
    assert_eq!(calls[0].uvs, piece(100, 6));
    gl.draw_end();
    let calls = textured_calls(&mut gl);
    assert_eq!(calls.len(), 1);
    assert_eq!(calls[0].texture_id, 8);
    assert_eq!(calls[0].positions, piece(6, 3));
    assert_eq!(calls[0].uvs, piece(106, 3));
    assert_eq!(draws(&gl.take_commands()), 2);
}

#[test]
fn textured_fill_under_another_draw_state_draws_exactly_once_between() {
    let mut gl = renderer();
    let alpha = DrawState::new_alpha();
    let add = DrawState { blend: Some(Blend::Add), ..DrawState::new_alpha() };
    let color = rgba(1.0, 1.0, 1.0, 1.0);
    gl.tri_list_uv(&alpha, &color, 7, &vec![(piece(0, 6), piece(100, 6))]);
    gl.tri_list_uv(&add, &color, 7, &vec![(piece(6, 3), piece(106, 3))]);
    let calls = textured_calls(&mut gl);
    assert_eq!(calls.len(), 1);
    assert_eq!(calls[0].positions, piece(0, 6));
}

#[test]
fn textured_fill_with_another_colour_draws_what_is_buffered() {
    let mut gl = renderer();
    let state = DrawState::new_alpha();
    gl.tri_list_uv(&state, &rgba(1.0, 1.0, 1.0, 1.0), 7, &vec![(piece(0, 6), piece(100, 6))]);
    gl.tri_list_uv(&state, &rgba(1.0, 0.0, 0.0, 1.0), 7, &vec![(piece(6, 3), piece(106, 3))]);
    let calls = textured_calls(&mut gl);
    assert_eq!(calls.len(), 1);
    assert_eq!(calls[0].color, rgba(1.0, 1.0, 1.0, 1.0));
}

#[test]
fn textured_fill_with_the_same_binding_goes_on_buffering() {
    let mut gl = renderer();
    let state = DrawState::new_alpha();
    let color = rgba(1.0, 1.0, 1.0, 1.0);
    gl.tri_list_uv(&state, &color, 7, &vec![(piece(0, 6), piece(100, 6))]);
    gl.tri_list_uv(&state, &color, 7, &vec![(piece(6, 3), piece(106, 3))]);
    assert!(textured_calls(&mut gl).is_empty());
    gl.draw_end();
    let calls = textured_calls(&mut gl);
    assert_eq!(calls.len(), 1);
    assert_eq!(calls[0].positions, piece(0, 9));
    assert_eq!(calls[0].uvs, piece(100, 9));
}

#[test]
fn only_one_fixed_shader_is_open() {
    let mut gl = renderer();
    let state = DrawState::new_alpha();
    let color = rgba(1.0, 1.0, 1.0, 1.0);
    gl.tri_list(&state, &color, &vec![piece(0, 3)]);
    gl.tri_list_uv(&state, &color, 7, &vec![(piece(3, 3), piece(100, 3))]);
    assert_eq!(colored_calls(&mut gl).len(), 1);
    assert!(textured_calls(&mut gl).is_empty());
    gl.tri_list(&state, &color, &vec![piece(6, 3)]);
    assert_eq!(textured_calls(&mut gl).len(), 1);
    assert!(colored_calls(&mut gl).is_empty());
    let commands = gl.take_commands();
    let order: Vec<&GpuCommand> = commands
        .iter()
        .filter(|c| !matches!(c, GpuCommand::BindDrawState { .. }))
        .collect();
    assert_eq!(order.len(), 4);
    assert!(matches!(order[0], GpuCommand::UseProgram { program: 11 }));
    assert!(matches!(order[1], GpuCommand::DrawColored));
    assert!(matches!(order[2], GpuCommand::UseProgram { program: 22 }));
    assert!(matches!(order[3], GpuCommand::DrawTextured));
}

#[test]
fn use_program_skips_the_program_in_use() {
    let mut gl = renderer();
    gl.use_program(5);
    gl.use_program(5);
    gl.use_program(6);
    gl.clear_program();
    assert_eq!(gl.get_current_program(), None);
    gl.use_program(6);
    let commands = gl.take_commands();
    assert_eq!(commands.len(), 3);
    assert!(matches!(commands[0], GpuCommand::UseProgram { program: 5 }));
    assert!(matches!(commands[1], GpuCommand::UseProgram { program: 6 }));
    assert!(matches!(commands[2], GpuCommand::UseProgram { program: 6 }));
    assert!(gl.take_commands().is_empty());
}

#[test]
fn clears_are_queued() {
    let mut gl = renderer();
    gl.clear_color(rgba(0.5, 0.5, 0.5, 1.0));
    gl.clear_stencil(9);
    gl.clear_draw_state();
    let commands = gl.take_commands();
    assert_eq!(commands.len(), 2);
    match commands[0] {
        GpuCommand::ClearColor { color } => assert_eq!(color, rgba(0.5, 0.5, 0.5, 1.0)),
        _ => panic!("expected a clear of the colour buffer"),
    }
    assert!(matches!(commands[1], GpuCommand::ClearStencil { value: 9 }));
    assert!(gl.has_texture_alpha(3));
}

#[test]
fn uv_array_for_a_shader_without_uv_channel_is_a_violation() {
    let mut shader = Colored::from_program(1);
    let vertices = piece(0, 3);
    let colours = vec![rgba(1.0, 1.0, 1.0, 1.0); 3];
    let uvs = piece(10, 3);
    let found = check_draw(
        &mut shader,
        &vertices,
        None,
        Some((7, uvs.as_slice())),
        Some(colours.as_slice()),
        None,
    );
    assert_eq!(found, Err(UsageViolation::TextureUnexpected));
}

#[test]
fn missing_colour_array_is_a_violation() {
    let mut shader = Colored::from_program(1);
    let vertices = piece(0, 3);
    let found = check_draw(&mut shader, &vertices, None, None, None, None);
    assert_eq!(found, Err(UsageViolation::ColourMissing));
}

#[test]
fn draw_with_a_uv_array_through_a_shader_without_uv_channel_is_refused() {
    let mut gl = renderer();
    let state = DrawState::new_alpha();
    let mut shader = Colored::from_program(44);
    let vertices = piece(0, 3);
    let colours = vec![rgba(1.0, 1.0, 1.0, 1.0); 3];
    let uvs = piece(10, 3);
    let done = gl.try_shader_draw(
        &mut shader,
        &state,
        &vertices,
        None,
        Some((7, uvs.as_slice())),
        Some(colours.as_slice()),
        None,
        |_, _| {},
    );
    assert_eq!(done, Err(UsageViolation::TextureUnexpected));
    assert_eq!(shader.pending(), 0);
    assert!(shader.take_calls().is_empty());
    assert_eq!(gl.get_current_program(), Some(44));
    assert_eq!(draws(&gl.take_commands()), 0);
}

#[test]
fn draw_without_the_colours_that_a_shader_declares_is_refused() {
    let mut gl = renderer();
    let state = DrawState::new_alpha();
    let mut shader = Colored::from_program(44);
    let vertices = piece(0, 3);
    let done =
        gl.try_shader_draw(&mut shader, &state, &vertices, None, None, None, None, |_, _| {});
    assert_eq!(done, Err(UsageViolation::ColourMissing));
    let colours = vec![rgba(1.0, 1.0, 1.0, 1.0); 3];
    let done = gl.try_shader_draw(
        &mut shader,
        &state,
        &vertices,
        None,
        None,
        Some(colours.as_slice()),
        None,
        |_, _| {},
    );
    assert_eq!(done, Ok(()));
    assert_eq!(shader.take_calls().len(), 1);
}

#[test]
fn every_channel_is_checked_in_turn() {
    let vertices = piece(0, 3);
    let two = vec![rgba(1.0, 1.0, 1.0, 1.0); 2];
    let three = vec![rgba(1.0, 1.0, 1.0, 1.0); 3];
    let uvs = piece(10, 3);
    let normals = vec![[0u32; 3]; 3];
    let indices = vec![0u16, 1, 2];
    let mut colored = Colored::from_program(1);
    let mut textured = Textured::from_program(2);
    assert_eq!(
        check_draw(&mut colored, &vertices, None, None, Some(two.as_slice()), None),
        Err(UsageViolation::ColourCount)
    );
    assert_eq!(
        check_draw(&mut colored, &vertices, None, None, Some(three.as_slice()), None),
        Ok(())
    );
    assert_eq!(
        check_draw(
            &mut colored,
            &vertices,
            None,
            None,
            Some(three.as_slice()),
            Some(normals.as_slice())
        ),
        Err(UsageViolation::NormalsUnexpected)
    );
    assert_eq!(
        check_draw(
            &mut colored,
            &vertices,
            Some(indices.as_slice()),
            None,
            Some(three.as_slice()),
            None
        ),
        Err(UsageViolation::IndicesUnexpected)
    );
    assert_eq!(
        check_draw(&mut textured, &vertices, None, None, Some(three.as_slice()), None),
        Err(UsageViolation::ColourUnexpected)
    );
    assert_eq!(
        check_draw(&mut textured, &vertices, None, None, None, None),
        Err(UsageViolation::TextureMissing)
    );
    assert_eq!(
        check_draw(&mut textured, &vertices, None, Some((7, &uvs[..2])), None, None),
        Err(UsageViolation::UvCount)
    );
    assert_eq!(
        check_draw(&mut textured, &vertices, None, Some((7, uvs.as_slice())), None, None),
        Ok(())
    );
    let many = piece(0, CAPACITY + 1);
    assert_eq!(
        check_draw(&mut colored, &many, None, None, None, None),
        Err(UsageViolation::TooManyVertices)
    );
}

#[test]
fn draw_through_a_shader_flushes_the_fixed_shaders_first_and_itself_at_once() {
    let mut gl = renderer();
    let state = DrawState::new_alpha();
    let color = rgba(1.0, 1.0, 1.0, 1.0);
    gl.tri_list(&state, &color, &vec![piece(0, 3)]);
    let _ = gl.take_commands();
    let mut shader = Textured::from_program(33);
    let vertices = piece(3, 6);
    let uvs = piece(50, 6);
    assert_eq!(
        check_draw(&mut shader, &vertices, None, Some((9, uvs.as_slice())), None, None),
        Ok(())
    );
    gl.shader_draw(
        &mut shader,
        &state,
        &vertices,
        None,
        Some((9, uvs.as_slice())),
        None,
        None,
        |_, _| {},
    );
    assert_eq!(colored_calls(&mut gl).len(), 1);
    let commands = gl.take_commands();
    assert_eq!(commands.len(), 3);
    assert!(matches!(commands[0], GpuCommand::DrawColored));
    assert!(matches!(commands[1], GpuCommand::UseProgram { program: 33 }));
    assert!(matches!(commands[2], GpuCommand::DrawCustom { .. }));
    assert_eq!(gl.get_current_program(), None);
    assert_eq!(shader.pending(), 0);
    let calls = shader.take_calls();
    assert_eq!(calls.len(), 1);
    assert_eq!(calls[0].texture_id, 9);
    assert_eq!(calls[0].positions, vertices);
    assert_eq!(calls[0].uvs, uvs);
}

#[test]
fn draw_through_a_shader_writes_the_colours_it_is_given() {
    let mut gl = renderer();
    let state = DrawState::new_alpha();
    let mut shader = Colored::from_program(44);
    let vertices = piece(0, 2);
    let colours = vec![rgba(1.0, 0.0, 0.0, 1.0), rgba(0.0, 0.0, 1.0, 0.5)];
    gl.shader_draw(
        &mut shader,
        &state,
        &vertices,
        None,
        None,
        Some(colours.as_slice()),
        None,
        |_, _| {},
    );
    let calls = shader.take_calls();
    assert_eq!(calls.len(), 1);
    assert_eq!(calls[0].positions, vertices);
    assert_eq!(calls[0].colors, colours);
    let commands = gl.take_commands();
    assert_eq!(commands.len(), 3);
    assert!(matches!(commands[0], GpuCommand::UseProgram { program: 44 }));
    assert!(matches!(commands[1], GpuCommand::BindDrawState { .. }));
    assert!(matches!(commands[2], GpuCommand::DrawCustom { .. }));
}

#[test]
fn draw_through_a_full_shader_flushes_before_it_buffers() {
    let mut gl = renderer();
    let state = DrawState::new_alpha();
    let mut shader = Colored::from_program(44);
    let first = piece(0, CAPACITY - 1);
    shader.append(&first, rgba(1.0, 1.0, 1.0, 1.0));
    assert_eq!(shader.pending(), CAPACITY - 1);
    let vertices = piece(0, 2);
    let colours = vec![rgba(0.0, 0.0, 0.0, 1.0); 2];
    gl.shader_draw(
        &mut shader,
        &state,
        &vertices,
        None,
        None,
        Some(colours.as_slice()),
        None,
        |_, _| {},
    );
    let calls = shader.take_calls();
    assert_eq!(calls.len(), 2);
    assert_eq!(calls[0].positions, first);
    assert_eq!(calls[1].positions, vertices);
    assert_eq!(calls[1].colors, colours);
}

#[test]
fn uniforms_are_set_between_the_binding_of_the_program_and_the_draw() {
    let mut gl = renderer();
    let state = DrawState::new_alpha();
    let mut shader = Colored::from_program(44);
    let vertices = piece(0, 2);
    let colours = vec![rgba(1.0, 0.0, 0.0, 1.0); 2];
    gl.shader_draw(
        &mut shader,
        &state,
        &vertices,
        None,
        None,
        Some(colours.as_slice()),
        None,
        |s, g| {
            assert_eq!(g.get_current_program(), Some(s.program()));
            let time: ShaderUniform<SUFloat> = g.get_uniform("time", 2).unwrap();
            time.set(g, 0.5f32.to_bits());
        },
    );
    let commands = gl.take_commands();
    assert_eq!(commands.len(), 4);
    assert!(matches!(commands[0], GpuCommand::UseProgram { program: 44 }));
    assert!(matches!(commands[1], GpuCommand::SetUniform { program: 44, location: 2, .. }));
    assert!(matches!(commands[2], GpuCommand::BindDrawState { .. }));
    assert!(matches!(commands[3], GpuCommand::DrawCustom { program: 44 }));
}

#[test]
fn draw_wraps_what_it_runs_in_a_frame() {
    let mut gl = renderer();
    let state = DrawState::new_alpha();
    let color = rgba(1.0, 1.0, 1.0, 1.0);
    gl.use_program(11);
    let fed = gl.draw(viewport(), |g| {
        assert_eq!(g.get_current_program(), None);
        g.tri_list(&state, &color, &vec![piece(0, 3)]);
        g.tri_list_uv(&state, &color, 7, &vec![(piece(3, 3), piece(100, 3))]);
        6
    });
    assert_eq!(fed, 6);
    assert_eq!(colored_calls(&mut gl).len(), 1);
    assert_eq!(textured_calls(&mut gl).len(), 1);
    let commands = gl.take_commands();
    assert!(matches!(commands[0], GpuCommand::UseProgram { program: 11 }));
    assert!(matches!(commands[1], GpuCommand::Viewport { .. }));
    assert!(matches!(commands[commands.len() - 1], GpuCommand::DrawTextured));
    assert_eq!(draws(&commands), 2);
}

#[test]
fn same_draw_state_is_told_by_all_three_settings() {
    let alpha = DrawState::new_alpha();
    assert!(alpha.same_as(&DrawState::default()));
    assert!(alpha.scissor.is_none() && alpha.stencil.is_none());
    assert!(matches!(alpha.blend, Some(Blend::Alpha)));
    let scissor = DrawState { scissor: Some([1, 2, 3, 4]), ..alpha };
    assert!(!alpha.same_as(&scissor));
    assert!(scissor.same_as(&DrawState { scissor: Some([1, 2, 3, 4]), ..alpha }));
    assert!(!scissor.same_as(&DrawState { scissor: Some([1, 2, 3, 5]), ..alpha }));
    let inside = DrawState { stencil: Some(Stencil::Inside(1)), ..alpha };
    assert!(!inside.same_as(&DrawState { stencil: Some(Stencil::Inside(2)), ..alpha }));
    assert!(!inside.same_as(&DrawState { stencil: Some(Stencil::Outside(1)), ..alpha }));
    assert!(!alpha.same_as(&DrawState { blend: None, ..alpha }));
}

fn compiles(stage: ShaderStage, source: &str) -> Result<u32, ConstructionFailure> {
    if source.contains("broken") {
        Err(ConstructionFailure::Compile(stage, format!("cannot compile {}", source)))
    } else {
        match stage {
            ShaderStage::Vertex => Ok(10),
            ShaderStage::Fragment => Ok(20),
        }
    }
}

#[test]
fn fixed_shaders_are_built_from_the_sources_that_serve_the_version() {
    let mut vertex_shaders: Shaders<GLSL, str> = Shaders::new();
    let mut fragment_shaders: Shaders<GLSL, str> = Shaders::new();
    set_source(&mut vertex_shaders, Glsl::V1_20, "vertex 120");
    set_source(&mut fragment_shaders, Glsl::V1_20, "fragment 120");
    set_source(&mut fragment_shaders, Glsl::V1_50, "broken fragment 150");
    let seen = std::cell::RefCell::new(Vec::new());
    let compile = |stage: ShaderStage, source: &str| {
        seen.borrow_mut().push((stage, source.to_string()));
        compiles(stage, source)
    };
    let colored =
        Colored::from_vs_fs(Glsl::V1_30, &vertex_shaders, &fragment_shaders, &compile, |v, f| {
            v * 100 + f
        })
        .expect("both shaders are served and compile");
    assert_eq!(colored.program(), 1020);
    assert_eq!(colored.pending(), 0);
    assert_eq!(colored.capacity(), CAPACITY);
    assert_eq!(
        *seen.borrow(),
        vec![
            (ShaderStage::Vertex, "vertex 120".to_string()),
            (ShaderStage::Fragment, "fragment 120".to_string())
        ]
    );
    seen.borrow_mut().clear();
    let failed =
        Colored::from_vs_fs(Glsl::V1_50, &vertex_shaders, &fragment_shaders, &compile, |_, _| {
            panic!("nothing to link")
        });
    assert!(matches!(
        failed,
        Err(ConstructionFailure::NoCompatibleShader(ShaderStage::Vertex))
    ));
    assert!(seen.borrow().is_empty());
    set_source(&mut vertex_shaders, Glsl::V1_50, "vertex 150");
    let failed =
        Colored::from_vs_fs(Glsl::V4_00, &vertex_shaders, &fragment_shaders, &compile, |_, _| {
            panic!("nothing to link")
        });
    match failed {
        Err(ConstructionFailure::Compile(ShaderStage::Fragment, log)) => {
            assert_eq!(log, "cannot compile broken fragment 150")
        }
        _ => panic!("expected the fragment shader to fail"),
    }
    assert_eq!(seen.borrow().len(), 2);
}

#[test]
fn texture_shader_needs_its_colour_uniform() {
    let vertex_shaders = pass_through("vertex");
    let fragment_shaders = pass_through("fragment");
    let built = Textured::from_vs_fs(
        Glsl::V3_30,
        &vertex_shaders,
        &fragment_shaders,
        &compiles,
        |v, f| (v + f, 4),
    )
    .expect("the program has the uniform");
    assert_eq!(built.program(), 30);
    let missing = Textured::from_vs_fs(
        Glsl::V3_30,
        &vertex_shaders,
        &fragment_shaders,
        &compiles,
        |v, f| (v + f, -1),
    );
    match missing {
        Err(ConstructionFailure::UniformMissing(name)) => assert_eq!(name, "color"),
        _ => panic!("expected the uniform to be missing"),
    }
    let broken = pass_through("broken vertex");
    let failed =
        Textured::from_vs_fs(Glsl::V3_30, &broken, &fragment_shaders, &compiles, |_, _| {
            panic!("nothing to link")
        });
    assert!(matches!(failed, Err(ConstructionFailure::Compile(ShaderStage::Vertex, _))));
}

#[test]
fn default_shaders_serve_from_1_50_on() {
    let sources = std::cell::RefCell::new(Vec::new());
    let compile = |stage: ShaderStage, source: &str| {
        sources.borrow_mut().push(source.to_string());
        compiles(stage, source)
    };
    assert!(matches!(
        Colored::new(Glsl::V1_40, &compile, |v, f| v + f),
        Err(ConstructionFailure::NoCompatibleShader(ShaderStage::Vertex))
    ));
    assert!(matches!(
        Textured::new(Glsl::V1_10, &compile, |v, f| (v + f, 0)),
        Err(ConstructionFailure::NoCompatibleShader(ShaderStage::Vertex))
    ));
    assert!(sources.borrow().is_empty());
    let colored = Colored::new(Glsl::V1_50, &compile, |v, f| v + f).expect("a colour shader");
    assert_eq!(colored.program(), 30);
    let textured =
        Textured::new(Glsl::V4_50, &compile, |v, f| (v + f + 1, 0)).expect("a texture shader");
    assert_eq!(textured.program(), 31);
    let sources = sources.borrow();
    assert_eq!(sources.len(), 4);
    assert_eq!(sources[0], "#version 120\nattribute vec4 color;\nattribute vec2 pos;\n\nvarying vec4 v_Color;\n\nvoid main() {\n    v_Color = color;\n    gl_Position = vec4(pos, 0.0, 1.0);\n}\n");
    assert_eq!(sources[1], "#version 120\nvarying vec4 v_Color;\n\nvoid main() {\n    gl_FragColor = v_Color;\n}\n");
    assert_eq!(sources[2], "#version 120\nuniform sampler2D s_texture;\nuniform vec4 color;\n\nattribute vec2 pos;\nattribute vec2 uv;\n\nvarying vec2 v_UV;\n\nvoid main() {\n    v_UV = uv;\n    gl_Position = vec4(pos, 0.0, 1.0);\n}\n");
    assert_eq!(sources[3], "#version 120\nuniform sampler2D s_texture;\nuniform vec4 color;\n\nvarying vec2 v_UV;\n\nvoid main()\n{\n    gl_FragColor = texture2D(s_texture, v_UV) * color;\n}\n");
    assert_eq!(sources[0].as_bytes(), shaders_graphics2d::colored::VERTEX_GLSL_120);
    assert_eq!(sources[1].as_bytes(), shaders_graphics2d::colored::FRAGMENT_GLSL_120);
    assert_eq!(sources[2].as_bytes(), shaders_graphics2d::textured::VERTEX_GLSL_120);
    assert_eq!(sources[3].as_bytes(), shaders_graphics2d::textured::FRAGMENT_GLSL_120);
}

#[test]
fn new_texture_shader_is_bound_to_texture_0_and_four_zeros() {
    let mut gl = GlGraphics::from_colored_textured(
        Colored::from_program(1),
        Textured::from_vs_fs(
            Glsl::V1_50,
            &pass_through("vertex"),
            &pass_through("fragment"),
            &compiles,
            |v, f| (v + f, 0),
        )
        .expect("a texture shader"),
    );
    let state = DrawState::new_alpha();
    gl.use_draw_state(&state);
    gl.tri_list_uv(&state, &[0, 0, 0, 0], 0, &vec![(piece(0, 3), piece(3, 3))]);
    gl.tri_list_uv(&state, &[0, 0, 0, 0], 0, &vec![(piece(3, 3), piece(6, 3))]);
    assert!(textured_calls(&mut gl).is_empty());
    gl.draw_end();
    let calls = textured_calls(&mut gl);
    assert_eq!(calls.len(), 1);
    assert_eq!(calls[0].texture_id, 0);
    assert_eq!(calls[0].color, [0, 0, 0, 0]);
    assert_eq!(calls[0].positions.len(), 6);
}

#[test]
fn renderer_is_built_for_an_opengl_version() {
    let gl = GlGraphics::new(OpenGl::V3_2, &compiles, |v, f| v + f, |v, f| (v * f, 3))
        .expect("a renderer");
    assert_eq!(gl.get_current_program(), None);
    assert_eq!(gl.colored_capacity(), CAPACITY);
    let mut gl = gl;
    gl.tri_list(&DrawState::new_alpha(), &rgba(1.0, 1.0, 1.0, 1.0), &vec![piece(0, 3)]);
    gl.tri_list_uv(
        &DrawState::new_alpha(),
        &rgba(1.0, 1.0, 1.0, 1.0),
        1,
        &vec![(piece(0, 3), piece(3, 3))],
    );
    let commands = gl.take_commands();
    assert!(matches!(commands[0], GpuCommand::UseProgram { program: 30 }));
    assert!(commands.iter().any(|c| matches!(c, GpuCommand::DrawColored)));
    assert!(matches!(
        GlGraphics::new(OpenGl::V3_1, &compiles, |v, f| v + f, |v, f| (v * f, 3)),
        Err(ConstructionFailure::NoCompatibleShader(ShaderStage::Vertex))
    ));
    assert!(matches!(
        GlGraphics::new(OpenGl::V4_5, &compiles, |v, f| v + f, |v, f| (v * f, -1)),
        Err(ConstructionFailure::UniformMissing(_))
    ));
}
