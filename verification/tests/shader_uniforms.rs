use scene_render::back_end::{Colored, GlGraphics, GpuCommand, Textured};
use scene_render::shader_uniforms::{
    SUFloat, SUInt, SUMat2x2, SUMat3x3, SUMat4x4, SUUInt3, SUVec2, SUVec3, SUVec4, ShaderUniform,
    UniformType, UniformValue,
};

fn renderer() -> GlGraphics {
    GlGraphics::from_colored_textured(Colored::from_program(11), Textured::from_program(22))
}

#[test]
fn uniform_needs_a_current_program() {
    let mut gl = renderer();
    assert_eq!(gl.uniform_program("time"), None);
    assert!(gl.get_uniform::<SUFloat>("time", 3).is_none());
    gl.use_program(40);
    assert_eq!(gl.uniform_program("time"), Some(40));
    assert!(gl.get_uniform::<SUFloat>("time", 3).is_some());
}

#[test]
fn uniform_is_missing_at_minus_one_or_with_a_zero_byte() {
    let mut gl = renderer();
    gl.use_program(40);
    assert!(gl.get_uniform::<SUInt>("count", -1).is_none());
    assert!(gl.get_uniform::<SUInt>("count", 0).is_some());
    assert_eq!(gl.uniform_program("co\0unt"), None);
    assert!(gl.get_uniform::<SUInt>("co\0unt", 0).is_none());
}

#[test]
fn setting_a_uniform_queues_it_for_the_current_program() {
    let mut gl = renderer();
    gl.use_program(40);
    let time: ShaderUniform<SUFloat> = gl.get_uniform("time", 3).unwrap();
    let copy = time;
    let _ = gl.take_commands();
    time.set(&mut gl, 1.5f32.to_bits());
    gl.clear_program();
    copy.set(&mut gl, 2.5f32.to_bits());
    let commands = gl.take_commands();
    assert_eq!(commands.len(), 1);
    match commands[0] {
        GpuCommand::SetUniform { program: 40, location: 3, data: UniformValue::Float(bits) } => {
            assert_eq!(f32::from_bits(bits), 1.5)
        }
        _ => panic!("expected the setting of a float"),
    }
}

#[test]
fn each_uniform_type_hands_its_value_on() {
    let one = 1f32.to_bits();
    assert!(matches!(
        SUFloat::set(one, 1, 2),
        GpuCommand::SetUniform { program: 2, location: 1, data: UniformValue::Float(v) } if v == one
    ));
    assert!(matches!(
        SUInt::set(-4, 1, 2),
        GpuCommand::SetUniform { program: 2, location: 1, data: UniformValue::Int(-4) }
    ));
    assert!(matches!(
        SUUInt3::set([1, 2, 3], 1, 2),
        GpuCommand::SetUniform { data: UniformValue::UInt3([1, 2, 3]), .. }
    ));
    assert!(matches!(
        SUVec2::set(&[1, 2], 1, 2),
        GpuCommand::SetUniform { data: UniformValue::Vec2([1, 2]), .. }
    ));
    assert!(matches!(
        SUVec3::set(&[1, 2, 3], 1, 2),
        GpuCommand::SetUniform { data: UniformValue::Vec3([1, 2, 3]), .. }
    ));
    assert!(matches!(
        SUVec4::set(&[1, 2, 3, 4], 1, 2),
        GpuCommand::SetUniform { data: UniformValue::Vec4([1, 2, 3, 4]), .. }
    ));
    assert!(matches!(
        SUMat2x2::set(&[1, 2, 3, 4], 1, 2),
        GpuCommand::SetUniform { data: UniformValue::Mat2x2([1, 2, 3, 4]), .. }
    ));
    let nine = [1u32, 2, 3, 4, 5, 6, 7, 8, 9];
    assert!(matches!(
        SUMat3x3::set(&nine, 1, 2),
        GpuCommand::SetUniform { data: UniformValue::Mat3x3(m), .. } if m == nine
    ));
    let mut sixteen = [0u32; 16];
    sixteen[15] = 15;
    assert!(matches!(
        SUMat4x4::set(&sixteen, 1, 2),
        GpuCommand::SetUniform { data: UniformValue::Mat4x4(m), .. } if m == sixteen
    ));
}
