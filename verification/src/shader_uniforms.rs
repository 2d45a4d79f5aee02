use vstd::prelude::*;
use core::marker::PhantomData;
use vstd::string::StringSliceAdditionalSpecFns;
use crate::back_end::{GlGraphics, GpuCommand};
use crate::shader_utils::find_nul;

verus! {

/// The value of a uniform. Numbers that the program reads as single precision floats are kept
/// as their bit patterns; matrices are in column order.
#[derive(Clone, Copy, Debug)]
pub enum UniformValue {
    Float(u32),
    Int(i32),
    UInt3([u32; 3]),
    Vec2([u32; 2]),
    Vec3([u32; 3]),
    Vec4([u32; 4]),
    Mat2x2([u32; 4]),
    Mat3x3([u32; 9]),
    Mat4x4([u32; 16]),
}

/// Describes a shader uniform of a given type.
pub struct ShaderUniform<T: ?Sized> {
    location: i32,
    phantom: PhantomData<T>,
}

impl<T: ?Sized> Clone for ShaderUniform<T> {
    fn clone(&self) -> (res: Self)
        ensures
            res == *self,
    {
        ShaderUniform { location: self.location, phantom: PhantomData }
    }
}

impl<T: ?Sized> Copy for ShaderUniform<T> {

}

/// Shader uniform type: says how a value of the type is handed to a program.
pub trait UniformType<'a> {
    /// The value given to the uniform.
    type Value: 'a;

    /// The value as the GPU takes it.
    open spec fn encoded(value: Self::Value) -> UniformValue {
        arbitrary()
    }

    /// What sets the uniform at `location` of `program` to `value`.
    fn set(value: Self::Value, location: i32, program: u32) -> (res: GpuCommand)
        ensures
            res == (GpuCommand::SetUniform { program, location, data: Self::encoded(value) }),
    ;
}

/// Shader uniform float
#[derive(Clone, Copy)]
pub struct SUFloat {}

impl UniformType<'_> for SUFloat {
    type Value = u32;

    open spec fn encoded(value: u32) -> UniformValue {
        UniformValue::Float(value)
    }

    fn set(value: u32, location: i32, program: u32) -> (res: GpuCommand) {
        GpuCommand::SetUniform { program, location, data: UniformValue::Float(value) }
    }
}

/// Shader uniform integer
#[derive(Clone, Copy)]
pub struct SUInt {}

impl UniformType<'_> for SUInt {
    type Value = i32;

    open spec fn encoded(value: i32) -> UniformValue {
        UniformValue::Int(value)
    }

    fn set(value: i32, location: i32, program: u32) -> (res: GpuCommand) {
        GpuCommand::SetUniform { program, location, data: UniformValue::Int(value) }
    }
}

/// Shader uniform vector of three unsigned integers
#[derive(Clone, Copy)]
pub struct SUUInt3 {}

impl UniformType<'_> for SUUInt3 {
    type Value = [u32; 3];

    open spec fn encoded(value: [u32; 3]) -> UniformValue {
        UniformValue::UInt3(value)
    }

    fn set(value: [u32; 3], location: i32, program: u32) -> (res: GpuCommand) {
        GpuCommand::SetUniform { program, location, data: UniformValue::UInt3(value) }
    }
}

/// Shader uniform vector of size 2
#[derive(Clone, Copy)]
pub struct SUVec2 {}

impl<'a> UniformType<'a> for SUVec2 {
    type Value = &'a [u32; 2];

    open spec fn encoded(value: &'a [u32; 2]) -> UniformValue {
        UniformValue::Vec2(*value)
    }

    fn set(value: &'a [u32; 2], location: i32, program: u32) -> (res: GpuCommand) {
        GpuCommand::SetUniform { program, location, data: UniformValue::Vec2(*value) }
    }
}

/// Shader uniform vector of size 3
#[derive(Clone, Copy)]
pub struct SUVec3 {}

impl<'a> UniformType<'a> for SUVec3 {
    type Value = &'a [u32; 3];

    open spec fn encoded(value: &'a [u32; 3]) -> UniformValue {
        UniformValue::Vec3(*value)
    }

    fn set(value: &'a [u32; 3], location: i32, program: u32) -> (res: GpuCommand) {
        GpuCommand::SetUniform { program, location, data: UniformValue::Vec3(*value) }
    }
}

/// Shader uniform vector of size 4
#[derive(Clone, Copy)]
pub struct SUVec4 {}

impl<'a> UniformType<'a> for SUVec4 {
    type Value = &'a [u32; 4];

    open spec fn encoded(value: &'a [u32; 4]) -> UniformValue {
        UniformValue::Vec4(*value)
    }

    fn set(value: &'a [u32; 4], location: i32, program: u32) -> (res: GpuCommand) {
        GpuCommand::SetUniform { program, location, data: UniformValue::Vec4(*value) }
    }
}

/// Shader uniform 2x2 matrix
#[derive(Clone, Copy)]
pub struct SUMat2x2 {}

impl<'a> UniformType<'a> for SUMat2x2 {
    type Value = &'a [u32; 4];

    open spec fn encoded(value: &'a [u32; 4]) -> UniformValue {
        UniformValue::Mat2x2(*value)
    }

    fn set(values: &'a [u32; 4], location: i32, program: u32) -> (res: GpuCommand) {
        GpuCommand::SetUniform { program, location, data: UniformValue::Mat2x2(*values) }
    }
}

/// Shader uniform 3x3 matrix
#[derive(Clone, Copy)]
pub struct SUMat3x3 {}

impl<'a> UniformType<'a> for SUMat3x3 {
    type Value = &'a [u32; 9];

    open spec fn encoded(value: &'a [u32; 9]) -> UniformValue {
        UniformValue::Mat3x3(*value)
    }

    fn set(values: &'a [u32; 9], location: i32, program: u32) -> (res: GpuCommand) {
        GpuCommand::SetUniform { program, location, data: UniformValue::Mat3x3(*values) }
    }
}

/// Shader uniform 4x4 matrix
#[derive(Clone, Copy)]
pub struct SUMat4x4 {}

impl<'a> UniformType<'a> for SUMat4x4 {
    type Value = &'a [u32; 16];

    open spec fn encoded(value: &'a [u32; 16]) -> UniformValue {
        UniformValue::Mat4x4(*value)
    }

    fn set(values: &'a [u32; 16], location: i32, program: u32) -> (res: GpuCommand) {
        GpuCommand::SetUniform { program, location, data: UniformValue::Mat4x4(*values) }
    }
}

impl GlGraphics {
    /// The program to ask for the location of the uniform `name`: the current program, if it
    /// is known and `name` holds no zero byte.
    pub fn uniform_program(&self, name: &str) -> (res: Option<u32>)
        ensures
            res == (if exists|at: int| crate::shader_utils::is_first_nul(name.spec_bytes(), at) {
                None
            } else {
                self@.program
            }),
    {
        match find_nul(name) {
            Some(at) => {
                assert(crate::shader_utils::is_first_nul(name.spec_bytes(), at as int));
                None
            },
            None => self.get_current_program(),
        }
    }

    /// Try to get the uniform `name` of the current shader, given the location `answer` that
    /// the GPU found for it; where `uniform_program` says that there is nothing to ask, any
    /// `answer` will do. An answer of -1 says that there is no such uniform.
    pub fn get_uniform<T: ?Sized>(&self, name: &str, answer: i32) -> (res: Option<ShaderUniform<T>>)
        ensures
            res is Some <==> self@.program is Some && answer != -1 && !(exists|at: int|
                crate::shader_utils::is_first_nul(name.spec_bytes(), at)),
            res is Some ==> res->0.location() == answer,
    {
        match self.uniform_program(name) {
            Some(_) => if answer == -1 {
                None
            } else {
                Some(ShaderUniform { location: answer, phantom: PhantomData })
            },
            None => None,
        }
    }
}

impl<T: ?Sized> ShaderUniform<T> {
    /// Where the uniform is in its program.
    pub closed spec fn location(&self) -> i32 {
        self.location
    }
}

impl<'a, T: UniformType<'a>> ShaderUniform<T> {
    /// Set the value of the uniform in the current program. Nothing happens if no program is
    /// known to be current.
    pub fn set(&self, gl: &mut GlGraphics, value: T::Value)
        ensures
            final(gl).wf() == old(gl).wf(),
            final(gl)@ == (match old(gl)@.program {
                Some(program) => old(gl)@.emit(
                    GpuCommand::SetUniform {
                        program,
                        location: self.location(),
                        data: T::encoded(value),
                    },
                ),
                None => old(gl)@,
            }),
    {
        match gl.get_current_program() {
            Some(program) => {
                let command = T::set(value, self.location, program);
                gl.queue(command);
            },
            None => {},
        }
    }
}

} // verus!
