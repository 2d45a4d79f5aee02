use vstd::prelude::*;

verus! {

/// Which of a program's two shaders.
#[derive(Clone, Copy, Debug, PartialEq, Eq, Structural)]
pub enum ShaderStage {
    Vertex,
    Fragment,
}

/// Why a shader could not be built. None of these is recovered from.
#[derive(Clone, Debug)]
pub enum ConstructionFailure {
    /// No source is compatible with the version asked for.
    NoCompatibleShader(ShaderStage),
    /// A source or a name holds a zero byte, at this place.
    InteriorNul(usize),
    /// The GPU refused a source; it left this log.
    Compile(ShaderStage, String),
    /// The GPU refused a source and left no log. The context may belong to another thread, or
    /// not be there.
    CompileWithoutLog(ShaderStage),
    /// The program has no attribute of this name.
    AttributeMissing(String),
    /// The program has no uniform of this name.
    UniformMissing(String),
}

/// A mistake of the caller's: what was supplied to a draw through a shader does not fit what
/// the shader declares, or a transform stack was popped too often. None of these is recovered
/// from.
#[derive(Clone, Copy, Debug, PartialEq, Eq, Structural)]
pub enum UsageViolation {
    /// More vertices than the shader's buffers hold.
    TooManyVertices,
    /// Colours were given to a shader without a colour channel.
    ColourUnexpected,
    /// No colours were given to a shader with a colour channel.
    ColourMissing,
    /// There are not as many colours as vertices.
    ColourCount,
    /// The shader declares texture coordinates without a texture, or a texture without
    /// coordinates.
    TextureMismatch,
    /// A texture was given to a shader without a texture channel.
    TextureUnexpected,
    /// No texture was given to a shader with a texture channel.
    TextureMissing,
    /// There are not as many texture coordinates as vertices.
    UvCount,
    /// The shader declares a texture without a place for its id, or such a place without a
    /// texture.
    TextureIdMismatch,
    /// Normals were given to a shader without a normal channel.
    NormalsUnexpected,
    /// No normals were given to a shader with a normal channel.
    NormalsMissing,
    /// There are not as many normals as vertices.
    NormalCount,
    /// Indices were given to a shader without an index channel.
    IndicesUnexpected,
    /// No indices were given to a shader with an index channel.
    IndicesMissing,
    /// The identity at the bottom of a transform stack was to be popped.
    RootPopped,
}

} // verus!
