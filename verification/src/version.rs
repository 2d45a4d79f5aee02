use vstd::prelude::*;
use shader_version::glsl::GLSL;
use shader_version::{OpenGL, Shaders};
use crate::error::{ConstructionFailure, ShaderStage};

verus! {

/// The shading language versions as the picking crate has them.
#[verifier::external_type_specification]
#[verifier::external_body]
pub struct ExGLSL(GLSL);

/// The picking crate's table from versions to shader sources.
#[verifier::external_type_specification]
#[verifier::external_body]
#[verifier::reject_recursive_types(V)]
#[verifier::reject_recursive_types(S)]
pub struct ExShaders<'a, V, S: 'a + ?Sized>(Shaders<'a, V, S>);

/// The number of shading language versions, and of OpenGL versions.
pub const VERSIONS: u8 = 12;

/// A version of the OpenGL shading language. The versions are ranked from 0, the oldest.
#[allow(non_camel_case_types)]
#[derive(Clone, Copy, Debug, PartialEq, Eq, Structural)]
pub enum Glsl {
    V1_10,
    V1_20,
    V1_30,
    V1_40,
    V1_50,
    V3_30,
    V4_00,
    V4_10,
    V4_20,
    V4_30,
    V4_40,
    V4_50,
}

/// A version of OpenGL. The versions are ranked from 0, the oldest.
#[allow(non_camel_case_types)]
#[derive(Clone, Copy, Debug, PartialEq, Eq, Structural)]
pub enum OpenGl {
    V2_0,
    V2_1,
    V3_0,
    V3_1,
    V3_2,
    V3_3,
    V4_0,
    V4_1,
    V4_2,
    V4_3,
    V4_4,
    V4_5,
}

impl Glsl {
    pub open spec fn rank_spec(self) -> int {
        match self {
            Glsl::V1_10 => 0,
            Glsl::V1_20 => 1,
            Glsl::V1_30 => 2,
            Glsl::V1_40 => 3,
            Glsl::V1_50 => 4,
            Glsl::V3_30 => 5,
            Glsl::V4_00 => 6,
            Glsl::V4_10 => 7,
            Glsl::V4_20 => 8,
            Glsl::V4_30 => 9,
            Glsl::V4_40 => 10,
            Glsl::V4_50 => 11,
        }
    }

    /// The version's place among the versions.
    pub fn rank(self) -> (res: u8)
        ensures
            res == self.rank_spec(),
            res < VERSIONS,
    {
        match self {
            Glsl::V1_10 => 0,
            Glsl::V1_20 => 1,
            Glsl::V1_30 => 2,
            Glsl::V1_40 => 3,
            Glsl::V1_50 => 4,
            Glsl::V3_30 => 5,
            Glsl::V4_00 => 6,
            Glsl::V4_10 => 7,
            Glsl::V4_20 => 8,
            Glsl::V4_30 => 9,
            Glsl::V4_40 => 10,
            Glsl::V4_50 => 11,
        }
    }

    /// The version at `rank`.
    pub fn from_rank(rank: u8) -> (res: Glsl)
        requires
            rank < VERSIONS,
        ensures
            res.rank_spec() == rank,
    {
        match rank {
            0 => Glsl::V1_10,
            1 => Glsl::V1_20,
            2 => Glsl::V1_30,
            3 => Glsl::V1_40,
            4 => Glsl::V1_50,
            5 => Glsl::V3_30,
            6 => Glsl::V4_00,
            7 => Glsl::V4_10,
            8 => Glsl::V4_20,
            9 => Glsl::V4_30,
            10 => Glsl::V4_40,
            _ => Glsl::V4_50,
        }
    }
}

/// `shader_version::OpenGL::to_glsl` on the OpenGL version at rank `opengl`, as the rank of
/// the shading language version that it gives. The crate's source maps the versions in
/// order, so the rank carries over.
#[verifier::external_body]
fn glsl_rank_of(opengl: u8) -> (res: u8)
    requires
        opengl < VERSIONS,
    ensures
        res == opengl,
{
    let version = [
        OpenGL::V2_0, OpenGL::V2_1, OpenGL::V3_0, OpenGL::V3_1, OpenGL::V3_2, OpenGL::V3_3,
        OpenGL::V4_0, OpenGL::V4_1, OpenGL::V4_2, OpenGL::V4_3, OpenGL::V4_4, OpenGL::V4_5,
    ][opengl as usize];
    version.to_glsl() as u8
}

impl OpenGl {
    pub open spec fn rank_spec(self) -> int {
        match self {
            OpenGl::V2_0 => 0,
            OpenGl::V2_1 => 1,
            OpenGl::V3_0 => 2,
            OpenGl::V3_1 => 3,
            OpenGl::V3_2 => 4,
            OpenGl::V3_3 => 5,
            OpenGl::V4_0 => 6,
            OpenGl::V4_1 => 7,
            OpenGl::V4_2 => 8,
            OpenGl::V4_3 => 9,
            OpenGl::V4_4 => 10,
            OpenGl::V4_5 => 11,
        }
    }

    /// The version's place among the versions.
    pub fn rank(self) -> (res: u8)
        ensures
            res == self.rank_spec(),
            res < VERSIONS,
    {
        match self {
            OpenGl::V2_0 => 0,
            OpenGl::V2_1 => 1,
            OpenGl::V3_0 => 2,
            OpenGl::V3_1 => 3,
            OpenGl::V3_2 => 4,
            OpenGl::V3_3 => 5,
            OpenGl::V4_0 => 6,
            OpenGl::V4_1 => 7,
            OpenGl::V4_2 => 8,
            OpenGl::V4_3 => 9,
            OpenGl::V4_4 => 10,
            OpenGl::V4_5 => 11,
        }
    }

    /// Gets the shading language version associated with this OpenGL version: the one of the
    /// same rank.
    pub fn to_glsl(self) -> (res: Glsl)
        ensures
            res.rank_spec() == self.rank_spec(),
    {
        Glsl::from_rank(glsl_rank_of(self.rank()))
    }
}

/// What a table of shader sources holds: the source set for each rank of a shading language
/// version.
pub uninterp spec fn sources_of(shaders: Shaders<GLSL, str>) -> Map<int, Seq<char>>;

/// The oldest version whose source serves a request for the version at rank `version`: from
/// version 1.50 on, older sources are not compatible.
pub open spec fn oldest_served(version: int) -> int {
    if version < 4 {
        0
    } else {
        4
    }
}

/// The source of the newest version from rank `at` down to rank `low` that has one.
pub open spec fn newest_between(sources: Map<int, Seq<char>>, low: int, at: int) -> Option<Seq<char>>
    decreases at - low + 1,
{
    if at < low {
        None
    } else if sources.contains_key(at) {
        Some(sources[at])
    } else {
        newest_between(sources, low, at - 1)
    }
}

/// The source that serves a request for the version at rank `version`: that of the newest
/// version not above it and not below `oldest_served`.
pub open spec fn picked(sources: Map<int, Seq<char>>, version: int) -> Option<Seq<char>> {
    newest_between(sources, oldest_served(version), version)
}

/// `shader_version::Shaders::new`: a table without sources.
#[verifier::external_body]
fn shaders_new<'a>() -> (res: Shaders<'a, GLSL, str>)
    ensures
        sources_of(res) =~= Map::empty(),
{
    Shaders::new()
}

/// `shader_version::Shaders::set`: puts `source` under the version at rank `version`, in
/// place of what was there.
#[verifier::external_body]
fn shaders_set<'a>(shaders: &mut Shaders<'a, GLSL, str>, version: u8, source: &'a str)
    requires
        version < VERSIONS,
    ensures
        sources_of(*final(shaders)) == sources_of(*old(shaders)).insert(version as int, source@),
{
    let version = [
        GLSL::V1_10, GLSL::V1_20, GLSL::V1_30, GLSL::V1_40, GLSL::V1_50, GLSL::V3_30,
        GLSL::V4_00, GLSL::V4_10, GLSL::V4_20, GLSL::V4_30, GLSL::V4_40, GLSL::V4_50,
    ][version as usize];
    shaders.set(version, source);
}

/// `shader_version::Shaders::get` with the version at rank `version`: the crate's source
/// walks the versions in order, skips those below `oldest_served`, and takes the last that
/// is not above `version`.
#[verifier::external_body]
fn shaders_get<'a, 'b>(shaders: &'b Shaders<'a, GLSL, str>, version: u8) -> (res: Option<&'b str>)
    requires
        version < VERSIONS,
    ensures
        res is Some <==> picked(sources_of(*shaders), version as int) is Some,
        res is Some ==> res->0@ == picked(sources_of(*shaders), version as int)->0,
{
    let version = [
        GLSL::V1_10, GLSL::V1_20, GLSL::V1_30, GLSL::V1_40, GLSL::V1_50, GLSL::V3_30,
        GLSL::V4_00, GLSL::V4_10, GLSL::V4_20, GLSL::V4_30, GLSL::V4_40, GLSL::V4_50,
    ][version as usize];
    shaders.get(version)
}

/// What a table holds that has `text` for version 1.50 and nothing else.
pub open spec fn pass_through_sources(text: Seq<char>) -> Map<int, Seq<char>> {
    Map::<int, Seq<char>>::empty().insert(4, text)
}

/// A table with one source, set for version 1.50.
pub fn pass_through<'a>(source: &'a str) -> (res: Shaders<'a, GLSL, str>)
    ensures
        sources_of(res) == pass_through_sources(source@),
{
    let mut shaders = shaders_new();
    shaders_set(&mut shaders, Glsl::V1_50.rank(), source);
    shaders
}

/// Sets `source` for `version` in `shaders`, in place of what was set for it.
pub fn set_source<'a>(shaders: &mut Shaders<'a, GLSL, str>, version: Glsl, source: &'a str)
    ensures
        sources_of(*final(shaders)) == sources_of(*old(shaders)).insert(
            version.rank_spec(),
            source@,
        ),
{
    shaders_set(shaders, version.rank(), source);
}

/// The source of `shaders` that serves `glsl`: that of the closest version not above `glsl`,
/// and from 1.50 on not below 1.50. Without one, the stage has no compatible shader.
pub fn pick_source<'a, 'b>(
    stage: ShaderStage,
    glsl: Glsl,
    shaders: &'b Shaders<'a, GLSL, str>,
) -> (res: Result<&'b str, ConstructionFailure>)
    ensures
        match picked(sources_of(*shaders), glsl.rank_spec()) {
            Some(text) => res is Ok && res->Ok_0@ == text,
            None => res is Err && res->Err_0 == ConstructionFailure::NoCompatibleShader(stage),
        },
{
    match shaders_get(shaders, glsl.rank()) {
        Some(source) => Ok(source),
        None => Err(ConstructionFailure::NoCompatibleShader(stage)),
    }
}

/// `compile` can make `outcome` of the source `text` of `stage`.
pub open spec fn compiled_as<C: Fn(ShaderStage, &str) -> Result<u32, ConstructionFailure>>(
    compile: C,
    stage: ShaderStage,
    text: Seq<char>,
    outcome: Result<u32, ConstructionFailure>,
) -> bool {
    exists|source: &str| source@ == text && #[trigger] call_ensures(compile, (stage, source), outcome)
}

/// What comes of the fragment shader once the vertex shader `vertex` is compiled: `res` is its
/// failure, or both shaders.
pub open spec fn fragment_compiled<C: Fn(ShaderStage, &str) -> Result<u32, ConstructionFailure>>(
    compile: C,
    version: int,
    fragment_sources: Map<int, Seq<char>>,
    vertex: u32,
    res: Result<(u32, u32), ConstructionFailure>,
) -> bool {
    match picked(fragment_sources, version) {
        None => res == Err::<(u32, u32), ConstructionFailure>(
            ConstructionFailure::NoCompatibleShader(ShaderStage::Fragment),
        ),
        Some(text) => exists|outcome: Result<u32, ConstructionFailure>| #[trigger]
            compiled_as(compile, ShaderStage::Fragment, text, outcome) && match outcome {
                Err(e) => res == Err::<(u32, u32), ConstructionFailure>(e),
                Ok(fragment) => res == Ok::<(u32, u32), ConstructionFailure>((vertex, fragment)),
            },
    }
}

/// What comes of compiling the two shaders of a program for the version at rank `version`,
/// the vertex shader first: `res` is the first failure, or both shaders. A stage without a
/// compatible source is not compiled, and after a failure nothing more is compiled.
pub open spec fn both_compiled<C: Fn(ShaderStage, &str) -> Result<u32, ConstructionFailure>>(
    compile: C,
    version: int,
    vertex_sources: Map<int, Seq<char>>,
    fragment_sources: Map<int, Seq<char>>,
    res: Result<(u32, u32), ConstructionFailure>,
) -> bool {
    match picked(vertex_sources, version) {
        None => res == Err::<(u32, u32), ConstructionFailure>(
            ConstructionFailure::NoCompatibleShader(ShaderStage::Vertex),
        ),
        Some(text) => exists|outcome: Result<u32, ConstructionFailure>| #[trigger]
            compiled_as(compile, ShaderStage::Vertex, text, outcome) && match outcome {
                Err(e) => res == Err::<(u32, u32), ConstructionFailure>(e),
                Ok(vertex) => fragment_compiled(compile, version, fragment_sources, vertex, res),
            },
    }
}

/// Compiles the sources of `vertex_shaders` and `fragment_shaders` that serve `glsl`, the
/// vertex shader first, with `compile`, which hands a source to the GPU and tells what came
/// of it.
pub fn compile_both<'a, 'b, C: Fn(ShaderStage, &str) -> Result<u32, ConstructionFailure>>(
    glsl: Glsl,
    vertex_shaders: &'b Shaders<'a, GLSL, str>,
    fragment_shaders: &'b Shaders<'a, GLSL, str>,
    compile: &C,
) -> (res: Result<(u32, u32), ConstructionFailure>)
    requires
        forall|stage: ShaderStage, source: &str| #[trigger] call_requires(*compile, (stage, source)),
    ensures
        both_compiled(
            *compile,
            glsl.rank_spec(),
            sources_of(*vertex_shaders),
            sources_of(*fragment_shaders),
            res,
        ),
{
    let v_shader = match pick_source(ShaderStage::Vertex, glsl, vertex_shaders) {
        Ok(source) => source,
        Err(e) => {
            return Err(e);
        },
    };
    let v_outcome = compile(ShaderStage::Vertex, v_shader);
    assert(compiled_as(*compile, ShaderStage::Vertex, v_shader@, v_outcome));
    let vertex = match v_outcome {
        Ok(shader) => shader,
        Err(e) => {
            return Err(e);
        },
    };
    let f_shader = match pick_source(ShaderStage::Fragment, glsl, fragment_shaders) {
        Ok(source) => source,
        Err(e) => {
            return Err(e);
        },
    };
    let f_outcome = compile(ShaderStage::Fragment, f_shader);
    assert(compiled_as(*compile, ShaderStage::Fragment, f_shader@, f_outcome));
    match f_outcome {
        Ok(fragment) => Ok((vertex, fragment)),
        Err(e) => Err(e),
    }
}

/// A pass-through table serves exactly the versions from 1.50 on, all with its one source.
pub proof fn lemma_pass_through_serves(source: Seq<char>, version: int)
    requires
        0 <= version < 12,
    ensures
        picked(pass_through_sources(source), version) == (if version >= 4 {
            Some(source)
        } else {
            None
        }),
{
    let sources = pass_through_sources(source);
    if version >= 4 {
        lemma_newest_at(sources, 4, version, 4);
    } else {
        lemma_none_between(sources, 0, version);
    }
}

/// With pass-through tables, building a program for a version below 1.50 fails for want of a
/// compatible vertex shader, whatever `compile` would do: nothing is handed to it.
pub proof fn lemma_pass_through_needs_1_50<
    C: Fn(ShaderStage, &str) -> Result<u32, ConstructionFailure>,
>(
    compile: C,
    version: int,
    vertex_text: Seq<char>,
    fragment_text: Seq<char>,
    res: Result<(u32, u32), ConstructionFailure>,
)
    requires
        0 <= version < 4,
        both_compiled(
            compile,
            version,
            pass_through_sources(vertex_text),
            pass_through_sources(fragment_text),
            res,
        ),
    ensures
        res == Err::<(u32, u32), ConstructionFailure>(
            ConstructionFailure::NoCompatibleShader(ShaderStage::Vertex),
        ),
{
    lemma_pass_through_serves(vertex_text, version);
}

/// If `found` is the newest rank with a source from `at` down to `low`, its source is what
/// `newest_between` gives.
pub proof fn lemma_newest_at(sources: Map<int, Seq<char>>, low: int, at: int, found: int)
    requires
        low <= found <= at,
        sources.contains_key(found),
        forall|k: int| found < k <= at ==> !sources.contains_key(k),
    ensures
        newest_between(sources, low, at) == Some(sources[found]),
    decreases at - found,
{
    if at > found {
        lemma_newest_at(sources, low, at - 1, found);
    }
}

/// If no rank from `at` down to `low` has a source, `newest_between` gives none.
pub proof fn lemma_none_between(sources: Map<int, Seq<char>>, low: int, at: int)
    requires
        forall|k: int| low <= k <= at ==> !sources.contains_key(k),
    ensures
        newest_between(sources, low, at) is None,
    decreases at - low + 1,
{
    if at >= low {
        lemma_none_between(sources, low, at - 1);
    }
}

} // verus!
