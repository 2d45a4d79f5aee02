use vstd::prelude::*;
use shader_version::glsl::GLSL;
use shader_version::Shaders;
use crate::draw_state::{DrawState, Viewport};
use crate::error::{ConstructionFailure, ShaderStage, UsageViolation};
use crate::shader_uniforms::UniformValue;
use crate::shader_utils::{
    channel_violation, uniform_location, written, Shader, ShaderState, Submission, Supplied,
};
use crate::version::{
    both_compiled, compile_both, pass_through, pass_through_sources, sources_of, Glsl, OpenGl,
};

verus! {

/// The first `n` entries of `buffer`, copied.
fn copy_prefix<E: Copy>(buffer: &Vec<E>, n: usize) -> (res: Vec<E>)
    requires
        n <= buffer@.len(),
    ensures
        res@ == buffer@.take(n as int),
{
    let mut out: Vec<E> = Vec::new();
    let mut i: usize = 0;
    while i < n
        invariant
            i <= n <= buffer@.len(),
            out@ == buffer@.take(i as int),
        decreases n - i,
    {
        out.push(buffer[i]);
        i += 1;
        assert(out@ =~= buffer@.take(i as int));
    }
    out
}

/// `items` copied into `buffer` from `at` on.
fn write_at<E: Copy>(buffer: &mut Vec<E>, at: usize, items: &[E])
    requires
        at + items@.len() <= old(buffer)@.len(),
    ensures
        final(buffer)@ == written(old(buffer)@, at as int, items@),
{
    let n = items.len();
    let size = buffer.len();
    let mut i: usize = 0;
    while i < n
        invariant
            n == items@.len(),
            i <= n,
            at + n <= size,
            buffer@.len() == size,
            buffer@ == written(old(buffer)@, at as int, items@.take(i as int)),
        decreases n - i,
    {
        buffer[at + i] = items[i];
        i += 1;
        assert(buffer@ =~= written(old(buffer)@, at as int, items@.take(i as int)));
    }
    assert(items@.take(n as int) =~= items@);
}

/// `color` written `n` times into `buffer` from `at` on.
fn fill_at<E: Copy>(buffer: &mut Vec<E>, at: usize, n: usize, color: E)
    requires
        at + n <= old(buffer)@.len(),
    ensures
        final(buffer)@ == written(old(buffer)@, at as int, Seq::new(n as nat, |i: int| color)),
{
    let size = buffer.len();
    let mut i: usize = 0;
    while i < n
        invariant
            i <= n,
            at + n <= size,
            buffer@.len() == size,
            buffer@ == written(old(buffer)@, at as int, Seq::new(i as nat, |j: int| color)),
        decreases n - i,
    {
        buffer[at + i] = color;
        i += 1;
        assert(buffer@ =~= written(old(buffer)@, at as int, Seq::new(i as nat, |j: int| color)));
    }
}

/// The number of chunks that a fixed shader buffers before it must render.
pub const CHUNKS: usize = 100;

/// `graphics::BACK_END_MAX_VERTEX_COUNT`, the most vertices that the drawing library hands
/// over in one piece. Its source gives it the value 1023.
#[verifier::external_body]
fn max_vertex_count() -> (res: usize)
    ensures
        res == 1023,
{
    graphics::BACK_END_MAX_VERTEX_COUNT
}

/// The embedded source of the vertex shader for coloured drawing.
pub open spec fn colored_vertex_text() -> Seq<char> {
    "#version 120\nattribute vec4 color;\nattribute vec2 pos;\n\nvarying vec4 v_Color;\n\nvoid main() {\n    v_Color = color;\n    gl_Position = vec4(pos, 0.0, 1.0);\n}\n"@
}

/// The embedded source of the fragment shader for coloured drawing.
pub open spec fn colored_fragment_text() -> Seq<char> {
    "#version 120\nvarying vec4 v_Color;\n\nvoid main() {\n    gl_FragColor = v_Color;\n}\n"@
}

/// The embedded source of the vertex shader for textured drawing.
pub open spec fn textured_vertex_text() -> Seq<char> {
    "#version 120\nuniform sampler2D s_texture;\nuniform vec4 color;\n\nattribute vec2 pos;\nattribute vec2 uv;\n\nvarying vec2 v_UV;\n\nvoid main() {\n    v_UV = uv;\n    gl_Position = vec4(pos, 0.0, 1.0);\n}\n"@
}

/// The embedded source of the fragment shader for textured drawing.
pub open spec fn textured_fragment_text() -> Seq<char> {
    "#version 120\nuniform sampler2D s_texture;\nuniform vec4 color;\n\nvarying vec2 v_UV;\n\nvoid main()\n{\n    gl_FragColor = texture2D(s_texture, v_UV) * color;\n}\n"@
}

/// `shaders_graphics2d::colored::VERTEX_GLSL_120`, the embedded source of the vertex shader
/// for coloured drawing, as text. The file that the
/// constant includes holds the text that the contract states.
#[verifier::external_body]
fn colored_vertex_glsl_120() -> (res: &'static str)
    ensures
        res@ == colored_vertex_text(),
{
    core::str::from_utf8(shaders_graphics2d::colored::VERTEX_GLSL_120).unwrap_or("")
}

/// `shaders_graphics2d::colored::FRAGMENT_GLSL_120`, the embedded source of the fragment
/// shader for coloured drawing, as text. The file that the
/// constant includes holds the text that the contract states.
#[verifier::external_body]
fn colored_fragment_glsl_120() -> (res: &'static str)
    ensures
        res@ == colored_fragment_text(),
{
    core::str::from_utf8(shaders_graphics2d::colored::FRAGMENT_GLSL_120).unwrap_or("")
}

/// `shaders_graphics2d::textured::VERTEX_GLSL_120`, the embedded source of the vertex shader
/// for textured drawing, as text. The file that the
/// constant includes holds the text that the contract states.
#[verifier::external_body]
fn textured_vertex_glsl_120() -> (res: &'static str)
    ensures
        res@ == textured_vertex_text(),
{
    core::str::from_utf8(shaders_graphics2d::textured::VERTEX_GLSL_120).unwrap_or("")
}

/// `shaders_graphics2d::textured::FRAGMENT_GLSL_120`, the embedded source of the fragment
/// shader for textured drawing, as text. The file that the
/// constant includes holds the text that the contract states.
#[verifier::external_body]
fn textured_fragment_glsl_120() -> (res: &'static str)
    ensures
        res@ == textured_fragment_text(),
{
    core::str::from_utf8(shaders_graphics2d::textured::FRAGMENT_GLSL_120).unwrap_or("")
}

/// What is made of the compiled `shaders`: their failure, or a fresh colour shader around the
/// program that `link` makes of them.
pub open spec fn colored_made<L: FnOnce(u32, u32) -> u32>(
    link: L,
    shaders: Result<(u32, u32), ConstructionFailure>,
    res: Result<Colored, ConstructionFailure>,
) -> bool {
    match shaders {
        Err(e) => res is Err && res->Err_0 == e,
        Ok(both) => res is Ok && call_ensures(link, both, res->Ok_0@.program) && res->Ok_0.wf()
            && res->Ok_0@.capacity == fixed_capacity() && res->Ok_0@.offset() == 0
            && res->Ok_0@.calls.len() == 0,
    }
}

/// What is made of the compiled `shaders`: their failure, or, where `link` finds no uniform
/// `color` in the program that it makes of them, that failure, or a fresh texture shader
/// around the program, bound to texture 0 and the colour of four zeros.
pub open spec fn textured_made<L: FnOnce(u32, u32) -> (u32, i32)>(
    link: L,
    shaders: Result<(u32, u32), ConstructionFailure>,
    res: Result<Textured, ConstructionFailure>,
) -> bool {
    match shaders {
        Err(e) => res is Err && res->Err_0 == e,
        Ok(both) => exists|linked: (u32, i32)| #[trigger]
            call_ensures(link, both, linked) && if linked.1 < 0 {
                res is Err && res->Err_0 is UniformMissing && res->Err_0->UniformMissing_0@
                    == "color"@
            } else {
                res is Ok && res->Ok_0@.program == linked.0 && res->Ok_0.wf() && res->Ok_0@.capacity
                    == fixed_capacity() && res->Ok_0@.offset() == 0 && res->Ok_0@.calls.len() == 0
                    && res->Ok_0@.pending.texture_id == 0 && res->Ok_0@.pending.color == [
                    0u32,
                    0u32,
                    0u32,
                    0u32,
                ]
            },
    }
}

/// What comes of building the colour shader from its embedded sources for the version at
/// rank `version`.
pub open spec fn colored_new<
    C: Fn(ShaderStage, &str) -> Result<u32, ConstructionFailure>,
    L: FnOnce(u32, u32) -> u32,
>(compile: C, link: L, version: int, res: Result<Colored, ConstructionFailure>) -> bool {
    exists|shaders: Result<(u32, u32), ConstructionFailure>| #[trigger]
        both_compiled(
            compile,
            version,
            pass_through_sources(colored_vertex_text()),
            pass_through_sources(colored_fragment_text()),
            shaders,
        ) && colored_made(link, shaders, res)
}

/// What comes of building the texture shader from its embedded sources for the version at
/// rank `version`.
pub open spec fn textured_new<
    C: Fn(ShaderStage, &str) -> Result<u32, ConstructionFailure>,
    L: FnOnce(u32, u32) -> (u32, i32),
>(compile: C, link: L, version: int, res: Result<Textured, ConstructionFailure>) -> bool {
    exists|shaders: Result<(u32, u32), ConstructionFailure>| #[trigger]
        both_compiled(
            compile,
            version,
            pass_through_sources(textured_vertex_text()),
            pass_through_sources(textured_fragment_text()),
            shaders,
        ) && textured_made(link, shaders, res)
}

/// The capacity that the fixed shaders are built with: `CHUNKS` chunks of as many vertices
/// as the drawing library hands over in one piece.
pub open spec fn fixed_capacity() -> nat {
    (CHUNKS * 1023) as nat
}

/// A run of coloured vertices: one colour for each position.
pub struct ColoredBatch {
    pub positions: Seq<[u32; 2]>,
    pub colors: Seq<[u32; 4]>,
}

/// The colour shader as the batching rules see it: what is buffered, and every draw call
/// made so far.
pub struct ColoredView {
    pub program: u32,
    pub capacity: nat,
    pub pending: ColoredBatch,
    pub calls: Seq<ColoredBatch>,
}

impl ColoredView {
    pub open spec fn wf(self) -> bool {
        &&& self.pending.positions.len() == self.pending.colors.len()
        &&& self.pending.positions.len() <= self.capacity
    }

    /// The number of buffered vertices.
    pub open spec fn offset(self) -> nat {
        self.pending.positions.len()
    }

    /// What is buffered becomes one more draw call.
    pub open spec fn flush(self) -> ColoredView {
        ColoredView {
            pending: ColoredBatch { positions: Seq::empty(), colors: Seq::empty() },
            calls: self.calls.push(self.pending),
            ..self
        }
    }

    /// `vertices` buffered behind what is there, each with `color`.
    pub open spec fn append(self, vertices: Seq<[u32; 2]>, color: [u32; 4]) -> ColoredView {
        ColoredView {
            pending: ColoredBatch {
                positions: self.pending.positions + vertices,
                colors: self.pending.colors + Seq::new(vertices.len(), |i: int| color),
            },
            ..self
        }
    }
}

/// A run of textured vertices: one texture coordinate for each position, drawn with one
/// texture and one colour.
pub struct TexturedBatch {
    pub texture_id: u32,
    pub color: [u32; 4],
    pub positions: Seq<[u32; 2]>,
    pub uvs: Seq<[u32; 2]>,
}

/// The texture shader as the batching rules see it. `pending` carries the texture and the
/// colour that were bound last.
pub struct TexturedView {
    pub program: u32,
    pub capacity: nat,
    pub pending: TexturedBatch,
    pub calls: Seq<TexturedBatch>,
}

impl TexturedView {
    pub open spec fn wf(self) -> bool {
        &&& self.pending.positions.len() == self.pending.uvs.len()
        &&& self.pending.positions.len() <= self.capacity
    }

    /// The number of buffered vertices.
    pub open spec fn offset(self) -> nat {
        self.pending.positions.len()
    }

    /// What is buffered becomes one more draw call; texture and colour stay bound.
    pub open spec fn flush(self) -> TexturedView {
        TexturedView {
            pending: TexturedBatch { positions: Seq::empty(), uvs: Seq::empty(), ..self.pending },
            calls: self.calls.push(self.pending),
            ..self
        }
    }

    /// Another texture and colour for what is buffered from now on.
    pub open spec fn bind(self, texture_id: u32, color: [u32; 4]) -> TexturedView {
        TexturedView { pending: TexturedBatch { texture_id, color, ..self.pending }, ..self }
    }

    /// `vertices` with their `uvs` buffered behind what is there.
    pub open spec fn append(self, vertices: Seq<[u32; 2]>, uvs: Seq<[u32; 2]>) -> TexturedView {
        TexturedView {
            pending: TexturedBatch {
                positions: self.pending.positions + vertices,
                uvs: self.pending.uvs + uvs,
                ..self.pending
            },
            ..self
        }
    }
}

/// One draw call of the colour shader: as many colours as positions.
pub struct ColoredCall {
    pub positions: Vec<[u32; 2]>,
    pub colors: Vec<[u32; 4]>,
}

/// Describes how to render colored objects: a position and a colour for each vertex.
pub struct Colored {
    program: u32,
    pos_buffer: Vec<[u32; 2]>,
    color_buffer: Vec<[u32; 4]>,
    offset: usize,
    submitted: Vec<ColoredCall>,
}

impl Shader for Colored {
    type Vertex = [u32; 2];

    closed spec fn state(&self) -> ShaderState<[u32; 2]> {
        ShaderState {
            program: self.program,
            offset: self.offset,
            positions: self.pos_buffer@,
            colours: Some(self.color_buffer@),
            uvs: None,
            indices: None,
            normals: None,
            texture: None,
            has_texture: false,
        }
    }

    closed spec fn flushed(&self) -> Seq<Submission<[u32; 2]>> {
        Seq::new(
            self.submitted@.len(),
            |i: int|
                Submission {
                    program: self.program,
                    positions: self.submitted@[i].positions@,
                    colours: Some(self.submitted@[i].colors@),
                    uvs: None,
                    indices: None,
                    normals: None,
                    texture: None,
                },
        )
    }

    fn flush(&mut self)
        ensures
            final(self).wf(),
            final(self)@ == old(self)@.flush(),
    {
        let positions = copy_prefix(&self.pos_buffer, self.offset);
        let colors = copy_prefix(&self.color_buffer, self.offset);
        self.submitted.push(ColoredCall { positions, colors });
        self.offset = 0;
        assert(final(self).flushed() =~= old(self).flushed().push(old(self).state().submission()));
        assert(final(self)@.pending.positions =~= Seq::<[u32; 2]>::empty());
        assert(final(self)@.pending.colors =~= Seq::<[u32; 4]>::empty());
        assert(final(self)@.calls =~= old(self)@.calls.push(old(self)@.pending));
    }

    fn program(&self) -> (res: u32) {
        self.program
    }

    fn offset(&mut self) -> (res: &mut usize) {
        &mut self.offset
    }

    fn pos_buffer(&mut self) -> (res: &mut Vec<[u32; 2]>) {
        &mut self.pos_buffer
    }

    fn colour_buffer(&mut self) -> (res: Option<&mut Vec<[u32; 4]>>) {
        Some(&mut self.color_buffer)
    }

    fn uv_buffer(&mut self) -> (res: Option<&mut Vec<[u32; 2]>>) {
        None
    }

    fn index_buffer(&mut self) -> (res: Option<&mut Vec<u16>>) {
        None
    }

    fn normal_buffer(&mut self) -> (res: Option<&mut Vec<[u32; 3]>>) {
        None
    }

    fn texture_id(&mut self) -> (res: Option<&mut u32>) {
        None
    }

    fn has_texture(&self) -> (res: bool) {
        false
    }
}

/// A buffer of `n` entries, each `zero`.
fn zeroed<E: Copy>(n: usize, zero: E) -> (res: Vec<E>)
    ensures
        res@ == Seq::new(n as nat, |i: int| zero),
{
    let mut out: Vec<E> = Vec::new();
    let mut i: usize = 0;
    while i < n
        invariant
            i <= n,
            out@ == Seq::new(i as nat, |j: int| zero),
        decreases n - i,
    {
        out.push(zero);
        i += 1;
        assert(out@ =~= Seq::new(i as nat, |j: int| zero));
    }
    out
}

impl ColoredCall {
    pub open spec fn view(&self) -> ColoredBatch {
        ColoredBatch { positions: self.positions@, colors: self.colors@ }
    }
}

impl Colored {
    /// The colour buffer is as long as the position buffer, and the fill count is within both.
    pub closed spec fn wf(&self) -> bool {
        &&& self.offset <= self.pos_buffer@.len()
        &&& self.color_buffer@.len() == self.pos_buffer@.len()
    }

    pub closed spec fn view(&self) -> ColoredView {
        ColoredView {
            program: self.program,
            capacity: self.pos_buffer@.len(),
            pending: ColoredBatch {
                positions: self.pos_buffer@.take(self.offset as int),
                colors: self.color_buffer@.take(self.offset as int),
            },
            calls: Seq::new(self.submitted@.len(), |i: int| self.submitted@[i]@),
        }
    }

    /// How the shader as the trait sees it and as the batching rules see it go together: it
    /// declares colours and no other optional channel, `wf` is the trait's well-formedness,
    /// and what is buffered is the filled part of the buffers.
    pub proof fn lemma_wf(&self)
        ensures
            self.state().colours is Some,
            self.state().uvs is None,
            self.state().indices is None,
            self.state().normals is None,
            self.state().texture is None,
            !self.state().has_texture,
            self.wf() <==> self.state().well_formed(),
            self.wf() ==> self@.wf(),
            self@.program == self.state().program,
            self@.capacity == self.state().capacity(),
            self.wf() ==> self@.offset() == self.state().offset,
            self@.pending.positions == self.state().positions.take(self.state().offset as int),
            self@.pending.colors == self.state().colours->0.take(self.state().offset as int),
    {
    }

    /// A colour shader around a linked program, with nothing buffered and nothing drawn.
    pub fn from_program(program: u32) -> (res: Colored)
        ensures
            res.wf(),
            res@.program == program,
            res@.capacity == fixed_capacity(),
            res@.offset() == 0,
            res@.calls.len() == 0,
    {
        let size = CHUNKS * max_vertex_count();
        let zero2: [u32; 2] = [0, 0];
        let zero4: [u32; 4] = [0, 0, 0, 0];
        Colored {
            program,
            pos_buffer: zeroed(size, zero2),
            color_buffer: zeroed(size, zero4),
            offset: 0,
            submitted: Vec::new(),
        }
    }

    /// Generate using pass-through shaders: as `from_vs_fs` with the embedded sources for
    /// coloured drawing, which serve the versions from 1.50 on.
    pub fn new<
        C: Fn(ShaderStage, &str) -> Result<u32, ConstructionFailure>,
        L: FnOnce(u32, u32) -> u32,
    >(glsl: Glsl, compile: &C, link: L) -> (res: Result<Colored, ConstructionFailure>)
        requires
            forall|stage: ShaderStage, source: &str| #[trigger]
                call_requires(*compile, (stage, source)),
            forall|vertex: u32, fragment: u32| #[trigger] call_requires(link, (vertex, fragment)),
        ensures
            colored_new(*compile, link, glsl.rank_spec(), res),
    {
        let vertex_source = colored_vertex_glsl_120();
        let fragment_source = colored_fragment_glsl_120();
        let vertex_shaders = pass_through(vertex_source);
        let fragment_shaders = pass_through(fragment_source);
        let res = Colored::from_vs_fs(glsl, &vertex_shaders, &fragment_shaders, compile, link);
        proof {
            let shaders = choose|shaders: Result<(u32, u32), ConstructionFailure>| #[trigger]
                both_compiled(
                    *compile,
                    glsl.rank_spec(),
                    sources_of(vertex_shaders),
                    sources_of(fragment_shaders),
                    shaders,
                ) && colored_made(link, shaders, res);
            assert(both_compiled(
                *compile,
                glsl.rank_spec(),
                pass_through_sources(vertex_source@),
                pass_through_sources(fragment_source@),
                shaders,
            ));
        }
        res
    }

    /// Generate using custom vertex and fragment shaders: compiles the sources that serve `glsl`
    /// with `compile`, the vertex shader first, and makes a colour shader around the program
    /// that `link` makes of the two. The first failure is handed back, and nothing more is
    /// done after it.
    pub fn from_vs_fs<
        C: Fn(ShaderStage, &str) -> Result<u32, ConstructionFailure>,
        L: FnOnce(u32, u32) -> u32,
    >(
        glsl: Glsl,
        vertex_shaders: &Shaders<GLSL, str>,
        fragment_shaders: &Shaders<GLSL, str>,
        compile: &C,
        link: L,
    ) -> (res: Result<Colored, ConstructionFailure>)
        requires
            forall|stage: ShaderStage, source: &str| #[trigger]
                call_requires(*compile, (stage, source)),
            forall|vertex: u32, fragment: u32| #[trigger] call_requires(link, (vertex, fragment)),
        ensures
            exists|shaders: Result<(u32, u32), ConstructionFailure>| #[trigger]
                both_compiled(
                    *compile,
                    glsl.rank_spec(),
                    sources_of(*vertex_shaders),
                    sources_of(*fragment_shaders),
                    shaders,
                ) && colored_made(link, shaders, res),
    {
        match compile_both(glsl, vertex_shaders, fragment_shaders, compile) {
            Err(e) => Err(e),
            Ok((vertex, fragment)) => {
                let program = link(vertex, fragment);
                Ok(Colored::from_program(program))
            },
        }
    }

    /// The number of vertices that are buffered and not yet drawn.
    pub fn pending(&self) -> (res: usize)
        ensures
            self.wf() ==> res == self@.offset(),
            res == self.state().offset,
    {
        self.offset
    }

    /// The number of vertices that fit between two draw calls.
    pub fn capacity(&self) -> (res: usize)
        ensures
            res == self@.capacity,
    {
        self.pos_buffer.len()
    }

    /// Buffers `vertices`, each with `color`. There must be room for them.
    pub fn append(&mut self, vertices: &[[u32; 2]], color: [u32; 4])
        requires
            old(self).wf(),
            old(self)@.offset() + vertices@.len() <= old(self)@.capacity,
        ensures
            final(self).wf(),
            final(self)@ == old(self)@.append(vertices@, color),
    {
        let items = vertices.len();
        let size = self.pos_buffer.len();
        assert(self.offset + items <= size);
        fill_at(&mut self.color_buffer, self.offset, items, color);
        write_at(&mut self.pos_buffer, self.offset, vertices);
        self.offset += items;
        assert(final(self)@.pending.positions =~= old(self)@.pending.positions + vertices@);
        assert(final(self)@.pending.colors =~= old(self)@.pending.colors + Seq::new(
            vertices@.len(),
            |i: int| color,
        ));
        assert(final(self)@.calls =~= old(self)@.calls);
    }

    /// Hands over the draw calls made so far, oldest first, and forgets them.
    pub fn take_calls(&mut self) -> (res: Vec<ColoredCall>)
        requires
            old(self).wf(),
        ensures
            final(self).wf(),
            res@.len() == old(self)@.calls.len(),
            forall|i: int| 0 <= i < res@.len() ==> (#[trigger] res@[i])@ == old(self)@.calls[i],
            final(self)@ == (ColoredView { calls: Seq::empty(), ..old(self)@ }),
            final(self).state() == old(self).state(),
    {
        let mut out: Vec<ColoredCall> = Vec::new();
        core::mem::swap(&mut out, &mut self.submitted);
        assert(final(self)@.calls =~= Seq::<ColoredBatch>::empty());
        out
    }
}

/// One draw call of the texture shader: as many texture coordinates as positions, one
/// texture and one colour for all of them.
pub struct TexturedCall {
    pub texture_id: u32,
    pub color: [u32; 4],
    pub positions: Vec<[u32; 2]>,
    pub uvs: Vec<[u32; 2]>,
}

/// Describes how to render textured objects: a position and a texture coordinate for each
/// vertex. It remembers the texture and the colour of the vertices that it buffers.
pub struct Textured {
    program: u32,
    pos_buffer: Vec<[u32; 2]>,
    uv_buffer: Vec<[u32; 2]>,
    offset: usize,
    last_texture_id: u32,
    last_color: [u32; 4],
    submitted: Vec<TexturedCall>,
}

impl Shader for Textured {
    type Vertex = [u32; 2];

    closed spec fn state(&self) -> ShaderState<[u32; 2]> {
        ShaderState {
            program: self.program,
            offset: self.offset,
            positions: self.pos_buffer@,
            colours: None,
            uvs: Some(self.uv_buffer@),
            indices: None,
            normals: None,
            texture: Some(self.last_texture_id),
            has_texture: true,
        }
    }

    closed spec fn flushed(&self) -> Seq<Submission<[u32; 2]>> {
        Seq::new(
            self.submitted@.len(),
            |i: int|
                Submission {
                    program: self.program,
                    positions: self.submitted@[i].positions@,
                    colours: None,
                    uvs: Some(self.submitted@[i].uvs@),
                    indices: None,
                    normals: None,
                    texture: Some(self.submitted@[i].texture_id),
                },
        )
    }

    fn flush(&mut self)
        ensures
            final(self).wf(),
            final(self)@ == old(self)@.flush(),
    {
        let positions = copy_prefix(&self.pos_buffer, self.offset);
        let uvs = copy_prefix(&self.uv_buffer, self.offset);
        self.submitted.push(
            TexturedCall { texture_id: self.last_texture_id, color: self.last_color, positions, uvs },
        );
        self.offset = 0;
        assert(final(self).flushed() =~= old(self).flushed().push(old(self).state().submission()));
        assert(final(self)@.pending.positions =~= Seq::<[u32; 2]>::empty());
        assert(final(self)@.pending.uvs =~= Seq::<[u32; 2]>::empty());
        assert(final(self)@.calls =~= old(self)@.calls.push(old(self)@.pending));
    }

    fn program(&self) -> (res: u32) {
        self.program
    }

    fn offset(&mut self) -> (res: &mut usize) {
        &mut self.offset
    }

    fn pos_buffer(&mut self) -> (res: &mut Vec<[u32; 2]>) {
        &mut self.pos_buffer
    }

    fn colour_buffer(&mut self) -> (res: Option<&mut Vec<[u32; 4]>>) {
        None
    }

    fn uv_buffer(&mut self) -> (res: Option<&mut Vec<[u32; 2]>>) {
        Some(&mut self.uv_buffer)
    }

    fn index_buffer(&mut self) -> (res: Option<&mut Vec<u16>>) {
        None
    }

    fn normal_buffer(&mut self) -> (res: Option<&mut Vec<[u32; 3]>>) {
        None
    }

    fn texture_id(&mut self) -> (res: Option<&mut u32>) {
        Some(&mut self.last_texture_id)
    }

    fn has_texture(&self) -> (res: bool) {
        true
    }
}

impl TexturedCall {
    pub open spec fn view(&self) -> TexturedBatch {
        TexturedBatch {
            texture_id: self.texture_id,
            color: self.color,
            positions: self.positions@,
            uvs: self.uvs@,
        }
    }
}

impl Textured {
    /// The coordinate buffer is as long as the position buffer, and the fill count is within
    /// both.
    pub closed spec fn wf(&self) -> bool {
        &&& self.offset <= self.pos_buffer@.len()
        &&& self.uv_buffer@.len() == self.pos_buffer@.len()
    }

    pub closed spec fn view(&self) -> TexturedView {
        TexturedView {
            program: self.program,
            capacity: self.pos_buffer@.len(),
            pending: TexturedBatch {
                texture_id: self.last_texture_id,
                color: self.last_color,
                positions: self.pos_buffer@.take(self.offset as int),
                uvs: self.uv_buffer@.take(self.offset as int),
            },
            calls: Seq::new(self.submitted@.len(), |i: int| self.submitted@[i]@),
        }
    }

    /// How the shader as the trait sees it and as the batching rules see it go together: it
    /// declares texture coordinates and a texture and no other optional channel, `wf` is the
    /// trait's well-formedness, and what is buffered is the filled part of the buffers.
    pub proof fn lemma_wf(&self)
        ensures
            self.state().colours is None,
            self.state().uvs is Some,
            self.state().indices is None,
            self.state().normals is None,
            self.state().texture == Some(self@.pending.texture_id),
            self.state().has_texture,
            self.wf() <==> self.state().well_formed(),
            self.wf() ==> self@.wf(),
            self@.program == self.state().program,
            self@.capacity == self.state().capacity(),
            self.wf() ==> self@.offset() == self.state().offset,
            self@.pending.positions == self.state().positions.take(self.state().offset as int),
            self@.pending.uvs == self.state().uvs->0.take(self.state().offset as int),
    {
    }

    /// A texture shader around a linked program, with nothing buffered and nothing drawn, bound
    /// to texture 0 and the colour of four zeros.
    pub fn from_program(program: u32) -> (res: Textured)
        ensures
            res.wf(),
            res@.program == program,
            res@.capacity == fixed_capacity(),
            res@.offset() == 0,
            res@.calls.len() == 0,
            res@.pending.texture_id == 0,
            res@.pending.color == [0u32, 0u32, 0u32, 0u32],
    {
        let size = CHUNKS * max_vertex_count();
        let zero2: [u32; 2] = [0, 0];
        let zero4: [u32; 4] = [0, 0, 0, 0];
        Textured {
            program,
            pos_buffer: zeroed(size, zero2),
            uv_buffer: zeroed(size, zero2),
            offset: 0,
            last_texture_id: 0,
            last_color: zero4,
            submitted: Vec::new(),
        }
    }

    /// The number of vertices that are buffered and not yet drawn.
    pub fn pending(&self) -> (res: usize)
        ensures
            self.wf() ==> res == self@.offset(),
            res == self.state().offset,
    {
        self.offset
    }

    /// The number of vertices that fit between two draw calls.
    pub fn capacity(&self) -> (res: usize)
        ensures
            res == self@.capacity,
    {
        self.pos_buffer.len()
    }

    /// Generate using pass-through shaders: as `from_vs_fs` with the embedded sources for
    /// textured drawing, which serve the versions from 1.50 on.
    pub fn new<
        C: Fn(ShaderStage, &str) -> Result<u32, ConstructionFailure>,
        L: FnOnce(u32, u32) -> (u32, i32),
    >(glsl: Glsl, compile: &C, link: L) -> (res: Result<Textured, ConstructionFailure>)
        requires
            forall|stage: ShaderStage, source: &str| #[trigger]
                call_requires(*compile, (stage, source)),
            forall|vertex: u32, fragment: u32| #[trigger] call_requires(link, (vertex, fragment)),
        ensures
            textured_new(*compile, link, glsl.rank_spec(), res),
    {
        let vertex_source = textured_vertex_glsl_120();
        let fragment_source = textured_fragment_glsl_120();
        let vertex_shaders = pass_through(vertex_source);
        let fragment_shaders = pass_through(fragment_source);
        let res = Textured::from_vs_fs(glsl, &vertex_shaders, &fragment_shaders, compile, link);
        proof {
            let shaders = choose|shaders: Result<(u32, u32), ConstructionFailure>| #[trigger]
                both_compiled(
                    *compile,
                    glsl.rank_spec(),
                    sources_of(vertex_shaders),
                    sources_of(fragment_shaders),
                    shaders,
                ) && textured_made(link, shaders, res);
            assert(both_compiled(
                *compile,
                glsl.rank_spec(),
                pass_through_sources(vertex_source@),
                pass_through_sources(fragment_source@),
                shaders,
            ));
        }
        res
    }

    /// Generate using custom vertex and fragment shaders: compiles the sources that serve `glsl`
    /// with `compile`, the vertex shader first, and makes a texture shader around the program
    /// that `link` makes of the two. `link` also tells where the program has its uniform
    /// `color`; a negative answer says that it has none. The first failure is handed back, and
    /// nothing more is done after it.
    pub fn from_vs_fs<
        C: Fn(ShaderStage, &str) -> Result<u32, ConstructionFailure>,
        L: FnOnce(u32, u32) -> (u32, i32),
    >(
        glsl: Glsl,
        vertex_shaders: &Shaders<GLSL, str>,
        fragment_shaders: &Shaders<GLSL, str>,
        compile: &C,
        link: L,
    ) -> (res: Result<Textured, ConstructionFailure>)
        requires
            forall|stage: ShaderStage, source: &str| #[trigger]
                call_requires(*compile, (stage, source)),
            forall|vertex: u32, fragment: u32| #[trigger] call_requires(link, (vertex, fragment)),
        ensures
            exists|shaders: Result<(u32, u32), ConstructionFailure>| #[trigger]
                both_compiled(
                    *compile,
                    glsl.rank_spec(),
                    sources_of(*vertex_shaders),
                    sources_of(*fragment_shaders),
                    shaders,
                ) && textured_made(link, shaders, res),
    {
        match compile_both(glsl, vertex_shaders, fragment_shaders, compile) {
            Err(e) => Err(e),
            Ok((vertex, fragment)) => {
                let (program, color) = link(vertex, fragment);
                match uniform_location("color", color) {
                    Err(e) => Err(e),
                    Ok(_) => Ok(Textured::from_program(program)),
                }
            },
        }
    }

    /// Whether `texture_id` and `color` are what is bound. Colours are the same if their bit
    /// patterns are: whoever makes the bit patterns gives both zeros the same one.
    pub fn is_bound(&self, texture_id: u32, color: &[u32; 4]) -> (res: bool)
        ensures
            res == (self@.pending.texture_id == texture_id && self@.pending.color == *color),
    {
        let c = &self.last_color;
        let same = c[0] == color[0] && c[1] == color[1] && c[2] == color[2] && c[3] == color[3];
        proof {
            if same {
                assert(self.last_color =~= *color);
            }
        }
        self.last_texture_id == texture_id && same
    }

    /// Binds another texture and colour for what is buffered from now on.
    pub fn bind(&mut self, texture_id: u32, color: [u32; 4])
        ensures
            final(self).wf() == old(self).wf(),
            final(self)@ == old(self)@.bind(texture_id, color),
    {
        self.last_texture_id = texture_id;
        self.last_color = color;
        assert(final(self)@.calls =~= old(self)@.calls);
    }

    /// Buffers `vertices` with their `uvs`. There must be room for them.
    pub fn append(&mut self, vertices: &[[u32; 2]], uvs: &[[u32; 2]])
        requires
            old(self).wf(),
            uvs@.len() == vertices@.len(),
            old(self)@.offset() + vertices@.len() <= old(self)@.capacity,
        ensures
            final(self).wf(),
            final(self)@ == old(self)@.append(vertices@, uvs@),
    {
        let items = vertices.len();
        let size = self.pos_buffer.len();
        assert(self.offset + items <= size);
        write_at(&mut self.pos_buffer, self.offset, vertices);
        write_at(&mut self.uv_buffer, self.offset, uvs);
        self.offset += items;
        assert(final(self)@.pending.positions =~= old(self)@.pending.positions + vertices@);
        assert(final(self)@.pending.uvs =~= old(self)@.pending.uvs + uvs@);
        assert(final(self)@.calls =~= old(self)@.calls);
    }

    /// Hands over the draw calls made so far, oldest first, and forgets them.
    pub fn take_calls(&mut self) -> (res: Vec<TexturedCall>)
        requires
            old(self).wf(),
        ensures
            final(self).wf(),
            res@.len() == old(self)@.calls.len(),
            forall|i: int| 0 <= i < res@.len() ==> (#[trigger] res@[i])@ == old(self)@.calls[i],
            final(self)@ == (TexturedView { calls: Seq::empty(), ..old(self)@ }),
            final(self).state() == old(self).state(),
    {
        let mut out: Vec<TexturedCall> = Vec::new();
        core::mem::swap(&mut out, &mut self.submitted);
        assert(final(self)@.calls =~= Seq::<TexturedBatch>::empty());
        out
    }
}

/// One thing for the host to do on the GPU. The host does them in the order in which the
/// renderer issued them.
#[derive(Clone, Copy, Debug)]
pub enum GpuCommand {
    /// Set the viewport rectangle.
    Viewport { x: i32, y: i32, w: i32, h: i32 },
    /// Make `program` the current program.
    UseProgram { program: u32 },
    /// Bind scissor, stencil and blending of `next`; `previous` is what was bound, if that is
    /// known.
    BindDrawState { previous: Option<DrawState>, next: DrawState, viewport: Option<Viewport> },
    /// Draw the colour shader's next draw call.
    DrawColored,
    /// Draw the texture shader's next draw call.
    DrawTextured,
    /// Draw the next submission of the shader with `program` that was handed to
    /// `shader_draw`.
    DrawCustom { program: u32 },
    /// Clear the colour and depth buffers to `color`.
    ClearColor { color: [u32; 4] },
    /// Clear the stencil buffer to `value`.
    ClearStencil { value: u8 },
    /// Set the uniform at `location` of `program` to `data`.
    SetUniform { program: u32, location: i32, data: UniformValue },
}

/// The renderer as the batching rules see it.
pub struct GraphicsView {
    pub colored: ColoredView,
    pub textured: TexturedView,
    /// The program in use, if the renderer knows it.
    pub program: Option<u32>,
    /// The draw state in force, if the renderer knows it.
    pub draw_state: Option<DrawState>,
    pub viewport: Option<Viewport>,
    /// What the host has been told to do and has not yet taken, oldest first.
    pub commands: Seq<GpuCommand>,
}

impl GraphicsView {
    pub open spec fn wf(self) -> bool {
        self.colored.wf() && self.textured.wf()
    }

    pub open spec fn emit(self, command: GpuCommand) -> GraphicsView {
        GraphicsView { commands: self.commands.push(command), ..self }
    }

    /// Switches to `program`, unless it is known to be in use.
    pub open spec fn use_program(self, program: u32) -> GraphicsView {
        if self.program == Some(program) {
            self
        } else {
            GraphicsView { program: Some(program), ..self.emit(GpuCommand::UseProgram { program }) }
        }
    }

    pub open spec fn clear_program(self) -> GraphicsView {
        GraphicsView { program: None, ..self }
    }

    /// Binds `draw_state`, whatever was bound.
    pub open spec fn use_draw_state(self, draw_state: DrawState) -> GraphicsView {
        GraphicsView {
            draw_state: Some(draw_state),
            ..self.emit(
                GpuCommand::BindDrawState {
                    previous: self.draw_state,
                    next: draw_state,
                    viewport: self.viewport,
                },
            )
        }
    }

    pub open spec fn clear_draw_state(self) -> GraphicsView {
        GraphicsView { draw_state: None, ..self }
    }

    /// Whether `draw_state` is not known to be in force.
    pub open spec fn state_differs(self, draw_state: DrawState) -> bool {
        self.draw_state != Some(draw_state)
    }

    /// The colour shader draws what it has buffered.
    pub open spec fn flush_colored(self) -> GraphicsView {
        GraphicsView { colored: self.colored.flush(), ..self.emit(GpuCommand::DrawColored) }
    }

    /// The texture shader draws what it has buffered.
    pub open spec fn flush_textured(self) -> GraphicsView {
        GraphicsView { textured: self.textured.flush(), ..self.emit(GpuCommand::DrawTextured) }
    }

    /// The colour shader draws under its own program, if it has anything buffered.
    pub open spec fn close_colored(self) -> GraphicsView {
        if self.colored.offset() > 0 {
            self.use_program(self.colored.program).flush_colored()
        } else {
            self
        }
    }

    /// The texture shader draws under its own program, if it has anything buffered.
    pub open spec fn close_textured(self) -> GraphicsView {
        if self.textured.offset() > 0 {
            self.use_program(self.textured.program).flush_textured()
        } else {
            self
        }
    }

    /// The start of a frame: the viewport is set and the program in use is forgotten.
    pub open spec fn draw_begin(self, viewport: Viewport) -> GraphicsView {
        GraphicsView {
            viewport: Some(viewport),
            program: None,
            ..self.emit(
                GpuCommand::Viewport {
                    x: viewport.rect[0],
                    y: viewport.rect[1],
                    w: viewport.rect[2],
                    h: viewport.rect[3],
                },
            )
        }
    }

    /// The end of a frame: first the colour shader, then the texture shader draws what it has
    /// buffered.
    pub open spec fn draw_end(self) -> GraphicsView {
        self.close_colored().close_textured()
    }

    /// What a colour fill does before it takes vertices: the texture shader draws what it has
    /// buffered, and if `draw_state` is not in force, the colour shader's program is bound,
    /// what the colour shader has buffered is drawn under the state in force, and `draw_state`
    /// is bound.
    pub open spec fn tri_list_begin(self, draw_state: DrawState) -> GraphicsView {
        let g = self.close_textured();
        if g.state_differs(draw_state) {
            let g = g.use_program(g.colored.program);
            let g = if g.draw_state is None {
                g.use_draw_state(DrawState::default_spec())
            } else {
                g
            };
            let g = if g.colored.offset() > 0 {
                g.flush_colored()
            } else {
                g
            };
            g.use_draw_state(draw_state)
        } else {
            g
        }
    }

    /// One piece of a colour fill: if `vertices` do not fit behind what is buffered, that is
    /// drawn first; then they are buffered, each with `color`.
    pub open spec fn tri_list_feed(self, vertices: Seq<[u32; 2]>, color: [u32; 4]) -> GraphicsView {
        let g = if self.colored.offset() + vertices.len() > self.colored.capacity {
            self.use_program(self.colored.program).flush_colored()
        } else {
            self
        };
        GraphicsView { colored: g.colored.append(vertices, color), ..g }
    }

    /// The pieces of a colour fill, one after the other.
    pub open spec fn tri_list_feed_all(self, batches: Seq<Seq<[u32; 2]>>, color: [u32; 4]) -> GraphicsView
        decreases batches.len(),
    {
        if batches.len() == 0 {
            self
        } else {
            self.tri_list_feed_all(batches.drop_last(), color).tri_list_feed(batches.last(), color)
        }
    }

    /// What a draw through another shader does first: both fixed shaders draw what they have
    /// buffered, the texture shader first, and `program` is bound.
    pub open spec fn shader_open(self, program: u32) -> GraphicsView {
        self.close_textured().close_colored().use_program(program)
    }

    /// What a draw through another shader does once its program is bound: `draw_state` is
    /// bound if it is not in force, the shader with `program` submits once if what it is given
    /// does not fit (`overflow`) and once more with what it was given, and the program in use
    /// is forgotten.
    pub open spec fn shader_submit(self, draw_state: DrawState, program: u32, overflow: bool) -> GraphicsView {
        let g = if self.state_differs(draw_state) {
            self.use_draw_state(draw_state)
        } else {
            self
        };
        let g = if overflow {
            g.emit(GpuCommand::DrawCustom { program })
        } else {
            g
        };
        g.emit(GpuCommand::DrawCustom { program }).clear_program()
    }

    /// A colour fill of `batches` under `draw_state`.
    pub open spec fn tri_list(
        self,
        draw_state: DrawState,
        color: [u32; 4],
        batches: Seq<Seq<[u32; 2]>>,
    ) -> GraphicsView {
        self.tri_list_begin(draw_state).tri_list_feed_all(batches, color)
    }

    /// What a textured fill does before it takes vertices: the colour shader draws what it has
    /// buffered, and if draw state, texture or colour is not the one in force, what the
    /// texture shader has buffered is drawn as it was bound, and `draw_state` is bound. Then
    /// `texture_id` and `color` are bound.
    pub open spec fn tri_list_uv_begin(
        self,
        draw_state: DrawState,
        color: [u32; 4],
        texture_id: u32,
    ) -> GraphicsView {
        let g = self.close_colored();
        let g = if g.state_differs(draw_state) || g.textured.pending.texture_id != texture_id
            || g.textured.pending.color != color {
            let g = if g.draw_state is None {
                g.use_draw_state(DrawState::default_spec())
            } else {
                g
            };
            g.close_textured().use_draw_state(draw_state)
        } else {
            g
        };
        GraphicsView { textured: g.textured.bind(texture_id, color), ..g }
    }

    /// One piece of a textured fill: if `vertices` do not fit behind what is buffered, that is
    /// drawn first; then they are buffered with their `uvs`.
    pub open spec fn tri_list_uv_feed(self, vertices: Seq<[u32; 2]>, uvs: Seq<[u32; 2]>) -> GraphicsView {
        let g = if self.textured.offset() + vertices.len() > self.textured.capacity {
            self.use_program(self.textured.program).flush_textured()
        } else {
            self
        };
        GraphicsView { textured: g.textured.append(vertices, uvs), ..g }
    }

    /// The pieces of a textured fill, one after the other.
    pub open spec fn tri_list_uv_feed_all(
        self,
        batches: Seq<(Seq<[u32; 2]>, Seq<[u32; 2]>)>,
    ) -> GraphicsView
        decreases batches.len(),
    {
        if batches.len() == 0 {
            self
        } else {
            self.tri_list_uv_feed_all(batches.drop_last()).tri_list_uv_feed(
                batches.last().0,
                batches.last().1,
            )
        }
    }

    /// A textured fill of `batches` under `draw_state`, with `texture_id` and `color`.
    pub open spec fn tri_list_uv(
        self,
        draw_state: DrawState,
        color: [u32; 4],
        texture_id: u32,
        batches: Seq<(Seq<[u32; 2]>, Seq<[u32; 2]>)>,
    ) -> GraphicsView {
        self.tri_list_uv_begin(draw_state, color, texture_id).tri_list_uv_feed_all(batches)
    }
}

/// The pieces of a colour fill as sequences.
pub open spec fn batch_views(batches: Seq<Vec<[u32; 2]>>) -> Seq<Seq<[u32; 2]>> {
    Seq::new(batches.len(), |i: int| batches[i]@)
}

/// The pieces of a textured fill as pairs of sequences: positions, then texture coordinates.
pub open spec fn uv_batch_views(batches: Seq<(Vec<[u32; 2]>, Vec<[u32; 2]>)>) -> Seq<
    (Seq<[u32; 2]>, Seq<[u32; 2]>),
> {
    Seq::new(batches.len(), |i: int| (batches[i].0@, batches[i].1@))
}

/// An optional slice as an optional sequence.
pub open spec fn slice_view<E>(given: Option<&[E]>) -> Option<Seq<E>> {
    match given {
        Some(s) => Some(s@),
        None => None,
    }
}

/// What the arguments of a draw through a shader supply.
pub open spec fn supplied_of<V>(
    vertices: &[V],
    indices: Option<&[u16]>,
    texture: Option<(u32, &[[u32; 2]])>,
    colour: Option<&[[u32; 4]]>,
    normals: Option<&[[u32; 3]]>,
) -> Supplied<V> {
    Supplied {
        vertices: vertices@,
        indices: slice_view(indices),
        texture: match texture {
            Some(t) => Some((t.0, t.1@)),
            None => None,
        },
        colours: slice_view(colour),
        normals: slice_view(normals),
    }
}

/// What the last step of a draw through a shader makes of the shader and the renderer. The
/// shader holds `state` and has submitted `flushed`, the renderer is `graphics` with the
/// shader's program bound. Afterwards the shader holds `state_after`, which is `state` with
/// what is `supplied` drawn and flushed, it has submitted `flushed_after`, which is `flushed`
/// with one submission more, or two if `supplied` did not fit, and the renderer is
/// `graphics_after`.
pub open spec fn shader_drawn<V>(
    state: ShaderState<V>,
    flushed: Seq<Submission<V>>,
    graphics: GraphicsView,
    draw_state: DrawState,
    supplied: Supplied<V>,
    state_after: ShaderState<V>,
    flushed_after: Seq<Submission<V>>,
    graphics_after: GraphicsView,
) -> bool {
    let overflow = state.overflows(supplied.vertices.len());
    &&& graphics_after == graphics.shader_submit(draw_state, state.program, overflow)
    &&& state_after == state.drawn(supplied).after_flush()
    &&& flushed_after == (if overflow {
        flushed.push(state.submission())
    } else {
        flushed
    }).push(state.drawn(supplied).submission())
}

/// What is wrong with supplying `given` to a per-vertex channel, for `n` vertices.
fn check_channel<E>(
    declared: bool,
    given: Option<&[E]>,
    n: usize,
    unexpected: UsageViolation,
    missing: UsageViolation,
    count: UsageViolation,
) -> (res: Option<UsageViolation>)
    ensures
        res == channel_violation(declared, slice_view(given), n as nat, unexpected, missing, count),
{
    match given {
        Some(src) => if !declared {
            Some(unexpected)
        } else if src.len() != n {
            Some(count)
        } else {
            None
        },
        None => if declared {
            Some(missing)
        } else {
            None
        },
    }
}

/// Tells whether `shader` can draw what the other arguments supply, and if not, why not.
/// The shader is left as it was.
pub fn check_draw<S: Shader>(
    shader: &mut S,
    vertices: &[S::Vertex],
    indices: Option<&[u16]>,
    texture: Option<(u32, &[[u32; 2]])>,
    colour: Option<&[[u32; 4]]>,
    normals: Option<&[[u32; 3]]>,
) -> (res: Result<(), UsageViolation>)
    ensures
        final(shader).state() == old(shader).state(),
        final(shader).flushed() == old(shader).flushed(),
        res == match old(shader).state().violation(
            supplied_of(vertices, indices, texture, colour, normals),
        ) {
            Some(v) => Err::<(), UsageViolation>(v),
            None => Ok(()),
        },
{
    let items = vertices.len();
    if items > shader.pos_buffer().len() {
        return Err(UsageViolation::TooManyVertices);
    }
    let has_colours = shader.colour_buffer().is_some();
    let found = check_channel(
        has_colours,
        colour,
        items,
        UsageViolation::ColourUnexpected,
        UsageViolation::ColourMissing,
        UsageViolation::ColourCount,
    );
    if let Some(v) = found {
        return Err(v);
    }
    let has_uvs = shader.uv_buffer().is_some();
    let has_texture = shader.has_texture();
    if has_uvs != has_texture {
        return Err(UsageViolation::TextureMismatch);
    }
    let uvs: Option<&[[u32; 2]]> = match texture {
        Some((_, src)) => Some(src),
        None => None,
    };
    let found = check_channel(
        has_texture,
        uvs,
        items,
        UsageViolation::TextureUnexpected,
        UsageViolation::TextureMissing,
        UsageViolation::UvCount,
    );
    if let Some(v) = found {
        return Err(v);
    }
    let has_id = shader.texture_id().is_some();
    if has_id != texture.is_some() {
        return Err(UsageViolation::TextureIdMismatch);
    }
    let has_normals = shader.normal_buffer().is_some();
    let found = check_channel(
        has_normals,
        normals,
        items,
        UsageViolation::NormalsUnexpected,
        UsageViolation::NormalsMissing,
        UsageViolation::NormalCount,
    );
    if let Some(v) = found {
        return Err(v);
    }
    let has_indices = shader.index_buffer().is_some();
    if !has_indices && indices.is_some() {
        return Err(UsageViolation::IndicesUnexpected);
    }
    if has_indices && indices.is_none() {
        return Err(UsageViolation::IndicesMissing);
    }
    Ok(())
}

/// The batching renderer. It owns one colour shader and one texture shader, remembers the
/// program, draw state and viewport that it last set, and queues what the host has to do on
/// the GPU.
pub struct GlGraphics {
    colored: Colored,
    textured: Textured,
    current_program: Option<u32>,
    current_draw_state: Option<DrawState>,
    current_viewport: Option<Viewport>,
    commands: Vec<GpuCommand>,
}

impl GlGraphics {
    pub closed spec fn wf(&self) -> bool {
        self.colored.wf() && self.textured.wf()
    }

    pub closed spec fn view(&self) -> GraphicsView {
        GraphicsView {
            colored: self.colored@,
            textured: self.textured@,
            program: self.current_program,
            draw_state: self.current_draw_state,
            viewport: self.current_viewport,
            commands: self.commands@,
        }
    }

    /// A well-formed renderer has a well-formed view.
    pub proof fn lemma_wf(&self)
        requires
            self.wf(),
        ensures
            self@.wf(),
    {
        self.colored.lemma_wf();
        self.textured.lemma_wf();
    }

    /// Creates a new back-end for `opengl`: builds the colour shader and then the texture
    /// shader from their embedded sources for the shading language of `opengl`, with
    /// `compile` and the two `link`s as in `Colored::new` and `Textured::new`, and makes a
    /// renderer around them. The first failure is handed back, and nothing more is done after
    /// it.
    pub fn new<
        C: Fn(ShaderStage, &str) -> Result<u32, ConstructionFailure>,
        LC: FnOnce(u32, u32) -> u32,
        LT: FnOnce(u32, u32) -> (u32, i32),
    >(opengl: OpenGl, compile: &C, link_colored: LC, link_textured: LT) -> (res: Result<
        GlGraphics,
        ConstructionFailure,
    >)
        requires
            forall|stage: ShaderStage, source: &str| #[trigger]
                call_requires(*compile, (stage, source)),
            forall|vertex: u32, fragment: u32| #[trigger]
                call_requires(link_colored, (vertex, fragment)),
            forall|vertex: u32, fragment: u32| #[trigger]
                call_requires(link_textured, (vertex, fragment)),
        ensures
            exists|colored: Result<Colored, ConstructionFailure>| #[trigger]
                colored_new(*compile, link_colored, opengl.rank_spec(), colored) && match colored {
                    Err(e) => res is Err && res->Err_0 == e,
                    Ok(c) => exists|textured: Result<Textured, ConstructionFailure>| #[trigger]
                        textured_new(*compile, link_textured, opengl.rank_spec(), textured)
                            && match textured {
                            Err(e) => res is Err && res->Err_0 == e,
                            Ok(t) => res is Ok && res->Ok_0.wf() && res->Ok_0@ == (GraphicsView {
                                colored: c@,
                                textured: t@,
                                program: None,
                                draw_state: None,
                                viewport: None,
                                commands: Seq::empty(),
                            }),
                        },
                },
    {
        let glsl = opengl.to_glsl();
        let colored = Colored::new(glsl, compile, link_colored);
        match colored {
            Err(e) => Err(e),
            Ok(c) => {
                let textured = Textured::new(glsl, compile, link_textured);
                match textured {
                    Err(e) => Err(e),
                    Ok(t) => Ok(GlGraphics::from_colored_textured(c, t)),
                }
            },
        }
    }

    /// A renderer around the two fixed shaders. Program, draw state and viewport are unknown
    /// and nothing is queued.
    pub fn from_colored_textured(colored: Colored, textured: Textured) -> (res: GlGraphics)
        requires
            colored.wf(),
            textured.wf(),
        ensures
            res.wf(),
            res@ == (GraphicsView {
                colored: colored@,
                textured: textured@,
                program: None,
                draw_state: None,
                viewport: None,
                commands: Seq::empty(),
            }),
    {
        GlGraphics {
            colored,
            textured,
            current_program: None,
            current_draw_state: None,
            current_viewport: None,
            commands: Vec::new(),
        }
    }

    /// Queues `command` behind what is queued.
    pub(crate) fn queue(&mut self, command: GpuCommand)
        ensures
            final(self).wf() == old(self).wf(),
            final(self)@ == old(self)@.emit(command),
    {
        self.commands.push(command);
    }

    /// Queues the setting of the viewport rectangle.
    fn viewport(&mut self, x: i32, y: i32, w: i32, h: i32)
        ensures
            final(self).wf() == old(self).wf(),
            final(self)@ == old(self)@.emit(GpuCommand::Viewport { x, y, w, h }),
    {
        self.commands.push(GpuCommand::Viewport { x, y, w, h });
    }

    /// Returns the current program.
    pub fn get_current_program(&self) -> (res: Option<u32>)
        ensures
            res == self@.program,
    {
        self.current_program
    }

    /// Sets the current program only if the program is not in use.
    pub fn use_program(&mut self, program: u32)
        ensures
            final(self).wf() == old(self).wf(),
            final(self)@ == old(self)@.use_program(program),
    {
        match self.current_program {
            None => {},
            Some(current_program) => {
                if program == current_program {
                    return ;
                }
            },
        }
        self.commands.push(GpuCommand::UseProgram { program });
        self.current_program = Some(program);
    }

    /// Unsets the current program, so that the next draw call sets it.
    pub fn clear_program(&mut self)
        ensures
            final(self).wf() == old(self).wf(),
            final(self)@ == old(self)@.clear_program(),
    {
        self.current_program = None;
    }

    /// Sets the current draw state and queues its binding.
    pub fn use_draw_state(&mut self, draw_state: &DrawState)
        ensures
            final(self).wf() == old(self).wf(),
            final(self)@ == old(self)@.use_draw_state(*draw_state),
    {
        self.commands.push(
            GpuCommand::BindDrawState {
                previous: self.current_draw_state,
                next: *draw_state,
                viewport: self.current_viewport,
            },
        );
        self.current_draw_state = Some(*draw_state);
    }

    /// Unsets the current draw state, so that the next draw call binds it.
    pub fn clear_draw_state(&mut self)
        ensures
            final(self).wf() == old(self).wf(),
            final(self)@ == old(self)@.clear_draw_state(),
    {
        self.current_draw_state = None;
    }

    /// Whether `draw_state` is not known to be in force.
    fn state_differs(&self, draw_state: &DrawState) -> (res: bool)
        ensures
            res == self@.state_differs(*draw_state),
    {
        match &self.current_draw_state {
            None => true,
            Some(current) => !current.same_as(draw_state),
        }
    }

    /// The colour shader draws under its own program, if it has anything buffered.
    fn close_colored(&mut self)
        requires
            old(self).wf(),
        ensures
            final(self).wf(),
            final(self)@ == old(self)@.close_colored(),
    {
        proof {
            self.colored.lemma_wf();
        }
        if self.colored.offset > 0 {
            let program = self.colored.program;
            self.use_program(program);
            self.colored.flush();
            self.commands.push(GpuCommand::DrawColored);
        }
    }

    /// The texture shader draws under its own program, if it has anything buffered.
    fn close_textured(&mut self)
        requires
            old(self).wf(),
        ensures
            final(self).wf(),
            final(self)@ == old(self)@.close_textured(),
    {
        proof {
            self.textured.lemma_wf();
        }
        if self.textured.offset > 0 {
            let program = self.textured.program;
            self.use_program(program);
            self.textured.flush();
            self.commands.push(GpuCommand::DrawTextured);
        }
    }

    /// Setup that should be called at the start of a frame's draw call.
    pub fn draw_begin(&mut self, viewport: Viewport)
        ensures
            final(self).wf() == old(self).wf(),
            final(self)@ == old(self)@.draw_begin(viewport),
    {
        let rect = viewport.rect;
        let (x, y, w, h) = (rect[0], rect[1], rect[2], rect[3]);
        self.viewport(x, y, w, h);
        self.current_viewport = Some(viewport);
        self.clear_program();
    }

    /// Finalize the frame's draw calls.
    pub fn draw_end(&mut self)
        requires
            old(self).wf(),
        ensures
            final(self).wf(),
            final(self)@ == old(self)@.draw_end(),
    {
        self.close_colored();
        self.close_textured();
    }

    /// What a colour fill does before it takes vertices.
    fn tri_list_begin(&mut self, draw_state: &DrawState)
        requires
            old(self).wf(),
        ensures
            final(self).wf(),
            final(self)@ == old(self)@.tri_list_begin(*draw_state),
    {
        self.close_textured();
        if self.state_differs(draw_state) {
            proof {
                self.colored.lemma_wf();
            }
            let program = self.colored.program;
            self.use_program(program);
            if self.current_draw_state.is_none() {
                let default = DrawState::new_alpha();
                self.use_draw_state(&default);
            }
            if self.colored.offset > 0 {
                self.colored.flush();
                self.commands.push(GpuCommand::DrawColored);
            }
            self.use_draw_state(draw_state);
        }
    }

    /// One piece of a colour fill.
    fn tri_list_feed(&mut self, vertices: &[[u32; 2]], color: [u32; 4])
        requires
            old(self).wf(),
            vertices@.len() <= old(self)@.colored.capacity,
        ensures
            final(self).wf(),
            final(self)@ == old(self)@.tri_list_feed(vertices@, color),
    {
        proof {
            self.colored.lemma_wf();
        }
        let items = vertices.len();
        // Render if there is not enough room.
        if items > self.colored.pos_buffer.len() - self.colored.offset {
            let program = self.colored.program;
            self.use_program(program);
            self.colored.flush();
            self.commands.push(GpuCommand::DrawColored);
        }
        proof {
            self.colored.lemma_wf();
        }
        self.colored.append(vertices, color);
    }

    /// Fills the triangles that `batches` hold, piece by piece, with `color` under
    /// `draw_state`. `color` is in linear space. No piece may be larger than the colour
    /// shader's capacity.
    pub fn tri_list(&mut self, draw_state: &DrawState, color: &[u32; 4], batches: &Vec<Vec<[u32; 2]>>)
        requires
            old(self).wf(),
            forall|i: int|
                0 <= i < batches@.len() ==> (#[trigger] batches@[i])@.len() <= old(
                    self,
                )@.colored.capacity,
        ensures
            final(self).wf(),
            final(self)@ == old(self)@.tri_list(*draw_state, *color, batch_views(batches@)),
    {
        self.tri_list_begin(draw_state);
        let ghost begun = self@;
        let ghost views = batch_views(batches@);
        let mut i: usize = 0;
        while i < batches.len()
            invariant
                i <= batches@.len(),
                self.wf(),
                views == batch_views(batches@),
                self@.colored.capacity == old(self)@.colored.capacity,
                forall|j: int|
                    0 <= j < batches@.len() ==> (#[trigger] batches@[j])@.len() <= old(
                        self,
                    )@.colored.capacity,
                self@ == begun.tri_list_feed_all(views.take(i as int), *color),
            decreases batches@.len() - i,
        {
            self.tri_list_feed(batches[i].as_slice(), *color);
            proof {
                assert(views.take(i + 1).drop_last() =~= views.take(i as int));
                assert(views.take(i + 1).last() == batches@[i as int]@);
            }
            i += 1;
        }
        proof {
            assert(views.take(i as int) =~= views);
        }
    }

    /// What a textured fill does before it takes vertices.
    fn tri_list_uv_begin(&mut self, draw_state: &DrawState, color: [u32; 4], texture_id: u32)
        requires
            old(self).wf(),
        ensures
            final(self).wf(),
            final(self)@ == old(self)@.tri_list_uv_begin(*draw_state, color, texture_id),
    {
        self.close_colored();
        if self.state_differs(draw_state) || !self.textured.is_bound(texture_id, &color) {
            if self.current_draw_state.is_none() {
                let default = DrawState::new_alpha();
                self.use_draw_state(&default);
            }
            self.close_textured();
            self.use_draw_state(draw_state);
        }
        self.textured.bind(texture_id, color);
    }

    /// One piece of a textured fill.
    fn tri_list_uv_feed(&mut self, vertices: &[[u32; 2]], texture_coords: &[[u32; 2]])
        requires
            old(self).wf(),
            texture_coords@.len() == vertices@.len(),
            vertices@.len() <= old(self)@.textured.capacity,
        ensures
            final(self).wf(),
            final(self)@ == old(self)@.tri_list_uv_feed(vertices@, texture_coords@),
    {
        proof {
            self.textured.lemma_wf();
        }
        let items = vertices.len();
        // Render if there is not enough room.
        if items > self.textured.pos_buffer.len() - self.textured.offset {
            let shader_program = self.textured.program;
            self.use_program(shader_program);
            self.textured.flush();
            self.commands.push(GpuCommand::DrawTextured);
        }
        proof {
            self.textured.lemma_wf();
        }
        self.textured.append(vertices, texture_coords);
    }

    /// Fills the triangles that `batches` hold, piece by piece, with the texture `texture_id`
    /// tinted by `color` under `draw_state`. `color` is in linear space. Each piece is a run of
    /// positions and as many texture coordinates, and none may be larger than the texture
    /// shader's capacity.
    pub fn tri_list_uv(
        &mut self,
        draw_state: &DrawState,
        color: &[u32; 4],
        texture_id: u32,
        batches: &Vec<(Vec<[u32; 2]>, Vec<[u32; 2]>)>,
    )
        requires
            old(self).wf(),
            forall|i: int|
                0 <= i < batches@.len() ==> (#[trigger] batches@[i]).0@.len() == batches@[i].1@.len()
                    && batches@[i].0@.len() <= old(self)@.textured.capacity,
        ensures
            final(self).wf(),
            final(self)@ == old(self)@.tri_list_uv(
                *draw_state,
                *color,
                texture_id,
                uv_batch_views(batches@),
            ),
    {
        self.tri_list_uv_begin(draw_state, *color, texture_id);
        let ghost begun = self@;
        let ghost views = uv_batch_views(batches@);
        let mut i: usize = 0;
        while i < batches.len()
            invariant
                i <= batches@.len(),
                self.wf(),
                views == uv_batch_views(batches@),
                self@.textured.capacity == old(self)@.textured.capacity,
                forall|j: int|
                    0 <= j < batches@.len() ==> (#[trigger] batches@[j]).0@.len()
                        == batches@[j].1@.len() && batches@[j].0@.len() <= old(
                        self,
                    )@.textured.capacity,
                self@ == begun.tri_list_uv_feed_all(views.take(i as int)),
            decreases batches@.len() - i,
        {
            let piece = &batches[i];
            self.tri_list_uv_feed(piece.0.as_slice(), piece.1.as_slice());
            proof {
                assert(views.take(i + 1).drop_last() =~= views.take(i as int));
                assert(views.take(i + 1).last() == (batches@[i as int].0@, batches@[i as int].1@));
            }
            i += 1;
        }
        proof {
            assert(views.take(i as int) =~= views);
        }
    }

    /// Queues the clearing of the colour and depth buffers to `color`, which is in linear
    /// space.
    pub fn clear_color(&mut self, color: [u32; 4])
        ensures
            final(self).wf() == old(self).wf(),
            final(self)@ == old(self)@.emit(GpuCommand::ClearColor { color }),
    {
        self.commands.push(GpuCommand::ClearColor { color });
    }

    /// Queues the clearing of the stencil buffer to `value`.
    pub fn clear_stencil(&mut self, value: u8)
        ensures
            final(self).wf() == old(self).wf(),
            final(self)@ == old(self)@.emit(GpuCommand::ClearStencil { value }),
    {
        self.commands.push(GpuCommand::ClearStencil { value });
    }

    /// The first step of a draw through a shader of the caller's: both fixed shaders draw what
    /// they have buffered and `program` is bound.
    fn shader_open(&mut self, program: u32)
        requires
            old(self).wf(),
        ensures
            final(self).wf(),
            final(self)@ == old(self)@.shader_open(program),
    {
        self.close_textured();
        self.close_colored();
        self.use_program(program);
    }

    /// The last step of a draw through a shader of the caller's, whose program is bound:
    /// binds `draw_state` if it is not in force, buffers what is supplied in `shader`, after a
    /// flush if it does not fit behind what is there, flushes, and forgets the program in use.
    fn shader_submit<S: Shader>(
        &mut self,
        shader: &mut S,
        draw_state: &DrawState,
        vertices: &[S::Vertex],
        indices: Option<&[u16]>,
        texture: Option<(u32, &[[u32; 2]])>,
        colour: Option<&[[u32; 4]]>,
        normals: Option<&[[u32; 3]]>,
    )
        requires
            old(shader).state().well_formed(),
            old(shader).state().violation(supplied_of(vertices, indices, texture, colour, normals))
                is None,
        ensures
            final(self).wf() == old(self).wf(),
            shader_drawn(
                old(shader).state(),
                old(shader).flushed(),
                old(self)@,
                *draw_state,
                supplied_of(vertices, indices, texture, colour, normals),
                final(shader).state(),
                final(shader).flushed(),
                final(self)@,
            ),
    {
        let ghost supplied = supplied_of(vertices, indices, texture, colour, normals);
        let ghost before = old(shader).state();
        if self.state_differs(draw_state) {
            self.use_draw_state(draw_state);
        }
        let program = shader.program();
        let items = vertices.len();
        let offset = *shader.offset();
        let size = shader.pos_buffer().len();
        if items > size - offset {
            shader.flush();
            self.commands.push(GpuCommand::DrawCustom { program });
        }
        let offset = *shader.offset();
        match shader.colour_buffer() {
            Some(buf) => match colour {
                Some(src) => {
                    write_at(buf, offset, src);
                },
                None => {},
            },
            None => {},
        }
        match shader.uv_buffer() {
            Some(buf) => match texture {
                Some((_, src)) => {
                    write_at(buf, offset, src);
                },
                None => {},
            },
            None => {},
        }
        match shader.texture_id() {
            Some(slot) => match texture {
                Some((id, _)) => {
                    *slot = id;
                },
                None => {},
            },
            None => {},
        }
        match shader.normal_buffer() {
            Some(buf) => match normals {
                Some(src) => {
                    write_at(buf, offset, src);
                },
                None => {},
            },
            None => {},
        }
        match shader.index_buffer() {
            Some(buf) => match indices {
                Some(src) => {
                    let ghost pending = buf@;
                    buf.extend_from_slice(src);
                    assert(buf@ =~= pending + src@);
                },
                None => {},
            },
            None => {},
        }
        write_at(shader.pos_buffer(), offset, vertices);
        *shader.offset() += items;
        assert(shader.state() == before.drawn(supplied));
        shader.flush();
        self.commands.push(GpuCommand::DrawCustom { program });
        self.clear_program();
    }

    /// Draws using a custom shader: both fixed shaders draw what they have buffered, the
    /// shader's program is bound, `uniforms` runs on the shader and the renderer, `draw_state`
    /// is bound if it is not in force, what is supplied is buffered in the shader, after a
    /// flush if it does not fit behind what is there, the shader flushes, and the program in
    /// use is forgotten. Colours are in linear space.
    ///
    /// What is supplied must fit the shader as `uniforms` leaves it; `check_draw` tells.
    pub fn shader_draw<S: Shader, U: FnOnce(&mut S, &mut GlGraphics)>(
        &mut self,
        shader: &mut S,
        draw_state: &DrawState,
        vertices: &[S::Vertex],
        indices: Option<&[u16]>,
        texture: Option<(u32, &[[u32; 2]])>,
        colour: Option<&[[u32; 4]]>,
        normals: Option<&[[u32; 3]]>,
        uniforms: U,
    )
        requires
            old(self).wf(),
            forall|s: &mut S, g: &mut GlGraphics|
                *s == *old(shader) && g.wf() && g@ == old(self)@.shader_open(
                    old(shader).state().program,
                ) ==> #[trigger] call_requires(uniforms, (s, g)),
            forall|s: &mut S, g: &mut GlGraphics|
                *s == *old(shader) && g.wf() && g@ == old(self)@.shader_open(
                    old(shader).state().program,
                ) && #[trigger] call_ensures(uniforms, (s, g), ()) ==> final(g).wf()
                    && final(s).state().well_formed()
                    && final(s).state().violation(
                    supplied_of(vertices, indices, texture, colour, normals),
                ) is None,
        ensures
            final(self).wf(),
            exists|s: &mut S, g: &mut GlGraphics| #[trigger]
                call_ensures(uniforms, (s, g), ()) && *s == *old(shader) && g.wf()
                    && g@ == old(self)@.shader_open(old(shader).state().program) && shader_drawn(
                    final(s).state(),
                    final(s).flushed(),
                    final(g)@,
                    *draw_state,
                    supplied_of(vertices, indices, texture, colour, normals),
                    final(shader).state(),
                    final(shader).flushed(),
                    final(self)@,
                ),
    {
        let program = shader.program();
        self.shader_open(program);
        uniforms(shader, self);
        self.shader_submit(shader, draw_state, vertices, indices, texture, colour, normals);
    }

    /// Draws using a custom shader as `shader_draw` does, but tells what is wrong where what is
    /// supplied does not fit the shader as `uniforms` leaves it. Then nothing is buffered or
    /// flushed in the shader; the fixed shaders have drawn, the program is bound and
    /// `uniforms` has run all the same.
    pub fn try_shader_draw<S: Shader, U: FnOnce(&mut S, &mut GlGraphics)>(
        &mut self,
        shader: &mut S,
        draw_state: &DrawState,
        vertices: &[S::Vertex],
        indices: Option<&[u16]>,
        texture: Option<(u32, &[[u32; 2]])>,
        colour: Option<&[[u32; 4]]>,
        normals: Option<&[[u32; 3]]>,
        uniforms: U,
    ) -> (res: Result<(), UsageViolation>)
        requires
            old(self).wf(),
            forall|s: &mut S, g: &mut GlGraphics|
                *s == *old(shader) && g.wf() && g@ == old(self)@.shader_open(
                    old(shader).state().program,
                ) ==> #[trigger] call_requires(uniforms, (s, g)),
            forall|s: &mut S, g: &mut GlGraphics|
                *s == *old(shader) && g.wf() && g@ == old(self)@.shader_open(
                    old(shader).state().program,
                ) && #[trigger] call_ensures(uniforms, (s, g), ()) ==> final(g).wf()
                    && final(s).state().well_formed(),
        ensures
            final(self).wf(),
            exists|s: &mut S, g: &mut GlGraphics| #[trigger]
                call_ensures(uniforms, (s, g), ()) && *s == *old(shader) && g.wf()
                    && g@ == old(self)@.shader_open(old(shader).state().program) && (
                match final(s).state().violation(
                    supplied_of(vertices, indices, texture, colour, normals),
                ) {
                    Some(v) => res == Err::<(), UsageViolation>(v) && final(shader).state()
                        == final(s).state() && final(shader).flushed() == final(s).flushed()
                        && final(self)@ == final(g)@,
                    None => res is Ok && shader_drawn(
                        final(s).state(),
                        final(s).flushed(),
                        final(g)@,
                        *draw_state,
                        supplied_of(vertices, indices, texture, colour, normals),
                        final(shader).state(),
                        final(shader).flushed(),
                        final(self)@,
                    ),
                }),
    {
        let program = shader.program();
        self.shader_open(program);
        uniforms(shader, self);
        match check_draw(shader, vertices, indices, texture, colour, normals) {
            Err(v) => Err(v),
            Ok(()) => {
                self.shader_submit(shader, draw_state, vertices, indices, texture, colour, normals);
                Ok(())
            },
        }
    }

    /// Convenience for wrapping draw calls with the begin and end methods: begins the frame,
    /// runs `f` on the renderer, and ends the frame, so that whatever `f` buffered is drawn.
    pub fn draw<F: FnOnce(&mut GlGraphics) -> U, U>(&mut self, viewport: Viewport, f: F) -> (res: U)
        requires
            old(self).wf(),
            forall|g: &mut GlGraphics|
                g.wf() && g@ == old(self)@.draw_begin(viewport) ==> #[trigger] call_requires(f, (g,)),
            forall|g: &mut GlGraphics, r: U|
                g.wf() && g@ == old(self)@.draw_begin(viewport) && #[trigger] call_ensures(f, (g,), r)
                    ==> final(g).wf(),
        ensures
            final(self).wf(),
            final(self)@.colored.offset() == 0,
            final(self)@.textured.offset() == 0,
            exists|g: &mut GlGraphics| #[trigger]
                call_ensures(f, (g,), res) && g.wf() && g@ == old(self)@.draw_begin(viewport)
                    && final(self)@ == final(g)@.draw_end(),
    {
        self.draw_begin(viewport);
        let res = f(self);
        self.draw_end();
        res
    }

    /// Assume all textures has alpha channel for now.
    pub fn has_texture_alpha(&self, _texture_id: u32) -> (res: bool)
        ensures
            res,
    {
        true
    }

    /// The number of vertices that the colour shader holds between two draw calls.
    pub fn colored_capacity(&self) -> (res: usize)
        ensures
            res == self@.colored.capacity,
    {
        self.colored.capacity()
    }

    /// The number of vertices that the texture shader holds between two draw calls.
    pub fn textured_capacity(&self) -> (res: usize)
        ensures
            res == self@.textured.capacity,
    {
        self.textured.capacity()
    }

    /// Hands over the colour shader's draw calls, oldest first, and forgets them.
    pub fn take_colored_calls(&mut self) -> (res: Vec<ColoredCall>)
        requires
            old(self).wf(),
        ensures
            final(self).wf(),
            res@.len() == old(self)@.colored.calls.len(),
            forall|i: int| 0 <= i < res@.len() ==> (#[trigger] res@[i])@ == old(self)@.colored.calls[i],
            final(self)@ == (GraphicsView {
                colored: ColoredView { calls: Seq::empty(), ..old(self)@.colored },
                ..old(self)@
            }),
    {
        self.colored.take_calls()
    }

    /// Hands over the texture shader's draw calls, oldest first, and forgets them.
    pub fn take_textured_calls(&mut self) -> (res: Vec<TexturedCall>)
        requires
            old(self).wf(),
        ensures
            final(self).wf(),
            res@.len() == old(self)@.textured.calls.len(),
            forall|i: int|
                0 <= i < res@.len() ==> (#[trigger] res@[i])@ == old(self)@.textured.calls[i],
            final(self)@ == (GraphicsView {
                textured: TexturedView { calls: Seq::empty(), ..old(self)@.textured },
                ..old(self)@
            }),
    {
        self.textured.take_calls()
    }

    /// Hands over what is queued for the host, oldest first, and empties the queue.
    pub fn take_commands(&mut self) -> (res: Vec<GpuCommand>)
        ensures
            final(self).wf() == old(self).wf(),
            res@ == old(self)@.commands,
            final(self)@ == (GraphicsView { commands: Seq::empty(), ..old(self)@ }),
    {
        let mut out: Vec<GpuCommand> = Vec::new();
        core::mem::swap(&mut out, &mut self.commands);
        out
    }
}

} // verus!
