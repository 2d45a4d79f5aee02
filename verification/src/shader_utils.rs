use vstd::prelude::*;
use vstd::string::StringSliceAdditionalSpecFns;
use crate::error::{ConstructionFailure, ShaderStage, UsageViolation};

verus! {

/// Whether `at` is the place of the first zero byte of `bytes`.
pub open spec fn is_first_nul(bytes: Seq<u8>, at: int) -> bool {
    &&& 0 <= at < bytes.len()
    &&& bytes[at] == 0
    &&& forall|j: int| 0 <= j < at ==> bytes[j] != 0
}

/// The place of the first zero byte of `text`, if it has one. A text with a zero byte cannot
/// be handed to the GPU as a source or a name.
pub fn find_nul(text: &str) -> (res: Option<usize>)
    ensures
        match res {
            Some(at) => is_first_nul(text.spec_bytes(), at as int),
            None => forall|j: int| 0 <= j < text.spec_bytes().len() ==> text.spec_bytes()[j] != 0,
        },
{
    let bytes = text.as_bytes();
    let mut i: usize = 0;
    while i < bytes.len()
        invariant
            i <= bytes@.len(),
            bytes@ == text.spec_bytes(),
            forall|j: int| 0 <= j < i ==> bytes@[j] != 0,
        decreases bytes@.len() - i,
    {
        if bytes[i] == 0 {
            return Some(i);
        }
        i += 1;
    }
    None
}

/// What compiling a source of `stage` came to. `compiled` is the status that the GPU reports
/// for `shader`, and `log` what it left to say, if anything.
pub fn compile_shader(stage: ShaderStage, shader: u32, compiled: bool, log: Option<String>) -> (res:
    Result<u32, ConstructionFailure>)
    ensures
        compiled ==> res == Ok::<u32, ConstructionFailure>(shader),
        !compiled && log is Some ==> res == Err::<u32, ConstructionFailure>(
            ConstructionFailure::Compile(stage, log->0),
        ),
        !compiled && log is None ==> res == Err::<u32, ConstructionFailure>(
            ConstructionFailure::CompileWithoutLog(stage),
        ),
{
    if compiled {
        Ok(shader)
    } else {
        match log {
            Some(text) => Err(ConstructionFailure::Compile(stage, text)),
            None => Err(ConstructionFailure::CompileWithoutLog(stage)),
        }
    }
}

/// The location of the attribute `name`, given the answer `id` of the GPU: a negative answer
/// says that the program has no such attribute.
pub fn attribute_location(name: &str, id: i32) -> (res: Result<u32, ConstructionFailure>)
    ensures
        id >= 0 ==> res == Ok::<u32, ConstructionFailure>(id as u32),
        id < 0 ==> res is Err && res->Err_0 is AttributeMissing
            && res->Err_0->AttributeMissing_0@ == name@,
{
    if id < 0 {
        Err(ConstructionFailure::AttributeMissing(name.to_owned()))
    } else {
        Ok(id as u32)
    }
}

/// The location of the uniform `name`, given the answer `id` of the GPU: a negative answer
/// says that the program has no such uniform.
pub fn uniform_location(name: &str, id: i32) -> (res: Result<u32, ConstructionFailure>)
    ensures
        id >= 0 ==> res == Ok::<u32, ConstructionFailure>(id as u32),
        id < 0 ==> res is Err && res->Err_0 is UniformMissing
            && res->Err_0->UniformMissing_0@ == name@,
{
    if id < 0 {
        Err(ConstructionFailure::UniformMissing(name.to_owned()))
    } else {
        Ok(id as u32)
    }
}

/// What a shader holds, as far as drawing through it depends on it.
///
/// Numbers that the GPU reads as single precision floats are kept as their bit patterns. An
/// optional channel is `Some` exactly when the shader declares it.
pub struct ShaderState<V> {
    /// The handle of the linked program.
    pub program: u32,
    /// How many vertices are buffered and not yet submitted.
    pub offset: usize,
    /// The position buffer. Its length is the shader's capacity.
    pub positions: Seq<V>,
    pub colours: Option<Seq<[u32; 4]>>,
    pub uvs: Option<Seq<[u32; 2]>>,
    pub indices: Option<Seq<u16>>,
    pub normals: Option<Seq<[u32; 3]>>,
    /// The id of the texture that the next submission samples.
    pub texture: Option<u32>,
    pub has_texture: bool,
}

/// What one flush hands to the GPU: the buffered part of every declared channel.
pub struct Submission<V> {
    pub program: u32,
    pub positions: Seq<V>,
    pub colours: Option<Seq<[u32; 4]>>,
    pub uvs: Option<Seq<[u32; 2]>>,
    pub indices: Option<Seq<u16>>,
    pub normals: Option<Seq<[u32; 3]>>,
    pub texture: Option<u32>,
}

/// The first `n` entries of an optional channel.
pub open spec fn channel_prefix<E>(channel: Option<Seq<E>>, n: int) -> Option<Seq<E>> {
    match channel {
        Some(s) => Some(s.take(n)),
        None => None,
    }
}

/// `channel` with `items` written at `at`, or an absent channel left absent.
pub open spec fn channel_written<E>(channel: Option<Seq<E>>, at: int, items: Option<Seq<E>>) -> Option<
    Seq<E>,
> {
    match (channel, items) {
        (Some(s), Some(i)) => Some(written(s, at, i)),
        _ => channel,
    }
}

/// `buffer` with `items` copied over the entries from `at` on.
pub open spec fn written<E>(buffer: Seq<E>, at: int, items: Seq<E>) -> Seq<E> {
    Seq::new(
        buffer.len(),
        |i: int|
            if at <= i < at + items.len() {
                items[i - at]
            } else {
                buffer[i]
            },
    )
}

/// What one draw through a shader supplies: the positions, and the optional channels with the
/// id of the texture beside its coordinates.
pub struct Supplied<V> {
    pub vertices: Seq<V>,
    pub indices: Option<Seq<u16>>,
    pub texture: Option<(u32, Seq<[u32; 2]>)>,
    pub colours: Option<Seq<[u32; 4]>>,
    pub normals: Option<Seq<[u32; 3]>>,
}

impl<V> Supplied<V> {
    /// The texture coordinates, if a texture is supplied.
    pub open spec fn uvs(self) -> Option<Seq<[u32; 2]>> {
        match self.texture {
            Some(t) => Some(t.1),
            None => None,
        }
    }
}

/// What is wrong with supplying `given` to a per-vertex channel that the shader declares or
/// not, for `n` vertices.
pub open spec fn channel_violation<E>(
    declared: bool,
    given: Option<Seq<E>>,
    n: nat,
    unexpected: UsageViolation,
    missing: UsageViolation,
    count: UsageViolation,
) -> Option<UsageViolation> {
    match given {
        Some(src) => if !declared {
            Some(unexpected)
        } else if src.len() != n {
            Some(count)
        } else {
            None
        },
        None => if declared {
            Some(missing)
        } else {
            None
        },
    }
}

/// The first of two findings.
pub open spec fn first_of(a: Option<UsageViolation>, b: Option<UsageViolation>) -> Option<UsageViolation> {
    if a is Some {
        a
    } else {
        b
    }
}

impl<V> ShaderState<V> {
    /// What is wrong with the texture channel when `supplied` is drawn.
    pub open spec fn texture_violation(self, supplied: Supplied<V>) -> Option<UsageViolation> {
        if (self.uvs is Some) != self.has_texture {
            Some(UsageViolation::TextureMismatch)
        } else {
            first_of(
                channel_violation(
                    self.has_texture,
                    supplied.uvs(),
                    supplied.vertices.len(),
                    UsageViolation::TextureUnexpected,
                    UsageViolation::TextureMissing,
                    UsageViolation::UvCount,
                ),
                if (self.texture is Some) != (supplied.texture is Some) {
                    Some(UsageViolation::TextureIdMismatch)
                } else {
                    None
                },
            )
        }
    }

    /// What is wrong with the index channel when `supplied` is drawn.
    pub open spec fn index_violation(self, supplied: Supplied<V>) -> Option<UsageViolation> {
        if self.indices is None && supplied.indices is Some {
            Some(UsageViolation::IndicesUnexpected)
        } else if self.indices is Some && supplied.indices is None {
            Some(UsageViolation::IndicesMissing)
        } else {
            None
        }
    }

    /// Why `supplied` cannot be drawn through a shader in this state, or `None` if it can: the
    /// first of too many vertices, then what is wrong with colours, texture, normals and
    /// indices, in this order. A channel is right if it is supplied exactly when the shader
    /// declares it, with one entry for each vertex.
    pub open spec fn violation(self, supplied: Supplied<V>) -> Option<UsageViolation> {
        let n = supplied.vertices.len();
        first_of(
            if n > self.capacity() {
                Some(UsageViolation::TooManyVertices)
            } else {
                None
            },
            first_of(
                channel_violation(
                    self.colours is Some,
                    supplied.colours,
                    n,
                    UsageViolation::ColourUnexpected,
                    UsageViolation::ColourMissing,
                    UsageViolation::ColourCount,
                ),
                first_of(
                    self.texture_violation(supplied),
                    first_of(
                        channel_violation(
                            self.normals is Some,
                            supplied.normals,
                            n,
                            UsageViolation::NormalsUnexpected,
                            UsageViolation::NormalsMissing,
                            UsageViolation::NormalCount,
                        ),
                        self.index_violation(supplied),
                    ),
                ),
            ),
        )
    }

    /// Whether what is `supplied` fits the shader: no more vertices than the buffers hold,
    /// every optional channel supplied exactly when the shader declares it, with one entry for
    /// each vertex, and the shader declares texture coordinates, a texture and a place for
    /// its id together or not at all.
    pub open spec fn fits(self, supplied: Supplied<V>) -> bool {
        let n = supplied.vertices.len();
        &&& n <= self.capacity()
        &&& self.colours is Some <==> supplied.colours is Some
        &&& supplied.colours is Some ==> supplied.colours->0.len() == n
        &&& self.uvs is Some <==> self.has_texture
        &&& self.has_texture <==> supplied.texture is Some
        &&& self.texture is Some <==> supplied.texture is Some
        &&& supplied.texture is Some ==> supplied.uvs()->0.len() == n
        &&& self.normals is Some <==> supplied.normals is Some
        &&& supplied.normals is Some ==> supplied.normals->0.len() == n
        &&& self.indices is Some <==> supplied.indices is Some
    }

    /// A draw is refused exactly when what is supplied does not fit the shader.
    pub proof fn lemma_violation_iff_misfit(self, supplied: Supplied<V>)
        ensures
            self.violation(supplied) is None <==> self.fits(supplied),
    {
    }

    /// Texture coordinates for a shader that declares none are refused, whatever else is
    /// supplied.
    pub proof fn lemma_unexpected_uvs_are_refused(self, supplied: Supplied<V>)
        requires
            self.uvs is None,
            supplied.texture is Some,
        ensures
            self.violation(supplied) is Some,
            self.violation(supplied) != Some(UsageViolation::TooManyVertices) && (
            self.colours is Some <==> supplied.colours is Some) && (supplied.colours is Some
                ==> supplied.colours->0.len() == supplied.vertices.len()) && !self.has_texture
                ==> self.violation(supplied) == Some(UsageViolation::TextureUnexpected),
    {
    }

    /// A draw without colours through a shader that declares colours is refused, whatever
    /// else is supplied.
    pub proof fn lemma_missing_colours_are_refused(self, supplied: Supplied<V>)
        requires
            self.colours is Some,
            supplied.colours is None,
        ensures
            self.violation(supplied) is Some,
            supplied.vertices.len() <= self.capacity() ==> self.violation(supplied) == Some(
                UsageViolation::ColourMissing,
            ),
    {
    }

    /// Whether drawing `n` more vertices needs a flush first.
    pub open spec fn overflows(self, n: nat) -> bool {
        self.offset + n > self.capacity()
    }

    /// The state with `supplied` buffered behind what is there, after a flush if it would not
    /// fit otherwise. Every supplied channel is written at the fill count, the indices are
    /// put behind those pending, and the texture id is stored.
    pub open spec fn drawn(self, supplied: Supplied<V>) -> ShaderState<V> {
        let s = if self.overflows(supplied.vertices.len()) {
            self.after_flush()
        } else {
            self
        };
        let at = s.offset as int;
        ShaderState {
            offset: (s.offset + supplied.vertices.len()) as usize,
            positions: written(s.positions, at, supplied.vertices),
            colours: channel_written(s.colours, at, supplied.colours),
            uvs: channel_written(s.uvs, at, supplied.uvs()),
            normals: channel_written(s.normals, at, supplied.normals),
            indices: match (s.indices, supplied.indices) {
                (Some(pending), Some(more)) => Some(pending + more),
                _ => s.indices,
            },
            texture: match (s.texture, supplied.texture) {
                (Some(_), Some(t)) => Some(t.0),
                _ => s.texture,
            },
            ..s
        }
    }

    /// The number of vertices that fit between two flushes.
    pub open spec fn capacity(self) -> nat {
        self.positions.len()
    }

    /// The fill count is within the capacity and every per-vertex channel is as long as the
    /// position buffer.
    pub open spec fn well_formed(self) -> bool {
        &&& self.offset <= self.positions.len()
        &&& self.colours is Some ==> self.colours->0.len() == self.positions.len()
        &&& self.uvs is Some ==> self.uvs->0.len() == self.positions.len()
        &&& self.normals is Some ==> self.normals->0.len() == self.positions.len()
    }

    /// What a flush in this state submits.
    pub open spec fn submission(self) -> Submission<V> {
        Submission {
            program: self.program,
            positions: self.positions.take(self.offset as int),
            colours: channel_prefix(self.colours, self.offset as int),
            uvs: channel_prefix(self.uvs, self.offset as int),
            indices: self.indices,
            normals: channel_prefix(self.normals, self.offset as int),
            texture: self.texture,
        }
    }

    /// The state that a flush leaves: nothing buffered, no indices pending, every per-vertex
    /// buffer as it was.
    pub open spec fn after_flush(self) -> ShaderState<V> {
        ShaderState {
            offset: 0,
            indices: match self.indices {
                Some(_) => Some(Seq::empty()),
                None => None,
            },
            ..self
        }
    }
}

/// A render unit: a linked program with a position buffer, a fill count and the optional
/// channels that the program reads.
///
/// `flush` records what is buffered as one submission and starts the next one empty, the index
/// channel included. The accessors hand out the buffers themselves, so whoever fills them
/// keeps `state().well_formed()`.
pub trait Shader {
    /// A position as the program reads it.
    type Vertex: Copy;

    /// What the shader holds.
    open spec fn state(&self) -> ShaderState<Self::Vertex> {
        arbitrary()
    }

    /// What the shader has submitted so far, oldest first.
    open spec fn flushed(&self) -> Seq<Submission<Self::Vertex>> {
        arbitrary()
    }

    /// Submits the buffered vertices as one draw call and empties the buffer.
    fn flush(&mut self)
        requires
            old(self).state().well_formed(),
        ensures
            final(self).state() == old(self).state().after_flush(),
            final(self).flushed() == old(self).flushed().push(old(self).state().submission()),
    ;

    fn program(&self) -> (res: u32)
        ensures
            res == self.state().program,
    ;

    /// The fill count, for reading and writing.
    fn offset(&mut self) -> (res: &mut usize)
        ensures
            *res == old(self).state().offset,
            final(self).state() == (ShaderState { offset: *final(res), ..old(self).state() }),
            final(self).flushed() == old(self).flushed(),
    ;

    fn pos_buffer(&mut self) -> (res: &mut Vec<Self::Vertex>)
        ensures
            res@ == old(self).state().positions,
            final(self).state() == (ShaderState { positions: final(res)@, ..old(self).state() }),
            final(self).flushed() == old(self).flushed(),
    ;

    fn colour_buffer(&mut self) -> (res: Option<&mut Vec<[u32; 4]>>)
        ensures
            res is Some <==> old(self).state().colours is Some,
            res is Some ==> res->0@ == old(self).state().colours->0 && final(self).state() == (
            ShaderState { colours: Some(final(res->0)@), ..old(self).state() }),
            res is None ==> final(self).state() == old(self).state(),
            final(self).flushed() == old(self).flushed(),
    ;

    fn uv_buffer(&mut self) -> (res: Option<&mut Vec<[u32; 2]>>)
        ensures
            res is Some <==> old(self).state().uvs is Some,
            res is Some ==> res->0@ == old(self).state().uvs->0 && final(self).state() == (
            ShaderState { uvs: Some(final(res->0)@), ..old(self).state() }),
            res is None ==> final(self).state() == old(self).state(),
            final(self).flushed() == old(self).flushed(),
    ;

    fn index_buffer(&mut self) -> (res: Option<&mut Vec<u16>>)
        ensures
            res is Some <==> old(self).state().indices is Some,
            res is Some ==> res->0@ == old(self).state().indices->0 && final(self).state() == (
            ShaderState { indices: Some(final(res->0)@), ..old(self).state() }),
            res is None ==> final(self).state() == old(self).state(),
            final(self).flushed() == old(self).flushed(),
    ;

    fn normal_buffer(&mut self) -> (res: Option<&mut Vec<[u32; 3]>>)
        ensures
            res is Some <==> old(self).state().normals is Some,
            res is Some ==> res->0@ == old(self).state().normals->0 && final(self).state() == (
            ShaderState { normals: Some(final(res->0)@), ..old(self).state() }),
            res is None ==> final(self).state() == old(self).state(),
            final(self).flushed() == old(self).flushed(),
    ;

    fn texture_id(&mut self) -> (res: Option<&mut u32>)
        ensures
            res is Some <==> old(self).state().texture is Some,
            res is Some ==> *res->0 == old(self).state().texture->0 && final(self).state() == (
            ShaderState { texture: Some(*final(res->0)), ..old(self).state() }),
            res is None ==> final(self).state() == old(self).state(),
            final(self).flushed() == old(self).flushed(),
    ;

    fn has_texture(&self) -> (res: bool)
        ensures
            res == self.state().has_texture,
    ;
}

} // verus!
