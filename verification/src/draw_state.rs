use vstd::prelude::*;

verus! {

/// How the colours of a primitive combine with what is already drawn.
#[derive(Clone, Copy, Debug, PartialEq, Eq, Structural)]
pub enum Blend {
    Alpha,
    Add,
    Lighter,
    Multiply,
    Invert,
}

/// How a primitive reads or writes the stencil buffer.
#[derive(Clone, Copy, Debug, PartialEq, Eq, Structural)]
pub enum Stencil {
    Clip(u8),
    Inside(u8),
    Outside(u8),
    Increment,
}

/// The rasterisation settings of a draw call: scissor rectangle, stencil test and blending.
///
/// Two draw states are the same exactly when all three settings are the same.
#[derive(Clone, Copy, Debug)]
pub struct DrawState {
    pub scissor: Option<[u32; 4]>,
    pub stencil: Option<Stencil>,
    pub blend: Option<Blend>,
}

/// The part of the window that a frame is drawn into.
///
/// `window_size` holds the bit patterns of two double precision numbers; the library only
/// carries them along.
#[derive(Clone, Copy, Debug)]
pub struct Viewport {
    pub rect: [i32; 4],
    pub draw_size: [u32; 2],
    pub window_size: [u64; 2],
}

/// Whether two optional rectangles are the same.
fn same_scissor(a: &Option<[u32; 4]>, b: &Option<[u32; 4]>) -> (res: bool)
    ensures
        res == (*a == *b),
{
    match (a, b) {
        (None, None) => true,
        (Some(x), Some(y)) => {
            let same = x[0] == y[0] && x[1] == y[1] && x[2] == y[2] && x[3] == y[3];
            proof {
                if same {
                    assert(*x =~= *y);
                }
            }
            same
        },
        _ => false,
    }
}

impl DrawState {
    /// The state that nothing else was asked for: alpha blending, no stencil, no scissor.
    pub open spec fn default_spec() -> DrawState {
        DrawState { scissor: None, stencil: None, blend: Some(Blend::Alpha) }
    }

    pub fn new_alpha() -> (res: DrawState)
        ensures
            res == Self::default_spec(),
    {
        DrawState { scissor: None, stencil: None, blend: Some(Blend::Alpha) }
    }

    /// Whether `self` and `other` ask for the same settings.
    pub fn same_as(&self, other: &DrawState) -> (res: bool)
        ensures
            res == (*self == *other),
    {
        let stencil = match (self.stencil, other.stencil) {
            (None, None) => true,
            (Some(a), Some(b)) => a == b,
            _ => false,
        };
        let blend = match (self.blend, other.blend) {
            (None, None) => true,
            (Some(a), Some(b)) => a == b,
            _ => false,
        };
        same_scissor(&self.scissor, &other.scissor) && stencil && blend
    }
}

impl Default for DrawState {
    fn default() -> (res: DrawState)
        ensures
            res == DrawState::default_spec(),
    {
        DrawState::new_alpha()
    }
}

} // verus!
