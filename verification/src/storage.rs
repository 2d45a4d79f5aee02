use vstd::prelude::*;
use core::ops::Mul;
use std::collections::hash_map::Entry;
use std::collections::HashMap;
use vstd::std_specs::hash::*;
use vstd::std_specs::ops::MulSpec;
use crate::back_end::GlGraphics;
use crate::shader_utils::Shader;
use crate::transform::{is_product, TransformHierarchy};

verus! {

/// The camera that all shaders of a registry share: a view and a projection.
#[derive(Clone, Copy, Debug)]
pub struct ViewProj<M> {
    pub view: M,
    pub projection: M,
}

impl<M: Copy + Mul<Output = M>> ViewProj<M> {
    /// A camera whose view and projection are both `identity`.
    pub fn new(identity: M) -> (res: Self)
        ensures
            res == (ViewProj { view: identity, projection: identity }),
    {
        ViewProj { view: identity, projection: identity }
    }

    pub fn view(&self) -> (res: M)
        ensures
            res == self.view,
    {
        self.view
    }

    pub fn projection(&self) -> (res: M)
        ensures
            res == self.projection,
    {
        self.projection
    }

    pub fn view_ref(&self) -> (res: &M)
        ensures
            *res == self.view,
    {
        &self.view
    }

    pub fn projection_ref(&self) -> (res: &M)
        ensures
            *res == self.projection,
    {
        &self.projection
    }

    /// Turns the view by `rotation`, which the host makes of an axis and an angle.
    pub fn rotate_view_axis_angle(&mut self, rotation: M)
        requires
            old(self).view.mul_req(rotation),
        ensures
            is_product(old(self).view, rotation, final(self).view),
            final(self).projection == old(self).projection,
    {
        self.view = self.view * rotation;
    }

    /// Moves the view by `translation`, which the host makes of a distance.
    pub fn translate_view(&mut self, translation: M)
        requires
            old(self).view.mul_req(translation),
        ensures
            is_product(old(self).view, translation, final(self).view),
            final(self).projection == old(self).projection,
    {
        self.view = self.view * translation;
    }

    /// Puts the view at `translation`, which the host makes of a position.
    pub fn set_view_pos(&mut self, translation: M)
        ensures
            *final(self) == (ViewProj { view: translation, ..*old(self) }),
    {
        self.view = translation;
    }

    pub fn set_projection(&mut self, projection: M)
        ensures
            *final(self) == (ViewProj { projection, ..*old(self) }),
    {
        self.projection = projection;
    }
}

/// A registry of shaders, one for each kind that was asked for, with the camera that they
/// share. A shader is made when its kind is first asked for and stays for the registry's
/// lifetime.
#[verifier::reject_recursive_types(S)]
pub struct ShaderStorage<S, M> {
    shaders: HashMap<u64, S>,
    cache: ViewProj<M>,
}

impl<S, M> ShaderStorage<S, M> {
    /// The shaders by kind.
    pub closed spec fn view(&self) -> Map<u64, S> {
        self.shaders@
    }

    /// The shared camera.
    pub closed spec fn camera(&self) -> ViewProj<M> {
        self.cache
    }

    /// A registry without shaders around `cache`.
    pub fn new(cache: ViewProj<M>) -> (res: Self)
        ensures
            res@ == Map::<u64, S>::empty(),
            res.camera() == cache,
    {
        Self { shaders: HashMap::new(), cache }
    }

    /// Whether a shader of `kind` was made.
    pub fn contains(&self, kind: u64) -> (res: bool)
        ensures
            res == self@.contains_key(kind),
    {
        broadcast use vstd::std_specs::hash::group_hash_axioms;

        self.shaders.contains_key(&kind)
    }

    /// The shader of `kind` and the shared camera. The first call for a kind makes the shader
    /// with `construct`; later calls hand out the one that is there and leave `construct`
    /// alone.
    pub fn get<C: FnOnce() -> S>(&mut self, kind: u64, construct: C) -> (res: (&mut S, &mut ViewProj<M>))
        requires
            !old(self)@.contains_key(kind) ==> call_requires(construct, ()),
        ensures
            match old(self)@.get(kind) {
                Some(shader) => *res.0 == shader,
                None => call_ensures(construct, (), *res.0),
            },
            final(self)@ == old(self)@.insert(kind, *final(res.0)),
            *res.1 == old(self).camera(),
            final(self).camera() == *final(res.1),
    {
        broadcast use vstd::std_specs::hash::group_hash_axioms;

        let shader = match self.shaders.entry(kind) {
            Entry::Occupied(entry) => entry.into_mut(),
            Entry::Vacant(entry) => entry.insert(construct()),
        };
        (shader, &mut self.cache)
    }
}

/// Asking for a kind again finds the shader that the first asking left under that kind, and
/// adds no other: the registry holds the same kinds after the second asking as after the
/// first.
pub proof fn lemma_get_again<S>(before: Map<u64, S>, kind: u64, first: S, second: S)
    ensures
        before.insert(kind, first).get(kind) == Some(first),
        before.insert(kind, first).insert(kind, second).dom() == before.insert(kind, first).dom(),
{
    assert(before.insert(kind, first).insert(kind, second).dom() =~= before.insert(kind, first).dom());
}

/// What can be drawn through a shader of the registry, with children that are drawn after it
/// under the transforms that it leaves.
///
/// Every hook leaves the transform stack as it found it: what it pushes, it releases.
pub trait Drawable<M: Clone + Mul<Output = M>, F: Fn(M, M, M) -> M, X> {
    type Shader: Shader;

    /// The kind of the shader, which is its key in the registry.
    open spec fn kind(&self) -> u64 {
        arbitrary()
    }

    /// The kind of the shader, which is its key in the registry.
    fn shader_kind(&self) -> (res: u64)
        ensures
            res == self.kind(),
    ;

    /// Makes the shader. It is called when the registry holds none of this kind.
    fn new_shader(&self, graphics: &mut GlGraphics) -> (res: Self::Shader)
        requires
            old(graphics).wf(),
        ensures
            final(graphics).wf(),
    ;

    /// Draws the item itself.
    fn draw_with(
        &mut self,
        data: &mut Self::Shader,
        graphics: &mut GlGraphics,
        host: &X,
        cache: &mut ViewProj<M>,
        transforms: &mut TransformHierarchy<M, F>,
    )
        requires
            old(graphics).wf(),
            old(transforms).wf(),
        ensures
            final(graphics).wf(),
            final(transforms).wf(),
            final(transforms)@ == old(transforms)@,
            final(transforms).order() == old(transforms).order(),
    ;

    /// Draws the item's children through `context`.
    fn draw_children(&mut self, context: &mut ShaderContext<'_, '_, Self::Shader, M, F, X>)
        requires
            old(context).wf(),
        ensures
            final(context).wf(),
            final(context).transforms@ == old(context).transforms@,
            final(context).transforms.order() == old(context).transforms.order(),
            old(context).shaders@.dom().subset_of(final(context).shaders@.dom()),
    ;

    /// Runs before the item is drawn: it may set up the shader, the camera and the transforms.
    fn prepare_draw(
        &mut self,
        data: &mut Self::Shader,
        cache: &mut ViewProj<M>,
        transforms: &mut TransformHierarchy<M, F>,
    )
        requires
            old(transforms).wf(),
        ensures
            final(transforms).wf(),
            final(transforms)@ == old(transforms)@,
            final(transforms).order() == old(transforms).order(),
    ;
}

/// What the drawing of one frame works on: the registry, the renderer, what the host knows
/// of the frame, and the frame's own transform stack.
#[verifier::reject_recursive_types(S)]
#[verifier::reject_recursive_types(M)]
#[verifier::reject_recursive_types(F)]
pub struct ShaderContext<'a, 'b, S, M: Clone + Mul<Output = M>, F: Fn(M, M, M) -> M, X> {
    pub shaders: &'a mut ShaderStorage<S, M>,
    pub gl: &'b mut GlGraphics,
    pub host: X,
    pub transforms: TransformHierarchy<M, F>,
}

impl<'a, 'b, S: Shader, M: Clone + Mul<Output = M>, F: Fn(M, M, M) -> M, X> ShaderContext<
    'a,
    'b,
    S,
    M,
    F,
    X,
> {
    /// The renderer and the transform stack are well-formed.
    pub open spec fn wf(&self) -> bool {
        self.gl.wf() && self.transforms.wf()
    }

    /// A context whose transform stack holds `identity` alone and combines with `order`.
    pub fn new(
        s: &'a mut ShaderStorage<S, M>,
        gl: &'b mut GlGraphics,
        host: X,
        identity: M,
        order: F,
    ) -> (res: Self)
        requires
            old(gl).wf(),
        ensures
            res.wf(),
            res.transforms@ == seq![identity],
            res.transforms.order() == order,
            res.host == host,
            *res.shaders == *old(s),
            *res.gl == *old(gl),
            *final(s) == *final(res.shaders),
            *final(gl) == *final(res.gl),
    {
        Self { gl, host, shaders: s, transforms: TransformHierarchy::new(identity, order) }
    }

    /// Draws `item` and then its children: finds the item's shader in the registry, making it
    /// with `new_shader` on the context's renderer if there is none of its kind, and then
    /// calls, once each and in this order, `prepare_draw`, `draw_with` and `draw_children`.
    /// The two first hooks get that shader, the shared camera and the context's own transform
    /// stack, each as the hook before left it, and `draw_with` the context's renderer and
    /// host besides; `draw_children` gets the context itself, with the shader back in the
    /// registry. The transform stack is afterwards what it was, and the registry holds the
    /// item's kind beside those that it held.
    pub fn draw<T: Drawable<M, F, X, Shader = S>>(&mut self, item: &mut T)
        requires
            old(self).wf(),
        ensures
            final(self).wf(),
            final(self).transforms@ == old(self).transforms@,
            final(self).transforms.order() == old(self).transforms.order(),
            old(self).shaders@.dom().subset_of(final(self).shaders@.dom()),
            final(self).shaders@.contains_key(old(item).kind()),
            exists|
                it: &mut T,
                sh: &mut S,
                cam: &mut ViewProj<M>,
                tr: &mut TransformHierarchy<M, F>,
                it2: &mut T,
                sh2: &mut S,
                g2: &mut GlGraphics,
                cam2: &mut ViewProj<M>,
                tr2: &mut TransformHierarchy<M, F>,
                it3: &mut T,
                ctx: &mut ShaderContext<'a, 'b, S, M, F, X>,
            |
                #![trigger
                    call_ensures(T::prepare_draw, (it, sh, cam, tr), ()),
                    call_ensures(T::draw_with, (it2, sh2, g2, &old(self).host, cam2, tr2), ()),
                    call_ensures(T::draw_children, (it3, ctx), ()),
                ]
                {
                    let kind = old(item).kind();
                    &&& call_ensures(T::prepare_draw, (it, sh, cam, tr), ())
                    &&& *it == *old(item)
                    &&& *cam == old(self).shaders.camera()
                    &&& *tr == old(self).transforms
                    &&& if old(self).shaders@.contains_key(kind) {
                        *sh == old(self).shaders@[kind] && *g2 == *old(self).gl
                    } else {
                        exists|g: &mut GlGraphics| #[trigger]
                            call_ensures(T::new_shader, (&*old(item), g), *sh) && *g == *old(
                                self,
                            ).gl && *g2 == *final(g)
                    }
                    &&& call_ensures(T::draw_with, (it2, sh2, g2, &old(self).host, cam2, tr2), ())
                    &&& *it2 == *final(it)
                    &&& *sh2 == *final(sh)
                    &&& *cam2 == *final(cam)
                    &&& *tr2 == *final(tr)
                    &&& call_ensures(T::draw_children, (it3, ctx), ())
                    &&& *it3 == *final(it2)
                    &&& ctx.transforms == *final(tr2)
                    &&& *ctx.gl == *final(g2)
                    &&& ctx.host == old(self).host
                    &&& ctx.shaders@ == old(self).shaders@.insert(kind, *final(sh2))
                    &&& ctx.shaders.camera() == *final(cam2)
                    &&& *final(self) == *final(ctx)
                    &&& *final(item) == *final(it3)
                },
    {
        let kind = item.shader_kind();
        let made = if self.shaders.contains(kind) {
            None
        } else {
            Some(item.new_shader(self.gl))
        };
        let construct = move || -> (r: S)
            requires
                made is Some,
            ensures
                r == made->0,
            { made.unwrap() };
        let (shader, mats) = self.shaders.get(kind, construct);
        item.prepare_draw(shader, mats, &mut self.transforms);
        item.draw_with(shader, self.gl, &self.host, mats, &mut self.transforms);
        item.draw_children(self);
    }
}

} // verus!
