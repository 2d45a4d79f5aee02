use vstd::prelude::*;
use core::ops::Mul;
use vstd::std_specs::ops::MulSpec;
use crate::error::UsageViolation;

verus! {

/// A transform that can be pushed onto a transformation state: a scale, a rotation and a
/// translation, each built up on its own and combined only when the transform is pushed.
#[derive(Default, Debug, Clone, PartialEq, Copy)]
pub struct Transform<T> {
    /// The scale which will be pushed onto the current state.
    pub scale: T,
    /// The rotation which will be pushed onto the current state.
    pub rotate: T,
    /// The translation which will be pushed onto the current state.
    pub translate: T,
}

/// Whether `product` can be what `a * b` gives.
pub open spec fn is_product<T: Mul<Output = T>>(a: T, b: T, product: T) -> bool {
    T::obeys_mul_spec() ==> product == a.mul_spec(b)
}

impl<T: Copy + Mul<Output = T>> Transform<T> {
    /// The transform that does nothing when applied, given the value `one` that does nothing
    /// when multiplied with.
    pub fn identity(one: T) -> (res: Self)
        ensures
            res == (Transform { scale: one, rotate: one, translate: one }),
    {
        Transform { scale: one, rotate: one, translate: one }
    }

    /// Translates this transform by `delta` relative to its local origin.
    pub fn translate_by(&mut self, delta: T)
        requires
            old(self).translate.mul_req(delta),
        ensures
            is_product(old(self).translate, delta, final(self).translate),
            final(self).scale == old(self).scale,
            final(self).rotate == old(self).rotate,
    {
        self.translate = self.translate * delta;
    }

    /// Rotates this transform using a preexisting rotation.
    pub fn rotate_preexisting(&mut self, value: T)
        requires
            old(self).rotate.mul_req(value),
        ensures
            is_product(old(self).rotate, value, final(self).rotate),
            final(self).scale == old(self).scale,
            final(self).translate == old(self).translate,
    {
        self.rotate = self.rotate * value;
    }

    /// Scales this transform by `amount`.
    pub fn scale(&mut self, amount: T)
        requires
            old(self).scale.mul_req(amount),
        ensures
            is_product(old(self).scale, amount, final(self).scale),
            final(self).rotate == old(self).rotate,
            final(self).translate == old(self).translate,
    {
        self.scale = self.scale * amount;
    }

    /// This transform followed by `rhs`: scale with scale, rotation with rotation,
    /// translation with translation.
    pub fn mul(self, rhs: Self) -> (res: Self)
        requires
            self.scale.mul_req(rhs.scale),
            self.rotate.mul_req(rhs.rotate),
            self.translate.mul_req(rhs.translate),
        ensures
            is_product(self.scale, rhs.scale, res.scale),
            is_product(self.rotate, rhs.rotate, res.rotate),
            is_product(self.translate, rhs.translate, res.translate),
    {
        Transform {
            scale: self.scale * rhs.scale,
            rotate: self.rotate * rhs.rotate,
            translate: self.translate * rhs.translate,
        }
    }
}

/// A stack of composed transforms. The bottom is the identity that the stack was made with
/// and never leaves; each entry above is the entry below it times what the order function
/// makes of a pushed scale, rotation and translation.
///
/// The latest pushed transformation is the most local one.
#[derive(Debug, Clone)]
#[verifier::reject_recursive_types(T)]
#[verifier::reject_recursive_types(F)]
pub struct TransformHierarchy<T: Clone + Mul<Output = T>, F: Fn(T, T, T) -> T> {
    matrices: Vec<T>,
    order_func: F,
}

/// A lock on a transform stack, bound to one entry of it. `With` stands for a pushed entry,
/// which `release` pops; `Without` only looks at the entry that was on top.
///
/// Nothing happens when a lock goes out of scope: a `With` lock that is let go without
/// `release` leaves its entry on the stack, and the locks below it are then no longer
/// well-formed. Give every lock up with `release`, or push with
/// `TransformHierarchy::with_pushed`, which pops on every way out.
#[must_use]
#[verifier::reject_recursive_types(T)]
#[verifier::reject_recursive_types(F)]
pub enum TransformLock<'a, T: Clone + Mul<Output = T>, F: Fn(T, T, T) -> T> {
    With { lock: &'a mut TransformHierarchy<T, F>, index: usize },
    Without { lock: &'a mut TransformHierarchy<T, F>, index: usize },
}

/// `next` comes from `top` through the copy `prev` of it and the contribution `c` that `f`
/// makes of `s`, `r` and `t`.
pub open spec fn composed_through<T: Clone + Mul<Output = T>, F: Fn(T, T, T) -> T>(
    f: F,
    top: T,
    s: T,
    r: T,
    t: T,
    prev: T,
    c: T,
    next: T,
) -> bool {
    &&& cloned(top, prev)
    &&& call_ensures(f, (s, r, t), c)
    &&& is_product(prev, c, next)
}

/// `next` is `top` combined with what the order function `f` makes of `s`, `r` and `t`.
pub open spec fn composed<T: Clone + Mul<Output = T>, F: Fn(T, T, T) -> T>(
    f: F,
    top: T,
    s: T,
    r: T,
    t: T,
    next: T,
) -> bool {
    exists|prev: T, c: T| #[trigger] composed_through(f, top, s, r, t, prev, c, next)
}

/// `stack` can be what a stack seeded with `identity` holds after `pushes`, bottom first: above
/// the identity, each entry is the entry below it combined with what `f` makes of the push
/// that it came from.
pub open spec fn is_chain<T: Clone + Mul<Output = T>, F: Fn(T, T, T) -> T>(
    f: F,
    identity: T,
    pushes: Seq<(T, T, T)>,
    stack: Seq<T>,
) -> bool {
    &&& stack.len() == pushes.len() + 1
    &&& stack[0] == identity
    &&& forall|k: int|
        1 <= k < stack.len() ==> composed(
            f,
            stack[k - 1],
            pushes[k - 1].0,
            pushes[k - 1].1,
            pushes[k - 1].2,
            #[trigger] stack[k],
        )
}

/// A new stack is the chain of no pushes.
pub proof fn lemma_seed_is_chain<T: Clone + Mul<Output = T>, F: Fn(T, T, T) -> T>(f: F, identity: T)
    ensures
        is_chain(f, identity, Seq::<(T, T, T)>::empty(), seq![identity]),
{
}

/// A push makes the chain of the pushes so far into the chain of one push more: after any
/// pushes on a stack seeded with the identity, every entry above the identity is the entry
/// below it combined with what the order function makes of its push.
pub proof fn lemma_push_extends_chain<T: Clone + Mul<Output = T>, F: Fn(T, T, T) -> T>(
    f: F,
    identity: T,
    pushes: Seq<(T, T, T)>,
    stack: Seq<T>,
    s: T,
    r: T,
    t: T,
    next: T,
)
    requires
        is_chain(f, identity, pushes, stack),
        composed(f, stack.last(), s, r, t, next),
    ensures
        is_chain(f, identity, pushes.push((s, r, t)), stack.push(next)),
{
    let longer = stack.push(next);
    let more = pushes.push((s, r, t));
    assert forall|k: int| 1 <= k < longer.len() implies composed(
        f,
        longer[k - 1],
        more[k - 1].0,
        more[k - 1].1,
        more[k - 1].2,
        #[trigger] longer[k],
    ) by {
        if k < stack.len() {
            assert(longer[k] == stack[k]);
            assert(longer[k - 1] == stack[k - 1]);
            assert(more[k - 1] == pushes[k - 1]);
        }
    }
}

/// A pop makes the chain of the pushes so far into the chain of one push less.
pub proof fn lemma_pop_shortens_chain<T: Clone + Mul<Output = T>, F: Fn(T, T, T) -> T>(
    f: F,
    identity: T,
    pushes: Seq<(T, T, T)>,
    stack: Seq<T>,
)
    requires
        is_chain(f, identity, pushes, stack),
        pushes.len() > 0,
    ensures
        is_chain(f, identity, pushes.drop_last(), stack.drop_last()),
{
    let shorter = stack.drop_last();
    let fewer = pushes.drop_last();
    assert forall|k: int| 1 <= k < shorter.len() implies composed(
        f,
        shorter[k - 1],
        fewer[k - 1].0,
        fewer[k - 1].1,
        fewer[k - 1].2,
        #[trigger] shorter[k],
    ) by {
        assert(shorter[k] == stack[k]);
    }
}

/// Whether `s`, `r` and `t` can be pushed on a stack with the order function `f` and `top` on
/// top: `f` takes them, and what it gives can be multiplied onto a copy of `top`.
pub open spec fn can_push<T: Clone + Mul<Output = T>, F: Fn(T, T, T) -> T>(
    f: F,
    top: T,
    s: T,
    r: T,
    t: T,
) -> bool {
    &&& call_requires(f, (s, r, t))
    &&& forall|c: T, p: T| call_ensures(f, (s, r, t), c) && cloned(top, p) ==> #[trigger] p.mul_req(c)
}

impl<T: Clone + Mul<Output = T>, F: Fn(T, T, T) -> T> TransformHierarchy<T, F> {
    /// The entries, bottom first.
    pub closed spec fn view(&self) -> Seq<T> {
        self.matrices@
    }

    /// The order function.
    pub closed spec fn order(&self) -> F {
        self.order_func
    }

    /// The stack is not empty.
    pub closed spec fn wf(&self) -> bool {
        self.matrices@.len() >= 1
    }

    /// A stack that holds `identity` alone.
    pub fn new(identity: T, func: F) -> (res: Self)
        ensures
            res@ == seq![identity],
            res.order() == func,
            res.wf(),
    {
        let mut matrices: Vec<T> = Vec::new();
        matrices.push(identity);
        Self { matrices, order_func: func }
    }

    /// The number of entries, the identity included.
    pub fn depth(&self) -> (res: usize)
        ensures
            res == self@.len(),
    {
        self.matrices.len()
    }

    /// Pushes the top entry combined with what the order function makes of the arguments.
    /// The lock that comes back stands for the new entry.
    pub fn push(&mut self, push_scale: T, push_rotate: T, push_translate: T) -> (res: TransformLock<
        '_,
        T,
        F,
    >)
        requires
            old(self).wf(),
            can_push(old(self).order(), old(self)@.last(), push_scale, push_rotate, push_translate),
        ensures
            res is With,
            res.wf(),
            res.index() == old(self)@.len(),
            res.hierarchy().order() == old(self).order(),
            res.hierarchy()@.drop_last() == old(self)@,
            composed(
                old(self).order(),
                old(self)@.last(),
                push_scale,
                push_rotate,
                push_translate,
                res.value(),
            ),
            *final(self) == *final(res->With_lock),
    {
        let len = self.matrices.len();
        self.push_entry(push_scale, push_rotate, push_translate);
        TransformLock::With { lock: self, index: len }
    }

    /// Puts on top the top entry combined with what the order function makes of the
    /// arguments.
    fn push_entry(&mut self, push_scale: T, push_rotate: T, push_translate: T)
        requires
            old(self).wf(),
            can_push(old(self).order(), old(self)@.last(), push_scale, push_rotate, push_translate),
        ensures
            final(self).wf(),
            final(self).order() == old(self).order(),
            final(self)@.drop_last() == old(self)@,
            final(self)@.len() == old(self)@.len() + 1,
            composed(
                old(self).order(),
                old(self)@.last(),
                push_scale,
                push_rotate,
                push_translate,
                final(self)@.last(),
            ),
    {
        let previous = self.matrices[self.matrices.len() - 1].clone();
        let contribution = (self.order_func)(push_scale, push_rotate, push_translate);
        let new_transform = previous * contribution;
        self.matrices.push(new_transform);
        assert(self.matrices@.drop_last() =~= old(self).matrices@);
        assert(composed_through(
            old(self).order(),
            old(self)@.last(),
            push_scale,
            push_rotate,
            push_translate,
            previous,
            contribution,
            new_transform,
        ));
    }

    /// Whether `pushed` can be what the stack `before` holds once `s`, `r` and `t` are pushed
    /// on it.
    pub open spec fn is_pushed(before: Self, s: T, r: T, t: T, pushed: Self) -> bool {
        &&& pushed.wf()
        &&& pushed.order() == before.order()
        &&& pushed@.drop_last() == before@
        &&& pushed@.len() == before@.len() + 1
        &&& composed(before.order(), before@.last(), s, r, t, pushed@.last())
    }

    /// Pushes as `push` does, runs `body` on the stack, and pops what was pushed, on every
    /// way out of `body` that comes back. `body` leaves the stack as it finds it: what it
    /// pushes, it pops.
    pub fn with_pushed<U, B: FnOnce(&mut TransformHierarchy<T, F>) -> U>(
        &mut self,
        push_scale: T,
        push_rotate: T,
        push_translate: T,
        body: B,
    ) -> (res: U)
        requires
            old(self).wf(),
            can_push(old(self).order(), old(self)@.last(), push_scale, push_rotate, push_translate),
            forall|h: &mut TransformHierarchy<T, F>|
                Self::is_pushed(*old(self), push_scale, push_rotate, push_translate, *h)
                    ==> #[trigger] call_requires(body, (h,)),
            forall|h: &mut TransformHierarchy<T, F>, u: U|
                Self::is_pushed(*old(self), push_scale, push_rotate, push_translate, *h)
                    && #[trigger] call_ensures(body, (h,), u) ==> final(h).wf() && final(h)@ == h@
                    && final(h).order() == h.order(),
        ensures
            final(self).wf(),
            final(self)@ == old(self)@,
            final(self).order() == old(self).order(),
            exists|h: &mut TransformHierarchy<T, F>| #[trigger]
                call_ensures(body, (h,), res) && Self::is_pushed(
                    *old(self),
                    push_scale,
                    push_rotate,
                    push_translate,
                    *h,
                ),
    {
        self.push_entry(push_scale, push_rotate, push_translate);
        let res = body(self);
        self.pop_one();
        res
    }

    /// Pushes what the order function makes of the three parts of `transform`.
    pub fn push_transform(&mut self, transform: Transform<T>) -> (res: TransformLock<'_, T, F>)
        requires
            old(self).wf(),
            can_push(
                old(self).order(),
                old(self)@.last(),
                transform.scale,
                transform.rotate,
                transform.translate,
            ),
        ensures
            res is With,
            res.wf(),
            res.index() == old(self)@.len(),
            res.hierarchy().order() == old(self).order(),
            res.hierarchy()@.drop_last() == old(self)@,
            composed(
                old(self).order(),
                old(self)@.last(),
                transform.scale,
                transform.rotate,
                transform.translate,
                res.value(),
            ),
            *final(self) == *final(res->With_lock),
    {
        let Transform { scale, rotate, translate } = transform;
        self.push(scale, rotate, translate)
    }

    /// A lock that stands for the entry on top and pushes nothing.
    pub fn push_none(&mut self) -> (res: TransformLock<'_, T, F>)
        requires
            old(self).wf(),
        ensures
            res is Without,
            res.wf(),
            res.index() == old(self)@.len() - 1,
            res.hierarchy() == *old(self),
            *final(self) == *final(res->Without_lock),
    {
        let len = self.matrices.len() - 1;
        TransformLock::Without { lock: self, index: len }
    }

    /// Pops the top entry and hands it back. The identity at the bottom cannot be popped.
    pub fn pop_one(&mut self) -> (res: T)
        requires
            old(self)@.len() > 1,
        ensures
            res == old(self)@.last(),
            final(self)@ == old(self)@.drop_last(),
            final(self).order() == old(self).order(),
            final(self).wf(),
    {
        let val = self.matrices.pop();
        val.unwrap()
    }
}

impl<T: Clone + Mul<Output = T>, F: Fn(T, T, T) -> T> TransformHierarchy<T, F> {
    /// Pops the top entry and hands it back, unless it is the identity at the bottom: popping
    /// that fails, and the stack stays as it is.
    pub fn try_pop_one(&mut self) -> (res: Result<T, UsageViolation>)
        requires
            old(self).wf(),
        ensures
            final(self).wf(),
            final(self).order() == old(self).order(),
            old(self)@.len() == 1 ==> res == Err::<T, UsageViolation>(UsageViolation::RootPopped)
                && final(self)@ == old(self)@,
            old(self)@.len() > 1 ==> res == Ok::<T, UsageViolation>(old(self)@.last())
                && final(self)@ == old(self)@.drop_last(),
    {
        if self.matrices.len() > 1 {
            Ok(self.pop_one())
        } else {
            Err(UsageViolation::RootPopped)
        }
    }
}

impl<'a, T: Clone + Mul<Output = T>, F: Fn(T, T, T) -> T> TransformLock<'a, T, F> {
    /// The stack that the lock holds.
    pub open spec fn hierarchy(&self) -> TransformHierarchy<T, F> {
        match self {
            TransformLock::With { lock, .. } => **lock,
            TransformLock::Without { lock, .. } => **lock,
        }
    }

    /// The place of the lock's entry in the stack.
    pub open spec fn index(&self) -> usize {
        match self {
            TransformLock::With { index, .. } => *index,
            TransformLock::Without { index, .. } => *index,
        }
    }

    /// The lock's entry.
    pub open spec fn value(&self) -> T {
        self.hierarchy()@[self.index() as int]
    }

    /// The lock's entry is on top of the stack, and a `With` lock's entry is not the identity
    /// at the bottom. This holds of a lock whenever every lock made from it was released.
    pub open spec fn wf(&self) -> bool {
        &&& self.hierarchy().wf()
        &&& self.index() == self.hierarchy()@.len() - 1
        &&& self is With ==> self.index() >= 1
    }

    /// Gets the transform the lock is holding.
    pub fn current(&self) -> (res: &T)
        requires
            self.index() < self.hierarchy()@.len(),
        ensures
            *res == self.value(),
    {
        match self {
            TransformLock::With { lock, index } => &lock.matrices[*index],
            TransformLock::Without { lock, index } => &lock.matrices[*index],
        }
    }

    /// Pushes onto the stack that the lock holds; see `TransformHierarchy::push`.
    pub fn push(&mut self, push_scale: T, push_rotate: T, push_translate: T) -> (res: TransformLock<
        '_,
        T,
        F,
    >)
        requires
            old(self).hierarchy().wf(),
            can_push(
                old(self).hierarchy().order(),
                old(self).hierarchy()@.last(),
                push_scale,
                push_rotate,
                push_translate,
            ),
        ensures
            res is With,
            res.wf(),
            res.index() == old(self).hierarchy()@.len(),
            res.hierarchy().order() == old(self).hierarchy().order(),
            res.hierarchy()@.drop_last() == old(self).hierarchy()@,
            composed(
                old(self).hierarchy().order(),
                old(self).hierarchy()@.last(),
                push_scale,
                push_rotate,
                push_translate,
                res.value(),
            ),
            final(self).hierarchy() == *final(res->With_lock),
            final(self).index() == old(self).index(),
            (*final(self) is With) == (*old(self) is With),
            *old(self) is With ==> *final(final(self)->With_lock) == *final(old(self)->With_lock),
            *old(self) is Without ==> *final(final(self)->Without_lock) == *final(old(self)->Without_lock),
    {
        match self {
            TransformLock::With { lock, .. } => lock.push(push_scale, push_rotate, push_translate),
            TransformLock::Without { lock, .. } => lock.push(
                push_scale,
                push_rotate,
                push_translate,
            ),
        }
    }

    /// A lock on the stack that this lock holds, which pushes nothing; see
    /// `TransformHierarchy::push_none`.
    pub fn push_none(&mut self) -> (res: TransformLock<'_, T, F>)
        requires
            old(self).hierarchy().wf(),
        ensures
            res is Without,
            res.wf(),
            res.index() == old(self).hierarchy()@.len() - 1,
            res.hierarchy() == old(self).hierarchy(),
            final(self).hierarchy() == *final(res->Without_lock),
            final(self).index() == old(self).index(),
            (*final(self) is With) == (*old(self) is With),
            *old(self) is With ==> *final(final(self)->With_lock) == *final(old(self)->With_lock),
            *old(self) is Without ==> *final(final(self)->Without_lock) == *final(old(self)->Without_lock),
    {
        match self {
            TransformLock::With { lock, .. } => lock.push_none(),
            TransformLock::Without { lock, .. } => lock.push_none(),
        }
    }

    /// Gives the lock up. A `With` lock pops its entry, which is on top; a `Without` lock
    /// leaves the stack as it is. This is the only way in which a lock pops: one that merely
    /// goes out of scope pops nothing.
    pub fn release(self)
        requires
            self.wf(),
        ensures
            self is With ==> final(self->With_lock)@ == self.hierarchy()@.drop_last(),
            self is With ==> final(self->With_lock).order() == self.hierarchy().order(),
            self is With ==> final(self->With_lock).wf(),
            self is Without ==> *final(self->Without_lock) == self.hierarchy(),
    {
        match self {
            TransformLock::With { lock, .. } => {
                lock.pop_one();
            },
            TransformLock::Without { .. } => {},
        }
    }
}

} // verus!
