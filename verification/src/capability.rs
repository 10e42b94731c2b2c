use vstd::prelude::*;

verus! {

/// The structure of a candidate dependant type, as the capability checks
/// see it: just enough to decide whether the type is `Copy`, whether it is
/// free of interior mutability, and whether it may be stored in a
/// container.
#[derive(Debug, PartialEq, Eq)]
pub enum Shape {
    /// A primitive: unit, bool, char or an integer.
    Primitive,
    /// A shared reference to a value of the inner shape.
    Reference(Box<Shape>),
    /// A tuple of the given component shapes.
    Tuple(Vec<Shape>),
    /// A fixed-size array of the element shape.
    Array(Box<Shape>),
    /// An optional value of the inner shape.
    Optional(Box<Shape>),
    /// A fallible value: an ok shape or an err shape.
    Fallible(Box<Shape>, Box<Shape>),
    /// A sequence, set or heap of one element shape.
    Collection(Box<Shape>),
    /// A mapping from a key shape to a value shape.
    Mapping(Box<Shape>, Box<Shape>),
    /// A cell offering mutation of the inner value through a shared
    /// reference.
    InteriorMutable(Box<Shape>),
    /// A named type whose capabilities are declared rather than derived
    /// from its structure: whether it is `Copy`, whether it hides interior
    /// mutability, and whether it carries a dependant implementation
    /// (possibly granted unsafely, against the guard).
    Declared { copy: bool, interior_mut: bool, dependant_impl: bool },
}

/// Whether a shape contains no cell offering mutation through a shared
/// reference: a compound shape qualifies exactly when every component does.
pub open spec fn spec_no_interior_mut(s: Shape) -> bool
    decreases s,
{
    match s {
        Shape::Primitive => true,
        Shape::Reference(t) => spec_no_interior_mut(*t),
        Shape::Tuple(ts) => forall|i: int|
            0 <= i < ts@.len() ==> spec_no_interior_mut(#[trigger] ts@[i]),
        Shape::Array(t) => spec_no_interior_mut(*t),
        Shape::Optional(t) => spec_no_interior_mut(*t),
        Shape::Fallible(t, e) => spec_no_interior_mut(*t) && spec_no_interior_mut(*e),
        Shape::Collection(t) => spec_no_interior_mut(*t),
        Shape::Mapping(k, v) => spec_no_interior_mut(*k) && spec_no_interior_mut(*v),
        Shape::InteriorMutable(_) => false,
        Shape::Declared { interior_mut, .. } => !interior_mut,
    }
}

/// Whether a shape is `Copy`.  A shared reference is always `Copy`, a cell
/// and the growable collections never are, and a compound shape is `Copy`
/// exactly when every component is.
pub open spec fn spec_is_copy(s: Shape) -> bool
    decreases s,
{
    match s {
        Shape::Primitive => true,
        Shape::Reference(_) => true,
        Shape::Tuple(ts) => forall|i: int| 0 <= i < ts@.len() ==> spec_is_copy(#[trigger] ts@[i]),
        Shape::Array(t) => spec_is_copy(*t),
        Shape::Optional(t) => spec_is_copy(*t),
        Shape::Fallible(t, e) => spec_is_copy(*t) && spec_is_copy(*e),
        Shape::Collection(_) => false,
        Shape::Mapping(_, _) => false,
        Shape::InteriorMutable(_) => false,
        Shape::Declared { copy, .. } => copy,
    }
}

/// Whether a shape carries the dependant capability: fit to be stored in a
/// container with its place in the storage recorded as indices.  The
/// capability propagates structurally, a cell never has it, and a declared
/// type has it exactly when an implementation was written for it.
pub open spec fn spec_is_dependant(s: Shape) -> bool
    decreases s,
{
    match s {
        Shape::Primitive => true,
        Shape::Reference(t) => spec_is_dependant(*t),
        Shape::Tuple(ts) => forall|i: int|
            0 <= i < ts@.len() ==> spec_is_dependant(#[trigger] ts@[i]),
        Shape::Array(t) => spec_is_dependant(*t),
        Shape::Optional(t) => spec_is_dependant(*t),
        Shape::Fallible(t, e) => spec_is_dependant(*t) && spec_is_dependant(*e),
        Shape::Collection(t) => spec_is_dependant(*t),
        Shape::Mapping(k, v) => spec_is_dependant(*k) && spec_is_dependant(*v),
        Shape::InteriorMutable(_) => false,
        Shape::Declared { dependant_impl, .. } => dependant_impl,
    }
}

/// Whether no declared type anywhere in the shape was granted the
/// dependant capability against the guard: each one that has the
/// capability is free of interior mutability.
pub open spec fn spec_no_override(s: Shape) -> bool
    decreases s,
{
    match s {
        Shape::Primitive => true,
        Shape::Reference(t) => spec_no_override(*t),
        Shape::Tuple(ts) => forall|i: int|
            0 <= i < ts@.len() ==> spec_no_override(#[trigger] ts@[i]),
        Shape::Array(t) => spec_no_override(*t),
        Shape::Optional(t) => spec_no_override(*t),
        Shape::Fallible(t, e) => spec_no_override(*t) && spec_no_override(*e),
        Shape::Collection(t) => spec_no_override(*t),
        Shape::Mapping(k, v) => spec_no_override(*k) && spec_no_override(*v),
        Shape::InteriorMutable(t) => spec_no_override(*t),
        Shape::Declared { interior_mut, dependant_impl, .. } => dependant_impl ==> !interior_mut,
    }
}

/// Without an unsafe override anywhere in a shape, the dependant
/// capability is granted only to shapes free of interior mutability: a
/// type keeping data behind a mutable-through-shared-reference cell does
/// not pass the guard.
pub proof fn lemma_guard_excludes_interior_mut(s: Shape)
    requires
        spec_no_override(s),
    ensures
        spec_is_dependant(s) ==> spec_no_interior_mut(s),
    decreases s,
{
    match s {
        Shape::Primitive => {
        },
        Shape::Reference(t) => {
            lemma_guard_excludes_interior_mut(*t);
        },
        Shape::Tuple(ts) => {
            assert forall|i: int|
                0 <= i < ts@.len() && spec_is_dependant(s) implies spec_no_interior_mut(
                #[trigger] ts@[i],
            ) by {
                lemma_guard_excludes_interior_mut(ts@[i]);
            }
        },
        Shape::Array(t) => {
            lemma_guard_excludes_interior_mut(*t);
        },
        Shape::Optional(t) => {
            lemma_guard_excludes_interior_mut(*t);
        },
        Shape::Fallible(t, e) => {
            lemma_guard_excludes_interior_mut(*t);
            lemma_guard_excludes_interior_mut(*e);
        },
        Shape::Collection(t) => {
            lemma_guard_excludes_interior_mut(*t);
        },
        Shape::Mapping(k, v) => {
            lemma_guard_excludes_interior_mut(*k);
            lemma_guard_excludes_interior_mut(*v);
        },
        Shape::InteriorMutable(_) => {
        },
        Shape::Declared { .. } => {
        },
    }
}

/// Decides [`spec_no_interior_mut`].
pub fn no_interior_mut(s: &Shape) -> (r: bool)
    ensures
        r == spec_no_interior_mut(*s),
    decreases *s,
{
    match s {
        Shape::Primitive => true,
        Shape::Reference(t) => no_interior_mut(t),
        Shape::Tuple(ts) => {
            let mut i: usize = 0;
            let mut good = true;
            while i < ts.len()
                invariant
                    0 <= i <= ts@.len(),
                    *s is Tuple,
                    (*s)->Tuple_0 == *ts,
                    good == forall|j: int|
                        0 <= j < i ==> spec_no_interior_mut(#[trigger] ts@[j]),
                decreases ts@.len() - i,
            {
                proof {
                    assert(decreases_to!(*s => ts@[i as int]));
                }
                let here = no_interior_mut(&ts[i]);
                good = good && here;
                i += 1;
            }
            good
        },
        Shape::Array(t) => no_interior_mut(t),
        Shape::Optional(t) => no_interior_mut(t),
        Shape::Fallible(t, e) => {
            let rt = no_interior_mut(t);
            let re = no_interior_mut(e);
            rt && re
        },
        Shape::Collection(t) => no_interior_mut(t),
        Shape::Mapping(k, v) => {
            let rk = no_interior_mut(k);
            let rv = no_interior_mut(v);
            rk && rv
        },
        Shape::InteriorMutable(_) => false,
        Shape::Declared { interior_mut, .. } => !*interior_mut,
    }
}

/// Decides [`spec_is_copy`].
pub fn is_copy(s: &Shape) -> (r: bool)
    ensures
        r == spec_is_copy(*s),
    decreases *s,
{
    match s {
        Shape::Primitive => true,
        Shape::Reference(_) => true,
        Shape::Tuple(ts) => {
            let mut i: usize = 0;
            let mut good = true;
            while i < ts.len()
                invariant
                    0 <= i <= ts@.len(),
                    *s is Tuple,
                    (*s)->Tuple_0 == *ts,
                    good == forall|j: int| 0 <= j < i ==> spec_is_copy(#[trigger] ts@[j]),
                decreases ts@.len() - i,
            {
                proof {
                    assert(decreases_to!(*s => ts@[i as int]));
                }
                let here = is_copy(&ts[i]);
                good = good && here;
                i += 1;
            }
            good
        },
        Shape::Array(t) => is_copy(t),
        Shape::Optional(t) => is_copy(t),
        Shape::Fallible(t, e) => {
            let rt = is_copy(t);
            let re = is_copy(e);
            rt && re
        },
        Shape::Collection(_) => false,
        Shape::Mapping(_, _) => false,
        Shape::InteriorMutable(_) => false,
        Shape::Declared { copy, .. } => *copy,
    }
}

/// Decides [`spec_is_dependant`].
pub fn is_dependant(s: &Shape) -> (r: bool)
    ensures
        r == spec_is_dependant(*s),
    decreases *s,
{
    match s {
        Shape::Primitive => true,
        Shape::Reference(t) => is_dependant(t),
        Shape::Tuple(ts) => {
            let mut i: usize = 0;
            let mut good = true;
            while i < ts.len()
                invariant
                    0 <= i <= ts@.len(),
                    *s is Tuple,
                    (*s)->Tuple_0 == *ts,
                    good == forall|j: int| 0 <= j < i ==> spec_is_dependant(#[trigger] ts@[j]),
                decreases ts@.len() - i,
            {
                proof {
                    assert(decreases_to!(*s => ts@[i as int]));
                }
                let here = is_dependant(&ts[i]);
                good = good && here;
                i += 1;
            }
            good
        },
        Shape::Array(t) => is_dependant(t),
        Shape::Optional(t) => is_dependant(t),
        Shape::Fallible(t, e) => {
            let rt = is_dependant(t);
            let re = is_dependant(e);
            rt && re
        },
        Shape::Collection(t) => is_dependant(t),
        Shape::Mapping(k, v) => {
            let rk = is_dependant(k);
            let rv = is_dependant(v);
            rk && rv
        },
        Shape::InteriorMutable(_) => false,
        Shape::Declared { dependant_impl, .. } => *dependant_impl,
    }
}

} // verus!
