//! Field-merge primitives and the layering contract shared by every section.
use vstd::prelude::*;

verus! {

/// The value of a concrete field after a layer's entry for it is applied:
/// a present entry replaces the value wholesale, an absent one keeps it.
pub open spec fn overridden<T>(current: T, incoming: Option<T>) -> T {
    match incoming {
        Some(v) => v,
        None => current,
    }
}

/// The value of an optional field after another layer's entry for it is
/// applied: a present entry replaces whatever was there.
pub open spec fn overridden_opt<T>(current: Option<T>, incoming: Option<T>) -> Option<T> {
    match incoming {
        Some(v) => Some(v),
        None => current,
    }
}

/// Replaces `current` with `incoming` when it is present.
pub fn apply_val<T>(current: &mut T, incoming: Option<T>)
    ensures
        *final(current) == overridden(*old(current), incoming),
{
    if let Some(v) = incoming {
        *current = v;
    }
}

/// Replaces the optional `current` with `incoming` when it is present.
pub fn apply_opt<T>(current: &mut Option<T>, incoming: Option<T>)
    ensures
        *final(current) == overridden_opt(*old(current), incoming),
{
    if let Some(v) = incoming {
        *current = Some(v);
    }
}

/// Applying the entries `first` and then `second` to a concrete field gives
/// what applying once the entry folded from the two gives.
pub proof fn lemma_overridden_fold<T>(current: T, first: Option<T>, second: Option<T>)
    ensures
        overridden(overridden(current, first), second) == overridden(
            current,
            overridden_opt(first, second),
        ),
{
}

/// A list entry as a source may write it: one bare value, or a list.
#[derive(Debug, Clone)]
pub enum OneOrMany<T> {
    /// A single value, standing for the list that holds only it.
    One(T),
    /// A list of values.
    Many(Vec<T>),
}

impl<T> OneOrMany<T> {
    /// The list that this entry stands for.
    pub open spec fn items(self) -> Seq<T> {
        match self {
            OneOrMany::One(v) => seq![v],
            OneOrMany::Many(vs) => vs@,
        }
    }

    /// The list that this entry stands for.
    pub fn into_vec(self) -> (r: Vec<T>)
        ensures
            r@ == self.items(),
    {
        match self {
            OneOrMany::One(v) => {
                let mut r = Vec::new();
                r.push(v);
                r
            },
            OneOrMany::Many(vs) => vs,
        }
    }
}

/// A bare value and the one-element list that holds it stand for the same
/// list.
pub proof fn lemma_one_is_singleton<T>(v: T, vs: Vec<T>)
    requires
        vs@ == seq![v],
    ensures
        OneOrMany::One(v).items() == OneOrMany::Many(vs).items(),
{
}

/// A value onto which partial layers of type `Layer` can be applied.
///
/// A resolved section implements it with its layer type, every field merged
/// by `apply_val`; a layer implements it with itself, every field merged by
/// `apply_opt`.
pub trait ApplyLayer: Sized {
    /// The partial layer applied onto values of this type.
    type Layer;

    /// The value after `layer` is applied onto `self`.
    spec fn layered(self, layer: Self::Layer) -> Self;

    /// Applies `layer` onto `self` in place.
    fn apply_layer(&mut self, layer: Self::Layer)
        ensures
            *final(self) == old(self).layered(layer),
    ;
}

/// The value after each of `layers` is applied onto `base`, first to last.
pub open spec fn layered_all<C: ApplyLayer>(base: C, layers: Seq<C::Layer>) -> C
    decreases layers.len(),
{
    if layers.len() == 0 {
        base
    } else {
        layered_all(base.layered(layers[0]), layers.drop_first())
    }
}

/// Applies each of `layers` onto `base`, in increasing priority, and returns
/// the result.
pub fn apply_layers<C: ApplyLayer>(base: C, layers: Vec<C::Layer>) -> (r: C)
    ensures
        r == layered_all(base, layers@),
{
    let mut acc = base;
    let mut rest = layers;
    while rest.len() > 0
        invariant
            layered_all(acc, rest@) == layered_all(base, layers@),
        decreases rest.len(),
    {
        let ghost before = rest@;
        let layer = rest.remove(0);
        assert(rest@ =~= before.drop_first());
        acc.apply_layer(layer);
    }
    acc
}

} // verus!
