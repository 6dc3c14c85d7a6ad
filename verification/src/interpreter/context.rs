//! The execution context: every tensor of a forward pass by name, over the model's weights.

use burn_flex::FlexTensor;
use vstd::hash_map::StringHashMap;
use vstd::prelude::*;

use crate::backend::{clone_data, clone_tensor, data_meta, flex_from_data, meta, tensor_from_data};
use crate::graph::{Argument, ValueSource};
use crate::tensor::TensorMeta;

verus! {

/// Holds the tensors computed in a forward pass by name; the model's weights are referenced, not
/// copied, and a computed tensor hides a weight of the same name.
pub struct ExecutionContext<'w> {
    tensors: StringHashMap<FlexTensor>,
    weights: &'w StringHashMap<FlexTensor>,
}

/// The names a context resolves: the weights, overridden by the computed tensors.
pub open spec fn merged_view(
    weights: Map<Seq<char>, FlexTensor>,
    computed: Map<Seq<char>, FlexTensor>,
) -> Map<Seq<char>, FlexTensor> {
    weights.union_prefer_right(computed)
}

impl<'w> View for ExecutionContext<'w> {
    type V = Map<Seq<char>, FlexTensor>;

    open spec fn view(&self) -> Map<Seq<char>, FlexTensor> {
        merged_view(self.weight_map(), self.computed())
    }
}

/// What resolving `arg` against the tensors `view` gives: a runtime or constant-node argument is
/// looked up by name; an optional one gives nothing; a static one is looked up by name where it
/// has a stored name, and otherwise is its own data as a tensor, if it has data.
pub open spec fn resolved(view: Map<Seq<char>, FlexTensor>, arg: Argument) -> Option<FlexTensor> {
    match arg.value_source {
        ValueSource::Dynamic | ValueSource::Constant => view.get(arg.name@),
        ValueSource::Optional => None,
        ValueSource::Static => if arg.name@.len() > 0 && view.contains_key(arg.name@) {
            Some(view[arg.name@])
        } else {
            match arg.value {
                Some(d) => Some(flex_from_data(d)),
                None => None,
            }
        },
    }
}

/// The shape and element type of what resolving `arg` against `view` gives (see `resolved`).
pub open spec fn resolved_meta(view: Map<Seq<char>, FlexTensor>, arg: Argument) -> Option<
    TensorMeta,
> {
    match arg.value_source {
        ValueSource::Dynamic | ValueSource::Constant => match view.get(arg.name@) {
            Some(t) => Some(meta(t)),
            None => None,
        },
        ValueSource::Optional => None,
        ValueSource::Static => if arg.name@.len() > 0 && view.contains_key(arg.name@) {
            Some(meta(view[arg.name@]))
        } else {
            match arg.value {
                Some(d) => Some(data_meta(d)),
                None => None,
            }
        },
    }
}

impl<'w> ExecutionContext<'w> {
    /// The tensors computed in this pass.
    pub closed spec fn computed(&self) -> Map<Seq<char>, FlexTensor> {
        self.tensors@
    }

    /// The model's weights.
    pub closed spec fn weight_map(&self) -> Map<Seq<char>, FlexTensor> {
        self.weights@
    }

    /// A context with no computed tensor over `weights`.
    pub fn new(weights: &'w StringHashMap<FlexTensor>) -> (r: Self)
        ensures
            r.computed() == Map::<Seq<char>, FlexTensor>::empty(),
            r.weight_map() == weights@,
            r@ == weights@,
    {
        let r = Self { tensors: StringHashMap::new(), weights };
        assert(r@ =~= weights@);
        r
    }

    /// The tensor stored under `name`: the computed one if there is one, else the weight.
    pub fn get(&self, name: &str) -> (r: Option<FlexTensor>)
        ensures
            r == self@.get(name@),
    {
        match self.tensors.get(name) {
            Some(t) => Some(clone_tensor(t)),
            None => match self.weights.get(name) {
                Some(t) => Some(clone_tensor(t)),
                None => None,
            },
        }
    }

    /// Stores `tensor` under `name` among the computed tensors, replacing what was there.
    pub fn insert(&mut self, name: String, tensor: FlexTensor)
        ensures
            final(self).computed() == old(self).computed().insert(name@, tensor),
            final(self).weight_map() == old(self).weight_map(),
            final(self)@ == old(self)@.insert(name@, tensor),
    {
        self.tensors.insert(name, tensor);
        assert(self@ =~= old(self)@.insert(name@, tensor));
    }

    /// Resolves any argument to a tensor: by name for runtime and constant-node arguments, by
    /// name or else from its own data for static ones; optional ones give nothing.
    pub fn resolve(&self, arg: &Argument) -> (r: Option<FlexTensor>)
        ensures
            r == resolved(self@, *arg),
            match r {
                Some(t) => resolved_meta(self@, *arg) == Some(meta(t)),
                None => resolved_meta(self@, *arg) is None,
            },
    {
        match arg.value_source {
            ValueSource::Dynamic | ValueSource::Constant => self.get(arg.name.as_str()),
            ValueSource::Static => {
                if !arg.name.as_str().is_empty() {
                    if let Some(t) = self.get(arg.name.as_str()) {
                        return Some(t);
                    }
                }
                match &arg.value {
                    Some(d) => Some(tensor_from_data(clone_data(d))),
                    None => None,
                }
            },
            ValueSource::Optional => None,
        }
    }
}

/// What a read gives back after a write: reading the name just written gives the tensor
/// written, and every other name reads as before.
pub proof fn law_read_after_write(
    before: ExecutionContext,
    after: ExecutionContext,
    name: Seq<char>,
    tensor: FlexTensor,
    other: Seq<char>,
)
    requires
        after.computed() == before.computed().insert(name, tensor),
        after.weight_map() == before.weight_map(),
    ensures
        after@.get(name) == Some(tensor),
        other != name ==> after@.get(other) == before@.get(other),
{
}

/// A computed tensor hides the weight of the same name; a name with no computed tensor reads as
/// the weight, if any.
pub proof fn law_computed_shadows_weights(ctx: ExecutionContext, name: Seq<char>)
    ensures
        ctx.computed().contains_key(name) ==> ctx@.get(name) == Some(ctx.computed()[name]),
        !ctx.computed().contains_key(name) ==> ctx@.get(name) == ctx.weight_map().get(name),
{
}

} // verus!
