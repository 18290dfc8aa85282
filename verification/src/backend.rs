use vstd::prelude::*;

use crate::graph::{Graph, Input, InputV, OpV};

verus! {

/// The contract a numeric engine satisfies to execute a [`Graph`]: produce
/// trainable state, run a forward evaluation, run a backward (gradient)
/// evaluation, and apply a trained update.
///
/// The graph core never inspects the associated types. The specification
/// functions below give the meaning a backend's numeric domain assigns to
/// the graph's operations; each has a default that says nothing, so an
/// ordinary implementation may leave them alone, while a backend that wants
/// its execution contract to carry meaning overrides them. A conforming
/// semantics makes resolution agree with the operations — resolving an
/// addition node yields the elementwise sum of its resolved operands,
/// subtraction their difference, squaring the square — and distributes
/// gradients by the chain rule through [`Backend::local_grad`]; the word
/// backend of this crate overrides the functions that way and proves those
/// laws. An error value is entirely backend-defined and is propagated
/// unchanged by the callers in this crate.
pub trait Backend {
    /// The external name-to-value mapping used to resolve feed inputs.
    type TensorDict;

    /// Backend-private bookkeeping produced by one forward pass and consumed
    /// by the matching backward pass.
    type InternalStorage;

    /// The actual tensor type this backend computes over.
    type Tensor;

    /// A mapping from graph nodes to their accumulated gradients.
    type Delta;

    /// All trainable parameter values, one entry per trainable constant,
    /// plus whatever else the backend persists across steps.
    type State;

    /// A backend-defined error.
    type Error;

    /// The scalar type losses are measured in.
    type Scalar: Copy;

    /// The randomness source handed to state initialization.
    type Rng;

    /// The value this backend assigns to resolving `tensor` within `graph`,
    /// under `state` and the feed dictionary `inputs`; `None` where
    /// resolution fails (a missing feed key, a shape mismatch, a malformed
    /// graph). The default specifies no resolution at all, so a verified
    /// `forward` can then never promise a successful result.
    open spec fn eval_spec(
        &self,
        graph: Seq<OpV>,
        state: Self::State,
        inputs: Self::TensorDict,
        tensor: InputV,
    ) -> Option<Self::Tensor> {
        None
    }

    /// The elementwise square of a tensor value. The default is an arbitrary
    /// fixed choice that claims nothing.
    open spec fn square_spec(&self, v: Self::Tensor) -> Self::Tensor {
        v
    }

    /// The elementwise sum of two tensor values. The default is an arbitrary
    /// fixed choice that claims nothing.
    open spec fn add_spec(&self, a: Self::Tensor, b: Self::Tensor) -> Self::Tensor {
        a
    }

    /// The elementwise difference of two tensor values. The default is an
    /// arbitrary fixed choice that claims nothing.
    open spec fn sub_spec(&self, a: Self::Tensor, b: Self::Tensor) -> Self::Tensor {
        a
    }

    /// The elementwise negation of a tensor value. The default is an
    /// arbitrary fixed choice that claims nothing.
    open spec fn neg_spec(&self, v: Self::Tensor) -> Self::Tensor {
        v
    }

    /// The gradient squaring passes on: twice the forward value `v` times
    /// the upstream gradient `g`. The default is an arbitrary fixed choice
    /// that claims nothing.
    open spec fn dsquare_spec(&self, v: Self::Tensor, g: Self::Tensor) -> Self::Tensor {
        g
    }

    /// The gradient contribution `op` hands to its operand at position `k`
    /// during a backward pass, given the operand's forward value `v` and the
    /// upstream gradient `g` arriving at `op`. The default states the chain
    /// rule: addition passes `g` unchanged to both operands, subtraction
    /// passes `g` to its minuend and `g` negated to its subtrahend, and
    /// squaring scales `g` by twice the operand's value. A backward pass
    /// must accumulate these contributions over every consumer of a node.
    open spec fn local_grad(
        &self,
        op: OpV,
        k: nat,
        v: Self::Tensor,
        g: Self::Tensor,
    ) -> Self::Tensor {
        match op {
            OpV::Add(_, _) => g,
            OpV::Sub(_, _) => if k == 0 {
                g
            } else {
                self.neg_spec(g)
            },
            OpV::Square(_) => self.dsquare_spec(v, g),
            OpV::TrainConst(_, _) => g,
        }
    }

    /// Whether `state` covers every trainable constant of `graph`. The
    /// default claims nothing of any state.
    open spec fn state_covers(&self, graph: Seq<OpV>, state: Self::State) -> bool {
        true
    }

    /// Generates the initial state for a graph, covering every trainable
    /// constant (the declared shape and fill value are the default; the
    /// backend may apply its own initialization scheme using `rng`).
    fn state(&self, graph: &Graph, rng: Self::Rng) -> (r: Result<Self::State, Self::Error>)
        ensures
            r matches Ok(s) ==> self.state_covers(graph@, s),
    ;

    /// Evaluates `tensor` by walking the graph's dependency structure,
    /// resolving feed inputs via `inputs` and trainable constants via
    /// `state`; returns the value together with enough cached internal data
    /// to support exactly one corresponding backward pass.
    fn forward(
        &self,
        graph: &Graph,
        state: &Self::State,
        inputs: &Self::TensorDict,
        tensor: Input,
    ) -> (r: Result<(Self::Tensor, Self::InternalStorage), Self::Error>)
        ensures
            r matches Ok(p) ==> self.eval_spec(graph@, *state, *inputs, tensor@) == Some(p.0),
    ;

    /// Reverse-mode gradient propagation from `tensor` given the upstream
    /// gradient `output_delta`: gradients are distributed according to
    /// [`Backend::local_grad`], accumulating contributions when a node feeds
    /// several consumers. `internal` must have been produced by a forward
    /// pass over the same graph, state and inputs.
    fn backward(
        &self,
        graph: &Graph,
        state: &Self::State,
        internal: &Self::InternalStorage,
        inputs: &Self::TensorDict,
        tensor: Input,
        output_delta: Self::Tensor,
    ) -> (r: Result<Self::Delta, Self::Error>);

    /// Applies `delta` to `state` in place; applying the same delta twice
    /// double-applies it.
    fn train(&self, state: &mut Self::State, delta: &Self::Delta) -> (r: Result<
        (),
        Self::Error,
    >);
}

} // verus!
