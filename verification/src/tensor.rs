use vstd::prelude::*;

use crate::backend::Backend;
use crate::graph::{
    input_wf, shift_input, shift_seq, Graph, Input, InputV, Internal, Op, OpV,
};

verus! {

/// The user-facing expression builder: the reference denoting "the value
/// this builder currently represents" inside the graph it was grown in.
///
/// The graph itself is an explicit arena: each builder operation takes the
/// arena it works on, and a builder value stays valid for exactly the graph
/// it was produced with. The binary combinators merge the right-hand
/// operand's arena into the left-hand one, so node indices of the receiver
/// stay stable and only the incoming operand's indices are shifted.
#[derive(Debug, PartialEq, Eq)]
pub struct Tensor {
    /// Where the value this builder represents comes from.
    pub input: Input,
}

impl View for Tensor {
    type V = InputV;

    open spec fn view(&self) -> InputV {
        self.input@
    }
}

impl Tensor {
    /// A fresh single-node graph holding one trainable constant of the given
    /// shape, every element initialized to the scalar whose bit pattern is
    /// `value`, and a builder pointing at that node's first output.
    pub fn train_const(shape: Vec<usize>, value: u64) -> (r: (Graph, Tensor))
        ensures
            r.0@ == seq![OpV::TrainConst(shape@, value)],
            r.0.wf(),
            r.1@ == InputV::Internal(0, 0),
            input_wf(r.1@, r.0@.len() as nat),
    {
        let ghost shape_v = shape@;
        let mut graph = Graph::new();
        let node = graph.append(Op::TrainConst(shape, value));
        proof {
            assert(graph@ =~= seq![OpV::TrainConst(shape_v, value)]);
        }
        (graph, Tensor { input: Input::Internal(Internal { node, output: 0 }) })
    }

    /// A builder with no graph nodes of its own, whose value will be fetched
    /// from the feed dictionary using `s` as the key. It contributes no
    /// operations until combined with something else; its graph is the empty
    /// one.
    pub fn from(s: &str) -> (t: Tensor)
        ensures
            t@ == InputV::Feed(s@),
    {
        Tensor { input: Input::from(s) }
    }

    /// Appends a square of this builder's current value to `graph` and
    /// returns a builder referencing the new node.
    pub fn squared(&self, graph: &mut Graph) -> (t: Tensor)
        requires
            input_wf(self@, old(graph)@.len() as nat),
        ensures
            final(graph)@ == old(graph)@.push(OpV::Square(self@)),
            t@ == InputV::Internal(old(graph)@.len() as nat, 0),
            input_wf(t@, final(graph)@.len() as nat),
            old(graph).wf() ==> final(graph).wf(),
    {
        let node = graph.append(Op::Square(self.input.clone()));
        Tensor { input: Input::Internal(Internal { node, output: 0 }) }
    }

    /// The binary combinator behind addition and subtraction: merges the
    /// right-hand operand's graph into `graph`, shifts the right-hand
    /// reference accordingly, and appends the combined operation. The
    /// receiver's reference is embedded unshifted — it already resolves in
    /// the unshifted prefix of the combined graph.
    fn merge2_1(
        a: Input,
        graph: &mut Graph,
        b: Tensor,
        b_graph: Graph,
        is_add: bool,
    ) -> (t: Tensor)
        requires
            b_graph.wf(),
            input_wf(a@, old(graph)@.len() as nat),
            input_wf(b@, b_graph@.len() as nat),
            old(graph)@.len() + b_graph@.len() <= usize::MAX,
        ensures
            final(graph)@ == (old(graph)@ + shift_seq(b_graph@, old(graph)@.len() as nat)).push(
                if is_add {
                    OpV::Add(a@, shift_input(b@, old(graph)@.len() as nat))
                } else {
                    OpV::Sub(a@, shift_input(b@, old(graph)@.len() as nat))
                },
            ),
            final(graph)@.len() == old(graph)@.len() + b_graph@.len() + 1,
            t@ == InputV::Internal((old(graph)@.len() + b_graph@.len()) as nat, 0),
            input_wf(t@, final(graph)@.len() as nat),
            old(graph).wf() ==> final(graph).wf(),
    {
        let shifted = graph.merge_input(b_graph, b.input);
        let ghost a_v = a@;
        let op = if is_add {
            Op::Add(a, shifted)
        } else {
            Op::Sub(a, shifted)
        };
        proof {
            assert(input_wf(a_v, graph@.len() as nat));
        }
        let node = graph.append(op);
        Tensor { input: Input::Internal(Internal { node, output: 0 }) }
    }

    /// Merges `rhs`'s graph (`rhs_graph`) into `graph`, appends an addition
    /// of this builder's value and the shifted right-hand value, and returns
    /// a builder referencing the new node. When both operands were grown in
    /// the same arena, pass a snapshot (a clone) of that arena as
    /// `rhs_graph`: the snapshot's nodes are appended again rather than
    /// deduplicated.
    pub fn add(self, graph: &mut Graph, rhs: Tensor, rhs_graph: Graph) -> (t: Tensor)
        requires
            rhs_graph.wf(),
            input_wf(self@, old(graph)@.len() as nat),
            input_wf(rhs@, rhs_graph@.len() as nat),
            old(graph)@.len() + rhs_graph@.len() <= usize::MAX,
        ensures
            final(graph)@ == (old(graph)@ + shift_seq(rhs_graph@, old(graph)@.len() as nat)).push(
                OpV::Add(self@, shift_input(rhs@, old(graph)@.len() as nat)),
            ),
            final(graph)@.len() == old(graph)@.len() + rhs_graph@.len() + 1,
            t@ == InputV::Internal((old(graph)@.len() + rhs_graph@.len()) as nat, 0),
            input_wf(t@, final(graph)@.len() as nat),
            old(graph).wf() ==> final(graph).wf(),
    {
        Tensor::merge2_1(self.input, graph, rhs, rhs_graph, true)
    }

    /// As [`Tensor::add`], appending a subtraction instead: this builder's
    /// value is the minuend, the shifted right-hand value the subtrahend.
    pub fn sub(self, graph: &mut Graph, rhs: Tensor, rhs_graph: Graph) -> (t: Tensor)
        requires
            rhs_graph.wf(),
            input_wf(self@, old(graph)@.len() as nat),
            input_wf(rhs@, rhs_graph@.len() as nat),
            old(graph)@.len() + rhs_graph@.len() <= usize::MAX,
        ensures
            final(graph)@ == (old(graph)@ + shift_seq(rhs_graph@, old(graph)@.len() as nat)).push(
                OpV::Sub(self@, shift_input(rhs@, old(graph)@.len() as nat)),
            ),
            final(graph)@.len() == old(graph)@.len() + rhs_graph@.len() + 1,
            t@ == InputV::Internal((old(graph)@.len() + rhs_graph@.len()) as nat, 0),
            input_wf(t@, final(graph)@.len() as nat),
            old(graph).wf() ==> final(graph).wf(),
    {
        Tensor::merge2_1(self.input, graph, rhs, rhs_graph, false)
    }

    /// Creates the initial backend state for this builder's graph.
    pub fn gen_state<B: Backend>(&self, graph: &Graph, backend: &B, rng: B::Rng) -> (r: Result<
        B::State,
        B::Error,
    >)
        ensures
            r matches Ok(s) ==> backend.state_covers(graph@, s),
    {
        backend.state(graph, rng)
    }

    /// Evaluates this builder's value: an `Ok` result is the value the
    /// backend's semantics assigns to the builder's reference.
    pub fn eval<B: Backend>(
        &self,
        graph: &Graph,
        backend: &B,
        state: &B::State,
        inputs: &B::TensorDict,
    ) -> (r: Result<B::Tensor, B::Error>)
        ensures
            r matches Ok(t) ==> backend.eval_spec(graph@, *state, *inputs, self@) == Some(t),
    {
        match backend.forward(graph, state, inputs, self.input.clone()) {
            Ok((output, _internal)) => Ok(output),
            Err(e) => Err(e),
        }
    }

    /// One gradient-descent step with this builder as the loss: forward-
    /// evaluate, project the output to a scalar loss with `tensor_loss`,
    /// build the upstream gradient with `delta_tensor` from the learning
    /// rate and that loss, backward-propagate, and apply the delta.
    ///
    /// Returns the loss computed before the update: an `Ok` result is
    /// exactly the projection, through `tensor_loss`, of the value a plain
    /// forward evaluation would produce at the pre-step state. A failing
    /// step aborts and surfaces the backend's error.
    pub fn gradient_descent<B, LF, DF>(
        &self,
        graph: &Graph,
        backend: &B,
        state: &mut B::State,
        inputs: &B::TensorDict,
        learning_rate: B::Scalar,
        tensor_loss: LF,
        delta_tensor: DF,
    ) -> (r: Result<B::Scalar, B::Error>) where
        B: Backend,
        LF: Fn(B::Tensor) -> B::Scalar,
        DF: Fn(B::Scalar, B::Scalar) -> B::Tensor,

        requires
            forall|t: B::Tensor| #[trigger] call_requires(tensor_loss, (t,)),
            forall|lr: B::Scalar, l: B::Scalar| #[trigger] call_requires(delta_tensor, (lr, l)),
        ensures
            r matches Ok(loss) ==> (backend.eval_spec(graph@, *old(state), *inputs, self@)
                matches Some(t) && call_ensures(tensor_loss, (t,), loss)),
    {
        // Perform the forward pass.
        match backend.forward(graph, state, inputs, self.input.clone()) {
            Ok((output, internal)) => {
                let ghost output_snapshot = output;
                // Extract the loss and compute the output delta.
                let loss = tensor_loss(output);
                proof {
                    assert(backend.eval_spec(graph@, *old(state), *inputs, self@) == Some(
                        output_snapshot,
                    ));
                    assert(call_ensures(tensor_loss, (output_snapshot,), loss));
                }
                let output_delta = delta_tensor(learning_rate, loss);
                // Propagate the output delta back through the network.
                match backend.backward(
                    graph,
                    state,
                    &internal,
                    inputs,
                    self.input.clone(),
                    output_delta,
                ) {
                    Ok(delta) => {
                        // Train the network.
                        match backend.train(state, &delta) {
                            Ok(_) => Ok(loss),
                            Err(e) => Err(e),
                        }
                    }
                    Err(e) => Err(e),
                }
            }
            Err(e) => Err(e),
        }
    }
}

} // verus!
