use vstd::prelude::*;

use crate::backend::Backend;
use crate::graph::{input_wf, op_wf, ops_wf, Graph, Input, InputV, Op, OpV};

verus! {

/// The error a [`WordBackend`] reports: the requested value could not be
/// resolved (a missing feed key, an out-of-range or forward reference, a
/// state too short for the graph).
#[derive(Clone, Copy, Debug, PartialEq, Eq, Structural)]
pub enum WordError {
    /// Resolution failed.
    Unresolvable,
}

/// The value stored under `key`, first match winning; `None` when no entry
/// carries the key.
pub open spec fn dict_get(entries: Seq<(String, u64)>, key: Seq<char>) -> Option<u64>
    decreases entries.len(),
{
    if entries.len() == 0 {
        None
    } else if entries[0].0@ == key {
        Some(entries[0].1)
    } else {
        dict_get(entries.drop_first(), key)
    }
}

/// The value the word backend assigns to node `n` of `graph`: operations
/// combine their resolved operands with wrapping machine-word arithmetic, a
/// trainable constant reads its entry of `state`, and `None` marks anything
/// unresolvable.
pub open spec fn node_val(
    graph: Seq<OpV>,
    state: Seq<u64>,
    inputs: Seq<(String, u64)>,
    n: nat,
) -> Option<u64>
    decreases n, 1int,
{
    if n < graph.len() {
        match graph[n as int] {
            OpV::Add(a, b) => match (
                operand_val(graph, state, inputs, a, n),
                operand_val(graph, state, inputs, b, n),
            ) {
                (Some(x), Some(y)) => Some(x.wrapping_add(y)),
                _ => None,
            },
            OpV::Sub(a, b) => match (
                operand_val(graph, state, inputs, a, n),
                operand_val(graph, state, inputs, b, n),
            ) {
                (Some(x), Some(y)) => Some(x.wrapping_sub(y)),
                _ => None,
            },
            OpV::Square(a) => match operand_val(graph, state, inputs, a, n) {
                Some(x) => Some(x.wrapping_mul(x)),
                None => None,
            },
            OpV::TrainConst(_, _) => if n < state.len() {
                Some(state[n as int])
            } else {
                None
            },
        }
    } else {
        None
    }
}

/// The value the word backend assigns to one input resolved against the
/// nodes before `bound`: a feed key is looked up in `inputs`, an internal
/// reference must point below `bound` at output slot 0.
pub open spec fn operand_val(
    graph: Seq<OpV>,
    state: Seq<u64>,
    inputs: Seq<(String, u64)>,
    inp: InputV,
    bound: nat,
) -> Option<u64>
    decreases bound, 0int,
{
    match inp {
        InputV::Feed(k) => dict_get(inputs, k),
        InputV::Internal(m, o) => if o == 0 && m < bound {
            node_val(graph, state, inputs, m)
        } else {
            None
        },
    }
}

/// An input that resolves within `b1` nodes resolves to the same value
/// against any bound at least `b1`: the bound only guards against forward
/// references.
pub proof fn lemma_operand_val_bounds(
    graph: Seq<OpV>,
    state: Seq<u64>,
    inputs: Seq<(String, u64)>,
    inp: InputV,
    b1: nat,
    b2: nat,
)
    requires
        input_wf(inp, b1),
        b1 <= b2,
    ensures
        operand_val(graph, state, inputs, inp, b1) == operand_val(graph, state, inputs, inp, b2),
{
}

/// Looks `key` up in `entries`, first match winning.
fn dict_lookup(entries: &Vec<(String, u64)>, key: &String) -> (r: Option<u64>)
    ensures
        r == dict_get(entries@, key@),
{
    let n: usize = entries.len();
    let mut i: usize = 0;
    proof {
        assert(entries@.skip(0) =~= entries@);
    }
    while i < n
        invariant
            i <= n,
            n == entries@.len(),
            dict_get(entries@, key@) == dict_get(entries@.skip(i as int), key@),
        decreases n - i,
    {
        let pair = &entries[i];
        if pair.0 == *key {
            proof {
                assert(entries@.skip(i as int)[0] == entries@[i as int]);
            }
            return Some(pair.1);
        }
        proof {
            assert(entries@.skip(i as int)[0] == entries@[i as int]);
            assert(entries@.skip(i as int).drop_first() =~= entries@.skip(i + 1));
        }
        i = i + 1;
    }
    proof {
        assert(entries@.skip(n as int) =~= Seq::<(String, u64)>::empty());
    }
    None
}

/// The value of one operand during a forward sweep, with the values of all
/// nodes before `bound` already computed.
fn operand_get(
    values: &Vec<Option<u64>>,
    inputs: &Vec<(String, u64)>,
    inp: &Input,
    bound: usize,
    Ghost(graph): Ghost<Seq<OpV>>,
    Ghost(state): Ghost<Seq<u64>>,
) -> (r: Option<u64>)
    requires
        bound <= values@.len(),
        forall|j: int| 0 <= j < bound ==> values@[j] == node_val(graph, state, inputs@, j as nat),
    ensures
        r == operand_val(graph, state, inputs@, inp@, bound as nat),
{
    match inp {
        Input::Feed(k) => dict_lookup(inputs, k),
        Input::Internal(i) => {
            if i.output == 0 && i.node < bound {
                values[i.node]
            } else {
                None
            }
        }
    }
}

/// One forward sweep: the value of every node of `graph`, computed in
/// order, `None` marking the unresolvable ones.
fn compute_values(graph: &Graph, state: &Vec<u64>, inputs: &Vec<(String, u64)>) -> (values: Vec<
    Option<u64>,
>)
    ensures
        values@.len() == graph@.len(),
        forall|j: int|
            0 <= j < graph@.len() ==> values@[j] == node_val(graph@, state@, inputs@, j as nat),
{
    let n: usize = graph.ops.len();
    let mut values: Vec<Option<u64>> = Vec::new();
    let mut i: usize = 0;
    while i < n
        invariant
            i <= n,
            n == graph@.len(),
            values@.len() == i,
            forall|j: int|
                0 <= j < i ==> values@[j] == node_val(graph@, state@, inputs@, j as nat),
        decreases n - i,
    {
        let op = &graph.ops[i];
        proof {
            assert(graph@[i as int] == op@);
        }
        let v: Option<u64> = match op {
            Op::Add(a, b) => {
                let x = operand_get(&values, inputs, a, i, Ghost(graph@), Ghost(state@));
                let y = operand_get(&values, inputs, b, i, Ghost(graph@), Ghost(state@));
                match (x, y) {
                    (Some(x), Some(y)) => Some(x.wrapping_add(y)),
                    _ => None,
                }
            }
            Op::Sub(a, b) => {
                let x = operand_get(&values, inputs, a, i, Ghost(graph@), Ghost(state@));
                let y = operand_get(&values, inputs, b, i, Ghost(graph@), Ghost(state@));
                match (x, y) {
                    (Some(x), Some(y)) => Some(x.wrapping_sub(y)),
                    _ => None,
                }
            }
            Op::Square(a) => {
                let x = operand_get(&values, inputs, a, i, Ghost(graph@), Ghost(state@));
                match x {
                    Some(x) => Some(x.wrapping_mul(x)),
                    None => None,
                }
            }
            Op::TrainConst(_, _) => {
                if i < state.len() {
                    Some(state[i])
                } else {
                    None
                }
            }
        };
        proof {
            assert(v == node_val(graph@, state@, inputs@, i as nat));
        }
        values.push(v);
        i = i + 1;
    }
    values
}

/// The accumulator `deltas` with one consumer's contribution `g` added,
/// wrapping, to the entry of the node `inp` references — untouched when
/// `inp` is a feed or references no node below `bound`.
pub open spec fn acc_grad(deltas: Seq<u64>, inp: InputV, bound: nat, g: u64) -> Seq<u64> {
    match inp {
        InputV::Feed(_) => deltas,
        InputV::Internal(m, o) => if o == 0 && m < bound && m < deltas.len() {
            deltas.update(m as int, deltas[m as int].wrapping_add(g))
        } else {
            deltas
        },
    }
}

/// The forward value of an operand as the reverse sweep reads it from the
/// cached `values`; zero stands in where nothing usable was cached.
pub open spec fn cached_val(
    values: Seq<Option<u64>>,
    inputs: Seq<(String, u64)>,
    inp: InputV,
    bound: nat,
) -> u64 {
    match inp {
        InputV::Feed(k) => match dict_get(inputs, k) {
            Some(v) => v,
            None => 0,
        },
        InputV::Internal(m, o) => if o == 0 && m < bound && m < values.len() {
            match values[m as int] {
                Some(v) => v,
                None => 0,
            }
        } else {
            0
        },
    }
}

/// The accumulator after node `j` hands its own accumulated gradient on to
/// its operands, each contribution given by [`Backend::local_grad`].
pub open spec fn sweep_step(
    b: WordBackend,
    graph: Seq<OpV>,
    values: Seq<Option<u64>>,
    inputs: Seq<(String, u64)>,
    deltas: Seq<u64>,
    j: int,
) -> Seq<u64> {
    if 0 <= j < graph.len() && j < deltas.len() {
        let g = deltas[j];
        match graph[j] {
            OpV::Add(a, c) => {
                let ga = b.local_grad(graph[j], 0, cached_val(values, inputs, a, j as nat), g);
                let gc = b.local_grad(graph[j], 1, cached_val(values, inputs, c, j as nat), g);
                acc_grad(acc_grad(deltas, a, j as nat, ga), c, j as nat, gc)
            }
            OpV::Sub(a, c) => {
                let ga = b.local_grad(graph[j], 0, cached_val(values, inputs, a, j as nat), g);
                let gc = b.local_grad(graph[j], 1, cached_val(values, inputs, c, j as nat), g);
                acc_grad(acc_grad(deltas, a, j as nat, ga), c, j as nat, gc)
            }
            OpV::Square(a) => {
                let ga = b.local_grad(graph[j], 0, cached_val(values, inputs, a, j as nat), g);
                acc_grad(deltas, a, j as nat, ga)
            }
            OpV::TrainConst(_, _) => deltas,
        }
    } else {
        deltas
    }
}

/// The accumulator after nodes `i - 1` down to `0` have each handed their
/// gradients on: the word backend's whole reverse sweep.
pub open spec fn sweep(
    b: WordBackend,
    graph: Seq<OpV>,
    values: Seq<Option<u64>>,
    inputs: Seq<(String, u64)>,
    deltas: Seq<u64>,
    i: nat,
) -> Seq<u64>
    decreases i,
{
    if i == 0 {
        deltas
    } else {
        sweep(
            b,
            graph,
            values,
            inputs,
            sweep_step(b, graph, values, inputs, deltas, i - 1),
            (i - 1) as nat,
        )
    }
}

/// The starting accumulator of a backward pass: the upstream gradient at
/// the node the starting reference names, zero everywhere else.
pub open spec fn seed_deltas(len: nat, tensor: InputV, output_delta: u64) -> Seq<u64> {
    match tensor {
        InputV::Feed(_) => Seq::new(len, |i: int| 0u64),
        InputV::Internal(n, o) => Seq::new(
            len,
            |i: int| if i == n && o == 0 && n < len {
                output_delta
            } else {
                0u64
            },
        ),
    }
}

/// A vector of `n` zeros: the starting point of a gradient accumulation.
fn zeros(n: usize) -> (r: Vec<u64>)
    ensures
        r@.len() == n,
        forall|j: int| 0 <= j < n ==> r@[j] == 0,
{
    let mut r: Vec<u64> = Vec::new();
    let mut i: usize = 0;
    while i < n
        invariant
            i <= n,
            r@.len() == i,
            forall|j: int| 0 <= j < i ==> r@[j] == 0,
        decreases n - i,
    {
        r.push(0);
        i = i + 1;
    }
    r
}

/// Adds, wrapping, the contribution `g` to the gradient accumulated for the
/// node `inp` references, when it references one below `bound`.
fn accumulate(deltas: &mut Vec<u64>, inp: &Input, bound: usize, g: u64)
    ensures
        final(deltas)@ == acc_grad(old(deltas)@, inp@, bound as nat, g),
{
    if let Input::Internal(r) = inp {
        if r.output == 0 && r.node < bound && r.node < deltas.len() {
            let updated = deltas[r.node].wrapping_add(g);
            deltas.set(r.node, updated);
        }
    }
}

/// The cached forward value of one operand, read from a forward sweep's
/// stored values; zero stands in where nothing usable was cached.
fn operand_cached(
    values: &Vec<Option<u64>>,
    inputs: &Vec<(String, u64)>,
    inp: &Input,
    bound: usize,
) -> (r: u64)
    ensures
        r == cached_val(values@, inputs@, inp@, bound as nat),
{
    match inp {
        Input::Feed(k) => match dict_lookup(inputs, k) {
            Some(v) => v,
            None => 0,
        },
        Input::Internal(i) => {
            if i.output == 0 && i.node < bound && i.node < values.len() {
                match values[i.node] {
                    Some(v) => v,
                    None => 0,
                }
            } else {
                0
            }
        }
    }
}

/// A reference numeric engine: tensors are scalar machine words and every
/// operation is wrapping arithmetic on them. Feed dictionaries are
/// key-value vectors, first match winning; state and deltas hold one word
/// per graph node. It exists to show the backend contract satisfied — its
/// semantics is given outright by [`node_val`], and the laws below are
/// proved of it.
pub struct WordBackend;

impl Backend for WordBackend {
    type TensorDict = Vec<(String, u64)>;

    type InternalStorage = Vec<Option<u64>>;

    type Tensor = u64;

    type Delta = Vec<u64>;

    type State = Vec<u64>;

    type Error = WordError;

    type Scalar = u64;

    type Rng = u64;

    open spec fn eval_spec(
        &self,
        graph: Seq<OpV>,
        state: Vec<u64>,
        inputs: Vec<(String, u64)>,
        tensor: InputV,
    ) -> Option<u64> {
        operand_val(graph, state@, inputs@, tensor, graph.len())
    }

    open spec fn square_spec(&self, v: u64) -> u64 {
        v.wrapping_mul(v)
    }

    open spec fn add_spec(&self, a: u64, b: u64) -> u64 {
        a.wrapping_add(b)
    }

    open spec fn sub_spec(&self, a: u64, b: u64) -> u64 {
        a.wrapping_sub(b)
    }

    open spec fn neg_spec(&self, v: u64) -> u64 {
        (0u64).wrapping_sub(v)
    }

    open spec fn dsquare_spec(&self, v: u64, g: u64) -> u64 {
        v.wrapping_mul(2).wrapping_mul(g)
    }

    open spec fn state_covers(&self, graph: Seq<OpV>, state: Vec<u64>) -> bool {
        &&& state@.len() == graph.len()
        &&& forall|i: int|
            0 <= i < graph.len() ==> (#[trigger] graph[i] matches OpV::TrainConst(_, v)
                ==> state@[i] == v)
    }

    /// One word per node: a trainable constant's fill value, zero elsewhere.
    /// The randomness source is not consulted: initialization is exactly the
    /// declared default.
    fn state(&self, graph: &Graph, _rng: u64) -> (r: Result<Vec<u64>, WordError>)
        ensures
            r is Ok,
    {
        let n: usize = graph.ops.len();
        let mut s: Vec<u64> = Vec::new();
        let mut i: usize = 0;
        while i < n
            invariant
                i <= n,
                n == graph@.len(),
                s@.len() == i,
                forall|j: int|
                    0 <= j < i ==> (#[trigger] graph@[j] matches OpV::TrainConst(_, v)
                        ==> s@[j] == v),
            decreases n - i,
        {
            let op = &graph.ops[i];
            proof {
                assert(graph@[i as int] == op@);
            }
            match op {
                Op::TrainConst(_, v) => s.push(*v),
                _ => s.push(0),
            }
            i = i + 1;
        }
        Ok(s)
    }

    /// A full forward sweep; succeeds exactly when the requested value
    /// resolves, and caches every node's value for the backward pass.
    fn forward(
        &self,
        graph: &Graph,
        state: &Vec<u64>,
        inputs: &Vec<(String, u64)>,
        tensor: Input,
    ) -> (r: Result<(u64, Vec<Option<u64>>), WordError>)
        ensures
            r is Ok <==> operand_val(graph@, state@, inputs@, tensor@, graph@.len()) is Some,
    {
        let values = compute_values(graph, state, inputs);
        let root = operand_get(
            &values,
            inputs,
            &tensor,
            graph.ops.len(),
            Ghost(graph@),
            Ghost(state@),
        );
        match root {
            Some(v) => Ok((v, values)),
            None => Err(WordError::Unresolvable),
        }
    }

    /// A reverse sweep over the cached forward values, accumulating each
    /// consumer's contribution by the chain rule; succeeds exactly when the
    /// starting reference is resolvable in principle (a feed root
    /// contributes no node gradients), and returns exactly the accumulator
    /// [`sweep`] describes.
    fn backward(
        &self,
        graph: &Graph,
        _state: &Vec<u64>,
        internal: &Vec<Option<u64>>,
        inputs: &Vec<(String, u64)>,
        tensor: Input,
        output_delta: u64,
    ) -> (r: Result<Vec<u64>, WordError>)
        ensures
            r is Ok <==> input_wf(tensor@, graph@.len() as nat),
            r matches Ok(d) ==> d@ == sweep(
                *self,
                graph@,
                internal@,
                inputs@,
                seed_deltas(graph@.len(), tensor@, output_delta),
                graph@.len(),
            ),
    {
        let n: usize = graph.ops.len();
        let mut deltas = zeros(n);
        match &tensor {
            Input::Feed(_) => {}
            Input::Internal(i) => {
                if i.output == 0 && i.node < n {
                    deltas.set(i.node, output_delta);
                } else {
                    return Err(WordError::Unresolvable);
                }
            }
        }
        let ghost seed = seed_deltas(graph@.len(), tensor@, output_delta);
        proof {
            assert(deltas@ =~= seed);
        }
        let mut i: usize = n;
        while i > 0
            invariant
                i <= n,
                n == graph@.len(),
                deltas@.len() == n,
                sweep(*self, graph@, internal@, inputs@, seed, n as nat) == sweep(
                    *self,
                    graph@,
                    internal@,
                    inputs@,
                    deltas@,
                    i as nat,
                ),
            decreases i,
        {
            i = i - 1;
            let ghost before = deltas@;
            let g = deltas[i];
            let op = &graph.ops[i];
            proof {
                assert(graph@[i as int] == op@);
            }
            match op {
                Op::Add(a, b) => {
                    accumulate(&mut deltas, a, i, g);
                    accumulate(&mut deltas, b, i, g);
                }
                Op::Sub(a, b) => {
                    accumulate(&mut deltas, a, i, g);
                    accumulate(&mut deltas, b, i, (0u64).wrapping_sub(g));
                }
                Op::Square(a) => {
                    let v = operand_cached(internal, inputs, a, i);
                    accumulate(&mut deltas, a, i, v.wrapping_mul(2).wrapping_mul(g));
                }
                Op::TrainConst(_, _) => {}
            }
            proof {
                assert(deltas@ == sweep_step(*self, graph@, internal@, inputs@, before, i as int));
            }
        }
        Ok(deltas)
    }

    /// Adds, wrapping, each node's accumulated gradient to its state entry;
    /// entries past either vector's end are untouched.
    fn train(&self, state: &mut Vec<u64>, delta: &Vec<u64>) -> (r: Result<(), WordError>)
        ensures
            r is Ok,
            final(state)@.len() == old(state)@.len(),
            forall|i: int|
                0 <= i < old(state)@.len() ==> final(state)@[i] == (if i < delta@.len() {
                    old(state)@[i].wrapping_add(delta@[i])
                } else {
                    old(state)@[i]
                }),
    {
        let n: usize = if state.len() < delta.len() {
            state.len()
        } else {
            delta.len()
        };
        let mut i: usize = 0;
        while i < n
            invariant
                i <= n,
                n <= delta@.len(),
                n <= state@.len(),
                state@.len() == old(state)@.len(),
                n == if old(state)@.len() < delta@.len() {
                    old(state)@.len()
                } else {
                    delta@.len()
                },
                forall|j: int|
                    0 <= j < i ==> state@[j] == old(state)@[j].wrapping_add(delta@[j]),
                forall|j: int| i <= j < state@.len() ==> state@[j] == old(state)@[j],
            decreases n - i,
        {
            let updated = state[i].wrapping_add(delta[i]);
            state.set(i, updated);
            i = i + 1;
        }
        Ok(())
    }
}

/// Law: in a well-formed graph, resolving an addition node yields the
/// elementwise sum of its resolved operands.
pub proof fn word_add_resolves(
    b: WordBackend,
    graph: Seq<OpV>,
    state: Vec<u64>,
    inputs: Vec<(String, u64)>,
    x: InputV,
    y: InputV,
    i: int,
    vx: u64,
    vy: u64,
)
    requires
        ops_wf(graph),
        0 <= i < graph.len(),
        graph[i] == OpV::Add(x, y),
        b.eval_spec(graph, state, inputs, x) == Some(vx),
        b.eval_spec(graph, state, inputs, y) == Some(vy),
    ensures
        b.eval_spec(graph, state, inputs, InputV::Internal(i as nat, 0)) == Some(
            b.add_spec(vx, vy),
        ),
{
    assert(op_wf(graph[i], i as nat));
    lemma_operand_val_bounds(graph, state@, inputs@, x, i as nat, graph.len());
    lemma_operand_val_bounds(graph, state@, inputs@, y, i as nat, graph.len());
}

/// Law: in a well-formed graph, resolving a subtraction node yields the
/// elementwise difference of its resolved operands.
pub proof fn word_sub_resolves(
    b: WordBackend,
    graph: Seq<OpV>,
    state: Vec<u64>,
    inputs: Vec<(String, u64)>,
    x: InputV,
    y: InputV,
    i: int,
    vx: u64,
    vy: u64,
)
    requires
        ops_wf(graph),
        0 <= i < graph.len(),
        graph[i] == OpV::Sub(x, y),
        b.eval_spec(graph, state, inputs, x) == Some(vx),
        b.eval_spec(graph, state, inputs, y) == Some(vy),
    ensures
        b.eval_spec(graph, state, inputs, InputV::Internal(i as nat, 0)) == Some(
            b.sub_spec(vx, vy),
        ),
{
    assert(op_wf(graph[i], i as nat));
    lemma_operand_val_bounds(graph, state@, inputs@, x, i as nat, graph.len());
    lemma_operand_val_bounds(graph, state@, inputs@, y, i as nat, graph.len());
}

/// Law: in a well-formed graph, resolving a square node yields the
/// elementwise square of resolving its operand.
pub proof fn word_square_resolves(
    b: WordBackend,
    graph: Seq<OpV>,
    state: Vec<u64>,
    inputs: Vec<(String, u64)>,
    x: InputV,
    i: int,
    v: u64,
)
    requires
        ops_wf(graph),
        0 <= i < graph.len(),
        graph[i] == OpV::Square(x),
        b.eval_spec(graph, state, inputs, x) == Some(v),
    ensures
        b.eval_spec(graph, state, inputs, InputV::Internal(i as nat, 0)) == Some(
            b.square_spec(v),
        ),
{
    assert(op_wf(graph[i], i as nat));
    lemma_operand_val_bounds(graph, state@, inputs@, x, i as nat, graph.len());
}

/// Law (chain rule): addition passes the upstream gradient unchanged to
/// both of its operands.
pub proof fn word_grad_through_add(b: WordBackend, x: InputV, y: InputV, v: u64, g: u64)
    ensures
        b.local_grad(OpV::Add(x, y), 0, v, g) == g,
        b.local_grad(OpV::Add(x, y), 1, v, g) == g,
{
}

/// Law (chain rule): subtraction passes the upstream gradient unchanged to
/// its minuend and negated to its subtrahend.
pub proof fn word_grad_through_sub(b: WordBackend, x: InputV, y: InputV, v: u64, g: u64)
    ensures
        b.local_grad(OpV::Sub(x, y), 0, v, g) == g,
        b.local_grad(OpV::Sub(x, y), 1, v, g) == b.neg_spec(g),
{
}

/// Law (chain rule): squaring passes the upstream gradient scaled by twice
/// the operand's forward value.
pub proof fn word_grad_through_square(b: WordBackend, x: InputV, v: u64, g: u64)
    ensures
        b.local_grad(OpV::Square(x), 0, v, g) == b.dsquare_spec(v, g),
{
}

} // verus!
