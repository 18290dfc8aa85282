use vstd::prelude::*;

verus! {

/// References a tensor which is produced as an output of an operation stored
/// in the graph.
#[derive(Clone, Copy, Debug, PartialEq, Eq, Hash, Structural)]
pub struct Internal {
    /// The result of which [`Op`] the tensor is.
    pub node: usize,
    /// The specific output to pull from; an [`Op`] could result in multiple
    /// outputs.
    pub output: usize,
}

/// The specification-level value of an [`Input`].
#[verifier::ext_equal]
pub enum InputV {
    /// A feed key, resolved against an external dictionary at evaluation time.
    Feed(Seq<char>),
    /// A node index and an output slot within the same graph.
    Internal(nat, nat),
}

/// The specification-level value of an [`Op`].
#[verifier::ext_equal]
pub enum OpV {
    /// Elementwise addition of two resolved inputs.
    Add(InputV, InputV),
    /// Elementwise subtraction of two resolved inputs.
    Sub(InputV, InputV),
    /// Elementwise square of one resolved input.
    Square(InputV),
    /// A trainable parameter with a shape and the bit pattern of its scalar
    /// fill value.
    TrainConst(Seq<usize>, u64),
}

/// `inp` with its node index moved up by `s`; feed keys are untouched.
pub open spec fn shift_input(inp: InputV, s: nat) -> InputV {
    match inp {
        InputV::Feed(k) => InputV::Feed(k),
        InputV::Internal(n, o) => InputV::Internal(n + s, o),
    }
}

/// `inp` with its node index moved back down by `s`.
pub open spec fn unshift_input(inp: InputV, s: nat) -> InputV {
    match inp {
        InputV::Feed(k) => InputV::Feed(k),
        InputV::Internal(n, o) => InputV::Internal((n - s) as nat, o),
    }
}

/// `op` with every internal reference moved up by `s`.
pub open spec fn shift_op(op: OpV, s: nat) -> OpV {
    match op {
        OpV::Add(a, b) => OpV::Add(shift_input(a, s), shift_input(b, s)),
        OpV::Sub(a, b) => OpV::Sub(shift_input(a, s), shift_input(b, s)),
        OpV::Square(a) => OpV::Square(shift_input(a, s)),
        OpV::TrainConst(shape, v) => OpV::TrainConst(shape, v),
    }
}

/// `op` with every internal reference moved back down by `s`.
pub open spec fn unshift_op(op: OpV, s: nat) -> OpV {
    match op {
        OpV::Add(a, b) => OpV::Add(unshift_input(a, s), unshift_input(b, s)),
        OpV::Sub(a, b) => OpV::Sub(unshift_input(a, s), unshift_input(b, s)),
        OpV::Square(a) => OpV::Square(unshift_input(a, s)),
        OpV::TrainConst(shape, v) => OpV::TrainConst(shape, v),
    }
}

/// Every operation of `ops` with its internal references moved up by `s`.
pub open spec fn shift_seq(ops: Seq<OpV>, s: nat) -> Seq<OpV> {
    ops.map_values(|op: OpV| shift_op(op, s))
}

/// `inp` is resolvable against the first `bound` operations of a graph: an
/// internal reference points strictly backward and pulls output slot 0, the
/// only slot any current operation produces.
pub open spec fn input_wf(inp: InputV, bound: nat) -> bool {
    match inp {
        InputV::Feed(_) => true,
        InputV::Internal(n, o) => n < bound && o == 0,
    }
}

/// Every input of `op` is resolvable against the first `bound` operations.
pub open spec fn op_wf(op: OpV, bound: nat) -> bool {
    match op {
        OpV::Add(a, b) => input_wf(a, bound) && input_wf(b, bound),
        OpV::Sub(a, b) => input_wf(a, bound) && input_wf(b, bound),
        OpV::Square(a) => input_wf(a, bound),
        OpV::TrainConst(_, _) => true,
    }
}

/// Every operation of `ops` refers only to nodes before it: the graph's
/// single structural invariant.
pub open spec fn ops_wf(ops: Seq<OpV>) -> bool {
    forall|i: int| 0 <= i < ops.len() ==> op_wf(#[trigger] ops[i], i as nat)
}

/// Moving `inp`'s node index up by `s` stays within a machine index.
pub open spec fn input_shift_ok(inp: InputV, s: nat) -> bool {
    match inp {
        InputV::Feed(_) => true,
        InputV::Internal(n, _) => n + s <= usize::MAX,
    }
}

/// Moving every reference of `op` up by `s` stays within machine indices.
pub open spec fn op_shift_ok(op: OpV, s: nat) -> bool {
    match op {
        OpV::Add(a, b) => input_shift_ok(a, s) && input_shift_ok(b, s),
        OpV::Sub(a, b) => input_shift_ok(a, s) && input_shift_ok(b, s),
        OpV::Square(a) => input_shift_ok(a, s),
        OpV::TrainConst(_, _) => true,
    }
}

impl Internal {
    /// Moves this reference up by `shift` node positions.
    pub fn shift_inputs(&mut self, shift: usize)
        requires
            old(self).node + shift <= usize::MAX,
        ensures
            final(self).node == old(self).node + shift,
            final(self).output == old(self).output,
    {
        self.node = self.node + shift;
    }
}

/// Inputs which are used by an operation [`Op`].
///
/// An input is either a key into an external name-to-value dictionary
/// supplied at evaluation time, or a reference to the output of another node
/// in the same [`Graph`].
#[derive(Debug, PartialEq, Eq)]
pub enum Input {
    /// The key to use when fetching the actual tensor from the feed
    /// dictionary.
    Feed(String),
    /// An input from another node in the [`Graph`].
    Internal(Internal),
}

impl View for Input {
    type V = InputV;

    open spec fn view(&self) -> InputV {
        match self {
            Input::Feed(k) => InputV::Feed(k@),
            Input::Internal(i) => InputV::Internal(i.node as nat, i.output as nat),
        }
    }
}

impl Clone for Input {
    /// The copy denotes the same input.
    fn clone(&self) -> (r: Self)
        ensures
            r@ == self@,
    {
        match self {
            Input::Feed(k) => Input::Feed(k.clone()),
            Input::Internal(i) => Input::Internal(*i),
        }
    }
}

impl Input {
    /// A feed input keyed by `s`.
    pub fn from(s: &str) -> (r: Input)
        ensures
            r@ == InputV::Feed(s@),
    {
        Input::Feed(s.to_owned())
    }

    /// Moves an internal reference up by `shift`; a feed is untouched.
    pub fn shift_inputs(&mut self, shift: usize)
        requires
            input_shift_ok(old(self)@, shift as nat),
        ensures
            final(self)@ == shift_input(old(self)@, shift as nat),
    {
        match self {
            Input::Internal(n) => n.shift_inputs(shift),
            Input::Feed(_) => {}
        }
    }
}

/// One operation of a computation graph, with fixed arity.
#[derive(Debug, PartialEq, Eq)]
pub enum Op {
    /// Elementwise addition.
    Add(Input, Input),
    /// Elementwise subtraction.
    Sub(Input, Input),
    /// Elementwise square.
    Square(Input),
    /// A trainable parameter: its shape and the bit pattern of the scalar
    /// every element is initialized to.
    TrainConst(Vec<usize>, u64),
}

impl View for Op {
    type V = OpV;

    open spec fn view(&self) -> OpV {
        match self {
            Op::Add(a, b) => OpV::Add(a@, b@),
            Op::Sub(a, b) => OpV::Sub(a@, b@),
            Op::Square(a) => OpV::Square(a@),
            Op::TrainConst(shape, v) => OpV::TrainConst(shape@, *v),
        }
    }
}

/// A copy of `shape` with the same entries.
fn clone_shape(shape: &Vec<usize>) -> (r: Vec<usize>)
    ensures
        r@ == shape@,
{
    let n: usize = shape.len();
    let mut r: Vec<usize> = Vec::new();
    let mut i: usize = 0;
    while i < n
        invariant
            i <= n,
            n == shape@.len(),
            r@ == shape@.take(i as int),
        decreases n - i,
    {
        proof {
            assert(shape@.take(i + 1) =~= shape@.take(i as int).push(shape@[i as int]));
        }
        r.push(shape[i]);
        i = i + 1;
    }
    proof {
        assert(shape@.take(n as int) =~= shape@);
    }
    r
}

impl Clone for Op {
    /// The copy denotes the same operation.
    fn clone(&self) -> (r: Self)
        ensures
            r@ == self@,
    {
        match self {
            Op::Add(a, b) => Op::Add(a.clone(), b.clone()),
            Op::Sub(a, b) => Op::Sub(a.clone(), b.clone()),
            Op::Square(a) => Op::Square(a.clone()),
            Op::TrainConst(shape, v) => Op::TrainConst(clone_shape(shape), *v),
        }
    }
}

impl Op {
    /// Moves every internal reference of this operation up by `shift`.
    fn shift_inputs(&mut self, shift: usize)
        requires
            op_shift_ok(old(self)@, shift as nat),
        ensures
            final(self)@ == shift_op(old(self)@, shift as nat),
    {
        match self {
            Op::Add(a, b) => {
                a.shift_inputs(shift);
                b.shift_inputs(shift);
            }
            Op::Sub(a, b) => {
                a.shift_inputs(shift);
                b.shift_inputs(shift);
            }
            Op::Square(a) => {
                a.shift_inputs(shift);
            }
            Op::TrainConst(_, _) => {}
        }
    }
}

/// An ordered, append-only sequence of operations referring to each other's
/// outputs for their inputs.
#[derive(Debug, PartialEq, Eq)]
pub struct Graph {
    /// The operations, in the order they were appended.
    pub ops: Vec<Op>,
}

impl View for Graph {
    type V = Seq<OpV>;

    open spec fn view(&self) -> Seq<OpV> {
        self.ops@.map_values(|op: Op| op@)
    }
}

impl Graph {
    /// Every operation refers only to nodes appended before it.
    pub open spec fn wf(&self) -> bool {
        ops_wf(self@)
    }

    /// An empty graph.
    pub fn new() -> (g: Graph)
        ensures
            g@ == Seq::<OpV>::empty(),
            g.wf(),
    {
        let g = Graph { ops: Vec::new() };
        proof {
            assert(g@ =~= Seq::<OpV>::empty());
        }
        g
    }

    /// Pushes `op` onto the sequence and returns its new index. The graph
    /// does not validate `op`'s references; an appended operation whose
    /// references already point strictly backward keeps the graph
    /// well-formed.
    pub fn append(&mut self, op: Op) -> (idx: usize)
        ensures
            final(self)@ == old(self)@.push(op@),
            idx == old(self)@.len(),
            old(self).wf() && op_wf(op@, old(self)@.len() as nat) ==> final(self).wf(),
    {
        let ghost pre = self@;
        let ghost opv = op@;
        self.ops.push(op);
        proof {
            assert(self@ =~= pre.push(opv));
            if old(self).wf() && op_wf(opv, pre.len() as nat) {
                assert forall|i: int| 0 <= i < self@.len() implies op_wf(
                    #[trigger] self@[i],
                    i as nat,
                ) by {
                    if i < pre.len() {
                        assert(self@[i] == pre[i]);
                    }
                }
            }
        }
        self.ops.len() - 1
    }

    /// Appends every operation of `other` after the receiver's current end,
    /// rewriting every internal reference inside the appended region by
    /// adding the receiver's pre-merge length to its node index.
    pub fn merge(&mut self, other: Graph)
        requires
            other.wf(),
            old(self)@.len() + other@.len() <= usize::MAX,
        ensures
            final(self)@ == old(self)@ + shift_seq(other@, old(self)@.len() as nat),
            final(self)@.len() == old(self)@.len() + other@.len(),
            old(self).wf() ==> final(self).wf(),
    {
        let current: usize = self.ops.len();
        let n: usize = other.ops.len();
        let ghost pre = self@;
        let ghost shifted = shift_seq(other@, current as nat);
        let mut j: usize = 0;
        while j < n
            invariant
                j <= n,
                n == other@.len(),
                current == pre.len(),
                current + n <= usize::MAX,
                other.wf(),
                shifted == shift_seq(other@, current as nat),
                self@ == pre + shifted.take(j as int),
            decreases n - j,
        {
            let mut op: Op = other.ops[j].clone();
            proof {
                assert(op_wf(other@[j as int], j as nat));
                lemma_wf_implies_shift_ok(op@, j as nat, current as nat);
            }
            op.shift_inputs(current);
            let ghost before = self@;
            self.ops.push(op);
            proof {
                assert(self@ =~= before.push(shift_op(other@[j as int], current as nat)));
                assert(shifted[j as int] == shift_op(other@[j as int], current as nat));
                assert(shifted.take(j + 1) =~= shifted.take(j as int).push(shifted[j as int]));
                assert((pre + shifted.take(j as int)).push(shifted[j as int]) =~= pre
                    + shifted.take(j + 1));
            }
            j = j + 1;
        }
        proof {
            assert(shifted.take(n as int) =~= shifted);
            if old(self).wf() {
                lemma_shift_preserves_resolvability(other@, current as nat);
                assert forall|i: int| 0 <= i < self@.len() implies op_wf(
                    #[trigger] self@[i],
                    i as nat,
                ) by {
                    if i < current {
                        assert(self@[i] == pre[i]);
                    } else {
                        assert(self@[i] == shift_seq(other@, current as nat)[i - current]);
                        assert(op_wf(self@[i], (current + (i - current)) as nat));
                    }
                }
            }
        }
    }

    /// Merges `other` into the receiver and applies the same index shift to a
    /// free-standing input (one not yet stored inside any operation),
    /// returning the shifted input for embedding in a new operation.
    pub fn merge_input(&mut self, other: Graph, input: Input) -> (r: Input)
        requires
            other.wf(),
            input_wf(input@, other@.len() as nat),
            old(self)@.len() + other@.len() <= usize::MAX,
        ensures
            final(self)@ == old(self)@ + shift_seq(other@, old(self)@.len() as nat),
            final(self)@.len() == old(self)@.len() + other@.len(),
            old(self).wf() ==> final(self).wf(),
            r@ == shift_input(input@, old(self)@.len() as nat),
            input_wf(r@, final(self)@.len() as nat),
    {
        let current: usize = self.ops.len();
        self.merge(other);
        let mut input = input;
        input.shift_inputs(current);
        input
    }
}

impl Clone for Graph {
    /// A snapshot: the copy holds the same operations in the same order.
    fn clone(&self) -> (r: Self)
        ensures
            r@ == self@,
            self.wf() ==> r.wf(),
    {
        let n: usize = self.ops.len();
        let mut ops: Vec<Op> = Vec::new();
        let mut i: usize = 0;
        while i < n
            invariant
                i <= n,
                n == self@.len(),
                ops@.map_values(|op: Op| op@) == self@.take(i as int),
            decreases n - i,
        {
            let ghost before = ops@.map_values(|op: Op| op@);
            ops.push(self.ops[i].clone());
            proof {
                assert(ops@.map_values(|op: Op| op@) =~= before.push(self@[i as int]));
                assert(self@.take(i + 1) =~= self@.take(i as int).push(self@[i as int]));
            }
            i = i + 1;
        }
        proof {
            assert(self@.take(n as int) =~= self@);
        }
        let r = Graph { ops };
        r
    }
}

impl Default for Graph {
    /// An empty graph.
    fn default() -> (g: Graph)
        ensures
            g@ == Seq::<OpV>::empty(),
            g.wf(),
    {
        Graph::new()
    }
}

/// A reference that resolves within `bound` nodes still resolves, against a
/// bound grown by the shift, after the shift; shifting is undone by
/// unshifting, so only the address changes.
pub proof fn lemma_shift_input_wf(inp: InputV, s: nat, bound: nat)
    requires
        input_wf(inp, bound),
    ensures
        input_wf(shift_input(inp, s), (bound + s) as nat),
        unshift_input(shift_input(inp, s), s) == inp,
{
}

/// Shifting a well-formed operation by `s` keeps every reference strictly
/// below its bound moved up by `s`, and is undone by unshifting.
pub proof fn lemma_shift_op_wf(op: OpV, s: nat, bound: nat)
    requires
        op_wf(op, bound),
    ensures
        op_wf(shift_op(op, s), (bound + s) as nat),
        unshift_op(shift_op(op, s), s) == op,
{
    match op {
        OpV::Add(a, b) => {
            lemma_shift_input_wf(a, s, bound);
            lemma_shift_input_wf(b, s, bound);
        }
        OpV::Sub(a, b) => {
            lemma_shift_input_wf(a, s, bound);
            lemma_shift_input_wf(b, s, bound);
        }
        OpV::Square(a) => {
            lemma_shift_input_wf(a, s, bound);
        }
        OpV::TrainConst(_, _) => {}
    }
}

/// An operation whose references stay below `bound` can be shifted by `s`
/// without leaving machine indices, provided `bound + s` fits in one.
pub proof fn lemma_wf_implies_shift_ok(op: OpV, bound: nat, s: nat)
    requires
        op_wf(op, bound),
        bound + s <= usize::MAX,
    ensures
        op_shift_ok(op, s),
{
}

/// Law: merging a well-formed fragment after a prefix of `s` operations
/// preserves resolvability. Every operation of the shifted region refers only
/// to node indices below `s` plus its own position in the fragment — so in
/// particular below `s` plus the fragment's length — and its identity is
/// unchanged: unshifting recovers the operation as it stood in the
/// fragment, so only addresses moved.
pub proof fn lemma_shift_preserves_resolvability(frag: Seq<OpV>, s: nat)
    requires
        forall|i: int| 0 <= i < frag.len() ==> op_wf(#[trigger] frag[i], i as nat),
    ensures
        shift_seq(frag, s).len() == frag.len(),
        forall|i: int|
            0 <= i < frag.len() ==> op_wf(#[trigger] shift_seq(frag, s)[i], (s + i) as nat),
        forall|i: int|
            0 <= i < frag.len() ==> unshift_op(#[trigger] shift_seq(frag, s)[i], s) == frag[i],
{
    assert forall|i: int| 0 <= i < frag.len() implies op_wf(
        #[trigger] shift_seq(frag, s)[i],
        (s + i) as nat,
    ) && unshift_op(shift_seq(frag, s)[i], s) == frag[i] by {
        lemma_shift_op_wf(frag[i], s, i as nat);
    }
}

} // verus!
