use deep::{Graph, Input, Internal, Op};

fn internal(node: usize) -> Input {
    Input::Internal(Internal { node, output: 0 })
}

#[test]
fn new_graph_is_empty() {
    let g = Graph::new();
    assert_eq!(g.ops.len(), 0);
    let d: Graph = Default::default();
    assert_eq!(d.ops.len(), 0);
}

#[test]
fn append_returns_sequential_indices() {
    let mut g = Graph::new();
    let i0 = g.append(Op::TrainConst(vec![1], 0));
    let i1 = g.append(Op::Square(internal(0)));
    let i2 = g.append(Op::Add(internal(0), internal(1)));
    assert_eq!((i0, i1, i2), (0, 1, 2));
    assert_eq!(g.ops.len(), 3);
}

#[test]
fn internal_shift_moves_node_only() {
    let mut r = Internal { node: 3, output: 0 };
    r.shift_inputs(4);
    assert_eq!(r, Internal { node: 7, output: 0 });
}

#[test]
fn input_shift_leaves_feeds_untouched() {
    let mut feed = Input::from("x");
    feed.shift_inputs(10);
    assert_eq!(feed, Input::Feed("x".to_string()));
    let mut inner = internal(2);
    inner.shift_inputs(10);
    assert_eq!(inner, internal(12));
}

#[test]
fn input_from_str_is_a_feed() {
    assert_eq!(Input::from("key"), Input::Feed("key".to_string()));
}

#[test]
fn merge_appends_and_shifts_internal_references() {
    // receiver: [TrainConst, Square(0)]; fragment: [TrainConst, Square(0)]
    let mut a = Graph::new();
    a.append(Op::TrainConst(vec![1], 1));
    a.append(Op::Square(internal(0)));
    let mut b = Graph::new();
    b.append(Op::TrainConst(vec![2], 2));
    b.append(Op::Square(internal(0)));

    a.merge(b);

    // every reference in the merged region is shifted by the pre-merge
    // length, the operations themselves are unchanged
    assert_eq!(
        a.ops,
        vec![
            Op::TrainConst(vec![1], 1),
            Op::Square(internal(0)),
            Op::TrainConst(vec![2], 2),
            Op::Square(internal(2)),
        ]
    );
    // resolvability: each shifted reference points strictly backward
    for (i, op) in a.ops.iter().enumerate() {
        let check = |inp: &Input| {
            if let Input::Internal(r) = inp {
                assert!(r.node < i);
            }
        };
        match op {
            Op::Add(x, y) | Op::Sub(x, y) => {
                check(x);
                check(y);
            }
            Op::Square(x) => check(x),
            Op::TrainConst(..) => {}
        }
    }
}

#[test]
fn merge_input_shifts_a_free_standing_input() {
    let mut a = Graph::new();
    a.append(Op::TrainConst(vec![1], 1));
    let mut b = Graph::new();
    b.append(Op::TrainConst(vec![1], 2));
    b.append(Op::Square(internal(0)));

    let shifted = a.merge_input(b, internal(1));
    assert_eq!(shifted, internal(2));
    assert_eq!(a.ops.len(), 3);

    // a feed key passes through a merge unshifted
    let mut c = Graph::new();
    let feed = c.merge_input(Graph::new(), Input::from("x"));
    assert_eq!(feed, Input::Feed("x".to_string()));
}

#[test]
fn clone_is_a_snapshot() {
    let mut g = Graph::new();
    g.append(Op::TrainConst(vec![3, 4], 7));
    g.append(Op::Square(internal(0)));
    let snap = g.clone();
    assert_eq!(snap.ops, g.ops);
    g.append(Op::Square(internal(1)));
    assert_eq!(snap.ops.len(), 2);
    assert_eq!(g.ops.len(), 3);
}
