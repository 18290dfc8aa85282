use deep::word::{WordBackend, WordError};
use deep::{Backend, Graph, Input, Internal, Op, Tensor};

fn internal(node: usize) -> Input {
    Input::Internal(Internal { node, output: 0 })
}

#[test]
fn word_state_holds_fill_values_and_zeros() {
    let (mut g, t) = Tensor::train_const(vec![1], 7);
    let y = t.squared(&mut g);
    let backend = WordBackend;
    let state = y.gen_state(&g, &backend, 0).unwrap();
    assert_eq!(state, vec![7, 0]);
}

#[test]
fn word_eval_add_of_train_const_and_feed() {
    let (mut g, a) = Tensor::train_const(vec![1], 3);
    let b = Tensor::from("x");
    let c = a.add(&mut g, b, Graph::new());
    let backend = WordBackend;
    let state = c.gen_state(&g, &backend, 0).unwrap();
    let feeds = vec![("x".to_string(), 5u64)];
    assert_eq!(c.eval(&g, &backend, &state, &feeds).unwrap(), 8);
}

#[test]
fn word_eval_square_of_train_const() {
    let (mut g, t) = Tensor::train_const(vec![1], 2);
    let y = t.squared(&mut g);
    let backend = WordBackend;
    let state = y.gen_state(&g, &backend, 0).unwrap();
    assert_eq!(y.eval(&g, &backend, &state, &Vec::new()).unwrap(), 4);
}

#[test]
fn word_missing_feed_is_unresolvable() {
    let t = Tensor::from("absent");
    let backend = WordBackend;
    let g = Graph::new();
    let state: Vec<u64> = Vec::new();
    assert_eq!(
        t.eval(&g, &backend, &state, &Vec::new()),
        Err(WordError::Unresolvable)
    );
}

#[test]
fn word_feed_lookup_first_match_wins() {
    let t = Tensor::from("x");
    let backend = WordBackend;
    let g = Graph::new();
    let state: Vec<u64> = Vec::new();
    let feeds = vec![("x".to_string(), 1u64), ("x".to_string(), 2u64)];
    assert_eq!(t.eval(&g, &backend, &state, &feeds).unwrap(), 1);
}

#[test]
fn word_backward_applies_the_chain_rule_for_square() {
    let (mut g, t) = Tensor::train_const(vec![1], 3);
    let y = t.squared(&mut g);
    let backend = WordBackend;
    let state = y.gen_state(&g, &backend, 0).unwrap();
    let (_, internal_values) = backend
        .forward(&g, &state, &Vec::new(), y.input.clone())
        .unwrap();
    let deltas = backend
        .backward(&g, &state, &internal_values, &Vec::new(), y.input.clone(), 1)
        .unwrap();
    // d(t^2)/dt == 2 * t == 6 at t == 3; the root itself keeps the upstream 1
    assert_eq!(deltas, vec![6, 1]);
}

#[test]
fn word_backward_accumulates_over_consumers() {
    let mut g = Graph::new();
    g.append(Op::TrainConst(vec![1], 5));
    let root = g.append(Op::Add(internal(0), internal(0)));
    let backend = WordBackend;
    let state = backend.state(&g, 0).unwrap();
    let (_, internal_values) = backend
        .forward(&g, &state, &Vec::new(), internal(root))
        .unwrap();
    let deltas = backend
        .backward(&g, &state, &internal_values, &Vec::new(), internal(root), 1)
        .unwrap();
    assert_eq!(deltas[0], 2);
}

#[test]
fn word_train_adds_deltas_wrapping() {
    let backend = WordBackend;
    let mut state = vec![u64::MAX, 10];
    backend.train(&mut state, &vec![1, 5]).unwrap();
    assert_eq!(state, vec![0, 15]);
}

#[test]
fn word_gradient_descent_returns_pre_update_loss() {
    let (mut g, t) = Tensor::train_const(vec![1], 3);
    let y = t.squared(&mut g);
    let backend = WordBackend;
    let mut state = y.gen_state(&g, &backend, 0).unwrap();
    let plain = y.eval(&g, &backend, &state, &Vec::new()).unwrap();
    let loss = y
        .gradient_descent(
            &g,
            &backend,
            &mut state,
            &Vec::new(),
            1,
            |t: u64| t,
            |lr: u64, l: u64| lr.wrapping_mul(l).wrapping_neg(),
        )
        .unwrap();
    assert_eq!(loss, plain);
    assert_eq!(loss, 9);
    // the parameter moved by the accumulated, wrapping gradient:
    // 3 + 2 * 3 * (-9) == 3 - 54 == -51, wrapping
    assert_eq!(state[0], 51u64.wrapping_neg());
}
