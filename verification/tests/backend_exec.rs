use std::collections::HashMap;

use deep::{Backend, Graph, Input, Internal, Op, Tensor};

/// A minimal conforming backend over scalar `f64` values, for exercising the
/// evaluation, gradient and training contracts.
struct ScalarBackend;

fn resolve(
    graph: &Graph,
    state: &HashMap<usize, f64>,
    inputs: &HashMap<String, f64>,
    tensor: &Input,
) -> Result<f64, String> {
    match tensor {
        Input::Feed(key) => inputs
            .get(key)
            .copied()
            .ok_or_else(|| format!("missing feed key: {key}")),
        Input::Internal(Internal { node, .. }) => {
            let op = graph
                .ops
                .get(*node)
                .ok_or_else(|| format!("node out of range: {node}"))?;
            match op {
                Op::Add(a, b) => {
                    Ok(resolve(graph, state, inputs, a)? + resolve(graph, state, inputs, b)?)
                }
                Op::Sub(a, b) => {
                    Ok(resolve(graph, state, inputs, a)? - resolve(graph, state, inputs, b)?)
                }
                Op::Square(a) => {
                    let v = resolve(graph, state, inputs, a)?;
                    Ok(v * v)
                }
                Op::TrainConst(..) => state
                    .get(node)
                    .copied()
                    .ok_or_else(|| format!("no state for node: {node}")),
            }
        }
    }
}

fn backprop(
    graph: &Graph,
    state: &HashMap<usize, f64>,
    inputs: &HashMap<String, f64>,
    tensor: &Input,
    upstream: f64,
    delta: &mut HashMap<usize, f64>,
) -> Result<(), String> {
    let Input::Internal(Internal { node, .. }) = tensor else {
        return Ok(());
    };
    *delta.entry(*node).or_insert(0.0) += upstream;
    let op = graph
        .ops
        .get(*node)
        .ok_or_else(|| format!("node out of range: {node}"))?;
    match op {
        Op::Add(a, b) => {
            backprop(graph, state, inputs, a, upstream, delta)?;
            backprop(graph, state, inputs, b, upstream, delta)
        }
        Op::Sub(a, b) => {
            backprop(graph, state, inputs, a, upstream, delta)?;
            backprop(graph, state, inputs, b, -upstream, delta)
        }
        Op::Square(a) => {
            let v = resolve(graph, state, inputs, a)?;
            backprop(graph, state, inputs, a, 2.0 * v * upstream, delta)
        }
        Op::TrainConst(..) => Ok(()),
    }
}

impl Backend for ScalarBackend {
    type TensorDict = HashMap<String, f64>;
    type InternalStorage = ();
    type Tensor = f64;
    type Delta = HashMap<usize, f64>;
    type State = HashMap<usize, f64>;
    type Error = String;
    type Scalar = f64;
    type Rng = u64;

    fn state(&self, graph: &Graph, _rng: u64) -> Result<HashMap<usize, f64>, String> {
        let mut state = HashMap::new();
        for (i, op) in graph.ops.iter().enumerate() {
            if let Op::TrainConst(_, bits) = op {
                state.insert(i, f64::from_bits(*bits));
            }
        }
        Ok(state)
    }

    fn forward(
        &self,
        graph: &Graph,
        state: &HashMap<usize, f64>,
        inputs: &HashMap<String, f64>,
        tensor: Input,
    ) -> Result<(f64, ()), String> {
        resolve(graph, state, inputs, &tensor).map(|v| (v, ()))
    }

    fn backward(
        &self,
        graph: &Graph,
        state: &HashMap<usize, f64>,
        _internal: &(),
        inputs: &HashMap<String, f64>,
        tensor: Input,
        output_delta: f64,
    ) -> Result<HashMap<usize, f64>, String> {
        let mut delta = HashMap::new();
        backprop(graph, state, inputs, &tensor, output_delta, &mut delta)?;
        Ok(delta)
    }

    fn train(&self, state: &mut HashMap<usize, f64>, delta: &HashMap<usize, f64>) -> Result<(), String> {
        for (node, g) in delta {
            if let Some(v) = state.get_mut(node) {
                *v += g;
            }
        }
        Ok(())
    }
}

fn close(a: f64, b: f64) -> bool {
    (a - b).abs() < 1e-9
}

#[test]
fn squared_train_const_evaluates_to_four() {
    let (mut g, t) = Tensor::train_const(vec![1], (2.0f64).to_bits());
    let y = t.squared(&mut g);
    let backend = ScalarBackend;
    let state = y.gen_state(&g, &backend, 0).unwrap();
    let out = y.eval(&g, &backend, &state, &HashMap::new()).unwrap();
    assert_eq!(out, 4.0);
}

#[test]
fn add_of_train_const_and_feed_evaluates_to_eight() {
    let (mut g, a) = Tensor::train_const(vec![1], (3.0f64).to_bits());
    let b = Tensor::from("x");
    let c = a.add(&mut g, b, Graph::new());
    let backend = ScalarBackend;
    let state = c.gen_state(&g, &backend, 0).unwrap();
    let feeds = HashMap::from([("x".to_string(), 5.0f64)]);
    let out = c.eval(&g, &backend, &state, &feeds).unwrap();
    assert_eq!(out, 8.0);
}

#[test]
fn square_node_evaluates_to_square_of_its_operand() {
    // the square node's value equals the square of its resolved input,
    // whatever that input evaluates to
    for v in [0.0f64, 1.5, -2.5, 7.0] {
        let (mut g, t) = Tensor::train_const(vec![1], v.to_bits());
        let y = t.squared(&mut g);
        let backend = ScalarBackend;
        let state = y.gen_state(&g, &backend, 0).unwrap();
        let base = t.eval(&g, &backend, &state, &HashMap::new()).unwrap();
        let squared = y.eval(&g, &backend, &state, &HashMap::new()).unwrap();
        assert_eq!(squared, base * base);
    }
}

#[test]
fn eval_without_feed_key_reports_the_backend_error() {
    let t = Tensor::from("missing");
    let backend = ScalarBackend;
    let g = Graph::new();
    let state = HashMap::new();
    let err = t.eval(&g, &backend, &state, &HashMap::new()).unwrap_err();
    assert!(err.contains("missing"));
}

#[test]
fn add_passes_upstream_gradient_to_both_operands() {
    let (mut ga, a) = Tensor::train_const(vec![1], (1.0f64).to_bits());
    let (gb, b) = Tensor::train_const(vec![1], (2.0f64).to_bits());
    let c = a.add(&mut ga, b, gb);
    let backend = ScalarBackend;
    let state = c.gen_state(&ga, &backend, 0).unwrap();
    let delta = backend
        .backward(&ga, &state, &(), &HashMap::new(), c.input.clone(), 1.0)
        .unwrap();
    assert!(close(delta[&0], 1.0));
    assert!(close(delta[&1], 1.0));
}

#[test]
fn sub_negates_the_gradient_of_the_subtrahend() {
    let (mut ga, a) = Tensor::train_const(vec![1], (1.0f64).to_bits());
    let (gb, b) = Tensor::train_const(vec![1], (2.0f64).to_bits());
    let c = a.sub(&mut ga, b, gb);
    let backend = ScalarBackend;
    let state = c.gen_state(&ga, &backend, 0).unwrap();
    let delta = backend
        .backward(&ga, &state, &(), &HashMap::new(), c.input.clone(), 1.0)
        .unwrap();
    assert!(close(delta[&0], 1.0));
    assert!(close(delta[&1], -1.0));
}

#[test]
fn square_scales_the_gradient_by_twice_its_value() {
    let (mut g, t) = Tensor::train_const(vec![1], (3.0f64).to_bits());
    let y = t.squared(&mut g);
    let backend = ScalarBackend;
    let state = y.gen_state(&g, &backend, 0).unwrap();
    let delta = backend
        .backward(&g, &state, &(), &HashMap::new(), y.input.clone(), 1.0)
        .unwrap();
    // d(t^2)/dt = 2 * t = 6 at t == 3
    assert!(close(delta[&0], 6.0));
}

#[test]
fn gradients_accumulate_over_several_consumers() {
    // one node feeding an Add twice receives both contributions
    let mut g = Graph::new();
    g.append(Op::TrainConst(vec![1], (5.0f64).to_bits()));
    let twice = Op::Add(
        Input::Internal(Internal { node: 0, output: 0 }),
        Input::Internal(Internal { node: 0, output: 0 }),
    );
    let root = g.append(twice);
    let backend = ScalarBackend;
    let state = backend.state(&g, 0).unwrap();
    let delta = backend
        .backward(
            &g,
            &state,
            &(),
            &HashMap::new(),
            Input::Internal(Internal { node: root, output: 0 }),
            1.0,
        )
        .unwrap();
    assert!(close(delta[&0], 2.0));
}

#[test]
fn gradient_descent_returns_the_pre_update_loss() {
    let (mut g, t) = Tensor::train_const(vec![1], (2.0f64).to_bits());
    let y = t.squared(&mut g);
    let backend = ScalarBackend;
    let mut state = y.gen_state(&g, &backend, 0).unwrap();

    // the loss a plain forward + projection would produce before the step
    let plain = y.eval(&g, &backend, &state, &HashMap::new()).unwrap();

    let loss = y
        .gradient_descent(
            &g,
            &backend,
            &mut state,
            &HashMap::new(),
            0.1,
            |t: f64| t,
            |lr: f64, l: f64| -lr * l,
        )
        .unwrap();
    assert_eq!(loss, plain);
    assert_eq!(loss, 4.0);

    // the parameter moved against the gradient:
    // 2.0 + 2 * 2.0 * (-0.1 * 4.0) == 0.4
    assert!(close(state[&0], 0.4));

    // a second step starts from the updated parameter, so its pre-update
    // loss differs
    let next = y
        .gradient_descent(
            &g,
            &backend,
            &mut state,
            &HashMap::new(),
            0.1,
            |t: f64| t,
            |lr: f64, l: f64| -lr * l,
        )
        .unwrap();
    assert!(close(next, 0.4 * 0.4));
}
