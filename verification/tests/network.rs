use minigrad::engine::{MathOps, Origin, Value};
use minigrad::integer::Integer;
use minigrad::{InvalidTopology, Layer, Neuron, MLP};

fn num(x: i64) -> Integer {
    Integer::new(x)
}

fn is_fresh_leaf(v: &Value<Integer>) -> bool {
    matches!(v.origin, Origin::Leaf) && v.grad == num(0)
}

fn in_unit_range(w: Integer) -> bool {
    Integer::one().neg().lt(w) && w.lt(Integer::one())
}

fn check_fresh_neuron(n: &Neuron<Integer>, inputs: usize, non_linear: bool) {
    assert_eq!(n.weights.len(), inputs);
    assert_eq!(n.non_linear, non_linear);
    for w in &n.weights {
        assert!(is_fresh_leaf(w));
        assert!(in_unit_range(w.data));
        // Zero is the one integer strictly between minus one and one.
        assert_eq!(w.data, num(0));
    }
    assert!(is_fresh_leaf(&n.bias));
    assert_eq!(n.bias.data, num(0));
}

/// Gives every parameter a gradient of its own, so that a reset shows.
fn stain(net: &mut MLP<Integer>) {
    let mut k = 1;
    for layer in &mut net.layers {
        for neuron in &mut layer.neurons {
            for w in &mut neuron.weights {
                w.grad = num(k);
                k += 1;
            }
            neuron.bias.grad = num(-k);
            k += 1;
        }
    }
}

#[test]
fn neuron_new_draws_unit_weights() {
    let n: Neuron<Integer> = Neuron::new(6, true);
    check_fresh_neuron(&n, 6, true);
    let n: Neuron<Integer> = Neuron::new(0, false);
    check_fresh_neuron(&n, 0, false);
}

#[test]
fn neuron_from_weights_holds_them_in_order() {
    let n = Neuron::from_weights(vec![num(4), num(-7), num(0)], false);
    assert_eq!(n.weights.len(), 3);
    assert_eq!(n.weights[0].data, num(4));
    assert_eq!(n.weights[1].data, num(-7));
    assert_eq!(n.weights[2].data, num(0));
    assert!(n.weights.iter().all(is_fresh_leaf));
    assert!(is_fresh_leaf(&n.bias));
    assert_eq!(n.bias.data, num(0));
    assert!(!n.non_linear);
}

#[test]
fn neuron_parameters_are_weights_then_bias() {
    let mut n = Neuron::from_weights(vec![num(4), num(-7)], true);
    n.bias.data = num(9);
    let params = n.parameters();
    assert_eq!(params.len(), 3);
    assert_eq!(params[0].data, num(4));
    assert_eq!(params[1].data, num(-7));
    assert_eq!(params[2].data, num(9));
    let again = n.parameters();
    assert_eq!(again.len(), 3);
    for i in 0..3 {
        assert!(std::ptr::eq(params[i], again[i]));
    }
    assert!(std::ptr::eq(params[0], &n.weights[0]));
    assert!(std::ptr::eq(params[2], &n.bias));
}

#[test]
fn neuron_zero_grad_resets_every_gradient() {
    let mut n = Neuron::from_weights(vec![num(4), num(-7)], true);
    n.weights[0].grad = num(11);
    n.weights[1].grad = Integer { value: None };
    n.bias.grad = num(-5);
    n.zero_grad();
    assert_eq!(n.weights[0].grad, num(0));
    assert_eq!(n.weights[1].grad, num(0));
    assert_eq!(n.bias.grad, num(0));
    assert_eq!(n.weights[0].data, num(4));
    assert_eq!(n.weights[1].data, num(-7));
    assert_eq!(n.bias.data, num(0));
    assert!(n.non_linear);
    assert_eq!(n.weights.len(), 2);
}

#[test]
fn layer_new_builds_equal_neurons() {
    let l: Layer<Integer> = Layer::new(3, 4, true);
    assert_eq!(l.neurons.len(), 4);
    for n in &l.neurons {
        check_fresh_neuron(n, 3, true);
    }
    let l: Layer<Integer> = Layer::new(5, 0, false);
    assert_eq!(l.neurons.len(), 0);
    assert_eq!(l.parameters().len(), 0);
}

#[test]
fn layer_parameters_go_neuron_by_neuron() {
    let mut l: Layer<Integer> = Layer::new(2, 3, false);
    for (i, n) in l.neurons.iter_mut().enumerate() {
        let base = 10 * i as i64;
        n.weights[0].data = num(base);
        n.weights[1].data = num(base + 1);
        n.bias.data = num(base + 2);
    }
    let params = l.parameters();
    let values: Vec<Integer> = params.iter().map(|v| v.data).collect();
    let expected: Vec<Integer> =
        [0, 1, 2, 10, 11, 12, 20, 21, 22].iter().map(|x| num(*x)).collect();
    assert_eq!(values, expected);
    assert!(std::ptr::eq(params[5], &l.neurons[1].bias));
}

#[test]
fn layer_zero_grad_resets_every_gradient() {
    let mut l: Layer<Integer> = Layer::new(2, 3, true);
    for n in &mut l.neurons {
        n.weights[0].grad = num(3);
        n.weights[1].grad = num(-3);
        n.bias.grad = num(8);
        n.bias.data = num(1);
    }
    l.zero_grad();
    assert_eq!(l.neurons.len(), 3);
    for n in &l.neurons {
        assert_eq!(n.weights.len(), 2);
        assert_eq!(n.weights[0].grad, num(0));
        assert_eq!(n.weights[1].grad, num(0));
        assert_eq!(n.bias.grad, num(0));
        assert_eq!(n.bias.data, num(1));
        assert!(n.non_linear);
    }
}

#[test]
fn mlp_new_refuses_fewer_than_two_widths() {
    assert_eq!(MLP::<Integer>::new(&[]).err(), Some(InvalidTopology));
    assert_eq!(MLP::<Integer>::new(&[3]).err(), Some(InvalidTopology));
    assert!(MLP::<Integer>::new(&[3, 1]).is_ok());
}

#[test]
fn mlp_new_builds_one_layer_per_pair_of_widths() {
    let net = MLP::<Integer>::new(&[3, 4, 4, 1]).expect("four widths describe three layers");
    assert_eq!(net.layers.len(), 3);
    let shapes = [(3, 4, true), (4, 4, true), (4, 1, false)];
    for (layer, (inputs, outputs, non_linear)) in net.layers.iter().zip(shapes) {
        assert_eq!(layer.neurons.len(), outputs);
        for n in &layer.neurons {
            check_fresh_neuron(n, inputs, non_linear);
        }
    }
}

#[test]
fn mlp_with_a_single_layer_is_linear() {
    let net = MLP::<Integer>::new(&[2, 5]).expect("two widths describe one layer");
    assert_eq!(net.layers.len(), 1);
    assert_eq!(net.layers[0].neurons.len(), 5);
    for n in &net.layers[0].neurons {
        check_fresh_neuron(n, 2, false);
    }
}

#[test]
fn mlp_parameter_count() {
    let net = MLP::<Integer>::new(&[3, 4, 4, 1]).expect("valid widths");
    // (3 + 1) * 4 + (4 + 1) * 4 + (4 + 1) * 1
    assert_eq!(net.parameters().len(), 41);
    let net = MLP::<Integer>::new(&[2, 5]).expect("valid widths");
    assert_eq!(net.parameters().len(), 15);
    let net = MLP::<Integer>::new(&[7, 0, 3]).expect("valid widths");
    // (7 + 1) * 0 + (0 + 1) * 3
    assert_eq!(net.parameters().len(), 3);
    let net = MLP::<Integer>::new(&[0, 0]).expect("valid widths");
    assert_eq!(net.parameters().len(), 0);
}

#[test]
fn mlp_parameters_go_layer_by_layer() {
    let mut net = MLP::<Integer>::new(&[1, 2, 1]).expect("valid widths");
    let mut k = 0;
    for layer in &mut net.layers {
        for neuron in &mut layer.neurons {
            for w in &mut neuron.weights {
                w.data = num(k);
                k += 1;
            }
            neuron.bias.data = num(k);
            k += 1;
        }
    }
    let params = net.parameters();
    assert_eq!(params.len(), 7);
    for (i, p) in params.iter().enumerate() {
        assert_eq!(p.data, num(i as i64));
    }
    assert!(std::ptr::eq(params[0], &net.layers[0].neurons[0].weights[0]));
    assert!(std::ptr::eq(params[3], &net.layers[0].neurons[1].bias));
    assert!(std::ptr::eq(params[4], &net.layers[1].neurons[0].weights[0]));
    assert!(std::ptr::eq(params[6], &net.layers[1].neurons[0].bias));
    let again = net.parameters();
    assert_eq!(again.len(), 7);
    for i in 0..7 {
        assert!(std::ptr::eq(params[i], again[i]));
    }
}

#[test]
fn mlp_zero_grad_resets_every_parameter() {
    let mut net = MLP::<Integer>::new(&[3, 4, 4, 1]).expect("valid widths");
    stain(&mut net);
    let before: Vec<Integer> = net.parameters().iter().map(|v| v.data).collect();
    assert!(net.parameters().iter().all(|v| v.grad != num(0)));
    net.zero_grad();
    let after = net.parameters();
    assert_eq!(after.len(), 41);
    for (p, data) in after.iter().zip(&before) {
        assert_eq!(p.grad, num(0));
        assert_eq!(p.data, *data);
        assert!(matches!(p.origin, Origin::Leaf));
    }
    assert_eq!(net.layers.len(), 3);
    assert!(net.layers[0].neurons[0].non_linear);
    assert!(!net.layers[2].neurons[0].non_linear);
}

#[test]
fn mlp_zero_grad_twice_is_the_same_as_once() {
    let mut net = MLP::<Integer>::new(&[2, 2]).expect("valid widths");
    stain(&mut net);
    net.zero_grad();
    net.zero_grad();
    assert!(net.parameters().iter().all(|v| v.grad == num(0)));
}
