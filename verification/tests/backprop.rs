use minigrad::engine::{MathOps, Origin, Value};
use minigrad::MLP;
use rand::Rng;

/// Double-precision scalars, with the arithmetic of the machine. What each
/// operation is specified to return is what the machine computes.
#[derive(Debug, Clone, Copy, PartialEq)]
struct Real(f64);

impl MathOps for Real {
    fn zero_spec() -> Self {
        Self::zero()
    }

    fn one_spec() -> Self {
        Self::one()
    }

    fn add_spec(self, rhs: Self) -> Self {
        self.add(rhs)
    }

    fn sub_spec(self, rhs: Self) -> Self {
        self.sub(rhs)
    }

    fn mul_spec(self, rhs: Self) -> Self {
        self.mul(rhs)
    }

    fn neg_spec(self) -> Self {
        self.neg()
    }

    fn pow_spec(self, exponent: Self) -> Self {
        self.pow(exponent)
    }

    fn lt_spec(self, rhs: Self) -> bool {
        self.lt(rhs)
    }

    fn law_add_zero(_x: Self) {}

    fn law_mul_one(_x: Self) {}

    fn law_lt_asymmetric(_x: Self, _y: Self) {}

    fn law_zero_between_units() {}

    fn zero() -> Self {
        Real(0.0)
    }

    fn one() -> Self {
        Real(1.0)
    }

    fn add(self, rhs: Self) -> Self {
        Real(self.0 + rhs.0)
    }

    fn sub(self, rhs: Self) -> Self {
        Real(self.0 - rhs.0)
    }

    fn mul(self, rhs: Self) -> Self {
        Real(self.0 * rhs.0)
    }

    fn neg(self) -> Self {
        Real(-self.0)
    }

    fn pow(self, exponent: Self) -> Self {
        Real(num_traits::Pow::pow(self.0, exponent.0))
    }

    fn lt(self, rhs: Self) -> bool {
        self.0 < rhs.0
    }

    fn sample(low: Self, high: Self) -> Self {
        let mut rng = rand::thread_rng();
        loop {
            let drawn = rng.gen_range(low.0..high.0);
            if low.0 < drawn {
                return Real(drawn);
            }
        }
    }
}

fn operands(v: &Value<Real>) -> Vec<&Value<Real>> {
    match &v.origin {
        Origin::Leaf => vec![],
        Origin::Add(l, r) | Origin::Mul(l, r) => vec![&**l, &**r],
        Origin::Relu(x) | Origin::Pow(x, _) => vec![&**x],
    }
}

#[test]
fn backprop() {
    let a = Value::new(Real(2.0));
    let b = Value::new(Real(-3.0));
    let c = Value::new(Real(10.0));
    let e = a.mul(b);
    let d = e.add(c);
    let f = Value::new(Real(-2.0));
    let mut g = d.mul(f);
    g.backprop();
    println!("{:?}", g);

    assert_eq!(g.data, Real(-8.0));
    assert_eq!(g.grad, Real(1.0));
    let (d, f) = (operands(&g)[0], operands(&g)[1]);
    assert_eq!(d.data, Real(4.0));
    assert_eq!(d.grad, Real(-2.0));
    assert_eq!(f.grad, Real(4.0));
    let (e, c) = (operands(d)[0], operands(d)[1]);
    assert_eq!(e.data, Real(-6.0));
    assert_eq!(e.grad, Real(-2.0));
    assert_eq!(c.grad, Real(-2.0));
    let (a, b) = (operands(e)[0], operands(e)[1]);
    assert_eq!(a.grad, Real(6.0));
    assert_eq!(b.grad, Real(-4.0));
}

#[test]
fn real_division_and_power_rule() {
    let x = Value::new(Real(4.0));
    let y = Value::new(Real(8.0));
    let mut q = y.div(x);
    assert_eq!(q.data, Real(2.0));
    q.backprop();
    let (y, inv) = (operands(&q)[0], operands(&q)[1]);
    assert_eq!(y.grad, Real(0.25));
    assert_eq!(inv.data, Real(0.25));
    assert_eq!(inv.grad, Real(8.0));
    let x = operands(inv)[0];
    // d(8 / x)/dx = -8 / x^2
    assert_eq!(x.grad, Real(-0.5));
}

#[test]
fn real_division_by_zero_is_passed_through() {
    let q = Value::new(Real(1.0)).div(Value::new(Real(0.0)));
    assert!(q.data.0.is_infinite());
    let r = Value::new(Real(-8.0)).pow(Real(0.5));
    assert!(r.data.0.is_nan());
}

#[test]
fn real_samples_lie_in_the_range() {
    for _ in 0..200 {
        let w = Real::sample(Real(-1.0), Real(1.0));
        assert!(-1.0 < w.0 && w.0 < 1.0);
    }
}

#[test]
fn real_network_draws_weights_strictly_inside_the_unit_range() {
    let mut net = MLP::<Real>::new(&[3, 4, 1]).expect("three widths describe two layers");
    let mut weights = Vec::new();
    for layer in &net.layers {
        for neuron in &layer.neurons {
            for w in &neuron.weights {
                assert!(-1.0 < w.data.0 && w.data.0 < 1.0);
                assert_eq!(w.grad, Real(0.0));
                assert!(matches!(w.origin, Origin::Leaf));
                weights.push(w.data.0);
            }
            assert_eq!(neuron.bias.data, Real(0.0));
            assert_eq!(neuron.bias.grad, Real(0.0));
        }
    }
    assert_eq!(weights.len(), 16);
    assert!(weights.iter().any(|w| *w != weights[0]));
    // (3 + 1) * 4 + (4 + 1) * 1
    assert_eq!(net.parameters().len(), 21);

    net.layers[0].neurons[2].weights[1].grad = Real(0.75);
    net.layers[1].neurons[0].bias.grad = Real(-4.0);
    net.zero_grad();
    assert!(net.parameters().iter().all(|p| p.grad == Real(0.0)));
    let kept: Vec<f64> = net
        .layers
        .iter()
        .flat_map(|l| l.neurons.iter())
        .flat_map(|n| n.weights.iter())
        .map(|w| w.data.0)
        .collect();
    assert_eq!(kept, weights);
}
