//! What backpropagation gives for each operation, stated for nodes that
//! enter with a gradient of zero, as every newly built node does.
use crate::engine::{MathOps, Origin, Value};
use vstd::prelude::*;

verus! {

/// The gradient each operand of `v` holds after backpropagation from `v`
/// with gradient `g` at the root: what it held before, plus its share.
pub proof fn lemma_operand_gradients<T: MathOps>(v: Value<T>, g: T)
    ensures
        v.propagated(g).data == v.data,
        v.propagated(g).grad == g,
        v.propagated(g).operands().len() == v.operands().len(),
        forall|i: int|
            0 <= i < v.operands().len() ==> (#[trigger] v.propagated(g).operands()[i]).data
                == v.operands()[i].data,
        v.operands().len() >= 1 ==> v.propagated(g).operands()[0].grad == v.operands()[0].grad_with(
            (Value { data: v.data, grad: g, origin: v.origin }).share_left(),
        ),
        v.operands().len() >= 2 ==> v.propagated(g).operands()[1].grad == v.operands()[1].grad_with(
            (Value { data: v.data, grad: g, origin: v.origin }).share_right(),
        ),
{
    reveal_with_fuel(Value::propagated, 2);
}

/// Backpropagation touches gradients only: the value of every node and the
/// shape of the tree are what they were.
pub proof fn law_values_kept<T: MathOps>(v: Value<T>, g: T)
    ensures
        v.propagated(g).cleared() == v.cleared(),
    decreases v,
{
    let top = Value { data: v.data, grad: g, origin: v.origin };
    let sl = top.share_left();
    let sr = top.share_right();
    match v.origin {
        Origin::Leaf => {},
        Origin::Add(l, r) => {
            law_values_kept(*l, l.grad_with(sl));
            law_values_kept(*r, r.grad_with(sr));
        },
        Origin::Mul(l, r) => {
            law_values_kept(*l, l.grad_with(sl));
            law_values_kept(*r, r.grad_with(sr));
        },
        Origin::Relu(x) => {
            law_values_kept(*x, x.grad_with(sl));
        },
        Origin::Pow(x, _) => {
            law_values_kept(*x, x.grad_with(sl));
        },
    }
}

/// Addition: after backpropagation from `a + b`, the root holds a gradient
/// of one and so does each of the two addends.
pub proof fn law_add_gradients<T: MathOps>(a: Value<T>, b: Value<T>)
    requires
        a.grad == T::zero_spec(),
        b.grad == T::zero_spec(),
    ensures
        ({
            let out = a.sum(b).propagated(T::one_spec());
            &&& out.grad == T::one_spec()
            &&& out.operands().len() == 2
            &&& out.operands()[0].grad == T::one_spec()
            &&& out.operands()[1].grad == T::one_spec()
        }),
{
    lemma_operand_gradients(a.sum(b), T::one_spec());
    T::law_add_zero(T::one_spec());
}

/// Multiplication: after backpropagation from `a * b`, each factor holds
/// the value of the other as its gradient.
pub proof fn law_mul_gradients<T: MathOps>(a: Value<T>, b: Value<T>)
    requires
        a.grad == T::zero_spec(),
        b.grad == T::zero_spec(),
    ensures
        ({
            let out = a.product(b).propagated(T::one_spec());
            &&& out.operands().len() == 2
            &&& out.operands()[0].grad == b.data
            &&& out.operands()[1].grad == a.data
        }),
{
    lemma_operand_gradients(a.product(b), T::one_spec());
    T::law_mul_one(a.data);
    T::law_mul_one(b.data);
    T::law_add_zero(a.data);
    T::law_add_zero(b.data);
}

/// Rectifier: after backpropagation from `relu(x)`, the operand holds the
/// gradient of the root where its value is above zero, and zero where it is
/// not; at zero itself nothing is passed down.
pub proof fn law_relu_gradient<T: MathOps>(x: Value<T>)
    requires
        x.grad == T::zero_spec(),
    ensures
        ({
            let out = x.rectified().propagated(T::one_spec());
            &&& out.operands().len() == 1
            &&& T::zero_spec().lt_spec(x.data) ==> out.operands()[0].grad == out.grad
            &&& !T::zero_spec().lt_spec(x.data) ==> out.operands()[0].grad == T::zero_spec()
        }),
{
    lemma_operand_gradients(x.rectified(), T::one_spec());
    T::law_add_zero(T::one_spec());
    T::law_lt_asymmetric(T::zero_spec(), x.data);
    T::law_lt_asymmetric(T::zero_spec(), T::zero_spec());
}

/// Power rule: after backpropagation from `x` raised to the constant `e`,
/// the operand holds `e * x^(e - 1)` times the gradient of the root.
pub proof fn law_pow_gradient<T: MathOps>(x: Value<T>, e: T)
    requires
        x.grad == T::zero_spec(),
    ensures
        ({
            let out = x.raised(e).propagated(T::one_spec());
            &&& out.operands().len() == 1
            &&& out.operands()[0].grad == e.mul_spec(
                x.data.pow_spec(e.sub_spec(T::one_spec())),
            ).mul_spec(out.grad)
        }),
{
    lemma_operand_gradients(x.raised(e), T::one_spec());
    T::law_add_zero(
        e.mul_spec(x.data.pow_spec(e.sub_spec(T::one_spec()))).mul_spec(T::one_spec()),
    );
}

/// Gradients are never reset: a second backpropagation from the same root
/// adds to what the first left. An operand of the root that entered with a
/// gradient of zero then holds its gradient of the first pass twice over.
pub proof fn law_second_pass_doubles<T: MathOps>(v: Value<T>, i: int)
    requires
        0 <= i < v.operands().len(),
        v.operands()[i].grad == T::zero_spec(),
    ensures
        ({
            let once = v.propagated(T::one_spec());
            let twice = once.propagated(T::one_spec());
            &&& once.operands().len() == v.operands().len()
            &&& twice.operands().len() == v.operands().len()
            &&& twice.grad == once.grad
            &&& twice.operands()[i].grad == once.operands()[i].grad.add_spec(
                once.operands()[i].grad,
            )
        }),
{
    let one = T::one_spec();
    let once = v.propagated(one);
    lemma_operand_gradients(v, one);
    lemma_operand_gradients(once, one);
    let top = Value { data: v.data, grad: one, origin: v.origin };
    let share = if i == 0 {
        top.share_left()
    } else {
        top.share_right()
    };
    match share {
        Some(s) => {
            T::law_add_zero(s);
        },
        None => {
            T::law_add_zero(T::zero_spec());
        },
    }
}

} // verus!
