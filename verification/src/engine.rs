//! Scalar nodes and reverse-mode differentiation over expression trees.
//!
//! A [`Value`] is one scalar of a computation together with the gradient
//! accumulated for it and a record of how it was produced. Every combinator
//! takes its operands by value, so a node has at most one parent and the
//! nodes reachable from any node form a tree. [`Value::backprop`] walks that
//! tree once and adds to every node the derivative of the root with respect
//! to it.
use vstd::prelude::*;

verus! {

/// The scalar arithmetic the engine is generic over.
///
/// Each operation has a specification function that says which scalar it
/// returns; the contracts of the engine are stated over these. The laws at
/// the end are the few algebraic facts that the statements about gradients
/// rest on. An implementation fixes the meaning of overflow, of undefined
/// powers and of values that compare with nothing; the engine passes such
/// values through unchanged.
pub trait MathOps: Copy {
    /// The additive identity.
    spec fn zero_spec() -> Self;

    /// The multiplicative identity.
    spec fn one_spec() -> Self;

    /// `self + rhs`.
    spec fn add_spec(self, rhs: Self) -> Self;

    /// `self - rhs`.
    spec fn sub_spec(self, rhs: Self) -> Self;

    /// `self * rhs`.
    spec fn mul_spec(self, rhs: Self) -> Self;

    /// `-self`.
    spec fn neg_spec(self) -> Self;

    /// `self` raised to `exponent`.
    spec fn pow_spec(self, exponent: Self) -> Self;

    /// `self < rhs`.
    spec fn lt_spec(self, rhs: Self) -> bool;

    fn zero() -> (r: Self)
        ensures
            r == Self::zero_spec(),
    ;

    fn one() -> (r: Self)
        ensures
            r == Self::one_spec(),
    ;

    fn add(self, rhs: Self) -> (r: Self)
        ensures
            r == self.add_spec(rhs),
    ;

    fn sub(self, rhs: Self) -> (r: Self)
        ensures
            r == self.sub_spec(rhs),
    ;

    fn mul(self, rhs: Self) -> (r: Self)
        ensures
            r == self.mul_spec(rhs),
    ;

    fn neg(self) -> (r: Self)
        ensures
            r == self.neg_spec(),
    ;

    fn pow(self, exponent: Self) -> (r: Self)
        ensures
            r == self.pow_spec(exponent),
    ;

    fn lt(self, rhs: Self) -> (r: bool)
        ensures
            r == self.lt_spec(rhs),
    ;

    /// Draws a scalar strictly between `low` and `high`. Which one is not
    /// determined: two calls on the same bounds may differ.
    fn sample(low: Self, high: Self) -> (r: Self)
        requires
            exists|x: Self| low.lt_spec(x) && x.lt_spec(high),
        ensures
            low.lt_spec(r),
            r.lt_spec(high),
    ;

    /// Zero is a left identity of addition.
    proof fn law_add_zero(x: Self)
        ensures
            Self::zero_spec().add_spec(x) == x,
    ;

    /// One is a right identity of multiplication.
    proof fn law_mul_one(x: Self)
        ensures
            x.mul_spec(Self::one_spec()) == x,
    ;

    /// The order is strict: no two scalars are each below the other, and so
    /// none is below itself.
    proof fn law_lt_asymmetric(x: Self, y: Self)
        ensures
            !(x.lt_spec(y) && y.lt_spec(x)),
    ;

    /// Zero lies strictly between minus one and one.
    proof fn law_zero_between_units()
        ensures
            Self::one_spec().neg_spec().lt_spec(Self::zero_spec()),
            Self::zero_spec().lt_spec(Self::one_spec()),
    ;
}

/// How a node came to be: the operation and the operands it consumed.
#[derive(Debug)]
pub enum Origin<T: MathOps> {
    /// An input or a parameter: produced by no operation.
    Leaf,
    /// Sum of the two operands.
    Add(Box<Value<T>>, Box<Value<T>>),
    /// Product of the two operands.
    Mul(Box<Value<T>>, Box<Value<T>>),
    /// The operand where it is not below zero, zero elsewhere.
    Relu(Box<Value<T>>),
    /// The operand raised to a constant exponent.
    Pow(Box<Value<T>>, T),
}

/// One scalar of a computation.
#[derive(Debug)]
pub struct Value<T: MathOps> {
    /// The forward value.
    pub data: T,
    /// The gradient accumulated so far. Only `backprop` adds to it.
    pub grad: T,
    /// The operation that produced the node, with the operands it owns.
    pub origin: Origin<T>,
}

impl<T: MathOps> Value<T> {
    /// Number of nodes in the tree rooted here.
    pub open spec fn size(self) -> nat
        decreases self,
    {
        match self.origin {
            Origin::Leaf => 1,
            Origin::Add(l, r) => 1 + l.size() + r.size(),
            Origin::Mul(l, r) => 1 + l.size() + r.size(),
            Origin::Relu(x) => 1 + x.size(),
            Origin::Pow(x, _) => 1 + x.size(),
        }
    }

    /// The operands the node owns, left before right.
    pub open spec fn operands(self) -> Seq<Value<T>> {
        match self.origin {
            Origin::Leaf => seq![],
            Origin::Add(l, r) => seq![*l, *r],
            Origin::Mul(l, r) => seq![*l, *r],
            Origin::Relu(x) => seq![*x],
            Origin::Pow(x, _) => seq![*x],
        }
    }

    /// A fresh node: the given value, no gradient yet, the given origin.
    pub open spec fn fresh(data: T, origin: Origin<T>) -> Value<T> {
        Value { data, grad: T::zero_spec(), origin }
    }

    /// The leaf holding `data`.
    pub open spec fn leaf(data: T) -> Value<T> {
        Self::fresh(data, Origin::Leaf)
    }

    /// `self + rhs` as a node.
    pub open spec fn sum(self, rhs: Value<T>) -> Value<T> {
        Self::fresh(self.data.add_spec(rhs.data), Origin::Add(Box::new(self), Box::new(rhs)))
    }

    /// `self * rhs` as a node.
    pub open spec fn product(self, rhs: Value<T>) -> Value<T> {
        Self::fresh(self.data.mul_spec(rhs.data), Origin::Mul(Box::new(self), Box::new(rhs)))
    }

    /// `max(0, self)` as a node.
    pub open spec fn rectified(self) -> Value<T> {
        Self::fresh(
            if self.data.lt_spec(T::zero_spec()) {
                T::zero_spec()
            } else {
                self.data
            },
            Origin::Relu(Box::new(self)),
        )
    }

    /// `self` raised to the constant `exponent`, as a node.
    pub open spec fn raised(self, exponent: T) -> Value<T> {
        Self::fresh(self.data.pow_spec(exponent), Origin::Pow(Box::new(self), exponent))
    }

    /// `-self`: the product with a leaf holding minus one.
    pub open spec fn negated(self) -> Value<T> {
        self.product(Self::leaf(T::one_spec().neg_spec()))
    }

    /// `self - rhs`: the sum with the negated `rhs`.
    pub open spec fn difference(self, rhs: Value<T>) -> Value<T> {
        self.sum(rhs.negated())
    }

    /// `self / rhs`: the product with `rhs` raised to minus one.
    pub open spec fn quotient(self, rhs: Value<T>) -> Value<T> {
        self.product(rhs.raised(T::one_spec().neg_spec()))
    }

    /// The node with its gradient set back to zero.
    pub open spec fn zeroed(self) -> Value<T> {
        Value { data: self.data, grad: T::zero_spec(), origin: self.origin }
    }

    /// The whole tree with the gradient of every node set back to zero:
    /// what is left are the values and the shape.
    pub open spec fn cleared(self) -> Value<T>
        decreases self,
    {
        Value {
            data: self.data,
            grad: T::zero_spec(),
            origin: match self.origin {
                Origin::Leaf => Origin::Leaf,
                Origin::Add(l, r) => Origin::Add(Box::new(l.cleared()), Box::new(r.cleared())),
                Origin::Mul(l, r) => Origin::Mul(Box::new(l.cleared()), Box::new(r.cleared())),
                Origin::Relu(x) => Origin::Relu(Box::new(x.cleared())),
                Origin::Pow(x, e) => Origin::Pow(Box::new(x.cleared()), e),
            },
        }
    }

    /// What the node's gradient contributes to its left operand, by the
    /// chain rule: the gradient times the derivative of the operation with
    /// respect to that operand. `None` where the operand receives nothing.
    pub open spec fn share_left(self) -> Option<T> {
        let g = self.grad;
        match self.origin {
            Origin::Leaf => None,
            Origin::Add(_, _) => Some(g),
            Origin::Mul(_, r) => Some(r.data.mul_spec(g)),
            Origin::Relu(_) => if T::zero_spec().lt_spec(self.data) {
                Some(g)
            } else {
                None
            },
            Origin::Pow(x, e) => Some(
                e.mul_spec(x.data.pow_spec(e.sub_spec(T::one_spec()))).mul_spec(g),
            ),
        }
    }

    /// What the node's gradient contributes to its right operand.
    pub open spec fn share_right(self) -> Option<T> {
        let g = self.grad;
        match self.origin {
            Origin::Add(_, _) => Some(g),
            Origin::Mul(l, _) => Some(l.data.mul_spec(g)),
            _ => None,
        }
    }

    /// The gradient of the node once `share` has reached it.
    pub open spec fn grad_with(self, share: Option<T>) -> T {
        match share {
            Some(s) => self.grad.add_spec(s),
            None => self.grad,
        }
    }

    /// The node with its gradient set to `grad_with(share)`.
    pub open spec fn credited(self, share: Option<T>) -> Value<T> {
        Value { data: self.data, grad: self.grad_with(share), origin: self.origin }
    }

    /// One step of the chain rule: the node after its gradient has been
    /// handed to the operands it owns. Only the gradients of those operands
    /// change.
    pub open spec fn distributed(self) -> Value<T> {
        let sl = self.share_left();
        let sr = self.share_right();
        Value {
            data: self.data,
            grad: self.grad,
            origin: match self.origin {
                Origin::Leaf => Origin::Leaf,
                Origin::Add(l, r) => Origin::Add(
                    Box::new(l.credited(sl)),
                    Box::new(r.credited(sr)),
                ),
                Origin::Mul(l, r) => Origin::Mul(
                    Box::new(l.credited(sl)),
                    Box::new(r.credited(sr)),
                ),
                Origin::Relu(x) => Origin::Relu(Box::new(x.credited(sl))),
                Origin::Pow(x, e) => Origin::Pow(Box::new(x.credited(sl)), e),
            },
        }
    }

    /// The tree after a gradient of `g` at its root has been propagated to
    /// every node below: the root holds `g`, each operand holds what it held
    /// before plus its share of its parent's final gradient, and so on down.
    /// Values and shape stay as they are.
    pub open spec fn propagated(self, g: T) -> Value<T>
        decreases self,
    {
        let top = Value { data: self.data, grad: g, origin: self.origin };
        let sl = top.share_left();
        let sr = top.share_right();
        Value {
            data: self.data,
            grad: g,
            origin: match self.origin {
                Origin::Leaf => Origin::Leaf,
                Origin::Add(l, r) => Origin::Add(
                    Box::new(l.propagated(l.grad_with(sl))),
                    Box::new(r.propagated(r.grad_with(sr))),
                ),
                Origin::Mul(l, r) => Origin::Mul(
                    Box::new(l.propagated(l.grad_with(sl))),
                    Box::new(r.propagated(r.grad_with(sr))),
                ),
                Origin::Relu(x) => Origin::Relu(Box::new(x.propagated(x.grad_with(sl)))),
                Origin::Pow(x, e) => Origin::Pow(Box::new(x.propagated(x.grad_with(sl))), e),
            },
        }
    }

    /// The node with every operand replaced by its propagation from the
    /// gradient that operand holds.
    spec fn explored_operands(self) -> Value<T> {
        Value {
            data: self.data,
            grad: self.grad,
            origin: match self.origin {
                Origin::Leaf => Origin::Leaf,
                Origin::Add(l, r) => Origin::Add(
                    Box::new(l.propagated(l.grad)),
                    Box::new(r.propagated(r.grad)),
                ),
                Origin::Mul(l, r) => Origin::Mul(
                    Box::new(l.propagated(l.grad)),
                    Box::new(r.propagated(r.grad)),
                ),
                Origin::Relu(x) => Origin::Relu(Box::new(x.propagated(x.grad))),
                Origin::Pow(x, e) => Origin::Pow(Box::new(x.propagated(x.grad)), e),
            },
        }
    }

    /// Propagation looks at a node's value and origin only, so it does not
    /// matter whether a share is added before or handed in as the gradient.
    proof fn lemma_credited(self, share: Option<T>)
        ensures
            self.credited(share).size() == self.size(),
            self.credited(share).propagated(self.grad_with(share)) == self.propagated(
                self.grad_with(share),
            ),
    {
    }

    /// Propagating from a node is one chain-rule step followed by the
    /// propagation from each operand, and each operand is a smaller tree.
    proof fn lemma_explore_step(self)
        ensures
            self.distributed().explored_operands() == self.propagated(self.grad),
            forall|i: int|
                0 <= i < self.distributed().operands().len() ==> (
                #[trigger] self.distributed().operands()[i]).size() < self.size(),
    {
        let sl = self.share_left();
        let sr = self.share_right();
        match self.origin {
            Origin::Leaf => {},
            Origin::Add(l, r) => {
                l.lemma_credited(sl);
                r.lemma_credited(sr);
            },
            Origin::Mul(l, r) => {
                l.lemma_credited(sl);
                r.lemma_credited(sr);
            },
            Origin::Relu(x) => {
                x.lemma_credited(sl);
            },
            Origin::Pow(x, e) => {
                x.lemma_credited(sl);
            },
        }
    }

    /// Creates a leaf: the given value, gradient zero, no origin.
    pub fn new(data: T) -> (v: Value<T>)
        ensures
            v == Self::leaf(data),
    {
        Value { data, grad: T::zero(), origin: Origin::Leaf }
    }

    /// Creates the node an operation produced: the given value, gradient
    /// zero, and the origin that owns the operands.
    pub fn from_op(data: T, origin: Origin<T>) -> (v: Value<T>)
        ensures
            v == Self::fresh(data, origin),
    {
        Value { data, grad: T::zero(), origin }
    }

    /// Differentiates the root with respect to every node of its tree: sets
    /// the root's gradient to one and adds to each node below its share of
    /// its parent's gradient. Gradients already present below the root are
    /// kept and added to, never reset.
    pub fn backprop(&mut self)
        ensures
            *final(self) == old(self).propagated(T::one_spec()),
    {
        self.grad = T::one();
        self.explore();
    }

    /// Propagates the gradient the node holds through the whole tree below.
    fn explore(&mut self)
        ensures
            *final(self) == old(self).propagated(old(self).grad),
        decreases old(self).size(),
    {
        proof {
            old(self).lemma_explore_step();
        }
        self.backward();
        match &mut self.origin {
            Origin::Leaf => {},
            Origin::Add(l, r) => {
                assert(**l == old(self).distributed().operands()[0]);
                assert(**r == old(self).distributed().operands()[1]);
                r.explore();
                l.explore();
            },
            Origin::Mul(l, r) => {
                assert(**l == old(self).distributed().operands()[0]);
                assert(**r == old(self).distributed().operands()[1]);
                r.explore();
                l.explore();
            },
            Origin::Relu(x) => {
                assert(**x == old(self).distributed().operands()[0]);
                x.explore();
            },
            Origin::Pow(x, _) => {
                assert(**x == old(self).distributed().operands()[0]);
                x.explore();
            },
        }
    }

    /// Applies the chain rule at this node: adds to each operand's gradient
    /// its share of the gradient held here.
    fn backward(&mut self)
        ensures
            *final(self) == old(self).distributed(),
    {
        let g = self.grad;
        let data = self.data;
        match &mut self.origin {
            Origin::Leaf => {},
            Origin::Add(l, r) => {
                l.grad = l.grad.add(g);
                r.grad = r.grad.add(g);
            },
            Origin::Mul(l, r) => {
                l.grad = l.grad.add(r.data.mul(g));
                r.grad = r.grad.add(l.data.mul(g));
            },
            Origin::Relu(x) => {
                if T::zero().lt(data) {
                    x.grad = x.grad.add(g);
                }
            },
            Origin::Pow(x, e) => {
                let e: T = *e;
                x.grad = x.grad.add(e.mul(x.data.pow(e.sub(T::one()))).mul(g));
            },
        }
    }

    /// Rectified-linear activation: zero where the operand is below zero,
    /// the operand's value elsewhere.
    pub fn relu(self) -> (out: Value<T>)
        ensures
            out == self.rectified(),
    {
        let value = if self.data.lt(T::zero()) {
            T::zero()
        } else {
            self.data
        };
        Value::from_op(value, Origin::Relu(Box::new(self)))
    }

    /// Sum of two nodes. Both become operands of the result.
    pub fn add(self, rhs: Value<T>) -> (out: Value<T>)
        ensures
            out == self.sum(rhs),
    {
        let data = self.data.add(rhs.data);
        Value::from_op(data, Origin::Add(Box::new(self), Box::new(rhs)))
    }

    /// Product of two nodes. Both become operands of the result.
    pub fn mul(self, rhs: Value<T>) -> (out: Value<T>)
        ensures
            out == self.product(rhs),
    {
        let data = self.data.mul(rhs.data);
        Value::from_op(data, Origin::Mul(Box::new(self), Box::new(rhs)))
    }

    /// The node raised to a constant exponent. The exponent is a plain
    /// scalar and receives no gradient.
    pub fn pow(self, exponent: T) -> (out: Value<T>)
        ensures
            out == self.raised(exponent),
    {
        let data = self.data.pow(exponent);
        Value::from_op(data, Origin::Pow(Box::new(self), exponent))
    }

    /// Negation, as the product with minus one.
    pub fn neg(self) -> (out: Value<T>)
        ensures
            out == self.negated(),
    {
        let minus_one = Value::new(T::one().neg());
        self.mul(minus_one)
    }

    /// Difference, as the sum with the negated right-hand side.
    pub fn sub(self, rhs: Value<T>) -> (out: Value<T>)
        ensures
            out == self.difference(rhs),
    {
        self.add(rhs.neg())
    }

    /// Quotient, as the product with the right-hand side raised to minus
    /// one. What a zero divisor gives is up to the scalar type's power.
    pub fn div(self, rhs: Value<T>) -> (out: Value<T>)
        ensures
            out == self.quotient(rhs),
    {
        let minus_one = T::one().neg();
        self.mul(rhs.pow(minus_one))
    }
}

impl<T: MathOps> Clone for Value<T> {
    /// An independent copy of the whole tree. The copy shares nothing with
    /// the source: gradients propagated into one do not reach the other.
    fn clone(&self) -> (out: Value<T>)
        ensures
            out == *self,
        decreases self,
    {
        let origin = match &self.origin {
            Origin::Leaf => Origin::Leaf,
            Origin::Add(l, r) => Origin::Add(
                Box::new((&**l).clone()),
                Box::new((&**r).clone()),
            ),
            Origin::Mul(l, r) => Origin::Mul(
                Box::new((&**l).clone()),
                Box::new((&**r).clone()),
            ),
            Origin::Relu(x) => Origin::Relu(Box::new((&**x).clone())),
            Origin::Pow(x, e) => Origin::Pow(Box::new((&**x).clone()), *e),
        };
        Value { data: self.data, grad: self.grad, origin }
    }
}

} // verus!
