//! A neuron: the trainable parameters of one unit of a layer.
use crate::engine::{MathOps, Value};
use vstd::prelude::*;

verus! {

/// Whether `w` lies in the range that initial weights are drawn from:
/// strictly between minus one and one.
pub open spec fn in_unit_range<T: MathOps>(w: T) -> bool {
    T::one_spec().neg_spec().lt_spec(w) && w.lt_spec(T::one_spec())
}

/// A neuron as a mathematical value.
pub struct NeuronView<T: MathOps> {
    /// The weight nodes, one per input, in input order.
    pub weights: Seq<Value<T>>,
    /// The bias node.
    pub bias: Value<T>,
    /// Whether the neuron's output passes through the rectifier.
    pub non_linear: bool,
}

impl<T: MathOps> NeuronView<T> {
    /// Every parameter the neuron owns: the weights in order, then the bias.
    pub open spec fn params(self) -> Seq<Value<T>> {
        self.weights.push(self.bias)
    }

    /// The neuron with the given weights as it stands right after
    /// construction: every parameter a leaf without gradient, the bias zero.
    pub open spec fn initial(weights: Seq<T>, non_linear: bool) -> NeuronView<T> {
        NeuronView {
            weights: weights.map_values(|w: T| Value::leaf(w)),
            bias: Value::leaf(T::zero_spec()),
            non_linear,
        }
    }

    /// The values the weights hold.
    pub open spec fn weight_data(self) -> Seq<T> {
        self.weights.map_values(|v: Value<T>| v.data)
    }

    /// Whether this is a freshly drawn neuron of `inputs` inputs: initial
    /// for the weights it holds, each of them in the unit range.
    pub open spec fn is_fresh(self, inputs: nat, non_linear: bool) -> bool {
        &&& self.weights.len() == inputs
        &&& self == Self::initial(self.weight_data(), non_linear)
        &&& forall|i: int| 0 <= i < self.weights.len() ==> in_unit_range(#[trigger] self.weights[i].data)
    }

    /// Every parameter is a leaf.
    pub open spec fn well_formed(self) -> bool {
        forall|i: int| 0 <= i < self.params().len() ==> (#[trigger] self.params()[i]).origin is Leaf
    }

    /// The neuron with the gradient of every parameter set back to zero.
    pub open spec fn zeroed(self) -> NeuronView<T> {
        NeuronView {
            weights: self.weights.map_values(|v: Value<T>| v.zeroed()),
            bias: self.bias.zeroed(),
            non_linear: self.non_linear,
        }
    }

    /// Setting gradients back changes no leaf into something else.
    pub proof fn lemma_zeroed_well_formed(self)
        requires
            self.well_formed(),
        ensures
            self.zeroed().well_formed(),
    {
        assert forall|i: int| 0 <= i < self.zeroed().params().len() implies (
        #[trigger] self.zeroed().params()[i]).origin is Leaf by {
            assert(self.zeroed().params()[i] == self.params()[i].zeroed());
        }
    }

    /// A freshly drawn neuron is well formed.
    pub proof fn lemma_fresh_well_formed(self, inputs: nat, non_linear: bool)
        requires
            self.is_fresh(inputs, non_linear),
        ensures
            self.well_formed(),
    {
    }
}

/// A fixed number of weights, one bias, and the activation flag.
#[derive(Debug)]
pub struct Neuron<T: MathOps> {
    pub weights: Vec<Value<T>>,
    pub bias: Value<T>,
    pub non_linear: bool,
}

impl<T: MathOps> View for Neuron<T> {
    type V = NeuronView<T>;

    open spec fn view(&self) -> NeuronView<T> {
        NeuronView { weights: self.weights@, bias: self.bias, non_linear: self.non_linear }
    }
}

impl<T: MathOps> Neuron<T> {
    /// Creates a neuron of `inputs` inputs with weights drawn independently
    /// from the unit range and a bias of zero.
    pub fn new(inputs: usize, non_linear: bool) -> (n: Neuron<T>)
        ensures
            n@.is_fresh(inputs as nat, non_linear),
            n@.well_formed(),
    {
        let low = T::one().neg();
        let high = T::one();
        let mut drawn: Vec<T> = Vec::new();
        let mut i: usize = 0;
        while i < inputs
            invariant
                i <= inputs,
                drawn@.len() == i,
                low == T::one_spec().neg_spec(),
                high == T::one_spec(),
                forall|j: int| 0 <= j < i ==> in_unit_range(#[trigger] drawn@[j]),
            decreases inputs - i,
        {
            proof {
                T::law_zero_between_units();
            }
            let w = T::sample(low, high);
            drawn.push(w);
            i += 1;
        }
        let n = Neuron::from_weights(drawn, non_linear);
        assert(n@.weight_data() =~= drawn@);
        n
    }

    /// Creates the neuron whose weights hold the given values, with a bias
    /// of zero.
    pub fn from_weights(values: Vec<T>, non_linear: bool) -> (n: Neuron<T>)
        ensures
            n@ == NeuronView::initial(values@, non_linear),
            n@.well_formed(),
    {
        let mut weights: Vec<Value<T>> = Vec::new();
        let count = values.len();
        let mut i: usize = 0;
        while i < count
            invariant
                i <= count,
                count == values@.len(),
                weights@.len() == i,
                forall|j: int| 0 <= j < i ==> weights@[j] == Value::leaf(values@[j]),
            decreases count - i,
        {
            weights.push(Value::new(values[i]));
            i += 1;
        }
        assert(weights@ =~= values@.map_values(|w: T| Value::leaf(w)));
        Neuron { weights, bias: Value::new(T::zero()), non_linear }
    }

    /// Sets the gradient of every weight and of the bias to zero. Values
    /// are kept.
    pub fn zero_grad(&mut self)
        ensures
            final(self)@ == old(self)@.zeroed(),
            old(self)@.well_formed() ==> final(self)@.well_formed(),
    {
        let count = self.weights.len();
        let mut i: usize = 0;
        while i < count
            invariant
                i <= count,
                count == self.weights@.len(),
                count == old(self).weights@.len(),
                self.bias == old(self).bias,
                self.non_linear == old(self).non_linear,
                forall|j: int| 0 <= j < i ==> self.weights@[j] == old(self).weights@[j].zeroed(),
                forall|j: int| i <= j < count ==> self.weights@[j] == old(self).weights@[j],
            decreases count - i,
        {
            self.weights[i].grad = T::zero();
            i += 1;
        }
        self.bias.grad = T::zero();
        assert(self.weights@ =~= old(self)@.zeroed().weights);
        proof {
            if old(self)@.well_formed() {
                old(self)@.lemma_zeroed_well_formed();
            }
        }
    }

    /// Every parameter the neuron owns, the weights in order and then the
    /// bias. The order is the same on every call.
    pub fn parameters(&self) -> (out: Vec<&Value<T>>)
        ensures
            out@.map_values(|v: &Value<T>| *v) == self@.params(),
    {
        let mut out: Vec<&Value<T>> = Vec::new();
        let count = self.weights.len();
        let mut i: usize = 0;
        while i < count
            invariant
                i <= count,
                count == self.weights@.len(),
                out@.len() == i,
                forall|j: int| 0 <= j < i ==> *out@[j] == self.weights@[j],
            decreases count - i,
        {
            out.push(&self.weights[i]);
            i += 1;
        }
        out.push(&self.bias);
        assert(out@.map_values(|v: &Value<T>| *v) =~= self@.params());
        out
    }
}

} // verus!
