//! A layer: neurons that read the same inputs.
use crate::engine::{MathOps, Value};
use crate::neuron::{Neuron, NeuronView};
use vstd::prelude::*;

verus! {

/// The parameters of a run of neurons: those of the first neuron, then
/// those of the second, and so on.
pub open spec fn layer_params<T: MathOps>(neurons: Seq<NeuronView<T>>) -> Seq<Value<T>>
    decreases neurons.len(),
{
    if neurons.len() == 0 {
        Seq::empty()
    } else {
        layer_params(neurons.drop_last()) + neurons.last().params()
    }
}

/// How many parameters a run of neurons holds: one per weight and one more
/// per neuron.
pub open spec fn layer_param_count<T: MathOps>(neurons: Seq<NeuronView<T>>) -> nat
    decreases neurons.len(),
{
    if neurons.len() == 0 {
        0
    } else {
        layer_param_count(neurons.drop_last()) + neurons.last().weights.len() + 1
    }
}

/// The neurons with the gradient of every parameter set back to zero.
pub open spec fn layer_zeroed<T: MathOps>(neurons: Seq<NeuronView<T>>) -> Seq<NeuronView<T>> {
    neurons.map_values(|n: NeuronView<T>| n.zeroed())
}

/// Whether these are `outputs` freshly drawn neurons of `inputs` inputs
/// each, all with the same activation flag.
pub open spec fn layer_is_fresh<T: MathOps>(
    neurons: Seq<NeuronView<T>>,
    inputs: nat,
    outputs: nat,
    non_linear: bool,
) -> bool {
    &&& neurons.len() == outputs
    &&& forall|i: int| 0 <= i < neurons.len() ==> (#[trigger] neurons[i]).is_fresh(inputs, non_linear)
}

/// Every neuron is well formed, and all read the same number of inputs.
pub open spec fn layer_well_formed<T: MathOps>(neurons: Seq<NeuronView<T>>) -> bool {
    &&& forall|i: int| 0 <= i < neurons.len() ==> (#[trigger] neurons[i]).well_formed()
    &&& forall|i: int, j: int|
        0 <= i < neurons.len() && 0 <= j < neurons.len() ==> (#[trigger] neurons[i]).weights.len()
            == (#[trigger] neurons[j]).weights.len()
}

/// The parameters of a run of neurons are as many as `layer_param_count`
/// says.
pub proof fn lemma_layer_params_len<T: MathOps>(neurons: Seq<NeuronView<T>>)
    ensures
        layer_params(neurons).len() == layer_param_count(neurons),
    decreases neurons.len(),
{
    if neurons.len() > 0 {
        lemma_layer_params_len(neurons.drop_last());
    }
}

/// A run of `outputs` neurons with `inputs` weights each holds
/// `(inputs + 1) * outputs` parameters.
pub proof fn lemma_layer_param_count_uniform<T: MathOps>(
    neurons: Seq<NeuronView<T>>,
    inputs: nat,
)
    requires
        forall|i: int| 0 <= i < neurons.len() ==> (#[trigger] neurons[i]).weights.len() == inputs,
    ensures
        layer_param_count(neurons) == (inputs + 1) * neurons.len(),
    decreases neurons.len(),
{
    if neurons.len() > 0 {
        lemma_layer_param_count_uniform(neurons.drop_last(), inputs);
        assert((inputs + 1) * (neurons.len() - 1) + inputs + 1 == (inputs + 1) * neurons.len())
            by (nonlinear_arith);
    } else {
        assert((inputs + 1) * 0 == 0) by (nonlinear_arith);
    }
}

/// After its gradients are set back, a run of neurons holds as many
/// parameters as before, each with its value and origin kept and a gradient
/// of zero.
pub proof fn lemma_layer_zeroed_params<T: MathOps>(neurons: Seq<NeuronView<T>>)
    ensures
        layer_params(layer_zeroed(neurons)) == layer_params(neurons).map_values(
            |v: Value<T>| v.zeroed(),
        ),
    decreases neurons.len(),
{
    let z = layer_zeroed(neurons);
    if neurons.len() > 0 {
        lemma_layer_zeroed_params(neurons.drop_last());
        assert(z.drop_last() =~= layer_zeroed(neurons.drop_last()));
        assert(z.last().params() =~= neurons.last().params().map_values(
            |v: Value<T>| v.zeroed(),
        ));
    }
    assert(layer_params(z) =~= layer_params(neurons).map_values(|v: Value<T>| v.zeroed()));
}

/// Freshly drawn neurons form a well-formed layer.
pub proof fn lemma_layer_fresh_well_formed<T: MathOps>(
    neurons: Seq<NeuronView<T>>,
    inputs: nat,
    outputs: nat,
    non_linear: bool,
)
    requires
        layer_is_fresh(neurons, inputs, outputs, non_linear),
    ensures
        layer_well_formed(neurons),
{
    assert forall|i: int| 0 <= i < neurons.len() implies (#[trigger] neurons[i]).well_formed() by {
        neurons[i].lemma_fresh_well_formed(inputs, non_linear);
    }
}

/// Setting gradients back keeps a layer well formed.
pub proof fn lemma_layer_zeroed_well_formed<T: MathOps>(neurons: Seq<NeuronView<T>>)
    requires
        layer_well_formed(neurons),
    ensures
        layer_well_formed(layer_zeroed(neurons)),
{
    let z = layer_zeroed(neurons);
    assert forall|i: int| 0 <= i < z.len() implies (#[trigger] z[i]).well_formed() by {
        assert(neurons[i].well_formed());
        neurons[i].lemma_zeroed_well_formed();
    }
    assert forall|i: int, j: int| 0 <= i < z.len() && 0 <= j < z.len() implies (
    #[trigger] z[i]).weights.len() == (#[trigger] z[j]).weights.len() by {
        assert(neurons[i].weights.len() == neurons[j].weights.len());
    }
}

/// An ordered sequence of neurons of equal input arity.
#[derive(Debug)]
pub struct Layer<T: MathOps> {
    pub neurons: Vec<Neuron<T>>,
}

impl<T: MathOps> View for Layer<T> {
    type V = Seq<NeuronView<T>>;

    open spec fn view(&self) -> Seq<NeuronView<T>> {
        self.neurons@.map_values(|n: Neuron<T>| n@)
    }
}

impl<T: MathOps> Layer<T> {
    /// Creates a layer of `outputs` freshly drawn neurons, each reading
    /// `inputs` inputs and carrying the given activation flag.
    pub fn new(inputs: usize, outputs: usize, non_linear: bool) -> (layer: Layer<T>)
        ensures
            layer_is_fresh(layer@, inputs as nat, outputs as nat, non_linear),
            layer_well_formed(layer@),
    {
        let mut neurons: Vec<Neuron<T>> = Vec::new();
        let mut i: usize = 0;
        while i < outputs
            invariant
                i <= outputs,
                neurons@.len() == i,
                forall|j: int| 0 <= j < i ==> (#[trigger] neurons@[j])@.is_fresh(inputs as nat, non_linear),
            decreases outputs - i,
        {
            neurons.push(Neuron::new(inputs, non_linear));
            i += 1;
        }
        let layer = Layer { neurons };
        proof {
            lemma_layer_fresh_well_formed(layer@, inputs as nat, outputs as nat, non_linear);
        }
        layer
    }

    /// Sets the gradient of every parameter of every neuron to zero.
    pub fn zero_grad(&mut self)
        ensures
            final(self)@ == layer_zeroed(old(self)@),
            layer_well_formed(old(self)@) ==> layer_well_formed(final(self)@),
    {
        let count = self.neurons.len();
        let mut i: usize = 0;
        while i < count
            invariant
                i <= count,
                count == self.neurons@.len(),
                count == old(self).neurons@.len(),
                forall|j: int| 0 <= j < i ==> (#[trigger] self.neurons@[j])@ == old(self).neurons@[j]@.zeroed(),
                forall|j: int| i <= j < count ==> (#[trigger] self.neurons@[j]) == old(self).neurons@[j],
            decreases count - i,
        {
            self.neurons[i].zero_grad();
            i += 1;
        }
        assert(self@ =~= layer_zeroed(old(self)@));
        proof {
            if layer_well_formed(old(self)@) {
                lemma_layer_zeroed_well_formed(old(self)@);
            }
        }
    }

    /// Every parameter of the layer, neuron after neuron. The order is the
    /// same on every call.
    pub fn parameters(&self) -> (out: Vec<&Value<T>>)
        ensures
            out@.map_values(|v: &Value<T>| *v) == layer_params(self@),
    {
        let mut out: Vec<&Value<T>> = Vec::new();
        let count = self.neurons.len();
        let mut i: usize = 0;
        while i < count
            invariant
                i <= count,
                count == self.neurons@.len(),
                out@.map_values(|v: &Value<T>| *v) == layer_params(self@.take(i as int)),
            decreases count - i,
        {
            let mut part = self.neurons[i].parameters();
            let ghost before = out@;
            let ghost added = part@;
            out.append(&mut part);
            proof {
                let stop = i + 1;
                assert(self@.take(stop).drop_last() =~= self@.take(i as int));
                assert(self@.take(stop).last() == self.neurons@[i as int]@);
                assert(out@.map_values(|v: &Value<T>| *v) =~= before.map_values(
                    |v: &Value<T>| *v,
                ) + added.map_values(|v: &Value<T>| *v));
            }
            i += 1;
        }
        assert(self@.take(count as int) =~= self@);
        out
    }
}

} // verus!
