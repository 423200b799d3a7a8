//! A multilayer perceptron: layers chained so that each reads what the one
//! before it puts out.
use crate::engine::{MathOps, Value};
use crate::layer::{
    layer_is_fresh, layer_params, layer_well_formed, layer_zeroed, lemma_layer_fresh_well_formed,
    lemma_layer_param_count_uniform, lemma_layer_params_len, lemma_layer_zeroed_params,
    lemma_layer_zeroed_well_formed, Layer,
};
use crate::neuron::NeuronView;
use vstd::prelude::*;

verus! {

/// A network cannot be built from fewer than two widths: there would be no
/// layer to map anything to anything.
#[derive(Debug, Clone, Copy, PartialEq, Eq)]
pub struct InvalidTopology;

/// The parameters of a run of layers: those of the first layer, then those
/// of the second, and so on.
pub open spec fn network_params<T: MathOps>(layers: Seq<Seq<NeuronView<T>>>) -> Seq<Value<T>>
    decreases layers.len(),
{
    if layers.len() == 0 {
        Seq::empty()
    } else {
        network_params(layers.drop_last()) + layer_params(layers.last())
    }
}

/// The layers with the gradient of every parameter set back to zero.
pub open spec fn network_zeroed<T: MathOps>(layers: Seq<Seq<NeuronView<T>>>) -> Seq<
    Seq<NeuronView<T>>,
> {
    layers.map_values(|l: Seq<NeuronView<T>>| layer_zeroed(l))
}

/// How many parameters a network of the given widths holds: for each pair
/// of neighbouring widths, one weight per input and one bias, for every
/// neuron of the layer between them.
pub open spec fn parameter_count(widths: Seq<usize>) -> nat
    decreases widths.len(),
{
    if widths.len() < 2 {
        0
    } else {
        parameter_count(widths.drop_last()) + ((widths[widths.len() - 2] + 1) * widths.last()) as nat
    }
}

/// Whether these are the freshly drawn layers of a network of the given
/// widths: one layer per pair of neighbouring widths, layer `i` holding
/// `widths[i + 1]` neurons of `widths[i]` inputs, and every layer but the
/// last rectified.
pub open spec fn network_is_fresh<T: MathOps>(
    layers: Seq<Seq<NeuronView<T>>>,
    widths: Seq<usize>,
) -> bool {
    &&& widths.len() >= 2
    &&& layers.len() == widths.len() - 1
    &&& forall|i: int|
        0 <= i < layers.len() ==> layer_is_fresh(
            #[trigger] layers[i],
            widths[i] as nat,
            widths[i + 1] as nat,
            i != widths.len() - 2,
        )
}

/// Every layer is well formed, and each layer after the first reads as many
/// inputs as the layer before it has neurons.
pub open spec fn network_well_formed<T: MathOps>(layers: Seq<Seq<NeuronView<T>>>) -> bool {
    &&& forall|i: int| 0 <= i < layers.len() ==> layer_well_formed(#[trigger] layers[i])
    &&& forall|i: int, j: int|
        1 <= i < layers.len() && 0 <= j < layers[i].len() ==> (#[trigger] layers[i][j]).weights.len()
            == layers[i - 1].len()
}

/// A freshly drawn network is well formed.
pub proof fn lemma_fresh_well_formed<T: MathOps>(
    layers: Seq<Seq<NeuronView<T>>>,
    widths: Seq<usize>,
)
    requires
        network_is_fresh(layers, widths),
    ensures
        network_well_formed(layers),
{
    assert forall|i: int| 0 <= i < layers.len() implies layer_well_formed(
        #[trigger] layers[i],
    ) by {
        lemma_layer_fresh_well_formed(
            layers[i],
            widths[i] as nat,
            widths[i + 1] as nat,
            i != widths.len() - 2,
        );
    }
    assert forall|i: int, j: int| 1 <= i < layers.len() && 0 <= j < layers[i].len() implies (
    #[trigger] layers[i][j]).weights.len() == layers[i - 1].len() by {
        assert(layer_is_fresh(
            layers[i - 1],
            widths[i - 1] as nat,
            widths[i] as nat,
            i - 1 != widths.len() - 2,
        ));
        assert(layers[i][j].is_fresh(widths[i] as nat, i != widths.len() - 2));
    }
}

/// Setting gradients back keeps a network well formed.
pub proof fn lemma_zeroed_well_formed<T: MathOps>(layers: Seq<Seq<NeuronView<T>>>)
    requires
        network_well_formed(layers),
    ensures
        network_well_formed(network_zeroed(layers)),
{
    let z = network_zeroed(layers);
    assert forall|i: int| 0 <= i < z.len() implies layer_well_formed(#[trigger] z[i]) by {
        assert(layer_well_formed(layers[i]));
        lemma_layer_zeroed_well_formed(layers[i]);
    }
    assert forall|i: int, j: int| 1 <= i < z.len() && 0 <= j < z[i].len() implies (
    #[trigger] z[i][j]).weights.len() == z[i - 1].len() by {
        assert(layers[i][j].weights.len() == layers[i - 1].len());
    }
}

/// A network built from the widths `n0, ..., nk` holds
/// `(n0 + 1) * n1 + ... + (n(k-1) + 1) * nk` parameters: per layer, one
/// weight for each input and one bias, for each of its neurons.
pub proof fn law_parameter_count<T: MathOps>(layers: Seq<Seq<NeuronView<T>>>, widths: Seq<usize>)
    requires
        network_is_fresh(layers, widths),
    ensures
        network_params(layers).len() == parameter_count(widths),
{
    assert forall|i: int| 0 <= i < layers.len() implies (#[trigger] layers[i]).len() == widths[i
        + 1] && forall|j: int|
        0 <= j < layers[i].len() ==> (#[trigger] layers[i][j]).weights.len() == widths[i] by {
        let l = layers[i];
        assert(layer_is_fresh(l, widths[i] as nat, widths[i + 1] as nat, i != widths.len() - 2));
        assert forall|j: int| 0 <= j < l.len() implies (#[trigger] l[j]).weights.len()
            == widths[i] by {
            assert(l[j].is_fresh(widths[i] as nat, i != widths.len() - 2));
        }
    }
    lemma_shaped_is_counted(layers, widths);
}

/// The count for layers that agree with the widths in the number of
/// neurons and of weights per neuron.
proof fn lemma_shaped_is_counted<T: MathOps>(layers: Seq<Seq<NeuronView<T>>>, widths: Seq<usize>)
    requires
        widths.len() >= 2,
        layers.len() == widths.len() - 1,
        forall|i: int|
            0 <= i < layers.len() ==> (#[trigger] layers[i]).len() == widths[i + 1] && forall|j: int|
                0 <= j < layers[i].len() ==> (#[trigger] layers[i][j]).weights.len() == widths[i],
    ensures
        network_params(layers).len() == parameter_count(widths),
    decreases layers.len(),
{
    let k = layers.len() as int;
    let last = layers.last();
    lemma_layer_params_len(last);
    lemma_layer_param_count_uniform(last, widths[k - 1] as nat);
    if k == 1 {
        assert(network_params(layers.drop_last()) =~= Seq::<Value<T>>::empty());
        assert(parameter_count(widths.drop_last()) == 0);
    } else {
        lemma_shaped_is_counted(layers.drop_last(), widths.drop_last());
    }
}

/// After the gradients of a network are set back to zero, it enumerates as
/// many parameters as before, each with its value kept, and the gradient of
/// every one of them is zero, whatever it was before.
pub proof fn law_zeroed_params<T: MathOps>(layers: Seq<Seq<NeuronView<T>>>)
    ensures
        network_params(network_zeroed(layers)) == network_params(layers).map_values(
            |v: Value<T>| v.zeroed(),
        ),
        forall|i: int|
            0 <= i < network_params(network_zeroed(layers)).len() ==> (
            #[trigger] network_params(network_zeroed(layers))[i]).grad == T::zero_spec(),
    decreases layers.len(),
{
    let z = network_zeroed(layers);
    if layers.len() > 0 {
        law_zeroed_params(layers.drop_last());
        lemma_layer_zeroed_params(layers.last());
        assert(z.drop_last() =~= network_zeroed(layers.drop_last()));
    }
    assert(network_params(z) =~= network_params(layers).map_values(|v: Value<T>| v.zeroed()));
}

/// An ordered sequence of layers.
#[derive(Debug)]
pub struct MLP<T: MathOps> {
    pub layers: Vec<Layer<T>>,
}

impl<T: MathOps> View for MLP<T> {
    type V = Seq<Seq<NeuronView<T>>>;

    open spec fn view(&self) -> Seq<Seq<NeuronView<T>>> {
        self.layers@.map_values(|l: Layer<T>| l@)
    }
}

impl<T: MathOps> MLP<T> {
    /// Builds a network from its widths: layer `i` maps `widths[i]` inputs
    /// to `widths[i + 1]` outputs, and every layer but the last is
    /// rectified. Fewer than two widths describe no network and are
    /// refused.
    pub fn new(widths: &[usize]) -> (net: Result<MLP<T>, InvalidTopology>)
        ensures
            net is Err <==> widths@.len() < 2,
            net is Ok ==> network_is_fresh(net->Ok_0@, widths@),
            net is Ok ==> network_well_formed(net->Ok_0@),
    {
        let count = widths.len();
        if count < 2 {
            return Err(InvalidTopology);
        }
        let before_last = count - 2;
        let mut layers: Vec<Layer<T>> = Vec::new();
        let mut i: usize = 0;
        while i < count - 1
            invariant
                count == widths@.len(),
                count >= 2,
                before_last == count - 2,
                i <= count - 1,
                layers@.len() == i,
                forall|j: int|
                    0 <= j < i ==> layer_is_fresh(
                        (#[trigger] layers@[j])@,
                        widths@[j] as nat,
                        widths@[j + 1] as nat,
                        j != count - 2,
                    ),
            decreases count - 1 - i,
        {
            layers.push(Layer::new(widths[i], widths[i + 1], before_last != i));
            i += 1;
        }
        let net = MLP { layers };
        proof {
            lemma_fresh_well_formed(net@, widths@);
        }
        Ok(net)
    }

    /// Sets the gradient of every parameter of every layer to zero.
    pub fn zero_grad(&mut self)
        ensures
            final(self)@ == network_zeroed(old(self)@),
            network_well_formed(old(self)@) ==> network_well_formed(final(self)@),
    {
        let count = self.layers.len();
        let mut i: usize = 0;
        while i < count
            invariant
                i <= count,
                count == self.layers@.len(),
                count == old(self).layers@.len(),
                forall|j: int| 0 <= j < i ==> (#[trigger] self.layers@[j])@ == layer_zeroed(old(self).layers@[j]@),
                forall|j: int| i <= j < count ==> (#[trigger] self.layers@[j]) == old(self).layers@[j],
            decreases count - i,
        {
            self.layers[i].zero_grad();
            i += 1;
        }
        assert(self@ =~= network_zeroed(old(self)@));
        proof {
            if network_well_formed(old(self)@) {
                lemma_zeroed_well_formed(old(self)@);
            }
        }
    }

    /// Every parameter of the network, layer after layer and, within a
    /// layer, neuron after neuron. The order is the same on every call.
    pub fn parameters(&self) -> (out: Vec<&Value<T>>)
        ensures
            out@.map_values(|v: &Value<T>| *v) == network_params(self@),
    {
        let mut out: Vec<&Value<T>> = Vec::new();
        let count = self.layers.len();
        let mut i: usize = 0;
        while i < count
            invariant
                i <= count,
                count == self.layers@.len(),
                out@.map_values(|v: &Value<T>| *v) == network_params(self@.take(i as int)),
            decreases count - i,
        {
            let mut part = self.layers[i].parameters();
            let ghost before = out@;
            let ghost added = part@;
            out.append(&mut part);
            proof {
                let stop = i + 1;
                assert(self@.take(stop).drop_last() =~= self@.take(i as int));
                assert(self@.take(stop).last() == self.layers@[i as int]@);
                assert(out@.map_values(|v: &Value<T>| *v) =~= before.map_values(
                    |v: &Value<T>| *v,
                ) + added.map_values(|v: &Value<T>| *v));
            }
            i += 1;
        }
        assert(self@.take(count as int) =~= self@);
        out
    }
}

} // verus!
