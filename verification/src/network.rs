//! The network: an ordered, owned sequence of layers, the sequential
//! forward-pass driver, and the conversions to and from the persisted form.
//!
//! The driver gates on the supported tensor rank, validates the whole shape
//! chain before any layer runs, threads the tensor through the layers in
//! stored order, and emits one diagnostic row per layer applied into a
//! caller-supplied sink.

use vstd::prelude::*;

use crate::layers::layer_accepts;
use crate::layers::layer_eval;
use crate::layers::layer_muls;
use crate::layers::layer_out_shape;
use crate::layers::layer_params;
use crate::layers::model_tag;
use crate::layers::tag_name;
use crate::layers::Layer;
use crate::layers::LayerBackend;
use crate::layers::LayerError;
use crate::layers::LayerInfo;
use crate::layers::LayerInfoView;
use crate::layers::LayerJson;
use crate::layers::LayerModel;
use crate::layers::Layers;
use crate::tensor::capped;
use crate::tensor::Tensor;
use crate::tensor::TensorView;

verus! {

/// The models of a sequence of live layers.
pub open spec fn layer_models(v: Seq<Layer>) -> Seq<LayerModel> {
    v.map_values(|l: Layer| l@)
}

/// The models of a sequence of layer records.
pub open spec fn record_models(v: Seq<LayerJson>) -> Seq<LayerModel> {
    v.map_values(|l: LayerJson| l@)
}

/// The models of a sequence of diagnostic rows.
pub open spec fn info_models(v: Seq<LayerInfo>) -> Seq<LayerInfoView> {
    v.map_values(|x: LayerInfo| x@)
}

/// The kind markers of a layer sequence, in order.
pub open spec fn model_tags(ls: Seq<LayerModel>) -> Seq<Layers> {
    ls.map_values(|m: LayerModel| model_tag(m))
}

/// Whether a layer sequence composes over an input of shape `s`: each layer
/// accepts the shape the previous one produces.
pub open spec fn chain_ok(ls: Seq<LayerModel>, s: Seq<usize>) -> bool
    decreases ls.len(),
{
    if ls.len() == 0 {
        true
    } else {
        layer_accepts(ls[0], s) && chain_ok(ls.skip(1), layer_out_shape(ls[0], s))
    }
}

/// The forward pass as a fold: layer `i`'s output is layer `i + 1`'s input,
/// the last output is the result.
pub open spec fn net_eval<B: LayerBackend>(b: &B, ls: Seq<LayerModel>, t: TensorView) -> TensorView
    decreases ls.len(),
{
    if ls.len() == 0 {
        t
    } else {
        net_eval(b, ls.skip(1), layer_eval(b, ls[0], t))
    }
}

/// The diagnostic row one layer emits when applied to an input of shape `s`.
pub open spec fn info_of(m: LayerModel, s: Seq<usize>) -> LayerInfoView {
    LayerInfoView {
        name: tag_name(model_tag(m)),
        output_shape: layer_out_shape(m, s),
        num_params: capped(layer_params(m)) as usize,
        num_muls: capped(layer_muls(m, s)) as usize,
    }
}

/// The diagnostic rows one forward pass emits, in application order.
pub open spec fn diag_entries(ls: Seq<LayerModel>, s: Seq<usize>) -> Seq<LayerInfoView>
    decreases ls.len(),
{
    if ls.len() == 0 {
        Seq::empty()
    } else {
        seq![info_of(ls[0], s)] + diag_entries(ls.skip(1), layer_out_shape(ls[0], s))
    }
}

/// Sum of the multiply counts of a run of diagnostic rows.
pub open spec fn total_muls(d: Seq<LayerInfoView>) -> int
    decreases d.len(),
{
    if d.len() == 0 {
        0
    } else {
        d[0].num_muls + total_muls(d.skip(1))
    }
}

/// Sum of the layers' own static multiply counts along the shape chain.
pub open spec fn chain_muls(ls: Seq<LayerModel>, s: Seq<usize>) -> int
    decreases ls.len(),
{
    if ls.len() == 0 {
        0
    } else {
        capped(layer_muls(ls[0], s)) + chain_muls(ls.skip(1), layer_out_shape(ls[0], s))
    }
}

/// The persisted form of a whole network: every layer's record, in forward
/// order.
pub struct NNJson {
    pub layers: Vec<LayerJson>,
}

impl View for NNJson {
    type V = Seq<LayerModel>;

    open spec fn view(&self) -> Seq<LayerModel> {
        record_models(self.layers@)
    }
}

impl NNJson {
    /// Rebuilds a live network from this record, materializing each layer
    /// in order. Fail-fast: a layer that cannot be built fails the whole
    /// reconstruction as `NetworkDeserializationFailed` and no partial
    /// network is returned; with the closed record set every layer builds,
    /// so reconstruction succeeds for every record.
    pub fn build(self) -> (r: Result<NeuralNetwork, LayerError>)
        ensures
            r is Ok,
            r->Ok_0@ == self@,
    {
        let ghost orig = self@;
        let mut rest = self.layers;
        let mut done: Vec<Layer> = Vec::new();
        proof {
            assert(layer_models(done@) + record_models(rest@) =~= orig);
        }
        while rest.len() > 0
            invariant
                layer_models(done@) + record_models(rest@) == orig,
            decreases rest.len(),
        {
            let ghost rest0 = rest@;
            let ghost done0 = done@;
            let rec = rest.remove(0);
            match rec.build() {
                Ok(layer) => {
                    done.push(layer);
                    proof {
                        assert(rest@ =~= rest0.skip(1));
                        assert(layer_models(done@) =~= layer_models(done0).push(layer@));
                        assert(layer_models(done@) + record_models(rest@) =~= orig);
                    }
                },
                Err(_) => {
                    return Err(LayerError::NetworkDeserializationFailed);
                },
            }
        }
        proof {
            assert(layer_models(done@) + record_models(rest@) =~= layer_models(done@));
        }
        Ok(NeuralNetwork { layers: done })
    }
}

/// An ordered, owned sequence of layers; order is the composition order of
/// the forward pass. Created empty, populated by appending layers in
/// forward order, immutable for the purposes of inference.
pub struct NeuralNetwork {
    layers: Vec<Layer>,
}

impl View for NeuralNetwork {
    type V = Seq<LayerModel>;

    closed spec fn view(&self) -> Seq<LayerModel> {
        layer_models(self.layers@)
    }
}

impl NeuralNetwork {
    /// The empty network.
    pub fn new() -> (r: Self)
        ensures
            r@ == Seq::<LayerModel>::empty(),
    {
        let layers: Vec<Layer> = Vec::new();
        proof {
            assert(layer_models(layers@) =~= Seq::<LayerModel>::empty());
        }
        NeuralNetwork { layers }
    }

    /// Appends a layer at the end of the sequence. No shape validation
    /// happens here; the forward pass validates the whole chain before it
    /// computes.
    pub fn add_layer(&mut self, layer: Layer)
        ensures
            final(self)@ == old(self)@.push(layer@),
    {
        let ghost before = self.layers@;
        self.layers.push(layer);
        proof {
            assert(layer_models(self.layers@) =~= layer_models(before).push(layer@));
        }
    }

    /// The persisted record of this network: each layer's record, in order.
    pub fn to_json(&self) -> (r: NNJson)
        ensures
            r@ == self@,
    {
        let mut records: Vec<LayerJson> = Vec::new();
        let mut i: usize = 0;
        while i < self.layers.len()
            invariant
                i <= self.layers@.len(),
                records@.len() == i,
                forall|k: int| 0 <= k < i ==> records@[k]@ == self.layers@[k]@,
            decreases self.layers@.len() - i,
        {
            let layer = &self.layers[i];
            records.push(layer.to_json());
            i += 1;
        }
        proof {
            assert(record_models(records@) =~= layer_models(self.layers@));
        }
        NNJson { layers: records }
    }

    /// The forward pass. Rejects every rank other than the one supported
    /// value (3) as `UnsupportedRank` without touching any layer. Then
    /// validates the whole shape chain starting from the input tensor's
    /// shape; a chain that does not compose fails as `ShapeMismatch`, again
    /// before any layer computes. On an accepted input, applies every layer
    /// in stored order and appends one diagnostic row per layer applied to
    /// `diag`, leaving the rows already there untouched.
    pub fn apply<B: LayerBackend>(
        &self,
        backend: &B,
        input: &Tensor,
        rank: usize,
        diag: &mut Vec<LayerInfo>,
    ) -> (r: Result<Tensor, LayerError>)
        ensures
            rank != 3 ==> r == Err::<Tensor, LayerError>(LayerError::UnsupportedRank)
                && final(diag)@ == old(diag)@,
            rank == 3 && !chain_ok(self@, input@.shape) ==> r == Err::<Tensor, LayerError>(
                LayerError::ShapeMismatch,
            ) && final(diag)@ == old(diag)@,
            rank == 3 && chain_ok(self@, input@.shape) ==> {
                &&& r is Ok
                &&& r->Ok_0@ == net_eval(backend, self@, input@)
                &&& final(diag)@.len() == old(diag)@.len() + self@.len()
                &&& final(diag)@.take(old(diag)@.len() as int) == old(diag)@
                &&& info_models(final(diag)@.skip(old(diag)@.len() as int)) == diag_entries(
                    self@,
                    input@.shape,
                )
            },
    {
        if rank != 3 {
            return Err(LayerError::UnsupportedRank);
        }
        let n = self.layers.len();
        let mut cur: Vec<usize> = crate::tensor::clone_usizes(input.shape());
        let mut i: usize = 0;
        proof {
            assert(self@.skip(0) =~= self@);
        }
        while i < n
            invariant
                rank == 3,
                n == self.layers@.len(),
                i <= n,
                diag@ == old(diag)@,
                chain_ok(self@, input@.shape) <==> chain_ok(self@.skip(i as int), cur@),
            decreases n - i,
        {
            let layer = &self.layers[i];
            proof {
                assert(self@.skip(i as int)[0] == self@[i as int]);
                assert(self@.skip(i as int).skip(1) =~= self@.skip(i as int + 1));
            }
            if !layer.accepts_shape(&cur) {
                return Err(LayerError::ShapeMismatch);
            }
            match layer.output_shape(&cur) {
                Some(next) => {
                    cur = next;
                },
                None => {
                    return unreached();
                },
            }
            i += 1;
        }
        proof {
            assert(self@.skip(n as int) =~= Seq::<LayerModel>::empty());
            assert(chain_ok(self@, input@.shape));
        }
        let ghost base = old(diag)@.len() as int;
        let mut out: Tensor = input.duplicate();
        let mut j: usize = 0;
        proof {
            assert(diag@.take(base) =~= old(diag)@);
            assert(diag@.skip(base) =~= Seq::<LayerInfo>::empty());
            assert(info_models(diag@.skip(base)) =~= Seq::<LayerInfoView>::empty());
            assert(self@.skip(0) =~= self@);
            assert(out@.shape == input@.shape);
            assert(info_models(diag@.skip(base)) + diag_entries(self@, input@.shape)
                =~= diag_entries(self@, input@.shape));
        }
        while j < n
            invariant
                rank == 3,
                n == self.layers@.len(),
                j <= n,
                chain_ok(self@, input@.shape),
                chain_ok(self@.skip(j as int), out@.shape),
                net_eval(backend, self@, input@) == net_eval(
                    backend,
                    self@.skip(j as int),
                    out@,
                ),
                diag@.len() == old(diag)@.len() + j,
                base == old(diag)@.len() as int,
                diag@.take(base) == old(diag)@,
                info_models(diag@.skip(base)) + diag_entries(self@.skip(j as int), out@.shape)
                    == diag_entries(self@, input@.shape),
            decreases n - j,
        {
            let ghost diag0 = diag@;
            let ghost shape0 = out@.shape;
            let layer = &self.layers[j];
            proof {
                assert(self@.skip(j as int)[0] == self@[j as int]);
                assert(self@.skip(j as int).skip(1) =~= self@.skip(j as int + 1));
            }
            let params = layer.num_params();
            let muls = layer.num_muls(out.shape());
            let next = layer.apply(backend, &out);
            let oshape = crate::tensor::clone_usizes(next.shape());
            let info = LayerInfo {
                name: layer.name(),
                output_shape: oshape,
                num_params: params,
                num_muls: muls,
            };
            proof {
                assert(info@ == info_of(self@[j as int], shape0));
            }
            diag.push(info);
            out = next;
            j += 1;
            proof {
                assert(diag@.take(base) =~= diag0.take(base));
                assert(diag@.skip(base) =~= diag0.skip(base).push(info));
                assert(info_models(diag@.skip(base)) =~= info_models(diag0.skip(base)) + seq![
                    info@,
                ]);
                assert(diag_entries(self@.skip(j - 1), shape0) == seq![
                    info_of(self@[j - 1], shape0),
                ] + diag_entries(self@.skip(j as int), out@.shape));
                assert(info_models(diag@.skip(base)) + diag_entries(
                    self@.skip(j as int),
                    out@.shape,
                ) =~= info_models(diag0.skip(base)) + diag_entries(self@.skip(j - 1), shape0));
            }
        }
        proof {
            assert(self@.skip(n as int) =~= Seq::<LayerModel>::empty());
            assert(info_models(diag@.skip(base)) + Seq::<LayerInfoView>::empty() =~= info_models(
                diag@.skip(base),
            ));
        }
        Ok(out)
    }
}

impl Default for NeuralNetwork {
    /// The empty network.
    fn default() -> (r: Self)
        ensures
            r@ == Seq::<LayerModel>::empty(),
    {
        NeuralNetwork::new()
    }
}

/// Law: rebuilding a network from its persisted record reconstructs the
/// same layer sequence — the same kind markers in the same order, and
/// numerically identical parameters. The premises are exactly what
/// [`NeuralNetwork::to_json`] and [`NNJson::build`] guarantee about their
/// results, so the composition of the two preserves the network's model.
pub proof fn lemma_round_trip(network: NeuralNetwork, record: NNJson, rebuilt: NeuralNetwork)
    requires
        record@ == network@,
        rebuilt@ == record@,
    ensures
        rebuilt@ == network@,
        model_tags(rebuilt@) == model_tags(network@),
{
}

/// Law: for a two-layer network, the forward pass is exactly the second
/// layer applied to the first layer's output.
pub proof fn lemma_sequential_composition<B: LayerBackend>(
    b: &B,
    l1: LayerModel,
    l2: LayerModel,
    t: TensorView,
)
    ensures
        net_eval(b, seq![l1, l2], t) == layer_eval(b, l2, layer_eval(b, l1, t)),
{
    let s = seq![l1, l2];
    assert(s[0] == l1);
    assert(s.skip(1) =~= seq![l2]);
    assert(seq![l2][0] == l2);
    assert(seq![l2].skip(1) =~= Seq::<LayerModel>::empty());
    let u1 = layer_eval(b, l1, t);
    let u2 = layer_eval(b, l2, u1);
    assert(net_eval(b, s, t) == net_eval(b, seq![l2], u1));
    assert(net_eval(b, seq![l2], u1) == net_eval(b, Seq::<LayerModel>::empty(), u2));
    assert(net_eval(b, Seq::<LayerModel>::empty(), u2) == u2);
}

/// Law: the multiply counts reported across the diagnostics of one forward
/// pass sum to exactly the sum of each layer's own static multiply count,
/// taken along the shape chain.
pub proof fn lemma_cost_additivity(ls: Seq<LayerModel>, s: Seq<usize>)
    ensures
        total_muls(diag_entries(ls, s)) == chain_muls(ls, s),
    decreases ls.len(),
{
    if ls.len() > 0 {
        let d = diag_entries(ls, s);
        assert(d[0] == info_of(ls[0], s));
        assert(d.skip(1) =~= diag_entries(ls.skip(1), layer_out_shape(ls[0], s)));
        lemma_cost_additivity(ls.skip(1), layer_out_shape(ls[0], s));
    }
}

} // verus!

