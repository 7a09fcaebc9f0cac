//! The layer abstraction: a closed set of layer kinds behind one capability
//! surface, the serializable per-layer record, and the contract the numeric
//! kernels must satisfy.
//!
//! A live [`Layer`] owns exactly the parameters its serializable record
//! carries, so the conversion between the two is lossless in both
//! directions. The numeric content of a layer application is delegated to a
//! [`LayerBackend`] supplied by the embedding application; everything this
//! module states about shapes, parameter counts and multiply counts is
//! verified here.

use vstd::prelude::*;

use crate::tensor::capped;
use crate::tensor::sat_add;
use crate::tensor::sat_mul;
use crate::tensor::shape_product;
use crate::tensor::Tensor;
use crate::tensor::TensorView;

verus! {

/// The kind of a layer, with no payload: a compact manifest marker.
#[derive(Clone, Copy, PartialEq, Eq, Structural, Debug)]
pub enum Layers {
    Convolution,
    MaxPool,
    Relu,
    Flatten,
    FullyConnected,
    Normalize,
}

/// Failure kinds of this core. Every operation that can fail returns one of
/// these; none is swallowed and no partial result is produced alongside one.
#[derive(Clone, Copy, PartialEq, Eq, Structural, Debug)]
pub enum LayerError {
    /// A record tag the factory does not recognize.
    UnknownLayerKind,
    /// A per-layer failure while rebuilding a whole network from its record.
    NetworkDeserializationFailed,
    /// The forward pass was invoked for a tensor rank other than the one
    /// supported value.
    UnsupportedRank,
    /// Two adjacent layers disagree about the shape flowing between them,
    /// or a layer cannot accept the shape handed to it.
    ShapeMismatch,
}

/// Mathematical model of a live layer and of its serializable record: the
/// two share it, which is what makes the round trip lossless.
pub enum LayerModel {
    Convolution { kernel: TensorView },
    MaxPool { window: usize },
    FullyConnected { weights: TensorView, biases: TensorView },
    Relu,
    Flatten,
    Normalize,
}

/// A single transformation stage of a feed-forward network. Immutable after
/// construction; owns its parameter tensors exclusively.
pub enum Layer {
    /// Convolves the input with a rank-3 kernel `[channels, height, width]`
    /// over a `[channels, height, width]` input, producing one output
    /// channel of the valid cross-correlation positions.
    Convolution { kernel: Tensor },
    /// Non-overlapping `window × window` spatial pooling of a rank-3 input;
    /// both spatial dimensions must be multiples of the window.
    MaxPool { window: usize },
    /// Dense layer: `weights` is `[out, in]`, `biases` is `[out]`; accepts a
    /// rank-1 input of length `in`.
    FullyConnected { weights: Tensor, biases: Tensor },
    /// Elementwise activation; shape-preserving, stateless.
    Relu,
    /// Reshapes the input to rank 1 without touching the elements.
    Flatten,
    /// Shape-preserving elementwise rescaling; stateless.
    Normalize,
}

/// The serializable description of one layer: exactly the fields needed to
/// rebuild a layer whose application is bit-identical to the original's.
pub enum LayerJson {
    Convolution { kernel: Tensor },
    MaxPool { window: usize },
    FullyConnected { weights: Tensor, biases: Tensor },
    Relu,
    Flatten,
    Normalize,
}

/// A loosely-typed layer description: one kind marker next to every payload
/// a kind might need. [`LayerJson`] is the checked form this crate works
/// with; this shape exists for callers that assemble records field by field.
pub struct JSONLayer {
    pub layer_type: Layers,
    pub kernel: Option<Tensor>,
    pub kernel_size: Option<i8>,
    pub weights: Option<Tensor>,
    pub biases: Option<Tensor>,
}

/// One diagnostic row, emitted per layer applied by the forward pass.
pub struct LayerInfo {
    pub name: &'static str,
    pub output_shape: Vec<usize>,
    pub num_params: usize,
    pub num_muls: usize,
}

/// Model of a diagnostic row.
pub struct LayerInfoView {
    pub name: Seq<char>,
    pub output_shape: Seq<usize>,
    pub num_params: usize,
    pub num_muls: usize,
}

impl View for LayerInfo {
    type V = LayerInfoView;

    open spec fn view(&self) -> LayerInfoView {
        LayerInfoView {
            name: self.name@,
            output_shape: self.output_shape@,
            num_params: self.num_params,
            num_muls: self.num_muls,
        }
    }
}

impl View for Layer {
    type V = LayerModel;

    open spec fn view(&self) -> LayerModel {
        match self {
            Layer::Convolution { kernel } => LayerModel::Convolution { kernel: kernel@ },
            Layer::MaxPool { window } => LayerModel::MaxPool { window: *window },
            Layer::FullyConnected { weights, biases } => LayerModel::FullyConnected {
                weights: weights@,
                biases: biases@,
            },
            Layer::Relu => LayerModel::Relu,
            Layer::Flatten => LayerModel::Flatten,
            Layer::Normalize => LayerModel::Normalize,
        }
    }
}

impl View for LayerJson {
    type V = LayerModel;

    open spec fn view(&self) -> LayerModel {
        match self {
            LayerJson::Convolution { kernel } => LayerModel::Convolution { kernel: kernel@ },
            LayerJson::MaxPool { window } => LayerModel::MaxPool { window: *window },
            LayerJson::FullyConnected { weights, biases } => LayerModel::FullyConnected {
                weights: weights@,
                biases: biases@,
            },
            LayerJson::Relu => LayerModel::Relu,
            LayerJson::Flatten => LayerModel::Flatten,
            LayerJson::Normalize => LayerModel::Normalize,
        }
    }
}

/// The kind marker of a layer model.
pub open spec fn model_tag(m: LayerModel) -> Layers {
    match m {
        LayerModel::Convolution { .. } => Layers::Convolution,
        LayerModel::MaxPool { .. } => Layers::MaxPool,
        LayerModel::FullyConnected { .. } => Layers::FullyConnected,
        LayerModel::Relu => Layers::Relu,
        LayerModel::Flatten => Layers::Flatten,
        LayerModel::Normalize => Layers::Normalize,
    }
}

/// The stable identifier of a layer kind.
pub open spec fn tag_name(t: Layers) -> Seq<char> {
    match t {
        Layers::Convolution => "convolution"@,
        Layers::MaxPool => "max_pool"@,
        Layers::Relu => "relu"@,
        Layers::Flatten => "flatten"@,
        Layers::FullyConnected => "fully_connected"@,
        Layers::Normalize => "normalize"@,
    }
}

/// Whether a convolution with kernel shape `k` accepts an input of shape
/// `s`: both rank 3, matching positive channel count, a nonempty window no
/// larger than the spatial extent. A kernel without channels is never
/// applicable: it could demand more output positions than elements exist
/// to derive them from.
pub open spec fn conv_accepts(k: Seq<usize>, s: Seq<usize>) -> bool {
    &&& k.len() == 3
    &&& s.len() == 3
    &&& k[0] >= 1
    &&& k[1] >= 1
    &&& k[2] >= 1
    &&& s[0] == k[0]
    &&& s[1] >= k[1]
    &&& s[2] >= k[2]
}

/// Output shape of a convolution: one channel of the valid positions.
pub open spec fn conv_out_shape(k: Seq<usize>, s: Seq<usize>) -> Seq<usize> {
    seq![1usize, (s[1] - k[1] + 1) as usize, (s[2] - k[2] + 1) as usize]
}

/// Whether pooling with the given window accepts an input of shape `s`.
pub open spec fn pool_accepts(window: usize, s: Seq<usize>) -> bool {
    &&& s.len() == 3
    &&& window >= 1
    &&& (s[1] as int) % (window as int) == 0
    &&& (s[2] as int) % (window as int) == 0
}

/// Output shape of non-overlapping pooling: channels kept, spatial
/// dimensions divided by the window.
pub open spec fn pool_out_shape(window: usize, s: Seq<usize>) -> Seq<usize> {
    seq![s[0], ((s[1] as int) / (window as int)) as usize, ((s[2] as int) / (window as int)) as usize]
}

/// Whether a dense layer with weight shape `w` and bias shape `b` accepts an
/// input of shape `s`.
pub open spec fn fc_accepts(w: Seq<usize>, b: Seq<usize>, s: Seq<usize>) -> bool {
    &&& w.len() == 2
    &&& b.len() == 1
    &&& b[0] == w[0]
    &&& s.len() == 1
    &&& s[0] == w[1]
}

/// Output shape of a dense layer: one dimension, the row count of the
/// weights.
pub open spec fn fc_out_shape(w: Seq<usize>) -> Seq<usize> {
    seq![w[0]]
}

/// Whether flattening accepts an input of shape `s`: its element count must
/// be representable as a single dimension.
pub open spec fn flatten_accepts(s: Seq<usize>) -> bool {
    shape_product(s) <= usize::MAX
}

/// Output shape of flattening: every element in one dimension.
pub open spec fn flatten_out_shape(s: Seq<usize>) -> Seq<usize> {
    seq![capped(shape_product(s)) as usize]
}

/// Whether a layer accepts an input of the given shape.
pub open spec fn layer_accepts(m: LayerModel, s: Seq<usize>) -> bool {
    match m {
        LayerModel::Convolution { kernel } => conv_accepts(kernel.shape, s),
        LayerModel::MaxPool { window } => pool_accepts(window, s),
        LayerModel::FullyConnected { weights, biases } => fc_accepts(
            weights.shape,
            biases.shape,
            s,
        ),
        LayerModel::Relu => true,
        LayerModel::Flatten => flatten_accepts(s),
        LayerModel::Normalize => true,
    }
}

/// The shape a layer produces for an input of shape `s`.
pub open spec fn layer_out_shape(m: LayerModel, s: Seq<usize>) -> Seq<usize> {
    match m {
        LayerModel::Convolution { kernel } => conv_out_shape(kernel.shape, s),
        LayerModel::MaxPool { window } => pool_out_shape(window, s),
        LayerModel::FullyConnected { weights, .. } => fc_out_shape(weights.shape),
        LayerModel::Relu => s,
        LayerModel::Flatten => flatten_out_shape(s),
        LayerModel::Normalize => s,
    }
}

/// Count of learnable scalar parameters a layer owns.
pub open spec fn layer_params(m: LayerModel) -> nat {
    match m {
        LayerModel::Convolution { kernel } => kernel.data.len(),
        LayerModel::FullyConnected { weights, biases } => weights.data.len()
            + biases.data.len(),
        _ => 0,
    }
}

/// Count of multiply operations one application performs on an accepted
/// input of shape `s`; zero on a shape the layer does not accept. A static
/// property of the shapes involved, not a measured value.
pub open spec fn layer_muls(m: LayerModel, s: Seq<usize>) -> nat {
    if !layer_accepts(m, s) {
        0
    } else {
        match m {
            LayerModel::Convolution { kernel } => {
                let k = kernel.shape;
                (((s[1] - k[1] + 1) * (s[2] - k[2] + 1)) * ((k[0] * k[1]) * k[2])) as nat
            },
            LayerModel::FullyConnected { weights, .. } => {
                (weights.shape[0] * weights.shape[1]) as nat
            },
            LayerModel::Normalize => shape_product(s),
            _ => 0,
        }
    }
}

/// What a layer application returns: the propagated shape, and elements
/// that are the layer's own for [`LayerModel::Flatten`] and the backend's
/// for every kind that computes.
pub open spec fn layer_eval<B: LayerBackend>(b: &B, m: LayerModel, t: TensorView) -> TensorView {
    TensorView {
        shape: layer_out_shape(m, t.shape),
        data: match m {
            LayerModel::Convolution { kernel } => b.conv_data(kernel, t),
            LayerModel::MaxPool { window } => b.pool_data(window, t),
            LayerModel::FullyConnected { weights, biases } => b.fc_data(weights, biases, t),
            LayerModel::Relu => b.relu_data(t),
            LayerModel::Flatten => t.data,
            LayerModel::Normalize => b.normalize_data(t),
        },
    }
}

/// The contract of the numeric kernels, which are supplied by the embedding
/// application: this core never computes with scalar values itself. Each
/// method must produce the documented output shape; which elements it
/// produces is its own, deterministic, function of the operands — the
/// `*_data` members name those functions, and the driver's guarantees are
/// stated over them.
pub trait LayerBackend {
    /// The elements a convolution produces.
    spec fn conv_data(&self, kernel: TensorView, input: TensorView) -> Seq<u32>;

    /// The elements pooling produces.
    spec fn pool_data(&self, window: usize, input: TensorView) -> Seq<u32>;

    /// The elements a dense layer produces.
    spec fn fc_data(&self, weights: TensorView, biases: TensorView, input: TensorView) -> Seq<
        u32,
    >;

    /// The elements the activation produces.
    spec fn relu_data(&self, input: TensorView) -> Seq<u32>;

    /// The elements normalization produces.
    spec fn normalize_data(&self, input: TensorView) -> Seq<u32>;

    /// Valid cross-correlation of a rank-3 input with a rank-3 kernel.
    fn convolve(&self, kernel: &Tensor, input: &Tensor) -> (r: Tensor)
        requires
            conv_accepts(kernel@.shape, input@.shape),
        ensures
            r@.shape == conv_out_shape(kernel@.shape, input@.shape),
            r@.data == self.conv_data(kernel@, input@),
    ;

    /// Non-overlapping spatial max pooling.
    fn max_pool(&self, window: usize, input: &Tensor) -> (r: Tensor)
        requires
            pool_accepts(window, input@.shape),
        ensures
            r@.shape == pool_out_shape(window, input@.shape),
            r@.data == self.pool_data(window, input@),
    ;

    /// Dense affine map: weights times input plus biases.
    fn fully_connected(&self, weights: &Tensor, biases: &Tensor, input: &Tensor) -> (r: Tensor)
        requires
            fc_accepts(weights@.shape, biases@.shape, input@.shape),
        ensures
            r@.shape == fc_out_shape(weights@.shape),
            r@.data == self.fc_data(weights@, biases@, input@),
    ;

    /// Elementwise activation; keeps the shape.
    fn relu(&self, input: &Tensor) -> (r: Tensor)
        ensures
            r@.shape == input@.shape,
            r@.data == self.relu_data(input@),
    ;

    /// Elementwise rescaling; keeps the shape.
    fn normalize(&self, input: &Tensor) -> (r: Tensor)
        ensures
            r@.shape == input@.shape,
            r@.data == self.normalize_data(input@),
    ;
}

impl Layers {
    /// The stable identifier of this kind, as used in diagnostics and in
    /// the serialized form.
    pub fn name(&self) -> (r: &'static str)
        ensures
            r@ == tag_name(*self),
    {
        match self {
            Layers::Convolution => "convolution",
            Layers::MaxPool => "max_pool",
            Layers::Relu => "relu",
            Layers::Flatten => "flatten",
            Layers::FullyConnected => "fully_connected",
            Layers::Normalize => "normalize",
        }
    }
}

impl Layer {
    /// The kind marker of this layer.
    pub fn tag(&self) -> (r: Layers)
        ensures
            r == model_tag(self@),
    {
        match self {
            Layer::Convolution { .. } => Layers::Convolution,
            Layer::MaxPool { .. } => Layers::MaxPool,
            Layer::FullyConnected { .. } => Layers::FullyConnected,
            Layer::Relu => Layers::Relu,
            Layer::Flatten => Layers::Flatten,
            Layer::Normalize => Layers::Normalize,
        }
    }

    /// The stable identifier of this layer's kind.
    pub fn name(&self) -> (r: &'static str)
        ensures
            r@ == tag_name(model_tag(self@)),
    {
        self.tag().name()
    }

    /// Count of learnable scalar parameters this layer owns, saturating at
    /// the largest `usize`.
    pub fn num_params(&self) -> (r: usize)
        ensures
            r == capped(layer_params(self@)),
    {
        match self {
            Layer::Convolution { kernel } => kernel.len(),
            Layer::FullyConnected { weights, biases } => sat_add(weights.len(), biases.len()),
            _ => 0,
        }
    }

    /// Whether this layer can be applied to an input of the given shape.
    pub fn accepts_shape(&self, s: &Vec<usize>) -> (r: bool)
        ensures
            r == layer_accepts(self@, s@),
    {
        match self {
            Layer::Convolution { kernel } => {
                let k = kernel.shape();
                if k.len() == 3 && s.len() == 3 {
                    k[0] >= 1 && k[1] >= 1 && k[2] >= 1 && s[0] == k[0] && s[1] >= k[1]
                        && s[2] >= k[2]
                } else {
                    false
                }
            },
            Layer::MaxPool { window } => {
                if s.len() == 3 && *window >= 1 {
                    s[1] % *window == 0 && s[2] % *window == 0
                } else {
                    false
                }
            },
            Layer::FullyConnected { weights, biases } => {
                let w = weights.shape();
                let b = biases.shape();
                if w.len() == 2 && b.len() == 1 && s.len() == 1 {
                    b[0] == w[0] && s[0] == w[1]
                } else {
                    false
                }
            },
            Layer::Relu => true,
            Layer::Flatten => crate::tensor::checked_product(s).is_some(),
            Layer::Normalize => true,
        }
    }

    /// The shape this layer produces for an input of the given shape;
    /// `None` exactly when it does not accept that shape.
    pub fn output_shape(&self, s: &Vec<usize>) -> (r: Option<Vec<usize>>)
        ensures
            r is Some <==> layer_accepts(self@, s@),
            r is Some ==> r->0@ == layer_out_shape(self@, s@),
    {
        if !self.accepts_shape(s) {
            return None;
        }
        match self {
            Layer::Convolution { kernel } => {
                let k = kernel.shape();
                let mut out: Vec<usize> = Vec::new();
                out.push(1);
                out.push(s[1] - k[1] + 1);
                out.push(s[2] - k[2] + 1);
                proof {
                    assert(out@ =~= conv_out_shape(k@, s@));
                }
                Some(out)
            },
            Layer::MaxPool { window } => {
                let mut out: Vec<usize> = Vec::new();
                out.push(s[0]);
                out.push(s[1] / *window);
                out.push(s[2] / *window);
                proof {
                    assert(out@ =~= pool_out_shape(*window, s@));
                }
                Some(out)
            },
            Layer::FullyConnected { weights, .. } => {
                let w = weights.shape();
                let mut out: Vec<usize> = Vec::new();
                out.push(w[0]);
                proof {
                    assert(out@ =~= fc_out_shape(w@));
                }
                Some(out)
            },
            Layer::Relu | Layer::Normalize => Some(crate::tensor::clone_usizes(s)),
            Layer::Flatten => {
                let n = match crate::tensor::checked_product(s) {
                    Some(n) => n,
                    None => 0,
                };
                let mut out: Vec<usize> = Vec::new();
                out.push(n);
                proof {
                    assert(out@ =~= flatten_out_shape(s@));
                }
                Some(out)
            },
        }
    }

    /// Count of multiply operations one application of this layer performs
    /// on an input of the given shape, saturating at the largest `usize`;
    /// zero on a shape it does not accept.
    pub fn num_muls(&self, s: &Vec<usize>) -> (r: usize)
        ensures
            r == capped(layer_muls(self@, s@)),
    {
        if !self.accepts_shape(s) {
            return 0;
        }
        match self {
            Layer::Convolution { kernel } => {
                let k = kernel.shape();
                let oh: usize = s[1] - k[1] + 1;
                let ow: usize = s[2] - k[2] + 1;
                let kernel_elems: usize = sat_mul(sat_mul(k[0], k[1]), k[2]);
                let r = sat_mul(sat_mul(oh, ow), kernel_elems);
                proof {
                    crate::tensor::lemma_capped_mul((k@[0] * k@[1]) as nat, k@[2] as nat);
                    crate::tensor::lemma_capped_mul(
                        (oh as nat * ow as nat) as nat,
                        ((k@[0] * k@[1]) * k@[2]) as nat,
                    );
                }
                r
            },
            Layer::FullyConnected { weights, .. } => {
                let w = weights.shape();
                sat_mul(w[0], w[1])
            },
            Layer::Normalize => {
                match crate::tensor::checked_product(s) {
                    Some(n) => n,
                    None => usize::MAX,
                }
            },
            _ => 0,
        }
    }

    /// Applies this layer to an accepted input, delegating the numeric work
    /// of every computing kind to the backend.
    pub fn apply<B: LayerBackend>(&self, backend: &B, input: &Tensor) -> (r: Tensor)
        requires
            layer_accepts(self@, input@.shape),
        ensures
            r@ == layer_eval(backend, self@, input@),
    {
        match self {
            Layer::Convolution { kernel } => backend.convolve(kernel, input),
            Layer::MaxPool { window } => backend.max_pool(*window, input),
            Layer::FullyConnected { weights, biases } => backend.fully_connected(
                weights,
                biases,
                input,
            ),
            Layer::Relu => backend.relu(input),
            Layer::Normalize => backend.normalize(input),
            Layer::Flatten => {
                let n: usize = input.len();
                let data = input.data_owned();
                let mut shape: Vec<usize> = Vec::new();
                shape.push(n);
                proof {
                    assert(shape@ =~= seq![n]);
                    assert(seq![n].skip(1) =~= Seq::<usize>::empty());
                    assert(shape_product(Seq::<usize>::empty()) == 1);
                    assert(seq![n][0] == n);
                    assert(shape_product(seq![n]) == n as nat * shape_product(
                        seq![n].skip(1),
                    ));
                    assert(shape_product(seq![n]) == n as nat);
                    assert(capped(shape_product(input@.shape)) == n as nat);
                    assert(shape@ =~= flatten_out_shape(input@.shape));
                }
                crate::tensor::from_parts(shape, data)
            },
        }
    }

    /// The serializable record of this layer: same kind, identical
    /// parameters.
    pub fn to_json(&self) -> (r: LayerJson)
        ensures
            r@ == self@,
    {
        match self {
            Layer::Convolution { kernel } => LayerJson::Convolution {
                kernel: kernel.duplicate(),
            },
            Layer::MaxPool { window } => LayerJson::MaxPool { window: *window },
            Layer::FullyConnected { weights, biases } => LayerJson::FullyConnected {
                weights: weights.duplicate(),
                biases: biases.duplicate(),
            },
            Layer::Relu => LayerJson::Relu,
            Layer::Flatten => LayerJson::Flatten,
            Layer::Normalize => LayerJson::Normalize,
        }
    }
}

impl LayerJson {
    /// The kind marker of this record.
    pub fn tag(&self) -> (r: Layers)
        ensures
            r == model_tag(self@),
    {
        match self {
            LayerJson::Convolution { .. } => Layers::Convolution,
            LayerJson::MaxPool { .. } => Layers::MaxPool,
            LayerJson::FullyConnected { .. } => Layers::FullyConnected,
            LayerJson::Relu => Layers::Relu,
            LayerJson::Flatten => Layers::Flatten,
            LayerJson::Normalize => Layers::Normalize,
        }
    }

    /// The factory step: materializes the layer this record describes,
    /// passing every stored parameter through unchanged. The record kinds
    /// form a closed set and each carries its full payload, so construction
    /// succeeds for every record; the `Result` keeps the failure channel
    /// that callers of a factory must handle.
    pub fn build(self) -> (r: Result<Layer, LayerError>)
        ensures
            r is Ok,
            r->Ok_0@ == self@,
    {
        Ok(
            match self {
                LayerJson::Convolution { kernel } => Layer::Convolution { kernel },
                LayerJson::MaxPool { window } => Layer::MaxPool { window },
                LayerJson::FullyConnected { weights, biases } => Layer::FullyConnected {
                    weights,
                    biases,
                },
                LayerJson::Relu => Layer::Relu,
                LayerJson::Flatten => Layer::Flatten,
                LayerJson::Normalize => Layer::Normalize,
            },
        )
    }
}

} // verus!
