use neural_net::JSONLayer;
use neural_net::Layer;
use neural_net::LayerError;
use neural_net::LayerJson;
use neural_net::Layers;
use neural_net::NNJson;
use neural_net::NeuralNetwork;
use neural_net::Tensor;

fn bits(values: &[f32]) -> Vec<u32> {
    values.iter().map(|v| v.to_bits()).collect()
}

fn tensor(shape: &[usize], values: &[f32]) -> Tensor {
    Tensor::new(shape.to_vec(), bits(values)).expect("consistent tensor")
}

fn record_tag(r: &LayerJson) -> Layers {
    r.tag()
}

fn assert_records_equal(a: &LayerJson, b: &LayerJson) {
    match (a, b) {
        (LayerJson::Convolution { kernel: ka }, LayerJson::Convolution { kernel: kb }) => {
            assert_eq!(ka.shape().clone(), kb.shape().clone());
            assert_eq!(ka.data().clone(), kb.data().clone());
        }
        (LayerJson::MaxPool { window: wa }, LayerJson::MaxPool { window: wb }) => {
            assert_eq!(wa, wb);
        }
        (
            LayerJson::FullyConnected { weights: wa, biases: ba },
            LayerJson::FullyConnected { weights: wb, biases: bb },
        ) => {
            assert_eq!(wa.shape().clone(), wb.shape().clone());
            assert_eq!(wa.data().clone(), wb.data().clone());
            assert_eq!(ba.shape().clone(), bb.shape().clone());
            assert_eq!(ba.data().clone(), bb.data().clone());
        }
        (LayerJson::Relu, LayerJson::Relu) => {}
        (LayerJson::Flatten, LayerJson::Flatten) => {}
        (LayerJson::Normalize, LayerJson::Normalize) => {}
        _ => panic!("records differ in kind"),
    }
}

#[test]
fn tensor_construction_checks_consistency() {
    assert!(Tensor::new(vec![2, 3], bits(&[0.0; 6])).is_some());
    assert!(Tensor::new(vec![2, 3], bits(&[0.0; 5])).is_none());
    assert!(Tensor::new(vec![0, 3], Vec::new()).is_some());
    assert!(Tensor::new(vec![], bits(&[1.0])).is_some());
    assert!(Tensor::new(vec![], Vec::new()).is_none());
}

#[test]
fn layer_names_are_stable() {
    assert_eq!(Layers::Convolution.name(), "convolution");
    assert_eq!(Layers::MaxPool.name(), "max_pool");
    assert_eq!(Layers::Relu.name(), "relu");
    assert_eq!(Layers::Flatten.name(), "flatten");
    assert_eq!(Layers::FullyConnected.name(), "fully_connected");
    assert_eq!(Layers::Normalize.name(), "normalize");
    assert_eq!(Layer::Flatten.name(), "flatten");
    assert_eq!(Layer::MaxPool { window: 2 }.tag(), Layers::MaxPool);
}

#[test]
fn layer_shape_introspection() {
    let conv = Layer::Convolution { kernel: tensor(&[2, 2, 2], &[1.0; 8]) };
    assert!(conv.accepts_shape(&vec![2, 4, 4]));
    assert!(!conv.accepts_shape(&vec![1, 4, 4]));
    assert!(!conv.accepts_shape(&vec![2, 1, 4]));
    assert_eq!(conv.output_shape(&vec![2, 4, 4]), Some(vec![1, 3, 3]));
    assert_eq!(conv.output_shape(&vec![1, 4, 4]), None);

    let pool = Layer::MaxPool { window: 3 };
    assert_eq!(pool.output_shape(&vec![2, 6, 9]), Some(vec![2, 2, 3]));
    assert_eq!(pool.output_shape(&vec![2, 5, 9]), None);

    let dense = Layer::FullyConnected {
        weights: tensor(&[3, 4], &[0.0; 12]),
        biases: tensor(&[3], &[0.0; 3]),
    };
    assert_eq!(dense.output_shape(&vec![4]), Some(vec![3]));
    assert_eq!(dense.output_shape(&vec![5]), None);
    assert_eq!(dense.num_params(), 15);

    assert_eq!(Layer::Relu.output_shape(&vec![7, 1]), Some(vec![7, 1]));
    assert_eq!(Layer::Flatten.output_shape(&vec![2, 3, 4]), Some(vec![24]));
    assert_eq!(Layer::Normalize.output_shape(&vec![5]), Some(vec![5]));
}

#[test]
fn factory_builds_every_record_kind() {
    let records = vec![
        LayerJson::Convolution { kernel: tensor(&[1, 2, 2], &[1.0, 2.0, 3.0, 4.0]) },
        LayerJson::MaxPool { window: 2 },
        LayerJson::FullyConnected {
            weights: tensor(&[2, 4], &[0.5; 8]),
            biases: tensor(&[2], &[0.25, -0.25]),
        },
        LayerJson::Relu,
        LayerJson::Flatten,
        LayerJson::Normalize,
    ];
    let expected = [
        Layers::Convolution,
        Layers::MaxPool,
        Layers::FullyConnected,
        Layers::Relu,
        Layers::Flatten,
        Layers::Normalize,
    ];
    for (record, tag) in records.into_iter().zip(expected) {
        assert_eq!(record_tag(&record), tag);
        let layer: Layer = record.build().expect("every record kind builds");
        assert_eq!(layer.tag(), tag);
    }
}

#[test]
fn round_trip_preserves_tags_and_parameters() {
    let mut nn = NeuralNetwork::new();
    nn.add_layer(Layer::Convolution {
        kernel: tensor(&[1, 2, 2], &[0.1, -0.2, 0.3, -0.4]),
    });
    nn.add_layer(Layer::MaxPool { window: 2 });
    nn.add_layer(Layer::Relu);
    nn.add_layer(Layer::Flatten);
    nn.add_layer(Layer::FullyConnected {
        weights: tensor(&[2, 4], &[1.0, 2.0, 3.0, 4.0, 5.0, 6.0, 7.0, 8.0]),
        biases: tensor(&[2], &[-1.0, 1.0]),
    });
    nn.add_layer(Layer::Normalize);

    let record = nn.to_json();
    let rebuilt: NeuralNetwork = record.build().expect("reconstruction succeeds");
    let again = rebuilt.to_json();

    let original_record = {
        let mut nn2 = NeuralNetwork::new();
        nn2.add_layer(Layer::Convolution {
            kernel: tensor(&[1, 2, 2], &[0.1, -0.2, 0.3, -0.4]),
        });
        nn2.add_layer(Layer::MaxPool { window: 2 });
        nn2.add_layer(Layer::Relu);
        nn2.add_layer(Layer::Flatten);
        nn2.add_layer(Layer::FullyConnected {
            weights: tensor(&[2, 4], &[1.0, 2.0, 3.0, 4.0, 5.0, 6.0, 7.0, 8.0]),
            biases: tensor(&[2], &[-1.0, 1.0]),
        });
        nn2.add_layer(Layer::Normalize);
        nn2.to_json()
    };

    assert_eq!(again.layers.len(), original_record.layers.len());
    for (a, b) in again.layers.iter().zip(original_record.layers.iter()) {
        assert_records_equal(a, b);
    }
}

#[test]
fn fully_connected_round_trip_keeps_weights_and_biases() {
    // The dense layer's record must carry its parameters through the
    // factory unchanged, or the round trip would silently forget them.
    let weights = tensor(&[2, 3], &[9.5, -8.25, 7.0, -6.5, 5.75, -4.0]);
    let biases = tensor(&[2], &[0.125, -0.375]);
    let record = LayerJson::FullyConnected { weights, biases };
    let layer = record.build().expect("dense record builds");
    match layer.to_json() {
        LayerJson::FullyConnected { weights: w, biases: b } => {
            assert_eq!(w.shape().clone(), vec![2, 3]);
            assert_eq!(w.data().clone(), bits(&[9.5, -8.25, 7.0, -6.5, 5.75, -4.0]));
            assert_eq!(b.shape().clone(), vec![2]);
            assert_eq!(b.data().clone(), bits(&[0.125, -0.375]));
        }
        _ => panic!("kind changed across the round trip"),
    }
}

#[test]
fn empty_network_round_trip() {
    let nn = NeuralNetwork::new();
    let record = nn.to_json();
    assert!(record.layers.is_empty());
    let rebuilt = record.build().expect("empty record builds");
    assert!(rebuilt.to_json().layers.is_empty());
}

#[test]
fn loose_layer_description_carries_kind_and_payload() {
    let loose = JSONLayer {
        layer_type: Layers::MaxPool,
        kernel: None,
        kernel_size: Some(2),
        weights: None,
        biases: None,
    };
    assert_eq!(loose.layer_type, Layers::MaxPool);
    assert_eq!(loose.kernel_size, Some(2));
    assert!(loose.kernel.is_none());
    assert!(loose.weights.is_none());
    assert!(loose.biases.is_none());
}

#[test]
fn error_values_are_distinguishable() {
    assert_ne!(LayerError::UnsupportedRank, LayerError::ShapeMismatch);
    assert_ne!(LayerError::UnknownLayerKind, LayerError::NetworkDeserializationFailed);
    let e = LayerError::UnsupportedRank;
    assert_eq!(e, LayerError::UnsupportedRank);
}
