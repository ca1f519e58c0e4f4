use yolo_graph::{
    Graph, Layer, LayerKind, LayerRef, MarkedLayer, Param, SerializedLayer, SerializedSrc, Src,
};
use yolo_graph::graph::dec_string;

#[test]
fn absolute_round_trip() {
    let r = LayerRef::Absolute(7);
    assert_eq!(r.to_index(), 7);
    assert!(matches!(LayerRef::from_index(7), LayerRef::Absolute(7)));
}

#[test]
fn relative_round_trip() {
    let r = LayerRef::Relative(3);
    assert_eq!(r.to_index(), -3);
    assert!(matches!(LayerRef::from_index(-3), LayerRef::Relative(3)));
}

#[test]
fn zero_decodes_to_absolute() {
    assert!(matches!(LayerRef::from_index(0), LayerRef::Absolute(0)));
    assert_eq!(LayerRef::Absolute(0).to_index(), 0);
}

#[test]
fn src_decodes_scalar_and_list() {
    let s = Src::from_serialized(&SerializedSrc::Single(-2));
    assert!(matches!(s, Src::Single(LayerRef::Relative(2))));
    let m = Src::from_serialized(&SerializedSrc::Multi(vec![0, -1, 4]));
    match m {
        Src::Multi(refs) => {
            assert_eq!(
                refs,
                vec![
                    LayerRef::Absolute(0),
                    LayerRef::Relative(1),
                    LayerRef::Absolute(4),
                ]
            );
        }
        Src::Single(_) => panic!("expected a list source"),
    }
}

#[test]
fn src_encodes_back() {
    let s = Src::Multi(vec![
        LayerRef::Absolute(0),
        LayerRef::Relative(1),
        LayerRef::Absolute(4),
    ]);
    match s.to_serialized() {
        SerializedSrc::Multi(codes) => assert_eq!(codes, vec![0, -1, 4]),
        SerializedSrc::Single(_) => panic!("expected a list source"),
    }
}

#[test]
fn layer_wire_round_trip() {
    let wire = SerializedLayer(
        SerializedSrc::Single(-1),
        2,
        LayerKind::SPPCSPC,
        vec![Param::Value(512), Param::Absent, Param::Text(String::from("nearest"))],
    );
    let layer = Layer::from_serialized(wire);
    assert!(matches!(layer.from, Src::Single(LayerRef::Relative(1))));
    assert_eq!(layer.multiple, 2);
    assert!(matches!(layer.kind, LayerKind::SPPCSPC));
    assert_eq!(layer.params.len(), 3);
    let back = layer.to_serialized();
    assert!(matches!(back.0, SerializedSrc::Single(-1)));
    assert_eq!(back.1, 2);
    assert!(matches!(back.2, LayerKind::SPPCSPC));
    assert!(matches!(back.3[1], Param::Absent));
}

#[test]
fn kind_display_names() {
    assert_eq!(LayerKind::Conv.name(), "Conv");
    assert_eq!(LayerKind::nnUpsample.name(), "nnUpsample");
    assert_eq!(LayerKind::GhostBlock.name(), "Ghost");
    assert_eq!(LayerKind::OREPA_3x3_RepConv.name(), "OREPA_3x3_RepConv");
}

#[test]
fn decimal_rendering() {
    assert_eq!(dec_string(0), "0");
    assert_eq!(dec_string(7), "7");
    assert_eq!(dec_string(10), "10");
    assert_eq!(dec_string(1234), "1234");
}

fn plain_layer(kind: LayerKind) -> MarkedLayer {
    MarkedLayer {
        from: vec![],
        layer: Layer {
            from: Src::Single(LayerRef::Relative(1)),
            multiple: 1,
            kind,
            params: vec![],
        },
    }
}

#[test]
fn dot_identifiers_and_labels() {
    let mut marked = vec![plain_layer(LayerKind::Conv)];
    for _ in 0..10 {
        marked.push(plain_layer(LayerKind::Concat));
    }
    marked.push(plain_layer(LayerKind::nnUpsample));
    let g = Graph::new(marked);
    assert_eq!(g.graph_id(), "yolov7");
    assert_eq!(g.node_id(0), "N0");
    assert_eq!(g.node_id(11), "N11");
    assert_eq!(g.node_label(0), "(0) Conv");
    assert_eq!(g.node_label(11), "(11) nnUpsample");
    let e = (3usize, 5usize);
    assert_eq!(g.source(&e), 3);
    assert_eq!(g.target(&e), 5);
    assert_eq!(g.node_count(), 12);
}
