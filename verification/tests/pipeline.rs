use yolo_graph::{
    AnchorList, Graph, LayerKind, LayerRef, MarkedLayer, Model, ModelError, Param,
    SerializedAnchorList, SerializedLayer, SerializedModel, SerializedSrc, Src,
};
use yolo_graph::resolve_model;

fn single(from: isize, kind: LayerKind, params: Vec<Param>) -> SerializedLayer {
    SerializedLayer(SerializedSrc::Single(from), 1, kind, params)
}

fn multi(from: Vec<isize>, kind: LayerKind) -> SerializedLayer {
    SerializedLayer(SerializedSrc::Multi(from), 1, kind, vec![])
}

fn doc(backbone: Vec<SerializedLayer>, head: Vec<SerializedLayer>) -> SerializedModel {
    SerializedModel { nc: 1, anchors: vec![], backbone, head }
}

fn resolve_ok(raw: SerializedModel) -> Vec<MarkedLayer> {
    let model = Model::normalize(raw).unwrap();
    resolve_model(model).unwrap()
}

fn edge_list(g: &Graph) -> Vec<(usize, usize)> {
    g.edges().clone()
}

#[test]
fn minimum_backbone() {
    let raw = doc(
        vec![single(
            -1,
            LayerKind::Conv,
            vec![Param::Value(32), Param::Value(3), Param::Value(1)],
        )],
        vec![],
    );
    let marked = resolve_ok(raw);
    assert_eq!(marked.len(), 1);
    assert!(marked[0].from.is_empty());
    let g = Graph::new(marked);
    assert_eq!(g.nodes().clone(), vec![0]);
    assert!(edge_list(&g).is_empty());
}

#[test]
fn relative_chain() {
    let raw = doc(
        vec![
            single(-1, LayerKind::Conv, vec![]),
            single(-1, LayerKind::Conv, vec![]),
            single(-1, LayerKind::Conv, vec![]),
        ],
        vec![],
    );
    let g = Graph::new(resolve_ok(raw));
    assert_eq!(edge_list(&g), vec![(0, 1), (1, 2)]);
}

#[test]
fn cross_section_absolute_reference() {
    let raw = doc(
        vec![
            single(-1, LayerKind::Conv, vec![]),
            single(-1, LayerKind::Conv, vec![]),
        ],
        vec![
            single(1, LayerKind::Concat, vec![]),
            single(-1, LayerKind::Conv, vec![]),
        ],
    );
    let g = Graph::new(resolve_ok(raw));
    assert_eq!(g.nodes().clone(), vec![0, 1, 2, 3]);
    assert_eq!(edge_list(&g), vec![(0, 1), (1, 2), (2, 3)]);
}

#[test]
fn multi_input_concat() {
    let raw = doc(
        vec![
            single(-1, LayerKind::Conv, vec![]),
            single(-1, LayerKind::Conv, vec![]),
            multi(vec![0, -1], LayerKind::Concat),
        ],
        vec![],
    );
    let marked = resolve_ok(raw);
    assert_eq!(marked[2].from, vec![0, 1]);
    let g = Graph::new(marked);
    assert_eq!(edge_list(&g), vec![(0, 1), (0, 2), (1, 2)]);
}

#[test]
fn first_layer_sentinel_empty_predecessors() {
    let raw = doc(
        vec![
            single(-1, LayerKind::Focus, vec![]),
            single(-1, LayerKind::Conv, vec![]),
        ],
        vec![],
    );
    let marked = resolve_ok(raw);
    assert!(marked[0].from.is_empty());
}

#[test]
fn head_index_assignment() {
    let raw = doc(
        vec![
            single(-1, LayerKind::Conv, vec![]),
            single(-1, LayerKind::Focus, vec![]),
        ],
        vec![
            single(1, LayerKind::Concat, vec![]),
            single(-1, LayerKind::Detect, vec![]),
        ],
    );
    let marked = resolve_ok(raw);
    assert_eq!(marked.len(), 4);
    assert!(matches!(marked[2].layer.kind, LayerKind::Concat));
    assert!(matches!(marked[3].layer.kind, LayerKind::Detect));
}

#[test]
fn acyclic_and_in_range() {
    let raw = doc(
        vec![
            single(-1, LayerKind::Conv, vec![]),
            single(-1, LayerKind::Conv, vec![]),
            multi(vec![0, -1], LayerKind::Concat),
            single(-2, LayerKind::Conv, vec![]),
        ],
        vec![
            multi(vec![-1, 1], LayerKind::Chuncat),
            single(-1, LayerKind::Detect, vec![]),
        ],
    );
    let marked = resolve_ok(raw);
    for (i, ml) in marked.iter().enumerate() {
        for &p in &ml.from {
            assert!(p < i);
            assert!(p < marked.len());
        }
    }
}

#[test]
fn order_preserved_with_duplicates() {
    let raw = doc(
        vec![
            single(-1, LayerKind::Conv, vec![]),
            single(-1, LayerKind::Conv, vec![]),
            multi(vec![0, -1, 0], LayerKind::Concat),
        ],
        vec![],
    );
    let marked = resolve_ok(raw);
    assert_eq!(marked[2].from, vec![0, 1, 0]);
    let g = Graph::new(marked);
    assert_eq!(edge_list(&g), vec![(0, 1), (0, 2), (1, 2), (0, 2)]);
}

#[test]
fn empty_multi_is_a_root() {
    let raw = doc(
        vec![
            single(-1, LayerKind::Conv, vec![]),
            multi(vec![], LayerKind::Concat),
        ],
        vec![],
    );
    let marked = resolve_ok(raw);
    assert!(marked[1].from.is_empty());
}

#[test]
fn malformed_first_layer() {
    let raw = doc(vec![single(0, LayerKind::Conv, vec![])], vec![]);
    let model = Model::normalize(raw).unwrap();
    let err = resolve_model(model).unwrap_err();
    assert!(matches!(
        err,
        ModelError::BadFirstLayer { src: Src::Single(LayerRef::Absolute(0)) }
    ));
}

#[test]
fn forward_absolute_reference_rejected() {
    let raw = doc(
        vec![
            single(-1, LayerKind::Conv, vec![]),
            single(3, LayerKind::Conv, vec![]),
        ],
        vec![],
    );
    let model = Model::normalize(raw).unwrap();
    let err = resolve_model(model).unwrap_err();
    assert!(matches!(
        err,
        ModelError::OutOfRange { layer: 1, reference: LayerRef::Absolute(3) }
    ));
}

#[test]
fn relative_underflow_rejected() {
    let raw = doc(
        vec![
            single(-1, LayerKind::Conv, vec![]),
            single(-1, LayerKind::Conv, vec![]),
            single(-5, LayerKind::Conv, vec![]),
        ],
        vec![],
    );
    let model = Model::normalize(raw).unwrap();
    let err = resolve_model(model).unwrap_err();
    assert!(matches!(
        err,
        ModelError::OutOfRange { layer: 2, reference: LayerRef::Relative(5) }
    ));
}

#[test]
fn self_reference_rejected() {
    let raw = doc(
        vec![
            single(-1, LayerKind::Conv, vec![]),
            single(1, LayerKind::Conv, vec![]),
        ],
        vec![],
    );
    let model = Model::normalize(raw).unwrap();
    let err = resolve_model(model).unwrap_err();
    assert!(matches!(
        err,
        ModelError::OutOfRange { layer: 1, reference: LayerRef::Absolute(1) }
    ));
}

#[test]
fn empty_backbone_rejected() {
    let raw = doc(vec![], vec![single(-1, LayerKind::Conv, vec![])]);
    let err = Model::normalize(raw).unwrap_err();
    assert!(matches!(err, ModelError::EmptyBackbone));
}

#[test]
fn anchor_pairing() {
    let raw = SerializedModel {
        nc: 1,
        anchors: vec![SerializedAnchorList(vec![10, 13, 16, 30, 33, 23])],
        backbone: vec![single(-1, LayerKind::Conv, vec![])],
        head: vec![],
    };
    let model = Model::normalize(raw).unwrap();
    assert_eq!(model.anchors.len(), 1);
    let pairs: Vec<(usize, usize)> = model.anchors[0].0.iter().map(|wh| (wh.w, wh.h)).collect();
    assert_eq!(pairs, vec![(10, 13), (16, 30), (33, 23)]);
    let reflat = model.anchors[0].to_flat();
    assert_eq!(reflat.0, vec![10, 13, 16, 30, 33, 23]);
}

#[test]
fn odd_anchor_list_rejected() {
    let raw = SerializedModel {
        nc: 1,
        anchors: vec![SerializedAnchorList(vec![10, 13, 16])],
        backbone: vec![single(-1, LayerKind::Conv, vec![])],
        head: vec![],
    };
    let err = Model::normalize(raw).unwrap_err();
    assert!(matches!(err, ModelError::OddAnchorList { index: 0, len: 3 }));
}

#[test]
fn class_count_carried_over() {
    let raw = SerializedModel {
        nc: 80,
        anchors: vec![],
        backbone: vec![single(-1, LayerKind::Conv, vec![])],
        head: vec![],
    };
    let model = Model::normalize(raw).unwrap();
    assert_eq!(model.nc, 80);
}

#[test]
fn model_wire_round_trip() {
    let raw = SerializedModel {
        nc: 2,
        anchors: vec![SerializedAnchorList(vec![4, 5, 6, 7])],
        backbone: vec![
            single(-1, LayerKind::Conv, vec![Param::Value(64)]),
            multi(vec![0, -1], LayerKind::Concat),
        ],
        head: vec![single(1, LayerKind::Detect, vec![])],
    };
    let model = Model::normalize(raw).unwrap();
    let back = model.to_serialized();
    assert_eq!(back.nc, 2);
    assert_eq!(back.anchors.len(), 1);
    assert_eq!(back.anchors[0].0, vec![4, 5, 6, 7]);
    assert_eq!(back.backbone.len(), 2);
    assert!(matches!(back.backbone[0].0, SerializedSrc::Single(-1)));
    assert!(matches!(back.backbone[0].2, LayerKind::Conv));
    match &back.backbone[1].0 {
        SerializedSrc::Multi(codes) => assert_eq!(codes, &vec![0, -1]),
        SerializedSrc::Single(_) => panic!("expected a list source"),
    }
    assert_eq!(back.head.len(), 1);
    assert!(matches!(back.head[0].0, SerializedSrc::Single(1)));
}

#[test]
fn ghost_label_keeps_wire_spelling() {
    let raw = doc(
        vec![
            single(-1, LayerKind::Conv, vec![]),
            single(-1, LayerKind::GhostBlock, vec![]),
        ],
        vec![],
    );
    let g = Graph::new(resolve_ok(raw));
    assert_eq!(g.node_label(1), "(1) Ghost");
}

#[test]
fn empty_anchor_list_pairs_to_nothing() {
    let flat = SerializedAnchorList(vec![]);
    let a = AnchorList::from_flat(&flat).unwrap();
    assert!(a.0.is_empty());
    assert!(a.to_flat().0.is_empty());
}
