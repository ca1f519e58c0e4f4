//! The index resolver: assigns each layer its absolute index in the
//! concatenated `backbone ++ head` sequence and rewrites every source
//! reference into absolute predecessor indices, rejecting out-of-range
//! references and a malformed first layer.
use vstd::prelude::*;

use crate::error::ModelError;
use crate::format::{src_refs, Layer, LayerRef, Model, Src};
use crate::graph::MarkedLayer;

verus! {

/// The absolute index a reference denotes when it stands on the layer at
/// absolute index `i`: an absolute reference denotes itself, a relative
/// reference counts backwards from `i`.
pub open spec fn resolve_code(r: LayerRef, i: int) -> int {
    match r {
        LayerRef::Relative(d) => i - d,
        LayerRef::Absolute(p) => p as int,
    }
}

/// The reference resolves to a strictly prior layer: `0 <= p < i`.
pub open spec fn ref_ok(r: LayerRef, i: int) -> bool {
    0 <= resolve_code(r, i) < i
}

/// The ordered references of a layer's source.
pub open spec fn layer_refs(l: Layer) -> Seq<LayerRef> {
    src_refs(l.from)
}

/// Every reference of the source resolves to a strictly prior layer.
pub open spec fn layer_ok_src(src: Src, i: int) -> bool {
    forall|j: int| 0 <= j < src_refs(src).len() ==> ref_ok(#[trigger] src_refs(src)[j], i)
}

/// Every reference of the layer at index `i` resolves to a strictly prior
/// layer.
pub open spec fn layer_ok(l: Layer, i: int) -> bool {
    layer_ok_src(l.from, i)
}

/// The first backbone layer carries the sentinel source `Single(Relative(1))`,
/// which stands for the external input tensor.
pub open spec fn sentinel_ok(l: Layer) -> bool {
    l.from matches Src::Single(r) && r == LayerRef::Relative(1usize)
}

/// The combined layer sequence: the backbone first, then the head, sharing
/// one absolute index space.
pub open spec fn model_layers(m: Model) -> Seq<Layer> {
    m.backbone@ + m.head@
}

/// The conditions under which resolution succeeds: a non-empty backbone,
/// the sentinel first layer, and every later layer's references in range.
pub open spec fn resolvable(m: Model) -> bool {
    &&& m.backbone@.len() > 0
    &&& sentinel_ok(m.backbone@[0])
    &&& forall|i: int| 1 <= i < model_layers(m).len() ==> layer_ok(#[trigger] model_layers(m)[i], i)
}

/// `preds` is exactly the in-order resolution of the source at index `i`.
pub open spec fn preds_match_src(preds: Seq<usize>, src: Src, i: int) -> bool {
    &&& preds.len() == src_refs(src).len()
    &&& forall|j: int|
        0 <= j < preds.len() ==> (#[trigger] preds[j]) as int == resolve_code(src_refs(src)[j], i)
}

/// `preds` is exactly the in-order resolution of the layer's references at
/// index `i`.
pub open spec fn preds_match(preds: Seq<usize>, l: Layer, i: int) -> bool {
    preds_match_src(preds, l.from, i)
}

/// The marked layers `ml` are the correct resolution of the layer sequence
/// `ls`: same layers in the same order, the first with no predecessors, and
/// every later one with its references resolved in source order.
pub open spec fn marked_ok(ml: Seq<MarkedLayer>, ls: Seq<Layer>) -> bool {
    &&& ml.len() == ls.len()
    &&& forall|i: int| 0 <= i < ml.len() ==> (#[trigger] ml[i]).layer == ls[i]
    &&& ml.len() > 0 ==> ml[0].from@.len() == 0
    &&& forall|i: int| 1 <= i < ml.len() ==> preds_match((#[trigger] ml[i]).from@, ls[i], i)
}

/// The error `e` names the first failure in `m`: either the backbone is
/// empty, or the first layer is not the sentinel, or `e` carries the first
/// layer index (and within it the first reference) that resolves out of
/// range, all earlier layers being in range.
pub open spec fn err_describes(e: ModelError, m: Model) -> bool {
    match e {
        ModelError::EmptyBackbone => m.backbone@.len() == 0,
        ModelError::BadFirstLayer { src } => {
            &&& m.backbone@.len() > 0
            &&& src == m.backbone@[0].from
            &&& !sentinel_ok(m.backbone@[0])
        },
        ModelError::OutOfRange { layer, reference } => {
            let ls = model_layers(m);
            &&& m.backbone@.len() > 0
            &&& sentinel_ok(m.backbone@[0])
            &&& 1 <= layer < ls.len()
            &&& forall|i: int| 1 <= i < layer ==> layer_ok(#[trigger] ls[i], i)
            &&& exists|j: int|
                {
                    &&& 0 <= j < layer_refs(ls[layer as int]).len()
                    &&& #[trigger] layer_refs(ls[layer as int])[j] == reference
                    &&& !ref_ok(reference, layer as int)
                    &&& forall|t: int|
                        0 <= t < j ==> ref_ok(#[trigger] layer_refs(ls[layer as int])[t], layer as int)
                }
        },
        ModelError::OddAnchorList { .. } => false,
    }
}

/// Resolve one reference standing on the layer at absolute index `i`:
/// `Some(p)` with `0 <= p < i` exactly when the reference is in range.
fn resolve_ref(r: &LayerRef, i: usize) -> (res: Option<usize>)
    ensures
        res is Some <==> ref_ok(*r, i as int),
        res matches Some(p) ==> p as int == resolve_code(*r, i as int),
{
    match *r {
        LayerRef::Relative(d) => {
            if 1 <= d && d <= i {
                Some(i - d)
            } else {
                None
            }
        },
        LayerRef::Absolute(p) => {
            if p < i {
                Some(p)
            } else {
                None
            }
        },
    }
}

/// Resolve every reference of the layer at index `i >= 1` into absolute
/// predecessor indices, in source order; on the first out-of-range
/// reference, report it.
fn resolve_layer_refs(src: &Src, i: usize) -> (res: Result<Vec<usize>, LayerRef>)
    requires
        i >= 1,
    ensures
        res is Ok <==> layer_ok_src(*src, i as int),
        res matches Ok(preds) ==> preds_match_src(preds@, *src, i as int),
        res matches Err(reference) ==> exists|j: int|
            {
                &&& 0 <= j < src_refs(*src).len()
                &&& #[trigger] src_refs(*src)[j] == reference
                &&& !ref_ok(reference, i as int)
                &&& forall|t: int| 0 <= t < j ==> ref_ok(#[trigger] src_refs(*src)[t], i as int)
            },
{
    match src {
        Src::Single(r) => {
            match resolve_ref(r, i) {
                Some(p) => {
                    let mut preds: Vec<usize> = Vec::new();
                    preds.push(p);
                    proof {
                        assert(src_refs(*src) =~= seq![*r]);
                        assert(preds@ =~= seq![p]);
                    }
                    Ok(preds)
                },
                None => {
                    proof {
                        assert(src_refs(*src) =~= seq![*r]);
                        assert(src_refs(*src)[0] == *r);
                    }
                    Err(*r)
                },
            }
        },
        Src::Multi(refs) => {
            let n = refs.len();
            let mut preds: Vec<usize> = Vec::new();
            let mut j: usize = 0;
            while j < n
                invariant
                    j <= n,
                    n == refs@.len(),
                    refs@ == src_refs(*src),
                    i >= 1,
                    preds@.len() == j,
                    forall|t: int|
                        0 <= t < j ==> (#[trigger] preds@[t]) as int == resolve_code(refs@[t], i as int),
                    forall|t: int| 0 <= t < j ==> ref_ok(#[trigger] refs@[t], i as int),
                decreases n - j,
            {
                match resolve_ref(&refs[j], i) {
                    Some(p) => {
                        preds.push(p);
                    },
                    None => {
                        return Err(refs[j]);
                    },
                }
                j += 1;
            }
            Ok(preds)
        },
    }
}

/// Index assignment: in the combined index space the head layer at position
/// `k` stands at absolute index `B + k`, where `B` is the backbone length.
pub proof fn lemma_head_index(m: Model, k: int)
    requires
        0 <= k < m.head@.len(),
    ensures
        model_layers(m)[m.backbone@.len() + k] == m.head@[k],
{
}

/// Index assignment carried to the resolver's output: in a correctly marked
/// sequence, the marked layer at absolute index `B + k` carries the head
/// layer at position `k`.
pub proof fn lemma_marked_head_index(ml: Seq<MarkedLayer>, m: Model, k: int)
    requires
        marked_ok(ml, model_layers(m)),
        0 <= k < m.head@.len(),
    ensures
        ml[m.backbone@.len() + k].layer == m.head@[k],
{
    lemma_head_index(m, k);
}

/// Resolve a whole model: assign each layer its absolute index in the
/// concatenated `backbone ++ head` order and rewrite every source into the
/// list of absolute predecessor indices. Succeeds exactly on resolvable
/// models; on failure the error names the first offending layer and its
/// raw reference. On success every predecessor is strictly prior and in
/// range: acyclicity by construction.
pub fn resolve_model(model: Model) -> (r: Result<Vec<MarkedLayer>, ModelError>)
    ensures
        r is Ok <==> resolvable(model),
        r matches Ok(ml) ==> marked_ok(ml@, model_layers(model)),
        r matches Ok(ml) ==> forall|i: int, j: int|
            0 <= i < ml@.len() && 0 <= j < (#[trigger] ml@[i]).from@.len() ==> 0 <= #[trigger] ml@[i].from@[j]
                < i,
        r matches Ok(ml) ==> forall|i: int, j: int|
            0 <= i < ml@.len() && 0 <= j < (#[trigger] ml@[i]).from@.len() ==> (#[trigger] ml@[i].from@[j] as int)
                < ml@.len(),
        r matches Err(e) ==> err_describes(e, model),
{
    let Model { nc: _, anchors: _, backbone, head } = model;
    let ghost all: Seq<Layer> = model_layers(model);
    if backbone.len() == 0 {
        return Err(ModelError::EmptyBackbone);
    }
    let mut layers = backbone;
    let mut tail = head;
    layers.append(&mut tail);
    proof {
        assert(layers@ == all);
    }
    let n = layers.len();
    let mut out: Vec<MarkedLayer> = Vec::new();
    let mut i: usize = 0;
    while i < n
        invariant
            i <= n,
            n == all.len(),
            n >= 1,
            model.backbone@.len() > 0,
            all == model_layers(model),
            layers@ == all.skip(i as int),
            out@.len() == i,
            forall|k: int| 0 <= k < i ==> (#[trigger] out@[k]).layer == all[k],
            i > 0 ==> out@[0].from@.len() == 0 && sentinel_ok(all[0]),
            forall|k: int| 1 <= k < i ==> preds_match((#[trigger] out@[k]).from@, all[k], k),
            forall|k: int| 1 <= k < i ==> layer_ok(#[trigger] all[k], k),
        decreases n - i,
    {
        let ghost kk = i as int;
        let layer = layers.remove(0);
        proof {
            assert(layer == all[kk]);
            assert(layers@ =~= all.skip(kk + 1));
        }
        if i == 0 {
            let is_sentinel = match &layer.from {
                Src::Single(LayerRef::Relative(d)) => *d == 1,
                _ => false,
            };
            if !is_sentinel {
                return Err(ModelError::BadFirstLayer { src: layer.from });
            }
            out.push(MarkedLayer { from: Vec::new(), layer });
        } else {
            match resolve_layer_refs(&layer.from, i) {
                Ok(preds) => {
                    proof {
                        assert(layer_refs(all[kk]) == src_refs(all[kk].from));
                    }
                    out.push(MarkedLayer { from: preds, layer });
                },
                Err(reference) => {
                    proof {
                        assert(!layer_ok(all[kk], kk));
                    }
                    return Err(ModelError::OutOfRange { layer: i, reference });
                },
            }
        }
        i += 1;
    }
    proof {
        assert(resolvable(model));
        assert(marked_ok(out@, all));
        assert forall|a: int, b: int|
            0 <= a < out@.len() && 0 <= b < (#[trigger] out@[a]).from@.len() implies 0 <= #[trigger] out@[a].from@[b]
            < a by {
            if a == 0 {
            } else {
                assert(preds_match(out@[a].from@, all[a], a));
                assert(layer_ok(all[a], a));
                assert(out@[a].from@[b] as int == resolve_code(layer_refs(all[a])[b], a));
                assert(ref_ok(layer_refs(all[a])[b], a));
            }
        }
    }
    Ok(out)
}

} // verus!
