//! The graph builder: materializes marked layers as a node set and an
//! ordered edge list, and renders the identifiers and labels that a DOT
//! emitter consumes.
use vstd::prelude::*;

use crate::format::{Layer, LayerKind};

verus! {

/// A layer annotated with its resolved absolute predecessor indices, in
/// source-list order.
#[derive(Debug)]
pub struct MarkedLayer {
    pub from: Vec<usize>,
    pub layer: Layer,
}

/// The edges contributed by the marked layer at absolute index `i`: one
/// `(p, i)` edge per predecessor `p`, in predecessor-list order.
pub open spec fn layer_edges(ml: MarkedLayer, i: usize) -> Seq<(usize, usize)> {
    Seq::new(ml.from@.len(), |j: int| (ml.from@[j], i))
}

/// The edges of the first `k` marked layers, in layer order.
pub open spec fn edges_upto(layers: Seq<MarkedLayer>, k: int) -> Seq<(usize, usize)>
    decreases k,
{
    if k <= 0 {
        Seq::empty()
    } else {
        edges_upto(layers, k - 1) + layer_edges(layers[k - 1], (k - 1) as usize)
    }
}

/// The full flat edge list of a marked-layer sequence: layers in index
/// order, and within each layer its predecessors in list order.
pub open spec fn edges_spec(layers: Seq<MarkedLayer>) -> Seq<(usize, usize)> {
    edges_upto(layers, layers.len() as int)
}

/// Earlier layers' edges are stable under extension: for `k1 <= k2`, the
/// edge list of the first `k1` layers is a prefix of that of the first `k2`.
pub proof fn lemma_edges_upto_prefix(layers: Seq<MarkedLayer>, k1: int, k2: int)
    requires
        0 <= k1 <= k2 <= layers.len(),
    ensures
        edges_upto(layers, k1).len() <= edges_upto(layers, k2).len(),
        forall|m: int|
            0 <= m < edges_upto(layers, k1).len() ==> edges_upto(layers, k2)[m] == edges_upto(
                layers,
                k1,
            )[m],
    decreases k2 - k1,
{
    if k1 < k2 {
        lemma_edges_upto_prefix(layers, k1, k2 - 1);
    }
}

/// Order preservation: the edges of the layer at index `i` stand in the
/// full edge list contiguously after all edges of earlier layers, in the
/// order of `i`'s predecessor list; the `j`-th of them is `(from[j], i)`.
pub proof fn lemma_edge_order(layers: Seq<MarkedLayer>, i: int, j: int)
    requires
        0 <= i < layers.len(),
        0 <= j < layers[i].from@.len(),
    ensures
        0 <= edges_upto(layers, i).len() + j < edges_spec(layers).len(),
        edges_spec(layers)[edges_upto(layers, i).len() + j] == (layers[i].from@[j], i as usize),
{
    let pre = edges_upto(layers, i);
    let cur = edges_upto(layers, i + 1);
    assert(cur == pre + layer_edges(layers[i], i as usize));
    assert(cur[pre.len() + j] == layer_edges(layers[i], i as usize)[j]);
    lemma_edges_upto_prefix(layers, i + 1, layers.len() as int);
}

/// The decimal digit character for `d < 10`.
pub open spec fn digit_char(d: nat) -> char {
    if d == 0 {
        '0'
    } else if d == 1 {
        '1'
    } else if d == 2 {
        '2'
    } else if d == 3 {
        '3'
    } else if d == 4 {
        '4'
    } else if d == 5 {
        '5'
    } else if d == 6 {
        '6'
    } else if d == 7 {
        '7'
    } else if d == 8 {
        '8'
    } else {
        '9'
    }
}

/// The decimal representation of `n`, most significant digit first, with no
/// leading zeros (zero itself is `"0"`).
pub open spec fn dec_rep(n: nat) -> Seq<char>
    decreases n,
{
    if n < 10 {
        seq![digit_char(n)]
    } else {
        dec_rep(n / 10) + seq![digit_char(n % 10)]
    }
}

/// The one-character string for the decimal digit `d`.
fn digit_str(d: usize) -> (r: &'static str)
    requires
        d < 10,
    ensures
        r@ == seq![digit_char(d as nat)],
{
    let r: &'static str = if d == 0 {
        "0"
    } else if d == 1 {
        "1"
    } else if d == 2 {
        "2"
    } else if d == 3 {
        "3"
    } else if d == 4 {
        "4"
    } else if d == 5 {
        "5"
    } else if d == 6 {
        "6"
    } else if d == 7 {
        "7"
    } else if d == 8 {
        "8"
    } else {
        "9"
    };
    proof {
        reveal_strlit("0");
        reveal_strlit("1");
        reveal_strlit("2");
        reveal_strlit("3");
        reveal_strlit("4");
        reveal_strlit("5");
        reveal_strlit("6");
        reveal_strlit("7");
        reveal_strlit("8");
        reveal_strlit("9");
        assert(r@ =~= seq![digit_char(d as nat)]);
    }
    r
}

/// Render `n` in decimal.
pub fn dec_string(n: usize) -> (r: String)
    ensures
        r@ == dec_rep(n as nat),
    decreases n,
{
    if n < 10 {
        String::from_str(digit_str(n))
    } else {
        let mut s = dec_string(n / 10);
        s.append(digit_str(n % 10));
        s
    }
}

/// The display label of node `i`: `(<i>) <kind name>`.
pub open spec fn label_spec(i: nat, kind: LayerKind) -> Seq<char> {
    seq!['('] + dec_rep(i) + seq![')', ' '] + kind.spec_name()
}

/// The DOT identifier of node `i`: `N<i>`.
pub open spec fn node_id_spec(i: nat) -> Seq<char> {
    seq!['N'] + dec_rep(i)
}

/// The resolved graph: the node range `[0, N)` and the flat directed edge
/// list from predecessor to successor, in deterministic emission order.
#[derive(Debug)]
pub struct Graph {
    nds: Vec<usize>,
    eds: Vec<(usize, usize)>,
    layers: Vec<MarkedLayer>,
}

impl Graph {
    /// The node list.
    pub closed spec fn spec_nodes(self) -> Seq<usize> {
        self.nds@
    }

    /// The edge list.
    pub closed spec fn spec_edges(self) -> Seq<(usize, usize)> {
        self.eds@
    }

    /// The marked layers the graph was built from.
    pub closed spec fn spec_layers(self) -> Seq<MarkedLayer> {
        self.layers@
    }

    /// Build the graph from marked layers: nodes are `[0, N)` in ascending
    /// order, and edges are emitted by walking the layers in index order
    /// and, within each layer, its predecessor list in order.
    pub fn new(layers: Vec<MarkedLayer>) -> (g: Graph)
        ensures
            g.spec_layers() == layers@,
            g.spec_nodes() == Seq::new(layers@.len(), |i: int| i as usize),
            g.spec_edges() == edges_spec(layers@),
    {
        let n = layers.len();
        let mut nds: Vec<usize> = Vec::new();
        let mut i: usize = 0;
        while i < n
            invariant
                i <= n,
                nds@.len() == i,
                forall|t: int| 0 <= t < i ==> nds@[t] == t,
            decreases n - i,
        {
            nds.push(i);
            i += 1;
        }
        proof {
            assert(nds@ =~= Seq::new(layers@.len(), |t: int| t as usize));
        }
        let mut eds: Vec<(usize, usize)> = Vec::new();
        let mut i: usize = 0;
        while i < n
            invariant
                i <= n,
                n == layers@.len(),
                eds@ == edges_upto(layers@, i as int),
            decreases n - i,
        {
            let ghost le = layer_edges(layers@[i as int], i);
            let preds = &layers[i].from;
            let m = preds.len();
            let mut j: usize = 0;
            while j < m
                invariant
                    j <= m,
                    i < n,
                    n == layers@.len(),
                    m == layers@[i as int].from@.len(),
                    preds@ == layers@[i as int].from@,
                    le == layer_edges(layers@[i as int], i),
                    eds@ == edges_upto(layers@, i as int) + le.take(j as int),
                decreases m - j,
            {
                eds.push((preds[j], i));
                proof {
                    assert(le.take(j as int + 1) =~= le.take(j as int).push((preds@[j as int], i)));
                    assert(eds@ =~= edges_upto(layers@, i as int) + le.take(j as int + 1));
                }
                j += 1;
            }
            proof {
                assert(le.take(m as int) =~= le);
                assert(eds@ =~= edges_upto(layers@, i as int + 1));
            }
            i += 1;
        }
        Graph { nds, eds, layers }
    }

    /// The nodes, the contiguous range `[0, N)` in ascending order.
    pub fn nodes(&self) -> (r: &Vec<usize>)
        ensures
            r@ == self.spec_nodes(),
    {
        &self.nds
    }

    /// The flat edge list, in emission order.
    pub fn edges(&self) -> (r: &Vec<(usize, usize)>)
        ensures
            r@ == self.spec_edges(),
    {
        &self.eds
    }

    /// The number of nodes.
    pub fn node_count(&self) -> (n: usize)
        ensures
            n == self.spec_nodes().len(),
    {
        self.nds.len()
    }

    /// The source node of a directed edge.
    pub fn source(&self, e: &(usize, usize)) -> (r: usize)
        ensures
            r == e.0,
    {
        e.0
    }

    /// The target node of a directed edge.
    pub fn target(&self, e: &(usize, usize)) -> (r: usize)
        ensures
            r == e.1,
    {
        e.1
    }

    /// The fixed DOT graph identifier.
    pub fn graph_id(&self) -> (r: &'static str)
        ensures
            r@ == "yolov7"@,
    {
        "yolov7"
    }

    /// The DOT identifier of node `i`: `N<i>`.
    pub fn node_id(&self, i: usize) -> (r: String)
        ensures
            r@ == node_id_spec(i as nat),
    {
        let mut s = String::from_str("N");
        let num = dec_string(i);
        s.append(num.as_str());
        proof {
            reveal_strlit("N");
            assert(s@ =~= node_id_spec(i as nat));
        }
        s
    }

    /// The display label of node `i`: `(<i>) <kind name>`.
    pub fn node_label(&self, i: usize) -> (r: String)
        requires
            i < self.spec_layers().len(),
        ensures
            r@ == label_spec(i as nat, self.spec_layers()[i as int].layer.kind),
    {
        let mut s = String::from_str("(");
        let num = dec_string(i);
        s.append(num.as_str());
        s.append(") ");
        s.append(self.layers[i].layer.kind.name());
        proof {
            reveal_strlit("(");
            reveal_strlit(") ");
            assert(s@ =~= label_spec(i as nat, self.spec_layers()[i as int].layer.kind));
        }
        s
    }
}

} // verus!
