//! Domain model for a declarative layer-graph description: layer references,
//! sources, anchors, layers and the whole model, together with the codec
//! between the wire form (signed integers, flat anchor sequences) and the
//! in-memory form (explicit sum types, paired anchors).
use vstd::prelude::*;

use crate::error::ModelError;

verus! {

/// A symbolic reference to another layer: either an absolute position in the
/// combined index space, or a positive offset behind the referring layer.
#[derive(Debug, Clone, Copy, PartialEq, Eq, Structural, Hash)]
pub enum LayerRef {
    Relative(usize),
    Absolute(usize),
}

/// The signed wire encoding of a `LayerRef`: a non-negative integer denotes
/// `Absolute`, a negative integer `n` denotes `Relative(-n)`.
pub open spec fn ref_code(r: LayerRef) -> int {
    match r {
        LayerRef::Relative(d) => -(d as int),
        LayerRef::Absolute(p) => p as int,
    }
}

/// Decoding of a signed wire integer into a `LayerRef`.
pub open spec fn ref_decode(code: int) -> LayerRef {
    if code >= 0 {
        LayerRef::Absolute(code as usize)
    } else {
        LayerRef::Relative((-code) as usize)
    }
}

impl LayerRef {
    /// The reference's wire integer fits in `isize`.
    pub open spec fn encodable(self) -> bool {
        match self {
            LayerRef::Relative(d) => d as int <= isize::MAX as int + 1,
            LayerRef::Absolute(p) => p as int <= isize::MAX as int,
        }
    }

    /// Encode this reference as its signed wire integer.
    pub fn to_index(&self) -> (r: isize)
        requires
            self.encodable(),
        ensures
            r as int == ref_code(*self),
    {
        match *self {
            LayerRef::Relative(offset) => {
                let neg: i128 = -(offset as i128);
                neg as isize
            }
            LayerRef::Absolute(pos) => pos as isize,
        }
    }

    /// Decode a signed wire integer into a reference.
    pub fn from_index(index: isize) -> (r: Self)
        ensures
            r == ref_decode(index as int),
    {
        if index >= 0 {
            LayerRef::Absolute(index as usize)
        } else {
            let mag: i128 = -(index as i128);
            LayerRef::Relative(mag as usize)
        }
    }
}

/// Encoding then decoding gives the original reference back, for every
/// reference that can appear in a model: `Relative` offsets are positive
/// (there is no `Relative(0)`).
pub proof fn lemma_ref_round_trip(r: LayerRef)
    requires
        r matches LayerRef::Relative(d) ==> d > 0,
    ensures
        ref_decode(ref_code(r)) == r,
{
}

/// Decoding never yields `Relative(0)`, and decoding then encoding gives the
/// original wire integer back.
pub proof fn lemma_code_round_trip(code: int)
    requires
        -(usize::MAX as int) <= code <= usize::MAX as int,
    ensures
        ref_decode(code) matches LayerRef::Relative(d) ==> d > 0,
        ref_code(ref_decode(code)) == code,
{
}

/// The wire form of a layer's source: one signed integer or a list of them.
#[derive(Debug)]
pub enum SerializedSrc {
    Single(isize),
    Multi(Vec<isize>),
}

/// A layer's source specification: one reference or an ordered list of them.
#[derive(Debug)]
pub enum Src {
    Single(LayerRef),
    Multi(Vec<LayerRef>),
}

/// The ordered references a source names; a `Single` is a one-element list.
pub open spec fn src_refs(s: Src) -> Seq<LayerRef> {
    match s {
        Src::Single(r) => seq![r],
        Src::Multi(v) => v@,
    }
}

/// The ordered wire integers of a serialized source.
pub open spec fn src_codes(s: SerializedSrc) -> Seq<int> {
    match s {
        SerializedSrc::Single(c) => seq![c as int],
        SerializedSrc::Multi(v) => Seq::new(v@.len(), |j: int| v@[j] as int),
    }
}

/// `r` is the decoding of the serialized source `s`: same shape, and each
/// wire integer decoded by the sign rule.
pub open spec fn src_decoded(s: SerializedSrc, r: Src) -> bool {
    &&& (s matches SerializedSrc::Single(_) <==> r matches Src::Single(_))
    &&& src_refs(r).len() == src_codes(s).len()
    &&& forall|j: int|
        0 <= j < src_codes(s).len() ==> src_refs(r)[j] == ref_decode(src_codes(s)[j])
}

/// `s` is the encoding of the source `r`: same shape, and each reference
/// encoded as its signed wire integer.
pub open spec fn src_encoded(r: Src, s: SerializedSrc) -> bool {
    &&& (s matches SerializedSrc::Single(_) <==> r matches Src::Single(_))
    &&& src_codes(s).len() == src_refs(r).len()
    &&& forall|j: int|
        0 <= j < src_codes(s).len() ==> src_codes(s)[j] == ref_code(src_refs(r)[j])
}

impl Src {
    /// Every reference this source names fits the wire encoding.
    pub open spec fn encodable(self) -> bool {
        forall|j: int| 0 <= j < src_refs(self).len() ==> (#[trigger] src_refs(self)[j]).encodable()
    }

    /// Decode a serialized source: a scalar becomes `Single`, a list becomes
    /// `Multi` of the same length, each integer decoded by the sign rule.
    pub fn from_serialized(s: &SerializedSrc) -> (r: Src)
        ensures
            src_decoded(*s, r),
    {
        match s {
            SerializedSrc::Single(code) => Src::Single(LayerRef::from_index(*code)),
            SerializedSrc::Multi(codes) => {
                let n = codes.len();
                let mut refs: Vec<LayerRef> = Vec::new();
                let mut j: usize = 0;
                while j < n
                    invariant
                        j <= n,
                        n == codes@.len(),
                        refs@.len() == j,
                        forall|k: int| 0 <= k < j ==> refs@[k] == ref_decode(codes@[k] as int),
                    decreases n - j,
                {
                    refs.push(LayerRef::from_index(codes[j]));
                    j += 1;
                }
                Src::Multi(refs)
            }
        }
    }

    /// Encode this source back to its wire form.
    pub fn to_serialized(&self) -> (s: SerializedSrc)
        requires
            self.encodable(),
        ensures
            src_encoded(*self, s),
    {
        match self {
            Src::Single(r) => {
                proof {
                    assert(src_refs(*self) == seq![*r]);
                    assert((src_refs(*self)[0]).encodable());
                }
                SerializedSrc::Single(r.to_index())
            }
            Src::Multi(refs) => {
                proof {
                    assert(src_refs(*self) == refs@);
                    assert forall|k: int| 0 <= k < refs@.len() implies (#[trigger] refs@[k]).encodable() by {
                        assert((src_refs(*self)[k]).encodable());
                    }
                }
                let n = refs.len();
                let mut codes: Vec<isize> = Vec::new();
                let mut j: usize = 0;
                while j < n
                    invariant
                        j <= n,
                        n == refs@.len(),
                        codes@.len() == j,
                        forall|k: int| 0 <= k < n ==> (#[trigger] refs@[k]).encodable(),
                        forall|k: int| 0 <= k < j ==> codes@[k] as int == ref_code(refs@[k]),
                    decreases n - j,
                {
                    codes.push(refs[j].to_index());
                    j += 1;
                }
                SerializedSrc::Multi(codes)
            }
        }
    }
}

/// One layer parameter: absent, an integer, or text.
#[derive(Debug)]
pub enum Param {
    Absent,
    Value(isize),
    Text(String),
}


/// The closed taxonomy of layer kinds a model may use. The tag that the
/// wire spells `"Ghost"` is carried here as `GhostBlock`; its display
/// name is still `Ghost`.
#[allow(non_camel_case_types)]
#[derive(Debug, Clone, Copy, PartialEq, Eq, Structural, Hash)]
pub enum LayerKind {
    autoShape,
    Bottleneck,
    BottleneckCSPA,
    BottleneckCSPB,
    BottleneckCSPC,
    Chuncat,
    Classify,
    Concat,
    Contract,
    Conv,
    ConvBN,
    Detections,
    DownC,
    Expand,
    Focus,
    Foldcut,
    GhostBlock,
    GhostConv,
    GhostCSPA,
    GhostCSPB,
    GhostCSPC,
    GhostSPPCSPC,
    GhostStem,
    ImplicitA,
    ImplicitM,
    Mlp,
    Mlp_v2,
    MP,
    NMS,
    OREPA_3x3_RepConv,
    ReOrg,
    RepBottleneck,
    RepBottleneckCSPA,
    RepBottleneckCSPB,
    RepBottleneckCSPC,
    RepConv,
    RepConv_OREPA,
    RepRes,
    RepResCSPA,
    RepResCSPB,
    RepResCSPC,
    RepResX,
    RepResXCSPA,
    RepResXCSPB,
    RepResXCSPC,
    Res,
    ResCSPA,
    ResCSPB,
    ResCSPC,
    ResX,
    ResXCSPA,
    ResXCSPB,
    ResXCSPC,
    RobustConv,
    RobustConv2,
    Shortcut,
    SP,
    SPP,
    SPPCSPC,
    SPPF,
    ST2CSPA,
    ST2CSPB,
    ST2CSPC,
    STCSPA,
    STCSPB,
    STCSPC,
    Stem,
    SwinTransformer2Block,
    SwinTransformerBlock,
    SwinTransformerLayer,
    SwinTransformerLayer_v2,
    TransformerBlock,
    TransformerLayer,
    WindowAttention,
    WindowAttention_v2,
    Detect,
    IAuxDetect,
    IBin,
    IDetect,
    IKeypoint,
    nnUpsample,
}

impl LayerKind {
    /// The display name of this kind, as it appears in node labels.
    pub open spec fn spec_name(self) -> Seq<char> {
        match self {
            LayerKind::autoShape => "autoShape"@,
            LayerKind::Bottleneck => "Bottleneck"@,
            LayerKind::BottleneckCSPA => "BottleneckCSPA"@,
            LayerKind::BottleneckCSPB => "BottleneckCSPB"@,
            LayerKind::BottleneckCSPC => "BottleneckCSPC"@,
            LayerKind::Chuncat => "Chuncat"@,
            LayerKind::Classify => "Classify"@,
            LayerKind::Concat => "Concat"@,
            LayerKind::Contract => "Contract"@,
            LayerKind::Conv => "Conv"@,
            LayerKind::ConvBN => "ConvBN"@,
            LayerKind::Detections => "Detections"@,
            LayerKind::DownC => "DownC"@,
            LayerKind::Expand => "Expand"@,
            LayerKind::Focus => "Focus"@,
            LayerKind::Foldcut => "Foldcut"@,
            LayerKind::GhostBlock => "Ghost"@,
            LayerKind::GhostConv => "GhostConv"@,
            LayerKind::GhostCSPA => "GhostCSPA"@,
            LayerKind::GhostCSPB => "GhostCSPB"@,
            LayerKind::GhostCSPC => "GhostCSPC"@,
            LayerKind::GhostSPPCSPC => "GhostSPPCSPC"@,
            LayerKind::GhostStem => "GhostStem"@,
            LayerKind::ImplicitA => "ImplicitA"@,
            LayerKind::ImplicitM => "ImplicitM"@,
            LayerKind::Mlp => "Mlp"@,
            LayerKind::Mlp_v2 => "Mlp_v2"@,
            LayerKind::MP => "MP"@,
            LayerKind::NMS => "NMS"@,
            LayerKind::OREPA_3x3_RepConv => "OREPA_3x3_RepConv"@,
            LayerKind::ReOrg => "ReOrg"@,
            LayerKind::RepBottleneck => "RepBottleneck"@,
            LayerKind::RepBottleneckCSPA => "RepBottleneckCSPA"@,
            LayerKind::RepBottleneckCSPB => "RepBottleneckCSPB"@,
            LayerKind::RepBottleneckCSPC => "RepBottleneckCSPC"@,
            LayerKind::RepConv => "RepConv"@,
            LayerKind::RepConv_OREPA => "RepConv_OREPA"@,
            LayerKind::RepRes => "RepRes"@,
            LayerKind::RepResCSPA => "RepResCSPA"@,
            LayerKind::RepResCSPB => "RepResCSPB"@,
            LayerKind::RepResCSPC => "RepResCSPC"@,
            LayerKind::RepResX => "RepResX"@,
            LayerKind::RepResXCSPA => "RepResXCSPA"@,
            LayerKind::RepResXCSPB => "RepResXCSPB"@,
            LayerKind::RepResXCSPC => "RepResXCSPC"@,
            LayerKind::Res => "Res"@,
            LayerKind::ResCSPA => "ResCSPA"@,
            LayerKind::ResCSPB => "ResCSPB"@,
            LayerKind::ResCSPC => "ResCSPC"@,
            LayerKind::ResX => "ResX"@,
            LayerKind::ResXCSPA => "ResXCSPA"@,
            LayerKind::ResXCSPB => "ResXCSPB"@,
            LayerKind::ResXCSPC => "ResXCSPC"@,
            LayerKind::RobustConv => "RobustConv"@,
            LayerKind::RobustConv2 => "RobustConv2"@,
            LayerKind::Shortcut => "Shortcut"@,
            LayerKind::SP => "SP"@,
            LayerKind::SPP => "SPP"@,
            LayerKind::SPPCSPC => "SPPCSPC"@,
            LayerKind::SPPF => "SPPF"@,
            LayerKind::ST2CSPA => "ST2CSPA"@,
            LayerKind::ST2CSPB => "ST2CSPB"@,
            LayerKind::ST2CSPC => "ST2CSPC"@,
            LayerKind::STCSPA => "STCSPA"@,
            LayerKind::STCSPB => "STCSPB"@,
            LayerKind::STCSPC => "STCSPC"@,
            LayerKind::Stem => "Stem"@,
            LayerKind::SwinTransformer2Block => "SwinTransformer2Block"@,
            LayerKind::SwinTransformerBlock => "SwinTransformerBlock"@,
            LayerKind::SwinTransformerLayer => "SwinTransformerLayer"@,
            LayerKind::SwinTransformerLayer_v2 => "SwinTransformerLayer_v2"@,
            LayerKind::TransformerBlock => "TransformerBlock"@,
            LayerKind::TransformerLayer => "TransformerLayer"@,
            LayerKind::WindowAttention => "WindowAttention"@,
            LayerKind::WindowAttention_v2 => "WindowAttention_v2"@,
            LayerKind::Detect => "Detect"@,
            LayerKind::IAuxDetect => "IAuxDetect"@,
            LayerKind::IBin => "IBin"@,
            LayerKind::IDetect => "IDetect"@,
            LayerKind::IKeypoint => "IKeypoint"@,
            LayerKind::nnUpsample => "nnUpsample"@,
        }
    }

    /// Returns the display name of this kind.
    pub fn name(&self) -> (r: &'static str)
        ensures
            r@ == self.spec_name(),
    {
        match *self {
            LayerKind::autoShape => "autoShape",
            LayerKind::Bottleneck => "Bottleneck",
            LayerKind::BottleneckCSPA => "BottleneckCSPA",
            LayerKind::BottleneckCSPB => "BottleneckCSPB",
            LayerKind::BottleneckCSPC => "BottleneckCSPC",
            LayerKind::Chuncat => "Chuncat",
            LayerKind::Classify => "Classify",
            LayerKind::Concat => "Concat",
            LayerKind::Contract => "Contract",
            LayerKind::Conv => "Conv",
            LayerKind::ConvBN => "ConvBN",
            LayerKind::Detections => "Detections",
            LayerKind::DownC => "DownC",
            LayerKind::Expand => "Expand",
            LayerKind::Focus => "Focus",
            LayerKind::Foldcut => "Foldcut",
            LayerKind::GhostBlock => "Ghost",
            LayerKind::GhostConv => "GhostConv",
            LayerKind::GhostCSPA => "GhostCSPA",
            LayerKind::GhostCSPB => "GhostCSPB",
            LayerKind::GhostCSPC => "GhostCSPC",
            LayerKind::GhostSPPCSPC => "GhostSPPCSPC",
            LayerKind::GhostStem => "GhostStem",
            LayerKind::ImplicitA => "ImplicitA",
            LayerKind::ImplicitM => "ImplicitM",
            LayerKind::Mlp => "Mlp",
            LayerKind::Mlp_v2 => "Mlp_v2",
            LayerKind::MP => "MP",
            LayerKind::NMS => "NMS",
            LayerKind::OREPA_3x3_RepConv => "OREPA_3x3_RepConv",
            LayerKind::ReOrg => "ReOrg",
            LayerKind::RepBottleneck => "RepBottleneck",
            LayerKind::RepBottleneckCSPA => "RepBottleneckCSPA",
            LayerKind::RepBottleneckCSPB => "RepBottleneckCSPB",
            LayerKind::RepBottleneckCSPC => "RepBottleneckCSPC",
            LayerKind::RepConv => "RepConv",
            LayerKind::RepConv_OREPA => "RepConv_OREPA",
            LayerKind::RepRes => "RepRes",
            LayerKind::RepResCSPA => "RepResCSPA",
            LayerKind::RepResCSPB => "RepResCSPB",
            LayerKind::RepResCSPC => "RepResCSPC",
            LayerKind::RepResX => "RepResX",
            LayerKind::RepResXCSPA => "RepResXCSPA",
            LayerKind::RepResXCSPB => "RepResXCSPB",
            LayerKind::RepResXCSPC => "RepResXCSPC",
            LayerKind::Res => "Res",
            LayerKind::ResCSPA => "ResCSPA",
            LayerKind::ResCSPB => "ResCSPB",
            LayerKind::ResCSPC => "ResCSPC",
            LayerKind::ResX => "ResX",
            LayerKind::ResXCSPA => "ResXCSPA",
            LayerKind::ResXCSPB => "ResXCSPB",
            LayerKind::ResXCSPC => "ResXCSPC",
            LayerKind::RobustConv => "RobustConv",
            LayerKind::RobustConv2 => "RobustConv2",
            LayerKind::Shortcut => "Shortcut",
            LayerKind::SP => "SP",
            LayerKind::SPP => "SPP",
            LayerKind::SPPCSPC => "SPPCSPC",
            LayerKind::SPPF => "SPPF",
            LayerKind::ST2CSPA => "ST2CSPA",
            LayerKind::ST2CSPB => "ST2CSPB",
            LayerKind::ST2CSPC => "ST2CSPC",
            LayerKind::STCSPA => "STCSPA",
            LayerKind::STCSPB => "STCSPB",
            LayerKind::STCSPC => "STCSPC",
            LayerKind::Stem => "Stem",
            LayerKind::SwinTransformer2Block => "SwinTransformer2Block",
            LayerKind::SwinTransformerBlock => "SwinTransformerBlock",
            LayerKind::SwinTransformerLayer => "SwinTransformerLayer",
            LayerKind::SwinTransformerLayer_v2 => "SwinTransformerLayer_v2",
            LayerKind::TransformerBlock => "TransformerBlock",
            LayerKind::TransformerLayer => "TransformerLayer",
            LayerKind::WindowAttention => "WindowAttention",
            LayerKind::WindowAttention_v2 => "WindowAttention_v2",
            LayerKind::Detect => "Detect",
            LayerKind::IAuxDetect => "IAuxDetect",
            LayerKind::IBin => "IBin",
            LayerKind::IDetect => "IDetect",
            LayerKind::IKeypoint => "IKeypoint",
            LayerKind::nnUpsample => "nnUpsample",
        }
    }
}

/// A single architectural unit: its source, repetition count, kind and
/// parameters.
#[derive(Debug)]
pub struct Layer {
    pub from: Src,
    pub multiple: usize,
    pub kind: LayerKind,
    pub params: Vec<Param>,
}

/// The wire form of a layer: the 4-tuple `[from, multiple, kind, params]`.
#[derive(Debug)]
pub struct SerializedLayer(pub SerializedSrc, pub usize, pub LayerKind, pub Vec<Param>);

/// `l` is the decoding of the wire layer `s`: the source is decoded by the
/// sign rule, the other fields carry over unchanged.
pub open spec fn layer_decoded(s: SerializedLayer, l: Layer) -> bool {
    &&& src_decoded(s.0, l.from)
    &&& l.multiple == s.1
    &&& l.kind == s.2
    &&& l.params == s.3
}

impl Layer {
    /// Decode a wire layer tuple into the domain form.
    pub fn from_serialized(s: SerializedLayer) -> (l: Layer)
        ensures
            layer_decoded(s, l),
    {
        let SerializedLayer(src, multiple, kind, params) = s;
        let from = Src::from_serialized(&src);
        Layer { from, multiple, kind, params }
    }

    /// Encode a domain layer back into the wire tuple.
    pub fn to_serialized(self) -> (s: SerializedLayer)
        requires
            self.from.encodable(),
        ensures
            src_encoded(self.from, s.0),
            s.1 == self.multiple,
            s.2 == self.kind,
            s.3 == self.params,
    {
        let Layer { from, multiple, kind, params } = self;
        let src = from.to_serialized();
        SerializedLayer(src, multiple, kind, params)
    }
}

/// A `(width, height)` anchor-box prior.
#[derive(Debug, Clone, Copy, PartialEq, Eq, Structural)]
pub struct WH {
    pub w: usize,
    pub h: usize,
}

/// The wire form of an anchor list: a flat sequence of integers, width and
/// height alternating, whose length must be even.
#[derive(Debug)]
pub struct SerializedAnchorList(pub Vec<usize>);

/// An ordered list of `(width, height)` anchors.
#[derive(Debug)]
pub struct AnchorList(pub Vec<WH>);

/// `pairs` is the in-order pairing of adjacent entries of `flat`:
/// `pairs[k] = (flat[2k], flat[2k+1])`.
pub open spec fn paired(flat: Seq<usize>, pairs: Seq<WH>) -> bool {
    &&& pairs.len() == flat.len() / 2
    &&& forall|k: int|
        0 <= k < pairs.len() ==> pairs[k] == (WH { w: flat[2 * k], h: flat[2 * k + 1] })
}

impl AnchorList {
    /// Pair a flat wire sequence into `(w, h)` anchors, in order; `None`
    /// exactly when the flat sequence has odd length.
    pub fn from_flat(s: &SerializedAnchorList) -> (r: Option<AnchorList>)
        ensures
            r is Some <==> s.0@.len() % 2 == 0,
            r matches Some(a) ==> paired(s.0@, a.0@),
    {
        let n = s.0.len();
        if n % 2 != 0 {
            return None;
        }
        let half = n / 2;
        let mut pairs: Vec<WH> = Vec::new();
        let mut k: usize = 0;
        while k < half
            invariant
                k <= half,
                n == s.0@.len(),
                n % 2 == 0,
                half == n / 2,
                pairs@.len() == k,
                forall|t: int|
                    0 <= t < k ==> pairs@[t] == (WH { w: s.0@[2 * t], h: s.0@[2 * t + 1] }),
            decreases half - k,
        {
            let w = s.0[2 * k];
            let h = s.0[2 * k + 1];
            pairs.push(WH { w, h });
            k += 1;
        }
        Some(AnchorList(pairs))
    }

    /// Flatten the anchors back to the wire sequence, width before height.
    pub fn to_flat(&self) -> (r: SerializedAnchorList)
        ensures
            r.0@.len() == 2 * self.0@.len(),
            paired(r.0@, self.0@),
    {
        let n = self.0.len();
        let mut flat: Vec<usize> = Vec::new();
        let mut k: usize = 0;
        while k < n
            invariant
                k <= n,
                n == self.0@.len(),
                flat@.len() == 2 * k,
                forall|t: int|
                    0 <= t < k ==> flat@[2 * t] == (#[trigger] self.0@[t]).w && flat@[2 * t + 1]
                        == self.0@[t].h,
            decreases n - k,
        {
            let wh = self.0[k];
            flat.push(wh.w);
            flat.push(wh.h);
            k += 1;
        }
        SerializedAnchorList(flat)
    }
}

/// Pairing an even-length flat sequence into anchors and flattening the
/// anchors again reproduces the flat sequence exactly.
pub proof fn lemma_anchor_round_trip(flat: Seq<usize>, pairs: Seq<WH>, reflat: Seq<usize>)
    requires
        flat.len() % 2 == 0,
        paired(flat, pairs),
        paired(reflat, pairs),
        reflat.len() == 2 * pairs.len(),
    ensures
        reflat == flat,
{
    assert(reflat.len() == flat.len());
    assert forall|j: int| 0 <= j < flat.len() implies reflat[j] == flat[j] by {
        let k = j / 2;
        assert(0 <= k < pairs.len());
        assert(pairs[k] == (WH { w: flat[2 * k], h: flat[2 * k + 1] }));
        assert(pairs[k] == (WH { w: reflat[2 * k], h: reflat[2 * k + 1] }));
        if j % 2 == 0 {
            assert(j == 2 * k);
        } else {
            assert(j == 2 * k + 1);
        }
    }
    assert(reflat =~= flat);
}

/// The whole domain model: class count, anchors, and the two layer
/// sections sharing one index space.
#[derive(Debug)]
pub struct Model {
    pub nc: usize,
    pub anchors: Vec<AnchorList>,
    pub backbone: Vec<Layer>,
    pub head: Vec<Layer>,
}

/// The wire form of the whole document.
#[derive(Debug)]
pub struct SerializedModel {
    pub nc: usize,
    pub anchors: Vec<SerializedAnchorList>,
    pub backbone: Vec<SerializedLayer>,
    pub head: Vec<SerializedLayer>,
}

/// Elementwise decoding of a layer section.
pub open spec fn layers_decoded(ss: Seq<SerializedLayer>, ls: Seq<Layer>) -> bool {
    &&& ls.len() == ss.len()
    &&& forall|i: int| 0 <= i < ss.len() ==> layer_decoded(ss[i], ls[i])
}

/// Every anchor list on the wire has an even flat length.
pub open spec fn anchors_even(m: SerializedModel) -> bool {
    forall|i: int| 0 <= i < m.anchors@.len() ==> (#[trigger] m.anchors@[i]).0@.len() % 2 == 0
}

/// The structural conditions under which normalization succeeds.
pub open spec fn normalizable(m: SerializedModel) -> bool {
    m.backbone@.len() > 0 && anchors_even(m)
}

/// `m` is the decoding of the wire document `raw`.
pub open spec fn model_decoded(raw: SerializedModel, m: Model) -> bool {
    &&& m.nc == raw.nc
    &&& m.anchors@.len() == raw.anchors@.len()
    &&& forall|i: int|
        0 <= i < raw.anchors@.len() ==> paired(raw.anchors@[i].0@, (#[trigger] m.anchors@[i]).0@)
    &&& layers_decoded(raw.backbone@, m.backbone@)
    &&& layers_decoded(raw.head@, m.head@)
}

/// Decode a whole layer section, preserving order.
/// Elementwise encoding of a layer section.
pub open spec fn layers_encoded(ls: Seq<Layer>, ss: Seq<SerializedLayer>) -> bool {
    &&& ss.len() == ls.len()
    &&& forall|i: int|
        0 <= i < ls.len() ==> {
            let s = #[trigger] ss[i];
            &&& src_encoded(ls[i].from, s.0)
            &&& s.1 == ls[i].multiple
            &&& s.2 == ls[i].kind
            &&& s.3 == ls[i].params
        }
}

/// Encode a whole layer section, preserving order.
fn encode_layers(v: Vec<Layer>) -> (r: Vec<SerializedLayer>)
    requires
        forall|i: int| 0 <= i < v@.len() ==> (#[trigger] v@[i]).from.encodable(),
    ensures
        layers_encoded(v@, r@),
{
    let ghost orig = v@;
    let mut rest = v;
    let mut out: Vec<SerializedLayer> = Vec::new();
    while rest.len() > 0
        invariant
            out@.len() + rest@.len() == orig.len(),
            rest@ == orig.skip(out@.len() as int),
            forall|i: int| 0 <= i < orig.len() ==> (#[trigger] orig[i]).from.encodable(),
            layers_encoded(orig.take(out@.len() as int), out@),
        decreases rest@.len(),
    {
        let ghost k = out@.len() as int;
        let l = rest.remove(0);
        proof {
            assert(l == orig[k]);
            assert(rest@ =~= orig.skip(k + 1));
        }
        let s = l.to_serialized();
        out.push(s);
        proof {
            assert(orig.take(k + 1) =~= orig.take(k).push(orig[k]));
        }
    }
    proof {
        assert(orig.take(orig.len() as int) =~= orig);
    }
    out
}

/// Decode a whole layer section, preserving order.
fn decode_layers(v: Vec<SerializedLayer>) -> (r: Vec<Layer>)
    ensures
        layers_decoded(v@, r@),
{
    let ghost orig = v@;
    let mut rest = v;
    let mut out: Vec<Layer> = Vec::new();
    while rest.len() > 0
        invariant
            out@.len() + rest@.len() == orig.len(),
            rest@ == orig.skip(out@.len() as int),
            forall|i: int| 0 <= i < out@.len() ==> layer_decoded(orig[i], out@[i]),
        decreases rest@.len(),
    {
        let ghost k = out@.len() as int;
        let s = rest.remove(0);
        proof {
            assert(s == orig[k]);
            assert(rest@ =~= orig.skip(k + 1));
        }
        let l = Layer::from_serialized(s);
        out.push(l);
    }
    out
}

impl Model {
    /// Turn the raw wire document into the domain model, enforcing
    /// structural validity: every anchor list has even flat length and the
    /// backbone is non-empty. Whether resolved references are in range is
    /// not checked here; that is the resolver's job.
    pub fn normalize(raw: SerializedModel) -> (r: Result<Model, ModelError>)
        ensures
            r is Ok <==> normalizable(raw),
            r matches Ok(m) ==> model_decoded(raw, m),
            r matches Err(e) ==> match e {
                ModelError::OddAnchorList { index, len } => {
                    &&& 0 <= index < raw.anchors@.len()
                    &&& len == raw.anchors@[index as int].0@.len()
                    &&& len % 2 != 0
                    &&& forall|i: int|
                        0 <= i < index ==> (#[trigger] raw.anchors@[i]).0@.len() % 2 == 0
                },
                ModelError::EmptyBackbone => anchors_even(raw) && raw.backbone@.len() == 0,
                _ => false,
            },
    {
        let SerializedModel { nc, anchors, backbone, head } = raw;
        let na = anchors.len();
        let mut paired_anchors: Vec<AnchorList> = Vec::new();
        let mut i: usize = 0;
        while i < na
            invariant
                i <= na,
                na == anchors@.len(),
                anchors@ == raw.anchors@,
                paired_anchors@.len() == i,
                forall|t: int|
                    0 <= t < i ==> paired(anchors@[t].0@, (#[trigger] paired_anchors@[t]).0@),
                forall|t: int| 0 <= t < i ==> (#[trigger] anchors@[t]).0@.len() % 2 == 0,
            decreases na - i,
        {
            match AnchorList::from_flat(&anchors[i]) {
                Some(a) => {
                    paired_anchors.push(a);
                }
                None => {
                    return Err(ModelError::OddAnchorList { index: i, len: anchors[i].0.len() });
                }
            }
            i += 1;
        }
        if backbone.len() == 0 {
            return Err(ModelError::EmptyBackbone);
        }
        let decoded_backbone = decode_layers(backbone);
        let decoded_head = decode_layers(head);
        Ok(
            Model {
                nc,
                anchors: paired_anchors,
                backbone: decoded_backbone,
                head: decoded_head,
            },
        )
    }

    /// Every source reference in the model fits the wire encoding.
    pub open spec fn encodable(self) -> bool {
        &&& forall|i: int|
            0 <= i < self.backbone@.len() ==> (#[trigger] self.backbone@[i]).from.encodable()
        &&& forall|i: int| 0 <= i < self.head@.len() ==> (#[trigger] self.head@[i]).from.encodable()
    }

    /// Encode the domain model back into the wire document: anchors are
    /// flattened in order, sources re-encoded by the sign rule, everything
    /// else carried over unchanged.
    pub fn to_serialized(self) -> (r: SerializedModel)
        requires
            self.encodable(),
        ensures
            r.nc == self.nc,
            r.anchors@.len() == self.anchors@.len(),
            forall|i: int|
                0 <= i < self.anchors@.len() ==> paired(
                    (#[trigger] r.anchors@[i]).0@,
                    self.anchors@[i].0@,
                ) && r.anchors@[i].0@.len() == 2 * self.anchors@[i].0@.len(),
            layers_encoded(self.backbone@, r.backbone@),
            layers_encoded(self.head@, r.head@),
    {
        let Model { nc, anchors, backbone, head } = self;
        let na = anchors.len();
        let mut flat_anchors: Vec<SerializedAnchorList> = Vec::new();
        let mut i: usize = 0;
        while i < na
            invariant
                i <= na,
                na == anchors@.len(),
                flat_anchors@.len() == i,
                forall|t: int|
                    0 <= t < i ==> paired((#[trigger] flat_anchors@[t]).0@, anchors@[t].0@)
                        && flat_anchors@[t].0@.len() == 2 * anchors@[t].0@.len(),
            decreases na - i,
        {
            let flat = anchors[i].to_flat();
            flat_anchors.push(flat);
            i += 1;
        }
        let encoded_backbone = encode_layers(backbone);
        let encoded_head = encode_layers(head);
        SerializedModel {
            nc,
            anchors: flat_anchors,
            backbone: encoded_backbone,
            head: encoded_head,
        }
    }
}

} // verus!
