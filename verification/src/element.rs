//! What the elements declare about themselves: their properties and
//! signals, the sink's metadata and the caps its pad accepts.
use vstd::prelude::*;

verus! {

/// The type of a property's or a signal parameter's value.
#[derive(Clone, Copy, PartialEq, Eq, Structural, Debug)]
pub enum ValueType {
    /// A structure (boxed).
    Structure,
    /// A paintable (an object).
    Paintable,
    /// An unsigned 32-bit integer.
    U32,
}

/// A property as an element declares it.
pub struct ParamSpecDesc {
    pub name: &'static str,
    pub nick: &'static str,
    pub blurb: &'static str,
    pub value_type: ValueType,
    pub read_only: bool,
}

/// A signal as an element declares it.
pub struct SignalDesc {
    pub name: &'static str,
    pub param_types: Vec<ValueType>,
}

/// The properties of the RTP session object.
#[derive(Clone, Copy, PartialEq, Eq, Structural, Debug)]
pub enum SessionProperty {
    /// The payload-type map.
    PtMap,
}

/// Whether two strings are equal.
pub(crate) fn str_eq(a: &str, b: &str) -> (r: bool)
    ensures
        r == (a@ == b@),
{
    String::from_str(a) == String::from_str(b)
}

impl SessionProperty {
    /// The property of the given name, if the session object has one.
    pub fn from_name(name: &str) -> (r: Option<SessionProperty>)
        ensures
            r == (if name@ == "pt-map"@ { Some(SessionProperty::PtMap) } else { None::<SessionProperty> }),
    {
        if str_eq(name, "pt-map") {
            Some(SessionProperty::PtMap)
        } else {
            None
        }
    }
}

/// The properties that the RTP session object declares.
pub fn session_properties() -> (r: Vec<ParamSpecDesc>)
    ensures
        r@.len() == 1,
        r@[0].name@ == "pt-map"@,
        r@[0].nick@ == "RTP Payload Type Map"@,
        r@[0].blurb@ == "Mapping of RTP payload type to caps"@,
        r@[0].value_type == ValueType::Structure,
        !r@[0].read_only,
{
    let mut r = Vec::new();
    r.push(
        ParamSpecDesc {
            name: "pt-map",
            nick: "RTP Payload Type Map",
            blurb: "Mapping of RTP payload type to caps",
            value_type: ValueType::Structure,
            read_only: false,
        },
    );
    r
}

/// The signals that the RTP session object declares.
pub fn session_signals() -> (r: Vec<SignalDesc>)
    ensures
        r@.len() == 1,
        r@[0].name@ == "new-ssrc"@,
        r@[0].param_types@ == seq![ValueType::U32],
{
    let mut types = Vec::new();
    types.push(ValueType::U32);
    let mut r = Vec::new();
    r.push(SignalDesc { name: "new-ssrc", param_types: types });
    r
}

/// The properties that the paintable sink declares.
pub fn sink_properties() -> (r: Vec<ParamSpecDesc>)
    ensures
        r@.len() == 1,
        r@[0].name@ == "paintable"@,
        r@[0].nick@ == "Paintable"@,
        r@[0].blurb@ == "The Paintable the sink renders to"@,
        r@[0].value_type == ValueType::Paintable,
        r@[0].read_only,
{
    let mut r = Vec::new();
    r.push(
        ParamSpecDesc {
            name: "paintable",
            nick: "Paintable",
            blurb: "The Paintable the sink renders to",
            value_type: ValueType::Paintable,
            read_only: true,
        },
    );
    r
}

/// An element's metadata.
pub struct ElementMetadata {
    pub long_name: &'static str,
    pub classification: &'static str,
    pub description: &'static str,
    pub author: &'static str,
}

/// The paintable sink's metadata.
pub fn sink_metadata() -> (r: ElementMetadata)
    ensures
        r.long_name@ == "GTK 4 Paintable Sink"@,
        r.classification@ == "Sink/Video"@,
        r.description@ == "A GTK 4 Paintable sink"@,
        r.author@
            == "Bilal Elmoussaoui <bil.elmoussaoui@gmail.com>, Jordan Petridis <jordan@centricular.com>, Sebastian Dröge <sebastian@centricular.com>"@,
{
    ElementMetadata {
        long_name: "GTK 4 Paintable Sink",
        classification: "Sink/Video",
        description: "A GTK 4 Paintable sink",
        author: "Bilal Elmoussaoui <bil.elmoussaoui@gmail.com>, Jordan Petridis <jordan@centricular.com>, Sebastian Dröge <sebastian@centricular.com>",
    }
}

/// A raw video format.
#[derive(Clone, Copy, PartialEq, Eq, Structural, Debug)]
pub enum VideoFormat {
    Bgra,
    Argb,
    Rgba,
    Abgr,
    Rgb,
    Bgr,
}

/// Raw video caps: the formats they allow and, where set, their caps features.
pub struct RawVideoCaps {
    pub formats: Vec<VideoFormat>,
    pub features: Option<Vec<&'static str>>,
}

/// The direction of a pad.
#[derive(Clone, Copy, PartialEq, Eq, Structural, Debug)]
pub enum PadDirection {
    Src,
    Sink,
}

/// When a pad exists.
#[derive(Clone, Copy, PartialEq, Eq, Structural, Debug)]
pub enum PadPresence {
    Always,
    Sometimes,
    Request,
}

/// A pad template: its name, direction, presence and the caps it accepts,
/// one raw video caps structure after another.
pub struct PadTemplateDesc {
    pub name: &'static str,
    pub direction: PadDirection,
    pub presence: PadPresence,
    pub caps: Vec<RawVideoCaps>,
}

/// The formats that a texture can be made of, in order of preference.
pub open spec fn texture_formats() -> Seq<VideoFormat> {
    seq![
        VideoFormat::Bgra,
        VideoFormat::Argb,
        VideoFormat::Rgba,
        VideoFormat::Abgr,
        VideoFormat::Rgb,
        VideoFormat::Bgr,
    ]
}

/// The caps features of each structure of the sink's caps: none, system
/// memory with overlay composition, and overlay composition alone.
pub open spec fn sink_caps_features() -> Seq<Option<Seq<Seq<char>>>> {
    seq![
        None,
        Some(seq!["memory:SystemMemory"@, "meta:GstVideoOverlayComposition"@]),
        Some(seq!["meta:GstVideoOverlayComposition"@]),
    ]
}

/// The caps features as text.
pub open spec fn features_view(features: Option<Vec<&'static str>>) -> Option<Seq<Seq<char>>> {
    match features {
        Some(v) => Some(v@.map_values(|s: &'static str| s@)),
        None => None,
    }
}

fn texture_format_list() -> (r: Vec<VideoFormat>)
    ensures
        r@ == texture_formats(),
{
    let mut r = Vec::new();
    r.push(VideoFormat::Bgra);
    r.push(VideoFormat::Argb);
    r.push(VideoFormat::Rgba);
    r.push(VideoFormat::Abgr);
    r.push(VideoFormat::Rgb);
    r.push(VideoFormat::Bgr);
    assert(r@ =~= texture_formats());
    r
}

/// The paintable sink's pad templates: one always-present sink pad named
/// `sink`, accepting raw video in every texture format, once without caps
/// features and once for each set of features of `sink_caps_features`.
pub fn sink_pad_templates() -> (r: Vec<PadTemplateDesc>)
    ensures
        r@.len() == 1,
        r@[0].name@ == "sink"@,
        r@[0].direction == PadDirection::Sink,
        r@[0].presence == PadPresence::Always,
        r@[0].caps@.len() == sink_caps_features().len(),
        forall|i: int| 0 <= i < r@[0].caps@.len() ==> (#[trigger] r@[0].caps@[i]).formats@ == texture_formats()
            && features_view(r@[0].caps@[i].features) == sink_caps_features()[i],
{
    let mut caps: Vec<RawVideoCaps> = Vec::new();
    caps.push(RawVideoCaps { formats: texture_format_list(), features: None });
    let mut both = Vec::new();
    both.push("memory:SystemMemory");
    both.push("meta:GstVideoOverlayComposition");
    caps.push(RawVideoCaps { formats: texture_format_list(), features: Some(both) });
    let mut overlay = Vec::new();
    overlay.push("meta:GstVideoOverlayComposition");
    caps.push(RawVideoCaps { formats: texture_format_list(), features: Some(overlay) });
    proof {
        assert(features_view(caps@[1].features) =~= sink_caps_features()[1]) by {
            assert(caps@[1].features->Some_0@.map_values(|s: &'static str| s@) =~= seq![
                "memory:SystemMemory"@,
                "meta:GstVideoOverlayComposition"@,
            ]);
        }
        assert(features_view(caps@[2].features) =~= sink_caps_features()[2]) by {
            assert(caps@[2].features->Some_0@.map_values(|s: &'static str| s@) =~= seq![
                "meta:GstVideoOverlayComposition"@,
            ]);
        }
    }
    let mut r = Vec::new();
    r.push(PadTemplateDesc { name: "sink", direction: PadDirection::Sink, presence: PadPresence::Always, caps });
    r
}

} // verus!
