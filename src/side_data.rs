use vstd::prelude::*;

verus! {

/// Category of a side-data block attached to a decoded frame.
///
/// Each named variant stands for one tag of the native library's side-data
/// enumeration; `Other` carries any tag that has no name here, so that a
/// conversion from a native tag never fails.
#[derive(Clone, Copy, Debug, PartialEq, Eq, Structural)]
pub enum Type {
    PanScan,
    A53CC,
    Stereo3D,
    MatrixEncoding,
    DownMixInfo,
    ReplayGain,
    DisplayMatrix,
    AFD,
    MotionVectors,
    SkipSamples,
    AudioServiceType,
    MasteringDisplayMetadata,
    GOPTimecode,
    Spherical,
    ContentLightLevel,
    IccProfile,
    QPTableProperties,
    QPTableData,
    S12MTimecode,
    DynamicHdrPlus,
    RegionsOfInterest,
    VideoEncParams,
    Other(i32),
}

/// The native tag of a side-data category.
pub open spec fn tag_of(t: Type) -> i32 {
    match t {
        Type::PanScan => 0,
        Type::A53CC => 1,
        Type::Stereo3D => 2,
        Type::MatrixEncoding => 3,
        Type::DownMixInfo => 4,
        Type::ReplayGain => 5,
        Type::DisplayMatrix => 6,
        Type::AFD => 7,
        Type::MotionVectors => 8,
        Type::SkipSamples => 9,
        Type::AudioServiceType => 10,
        Type::MasteringDisplayMetadata => 11,
        Type::GOPTimecode => 12,
        Type::Spherical => 13,
        Type::ContentLightLevel => 14,
        Type::IccProfile => 15,
        Type::QPTableProperties => 16,
        Type::QPTableData => 17,
        Type::S12MTimecode => 18,
        Type::DynamicHdrPlus => 19,
        Type::RegionsOfInterest => 20,
        Type::VideoEncParams => 21,
        Type::Other(v) => v,
    }
}

/// The native tags that have a named variant.
pub open spec fn is_known_tag(tag: i32) -> bool {
    0 <= tag <= 21
}

/// A named variant, as opposed to `Other`.
pub open spec fn is_named(t: Type) -> bool {
    !(t is Other)
}

/// The category that a native tag stands for.
pub open spec fn type_of(tag: i32) -> Type {
    match tag {
        0 => Type::PanScan,
        1 => Type::A53CC,
        2 => Type::Stereo3D,
        3 => Type::MatrixEncoding,
        4 => Type::DownMixInfo,
        5 => Type::ReplayGain,
        6 => Type::DisplayMatrix,
        7 => Type::AFD,
        8 => Type::MotionVectors,
        9 => Type::SkipSamples,
        10 => Type::AudioServiceType,
        11 => Type::MasteringDisplayMetadata,
        12 => Type::GOPTimecode,
        13 => Type::Spherical,
        14 => Type::ContentLightLevel,
        15 => Type::IccProfile,
        16 => Type::QPTableProperties,
        17 => Type::QPTableData,
        18 => Type::S12MTimecode,
        19 => Type::DynamicHdrPlus,
        20 => Type::RegionsOfInterest,
        21 => Type::VideoEncParams,
        _ => Type::Other(tag),
    }
}

impl Type {
    /// Classifies a native tag; a tag without a name becomes `Other`.
    pub fn from_tag(tag: i32) -> (r: Type)
        ensures
            r == type_of(tag),
    {
        match tag {
            0 => Type::PanScan,
            1 => Type::A53CC,
            2 => Type::Stereo3D,
            3 => Type::MatrixEncoding,
            4 => Type::DownMixInfo,
            5 => Type::ReplayGain,
            6 => Type::DisplayMatrix,
            7 => Type::AFD,
            8 => Type::MotionVectors,
            9 => Type::SkipSamples,
            10 => Type::AudioServiceType,
            11 => Type::MasteringDisplayMetadata,
            12 => Type::GOPTimecode,
            13 => Type::Spherical,
            14 => Type::ContentLightLevel,
            15 => Type::IccProfile,
            16 => Type::QPTableProperties,
            17 => Type::QPTableData,
            18 => Type::S12MTimecode,
            19 => Type::DynamicHdrPlus,
            20 => Type::RegionsOfInterest,
            21 => Type::VideoEncParams,
            _ => Type::Other(tag),
        }
    }

    /// The native tag of this category.
    pub fn tag(&self) -> (r: i32)
        ensures
            r == tag_of(*self),
    {
        match *self {
            Type::PanScan => 0,
            Type::A53CC => 1,
            Type::Stereo3D => 2,
            Type::MatrixEncoding => 3,
            Type::DownMixInfo => 4,
            Type::ReplayGain => 5,
            Type::DisplayMatrix => 6,
            Type::AFD => 7,
            Type::MotionVectors => 8,
            Type::SkipSamples => 9,
            Type::AudioServiceType => 10,
            Type::MasteringDisplayMetadata => 11,
            Type::GOPTimecode => 12,
            Type::Spherical => 13,
            Type::ContentLightLevel => 14,
            Type::IccProfile => 15,
            Type::QPTableProperties => 16,
            Type::QPTableData => 17,
            Type::S12MTimecode => 18,
            Type::DynamicHdrPlus => 19,
            Type::RegionsOfInterest => 20,
            Type::VideoEncParams => 21,
            Type::Other(value) => value,
        }
    }
}

impl From<i32> for Type {
    fn from(tag: i32) -> (r: Type) {
        Type::from_tag(tag)
    }
}

impl vstd::std_specs::convert::FromSpecImpl<i32> for Type {
    open spec fn obeys_from_spec() -> bool {
        true
    }

    open spec fn from_spec(tag: i32) -> Type {
        type_of(tag)
    }
}

impl From<Type> for i32 {
    fn from(t: Type) -> (r: i32) {
        t.tag()
    }
}

impl vstd::std_specs::convert::FromSpecImpl<Type> for i32 {
    open spec fn obeys_from_spec() -> bool {
        true
    }

    open spec fn from_spec(t: Type) -> i32 {
        tag_of(t)
    }
}

/// Converting a named category to its native tag and back gives the same
/// category.
pub proof fn lemma_named_round_trip(t: Type)
    requires
        is_named(t),
    ensures
        is_known_tag(tag_of(t)),
        type_of(tag_of(t)) == t,
{
}

/// A native tag without a name is classified as `Other` carrying that tag,
/// and converting it back gives the tag exactly.
pub proof fn lemma_unknown_tag_round_trip(tag: i32)
    requires
        !is_known_tag(tag),
    ensures
        type_of(tag) == Type::Other(tag),
        tag_of(type_of(tag)) == tag,
{
}

/// Every native tag survives classification and conversion back.
pub proof fn lemma_tag_round_trip(tag: i32)
    ensures
        tag_of(type_of(tag)) == tag,
{
}

/// Borrowed view of a key/value dictionary, entries in the order the native
/// library holds them.
pub struct DictionaryRef<'a> {
    entries: &'a [(String, String)],
}

impl<'a> DictionaryRef<'a> {
    /// The entries, each as key and value.
    pub closed spec fn entries(&self) -> Seq<(Seq<char>, Seq<char>)> {
        Seq::new(self.entries@.len(), |i: int| (self.entries@[i].0@, self.entries@[i].1@))
    }

    /// Views a slice of key/value pairs as a dictionary.
    pub fn wrap(entries: &'a [(String, String)]) -> (r: DictionaryRef<'a>)
        ensures
            r.entries() == Seq::new(entries@.len(), |i: int| (entries@[i].0@, entries@[i].1@)),
    {
        DictionaryRef { entries }
    }

    /// The number of entries.
    pub fn len(&self) -> (r: usize)
        ensures
            r == self.entries().len(),
    {
        self.entries.len()
    }

    /// Whether the dictionary has no entries.
    pub fn is_empty(&self) -> (r: bool)
        ensures
            r == (self.entries().len() == 0),
    {
        self.entries.len() == 0
    }

    /// The key and value of entry `i`.
    pub fn entry(&self, i: usize) -> (r: (&'a str, &'a str))
        requires
            i < self.entries().len(),
        ensures
            (r.0@, r.1@) == self.entries()[i as int],
    {
        let (key, value) = &self.entries[i];
        (key.as_str(), value.as_str())
    }
}

/// Borrowed view of one side-data block of a frame: its native category tag,
/// its payload and its metadata.
pub struct SideData<'a> {
    kind: i32,
    data: &'a [u8],
    metadata: DictionaryRef<'a>,
}

impl<'a> SideData<'a> {
    /// The native category tag of the block.
    pub closed spec fn tag(&self) -> i32 {
        self.kind
    }

    /// The payload bytes.
    pub closed spec fn payload(&self) -> Seq<u8> {
        self.data@
    }

    /// The metadata entries.
    pub closed spec fn metadata_entries(&self) -> Seq<(Seq<char>, Seq<char>)> {
        self.metadata.entries()
    }

    /// Views a block from its native tag, its payload and its metadata.
    pub fn wrap(kind: i32, data: &'a [u8], metadata: DictionaryRef<'a>) -> (r: SideData<'a>)
        ensures
            r.tag() == kind,
            r.payload() == data@,
            r.metadata_entries() == metadata.entries(),
    {
        SideData { kind, data, metadata }
    }

    /// The category of the block; a tag without a name gives `Other`.
    pub fn kind(&self) -> (r: Type)
        ensures
            r == type_of(self.tag()),
    {
        Type::from_tag(self.kind)
    }

    /// The payload, borrowed.
    pub fn data(&self) -> (r: &'a [u8])
        ensures
            r@ == self.payload(),
    {
        self.data
    }

    /// The metadata, borrowed; empty where the block carries none.
    pub fn metadata(&self) -> (r: DictionaryRef<'a>)
        ensures
            r.entries() == self.metadata_entries(),
    {
        DictionaryRef { entries: self.metadata.entries }
    }
}

} // verus!
