//! What this backend can do with which codec.

use vstd::prelude::*;

verus! {

/// Codec kind.
#[derive(Debug, Clone, Copy, PartialEq, Eq, Structural)]
pub enum VideoCodecType {
    /// AV1
    Av1,
}

impl VideoCodecType {
    /// Every codec kind, in declaration order.
    pub open spec fn all_kinds() -> Seq<VideoCodecType> {
        seq![VideoCodecType::Av1]
    }

    /// Returns every codec kind.
    fn all() -> (r: &'static [VideoCodecType])
        ensures
            r@ == Self::all_kinds(),
    {
        let r: &'static [VideoCodecType] = &[VideoCodecType::Av1];
        assert(r@ =~= Self::all_kinds());
        r
    }
}

/// What the backend offers for one codec.
#[derive(Debug, Clone, PartialEq, Eq)]
pub struct CodecInfo {
    /// The codec.
    pub codec: VideoCodecType,
    /// Decoding capabilities.
    pub decoding: DecodingInfo,
    /// Encoding capabilities.
    pub encoding: EncodingInfo,
}

/// Decoding capabilities.
#[derive(Debug, Clone, PartialEq, Eq)]
pub struct DecodingInfo {
    /// Decoding is possible.
    pub supported: bool,
    /// Hardware acceleration is available.
    pub hardware_accelerated: bool,
}

/// Encoding capabilities.
#[derive(Debug, Clone, PartialEq, Eq)]
pub struct EncodingInfo {
    /// Encoding is possible.
    pub supported: bool,
    /// Hardware acceleration is available.
    pub hardware_accelerated: bool,
    /// Codec-specific profiles.
    pub profiles: EncodingProfiles,
}

/// Codec-specific encoding profiles.
#[derive(Debug, Clone, PartialEq, Eq)]
pub enum EncodingProfiles {
    /// AV1 profiles.
    Av1(Vec<Av1EncodingProfile>),
}

/// AV1 encoding profile.
#[derive(Debug, Clone, Copy, PartialEq, Eq, Structural)]
pub enum Av1EncodingProfile {
    /// Main (8-bit/10-bit 4:2:0)
    Main,
}

/// SVT-AV1 is an encoder only: nothing can be decoded and nothing is hardware accelerated.
pub open spec fn is_decoding_info(d: DecodingInfo) -> bool {
    !d.supported && !d.hardware_accelerated
}

/// SVT-AV1 encodes AV1 in software, in the Main profile (4:2:0 at 8 or 10 bits).
pub open spec fn is_encoding_info(e: EncodingInfo) -> bool {
    &&& e.supported
    &&& !e.hardware_accelerated
    &&& e.profiles matches EncodingProfiles::Av1(p) && p@ == seq![Av1EncodingProfile::Main]
}

/// The description of one codec that this backend gives.
pub open spec fn is_codec_info(info: CodecInfo, codec: VideoCodecType) -> bool {
    &&& info.codec == codec
    &&& is_decoding_info(info.decoding)
    &&& is_encoding_info(info.encoding)
}

/// Lists what this backend offers, one entry per codec kind, in the order of
/// `VideoCodecType::all_kinds`: AV1 encoding in software only.
pub fn supported_codecs() -> (r: Vec<CodecInfo>)
    ensures
        r.len() == VideoCodecType::all_kinds().len(),
        forall|i: int|
            0 <= i < r.len() ==> is_codec_info(#[trigger] r@[i], VideoCodecType::all_kinds()[i]),
{
    let kinds = VideoCodecType::all();
    let mut out: Vec<CodecInfo> = Vec::new();
    let mut i: usize = 0;
    while i < kinds.len()
        invariant
            kinds@ == VideoCodecType::all_kinds(),
            i <= kinds.len(),
            out.len() == i,
            forall|j: int| 0 <= j < i ==> is_codec_info(#[trigger] out@[j], kinds@[j]),
        decreases kinds.len() - i,
    {
        out.push(CodecInfo { codec: kinds[i], decoding: decoding_info(), encoding: encoding_info() });
        i += 1;
    }
    out
}

/// Decoding is never available: SVT-AV1 only encodes.
fn decoding_info() -> (r: DecodingInfo)
    ensures
        is_decoding_info(r),
{
    DecodingInfo { supported: false, hardware_accelerated: false }
}

/// Encoding is always available, in software, for I420 and I42010 input (Main profile).
fn encoding_info() -> (r: EncodingInfo)
    ensures
        is_encoding_info(r),
{
    let profiles = vec![Av1EncodingProfile::Main];
    assert(profiles@ =~= seq![Av1EncodingProfile::Main]);
    EncodingInfo { supported: true, hardware_accelerated: false, profiles: EncodingProfiles::Av1(profiles) }
}

} // verus!
