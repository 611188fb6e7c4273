//! Encoded output: the packets SVT-AV1 hands back and what they say.

use vstd::prelude::*;

verus! {

/// SVT-AV1 picture type `EB_AV1_INTER_PICTURE`.
pub const EB_AV1_INTER_PICTURE: u32 = 0;
/// SVT-AV1 picture type `EB_AV1_ALT_REF_PICTURE`.
pub const EB_AV1_ALT_REF_PICTURE: u32 = 1;
/// SVT-AV1 picture type `EB_AV1_INTRA_ONLY_PICTURE`.
pub const EB_AV1_INTRA_ONLY_PICTURE: u32 = 2;
/// SVT-AV1 picture type `EB_AV1_KEY_PICTURE`.
pub const EB_AV1_KEY_PICTURE: u32 = 3;
/// SVT-AV1 picture type `EB_AV1_NON_REF_PICTURE`.
pub const EB_AV1_NON_REF_PICTURE: u32 = 4;
/// SVT-AV1 picture type `EB_AV1_FW_KEY_PICTURE`.
pub const EB_AV1_FW_KEY_PICTURE: u32 = 5;
/// SVT-AV1 picture type `EB_AV1_SHOW_EXISTING_PICTURE`.
pub const EB_AV1_SHOW_EXISTING_PICTURE: u32 = 6;
/// SVT-AV1 picture type `EB_AV1_SWITCH_PICTURE`.
pub const EB_AV1_SWITCH_PICTURE: u32 = 7;
/// SVT-AV1 picture type `EB_AV1_INVALID_PICTURE`: let the encoder choose.
pub const EB_AV1_INVALID_PICTURE: u32 = 255;
/// SVT-AV1 buffer flag `EB_BUFFERFLAG_EOS`: end of stream.
pub const EB_BUFFERFLAG_EOS: u32 = 1;

/// Frame type.
#[derive(Debug, Clone, Copy, PartialEq, Eq, Structural)]
pub enum PictureType {
    /// Inter frame
    Inter,
    /// Alt-ref frame
    AltRef,
    /// Intra-only frame
    IntraOnly,
    /// Key frame
    Key,
    /// Non-reference frame
    NonRef,
    /// Forward key frame
    ForwardKey,
    /// Show-existing frame
    ShowExisting,
    /// Switch frame
    Switch,
    /// Unknown
    Unknown,
}

/// The frame type that an SVT-AV1 picture type number stands for.
pub open spec fn picture_type_of(code: u32) -> PictureType {
    if code == EB_AV1_INTER_PICTURE {
        PictureType::Inter
    } else if code == EB_AV1_ALT_REF_PICTURE {
        PictureType::AltRef
    } else if code == EB_AV1_INTRA_ONLY_PICTURE {
        PictureType::IntraOnly
    } else if code == EB_AV1_KEY_PICTURE {
        PictureType::Key
    } else if code == EB_AV1_NON_REF_PICTURE {
        PictureType::NonRef
    } else if code == EB_AV1_FW_KEY_PICTURE {
        PictureType::ForwardKey
    } else if code == EB_AV1_SHOW_EXISTING_PICTURE {
        PictureType::ShowExisting
    } else if code == EB_AV1_SWITCH_PICTURE {
        PictureType::Switch
    } else {
        PictureType::Unknown
    }
}

/// A picture type number that counts as a key frame: key, intra-only or forward key.
pub open spec fn is_key_picture(code: u32) -> bool {
    code == EB_AV1_KEY_PICTURE || code == EB_AV1_INTRA_ONLY_PICTURE || code
        == EB_AV1_FW_KEY_PICTURE
}

/// An output packet as SVT-AV1 reports it, copied into plain values.
#[derive(Debug, Clone)]
pub struct Packet {
    /// Compressed data (empty when SVT-AV1 gave none).
    pub data: Vec<u8>,
    /// Buffer flags.
    pub flags: u32,
    /// Picture type number.
    pub pic_type: u32,
    /// Presentation timestamp.
    pub pts: i64,
    /// Decoding timestamp.
    pub dts: i64,
    /// Temporal layer index.
    pub temporal_layer_index: u8,
    /// Quantizer.
    pub qp: u32,
    /// Average quantizer.
    pub avg_qp: u32,
    /// Luma SSE.
    pub luma_sse: u64,
    /// Cb SSE.
    pub cb_sse: u64,
    /// Cr SSE.
    pub cr_sse: u64,
}

impl Packet {
    /// The packet only marks the end of the stream.
    pub open spec fn is_end_of_stream(self) -> bool {
        self.flags & EB_BUFFERFLAG_EOS != 0
    }
}

/// An encoded video frame.
#[derive(Debug)]
pub struct EncodedFrame(Packet);

impl EncodedFrame {
    /// The packet this frame was made from.
    pub closed spec fn packet(self) -> Packet {
        self.0
    }

    /// Makes a frame of a packet.
    pub(crate) fn from_packet(p: Packet) -> (f: EncodedFrame)
        ensures
            f.packet() == p,
    {
        EncodedFrame(p)
    }

    /// Compressed data.
    pub fn data(&self) -> (r: &[u8])
        ensures
            r@ == self.packet().data@,
    {
        self.0.data.as_slice()
    }

    /// Whether this is a key frame: SVT-AV1 marked it key, intra-only or forward key.
    pub fn is_keyframe(&self) -> (r: bool)
        ensures
            r == is_key_picture(self.packet().pic_type),
    {
        self.0.pic_type == EB_AV1_KEY_PICTURE || self.0.pic_type == EB_AV1_INTRA_ONLY_PICTURE
            || self.0.pic_type == EB_AV1_FW_KEY_PICTURE
    }

    /// Presentation timestamp.
    pub fn pts(&self) -> (r: i64)
        ensures
            r == self.packet().pts,
    {
        self.0.pts
    }

    /// Decoding timestamp.
    pub fn dts(&self) -> (r: i64)
        ensures
            r == self.packet().dts,
    {
        self.0.dts
    }

    /// Temporal layer index (0-5).
    pub fn temporal_layer_index(&self) -> (r: u8)
        ensures
            r == self.packet().temporal_layer_index,
    {
        self.0.temporal_layer_index
    }

    /// Quantizer.
    pub fn qp(&self) -> (r: u32)
        ensures
            r == self.packet().qp,
    {
        self.0.qp
    }

    /// Average quantizer.
    pub fn avg_qp(&self) -> (r: u32)
        ensures
            r == self.packet().avg_qp,
    {
        self.0.avg_qp
    }

    /// Frame type.
    pub fn pic_type(&self) -> (r: PictureType)
        ensures
            r == picture_type_of(self.packet().pic_type),
    {
        let code = self.0.pic_type;
        if code == EB_AV1_INTER_PICTURE {
            PictureType::Inter
        } else if code == EB_AV1_ALT_REF_PICTURE {
            PictureType::AltRef
        } else if code == EB_AV1_INTRA_ONLY_PICTURE {
            PictureType::IntraOnly
        } else if code == EB_AV1_KEY_PICTURE {
            PictureType::Key
        } else if code == EB_AV1_NON_REF_PICTURE {
            PictureType::NonRef
        } else if code == EB_AV1_FW_KEY_PICTURE {
            PictureType::ForwardKey
        } else if code == EB_AV1_SHOW_EXISTING_PICTURE {
            PictureType::ShowExisting
        } else if code == EB_AV1_SWITCH_PICTURE {
            PictureType::Switch
        } else {
            PictureType::Unknown
        }
    }

    /// Luma SSE (only with `stat_report`).
    pub fn luma_sse(&self) -> (r: u64)
        ensures
            r == self.packet().luma_sse,
    {
        self.0.luma_sse
    }

    /// Cb SSE (only with `stat_report`).
    pub fn cb_sse(&self) -> (r: u64)
        ensures
            r == self.packet().cb_sse,
    {
        self.0.cb_sse
    }

    /// Cr SSE (only with `stat_report`).
    pub fn cr_sse(&self) -> (r: u64)
        ensures
            r == self.packet().cr_sse,
    {
        self.0.cr_sse
    }
}

/// A frame counts as a key frame exactly when its frame type is `Key`, `IntraOnly` or
/// `ForwardKey`; every other type does not.
pub proof fn lemma_keyframe_iff_key_type(code: u32)
    ensures
        is_key_picture(code) <==> (picture_type_of(code) == PictureType::Key
            || picture_type_of(code) == PictureType::IntraOnly || picture_type_of(code)
            == PictureType::ForwardKey),
{
}

/// SVT-AV1's picture type numbers name the frame types in order: 0 inter, 1 alt-ref,
/// 2 intra-only, 3 key, 4 non-reference, 5 forward key, 6 show-existing, 7 switch;
/// any other number is an unknown type. Exactly the numbers 2, 3 and 5 are key frames.
pub proof fn lemma_picture_type_numbers(code: u32)
    ensures
        code == 0 ==> picture_type_of(code) == PictureType::Inter,
        code == 1 ==> picture_type_of(code) == PictureType::AltRef,
        code == 2 ==> picture_type_of(code) == PictureType::IntraOnly,
        code == 3 ==> picture_type_of(code) == PictureType::Key,
        code == 4 ==> picture_type_of(code) == PictureType::NonRef,
        code == 5 ==> picture_type_of(code) == PictureType::ForwardKey,
        code == 6 ==> picture_type_of(code) == PictureType::ShowExisting,
        code == 7 ==> picture_type_of(code) == PictureType::Switch,
        code > 7 ==> picture_type_of(code) == PictureType::Unknown,
        is_key_picture(code) <==> (code == 2 || code == 3 || code == 5),
{
}

} // verus!
