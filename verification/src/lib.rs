//! An AV1 encoder around SVT-AV1: its configuration, the checks made on it, the values
//! handed to SVT-AV1, and the state machine of one encoding session.
//!
//! The calls into SVT-AV1 itself are made by the caller; each step of a session says
//! what to send, and takes back what SVT-AV1 answered.

pub mod codec_info;
pub mod config;
pub mod encoder;
pub mod error;
pub mod frame;
pub mod params;
pub mod validation;

pub use codec_info::{
    supported_codecs, Av1EncodingProfile, CodecInfo, DecodingInfo, EncodingInfo, EncodingProfiles,
    VideoCodecType,
};
pub use config::{
    ChromaSamplePosition, ColorFormat, ColorPrimaries, ColorRange, ContentLightLevel,
    EncoderConfig, IntraRefreshType, MasteringDisplayInfo, MatrixCoefficients, RcMode,
    TransferCharacteristics, Tune,
};
pub use encoder::{EncodeOptions, Encoder, EndOfStream, FrameData, FrameSubmission};
pub use error::{Error, EB_ERROR_BAD_PARAMETER, EB_ERROR_NONE, EB_NO_ERROR_EMPTY_QUEUE};
pub use frame::{
    EncodedFrame, Packet, PictureType, EB_AV1_INTRA_ONLY_PICTURE, EB_AV1_INVALID_PICTURE,
    EB_AV1_KEY_PICTURE, EB_BUFFERFLAG_EOS,
};
pub use params::SvtParameters;
pub use validation::ConfigViolation;
