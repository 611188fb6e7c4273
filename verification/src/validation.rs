//! Plane sizes and the checks that a configuration must pass before SVT-AV1 sees it.

use vstd::prelude::*;

use crate::config::{ColorFormat, EncoderConfig, IntraRefreshType, RcMode};
use crate::encoder::Encoder;
use crate::error::{Error, EB_ERROR_BAD_PARAMETER};

verus! {

/// Bytes per sample: one for 8-bit input, two for 10-bit input.
pub open spec fn bytes_per_sample(f: ColorFormat) -> nat {
    match f {
        ColorFormat::I420 => 1,
        ColorFormat::I42010 => 2,
    }
}

/// `n / 2` rounded up: the chroma extent of a luma extent `n` in 4:2:0.
pub open spec fn half_up(n: nat) -> nat {
    (n + 1) / 2
}

/// Size in bytes of the Y plane.
pub open spec fn luma_plane_size(width: nat, height: nat, f: ColorFormat) -> nat {
    width * height * bytes_per_sample(f)
}

/// Size in bytes of the U plane, and of the V plane.
pub open spec fn chroma_plane_size(width: nat, height: nat, f: ColorFormat) -> nat {
    half_up(width) * half_up(height) * bytes_per_sample(f)
}

/// Size in bytes of a whole picture: Y, U and V.
pub open spec fn total_plane_size(width: nat, height: nat, f: ColorFormat) -> nat {
    luma_plane_size(width, height, f) + 2 * chroma_plane_size(width, height, f)
}

/// The Y plane size and the U (= V) plane size can each be held in a `usize`.
pub open spec fn plane_sizes_fit(width: nat, height: nat, f: ColorFormat) -> bool {
    &&& luma_plane_size(width, height, f) <= usize::MAX
    &&& chroma_plane_size(width, height, f) <= usize::MAX
}

/// The reasons for which a configuration is refused, in the order they are checked.
#[derive(Debug, Clone, Copy, PartialEq, Eq, Structural)]
pub enum ConfigViolation {
    /// Width or height is zero.
    ZeroDimension,
    /// Width or height does not fit in 32 bits.
    DimensionTooLarge,
    /// Frame rate numerator or denominator, or target bit rate, does not fit in 32 bits.
    RateTooLarge,
    /// A plane size does not fit in a `usize`.
    PlaneSizeOverflow,
    /// The whole picture size does not fit in 32 bits.
    TotalPlaneSizeTooLarge,
    /// The frame rate denominator is zero.
    ZeroFpsDenominator,
    /// The preset is above 13.
    EncModeOutOfRange,
    /// The quantizer is above 63.
    QpOutOfRange,
    /// The smallest quantizer is above 63.
    MinQpOutOfRange,
    /// The largest quantizer is above 63.
    MaxQpOutOfRange,
    /// The smallest quantizer is above the largest.
    MinQpAboveMaxQp,
    /// The decoder speed optimisation is above 2.
    FastDecodeOutOfRange,
    /// The sharpness is outside -7..=7.
    SharpnessOutOfRange,
    /// The adaptive quantization mode is above 2.
    AqModeOutOfRange,
    /// The screen content mode is above 3.
    ScreenContentModeOutOfRange,
    /// CQP/CRF mode with a non-zero target bit rate.
    BitRateInCrfMode,
    /// CBR (low delay) with forward key frame refresh, under which SVT-AV1 never
    /// catches up with the input and the packet request blocks.
    FwdkfRefreshInCbrMode,
    /// A key frame interval, tile column count or tile row count of zero.
    ZeroCount,
}

impl ConfigViolation {
    /// The text that the error of this violation carries.
    pub open spec fn text(self) -> Seq<char> {
        match self {
            ConfigViolation::ZeroDimension => "EncoderConfig: width/height must be > 0"@,
            ConfigViolation::DimensionTooLarge => "EncoderConfig: width/height must fit in u32"@,
            ConfigViolation::RateTooLarge =>
                "EncoderConfig: fps_numerator/fps_denominator/target_bit_rate must fit in u32"@,
            ConfigViolation::PlaneSizeOverflow => "EncoderConfig: plane size overflow"@,
            ConfigViolation::TotalPlaneSizeTooLarge =>
                "EncoderConfig: total plane size must fit in u32"@,
            ConfigViolation::ZeroFpsDenominator => "EncoderConfig: fps_denominator must be > 0"@,
            ConfigViolation::EncModeOutOfRange => "EncoderConfig: enc_mode must be 0-13"@,
            ConfigViolation::QpOutOfRange => "EncoderConfig: qp must be 0-63"@,
            ConfigViolation::MinQpOutOfRange => "EncoderConfig: min_qp_allowed must be 0-63"@,
            ConfigViolation::MaxQpOutOfRange => "EncoderConfig: max_qp_allowed must be 0-63"@,
            ConfigViolation::MinQpAboveMaxQp =>
                "EncoderConfig: min_qp_allowed must be <= max_qp_allowed"@,
            ConfigViolation::FastDecodeOutOfRange => "EncoderConfig: fast_decode must be 0-2"@,
            ConfigViolation::SharpnessOutOfRange => "EncoderConfig: sharpness must be -7 to 7"@,
            ConfigViolation::AqModeOutOfRange => "EncoderConfig: aq_mode must be 0-2"@,
            ConfigViolation::ScreenContentModeOutOfRange =>
                "EncoderConfig: screen_content_mode must be 0-3"@,
            ConfigViolation::BitRateInCrfMode =>
                "EncoderConfig: target_bit_rate must be 0 for CRF mode"@,
            ConfigViolation::FwdkfRefreshInCbrMode =>
                "EncoderConfig: intra_refresh_type FwdkfRefresh is not supported in CBR mode"@,
            ConfigViolation::ZeroCount =>
                "EncoderConfig: intra_period_length/tile_columns/tile_rows must be > 0"@,
        }
    }

    /// The text that the error of this violation carries.
    pub fn message(self) -> (r: &'static str)
        ensures
            r@ == self.text(),
    {
        match self {
            ConfigViolation::ZeroDimension => "EncoderConfig: width/height must be > 0",
            ConfigViolation::DimensionTooLarge => "EncoderConfig: width/height must fit in u32",
            ConfigViolation::RateTooLarge =>
                "EncoderConfig: fps_numerator/fps_denominator/target_bit_rate must fit in u32",
            ConfigViolation::PlaneSizeOverflow => "EncoderConfig: plane size overflow",
            ConfigViolation::TotalPlaneSizeTooLarge =>
                "EncoderConfig: total plane size must fit in u32",
            ConfigViolation::ZeroFpsDenominator => "EncoderConfig: fps_denominator must be > 0",
            ConfigViolation::EncModeOutOfRange => "EncoderConfig: enc_mode must be 0-13",
            ConfigViolation::QpOutOfRange => "EncoderConfig: qp must be 0-63",
            ConfigViolation::MinQpOutOfRange => "EncoderConfig: min_qp_allowed must be 0-63",
            ConfigViolation::MaxQpOutOfRange => "EncoderConfig: max_qp_allowed must be 0-63",
            ConfigViolation::MinQpAboveMaxQp =>
                "EncoderConfig: min_qp_allowed must be <= max_qp_allowed",
            ConfigViolation::FastDecodeOutOfRange => "EncoderConfig: fast_decode must be 0-2",
            ConfigViolation::SharpnessOutOfRange => "EncoderConfig: sharpness must be -7 to 7",
            ConfigViolation::AqModeOutOfRange => "EncoderConfig: aq_mode must be 0-2",
            ConfigViolation::ScreenContentModeOutOfRange =>
                "EncoderConfig: screen_content_mode must be 0-3",
            ConfigViolation::BitRateInCrfMode =>
                "EncoderConfig: target_bit_rate must be 0 for CRF mode",
            ConfigViolation::FwdkfRefreshInCbrMode =>
                "EncoderConfig: intra_refresh_type FwdkfRefresh is not supported in CBR mode",
            ConfigViolation::ZeroCount =>
                "EncoderConfig: intra_period_length/tile_columns/tile_rows must be > 0",
        }
    }
}

/// The first rule that `c` breaks, or `None` when SVT-AV1 may be given `c`.
pub open spec fn config_violation(c: EncoderConfig) -> Option<ConfigViolation> {
    let (w, h, f) = (c.width as nat, c.height as nat, c.color_format);
    if c.width == 0 || c.height == 0 {
        Some(ConfigViolation::ZeroDimension)
    } else if c.width > u32::MAX || c.height > u32::MAX {
        Some(ConfigViolation::DimensionTooLarge)
    } else if c.fps_numerator > u32::MAX || c.fps_denominator > u32::MAX || c.target_bit_rate
        > u32::MAX {
        Some(ConfigViolation::RateTooLarge)
    } else if !plane_sizes_fit(w, h, f) {
        Some(ConfigViolation::PlaneSizeOverflow)
    } else if total_plane_size(w, h, f) > u32::MAX {
        Some(ConfigViolation::TotalPlaneSizeTooLarge)
    } else if c.fps_denominator == 0 {
        Some(ConfigViolation::ZeroFpsDenominator)
    } else if c.enc_mode > 13 {
        Some(ConfigViolation::EncModeOutOfRange)
    } else if c.qp matches Some(qp) && qp > 63 {
        Some(ConfigViolation::QpOutOfRange)
    } else if c.min_qp_allowed matches Some(min) && min > 63 {
        Some(ConfigViolation::MinQpOutOfRange)
    } else if c.max_qp_allowed matches Some(max) && max > 63 {
        Some(ConfigViolation::MaxQpOutOfRange)
    } else if c.min_qp_allowed matches Some(min) && c.max_qp_allowed matches Some(max) && min
        > max {
        Some(ConfigViolation::MinQpAboveMaxQp)
    } else if c.fast_decode matches Some(fd) && fd > 2 {
        Some(ConfigViolation::FastDecodeOutOfRange)
    } else if c.sharpness matches Some(s) && !(-7 <= s <= 7) {
        Some(ConfigViolation::SharpnessOutOfRange)
    } else if c.aq_mode matches Some(aq) && aq > 2 {
        Some(ConfigViolation::AqModeOutOfRange)
    } else if c.screen_content_mode matches Some(scm) && scm > 3 {
        Some(ConfigViolation::ScreenContentModeOutOfRange)
    } else if c.rate_control_mode == RcMode::CqpOrCrf && c.target_bit_rate > 0 {
        Some(ConfigViolation::BitRateInCrfMode)
    } else if c.rate_control_mode == RcMode::Cbr && c.intra_refresh_type == Some(
        IntraRefreshType::FwdkfRefresh,
    ) {
        Some(ConfigViolation::FwdkfRefreshInCbrMode)
    } else if c.intra_period_length == Some(0usize) || c.tile_columns == Some(0usize)
        || c.tile_rows == Some(0usize) {
        Some(ConfigViolation::ZeroCount)
    } else {
        None
    }
}

/// `n / 2` rounded up, for any `usize`.
fn div_ceil_2(n: usize) -> (r: usize)
    ensures
        r == half_up(n as nat),
{
    n / 2 + n % 2
}

impl Encoder {
    /// Sizes in bytes of the Y, U and V planes of one picture; `None` when one of them
    /// does not fit in a `usize`.
    pub fn plane_sizes(width: usize, height: usize, color_format: ColorFormat) -> (r: Option<
        (usize, usize, usize),
    >)
        ensures
            r is None <==> !plane_sizes_fit(width as nat, height as nat, color_format),
            r matches Some((y, u, v)) ==> {
                &&& y == luma_plane_size(width as nat, height as nat, color_format)
                &&& u == chroma_plane_size(width as nat, height as nat, color_format)
                &&& v == u
            },
    {
        let bytes_per_pixel: usize = match color_format {
            ColorFormat::I420 => 1,
            ColorFormat::I42010 => 2,
        };
        let ghost b = bytes_per_pixel as nat;
        assert(b == bytes_per_sample(color_format));
        let cw = div_ceil_2(width);
        let ch = div_ceil_2(height);
        let y_size = match width.checked_mul(height) {
            Some(wh) => {
                proof {
                    assert(wh * b >= wh) by (nonlinear_arith)
                        requires
                            b >= 1,
                    ;
                }
                wh.checked_mul(bytes_per_pixel)
            },
            None => {
                proof {
                    assert((width * height) * b >= width * height) by (nonlinear_arith)
                        requires
                            b >= 1,
                    ;
                }
                None
            },
        };
        let u_size = match cw.checked_mul(ch) {
            Some(c) => {
                proof {
                    assert(c * b >= c) by (nonlinear_arith)
                        requires
                            b >= 1,
                    ;
                }
                c.checked_mul(bytes_per_pixel)
            },
            None => {
                proof {
                    assert((cw * ch) * b >= cw * ch) by (nonlinear_arith)
                        requires
                            b >= 1,
                    ;
                }
                None
            },
        };
        match (y_size, u_size) {
            (Some(y), Some(u)) => Some((y, u, u)),
            _ => None,
        }
    }

    /// Checks a configuration before anything is asked of SVT-AV1: `Ok` exactly when it
    /// breaks no rule, otherwise a bad-parameter error naming the first rule it breaks.
    pub fn validate_config(config: &EncoderConfig) -> (r: Result<(), Error>)
        ensures
            r is Ok <==> config_violation(*config) is None,
            r matches Err(e) ==> {
                &&& e@.code == EB_ERROR_BAD_PARAMETER
                &&& e@.function == config_violation(*config).unwrap().text()
            },
    {
        match Self::first_violation(config) {
            None => Ok(()),
            Some(v) => Err(Error::bad_parameter(v.message())),
        }
    }

    /// The first rule that `config` breaks.
    fn first_violation(config: &EncoderConfig) -> (r: Option<ConfigViolation>)
        ensures
            r == config_violation(*config),
    {
        if config.width == 0 || config.height == 0 {
            return Some(ConfigViolation::ZeroDimension);
        }
        if config.width > u32::MAX as usize || config.height > u32::MAX as usize {
            return Some(ConfigViolation::DimensionTooLarge);
        }
        if config.fps_numerator > u32::MAX as usize || config.fps_denominator > u32::MAX as usize
            || config.target_bit_rate > u32::MAX as usize {
            return Some(ConfigViolation::RateTooLarge);
        }
        let (y, u, v) = match Self::plane_sizes(config.width, config.height, config.color_format) {
            Some(sizes) => sizes,
            None => {
                return Some(ConfigViolation::PlaneSizeOverflow);
            },
        };
        let total_fits = match y.checked_add(u) {
            Some(s) => match s.checked_add(v) {
                Some(total) => total <= u32::MAX as usize,
                None => false,
            },
            None => false,
        };
        if !total_fits {
            return Some(ConfigViolation::TotalPlaneSizeTooLarge);
        }
        if config.fps_denominator == 0 {
            return Some(ConfigViolation::ZeroFpsDenominator);
        }
        if config.enc_mode > 13 {
            return Some(ConfigViolation::EncModeOutOfRange);
        }
        if let Some(qp) = config.qp {
            if qp > 63 {
                return Some(ConfigViolation::QpOutOfRange);
            }
        }
        if let Some(min) = config.min_qp_allowed {
            if min > 63 {
                return Some(ConfigViolation::MinQpOutOfRange);
            }
        }
        if let Some(max) = config.max_qp_allowed {
            if max > 63 {
                return Some(ConfigViolation::MaxQpOutOfRange);
            }
        }
        if let (Some(min), Some(max)) = (config.min_qp_allowed, config.max_qp_allowed) {
            if min > max {
                return Some(ConfigViolation::MinQpAboveMaxQp);
            }
        }
        if let Some(fd) = config.fast_decode {
            if fd > 2 {
                return Some(ConfigViolation::FastDecodeOutOfRange);
            }
        }
        if let Some(s) = config.sharpness {
            if s < -7 || s > 7 {
                return Some(ConfigViolation::SharpnessOutOfRange);
            }
        }
        if let Some(aq) = config.aq_mode {
            if aq > 2 {
                return Some(ConfigViolation::AqModeOutOfRange);
            }
        }
        if let Some(scm) = config.screen_content_mode {
            if scm > 3 {
                return Some(ConfigViolation::ScreenContentModeOutOfRange);
            }
        }
        if config.rate_control_mode == RcMode::CqpOrCrf && config.target_bit_rate > 0 {
            return Some(ConfigViolation::BitRateInCrfMode);
        }
        if config.rate_control_mode == RcMode::Cbr {
            if let Some(IntraRefreshType::FwdkfRefresh) = config.intra_refresh_type {
                return Some(ConfigViolation::FwdkfRefreshInCbrMode);
            }
        }
        if config.intra_period_length == Some(0usize) || config.tile_columns == Some(0usize)
            || config.tile_rows == Some(0usize) {
            return Some(ConfigViolation::ZeroCount);
        }
        None
    }
}

/// A configuration that passes the checks has every value in its documented range (and
/// no key frame interval or tile count of zero):
/// positive dimensions and frame rate denominator that fit in 32 bits, rates that fit in
/// 32 bits, a whole picture that fits in 32 bits, preset 0-13, quantizers 0-63 with the
/// smallest not above the largest, decoder speed 0-2, sharpness -7..=7, adaptive
/// quantization 0-2, screen content mode 0-3, and no target bit rate in CQP/CRF mode.
pub proof fn lemma_accepted_config_in_range(c: EncoderConfig)
    requires
        config_violation(c) is None,
    ensures
        0 < c.width <= u32::MAX,
        0 < c.height <= u32::MAX,
        c.fps_numerator <= u32::MAX,
        0 < c.fps_denominator <= u32::MAX,
        c.target_bit_rate <= u32::MAX,
        plane_sizes_fit(c.width as nat, c.height as nat, c.color_format),
        total_plane_size(c.width as nat, c.height as nat, c.color_format) <= u32::MAX,
        c.enc_mode <= 13,
        c.qp matches Some(qp) ==> qp <= 63,
        c.min_qp_allowed matches Some(min) ==> min <= 63,
        c.max_qp_allowed matches Some(max) ==> max <= 63,
        c.min_qp_allowed matches Some(min) ==> (c.max_qp_allowed matches Some(max) ==> min
            <= max),
        c.fast_decode matches Some(fd) ==> fd <= 2,
        c.sharpness matches Some(s) ==> -7 <= s <= 7,
        c.aq_mode matches Some(aq) ==> aq <= 2,
        c.screen_content_mode matches Some(scm) ==> scm <= 3,
        c.rate_control_mode == RcMode::CqpOrCrf ==> c.target_bit_rate == 0,
        c.rate_control_mode == RcMode::Cbr ==> c.intra_refresh_type != Some(
            IntraRefreshType::FwdkfRefresh,
        ),
        c.intra_period_length != Some(0usize),
        c.tile_columns != Some(0usize),
        c.tile_rows != Some(0usize),
{
}

/// Conversely, a configuration with every value in its documented range is accepted:
/// positive dimensions that fit in 32 bits, frame rate numerator, denominator and target
/// bit rate that fit in 32 bits with a non-zero denominator, one whole picture (the Y
/// plane and two chroma planes of half the width and height, rounded up) that fits in
/// 32 bits, preset 0-13, quantizers 0-63 with the smallest not above the largest, decoder
/// speed 0-2, sharpness -7..=7, adaptive quantization 0-2, screen content mode 0-3, no
/// target bit rate in CQP/CRF mode, no forward key frame refresh in CBR, and no key frame
/// interval or tile count of zero.
pub proof fn lemma_in_range_config_accepted(c: EncoderConfig)
    requires
        1 <= c.width <= 0xffff_ffff,
        1 <= c.height <= 0xffff_ffff,
        c.fps_numerator <= 0xffff_ffff,
        1 <= c.fps_denominator <= 0xffff_ffff,
        c.target_bit_rate <= 0xffff_ffff,
        ({
            let bps: int = if c.color_format == ColorFormat::I420 { 1 } else { 2 };
            c.width * c.height * bps + 2 * (((c.width + 1) / 2) * ((c.height + 1) / 2) * bps)
                <= 0xffff_ffff
        }),
        c.enc_mode <= 13,
        c.qp matches Some(qp) ==> qp <= 63,
        c.min_qp_allowed matches Some(min) ==> min <= 63,
        c.max_qp_allowed matches Some(max) ==> max <= 63,
        c.min_qp_allowed matches Some(min) ==> (c.max_qp_allowed matches Some(max) ==> min
            <= max),
        c.fast_decode matches Some(fd) ==> fd <= 2,
        c.sharpness matches Some(s) ==> -7 <= s <= 7,
        c.aq_mode matches Some(aq) ==> aq <= 2,
        c.screen_content_mode matches Some(scm) ==> scm <= 3,
        c.rate_control_mode == RcMode::CqpOrCrf ==> c.target_bit_rate == 0,
        c.rate_control_mode == RcMode::Cbr ==> c.intra_refresh_type != Some(
            IntraRefreshType::FwdkfRefresh,
        ),
        c.intra_period_length != Some(0usize),
        c.tile_columns != Some(0usize),
        c.tile_rows != Some(0usize),
    ensures
        config_violation(c) is None,
{
    let (w, h, f) = (c.width as nat, c.height as nat, c.color_format);
    assert(total_plane_size(w, h, f) <= u32::MAX);
    assert(plane_sizes_fit(w, h, f));
}

/// The settings that `EncoderConfig::new` gives pass the checks exactly when the
/// picture is not empty, its dimensions fit in 32 bits and one whole picture (Y, U and
/// V) fits in 32 bits.
pub proof fn lemma_default_config_accepted(width: usize, height: usize, f: ColorFormat)
    ensures
        config_violation(EncoderConfig::default_for(width, height, f)) is None <==> {
            &&& 0 < width <= u32::MAX
            &&& 0 < height <= u32::MAX
            &&& total_plane_size(width as nat, height as nat, f) <= u32::MAX
        },
{
    let (w, h) = (width as nat, height as nat);
    if total_plane_size(w, h, f) <= u32::MAX {
        assert(plane_sizes_fit(w, h, f));
    }
}

/// For even dimensions each chroma plane is a quarter of the luma plane, in both
/// formats, and a 10-bit picture takes twice the bytes of an 8-bit one.
pub proof fn lemma_plane_sizes_even(width: nat, height: nat)
    requires
        width % 2 == 0,
        height % 2 == 0,
    ensures
        4 * chroma_plane_size(width, height, ColorFormat::I420) == luma_plane_size(
            width,
            height,
            ColorFormat::I420,
        ),
        4 * chroma_plane_size(width, height, ColorFormat::I42010) == luma_plane_size(
            width,
            height,
            ColorFormat::I42010,
        ),
        total_plane_size(width, height, ColorFormat::I42010) == 2 * total_plane_size(
            width,
            height,
            ColorFormat::I420,
        ),
{
    let (hw, hh) = (width / 2, height / 2);
    assert(half_up(width) == hw);
    assert(half_up(height) == hh);
    assert(width * height == 4 * (hw * hh)) by (nonlinear_arith)
        requires
            width == 2 * hw,
            height == 2 * hh,
    ;
    assert(width * height * 2 == 2 * (width * height)) by (nonlinear_arith);
    assert(hw * hh * 2 == 2 * (hw * hh)) by (nonlinear_arith);
}

/// Chroma extents are half the luma extents rounded up, and an 8-bit picture takes one
/// byte per sample: for any dimensions, twice a chroma extent is the luma extent or one
/// more, and an 8-bit picture is `width * height` bytes of Y plus two chroma planes of
/// those halved extents, with a 10-bit picture taking twice as many.
pub proof fn lemma_plane_layout(width: nat, height: nat)
    ensures
        2 * half_up(width) == width || 2 * half_up(width) == width + 1,
        luma_plane_size(width, height, ColorFormat::I420) == width * height,
        chroma_plane_size(width, height, ColorFormat::I420) == half_up(width) * half_up(height),
        luma_plane_size(width, height, ColorFormat::I42010) == 2 * (width * height),
        chroma_plane_size(width, height, ColorFormat::I42010) == 2 * (half_up(width) * half_up(
            height,
        )),
{
    let (hw, hh) = (half_up(width), half_up(height));
    assert(width * height * 1 == width * height) by (nonlinear_arith);
    assert(hw * hh * 1 == hw * hh) by (nonlinear_arith);
    assert(width * height * 2 == 2 * (width * height)) by (nonlinear_arith);
    assert(half_up(width) * half_up(height) * 2 == 2 * (half_up(width) * half_up(height)))
        by (nonlinear_arith);
}

} // verus!
