//! The values that a configuration puts into SVT-AV1's encoder configuration: those
//! that are converted, derived from the rate control mode or always written, and those
//! that SVT-AV1 takes as they are (film grain, super-resolution, variance boost,
//! quantization matrices, filters, and the like).

use vstd::prelude::*;

use crate::config::{
    ChromaSamplePosition, ColorFormat, ColorPrimaries, ColorRange, ContentLightLevel,
    EncoderConfig, IntraRefreshType, MasteringDisplayInfo, MatrixCoefficients, RcMode,
    TransferCharacteristics, Tune,
};
use crate::encoder::Encoder;
use crate::validation::config_violation;

verus! {

/// SVT-AV1's `EB_YUV420` colour format.
pub const EB_YUV420: u32 = 1;

/// SVT-AV1 prediction structure "low delay".
pub const PRED_STRUCTURE_LOW_DELAY: u8 = 1;

/// SVT-AV1 prediction structure "random access".
pub const PRED_STRUCTURE_RANDOM_ACCESS: u8 = 2;

/// SVT-AV1's `SvtAv1RcMode` value `SVT_AV1_RC_MODE_CQP_OR_CRF`.
pub const SVT_AV1_RC_MODE_CQP_OR_CRF: u8 = 0;

/// SVT-AV1's `SvtAv1RcMode` value `SVT_AV1_RC_MODE_VBR`.
pub const SVT_AV1_RC_MODE_VBR: u8 = 1;

/// SVT-AV1's `SvtAv1RcMode` value `SVT_AV1_RC_MODE_CBR`.
pub const SVT_AV1_RC_MODE_CBR: u8 = 2;

/// SVT-AV1's `SvtAv1IntraRefreshType` value `SVT_AV1_FWDKF_REFRESH`.
pub const SVT_AV1_FWDKF_REFRESH: u32 = 1;

/// SVT-AV1's `SvtAv1IntraRefreshType` value `SVT_AV1_KF_REFRESH`.
pub const SVT_AV1_KF_REFRESH: u32 = 2;

/// SVT-AV1's `EbColorPrimaries` (H.273) value `EB_CICP_CP_BT_709`.
pub const EB_CICP_CP_BT_709: u32 = 1;

/// SVT-AV1's `EbColorPrimaries` (H.273) value `EB_CICP_CP_UNSPECIFIED`.
pub const EB_CICP_CP_UNSPECIFIED: u32 = 2;

/// SVT-AV1's `EbColorPrimaries` (H.273) value `EB_CICP_CP_BT_470_M`.
pub const EB_CICP_CP_BT_470_M: u32 = 4;

/// SVT-AV1's `EbColorPrimaries` (H.273) value `EB_CICP_CP_BT_470_B_G`.
pub const EB_CICP_CP_BT_470_B_G: u32 = 5;

/// SVT-AV1's `EbColorPrimaries` (H.273) value `EB_CICP_CP_BT_601`.
pub const EB_CICP_CP_BT_601: u32 = 6;

/// SVT-AV1's `EbColorPrimaries` (H.273) value `EB_CICP_CP_SMPTE_240`.
pub const EB_CICP_CP_SMPTE_240: u32 = 7;

/// SVT-AV1's `EbColorPrimaries` (H.273) value `EB_CICP_CP_GENERIC_FILM`.
pub const EB_CICP_CP_GENERIC_FILM: u32 = 8;

/// SVT-AV1's `EbColorPrimaries` (H.273) value `EB_CICP_CP_BT_2020`.
pub const EB_CICP_CP_BT_2020: u32 = 9;

/// SVT-AV1's `EbColorPrimaries` (H.273) value `EB_CICP_CP_XYZ`.
pub const EB_CICP_CP_XYZ: u32 = 10;

/// SVT-AV1's `EbColorPrimaries` (H.273) value `EB_CICP_CP_SMPTE_431`.
pub const EB_CICP_CP_SMPTE_431: u32 = 11;

/// SVT-AV1's `EbColorPrimaries` (H.273) value `EB_CICP_CP_SMPTE_432`.
pub const EB_CICP_CP_SMPTE_432: u32 = 12;

/// SVT-AV1's `EbColorPrimaries` (H.273) value `EB_CICP_CP_EBU_3213`.
pub const EB_CICP_CP_EBU_3213: u32 = 22;

/// SVT-AV1's `EbTransferCharacteristics` (H.273) value `EB_CICP_TC_BT_709`.
pub const EB_CICP_TC_BT_709: u32 = 1;

/// SVT-AV1's `EbTransferCharacteristics` (H.273) value `EB_CICP_TC_UNSPECIFIED`.
pub const EB_CICP_TC_UNSPECIFIED: u32 = 2;

/// SVT-AV1's `EbTransferCharacteristics` (H.273) value `EB_CICP_TC_BT_470_M`.
pub const EB_CICP_TC_BT_470_M: u32 = 4;

/// SVT-AV1's `EbTransferCharacteristics` (H.273) value `EB_CICP_TC_BT_470_B_G`.
pub const EB_CICP_TC_BT_470_B_G: u32 = 5;

/// SVT-AV1's `EbTransferCharacteristics` (H.273) value `EB_CICP_TC_BT_601`.
pub const EB_CICP_TC_BT_601: u32 = 6;

/// SVT-AV1's `EbTransferCharacteristics` (H.273) value `EB_CICP_TC_SMPTE_240`.
pub const EB_CICP_TC_SMPTE_240: u32 = 7;

/// SVT-AV1's `EbTransferCharacteristics` (H.273) value `EB_CICP_TC_LINEAR`.
pub const EB_CICP_TC_LINEAR: u32 = 8;

/// SVT-AV1's `EbTransferCharacteristics` (H.273) value `EB_CICP_TC_IEC_61966`.
pub const EB_CICP_TC_IEC_61966: u32 = 11;

/// SVT-AV1's `EbTransferCharacteristics` (H.273) value `EB_CICP_TC_BT_1361`.
pub const EB_CICP_TC_BT_1361: u32 = 12;

/// SVT-AV1's `EbTransferCharacteristics` (H.273) value `EB_CICP_TC_SRGB`.
pub const EB_CICP_TC_SRGB: u32 = 13;

/// SVT-AV1's `EbTransferCharacteristics` (H.273) value `EB_CICP_TC_BT_2020_10_BIT`.
pub const EB_CICP_TC_BT_2020_10_BIT: u32 = 14;

/// SVT-AV1's `EbTransferCharacteristics` (H.273) value `EB_CICP_TC_BT_2020_12_BIT`.
pub const EB_CICP_TC_BT_2020_12_BIT: u32 = 15;

/// SVT-AV1's `EbTransferCharacteristics` (H.273) value `EB_CICP_TC_SMPTE_2084`.
pub const EB_CICP_TC_SMPTE_2084: u32 = 16;

/// SVT-AV1's `EbTransferCharacteristics` (H.273) value `EB_CICP_TC_SMPTE_428`.
pub const EB_CICP_TC_SMPTE_428: u32 = 17;

/// SVT-AV1's `EbTransferCharacteristics` (H.273) value `EB_CICP_TC_HLG`.
pub const EB_CICP_TC_HLG: u32 = 18;

/// SVT-AV1's `EbMatrixCoefficients` (H.273) value `EB_CICP_MC_IDENTITY`.
pub const EB_CICP_MC_IDENTITY: u32 = 0;

/// SVT-AV1's `EbMatrixCoefficients` (H.273) value `EB_CICP_MC_BT_709`.
pub const EB_CICP_MC_BT_709: u32 = 1;

/// SVT-AV1's `EbMatrixCoefficients` (H.273) value `EB_CICP_MC_UNSPECIFIED`.
pub const EB_CICP_MC_UNSPECIFIED: u32 = 2;

/// SVT-AV1's `EbMatrixCoefficients` (H.273) value `EB_CICP_MC_FCC`.
pub const EB_CICP_MC_FCC: u32 = 4;

/// SVT-AV1's `EbMatrixCoefficients` (H.273) value `EB_CICP_MC_BT_470_B_G`.
pub const EB_CICP_MC_BT_470_B_G: u32 = 5;

/// SVT-AV1's `EbMatrixCoefficients` (H.273) value `EB_CICP_MC_BT_601`.
pub const EB_CICP_MC_BT_601: u32 = 6;

/// SVT-AV1's `EbMatrixCoefficients` (H.273) value `EB_CICP_MC_SMPTE_240`.
pub const EB_CICP_MC_SMPTE_240: u32 = 7;

/// SVT-AV1's `EbMatrixCoefficients` (H.273) value `EB_CICP_MC_SMPTE_YCGCO`.
pub const EB_CICP_MC_SMPTE_YCGCO: u32 = 8;

/// SVT-AV1's `EbMatrixCoefficients` (H.273) value `EB_CICP_MC_BT_2020_NCL`.
pub const EB_CICP_MC_BT_2020_NCL: u32 = 9;

/// SVT-AV1's `EbMatrixCoefficients` (H.273) value `EB_CICP_MC_BT_2020_CL`.
pub const EB_CICP_MC_BT_2020_CL: u32 = 10;

/// SVT-AV1's `EbMatrixCoefficients` (H.273) value `EB_CICP_MC_SMPTE_2085`.
pub const EB_CICP_MC_SMPTE_2085: u32 = 11;

/// SVT-AV1's `EbMatrixCoefficients` (H.273) value `EB_CICP_MC_CHROMAT_NCL`.
pub const EB_CICP_MC_CHROMAT_NCL: u32 = 12;

/// SVT-AV1's `EbMatrixCoefficients` (H.273) value `EB_CICP_MC_CHROMAT_CL`.
pub const EB_CICP_MC_CHROMAT_CL: u32 = 13;

/// SVT-AV1's `EbMatrixCoefficients` (H.273) value `EB_CICP_MC_ICTCP`.
pub const EB_CICP_MC_ICTCP: u32 = 14;

/// SVT-AV1's `EbColorRange` value `EB_CR_STUDIO_RANGE`.
pub const EB_CR_STUDIO_RANGE: u32 = 0;

/// SVT-AV1's `EbColorRange` value `EB_CR_FULL_RANGE`.
pub const EB_CR_FULL_RANGE: u32 = 1;

/// SVT-AV1's `EbChromaSamplePosition` value `EB_CSP_UNKNOWN`.
pub const EB_CSP_UNKNOWN: u32 = 0;

/// SVT-AV1's `EbChromaSamplePosition` value `EB_CSP_VERTICAL`.
pub const EB_CSP_VERTICAL: u32 = 1;

/// SVT-AV1's `EbChromaSamplePosition` value `EB_CSP_COLOCATED`.
pub const EB_CSP_COLOCATED: u32 = 2;

/// The values of SVT-AV1's encoder configuration that a configuration decides.
/// `None` leaves SVT-AV1's default in place. The settings that SVT-AV1 takes as they are
/// (from `mastering_display` on) are the configuration's own values; the float
/// `ac_bias` is not among them.
#[derive(Debug, Clone, Copy)]
pub struct SvtParameters {
    pub source_width: u32,
    pub source_height: u32,
    pub frame_rate_numerator: u32,
    pub frame_rate_denominator: u32,
    pub target_bit_rate: Option<u32>,
    pub enc_mode: i8,
    pub qp: Option<u32>,
    pub min_qp_allowed: Option<u32>,
    pub max_qp_allowed: Option<u32>,
    pub rate_control_mode: u8,
    pub max_bit_rate: Option<u32>,
    pub starting_buffer_level_ms: Option<i64>,
    pub optimal_buffer_level_ms: Option<i64>,
    pub maximum_buffer_size_ms: Option<i64>,
    pub intra_period_length: Option<i32>,
    pub intra_refresh_type: Option<u32>,
    pub pred_structure: u8,
    pub scene_change_detection: u32,
    pub look_ahead_distance: Option<u32>,
    pub tile_columns: Option<i32>,
    pub tile_rows: Option<i32>,
    pub encoder_bit_depth: u32,
    pub encoder_color_format: u32,
    pub color_primaries: Option<u32>,
    pub transfer_characteristics: Option<u32>,
    pub matrix_coefficients: Option<u32>,
    pub color_range: Option<u32>,
    pub chroma_sample_position: Option<u32>,
    pub tune: Option<u8>,
    pub stat_report: u32,
    pub screen_content_mode: Option<u32>,
    pub sframe_mode: Option<u32>,
    pub force_key_frames: bool,
    pub mastering_display: Option<MasteringDisplayInfo>,
    pub content_light_level: Option<ContentLightLevel>,
    pub fast_decode: Option<u8>,
    pub film_grain_denoise_strength: Option<u32>,
    pub film_grain_denoise_apply: Option<u8>,
    pub adaptive_film_grain: Option<bool>,
    pub sharpness: Option<i8>,
    pub aq_mode: Option<u8>,
    pub rtc: Option<bool>,
    pub hierarchical_levels: Option<u32>,
    pub sframe_dist: Option<i32>,
    pub superres_mode: Option<u8>,
    pub superres_denom: Option<u8>,
    pub superres_kf_denom: Option<u8>,
    pub superres_qthres: Option<u8>,
    pub superres_kf_qthres: Option<u8>,
    pub lossless: Option<bool>,
    pub enable_variance_boost: Option<bool>,
    pub variance_boost_strength: Option<u8>,
    pub variance_octile: Option<u8>,
    pub variance_boost_curve: Option<u8>,
    pub vbr_min_section_pct: Option<u32>,
    pub vbr_max_section_pct: Option<u32>,
    pub under_shoot_pct: Option<u32>,
    pub over_shoot_pct: Option<u32>,
    pub mbr_over_shoot_pct: Option<u32>,
    pub recode_loop: Option<u32>,
    pub resize_mode: Option<u8>,
    pub resize_denom: Option<u8>,
    pub resize_kf_denom: Option<u8>,
    pub avif: Option<bool>,
    pub enable_qm: Option<bool>,
    pub min_qm_level: Option<u8>,
    pub max_qm_level: Option<u8>,
    pub min_chroma_qm_level: Option<u8>,
    pub max_chroma_qm_level: Option<u8>,
    pub enable_dlf_flag: Option<u8>,
    pub cdef_level: Option<i32>,
    pub enable_restoration_filtering: Option<i32>,
    pub enable_tf: Option<u8>,
    pub tf_strength: Option<u8>,
    pub enable_overlays: Option<bool>,
    pub enable_mfmv: Option<i32>,
    pub enable_dg: Option<bool>,
    pub gop_constraint_rc: Option<bool>,
    pub multiply_keyint: Option<bool>,
    pub superres_auto_search_type: Option<u8>,
    pub startup_mg_size: Option<u8>,
    pub startup_qp_offset: Option<i8>,
    pub luminance_qp_bias: Option<u8>,
    pub qp_scale_compress_strength: Option<u8>,
    pub extended_crf_qindex_offset: Option<u8>,
    pub sframe_qp: Option<u8>,
    pub sframe_qp_offset: Option<i8>,
    pub max_tx_size: Option<u8>,
    pub level_of_parallelism: Option<u32>,
}

/// SVT-AV1's rate control mode numbers.
pub open spec fn rc_mode_code(m: RcMode) -> u8 {
    match m {
        RcMode::CqpOrCrf => SVT_AV1_RC_MODE_CQP_OR_CRF,
        RcMode::Vbr => SVT_AV1_RC_MODE_VBR,
        RcMode::Cbr => SVT_AV1_RC_MODE_CBR,
    }
}

/// The prediction structure each rate control mode runs with: CBR only supports low
/// delay, CQP/CRF and VBR use random access.
pub open spec fn pred_structure_for(m: RcMode) -> u8 {
    match m {
        RcMode::Cbr => PRED_STRUCTURE_LOW_DELAY,
        _ => PRED_STRUCTURE_RANDOM_ACCESS,
    }
}

/// SVT-AV1's intra refresh type numbers.
pub open spec fn intra_refresh_code(t: IntraRefreshType) -> u32 {
    match t {
        IntraRefreshType::FwdkfRefresh => SVT_AV1_FWDKF_REFRESH,
        IntraRefreshType::KfRefresh => SVT_AV1_KF_REFRESH,
    }
}

/// Bit depth of a colour format.
pub open spec fn bit_depth(f: ColorFormat) -> u32 {
    match f {
        ColorFormat::I420 => 8,
        ColorFormat::I42010 => 10,
    }
}

/// H.273 colour primaries code points.
pub open spec fn color_primaries_code(cp: ColorPrimaries) -> u32 {
    match cp {
        ColorPrimaries::Bt709 => EB_CICP_CP_BT_709,
        ColorPrimaries::Unspecified => EB_CICP_CP_UNSPECIFIED,
        ColorPrimaries::Bt470M => EB_CICP_CP_BT_470_M,
        ColorPrimaries::Bt470Bg => EB_CICP_CP_BT_470_B_G,
        ColorPrimaries::Bt601 => EB_CICP_CP_BT_601,
        ColorPrimaries::Smpte240 => EB_CICP_CP_SMPTE_240,
        ColorPrimaries::GenericFilm => EB_CICP_CP_GENERIC_FILM,
        ColorPrimaries::Bt2020 => EB_CICP_CP_BT_2020,
        ColorPrimaries::Xyz => EB_CICP_CP_XYZ,
        ColorPrimaries::Smpte431 => EB_CICP_CP_SMPTE_431,
        ColorPrimaries::Smpte432 => EB_CICP_CP_SMPTE_432,
        ColorPrimaries::Ebu3213 => EB_CICP_CP_EBU_3213,
    }
}

/// H.273 transfer characteristics code points.
pub open spec fn transfer_characteristics_code(tc: TransferCharacteristics) -> u32 {
    match tc {
        TransferCharacteristics::Bt709 => EB_CICP_TC_BT_709,
        TransferCharacteristics::Unspecified => EB_CICP_TC_UNSPECIFIED,
        TransferCharacteristics::Bt470M => EB_CICP_TC_BT_470_M,
        TransferCharacteristics::Bt470Bg => EB_CICP_TC_BT_470_B_G,
        TransferCharacteristics::Bt601 => EB_CICP_TC_BT_601,
        TransferCharacteristics::Smpte240 => EB_CICP_TC_SMPTE_240,
        TransferCharacteristics::Linear => EB_CICP_TC_LINEAR,
        TransferCharacteristics::Iec61966 => EB_CICP_TC_IEC_61966,
        TransferCharacteristics::Bt1361 => EB_CICP_TC_BT_1361,
        TransferCharacteristics::Srgb => EB_CICP_TC_SRGB,
        TransferCharacteristics::Bt202010Bit => EB_CICP_TC_BT_2020_10_BIT,
        TransferCharacteristics::Bt202012Bit => EB_CICP_TC_BT_2020_12_BIT,
        TransferCharacteristics::Pq => EB_CICP_TC_SMPTE_2084,
        TransferCharacteristics::Smpte428 => EB_CICP_TC_SMPTE_428,
        TransferCharacteristics::Hlg => EB_CICP_TC_HLG,
    }
}

/// H.273 matrix coefficients code points.
pub open spec fn matrix_coefficients_code(mc: MatrixCoefficients) -> u32 {
    match mc {
        MatrixCoefficients::Identity => EB_CICP_MC_IDENTITY,
        MatrixCoefficients::Bt709 => EB_CICP_MC_BT_709,
        MatrixCoefficients::Unspecified => EB_CICP_MC_UNSPECIFIED,
        MatrixCoefficients::Fcc => EB_CICP_MC_FCC,
        MatrixCoefficients::Bt470Bg => EB_CICP_MC_BT_470_B_G,
        MatrixCoefficients::Bt601 => EB_CICP_MC_BT_601,
        MatrixCoefficients::Smpte240 => EB_CICP_MC_SMPTE_240,
        MatrixCoefficients::Ycgco => EB_CICP_MC_SMPTE_YCGCO,
        MatrixCoefficients::Bt2020Ncl => EB_CICP_MC_BT_2020_NCL,
        MatrixCoefficients::Bt2020Cl => EB_CICP_MC_BT_2020_CL,
        MatrixCoefficients::Smpte2085 => EB_CICP_MC_SMPTE_2085,
        MatrixCoefficients::ChromatNcl => EB_CICP_MC_CHROMAT_NCL,
        MatrixCoefficients::ChromatCl => EB_CICP_MC_CHROMAT_CL,
        MatrixCoefficients::Ictcp => EB_CICP_MC_ICTCP,
    }
}

/// SVT-AV1's colour range numbers.
pub open spec fn color_range_code(cr: ColorRange) -> u32 {
    match cr {
        ColorRange::Studio => EB_CR_STUDIO_RANGE,
        ColorRange::Full => EB_CR_FULL_RANGE,
    }
}

/// SVT-AV1's chroma sample position numbers.
pub open spec fn chroma_sample_position_code(csp: ChromaSamplePosition) -> u32 {
    match csp {
        ChromaSamplePosition::Unknown => EB_CSP_UNKNOWN,
        ChromaSamplePosition::Vertical => EB_CSP_VERTICAL,
        ChromaSamplePosition::Colocated => EB_CSP_COLOCATED,
    }
}

/// SVT-AV1's tune numbers.
pub open spec fn tune_code(t: Tune) -> u8 {
    match t {
        Tune::Vq => 0,
        Tune::Psnr => 1,
        Tune::Ssim => 2,
        Tune::Iq => 3,
        Tune::MsSsim => 4,
    }
}

/// What each setting of `c` becomes in SVT-AV1's encoder configuration. Integer
/// conversions wrap as Rust's `as` does; `config_violation(c) is None` rules out
/// wrapping for the values it bounds.
pub open spec fn svt_parameters_of(c: EncoderConfig) -> SvtParameters {
    SvtParameters {
        source_width: c.width as u32,
        source_height: c.height as u32,
        frame_rate_numerator: c.fps_numerator as u32,
        frame_rate_denominator: c.fps_denominator as u32,
        target_bit_rate: if c.rate_control_mode == RcMode::CqpOrCrf {
            None
        } else {
            Some(c.target_bit_rate as u32)
        },
        enc_mode: c.enc_mode as i8,
        qp: match c.qp {
            Some(v) => Some(v as u32),
            None => None,
        },
        min_qp_allowed: match c.min_qp_allowed {
            Some(v) => Some(v as u32),
            None => None,
        },
        max_qp_allowed: match c.max_qp_allowed {
            Some(v) => Some(v as u32),
            None => None,
        },
        rate_control_mode: rc_mode_code(c.rate_control_mode),
        max_bit_rate: match c.max_bit_rate {
            Some(v) => Some(v as u32),
            None => None,
        },
        starting_buffer_level_ms: match c.starting_buffer_level_ms {
            Some(v) => Some(v as i64),
            None => None,
        },
        optimal_buffer_level_ms: match c.optimal_buffer_level_ms {
            Some(v) => Some(v as i64),
            None => None,
        },
        maximum_buffer_size_ms: match c.maximum_buffer_size_ms {
            Some(v) => Some(v as i64),
            None => None,
        },
        intra_period_length: match c.intra_period_length {
            Some(v) => Some(v as i32),
            None => None,
        },
        intra_refresh_type: match c.intra_refresh_type {
            Some(t) => Some(intra_refresh_code(t)),
            None => None,
        },
        pred_structure: pred_structure_for(c.rate_control_mode),
        scene_change_detection: if c.scene_change_detection {
            1
        } else {
            0
        },
        look_ahead_distance: match c.look_ahead_distance {
            Some(v) => Some(v as u32),
            None => None,
        },
        tile_columns: match c.tile_columns {
            Some(v) => Some(v as i32),
            None => None,
        },
        tile_rows: match c.tile_rows {
            Some(v) => Some(v as i32),
            None => None,
        },
        encoder_bit_depth: bit_depth(c.color_format),
        encoder_color_format: EB_YUV420,
        color_primaries: match c.color_primaries {
            Some(v) => Some(color_primaries_code(v)),
            None => None,
        },
        transfer_characteristics: match c.transfer_characteristics {
            Some(v) => Some(transfer_characteristics_code(v)),
            None => None,
        },
        matrix_coefficients: match c.matrix_coefficients {
            Some(v) => Some(matrix_coefficients_code(v)),
            None => None,
        },
        color_range: match c.color_range {
            Some(v) => Some(color_range_code(v)),
            None => None,
        },
        chroma_sample_position: match c.chroma_sample_position {
            Some(v) => Some(chroma_sample_position_code(v)),
            None => None,
        },
        tune: match c.tune {
            Some(v) => Some(tune_code(v)),
            None => None,
        },
        stat_report: if c.stat_report {
            1
        } else {
            0
        },
        screen_content_mode: match c.screen_content_mode {
            Some(v) => Some(v as u32),
            None => None,
        },
        sframe_mode: c.sframe_mode,
        force_key_frames: c.rate_control_mode != RcMode::Vbr,
        mastering_display: c.mastering_display,
        content_light_level: c.content_light_level,
        fast_decode: c.fast_decode,
        film_grain_denoise_strength: c.film_grain_denoise_strength,
        film_grain_denoise_apply: c.film_grain_denoise_apply,
        adaptive_film_grain: c.adaptive_film_grain,
        sharpness: c.sharpness,
        aq_mode: c.aq_mode,
        rtc: c.rtc,
        hierarchical_levels: c.hierarchical_levels,
        sframe_dist: c.sframe_dist,
        superres_mode: c.superres_mode,
        superres_denom: c.superres_denom,
        superres_kf_denom: c.superres_kf_denom,
        superres_qthres: c.superres_qthres,
        superres_kf_qthres: c.superres_kf_qthres,
        lossless: c.lossless,
        enable_variance_boost: c.enable_variance_boost,
        variance_boost_strength: c.variance_boost_strength,
        variance_octile: c.variance_octile,
        variance_boost_curve: c.variance_boost_curve,
        vbr_min_section_pct: c.vbr_min_section_pct,
        vbr_max_section_pct: c.vbr_max_section_pct,
        under_shoot_pct: c.under_shoot_pct,
        over_shoot_pct: c.over_shoot_pct,
        mbr_over_shoot_pct: c.mbr_over_shoot_pct,
        recode_loop: c.recode_loop,
        resize_mode: c.resize_mode,
        resize_denom: c.resize_denom,
        resize_kf_denom: c.resize_kf_denom,
        avif: c.avif,
        enable_qm: c.enable_qm,
        min_qm_level: c.min_qm_level,
        max_qm_level: c.max_qm_level,
        min_chroma_qm_level: c.min_chroma_qm_level,
        max_chroma_qm_level: c.max_chroma_qm_level,
        enable_dlf_flag: c.enable_dlf_flag,
        cdef_level: c.cdef_level,
        enable_restoration_filtering: c.enable_restoration_filtering,
        enable_tf: c.enable_tf,
        tf_strength: c.tf_strength,
        enable_overlays: c.enable_overlays,
        enable_mfmv: c.enable_mfmv,
        enable_dg: c.enable_dg,
        gop_constraint_rc: c.gop_constraint_rc,
        multiply_keyint: c.multiply_keyint,
        superres_auto_search_type: c.superres_auto_search_type,
        startup_mg_size: c.startup_mg_size,
        startup_qp_offset: c.startup_qp_offset,
        luminance_qp_bias: c.luminance_qp_bias,
        qp_scale_compress_strength: c.qp_scale_compress_strength,
        extended_crf_qindex_offset: c.extended_crf_qindex_offset,
        sframe_qp: c.sframe_qp,
        sframe_qp_offset: c.sframe_qp_offset,
        max_tx_size: c.max_tx_size,
        level_of_parallelism: c.level_of_parallelism,
    }
}

fn to_rc_mode_code(m: RcMode) -> (r: u8)
    ensures
        r == rc_mode_code(m),
{
    match m {
        RcMode::CqpOrCrf => SVT_AV1_RC_MODE_CQP_OR_CRF,
        RcMode::Vbr => SVT_AV1_RC_MODE_VBR,
        RcMode::Cbr => SVT_AV1_RC_MODE_CBR,
    }
}

fn to_pred_structure(m: RcMode) -> (r: u8)
    ensures
        r == pred_structure_for(m),
{
    match m {
        RcMode::Cbr => PRED_STRUCTURE_LOW_DELAY,
        _ => PRED_STRUCTURE_RANDOM_ACCESS,
    }
}

fn to_intra_refresh_code(t: IntraRefreshType) -> (r: u32)
    ensures
        r == intra_refresh_code(t),
{
    match t {
        IntraRefreshType::FwdkfRefresh => SVT_AV1_FWDKF_REFRESH,
        IntraRefreshType::KfRefresh => SVT_AV1_KF_REFRESH,
    }
}

fn to_color_primaries_code(cp: ColorPrimaries) -> (r: u32)
    ensures
        r == color_primaries_code(cp),
{
    match cp {
        ColorPrimaries::Bt709 => EB_CICP_CP_BT_709,
        ColorPrimaries::Unspecified => EB_CICP_CP_UNSPECIFIED,
        ColorPrimaries::Bt470M => EB_CICP_CP_BT_470_M,
        ColorPrimaries::Bt470Bg => EB_CICP_CP_BT_470_B_G,
        ColorPrimaries::Bt601 => EB_CICP_CP_BT_601,
        ColorPrimaries::Smpte240 => EB_CICP_CP_SMPTE_240,
        ColorPrimaries::GenericFilm => EB_CICP_CP_GENERIC_FILM,
        ColorPrimaries::Bt2020 => EB_CICP_CP_BT_2020,
        ColorPrimaries::Xyz => EB_CICP_CP_XYZ,
        ColorPrimaries::Smpte431 => EB_CICP_CP_SMPTE_431,
        ColorPrimaries::Smpte432 => EB_CICP_CP_SMPTE_432,
        ColorPrimaries::Ebu3213 => EB_CICP_CP_EBU_3213,
    }
}

fn to_transfer_characteristics_code(tc: TransferCharacteristics) -> (r: u32)
    ensures
        r == transfer_characteristics_code(tc),
{
    match tc {
        TransferCharacteristics::Bt709 => EB_CICP_TC_BT_709,
        TransferCharacteristics::Unspecified => EB_CICP_TC_UNSPECIFIED,
        TransferCharacteristics::Bt470M => EB_CICP_TC_BT_470_M,
        TransferCharacteristics::Bt470Bg => EB_CICP_TC_BT_470_B_G,
        TransferCharacteristics::Bt601 => EB_CICP_TC_BT_601,
        TransferCharacteristics::Smpte240 => EB_CICP_TC_SMPTE_240,
        TransferCharacteristics::Linear => EB_CICP_TC_LINEAR,
        TransferCharacteristics::Iec61966 => EB_CICP_TC_IEC_61966,
        TransferCharacteristics::Bt1361 => EB_CICP_TC_BT_1361,
        TransferCharacteristics::Srgb => EB_CICP_TC_SRGB,
        TransferCharacteristics::Bt202010Bit => EB_CICP_TC_BT_2020_10_BIT,
        TransferCharacteristics::Bt202012Bit => EB_CICP_TC_BT_2020_12_BIT,
        TransferCharacteristics::Pq => EB_CICP_TC_SMPTE_2084,
        TransferCharacteristics::Smpte428 => EB_CICP_TC_SMPTE_428,
        TransferCharacteristics::Hlg => EB_CICP_TC_HLG,
    }
}

fn to_matrix_coefficients_code(mc: MatrixCoefficients) -> (r: u32)
    ensures
        r == matrix_coefficients_code(mc),
{
    match mc {
        MatrixCoefficients::Identity => EB_CICP_MC_IDENTITY,
        MatrixCoefficients::Bt709 => EB_CICP_MC_BT_709,
        MatrixCoefficients::Unspecified => EB_CICP_MC_UNSPECIFIED,
        MatrixCoefficients::Fcc => EB_CICP_MC_FCC,
        MatrixCoefficients::Bt470Bg => EB_CICP_MC_BT_470_B_G,
        MatrixCoefficients::Bt601 => EB_CICP_MC_BT_601,
        MatrixCoefficients::Smpte240 => EB_CICP_MC_SMPTE_240,
        MatrixCoefficients::Ycgco => EB_CICP_MC_SMPTE_YCGCO,
        MatrixCoefficients::Bt2020Ncl => EB_CICP_MC_BT_2020_NCL,
        MatrixCoefficients::Bt2020Cl => EB_CICP_MC_BT_2020_CL,
        MatrixCoefficients::Smpte2085 => EB_CICP_MC_SMPTE_2085,
        MatrixCoefficients::ChromatNcl => EB_CICP_MC_CHROMAT_NCL,
        MatrixCoefficients::ChromatCl => EB_CICP_MC_CHROMAT_CL,
        MatrixCoefficients::Ictcp => EB_CICP_MC_ICTCP,
    }
}

fn to_color_range_code(cr: ColorRange) -> (r: u32)
    ensures
        r == color_range_code(cr),
{
    match cr {
        ColorRange::Studio => EB_CR_STUDIO_RANGE,
        ColorRange::Full => EB_CR_FULL_RANGE,
    }
}

fn to_chroma_sample_position_code(csp: ChromaSamplePosition) -> (r: u32)
    ensures
        r == chroma_sample_position_code(csp),
{
    match csp {
        ChromaSamplePosition::Unknown => EB_CSP_UNKNOWN,
        ChromaSamplePosition::Vertical => EB_CSP_VERTICAL,
        ChromaSamplePosition::Colocated => EB_CSP_COLOCATED,
    }
}

fn to_tune_code(t: Tune) -> (r: u8)
    ensures
        r == tune_code(t),
{
    match t {
        Tune::Vq => 0,
        Tune::Psnr => 1,
        Tune::Ssim => 2,
        Tune::Iq => 3,
        Tune::MsSsim => 4,
    }
}

impl Encoder {
    /// The values that `config` puts into SVT-AV1's encoder configuration; see
    /// `svt_parameters_of`.
    pub fn svt_parameters(config: &EncoderConfig) -> (p: SvtParameters)
        ensures
            p == svt_parameters_of(*config),
    {
        let target_bit_rate = if config.rate_control_mode == RcMode::CqpOrCrf {
            None
        } else {
            Some(config.target_bit_rate as u32)
        };
        let bit_depth: u32 = match config.color_format {
            ColorFormat::I420 => 8,
            ColorFormat::I42010 => 10,
        };
        SvtParameters {
            source_width: config.width as u32,
            source_height: config.height as u32,
            frame_rate_numerator: config.fps_numerator as u32,
            frame_rate_denominator: config.fps_denominator as u32,
            target_bit_rate,
            enc_mode: config.enc_mode as i8,
            qp: match config.qp {
                Some(v) => Some(v as u32),
                None => None,
            },
            min_qp_allowed: match config.min_qp_allowed {
                Some(v) => Some(v as u32),
                None => None,
            },
            max_qp_allowed: match config.max_qp_allowed {
                Some(v) => Some(v as u32),
                None => None,
            },
            rate_control_mode: to_rc_mode_code(config.rate_control_mode),
            max_bit_rate: match config.max_bit_rate {
                Some(v) => Some(v as u32),
                None => None,
            },
            starting_buffer_level_ms: match config.starting_buffer_level_ms {
                Some(v) => Some(v as i64),
                None => None,
            },
            optimal_buffer_level_ms: match config.optimal_buffer_level_ms {
                Some(v) => Some(v as i64),
                None => None,
            },
            maximum_buffer_size_ms: match config.maximum_buffer_size_ms {
                Some(v) => Some(v as i64),
                None => None,
            },
            intra_period_length: match config.intra_period_length {
                Some(v) => Some(v as i32),
                None => None,
            },
            intra_refresh_type: match config.intra_refresh_type {
                Some(t) => Some(to_intra_refresh_code(t)),
                None => None,
            },
            pred_structure: to_pred_structure(config.rate_control_mode),
            scene_change_detection: if config.scene_change_detection {
                1
            } else {
                0
            },
            look_ahead_distance: match config.look_ahead_distance {
                Some(v) => Some(v as u32),
                None => None,
            },
            tile_columns: match config.tile_columns {
                Some(v) => Some(v as i32),
                None => None,
            },
            tile_rows: match config.tile_rows {
                Some(v) => Some(v as i32),
                None => None,
            },
            encoder_bit_depth: bit_depth,
            encoder_color_format: EB_YUV420,
            color_primaries: match config.color_primaries {
                Some(v) => Some(to_color_primaries_code(v)),
                None => None,
            },
            transfer_characteristics: match config.transfer_characteristics {
                Some(v) => Some(to_transfer_characteristics_code(v)),
                None => None,
            },
            matrix_coefficients: match config.matrix_coefficients {
                Some(v) => Some(to_matrix_coefficients_code(v)),
                None => None,
            },
            color_range: match config.color_range {
                Some(v) => Some(to_color_range_code(v)),
                None => None,
            },
            chroma_sample_position: match config.chroma_sample_position {
                Some(v) => Some(to_chroma_sample_position_code(v)),
                None => None,
            },
            tune: match config.tune {
                Some(v) => Some(to_tune_code(v)),
                None => None,
            },
            stat_report: if config.stat_report {
                1
            } else {
                0
            },
            screen_content_mode: match config.screen_content_mode {
                Some(v) => Some(v as u32),
                None => None,
            },
            sframe_mode: config.sframe_mode,
            force_key_frames: config.rate_control_mode != RcMode::Vbr,
            mastering_display: config.mastering_display,
            content_light_level: config.content_light_level,
            fast_decode: config.fast_decode,
            film_grain_denoise_strength: config.film_grain_denoise_strength,
            film_grain_denoise_apply: config.film_grain_denoise_apply,
            adaptive_film_grain: config.adaptive_film_grain,
            sharpness: config.sharpness,
            aq_mode: config.aq_mode,
            rtc: config.rtc,
            hierarchical_levels: config.hierarchical_levels,
            sframe_dist: config.sframe_dist,
            superres_mode: config.superres_mode,
            superres_denom: config.superres_denom,
            superres_kf_denom: config.superres_kf_denom,
            superres_qthres: config.superres_qthres,
            superres_kf_qthres: config.superres_kf_qthres,
            lossless: config.lossless,
            enable_variance_boost: config.enable_variance_boost,
            variance_boost_strength: config.variance_boost_strength,
            variance_octile: config.variance_octile,
            variance_boost_curve: config.variance_boost_curve,
            vbr_min_section_pct: config.vbr_min_section_pct,
            vbr_max_section_pct: config.vbr_max_section_pct,
            under_shoot_pct: config.under_shoot_pct,
            over_shoot_pct: config.over_shoot_pct,
            mbr_over_shoot_pct: config.mbr_over_shoot_pct,
            recode_loop: config.recode_loop,
            resize_mode: config.resize_mode,
            resize_denom: config.resize_denom,
            resize_kf_denom: config.resize_kf_denom,
            avif: config.avif,
            enable_qm: config.enable_qm,
            min_qm_level: config.min_qm_level,
            max_qm_level: config.max_qm_level,
            min_chroma_qm_level: config.min_chroma_qm_level,
            max_chroma_qm_level: config.max_chroma_qm_level,
            enable_dlf_flag: config.enable_dlf_flag,
            cdef_level: config.cdef_level,
            enable_restoration_filtering: config.enable_restoration_filtering,
            enable_tf: config.enable_tf,
            tf_strength: config.tf_strength,
            enable_overlays: config.enable_overlays,
            enable_mfmv: config.enable_mfmv,
            enable_dg: config.enable_dg,
            gop_constraint_rc: config.gop_constraint_rc,
            multiply_keyint: config.multiply_keyint,
            superres_auto_search_type: config.superres_auto_search_type,
            startup_mg_size: config.startup_mg_size,
            startup_qp_offset: config.startup_qp_offset,
            luminance_qp_bias: config.luminance_qp_bias,
            qp_scale_compress_strength: config.qp_scale_compress_strength,
            extended_crf_qindex_offset: config.extended_crf_qindex_offset,
            sframe_qp: config.sframe_qp,
            sframe_qp_offset: config.sframe_qp_offset,
            max_tx_size: config.max_tx_size,
            level_of_parallelism: config.level_of_parallelism,
        }
    }
}

/// In CQP/CRF mode the target bit rate is left unset (SVT-AV1 refuses one there); in
/// VBR and CBR it is always set.
pub proof fn lemma_crf_leaves_bit_rate_unset(c: EncoderConfig)
    ensures
        svt_parameters_of(c).target_bit_rate is None <==> c.rate_control_mode == RcMode::CqpOrCrf,
{
}

/// CBR runs with the low-delay prediction structure, CQP/CRF and VBR with random access.
pub proof fn lemma_prediction_structure(c: EncoderConfig)
    ensures
        svt_parameters_of(c).pred_structure == PRED_STRUCTURE_LOW_DELAY <==> c.rate_control_mode
            == RcMode::Cbr,
        svt_parameters_of(c).pred_structure == PRED_STRUCTURE_RANDOM_ACCESS <==> c.rate_control_mode
            != RcMode::Cbr,
{
}

/// Per-frame key frame forcing is enabled in every mode but VBR, where SVT-AV1 does not
/// support it.
pub proof fn lemma_key_frame_forcing(c: EncoderConfig)
    ensures
        svt_parameters_of(c).force_key_frames <==> c.rate_control_mode != RcMode::Vbr,
{
}

/// Both input formats are 4:2:0 for SVT-AV1; they differ only in bit depth.
pub proof fn lemma_format_is_420(c: EncoderConfig)
    ensures
        svt_parameters_of(c).encoder_color_format == EB_YUV420,
        svt_parameters_of(c).encoder_bit_depth == 8 <==> c.color_format == ColorFormat::I420,
        svt_parameters_of(c).encoder_bit_depth == 10 <==> c.color_format == ColorFormat::I42010,
{
}

/// The values that the checks bound reach SVT-AV1 unchanged when a configuration passes
/// them: dimensions, frame rate, target bit rate, preset and quantizers.
pub proof fn lemma_accepted_values_unchanged(c: EncoderConfig)
    requires
        config_violation(c) is None,
    ensures
        svt_parameters_of(c).source_width == c.width,
        svt_parameters_of(c).source_height == c.height,
        svt_parameters_of(c).frame_rate_numerator == c.fps_numerator,
        svt_parameters_of(c).frame_rate_denominator == c.fps_denominator,
        svt_parameters_of(c).target_bit_rate matches Some(b) ==> b == c.target_bit_rate,
        svt_parameters_of(c).enc_mode == c.enc_mode,
        svt_parameters_of(c).qp matches Some(qp) ==> c.qp == Some(qp as u8),
        svt_parameters_of(c).min_qp_allowed matches Some(v) ==> c.min_qp_allowed == Some(v as u8),
        svt_parameters_of(c).max_qp_allowed matches Some(v) ==> c.max_qp_allowed == Some(v as u8),
{
}

/// A setting that SVT-AV1 takes as it is reaches it unchanged when set, and leaves
/// SVT-AV1's default in place when unset.
pub proof fn lemma_plain_settings_pass_through(c: EncoderConfig)
    ensures
        svt_parameters_of(c).mastering_display == c.mastering_display,
        svt_parameters_of(c).content_light_level == c.content_light_level,
        svt_parameters_of(c).fast_decode == c.fast_decode,
        svt_parameters_of(c).film_grain_denoise_strength == c.film_grain_denoise_strength,
        svt_parameters_of(c).film_grain_denoise_apply == c.film_grain_denoise_apply,
        svt_parameters_of(c).adaptive_film_grain == c.adaptive_film_grain,
        svt_parameters_of(c).sharpness == c.sharpness,
        svt_parameters_of(c).aq_mode == c.aq_mode,
        svt_parameters_of(c).rtc == c.rtc,
        svt_parameters_of(c).hierarchical_levels == c.hierarchical_levels,
        svt_parameters_of(c).sframe_dist == c.sframe_dist,
        svt_parameters_of(c).superres_mode == c.superres_mode,
        svt_parameters_of(c).superres_denom == c.superres_denom,
        svt_parameters_of(c).superres_kf_denom == c.superres_kf_denom,
        svt_parameters_of(c).superres_qthres == c.superres_qthres,
        svt_parameters_of(c).superres_kf_qthres == c.superres_kf_qthres,
        svt_parameters_of(c).lossless == c.lossless,
        svt_parameters_of(c).enable_variance_boost == c.enable_variance_boost,
        svt_parameters_of(c).variance_boost_strength == c.variance_boost_strength,
        svt_parameters_of(c).variance_octile == c.variance_octile,
        svt_parameters_of(c).variance_boost_curve == c.variance_boost_curve,
        svt_parameters_of(c).vbr_min_section_pct == c.vbr_min_section_pct,
        svt_parameters_of(c).vbr_max_section_pct == c.vbr_max_section_pct,
        svt_parameters_of(c).under_shoot_pct == c.under_shoot_pct,
        svt_parameters_of(c).over_shoot_pct == c.over_shoot_pct,
        svt_parameters_of(c).mbr_over_shoot_pct == c.mbr_over_shoot_pct,
        svt_parameters_of(c).recode_loop == c.recode_loop,
        svt_parameters_of(c).resize_mode == c.resize_mode,
        svt_parameters_of(c).resize_denom == c.resize_denom,
        svt_parameters_of(c).resize_kf_denom == c.resize_kf_denom,
        svt_parameters_of(c).avif == c.avif,
        svt_parameters_of(c).enable_qm == c.enable_qm,
        svt_parameters_of(c).min_qm_level == c.min_qm_level,
        svt_parameters_of(c).max_qm_level == c.max_qm_level,
        svt_parameters_of(c).min_chroma_qm_level == c.min_chroma_qm_level,
        svt_parameters_of(c).max_chroma_qm_level == c.max_chroma_qm_level,
        svt_parameters_of(c).enable_dlf_flag == c.enable_dlf_flag,
        svt_parameters_of(c).cdef_level == c.cdef_level,
        svt_parameters_of(c).enable_restoration_filtering == c.enable_restoration_filtering,
        svt_parameters_of(c).enable_tf == c.enable_tf,
        svt_parameters_of(c).tf_strength == c.tf_strength,
        svt_parameters_of(c).enable_overlays == c.enable_overlays,
        svt_parameters_of(c).enable_mfmv == c.enable_mfmv,
        svt_parameters_of(c).enable_dg == c.enable_dg,
        svt_parameters_of(c).gop_constraint_rc == c.gop_constraint_rc,
        svt_parameters_of(c).multiply_keyint == c.multiply_keyint,
        svt_parameters_of(c).superres_auto_search_type == c.superres_auto_search_type,
        svt_parameters_of(c).startup_mg_size == c.startup_mg_size,
        svt_parameters_of(c).startup_qp_offset == c.startup_qp_offset,
        svt_parameters_of(c).luminance_qp_bias == c.luminance_qp_bias,
        svt_parameters_of(c).qp_scale_compress_strength == c.qp_scale_compress_strength,
        svt_parameters_of(c).extended_crf_qindex_offset == c.extended_crf_qindex_offset,
        svt_parameters_of(c).sframe_qp == c.sframe_qp,
        svt_parameters_of(c).sframe_qp_offset == c.sframe_qp_offset,
        svt_parameters_of(c).max_tx_size == c.max_tx_size,
        svt_parameters_of(c).level_of_parallelism == c.level_of_parallelism,
{
}

/// Distinct colour descriptions reach SVT-AV1 as distinct code points.
pub proof fn lemma_color_codes_distinct(
    p1: ColorPrimaries,
    p2: ColorPrimaries,
    t1: TransferCharacteristics,
    t2: TransferCharacteristics,
    m1: MatrixCoefficients,
    m2: MatrixCoefficients,
)
    ensures
        color_primaries_code(p1) == color_primaries_code(p2) ==> p1 == p2,
        transfer_characteristics_code(t1) == transfer_characteristics_code(t2) ==> t1 == t2,
        matrix_coefficients_code(m1) == matrix_coefficients_code(m2) ==> m1 == m2,
{
}

/// The colour primaries reach SVT-AV1 as their H.273 code points (BT.709 1,
/// unspecified 2, BT.470 M 4, BT.470 BG 5, BT.601 6, SMPTE 240 7, generic film 8,
/// BT.2020 9, XYZ 10, SMPTE 431 11, SMPTE 432 12, EBU 3213 22); unset primaries stay unset.
pub proof fn lemma_color_primaries_code_points(c: EncoderConfig)
    ensures
        c.color_primaries is None <==> svt_parameters_of(c).color_primaries is None,
        c.color_primaries == Some(ColorPrimaries::Bt709) ==> svt_parameters_of(c).color_primaries == Some(1u32),
        c.color_primaries == Some(ColorPrimaries::Unspecified) ==> svt_parameters_of(c).color_primaries == Some(2u32),
        c.color_primaries == Some(ColorPrimaries::Bt470M) ==> svt_parameters_of(c).color_primaries == Some(4u32),
        c.color_primaries == Some(ColorPrimaries::Bt470Bg) ==> svt_parameters_of(c).color_primaries == Some(5u32),
        c.color_primaries == Some(ColorPrimaries::Bt601) ==> svt_parameters_of(c).color_primaries == Some(6u32),
        c.color_primaries == Some(ColorPrimaries::Smpte240) ==> svt_parameters_of(c).color_primaries == Some(7u32),
        c.color_primaries == Some(ColorPrimaries::GenericFilm) ==> svt_parameters_of(c).color_primaries == Some(8u32),
        c.color_primaries == Some(ColorPrimaries::Bt2020) ==> svt_parameters_of(c).color_primaries == Some(9u32),
        c.color_primaries == Some(ColorPrimaries::Xyz) ==> svt_parameters_of(c).color_primaries == Some(10u32),
        c.color_primaries == Some(ColorPrimaries::Smpte431) ==> svt_parameters_of(c).color_primaries == Some(11u32),
        c.color_primaries == Some(ColorPrimaries::Smpte432) ==> svt_parameters_of(c).color_primaries == Some(12u32),
        c.color_primaries == Some(ColorPrimaries::Ebu3213) ==> svt_parameters_of(c).color_primaries == Some(22u32),
{
}

/// The transfer characteristics reach SVT-AV1 as their H.273 code points (BT.709 1,
/// unspecified 2, BT.470 M 4, BT.470 BG 5, BT.601 6, SMPTE 240 7, linear 8,
/// IEC 61966 11, BT.1361 12, sRGB 13, BT.2020 10-bit 14, BT.2020 12-bit 15, PQ 16,
/// SMPTE 428 17, HLG 18); unset characteristics stay unset.
pub proof fn lemma_transfer_characteristics_code_points(c: EncoderConfig)
    ensures
        c.transfer_characteristics is None <==> svt_parameters_of(c).transfer_characteristics is None,
        c.transfer_characteristics == Some(TransferCharacteristics::Bt709) ==> svt_parameters_of(c).transfer_characteristics == Some(1u32),
        c.transfer_characteristics == Some(TransferCharacteristics::Unspecified) ==> svt_parameters_of(c).transfer_characteristics == Some(2u32),
        c.transfer_characteristics == Some(TransferCharacteristics::Bt470M) ==> svt_parameters_of(c).transfer_characteristics == Some(4u32),
        c.transfer_characteristics == Some(TransferCharacteristics::Bt470Bg) ==> svt_parameters_of(c).transfer_characteristics == Some(5u32),
        c.transfer_characteristics == Some(TransferCharacteristics::Bt601) ==> svt_parameters_of(c).transfer_characteristics == Some(6u32),
        c.transfer_characteristics == Some(TransferCharacteristics::Smpte240) ==> svt_parameters_of(c).transfer_characteristics == Some(7u32),
        c.transfer_characteristics == Some(TransferCharacteristics::Linear) ==> svt_parameters_of(c).transfer_characteristics == Some(8u32),
        c.transfer_characteristics == Some(TransferCharacteristics::Iec61966) ==> svt_parameters_of(c).transfer_characteristics == Some(11u32),
        c.transfer_characteristics == Some(TransferCharacteristics::Bt1361) ==> svt_parameters_of(c).transfer_characteristics == Some(12u32),
        c.transfer_characteristics == Some(TransferCharacteristics::Srgb) ==> svt_parameters_of(c).transfer_characteristics == Some(13u32),
        c.transfer_characteristics == Some(TransferCharacteristics::Bt202010Bit) ==> svt_parameters_of(c).transfer_characteristics == Some(14u32),
        c.transfer_characteristics == Some(TransferCharacteristics::Bt202012Bit) ==> svt_parameters_of(c).transfer_characteristics == Some(15u32),
        c.transfer_characteristics == Some(TransferCharacteristics::Pq) ==> svt_parameters_of(c).transfer_characteristics == Some(16u32),
        c.transfer_characteristics == Some(TransferCharacteristics::Smpte428) ==> svt_parameters_of(c).transfer_characteristics == Some(17u32),
        c.transfer_characteristics == Some(TransferCharacteristics::Hlg) ==> svt_parameters_of(c).transfer_characteristics == Some(18u32),
{
}

/// The matrix coefficients reach SVT-AV1 as their H.273 code points (identity 0,
/// BT.709 1, unspecified 2, FCC 4, BT.470 BG 5, BT.601 6, SMPTE 240 7, YCgCo 8,
/// BT.2020 NCL 9, BT.2020 CL 10, SMPTE 2085 11, chromaticity NCL 12, chromaticity CL 13,
/// ICtCp 14); unset coefficients stay unset.
pub proof fn lemma_matrix_coefficients_code_points(c: EncoderConfig)
    ensures
        c.matrix_coefficients is None <==> svt_parameters_of(c).matrix_coefficients is None,
        c.matrix_coefficients == Some(MatrixCoefficients::Identity) ==> svt_parameters_of(c).matrix_coefficients == Some(0u32),
        c.matrix_coefficients == Some(MatrixCoefficients::Bt709) ==> svt_parameters_of(c).matrix_coefficients == Some(1u32),
        c.matrix_coefficients == Some(MatrixCoefficients::Unspecified) ==> svt_parameters_of(c).matrix_coefficients == Some(2u32),
        c.matrix_coefficients == Some(MatrixCoefficients::Fcc) ==> svt_parameters_of(c).matrix_coefficients == Some(4u32),
        c.matrix_coefficients == Some(MatrixCoefficients::Bt470Bg) ==> svt_parameters_of(c).matrix_coefficients == Some(5u32),
        c.matrix_coefficients == Some(MatrixCoefficients::Bt601) ==> svt_parameters_of(c).matrix_coefficients == Some(6u32),
        c.matrix_coefficients == Some(MatrixCoefficients::Smpte240) ==> svt_parameters_of(c).matrix_coefficients == Some(7u32),
        c.matrix_coefficients == Some(MatrixCoefficients::Ycgco) ==> svt_parameters_of(c).matrix_coefficients == Some(8u32),
        c.matrix_coefficients == Some(MatrixCoefficients::Bt2020Ncl) ==> svt_parameters_of(c).matrix_coefficients == Some(9u32),
        c.matrix_coefficients == Some(MatrixCoefficients::Bt2020Cl) ==> svt_parameters_of(c).matrix_coefficients == Some(10u32),
        c.matrix_coefficients == Some(MatrixCoefficients::Smpte2085) ==> svt_parameters_of(c).matrix_coefficients == Some(11u32),
        c.matrix_coefficients == Some(MatrixCoefficients::ChromatNcl) ==> svt_parameters_of(c).matrix_coefficients == Some(12u32),
        c.matrix_coefficients == Some(MatrixCoefficients::ChromatCl) ==> svt_parameters_of(c).matrix_coefficients == Some(13u32),
        c.matrix_coefficients == Some(MatrixCoefficients::Ictcp) ==> svt_parameters_of(c).matrix_coefficients == Some(14u32),
{
}

/// Studio (limited) range reaches SVT-AV1 as 0 and full range as 1; an unset range
/// stays unset, so SVT-AV1 keeps its default.
pub proof fn lemma_color_range_code_points(c: EncoderConfig)
    ensures
        c.color_range is None <==> svt_parameters_of(c).color_range is None,
        c.color_range == Some(ColorRange::Studio) ==> svt_parameters_of(c).color_range == Some(0u32),
        c.color_range == Some(ColorRange::Full) ==> svt_parameters_of(c).color_range == Some(1u32),
{
}

/// The chroma sample position reaches SVT-AV1 as unknown 0, vertical 1, colocated 2;
/// an unset position stays unset.
pub proof fn lemma_chroma_sample_position_code_points(c: EncoderConfig)
    ensures
        c.chroma_sample_position is None <==> svt_parameters_of(c).chroma_sample_position is None,
        c.chroma_sample_position == Some(ChromaSamplePosition::Unknown) ==> svt_parameters_of(c).chroma_sample_position == Some(0u32),
        c.chroma_sample_position == Some(ChromaSamplePosition::Vertical) ==> svt_parameters_of(c).chroma_sample_position == Some(1u32),
        c.chroma_sample_position == Some(ChromaSamplePosition::Colocated) ==> svt_parameters_of(c).chroma_sample_position == Some(2u32),
{
}

/// The tuning target reaches SVT-AV1 as VQ 0, PSNR 1, SSIM 2, IQ 3, MS-SSIM 4; an
/// unset one stays unset.
pub proof fn lemma_tune_code_points(c: EncoderConfig)
    ensures
        c.tune is None <==> svt_parameters_of(c).tune is None,
        c.tune == Some(Tune::Vq) ==> svt_parameters_of(c).tune == Some(0u8),
        c.tune == Some(Tune::Psnr) ==> svt_parameters_of(c).tune == Some(1u8),
        c.tune == Some(Tune::Ssim) ==> svt_parameters_of(c).tune == Some(2u8),
        c.tune == Some(Tune::Iq) ==> svt_parameters_of(c).tune == Some(3u8),
        c.tune == Some(Tune::MsSsim) ==> svt_parameters_of(c).tune == Some(4u8),
{
}

/// Forward key frame refresh reaches SVT-AV1 as 1 and key frame refresh as 2; an unset
/// refresh type stays unset.
pub proof fn lemma_intra_refresh_type_code_points(c: EncoderConfig)
    ensures
        c.intra_refresh_type is None <==> svt_parameters_of(c).intra_refresh_type is None,
        c.intra_refresh_type == Some(IntraRefreshType::FwdkfRefresh) ==> svt_parameters_of(c).intra_refresh_type == Some(1u32),
        c.intra_refresh_type == Some(IntraRefreshType::KfRefresh) ==> svt_parameters_of(c).intra_refresh_type == Some(2u32),
{
}

/// The rate control mode reaches SVT-AV1 as CQP/CRF 0, VBR 1, CBR 2.
pub proof fn lemma_rate_control_mode_code_points(c: EncoderConfig)
    ensures
        c.rate_control_mode == RcMode::CqpOrCrf ==> svt_parameters_of(c).rate_control_mode == 0u8,
        c.rate_control_mode == RcMode::Vbr ==> svt_parameters_of(c).rate_control_mode == 1u8,
        c.rate_control_mode == RcMode::Cbr ==> svt_parameters_of(c).rate_control_mode == 2u8,
{
}

/// A default configuration sets no colour description, tuning or intra refresh type:
/// SVT-AV1 keeps its own defaults for all of them.
pub proof fn lemma_default_sets_no_color_description(width: usize, height: usize, f: ColorFormat)
    ensures
        svt_parameters_of(EncoderConfig::default_for(width, height, f)).color_primaries is None,
        svt_parameters_of(EncoderConfig::default_for(width, height, f)).transfer_characteristics is None,
        svt_parameters_of(EncoderConfig::default_for(width, height, f)).matrix_coefficients is None,
        svt_parameters_of(EncoderConfig::default_for(width, height, f)).color_range is None,
        svt_parameters_of(EncoderConfig::default_for(width, height, f)).chroma_sample_position is None,
        svt_parameters_of(EncoderConfig::default_for(width, height, f)).tune is None,
        svt_parameters_of(EncoderConfig::default_for(width, height, f)).intra_refresh_type is None,
        svt_parameters_of(EncoderConfig::default_for(width, height, f)).mastering_display is None,
        svt_parameters_of(EncoderConfig::default_for(width, height, f)).content_light_level is None,
{
    EncoderConfig::lemma_default_values(width, height, f);
}

/// The switches reach SVT-AV1 as 1 for on and 0 for off, and the integer settings that
/// are converted to SVT-AV1's types reach it unchanged whenever they fit there; an unset
/// one stays unset.
pub proof fn lemma_converted_settings_unchanged(c: EncoderConfig)
    ensures
        svt_parameters_of(c).scene_change_detection == (if c.scene_change_detection { 1u32 } else { 0u32 }),
        svt_parameters_of(c).stat_report == (if c.stat_report { 1u32 } else { 0u32 }),
        c.max_bit_rate is None <==> svt_parameters_of(c).max_bit_rate is None,
        c.max_bit_rate matches Some(v) ==> (v <= u32::MAX ==> svt_parameters_of(c).max_bit_rate == Some(
            v as u32,
        ) && v == v as u32),
        c.starting_buffer_level_ms is None <==> svt_parameters_of(c).starting_buffer_level_ms is None,
        c.starting_buffer_level_ms matches Some(v) ==> (v <= i64::MAX ==> svt_parameters_of(c).starting_buffer_level_ms == Some(
            v as i64,
        ) && v == v as i64),
        c.optimal_buffer_level_ms is None <==> svt_parameters_of(c).optimal_buffer_level_ms is None,
        c.optimal_buffer_level_ms matches Some(v) ==> (v <= i64::MAX ==> svt_parameters_of(c).optimal_buffer_level_ms == Some(
            v as i64,
        ) && v == v as i64),
        c.maximum_buffer_size_ms is None <==> svt_parameters_of(c).maximum_buffer_size_ms is None,
        c.maximum_buffer_size_ms matches Some(v) ==> (v <= i64::MAX ==> svt_parameters_of(c).maximum_buffer_size_ms == Some(
            v as i64,
        ) && v == v as i64),
        c.intra_period_length is None <==> svt_parameters_of(c).intra_period_length is None,
        c.intra_period_length matches Some(v) ==> (v <= i32::MAX ==> svt_parameters_of(c).intra_period_length == Some(
            v as i32,
        ) && v == v as i32),
        c.look_ahead_distance is None <==> svt_parameters_of(c).look_ahead_distance is None,
        c.look_ahead_distance matches Some(v) ==> (v <= u32::MAX ==> svt_parameters_of(c).look_ahead_distance == Some(
            v as u32,
        ) && v == v as u32),
        c.tile_columns is None <==> svt_parameters_of(c).tile_columns is None,
        c.tile_columns matches Some(v) ==> (v <= i32::MAX ==> svt_parameters_of(c).tile_columns == Some(
            v as i32,
        ) && v == v as i32),
        c.tile_rows is None <==> svt_parameters_of(c).tile_rows is None,
        c.tile_rows matches Some(v) ==> (v <= i32::MAX ==> svt_parameters_of(c).tile_rows == Some(
            v as i32,
        ) && v == v as i32),
        c.screen_content_mode is None <==> svt_parameters_of(c).screen_content_mode is None,
        c.screen_content_mode matches Some(v) ==> (svt_parameters_of(c).screen_content_mode == Some(v as u32) && v == v as u32),
        c.sframe_mode is None <==> svt_parameters_of(c).sframe_mode is None,
        c.sframe_mode matches Some(v) ==> (svt_parameters_of(c).sframe_mode == Some(v as u32) && v == v as u32),
        c.qp is None <==> svt_parameters_of(c).qp is None,
        c.qp matches Some(v) ==> (svt_parameters_of(c).qp == Some(v as u32) && v == v as u32),
        c.min_qp_allowed is None <==> svt_parameters_of(c).min_qp_allowed is None,
        c.min_qp_allowed matches Some(v) ==> (svt_parameters_of(c).min_qp_allowed == Some(v as u32) && v == v as u32),
        c.max_qp_allowed is None <==> svt_parameters_of(c).max_qp_allowed is None,
        c.max_qp_allowed matches Some(v) ==> (svt_parameters_of(c).max_qp_allowed == Some(v as u32) && v == v as u32),
        c.width <= u32::MAX ==> svt_parameters_of(c).source_width == c.width,
        c.height <= u32::MAX ==> svt_parameters_of(c).source_height == c.height,
        c.fps_numerator <= u32::MAX ==> svt_parameters_of(c).frame_rate_numerator
            == c.fps_numerator,
        c.fps_denominator <= u32::MAX ==> svt_parameters_of(c).frame_rate_denominator
            == c.fps_denominator,
        c.rate_control_mode != RcMode::CqpOrCrf && c.target_bit_rate <= u32::MAX
            ==> svt_parameters_of(c).target_bit_rate == Some(c.target_bit_rate as u32),
        c.enc_mode <= 127 ==> svt_parameters_of(c).enc_mode == c.enc_mode,
{
}

} // verus!
