//! The encoder configuration, the checks made on it, and the parameters it gives SVT-AV1.

use vstd::prelude::*;

use crate::error::{Error, EB_ERROR_BAD_PARAMETER};

verus! {

/// Input picture format.
#[derive(Debug, Clone, Copy, PartialEq, Eq, Structural)]
pub enum ColorFormat {
    /// YUV 4:2:0 planar, 8 bits (three planes: Y, U, V).
    I420,
    /// YUV 4:2:0 planar, 10 bits (three planes: Y, U, V, two bytes per sample).
    I42010,
}

/// Rate control mode.
#[derive(Debug, Clone, Copy, PartialEq, Eq, Structural)]
pub enum RcMode {
    /// CQP/CRF: quality based.
    CqpOrCrf,
    /// Variable bit rate.
    Vbr,
    /// Constant bit rate.
    Cbr,
}

/// Colour primaries (H.273).
#[derive(Debug, Clone, Copy, PartialEq, Eq, Structural)]
pub enum ColorPrimaries {
    /// BT.709 / sRGB
    Bt709,
    /// Unspecified
    Unspecified,
    /// BT.470M
    Bt470M,
    /// BT.470BG
    Bt470Bg,
    /// BT.601
    Bt601,
    /// SMPTE 240M
    Smpte240,
    /// Generic film
    GenericFilm,
    /// BT.2020 / BT.2100
    Bt2020,
    /// XYZ
    Xyz,
    /// SMPTE 431 (DCI-P3)
    Smpte431,
    /// SMPTE 432 (Display P3)
    Smpte432,
    /// EBU 3213
    Ebu3213,
}

/// Transfer characteristics (H.273).
#[derive(Debug, Clone, Copy, PartialEq, Eq, Structural)]
pub enum TransferCharacteristics {
    /// BT.709
    Bt709,
    /// Unspecified
    Unspecified,
    /// BT.470M
    Bt470M,
    /// BT.470BG
    Bt470Bg,
    /// BT.601
    Bt601,
    /// SMPTE 240M
    Smpte240,
    /// Linear
    Linear,
    /// IEC 61966
    Iec61966,
    /// BT.1361
    Bt1361,
    /// sRGB
    Srgb,
    /// BT.2020 10-bit
    Bt202010Bit,
    /// BT.2020 12-bit
    Bt202012Bit,
    /// SMPTE 2084 (PQ)
    Pq,
    /// SMPTE 428
    Smpte428,
    /// HLG
    Hlg,
}

/// Matrix coefficients (H.273).
#[derive(Debug, Clone, Copy, PartialEq, Eq, Structural)]
pub enum MatrixCoefficients {
    /// Identity
    Identity,
    /// BT.709
    Bt709,
    /// Unspecified
    Unspecified,
    /// FCC
    Fcc,
    /// BT.470BG
    Bt470Bg,
    /// BT.601
    Bt601,
    /// SMPTE 240M
    Smpte240,
    /// YCgCo
    Ycgco,
    /// BT.2020 non-constant luminance
    Bt2020Ncl,
    /// BT.2020 constant luminance
    Bt2020Cl,
    /// SMPTE 2085
    Smpte2085,
    /// Chromaticity-derived non-constant luminance
    ChromatNcl,
    /// Chromaticity-derived constant luminance
    ChromatCl,
    /// ICtCp
    Ictcp,
}

/// Colour range.
#[derive(Debug, Clone, Copy, PartialEq, Eq, Structural)]
pub enum ColorRange {
    /// Studio range (Y: 16-235, UV: 16-240)
    Studio,
    /// Full range (0-255)
    Full,
}

/// Chroma sample position.
#[derive(Debug, Clone, Copy, PartialEq, Eq, Structural)]
pub enum ChromaSamplePosition {
    /// Unknown
    Unknown,
    /// Vertical (left)
    Vertical,
    /// Colocated (top-left)
    Colocated,
}

/// HDR mastering display information.
#[derive(Debug, Clone, Copy)]
pub struct MasteringDisplayInfo {
    /// Red chromaticity (x, y), 0.16 fixed point.
    pub r: (u16, u16),
    /// Green chromaticity (x, y), 0.16 fixed point.
    pub g: (u16, u16),
    /// Blue chromaticity (x, y), 0.16 fixed point.
    pub b: (u16, u16),
    /// White point chromaticity (x, y), 0.16 fixed point.
    pub white_point: (u16, u16),
    /// Maximum luminance (cd/m^2), 24.8 fixed point.
    pub max_luminance: u32,
    /// Minimum luminance (cd/m^2), 18.14 fixed point.
    pub min_luminance: u32,
}

/// HDR content light level.
#[derive(Debug, Clone, Copy)]
pub struct ContentLightLevel {
    /// Maximum content light level (cd/m^2).
    pub max_cll: u16,
    /// Maximum frame-average light level (cd/m^2).
    pub max_fall: u16,
}

/// Metric that quality tuning aims at.
#[derive(Debug, Clone, Copy, PartialEq, Eq, Structural)]
pub enum Tune {
    /// VQ (visual quality)
    Vq,
    /// PSNR
    Psnr,
    /// SSIM
    Ssim,
    /// IQ (image quality)
    Iq,
    /// MS-SSIM
    MsSsim,
}

/// Intra refresh type.
#[derive(Debug, Clone, Copy, PartialEq, Eq, Structural)]
pub enum IntraRefreshType {
    /// Forward key frame refresh (open GOP)
    FwdkfRefresh,
    /// Key frame refresh (closed GOP)
    KfRefresh,
}

/// Encoder settings.
///
/// `intra_period_length`, `tile_columns` and `tile_rows` are counts: when given they must
/// not be zero, and the checks refuse a zero. The high-frequency error bias (`ac_bias`, a float) is not part
/// of this type and is handed to SVT-AV1 by the caller.
#[derive(Debug, Clone)]
pub struct EncoderConfig {
    /// Picture width.
    pub width: usize,
    /// Picture height.
    pub height: usize,
    /// Input picture format.
    pub color_format: ColorFormat,
    /// Frame rate numerator.
    pub fps_numerator: usize,
    /// Frame rate denominator.
    pub fps_denominator: usize,
    /// Target bit rate (bps).
    pub target_bit_rate: usize,
    /// Rate control mode.
    pub rate_control_mode: RcMode,
    /// Encoder preset (0-13, 0 = best quality and slowest, 13 = fastest).
    pub enc_mode: u8,
    /// Smallest quantizer (0-63).
    pub min_qp_allowed: Option<u8>,
    /// Largest quantizer (0-63).
    pub max_qp_allowed: Option<u8>,
    /// Quantizer (0-63, used in CRF mode).
    pub qp: Option<u8>,
    /// Key frame interval (frames, never zero).
    pub intra_period_length: Option<usize>,
    /// Tile columns (never zero).
    pub tile_columns: Option<usize>,
    /// Tile rows (never zero).
    pub tile_rows: Option<usize>,
    /// Look-ahead distance (frames).
    pub look_ahead_distance: Option<usize>,
    /// Scene change detection.
    pub scene_change_detection: bool,
    /// Colour primaries.
    pub color_primaries: Option<ColorPrimaries>,
    /// Transfer characteristics.
    pub transfer_characteristics: Option<TransferCharacteristics>,
    /// Matrix coefficients.
    pub matrix_coefficients: Option<MatrixCoefficients>,
    /// Colour range.
    pub color_range: Option<ColorRange>,
    /// Chroma sample position.
    pub chroma_sample_position: Option<ChromaSamplePosition>,
    /// HDR mastering display information.
    pub mastering_display: Option<MasteringDisplayInfo>,
    /// HDR content light level.
    pub content_light_level: Option<ContentLightLevel>,
    /// CBR starting buffer level (ms).
    pub starting_buffer_level_ms: Option<u64>,
    /// CBR optimal buffer level (ms).
    pub optimal_buffer_level_ms: Option<u64>,
    /// CBR maximum buffer size (ms).
    pub maximum_buffer_size_ms: Option<u64>,
    /// Quality tuning metric.
    pub tune: Option<Tune>,
    /// Per-frame quality metrics.
    pub stat_report: bool,
    /// Decoder speed optimisation (0-2).
    pub fast_decode: Option<u8>,
    /// Film grain denoise strength (0 = off, 1-50).
    pub film_grain_denoise_strength: Option<u32>,
    /// Film grain denoise application (0 = none, 1 = full).
    pub film_grain_denoise_apply: Option<u8>,
    /// Adaptive film grain block size.
    pub adaptive_film_grain: Option<bool>,
    /// Sharpness (-7 to 7).
    pub sharpness: Option<i8>,
    /// Adaptive quantization mode (0 = CQP, 1 = variance, 2 = CRF).
    pub aq_mode: Option<u8>,
    /// Maximum bit rate (bps, capped CRF).
    pub max_bit_rate: Option<usize>,
    /// Screen content mode (0-3).
    pub screen_content_mode: Option<u8>,
    /// Intra refresh type.
    pub intra_refresh_type: Option<IntraRefreshType>,
    /// Real-time coding mode.
    pub rtc: Option<bool>,
    /// Hierarchical levels (0-5; temporal layers = levels + 1).
    pub hierarchical_levels: Option<u32>,
    /// S-frame distance (frames).
    pub sframe_dist: Option<i32>,
    /// S-frame insertion mode.
    pub sframe_mode: Option<u32>,
    /// Super-resolution mode.
    pub superres_mode: Option<u8>,
    /// Super-resolution denominator (8-16).
    pub superres_denom: Option<u8>,
    /// Super-resolution denominator for key frames (8-16).
    pub superres_kf_denom: Option<u8>,
    /// Super-resolution QThreshold.
    pub superres_qthres: Option<u8>,
    /// Super-resolution QThreshold for key frames.
    pub superres_kf_qthres: Option<u8>,
    /// Lossless encoding.
    pub lossless: Option<bool>,
    /// Variance boost.
    pub enable_variance_boost: Option<bool>,
    /// Variance boost strength.
    pub variance_boost_strength: Option<u8>,
    /// Variance octile.
    pub variance_octile: Option<u8>,
    /// Variance boost curve.
    pub variance_boost_curve: Option<u8>,
    /// VBR minimum section rate (% of target).
    pub vbr_min_section_pct: Option<u32>,
    /// VBR maximum section rate (% of target).
    pub vbr_max_section_pct: Option<u32>,
    /// Allowed undershoot (% of target).
    pub under_shoot_pct: Option<u32>,
    /// Allowed overshoot (% of target).
    pub over_shoot_pct: Option<u32>,
    /// Allowed overshoot of the maximum bit rate (%).
    pub mbr_over_shoot_pct: Option<u32>,
    /// Recode loop.
    pub recode_loop: Option<u32>,
    /// Resize mode.
    pub resize_mode: Option<u8>,
    /// Resize denominator (8-16).
    pub resize_denom: Option<u8>,
    /// Resize denominator for key frames (8-16).
    pub resize_kf_denom: Option<u8>,
    /// AVIF still picture mode.
    pub avif: Option<bool>,
    /// Quantization matrices.
    pub enable_qm: Option<bool>,
    /// Smallest QM level (0-15).
    pub min_qm_level: Option<u8>,
    /// Largest QM level (0-15).
    pub max_qm_level: Option<u8>,
    /// Smallest chroma QM level (0-15).
    pub min_chroma_qm_level: Option<u8>,
    /// Largest chroma QM level (0-15).
    pub max_chroma_qm_level: Option<u8>,
    /// Deblocking loop filter.
    pub enable_dlf_flag: Option<u8>,
    /// CDEF level.
    pub cdef_level: Option<i32>,
    /// Restoration filtering.
    pub enable_restoration_filtering: Option<i32>,
    /// Temporal filter.
    pub enable_tf: Option<u8>,
    /// Temporal filter strength.
    pub tf_strength: Option<u8>,
    /// Overlay frames.
    pub enable_overlays: Option<bool>,
    /// Motion field motion vectors.
    pub enable_mfmv: Option<i32>,
    /// Data-driven GOP.
    pub enable_dg: Option<bool>,
    /// GOP-level rate control constraint.
    pub gop_constraint_rc: Option<bool>,
    /// Read the key frame interval in seconds.
    pub multiply_keyint: Option<bool>,
    /// Super-resolution auto search type.
    pub superres_auto_search_type: Option<u8>,
    /// Start-up mini-GOP size.
    pub startup_mg_size: Option<u8>,
    /// Start-up GOP QP offset.
    pub startup_qp_offset: Option<i8>,
    /// Luminance QP bias.
    pub luminance_qp_bias: Option<u8>,
    /// QP scale compression strength.
    pub qp_scale_compress_strength: Option<u8>,
    /// Extended CRF qindex offset.
    pub extended_crf_qindex_offset: Option<u8>,
    /// S-frame QP.
    pub sframe_qp: Option<u8>,
    /// S-frame QP offset.
    pub sframe_qp_offset: Option<i8>,
    /// Maximum transform size.
    pub max_tx_size: Option<u8>,
    /// Level of parallelism.
    pub level_of_parallelism: Option<u32>,
}

impl EncoderConfig {
    /// The settings that `new` gives: the required values as passed, 30/1 fps,
    /// 2 Mbps VBR, preset 8, scene change detection on, everything else unset.
    pub open spec fn default_for(width: usize, height: usize, color_format: ColorFormat) -> EncoderConfig {
        EncoderConfig {
            width,
            height,
            color_format,
            fps_numerator: 30,
            fps_denominator: 1,
            target_bit_rate: 2_000_000,
            rate_control_mode: RcMode::Vbr,
            enc_mode: 8,
            min_qp_allowed: None,
            max_qp_allowed: None,
            qp: None,
            intra_period_length: None,
            tile_columns: None,
            tile_rows: None,
            look_ahead_distance: None,
            scene_change_detection: true,
            color_primaries: None,
            transfer_characteristics: None,
            matrix_coefficients: None,
            color_range: None,
            chroma_sample_position: None,
            mastering_display: None,
            content_light_level: None,
            starting_buffer_level_ms: None,
            optimal_buffer_level_ms: None,
            maximum_buffer_size_ms: None,
            tune: None,
            stat_report: false,
            fast_decode: None,
            film_grain_denoise_strength: None,
            film_grain_denoise_apply: None,
            adaptive_film_grain: None,
            sharpness: None,
            aq_mode: None,
            max_bit_rate: None,
            screen_content_mode: None,
            intra_refresh_type: None,
            rtc: None,
            hierarchical_levels: None,
            sframe_dist: None,
            sframe_mode: None,
            superres_mode: None,
            superres_denom: None,
            superres_kf_denom: None,
            superres_qthres: None,
            superres_kf_qthres: None,
            lossless: None,
            enable_variance_boost: None,
            variance_boost_strength: None,
            variance_octile: None,
            variance_boost_curve: None,
            vbr_min_section_pct: None,
            vbr_max_section_pct: None,
            under_shoot_pct: None,
            over_shoot_pct: None,
            mbr_over_shoot_pct: None,
            recode_loop: None,
            resize_mode: None,
            resize_denom: None,
            resize_kf_denom: None,
            avif: None,
            enable_qm: None,
            min_qm_level: None,
            max_qm_level: None,
            min_chroma_qm_level: None,
            max_chroma_qm_level: None,
            enable_dlf_flag: None,
            cdef_level: None,
            enable_restoration_filtering: None,
            enable_tf: None,
            tf_strength: None,
            enable_overlays: None,
            enable_mfmv: None,
            enable_dg: None,
            gop_constraint_rc: None,
            multiply_keyint: None,
            superres_auto_search_type: None,
            startup_mg_size: None,
            startup_qp_offset: None,
            luminance_qp_bias: None,
            qp_scale_compress_strength: None,
            extended_crf_qindex_offset: None,
            sframe_qp: None,
            sframe_qp_offset: None,
            max_tx_size: None,
            level_of_parallelism: None,
        }
    }

    /// A new configuration holds the dimensions and format it was given, 30/1 fps,
    /// 2 Mbps, VBR, preset 8, scene change detection on, no statistics report, and leaves
    /// every optional setting unset, so that SVT-AV1 keeps its own default for each.
    pub proof fn lemma_default_values(width: usize, height: usize, color_format: ColorFormat)
        ensures
            Self::default_for(width, height, color_format).width == width,
            Self::default_for(width, height, color_format).height == height,
            Self::default_for(width, height, color_format).color_format == color_format,
            Self::default_for(width, height, color_format).fps_numerator == 30usize,
            Self::default_for(width, height, color_format).fps_denominator == 1usize,
            Self::default_for(width, height, color_format).target_bit_rate == 2_000_000usize,
            Self::default_for(width, height, color_format).rate_control_mode == RcMode::Vbr,
            Self::default_for(width, height, color_format).enc_mode == 8u8,
            Self::default_for(width, height, color_format).scene_change_detection,
            !Self::default_for(width, height, color_format).stat_report,
            Self::default_for(width, height, color_format).min_qp_allowed is None,
            Self::default_for(width, height, color_format).max_qp_allowed is None,
            Self::default_for(width, height, color_format).qp is None,
            Self::default_for(width, height, color_format).intra_period_length is None,
            Self::default_for(width, height, color_format).tile_columns is None,
            Self::default_for(width, height, color_format).tile_rows is None,
            Self::default_for(width, height, color_format).look_ahead_distance is None,
            Self::default_for(width, height, color_format).color_primaries is None,
            Self::default_for(width, height, color_format).transfer_characteristics is None,
            Self::default_for(width, height, color_format).matrix_coefficients is None,
            Self::default_for(width, height, color_format).color_range is None,
            Self::default_for(width, height, color_format).chroma_sample_position is None,
            Self::default_for(width, height, color_format).mastering_display is None,
            Self::default_for(width, height, color_format).content_light_level is None,
            Self::default_for(width, height, color_format).starting_buffer_level_ms is None,
            Self::default_for(width, height, color_format).optimal_buffer_level_ms is None,
            Self::default_for(width, height, color_format).maximum_buffer_size_ms is None,
            Self::default_for(width, height, color_format).tune is None,
            Self::default_for(width, height, color_format).fast_decode is None,
            Self::default_for(width, height, color_format).film_grain_denoise_strength is None,
            Self::default_for(width, height, color_format).film_grain_denoise_apply is None,
            Self::default_for(width, height, color_format).adaptive_film_grain is None,
            Self::default_for(width, height, color_format).sharpness is None,
            Self::default_for(width, height, color_format).aq_mode is None,
            Self::default_for(width, height, color_format).max_bit_rate is None,
            Self::default_for(width, height, color_format).screen_content_mode is None,
            Self::default_for(width, height, color_format).intra_refresh_type is None,
            Self::default_for(width, height, color_format).rtc is None,
            Self::default_for(width, height, color_format).hierarchical_levels is None,
            Self::default_for(width, height, color_format).sframe_dist is None,
            Self::default_for(width, height, color_format).sframe_mode is None,
            Self::default_for(width, height, color_format).superres_mode is None,
            Self::default_for(width, height, color_format).superres_denom is None,
            Self::default_for(width, height, color_format).superres_kf_denom is None,
            Self::default_for(width, height, color_format).superres_qthres is None,
            Self::default_for(width, height, color_format).superres_kf_qthres is None,
            Self::default_for(width, height, color_format).lossless is None,
            Self::default_for(width, height, color_format).enable_variance_boost is None,
            Self::default_for(width, height, color_format).variance_boost_strength is None,
            Self::default_for(width, height, color_format).variance_octile is None,
            Self::default_for(width, height, color_format).variance_boost_curve is None,
            Self::default_for(width, height, color_format).vbr_min_section_pct is None,
            Self::default_for(width, height, color_format).vbr_max_section_pct is None,
            Self::default_for(width, height, color_format).under_shoot_pct is None,
            Self::default_for(width, height, color_format).over_shoot_pct is None,
            Self::default_for(width, height, color_format).mbr_over_shoot_pct is None,
            Self::default_for(width, height, color_format).recode_loop is None,
            Self::default_for(width, height, color_format).resize_mode is None,
            Self::default_for(width, height, color_format).resize_denom is None,
            Self::default_for(width, height, color_format).resize_kf_denom is None,
            Self::default_for(width, height, color_format).avif is None,
            Self::default_for(width, height, color_format).enable_qm is None,
            Self::default_for(width, height, color_format).min_qm_level is None,
            Self::default_for(width, height, color_format).max_qm_level is None,
            Self::default_for(width, height, color_format).min_chroma_qm_level is None,
            Self::default_for(width, height, color_format).max_chroma_qm_level is None,
            Self::default_for(width, height, color_format).enable_dlf_flag is None,
            Self::default_for(width, height, color_format).cdef_level is None,
            Self::default_for(width, height, color_format).enable_restoration_filtering is None,
            Self::default_for(width, height, color_format).enable_tf is None,
            Self::default_for(width, height, color_format).tf_strength is None,
            Self::default_for(width, height, color_format).enable_overlays is None,
            Self::default_for(width, height, color_format).enable_mfmv is None,
            Self::default_for(width, height, color_format).enable_dg is None,
            Self::default_for(width, height, color_format).gop_constraint_rc is None,
            Self::default_for(width, height, color_format).multiply_keyint is None,
            Self::default_for(width, height, color_format).superres_auto_search_type is None,
            Self::default_for(width, height, color_format).startup_mg_size is None,
            Self::default_for(width, height, color_format).startup_qp_offset is None,
            Self::default_for(width, height, color_format).luminance_qp_bias is None,
            Self::default_for(width, height, color_format).qp_scale_compress_strength is None,
            Self::default_for(width, height, color_format).extended_crf_qindex_offset is None,
            Self::default_for(width, height, color_format).sframe_qp is None,
            Self::default_for(width, height, color_format).sframe_qp_offset is None,
            Self::default_for(width, height, color_format).max_tx_size is None,
            Self::default_for(width, height, color_format).level_of_parallelism is None,
    {
    }

    /// Builds the settings from the required values; see `default_for`.
    pub fn new(width: usize, height: usize, color_format: ColorFormat) -> (r: Self)
        ensures
            r == Self::default_for(width, height, color_format),
    {
        EncoderConfig {
            width,
            height,
            color_format,
            fps_numerator: 30,
            fps_denominator: 1,
            target_bit_rate: 2_000_000,
            rate_control_mode: RcMode::Vbr,
            enc_mode: 8,
            min_qp_allowed: None,
            max_qp_allowed: None,
            qp: None,
            intra_period_length: None,
            tile_columns: None,
            tile_rows: None,
            look_ahead_distance: None,
            scene_change_detection: true,
            color_primaries: None,
            transfer_characteristics: None,
            matrix_coefficients: None,
            color_range: None,
            chroma_sample_position: None,
            mastering_display: None,
            content_light_level: None,
            starting_buffer_level_ms: None,
            optimal_buffer_level_ms: None,
            maximum_buffer_size_ms: None,
            tune: None,
            stat_report: false,
            fast_decode: None,
            film_grain_denoise_strength: None,
            film_grain_denoise_apply: None,
            adaptive_film_grain: None,
            sharpness: None,
            aq_mode: None,
            max_bit_rate: None,
            screen_content_mode: None,
            intra_refresh_type: None,
            rtc: None,
            hierarchical_levels: None,
            sframe_dist: None,
            sframe_mode: None,
            superres_mode: None,
            superres_denom: None,
            superres_kf_denom: None,
            superres_qthres: None,
            superres_kf_qthres: None,
            lossless: None,
            enable_variance_boost: None,
            variance_boost_strength: None,
            variance_octile: None,
            variance_boost_curve: None,
            vbr_min_section_pct: None,
            vbr_max_section_pct: None,
            under_shoot_pct: None,
            over_shoot_pct: None,
            mbr_over_shoot_pct: None,
            recode_loop: None,
            resize_mode: None,
            resize_denom: None,
            resize_kf_denom: None,
            avif: None,
            enable_qm: None,
            min_qm_level: None,
            max_qm_level: None,
            min_chroma_qm_level: None,
            max_chroma_qm_level: None,
            enable_dlf_flag: None,
            cdef_level: None,
            enable_restoration_filtering: None,
            enable_tf: None,
            tf_strength: None,
            enable_overlays: None,
            enable_mfmv: None,
            enable_dg: None,
            gop_constraint_rc: None,
            multiply_keyint: None,
            superres_auto_search_type: None,
            startup_mg_size: None,
            startup_qp_offset: None,
            luminance_qp_bias: None,
            qp_scale_compress_strength: None,
            extended_crf_qindex_offset: None,
            sframe_qp: None,
            sframe_qp_offset: None,
            max_tx_size: None,
            level_of_parallelism: None,
        }
    }
}

} // verus!
