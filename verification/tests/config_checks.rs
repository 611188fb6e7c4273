use shiguredo_svt_av1::{
    ChromaSamplePosition, ColorFormat, ColorPrimaries, ColorRange, ConfigViolation, Encoder,
    EncoderConfig, IntraRefreshType, MatrixCoefficients, RcMode, TransferCharacteristics, Tune,
    EB_ERROR_BAD_PARAMETER,
};

fn valid() -> EncoderConfig {
    let mut config = EncoderConfig::new(320, 240, ColorFormat::I420);
    config.target_bit_rate = 1_000_000;
    config
}

fn refused_with(config: &EncoderConfig, text: &str) {
    let err = Encoder::validate_config(config).unwrap_err();
    assert_eq!(err.code(), EB_ERROR_BAD_PARAMETER);
    assert_eq!(err.function(), text);
}

#[test]
fn new_gives_documented_defaults() {
    let c = EncoderConfig::new(1920, 1080, ColorFormat::I42010);
    assert_eq!(c.width, 1920);
    assert_eq!(c.height, 1080);
    assert_eq!(c.color_format, ColorFormat::I42010);
    assert_eq!(c.fps_numerator, 30);
    assert_eq!(c.fps_denominator, 1);
    assert_eq!(c.target_bit_rate, 2_000_000);
    assert_eq!(c.rate_control_mode, RcMode::Vbr);
    assert_eq!(c.enc_mode, 8);
    assert!(c.scene_change_detection);
    assert!(!c.stat_report);
    assert_eq!(c.qp, None);
    assert_eq!(c.intra_period_length, None);
    assert_eq!(c.level_of_parallelism, None);
    assert!(Encoder::validate_config(&c).is_ok());
}

#[test]
fn default_config_rejections() {
    refused_with(
        &EncoderConfig::new(0, 240, ColorFormat::I420),
        "EncoderConfig: width/height must be > 0",
    );
    refused_with(
        &EncoderConfig::new(320, 0, ColorFormat::I420),
        "EncoderConfig: width/height must be > 0",
    );
}

#[test]
fn each_violation_is_reported() {
    let mut c = valid();
    c.width = u32::MAX as usize + 1;
    refused_with(&c, "EncoderConfig: width/height must fit in u32");

    let mut c = valid();
    c.fps_numerator = u32::MAX as usize + 1;
    refused_with(&c, "EncoderConfig: fps_numerator/fps_denominator/target_bit_rate must fit in u32");
    let mut c = valid();
    c.target_bit_rate = u32::MAX as usize + 1;
    refused_with(&c, "EncoderConfig: fps_numerator/fps_denominator/target_bit_rate must fit in u32");

    let mut c = valid();
    c.width = 65536;
    c.height = 65536;
    refused_with(&c, "EncoderConfig: total plane size must fit in u32");

    let mut c = valid();
    c.fps_denominator = 0;
    refused_with(&c, "EncoderConfig: fps_denominator must be > 0");

    let mut c = valid();
    c.enc_mode = 14;
    refused_with(&c, "EncoderConfig: enc_mode must be 0-13");

    let mut c = valid();
    c.qp = Some(64);
    refused_with(&c, "EncoderConfig: qp must be 0-63");

    let mut c = valid();
    c.min_qp_allowed = Some(64);
    refused_with(&c, "EncoderConfig: min_qp_allowed must be 0-63");

    let mut c = valid();
    c.max_qp_allowed = Some(64);
    refused_with(&c, "EncoderConfig: max_qp_allowed must be 0-63");

    let mut c = valid();
    c.min_qp_allowed = Some(40);
    c.max_qp_allowed = Some(20);
    refused_with(&c, "EncoderConfig: min_qp_allowed must be <= max_qp_allowed");

    let mut c = valid();
    c.fast_decode = Some(3);
    refused_with(&c, "EncoderConfig: fast_decode must be 0-2");

    let mut c = valid();
    c.sharpness = Some(-8);
    refused_with(&c, "EncoderConfig: sharpness must be -7 to 7");
    let mut c = valid();
    c.sharpness = Some(8);
    refused_with(&c, "EncoderConfig: sharpness must be -7 to 7");

    let mut c = valid();
    c.aq_mode = Some(3);
    refused_with(&c, "EncoderConfig: aq_mode must be 0-2");

    let mut c = valid();
    c.screen_content_mode = Some(4);
    refused_with(&c, "EncoderConfig: screen_content_mode must be 0-3");

    let mut c = valid();
    c.rate_control_mode = RcMode::CqpOrCrf;
    refused_with(&c, "EncoderConfig: target_bit_rate must be 0 for CRF mode");
}

#[test]
fn zero_counts_are_refused() {
    let mut c = valid();
    c.intra_period_length = Some(0);
    refused_with(&c, "EncoderConfig: intra_period_length/tile_columns/tile_rows must be > 0");
    let mut c = valid();
    c.tile_columns = Some(0);
    refused_with(&c, "EncoderConfig: intra_period_length/tile_columns/tile_rows must be > 0");
    let mut c = valid();
    c.tile_rows = Some(0);
    refused_with(&c, "EncoderConfig: intra_period_length/tile_columns/tile_rows must be > 0");
    let mut c = valid();
    c.intra_period_length = Some(1);
    c.tile_columns = Some(1);
    c.tile_rows = Some(1);
    assert!(Encoder::validate_config(&c).is_ok());
}

#[test]
fn plane_size_overflow_is_reported() {
    // Only a 32-bit usize can overflow with dimensions that fit in 32 bits.
    if usize::BITS == 32 {
        let mut c = valid();
        c.width = 70000;
        c.height = 70000;
        refused_with(&c, "EncoderConfig: plane size overflow");
    } else {
        assert_eq!(Encoder::plane_sizes(usize::MAX, 2, ColorFormat::I420), None);
    }
}

#[test]
fn first_violation_wins() {
    let mut c = valid();
    c.enc_mode = 20;
    c.qp = Some(100);
    refused_with(&c, "EncoderConfig: enc_mode must be 0-13");
}

#[test]
fn boundaries_are_accepted() {
    let mut c = valid();
    c.enc_mode = 13;
    c.qp = Some(63);
    c.min_qp_allowed = Some(10);
    c.max_qp_allowed = Some(10);
    c.fast_decode = Some(2);
    c.sharpness = Some(-7);
    c.aq_mode = Some(2);
    c.screen_content_mode = Some(3);
    assert!(Encoder::validate_config(&c).is_ok());
    c.sharpness = Some(7);
    assert!(Encoder::validate_config(&c).is_ok());

    let mut crf = valid();
    crf.rate_control_mode = RcMode::CqpOrCrf;
    crf.target_bit_rate = 0;
    crf.qp = Some(35);
    assert!(Encoder::validate_config(&crf).is_ok());
}

#[test]
fn violation_messages() {
    assert_eq!(
        ConfigViolation::ZeroFpsDenominator.message(),
        "EncoderConfig: fps_denominator must be > 0"
    );
    assert_eq!(ConfigViolation::PlaneSizeOverflow.message(), "EncoderConfig: plane size overflow");
    let err = Encoder::validate_config(&EncoderConfig::new(0, 1, ColorFormat::I420)).unwrap_err();
    assert_eq!(
        err.message(),
        "EncoderConfig: width/height must be > 0() failed: code=-2147479547"
    );
}

#[test]
fn plane_sizes_exact() {
    assert_eq!(Encoder::plane_sizes(320, 240, ColorFormat::I420), Some((76800, 19200, 19200)));
    assert_eq!(Encoder::plane_sizes(320, 240, ColorFormat::I42010), Some((153600, 38400, 38400)));
    // Odd dimensions round the chroma planes up.
    assert_eq!(Encoder::plane_sizes(5, 3, ColorFormat::I420), Some((15, 6, 6)));
    assert_eq!(Encoder::plane_sizes(1, 1, ColorFormat::I42010), Some((2, 2, 2)));
    assert_eq!(Encoder::plane_sizes(0, 7, ColorFormat::I420), Some((0, 0, 0)));
    assert_eq!(Encoder::plane_sizes(usize::MAX, usize::MAX, ColorFormat::I420), None);
}

#[test]
fn even_dimensions_quarter_chroma() {
    for (w, h) in [(2usize, 2usize), (320, 240), (1920, 1080)] {
        let (y, u, v) = Encoder::plane_sizes(w, h, ColorFormat::I420).unwrap();
        assert_eq!(4 * u, y);
        assert_eq!(u, v);
        let (y10, u10, v10) = Encoder::plane_sizes(w, h, ColorFormat::I42010).unwrap();
        assert_eq!(y10 + u10 + v10, 2 * (y + u + v));
    }
}

#[test]
fn svt_parameters_of_defaults() {
    let p = Encoder::svt_parameters(&EncoderConfig::new(320, 240, ColorFormat::I420));
    assert_eq!(p.source_width, 320);
    assert_eq!(p.source_height, 240);
    assert_eq!(p.frame_rate_numerator, 30);
    assert_eq!(p.frame_rate_denominator, 1);
    assert_eq!(p.target_bit_rate, Some(2_000_000));
    assert_eq!(p.enc_mode, 8);
    assert_eq!(p.rate_control_mode, 1);
    assert_eq!(p.pred_structure, 2);
    assert_eq!(p.scene_change_detection, 1);
    assert_eq!(p.encoder_bit_depth, 8);
    assert_eq!(p.encoder_color_format, 1);
    assert_eq!(p.stat_report, 0);
    assert!(!p.force_key_frames);
    assert_eq!(p.qp, None);
    assert_eq!(p.color_primaries, None);
    assert_eq!(p.intra_period_length, None);
}

#[test]
fn svt_parameters_by_rate_control_mode() {
    let mut c = EncoderConfig::new(320, 240, ColorFormat::I42010);
    c.rate_control_mode = RcMode::Cbr;
    let p = Encoder::svt_parameters(&c);
    assert_eq!(p.rate_control_mode, 2);
    assert_eq!(p.pred_structure, 1);
    assert!(p.force_key_frames);
    assert_eq!(p.target_bit_rate, Some(2_000_000));
    assert_eq!(p.encoder_bit_depth, 10);

    c.rate_control_mode = RcMode::CqpOrCrf;
    c.target_bit_rate = 0;
    c.qp = Some(35);
    let p = Encoder::svt_parameters(&c);
    assert_eq!(p.rate_control_mode, 0);
    assert_eq!(p.pred_structure, 2);
    assert!(p.force_key_frames);
    assert_eq!(p.target_bit_rate, None);
    assert_eq!(p.qp, Some(35));
}

#[test]
fn svt_parameters_conversions() {
    let mut c = valid();
    c.color_primaries = Some(ColorPrimaries::Bt2020);
    c.transfer_characteristics = Some(TransferCharacteristics::Pq);
    c.matrix_coefficients = Some(MatrixCoefficients::Bt2020Ncl);
    c.color_range = Some(ColorRange::Full);
    c.chroma_sample_position = Some(ChromaSamplePosition::Colocated);
    c.tune = Some(Tune::Iq);
    c.intra_refresh_type = Some(IntraRefreshType::KfRefresh);
    c.intra_period_length = Some(31);
    c.tile_columns = Some(2);
    c.tile_rows = Some(1);
    c.look_ahead_distance = Some(20);
    c.starting_buffer_level_ms = Some(600);
    c.max_bit_rate = Some(3_000_000);
    c.min_qp_allowed = Some(10);
    c.max_qp_allowed = Some(50);
    c.screen_content_mode = Some(2);
    c.sframe_mode = Some(2);
    c.stat_report = true;
    c.scene_change_detection = false;
    let p = Encoder::svt_parameters(&c);
    assert_eq!(p.color_primaries, Some(9));
    assert_eq!(p.transfer_characteristics, Some(16));
    assert_eq!(p.matrix_coefficients, Some(9));
    assert_eq!(p.color_range, Some(1));
    assert_eq!(p.chroma_sample_position, Some(2));
    assert_eq!(p.tune, Some(3));
    assert_eq!(p.intra_refresh_type, Some(2));
    assert_eq!(p.intra_period_length, Some(31));
    assert_eq!(p.tile_columns, Some(2));
    assert_eq!(p.tile_rows, Some(1));
    assert_eq!(p.look_ahead_distance, Some(20));
    assert_eq!(p.starting_buffer_level_ms, Some(600));
    assert_eq!(p.optimal_buffer_level_ms, None);
    assert_eq!(p.max_bit_rate, Some(3_000_000));
    assert_eq!(p.min_qp_allowed, Some(10));
    assert_eq!(p.max_qp_allowed, Some(50));
    assert_eq!(p.screen_content_mode, Some(2));
    assert_eq!(p.sframe_mode, Some(2));
    assert_eq!(p.stat_report, 1);
    assert_eq!(p.scene_change_detection, 0);
}

#[test]
fn color_code_tables() {
    let primaries = [
        (ColorPrimaries::Bt709, 1),
        (ColorPrimaries::Unspecified, 2),
        (ColorPrimaries::Bt470M, 4),
        (ColorPrimaries::Bt470Bg, 5),
        (ColorPrimaries::Bt601, 6),
        (ColorPrimaries::Smpte240, 7),
        (ColorPrimaries::GenericFilm, 8),
        (ColorPrimaries::Bt2020, 9),
        (ColorPrimaries::Xyz, 10),
        (ColorPrimaries::Smpte431, 11),
        (ColorPrimaries::Smpte432, 12),
        (ColorPrimaries::Ebu3213, 22),
    ];
    for (cp, code) in primaries {
        let mut c = valid();
        c.color_primaries = Some(cp);
        assert_eq!(Encoder::svt_parameters(&c).color_primaries, Some(code));
    }
    let transfers = [
        (TransferCharacteristics::Bt709, 1),
        (TransferCharacteristics::Linear, 8),
        (TransferCharacteristics::Iec61966, 11),
        (TransferCharacteristics::Srgb, 13),
        (TransferCharacteristics::Hlg, 18),
    ];
    for (tc, code) in transfers {
        let mut c = valid();
        c.transfer_characteristics = Some(tc);
        assert_eq!(Encoder::svt_parameters(&c).transfer_characteristics, Some(code));
    }
    let matrices = [
        (MatrixCoefficients::Identity, 0),
        (MatrixCoefficients::Fcc, 4),
        (MatrixCoefficients::Ycgco, 8),
        (MatrixCoefficients::Ictcp, 14),
    ];
    for (mc, code) in matrices {
        let mut c = valid();
        c.matrix_coefficients = Some(mc);
        assert_eq!(Encoder::svt_parameters(&c).matrix_coefficients, Some(code));
    }
}

#[test]
fn wide_values_wrap_like_as() {
    let mut c = valid();
    c.max_bit_rate = Some(u32::MAX as usize + 5);
    c.starting_buffer_level_ms = Some(u64::MAX);
    let p = Encoder::svt_parameters(&c);
    assert_eq!(p.max_bit_rate, Some((u32::MAX as usize + 5) as u32));
    assert_eq!(p.starting_buffer_level_ms, Some(-1));
}
