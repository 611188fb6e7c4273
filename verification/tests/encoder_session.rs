use shiguredo_svt_av1::{
    ColorFormat, EncodeOptions, Encoder, EncoderConfig, FrameData, Packet, PictureType, RcMode,
    EB_AV1_INTRA_ONLY_PICTURE, EB_AV1_INVALID_PICTURE, EB_AV1_KEY_PICTURE,
    EB_BUFFERFLAG_EOS, EB_ERROR_BAD_PARAMETER, EB_ERROR_NONE, EB_NO_ERROR_EMPTY_QUEUE,
};

fn encoder_config() -> EncoderConfig {
    let mut config = EncoderConfig::new(320, 320, ColorFormat::I420);
    config.target_bit_rate = 1_000_000;
    config.fps_numerator = 1;
    config.fps_denominator = 1;
    config
}

fn cbr_config() -> EncoderConfig {
    let mut config = encoder_config();
    config.rate_control_mode = RcMode::Cbr;
    config
}

fn packet(flags: u32, pic_type: u32, pts: i64) -> Packet {
    Packet {
        data: vec![0x12, 0x00, 0x0a],
        flags,
        pic_type,
        pts,
        dts: pts,
        temporal_layer_index: 0,
        qp: 30,
        avg_qp: 31,
        luma_sse: 1,
        cb_sse: 2,
        cr_sse: 3,
    }
}

#[test]
fn init_encoder() {
    // OK
    let config = encoder_config();
    assert!(Encoder::new(config, Vec::new()).is_ok());

    // NG
    let mut config = encoder_config();
    config.fps_denominator = 0;
    assert!(Encoder::validate_config(&config).is_err());
    assert!(Encoder::new(config, Vec::new()).is_err());
}

#[test]
fn color_format_mismatch() {
    // An I420 session refuses I42010 data.
    let config = encoder_config();
    let mut encoder = Encoder::new(config, Vec::new()).expect("failed to create");

    let y = vec![0u8; 320 * 320 * 2];
    let u = vec![0u8; 160 * 160 * 2];
    let v = vec![0u8; 160 * 160 * 2];
    let frame = FrameData::I42010 { y: &y, u: &u, v: &v };
    assert!(encoder.encode(&frame, &EncodeOptions::default()).is_err());
}

#[test]
fn color_format_mismatch_message() {
    let mut encoder = Encoder::new(encoder_config(), Vec::new()).unwrap();
    let y = vec![0u8; 320 * 320 * 2];
    let u = vec![0u8; 160 * 160 * 2];
    let v = vec![0u8; 160 * 160 * 2];
    let err = encoder
        .encode(&FrameData::I42010 { y: &y, u: &u, v: &v }, &EncodeOptions::default())
        .unwrap_err();
    assert_eq!(err.code(), EB_ERROR_BAD_PARAMETER);
    assert_eq!(err.function(), "shiguredo_svt_av1::Encoder::encode (color format mismatch)");
    assert_eq!(encoder.frame_count(), 0);
}

#[test]
fn new_session_state() {
    let encoder = Encoder::new(encoder_config(), vec![1, 2, 3]).unwrap();
    assert_eq!(encoder.extra_data(), &[1, 2, 3]);
    assert_eq!(encoder.input_yuv().len(), 320 * 320 + 2 * 160 * 160);
    assert!(encoder.input_yuv().iter().all(|&b| b == 0));
    assert_eq!(encoder.frame_count(), 0);
    assert_eq!(encoder.received_count(), 0);
}

#[test]
fn new_10bit_odd_dimensions_buffer_size() {
    let mut config = EncoderConfig::new(5, 3, ColorFormat::I42010);
    config.fps_numerator = 1;
    let encoder = Encoder::new(config, Vec::new()).unwrap();
    // Y: 5*3*2 = 30, U = V: 3*2*2 = 12
    assert_eq!(encoder.input_yuv().len(), 30 + 12 + 12);
}

#[test]
fn encode_copies_planes_and_stamps_frames() {
    let mut encoder = Encoder::new(encoder_config(), Vec::new()).unwrap();
    let y = vec![1u8; 320 * 320];
    let u = vec![2u8; 160 * 160];
    let v = vec![3u8; 160 * 160];
    let frame = FrameData::I420 { y: &y, u: &u, v: &v };

    let sub = encoder.encode(&frame, &EncodeOptions::default()).unwrap();
    assert_eq!(sub.pts, 0);
    assert_eq!(sub.pic_type, EB_AV1_INVALID_PICTURE);
    assert_eq!(sub.flags, 0);
    assert_eq!(sub.y_stride, 320);
    assert_eq!(sub.cb_stride, 160);
    assert_eq!(sub.cr_stride, 160);
    let input = encoder.input_yuv();
    assert!(input[..320 * 320].iter().all(|&b| b == 1));
    assert!(input[320 * 320..320 * 320 + 160 * 160].iter().all(|&b| b == 2));
    assert!(input[320 * 320 + 160 * 160..].iter().all(|&b| b == 3));

    encoder.complete_encode(EB_ERROR_NONE).unwrap();
    assert_eq!(encoder.frame_count(), 1);

    let sub = encoder
        .encode(&frame, &EncodeOptions { force_keyframe: true })
        .unwrap();
    assert_eq!(sub.pts, 1);
    assert_eq!(sub.pic_type, EB_AV1_KEY_PICTURE);
}

#[test]
fn encode_10bit_strides_in_samples() {
    let mut config = EncoderConfig::new(321, 240, ColorFormat::I42010);
    config.fps_numerator = 1;
    let mut encoder = Encoder::new(config, Vec::new()).unwrap();
    let y = vec![0u8; 321 * 240 * 2];
    let u = vec![0u8; 161 * 120 * 2];
    let v = vec![0u8; 161 * 120 * 2];
    let sub = encoder
        .encode(&FrameData::I42010 { y: &y, u: &u, v: &v }, &EncodeOptions::default())
        .unwrap();
    assert_eq!(sub.y_stride, 321);
    assert_eq!(sub.cb_stride, 161);
    assert_eq!(sub.cr_stride, 161);
}

#[test]
fn encode_refuses_wrong_total_size() {
    let mut encoder = Encoder::new(encoder_config(), Vec::new()).unwrap();
    let y = vec![0u8; 320 * 320];
    let u = vec![0u8; 160 * 160];
    let v = vec![0u8; 160 * 160 - 1];
    let err = encoder
        .encode(&FrameData::I420 { y: &y, u: &u, v: &v }, &EncodeOptions::default())
        .unwrap_err();
    assert_eq!(err.code(), EB_ERROR_BAD_PARAMETER);
    assert_eq!(err.function(), "shiguredo_svt_av1::Encoder::encode (V plane size mismatch)");
    assert!(encoder.input_yuv().iter().all(|&b| b == 0));
}

fn config_320x240(color_format: ColorFormat) -> EncoderConfig {
    let mut config = EncoderConfig::new(320, 240, color_format);
    config.fps_numerator = 1;
    config
}

#[test]
fn plane_size_mismatch_y() {
    // The three lengths add up to one picture, but the planes are split wrongly.
    let mut encoder = Encoder::new(config_320x240(ColorFormat::I420), Vec::new()).unwrap();
    let y = vec![7u8; 76796];
    let u = vec![8u8; 19202];
    let v = vec![9u8; 19202];
    let err = encoder
        .encode(&FrameData::I420 { y: &y, u: &u, v: &v }, &EncodeOptions::default())
        .unwrap_err();
    assert_eq!(err.code(), EB_ERROR_BAD_PARAMETER);
    assert_eq!(err.function(), "shiguredo_svt_av1::Encoder::encode (Y plane size mismatch)");
    assert!(encoder.input_yuv().iter().all(|&b| b == 0));
}

#[test]
fn plane_size_mismatch_u() {
    let mut encoder = Encoder::new(config_320x240(ColorFormat::I420), Vec::new()).unwrap();
    let y = vec![0u8; 76800];
    let u = vec![0u8; 19199];
    let v = vec![0u8; 19201];
    let err = encoder
        .encode(&FrameData::I420 { y: &y, u: &u, v: &v }, &EncodeOptions::default())
        .unwrap_err();
    assert_eq!(err.function(), "shiguredo_svt_av1::Encoder::encode (U plane size mismatch)");
}

#[test]
fn plane_size_mismatch_10bit() {
    let mut encoder = Encoder::new(config_320x240(ColorFormat::I42010), Vec::new()).unwrap();
    let y = vec![0u8; 153600];
    let u = vec![0u8; 38400];
    let v = vec![0u8; 19200];
    let err = encoder
        .encode(&FrameData::I42010 { y: &y, u: &u, v: &v }, &EncodeOptions::default())
        .unwrap_err();
    assert_eq!(err.function(), "shiguredo_svt_av1::Encoder::encode (V plane size mismatch)");

    // A frame with the right sizes is still taken afterwards.
    let v = vec![0u8; 38400];
    assert!(encoder
        .encode(&FrameData::I42010 { y: &y, u: &u, v: &v }, &EncodeOptions::default())
        .is_ok());
}

#[test]
fn failed_send_does_not_count() {
    let mut encoder = Encoder::new(encoder_config(), Vec::new()).unwrap();
    let y = vec![0u8; 320 * 320];
    let u = vec![0u8; 160 * 160];
    let v = vec![0u8; 160 * 160];
    let frame = FrameData::I420 { y: &y, u: &u, v: &v };
    let sub = encoder.encode(&frame, &EncodeOptions::default()).unwrap();
    assert_eq!(sub.pts, 0);
    let err = encoder.complete_encode(EB_ERROR_BAD_PARAMETER).unwrap_err();
    assert_eq!(err.code(), EB_ERROR_BAD_PARAMETER);
    assert_eq!(err.function(), "svt_av1_enc_send_picture");
    assert_eq!(encoder.frame_count(), 0);

    // The next frame carries the pts that the refused one had.
    let sub = encoder.encode(&frame, &EncodeOptions::default()).unwrap();
    assert_eq!(sub.pts, 0);
    encoder.complete_encode(EB_ERROR_NONE).unwrap();
    assert_eq!(encoder.frame_count(), 1);
}

#[test]
fn finish_is_final() {
    let mut encoder = Encoder::new(encoder_config(), Vec::new()).unwrap();
    let eos = encoder.finish().unwrap();
    assert_eq!(eos.n_filled_len, 0);
    assert_eq!(eos.flags, EB_BUFFERFLAG_EOS);
    assert_eq!(eos.pic_type, EB_AV1_INVALID_PICTURE);
    encoder.complete_finish(EB_ERROR_NONE).unwrap();

    let err = encoder.finish().unwrap_err();
    assert_eq!(err.code(), EB_ERROR_BAD_PARAMETER);
    assert_eq!(err.function(), "shiguredo_svt_av1::Encoder::finish (already finished)");

    let y = vec![0u8; 320 * 320];
    let u = vec![0u8; 160 * 160];
    let v = vec![0u8; 160 * 160];
    let err = encoder
        .encode(&FrameData::I420 { y: &y, u: &u, v: &v }, &EncodeOptions::default())
        .unwrap_err();
    assert_eq!(err.function(), "shiguredo_svt_av1::Encoder::encode (already finished)");
}

#[test]
fn failed_finish_keeps_session_open() {
    let mut encoder = Encoder::new(encoder_config(), Vec::new()).unwrap();
    encoder.finish().unwrap();
    assert!(encoder.complete_finish(EB_ERROR_BAD_PARAMETER).is_err());
    assert!(encoder.finish().is_ok());
    encoder.complete_finish(EB_ERROR_NONE).unwrap();
    assert!(encoder.finish().is_err());
}

#[test]
fn packet_requests_follow_the_session() {
    let mut encoder = Encoder::new(cbr_config(), Vec::new()).unwrap();
    // Nothing sent yet: SVT-AV1 is not asked.
    assert_eq!(encoder.packet_request(), None);

    let y = vec![0u8; 320 * 320];
    let u = vec![0u8; 160 * 160];
    let v = vec![0u8; 160 * 160];
    let frame = FrameData::I420 { y: &y, u: &u, v: &v };
    encoder.encode(&frame, &EncodeOptions::default()).unwrap();
    encoder.complete_encode(EB_ERROR_NONE).unwrap();
    assert_eq!(encoder.packet_request(), Some(false));

    let f = encoder
        .next_frame(EB_ERROR_NONE, Some(packet(0, EB_AV1_KEY_PICTURE, 0)))
        .unwrap();
    assert_eq!(f.pts(), 0);
    assert_eq!(encoder.received_count(), 1);
    assert_eq!(encoder.packet_request(), None);

    encoder.finish().unwrap();
    encoder.complete_finish(EB_ERROR_NONE).unwrap();
    assert_eq!(encoder.packet_request(), Some(true));
}

#[test]
fn packet_requests_outside_cbr_always_ask() {
    for mode in [RcMode::Vbr, RcMode::CqpOrCrf] {
        let mut config = encoder_config();
        config.rate_control_mode = mode;
        if mode == RcMode::CqpOrCrf {
            config.target_bit_rate = 0;
        }
        let mut encoder = Encoder::new(config, Vec::new()).unwrap();
        // Nothing sent yet, and still SVT-AV1 is asked: it answers with an empty queue.
        assert_eq!(encoder.packet_request(), Some(false));
        assert!(encoder.next_frame(EB_NO_ERROR_EMPTY_QUEUE, None).is_none());
        encoder.finish().unwrap();
        encoder.complete_finish(EB_ERROR_NONE).unwrap();
        assert_eq!(encoder.packet_request(), Some(true));
    }
}

#[test]
fn next_frame_without_pending_frames_gives_none() {
    // In CBR nothing was sent, so no packet can become a frame.
    let mut encoder = Encoder::new(cbr_config(), Vec::new()).unwrap();
    assert!(encoder
        .next_frame(EB_ERROR_NONE, Some(packet(0, EB_AV1_KEY_PICTURE, 0)))
        .is_none());
    assert_eq!(encoder.received_count(), 0);
}

#[test]
fn next_frame_outcomes() {
    let mut encoder = Encoder::new(cbr_config(), Vec::new()).unwrap();
    let y = vec![0u8; 320 * 320];
    let u = vec![0u8; 160 * 160];
    let v = vec![0u8; 160 * 160];
    encoder
        .encode(&FrameData::I420 { y: &y, u: &u, v: &v }, &EncodeOptions::default())
        .unwrap();
    encoder.complete_encode(EB_ERROR_NONE).unwrap();
    assert!(encoder
        .next_frame(EB_NO_ERROR_EMPTY_QUEUE, Some(packet(0, 0, 0)))
        .is_none());
    assert!(encoder.next_frame(EB_ERROR_BAD_PARAMETER, None).is_none());
    assert!(encoder.next_frame(EB_ERROR_NONE, None).is_none());
    assert!(encoder
        .next_frame(EB_ERROR_NONE, Some(packet(EB_BUFFERFLAG_EOS, 0, 0)))
        .is_none());
    assert_eq!(encoder.received_count(), 0);

    let f = encoder
        .next_frame(EB_ERROR_NONE, Some(packet(0, EB_AV1_INTRA_ONLY_PICTURE, 5)))
        .unwrap();
    assert_eq!(encoder.received_count(), 1);
    assert_eq!(f.data(), &[0x12, 0x00, 0x0a]);
    assert!(f.is_keyframe());
    assert_eq!(f.pic_type(), PictureType::IntraOnly);
    assert_eq!(f.pts(), 5);
    assert_eq!(f.dts(), 5);
    assert_eq!(f.temporal_layer_index(), 0);
    assert_eq!(f.qp(), 30);
    assert_eq!(f.avg_qp(), 31);
    assert_eq!(f.luma_sse(), 1);
    assert_eq!(f.cb_sse(), 2);
    assert_eq!(f.cr_sse(), 3);

    // Every sent frame came back: no more frames before the end of the stream.
    assert!(encoder
        .next_frame(EB_ERROR_NONE, Some(packet(0, 0, 6)))
        .is_none());
    assert_eq!(encoder.received_count(), 1);
}

#[test]
fn after_finish_packets_keep_coming() {
    let mut encoder = Encoder::new(encoder_config(), Vec::new()).unwrap();
    encoder.finish().unwrap();
    encoder.complete_finish(EB_ERROR_NONE).unwrap();
    assert!(encoder
        .next_frame(EB_ERROR_NONE, Some(packet(0, 0, 0)))
        .is_some());
    assert!(encoder
        .next_frame(EB_ERROR_NONE, Some(packet(EB_BUFFERFLAG_EOS, 0, 0)))
        .is_none());
    assert_eq!(encoder.received_count(), 1);
}

#[test]
fn error_messages() {
    let err = encoder_error_send();
    assert_eq!(err.message(), "svt_av1_enc_send_picture() failed: code=-2147479547");
    let err = shiguredo_svt_av1::Error::check(5, "svt_av1_enc_init").unwrap_err();
    assert_eq!(err.message(), "svt_av1_enc_init() failed: code=5");
    let err = shiguredo_svt_av1::Error::check(i32::MIN, "x").unwrap_err();
    assert_eq!(err.message(), "x() failed: code=-2147483648");
    let err = shiguredo_svt_av1::Error::check(i32::MAX, "y").unwrap_err();
    assert_eq!(err.message(), format!("y() failed: code={}", i32::MAX));
    assert!(shiguredo_svt_av1::Error::check(EB_ERROR_NONE, "z").is_ok());
}

fn encoder_error_send() -> shiguredo_svt_av1::Error {
    let mut encoder = Encoder::new(encoder_config(), Vec::new()).unwrap();
    let y = vec![0u8; 320 * 320];
    let u = vec![0u8; 160 * 160];
    let v = vec![0u8; 160 * 160];
    encoder
        .encode(&FrameData::I420 { y: &y, u: &u, v: &v }, &EncodeOptions::default())
        .unwrap();
    encoder.complete_encode(EB_ERROR_BAD_PARAMETER).unwrap_err()
}

