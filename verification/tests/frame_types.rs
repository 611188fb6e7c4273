use shiguredo_svt_av1::{Encoder, ColorFormat, EncoderConfig, Packet, PictureType, EB_ERROR_NONE};

fn frame_of(pic_type: u32) -> shiguredo_svt_av1::EncodedFrame {
    let mut config = EncoderConfig::new(16, 16, ColorFormat::I420);
    config.fps_numerator = 1;
    let mut encoder = Encoder::new(config, Vec::new()).unwrap();
    // After the end of the stream every packet request is answered.
    encoder.finish().unwrap();
    encoder.complete_finish(EB_ERROR_NONE).unwrap();
    let p = Packet {
        data: Vec::new(),
        flags: 0,
        pic_type,
        pts: 0,
        dts: 0,
        temporal_layer_index: 2,
        qp: 0,
        avg_qp: 0,
        luma_sse: 0,
        cb_sse: 0,
        cr_sse: 0,
    };
    encoder.next_frame(EB_ERROR_NONE, Some(p)).unwrap()
}

#[test]
fn picture_types() {
    let expected = [
        (0, PictureType::Inter, false),
        (1, PictureType::AltRef, false),
        (2, PictureType::IntraOnly, true),
        (3, PictureType::Key, true),
        (4, PictureType::NonRef, false),
        (5, PictureType::ForwardKey, true),
        (6, PictureType::ShowExisting, false),
        (7, PictureType::Switch, false),
        (8, PictureType::Unknown, false),
        (255, PictureType::Unknown, false),
    ];
    for (code, ty, key) in expected {
        let f = frame_of(code);
        assert_eq!(f.pic_type(), ty, "code {code}");
        assert_eq!(f.is_keyframe(), key, "code {code}");
    }
}

#[test]
fn keyframe_iff_key_type() {
    for code in 0..300u32 {
        let f = frame_of(code);
        assert_eq!(
            f.is_keyframe(),
            matches!(
                f.pic_type(),
                PictureType::Key | PictureType::IntraOnly | PictureType::ForwardKey
            )
        );
    }
}

#[test]
fn empty_packet_data() {
    let f = frame_of(3);
    assert!(f.data().is_empty());
    assert_eq!(f.temporal_layer_index(), 2);
}
