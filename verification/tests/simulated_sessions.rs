use std::collections::VecDeque;

use shiguredo_svt_av1::{
    ColorFormat, EncodeOptions, EncodedFrame, Encoder, EncoderConfig, EndOfStream, FrameData,
    FrameSubmission, IntraRefreshType, Packet, RcMode, EB_AV1_INVALID_PICTURE,
    EB_AV1_KEY_PICTURE, EB_BUFFERFLAG_EOS, EB_ERROR_NONE, EB_NO_ERROR_EMPTY_QUEUE,
};

const EB_AV1_INTER_PICTURE: u32 = 0;

/// A stand-in for SVT-AV1 that answers the way the session expects it to: in CBR (low
/// delay) each accepted picture gives one packet at once; in the other modes the
/// look-ahead holds every packet back until the end of the stream. Once the queue is
/// empty after the end of the stream it answers with the end-of-stream packet. Asked for
/// a packet in CBR with nothing queued before the end of the stream, SVT-AV1 would
/// block: the stand-in fails the test instead.
struct StandInSvt {
    low_delay: bool,
    held: Vec<Packet>,
    ready: VecDeque<Packet>,
    pictures: usize,
    eos: bool,
}

impl StandInSvt {
    fn new(config: &EncoderConfig) -> Self {
        StandInSvt {
            low_delay: config.rate_control_mode == RcMode::Cbr,
            held: Vec::new(),
            ready: VecDeque::new(),
            pictures: 0,
            eos: false,
        }
    }

    fn send_picture(&mut self, sub: &FrameSubmission, input: &[u8]) -> i32 {
        assert_eq!(sub.flags, 0);
        let key = self.pictures == 0 || sub.pic_type == EB_AV1_KEY_PICTURE;
        self.pictures += 1;
        let p = Packet {
            data: vec![0x12, 0x00, 0x0a, input.len() as u8],
            flags: 0,
            pic_type: if key { EB_AV1_KEY_PICTURE } else { EB_AV1_INTER_PICTURE },
            pts: sub.pts,
            dts: sub.pts,
            temporal_layer_index: 0,
            qp: 35,
            avg_qp: 35,
            luma_sse: 0,
            cb_sse: 0,
            cr_sse: 0,
        };
        if self.low_delay {
            self.ready.push_back(p);
        } else {
            self.held.push(p);
        }
        EB_ERROR_NONE
    }

    fn send_end_of_stream(&mut self, eos: &EndOfStream) -> i32 {
        assert_eq!(eos.n_filled_len, 0);
        assert_eq!(eos.flags, EB_BUFFERFLAG_EOS);
        assert_eq!(eos.pic_type, EB_AV1_INVALID_PICTURE);
        self.eos = true;
        self.ready.extend(self.held.drain(..));
        EB_ERROR_NONE
    }

    fn get_packet(&mut self, pic_send_done: bool) -> (i32, Option<Packet>) {
        assert_eq!(pic_send_done, self.eos);
        if let Some(p) = self.ready.pop_front() {
            return (EB_ERROR_NONE, Some(p));
        }
        if self.eos {
            let p = Packet {
                data: Vec::new(),
                flags: EB_BUFFERFLAG_EOS,
                pic_type: EB_AV1_INVALID_PICTURE,
                pts: -1,
                dts: 0,
                temporal_layer_index: 0,
                qp: 0,
                avg_qp: 0,
                luma_sse: 0,
                cb_sse: 0,
                cr_sse: 0,
            };
            return (EB_ERROR_NONE, Some(p));
        }
        assert!(!self.low_delay, "the packet request would block in low-delay mode");
        (EB_NO_ERROR_EMPTY_QUEUE, None)
    }
}

/// One session: the library's steps with the stand-in's answers in between.
struct Session {
    encoder: Encoder,
    svt: StandInSvt,
}

impl Session {
    fn new(config: EncoderConfig) -> Self {
        let svt = StandInSvt::new(&config);
        let encoder = Encoder::new(config, vec![0x0a, 0x0b]).expect("failed to create");
        Session { encoder, svt }
    }

    fn encode(&mut self, frame: &FrameData, options: &EncodeOptions) {
        let sub = self.encoder.encode(frame, options).expect("failed to encode");
        let code = self.svt.send_picture(&sub, self.encoder.input_yuv());
        self.encoder.complete_encode(code).expect("failed to encode");
    }

    fn finish(&mut self) {
        let eos = self.encoder.finish().expect("failed to finish");
        let code = self.svt.send_end_of_stream(&eos);
        self.encoder.complete_finish(code).expect("failed to finish");
    }

    fn next_frame(&mut self) -> Option<EncodedFrame> {
        let pic_send_done = self.encoder.packet_request()?;
        let (code, packet) = self.svt.get_packet(pic_send_done);
        self.encoder.next_frame(code, packet)
    }
}

fn encoder_config() -> EncoderConfig {
    let mut config = EncoderConfig::new(320, 320, ColorFormat::I420);
    config.target_bit_rate = 1_000_000;
    config.fps_numerator = 1;
    config.fps_denominator = 1;
    config
}

#[test]
fn encode_black() {
    let config = encoder_config();
    let width = config.width;
    let height = config.height;
    let mut session = Session::new(config);
    let mut encoded_count = 0;

    let size = width * height;
    let y = vec![0; size];
    let u = vec![0; size / 4];
    let v = vec![0; size / 4];
    let frame = FrameData::I420 { y: &y, u: &u, v: &v };
    let options = EncodeOptions::default();

    session.encode(&frame, &options);
    while session.next_frame().is_some() {
        encoded_count += 1;
    }

    // A second frame, so that SVT-AV1 does not ask for `--avif 1`.
    session.encode(&frame, &options);
    while session.next_frame().is_some() {
        encoded_count += 1;
    }

    session.finish();
    while session.next_frame().is_some() {
        encoded_count += 1;
    }

    assert_eq!(encoded_count, 2);
}

#[test]
fn encode_10bit() {
    let mut config = EncoderConfig::new(320, 320, ColorFormat::I42010);
    config.target_bit_rate = 1_000_000;
    config.fps_numerator = 1;
    config.fps_denominator = 1;
    let mut session = Session::new(config);

    let size = 320 * 320;
    // 10-bit: two bytes per sample.
    let y = vec![0u8; size * 2];
    let u = vec![0u8; (size / 4) * 2];
    let v = vec![0u8; (size / 4) * 2];
    let frame = FrameData::I42010 { y: &y, u: &u, v: &v };

    session.encode(&frame, &EncodeOptions::default());
    session.encode(&frame, &EncodeOptions::default());
    session.finish();

    let mut count = 0;
    while session.next_frame().is_some() {
        count += 1;
    }
    assert_eq!(count, 2);
}

#[test]
fn encode_cbr() {
    let mut config = encoder_config();
    config.rate_control_mode = RcMode::Cbr;
    let mut session = Session::new(config);

    let y = vec![0u8; 320 * 320];
    let u = vec![0u8; 160 * 160];
    let v = vec![0u8; 160 * 160];
    let frame = FrameData::I420 { y: &y, u: &u, v: &v };

    session.encode(&frame, &EncodeOptions::default());
    session.encode(&frame, &EncodeOptions::default());
    session.finish();

    let mut count = 0;
    while session.next_frame().is_some() {
        count += 1;
    }
    assert_eq!(count, 2);
}

#[test]
fn encode_crf() {
    let mut config = EncoderConfig::new(320, 320, ColorFormat::I420);
    config.enc_mode = 13;
    config.fps_numerator = 1;
    config.fps_denominator = 1;
    config.rate_control_mode = RcMode::CqpOrCrf;
    config.target_bit_rate = 0;
    config.qp = Some(35);
    let mut session = Session::new(config);

    let y = vec![0u8; 320 * 320];
    let u = vec![0u8; 160 * 160];
    let v = vec![0u8; 160 * 160];
    let frame = FrameData::I420 { y: &y, u: &u, v: &v };

    session.encode(&frame, &EncodeOptions::default());
    session.encode(&frame, &EncodeOptions::default());
    session.finish();

    let mut count = 0;
    while session.next_frame().is_some() {
        count += 1;
    }
    assert_eq!(count, 2);
}

#[test]
fn encoded_frame_has_data() {
    let config = encoder_config();
    let mut session = Session::new(config);

    let y = vec![0u8; 320 * 320];
    let u = vec![0u8; 160 * 160];
    let v = vec![0u8; 160 * 160];
    let frame = FrameData::I420 { y: &y, u: &u, v: &v };

    session.encode(&frame, &EncodeOptions::default());
    session.encode(&frame, &EncodeOptions::default());
    session.finish();

    let mut seen = 0;
    while let Some(frame) = session.next_frame() {
        assert!(!frame.data().is_empty());
        seen += 1;
    }
    assert_eq!(seen, 2);
}

#[test]
fn cbr_drain_after_each_frame() {
    // In CBR the packet of each frame is taken right after it is sent; the request that
    // follows is held back instead of blocking.
    let mut config = encoder_config();
    config.rate_control_mode = RcMode::Cbr;
    let mut session = Session::new(config);

    let y = vec![0u8; 320 * 320];
    let u = vec![0u8; 160 * 160];
    let v = vec![0u8; 160 * 160];
    let frame = FrameData::I420 { y: &y, u: &u, v: &v };

    let mut pts = Vec::new();
    for i in 0..3 {
        let options = EncodeOptions { force_keyframe: i == 2 };
        session.encode(&frame, &options);
        while let Some(f) = session.next_frame() {
            pts.push((f.pts(), f.is_keyframe()));
        }
        assert_eq!(session.encoder.packet_request(), None);
    }
    session.finish();
    assert!(session.next_frame().is_none());
    assert_eq!(pts, vec![(0, true), (1, false), (2, true)]);
    assert_eq!(session.encoder.frame_count(), 3);
    assert_eq!(session.encoder.received_count(), 3);
}

#[test]
fn vbr_packets_wait_for_the_end_of_stream() {
    let mut session = Session::new(encoder_config());
    let y = vec![0u8; 320 * 320];
    let u = vec![0u8; 160 * 160];
    let v = vec![0u8; 160 * 160];
    let frame = FrameData::I420 { y: &y, u: &u, v: &v };

    session.encode(&frame, &EncodeOptions::default());
    session.encode(&frame, &EncodeOptions::default());
    // SVT-AV1 is asked and answers with an empty queue.
    assert_eq!(session.encoder.packet_request(), Some(false));
    assert!(session.next_frame().is_none());
    session.finish();
    let first = session.next_frame().unwrap();
    assert_eq!(first.pts(), 0);
    let second = session.next_frame().unwrap();
    assert_eq!(second.pts(), 1);
    assert!(session.next_frame().is_none());
    assert_eq!(session.encoder.extra_data(), &[0x0a, 0x0b]);
}

#[test]
fn cbr_fwdkf_refresh_rejected() {
    let mut config = encoder_config();
    config.rate_control_mode = RcMode::Cbr;
    config.intra_refresh_type = Some(IntraRefreshType::FwdkfRefresh);
    let err = Encoder::validate_config(&config).unwrap_err();
    assert_eq!(
        err.function(),
        "EncoderConfig: intra_refresh_type FwdkfRefresh is not supported in CBR mode"
    );
    assert!(Encoder::new(config, Vec::new()).is_err());

    // Key frame refresh is fine in CBR, and forward key refresh outside it.
    let mut config = encoder_config();
    config.rate_control_mode = RcMode::Cbr;
    config.intra_refresh_type = Some(IntraRefreshType::KfRefresh);
    assert!(Encoder::validate_config(&config).is_ok());
    let mut config = encoder_config();
    config.intra_refresh_type = Some(IntraRefreshType::FwdkfRefresh);
    assert!(Encoder::validate_config(&config).is_ok());
}
