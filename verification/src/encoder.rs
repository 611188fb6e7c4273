//! One encoding session: what is checked and decided around each call into SVT-AV1.
//!
//! A session runs in steps. `encode` checks a frame, copies it into the input buffer
//! and says what the picture buffer header must hold; the caller sends it to SVT-AV1
//! and reports the status to `complete_encode`. `finish` and `complete_finish` do the
//! same for the end of the stream. `packet_request` says whether SVT-AV1 may be asked
//! for a packet, and `next_frame` turns its answer into an encoded frame.

use vstd::prelude::*;

use crate::config::{ColorFormat, EncoderConfig, RcMode};
use crate::error::{Error, EB_ERROR_BAD_PARAMETER, EB_ERROR_NONE};
use crate::frame::{
    EncodedFrame, Packet, EB_AV1_INVALID_PICTURE, EB_AV1_KEY_PICTURE, EB_BUFFERFLAG_EOS,
};
use crate::validation::{
    chroma_plane_size, config_violation, half_up, luma_plane_size, total_plane_size,
};

verus! {

/// Input picture data.
#[derive(Debug)]
pub enum FrameData<'a> {
    /// I420 (three planes: Y, U, V).
    I420 {
        /// Y plane
        y: &'a [u8],
        /// U plane
        u: &'a [u8],
        /// V plane
        v: &'a [u8],
    },
    /// I42010 (three planes: Y, U, V, two little-endian bytes per sample).
    I42010 {
        /// Y plane
        y: &'a [u8],
        /// U plane
        u: &'a [u8],
        /// V plane
        v: &'a [u8],
    },
}

impl<'a> FrameData<'a> {
    /// The colour format the data is given in.
    pub open spec fn format(self) -> ColorFormat {
        match self {
            FrameData::I420 { .. } => ColorFormat::I420,
            FrameData::I42010 { .. } => ColorFormat::I42010,
        }
    }

    /// The Y plane.
    pub open spec fn y_plane(self) -> Seq<u8> {
        match self {
            FrameData::I420 { y, .. } => y@,
            FrameData::I42010 { y, .. } => y@,
        }
    }

    /// The U plane.
    pub open spec fn u_plane(self) -> Seq<u8> {
        match self {
            FrameData::I420 { u, .. } => u@,
            FrameData::I42010 { u, .. } => u@,
        }
    }

    /// The V plane.
    pub open spec fn v_plane(self) -> Seq<u8> {
        match self {
            FrameData::I420 { v, .. } => v@,
            FrameData::I42010 { v, .. } => v@,
        }
    }
}

/// Per-frame encoding options.
#[derive(Debug, Clone)]
pub struct EncodeOptions {
    /// Force a key frame.
    pub force_keyframe: bool,
}

impl Default for EncodeOptions {
    fn default() -> (r: Self)
        ensures
            !r.force_keyframe,
    {
        EncodeOptions { force_keyframe: false }
    }
}

/// What the picture buffer header must hold when a frame is sent.
#[derive(Debug, Clone, Copy, PartialEq, Eq, Structural)]
pub struct FrameSubmission {
    /// Presentation timestamp: the number of frames sent before this one.
    pub pts: i64,
    /// Picture type: key when a key frame is forced, otherwise left to the encoder.
    pub pic_type: u32,
    /// Buffer flags.
    pub flags: u32,
    /// Y stride, in samples (not bytes, also for 10-bit input).
    pub y_stride: u32,
    /// Cb stride, in samples.
    pub cb_stride: u32,
    /// Cr stride, in samples.
    pub cr_stride: u32,
}

/// What the picture buffer header must hold when the end of the stream is sent.
#[derive(Debug, Clone, Copy, PartialEq, Eq, Structural)]
pub struct EndOfStream {
    /// Filled length: zero, or SVT-AV1 would take the buffer for one more frame.
    pub n_filled_len: u32,
    /// Buffer flags: end of stream.
    pub flags: u32,
    /// Picture type: left to the encoder.
    pub pic_type: u32,
}

/// What the caller was told to send to SVT-AV1 and has not yet reported on.
#[derive(Debug, Clone, Copy, PartialEq, Eq, Structural)]
pub enum PendingSend {
    /// A picture that `encode` checked and copied.
    Frame,
    /// The end of the stream that `finish` allowed.
    EndOfStream,
}

/// AV1 encoder session state.
#[derive(Debug)]
pub struct Encoder {
    input_yuv: Vec<u8>,
    extra_data: Vec<u8>,
    frame_count: u64,
    received_count: u64,
    width: usize,
    color_format: ColorFormat,
    luma_size: usize,
    chroma_size: usize,
    rate_control_mode: RcMode,
    pending: Option<PendingSend>,
    eos: bool,
}

/// The state of a session.
#[verifier::ext_equal]
pub struct EncoderView {
    /// The input buffer that SVT-AV1 reads pictures from.
    pub input: Seq<u8>,
    /// The sequence header SVT-AV1 gave when the session started.
    pub extra_data: Seq<u8>,
    /// Frames SVT-AV1 accepted.
    pub frames_sent: u64,
    /// Encoded frames handed out.
    pub packets_received: u64,
    /// Picture width.
    pub width: usize,
    /// Input colour format.
    pub color_format: ColorFormat,
    /// Bytes of the Y plane of one picture.
    pub luma_size: usize,
    /// Bytes of the U plane, and of the V plane, of one picture.
    pub chroma_size: usize,
    /// Rate control mode.
    pub rate_control_mode: RcMode,
    /// What was handed out to send and not yet reported on.
    pub pending: Option<PendingSend>,
    /// The end of the stream was sent.
    pub finished: bool,
}

impl View for Encoder {
    type V = EncoderView;

    closed spec fn view(&self) -> EncoderView {
        EncoderView {
            input: self.input_yuv@,
            extra_data: self.extra_data@,
            frames_sent: self.frame_count,
            packets_received: self.received_count,
            width: self.width,
            color_format: self.color_format,
            luma_size: self.luma_size,
            chroma_size: self.chroma_size,
            rate_control_mode: self.rate_control_mode,
            pending: self.pending,
            finished: self.eos,
        }
    }
}

impl Encoder {
    /// The input buffer always holds one picture: the Y plane, then the U and V planes.
    #[verifier::type_invariant]
    spec fn buffer_holds_one_picture(self) -> bool {
        self.input_yuv.len() == self.luma_size + 2 * self.chroma_size
    }
}

/// The state of a session that has just started with `config`: a zeroed input buffer of
/// one picture, nothing sent or received, not finished.
pub open spec fn initial_state(config: EncoderConfig, extra_data: Seq<u8>) -> EncoderView {
    EncoderView {
        input: Seq::new(
            total_plane_size(config.width as nat, config.height as nat, config.color_format),
            |i: int| 0u8,
        ),
        extra_data,
        frames_sent: 0,
        packets_received: 0,
        width: config.width,
        color_format: config.color_format,
        luma_size: luma_plane_size(
            config.width as nat,
            config.height as nat,
            config.color_format,
        ) as usize,
        chroma_size: chroma_plane_size(
            config.width as nat,
            config.height as nat,
            config.color_format,
        ) as usize,
        rate_control_mode: config.rate_control_mode,
        pending: None,
        finished: false,
    }
}

/// Why `encode` refuses `frame` in state `s`, as the text of its error; `None` when it
/// takes the frame. A finished session takes nothing; the frame must come in the
/// session's colour format and each of its planes must have exactly its own size (the
/// error names the first plane that does not).
pub open spec fn frame_refusal(s: EncoderView, frame: FrameData) -> Option<Seq<char>> {
    if s.finished {
        Some("shiguredo_svt_av1::Encoder::encode (already finished)"@)
    } else if frame.format() != s.color_format {
        Some("shiguredo_svt_av1::Encoder::encode (color format mismatch)"@)
    } else if frame.y_plane().len() != s.luma_size {
        Some("shiguredo_svt_av1::Encoder::encode (Y plane size mismatch)"@)
    } else if frame.u_plane().len() != s.chroma_size {
        Some("shiguredo_svt_av1::Encoder::encode (U plane size mismatch)"@)
    } else if frame.v_plane().len() != s.chroma_size {
        Some("shiguredo_svt_av1::Encoder::encode (V plane size mismatch)"@)
    } else {
        None
    }
}

/// The header values for the next frame sent in state `s`.
pub open spec fn submission_for(s: EncoderView, force_keyframe: bool) -> FrameSubmission {
    FrameSubmission {
        pts: s.frames_sent as i64,
        pic_type: if force_keyframe {
            EB_AV1_KEY_PICTURE
        } else {
            EB_AV1_INVALID_PICTURE
        },
        flags: 0,
        y_stride: s.width as u32,
        cb_stride: half_up(s.width as nat) as u32,
        cr_stride: half_up(s.width as nat) as u32,
    }
}

/// The header values that mark the end of the stream.
pub open spec fn end_of_stream() -> EndOfStream {
    EndOfStream { n_filled_len: 0, flags: EB_BUFFERFLAG_EOS, pic_type: EB_AV1_INVALID_PICTURE }
}

impl EncoderView {
    /// The input buffer holds exactly one picture: the Y plane, then the U and V planes.
    pub open spec fn holds_one_picture(self) -> bool {
        self.input.len() == self.luma_size + 2 * self.chroma_size
    }

    /// The state with `input` in the input buffer.
    pub open spec fn with_input(self, input: Seq<u8>) -> EncoderView {
        EncoderView { input, ..self }
    }

    /// The state after `encode` took a frame with planes `input`: the frame waits to be
    /// sent.
    pub open spec fn with_frame(self, input: Seq<u8>) -> EncoderView {
        EncoderView { input, pending: Some(PendingSend::Frame), ..self }
    }

    /// The state after `finish` allowed the end of the stream: it waits to be sent.
    pub open spec fn with_end_of_stream(self) -> EncoderView {
        EncoderView { pending: Some(PendingSend::EndOfStream), ..self }
    }

    /// The state after SVT-AV1 refused what was sent: nothing waits any more, and
    /// nothing else changed.
    pub open spec fn after_refused_send(self) -> EncoderView {
        EncoderView { pending: None, ..self }
    }

    /// The state after SVT-AV1 accepted one more frame.
    pub open spec fn after_send(self) -> EncoderView {
        EncoderView { frames_sent: (self.frames_sent + 1) as u64, pending: None, ..self }
    }

    /// The state after SVT-AV1 accepted the end of the stream.
    pub open spec fn after_finish(self) -> EncoderView {
        EncoderView { finished: true, pending: None, ..self }
    }

    /// The state after one more encoded frame was handed out.
    pub open spec fn after_receive(self) -> EncoderView {
        EncoderView { packets_received: (self.packets_received + 1) as u64, ..self }
    }
}

/// Whether SVT-AV1 is asked for a packet in state `s` (`None`: it is not, and there is
/// no frame), and with which "all pictures sent" flag. Only in CBR (low delay), where
/// each sent frame gives exactly one packet and SVT-AV1 would block, is it not asked
/// before the end of the stream once every sent frame came back.
pub open spec fn packet_request_for(s: EncoderView) -> Option<bool> {
    if !s.finished && s.rate_control_mode == RcMode::Cbr && s.packets_received >= s.frames_sent {
        None
    } else {
        Some(s.finished)
    }
}

/// Whether SVT-AV1's answer to a packet request carries an encoded frame: a success
/// status and a packet that is not the end-of-stream marker.
pub open spec fn yields_frame(code: i32, packet: Option<Packet>) -> bool {
    code == EB_ERROR_NONE && match packet {
        Some(p) => !p.is_end_of_stream(),
        None => false,
    }
}

/// Writes `src` into `dst` from `offset` on.
fn copy_into(dst: &mut Vec<u8>, offset: usize, src: &[u8], src_len: usize)
    requires
        src_len == src@.len(),
        offset + src@.len() <= old(dst)@.len(),
    ensures
        final(dst)@ == old(dst)@.subrange(0, offset as int) + src@ + old(dst)@.subrange(
            offset + src@.len(),
            old(dst)@.len() as int,
        ),
    no_unwind
{
    let ghost d0 = dst@;
    let mut i: usize = 0;
    while i < src_len
        invariant
            src_len == src@.len(),
            dst@.len() == d0.len(),
            offset + src@.len() <= dst.len(),
            i <= src@.len(),
            forall|j: int|
                0 <= j < d0.len() ==> #[trigger] dst@[j] == if offset <= j < offset + i {
                    src@[j - offset]
                } else {
                    d0[j]
                },
        decreases src_len - i,
    {
        dst[offset + i] = src[i];
        i += 1;
    }
    assert(dst@ =~= d0.subrange(0, offset as int) + src@ + d0.subrange(
        offset + src@.len(),
        d0.len() as int,
    ));
}

impl Encoder {
    /// Starts the state of a session for `config`, once SVT-AV1 has been set up with it
    /// and has given `extra_data`. Refuses exactly the configurations that
    /// `validate_config` refuses, with the same error.
    pub fn new(config: EncoderConfig, extra_data: Vec<u8>) -> (r: Result<Encoder, Error>)
        ensures
            r is Ok <==> config_violation(config) is None,
            r matches Err(e) ==> {
                &&& e@.code == EB_ERROR_BAD_PARAMETER
                &&& e@.function == config_violation(config).unwrap().text()
            },
            r matches Ok(enc) ==> enc@ == initial_state(config, extra_data@),
    {
        Self::validate_config(&config)?;
        // `validate_config` accepted the configuration, so the plane sizes fit.
        let (y, u, v) = Self::plane_sizes(config.width, config.height, config.color_format).unwrap();
        let total: usize = y + u + v;
        let input_yuv: Vec<u8> = vec![0u8; total];
        assert(v == u);
        let enc = Encoder {
            input_yuv,
            extra_data,
            frame_count: 0,
            received_count: 0,
            width: config.width,
            color_format: config.color_format,
            luma_size: y,
            chroma_size: u,
            rate_control_mode: config.rate_control_mode,
            pending: None,
            eos: false,
        };
        assert(enc@ =~= initial_state(config, extra_data@));
        Ok(enc)
    }

    /// The sequence header for the av01 box of MP4, as SVT-AV1 gave it.
    pub fn extra_data(&self) -> (r: &[u8])
        ensures
            r@ == self@.extra_data,
    {
        self.extra_data.as_slice()
    }

    /// The input buffer that SVT-AV1 reads pictures from: Y, then U, then V.
    pub fn input_yuv(&self) -> (r: &[u8])
        ensures
            r@ == self@.input,
    {
        self.input_yuv.as_slice()
    }

    /// Frames SVT-AV1 accepted so far.
    pub fn frame_count(&self) -> (r: u64)
        ensures
            r == self@.frames_sent,
    {
        self.frame_count
    }

    /// Encoded frames handed out so far.
    pub fn received_count(&self) -> (r: u64)
        ensures
            r == self@.packets_received,
    {
        self.received_count
    }

    /// Checks `frame` and copies its planes (Y, U, V in turn) into the input buffer; on
    /// success, says what the picture header must hold when the caller sends it.
    /// A refused frame leaves the session as it was.
    pub fn encode(&mut self, frame: &FrameData, options: &EncodeOptions) -> (r: Result<
        FrameSubmission,
        Error,
    >)
        ensures
            r is Err <==> frame_refusal(old(self)@, *frame) is Some,
            r matches Err(e) ==> {
                &&& e@.code == EB_ERROR_BAD_PARAMETER
                &&& e@.function == frame_refusal(old(self)@, *frame).unwrap()
                &&& final(self)@ == old(self)@
            },
            r matches Ok(sub) ==> {
                &&& sub == submission_for(old(self)@, options.force_keyframe)
                &&& final(self)@ == old(self)@.with_frame(
                    frame.y_plane() + frame.u_plane() + frame.v_plane(),
                )
            },
            final(self)@.holds_one_picture(),
    {
        proof {
            use_type_invariant(&*self);
        }
        if self.eos {
            return Err(Error::bad_parameter("shiguredo_svt_av1::Encoder::encode (already finished)"));
        }
        let format_matches = match (self.color_format, frame) {
            (ColorFormat::I420, FrameData::I420 { .. }) => true,
            (ColorFormat::I42010, FrameData::I42010 { .. }) => true,
            _ => false,
        };
        if !format_matches {
            return Err(
                Error::bad_parameter("shiguredo_svt_av1::Encoder::encode (color format mismatch)"),
            );
        }
        let (y, u, v) = match frame {
            FrameData::I420 { y, u, v } => (*y, *u, *v),
            FrameData::I42010 { y, u, v } => (*y, *u, *v),
        };
        if y.len() != self.luma_size {
            return Err(
                Error::bad_parameter("shiguredo_svt_av1::Encoder::encode (Y plane size mismatch)"),
            );
        }
        if u.len() != self.chroma_size {
            return Err(
                Error::bad_parameter("shiguredo_svt_av1::Encoder::encode (U plane size mismatch)"),
            );
        }
        if v.len() != self.chroma_size {
            return Err(
                Error::bad_parameter("shiguredo_svt_av1::Encoder::encode (V plane size mismatch)"),
            );
        }
        proof {
            use_type_invariant(&*self);
        }
        copy_into(&mut self.input_yuv, 0, y, y.len());
        copy_into(&mut self.input_yuv, y.len(), u, u.len());
        copy_into(&mut self.input_yuv, y.len() + u.len(), v, v.len());
        assert(self.input_yuv@ =~= y@ + u@ + v@);
        let half_width: usize = self.width / 2 + self.width % 2;
        let sub = FrameSubmission {
            pts: self.frame_count as i64,
            pic_type: if options.force_keyframe {
                EB_AV1_KEY_PICTURE
            } else {
                EB_AV1_INVALID_PICTURE
            },
            flags: 0,
            y_stride: self.width as u32,
            cb_stride: half_width as u32,
            cr_stride: half_width as u32,
        };
        self.pending = Some(PendingSend::Frame);
        assert(self@ =~= old(self)@.with_frame(frame.y_plane() + frame.u_plane() + frame.v_plane()));
        Ok(sub)
    }

    /// Records what SVT-AV1 answered to the frame that `encode` handed out to send: on
    /// success the frame counts as sent, otherwise the session stays as it was. Either
    /// way nothing waits to be sent any more.
    pub fn complete_encode(&mut self, code: i32) -> (r: Result<(), Error>)
        requires
            old(self)@.pending == Some(PendingSend::Frame),
            code == EB_ERROR_NONE ==> old(self)@.frames_sent < u64::MAX,
        ensures
            r is Ok <==> code == EB_ERROR_NONE,
            r matches Err(e) ==> e@.code == code && e@.function == "svt_av1_enc_send_picture"@,
            r is Ok ==> final(self)@ == old(self)@.after_send(),
            r is Err ==> final(self)@ == old(self)@.after_refused_send(),
            final(self)@.holds_one_picture(),
    {
        proof {
            use_type_invariant(&*self);
        }
        self.pending = None;
        Error::check(code, "svt_av1_enc_send_picture")?;
        self.frame_count += 1;
        Ok(())
    }

    /// Decides whether the end of the stream may be sent: never twice. On success, says
    /// what the picture header must hold, and the end of the stream waits to be sent; a
    /// refusal leaves the session as it was.
    pub fn finish(&mut self) -> (r: Result<EndOfStream, Error>)
        ensures
            r is Err <==> old(self)@.finished,
            r matches Err(e) ==> {
                &&& e@.code == EB_ERROR_BAD_PARAMETER
                &&& e@.function == "shiguredo_svt_av1::Encoder::finish (already finished)"@
                &&& final(self)@ == old(self)@
            },
            r matches Ok(eos) ==> {
                &&& eos == end_of_stream()
                &&& final(self)@ == old(self)@.with_end_of_stream()
            },
            final(self)@.holds_one_picture(),
    {
        proof {
            use_type_invariant(&*self);
        }
        if self.eos {
            return Err(Error::bad_parameter("shiguredo_svt_av1::Encoder::finish (already finished)"));
        }
        self.pending = Some(PendingSend::EndOfStream);
        Ok(EndOfStream { n_filled_len: 0, flags: EB_BUFFERFLAG_EOS, pic_type: EB_AV1_INVALID_PICTURE })
    }

    /// Records what SVT-AV1 answered to the end of the stream that `finish` handed out
    /// to send: on success the session is finished, otherwise it stays as it was. Either
    /// way nothing waits to be sent any more.
    pub fn complete_finish(&mut self, code: i32) -> (r: Result<(), Error>)
        requires
            old(self)@.pending == Some(PendingSend::EndOfStream),
        ensures
            r is Ok <==> code == EB_ERROR_NONE,
            r matches Err(e) ==> e@.code == code && e@.function == "svt_av1_enc_send_picture"@,
            r is Ok ==> final(self)@ == old(self)@.after_finish(),
            r is Err ==> final(self)@ == old(self)@.after_refused_send(),
            final(self)@.holds_one_picture(),
    {
        proof {
            use_type_invariant(&*self);
        }
        self.pending = None;
        Error::check(code, "svt_av1_enc_send_picture")?;
        self.eos = true;
        Ok(())
    }

    /// Whether the packet request is held back: in CBR, before the end of the stream,
    /// once every sent frame came back.
    fn holds_back_request(&self) -> (r: bool)
        ensures
            r == packet_request_for(self@) is None,
    {
        let cbr = match self.rate_control_mode {
            RcMode::Cbr => true,
            _ => false,
        };
        !self.eos && cbr && self.received_count >= self.frame_count
    }

    /// Whether to ask SVT-AV1 for a packet, and with which "all pictures sent" flag.
    /// In CBR (low delay), before the end of the stream, once every sent frame came back,
    /// SVT-AV1 is not asked (it would block) and there is no frame.
    pub fn packet_request(&self) -> (r: Option<bool>)
        ensures
            r == packet_request_for(self@),
    {
        if self.holds_back_request() {
            None
        } else {
            Some(self.eos)
        }
    }

    /// Turns SVT-AV1's answer to a packet request (its status and the packet, if it gave
    /// one) into the next encoded frame. When `packet_request` says SVT-AV1 is not to be
    /// asked, there is no frame whatever the answer. An error status, an empty queue, a
    /// missing packet or the end-of-stream packet give no frame either; no frame leaves the
    /// session as it was.
    pub fn next_frame(&mut self, code: i32, packet: Option<Packet>) -> (r: Option<EncodedFrame>)
        requires
            packet_request_for(old(self)@) is Some && yields_frame(code, packet)
                ==> old(self)@.packets_received < u64::MAX,
        ensures
            r is Some <==> (packet_request_for(old(self)@) is Some && yields_frame(code, packet)),
            packet_request_for(old(self)@) is None ==> r is None,
            r matches Some(f) ==> {
                &&& packet matches Some(p) && f.packet() == p
                &&& final(self)@ == old(self)@.after_receive()
            },
            r is None ==> final(self)@ == old(self)@,
            final(self)@.holds_one_picture(),
    {
        proof {
            use_type_invariant(&*self);
        }
        if self.holds_back_request() {
            return None;
        }
        if code != EB_ERROR_NONE {
            return None;
        }
        match packet {
            None => None,
            Some(p) => {
                if p.flags & EB_BUFFERFLAG_EOS != 0 {
                    None
                } else {
                    self.received_count += 1;
                    Some(EncodedFrame::from_packet(p))
                }
            },
        }
    }
}

/// A finished session takes no more frames, whatever they hold.
pub proof fn lemma_finished_session_refuses_frames(s: EncoderView, frame: FrameData)
    requires
        s.finished,
    ensures
        frame_refusal(s, frame) == Some("shiguredo_svt_av1::Encoder::encode (already finished)"@),
{
}

/// Once the end of the stream is sent the session stays finished: no later step
/// (taking a frame, a send that SVT-AV1 accepted or refused, a frame received) reopens it.
pub proof fn lemma_finished_is_final(s: EncoderView, input: Seq<u8>)
    ensures
        s.after_finish().finished,
        s.finished ==> s.with_frame(input).finished,
        s.finished ==> s.after_send().finished,
        s.finished ==> s.after_refused_send().finished,
        s.finished ==> s.after_receive().finished,
{
}

/// A send that SVT-AV1 refused changes nothing but what waits to be sent: the frame
/// counter, and with it the pts that the next frame will carry, stay where they were.
pub proof fn lemma_refused_send_keeps_pts(s: EncoderView, force_keyframe: bool)
    ensures
        s.after_refused_send().frames_sent == s.frames_sent,
        s.after_refused_send().input == s.input,
        s.after_refused_send().finished == s.finished,
        submission_for(s.after_refused_send(), force_keyframe) == submission_for(
            s,
            force_keyframe,
        ),
{
}

/// A session started from an accepted configuration has one picture's worth of input
/// buffer, laid out with the plane sizes that `plane_sizes` gives for it.
pub proof fn lemma_initial_layout(config: EncoderConfig, extra_data: Seq<u8>)
    requires
        config_violation(config) is None,
    ensures
        initial_state(config, extra_data).holds_one_picture(),
        initial_state(config, extra_data).luma_size == luma_plane_size(
            config.width as nat,
            config.height as nat,
            config.color_format,
        ),
        initial_state(config, extra_data).chroma_size == chroma_plane_size(
            config.width as nat,
            config.height as nat,
            config.color_format,
        ),
{
}

/// Until the end of the stream, a frame in the session's colour format whose planes each
/// have their own size is always taken, and taking it keeps one picture in the buffer.
pub proof fn lemma_well_sized_frame_accepted(s: EncoderView, frame: FrameData)
    requires
        s.holds_one_picture(),
        !s.finished,
        frame.format() == s.color_format,
        frame.y_plane().len() == s.luma_size,
        frame.u_plane().len() == s.chroma_size,
        frame.v_plane().len() == s.chroma_size,
    ensures
        frame_refusal(s, frame) is None,
        s.with_input(frame.y_plane() + frame.u_plane() + frame.v_plane()).holds_one_picture(),
{
}

/// A frame is refused unless each plane has its own size, even when the three sizes add
/// up to one picture.
pub proof fn lemma_planes_checked_one_by_one(s: EncoderView, frame: FrameData)
    requires
        frame_refusal(s, frame) is None,
    ensures
        frame.y_plane().len() == s.luma_size,
        frame.u_plane().len() == s.chroma_size,
        frame.v_plane().len() == s.chroma_size,
{
}

/// Each step keeps the colour format, the width, the plane sizes and one picture in the
/// input buffer.
pub proof fn lemma_steps_keep_layout(s: EncoderView, frame: FrameData)
    requires
        s.holds_one_picture(),
    ensures
        s.after_send().holds_one_picture(),
        s.after_refused_send().holds_one_picture(),
        s.with_end_of_stream().holds_one_picture(),
        s.after_finish().holds_one_picture(),
        s.after_receive().holds_one_picture(),
        frame_refusal(s, frame) is None ==> {
            let t = s.with_frame(frame.y_plane() + frame.u_plane() + frame.v_plane());
            &&& t.holds_one_picture()
            &&& t.color_format == s.color_format
            &&& t.width == s.width
            &&& t.luma_size == s.luma_size
            &&& t.chroma_size == s.chroma_size
        },
{
}

/// Frames are stamped 0, 1, 2, ... in the order SVT-AV1 accepts them: the first frame
/// of a session carries pts 0, and each accepted frame moves the next pts on by one.
pub proof fn lemma_pts_count_sent_frames(
    config: EncoderConfig,
    extra_data: Seq<u8>,
    s: EncoderView,
    force_keyframe: bool,
)
    requires
        s.frames_sent < i64::MAX,
    ensures
        submission_for(initial_state(config, extra_data), force_keyframe).pts == 0,
        submission_for(s.after_send(), force_keyframe).pts == submission_for(
            s,
            force_keyframe,
        ).pts + 1,
{
}

/// A forced key frame is sent as a key picture; otherwise SVT-AV1 picks the type.
pub proof fn lemma_forced_key_frame(s: EncoderView, force_keyframe: bool)
    ensures
        submission_for(s, force_keyframe).pic_type == if force_keyframe {
            EB_AV1_KEY_PICTURE
        } else {
            EB_AV1_INVALID_PICTURE
        },
        submission_for(s, force_keyframe).flags == 0,
{
}

/// For a session started from an accepted configuration, strides are counted in
/// samples for both 8-bit and 10-bit input: the Y stride is the width and the chroma
/// strides are half the width rounded up.
pub proof fn lemma_strides_in_samples(
    config: EncoderConfig,
    extra_data: Seq<u8>,
    s: EncoderView,
    force_keyframe: bool,
)
    requires
        config_violation(config) is None,
        s.width == config.width,
    ensures
        submission_for(s, force_keyframe).y_stride == config.width,
        submission_for(s, force_keyframe).cb_stride == half_up(config.width as nat),
        submission_for(s, force_keyframe).cr_stride == half_up(config.width as nat),
{
}

/// When SVT-AV1 is asked for a packet: after the end of the stream it is always asked,
/// told that all pictures are in; outside CBR it is always asked. In CBR, before the end
/// of the stream, it is not asked once every sent frame has come back, and is asked
/// whenever some sent frame has not, however many are outstanding; a newly sent frame
/// makes it worth asking again.
pub proof fn lemma_packet_requests(s: EncoderView)
    ensures
        packet_request_for(s.after_finish()) == Some(true),
        s.finished ==> packet_request_for(s) == Some(true),
        !s.finished && s.packets_received < s.frames_sent ==> packet_request_for(s) == Some(
            false,
        ),
        s.rate_control_mode != RcMode::Cbr ==> packet_request_for(s) == Some(s.finished),
        s.rate_control_mode == RcMode::Cbr && !s.finished && s.packets_received == s.frames_sent
            ==> packet_request_for(s) is None,
        s.rate_control_mode == RcMode::Cbr && !s.finished && s.packets_received
            == s.frames_sent && s.frames_sent < u64::MAX ==> packet_request_for(s.after_send())
            == Some(false),
        s.rate_control_mode == RcMode::Cbr && !s.finished && s.packets_received + 1
            == s.frames_sent ==> packet_request_for(s.after_receive()) is None,
{
}

/// In CBR, before the end of the stream, no more frames come out than were sent: a
/// session starts with none of either, a sent frame adds one to the sent side, a refused
/// send or a frame taken for sending changes neither side, and a frame comes out only
/// while `packet_request_for` allows asking, that is while fewer came out than were sent.
pub proof fn lemma_no_more_frames_than_sent(
    config: EncoderConfig,
    extra_data: Seq<u8>,
    s: EncoderView,
    input: Seq<u8>,
    code: i32,
    packet: Option<Packet>,
)
    requires
        s.rate_control_mode == RcMode::Cbr,
        !s.finished,
        s.packets_received <= s.frames_sent,
    ensures
        initial_state(config, extra_data).packets_received <= initial_state(
            config,
            extra_data,
        ).frames_sent,
        s.frames_sent < u64::MAX ==> s.after_send().packets_received
            <= s.after_send().frames_sent,
        s.after_refused_send().packets_received <= s.after_refused_send().frames_sent,
        s.with_frame(input).packets_received <= s.with_frame(input).frames_sent,
        s.with_end_of_stream().packets_received <= s.with_end_of_stream().frames_sent,
        packet_request_for(s) is Some && yields_frame(code, packet) ==> s.after_receive().packets_received
            <= s.after_receive().frames_sent,
{
}

/// A successful packet that is not the end-of-stream marker always yields a frame; an
/// error status or the end-of-stream marker never does.
pub proof fn lemma_frames_from_packets(code: i32, p: Packet)
    ensures
        yields_frame(code, Some(p)) <==> (code == EB_ERROR_NONE && !p.is_end_of_stream()),
        !yields_frame(code, None),
{
}

} // verus!
