//! Decoders: mode-typed handles over the engine's decoder instances.
//!
//! A decoder owns its engine instance exclusively; the instance is
//! released exactly once, when the owning value is destroyed, and no API
//! path yields a usable handle afterward. Decoding reads one coded
//! frame's framing from a bit buffer, rejecting an output buffer that is
//! too small before touching the stream, recognizing the stream-end
//! sentinel, validating the frame's submode headers, and adopting the
//! submodes the stream carries. The numeric payload synthesis belongs to
//! the engine's signal-processing core, which is outside this layer; a
//! well-formed frame decodes to silence.

use vstd::prelude::*;

use vstd::arithmetic::power2::pow2;

use core::marker::PhantomData;
use crate::bits::{
    bits_of_uint,
    lemma_pack_unpack_roundtrip,
    lemma_uint_of_bits_bound,
    lemma_uint_of_bits_single,
    lemma_uint_of_bits_split,
    terminator_bits,
    uint_of_bits,
    BitsView,
    SpeexBits,
};
use crate::encoder::{frame_header_bits, frame_header_len, header5};
use crate::control::{
    high_submode_legal,
    nb_submode_legal,
    state_wf,
    CoderState,
    ControlError,
    ControlFunctions,
    Sealed,
    SPEEX_GET_ENH,
    SPEEX_GET_HIGH_MODE,
    SPEEX_GET_LOW_MODE,
    SPEEX_SET_ENH,
    SPEEX_SET_HIGH_MODE,
    SPEEX_SET_LOW_MODE,
};
use crate::mode::{CoderMode, ModeId, NbMode, NbSubmodeId, SpeexMode, UwbMode, WbMode, WbSubmodeId};

verus! {

/// Recoverable failures of `decode`, expected in normal operation on
/// damaged or truncated input.
#[derive(Copy, Clone, PartialEq, Eq, Structural, Debug)]
pub enum DecoderError {
    /// The output buffer is shorter than the mode's frame size; the
    /// stream was not touched.
    TooSmallBuffer,
    /// The stream ended: no more frames, a truncated frame, or the
    /// stream-end sentinel.
    EndOfStream,
    /// The next frame's framing is not well-formed for this coder's mode.
    CorruptStream,
}

impl DecoderError {
    /// A short human-readable description of the failure.
    pub fn message(&self) -> (r: &'static str)
        ensures
            *self is TooSmallBuffer ==> r@ == "buffer is too small to decode into"@,
            *self is EndOfStream ==> r@ == "end of stream reached while decoding"@,
            *self is CorruptStream ==> r@ == "corrupt stream was unable to be decoded"@,
    {
        match self {
            DecoderError::TooSmallBuffer => "buffer is too small to decode into",
            DecoderError::EndOfStream => "end of stream reached while decoding",
            DecoderError::CorruptStream => "corrupt stream was unable to be decoded",
        }
    }
}

/// What one decode call decides: how many bits of the stream it
/// consumes, the coder's submodes after the call, and the result.
pub ghost struct DecodeStep {
    pub consumed: int,
    pub low: int,
    pub high: int,
    pub result: Result<(), DecoderError>,
}

/// The decode decision, from the coder's mode, the stream bits, the read
/// position, the current submodes and the output buffer's length.
///
/// An output buffer shorter than the mode's frame size is rejected
/// before the stream is touched. Fewer than five remaining bits is the
/// end of the stream, as is the stream-end sentinel (a low-layer header
/// with submode 15), which is consumed. A well-formed frame carries a
/// low-layer header with a narrowband submode and, for the wide modes, a
/// high-layer header with a submode in the mode's high table; its
/// headers are consumed and the coder adopts the submodes the stream
/// carries. Anything else is a corrupt stream, left unconsumed.
pub open spec fn decode_step(
    mode: ModeId,
    b: Seq<bool>,
    p: int,
    low0: int,
    high0: int,
    out_len: int,
) -> DecodeStep {
    let keep = DecodeStep { consumed: 0, low: low0, high: high0, result: Ok(()) };
    if out_len < mode.frame_size_spec() {
        DecodeStep { result: Err(DecoderError::TooSmallBuffer), ..keep }
    } else if b.len() - p < 5 {
        DecodeStep { result: Err(DecoderError::EndOfStream), ..keep }
    } else {
        let flag = b[p];
        let sub = uint_of_bits(b.subrange(p + 1, p + 5)) as int;
        if !flag && sub == 15 {
            DecodeStep { consumed: 5, result: Err(DecoderError::EndOfStream), ..keep }
        } else if flag || !nb_submode_legal(sub) {
            DecodeStep { result: Err(DecoderError::CorruptStream), ..keep }
        } else if mode is NarrowBand {
            DecodeStep { consumed: 5, low: sub, high: high0, result: Ok(()) }
        } else if b.len() - p < 10 {
            DecodeStep { result: Err(DecoderError::EndOfStream), ..keep }
        } else {
            let hflag = b[p + 5];
            let hsub = uint_of_bits(b.subrange(p + 6, p + 10)) as int;
            if !hflag || !high_submode_legal(mode, hsub) {
                DecodeStep { result: Err(DecoderError::CorruptStream), ..keep }
            } else {
                DecodeStep { consumed: 10, low: sub, high: hsub, result: Ok(()) }
            }
        }
    }
}

/// Owned handle standing for one live decoder instance of the engine.
/// Exactly one handle refers to a given instance; destroying the handle
/// consumes it, so the instance is released exactly once and never used
/// afterward.
pub struct SpeexDecoderHandle {
    state: CoderState,
}

impl SpeexDecoderHandle {
    /// The control-channel state of the instance.
    pub closed spec fn cstate(&self) -> CoderState {
        self.state
    }

    /// Creates a new decoder instance for the given mode, in the mode's
    /// initial control state.
    pub fn create(mode: &SpeexMode) -> (r: Self)
        ensures
            r.cstate() == CoderState::initial_spec(mode.mode_id),
            state_wf(r.cstate()),
    {
        SpeexDecoderHandle { state: CoderState::initial(mode.mode_id) }
    }

    /// Releases the decoder instance. Consumes the handle: no use after
    /// destruction can be written.
    pub fn destroy(handle: SpeexDecoderHandle) {
    }
}

/// A struct representing a speex decoder, parameterized by its
/// compile-time coder mode.
pub struct SpeexDecoder<T: CoderMode> {
    handle: SpeexDecoderHandle,
    _marker: PhantomData<T>,
}

impl<T: CoderMode> Sealed for SpeexDecoder<T> {

}

impl<T: CoderMode> ControlFunctions for SpeexDecoder<T> {
    closed spec fn cstate(&self) -> CoderState {
        self.handle.state
    }

    fn ctl(&mut self, request: i32, param: &mut i32) -> (r: Result<(), ControlError>) {
        self.handle.state.ctl(request, param)
    }
}

impl<T: CoderMode> SpeexDecoder<T> {
    /// Well-formedness: the control state is of this decoder's mode and
    /// its submodes are in their tables.
    pub open spec fn wf(&self) -> bool {
        &&& state_wf(self.cstate())
        &&& self.cstate().mode == T::mode_spec()
    }

    /// Set whether to use enhancement.
    pub fn set_enhancement(&mut self, state: bool)
        requires
            old(self).wf(),
        ensures
            final(self).wf(),
            final(self).cstate() == (CoderState { enhancement: state, ..old(self).cstate() }),
    {
        let mut slot: i32 = if state {
            1
        } else {
            0
        };
        let _ = self.ctl(SPEEX_SET_ENH, &mut slot);
    }

    /// Get whether enhancement is turned on or not.
    pub fn get_enhancement(&mut self) -> (r: bool)
        requires
            old(self).wf(),
        ensures
            final(self).wf(),
            final(self).cstate() == old(self).cstate(),
            r == old(self).cstate().enhancement,
    {
        let mut slot: i32 = 0;
        let _ = self.ctl(SPEEX_GET_ENH, &mut slot);
        slot != 0
    }

    /// The submode of the embedded narrowband (low) layer.
    fn get_low_submode_internal(&mut self) -> (r: NbSubmodeId)
        requires
            old(self).wf(),
        ensures
            final(self).wf(),
            final(self).cstate() == old(self).cstate(),
            r.id_spec() == old(self).cstate().low_submode,
    {
        let mut low_mode: i32 = 0;
        let _ = self.ctl(SPEEX_GET_LOW_MODE, &mut low_mode);
        match NbSubmodeId::from_id(low_mode) {
            Some(s) => s,
            None => NbSubmodeId::High,
        }
    }

    /// Selects the submode of the embedded narrowband (low) layer.
    fn set_low_submode_internal(&mut self, low_mode: NbSubmodeId)
        requires
            old(self).wf(),
        ensures
            final(self).wf(),
            final(self).cstate() == (CoderState {
                low_submode: low_mode.id_spec() as i32,
                ..old(self).cstate()
            }),
    {
        let mut slot: i32 = low_mode.to_id();
        let _ = self.ctl(SPEEX_SET_LOW_MODE, &mut slot);
    }

    /// Selects the submode of the high layer; meaningful only for a
    /// wideband coder.
    fn set_high_submode_internal(&mut self, high_mode: WbSubmodeId)
        requires
            old(self).wf(),
            old(self).cstate().mode is WideBand,
        ensures
            final(self).wf(),
            final(self).cstate() == (CoderState {
                high_submode: high_mode.id_spec() as i32,
                ..old(self).cstate()
            }),
    {
        let mut slot: i32 = high_mode.to_id();
        let _ = self.ctl(SPEEX_SET_HIGH_MODE, &mut slot);
    }

    /// The submode of the high layer; meaningful only for a wideband
    /// coder.
    fn get_high_submode_internal(&mut self) -> (r: WbSubmodeId)
        requires
            old(self).wf(),
            old(self).cstate().mode is WideBand,
        ensures
            final(self).wf(),
            final(self).cstate() == old(self).cstate(),
            r.id_spec() == old(self).cstate().high_submode,
    {
        let mut high_mode: i32 = 0;
        let _ = self.ctl(SPEEX_GET_HIGH_MODE, &mut high_mode);
        match WbSubmodeId::from_id(high_mode) {
            Some(s) => s,
            None => WbSubmodeId::NoQuantize,
        }
    }

    /// Decode one frame of speex data from the bitstream, as integer
    /// samples, exactly as `decode_step` describes: the output buffer is
    /// checked first and a too-small buffer is rejected with the stream
    /// untouched; the stream-end sentinel or a truncated stream ends with
    /// `EndOfStream`; ill-formed framing ends with `CorruptStream`; a
    /// well-formed frame is consumed, the coder adopts its submodes, and
    /// the frame decodes to silence — the numeric payload synthesis
    /// belongs to the engine's signal-processing core, outside this
    /// layer. Samples of `out` past the frame keep their old values.
    #[verifier::rlimit(80)]
    pub fn decode_int(&mut self, bits: &mut SpeexBits, out: &mut Vec<i16>) -> (r: Result<
        (),
        DecoderError,
    >)
        requires
            old(self).wf(),
            old(bits)@.wf(),
        ensures
            final(self).wf(),
            final(bits)@.wf(),
            final(out)@.len() == old(out)@.len(),
            ({
                let st = decode_step(
                    old(self).cstate().mode,
                    old(bits)@.bits(),
                    old(bits)@.rpos,
                    old(self).cstate().low_submode as int,
                    old(self).cstate().high_submode as int,
                    old(out)@.len() as int,
                );
                &&& r == st.result
                &&& final(bits)@ == (BitsView {
                    rpos: old(bits)@.rpos + st.consumed,
                    ..old(bits)@
                })
                &&& final(self).cstate() == (CoderState {
                    low_submode: st.low as i32,
                    high_submode: st.high as i32,
                    ..old(self).cstate()
                })
                &&& (r is Ok ==> (forall|i: int|
                    0 <= i < old(self).cstate().mode.frame_size_spec() ==> final(out)@[i] == 0)
                    && (forall|i: int|
                    old(self).cstate().mode.frame_size_spec() <= i < old(out)@.len()
                        ==> final(out)@[i] == old(out)@[i]))
                &&& (!(r is Ok) ==> final(out)@ == old(out)@)
            }),
    {
        let frame_size = self.get_frame_size();
        if out.len() < frame_size as usize {
            return Err(DecoderError::TooSmallBuffer);
        }
        let v5 = match bits.peek_unsigned(5) {
            Ok(v) => v,
            Err(_) => {
                return Err(DecoderError::EndOfStream);
            },
        };
        let ghost b = bits@.bits();
        let ghost p = bits@.rpos;
        let ghost s5 = b.subrange(p, p + 5);
        proof {
            lemma_uint_of_bits_split(s5, 1);
            lemma_uint_of_bits_bound(s5.subrange(1, 5));
            vstd::arithmetic::power2::lemma2_to64();
            lemma_uint_of_bits_single(s5.subrange(0, 1));
            assert(s5.subrange(0, 1)[0] == s5[0]);
            assert(s5[0] == b[p]);
            assert(s5.subrange(1, 5) =~= b.subrange(p + 1, p + 5));
            lemma_uint_of_bits_bound(s5);
            assert(pow2(4) == 16 && pow2(5) == 32);
            assert(uint_of_bits(s5) == uint_of_bits(s5.subrange(0, 1)) * pow2(4) + uint_of_bits(
                s5.subrange(1, 5),
            ));
            assert(uint_of_bits(s5) == uint_of_bits(s5.subrange(0, 1)) * 16 + uint_of_bits(
                s5.subrange(1, 5),
            ));
            assert(uint_of_bits(s5) < 32);
            assert(v5 == uint_of_bits(s5));
        }
        let flag = v5 >= 16;
        let sub = (v5 % 16) as i32;
        if !flag && sub == 15 {
            let _ = bits.advance(5);
            return Err(DecoderError::EndOfStream);
        }
        if flag || sub < 1 || sub > 8 {
            return Err(DecoderError::CorruptStream);
        }
        let is_nb = match self.handle.state.mode {
            ModeId::NarrowBand => true,
            _ => false,
        };
        if is_nb {
            let _ = bits.advance(5);
            let mut slot: i32 = sub;
            let _ = self.ctl(SPEEX_SET_LOW_MODE, &mut slot);
            self.silence_frame(out, frame_size as usize);
            return Ok(());
        }
        let v10 = match bits.peek_unsigned(10) {
            Ok(v) => v,
            Err(_) => {
                return Err(DecoderError::EndOfStream);
            },
        };
        let ghost s10 = b.subrange(p, p + 10);
        let ghost h = s10.subrange(5, 10);
        proof {
            lemma_uint_of_bits_split(s10, 5);
            assert(s10.subrange(0, 5) =~= s5);
            assert(s10.subrange(5, 10) == h);
            lemma_uint_of_bits_split(h, 1);
            lemma_uint_of_bits_bound(h);
            lemma_uint_of_bits_bound(h.subrange(1, 5));
            lemma_uint_of_bits_bound(s5);
            vstd::arithmetic::power2::lemma2_to64();
            lemma_uint_of_bits_single(h.subrange(0, 1));
            assert(h.subrange(0, 1)[0] == h[0]);
            assert(h[0] == b[p + 5]);
            assert(h.subrange(1, 5) =~= b.subrange(p + 6, p + 10));
            assert(uint_of_bits(s10) == uint_of_bits(s5) * pow2(5) + uint_of_bits(h));
            assert(pow2(5) == 32);
            assert(uint_of_bits(s10) == uint_of_bits(s5) * 32 + uint_of_bits(h));
            assert(uint_of_bits(s5) < 32 && uint_of_bits(h) < 32);
            assert(uint_of_bits(s10) < 1024) by (nonlinear_arith)
                requires
                    uint_of_bits(s10) == uint_of_bits(s5) * 32 + uint_of_bits(h),
                    uint_of_bits(s5) < 32,
                    uint_of_bits(h) < 32,
            ;
            assert(v10 == uint_of_bits(s10));
            assert(v10 % 32 == uint_of_bits(h)) by (nonlinear_arith)
                requires
                    v10 == uint_of_bits(s5) * 32 + uint_of_bits(h),
                    uint_of_bits(h) < 32,
            ;
            assert(uint_of_bits(h) == uint_of_bits(h.subrange(0, 1)) * pow2(4) + uint_of_bits(
                h.subrange(1, 5),
            ));
            assert(pow2(4) == 16);
        }
        let h5 = v10 % 32;
        let hflag = h5 >= 16;
        let hsub = (h5 % 16) as i32;
        if !hflag {
            return Err(DecoderError::CorruptStream);
        }
        let high_ok = match self.handle.state.mode {
            ModeId::NarrowBand => false,
            ModeId::WideBand => 1 <= hsub && hsub <= 4,
            ModeId::UltraWideBand => hsub == 1,
        };
        if !high_ok {
            return Err(DecoderError::CorruptStream);
        }
        let _ = bits.advance(10);
        let mut slot: i32 = sub;
        let _ = self.ctl(SPEEX_SET_LOW_MODE, &mut slot);
        let mut hslot: i32 = hsub;
        let _ = self.ctl(SPEEX_SET_HIGH_MODE, &mut hslot);
        self.silence_frame(out, frame_size as usize);
        Ok(())
    }

    /// Writes one frame of silence into the start of `out`.
    fn silence_frame(&self, out: &mut Vec<i16>, frame_size: usize)
        requires
            frame_size <= old(out)@.len(),
        ensures
            final(out)@.len() == old(out)@.len(),
            forall|i: int| 0 <= i < frame_size ==> final(out)@[i] == 0,
            forall|i: int| frame_size <= i < old(out)@.len() ==> final(out)@[i] == old(out)@[i],
    {
        let mut i: usize = 0;
        while i < frame_size
            invariant
                i <= frame_size,
                frame_size <= out@.len(),
                out@.len() == old(out)@.len(),
                forall|j: int| 0 <= j < i ==> out@[j] == 0,
                forall|j: int| i <= j < out@.len() ==> out@[j] == old(out)@[j],
            decreases frame_size - i,
        {
            out[i] = 0;
            i = i + 1;
        }
    }

    /// Decode one frame of speex data from the bitstream into a new
    /// vector of integer samples, one frame long; otherwise exactly as
    /// `decode_int`.
    pub fn decode_int_to_owned(&mut self, bits: &mut SpeexBits) -> (r: Result<
        Vec<i16>,
        DecoderError,
    >)
        requires
            old(self).wf(),
            old(bits)@.wf(),
        ensures
            final(self).wf(),
            final(bits)@.wf(),
            ({
                let st = decode_step(
                    old(self).cstate().mode,
                    old(bits)@.bits(),
                    old(bits)@.rpos,
                    old(self).cstate().low_submode as int,
                    old(self).cstate().high_submode as int,
                    old(self).cstate().mode.frame_size_spec(),
                );
                &&& (r is Ok <==> st.result is Ok)
                &&& (r matches Err(e) ==> st.result == Result::<(), DecoderError>::Err(e))
                &&& final(bits)@ == (BitsView {
                    rpos: old(bits)@.rpos + st.consumed,
                    ..old(bits)@
                })
                &&& final(self).cstate() == (CoderState {
                    low_submode: st.low as i32,
                    high_submode: st.high as i32,
                    ..old(self).cstate()
                })
                &&& (r matches Ok(v) ==> v@.len() == old(self).cstate().mode.frame_size_spec()
                    && (forall|i: int| 0 <= i < v@.len() ==> v@[i] == 0))
            }),
    {
        let frame_size = self.get_frame_size();
        let mut out: Vec<i16> = Vec::new();
        let mut i: usize = 0;
        while i < frame_size as usize
            invariant
                i <= frame_size as usize,
                out@.len() == i,
                forall|j: int| 0 <= j < i ==> out@[j] == 0,
            decreases frame_size as usize - i,
        {
            out.push(0);
            i = i + 1;
        }
        match self.decode_int(bits, &mut out) {
            Ok(()) => Ok(out),
            Err(e) => Err(e),
        }
    }
}

impl SpeexDecoder<NbMode> {
    /// Create a new narrowband decoder.
    pub fn new() -> (r: SpeexDecoder<NbMode>)
        ensures
            r.wf(),
            r.cstate() == CoderState::initial_spec(ModeId::NarrowBand),
    {
        let mode = ModeId::NarrowBand.get_mode();
        let handle = SpeexDecoderHandle::create(&mode);
        SpeexDecoder { handle, _marker: PhantomData }
    }

    /// Sets the submode to use for decoding.
    pub fn set_submode(&mut self, submode: NbSubmodeId)
        requires
            old(self).wf(),
        ensures
            final(self).wf(),
            final(self).cstate() == (CoderState {
                low_submode: submode.id_spec() as i32,
                ..old(self).cstate()
            }),
    {
        self.set_low_submode_internal(submode);
    }

    /// Gets the submode currently in use for decoding.
    pub fn get_submode(&mut self) -> (r: NbSubmodeId)
        requires
            old(self).wf(),
        ensures
            final(self).wf(),
            final(self).cstate() == old(self).cstate(),
            r.id_spec() == old(self).cstate().low_submode,
    {
        self.get_low_submode_internal()
    }
}

impl Default for SpeexDecoder<NbMode> {
    /// Same as `SpeexDecoder::<NbMode>::new`.
    fn default() -> (r: Self)
        ensures
            r.wf(),
            r.cstate() == CoderState::initial_spec(ModeId::NarrowBand),
    {
        Self::new()
    }
}

impl SpeexDecoder<WbMode> {
    /// Create a new wideband decoder.
    pub fn new() -> (r: SpeexDecoder<WbMode>)
        ensures
            r.wf(),
            r.cstate() == CoderState::initial_spec(ModeId::WideBand),
    {
        let mode = ModeId::WideBand.get_mode();
        let handle = SpeexDecoderHandle::create(&mode);
        SpeexDecoder { handle, _marker: PhantomData }
    }

    /// Sets the submode of the narrowband part of the decoder.
    pub fn set_low_submode(&mut self, low_mode: NbSubmodeId)
        requires
            old(self).wf(),
        ensures
            final(self).wf(),
            final(self).cstate() == (CoderState {
                low_submode: low_mode.id_spec() as i32,
                ..old(self).cstate()
            }),
    {
        self.set_low_submode_internal(low_mode);
    }

    /// Gets the submode of the narrowband part of the decoder.
    pub fn get_low_submode(&mut self) -> (r: NbSubmodeId)
        requires
            old(self).wf(),
        ensures
            final(self).wf(),
            final(self).cstate() == old(self).cstate(),
            r.id_spec() == old(self).cstate().low_submode,
    {
        self.get_low_submode_internal()
    }

    /// Sets the submode of the wideband part of the decoder.
    pub fn set_high_submode(&mut self, high_mode: WbSubmodeId)
        requires
            old(self).wf(),
        ensures
            final(self).wf(),
            final(self).cstate() == (CoderState {
                high_submode: high_mode.id_spec() as i32,
                ..old(self).cstate()
            }),
    {
        self.set_high_submode_internal(high_mode);
    }

    /// Gets the submode of the wideband part of the decoder.
    pub fn get_high_submode(&mut self) -> (r: WbSubmodeId)
        requires
            old(self).wf(),
        ensures
            final(self).wf(),
            final(self).cstate() == old(self).cstate(),
            r.id_spec() == old(self).cstate().high_submode,
    {
        self.get_high_submode_internal()
    }
}

impl Default for SpeexDecoder<WbMode> {
    /// Same as `SpeexDecoder::<WbMode>::new`.
    fn default() -> (r: Self)
        ensures
            r.wf(),
            r.cstate() == CoderState::initial_spec(ModeId::WideBand),
    {
        Self::new()
    }
}

impl SpeexDecoder<UwbMode> {
    /// Create a new ultra-wideband decoder.
    pub fn new() -> (r: SpeexDecoder<UwbMode>)
        ensures
            r.wf(),
            r.cstate() == CoderState::initial_spec(ModeId::UltraWideBand),
    {
        let mode = ModeId::UltraWideBand.get_mode();
        let handle = SpeexDecoderHandle::create(&mode);
        SpeexDecoder { handle, _marker: PhantomData }
    }

    /// Sets the submode of the narrowband part of the decoder.
    pub fn set_low_submode(&mut self, low_mode: NbSubmodeId)
        requires
            old(self).wf(),
        ensures
            final(self).wf(),
            final(self).cstate() == (CoderState {
                low_submode: low_mode.id_spec() as i32,
                ..old(self).cstate()
            }),
    {
        self.set_low_submode_internal(low_mode);
    }

    /// Gets the submode of the narrowband part of the decoder.
    pub fn get_low_submode(&mut self) -> (r: NbSubmodeId)
        requires
            old(self).wf(),
        ensures
            final(self).wf(),
            final(self).cstate() == old(self).cstate(),
            r.id_spec() == old(self).cstate().low_submode,
    {
        self.get_low_submode_internal()
    }
}

impl Default for SpeexDecoder<UwbMode> {
    /// Same as `SpeexDecoder::<UwbMode>::new`.
    fn default() -> (r: Self)
        ensures
            r.wf(),
            r.cstate() == CoderState::initial_spec(ModeId::UltraWideBand),
    {
        Self::new()
    }
}


/// Round trip with the encoder: decoding at a position where the stream
/// holds exactly the framing an encoder in control state `s` writes
/// yields success, consumes exactly that framing, and the decoder adopts
/// the encoder's submodes.
pub proof fn lemma_encode_decode_roundtrip(
    s: CoderState,
    b: Seq<bool>,
    p: int,
    low0: int,
    high0: int,
    out_len: int,
)
    requires
        state_wf(s),
        0 <= p,
        p + frame_header_len(s.mode) <= b.len(),
        b.subrange(p, p + frame_header_len(s.mode)) == frame_header_bits(s),
        out_len >= s.mode.frame_size_spec(),
    ensures
        ({
            let st = decode_step(s.mode, b, p, low0, high0, out_len);
            &&& st.result is Ok
            &&& st.consumed == frame_header_len(s.mode)
            &&& st.low == s.low_submode
            &&& (s.mode is NarrowBand ==> st.high == high0)
            &&& (!(s.mode is NarrowBand) ==> st.high == s.high_submode)
        }),
{
    crate::bits::lemma_bits_of_uint_len(s.low_submode as u32, 4);
    crate::bits::lemma_bits_of_uint_len(s.high_submode as u32, 4);
    vstd::arithmetic::power2::lemma2_to64();
    let hdr = frame_header_bits(s);
    let ghost len = frame_header_len(s.mode);
    assert forall|j: int| 0 <= j < len implies b[p + j] == hdr[j] by {
        assert(b.subrange(p, p + len)[j] == b[p + j]);
        assert(b.subrange(p, p + len)[j] == hdr[j]);
    }
    let lowh = header5(false, s.low_submode);
    assert(lowh.len() == 5);
    assert(b[p] == hdr[0]);
    assert(hdr[0] == lowh[0]);
    assert(lowh[0] == false);
    assert forall|i: int|
        #![trigger b.subrange(p + 1, p + 5)[i]]
        0 <= i < 4 implies b.subrange(p + 1, p + 5)[i] == bits_of_uint(
        s.low_submode as u32,
        4,
    )[i] by {
        assert(b[p + 1 + i] == hdr[1 + i]);
        assert(hdr[1 + i] == lowh[1 + i]);
        assert(lowh[1 + i] == bits_of_uint(s.low_submode as u32, 4)[i]);
    }
    assert(b.subrange(p + 1, p + 5) =~= bits_of_uint(s.low_submode as u32, 4));
    lemma_pack_unpack_roundtrip(s.low_submode as u32, 4);
    assert(uint_of_bits(b.subrange(p + 1, p + 5)) == s.low_submode);
    if s.mode is NarrowBand {
    } else {
        let highh = header5(true, s.high_submode);
        assert(b[p + 5] == hdr[5]);
        assert(hdr[5] == highh[0]);
        assert(highh[0] == true);
        assert forall|i: int|
            #![trigger b.subrange(p + 6, p + 10)[i]]
            0 <= i < 4 implies b.subrange(p + 6, p + 10)[i] == bits_of_uint(
            s.high_submode as u32,
            4,
        )[i] by {
            assert(b[p + 6 + i] == hdr[6 + i]);
            assert(hdr[6 + i] == highh[1 + i]);
            assert(highh[1 + i] == bits_of_uint(s.high_submode as u32, 4)[i]);
        }
        assert(b.subrange(p + 6, p + 10) =~= bits_of_uint(s.high_submode as u32, 4));
        lemma_pack_unpack_roundtrip(s.high_submode as u32, 4);
        assert(uint_of_bits(b.subrange(p + 6, p + 10)) == s.high_submode);
    }
}

/// The stream-end sentinel is recognized: decoding at a position where
/// the stream holds the terminator yields `EndOfStream`, consuming the
/// sentinel and leaving the submodes as they were.
pub proof fn lemma_terminator_recognized(
    mode: ModeId,
    b: Seq<bool>,
    p: int,
    low0: int,
    high0: int,
    out_len: int,
)
    requires
        0 <= p,
        p + 5 <= b.len(),
        b.subrange(p, p + 5) == terminator_bits(),
        out_len >= mode.frame_size_spec(),
    ensures
        ({
            let st = decode_step(mode, b, p, low0, high0, out_len);
            &&& st.result == Result::<(), DecoderError>::Err(DecoderError::EndOfStream)
            &&& st.consumed == 5
            &&& st.low == low0
            &&& st.high == high0
        }),
{
    vstd::arithmetic::power2::lemma2_to64();
    assert(bits_of_uint(15u32, 5) =~= seq![false, true, true, true, true]) by {
        assert(bits_of_uint(0u32, 0) == Seq::<bool>::empty());
        assert(bits_of_uint(0u32, 1) == bits_of_uint(0u32, 0).push(false));
        assert(bits_of_uint(1u32, 2) == bits_of_uint(0u32, 1).push(true));
        assert(bits_of_uint(3u32, 3) == bits_of_uint(1u32, 2).push(true));
        assert(bits_of_uint(7u32, 4) == bits_of_uint(3u32, 3).push(true));
        assert(bits_of_uint(15u32, 5) == bits_of_uint(7u32, 4).push(true));
    }
    assert(bits_of_uint(15u32, 4) =~= seq![true, true, true, true]) by {
        assert(bits_of_uint(1u32, 1) == bits_of_uint(0u32, 0).push(true));
        assert(bits_of_uint(3u32, 2) == bits_of_uint(1u32, 1).push(true));
        assert(bits_of_uint(7u32, 3) == bits_of_uint(3u32, 2).push(true));
        assert(bits_of_uint(15u32, 4) == bits_of_uint(7u32, 3).push(true));
    }
    assert(b[p] == terminator_bits()[0]);
    assert(b[p] == false);
    assert(b.subrange(p + 1, p + 5) =~= bits_of_uint(15u32, 4));
    lemma_pack_unpack_roundtrip(15u32, 4);
    assert(uint_of_bits(b.subrange(p + 1, p + 5)) == 15);
}

} // verus!
