//! Encoders: mode-typed handles over the engine's encoder instances.
//!
//! An encoder owns its engine instance exclusively; the instance is
//! released exactly once, when the owning value is destroyed, and no API
//! path yields a usable handle afterward. Encoding writes the coded
//! frame's framing into a bit buffer: a low-layer header carrying the
//! narrowband submode and, for the wide modes, a high-layer header
//! carrying the high submode. The numeric payload synthesis belongs to
//! the engine's signal-processing core, which is outside this layer.

use vstd::prelude::*;

use core::marker::PhantomData;
use crate::bits::{bits_of_uint, lemma_bits_of_uint_len, max_bytes, BitsError, SpeexBits};
use crate::control::{
    state_wf,
    CoderState,
    ControlError,
    ControlFunctions,
    Sealed,
    SPEEX_GET_COMPLEXITY,
    SPEEX_GET_HIGH_MODE,
    SPEEX_GET_LOW_MODE,
    SPEEX_SET_COMPLEXITY,
    SPEEX_SET_HIGH_MODE,
    SPEEX_SET_LOW_MODE,
};
use crate::mode::{CoderMode, ModeId, NbMode, NbSubmodeId, SpeexMode, UwbMode, WbMode, WbSubmodeId};

verus! {

/// One five-bit layer header of a coded frame: a flag bit (clear for the
/// low layer, set for a high layer) and a four-bit submode index.
pub open spec fn header5(high: bool, submode: i32) -> Seq<bool> {
    seq![high] + bits_of_uint(submode as u32, 4)
}

/// The framing this layer writes for one coded frame: a low-layer header
/// carrying the narrowband submode and, for the wide modes, a high-layer
/// header carrying the high submode.
pub open spec fn frame_header_bits(s: CoderState) -> Seq<bool> {
    if s.mode is NarrowBand {
        header5(false, s.low_submode)
    } else {
        header5(false, s.low_submode) + header5(true, s.high_submode)
    }
}

/// Bits of framing per coded frame of a mode.
pub open spec fn frame_header_len(mode: ModeId) -> int {
    if mode is NarrowBand {
        5
    } else {
        10
    }
}

/// A frame's framing is five bits per layer header.
pub proof fn lemma_frame_header_len(s: CoderState)
    ensures
        frame_header_bits(s).len() == frame_header_len(s.mode),
{
    lemma_bits_of_uint_len(s.low_submode as u32, 4);
    lemma_bits_of_uint_len(s.high_submode as u32, 4);
}

/// Owned handle standing for one live encoder instance of the engine.
/// Exactly one handle refers to a given instance; destroying the handle
/// consumes it, so the instance is released exactly once and never used
/// afterward.
pub struct SpeexEncoderHandle {
    state: CoderState,
}

impl SpeexEncoderHandle {
    /// The control-channel state of the instance.
    pub closed spec fn cstate(&self) -> CoderState {
        self.state
    }

    /// Creates a new encoder instance for the given mode, in the mode's
    /// initial control state.
    pub fn create(mode: &SpeexMode) -> (r: Self)
        ensures
            r.cstate() == CoderState::initial_spec(mode.mode_id),
            state_wf(r.cstate()),
    {
        SpeexEncoderHandle { state: CoderState::initial(mode.mode_id) }
    }

    /// Releases the encoder instance. Consumes the handle: no use after
    /// destruction can be written.
    pub fn destroy(handle: SpeexEncoderHandle) {
    }
}

/// A struct representing a speex encoder, parameterized by its
/// compile-time coder mode.
pub struct SpeexEncoder<T: CoderMode> {
    handle: SpeexEncoderHandle,
    _marker: PhantomData<T>,
}

impl<T: CoderMode> Sealed for SpeexEncoder<T> {

}

impl<T: CoderMode> ControlFunctions for SpeexEncoder<T> {
    closed spec fn cstate(&self) -> CoderState {
        self.handle.state
    }

    fn ctl(&mut self, request: i32, param: &mut i32) -> (r: Result<(), ControlError>) {
        self.handle.state.ctl(request, param)
    }
}

impl<T: CoderMode> SpeexEncoder<T> {
    /// Well-formedness: the control state is of this encoder's mode and
    /// its submodes are in their tables.
    pub open spec fn wf(&self) -> bool {
        &&& state_wf(self.cstate())
        &&& self.cstate().mode == T::mode_spec()
    }

    /// The submode of the embedded narrowband (low) layer.
    fn get_low_submode_internal(&mut self) -> (r: NbSubmodeId)
        requires
            old(self).wf(),
        ensures
            final(self).wf(),
            final(self).cstate() == old(self).cstate(),
            r.id_spec() == old(self).cstate().low_submode,
    {
        let mut low_mode: i32 = 0;
        let _ = self.ctl(SPEEX_GET_LOW_MODE, &mut low_mode);
        match NbSubmodeId::from_id(low_mode) {
            Some(s) => s,
            None => NbSubmodeId::High,
        }
    }

    /// Selects the submode of the embedded narrowband (low) layer.
    fn set_low_submode_internal(&mut self, low_mode: NbSubmodeId)
        requires
            old(self).wf(),
        ensures
            final(self).wf(),
            final(self).cstate() == (CoderState {
                low_submode: low_mode.id_spec() as i32,
                ..old(self).cstate()
            }),
    {
        let mut slot: i32 = low_mode.to_id();
        let _ = self.ctl(SPEEX_SET_LOW_MODE, &mut slot);
    }

    /// Selects the submode of the high layer; meaningful only for a
    /// wideband coder.
    fn set_high_submode_internal(&mut self, high_mode: WbSubmodeId)
        requires
            old(self).wf(),
            old(self).cstate().mode is WideBand,
        ensures
            final(self).wf(),
            final(self).cstate() == (CoderState {
                high_submode: high_mode.id_spec() as i32,
                ..old(self).cstate()
            }),
    {
        let mut slot: i32 = high_mode.to_id();
        let _ = self.ctl(SPEEX_SET_HIGH_MODE, &mut slot);
    }

    /// The submode of the high layer; meaningful only for a wideband
    /// coder.
    fn get_high_submode_internal(&mut self) -> (r: WbSubmodeId)
        requires
            old(self).wf(),
            old(self).cstate().mode is WideBand,
        ensures
            final(self).wf(),
            final(self).cstate() == old(self).cstate(),
            r.id_spec() == old(self).cstate().high_submode,
    {
        let mut high_mode: i32 = 0;
        let _ = self.ctl(SPEEX_GET_HIGH_MODE, &mut high_mode);
        match WbSubmodeId::from_id(high_mode) {
            Some(s) => s,
            None => WbSubmodeId::NoQuantize,
        }
    }

    /// Sets the analysis complexity of the encoder.
    pub fn set_complexity(&mut self, complexity: i32)
        requires
            old(self).wf(),
        ensures
            final(self).wf(),
            final(self).cstate() == (CoderState { complexity, ..old(self).cstate() }),
    {
        let mut slot: i32 = complexity;
        let _ = self.ctl(SPEEX_SET_COMPLEXITY, &mut slot);
    }

    /// Gets the analysis complexity of the encoder.
    pub fn get_complexity(&mut self) -> (r: i32)
        requires
            old(self).wf(),
        ensures
            final(self).wf(),
            final(self).cstate() == old(self).cstate(),
            r == old(self).cstate().complexity,
    {
        let mut slot: i32 = 0;
        let _ = self.ctl(SPEEX_GET_COMPLEXITY, &mut slot);
        slot
    }

    /// Encodes one frame of audio, given as integer samples, into the
    /// given bits: appends the frame's framing at the write cursor,
    /// leaving the read cursor and everything already written in place.
    /// The frame must be exactly one frame long for this encoder's mode.
    ///
    /// Fails with `CapacityExceeded` exactly when the framing does not
    /// fit in `bits`; on failure nothing changes. The numeric payload
    /// belongs to the engine's signal-processing core, outside this
    /// layer.
    pub fn encode_int(&mut self, input: &[i16], bits: &mut SpeexBits) -> (r: Result<
        (),
        BitsError,
    >)
        requires
            old(self).wf(),
            old(bits)@.wf(),
            input@.len() == old(self).cstate().mode.frame_size_spec(),
        ensures
            final(self).wf(),
            final(self).cstate() == old(self).cstate(),
            final(bits)@.wf(),
            final(bits)@.fixed == old(bits)@.fixed,
            final(bits)@.rpos == old(bits)@.rpos,
            r is Ok <==> (if old(bits)@.fixed {
                old(bits)@.wlen + frame_header_len(old(self).cstate().mode) <= old(bits)@.cap()
            } else {
                old(bits)@.wlen + frame_header_len(old(self).cstate().mode) <= 8 * max_bytes()
            }),
            r is Ok ==> final(bits)@.bits() == old(bits)@.bits() + frame_header_bits(
                old(self).cstate(),
            ),
            r is Err ==> final(bits)@ == old(bits)@ && r == Result::<(), BitsError>::Err(
                BitsError::CapacityExceeded,
            ),
    {
        let is_nb = match self.handle.state.mode {
            ModeId::NarrowBand => true,
            _ => false,
        };
        let needed: u32 = if is_nb {
            5
        } else {
            10
        };
        if !bits.fits(needed as usize) {
            return Err(BitsError::CapacityExceeded);
        }
        let ghost pre = bits@;
        let r1 = bits.pack(0, 1);
        proof {
            assert(r1 is Ok);
            assert(bits@.bits() == pre.bits() + bits_of_uint(0u32, 1));
        }
        let ghost mid = bits@;
        let r2 = bits.pack(self.handle.state.low_submode as u32, 4);
        proof {
            assert(r2 is Ok);
            assert(bits@.bits() == mid.bits() + bits_of_uint(
                self.handle.state.low_submode as u32,
                4,
            ));
            lemma_bits_of_uint_len(self.handle.state.low_submode as u32, 4);
            assert(bits_of_uint(0u32, 1) =~= seq![false]);
            assert(bits@.bits() =~= pre.bits() + header5(false, self.handle.state.low_submode));
        }
        if !is_nb {
            let r3 = bits.pack(1, 1);
            proof {
                assert(r3 is Ok);
            }
            let r4 = bits.pack(self.handle.state.high_submode as u32, 4);
            proof {
                assert(r4 is Ok);
                lemma_bits_of_uint_len(self.handle.state.high_submode as u32, 4);
                assert(bits_of_uint(1u32, 1) =~= seq![true]);
                assert(bits@.bits() =~= pre.bits() + frame_header_bits(old(self).cstate()));
            }
        }
        Ok(())
    }
}

impl SpeexEncoder<NbMode> {
    /// Create a new narrowband encoder.
    pub fn new() -> (r: SpeexEncoder<NbMode>)
        ensures
            r.wf(),
            r.cstate() == CoderState::initial_spec(ModeId::NarrowBand),
    {
        let mode = ModeId::NarrowBand.get_mode();
        let handle = SpeexEncoderHandle::create(&mode);
        SpeexEncoder { handle, _marker: PhantomData }
    }

    /// Sets the submode to use for encoding.
    pub fn set_submode(&mut self, submode: NbSubmodeId)
        requires
            old(self).wf(),
        ensures
            final(self).wf(),
            final(self).cstate() == (CoderState {
                low_submode: submode.id_spec() as i32,
                ..old(self).cstate()
            }),
    {
        self.set_low_submode_internal(submode);
    }

    /// Gets the submode currently in use for encoding.
    pub fn get_submode(&mut self) -> (r: NbSubmodeId)
        requires
            old(self).wf(),
        ensures
            final(self).wf(),
            final(self).cstate() == old(self).cstate(),
            r.id_spec() == old(self).cstate().low_submode,
    {
        self.get_low_submode_internal()
    }
}

impl Default for SpeexEncoder<NbMode> {
    /// Same as `SpeexEncoder::<NbMode>::new`.
    fn default() -> (r: Self)
        ensures
            r.wf(),
            r.cstate() == CoderState::initial_spec(ModeId::NarrowBand),
    {
        Self::new()
    }
}

impl SpeexEncoder<WbMode> {
    /// Create a new wideband encoder.
    pub fn new() -> (r: SpeexEncoder<WbMode>)
        ensures
            r.wf(),
            r.cstate() == CoderState::initial_spec(ModeId::WideBand),
    {
        let mode = ModeId::WideBand.get_mode();
        let handle = SpeexEncoderHandle::create(&mode);
        SpeexEncoder { handle, _marker: PhantomData }
    }

    /// Sets the submode of the narrowband part of the encoder.
    pub fn set_low_submode(&mut self, low_mode: NbSubmodeId)
        requires
            old(self).wf(),
        ensures
            final(self).wf(),
            final(self).cstate() == (CoderState {
                low_submode: low_mode.id_spec() as i32,
                ..old(self).cstate()
            }),
    {
        self.set_low_submode_internal(low_mode);
    }

    /// Gets the submode of the narrowband part of the encoder.
    pub fn get_low_submode(&mut self) -> (r: NbSubmodeId)
        requires
            old(self).wf(),
        ensures
            final(self).wf(),
            final(self).cstate() == old(self).cstate(),
            r.id_spec() == old(self).cstate().low_submode,
    {
        self.get_low_submode_internal()
    }

    /// Sets the submode of the wideband part of the encoder.
    pub fn set_high_submode(&mut self, high_mode: WbSubmodeId)
        requires
            old(self).wf(),
        ensures
            final(self).wf(),
            final(self).cstate() == (CoderState {
                high_submode: high_mode.id_spec() as i32,
                ..old(self).cstate()
            }),
    {
        self.set_high_submode_internal(high_mode);
    }

    /// Gets the submode of the wideband part of the encoder.
    pub fn get_high_submode(&mut self) -> (r: WbSubmodeId)
        requires
            old(self).wf(),
        ensures
            final(self).wf(),
            final(self).cstate() == old(self).cstate(),
            r.id_spec() == old(self).cstate().high_submode,
    {
        self.get_high_submode_internal()
    }
}

impl Default for SpeexEncoder<WbMode> {
    /// Same as `SpeexEncoder::<WbMode>::new`.
    fn default() -> (r: Self)
        ensures
            r.wf(),
            r.cstate() == CoderState::initial_spec(ModeId::WideBand),
    {
        Self::new()
    }
}

impl SpeexEncoder<UwbMode> {
    /// Create a new ultra-wideband encoder.
    pub fn new() -> (r: SpeexEncoder<UwbMode>)
        ensures
            r.wf(),
            r.cstate() == CoderState::initial_spec(ModeId::UltraWideBand),
    {
        let mode = ModeId::UltraWideBand.get_mode();
        let handle = SpeexEncoderHandle::create(&mode);
        SpeexEncoder { handle, _marker: PhantomData }
    }

    /// Sets the submode of the narrowband part of the encoder.
    pub fn set_low_submode(&mut self, low_mode: NbSubmodeId)
        requires
            old(self).wf(),
        ensures
            final(self).wf(),
            final(self).cstate() == (CoderState {
                low_submode: low_mode.id_spec() as i32,
                ..old(self).cstate()
            }),
    {
        self.set_low_submode_internal(low_mode);
    }

    /// Gets the submode of the narrowband part of the encoder.
    pub fn get_low_submode(&mut self) -> (r: NbSubmodeId)
        requires
            old(self).wf(),
        ensures
            final(self).wf(),
            final(self).cstate() == old(self).cstate(),
            r.id_spec() == old(self).cstate().low_submode,
    {
        self.get_low_submode_internal()
    }
}

impl Default for SpeexEncoder<UwbMode> {
    /// Same as `SpeexEncoder::<UwbMode>::new`.
    fn default() -> (r: Self)
        ensures
            r.wf(),
            r.cstate() == CoderState::initial_spec(ModeId::UltraWideBand),
    {
        Self::new()
    }
}

/// An enumeration over the different encoder modes, for use cases where
/// the encoder mode is not known at compile time. Exactly one variant is
/// live at a time.
pub enum DynamicEncoder {
    Nb(SpeexEncoder<NbMode>),
    Wb(SpeexEncoder<WbMode>),
    Uwb(SpeexEncoder<UwbMode>),
}

impl DynamicEncoder {
    /// The control-channel state of the live variant.
    pub open spec fn cstate(self) -> CoderState {
        match self {
            DynamicEncoder::Nb(inner) => inner.cstate(),
            DynamicEncoder::Wb(inner) => inner.cstate(),
            DynamicEncoder::Uwb(inner) => inner.cstate(),
        }
    }

    /// Well-formedness of the live variant; the tag matches the state's
    /// mode.
    pub open spec fn wf(self) -> bool {
        match self {
            DynamicEncoder::Nb(inner) => inner.wf(),
            DynamicEncoder::Wb(inner) => inner.wf(),
            DynamicEncoder::Uwb(inner) => inner.wf(),
        }
    }

    /// Creates an encoder of the mode selected at run time.
    pub fn new(mode: ModeId) -> (r: DynamicEncoder)
        ensures
            r.wf(),
            r.cstate() == CoderState::initial_spec(mode),
            r is Nb <==> mode is NarrowBand,
            r is Wb <==> mode is WideBand,
            r is Uwb <==> mode is UltraWideBand,
    {
        match mode {
            ModeId::NarrowBand => DynamicEncoder::Nb(SpeexEncoder::<NbMode>::new()),
            ModeId::WideBand => DynamicEncoder::Wb(SpeexEncoder::<WbMode>::new()),
            ModeId::UltraWideBand => DynamicEncoder::Uwb(SpeexEncoder::<UwbMode>::new()),
        }
    }

    /// Gets the frame size (in samples) of the live variant.
    pub fn get_frame_size(&mut self) -> (r: i32)
        requires
            old(self).wf(),
        ensures
            final(self).wf(),
            final(self).cstate() == old(self).cstate(),
            r == old(self).cstate().mode.frame_size_spec(),
    {
        match self {
            DynamicEncoder::Nb(inner) => inner.get_frame_size(),
            DynamicEncoder::Wb(inner) => inner.get_frame_size(),
            DynamicEncoder::Uwb(inner) => inner.get_frame_size(),
        }
    }

    /// Sets the analysis complexity of the encoder.
    pub fn set_complexity(&mut self, complexity: i32)
        requires
            old(self).wf(),
        ensures
            final(self).wf(),
            final(self).cstate() == (CoderState { complexity, ..old(self).cstate() }),
    {
        match self {
            DynamicEncoder::Nb(inner) => inner.set_complexity(complexity),
            DynamicEncoder::Wb(inner) => inner.set_complexity(complexity),
            DynamicEncoder::Uwb(inner) => inner.set_complexity(complexity),
        }
    }

    /// Gets the analysis complexity of the encoder.
    pub fn get_complexity(&mut self) -> (r: i32)
        requires
            old(self).wf(),
        ensures
            final(self).wf(),
            final(self).cstate() == old(self).cstate(),
            r == old(self).cstate().complexity,
    {
        match self {
            DynamicEncoder::Nb(inner) => inner.get_complexity(),
            DynamicEncoder::Wb(inner) => inner.get_complexity(),
            DynamicEncoder::Uwb(inner) => inner.get_complexity(),
        }
    }

    /// Encodes one frame of audio, given as integer samples, into the
    /// given bits, as `SpeexEncoder::encode_int` does for the live
    /// variant.
    pub fn encode_int(&mut self, input: &[i16], bits: &mut SpeexBits) -> (r: Result<
        (),
        BitsError,
    >)
        requires
            old(self).wf(),
            old(bits)@.wf(),
            input@.len() == old(self).cstate().mode.frame_size_spec(),
        ensures
            final(self).wf(),
            final(self).cstate() == old(self).cstate(),
            final(bits)@.wf(),
            final(bits)@.fixed == old(bits)@.fixed,
            final(bits)@.rpos == old(bits)@.rpos,
            r is Ok <==> (if old(bits)@.fixed {
                old(bits)@.wlen + frame_header_len(old(self).cstate().mode) <= old(bits)@.cap()
            } else {
                old(bits)@.wlen + frame_header_len(old(self).cstate().mode) <= 8 * max_bytes()
            }),
            r is Ok ==> final(bits)@.bits() == old(bits)@.bits() + frame_header_bits(
                old(self).cstate(),
            ),
            r is Err ==> final(bits)@ == old(bits)@ && r == Result::<(), BitsError>::Err(
                BitsError::CapacityExceeded,
            ),
    {
        match self {
            DynamicEncoder::Nb(inner) => inner.encode_int(input, bits),
            DynamicEncoder::Wb(inner) => inner.encode_int(input, bits),
            DynamicEncoder::Uwb(inner) => inner.encode_int(input, bits),
        }
    }

    /// Narrows to the narrowband encoder, if that is the live variant.
    pub fn into_nb(self) -> (r: Option<SpeexEncoder<NbMode>>)
        ensures
            r is Some <==> self is Nb,
            self matches DynamicEncoder::Nb(inner) ==> r == Some(inner),
    {
        match self {
            DynamicEncoder::Nb(nb) => Some(nb),
            _ => None,
        }
    }

    /// Narrows to the wideband encoder, if that is the live variant.
    pub fn into_wb(self) -> (r: Option<SpeexEncoder<WbMode>>)
        ensures
            r is Some <==> self is Wb,
            self matches DynamicEncoder::Wb(inner) ==> r == Some(inner),
    {
        match self {
            DynamicEncoder::Wb(wb) => Some(wb),
            _ => None,
        }
    }

    /// Narrows to the ultra-wideband encoder, if that is the live
    /// variant.
    pub fn into_uwb(self) -> (r: Option<SpeexEncoder<UwbMode>>)
        ensures
            r is Some <==> self is Uwb,
            self matches DynamicEncoder::Uwb(inner) ==> r == Some(inner),
    {
        match self {
            DynamicEncoder::Uwb(uwb) => Some(uwb),
            _ => None,
        }
    }
}

} // verus!
