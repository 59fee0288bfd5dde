//! The control channel: a uniform get/set protocol over a coder's state.
//!
//! Every operation on a coder that is not raw encode/decode is one
//! request through this channel: an integer opcode plus a typed parameter
//! slot passed by reference. Get-requests zero the slot, send, and read
//! it back; set-requests write the desired value into the slot and send.
//! Engine status codes are translated into a typed result: unknown
//! opcodes and out-of-table submode indices are recoverable errors.

use vstd::prelude::*;

use crate::mode::ModeId;

verus! {

pub const SPEEX_SET_ENH: i32 = 0;

pub const SPEEX_GET_ENH: i32 = 1;

pub const SPEEX_GET_FRAME_SIZE: i32 = 3;

pub const SPEEX_SET_QUALITY: i32 = 4;

pub const SPEEX_SET_LOW_MODE: i32 = 8;

pub const SPEEX_GET_LOW_MODE: i32 = 9;

pub const SPEEX_SET_HIGH_MODE: i32 = 10;

pub const SPEEX_GET_HIGH_MODE: i32 = 11;

pub const SPEEX_SET_VBR: i32 = 12;

pub const SPEEX_GET_VBR: i32 = 13;

pub const SPEEX_SET_COMPLEXITY: i32 = 16;

pub const SPEEX_GET_COMPLEXITY: i32 = 17;

pub const SPEEX_SET_BITRATE: i32 = 18;

pub const SPEEX_GET_BITRATE: i32 = 19;

pub const SPEEX_SET_SAMPLING_RATE: i32 = 24;

pub const SPEEX_GET_SAMPLING_RATE: i32 = 25;

pub const SPEEX_RESET_STATE: i32 = 26;

pub const SPEEX_SET_VAD: i32 = 30;

pub const SPEEX_GET_VAD: i32 = 31;

pub const SPEEX_SET_ABR: i32 = 32;

pub const SPEEX_GET_ABR: i32 = 33;

pub const SPEEX_SET_SUBMODE_ENCODING: i32 = 36;

pub const SPEEX_GET_SUBMODE_ENCODING: i32 = 37;

pub const SPEEX_GET_LOOKAHEAD: i32 = 39;

pub const SPEEX_SET_PLC_TUNING: i32 = 40;

pub const SPEEX_GET_PLC_TUNING: i32 = 41;

pub const SPEEX_SET_VBR_MAX_BITRATE: i32 = 42;

pub const SPEEX_GET_VBR_MAX_BITRATE: i32 = 43;

pub const SPEEX_SET_HIGHPASS: i32 = 44;

pub const SPEEX_GET_HIGHPASS: i32 = 45;

/// Error type for the control functions of the encoder and decoder.
#[derive(Copy, Clone, PartialEq, Eq, Structural, Debug)]
pub enum ControlError {
    /// The request code passed to the control channel was not a known
    /// opcode. Carries the offending request code.
    UnknownRequest(i32),
    /// The parameter passed with the request was outside its legal range.
    InvalidParameter,
}

impl ControlError {
    /// A short human-readable description of the failure.
    pub fn message(&self) -> (r: &'static str)
        ensures
            *self is UnknownRequest ==> r@ == "unknown request type passed to a control function"@,
            *self is InvalidParameter ==> r@ == "invalid parameter"@,
    {
        match self {
            ControlError::UnknownRequest(_) => "unknown request type passed to a control function",
            ControlError::InvalidParameter => "invalid parameter",
        }
    }
}

/// Whether `v` is in the narrowband (low-layer) submode table.
pub open spec fn nb_submode_legal(v: int) -> bool {
    1 <= v <= 8
}

/// Whether `v` is in the high-layer submode table of `mode`: the wideband
/// table for WideBand, the single legal value for UltraWideBand. A
/// narrowband coder has no high layer.
pub open spec fn high_submode_legal(mode: ModeId, v: int) -> bool {
    match mode {
        ModeId::NarrowBand => true,
        ModeId::WideBand => 1 <= v <= 4,
        ModeId::UltraWideBand => v == 1,
    }
}

/// The control-channel state of one live coder instance: every value the
/// get/set protocol can reach. The numeric codec's adaptive memories are
/// engine-internal and not part of this state.
#[derive(Copy, Clone, PartialEq, Eq, Structural, Debug)]
pub struct CoderState {
    pub mode: ModeId,
    pub low_submode: i32,
    pub high_submode: i32,
    pub enhancement: bool,
    pub quality: i32,
    pub vbr: bool,
    pub vad: bool,
    pub abr: i32,
    pub bitrate: i32,
    pub sampling_rate: i32,
    pub complexity: i32,
    pub submode_encoding: bool,
    pub lookahead: i32,
    pub plc_tuning: i32,
    pub vbr_max_bitrate: i32,
    pub highpass: bool,
}

/// Well-formedness of a coder's control state: the selected submodes are
/// in their mode's tables.
pub open spec fn state_wf(s: CoderState) -> bool {
    &&& nb_submode_legal(s.low_submode as int)
    &&& high_submode_legal(s.mode, s.high_submode as int)
}

/// Quality values are clamped to `0..=10`.
pub open spec fn clamp_quality(v: int) -> int {
    if v < 0 {
        0
    } else if v > 10 {
        10
    } else {
        v
    }
}

impl CoderState {
    /// The control state a freshly created coder of the given mode is in.
    pub open spec fn initial_spec(mode: ModeId) -> CoderState {
        CoderState {
            mode,
            low_submode: 5,
            high_submode: match mode {
                ModeId::NarrowBand => 1,
                ModeId::WideBand => 3,
                ModeId::UltraWideBand => 1,
            },
            enhancement: true,
            quality: 8,
            vbr: false,
            vad: false,
            abr: 0,
            bitrate: 0,
            sampling_rate: match mode {
                ModeId::NarrowBand => 8000,
                ModeId::WideBand => 16000,
                ModeId::UltraWideBand => 32000,
            },
            complexity: 2,
            submode_encoding: true,
            lookahead: 0,
            plc_tuning: 0,
            vbr_max_bitrate: 0,
            highpass: true,
        }
    }

    /// Builds the initial control state of the given mode.
    pub fn initial(mode: ModeId) -> (r: CoderState)
        ensures
            r == CoderState::initial_spec(mode),
            state_wf(r),
    {
        CoderState {
            mode,
            low_submode: 5,
            high_submode: match mode {
                ModeId::NarrowBand => 1,
                ModeId::WideBand => 3,
                ModeId::UltraWideBand => 1,
            },
            enhancement: true,
            quality: 8,
            vbr: false,
            vad: false,
            abr: 0,
            bitrate: 0,
            sampling_rate: match mode {
                ModeId::NarrowBand => 8000,
                ModeId::WideBand => 16000,
                ModeId::UltraWideBand => 32000,
            },
            complexity: 2,
            submode_encoding: true,
            lookahead: 0,
            plc_tuning: 0,
            vbr_max_bitrate: 0,
            highpass: true,
        }
    }
}

/// What one control request does: from a pre-state and the slot's value,
/// the post-state, the slot's value after the call, and the result.
///
/// Set-requests store their argument (quality is clamped to `0..=10`;
/// submode indices outside their table are rejected with
/// `InvalidParameter`); get-requests write the stored value into the
/// slot; a request for the high layer of a narrowband coder, or an opcode
/// not in the protocol, is rejected with `UnknownRequest`.
pub open spec fn ctl_spec(pre: CoderState, request: i32, arg: i32) -> (
    CoderState,
    i32,
    Result<(), ControlError>,
) {
    if request == SPEEX_SET_ENH {
        (CoderState { enhancement: arg != 0, ..pre }, arg, Ok(()))
    } else if request == SPEEX_GET_ENH {
        (
            pre,
            if pre.enhancement {
                1
            } else {
                0
            },
            Ok(()),
        )
    } else if request == SPEEX_GET_FRAME_SIZE {
        (pre, pre.mode.frame_size_spec() as i32, Ok(()))
    } else if request == SPEEX_SET_QUALITY {
        (CoderState { quality: clamp_quality(arg as int) as i32, ..pre }, arg, Ok(()))
    } else if request == SPEEX_SET_LOW_MODE {
        if nb_submode_legal(arg as int) {
            (CoderState { low_submode: arg, ..pre }, arg, Ok(()))
        } else {
            (pre, arg, Err(ControlError::InvalidParameter))
        }
    } else if request == SPEEX_GET_LOW_MODE {
        (pre, pre.low_submode, Ok(()))
    } else if request == SPEEX_SET_HIGH_MODE {
        if pre.mode is NarrowBand {
            (pre, arg, Err(ControlError::UnknownRequest(request)))
        } else if high_submode_legal(pre.mode, arg as int) {
            (CoderState { high_submode: arg, ..pre }, arg, Ok(()))
        } else {
            (pre, arg, Err(ControlError::InvalidParameter))
        }
    } else if request == SPEEX_GET_HIGH_MODE {
        if pre.mode is NarrowBand {
            (pre, arg, Err(ControlError::UnknownRequest(request)))
        } else {
            (pre, pre.high_submode, Ok(()))
        }
    } else if request == SPEEX_SET_VBR {
        (CoderState { vbr: arg != 0, ..pre }, arg, Ok(()))
    } else if request == SPEEX_GET_VBR {
        (
            pre,
            if pre.vbr {
                1
            } else {
                0
            },
            Ok(()),
        )
    } else if request == SPEEX_SET_COMPLEXITY {
        (CoderState { complexity: arg, ..pre }, arg, Ok(()))
    } else if request == SPEEX_GET_COMPLEXITY {
        (pre, pre.complexity, Ok(()))
    } else if request == SPEEX_SET_BITRATE {
        (CoderState { bitrate: arg, ..pre }, arg, Ok(()))
    } else if request == SPEEX_GET_BITRATE {
        (pre, pre.bitrate, Ok(()))
    } else if request == SPEEX_SET_SAMPLING_RATE {
        (CoderState { sampling_rate: arg, ..pre }, arg, Ok(()))
    } else if request == SPEEX_GET_SAMPLING_RATE {
        (pre, pre.sampling_rate, Ok(()))
    } else if request == SPEEX_RESET_STATE {
        (pre, arg, Ok(()))
    } else if request == SPEEX_SET_VAD {
        (CoderState { vad: arg != 0, ..pre }, arg, Ok(()))
    } else if request == SPEEX_GET_VAD {
        (
            pre,
            if pre.vad {
                1
            } else {
                0
            },
            Ok(()),
        )
    } else if request == SPEEX_SET_ABR {
        (CoderState { abr: arg, ..pre }, arg, Ok(()))
    } else if request == SPEEX_GET_ABR {
        (pre, pre.abr, Ok(()))
    } else if request == SPEEX_SET_SUBMODE_ENCODING {
        (CoderState { submode_encoding: arg != 0, ..pre }, arg, Ok(()))
    } else if request == SPEEX_GET_SUBMODE_ENCODING {
        (
            pre,
            if pre.submode_encoding {
                1
            } else {
                0
            },
            Ok(()),
        )
    } else if request == SPEEX_GET_LOOKAHEAD {
        (pre, pre.lookahead, Ok(()))
    } else if request == SPEEX_SET_PLC_TUNING {
        (CoderState { plc_tuning: arg, ..pre }, arg, Ok(()))
    } else if request == SPEEX_GET_PLC_TUNING {
        (pre, pre.plc_tuning, Ok(()))
    } else if request == SPEEX_SET_VBR_MAX_BITRATE {
        (CoderState { vbr_max_bitrate: arg, ..pre }, arg, Ok(()))
    } else if request == SPEEX_GET_VBR_MAX_BITRATE {
        (pre, pre.vbr_max_bitrate, Ok(()))
    } else if request == SPEEX_SET_HIGHPASS {
        (CoderState { highpass: arg != 0, ..pre }, arg, Ok(()))
    } else if request == SPEEX_GET_HIGHPASS {
        (
            pre,
            if pre.highpass {
                1
            } else {
                0
            },
            Ok(()),
        )
    } else {
        (pre, arg, Err(ControlError::UnknownRequest(request)))
    }
}

/// A control request never changes the coder's mode, and keeps the state
/// well-formed.
pub proof fn lemma_ctl_preserves_wf(pre: CoderState, request: i32, arg: i32)
    requires
        state_wf(pre),
    ensures
        ({
            let (post, out, r) = ctl_spec(pre, request, arg);
            state_wf(post) && post.mode == pre.mode
        }),
{
}

impl CoderState {
    /// Performs one control request on this state, exactly as `ctl_spec`
    /// describes.
    pub fn ctl(&mut self, request: i32, param: &mut i32) -> (r: Result<(), ControlError>)
        ensures
            ({
                let (post, out, res) = ctl_spec(*old(self), request, *old(param));
                *final(self) == post && *final(param) == out && r == res
            }),
    {
        if request == SPEEX_SET_ENH {
            self.enhancement = *param != 0;
            Ok(())
        } else if request == SPEEX_GET_ENH {
            *param = if self.enhancement {
                1
            } else {
                0
            };
            Ok(())
        } else if request == SPEEX_GET_FRAME_SIZE {
            *param = self.mode.get_frame_size();
            Ok(())
        } else if request == SPEEX_SET_QUALITY {
            self.quality = if *param < 0 {
                0
            } else if *param > 10 {
                10
            } else {
                *param
            };
            Ok(())
        } else if request == SPEEX_SET_LOW_MODE {
            if 1 <= *param && *param <= 8 {
                self.low_submode = *param;
                Ok(())
            } else {
                Err(ControlError::InvalidParameter)
            }
        } else if request == SPEEX_GET_LOW_MODE {
            *param = self.low_submode;
            Ok(())
        } else if request == SPEEX_SET_HIGH_MODE {
            match self.mode {
                ModeId::NarrowBand => Err(ControlError::UnknownRequest(request)),
                ModeId::WideBand => {
                    if 1 <= *param && *param <= 4 {
                        self.high_submode = *param;
                        Ok(())
                    } else {
                        Err(ControlError::InvalidParameter)
                    }
                },
                ModeId::UltraWideBand => {
                    if *param == 1 {
                        self.high_submode = *param;
                        Ok(())
                    } else {
                        Err(ControlError::InvalidParameter)
                    }
                },
            }
        } else if request == SPEEX_GET_HIGH_MODE {
            match self.mode {
                ModeId::NarrowBand => Err(ControlError::UnknownRequest(request)),
                _ => {
                    *param = self.high_submode;
                    Ok(())
                },
            }
        } else if request == SPEEX_SET_VBR {
            self.vbr = *param != 0;
            Ok(())
        } else if request == SPEEX_GET_VBR {
            *param = if self.vbr {
                1
            } else {
                0
            };
            Ok(())
        } else if request == SPEEX_SET_COMPLEXITY {
            self.complexity = *param;
            Ok(())
        } else if request == SPEEX_GET_COMPLEXITY {
            *param = self.complexity;
            Ok(())
        } else if request == SPEEX_SET_BITRATE {
            self.bitrate = *param;
            Ok(())
        } else if request == SPEEX_GET_BITRATE {
            *param = self.bitrate;
            Ok(())
        } else if request == SPEEX_SET_SAMPLING_RATE {
            self.sampling_rate = *param;
            Ok(())
        } else if request == SPEEX_GET_SAMPLING_RATE {
            *param = self.sampling_rate;
            Ok(())
        } else if request == SPEEX_RESET_STATE {
            Ok(())
        } else if request == SPEEX_SET_VAD {
            self.vad = *param != 0;
            Ok(())
        } else if request == SPEEX_GET_VAD {
            *param = if self.vad {
                1
            } else {
                0
            };
            Ok(())
        } else if request == SPEEX_SET_ABR {
            self.abr = *param;
            Ok(())
        } else if request == SPEEX_GET_ABR {
            *param = self.abr;
            Ok(())
        } else if request == SPEEX_SET_SUBMODE_ENCODING {
            self.submode_encoding = *param != 0;
            Ok(())
        } else if request == SPEEX_GET_SUBMODE_ENCODING {
            *param = if self.submode_encoding {
                1
            } else {
                0
            };
            Ok(())
        } else if request == SPEEX_GET_LOOKAHEAD {
            *param = self.lookahead;
            Ok(())
        } else if request == SPEEX_SET_PLC_TUNING {
            self.plc_tuning = *param;
            Ok(())
        } else if request == SPEEX_GET_PLC_TUNING {
            *param = self.plc_tuning;
            Ok(())
        } else if request == SPEEX_SET_VBR_MAX_BITRATE {
            self.vbr_max_bitrate = *param;
            Ok(())
        } else if request == SPEEX_GET_VBR_MAX_BITRATE {
            *param = self.vbr_max_bitrate;
            Ok(())
        } else if request == SPEEX_SET_HIGHPASS {
            self.highpass = *param != 0;
            Ok(())
        } else if request == SPEEX_GET_HIGHPASS {
            *param = if self.highpass {
                1
            } else {
                0
            };
            Ok(())
        } else {
            Err(ControlError::UnknownRequest(request))
        }
    }
}

/// Marker bound for the types that carry the control functions; the
/// coders of this crate implement it.
pub trait Sealed {

}

/// Trait for the control functions of the encoder and decoder.
///
/// This trait is implemented for both the encoder and the decoder, and
/// provides a common interface for the control functions of both. `ctl`
/// is the only function an implementor must supply; every accessor is
/// built purely in terms of it.
pub trait ControlFunctions: Sealed {
    /// The control-channel state the implementor drives.
    spec fn cstate(&self) -> CoderState;

    /// Sends one request through the control channel, exactly as
    /// `ctl_spec` describes.
    fn ctl(&mut self, request: i32, param: &mut i32) -> (r: Result<(), ControlError>)
        ensures
            ({
                let (post, out, res) = ctl_spec(old(self).cstate(), request, *old(param));
                final(self).cstate() == post && *final(param) == out && r == res
            }),
    ;

    /// Translates an engine status code into a typed result: `0` is
    /// success, `-1` an unknown request (carrying the offending request
    /// code), `-2` an invalid parameter. Any other status is an
    /// engine/binding mismatch and is ruled out by the precondition.
    fn check_error(err_code: i32, param: Option<i32>) -> (r: Result<(), ControlError>)
        requires
            -2 <= err_code <= 0,
            err_code == -1 ==> param is Some,
        ensures
            err_code == 0 ==> r is Ok,
            err_code == -1 ==> r == Result::<(), ControlError>::Err(
                ControlError::UnknownRequest(param->0),
            ),
            err_code == -2 ==> r == Result::<(), ControlError>::Err(
                ControlError::InvalidParameter,
            ),
    {
        if err_code == 0 {
            Ok(())
        } else if err_code == -1 {
            match param {
                Some(p) => Err(ControlError::UnknownRequest(p)),
                None => Err(ControlError::InvalidParameter),
            }
        } else {
            Err(ControlError::InvalidParameter)
        }
    }

    /// Gets the frame size (in samples) of the encoder/decoder.
    fn get_frame_size(&mut self) -> (r: i32)
        ensures
            final(self).cstate() == old(self).cstate(),
            r == old(self).cstate().mode.frame_size_spec(),
    {
        let mut state: i32 = 0;
        let _ = self.ctl(SPEEX_GET_FRAME_SIZE, &mut state);
        state
    }

    /// Sets whether Variable BitRate is enabled or not.
    fn set_vbr(&mut self, vbr: bool)
        ensures
            final(self).cstate() == (CoderState { vbr, ..old(self).cstate() }),
    {
        let mut state: i32 = if vbr {
            1
        } else {
            0
        };
        let _ = self.ctl(SPEEX_SET_VBR, &mut state);
    }

    /// Gets whether Variable BitRate is enabled or not.
    fn get_vbr(&mut self) -> (r: bool)
        ensures
            final(self).cstate() == old(self).cstate(),
            r == old(self).cstate().vbr,
    {
        let mut state: i32 = 0;
        let _ = self.ctl(SPEEX_GET_VBR, &mut state);
        state != 0
    }

    /// Sets whether Voice Activity Detection is enabled or not.
    fn set_vad(&mut self, vad: bool)
        ensures
            final(self).cstate() == (CoderState { vad, ..old(self).cstate() }),
    {
        let mut state: i32 = if vad {
            1
        } else {
            0
        };
        let _ = self.ctl(SPEEX_SET_VAD, &mut state);
    }

    /// Gets whether Voice Activity Detection is enabled or not.
    fn get_vad(&mut self) -> (r: bool)
        ensures
            final(self).cstate() == old(self).cstate(),
            r == old(self).cstate().vad,
    {
        let mut state: i32 = 0;
        let _ = self.ctl(SPEEX_GET_VAD, &mut state);
        state != 0
    }

    /// Sets the Average BitRate of the encoder/decoder.
    fn set_abr(&mut self, abr: i32)
        ensures
            final(self).cstate() == (CoderState { abr, ..old(self).cstate() }),
    {
        let mut state: i32 = abr;
        let _ = self.ctl(SPEEX_SET_ABR, &mut state);
    }

    /// Gets the Average BitRate of the encoder/decoder.
    fn get_abr(&mut self) -> (r: i32)
        ensures
            final(self).cstate() == old(self).cstate(),
            r == old(self).cstate().abr,
    {
        let mut state: i32 = 0;
        let _ = self.ctl(SPEEX_GET_ABR, &mut state);
        state
    }

    /// Sets the overall quality of the encoder/decoder.
    /// The value is clamped to between 0 and 10, with 10 being the
    /// highest quality. Default is 8.
    fn set_quality(&mut self, quality: i32)
        ensures
            final(self).cstate() == (CoderState {
                quality: clamp_quality(quality as int) as i32,
                ..old(self).cstate()
            }),
    {
        let mut state: i32 = quality;
        let _ = self.ctl(SPEEX_SET_QUALITY, &mut state);
    }

    /// Sets the current bitrate of the encoder/decoder.
    fn set_bitrate(&mut self, bitrate: i32)
        ensures
            final(self).cstate() == (CoderState { bitrate, ..old(self).cstate() }),
    {
        let mut state: i32 = bitrate;
        let _ = self.ctl(SPEEX_SET_BITRATE, &mut state);
    }

    /// Gets the current bitrate of the encoder/decoder.
    fn get_bitrate(&mut self) -> (r: i32)
        ensures
            final(self).cstate() == old(self).cstate(),
            r == old(self).cstate().bitrate,
    {
        let mut state: i32 = 0;
        let _ = self.ctl(SPEEX_GET_BITRATE, &mut state);
        state
    }

    /// Sets the sampling rate used for bitrate computation.
    fn set_sampling_rate(&mut self, samplingrate: i32)
        ensures
            final(self).cstate() == (CoderState {
                sampling_rate: samplingrate,
                ..old(self).cstate()
            }),
    {
        let mut state: i32 = samplingrate;
        let _ = self.ctl(SPEEX_SET_SAMPLING_RATE, &mut state);
    }

    /// Gets the sampling rate used for bitrate computation.
    fn get_sampling_rate(&mut self) -> (r: i32)
        ensures
            final(self).cstate() == old(self).cstate(),
            r == old(self).cstate().sampling_rate,
    {
        let mut state: i32 = 0;
        let _ = self.ctl(SPEEX_GET_SAMPLING_RATE, &mut state);
        state
    }

    /// Resets the encoder/decoder memories to zero. The engine-internal
    /// adaptive memories are outside this layer's state, so every value
    /// the control channel can reach is unchanged.
    fn reset_state(&mut self)
        ensures
            final(self).cstate() == old(self).cstate(),
    {
        let mut state: i32 = 0;
        let _ = self.ctl(SPEEX_RESET_STATE, &mut state);
    }

    /// Sets whether submode encoding is done in each frame.
    ///
    /// Note that false breaks the specification for the format.
    fn set_submode_encoding(&mut self, submode: bool)
        ensures
            final(self).cstate() == (CoderState {
                submode_encoding: submode,
                ..old(self).cstate()
            }),
    {
        let mut state: i32 = if submode {
            1
        } else {
            0
        };
        let _ = self.ctl(SPEEX_SET_SUBMODE_ENCODING, &mut state);
    }

    /// Gets whether submode encoding is enabled or not.
    fn get_submode_encoding(&mut self) -> (r: bool)
        ensures
            final(self).cstate() == old(self).cstate(),
            r == old(self).cstate().submode_encoding,
    {
        let mut state: i32 = 0;
        let _ = self.ctl(SPEEX_GET_SUBMODE_ENCODING, &mut state);
        state != 0
    }

    /// Gets the lookahead value currently in use by the encoder/decoder.
    ///
    /// Sum the lookahead of a decoder and the lookahead of an encoder to
    /// get the total lookahead.
    fn get_lookahead(&mut self) -> (r: i32)
        ensures
            final(self).cstate() == old(self).cstate(),
            r == old(self).cstate().lookahead,
    {
        let mut state: i32 = 0;
        let _ = self.ctl(SPEEX_GET_LOOKAHEAD, &mut state);
        state
    }

    /// Sets tuning for Packet-Loss Concealment (expected loss rate).
    fn set_plc_tuning(&mut self, tuning: i32)
        ensures
            final(self).cstate() == (CoderState { plc_tuning: tuning, ..old(self).cstate() }),
    {
        let mut state: i32 = tuning;
        let _ = self.ctl(SPEEX_SET_PLC_TUNING, &mut state);
    }

    /// Gets current Packet-Loss Concealment tuning value.
    fn get_plc_tuning(&mut self) -> (r: i32)
        ensures
            final(self).cstate() == old(self).cstate(),
            r == old(self).cstate().plc_tuning,
    {
        let mut state: i32 = 0;
        let _ = self.ctl(SPEEX_GET_PLC_TUNING, &mut state);
        state
    }

    /// Sets the max bit-rate allowed in VBR mode.
    fn set_vbr_max_bitrate(&mut self, max_bitrate: i32)
        ensures
            final(self).cstate() == (CoderState {
                vbr_max_bitrate: max_bitrate,
                ..old(self).cstate()
            }),
    {
        let mut state: i32 = max_bitrate;
        let _ = self.ctl(SPEEX_SET_VBR_MAX_BITRATE, &mut state);
    }

    /// Gets the max bit-rate allowed in VBR mode.
    fn get_vbr_max_bitrate(&mut self) -> (r: i32)
        ensures
            final(self).cstate() == old(self).cstate(),
            r == old(self).cstate().vbr_max_bitrate,
    {
        let mut state: i32 = 0;
        let _ = self.ctl(SPEEX_GET_VBR_MAX_BITRATE, &mut state);
        state
    }

    /// Enables or disables highpass filtering of the input/output.
    fn set_highpass(&mut self, highpass: bool)
        ensures
            final(self).cstate() == (CoderState { highpass, ..old(self).cstate() }),
    {
        let mut state: i32 = if highpass {
            1
        } else {
            0
        };
        let _ = self.ctl(SPEEX_SET_HIGHPASS, &mut state);
    }

    /// Gets whether highpass filtering of the input/output is enabled.
    fn get_highpass(&mut self) -> (r: bool)
        ensures
            final(self).cstate() == old(self).cstate(),
            r == old(self).cstate().highpass,
    {
        let mut state: i32 = 0;
        let _ = self.ctl(SPEEX_GET_HIGHPASS, &mut state);
        state != 0
    }
}

/// Setting the high-layer submode of a wideband coder and reading it back
/// yields the value just set, for every legal value.
pub proof fn lemma_high_submode_roundtrip(s: CoderState, x: i32)
    requires
        s.mode is WideBand,
        1 <= x <= 4,
    ensures
        ({
            let (s1, out1, r1) = ctl_spec(s, SPEEX_SET_HIGH_MODE, x);
            let (s2, out2, r2) = ctl_spec(s1, SPEEX_GET_HIGH_MODE, 0);
            r1 == Ok::<(), ControlError>(()) && r2 == Ok::<(), ControlError>(()) && out2 == x
        }),
{
}

} // verus!
