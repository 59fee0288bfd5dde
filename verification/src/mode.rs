//! Coder modes, their static descriptors, and the submode tables.
//!
//! A mode fixes the frame size and sampling rate of a coder; a submode is
//! a bitrate/quality variant within a mode, selectable per layer. The
//! wide modes embed a narrowband submode as their low layer; WideBand
//! additionally carries a high-layer submode of its own, and
//! UltraWideBand's high layer has exactly one legal submode value.

use vstd::prelude::*;

verus! {

/// Possible modes for the encoder and decoder.
#[derive(Copy, Clone, PartialEq, Eq, Structural, Debug)]
pub enum ModeId {
    NarrowBand,
    WideBand,
    UltraWideBand,
}

impl ModeId {
    /// The integer code of this mode on the engine boundary.
    pub open spec fn id_spec(self) -> int {
        match self {
            ModeId::NarrowBand => 0,
            ModeId::WideBand => 1,
            ModeId::UltraWideBand => 2,
        }
    }

    /// Samples per coded frame of this mode.
    pub open spec fn frame_size_spec(self) -> int {
        match self {
            ModeId::NarrowBand => 160,
            ModeId::WideBand => 320,
            ModeId::UltraWideBand => 640,
        }
    }

    /// The sampling rate (Hz) this mode is built for.
    pub open spec fn sampling_rate_spec(self) -> int {
        match self {
            ModeId::NarrowBand => 8000,
            ModeId::WideBand => 16000,
            ModeId::UltraWideBand => 32000,
        }
    }

    /// The integer code of this mode on the engine boundary.
    pub fn to_id(self) -> (r: i32)
        ensures
            r == self.id_spec(),
    {
        match self {
            ModeId::NarrowBand => 0,
            ModeId::WideBand => 1,
            ModeId::UltraWideBand => 2,
        }
    }

    /// The mode an integer code stands for, if it is a legal code.
    pub fn from_id(value: i32) -> (r: Option<ModeId>)
        ensures
            r is Some <==> 0 <= value <= 2,
            r is Some ==> r->0.id_spec() == value,
    {
        match value {
            0 => Some(ModeId::NarrowBand),
            1 => Some(ModeId::WideBand),
            2 => Some(ModeId::UltraWideBand),
            _ => None,
        }
    }

    /// Samples per coded frame of this mode.
    pub fn get_frame_size(self) -> (r: i32)
        ensures
            r == self.frame_size_spec(),
    {
        match self {
            ModeId::NarrowBand => 160,
            ModeId::WideBand => 320,
            ModeId::UltraWideBand => 640,
        }
    }

    /// The static descriptor of this mode.
    pub fn get_mode(self) -> (r: SpeexMode)
        ensures
            r.mode_id == self,
            r.frame_size == self.frame_size_spec(),
            r.bitstream_version == 4,
    {
        SpeexMode { mode_id: self, frame_size: self.get_frame_size(), bitstream_version: 4 }
    }
}

/// Static descriptor of a coder mode: read-only, process-wide constant
/// data with no mutable state.
#[derive(Copy, Clone, PartialEq, Eq, Structural, Debug)]
pub struct SpeexMode {
    pub mode_id: ModeId,
    pub frame_size: i32,
    pub bitstream_version: i32,
}

impl SpeexMode {
    /// The descriptor of the given mode.
    pub fn new(mode_id: ModeId) -> (r: Self)
        ensures
            r.mode_id == mode_id,
            r.frame_size == mode_id.frame_size_spec(),
            r.bitstream_version == 4,
    {
        mode_id.get_mode()
    }
}

/// Possible submodes for the narrowband mode.
///
/// As the wide modes embed a narrowband low layer, this is also the
/// low-layer submode table for those.
#[derive(Copy, Clone, PartialEq, Eq, Structural, Debug)]
pub enum NbSubmodeId {
    /// 2150 bps "vocoder-like" mode for comfort noise
    VocoderLike,
    /// 3.95 kbps very low bit-rate mode
    ExtremeLow,
    /// 5.95 kbps very low bit-rate mode
    VeryLow,
    /// 8 kbps low bit-rate mode
    Low,
    /// 11 kbps medium bit-rate mode
    Medium,
    /// 15 kbps high bit-rate mode
    High,
    /// 18.2 kbps very high bit-rate mode
    VeryHigh,
    /// 24.6 kbps very high bit-rate mode
    ExtremeHigh,
}

impl NbSubmodeId {
    /// The submode's index in the narrowband submode table.
    pub open spec fn id_spec(self) -> int {
        match self {
            NbSubmodeId::VocoderLike => 1,
            NbSubmodeId::VeryLow => 2,
            NbSubmodeId::Low => 3,
            NbSubmodeId::Medium => 4,
            NbSubmodeId::High => 5,
            NbSubmodeId::VeryHigh => 6,
            NbSubmodeId::ExtremeHigh => 7,
            NbSubmodeId::ExtremeLow => 8,
        }
    }

    /// The submode's index in the narrowband submode table.
    pub fn to_id(self) -> (r: i32)
        ensures
            r == self.id_spec(),
    {
        match self {
            NbSubmodeId::VocoderLike => 1,
            NbSubmodeId::VeryLow => 2,
            NbSubmodeId::Low => 3,
            NbSubmodeId::Medium => 4,
            NbSubmodeId::High => 5,
            NbSubmodeId::VeryHigh => 6,
            NbSubmodeId::ExtremeHigh => 7,
            NbSubmodeId::ExtremeLow => 8,
        }
    }

    /// The narrowband submode a table index stands for, if the index is
    /// in the table.
    pub fn from_id(value: i32) -> (r: Option<NbSubmodeId>)
        ensures
            r is Some <==> 1 <= value <= 8,
            r is Some ==> r->0.id_spec() == value,
    {
        match value {
            1 => Some(NbSubmodeId::VocoderLike),
            2 => Some(NbSubmodeId::VeryLow),
            3 => Some(NbSubmodeId::Low),
            4 => Some(NbSubmodeId::Medium),
            5 => Some(NbSubmodeId::High),
            6 => Some(NbSubmodeId::VeryHigh),
            7 => Some(NbSubmodeId::ExtremeHigh),
            8 => Some(NbSubmodeId::ExtremeLow),
            _ => None,
        }
    }
}

/// Possible submodes for the WideBand mode's high layer.
#[derive(Copy, Clone, PartialEq, Eq, Structural, Debug)]
pub enum WbSubmodeId {
    /// disables innovation quantization entirely
    NoQuantize,
    /// enables innovation quantization, but with a lower rate than the default
    QuantizedLow,
    /// enables innovation quantization with the default rate
    QuantizedMedium,
    /// enables innovation quantization, but with a higher rate than the default
    QuantizedHigh,
}

impl WbSubmodeId {
    /// The submode's index in the wideband submode table.
    pub open spec fn id_spec(self) -> int {
        match self {
            WbSubmodeId::NoQuantize => 1,
            WbSubmodeId::QuantizedLow => 2,
            WbSubmodeId::QuantizedMedium => 3,
            WbSubmodeId::QuantizedHigh => 4,
        }
    }

    /// The submode's index in the wideband submode table.
    pub fn to_id(self) -> (r: i32)
        ensures
            r == self.id_spec(),
    {
        match self {
            WbSubmodeId::NoQuantize => 1,
            WbSubmodeId::QuantizedLow => 2,
            WbSubmodeId::QuantizedMedium => 3,
            WbSubmodeId::QuantizedHigh => 4,
        }
    }

    /// The wideband submode a table index stands for, if the index is in
    /// the table.
    pub fn from_id(value: i32) -> (r: Option<WbSubmodeId>)
        ensures
            r is Some <==> 1 <= value <= 4,
            r is Some ==> r->0.id_spec() == value,
    {
        match value {
            1 => Some(WbSubmodeId::NoQuantize),
            2 => Some(WbSubmodeId::QuantizedLow),
            3 => Some(WbSubmodeId::QuantizedMedium),
            4 => Some(WbSubmodeId::QuantizedHigh),
            _ => None,
        }
    }
}

/// The submode of the UltraWideBand mode's high layer.
///
/// While this is an enum, the ultra-wideband high layer has exactly one
/// legal submode, so it is effectively a constant.
#[derive(Copy, Clone, PartialEq, Eq, Structural, Debug)]
pub enum UwbSubmodeId {
    Only,
}

impl UwbSubmodeId {
    /// The submode's index in the high-layer submode table.
    pub open spec fn id_spec(self) -> int {
        1
    }

    /// The submode's index in the high-layer submode table.
    pub fn to_id(self) -> (r: i32)
        ensures
            r == self.id_spec(),
    {
        1
    }

    /// The ultra-wideband high-layer submode a table index stands for, if
    /// the index is legal.
    pub fn from_id(value: i32) -> (r: Option<UwbSubmodeId>)
        ensures
            r is Some <==> value == 1,
            r is Some ==> r->0.id_spec() == value,
    {
        if value == 1 {
            Some(UwbSubmodeId::Only)
        } else {
            None
        }
    }
}

/// Marker trait used to specify the mode of the de/encoder at compile
/// time.
pub trait CoderMode {
    /// The mode this marker stands for.
    spec fn mode_spec() -> ModeId;
}

/// Narrowband mode (8kHz).
///
/// This is a marker type used to specify the mode of the de/encoder.
pub struct NbMode;

impl CoderMode for NbMode {
    open spec fn mode_spec() -> ModeId {
        ModeId::NarrowBand
    }
}

/// Wideband mode (16kHz).
///
/// This is a marker type used to specify the mode of the de/encoder.
pub struct WbMode;

impl CoderMode for WbMode {
    open spec fn mode_spec() -> ModeId {
        ModeId::WideBand
    }
}

/// Ultra-wideband mode (32kHz).
///
/// This is a marker type used to specify the mode of the de/encoder.
pub struct UwbMode;

impl CoderMode for UwbMode {
    open spec fn mode_spec() -> ModeId {
        ModeId::UltraWideBand
    }
}

} // verus!
