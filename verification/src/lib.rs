//! A safe, verified abstraction layer over a Speex-style speech codec engine.
//!
//! The crate provides a packed-bit read/write buffer used to serialize coded
//! audio frames, and a mode-parameterized control interface for driving a
//! coder instance. The numeric signal-processing codec itself is an external
//! collaborator and out of scope; this layer owns the bit-level framing, the
//! control-channel protocol, the error taxonomy, and the ownership discipline
//! around coder handles.

pub mod bits;
pub mod control;
pub mod decoder;
pub mod encoder;
pub mod header;
pub mod mode;

pub use bits::BitsError;
pub use bits::SpeexBits;
pub use control::ControlError;
pub use control::ControlFunctions;
pub use control::Sealed;
pub use decoder::DecoderError;
pub use decoder::SpeexDecoder;
pub use decoder::SpeexDecoderHandle;
pub use encoder::DynamicEncoder;
pub use encoder::SpeexEncoder;
pub use encoder::SpeexEncoderHandle;
pub use header::Header;
pub use header::SpeexHeader;
pub use mode::CoderMode;
pub use mode::ModeId;
pub use mode::NbMode;
pub use mode::NbSubmodeId;
pub use mode::SpeexMode;
pub use mode::UwbMode;
pub use mode::UwbSubmodeId;
pub use mode::WbMode;
pub use mode::WbSubmodeId;

use vstd::prelude::*;

verus! {

/// Coder mode selector for stream-level metadata.
#[derive(Copy, Clone, Eq, PartialEq, Structural, Debug)]
pub enum Mode {
    Narrowband,
    Wideband,
    UltraWideband,
}

impl Mode {
    /// The integer code used for this mode in serialized headers.
    pub fn to_id(self) -> (r: i32)
        ensures
            r == self.id_spec(),
    {
        match self {
            Mode::Narrowband => 0,
            Mode::Wideband => 1,
            Mode::UltraWideband => 2,
        }
    }

    /// The mode a serialized integer code stands for, if it is a legal code.
    pub fn from_id(value: i32) -> (r: Option<Mode>)
        ensures
            r == Mode::from_id_spec(value),
    {
        match value {
            0 => Some(Mode::Narrowband),
            1 => Some(Mode::Wideband),
            2 => Some(Mode::UltraWideband),
            _ => None,
        }
    }

    pub open spec fn id_spec(self) -> int {
        match self {
            Mode::Narrowband => 0,
            Mode::Wideband => 1,
            Mode::UltraWideband => 2,
        }
    }

    pub open spec fn from_id_spec(value: i32) -> Option<Mode> {
        if value == 0 {
            Some(Mode::Narrowband)
        } else if value == 1 {
            Some(Mode::Wideband)
        } else if value == 2 {
            Some(Mode::UltraWideband)
        } else {
            None
        }
    }
}

} // verus!
