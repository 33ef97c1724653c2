//! The privileged registers of the Graphics Synthesizer.
//!
//! Each register is a 64-bit word at a fixed address, made of bit fields. A
//! type of this module holds such a word, reads its fields and builds new
//! words field by field. A value that is too large for its field is cut down
//! to the field's width, and writing one field never changes another.
//!
//! Nothing here touches the hardware. `store` gives the write that is to be
//! made, as an address and a value, and `load` takes the value that was read.

pub mod display;
pub mod feedback;
pub mod mode;
pub mod status;
pub mod sync;

pub use self::display::{
    BgcolorFields, DispfbFields, DisplayFields, BGCOLOR, DISPFB1, DISPFB2, DISPLAY1, DISPLAY2,
};
pub use self::feedback::{ExtbufFields, ExtdataFields, ExtwriteFields, EXTBUF, EXTDATA, EXTWRITE};
pub use self::mode::{
    PmodeFields, Smode1Fields, Smode2Fields, SrfshFields, PMODE, SMODE1, SMODE2, SRFSH,
};
pub use self::status::{
    BusdirFields, CsrFields, ImrFields, SiglblidFields, BUSDIR, CSR, IMR, SIGLBLID,
};
pub use self::sync::{Synch1Fields, Synch2Fields, SyncvFields, SYNCH1, SYNCH2, SYNCV};
use vstd::prelude::*;

verus! {

/// Where PMODE lies.
pub const PMODE_ADDR: u32 = 0x1200_0000;

/// Where SMODE1 lies.
pub const SMODE1_ADDR: u32 = 0x1200_0010;

/// Where SMODE2 lies.
pub const SMODE2_ADDR: u32 = 0x1200_0020;

/// Where SRFSH lies.
pub const SRFSH_ADDR: u32 = 0x1200_0030;

/// Where SYNCH1 lies.
pub const SYNCH1_ADDR: u32 = 0x1200_0040;

/// Where SYNCH2 lies.
pub const SYNCH2_ADDR: u32 = 0x1200_0050;

/// Where SYNCV lies.
pub const SYNCV_ADDR: u32 = 0x1200_0060;

/// Where DISPFB1 lies.
pub const DISPFB1_ADDR: u32 = 0x1200_0070;

/// Where DISPLAY1 lies.
pub const DISPLAY1_ADDR: u32 = 0x1200_0080;

/// Where DISPFB2 lies.
pub const DISPFB2_ADDR: u32 = 0x1200_0090;

/// Where DISPLAY2 lies.
pub const DISPLAY2_ADDR: u32 = 0x1200_00A0;

/// Where BGCOLOR lies.
pub const BGCOLOR_ADDR: u32 = 0x1200_00E0;

/// Where EXTBUF lies.
pub const EXTBUF_ADDR: u32 = 0x1200_00B0;

/// Where EXTDATA lies.
pub const EXTDATA_ADDR: u32 = 0x1200_00C0;

/// Where EXTWRITE lies.
pub const EXTWRITE_ADDR: u32 = 0x1200_00D0;

/// Where CSR lies.
pub const CSR_ADDR: u32 = 0x1200_1000;

/// Where IMR lies.
pub const IMR_ADDR: u32 = 0x1200_1010;

/// Where BUSDIR lies.
pub const BUSDIR_ADDR: u32 = 0x1200_1040;

/// Where SIGLBLID lies.
pub const SIGLBLID_ADDR: u32 = 0x1200_1080;

/// One write to a privileged register: the register's address and the word
/// that goes there.
#[derive(Clone, Copy, Debug, PartialEq, Eq, Structural)]
pub struct RegisterWrite {
    /// The physical address of the register.
    pub address: u32,
    /// The word to write.
    pub value: u64,
}

} // verus!
