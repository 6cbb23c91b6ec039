//! The UARTE register block: every register with its byte offset and access
//! discipline, every bitfield with its position and width, and the
//! operations on the block that the driver hands out to be performed.

use vstd::prelude::*;
use crate::regs::Field;

verus! {

/// Physical address of the first register of the block.
pub const UARTE_BASE: u32 = 0x4000_2000;

/// Size of the block in bytes: the last register ends here.
pub const UARTE_BLOCK_SIZE: u32 = 0x570;

/// How software may touch a register.
#[derive(Clone, Copy, Debug, PartialEq, Eq, Structural)]
pub enum Access {
    /// A task trigger: writing 1 issues the command, reading means nothing.
    WriteOnly,
    /// An event flag or a counter that the hardware sets.
    ReadOnly,
    /// A configuration register.
    ReadWrite,
}

/// The registers of the block.
#[derive(Clone, Copy, Debug, PartialEq, Eq, Structural)]
pub enum Register {
    TaskStartRx,
    TaskStopRx,
    TaskStartTx,
    TaskStopTx,
    TaskFlushRx,
    EventCts,
    EventNcts,
    EventEndRx,
    EventEndTx,
    EventError,
    EventRxTo,
    EventRxStarted,
    EventTxStarted,
    EventTxStopped,
    Shorts,
    IntenSet,
    IntenClr,
    ErrorSrc,
    Enable,
    PselRts,
    PselTxd,
    PselCts,
    PselRxd,
    Baudrate,
    RxdPtr,
    RxdMaxCnt,
    RxdAmount,
    TxdPtr,
    TxdMaxCnt,
    TxdAmount,
    Config,
}

impl Register {
    /// Byte offset of the register from the base of the block.
    pub open spec fn offset_spec(self) -> u32 {
        match self {
            Register::TaskStartRx => 0x000,
            Register::TaskStopRx => 0x004,
            Register::TaskStartTx => 0x008,
            Register::TaskStopTx => 0x00C,
            Register::TaskFlushRx => 0x02C,
            Register::EventCts => 0x100,
            Register::EventNcts => 0x104,
            Register::EventEndRx => 0x110,
            Register::EventEndTx => 0x120,
            Register::EventError => 0x124,
            Register::EventRxTo => 0x144,
            Register::EventRxStarted => 0x14C,
            Register::EventTxStarted => 0x150,
            Register::EventTxStopped => 0x158,
            Register::Shorts => 0x200,
            Register::IntenSet => 0x304,
            Register::IntenClr => 0x308,
            Register::ErrorSrc => 0x480,
            Register::Enable => 0x500,
            Register::PselRts => 0x508,
            Register::PselTxd => 0x50C,
            Register::PselCts => 0x510,
            Register::PselRxd => 0x514,
            Register::Baudrate => 0x524,
            Register::RxdPtr => 0x534,
            Register::RxdMaxCnt => 0x538,
            Register::RxdAmount => 0x53C,
            Register::TxdPtr => 0x544,
            Register::TxdMaxCnt => 0x548,
            Register::TxdAmount => 0x54C,
            Register::Config => 0x56C,
        }
    }

    /// The access discipline of the register.
    pub open spec fn access_spec(self) -> Access {
        match self {
            Register::TaskStartRx
            | Register::TaskStopRx
            | Register::TaskStartTx
            | Register::TaskStopTx
            | Register::TaskFlushRx => Access::WriteOnly,
            Register::EventCts
            | Register::EventNcts
            | Register::EventEndRx
            | Register::EventEndTx
            | Register::EventError
            | Register::EventRxTo
            | Register::EventRxStarted
            | Register::EventTxStarted
            | Register::EventTxStopped
            | Register::RxdAmount
            | Register::TxdAmount => Access::ReadOnly,
            _ => Access::ReadWrite,
        }
    }

    /// Whether software may write the register.
    pub open spec fn writable(self) -> bool {
        self.access_spec() != Access::ReadOnly
    }

    /// Whether software may read the register.
    pub open spec fn readable(self) -> bool {
        self.access_spec() != Access::WriteOnly
    }

    /// Byte offset of the register from the base of the block. It is a
    /// multiple of the word size and lies inside the block.
    pub fn offset(self) -> (off: u32)
        ensures
            off == self.offset_spec(),
            off % 4 == 0,
            off + 4 <= UARTE_BLOCK_SIZE,
    {
        match self {
            Register::TaskStartRx => 0x000,
            Register::TaskStopRx => 0x004,
            Register::TaskStartTx => 0x008,
            Register::TaskStopTx => 0x00C,
            Register::TaskFlushRx => 0x02C,
            Register::EventCts => 0x100,
            Register::EventNcts => 0x104,
            Register::EventEndRx => 0x110,
            Register::EventEndTx => 0x120,
            Register::EventError => 0x124,
            Register::EventRxTo => 0x144,
            Register::EventRxStarted => 0x14C,
            Register::EventTxStarted => 0x150,
            Register::EventTxStopped => 0x158,
            Register::Shorts => 0x200,
            Register::IntenSet => 0x304,
            Register::IntenClr => 0x308,
            Register::ErrorSrc => 0x480,
            Register::Enable => 0x500,
            Register::PselRts => 0x508,
            Register::PselTxd => 0x50C,
            Register::PselCts => 0x510,
            Register::PselRxd => 0x514,
            Register::Baudrate => 0x524,
            Register::RxdPtr => 0x534,
            Register::RxdMaxCnt => 0x538,
            Register::RxdAmount => 0x53C,
            Register::TxdPtr => 0x544,
            Register::TxdMaxCnt => 0x548,
            Register::TxdAmount => 0x54C,
            Register::Config => 0x56C,
        }
    }

    /// Physical address of the register.
    pub fn address(self) -> (addr: u32)
        ensures
            addr == UARTE_BASE + self.offset_spec(),
    {
        UARTE_BASE + self.offset()
    }

    /// The access discipline of the register.
    pub fn access(self) -> (a: Access)
        ensures
            a == self.access_spec(),
    {
        match self {
            Register::TaskStartRx
            | Register::TaskStopRx
            | Register::TaskStartTx
            | Register::TaskStopTx
            | Register::TaskFlushRx => Access::WriteOnly,
            Register::EventCts
            | Register::EventNcts
            | Register::EventEndRx
            | Register::EventEndTx
            | Register::EventError
            | Register::EventRxTo
            | Register::EventRxStarted
            | Register::EventTxStarted
            | Register::EventTxStopped
            | Register::RxdAmount
            | Register::TxdAmount => Access::ReadOnly,
            _ => Access::ReadWrite,
        }
    }
}

/// Two registers never share an offset.
pub proof fn lemma_offsets_distinct(a: Register, b: Register)
    requires
        a != b,
    ensures
        a.offset_spec() != b.offset_spec(),
{
}

/// The named bitfields of the block's registers.
#[derive(Clone, Copy, Debug, PartialEq, Eq, Structural)]
pub enum Bitfield {
    /// Task registers: the trigger bit.
    TaskEnable,
    /// Event registers: the flag bit.
    EventReady,
    /// SHORTS: shortcut between ENDRX and STARTRX.
    ShortsEndRxStartRx,
    /// SHORTS: shortcut between ENDRX and STOPRX.
    ShortsEndRxStopRx,
    InterruptCts,
    InterruptNcts,
    InterruptEndRx,
    InterruptEndTx,
    InterruptError,
    InterruptRxTo,
    InterruptRxStarted,
    InterruptTxStarted,
    InterruptTxStopped,
    ErrorOverrun,
    ErrorParity,
    ErrorFraming,
    ErrorBreak,
    /// ENABLE: 8 switches the peripheral on, 0 switches it off.
    EnableEnable,
    /// PSEL registers: the pin number.
    PselPin,
    /// PSEL registers: 0 connects the pin, 1 disconnects it.
    PselConnect,
    BaudrateValue,
    /// DMA pointer registers: the address.
    Pointer,
    /// DMA count registers: the byte count.
    Counter,
    /// CONFIG: hardware flow control.
    ConfigHwfc,
    /// CONFIG: parity.
    ConfigParity,
}

/// Value of the ENABLE field that switches the peripheral on.
pub const ENABLE_ENABLED: u32 = 8;

/// Value of the ENABLE field that switches the peripheral off.
pub const ENABLE_DISABLED: u32 = 0;

impl Bitfield {
    /// Position and width of the field in its register word.
    pub open spec fn layout(self) -> Field {
        match self {
            Bitfield::TaskEnable => Field { shift: 0, numbits: 1 },
            Bitfield::EventReady => Field { shift: 0, numbits: 1 },
            Bitfield::ShortsEndRxStartRx => Field { shift: 5, numbits: 1 },
            Bitfield::ShortsEndRxStopRx => Field { shift: 6, numbits: 1 },
            Bitfield::InterruptCts => Field { shift: 0, numbits: 1 },
            Bitfield::InterruptNcts => Field { shift: 1, numbits: 1 },
            Bitfield::InterruptEndRx => Field { shift: 4, numbits: 1 },
            Bitfield::InterruptEndTx => Field { shift: 8, numbits: 1 },
            Bitfield::InterruptError => Field { shift: 9, numbits: 1 },
            Bitfield::InterruptRxTo => Field { shift: 17, numbits: 1 },
            Bitfield::InterruptRxStarted => Field { shift: 19, numbits: 1 },
            Bitfield::InterruptTxStarted => Field { shift: 20, numbits: 1 },
            Bitfield::InterruptTxStopped => Field { shift: 22, numbits: 1 },
            Bitfield::ErrorOverrun => Field { shift: 0, numbits: 1 },
            Bitfield::ErrorParity => Field { shift: 1, numbits: 1 },
            Bitfield::ErrorFraming => Field { shift: 2, numbits: 1 },
            Bitfield::ErrorBreak => Field { shift: 3, numbits: 1 },
            Bitfield::EnableEnable => Field { shift: 0, numbits: 4 },
            Bitfield::PselPin => Field { shift: 0, numbits: 5 },
            Bitfield::PselConnect => Field { shift: 31, numbits: 1 },
            Bitfield::BaudrateValue => Field { shift: 0, numbits: 32 },
            Bitfield::Pointer => Field { shift: 0, numbits: 32 },
            Bitfield::Counter => Field { shift: 0, numbits: 8 },
            Bitfield::ConfigHwfc => Field { shift: 0, numbits: 1 },
            Bitfield::ConfigParity => Field { shift: 1, numbits: 3 },
        }
    }

    /// Position and width of the field; always a well-formed field.
    pub fn field(self) -> (f: Field)
        ensures
            f == self.layout(),
            f.wf(),
    {
        match self {
            Bitfield::TaskEnable => Field { shift: 0, numbits: 1 },
            Bitfield::EventReady => Field { shift: 0, numbits: 1 },
            Bitfield::ShortsEndRxStartRx => Field { shift: 5, numbits: 1 },
            Bitfield::ShortsEndRxStopRx => Field { shift: 6, numbits: 1 },
            Bitfield::InterruptCts => Field { shift: 0, numbits: 1 },
            Bitfield::InterruptNcts => Field { shift: 1, numbits: 1 },
            Bitfield::InterruptEndRx => Field { shift: 4, numbits: 1 },
            Bitfield::InterruptEndTx => Field { shift: 8, numbits: 1 },
            Bitfield::InterruptError => Field { shift: 9, numbits: 1 },
            Bitfield::InterruptRxTo => Field { shift: 17, numbits: 1 },
            Bitfield::InterruptRxStarted => Field { shift: 19, numbits: 1 },
            Bitfield::InterruptTxStarted => Field { shift: 20, numbits: 1 },
            Bitfield::InterruptTxStopped => Field { shift: 22, numbits: 1 },
            Bitfield::ErrorOverrun => Field { shift: 0, numbits: 1 },
            Bitfield::ErrorParity => Field { shift: 1, numbits: 1 },
            Bitfield::ErrorFraming => Field { shift: 2, numbits: 1 },
            Bitfield::ErrorBreak => Field { shift: 3, numbits: 1 },
            Bitfield::EnableEnable => Field { shift: 0, numbits: 4 },
            Bitfield::PselPin => Field { shift: 0, numbits: 5 },
            Bitfield::PselConnect => Field { shift: 31, numbits: 1 },
            Bitfield::BaudrateValue => Field { shift: 0, numbits: 32 },
            Bitfield::Pointer => Field { shift: 0, numbits: 32 },
            Bitfield::Counter => Field { shift: 0, numbits: 8 },
            Bitfield::ConfigHwfc => Field { shift: 0, numbits: 1 },
            Bitfield::ConfigParity => Field { shift: 1, numbits: 3 },
        }
    }
}

/// One operation on the register block, to be performed by whoever holds
/// the hardware.
#[derive(Clone, Copy, Debug, PartialEq, Eq, Structural)]
pub enum RegisterOp {
    /// Store `value` in `register`.
    Write { register: Register, value: u32 },
    /// Store in TXD.PTR the address of the staging buffer's byte at index
    /// `offset`, so that the next DMA burst reads from there on.
    PointTx { offset: usize },
}

impl RegisterOp {
    /// The register that the operation stores to.
    pub open spec fn target(self) -> Register {
        match self {
            RegisterOp::Write { register, .. } => register,
            RegisterOp::PointTx { .. } => Register::TxdPtr,
        }
    }
}

} // verus!
