//! The vocabulary between the driver and whoever owns the I2C bus.
//!
//! Nothing in this crate touches the bus. A driver call hands out a
//! [`Command`]; the owner of the bus performs it and hands back a [`Reply`].

use vstd::prelude::*;

verus! {

/// What went wrong on the bus, as plain values.
#[derive(Debug, PartialEq, Eq)]
pub enum Fault {
    /// An I/O error, with the text the operating system gave.
    Io(String),
    /// The address is reserved or out of range.
    InvalidSlaveAddress(u16),
    /// The bus driver does not know this kind of transfer.
    FeatureNotSupported,
    /// The board could not be identified.
    UnknownModel,
}

/// One transfer that the driver asks for.
#[derive(Clone, Copy, Debug, PartialEq, Eq)]
pub enum Command {
    /// Talk to the device at `address` from now on.
    Select { address: u16 },
    /// Read one byte from `register`.
    ReadByte { register: u8 },
    /// Write `value` to `register`.
    WriteByte { register: u8, value: u8 },
    /// Send `register`, then read four bytes without releasing the bus.
    ReadBlock { register: u8 },
    /// Write the four bytes of `data` starting at `register`, in one transfer.
    WriteBlock { register: u8, data: [u8; 4] },
    /// Leave the bus alone for `millis` milliseconds.
    Settle { millis: u64 },
}

/// What came of a transfer.
#[derive(Debug, PartialEq, Eq)]
pub enum Reply {
    /// The transfer went through and brought nothing back.
    Done,
    /// The byte that was read.
    Byte(u8),
    /// The four bytes that were read, in the order they arrived.
    Block([u8; 4]),
    /// The transfer failed.
    Failed(Fault),
}

impl Command {
    /// Whether the transfer brings one byte back.
    pub open spec fn reads_byte(self) -> bool {
        self is ReadByte
    }

    /// Whether the transfer brings four bytes back.
    pub open spec fn reads_block(self) -> bool {
        self is ReadBlock
    }
}

impl Reply {
    /// Whether this reply is a possible outcome of `command`: a failure
    /// always is, otherwise the reply carries what the command reads.
    pub open spec fn answers(self, command: Command) -> bool {
        match self {
            Reply::Failed(_) => true,
            Reply::Byte(_) => command.reads_byte(),
            Reply::Block(_) => command.reads_block(),
            Reply::Done => !command.reads_byte() && !command.reads_block(),
        }
    }
}

} // verus!
