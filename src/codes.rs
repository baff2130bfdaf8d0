use vstd::prelude::*;

verus! {

/// How the bytes of a transfer are to be interpreted.
#[derive(Debug, Clone, Copy, PartialEq, Eq, Structural)]
pub enum TransferMode {
    NetAscii,
    Octet,
}

/// The operation named by the first two bytes of a datagram.
#[derive(Debug, Clone, Copy, PartialEq, Eq, Structural)]
pub enum Opcode {
    ReadRequest,
    WriteRequest,
    Data,
    Acknowledgment,
    Error,
}

/// TFTP error codes, plus `SilentError` for inbound noise that must never be
/// answered.
#[derive(Debug, Clone, Copy, PartialEq, Eq, Structural)]
pub enum ErrorCode {
    Undefined,
    FileNotFound,
    AccessViolation,
    DiskFull,
    IllegalOperation,
    UnknownTransferID,
    FileExists,
    NoSuchUser,
    SilentError,
}

/// The byte an error code is carried as on the wire.
pub open spec fn code_value(c: ErrorCode) -> u8 {
    match c {
        ErrorCode::Undefined => 0,
        ErrorCode::FileNotFound => 1,
        ErrorCode::AccessViolation => 2,
        ErrorCode::DiskFull => 3,
        ErrorCode::IllegalOperation => 4,
        ErrorCode::UnknownTransferID => 5,
        ErrorCode::FileExists => 6,
        ErrorCode::NoSuchUser => 7,
        ErrorCode::SilentError => 8,
    }
}

/// The error code a wire byte stands for, if any.
pub open spec fn code_of_byte(b: u8) -> Option<ErrorCode> {
    if b == 0 {
        Some(ErrorCode::Undefined)
    } else if b == 1 {
        Some(ErrorCode::FileNotFound)
    } else if b == 2 {
        Some(ErrorCode::AccessViolation)
    } else if b == 3 {
        Some(ErrorCode::DiskFull)
    } else if b == 4 {
        Some(ErrorCode::IllegalOperation)
    } else if b == 5 {
        Some(ErrorCode::UnknownTransferID)
    } else if b == 6 {
        Some(ErrorCode::FileExists)
    } else if b == 7 {
        Some(ErrorCode::NoSuchUser)
    } else {
        None
    }
}

/// The opcode a second header byte stands for, if any.
pub open spec fn opcode_of_byte(b: u8) -> Option<Opcode> {
    if b == 1 {
        Some(Opcode::ReadRequest)
    } else if b == 2 {
        Some(Opcode::WriteRequest)
    } else if b == 3 {
        Some(Opcode::Data)
    } else if b == 4 {
        Some(Opcode::Acknowledgment)
    } else if b == 5 {
        Some(Opcode::Error)
    } else {
        None
    }
}

impl ErrorCode {
    /// The wire byte of a code that may be sent.
    pub fn wire_value(&self) -> (r: u8)
        requires
            *self != ErrorCode::SilentError,
        ensures
            r == code_value(*self),
            r <= 7,
    {
        match self {
            ErrorCode::Undefined => 0,
            ErrorCode::FileNotFound => 1,
            ErrorCode::AccessViolation => 2,
            ErrorCode::DiskFull => 3,
            ErrorCode::IllegalOperation => 4,
            ErrorCode::UnknownTransferID => 5,
            ErrorCode::FileExists => 6,
            ErrorCode::NoSuchUser => 7,
            ErrorCode::SilentError => 8,
        }
    }

    /// The code a wire byte stands for; `None` for a byte outside `0..=7`.
    pub fn from_wire(b: u8) -> (r: Option<ErrorCode>)
        ensures
            r == code_of_byte(b),
    {
        match b {
            0 => Some(ErrorCode::Undefined),
            1 => Some(ErrorCode::FileNotFound),
            2 => Some(ErrorCode::AccessViolation),
            3 => Some(ErrorCode::DiskFull),
            4 => Some(ErrorCode::IllegalOperation),
            5 => Some(ErrorCode::UnknownTransferID),
            6 => Some(ErrorCode::FileExists),
            7 => Some(ErrorCode::NoSuchUser),
            _ => None,
        }
    }
}

/// Every code that may be sent is read back as itself.
pub proof fn lemma_code_round_trip(c: ErrorCode)
    requires
        c != ErrorCode::SilentError,
    ensures
        code_of_byte(code_value(c)) == Some(c),
{
}

} // verus!
