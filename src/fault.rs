//! Decoding of the exception syndrome register (ESR).
use vstd::prelude::*;

verus! {

/// Exception class, taken from the syndrome's EC field.
#[derive(Clone, Copy, Debug, PartialEq, Eq, Structural)]
pub enum ExceptionClass {
    ConfigurableTrap,
    PcAlignment,
    DataAbort,
    StackAlignment,
    SError,
    DebugException,
    Unknown,
}

/// Cause of an abort, taken from the syndrome's fault status code.
#[derive(Clone, Copy, Debug, PartialEq, Eq, Structural)]
pub enum InstructionFault {
    AddressSize,
    Translation(u8),
    AccessFlag(u8),
    Permission(u8),
    SyncExternalAbort,
    SyncParityError,
    SyncExternalAbortOnWalk(u8),
    SyncParityErrorOnWalk(u8),
    Alignment,
    DebugEvent,
    Unknown,
}

/// The exception class code held in a syndrome value.
pub open spec fn exception_class_code(esr: u64) -> u64 {
    esr >> 26
}

/// The fault status code held in a syndrome value.
pub open spec fn fault_status_code(esr: u64) -> u64 {
    esr & 0x1f
}

pub open spec fn spec_exception_class(code: u64) -> ExceptionClass {
    if code == 0x18 {
        ExceptionClass::ConfigurableTrap
    } else if code == 0x22 {
        ExceptionClass::PcAlignment
    } else if code == 0x25 {
        ExceptionClass::DataAbort
    } else if code == 0x26 {
        ExceptionClass::StackAlignment
    } else if code == 0x2f {
        ExceptionClass::SError
    } else if code == 0x30 {
        ExceptionClass::DebugException
    } else {
        ExceptionClass::Unknown
    }
}

/// The walk level (1 to 3) that a fault status code of the shape
/// `0bxxxxLL` with `LL != 0` names.
pub open spec fn level_of(code: u64) -> u8 {
    (code % 4) as u8
}

pub open spec fn spec_instruction_fault(code: u64) -> InstructionFault {
    if code == 0b000000 {
        InstructionFault::AddressSize
    } else if 0b000101 <= code <= 0b000111 {
        InstructionFault::Translation(level_of(code))
    } else if 0b001001 <= code <= 0b001011 {
        InstructionFault::AccessFlag(level_of(code))
    } else if 0b001101 <= code <= 0b001111 {
        InstructionFault::Permission(level_of(code))
    } else if code == 0b010000 {
        InstructionFault::SyncExternalAbort
    } else if code == 0b011000 {
        InstructionFault::SyncParityError
    } else if 0b010101 <= code <= 0b010111 {
        InstructionFault::SyncExternalAbortOnWalk(level_of(code))
    } else if 0b011101 <= code <= 0b011111 {
        InstructionFault::SyncParityErrorOnWalk(level_of(code))
    } else if code == 0b100001 {
        InstructionFault::Alignment
    } else if code == 0b100010 {
        InstructionFault::DebugEvent
    } else {
        InstructionFault::Unknown
    }
}

impl ExceptionClass {
    /// Decodes an exception class code; codes without a name give `Unknown`.
    pub fn from_code(code: u64) -> (r: ExceptionClass)
        ensures
            r == spec_exception_class(code),
    {
        match code {
            0x18 => ExceptionClass::ConfigurableTrap,
            0x22 => ExceptionClass::PcAlignment,
            0x25 => ExceptionClass::DataAbort,
            0x26 => ExceptionClass::StackAlignment,
            0x2f => ExceptionClass::SError,
            0x30 => ExceptionClass::DebugException,
            _ => ExceptionClass::Unknown,
        }
    }
}


impl InstructionFault {
    /// Decodes a fault status code; codes without a name give `Unknown`.
    pub fn from_code(code: u64) -> (r: InstructionFault)
        ensures
            r == spec_instruction_fault(code),
    {
        match code {
            0b000000 => InstructionFault::AddressSize,
            0b000101..=0b000111 => InstructionFault::Translation((code % 4) as u8),
            0b001001..=0b001011 => InstructionFault::AccessFlag((code % 4) as u8),
            0b001101..=0b001111 => InstructionFault::Permission((code % 4) as u8),
            0b010000 => InstructionFault::SyncExternalAbort,
            0b011000 => InstructionFault::SyncParityError,
            0b010101..=0b010111 => InstructionFault::SyncExternalAbortOnWalk((code % 4) as u8),
            0b011101..=0b011111 => InstructionFault::SyncParityErrorOnWalk((code % 4) as u8),
            0b100001 => InstructionFault::Alignment,
            0b100010 => InstructionFault::DebugEvent,
            _ => InstructionFault::Unknown,
        }
    }
}

pub open spec fn spec_exception_class_name(c: ExceptionClass) -> Seq<char> {
    match c {
        ExceptionClass::ConfigurableTrap => "Configurable trap"@,
        ExceptionClass::PcAlignment => "PC alignment exception"@,
        ExceptionClass::DataAbort => "Data abort"@,
        ExceptionClass::StackAlignment => "Stack alignment exception"@,
        ExceptionClass::SError => "Serror"@,
        ExceptionClass::DebugException => "Debug exception"@,
        ExceptionClass::Unknown => "Unknown exception"@,
    }
}

pub open spec fn spec_instruction_fault_name(f: InstructionFault) -> Seq<char> {
    match f {
        InstructionFault::AddressSize => "Address size fault in TTBR0 or TTBR1"@,
        InstructionFault::Translation(1) => "Translation fault, 1st level"@,
        InstructionFault::Translation(2) => "Translation fault, 2nd level"@,
        InstructionFault::Translation(_) => "Translation fault, 3rd level"@,
        InstructionFault::AccessFlag(1) => "Access flag fault, 1st level"@,
        InstructionFault::AccessFlag(2) => "Access flag fault, 2nd level"@,
        InstructionFault::AccessFlag(_) => "Access flag fault, 3rd level"@,
        InstructionFault::Permission(1) => "Permission fault, 1st level"@,
        InstructionFault::Permission(2) => "Permission fault, 2nd level"@,
        InstructionFault::Permission(_) => "Permission fault, 3rd level"@,
        InstructionFault::SyncExternalAbort => "Synchronous external abort"@,
        InstructionFault::SyncParityError => "Synchronous parity error on memory access"@,
        InstructionFault::SyncExternalAbortOnWalk(1) =>
            "Synchronous external abort on translation table walk, 1st level"@,
        InstructionFault::SyncExternalAbortOnWalk(2) =>
            "Synchronous external abort on translation table walk, 2nd level"@,
        InstructionFault::SyncExternalAbortOnWalk(_) =>
            "Synchronous external abort on translation table walk, 3rd level"@,
        InstructionFault::SyncParityErrorOnWalk(1) =>
            "Synchronous parity error on memory access on translation table walk, 1st level"@,
        InstructionFault::SyncParityErrorOnWalk(2) =>
            "Synchronous parity error on memory access on translation table walk, 2nd level"@,
        InstructionFault::SyncParityErrorOnWalk(_) =>
            "Synchronous parity error on memory access on translation table walk, 3rd level"@,
        InstructionFault::Alignment => "Alignment fault"@,
        InstructionFault::DebugEvent => "Debug event"@,
        InstructionFault::Unknown => "Unknown instruction fault"@,
    }
}

impl ExceptionClass {
    /// The label printed for this class.
    pub fn name(&self) -> (r: &'static str)
        ensures
            r@ == spec_exception_class_name(*self),
    {
        match self {
            ExceptionClass::ConfigurableTrap => "Configurable trap",
            ExceptionClass::PcAlignment => "PC alignment exception",
            ExceptionClass::DataAbort => "Data abort",
            ExceptionClass::StackAlignment => "Stack alignment exception",
            ExceptionClass::SError => "Serror",
            ExceptionClass::DebugException => "Debug exception",
            ExceptionClass::Unknown => "Unknown exception",
        }
    }
}

impl InstructionFault {
    /// The label printed for this cause.
    pub fn name(&self) -> (r: &'static str)
        ensures
            r@ == spec_instruction_fault_name(*self),
    {
        match self {
            InstructionFault::AddressSize => "Address size fault in TTBR0 or TTBR1",
            InstructionFault::Translation(1) => "Translation fault, 1st level",
            InstructionFault::Translation(2) => "Translation fault, 2nd level",
            InstructionFault::Translation(_) => "Translation fault, 3rd level",
            InstructionFault::AccessFlag(1) => "Access flag fault, 1st level",
            InstructionFault::AccessFlag(2) => "Access flag fault, 2nd level",
            InstructionFault::AccessFlag(_) => "Access flag fault, 3rd level",
            InstructionFault::Permission(1) => "Permission fault, 1st level",
            InstructionFault::Permission(2) => "Permission fault, 2nd level",
            InstructionFault::Permission(_) => "Permission fault, 3rd level",
            InstructionFault::SyncExternalAbort => "Synchronous external abort",
            InstructionFault::SyncParityError => "Synchronous parity error on memory access",
            InstructionFault::SyncExternalAbortOnWalk(1) =>
                "Synchronous external abort on translation table walk, 1st level",
            InstructionFault::SyncExternalAbortOnWalk(2) =>
                "Synchronous external abort on translation table walk, 2nd level",
            InstructionFault::SyncExternalAbortOnWalk(_) =>
                "Synchronous external abort on translation table walk, 3rd level",
            InstructionFault::SyncParityErrorOnWalk(1) =>
                "Synchronous parity error on memory access on translation table walk, 1st level",
            InstructionFault::SyncParityErrorOnWalk(2) =>
                "Synchronous parity error on memory access on translation table walk, 2nd level",
            InstructionFault::SyncParityErrorOnWalk(_) =>
                "Synchronous parity error on memory access on translation table walk, 3rd level",
            InstructionFault::Alignment => "Alignment fault",
            InstructionFault::DebugEvent => "Debug event",
            InstructionFault::Unknown => "Unknown instruction fault",
        }
    }
}

/// Exception class of a syndrome value.
pub fn classify_exception(esr: u64) -> (r: ExceptionClass)
    ensures
        r == spec_exception_class(exception_class_code(esr)),
{
    ExceptionClass::from_code(esr >> 26)
}

/// Cause of the abort that a syndrome value reports.
pub fn classify_instruction_fault(esr: u64) -> (r: InstructionFault)
    ensures
        r == spec_instruction_fault(fault_status_code(esr)),
{
    InstructionFault::from_code(esr & 0x1f)
}

/// Label of the exception class of a syndrome value.
pub fn get_exception_type_elx(esr: u64) -> (r: &'static str)
    ensures
        r@ == spec_exception_class_name(spec_exception_class(exception_class_code(esr))),
{
    classify_exception(esr).name()
}

/// Label of the abort cause of a syndrome value.
pub fn get_instruction_fault_name(esr: u64) -> (r: &'static str)
    ensures
        r@ == spec_instruction_fault_name(spec_instruction_fault(fault_status_code(esr))),
{
    classify_instruction_fault(esr).name()
}

/// Every 6-bit exception class code has a label: the six architected codes
/// that this core names get their class, every other code gives `Unknown`.
/// Every 5-bit fault status code has a label in the same way, unused ones
/// giving `Unknown`.
pub proof fn lemma_classifier_total(ec: u64, fsc: u64)
    requires
        ec < 64,
        fsc < 32,
    ensures
        (spec_exception_class(ec) == ExceptionClass::Unknown) <==> !(ec == 0x18 || ec == 0x22
            || ec == 0x25 || ec == 0x26 || ec == 0x2f || ec == 0x30),
        (spec_instruction_fault(fsc) == InstructionFault::Unknown) <==> !(fsc == 0 || (5 <= fsc
            <= 7) || (9 <= fsc <= 11) || (13 <= fsc <= 15) || fsc == 16 || fsc == 24 || (21 <= fsc
            <= 23) || (29 <= fsc <= 31)),
        spec_exception_class_name(spec_exception_class(ec)).len() > 0,
        spec_instruction_fault_name(spec_instruction_fault(fsc)).len() > 0,
{
    reveal_strlit("Configurable trap");
    reveal_strlit("PC alignment exception");
    reveal_strlit("Data abort");
    reveal_strlit("Stack alignment exception");
    reveal_strlit("Serror");
    reveal_strlit("Debug exception");
    reveal_strlit("Unknown exception");
    reveal_strlit("Address size fault in TTBR0 or TTBR1");
    reveal_strlit("Translation fault, 1st level");
    reveal_strlit("Translation fault, 2nd level");
    reveal_strlit("Translation fault, 3rd level");
    reveal_strlit("Access flag fault, 1st level");
    reveal_strlit("Access flag fault, 2nd level");
    reveal_strlit("Access flag fault, 3rd level");
    reveal_strlit("Permission fault, 1st level");
    reveal_strlit("Permission fault, 2nd level");
    reveal_strlit("Permission fault, 3rd level");
    reveal_strlit("Synchronous external abort");
    reveal_strlit("Synchronous parity error on memory access");
    reveal_strlit("Synchronous external abort on translation table walk, 1st level");
    reveal_strlit("Synchronous external abort on translation table walk, 2nd level");
    reveal_strlit("Synchronous external abort on translation table walk, 3rd level");
    reveal_strlit("Synchronous parity error on memory access on translation table walk, 1st level");
    reveal_strlit("Synchronous parity error on memory access on translation table walk, 2nd level");
    reveal_strlit("Synchronous parity error on memory access on translation table walk, 3rd level");
    reveal_strlit("Alignment fault");
    reveal_strlit("Debug event");
    reveal_strlit("Unknown instruction fault");
}

} // verus!
