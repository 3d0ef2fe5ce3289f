//! The fault handler: the record of a synchronous exception and the
//! diagnostic text written to the serial sink before the terminal reset.
use vstd::prelude::*;
use crate::fault::{
    ExceptionClass, InstructionFault, classify_exception, classify_instruction_fault,
    exception_class_code, fault_status_code, spec_exception_class, spec_exception_class_name,
    spec_instruction_fault, spec_instruction_fault_name,
};

verus! {

/// Registers saved by the exception trampoline.
#[derive(Clone, Copy, Debug)]
pub struct ExceptionFrame {
    /// Fault address register.
    pub far: u64,
    /// Exception link register: where the exception was taken.
    pub pc: u64,
    /// Saved program status register.
    pub cpsr: u64,
    /// Exception syndrome register.
    pub esr: u64,
    /// General registers x0 to x30.
    pub x: [u64; 31],
}

/// What a fault amounts to.
#[derive(Clone, Copy, Debug, PartialEq, Eq, Structural)]
pub struct FaultRecord {
    pub address: u64,
    pub pc: u64,
    pub class: ExceptionClass,
    /// The abort's cause, for a data abort.
    pub cause: Option<InstructionFault>,
}

pub open spec fn spec_fault_record(f: ExceptionFrame) -> FaultRecord {
    let class = spec_exception_class(exception_class_code(f.esr));
    FaultRecord {
        address: f.far,
        pc: f.pc,
        class,
        cause: if class == ExceptionClass::DataAbort {
            Some(spec_instruction_fault(fault_status_code(f.esr)))
        } else {
            None
        },
    }
}

/// Decodes a saved frame.
pub fn fault_record(frame: &ExceptionFrame) -> (r: FaultRecord)
    ensures
        r == spec_fault_record(*frame),
{
    let class = classify_exception(frame.esr);
    let cause = if class == ExceptionClass::DataAbort {
        Some(classify_instruction_fault(frame.esr))
    } else {
        None
    };
    FaultRecord { address: frame.far, pc: frame.pc, class, cause }
}

pub open spec fn spec_hex_digits() -> Seq<char> {
    seq!['0', '1', '2', '3', '4', '5', '6', '7', '8', '9', 'a', 'b', 'c', 'd', 'e', 'f']
}

/// Character `19 - p` of `v` printed in lower-case hex, right-aligned in 20
/// columns: the digit of weight `16^p`, or a space left of the leading
/// digit.
pub open spec fn spec_hex_column(v: u64, p: int) -> char {
    if p >= 16 || (p > 0 && v >> ((4 * p) as u64) == 0) {
        ' '
    } else {
        spec_hex_digits()[((v >> ((4 * p) as u64)) & 0xf) as int]
    }
}

/// `v` in lower-case hex, right-aligned in a field of 20 columns.
pub open spec fn spec_hex_field(v: u64) -> Seq<char> {
    Seq::new(20, |i: int| spec_hex_column(v, 19 - i))
}

/// `i` (below 100) in decimal.
pub open spec fn spec_decimal(i: int) -> Seq<char> {
    if i < 10 {
        seq![spec_hex_digits()[i]]
    } else {
        seq![spec_hex_digits()[i / 10], spec_hex_digits()[i % 10]]
    }
}

/// The entry of general register `i`; a line ends after each register whose
/// index is a multiple of three.
pub open spec fn spec_register_entry(x: Seq<u64>, i: int) -> Seq<char> {
    "X"@ + spec_decimal(i) + ":\t"@ + spec_hex_field(x[i]) + "\t"@ + (if i % 3 == 0 {
        "\r\n"@
    } else {
        Seq::<char>::empty()
    })
}

pub open spec fn spec_register_lines(x: Seq<u64>, n: int) -> Seq<char>
    decreases n,
{
    if n <= 0 {
        Seq::<char>::empty()
    } else {
        spec_register_lines(x, n - 1) + spec_register_entry(x, n - 1)
    }
}

/// The register dump of a frame.
pub open spec fn spec_dump(f: ExceptionFrame) -> Seq<char> {
    "Fault address:\t"@ + spec_hex_field(f.far) + "\r\n"@ + "Register dump:\r\n"@ + "PC:\t"@
        + spec_hex_field(f.pc) + "\t"@ + "CPSR:\t"@ + spec_hex_field(f.cpsr) + "\t"@ + "ESR:\t"@
        + spec_hex_field(f.esr) + "\r\n"@ + spec_register_lines(f.x@, 31)
}

fn digit_str(d: u64) -> (r: &'static str)
    requires
        d < 16,
    ensures
        r@ == seq![spec_hex_digits()[d as int]],
{
    match d {
        0 => { proof { reveal_strlit("0"); } "0" },
        1 => { proof { reveal_strlit("1"); } "1" },
        2 => { proof { reveal_strlit("2"); } "2" },
        3 => { proof { reveal_strlit("3"); } "3" },
        4 => { proof { reveal_strlit("4"); } "4" },
        5 => { proof { reveal_strlit("5"); } "5" },
        6 => { proof { reveal_strlit("6"); } "6" },
        7 => { proof { reveal_strlit("7"); } "7" },
        8 => { proof { reveal_strlit("8"); } "8" },
        9 => { proof { reveal_strlit("9"); } "9" },
        10 => { proof { reveal_strlit("a"); } "a" },
        11 => { proof { reveal_strlit("b"); } "b" },
        12 => { proof { reveal_strlit("c"); } "c" },
        13 => { proof { reveal_strlit("d"); } "d" },
        14 => { proof { reveal_strlit("e"); } "e" },
        _ => { proof { reveal_strlit("f"); } "f" },
    }
}

fn push_hex_field(out: &mut String, v: u64)
    ensures
        final(out)@ == old(out)@ + spec_hex_field(v),
{
    let ghost start = out@;
    let mut i: u64 = 0;
    while i < 20
        invariant
            i <= 20,
            out@ == start + Seq::new(i as nat, |k: int| spec_hex_column(v, 19 - k)),
        decreases 20 - i,
    {
        let p: u64 = 19 - i;
        let ghost before = out@;
        proof {
            reveal_strlit(" ");
        }
        if p >= 16 {
            out.append(" ");
            assert(" "@ =~= seq![' ']);
        } else {
            let shifted = v >> (4 * p);
            assert(shifted == v >> ((4 * (19 - i as int)) as u64));
            if p > 0 && shifted == 0 {
                out.append(" ");
                assert(" "@ =~= seq![' ']);
            } else {
                assert(shifted & 0xf < 16) by (bit_vector);
                out.append(digit_str(shifted & 0xf));
                assert(spec_hex_column(v, 19 - i) == spec_hex_digits()[(shifted & 0xf) as int]);
            }
        }
        assert(out@ =~= before + seq![spec_hex_column(v, 19 - i)]);
        assert(out@ =~= start + Seq::new((i + 1) as nat, |k: int| spec_hex_column(v, 19 - k)));
        i = i + 1;
    }
    assert(out@ =~= start + spec_hex_field(v));
}

fn push_decimal(out: &mut String, i: u64)
    requires
        i < 100,
    ensures
        final(out)@ == old(out)@ + spec_decimal(i as int),
{
    if i < 10 {
        out.append(digit_str(i));
    } else {
        out.append(digit_str(i / 10));
        out.append(digit_str(i % 10));
        assert(out@ =~= old(out)@ + spec_decimal(i as int));
    }
}

/// The register dump of a frame: fault address, program counter, saved
/// status, syndrome, then the 31 general registers.
pub fn dump_exception(frame: &ExceptionFrame) -> (r: String)
    ensures
        r@ == spec_dump(*frame),
{
    let mut out = String::new();
    out.append("Fault address:\t");
    push_hex_field(&mut out, frame.far);
    out.append("\r\n");
    out.append("Register dump:\r\n");
    out.append("PC:\t");
    push_hex_field(&mut out, frame.pc);
    out.append("\t");
    out.append("CPSR:\t");
    push_hex_field(&mut out, frame.cpsr);
    out.append("\t");
    out.append("ESR:\t");
    push_hex_field(&mut out, frame.esr);
    out.append("\r\n");
    let ghost head = out@;
    let mut i: u64 = 0;
    while i < 31
        invariant
            i <= 31,
            out@ == head + spec_register_lines(frame.x@, i as int),
        decreases 31 - i,
    {
        let ghost before = out@;
        out.append("X");
        push_decimal(&mut out, i);
        out.append(":\t");
        push_hex_field(&mut out, frame.x[i as usize]);
        out.append("\t");
        if i % 3 == 0 {
            out.append("\r\n");
        }
        proof {
            assert(out@ =~= before + spec_register_entry(frame.x@, i as int));
            assert(spec_register_lines(frame.x@, i + 1) == spec_register_lines(frame.x@, i as int)
                + spec_register_entry(frame.x@, i as int));
            assert(out@ =~= head + spec_register_lines(frame.x@, i + 1));
        }
        i = i + 1;
    }
    assert(out@ =~= spec_dump(*frame));
    out
}

/// Report for a synchronous exception taken at the current level.
pub open spec fn spec_sync_report(f: ExceptionFrame) -> Seq<char> {
    "\r\n"@ + "Sync ELX Exception ("@ + spec_exception_class_name(
        spec_exception_class(exception_class_code(f.esr)),
    ) + ")\r\n"@ + spec_dump(f)
}

/// Report for an exception taken through any other vector.
pub open spec fn spec_unhandled_report(f: ExceptionFrame) -> Seq<char> {
    "\r\n"@ + "Unhandled vector ("@ + spec_exception_class_name(
        spec_exception_class(exception_class_code(f.esr)),
    ) + ")\r\n"@ + "Instruction Fault name: "@ + spec_instruction_fault_name(
        spec_instruction_fault(fault_status_code(f.esr)),
    ) + "\r\n"@ + spec_dump(f)
}

/// The diagnostic text for a synchronous exception at the current level.
pub fn current_elx_sync(frame: &ExceptionFrame) -> (r: String)
    ensures
        r@ == spec_sync_report(*frame),
{
    let mut out = String::new();
    out.append("\r\n");
    out.append("Sync ELX Exception (");
    out.append(classify_exception(frame.esr).name());
    out.append(")\r\n");
    let dump = dump_exception(frame);
    out.append(dump.as_str());
    assert(out@ =~= spec_sync_report(*frame));
    out
}

/// The diagnostic text for an exception taken through an unhandled vector.
pub fn unhandled_vector(frame: &ExceptionFrame) -> (r: String)
    ensures
        r@ == spec_unhandled_report(*frame),
{
    let mut out = String::new();
    out.append("\r\n");
    out.append("Unhandled vector (");
    out.append(classify_exception(frame.esr).name());
    out.append(")\r\n");
    out.append("Instruction Fault name: ");
    out.append(classify_instruction_fault(frame.esr).name());
    out.append("\r\n");
    let dump = dump_exception(frame);
    out.append(dump.as_str());
    assert(out@ =~= spec_unhandled_report(*frame));
    out
}

} // verus!
