use mmu_core::fault::{ExceptionClass, InstructionFault};
use mmu_core::handler::{current_elx_sync, dump_exception, fault_record, unhandled_vector, ExceptionFrame};

fn frame() -> ExceptionFrame {
    let mut x = [0u64; 31];
    for (i, r) in x.iter_mut().enumerate() {
        *r = (i as u64) * 0x1111_1111;
    }
    x[30] = u64::MAX;
    ExceptionFrame { far: 0x8000_0010, pc: 0x8000_1234, cpsr: 0x3c5, esr: 0x9600_004f, x }
}

fn expected_dump(f: &ExceptionFrame) -> String {
    let mut s = String::new();
    s += &format!("Fault address:\t{:20x}\r\n", f.far);
    s += "Register dump:\r\n";
    s += &format!("PC:\t{:20x}\t", f.pc);
    s += &format!("CPSR:\t{:20x}\t", f.cpsr);
    s += &format!("ESR:\t{:20x}\r\n", f.esr);
    for (index, value) in f.x.iter().enumerate() {
        s += &format!("X{}:\t{:20x}\t", index, value);
        if index % 3 == 0 {
            s += "\r\n";
        }
    }
    s
}

#[test]
fn dump_matches_fixed_width_hex() {
    let f = frame();
    assert_eq!(dump_exception(&f), expected_dump(&f));
}

#[test]
fn dump_of_zero_registers() {
    let f = ExceptionFrame { far: 0, pc: 0, cpsr: 0, esr: 0, x: [0; 31] };
    let d = dump_exception(&f);
    assert!(d.starts_with("Fault address:\t                   0\r\n"));
    assert_eq!(d, expected_dump(&f));
}

#[test]
fn sync_report() {
    let f = frame();
    let expected = format!("\r\nSync ELX Exception (Data abort)\r\n{}", expected_dump(&f));
    assert_eq!(current_elx_sync(&f), expected);
}

#[test]
fn unhandled_report() {
    let f = frame();
    let expected = format!(
        "\r\nUnhandled vector (Data abort)\r\nInstruction Fault name: Permission fault, 3rd level\r\n{}",
        expected_dump(&f)
    );
    assert_eq!(unhandled_vector(&f), expected);
}

#[test]
fn record_of_a_permission_fault() {
    let r = fault_record(&frame());
    assert_eq!(r.address, 0x8000_0010);
    assert_eq!(r.pc, 0x8000_1234);
    assert_eq!(r.class, ExceptionClass::DataAbort);
    assert_eq!(r.cause, Some(InstructionFault::Permission(3)));
    let other = ExceptionFrame { esr: 0x8800_0000, ..frame() };
    let r = fault_record(&other);
    assert_eq!(r.class, ExceptionClass::PcAlignment);
    assert_eq!(r.cause, None);
}
