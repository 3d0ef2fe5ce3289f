use mmu_core::fault::{
    classify_exception, classify_instruction_fault, get_exception_type_elx,
    get_instruction_fault_name, ExceptionClass, InstructionFault,
};

#[test]
fn exception_class_labels() {
    assert_eq!(get_exception_type_elx(0x18 << 26), "Configurable trap");
    assert_eq!(get_exception_type_elx(0x22 << 26), "PC alignment exception");
    assert_eq!(get_exception_type_elx(0x25 << 26), "Data abort");
    assert_eq!(get_exception_type_elx(0x26 << 26), "Stack alignment exception");
    assert_eq!(get_exception_type_elx(0x2f << 26), "Serror");
    assert_eq!(get_exception_type_elx(0x30 << 26), "Debug exception");
    assert_eq!(get_exception_type_elx(0), "Unknown exception");
    assert_eq!(get_exception_type_elx((0x25 << 26) | 0x1ff_ffff), "Data abort");
}

#[test]
fn every_exception_class_code_has_a_label() {
    let named = [0x18u64, 0x22, 0x25, 0x26, 0x2f, 0x30];
    for code in 0u64..64 {
        let class = classify_exception(code << 26);
        assert_eq!(class == ExceptionClass::Unknown, !named.contains(&code));
        assert!(!get_exception_type_elx(code << 26).is_empty());
    }
}

#[test]
fn every_fault_status_code_has_a_label() {
    let unknown = [1u64, 2, 3, 4, 8, 12, 17, 18, 19, 20, 25, 26, 27, 28];
    for code in 0u64..32 {
        let cause = classify_instruction_fault(code);
        assert_eq!(cause == InstructionFault::Unknown, unknown.contains(&code));
        assert!(!get_instruction_fault_name(code).is_empty());
    }
}

#[test]
fn instruction_fault_labels() {
    let esr = 0x25u64 << 26;
    assert_eq!(get_instruction_fault_name(esr), "Address size fault in TTBR0 or TTBR1");
    assert_eq!(get_instruction_fault_name(esr | 0b000101), "Translation fault, 1st level");
    assert_eq!(get_instruction_fault_name(esr | 0b000110), "Translation fault, 2nd level");
    assert_eq!(get_instruction_fault_name(esr | 0b000111), "Translation fault, 3rd level");
    assert_eq!(get_instruction_fault_name(esr | 0b001010), "Access flag fault, 2nd level");
    assert_eq!(get_instruction_fault_name(esr | 0b001101), "Permission fault, 1st level");
    assert_eq!(get_instruction_fault_name(esr | 0b001111), "Permission fault, 3rd level");
    assert_eq!(get_instruction_fault_name(esr | 0b010000), "Synchronous external abort");
    assert_eq!(
        get_instruction_fault_name(esr | 0b011000),
        "Synchronous parity error on memory access"
    );
    assert_eq!(
        get_instruction_fault_name(esr | 0b010110),
        "Synchronous external abort on translation table walk, 2nd level"
    );
    assert_eq!(
        get_instruction_fault_name(esr | 0b011111),
        "Synchronous parity error on memory access on translation table walk, 3rd level"
    );
    assert_eq!(get_instruction_fault_name(esr | 0b000100), "Unknown instruction fault");
}

#[test]
fn fault_status_uses_five_bits() {
    // 0b100001 (alignment) reads as 0b00001 through a five-bit field.
    assert_eq!(get_instruction_fault_name(0b100001), "Unknown instruction fault");
    assert_eq!(InstructionFault::from_code(0b100001), InstructionFault::Alignment);
    assert_eq!(InstructionFault::from_code(0b100010), InstructionFault::DebugEvent);
    assert_eq!(InstructionFault::Alignment.name(), "Alignment fault");
    assert_eq!(InstructionFault::DebugEvent.name(), "Debug event");
    assert_eq!(classify_instruction_fault(0b101111), InstructionFault::Permission(3));
}
