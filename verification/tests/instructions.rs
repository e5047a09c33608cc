use nes_core::instructions::{AddrMode, Instruction, Operation};

#[test]
fn test_index_opcode_matches_inst_opcode() {
    for opcode in 0x00..0xFF {
        let inst = Instruction::decode_op(opcode);
        assert_eq!(opcode, inst.opcode, "opcode not matching for {:#04x}", opcode);
    }
}

#[test]
fn test_kill_addr_mode() {
    for opcode in 0x00..0xFF {
        let inst = Instruction::decode_op(opcode);
        if inst.operation == Operation::KIL {
            assert_eq!(inst.addr_mode, AddrMode::IMP, "KIL addr mode not IMP for {:#04x}", opcode);
            assert_eq!(inst.cycles, [1, 0], "KIL cycles not 0 for {:#04x}", opcode);
        }
    }
}

#[test]
fn test_decode_last_opcode() {
    let inst = Instruction::decode_op(0xFF);
    assert_eq!(inst.opcode, 0xFF);
    assert_eq!(inst.operation, Operation::ISB);
    assert_eq!(inst.addr_mode, AddrMode::ABX);
    assert_eq!(inst.cycles, [7, 0]);
}

#[test]
fn test_decode_documented_entries() {
    let brk = Instruction::decode_op(0x00);
    assert_eq!(brk.operation, Operation::BRK);
    assert_eq!(brk.addr_mode, AddrMode::IMP);
    assert_eq!(brk.cycles, [7, 0]);

    let lda = Instruction::decode_op(0xA9);
    assert_eq!(lda.operation, Operation::LDA);
    assert_eq!(lda.addr_mode, AddrMode::IMM);
    assert_eq!(lda.cycles, [2, 0]);

    let jmp_ind = Instruction::decode_op(0x6C);
    assert_eq!(jmp_ind.operation, Operation::JMP);
    assert_eq!(jmp_ind.addr_mode, AddrMode::IND);
    assert_eq!(jmp_ind.cycles, [5, 0]);

    let lda_aby = Instruction::decode_op(0xB9);
    assert_eq!(lda_aby.operation, Operation::LDA);
    assert_eq!(lda_aby.addr_mode, AddrMode::ABY);
    assert_eq!(lda_aby.cycles, [4, 1]);
}

#[test]
fn test_decode_undocumented_entries() {
    let lax = Instruction::decode_op(0xA3);
    assert_eq!(lax.operation, Operation::LAX);
    assert_eq!(lax.addr_mode, AddrMode::IZX);
    assert_eq!(lax.cycles, [6, 0]);

    let slo = Instruction::decode_op(0x03);
    assert_eq!(slo.operation, Operation::SLO);
    assert_eq!(slo.addr_mode, AddrMode::IZX);
    assert_eq!(slo.cycles, [8, 0]);

    let kil = Instruction::decode_op(0x02);
    assert_eq!(kil.operation, Operation::KIL);
    assert_eq!(kil.addr_mode, AddrMode::IMP);
    assert_eq!(kil.cycles, [1, 0]);
}
