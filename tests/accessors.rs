use register_block::accessor::{RegisterFile, RC, RO, RW, WC, WO};
use register_block::address::{BaseAddress, ConstantAddress};
use register_block::block::{Accessor, RegisterBlock};
use register_block::generate::{compile_block, BlockSpec, FieldSpec};
use register_block::mode::AccessMode;

#[test]
fn fresh_register_file_reads_zero() {
    let mem: RegisterFile<u32> = RegisterFile::new();
    assert_eq!(mem.load(0x1000), 0);
    assert_eq!(RO::<u32>::new(0x1004).read(&mem), 0);
}

#[test]
fn write_then_read_round_trips() {
    let mut mem: RegisterFile<u32> = RegisterFile::new();
    let reg = RW::<u32>::new(0x40);
    for v in [0u32, 1, 42, 0xDEAD_BEEF, u32::MAX] {
        reg.write(&mut mem, v);
        assert_eq!(reg.read(&mem), v);
    }
    let reg8 = RW::<u8>::new(0x41);
    let mut mem8: RegisterFile<u8> = RegisterFile::new();
    reg8.write(&mut mem8, 0xFF);
    assert_eq!(reg8.read(&mem8), 0xFF);
}

#[test]
fn write_leaves_other_registers() {
    let mut mem: RegisterFile<u32> = RegisterFile::new();
    RW::<u32>::new(0x0).write(&mut mem, 7);
    WO::<u32>::new(0x4).write(&mut mem, 9);
    assert_eq!(mem.load(0x0), 7);
    assert_eq!(mem.load(0x4), 9);
    assert_eq!(mem.load(0x8), 0);
}

#[test]
fn modify_applies_function() {
    let mut mem: RegisterFile<u32> = RegisterFile::new();
    let reg = RW::<u32>::new(0x10);
    reg.write(&mut mem, 5);
    reg.modify(&mut mem, |v| v * 3 + 1);
    assert_eq!(reg.read(&mem), 16);
    reg.modify(&mut mem, |v| v | 0x100);
    assert_eq!(reg.read(&mem), 0x110);
}

#[test]
fn clear_zeroes_register() {
    let mut mem: RegisterFile<u64> = RegisterFile::new();
    mem.store(0x20, 0x1234_5678_9ABC);
    mem.store(0x28, 3);
    let reg = WC::<u64>::new(0x20);
    reg.clear(&mut mem);
    assert_eq!(mem.load(0x20), 0);
    assert_eq!(mem.load(0x28), 3);
    reg.clear(&mut mem);
    assert_eq!(mem.load(0x20), 0);
}

#[test]
fn read_clear_resets_after_read() {
    let mut mem: RegisterFile<u16> = RegisterFile::new();
    mem.store(0x30, 0xABCD);
    let reg = RC::<u16>::new(0x30);
    assert_eq!(reg.read(&mut mem), 0xABCD);
    assert_eq!(reg.read(&mut mem), 0);
    assert_eq!(mem.load(0x30), 0);
}

#[test]
fn base_addresses() {
    assert_eq!(0x4000_1000usize.base_address(), 0x4000_1000);
    assert_eq!(ConstantAddress::<0x5000>.base_address(), 0x5000);
}

#[test]
fn block_addresses_add_offset() {
    let block = RegisterBlock::new(0x4000_0000usize);
    assert_eq!(block.address_of(0x0C), 0x4000_000C);
    assert_eq!(block.base(), 0x4000_0000);
    let fixed = RegisterBlock::new(ConstantAddress::<0x1000>);
    assert_eq!(fixed.address_of(8), 0x1008);
}

fn field(name: &str, offset: u32, access: &str) -> FieldSpec {
    FieldSpec {
        name: name.to_string(),
        value_type: "u32".to_string(),
        offset: Some(offset),
        access: Some(access.to_string()),
    }
}

#[test]
fn test_regs_accessors_work() {
    let spec = BlockSpec {
        name: "TestRegs".to_string(),
        has_generics: false,
        fields: vec![
            field("reg0", 0x00, "RW"),
            field("reg1", 0x04, "RO"),
            field("reg2", 0x08, "WO"),
            field("reg2_ro", 0x08, "RO"),
            field("reg3", 0x0C, "WC"),
        ],
    };
    let bindings = compile_block(&spec).unwrap();
    let block = RegisterBlock::new(0x2000usize);
    let mut mem: RegisterFile<u32> = RegisterFile::new();
    mem.store(0x200C, 77);
    let accessors: Vec<Accessor<u32>> = bindings.iter().map(|b| block.accessor(b)).collect();
    let modes: Vec<AccessMode> = bindings.iter().map(|b| b.mode).collect();
    assert_eq!(
        modes,
        vec![AccessMode::ReadWrite, AccessMode::ReadOnly, AccessMode::WriteOnly, AccessMode::ReadOnly, AccessMode::WriteClear]
    );
    match &accessors[0] {
        Accessor::ReadWrite(r) => {
            r.write(&mut mem, 42);
            assert_eq!(r.read(&mem), 42);
        }
        _ => panic!("reg0 should be read-write"),
    }
    match &accessors[2] {
        Accessor::WriteOnly(w) => w.write(&mut mem, 1),
        _ => panic!("reg2 should be write-only"),
    }
    match &accessors[3] {
        Accessor::ReadOnly(r) => assert_eq!(r.read(&mem), 1),
        _ => panic!("reg2_ro should be read-only"),
    }
    match &accessors[1] {
        Accessor::ReadOnly(r) => assert_eq!(r.read(&mem), 0),
        _ => panic!("reg1 should be read-only"),
    }
    match &accessors[4] {
        Accessor::WriteClear(c) => {
            c.clear(&mut mem);
            assert_eq!(mem.load(0x200C), 0);
        }
        _ => panic!("reg3 should be write-to-clear"),
    }
    assert_eq!(mem.load(0x2000), 42);
}

#[test]
fn read_clear_binding_gives_read_clear_accessor() {
    let spec = BlockSpec {
        name: "Irq".to_string(),
        has_generics: false,
        fields: vec![field("pending", 0x4, "RC")],
    };
    let bindings = compile_block(&spec).unwrap();
    let block = RegisterBlock::new(ConstantAddress::<0x100>);
    let mut mem: RegisterFile<u32> = RegisterFile::new();
    mem.store(0x104, 0b101);
    match block.accessor::<u32>(&bindings[0]) {
        Accessor::ReadClear(r) => {
            assert_eq!(r.read(&mut mem), 0b101);
            assert_eq!(mem.load(0x104), 0);
        }
        _ => panic!("pending should be read-to-clear"),
    }
}
