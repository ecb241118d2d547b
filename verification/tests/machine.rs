use std::cell::RefCell;
use std::rc::Rc;

use i8080::cpu::Cpu;
use i8080::device::Device;
use i8080::error::Error;

// P5: MVI H,0x3C; MVI L,0xF4; MOV M,A with A = 0xFF stores 0xFF at 0x3CF4.
#[test]
fn scenario_mvi_mov_stores_through_hl() {
    let mut cpu = Cpu::new();
    cpu.a = 0xff;
    cpu.ram.save_byte(0x0000, 0x26); // MVI H
    cpu.ram.save_byte(0x0001, 0x3c);
    cpu.ram.save_byte(0x0002, 0x2e); // MVI L
    cpu.ram.save_byte(0x0003, 0xf4);
    cpu.ram.save_byte(0x0004, 0x77); // MOV M,A
    cpu.next().unwrap();
    cpu.next().unwrap();
    cpu.next().unwrap();
    assert_eq!(cpu.ram.load_byte(0x3cf4), 0xff);
}

// P6: LXI SP,0x3A2C; PUSH D with D=0x8F, E=0x9D leaves [0x3A2B]=0x8F,
// [0x3A2A]=0x9D and SP=0x3A2A.
#[test]
fn scenario_lxi_sp_push_d() {
    let mut cpu = Cpu::new();
    cpu.d = 0x8f;
    cpu.e = 0x9d;
    cpu.ram.save_byte(0x0000, 0x31); // LXI SP
    cpu.ram.save_byte(0x0001, 0x2c);
    cpu.ram.save_byte(0x0002, 0x3a);
    cpu.ram.save_byte(0x0003, 0xd5); // PUSH D
    cpu.next().unwrap();
    assert_eq!(cpu.sp, 0x3a2c);
    cpu.next().unwrap();
    assert_eq!(cpu.ram.load_byte(0x3a2b), 0x8f);
    assert_eq!(cpu.ram.load_byte(0x3a2a), 0x9d);
    assert_eq!(cpu.sp, 0x3a2a);
}

// An unassigned opcode byte surfaces as the unknown-opcode error and
// leaves every register and all of memory exactly as before the fetch.
#[test]
fn unknown_opcode_is_reported_and_harmless() {
    let mut cpu = Cpu::new();
    cpu.a = 0x42;
    cpu.b = 0x17;
    cpu.sp = 0x1234;
    cpu.ram.save_byte(0x0000, 0x08); // unassigned in the 8080 map
    let r = cpu.next();
    assert_eq!(r, Err(Error::UnknownOpcode(0x08)));
    assert_eq!(cpu.a, 0x42);
    assert_eq!(cpu.b, 0x17);
    assert_eq!(cpu.sp, 0x1234);
    assert_eq!(cpu.pc, 0x0000);
    assert!(!cpu.halted);
    assert_eq!(cpu.ram.load_byte(0x0000), 0x08);
}

#[test]
fn unknown_opcode_aborts_run() {
    let mut cpu = Cpu::new();
    cpu.ram.save_byte(0x0000, 0x00); // NOP
    cpu.ram.save_byte(0x0001, 0xcb); // unassigned
    let r = cpu.run();
    assert_eq!(r, Err(Error::UnknownOpcode(0xcb)));
    assert!(!cpu.halted);
}

// P8: IN on an unbound port halts the machine without an error value.
#[test]
fn in_unbound_port_halts() {
    let mut cpu = Cpu::new();
    cpu.a = 0x55;
    cpu.ram.save_byte(0x0000, 0xdb); // IN 7
    cpu.ram.save_byte(0x0001, 0x07);
    let r = cpu.next();
    assert_eq!(r, Ok(()));
    assert!(cpu.halted);
    assert_eq!(cpu.a, 0x55);
    assert_eq!(cpu.pc, 0x0002);
}

// P8: OUT on an unbound port halts the machine without an error value.
#[test]
fn out_unbound_port_halts() {
    let mut cpu = Cpu::new();
    cpu.ram.save_byte(0x0000, 0xd3); // OUT 0xfe
    cpu.ram.save_byte(0x0001, 0xfe);
    let r = cpu.next();
    assert_eq!(r, Ok(()));
    assert!(cpu.halted);
}

struct ConstDevice {
    value: u8,
}

impl Device for ConstDevice {
    fn read(&mut self) -> u8 {
        self.value
    }

    fn write(&mut self, _byte: u8) {}
}

struct SinkDevice {
    seen: Rc<RefCell<Vec<u8>>>,
}

impl Device for SinkDevice {
    fn read(&mut self) -> u8 {
        0
    }

    fn write(&mut self, byte: u8) {
        self.seen.borrow_mut().push(byte);
    }
}

#[test]
fn in_bound_port_reads_device() {
    let mut cpu = Cpu::new();
    cpu.devices[0x07] = Some(Box::new(ConstDevice { value: 0x5a }));
    cpu.ram.save_byte(0x0000, 0xdb); // IN 7
    cpu.ram.save_byte(0x0001, 0x07);
    cpu.next().unwrap();
    assert_eq!(cpu.a, 0x5a);
    assert!(!cpu.halted);
}

#[test]
fn out_bound_port_writes_device() {
    let seen = Rc::new(RefCell::new(Vec::new()));
    let mut cpu = Cpu::new();
    cpu.devices[0x02] = Some(Box::new(SinkDevice { seen: Rc::clone(&seen) }));
    cpu.a = 0xab;
    cpu.ram.save_byte(0x0000, 0xd3); // OUT 2
    cpu.ram.save_byte(0x0001, 0x02);
    cpu.next().unwrap();
    assert!(!cpu.halted);
    assert_eq!(*seen.borrow(), vec![0xab]);
}

#[test]
fn run_until_halt() {
    let program: [u8; 4] = [
        0x3e, 0x05, // MVI A,5
        0xc6, 0x03, // ADI 3
    ];
    let mut cpu = Cpu::new().load(&program);
    cpu.ram.save_byte(0x0004, 0x76); // HLT
    let r = cpu.run();
    assert_eq!(r, Ok(()));
    assert!(cpu.halted);
    assert_eq!(cpu.a, 0x08);
    assert_eq!(cpu.pc, 0x0005);
}

#[test]
fn load_places_image_at_origin() {
    let image: [u8; 3] = [0x11, 0x22, 0x33];
    let cpu = Cpu::new().load(&image);
    assert_eq!(cpu.ram.load_byte(0x0000), 0x11);
    assert_eq!(cpu.ram.load_byte(0x0001), 0x22);
    assert_eq!(cpu.ram.load_byte(0x0002), 0x33);
    assert_eq!(cpu.ram.load_byte(0x0003), 0x00);
}

// HLT must win over the MOV bit pattern that its byte also matches.
#[test]
fn hlt_decodes_before_mov_family() {
    let mut cpu = Cpu::new();
    cpu.ram.save_byte(0x0000, 0x76);
    cpu.next().unwrap();
    assert!(cpu.halted);
    assert_eq!(cpu.pc, 0x0001);
}

// A taken CALL pushes the return address; RET pops it back.
#[test]
fn call_and_ret_round_trip() {
    let mut cpu = Cpu::new();
    cpu.sp = 0x4000;
    cpu.ram.save_byte(0x0000, 0xcd); // CALL 0x0100
    cpu.ram.save_byte(0x0001, 0x00);
    cpu.ram.save_byte(0x0002, 0x01);
    cpu.ram.save_byte(0x0100, 0xc9); // RET
    cpu.next().unwrap();
    assert_eq!(cpu.pc, 0x0100);
    assert_eq!(cpu.sp, 0x3ffe);
    cpu.next().unwrap();
    assert_eq!(cpu.pc, 0x0003);
    assert_eq!(cpu.sp, 0x4000);
}

// RST transfers to the fixed low-memory vector exp * 8.
#[test]
fn rst_jumps_to_vector() {
    let mut cpu = Cpu::new();
    cpu.sp = 0x4000;
    cpu.ram.save_byte(0x0000, 0xdf); // RST 3
    cpu.next().unwrap();
    assert_eq!(cpu.pc, 0x0018);
    assert_eq!(cpu.sp, 0x3ffe);
    assert_eq!(cpu.ram.load_byte(0x3ffe), 0x01); // pushed return address, low
    assert_eq!(cpu.ram.load_byte(0x3fff), 0x00); // pushed return address, high
}

#[test]
fn ei_di_toggle_interrupt_enable() {
    let mut cpu = Cpu::new();
    cpu.ram.save_byte(0x0000, 0xfb); // EI
    cpu.ram.save_byte(0x0001, 0xf3); // DI
    cpu.next().unwrap();
    assert!(cpu.inte);
    cpu.next().unwrap();
    assert!(!cpu.inte);
}

// Conditional jumps test exactly one flag: JNZ taken and not taken.
#[test]
fn conditional_jump_follows_zero_flag() {
    let mut cpu = Cpu::new();
    cpu.a = 0x01;
    cpu.ram.save_byte(0x0000, 0x3d); // DCR A, gives zero
    cpu.ram.save_byte(0x0001, 0xc2); // JNZ 0x2000, not taken
    cpu.ram.save_byte(0x0002, 0x00);
    cpu.ram.save_byte(0x0003, 0x20);
    cpu.next().unwrap();
    cpu.next().unwrap();
    assert_eq!(cpu.pc, 0x0004);
    let mut cpu = Cpu::new();
    cpu.a = 0x02;
    cpu.ram.save_byte(0x0000, 0x3d); // DCR A, nonzero
    cpu.ram.save_byte(0x0001, 0xc2); // JNZ 0x2000, taken
    cpu.ram.save_byte(0x0002, 0x00);
    cpu.ram.save_byte(0x0003, 0x20);
    cpu.next().unwrap();
    cpu.next().unwrap();
    assert_eq!(cpu.pc, 0x2000);
}

// Data transfer instructions never alter the flag register.
#[test]
fn data_transfer_leaves_flags_alone() {
    let mut cpu = Cpu::new();
    cpu.flag = 0xd7;
    cpu.a = 0x80;
    cpu.h = 0x12;
    cpu.l = 0x34;
    cpu.ram.save_byte(0x0000, 0xeb); // XCHG
    cpu.ram.save_byte(0x0001, 0x41); // MOV B,C
    cpu.ram.save_byte(0x0002, 0x01); // LXI B,0x55AA
    cpu.ram.save_byte(0x0003, 0xaa);
    cpu.ram.save_byte(0x0004, 0x55);
    cpu.ram.save_byte(0x0005, 0x32); // STA 0x4000
    cpu.ram.save_byte(0x0006, 0x00);
    cpu.ram.save_byte(0x0007, 0x40);
    for _ in 0..4 {
        cpu.next().unwrap();
    }
    assert_eq!(cpu.flag, 0xd7);
}

// Increment and decrement touch every arithmetic flag but carry.
#[test]
fn inr_dcr_preserve_carry() {
    let mut cpu = Cpu::new();
    cpu.set_flag(i8080::cpu::CARRY_BIT, true);
    cpu.a = 0xff;
    cpu.ram.save_byte(0x0000, 0x3c); // INR A, wraps to zero
    cpu.next().unwrap();
    assert_eq!(cpu.a, 0x00);
    assert!(cpu.get_flag(i8080::cpu::ZERO_BIT));
    assert!(cpu.get_flag(i8080::cpu::CARRY_BIT)); // untouched
    cpu.ram.save_byte(0x0001, 0x3d); // DCR A, wraps back
    cpu.next().unwrap();
    assert_eq!(cpu.a, 0xff);
    assert!(cpu.get_flag(i8080::cpu::CARRY_BIT)); // still untouched
}

// Logical instructions always clear carry and auxiliary carry.
#[test]
fn logical_clears_carry_and_aux() {
    let mut cpu = Cpu::new();
    cpu.set_flag(i8080::cpu::CARRY_BIT, true);
    cpu.set_flag(i8080::cpu::AUXILIARY_CARRY_BIT, true);
    cpu.a = 0x0f;
    cpu.b = 0x33;
    cpu.ram.save_byte(0x0000, 0xa0); // ANA B
    cpu.next().unwrap();
    assert_eq!(cpu.a, 0x03);
    assert!(!cpu.get_flag(i8080::cpu::CARRY_BIT));
    assert!(!cpu.get_flag(i8080::cpu::AUXILIARY_CARRY_BIT));
}

// P3 on concrete values: PUSH then POP of the same pair restores the
// pair and brings SP back, for the general pairs and for PSW.
#[test]
fn push_pop_round_trip() {
    let mut cpu = Cpu::new();
    cpu.b = 0x12;
    cpu.c = 0x34;
    cpu.sp = 0x2000;
    cpu.ram.save_byte(0x0000, 0xc5); // PUSH B
    cpu.ram.save_byte(0x0001, 0xc1); // POP B
    cpu.next().unwrap();
    cpu.next().unwrap();
    assert_eq!((cpu.b, cpu.c), (0x12, 0x34));
    assert_eq!(cpu.sp, 0x2000);

    let mut cpu = Cpu::new();
    cpu.a = 0x9c;
    cpu.flag = 0x47;
    cpu.sp = 0x0002; // the smallest SP the round trip asks for
    cpu.pc = 0x0100; // keep the program clear of the stack bytes
    cpu.ram.save_byte(0x0100, 0xf5); // PUSH PSW
    cpu.ram.save_byte(0x0101, 0xf1); // POP PSW
    cpu.next().unwrap();
    cpu.next().unwrap();
    assert_eq!((cpu.a, cpu.flag), (0x9c, 0x47));
    assert_eq!(cpu.sp, 0x0002);
}

// DAD sets carry on 16-bit overflow, and nothing else.
#[test]
fn dad_sets_carry_on_overflow() {
    let mut cpu = Cpu::new();
    cpu.b = 0xff;
    cpu.c = 0xff;
    cpu.h = 0x00;
    cpu.l = 0x02;
    cpu.ram.save_byte(0x0000, 0x09); // DAD B
    cpu.next().unwrap();
    assert_eq!(cpu.get_hl_addr(), 0x0001);
    assert!(cpu.get_flag(i8080::cpu::CARRY_BIT));
    assert!(!cpu.get_flag(i8080::cpu::ZERO_BIT)); // only carry is affected
}

// Word stores wrap at the top of memory rather than failing.
#[test]
fn word_access_wraps_at_top_of_memory() {
    let mut cpu = Cpu::new();
    cpu.ram.save_word(0xffff, 0x8844);
    assert_eq!(cpu.ram.load_byte(0xffff), 0x44);
    assert_eq!(cpu.ram.load_byte(0x0000), 0x88);
    assert_eq!(cpu.ram.load_word(0xffff), 0x8844);
}
