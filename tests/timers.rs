use dmg_core::interrupts::{Interrupts, TIMER_INTERRUPT_BIT};
use dmg_core::machine::Machine;
use dmg_core::timers::Timers;

fn step(m: &mut Machine, mut dots: u32) {
    while dots > 0 {
        let chunk = if dots > 255 { 255 } else { dots };
        Timers::step_dots(m, chunk as u8);
        dots -= chunk;
    }
}

#[test]
fn divider_increments_every_256_dots() {
    let mut m = Machine::new(false);
    Timers::step_dots(&mut m, 255);
    assert_eq!(m.read_u8(0xFF04), 0);
    Timers::step_dots(&mut m, 1);
    assert_eq!(m.read_u8(0xFF04), 1);
    step(&mut m, 256);
    assert_eq!(m.read_u8(0xFF04), 2);
}

#[test]
fn divider_wraps_from_255_to_0() {
    let mut m = Machine::new(false);
    m.timers.divide_register = 255;
    step(&mut m, 255);
    assert_eq!(m.read_u8(0xFF04), 255);
    step(&mut m, 1);
    assert_eq!(m.read_u8(0xFF04), 0);
}

#[test]
fn divider_reset_waits_for_end_of_step() {
    let mut m = Machine::new(false);
    m.timers.divide_register = 7;
    m.timers.divide_register_dots = 254;
    m.write_u8(0xFF04, 0x55);
    // the write alone does not reset the divider
    assert_eq!(m.read_u8(0xFF04), 7);
    Timers::step_dots(&mut m, 4);
    assert_eq!(m.read_u8(0xFF04), 0);
    assert!(!m.timers.divide_register_to_be_reset);
    // no early increment from what had accumulated before the write
    step(&mut m, 255);
    assert_eq!(m.read_u8(0xFF04), 0);
    step(&mut m, 1);
    assert_eq!(m.read_u8(0xFF04), 1);
}

#[test]
fn counter_overflow_reloads_modulo_and_requests_interrupt() {
    let mut m = Machine::new(false);
    m.write_u8(0xFF07, 0b101);
    m.write_u8(0xFF06, 0xAB);
    m.write_u8(0xFF05, 0xFF);
    Timers::step_dots(&mut m, 15);
    assert_eq!(m.read_u8(0xFF05), 0xFF);
    assert_eq!(m.read_u8(0xFF0F) & (1 << TIMER_INTERRUPT_BIT), 0);
    Timers::step_dots(&mut m, 1);
    assert_eq!(m.read_u8(0xFF05), 0xAB);
    assert_eq!(m.read_u8(0xFF0F), 1 << TIMER_INTERRUPT_BIT);
}

fn check_threshold(control: u8, threshold: u32) {
    let mut m = Machine::new(false);
    m.write_u8(0xFF07, 0b100 | control);
    m.write_u8(0xFF05, 0x10);
    step(&mut m, threshold - 1);
    assert_eq!(m.read_u8(0xFF05), 0x10);
    step(&mut m, 1);
    assert_eq!(m.read_u8(0xFF05), 0x11);
    step(&mut m, threshold - 1);
    assert_eq!(m.read_u8(0xFF05), 0x11);
    step(&mut m, 1);
    assert_eq!(m.read_u8(0xFF05), 0x12);
    assert_eq!(m.read_u8(0xFF0F), 0);
}

#[test]
fn counter_threshold_1024_dots() {
    check_threshold(0b00, 1024);
}

#[test]
fn counter_threshold_16_dots() {
    check_threshold(0b01, 16);
}

#[test]
fn counter_threshold_64_dots() {
    check_threshold(0b10, 64);
}

#[test]
fn counter_threshold_256_dots() {
    check_threshold(0b11, 256);
}

#[test]
fn disabled_counter_does_not_count() {
    let mut m = Machine::new(false);
    m.write_u8(0xFF07, 0b011);
    m.write_u8(0xFF05, 0x20);
    step(&mut m, 2048);
    assert_eq!(m.read_u8(0xFF05), 0x20);
    assert_eq!(m.read_u8(0xFF04), 8);
}

#[test]
fn stepping_in_pieces_matches_one_step() {
    let mut a = Machine::new(false);
    let mut b = Machine::new(false);
    for m in [&mut a, &mut b] {
        m.write_u8(0xFF07, 0b101);
        m.write_u8(0xFF06, 0x03);
        m.write_u8(0xFF05, 0xFE);
    }
    for _ in 0..40 {
        Timers::step_dots(&mut a, 1);
    }
    for _ in 0..10 {
        Timers::step_dots(&mut b, 4);
    }
    assert_eq!(a.timers, b.timers);
    assert_eq!(a.interrupts, b.interrupts);
    assert_eq!(a.read_u8(0xFF05), 0x03);
    assert_eq!(a.read_u8(0xFF0F), 1 << TIMER_INTERRUPT_BIT);
}

#[test]
fn timer_registers_read_back() {
    let mut t = Timers::new();
    t.write_u8(0xFF05, 1);
    t.write_u8(0xFF06, 2);
    t.write_u8(0xFF07, 3);
    assert_eq!(t.read_u8(0xFF05), 1);
    assert_eq!(t.read_u8(0xFF06), 2);
    assert_eq!(t.read_u8(0xFF07), 3);
    t.write_u8(0xFF04, 9);
    assert_eq!(t.read_u8(0xFF04), 0);
    assert!(t.divide_register_to_be_reset);
}

#[test]
fn step_one_dot_reports_overflow() {
    let mut t = Timers::new();
    t.timer_control = 0b101;
    t.timer_counter = 0xFF;
    t.timer_modulo = 0x42;
    for _ in 0..15 {
        assert!(!t.step_one_dot());
    }
    assert!(t.step_one_dot());
    assert_eq!(t.timer_counter, 0x42);
    assert_eq!(t.timer_counter_dots, 0);
}

#[test]
fn request_interrupt_is_idempotent() {
    let mut i = Interrupts::new();
    i.request_interrupt(2);
    assert_eq!(i.interrupt_flag, 0b100);
    i.request_interrupt(2);
    assert_eq!(i.interrupt_flag, 0b100);
    i.request_interrupt(0);
    assert_eq!(i.interrupt_flag, 0b101);
    assert!(!i.is_deliverable(2));
    i.interrupt_enable = 0b100;
    assert!(i.is_deliverable(2));
    assert!(!i.is_deliverable(0));
}

#[test]
fn machine_request_interrupt_sets_flag() {
    let mut m = Machine::new(false);
    m.request_interrupt(4);
    assert_eq!(m.read_u8(0xFF0F), 0b1_0000);
    assert_eq!(m.read_u8(0xFFFF), 0);
}
