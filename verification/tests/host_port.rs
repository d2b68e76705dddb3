//! Tests of the host-port request envelope and the host-side mailbox
//! operations.

use ecsim::{socket_op, xram, Ec};

fn fresh() -> Ec {
    Ec::new(0x5570, 0x01, vec![0xFF; 0x20000], vec![0xFF; 0x20000])
}

#[test]
fn init_and_unknown_ops_answer_zero() {
    let mut ec = fresh();
    assert_eq!(socket_op(&mut ec, &[0x00, 0x00, 0x00, 0x00]), [0x00]);
    assert_eq!(socket_op(&mut ec, &[0x09, 0x2E, 0x00, 0x55]), [0x00]);
}

#[test]
fn superio_identification() {
    let mut ec = fresh();
    assert_eq!(socket_op(&mut ec, &[0x00, 0x00, 0x00, 0x00]), [0x00]);
    assert_eq!(socket_op(&mut ec, &[0x02, 0x2E, 0x00, 0x20]), [0x20]);
    assert_eq!(socket_op(&mut ec, &[0x01, 0x2F, 0x00, 0x00]), [0x55]);
    assert_eq!(socket_op(&mut ec, &[0x02, 0x2E, 0x00, 0x21]), [0x21]);
    assert_eq!(socket_op(&mut ec, &[0x01, 0x2F, 0x00, 0x00]), [0x70]);
    // reading back the index register returns the latch
    assert_eq!(socket_op(&mut ec, &[0x01, 0x2E, 0x00, 0x00]), [0x21]);
    // any other index reads zero
    assert_eq!(socket_op(&mut ec, &[0x02, 0x2E, 0x00, 0x07]), [0x07]);
    assert_eq!(socket_op(&mut ec, &[0x01, 0x2F, 0x00, 0x00]), [0x00]);
}

#[test]
fn pmc_command_round_trip() {
    let mut ec = fresh();
    // host sends a PMC command
    assert_eq!(socket_op(&mut ec, &[0x02, 0x66, 0x00, 0x80]), [0x80]);
    // firmware sees IBF and CMD in the status byte
    let status = xram(&mut ec, 0x1500, None).unwrap();
    assert_eq!(status & 0x0A, 0x0A);
    // firmware reads the command byte from data-in
    assert_eq!(xram(&mut ec, 0x1504, None), Ok(0x80));
    assert_eq!(ec.xram[0x1500] & 0x02, 0x00);
    // firmware answers through data-out
    assert!(xram(&mut ec, 0x1501, Some(0xA5)).is_ok());
    // host reads the answer; a second read finds the buffer empty
    assert_eq!(socket_op(&mut ec, &[0x01, 0x62, 0x00, 0x00]), [0xA5]);
    assert_eq!(socket_op(&mut ec, &[0x01, 0x62, 0x00, 0x00]), [0x00]);
    assert_eq!(ec.xram[0x1500] & 0x01, 0x00);
}

#[test]
fn pmc_data_write_clears_cmd() {
    let mut ec = fresh();
    ec.xram[0x1500] = 0x08;
    assert_eq!(socket_op(&mut ec, &[0x02, 0x62, 0x00, 0x31]), [0x31]);
    assert_eq!(ec.xram[0x1500] & 0x08, 0x00);
    assert_eq!(ec.xram[0x1500] & 0x02, 0x02);
    assert_eq!(ec.xram[0x1504], 0x31);
}

#[test]
fn pmc_status_read_is_passive() {
    let mut ec = fresh();
    ec.xram[0x1500] = 0x0B;
    assert_eq!(socket_op(&mut ec, &[0x01, 0x66, 0x00, 0x00]), [0x0B]);
    assert_eq!(ec.xram[0x1500], 0x0B);
}

#[test]
fn h2ram_window_reads_and_writes_xram() {
    let mut ec = fresh();
    // window 0: base port 0x100, 16 ports, enabled
    ec.xram[0x105A] = 0x01;
    ec.xram[0x105B] = 0x10;
    ec.xram[0x105D] = 0x00;
    assert_eq!(socket_op(&mut ec, &[0x02, 0x05, 0x01, 0xAB]), [0xAB]);
    assert_eq!(ec.xram[0x0105], 0xAB);
    assert_eq!(socket_op(&mut ec, &[0x01, 0x05, 0x01, 0x00]), [0xAB]);
    // one past the window: ignored and read as zero
    assert_eq!(socket_op(&mut ec, &[0x02, 0x10, 0x01, 0xCD]), [0xCD]);
    assert_eq!(ec.xram[0x0110], 0x00);
    assert_eq!(socket_op(&mut ec, &[0x01, 0x10, 0x01, 0x00]), [0x00]);
    // disabling the window cuts it off
    ec.xram[0x105A] = 0x00;
    assert_eq!(socket_op(&mut ec, &[0x01, 0x05, 0x01, 0x00]), [0x00]);
}

#[test]
fn h2ram_second_window() {
    let mut ec = fresh();
    // window 1: base port 0x200, 32 ports, enabled
    ec.xram[0x105A] = 0x02;
    ec.xram[0x105C] = 0x20;
    ec.xram[0x105E] = 0x01;
    assert_eq!(socket_op(&mut ec, &[0x02, 0x1F, 0x02, 0x66]), [0x66]);
    assert_eq!(ec.xram[0x021F], 0x66);
    assert_eq!(socket_op(&mut ec, &[0x02, 0x20, 0x02, 0x67]), [0x67]);
    assert_eq!(ec.xram[0x0220], 0x00);
}

#[test]
fn kbc_host_operations() {
    let mut ec = fresh();
    ec.kbc_cmd(0xAA);
    assert_eq!(ec.xram[0x1304] & 0x0A, 0x0A);
    assert_eq!(ec.xram[0x130A], 0xAA);
    ec.kbc_write(0x12);
    assert_eq!(ec.xram[0x1304] & 0x02, 0x02);
    assert_eq!(ec.xram[0x1304] & 0x08, 0x00);
    assert_eq!(ec.xram[0x130A], 0x12);
    // nothing to read while OBF is clear
    ec.xram[0x1304] &= !0x01;
    assert_eq!(ec.kbc_keyboard(), None);
    // the firmware's store to the keyboard data-out register raises OBF
    assert!(xram(&mut ec, 0x1306, Some(0x77)).is_ok());
    assert_eq!(ec.kbc_keyboard(), Some(0x77));
    assert_eq!(ec.kbc_keyboard(), None);
    // same for the mouse byte
    assert!(xram(&mut ec, 0x1308, Some(0x78)).is_ok());
    assert_eq!(ec.kbc_mouse(), Some(0x78));
    assert_eq!(ec.kbc_mouse(), None);
}

#[test]
fn pmc_host_read_requires_obf() {
    let mut ec = fresh();
    assert_eq!(ec.pmc_read(), None);
    assert!(xram(&mut ec, 0x1501, Some(0x3C)).is_ok());
    assert_eq!(ec.pmc_read(), Some(0x3C));
    assert_eq!(ec.pmc_read(), None);
}

#[test]
fn steps_counter_advances() {
    let mut ec = fresh();
    ec.count_step();
    ec.count_step();
    assert_eq!(ec.steps, 2);
}
