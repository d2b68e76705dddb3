//! Tests of the MMIO decoder: region dispatch, access policies, side
//! effects and reset defaults.

use ecsim::{xram, Ec, Error};

fn fresh(id: u16) -> Ec {
    Ec::new(id, 0x01, vec![0xFF; 0x20000], vec![0xFF; 0x20000])
}

#[test]
fn scratch_sram_is_plain_read_write() {
    let mut ec = fresh(0x5570);
    assert_eq!(xram(&mut ec, 0x0100, Some(0x5A)), Ok(0x00));
    assert_eq!(xram(&mut ec, 0x0100, None), Ok(0x5A));
}

#[test]
fn unknown_region_is_an_error() {
    let mut ec = fresh(0x5570);
    assert_eq!(
        xram(&mut ec, 0x2300, None),
        Err(Error::UnknownRegion { address: 0x2300 })
    );
    // the eSPI region exists only on the 0x5570 family
    let mut ec2 = fresh(0x8587);
    assert_eq!(
        xram(&mut ec2, 0x3100, None),
        Err(Error::UnknownRegion { address: 0x3100 })
    );
}

#[test]
fn unknown_offset_is_an_error() {
    let mut ec = fresh(0x5570);
    assert_eq!(
        xram(&mut ec, 0x1503, None),
        Err(Error::UnknownOffset { address: 0x1503 })
    );
    // SCAR1 registers exist only on the 0x8587 family
    assert_eq!(
        xram(&mut ec, 0x1045, None),
        Err(Error::UnknownOffset { address: 0x1045 })
    );
    let mut ec2 = fresh(0x8587);
    assert_eq!(xram(&mut ec2, 0x1045, Some(0x12)), Ok(0x00));
}

#[test]
fn write_clear_semantics_on_hostaa() {
    let mut ec = fresh(0x5570);
    ec.xram[0x1C00] = 0xFF;
    // bit 1 is write-clear and written 1: cleared. bit 0 is read-only:
    // kept. bits written 0 stay 1.
    assert_eq!(xram(&mut ec, 0x1C00, Some(0x02)), Ok(0xFF));
    assert_eq!(ec.xram[0x1C00], 0xFD);
    assert_eq!(xram(&mut ec, 0x1C00, None), Ok(0xFD));
}

#[test]
fn write_only_bits_read_back_as_zero() {
    let mut ec = fresh(0x5570);
    // WNCKR at 0x200B is entirely write-only
    assert_eq!(xram(&mut ec, 0x200B, Some(0xAA)), Ok(0x00));
    assert_eq!(ec.xram[0x200B], 0xAA);
    assert_eq!(xram(&mut ec, 0x200B, None), Ok(0x00));
}

#[test]
fn read_only_bits_ignore_stores() {
    let mut ec = fresh(0x5570);
    // ISR0 at 0x1100 is entirely read-only
    ec.xram[0x1100] = 0x5A;
    assert_eq!(xram(&mut ec, 0x1100, Some(0xFF)), Ok(0x5A));
    assert_eq!(ec.xram[0x1100], 0x5A);
}

#[test]
fn kbscan_putc_emits_console_byte() {
    let mut ec = fresh(0x5570);
    assert_eq!(xram(&mut ec, 0x1D00, Some(0x41)), Ok(0x00));
    assert_eq!(xram(&mut ec, 0x1D01, Some(0x00)), Ok(0x00));
    assert_eq!(ec.take_console(), vec![0x41]);
    assert_eq!(ec.take_console(), Vec::<u8>::new());
    // a store with bit 0 set prints nothing
    assert_eq!(xram(&mut ec, 0x1D01, Some(0x01)), Ok(0x00));
    assert_eq!(ec.take_console(), Vec::<u8>::new());
}

#[test]
fn reset_writes_family_defaults() {
    let mut ec = fresh(0x5570);
    ec.reset();
    assert_eq!(ec.xram[0x1001], 0x3F);
    assert_eq!(ec.xram[0x1020], 0x08);
    assert_eq!(ec.xram[0x1042], 0x07);
    assert_eq!(ec.xram[0x1110], 0x10);
    assert_eq!(ec.xram[0x1506], 0x40);
    assert_eq!(ec.xram[0x16E5], 0x06);
    assert_eq!(ec.xram[0x1A01], 0x3C);
    assert_eq!(ec.xram[0x2000], 0x55);
    assert_eq!(ec.xram[0x2001], 0x70);
    assert_eq!(ec.xram[0x2002], 0x01);
    assert_eq!(ec.xram[0x2006], 0x4C);
    assert_eq!(ec.xram[0x3104], 0x03);
    assert_eq!(ec.xram[0x3247], 0x03);
    assert_eq!(ec.pc, 0);
    assert_eq!(ec.iram.load(0x81), 0x07);
    assert_eq!(ec.iram.load(0x90), 0xFF);

    let mut ec2 = fresh(0x8587);
    ec2.reset();
    assert_eq!(ec2.xram[0x1001], 0xBF);
    assert_eq!(ec2.xram[0x1042], 0x03);
    assert_eq!(ec2.xram[0x104E], 0x03);
    assert_eq!(ec2.xram[0x16E5], 0x00);
    assert_eq!(ec2.xram[0x2000], 0x85);
    assert_eq!(ec2.xram[0x2001], 0x87);
    assert_eq!(ec2.xram[0x2006], 0x8C);
    assert_eq!(ec2.xram[0x3104], 0x00);
}

#[test]
fn pmc_firmware_side_effects() {
    let mut ec = fresh(0x5570);
    // a store to PM1DO raises OBF
    assert_eq!(xram(&mut ec, 0x1501, Some(0x33)), Ok(0x00));
    assert_eq!(ec.xram[0x1500] & 0x01, 0x01);
    // a read of PM1DI clears IBF
    ec.xram[0x1500] |= 0x02;
    ec.xram[0x1504] = 0x44;
    assert_eq!(xram(&mut ec, 0x1504, None), Ok(0x44));
    assert_eq!(ec.xram[0x1500] & 0x02, 0x00);
}

#[test]
fn kbc_firmware_side_effects() {
    let mut ec = fresh(0x5570);
    assert_eq!(xram(&mut ec, 0x1306, Some(0x99)), Ok(0x00));
    assert_eq!(ec.xram[0x1304] & 0x01, 0x01);
    assert_eq!(xram(&mut ec, 0x1308, Some(0x98)), Ok(0x00));
    assert_eq!(ec.xram[0x1304] & 0x01, 0x01);
    ec.xram[0x1304] |= 0x02;
    ec.xram[0x130A] = 0x21;
    assert_eq!(xram(&mut ec, 0x130A, None), Ok(0x21));
    assert_eq!(ec.xram[0x1304] & 0x02, 0x00);
}

#[test]
fn scar_dma_copies_program_memory() {
    let mut pmem = vec![0xFF; 0x20000];
    for i in 0..0x800 {
        pmem[i] = (i * 7 % 256) as u8;
    }
    let mut ec = Ec::new(0x5570, 0x01, pmem.clone(), vec![0xFF; 0x20000]);
    ec.reset();
    // map window 0 at physical 0 and enable it
    assert!(xram(&mut ec, 0x1040, Some(0x00)).is_ok());
    assert!(xram(&mut ec, 0x1041, Some(0x00)).is_ok());
    assert!(xram(&mut ec, 0x1042, Some(0x80)).is_ok());
    // dropping the enable bit triggers the copy
    assert!(xram(&mut ec, 0x1042, Some(0x00)).is_ok());
    for i in 0..0x800 {
        assert_eq!(ec.xram[i], pmem[i]);
    }
    // a fetch inside the window range reads the shadowing XRAM
    assert_eq!(ec.try_pmem_load(0x0100), Some(ec.xram[0x100]));
}

#[test]
fn banked_fetch_uses_port_latch_or_ecbb() {
    let mut pmem = vec![0xFF; 0x20000];
    pmem[0x0042] = 0x11;
    pmem[0x10042] = 0x22;  // bank 1 image of 0x8042
    pmem[0x18042] = 0x33;  // bank 2 image of 0x8042
    let mut ec = Ec::new(0x5570, 0x01, pmem, vec![0xFF; 0x20000]);
    ec.reset();
    // move the SCAR window out of the way (reset leaves it at 0x30000)
    assert_eq!(ec.try_pmem_load(0x0042), Some(0x11));
    // FPCFG bit 7 is 0 after reset on 0x5570: the port-1 latch selects
    // the bank; its reset value 0xFF selects bank 3, past the image
    assert_eq!(ec.try_pmem_load(0x8042), None);
    ec.iram.store(0x90, 0x01);
    assert_eq!(ec.try_pmem_load(0x8042), Some(0x22));
    // with FPCFG bit 7 set, ECBB selects the bank instead
    ec.xram[0x1001] = 0xBF;
    ec.xram[0x1005] = 0x02;
    assert_eq!(ec.try_pmem_load(0x8042), Some(0x33));
}

#[test]
fn ecinddr_direct_reads_and_writes_external_flash() {
    let mut xmem = vec![0xFF; 0x20000];
    xmem[0x01234] = 0x77;
    let mut ec = Ec::new(0x5570, 0x01, vec![0xFF; 0x20000], xmem);
    // select the external flash at 0x01234
    assert!(xram(&mut ec, 0x103B, Some(0x34)).is_ok());
    assert!(xram(&mut ec, 0x103C, Some(0x12)).is_ok());
    assert!(xram(&mut ec, 0x103D, Some(0x00)).is_ok());
    assert!(xram(&mut ec, 0x103E, Some(0x00)).is_ok());
    assert_eq!(xram(&mut ec, 0x103F, None), Ok(0x77));
    assert_eq!(xram(&mut ec, 0x103F, Some(0x55)), Ok(0x77));
    assert_eq!(ec.xmem[0x01234], 0x55);
    // the store went to the flash buffer, not to the XRAM byte behind
    // the register
    assert_eq!(ec.xram[0x103F], 0x00);
}

#[test]
fn ecinddr_reserved_chip_select_is_an_error() {
    let mut ec = fresh(0x5570);
    ec.xram[0x103E] = 0x80;  // bits 6-7 = 0b10
    assert_eq!(
        xram(&mut ec, 0x103F, None),
        Err(Error::UnknownFlashChip { select: 2 })
    );
}

#[test]
fn ecinddr_reserved_follow_address_is_an_error() {
    let mut ec = fresh(0x5570);
    ec.xram[0x103E] = 0x0F;
    ec.xram[0x103C] = 0xAA;
    assert_eq!(
        xram(&mut ec, 0x103F, None),
        Err(Error::UnknownFollowAddress { follow: 0xAA })
    );
}

#[test]
fn jedec_id_through_indirect_follow() {
    let mut ec = fresh(0x5570);
    // follow mode: ECINDAR3 low nibble 0xF, ECINDAR1 0xFD for transfers
    assert!(xram(&mut ec, 0x103E, Some(0x0F)).is_ok());
    assert!(xram(&mut ec, 0x103C, Some(0xFD)).is_ok());
    // push the JEDEC id opcode while chip-selected
    assert!(xram(&mut ec, 0x103F, Some(0x9F)).is_ok());
    // reads step the device and drain its output in order
    assert_eq!(xram(&mut ec, 0x103F, None), Ok(0xEF));
    assert_eq!(xram(&mut ec, 0x103F, None), Ok(0xEF));
    assert_eq!(xram(&mut ec, 0x103F, None), Ok(0xEF));
    // de-asserting chip select leaves the input queue empty
    assert!(xram(&mut ec, 0x103C, Some(0xFE)).is_ok());
    assert!(xram(&mut ec, 0x103F, None).is_ok());
    assert!(ec.spi.input.is_empty());
}

#[test]
fn follow_read_without_output_is_an_error() {
    let mut ec = fresh(0x5570);
    assert!(xram(&mut ec, 0x103E, Some(0x0F)).is_ok());
    assert!(xram(&mut ec, 0x103C, Some(0xFD)).is_ok());
    // no command queued: stepping produces no output to read
    assert_eq!(xram(&mut ec, 0x103F, None), Err(Error::MissingFollowOutput));
}

#[test]
fn try_xram_refuses_out_of_range_indirection() {
    let mut ec = fresh(0x5570);
    // direct access at 0x3FFFFF, past the 128 KiB buffer
    ec.xram[0x103B] = 0xFF;
    ec.xram[0x103C] = 0xFF;
    ec.xram[0x103D] = 0x3F;
    ec.xram[0x103E] = 0x00;
    assert_eq!(ecsim::xram::try_xram(&mut ec, 0x103F, None), None);
    // a plain register access is unaffected
    assert_eq!(
        ecsim::xram::try_xram(&mut ec, 0x0100, Some(0x12)),
        Some(Ok(0x00))
    );
}

#[test]
fn trigger_interrupt_pushes_return_address() {
    let mut ec = fresh(0x5570);
    ec.reset();
    ec.pc = 0x1234;
    ec.trigger_interrupt(2);
    assert_eq!(ec.pc, 0x0013);
    assert_eq!(ec.iram.load(0x81), 0x09);
    assert_eq!(ec.iram.load(0x08), 0x34);
    assert_eq!(ec.iram.load(0x09), 0x12);
}

#[test]
fn iram_transaction_loads_and_stores() {
    let mut iram = ecsim::IRam::new();
    assert_eq!(iram.transaction(0x81, None), 0x07);
    assert_eq!(iram.transaction(0xE0, Some(0x42)), 0x00);
    assert_eq!(iram.transaction(0xE0, None), 0x42);
}

#[test]
fn gcr9_write_only_mask_differs_by_family() {
    let mut ec = fresh(0x8587);
    ec.xram[0x16F8] = 0xFF;
    assert_eq!(xram(&mut ec, 0x16F8, None), Ok(0xFB));
    let mut ec2 = fresh(0x5570);
    ec2.xram[0x16F8] = 0xFF;
    assert_eq!(xram(&mut ec2, 0x16F8, None), Ok(0xFF));
}

#[test]
fn rsts_masks_differ_by_family() {
    // on 0x5570 the low two bits are write-clear
    let mut ec = fresh(0x5570);
    ec.xram[0x2006] = 0x03;
    assert_eq!(xram(&mut ec, 0x2006, Some(0x03)), Ok(0x03));
    assert_eq!(ec.xram[0x2006], 0x00);
    // on 0x8587 they are read-only
    let mut ec2 = fresh(0x8587);
    ec2.xram[0x2006] = 0x03;
    assert_eq!(xram(&mut ec2, 0x2006, Some(0x00)), Ok(0x03));
    assert_eq!(ec2.xram[0x2006], 0x03);
}

#[test]
fn smbus_engine_f_exists_only_on_5570() {
    let mut ec = fresh(0x5570);
    assert_eq!(xram(&mut ec, 0x1CB0, None), Ok(0x00));
    let mut ec2 = fresh(0x8587);
    assert_eq!(
        xram(&mut ec2, 0x1CB0, None),
        Err(Error::UnknownOffset { address: 0x1CB0 })
    );
}

#[test]
fn scar_window_four_on_8587() {
    let mut pmem = vec![0xFF; 0x20000];
    for i in 0..0x100 {
        pmem[0x1000 + i] = (i * 3 % 256) as u8;
    }
    let mut ec = Ec::new(0x8587, 0x06, pmem.clone(), vec![0xFF; 0x20000]);
    ec.reset();
    // window 4: registers at 0x104C, shadow at 0x0F00, 256 bytes
    assert!(xram(&mut ec, 0x104C, Some(0x00)).is_ok());
    assert!(xram(&mut ec, 0x104D, Some(0x10)).is_ok());
    assert!(xram(&mut ec, 0x104E, Some(0x80)).is_ok());
    assert!(xram(&mut ec, 0x104E, Some(0x00)).is_ok());
    for i in 0..0x100 {
        assert_eq!(ec.xram[0x0F00 + i], pmem[0x1000 + i]);
    }
}

#[test]
fn ecinddr_direct_program_memory_target() {
    let mut pmem = vec![0xFF; 0x20000];
    pmem[0x0800] = 0x3D;
    let mut ec = Ec::new(0x5570, 0x01, pmem, vec![0xFF; 0x20000]);
    // bits 6-7 of ECINDAR3 = 0b01 select program memory
    ec.xram[0x103B] = 0x00;
    ec.xram[0x103C] = 0x08;
    ec.xram[0x103D] = 0x00;
    ec.xram[0x103E] = 0x40;
    assert_eq!(xram(&mut ec, 0x103F, None), Ok(0x3D));
    assert_eq!(xram(&mut ec, 0x103F, Some(0x99)), Ok(0x3D));
    assert_eq!(ec.pmem[0x0800], 0x99);
}
