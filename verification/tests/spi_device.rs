//! Tests of the SPI flash device model.

use ecsim::Spi;

fn blank_flash(len: usize) -> Vec<u8> {
    vec![0xAB; len]
}

#[test]
fn jedec_id_emits_three_bytes() {
    let mut spi = Spi::new();
    let mut flash = blank_flash(1024);
    spi.input.push(0x9F);
    spi.step(&mut flash).unwrap();
    assert_eq!(spi.output, vec![0xEF, 0xEF, 0xEF]);
    assert!(spi.input.is_empty());
}

#[test]
fn write_enable_and_read_status() {
    let mut spi = Spi::new();
    let mut flash = blank_flash(256);
    spi.input.push(0x06);
    spi.step(&mut flash).unwrap();
    assert!(spi.write);

    spi.input.push(0x05);
    spi.step(&mut flash).unwrap();
    assert_eq!(spi.output, vec![0x02]);
}

#[test]
fn write_disable_clears_state() {
    let mut spi = Spi::new();
    let mut flash = blank_flash(256);
    spi.write = true;
    spi.aai_addr = Some(0x40);
    spi.input.push(0x04);
    spi.step(&mut flash).unwrap();
    assert!(!spi.write);
    assert_eq!(spi.aai_addr, None);

    spi.input.push(0x05);
    spi.step(&mut flash).unwrap();
    assert_eq!(spi.output, vec![0x00]);
}

#[test]
fn write_status_discards_parameter() {
    let mut spi = Spi::new();
    let mut flash = blank_flash(256);
    spi.input.push(0x01);
    spi.input.push(0x77);
    spi.step(&mut flash).unwrap();
    assert!(spi.input.is_empty());
    assert!(spi.output.is_empty());
    assert_eq!(flash, blank_flash(256));
}

#[test]
fn chip_erase_blanks_flash() {
    let mut spi = Spi::new();
    let mut flash = blank_flash(2048);
    spi.input.push(0x60);
    spi.step(&mut flash).unwrap();
    assert!(spi.input.is_empty());
    assert!(flash.iter().all(|&b| b == 0xFF));
}

#[test]
fn page_program_writes_bytes() {
    let mut spi = Spi::new();
    let mut flash = blank_flash(0x20000);
    // program 0x11 0x22 0x33 at 0x012345
    for b in [0x02, 0x01, 0x23, 0x45, 0x11, 0x22, 0x33] {
        spi.input.push(b);
    }
    spi.step(&mut flash).unwrap();
    assert_eq!(flash[0x012345], 0x11);
    assert_eq!(flash[0x012346], 0x22);
    assert_eq!(flash[0x012347], 0x33);
    assert_eq!(flash[0x012348], 0xAB);
}

#[test]
fn page_program_wraps_within_page() {
    let mut spi = Spi::new();
    let mut flash = blank_flash(0x20000);
    // 257 bytes starting at 0x0001FF: the writes wrap to 0x000100
    spi.input.push(0x02);
    spi.input.push(0x00);
    spi.input.push(0x01);
    spi.input.push(0xFF);
    let data: Vec<u8> = (0..257).map(|i| (i % 251) as u8).collect();
    for &b in &data {
        spi.input.push(b);
    }
    spi.step(&mut flash).unwrap();
    // the second byte landed at 0x100, the third at 0x101, ...
    for t in 0..255 {
        assert_eq!(flash[0x100 + t], data[t + 1]);
    }
    // the 257th byte overwrote the first at 0x1FF
    assert_eq!(flash[0x1FF], data[256]);
}

#[test]
fn page_erase_blanks_256_bytes() {
    let mut spi = Spi::new();
    let mut flash = blank_flash(0x20000);
    for b in [0xD7, 0x00, 0x02, 0x00] {
        spi.input.push(b);
    }
    spi.step(&mut flash).unwrap();
    for i in 0x200..0x300 {
        assert_eq!(flash[i], 0xFF);
    }
    assert_eq!(flash[0x1FF], 0xAB);
    assert_eq!(flash[0x300], 0xAB);
}

#[test]
fn aai_program_latches_address() {
    let mut spi = Spi::new();
    let mut flash = blank_flash(0x20000);
    // explicit address, two data bytes
    for b in [0xAD, 0x00, 0x04, 0x00, 0x10, 0x20] {
        spi.input.push(b);
    }
    spi.step(&mut flash).unwrap();
    assert_eq!(flash[0x400], 0x10);
    assert_eq!(flash[0x401], 0x20);
    assert_eq!(spi.aai_addr, Some(0x402));

    // latched address, two more bytes
    for b in [0xAD, 0x30, 0x40] {
        spi.input.push(b);
    }
    spi.step(&mut flash).unwrap();
    assert_eq!(flash[0x402], 0x30);
    assert_eq!(flash[0x403], 0x40);
    assert_eq!(spi.aai_addr, Some(0x404));
}

#[test]
fn fast_read_streams_bytes() {
    let mut spi = Spi::new();
    let mut flash = blank_flash(0x20000);
    flash[0x500] = 0x0A;
    flash[0x501] = 0x0B;
    flash[0x502] = 0x0C;
    for b in [0x0B, 0x00, 0x05, 0x00, 0x00] {
        spi.input.push(b);
    }
    spi.step(&mut flash).unwrap();
    assert_eq!(spi.output, vec![0x0A]);
    spi.step(&mut flash).unwrap();
    spi.step(&mut flash).unwrap();
    assert_eq!(spi.output, vec![0x0A, 0x0B, 0x0C]);
}

#[test]
fn fast_read_stops_at_flash_end() {
    let mut spi = Spi::new();
    let mut flash = blank_flash(0x10);
    for b in [0x0B, 0x00, 0x00, 0x0F, 0x00] {
        spi.input.push(b);
    }
    spi.step(&mut flash).unwrap();
    assert_eq!(spi.output, vec![0xAB]);
    assert_eq!(spi.fast_read_addr, None);
    spi.step(&mut flash).unwrap();
    assert_eq!(spi.output, vec![0xAB]);
}

#[test]
fn unknown_command_is_an_error() {
    let mut spi = Spi::new();
    let mut flash = blank_flash(256);
    spi.input.push(0x77);
    assert_eq!(
        spi.step(&mut flash),
        Err(ecsim::Error::UnknownSpiCommand { opcode: 0x77 })
    );
}

#[test]
fn missing_parameter_is_an_error() {
    let mut spi = Spi::new();
    let mut flash = blank_flash(256);
    spi.input.push(0x02);
    assert_eq!(
        spi.step(&mut flash),
        Err(ecsim::Error::MissingSpiParameter { opcode: 0x02 })
    );
}

#[test]
fn residue_after_command_is_an_error() {
    let mut spi = Spi::new();
    let mut flash = blank_flash(256);
    spi.input.push(0x06);
    spi.input.push(0x00);
    assert_eq!(
        spi.step(&mut flash),
        Err(ecsim::Error::SpiInputResidue { opcode: 0x06 })
    );
}

#[test]
fn aai_without_address_is_an_error() {
    let mut spi = Spi::new();
    let mut flash = blank_flash(256);
    spi.input.push(0xAD);
    spi.input.push(0x10);
    spi.input.push(0x20);
    assert_eq!(spi.step(&mut flash), Err(ecsim::Error::MissingAaiAddress));
}
