//! The MMIO decoder: every firmware access to external RAM routes
//! through [`xram`], which decodes the address into a register, applies
//! the register's side effects, commits the store under the register's
//! bit-access policy, and returns the byte the access reads back.

use vstd::prelude::*;

use crate::Error;
use crate::ec::{Ec, EcState, PMEM_SIZE, lemma_scar_entry_bounds, scar_table, scar_phys};
use crate::spi::{SpiState, step_spec, step_ok};

verus! {

/// Per-register bit-access policy. A register may declare up to three
/// masks; bits outside every mask are plain read/write.
pub struct Masks {
    /// Writing 1 to such a bit clears it; writing 0 leaves it.
    pub write_clear: u8,
    /// Such a bit ignores stores and keeps its value.
    pub read_only: u8,
    /// Such a bit always reads back as 0.
    pub write_only: u8,
}

/// What an XRAM address decodes to.
pub enum Decode {
    /// The address lies outside every modelled region.
    NoRegion,
    /// The region is known but the chip has no register at this offset.
    NoOffset,
    /// A register with its access policy.
    Reg(Masks),
}

/// The byte stored after a write of `v` over `stored`: read-only bits
/// keep their value, write-clear bits are cleared exactly where `v`
/// holds 1, and every other bit takes `v`.
pub open spec fn commit_byte(stored: u8, v: u8, wc: u8, ro: u8) -> u8 {
    (stored & ro) | ((stored & !v) & wc & !ro) | (v & !wc & !ro)
}

fn commit_byte_x(stored: u8, v: u8, wc: u8, ro: u8) -> (r: u8)
    ensures
        r == commit_byte(stored, v, wc, ro),
{
    (stored & ro) | ((stored & !v) & wc & !ro) | (v & !wc & !ro)
}

/// The 32-bit indirect flash address packed into the four ECINDAR bytes.
pub open spec fn addr32(a3: u8, a2: u8, a1: u8, a0: u8) -> usize {
    (a0 as usize) | ((a1 as usize) << 8) | ((a2 as usize) << 16) | ((a3 as usize) << 24)
}

/// Which SCAR window, if any, has its high mapping register at
/// `address` on chip `id`.
pub open spec fn scar_index(id: u16, address: u16) -> Option<usize> {
    if address == 0x1042 {
        Some(0usize)
    } else if id == 0x8587 && address == 0x1045 {
        Some(1usize)
    } else if id == 0x8587 && address == 0x1048 {
        Some(2usize)
    } else if id == 0x8587 && address == 0x104B {
        Some(3usize)
    } else if id == 0x8587 && address == 0x104E {
        Some(4usize)
    } else {
        None
    }
}

fn scar_index_x(id: u16, address: u16) -> (r: Option<usize>)
    ensures
        r == scar_index(id, address),
{
    if address == 0x1042 {
        Some(0)
    } else if id == 0x8587 && address == 0x1045 {
        Some(1)
    } else if id == 0x8587 && address == 0x1048 {
        Some(2)
    } else if id == 0x8587 && address == 0x104B {
        Some(3)
    } else if id == 0x8587 && address == 0x104E {
        Some(4)
    } else {
        None
    }
}

/// XRAM after the SCAR DMA copy: `size` program-memory bytes at `phys`
/// land at `base`.
pub open spec fn dma_bytes(
    xram: Seq<u8>,
    pmem: Seq<u8>,
    base: usize,
    phys: usize,
    size: usize,
) -> Seq<u8> {
    Seq::new(xram.len(), |j: int| if base <= j < base + size { pmem[phys + (j - base)] } else { xram[j] })
}

/// The mapped physical address of window `x`, read from its three
/// mapping registers.
pub open spec fn window_phys(s: EcState, x: int) -> usize {
    let reg = scar_table(s.id)[x].0;
    scar_phys(s.xram[reg as int], s.xram[reg + 1], s.xram[reg + 2])
}

/// State after the pre-commit side effect of accessing `address`:
/// a falling SCAR enable bit triggers the window's DMA copy; mailbox
/// data registers flip the status flags of their mailbox; a store to
/// KSOH1 with bit 0 clear prints the byte latched at KSOL.
pub open spec fn side_effect_bytes(s: EcState, address: u16, old0: u8, new_opt: Option<u8>) -> EcState {
    match scar_index(s.id, address) {
        Some(x) => match new_opt {
            Some(v) => if old0 & 0x80 != 0 && v & 0x80 == 0 {
                let base = scar_table(s.id)[x as int].1;
                let size = scar_table(s.id)[x as int].2;
                EcState { xram: dma_bytes(s.xram, s.pmem, base, window_phys(s, x as int), size), ..s }
            } else {
                s
            },
            None => s,
        },
        None => {
            if address == 0x1306 || address == 0x1308 {
                // a touch of a KBC data-out register raises OBF
                EcState { xram: s.xram.update(0x1304, s.xram[0x1304] | 1), ..s }
            } else if address == 0x130A {
                // a touch of the KBC data-in register clears IBF
                EcState { xram: s.xram.update(0x1304, s.xram[0x1304] & !2u8), ..s }
            } else if address == 0x1501 {
                // a touch of the PMC data-out register raises OBF
                EcState { xram: s.xram.update(0x1500, s.xram[0x1500] | 1), ..s }
            } else if address == 0x1504 {
                // a touch of the PMC data-in register clears IBF
                EcState { xram: s.xram.update(0x1500, s.xram[0x1500] & !2u8), ..s }
            } else if address == 0x1D01 {
                match new_opt {
                    Some(v) => if v & 1 == 0 {
                        EcState { console: s.console.push(s.xram[0x1D00]), ..s }
                    } else {
                        s
                    },
                    None => s,
                }
            } else {
                s
            }
        },
    }
}

/// Writes `flash` back into the buffer that `sel` picked.
pub open spec fn put_flash(s: EcState, sel: u8, flash: Seq<u8>) -> EcState {
    if sel == 1 {
        EcState { pmem: flash, ..s }
    } else {
        EcState { xmem: flash, ..s }
    }
}

/// An ECINDDR follow read: terminate the queued SPI command against the
/// selected flash, then take the first output byte.
pub open spec fn follow_read(s: EcState, sel: u8) -> (EcState, Result<u8, Error>) {
    let flash = if sel == 1 { s.pmem } else { s.xmem };
    let stepped = step_spec(s.spi, flash);
    let s2 = put_flash(EcState { spi: stepped.0, ..s }, sel, stepped.1);
    match stepped.2 {
        Err(e) => (s2, Err(e)),
        Ok(u) => if stepped.0.output.len() == 0 {
            (s2, Err(Error::MissingFollowOutput))
        } else {
            (
                EcState {
                    spi: SpiState { output: stepped.0.output.skip(1), ..stepped.0 },
                    ..s2
                },
                Ok(stepped.0.output[0]),
            )
        },
    }
}

/// An ECINDDR follow terminate: de-assert chip select, which steps the
/// SPI device; a store also lands in the ECINDDR backing byte.
pub open spec fn follow_terminate(s: EcState, sel: u8, new_opt: Option<u8>) -> (EcState, Result<
    u8,
    Error,
>) {
    let flash = if sel == 1 { s.pmem } else { s.xmem };
    let stepped = step_spec(s.spi, flash);
    let s2 = put_flash(EcState { spi: stepped.0, ..s }, sel, stepped.1);
    match stepped.2 {
        Err(e) => (s2, Err(e)),
        Ok(u) => {
            let old0 = s.xram[0x103F];
            match new_opt {
                Some(v) => (EcState { xram: s2.xram.update(0x103F, v), ..s2 }, Ok(old0)),
                None => (s2, Ok(old0)),
            }
        },
    }
}

/// Effect of an ECINDDR access: the four ECINDAR bytes select a flash
/// target and either a follow operation (raw SPI traffic) or a direct
/// byte access of the selected flash buffer. A direct store lands in
/// the selected buffer only, never in the XRAM byte behind the
/// register; a follow store also latches the byte there.
pub open spec fn ecinddr_model(s: EcState, new_opt: Option<u8>) -> (EcState, Result<u8, Error>) {
    let a0 = s.xram[0x103B];
    let a1 = s.xram[0x103C];
    let a2 = s.xram[0x103D];
    let a3 = s.xram[0x103E];
    let sel = (a3 >> 6) & 3;
    if sel == 2 {
        (s, Err(Error::UnknownFlashChip { select: sel }))
    } else if a3 & 0xF == 0xF {
        if a1 == 0xFD {
            match new_opt {
                Some(v) => (
                    EcState {
                        spi: SpiState { input: s.spi.input.push(v), ..s.spi },
                        xram: s.xram.update(0x103F, v),
                        ..s
                    },
                    Ok(s.xram[0x103F]),
                ),
                None => follow_read(s, sel),
            }
        } else if a1 == 0xFE {
            follow_terminate(s, sel, new_opt)
        } else {
            (s, Err(Error::UnknownFollowAddress { follow: a1 }))
        }
    } else {
        let i = addr32(a3, a2, a1, a0) & 0xFFFFFF;
        if sel == 1 {
            let old0 = s.pmem[i as int];
            match new_opt {
                Some(v) => (EcState { pmem: s.pmem.update(i as int, v), ..s }, Ok(old0)),
                None => (s, Ok(old0)),
            }
        } else {
            let old0 = s.xmem[i as int];
            match new_opt {
                Some(v) => (EcState { xmem: s.xmem.update(i as int, v), ..s }, Ok(old0)),
                None => (s, Ok(old0)),
            }
        }
    }
}

/// Complete effect of one XRAM access on the controller, and the byte
/// or error it returns.
pub open spec fn access_model(s: EcState, address: u16, new_opt: Option<u8>) -> (EcState, Result<
    u8,
    Error,
>) {
    match decode(s.id, address) {
        Decode::NoRegion => (s, Err(Error::UnknownRegion { address })),
        Decode::NoOffset => (s, Err(Error::UnknownOffset { address })),
        Decode::Reg(m) => {
            if address == 0x103F {
                ecinddr_model(s, new_opt)
            } else {
                let old0 = s.xram[address as int];
                let s1 = side_effect_bytes(s, address, old0, new_opt);
                let s2 = match new_opt {
                    Some(v) => EcState {
                        xram: s1.xram.update(
                            address as int,
                            commit_byte(old0, v, m.write_clear, m.read_only),
                        ),
                        ..s1
                    },
                    None => s1,
                };
                (s2, Ok(old0 & !m.write_only))
            }
        },
    }
}

/// Every flash or program-memory index the access touches is in bounds.
/// The addresses come from registers the firmware programs, so a
/// misprogrammed indirection is ruled out here rather than modelled.
pub open spec fn access_ok(s: EcState, address: u16, new_opt: Option<u8>) -> bool {
    if address == 0x103F {
        let a0 = s.xram[0x103B];
        let a1 = s.xram[0x103C];
        let a2 = s.xram[0x103D];
        let a3 = s.xram[0x103E];
        let sel = (a3 >> 6) & 3;
        let flash_len = if sel == 1 { s.pmem.len() } else { s.xmem.len() };
        if sel == 2 {
            true
        } else if a3 & 0xF == 0xF {
            if a1 == 0xFD {
                new_opt is None ==> step_ok(s.spi, flash_len)
            } else if a1 == 0xFE {
                step_ok(s.spi, flash_len)
            } else {
                true
            }
        } else {
            (addr32(a3, a2, a1, a0) & 0xFFFFFF) < flash_len
        }
    } else {
        match scar_index(s.id, address) {
            Some(x) => match new_opt {
                Some(v) => (s.xram[address as int] & 0x80 != 0 && v & 0x80 == 0)
                    ==> window_phys(s, x as int) + scar_table(s.id)[x as int].2 <= PMEM_SIZE,
                None => true,
            },
            None => true,
        }
    }
}

pub open spec fn decode_smfi(id: u16, offset: u16) -> Decode {
    if offset == 0x00 || offset == 0x01 || offset == 0x05 || offset == 0x07 {
        Decode::Reg(Masks { write_clear: 0x00, read_only: 0x00, write_only: 0x00 })
    } else if offset == 0x20 {
        Decode::Reg(Masks { write_clear: 0x40, read_only: 0x18, write_only: 0x00 })
    } else if offset == 0x32 || offset == 0x33 || offset == 0x36 || offset == 0x3B || offset == 0x3C || offset == 0x3D {
        Decode::Reg(Masks { write_clear: 0x00, read_only: 0x00, write_only: 0x00 })
    } else if offset == 0x3E {
        Decode::Reg(Masks { write_clear: 0x00, read_only: 0x30, write_only: 0xC0 })
    } else if offset == 0x3F {
        Decode::Reg(Masks { write_clear: 0x00, read_only: 0x00, write_only: 0x00 })
    } else if offset == 0x40 || offset == 0x41 {
        Decode::Reg(Masks { write_clear: 0x00, read_only: 0x00, write_only: 0x00 })
    } else if offset == 0x42 {
        Decode::Reg(Masks { write_clear: 0x00, read_only: 0x00, write_only: if id == 0x5570 { 0x80 } else { 0x00 } })
    } else if id == 0x8587 && (offset == 0x43 || offset == 0x44 || offset == 0x45 || offset == 0x46 || offset == 0x47 || offset == 0x48 || offset == 0x49 || offset == 0x4A || offset == 0x4B || offset == 0x4C || offset == 0x4D || offset == 0x4E) {
        Decode::Reg(Masks { write_clear: 0x00, read_only: 0x00, write_only: 0x00 })
    } else if offset == 0x58 {
        Decode::Reg(Masks { write_clear: 0x00, read_only: 0x00, write_only: 0x48 })
    } else if offset == 0x5A || offset == 0x5B || offset == 0x5C || offset == 0x5D || offset == 0x5E || offset == 0x63 {
        Decode::Reg(Masks { write_clear: 0x00, read_only: 0x00, write_only: 0x00 })
    } else {
        Decode::NoOffset
    }
}

fn decode_smfi_x(id: u16, offset: u16) -> (r: Decode)
    ensures
        r == decode_smfi(id, offset),
{
    if offset == 0x00 || offset == 0x01 || offset == 0x05 || offset == 0x07 {
        Decode::Reg(Masks { write_clear: 0x00, read_only: 0x00, write_only: 0x00 })
    } else if offset == 0x20 {
        Decode::Reg(Masks { write_clear: 0x40, read_only: 0x18, write_only: 0x00 })
    } else if offset == 0x32 || offset == 0x33 || offset == 0x36 || offset == 0x3B || offset == 0x3C || offset == 0x3D {
        Decode::Reg(Masks { write_clear: 0x00, read_only: 0x00, write_only: 0x00 })
    } else if offset == 0x3E {
        Decode::Reg(Masks { write_clear: 0x00, read_only: 0x30, write_only: 0xC0 })
    } else if offset == 0x3F {
        Decode::Reg(Masks { write_clear: 0x00, read_only: 0x00, write_only: 0x00 })
    } else if offset == 0x40 || offset == 0x41 {
        Decode::Reg(Masks { write_clear: 0x00, read_only: 0x00, write_only: 0x00 })
    } else if offset == 0x42 {
        Decode::Reg(Masks { write_clear: 0x00, read_only: 0x00, write_only: if id == 0x5570 { 0x80 } else { 0x00 } })
    } else if id == 0x8587 && (offset == 0x43 || offset == 0x44 || offset == 0x45 || offset == 0x46 || offset == 0x47 || offset == 0x48 || offset == 0x49 || offset == 0x4A || offset == 0x4B || offset == 0x4C || offset == 0x4D || offset == 0x4E) {
        Decode::Reg(Masks { write_clear: 0x00, read_only: 0x00, write_only: 0x00 })
    } else if offset == 0x58 {
        Decode::Reg(Masks { write_clear: 0x00, read_only: 0x00, write_only: 0x48 })
    } else if offset == 0x5A || offset == 0x5B || offset == 0x5C || offset == 0x5D || offset == 0x5E || offset == 0x63 {
        Decode::Reg(Masks { write_clear: 0x00, read_only: 0x00, write_only: 0x00 })
    } else {
        Decode::NoOffset
    }
}

pub open spec fn decode_intc(id: u16, offset: u16) -> Decode {
    if offset == 0x00 || offset == 0x01 || offset == 0x02 || offset == 0x14 || offset == 0x18 || offset == 0x1C || offset == 0x20 || offset == 0x24 || offset == 0x28 || offset == 0x2C || offset == 0x30 || offset == 0x34 || offset == 0x38 || offset == 0x3C || offset == 0x40 || offset == 0x44 || offset == 0x48 || offset == 0x4C || offset == 0x50 || offset == 0x54 || offset == 0x58 {
        Decode::Reg(Masks { write_clear: 0x00, read_only: 0xFF, write_only: 0x00 })
    } else if offset == 0x03 {
        Decode::Reg(Masks { write_clear: 0x00, read_only: 0x00, write_only: 0x00 })
    } else if offset == 0x05 || offset == 0x07 || offset == 0x15 || offset == 0x19 || offset == 0x1D || offset == 0x21 || offset == 0x25 || offset == 0x29 || offset == 0x2D || offset == 0x31 || offset == 0x35 || offset == 0x39 || offset == 0x3D || offset == 0x41 || offset == 0x45 || offset == 0x49 || offset == 0x4D || offset == 0x51 || offset == 0x55 || offset == 0x59 {
        Decode::Reg(Masks { write_clear: 0x00, read_only: 0x00, write_only: 0x00 })
    } else if offset == 0x10 {
        Decode::Reg(Masks { write_clear: 0x00, read_only: 0xFF, write_only: 0x00 })
    } else {
        Decode::NoOffset
    }
}

fn decode_intc_x(id: u16, offset: u16) -> (r: Decode)
    ensures
        r == decode_intc(id, offset),
{
    if offset == 0x00 || offset == 0x01 || offset == 0x02 || offset == 0x14 || offset == 0x18 || offset == 0x1C || offset == 0x20 || offset == 0x24 || offset == 0x28 || offset == 0x2C || offset == 0x30 || offset == 0x34 || offset == 0x38 || offset == 0x3C || offset == 0x40 || offset == 0x44 || offset == 0x48 || offset == 0x4C || offset == 0x50 || offset == 0x54 || offset == 0x58 {
        Decode::Reg(Masks { write_clear: 0x00, read_only: 0xFF, write_only: 0x00 })
    } else if offset == 0x03 {
        Decode::Reg(Masks { write_clear: 0x00, read_only: 0x00, write_only: 0x00 })
    } else if offset == 0x05 || offset == 0x07 || offset == 0x15 || offset == 0x19 || offset == 0x1D || offset == 0x21 || offset == 0x25 || offset == 0x29 || offset == 0x2D || offset == 0x31 || offset == 0x35 || offset == 0x39 || offset == 0x3D || offset == 0x41 || offset == 0x45 || offset == 0x49 || offset == 0x4D || offset == 0x51 || offset == 0x55 || offset == 0x59 {
        Decode::Reg(Masks { write_clear: 0x00, read_only: 0x00, write_only: 0x00 })
    } else if offset == 0x10 {
        Decode::Reg(Masks { write_clear: 0x00, read_only: 0xFF, write_only: 0x00 })
    } else {
        Decode::NoOffset
    }
}

pub open spec fn decode_e2ci(id: u16, offset: u16) -> Decode {
    if offset == 0x00 || offset == 0x01 || offset == 0x02 || offset == 0x04 {
        Decode::Reg(Masks { write_clear: 0x00, read_only: 0x00, write_only: 0x00 })
    } else if offset == 0x05 {
        Decode::Reg(Masks { write_clear: 0x00, read_only: 0x04, write_only: 0x00 })
    } else {
        Decode::NoOffset
    }
}

fn decode_e2ci_x(id: u16, offset: u16) -> (r: Decode)
    ensures
        r == decode_e2ci(id, offset),
{
    if offset == 0x00 || offset == 0x01 || offset == 0x02 || offset == 0x04 {
        Decode::Reg(Masks { write_clear: 0x00, read_only: 0x00, write_only: 0x00 })
    } else if offset == 0x05 {
        Decode::Reg(Masks { write_clear: 0x00, read_only: 0x04, write_only: 0x00 })
    } else {
        Decode::NoOffset
    }
}

pub open spec fn decode_kbc(id: u16, offset: u16) -> Decode {
    if offset == 0x00 {
        Decode::Reg(Masks { write_clear: 0x00, read_only: 0x00, write_only: 0x00 })
    } else if offset == 0x02 {
        Decode::Reg(Masks { write_clear: 0x00, read_only: 0x80, write_only: 0x00 })
    } else if offset == 0x04 {
        Decode::Reg(Masks { write_clear: 0x00, read_only: 0x0B, write_only: 0x00 })
    } else if offset == 0x06 || offset == 0x08 {
        Decode::Reg(Masks { write_clear: 0x00, read_only: 0x00, write_only: 0xFF })
    } else if offset == 0x0A {
        Decode::Reg(Masks { write_clear: 0x00, read_only: 0xFF, write_only: 0x00 })
    } else {
        Decode::NoOffset
    }
}

fn decode_kbc_x(id: u16, offset: u16) -> (r: Decode)
    ensures
        r == decode_kbc(id, offset),
{
    if offset == 0x00 {
        Decode::Reg(Masks { write_clear: 0x00, read_only: 0x00, write_only: 0x00 })
    } else if offset == 0x02 {
        Decode::Reg(Masks { write_clear: 0x00, read_only: 0x80, write_only: 0x00 })
    } else if offset == 0x04 {
        Decode::Reg(Masks { write_clear: 0x00, read_only: 0x0B, write_only: 0x00 })
    } else if offset == 0x06 || offset == 0x08 {
        Decode::Reg(Masks { write_clear: 0x00, read_only: 0x00, write_only: 0xFF })
    } else if offset == 0x0A {
        Decode::Reg(Masks { write_clear: 0x00, read_only: 0xFF, write_only: 0x00 })
    } else {
        Decode::NoOffset
    }
}

pub open spec fn decode_swuc(id: u16, offset: u16) -> Decode {
    if offset == 0x08 || offset == 0x0A {
        Decode::Reg(Masks { write_clear: 0x00, read_only: 0x00, write_only: 0x00 })
    } else {
        Decode::NoOffset
    }
}

fn decode_swuc_x(id: u16, offset: u16) -> (r: Decode)
    ensures
        r == decode_swuc(id, offset),
{
    if offset == 0x08 || offset == 0x0A {
        Decode::Reg(Masks { write_clear: 0x00, read_only: 0x00, write_only: 0x00 })
    } else {
        Decode::NoOffset
    }
}

pub open spec fn decode_pmc(id: u16, offset: u16) -> Decode {
    if offset == 0x00 {
        Decode::Reg(Masks { write_clear: 0x00, read_only: 0x0B, write_only: 0x00 })
    } else if offset == 0x01 {
        Decode::Reg(Masks { write_clear: 0x00, read_only: 0x00, write_only: 0xFF })
    } else if offset == 0x04 {
        Decode::Reg(Masks { write_clear: 0x00, read_only: 0xFF, write_only: 0x00 })
    } else if offset == 0x06 || offset == 0x16 {
        Decode::Reg(Masks { write_clear: 0x00, read_only: 0x00, write_only: 0x00 })
    } else if offset == 0x30 {
        Decode::Reg(Masks { write_clear: 0x00, read_only: 0x0B, write_only: 0x00 })
    } else {
        Decode::NoOffset
    }
}

fn decode_pmc_x(id: u16, offset: u16) -> (r: Decode)
    ensures
        r == decode_pmc(id, offset),
{
    if offset == 0x00 {
        Decode::Reg(Masks { write_clear: 0x00, read_only: 0x0B, write_only: 0x00 })
    } else if offset == 0x01 {
        Decode::Reg(Masks { write_clear: 0x00, read_only: 0x00, write_only: 0xFF })
    } else if offset == 0x04 {
        Decode::Reg(Masks { write_clear: 0x00, read_only: 0xFF, write_only: 0x00 })
    } else if offset == 0x06 || offset == 0x16 {
        Decode::Reg(Masks { write_clear: 0x00, read_only: 0x00, write_only: 0x00 })
    } else if offset == 0x30 {
        Decode::Reg(Masks { write_clear: 0x00, read_only: 0x0B, write_only: 0x00 })
    } else {
        Decode::NoOffset
    }
}

pub open spec fn decode_gpio(id: u16, offset: u16) -> Decode {
    if offset == 0x00 || offset == 0x01 || offset == 0x02 || offset == 0x03 || offset == 0x04 || offset == 0x05 || offset == 0x06 || offset == 0x07 || offset == 0x08 || offset == 0x09 || offset == 0x0A || offset == 0x0D {
        Decode::Reg(Masks { write_clear: 0x00, read_only: 0x00, write_only: 0x00 })
    } else if offset == 0x61 || offset == 0x62 || offset == 0x63 || offset == 0x64 || offset == 0x65 || offset == 0x66 || offset == 0x67 || offset == 0x68 || offset == 0x69 || offset == 0x6A || offset == 0x6D {
        Decode::Reg(Masks { write_clear: 0x00, read_only: 0xFF, write_only: 0x00 })
    } else if offset == 0x71 || offset == 0x72 || offset == 0x73 || offset == 0x74 || offset == 0x75 || offset == 0x76 || offset == 0x77 || offset == 0x78 || offset == 0x79 || offset == 0x7A || offset == 0x7D {
        Decode::Reg(Masks { write_clear: 0x00, read_only: 0x00, write_only: 0x00 })
    } else if 0x10 <= offset && offset <= 0x5F {
        Decode::Reg(Masks { write_clear: 0x00, read_only: 0x00, write_only: 0x00 })
    } else if 0xA0 <= offset && offset <= 0xA7 {
        Decode::Reg(Masks { write_clear: 0x00, read_only: 0x00, write_only: 0x00 })
    } else if offset == 0xF8 {
        Decode::Reg(Masks { write_clear: 0x00, read_only: 0x00, write_only: if id == 0x8587 { 0x04 } else { 0x00 } })
    } else if 0xF0 <= offset && offset <= 0xFE {
        Decode::Reg(Masks { write_clear: 0x00, read_only: 0x00, write_only: 0x00 })
    } else if 0xE0 <= offset && offset <= 0xE2 {
        Decode::Reg(Masks { write_clear: 0x00, read_only: 0x00, write_only: 0x00 })
    } else if id == 0x5570 && (0xE4 <= offset && offset <= 0xE8) {
        Decode::Reg(Masks { write_clear: 0x00, read_only: 0x00, write_only: 0x00 })
    } else {
        Decode::NoOffset
    }
}

fn decode_gpio_x(id: u16, offset: u16) -> (r: Decode)
    ensures
        r == decode_gpio(id, offset),
{
    if offset == 0x00 || offset == 0x01 || offset == 0x02 || offset == 0x03 || offset == 0x04 || offset == 0x05 || offset == 0x06 || offset == 0x07 || offset == 0x08 || offset == 0x09 || offset == 0x0A || offset == 0x0D {
        Decode::Reg(Masks { write_clear: 0x00, read_only: 0x00, write_only: 0x00 })
    } else if offset == 0x61 || offset == 0x62 || offset == 0x63 || offset == 0x64 || offset == 0x65 || offset == 0x66 || offset == 0x67 || offset == 0x68 || offset == 0x69 || offset == 0x6A || offset == 0x6D {
        Decode::Reg(Masks { write_clear: 0x00, read_only: 0xFF, write_only: 0x00 })
    } else if offset == 0x71 || offset == 0x72 || offset == 0x73 || offset == 0x74 || offset == 0x75 || offset == 0x76 || offset == 0x77 || offset == 0x78 || offset == 0x79 || offset == 0x7A || offset == 0x7D {
        Decode::Reg(Masks { write_clear: 0x00, read_only: 0x00, write_only: 0x00 })
    } else if 0x10 <= offset && offset <= 0x5F {
        Decode::Reg(Masks { write_clear: 0x00, read_only: 0x00, write_only: 0x00 })
    } else if 0xA0 <= offset && offset <= 0xA7 {
        Decode::Reg(Masks { write_clear: 0x00, read_only: 0x00, write_only: 0x00 })
    } else if offset == 0xF8 {
        Decode::Reg(Masks { write_clear: 0x00, read_only: 0x00, write_only: if id == 0x8587 { 0x04 } else { 0x00 } })
    } else if 0xF0 <= offset && offset <= 0xFE {
        Decode::Reg(Masks { write_clear: 0x00, read_only: 0x00, write_only: 0x00 })
    } else if 0xE0 <= offset && offset <= 0xE2 {
        Decode::Reg(Masks { write_clear: 0x00, read_only: 0x00, write_only: 0x00 })
    } else if id == 0x5570 && (0xE4 <= offset && offset <= 0xE8) {
        Decode::Reg(Masks { write_clear: 0x00, read_only: 0x00, write_only: 0x00 })
    } else {
        Decode::NoOffset
    }
}

pub open spec fn decode_ps2(id: u16, offset: u16) -> Decode {
    if offset == 0x00 || offset == 0x01 || offset == 0x02 || offset == 0x04 || offset == 0x05 || offset == 0x06 {
        Decode::Reg(Masks { write_clear: 0x00, read_only: 0x00, write_only: 0x00 })
    } else if offset == 0x0A {
        Decode::Reg(Masks { write_clear: 0x40, read_only: 0x3F, write_only: 0x00 })
    } else {
        Decode::NoOffset
    }
}

fn decode_ps2_x(id: u16, offset: u16) -> (r: Decode)
    ensures
        r == decode_ps2(id, offset),
{
    if offset == 0x00 || offset == 0x01 || offset == 0x02 || offset == 0x04 || offset == 0x05 || offset == 0x06 {
        Decode::Reg(Masks { write_clear: 0x00, read_only: 0x00, write_only: 0x00 })
    } else if offset == 0x0A {
        Decode::Reg(Masks { write_clear: 0x40, read_only: 0x3F, write_only: 0x00 })
    } else {
        Decode::NoOffset
    }
}

pub open spec fn decode_pwm(id: u16, offset: u16) -> Decode {
    if offset == 0x00 || offset == 0x01 {
        Decode::Reg(Masks { write_clear: 0x00, read_only: 0x00, write_only: 0x00 })
    } else if 0x02 <= offset && offset <= 0x09 {
        Decode::Reg(Masks { write_clear: 0x00, read_only: 0x00, write_only: 0x00 })
    } else if offset == 0x0B || offset == 0x0C || offset == 0x0D || offset == 0x0F || offset == 0x23 || offset == 0x27 || offset == 0x2B || offset == 0x2C || offset == 0x2D || offset == 0x2E {
        Decode::Reg(Masks { write_clear: 0x00, read_only: 0x00, write_only: 0x00 })
    } else if offset == 0x40 {
        Decode::Reg(Masks { write_clear: 0x00, read_only: 0x10, write_only: 0x00 })
    } else if offset == 0x43 {
        Decode::Reg(Masks { write_clear: 0x00, read_only: 0x00, write_only: 0x00 })
    } else if offset == 0x48 {
        Decode::Reg(Masks { write_clear: 0x0A, read_only: 0x00, write_only: 0x00 })
    } else {
        Decode::NoOffset
    }
}

fn decode_pwm_x(id: u16, offset: u16) -> (r: Decode)
    ensures
        r == decode_pwm(id, offset),
{
    if offset == 0x00 || offset == 0x01 {
        Decode::Reg(Masks { write_clear: 0x00, read_only: 0x00, write_only: 0x00 })
    } else if 0x02 <= offset && offset <= 0x09 {
        Decode::Reg(Masks { write_clear: 0x00, read_only: 0x00, write_only: 0x00 })
    } else if offset == 0x0B || offset == 0x0C || offset == 0x0D || offset == 0x0F || offset == 0x23 || offset == 0x27 || offset == 0x2B || offset == 0x2C || offset == 0x2D || offset == 0x2E {
        Decode::Reg(Masks { write_clear: 0x00, read_only: 0x00, write_only: 0x00 })
    } else if offset == 0x40 {
        Decode::Reg(Masks { write_clear: 0x00, read_only: 0x10, write_only: 0x00 })
    } else if offset == 0x43 {
        Decode::Reg(Masks { write_clear: 0x00, read_only: 0x00, write_only: 0x00 })
    } else if offset == 0x48 {
        Decode::Reg(Masks { write_clear: 0x0A, read_only: 0x00, write_only: 0x00 })
    } else {
        Decode::NoOffset
    }
}

pub open spec fn decode_adc(id: u16, offset: u16) -> Decode {
    if offset == 0x00 {
        Decode::Reg(Masks { write_clear: 0x03, read_only: 0x00, write_only: 0x00 })
    } else if offset == 0x01 {
        Decode::Reg(Masks { write_clear: 0x00, read_only: 0x00, write_only: 0x00 })
    } else if offset == 0x04 || offset == 0x06 || offset == 0x09 || offset == 0x0C || offset == 0x38 || offset == 0x3B || offset == 0x3E {
        Decode::Reg(Masks { write_clear: 0x80, read_only: 0x00, write_only: 0x00 })
    } else if offset == 0x05 {
        Decode::Reg(Masks { write_clear: 0x00, read_only: 0x00, write_only: 0x00 })
    } else if offset == 0x18 {
        Decode::Reg(Masks { write_clear: 0x00, read_only: 0xFF, write_only: 0x00 })
    } else if offset == 0x19 {
        Decode::Reg(Masks { write_clear: 0x00, read_only: 0x03, write_only: 0x00 })
    } else {
        Decode::NoOffset
    }
}

fn decode_adc_x(id: u16, offset: u16) -> (r: Decode)
    ensures
        r == decode_adc(id, offset),
{
    if offset == 0x00 {
        Decode::Reg(Masks { write_clear: 0x03, read_only: 0x00, write_only: 0x00 })
    } else if offset == 0x01 {
        Decode::Reg(Masks { write_clear: 0x00, read_only: 0x00, write_only: 0x00 })
    } else if offset == 0x04 || offset == 0x06 || offset == 0x09 || offset == 0x0C || offset == 0x38 || offset == 0x3B || offset == 0x3E {
        Decode::Reg(Masks { write_clear: 0x80, read_only: 0x00, write_only: 0x00 })
    } else if offset == 0x05 {
        Decode::Reg(Masks { write_clear: 0x00, read_only: 0x00, write_only: 0x00 })
    } else if offset == 0x18 {
        Decode::Reg(Masks { write_clear: 0x00, read_only: 0xFF, write_only: 0x00 })
    } else if offset == 0x19 {
        Decode::Reg(Masks { write_clear: 0x00, read_only: 0x03, write_only: 0x00 })
    } else {
        Decode::NoOffset
    }
}

pub open spec fn decode_dac(id: u16, offset: u16) -> Decode {
    if offset == 0x00 || offset == 0x01 || offset == 0x04 {
        Decode::Reg(Masks { write_clear: 0x00, read_only: 0x00, write_only: 0x00 })
    } else {
        Decode::NoOffset
    }
}

fn decode_dac_x(id: u16, offset: u16) -> (r: Decode)
    ensures
        r == decode_dac(id, offset),
{
    if offset == 0x00 || offset == 0x01 || offset == 0x04 {
        Decode::Reg(Masks { write_clear: 0x00, read_only: 0x00, write_only: 0x00 })
    } else {
        Decode::NoOffset
    }
}

pub open spec fn decode_smbus(id: u16, offset: u16) -> Decode {
    if offset == 0x00 {
        Decode::Reg(Masks { write_clear: 0xFE, read_only: 0x01, write_only: 0x00 })
    } else if offset == 0x01 {
        Decode::Reg(Masks { write_clear: 0x00, read_only: 0x00, write_only: 0x60 })
    } else if offset == 0x11 {
        Decode::Reg(Masks { write_clear: 0xFE, read_only: 0x01, write_only: 0x00 })
    } else if offset == 0x12 {
        Decode::Reg(Masks { write_clear: 0x00, read_only: 0x00, write_only: 0x60 })
    } else if offset == 0x29 {
        Decode::Reg(Masks { write_clear: 0xFE, read_only: 0x01, write_only: 0x00 })
    } else if offset == 0x2A {
        Decode::Reg(Masks { write_clear: 0x00, read_only: 0x00, write_only: 0x60 })
    } else if offset == 0x35 {
        Decode::Reg(Masks { write_clear: 0xFE, read_only: 0x01, write_only: 0x00 })
    } else if offset == 0x36 {
        Decode::Reg(Masks { write_clear: 0x00, read_only: 0x00, write_only: 0x60 })
    } else if offset == 0x02 || offset == 0x03 || offset == 0x04 || offset == 0x05 || offset == 0x06 || offset == 0x07 {
        Decode::Reg(Masks { write_clear: 0x00, read_only: 0x00, write_only: 0x00 })
    } else if offset == 0x13 || offset == 0x14 || offset == 0x15 || offset == 0x16 || offset == 0x17 || offset == 0x18 {
        Decode::Reg(Masks { write_clear: 0x00, read_only: 0x00, write_only: 0x00 })
    } else if offset == 0x2B || offset == 0x2C || offset == 0x2D || offset == 0x2E || offset == 0x2F || offset == 0x30 {
        Decode::Reg(Masks { write_clear: 0x00, read_only: 0x00, write_only: 0x00 })
    } else if offset == 0x37 || offset == 0x38 || offset == 0x39 || offset == 0x3A || offset == 0x3B || offset == 0x3C {
        Decode::Reg(Masks { write_clear: 0x00, read_only: 0x00, write_only: 0x00 })
    } else if offset == 0x0A {
        Decode::Reg(Masks { write_clear: 0x00, read_only: 0x03, write_only: 0x10 })
    } else if offset == 0x1B {
        Decode::Reg(Masks { write_clear: 0x00, read_only: 0x03, write_only: 0x10 })
    } else if offset == 0x31 {
        Decode::Reg(Masks { write_clear: 0x00, read_only: 0x03, write_only: 0x10 })
    } else if offset == 0x3D {
        Decode::Reg(Masks { write_clear: 0x00, read_only: 0x03, write_only: 0x10 })
    } else if offset == 0x10 {
        Decode::Reg(Masks { write_clear: 0x00, read_only: 0x00, write_only: if id == 0x8587 { 0xA0 } else { 0x00 } })
    } else if offset == 0x21 {
        Decode::Reg(Masks { write_clear: 0x00, read_only: 0x00, write_only: if id == 0x8587 { 0xA0 } else { 0x00 } })
    } else if offset == 0x32 {
        Decode::Reg(Masks { write_clear: 0x00, read_only: 0x00, write_only: if id == 0x8587 { 0xA0 } else { 0x00 } })
    } else if offset == 0x3E {
        Decode::Reg(Masks { write_clear: 0x00, read_only: 0x00, write_only: if id == 0x8587 { 0xA0 } else { 0x00 } })
    } else if offset == 0x22 || offset == 0x23 || offset == 0x24 || offset == 0x25 || offset == 0x26 || offset == 0x27 || offset == 0x28 || offset == 0x33 || offset == 0x41 {
        Decode::Reg(Masks { write_clear: 0x00, read_only: 0x00, write_only: 0x00 })
    } else if id == 0x5570 && (offset == 0xA0) {
        Decode::Reg(Masks { write_clear: 0xFE, read_only: 0x01, write_only: 0x00 })
    } else if id == 0x5570 && (offset == 0xA1) {
        Decode::Reg(Masks { write_clear: 0x00, read_only: 0x00, write_only: 0x60 })
    } else if id == 0x5570 && (offset == 0xB0) {
        Decode::Reg(Masks { write_clear: 0xFE, read_only: 0x01, write_only: 0x00 })
    } else if id == 0x5570 && (offset == 0xB1) {
        Decode::Reg(Masks { write_clear: 0x00, read_only: 0x00, write_only: 0x60 })
    } else if id == 0x5570 && (offset == 0xA2 || offset == 0xA3 || offset == 0xA4 || offset == 0xA6 || offset == 0xA7 || offset == 0xA8) {
        Decode::Reg(Masks { write_clear: 0x00, read_only: 0x00, write_only: 0x00 })
    } else if id == 0x5570 && (offset == 0xA9) {
        Decode::Reg(Masks { write_clear: 0x00, read_only: 0x03, write_only: 0x10 })
    } else if id == 0x5570 && (offset == 0xAA || offset == 0xAB) {
        Decode::Reg(Masks { write_clear: 0x00, read_only: 0x00, write_only: 0x00 })
    } else if id == 0x5570 && (offset == 0xB2 || offset == 0xB3 || offset == 0xB4 || offset == 0xB6 || offset == 0xB7 || offset == 0xB8) {
        Decode::Reg(Masks { write_clear: 0x00, read_only: 0x00, write_only: 0x00 })
    } else if id == 0x5570 && (offset == 0xB9) {
        Decode::Reg(Masks { write_clear: 0x00, read_only: 0x03, write_only: 0x10 })
    } else if id == 0x5570 && (offset == 0xBA) {
        Decode::Reg(Masks { write_clear: 0x00, read_only: 0x00, write_only: 0x00 })
    } else {
        Decode::NoOffset
    }
}

fn decode_smbus_x(id: u16, offset: u16) -> (r: Decode)
    ensures
        r == decode_smbus(id, offset),
{
    if offset == 0x00 {
        Decode::Reg(Masks { write_clear: 0xFE, read_only: 0x01, write_only: 0x00 })
    } else if offset == 0x01 {
        Decode::Reg(Masks { write_clear: 0x00, read_only: 0x00, write_only: 0x60 })
    } else if offset == 0x11 {
        Decode::Reg(Masks { write_clear: 0xFE, read_only: 0x01, write_only: 0x00 })
    } else if offset == 0x12 {
        Decode::Reg(Masks { write_clear: 0x00, read_only: 0x00, write_only: 0x60 })
    } else if offset == 0x29 {
        Decode::Reg(Masks { write_clear: 0xFE, read_only: 0x01, write_only: 0x00 })
    } else if offset == 0x2A {
        Decode::Reg(Masks { write_clear: 0x00, read_only: 0x00, write_only: 0x60 })
    } else if offset == 0x35 {
        Decode::Reg(Masks { write_clear: 0xFE, read_only: 0x01, write_only: 0x00 })
    } else if offset == 0x36 {
        Decode::Reg(Masks { write_clear: 0x00, read_only: 0x00, write_only: 0x60 })
    } else if offset == 0x02 || offset == 0x03 || offset == 0x04 || offset == 0x05 || offset == 0x06 || offset == 0x07 {
        Decode::Reg(Masks { write_clear: 0x00, read_only: 0x00, write_only: 0x00 })
    } else if offset == 0x13 || offset == 0x14 || offset == 0x15 || offset == 0x16 || offset == 0x17 || offset == 0x18 {
        Decode::Reg(Masks { write_clear: 0x00, read_only: 0x00, write_only: 0x00 })
    } else if offset == 0x2B || offset == 0x2C || offset == 0x2D || offset == 0x2E || offset == 0x2F || offset == 0x30 {
        Decode::Reg(Masks { write_clear: 0x00, read_only: 0x00, write_only: 0x00 })
    } else if offset == 0x37 || offset == 0x38 || offset == 0x39 || offset == 0x3A || offset == 0x3B || offset == 0x3C {
        Decode::Reg(Masks { write_clear: 0x00, read_only: 0x00, write_only: 0x00 })
    } else if offset == 0x0A {
        Decode::Reg(Masks { write_clear: 0x00, read_only: 0x03, write_only: 0x10 })
    } else if offset == 0x1B {
        Decode::Reg(Masks { write_clear: 0x00, read_only: 0x03, write_only: 0x10 })
    } else if offset == 0x31 {
        Decode::Reg(Masks { write_clear: 0x00, read_only: 0x03, write_only: 0x10 })
    } else if offset == 0x3D {
        Decode::Reg(Masks { write_clear: 0x00, read_only: 0x03, write_only: 0x10 })
    } else if offset == 0x10 {
        Decode::Reg(Masks { write_clear: 0x00, read_only: 0x00, write_only: if id == 0x8587 { 0xA0 } else { 0x00 } })
    } else if offset == 0x21 {
        Decode::Reg(Masks { write_clear: 0x00, read_only: 0x00, write_only: if id == 0x8587 { 0xA0 } else { 0x00 } })
    } else if offset == 0x32 {
        Decode::Reg(Masks { write_clear: 0x00, read_only: 0x00, write_only: if id == 0x8587 { 0xA0 } else { 0x00 } })
    } else if offset == 0x3E {
        Decode::Reg(Masks { write_clear: 0x00, read_only: 0x00, write_only: if id == 0x8587 { 0xA0 } else { 0x00 } })
    } else if offset == 0x22 || offset == 0x23 || offset == 0x24 || offset == 0x25 || offset == 0x26 || offset == 0x27 || offset == 0x28 || offset == 0x33 || offset == 0x41 {
        Decode::Reg(Masks { write_clear: 0x00, read_only: 0x00, write_only: 0x00 })
    } else if id == 0x5570 && (offset == 0xA0) {
        Decode::Reg(Masks { write_clear: 0xFE, read_only: 0x01, write_only: 0x00 })
    } else if id == 0x5570 && (offset == 0xA1) {
        Decode::Reg(Masks { write_clear: 0x00, read_only: 0x00, write_only: 0x60 })
    } else if id == 0x5570 && (offset == 0xB0) {
        Decode::Reg(Masks { write_clear: 0xFE, read_only: 0x01, write_only: 0x00 })
    } else if id == 0x5570 && (offset == 0xB1) {
        Decode::Reg(Masks { write_clear: 0x00, read_only: 0x00, write_only: 0x60 })
    } else if id == 0x5570 && (offset == 0xA2 || offset == 0xA3 || offset == 0xA4 || offset == 0xA6 || offset == 0xA7 || offset == 0xA8) {
        Decode::Reg(Masks { write_clear: 0x00, read_only: 0x00, write_only: 0x00 })
    } else if id == 0x5570 && (offset == 0xA9) {
        Decode::Reg(Masks { write_clear: 0x00, read_only: 0x03, write_only: 0x10 })
    } else if id == 0x5570 && (offset == 0xAA || offset == 0xAB) {
        Decode::Reg(Masks { write_clear: 0x00, read_only: 0x00, write_only: 0x00 })
    } else if id == 0x5570 && (offset == 0xB2 || offset == 0xB3 || offset == 0xB4 || offset == 0xB6 || offset == 0xB7 || offset == 0xB8) {
        Decode::Reg(Masks { write_clear: 0x00, read_only: 0x00, write_only: 0x00 })
    } else if id == 0x5570 && (offset == 0xB9) {
        Decode::Reg(Masks { write_clear: 0x00, read_only: 0x03, write_only: 0x10 })
    } else if id == 0x5570 && (offset == 0xBA) {
        Decode::Reg(Masks { write_clear: 0x00, read_only: 0x00, write_only: 0x00 })
    } else {
        Decode::NoOffset
    }
}

pub open spec fn decode_kbscan(id: u16, offset: u16) -> Decode {
    if offset == 0x00 || offset == 0x01 || offset == 0x02 || offset == 0x03 {
        Decode::Reg(Masks { write_clear: 0x00, read_only: 0x00, write_only: 0x00 })
    } else if offset == 0x04 {
        Decode::Reg(Masks { write_clear: 0x00, read_only: 0xFF, write_only: 0x00 })
    } else if offset == 0x05 || offset == 0x06 || offset == 0x07 || offset == 0x08 {
        Decode::Reg(Masks { write_clear: 0x00, read_only: 0x00, write_only: 0x00 })
    } else if offset == 0x09 {
        Decode::Reg(Masks { write_clear: 0x00, read_only: 0xFF, write_only: 0x00 })
    } else if offset == 0x0A || offset == 0x0B {
        Decode::Reg(Masks { write_clear: 0x00, read_only: 0x00, write_only: 0x00 })
    } else if offset == 0x0C {
        Decode::Reg(Masks { write_clear: 0x00, read_only: 0xFF, write_only: 0x00 })
    } else if offset == 0x0D || offset == 0x0E || offset == 0x0F {
        Decode::Reg(Masks { write_clear: 0x00, read_only: 0x00, write_only: 0x00 })
    } else {
        Decode::NoOffset
    }
}

fn decode_kbscan_x(id: u16, offset: u16) -> (r: Decode)
    ensures
        r == decode_kbscan(id, offset),
{
    if offset == 0x00 || offset == 0x01 || offset == 0x02 || offset == 0x03 {
        Decode::Reg(Masks { write_clear: 0x00, read_only: 0x00, write_only: 0x00 })
    } else if offset == 0x04 {
        Decode::Reg(Masks { write_clear: 0x00, read_only: 0xFF, write_only: 0x00 })
    } else if offset == 0x05 || offset == 0x06 || offset == 0x07 || offset == 0x08 {
        Decode::Reg(Masks { write_clear: 0x00, read_only: 0x00, write_only: 0x00 })
    } else if offset == 0x09 {
        Decode::Reg(Masks { write_clear: 0x00, read_only: 0xFF, write_only: 0x00 })
    } else if offset == 0x0A || offset == 0x0B {
        Decode::Reg(Masks { write_clear: 0x00, read_only: 0x00, write_only: 0x00 })
    } else if offset == 0x0C {
        Decode::Reg(Masks { write_clear: 0x00, read_only: 0xFF, write_only: 0x00 })
    } else if offset == 0x0D || offset == 0x0E || offset == 0x0F {
        Decode::Reg(Masks { write_clear: 0x00, read_only: 0x00, write_only: 0x00 })
    } else {
        Decode::NoOffset
    }
}

pub open spec fn decode_ecpm(id: u16, offset: u16) -> Decode {
    if offset == 0x02 || offset == 0x03 {
        Decode::Reg(Masks { write_clear: 0x00, read_only: 0x00, write_only: 0x00 })
    } else if offset == 0x05 {
        Decode::Reg(Masks { write_clear: 0x00, read_only: 0x00, write_only: 0x40 })
    } else if offset == 0x06 || offset == 0x09 {
        Decode::Reg(Masks { write_clear: 0x00, read_only: 0x00, write_only: 0x00 })
    } else {
        Decode::NoOffset
    }
}

fn decode_ecpm_x(id: u16, offset: u16) -> (r: Decode)
    ensures
        r == decode_ecpm(id, offset),
{
    if offset == 0x02 || offset == 0x03 {
        Decode::Reg(Masks { write_clear: 0x00, read_only: 0x00, write_only: 0x00 })
    } else if offset == 0x05 {
        Decode::Reg(Masks { write_clear: 0x00, read_only: 0x00, write_only: 0x40 })
    } else if offset == 0x06 || offset == 0x09 {
        Decode::Reg(Masks { write_clear: 0x00, read_only: 0x00, write_only: 0x00 })
    } else {
        Decode::NoOffset
    }
}

pub open spec fn decode_gctrl(id: u16, offset: u16) -> Decode {
    if offset == 0x00 || offset == 0x01 || offset == 0x02 {
        Decode::Reg(Masks { write_clear: 0x00, read_only: 0xFF, write_only: 0x00 })
    } else if offset == 0x06 {
        Decode::Reg(Masks { write_clear: if id == 0x5570 { 0x03 } else { 0x00 }, read_only: if id == 0x8587 { 0x03 } else { 0x00 }, write_only: 0x00 })
    } else if offset == 0x0A {
        Decode::Reg(Masks { write_clear: 0x00, read_only: 0x00, write_only: 0x00 })
    } else if offset == 0x0B {
        Decode::Reg(Masks { write_clear: 0x00, read_only: 0x00, write_only: 0xFF })
    } else if offset == 0x0D {
        Decode::Reg(Masks { write_clear: 0x00, read_only: 0x00, write_only: 0x00 })
    } else if offset == 0x30 {
        Decode::Reg(Masks { write_clear: 0x01, read_only: 0x00, write_only: 0x00 })
    } else if offset == 0x31 || offset == 0x32 {
        Decode::Reg(Masks { write_clear: 0x00, read_only: 0x00, write_only: 0x00 })
    } else {
        Decode::NoOffset
    }
}

fn decode_gctrl_x(id: u16, offset: u16) -> (r: Decode)
    ensures
        r == decode_gctrl(id, offset),
{
    if offset == 0x00 || offset == 0x01 || offset == 0x02 {
        Decode::Reg(Masks { write_clear: 0x00, read_only: 0xFF, write_only: 0x00 })
    } else if offset == 0x06 {
        Decode::Reg(Masks { write_clear: if id == 0x5570 { 0x03 } else { 0x00 }, read_only: if id == 0x8587 { 0x03 } else { 0x00 }, write_only: 0x00 })
    } else if offset == 0x0A {
        Decode::Reg(Masks { write_clear: 0x00, read_only: 0x00, write_only: 0x00 })
    } else if offset == 0x0B {
        Decode::Reg(Masks { write_clear: 0x00, read_only: 0x00, write_only: 0xFF })
    } else if offset == 0x0D {
        Decode::Reg(Masks { write_clear: 0x00, read_only: 0x00, write_only: 0x00 })
    } else if offset == 0x30 {
        Decode::Reg(Masks { write_clear: 0x01, read_only: 0x00, write_only: 0x00 })
    } else if offset == 0x31 || offset == 0x32 {
        Decode::Reg(Masks { write_clear: 0x00, read_only: 0x00, write_only: 0x00 })
    } else {
        Decode::NoOffset
    }
}

pub open spec fn decode_peci(id: u16, offset: u16) -> Decode {
    if offset == 0x00 {
        Decode::Reg(Masks { write_clear: 0xEE, read_only: 0x01, write_only: 0x00 })
    } else if offset == 0x01 {
        Decode::Reg(Masks { write_clear: 0x00, read_only: 0x00, write_only: 0x21 })
    } else if offset == 0x02 || offset == 0x03 || offset == 0x04 || offset == 0x05 || offset == 0x06 || offset == 0x07 || offset == 0x08 {
        Decode::Reg(Masks { write_clear: 0x00, read_only: 0x00, write_only: 0x00 })
    } else if offset == 0x09 {
        Decode::Reg(Masks { write_clear: 0x00, read_only: 0xFF, write_only: 0x00 })
    } else if offset == 0x0E {
        Decode::Reg(Masks { write_clear: 0x00, read_only: 0x00, write_only: 0x00 })
    } else {
        Decode::NoOffset
    }
}

fn decode_peci_x(id: u16, offset: u16) -> (r: Decode)
    ensures
        r == decode_peci(id, offset),
{
    if offset == 0x00 {
        Decode::Reg(Masks { write_clear: 0xEE, read_only: 0x01, write_only: 0x00 })
    } else if offset == 0x01 {
        Decode::Reg(Masks { write_clear: 0x00, read_only: 0x00, write_only: 0x21 })
    } else if offset == 0x02 || offset == 0x03 || offset == 0x04 || offset == 0x05 || offset == 0x06 || offset == 0x07 || offset == 0x08 {
        Decode::Reg(Masks { write_clear: 0x00, read_only: 0x00, write_only: 0x00 })
    } else if offset == 0x09 {
        Decode::Reg(Masks { write_clear: 0x00, read_only: 0xFF, write_only: 0x00 })
    } else if offset == 0x0E {
        Decode::Reg(Masks { write_clear: 0x00, read_only: 0x00, write_only: 0x00 })
    } else {
        Decode::NoOffset
    }
}

pub open spec fn decode_espi(id: u16, offset: u16) -> Decode {
    if offset == 0x04 {
        Decode::Reg(Masks { write_clear: 0x00, read_only: 0xDF, write_only: 0x00 })
    } else if offset == 0x05 {
        Decode::Reg(Masks { write_clear: 0x00, read_only: 0x70, write_only: 0x00 })
    } else if offset == 0x06 {
        Decode::Reg(Masks { write_clear: 0x00, read_only: 0xF0, write_only: 0x00 })
    } else if offset == 0x07 {
        Decode::Reg(Masks { write_clear: 0x00, read_only: 0xFF, write_only: 0x00 })
    } else if offset == 0x14 || offset == 0x15 {
        Decode::Reg(Masks { write_clear: 0x00, read_only: 0x00, write_only: 0x00 })
    } else if offset == 0x16 {
        Decode::Reg(Masks { write_clear: 0x00, read_only: 0x7F, write_only: 0x00 })
    } else if offset == 0x17 {
        Decode::Reg(Masks { write_clear: 0x00, read_only: 0xFF, write_only: 0x00 })
    } else if offset == 0xA1 || offset == 0xA2 || offset == 0xA3 || offset == 0xB0 || offset == 0xB1 || offset == 0xB2 || offset == 0xB3 || offset == 0xB6 || offset == 0xB7 || offset == 0xB8 || offset == 0xC0 || offset == 0xC1 || offset == 0xC4 {
        Decode::Reg(Masks { write_clear: 0x00, read_only: 0x00, write_only: 0x00 })
    } else if offset == 0x190 {
        Decode::Reg(Masks { write_clear: 0x00, read_only: 0x00, write_only: 0x00 })
    } else {
        Decode::NoOffset
    }
}

fn decode_espi_x(id: u16, offset: u16) -> (r: Decode)
    ensures
        r == decode_espi(id, offset),
{
    if offset == 0x04 {
        Decode::Reg(Masks { write_clear: 0x00, read_only: 0xDF, write_only: 0x00 })
    } else if offset == 0x05 {
        Decode::Reg(Masks { write_clear: 0x00, read_only: 0x70, write_only: 0x00 })
    } else if offset == 0x06 {
        Decode::Reg(Masks { write_clear: 0x00, read_only: 0xF0, write_only: 0x00 })
    } else if offset == 0x07 {
        Decode::Reg(Masks { write_clear: 0x00, read_only: 0xFF, write_only: 0x00 })
    } else if offset == 0x14 || offset == 0x15 {
        Decode::Reg(Masks { write_clear: 0x00, read_only: 0x00, write_only: 0x00 })
    } else if offset == 0x16 {
        Decode::Reg(Masks { write_clear: 0x00, read_only: 0x7F, write_only: 0x00 })
    } else if offset == 0x17 {
        Decode::Reg(Masks { write_clear: 0x00, read_only: 0xFF, write_only: 0x00 })
    } else if offset == 0xA1 || offset == 0xA2 || offset == 0xA3 || offset == 0xB0 || offset == 0xB1 || offset == 0xB2 || offset == 0xB3 || offset == 0xB6 || offset == 0xB7 || offset == 0xB8 || offset == 0xC0 || offset == 0xC1 || offset == 0xC4 {
        Decode::Reg(Masks { write_clear: 0x00, read_only: 0x00, write_only: 0x00 })
    } else if offset == 0x190 {
        Decode::Reg(Masks { write_clear: 0x00, read_only: 0x00, write_only: 0x00 })
    } else {
        Decode::NoOffset
    }
}

pub open spec fn decode(id: u16, address: u16) -> Decode {
    if address <= 0x0FFF {
        // scratch SRAM
        Decode::Reg(Masks { write_clear: 0x00, read_only: 0x00, write_only: 0x00 })
    } else if id == 0x5570 && 0x8000 <= address && address <= 0x97FF {
        // scratch SRAM, double-mapped
        Decode::Reg(Masks { write_clear: 0x00, read_only: 0x00, write_only: 0x00 })
    } else if 0x1000 <= address && address <= 0x10FF {
        decode_smfi(id, (address - 0x1000) as u16)
    } else if 0x1100 <= address && address <= 0x11FF {
        decode_intc(id, (address - 0x1100) as u16)
    } else if 0x1200 <= address && address <= 0x12FF {
        decode_e2ci(id, (address - 0x1200) as u16)
    } else if 0x1300 <= address && address <= 0x13FF {
        decode_kbc(id, (address - 0x1300) as u16)
    } else if 0x1400 <= address && address <= 0x14FF {
        decode_swuc(id, (address - 0x1400) as u16)
    } else if 0x1500 <= address && address <= 0x15FF {
        decode_pmc(id, (address - 0x1500) as u16)
    } else if 0x1600 <= address && address <= 0x16FF {
        decode_gpio(id, (address - 0x1600) as u16)
    } else if 0x1700 <= address && address <= 0x17FF {
        decode_ps2(id, (address - 0x1700) as u16)
    } else if 0x1800 <= address && address <= 0x18FF {
        decode_pwm(id, (address - 0x1800) as u16)
    } else if 0x1900 <= address && address <= 0x19FF {
        decode_adc(id, (address - 0x1900) as u16)
    } else if 0x1A00 <= address && address <= 0x1AFF {
        decode_dac(id, (address - 0x1A00) as u16)
    } else if 0x1C00 <= address && address <= 0x1CFF {
        decode_smbus(id, (address - 0x1C00) as u16)
    } else if 0x1D00 <= address && address <= 0x1DFF {
        decode_kbscan(id, (address - 0x1D00) as u16)
    } else if 0x1E00 <= address && address <= 0x1EFF {
        decode_ecpm(id, (address - 0x1E00) as u16)
    } else if 0x2000 <= address && address <= 0x20FF {
        decode_gctrl(id, (address - 0x2000) as u16)
    } else if 0x3000 <= address && address <= 0x30FF {
        decode_peci(id, (address - 0x3000) as u16)
    } else if id == 0x5570 && 0x3100 <= address && address <= 0x32FF {
        decode_espi(id, (address - 0x3100) as u16)
    } else if 0x2200 <= address && address <= 0x22FF {
        // battery-backed RAM
        Decode::Reg(Masks { write_clear: 0x00, read_only: 0x00, write_only: 0x00 })
    } else {
        Decode::NoRegion
    }
}

pub fn decode_table(id: u16, address: u16) -> (r: Decode)
    ensures
        r == decode(id, address),
{
    if address <= 0x0FFF {
        // scratch SRAM
        Decode::Reg(Masks { write_clear: 0x00, read_only: 0x00, write_only: 0x00 })
    } else if id == 0x5570 && 0x8000 <= address && address <= 0x97FF {
        // scratch SRAM, double-mapped
        Decode::Reg(Masks { write_clear: 0x00, read_only: 0x00, write_only: 0x00 })
    } else if 0x1000 <= address && address <= 0x10FF {
        decode_smfi_x(id, (address - 0x1000) as u16)
    } else if 0x1100 <= address && address <= 0x11FF {
        decode_intc_x(id, (address - 0x1100) as u16)
    } else if 0x1200 <= address && address <= 0x12FF {
        decode_e2ci_x(id, (address - 0x1200) as u16)
    } else if 0x1300 <= address && address <= 0x13FF {
        decode_kbc_x(id, (address - 0x1300) as u16)
    } else if 0x1400 <= address && address <= 0x14FF {
        decode_swuc_x(id, (address - 0x1400) as u16)
    } else if 0x1500 <= address && address <= 0x15FF {
        decode_pmc_x(id, (address - 0x1500) as u16)
    } else if 0x1600 <= address && address <= 0x16FF {
        decode_gpio_x(id, (address - 0x1600) as u16)
    } else if 0x1700 <= address && address <= 0x17FF {
        decode_ps2_x(id, (address - 0x1700) as u16)
    } else if 0x1800 <= address && address <= 0x18FF {
        decode_pwm_x(id, (address - 0x1800) as u16)
    } else if 0x1900 <= address && address <= 0x19FF {
        decode_adc_x(id, (address - 0x1900) as u16)
    } else if 0x1A00 <= address && address <= 0x1AFF {
        decode_dac_x(id, (address - 0x1A00) as u16)
    } else if 0x1C00 <= address && address <= 0x1CFF {
        decode_smbus_x(id, (address - 0x1C00) as u16)
    } else if 0x1D00 <= address && address <= 0x1DFF {
        decode_kbscan_x(id, (address - 0x1D00) as u16)
    } else if 0x1E00 <= address && address <= 0x1EFF {
        decode_ecpm_x(id, (address - 0x1E00) as u16)
    } else if 0x2000 <= address && address <= 0x20FF {
        decode_gctrl_x(id, (address - 0x2000) as u16)
    } else if 0x3000 <= address && address <= 0x30FF {
        decode_peci_x(id, (address - 0x3000) as u16)
    } else if id == 0x5570 && 0x3100 <= address && address <= 0x32FF {
        decode_espi_x(id, (address - 0x3100) as u16)
    } else if 0x2200 <= address && address <= 0x22FF {
        // battery-backed RAM
        Decode::Reg(Masks { write_clear: 0x00, read_only: 0x00, write_only: 0x00 })
    } else {
        Decode::NoRegion
    }
}


impl Ec {
    /// Performs the SCAR DMA copy for window `x`: the window's mapped
    /// program-memory bytes land in the shadowing XRAM range.
    fn scar_dma(&mut self, x: usize)
        requires
            old(self).wf(),
            x < scar_table(old(self)@.id).len(),
            window_phys(old(self)@, x as int) + scar_table(old(self)@.id)[x as int].2
                <= PMEM_SIZE,
        ensures
            final(self).wf(),
            final(self)@ == (EcState {
                xram: dma_bytes(
                    old(self)@.xram,
                    old(self)@.pmem,
                    scar_table(old(self)@.id)[x as int].1,
                    window_phys(old(self)@, x as int),
                    scar_table(old(self)@.id)[x as int].2,
                ),
                ..old(self)@
            }),
    {
        let windows = self.scar();
        let (reg, base, size) = windows[x];
        proof {
            lemma_scar_entry_bounds(self@.id, x as int);
        }

        let l = self.xram[reg];
        let m = self.xram[reg + 1];
        let h = self.xram[reg + 2];
        let phys = (l as usize) | ((m as usize) << 8) | (((h & 3) as usize) << 16);
        proof {
            assert(phys == window_phys(old(self)@, x as int));
        }

        let mut i: usize = 0;
        while i < size
            invariant
                self.wf(),
                i <= size,
                self@.xram.len() == old(self)@.xram.len(),
                base + size <= self@.xram.len(),
                phys + size <= self@.pmem.len(),
                phys == window_phys(old(self)@, x as int),
                forall|j: int|
                    0 <= j < self@.xram.len() ==> self@.xram[j] == (if base <= j < base + i {
                        old(self)@.pmem[phys + (j - base)]
                    } else {
                        old(self)@.xram[j]
                    }),
                self@ == (EcState { xram: self@.xram, ..old(self)@ }),
            decreases size - i,
        {
            let b = self.pmem[phys + i];
            self.xram[base + i] = b;
            i += 1;
        }
        proof {
            assert(self@.xram =~= dma_bytes(
                old(self)@.xram,
                old(self)@.pmem,
                base,
                phys,
                size,
            ));
            assert(self@ =~~= (EcState {
                xram: dma_bytes(old(self)@.xram, old(self)@.pmem, base, phys, size),
                ..old(self)@
            }));
        }
    }

    /// One ECINDDR access (see [`ecinddr_model`]).
    fn ecinddr_access(&mut self, new_opt: Option<u8>) -> (r: Result<u8, Error>)
        requires
            old(self).wf(),
            access_ok(old(self)@, 0x103F, new_opt),
        ensures
            final(self).wf(),
            final(self)@ == ecinddr_model(old(self)@, new_opt).0,
            r == ecinddr_model(old(self)@, new_opt).1,
    {
        let a0 = self.xram[0x103B];
        let a1 = self.xram[0x103C];
        let a2 = self.xram[0x103D];
        let a3 = self.xram[0x103E];
        let sel = (a3 >> 6) & 3;

        if sel == 2 {
            return Err(Error::UnknownFlashChip { select: sel });
        }

        if a3 & 0xF == 0xF {
            if a1 == 0xFD {
                match new_opt {
                    Some(v) => {
                        self.spi.input.push(v);
                        let old0 = self.xram[0x103F];
                        self.xram[0x103F] = v;
                        proof {
                            assert(self@ =~~= ecinddr_model(old(self)@, new_opt).0);
                        }
                        Ok(old0)
                    },
                    None => {
                        let res = if sel == 1 {
                            self.spi.step(&mut self.pmem)
                        } else {
                            self.spi.step(&mut self.xmem)
                        };
                        proof {
                            assert(self@ =~~= put_flash(
                                EcState {
                                    spi: step_spec(old(self)@.spi, if sel == 1 { old(self)@.pmem } else { old(self)@.xmem }).0,
                                    ..old(self)@
                                },
                                sel,
                                step_spec(old(self)@.spi, if sel == 1 { old(self)@.pmem } else { old(self)@.xmem }).1,
                            ));
                        }
                        match res {
                            Err(e) => Err(e),
                            Ok(u) => {
                                if self.spi.output.len() == 0 {
                                    Err(Error::MissingFollowOutput)
                                } else {
                                    let ghost mid = self@;
                                    let b = self.spi.output.remove(0);
                                    proof {
                                        assert(self@.spi.output =~= mid.spi.output.skip(1));
                                        assert(self@ =~~= ecinddr_model(old(self)@, new_opt).0);
                                    }
                                    Ok(b)
                                }
                            },
                        }
                    },
                }
            } else if a1 == 0xFE {
                let res = if sel == 1 {
                    self.spi.step(&mut self.pmem)
                } else {
                    self.spi.step(&mut self.xmem)
                };
                proof {
                    assert(self@ =~~= put_flash(
                        EcState {
                            spi: step_spec(old(self)@.spi, if sel == 1 { old(self)@.pmem } else { old(self)@.xmem }).0,
                            ..old(self)@
                        },
                        sel,
                        step_spec(old(self)@.spi, if sel == 1 { old(self)@.pmem } else { old(self)@.xmem }).1,
                    ));
                }
                match res {
                    Err(e) => Err(e),
                    Ok(u) => {
                        let old0 = self.xram[0x103F];
                        if let Some(v) = new_opt {
                            self.xram[0x103F] = v;
                        }
                        proof {
                            assert(self@ =~~= ecinddr_model(old(self)@, new_opt).0);
                        }
                        Ok(old0)
                    },
                }
            } else {
                Err(Error::UnknownFollowAddress { follow: a1 })
            }
        } else {
            let i = ((a0 as usize) | ((a1 as usize) << 8) | ((a2 as usize) << 16) | ((
            a3 as usize) << 24)) & 0xFFFFFF;
            proof {
                assert(i == addr32(a3, a2, a1, a0) & 0xFFFFFF);
            }
            if sel == 1 {
                let old0 = self.pmem[i];
                if let Some(v) = new_opt {
                    self.pmem[i] = v;
                }
                proof {
                    assert(self@ =~~= ecinddr_model(old(self)@, new_opt).0);
                }
                Ok(old0)
            } else {
                let old0 = self.xmem[i];
                if let Some(v) = new_opt {
                    self.xmem[i] = v;
                }
                proof {
                    assert(self@ =~~= ecinddr_model(old(self)@, new_opt).0);
                }
                Ok(old0)
            }
        }
    }
}

/// One firmware access to XRAM `address`: a load when `new_opt` is
/// `None`, a store of its byte otherwise. Returns the byte the access
/// reads back, with write-only bits masked, or the structural error the
/// access raises. The whole effect is [`access_model`].
pub fn xram(ec: &mut Ec, address: u16, new_opt: Option<u8>) -> (r: Result<u8, Error>)
    requires
        old(ec).wf(),
        access_ok(old(ec)@, address, new_opt),
    ensures
        final(ec).wf(),
        final(ec)@ == access_model(old(ec)@, address, new_opt).0,
        r == access_model(old(ec)@, address, new_opt).1,
{
    let masks = match decode_table(ec.id, address) {
        Decode::NoRegion => {
            return Err(Error::UnknownRegion { address });
        },
        Decode::NoOffset => {
            return Err(Error::UnknownOffset { address });
        },
        Decode::Reg(m) => m,
    };

    if address == 0x103F {
        return ec.ecinddr_access(new_opt);
    }

    let old0 = ec.xram[address as usize];
    let ghost pre = ec@;

    match scar_index_x(ec.id, address) {
        Some(x) => {
            if let Some(v) = new_opt {
                if old0 & 0x80 != 0 && v & 0x80 == 0 {
                    ec.scar_dma(x);
                }
            }
        },
        None => {
            if address == 0x1306 || address == 0x1308 {
                let b = ec.xram[0x1304];
                ec.xram[0x1304] = b | 1;
            } else if address == 0x130A {
                let b = ec.xram[0x1304];
                ec.xram[0x1304] = b & !2u8;
            } else if address == 0x1501 {
                let b = ec.xram[0x1500];
                ec.xram[0x1500] = b | 1;
            } else if address == 0x1504 {
                let b = ec.xram[0x1500];
                ec.xram[0x1500] = b & !2u8;
            } else if address == 0x1D01 {
                if let Some(v) = new_opt {
                    if v & 1 == 0 {
                        let c = ec.xram[0x1D00];
                        ec.console.push(c);
                    }
                }
            }
        },
    }
    proof {
        assert(ec@ =~~= side_effect_bytes(pre, address, old0, new_opt));
    }

    if let Some(v) = new_opt {
        let committed = commit_byte_x(old0, v, masks.write_clear, masks.read_only);
        ec.xram[address as usize] = committed;
    }
    proof {
        assert(ec@ =~~= access_model(pre, address, new_opt).0);
    }

    Ok(old0 & !masks.write_only)
}

/// As [`xram`], but decides [`access_ok`] first instead of demanding
/// it: an access whose programmed indirection would leave its flash
/// buffer is answered with `None` and leaves the controller untouched.
pub fn try_xram(ec: &mut Ec, address: u16, new_opt: Option<u8>) -> (r: Option<Result<u8, Error>>)
    requires
        old(ec).wf(),
    ensures
        final(ec).wf(),
        access_ok(old(ec)@, address, new_opt) ==> final(ec)@ == access_model(
            old(ec)@,
            address,
            new_opt,
        ).0 && r == Some(access_model(old(ec)@, address, new_opt).1),
        !access_ok(old(ec)@, address, new_opt) ==> final(ec)@ == old(ec)@ && r is None,
{
    let ok: bool;
    if address == 0x103F {
        let a0 = ec.xram[0x103B];
        let a1 = ec.xram[0x103C];
        let a2 = ec.xram[0x103D];
        let a3 = ec.xram[0x103E];
        let sel = (a3 >> 6) & 3;
        if sel == 2 {
            ok = true;
        } else {
            let flash_len = if sel == 1 {
                ec.pmem.len()
            } else {
                ec.xmem.len()
            };
            if a3 & 0xF == 0xF {
                if a1 == 0xFD {
                    ok = match new_opt {
                        Some(_) => true,
                        None => ec.spi.step_ok_check(flash_len),
                    };
                } else if a1 == 0xFE {
                    ok = ec.spi.step_ok_check(flash_len);
                } else {
                    ok = true;
                }
            } else {
                let i = ((a0 as usize) | ((a1 as usize) << 8) | ((a2 as usize) << 16) | ((
                a3 as usize) << 24)) & 0xFFFFFF;
                ok = i < flash_len;
            }
        }
    } else {
        match scar_index_x(ec.id, address) {
            Some(x) => {
                match new_opt {
                    Some(v) => {
                        let old0 = ec.xram[address as usize];
                        if old0 & 0x80 != 0 && v & 0x80 == 0 {
                            let windows = ec.scar();
                            proof {
                                if ec@.id == 0x5570 {
                                    assert(scar_index(ec@.id, address) == Some(0usize));
                                }
                                assert(x < scar_table(ec@.id).len());
                                lemma_scar_entry_bounds(ec@.id, x as int);
                            }
                            let (reg, base, size) = windows[x];
                            let l = ec.xram[reg];
                            let m = ec.xram[reg + 1];
                            let h = ec.xram[reg + 2];
                            let phys = (l as usize) | ((m as usize) << 8) | (((h & 3) as usize)
                                << 16);
                            proof {
                                crate::ec::lemma_scar_phys_bound(l, m, h);
                                assert(phys == window_phys(ec@, x as int));
                            }
                            ok = phys + size <= PMEM_SIZE;
                        } else {
                            ok = true;
                        }
                    },
                    None => {
                        ok = true;
                    },
                }
            },
            None => {
                ok = true;
            },
        }
    }

    if ok {
        Some(xram(ec, address, new_opt))
    } else {
        None
    }
}

} // verus!
