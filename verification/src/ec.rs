//! The controller assembly: chip identity, program memory, external
//! RAM, the external flash buffer, the SPI device, the SuperIO latch and
//! the console sink, together with reset and the program-memory view.

use vstd::prelude::*;

use crate::iram::{IRam, iram_reset_bytes, IRAM_SIZE};
use crate::spi::{Spi, SpiState};

verus! {

/// Bytes of external RAM (the full 16-bit address space).
pub const XRAM_SIZE: usize = 0x10000;

/// Bytes of program memory, and of the external flash buffer.
pub const PMEM_SIZE: usize = 0x20000;

/// Mathematical state of the whole controller.
#[verifier::ext_equal]
pub struct EcState {
    pub id: u16,
    pub version: u8,
    pub pc: u16,
    pub iram: Seq<u8>,
    pub xram: Seq<u8>,
    pub pmem: Seq<u8>,
    pub xmem: Seq<u8>,
    pub spi: SpiState,
    pub superio_addr: u8,
    pub steps: u64,
    pub console: Seq<u8>,
}

/// A sequence of `n` zero bytes.
pub open spec fn zero_bytes(n: nat) -> Seq<u8> {
    Seq::new(n, |i: int| 0u8)
}

/// The SCAR code windows of a chip family: for each window the XRAM
/// offset of its three mapping registers, the XRAM base of the shadowed
/// RAM, and the window size in bytes.
pub open spec fn scar_table(id: u16) -> Seq<(usize, usize, usize)> {
    if id == 0x5570 {
        seq![(0x1040usize, 0x0000usize, 4096usize)]
    } else {
        seq![
            (0x1040usize, 0x0000usize, 2048usize),
            (0x1043usize, 0x0800usize, 1024usize),
            (0x1046usize, 0x0C00usize, 512usize),
            (0x1049usize, 0x0E00usize, 256usize),
            (0x104Cusize, 0x0F00usize, 256usize),
        ]
    }
}

/// The 18-bit physical flash address packed into a window's three
/// mapping registers.
pub open spec fn scar_phys(l: u8, m: u8, h: u8) -> usize {
    (l as usize) | ((m as usize) << 8) | (((h & 3) as usize) << 16)
}

/// Which program bank a fetch at or above 0x8000 uses: two bits taken
/// from the port-1 latch, or from the ECBB byte when FPCFG bit 7 is set.
pub open spec fn bank_select(s: EcState) -> u8 {
    if s.xram[0x1001] & 0x80 == 0 {
        s.iram[0x90] & 0b11
    } else {
        s.xram[0x1005] & 0b11
    }
}

/// Physical program-memory index of a fetch at `pc`.
pub open spec fn fetch_phys(s: EcState, pc: u16) -> int {
    if pc < 0x8000 {
        pc as int
    } else {
        pc + (bank_select(s) as int) * 0x8000
    }
}

/// Searches the windows in table order for one whose mapped range
/// contains `paddr`; a hit is served from the shadowing XRAM bytes.
/// As in the hardware this simulates, the search does not test the
/// window enable bit: any address packed in the mapping registers is
/// matched, even while the window is disabled.
pub open spec fn scar_lookup(s: EcState, windows: Seq<(usize, usize, usize)>, paddr: int) -> Option<
    u8,
>
    decreases windows.len(),
{
    if windows.len() == 0 {
        None
    } else {
        let reg = windows[0].0;
        let base = windows[0].1;
        let size = windows[0].2;
        let phys = scar_phys(s.xram[reg as int], s.xram[reg + 1], s.xram[reg + 2]);
        if phys <= paddr < phys + size {
            Some(s.xram[base + (paddr - phys)])
        } else {
            scar_lookup(s, windows.skip(1), paddr)
        }
    }
}

/// The byte a program fetch at `pc` returns.
pub open spec fn fetch_byte(s: EcState, pc: u16) -> u8 {
    let paddr = fetch_phys(s, pc);
    match scar_lookup(s, scar_table(s.id), paddr) {
        Some(b) => b,
        None => s.pmem[paddr],
    }
}

/// A fetch stays inside program memory unless a window serves it.
pub open spec fn fetch_ok(s: EcState, pc: u16) -> bool {
    scar_lookup(s, scar_table(s.id), fetch_phys(s, pc)) is Some || fetch_phys(s, pc) < PMEM_SIZE
}

/// XRAM contents after the family-specific reset defaults are written
/// over `xram`: the bytes the firmware is known to read back after reset.
pub open spec fn reset_xram_bytes(id: u16, version: u8, xram: Seq<u8>) -> Seq<u8> {
    // SMFI
    let x = xram.update(0x1001, if id == 0x5570 { 0x3Fu8 } else { 0xBFu8 });
    let x = x.update(0x1020, 0x08u8);
    let x = x.update(0x1032, 0x03u8);
    let x = x.update(0x1036, 0x80u8);
    // Disable SCAR
    let x = if id == 0x5570 {
        x.update(0x1042, 0x07u8)
    } else {
        let x = x.update(0x1042, 0x03u8);
        let x = x.update(0x1045, 0x03u8);
        let x = x.update(0x1048, 0x03u8);
        let x = x.update(0x104B, 0x03u8);
        let x = x.update(0x104E, 0x03u8);
        x
    };
    // INTC, KBC, PMC, GPIO
    let x = x.update(0x1110, 0x10u8);
    let x = x.update(0x1202, 0x07u8);
    let x = x.update(0x1506, 0x40u8);
    let x = x.update(0x1516, 0x40u8);
    let x = x.update(0x1600, 0x04u8);
    let x = x.update(0x1607, 0x01u8);
    let x = if id == 0x5570 { x.update(0x16E5, 0x06u8) } else { x };
    // GPIO, PS/2, PWM, ADC, DAC
    let x = x.update(0x16F2, 0x40u8);
    let x = x.update(0x16F5, 0x0Fu8);
    let x = x.update(0x1700, 0x01u8);
    let x = x.update(0x1701, 0x01u8);
    let x = x.update(0x1702, 0x01u8);
    let x = x.update(0x1801, 0xFFu8);
    let x = x.update(0x180D, 0x55u8);
    let x = x.update(0x1843, 0xFFu8);
    let x = x.update(0x1900, 0x80u8);
    let x = x.update(0x1901, 0x80u8);
    let x = x.update(0x1904, 0x1Fu8);
    let x = x.update(0x1906, 0x1Fu8);
    let x = x.update(0x1909, 0x1Fu8);
    let x = x.update(0x190C, 0x1Fu8);
    let x = x.update(0x1A00, 0x10u8);
    let x = x.update(0x1A01, 0x3Cu8);
    // SMBus
    let x = if id == 0x5570 { x.update(0x1C26, 0x19u8) } else { x };
    let x = x.update(0x1C34, 0x04u8);
    let x = if id == 0x5570 {
        let x = x.update(0x1C40, 0x04u8);
        let x = x.update(0x1C41, 0x04u8);
        let x = x.update(0x1CA9, 0x0Cu8);
        x
    } else {
        x
    };
    // KBC, ECPM
    let x = x.update(0x1D22, 0x01u8);
    let x = x.update(0x1E03, 0x01u8);
    let x = x.update(0x1E04, 0x70u8);
    let x = x.update(0x1E05, 0x41u8);
    let x = x.update(0x1E06, 0x01u8);
    let x = x.update(0x1E09, 0x01u8);
    // GCTRL: chip id echo and version
    let x = x.update(0x2000, ((id >> 8) & 0xFF) as u8);
    let x = x.update(0x2001, (id & 0xFF) as u8);
    let x = x.update(0x2002, version);
    let x = x.update(0x2006, if id == 0x5570 { 0x4Cu8 } else { 0x8Cu8 });
    // eSPI slave and virtual-wire defaults
    let x = if id == 0x5570 {
        let x = x.update(0x3104, 0x03u8);
        let x = x.update(0x3105, 0x02u8);
        let x = x.update(0x3107, 0x0Fu8);
        let x = x.update(0x310A, 0x11u8);
        let x = x.update(0x310E, 0x07u8);
        let x = x.update(0x3112, 0x01u8);
        let x = x.update(0x3113, 0x10u8);
        let x = x.update(0x3116, 0x11u8);
        let x = x.update(0x3117, 0x24u8);
        let x = x.update(0x311A, 0x04u8);
        let x = x.update(0x311B, 0x01u8);
        let x = x.update(0x3200, 0x03u8);
        let x = x.update(0x3202, 0x03u8);
        let x = x.update(0x3203, 0x03u8);
        let x = x.update(0x3204, 0x03u8);
        let x = x.update(0x3205, 0x03u8);
        let x = x.update(0x3206, 0x03u8);
        let x = x.update(0x3207, 0x03u8);
        let x = x.update(0x3240, 0x03u8);
        let x = x.update(0x3241, 0x03u8);
        let x = x.update(0x3242, 0x03u8);
        let x = x.update(0x3243, 0x03u8);
        let x = x.update(0x3244, 0x03u8);
        let x = x.update(0x3245, 0x03u8);
        let x = x.update(0x3246, 0x03u8);
        let x = x.update(0x3247, 0x03u8);
        x
    } else {
        x
    };
    x
}

/// Internal RAM after a core reset: the stack pointer and the four port
/// latches take their reset values, all other bytes keep theirs.
pub open spec fn reset_iram_bytes(iram: Seq<u8>) -> Seq<u8> {
    iram.update(0x80, 0xFFu8).update(0x81, 0x07u8).update(0x90, 0xFFu8).update(
        0xA0,
        0xFFu8,
    ).update(0xB0, 0xFFu8)
}



/// The simulated controller.
pub struct Ec {
    pub id: u16,
    pub version: u8,
    pub pc: u16,
    pub iram: IRam,
    pub xram: Vec<u8>,
    pub pmem: Vec<u8>,
    pub xmem: Vec<u8>,
    pub spi: Spi,
    pub superio_addr: u8,
    pub steps: u64,
    pub console: Vec<u8>,
}

impl View for Ec {
    type V = EcState;

    open spec fn view(&self) -> EcState {
        EcState {
            id: self.id,
            version: self.version,
            pc: self.pc,
            iram: self.iram@,
            xram: self.xram@,
            pmem: self.pmem@,
            xmem: self.xmem@,
            spi: self.spi@,
            superio_addr: self.superio_addr,
            steps: self.steps,
            console: self.console@,
        }
    }
}

impl Ec {
    /// The chip is one of the two modelled families and every memory has
    /// its architectural size.
    pub open spec fn wf(&self) -> bool {
        &&& (self@.id == 0x5570 || self@.id == 0x8587)
        &&& self@.iram.len() == IRAM_SIZE
        &&& self@.xram.len() == XRAM_SIZE
        &&& self@.pmem.len() == PMEM_SIZE
        &&& self@.xmem.len() == PMEM_SIZE
    }

    /// A controller holding the given firmware image in program memory
    /// and the given bytes in the external flash buffer, with zeroed
    /// XRAM, internal RAM in its reset state, and an idle SPI device.
    pub fn new(id: u16, version: u8, pmem: Vec<u8>, xmem: Vec<u8>) -> (r: Ec)
        requires
            id == 0x5570 || id == 0x8587,
            pmem@.len() == PMEM_SIZE,
            xmem@.len() == PMEM_SIZE,
        ensures
            r.wf(),
            r@ == (EcState {
                id,
                version,
                pc: 0,
                iram: iram_reset_bytes(),
                xram: zero_bytes(XRAM_SIZE as nat),
                pmem: pmem@,
                xmem: xmem@,
                spi: SpiState {
                    write: false,
                    fast_read_addr: None,
                    aai_addr: None,
                    input: Seq::<u8>::empty(),
                    output: Seq::<u8>::empty(),
                },
                superio_addr: 0,
                steps: 0,
                console: Seq::<u8>::empty(),
            }),
    {
        let mut xram: Vec<u8> = Vec::new();
        while xram.len() < XRAM_SIZE
            invariant
                xram@.len() <= XRAM_SIZE,
                forall|i: int| 0 <= i < xram@.len() ==> xram@[i] == 0u8,
            decreases XRAM_SIZE - xram@.len(),
        {
            xram.push(0);
        }

        let r = Ec {
            id,
            version,
            pc: 0,
            iram: IRam::new(),
            xram,
            pmem,
            xmem,
            spi: Spi::new(),
            superio_addr: 0,
            steps: 0,
            console: Vec::new(),
        };
        proof {
            assert(r@.xram =~= zero_bytes(XRAM_SIZE as nat));
            assert(r@.console =~= Seq::<u8>::empty());
        }
        r
    }

    /// The SCAR windows of this chip, in their search order.
    pub fn scar(&self) -> (r: Vec<(usize, usize, usize)>)
        requires
            self.wf(),
        ensures
            r@ == scar_table(self@.id),
    {
        let mut r: Vec<(usize, usize, usize)> = Vec::new();
        if self.id == 0x5570 {
            r.push((0x1040, 0x0000, 4096));
        } else {
            r.push((0x1040, 0x0000, 2048));
            r.push((0x1043, 0x0800, 1024));
            r.push((0x1046, 0x0C00, 512));
            r.push((0x1049, 0x0E00, 256));
            r.push((0x104C, 0x0F00, 256));
        }
        proof {
            assert(r@ =~= scar_table(self@.id));
        }
        r
    }

    /// Resets the execution core (program counter, stack pointer and
    /// port latches) and writes the family-specific XRAM defaults.
    /// XRAM bytes outside the default table are left as they are, as are
    /// both flash buffers, the SPI device and the host-side latches.
    #[verifier::rlimit(60)]
    pub fn reset(&mut self)
        requires
            old(self).wf(),
        ensures
            final(self).wf(),
            final(self)@ == (EcState {
                pc: 0,
                iram: reset_iram_bytes(old(self)@.iram),
                xram: reset_xram_bytes(old(self)@.id, old(self)@.version, old(self)@.xram),
                ..old(self)@
            }),
    {
        // Core reset: program counter, stack pointer, port latches.
        self.pc = 0;
        self.iram.store(0x80, 0xFF);
        self.iram.store(0x81, 0x07);
        self.iram.store(0x90, 0xFF);
        self.iram.store(0xA0, 0xFF);
        self.iram.store(0xB0, 0xFF);

        // SMFI
        self.xram[0x1001] = if self.id == 0x5570 { 0x3F } else { 0xBF };
        self.xram[0x1020] = 0x08;
        self.xram[0x1032] = 0x03;
        self.xram[0x1036] = 0x80;
        // Disable SCAR
        if self.id == 0x5570 {
            self.xram[0x1042] = 0x07;
        } else {
            self.xram[0x1042] = 0x03;
            self.xram[0x1045] = 0x03;
            self.xram[0x1048] = 0x03;
            self.xram[0x104B] = 0x03;
            self.xram[0x104E] = 0x03;
        }
        // INTC, KBC, PMC, GPIO
        self.xram[0x1110] = 0x10;
        self.xram[0x1202] = 0x07;
        self.xram[0x1506] = 0x40;
        self.xram[0x1516] = 0x40;
        self.xram[0x1600] = 0x04;
        self.xram[0x1607] = 0x01;
        if self.id == 0x5570 {
            self.xram[0x16E5] = 0x06;
        }
        // GPIO, PS/2, PWM, ADC, DAC
        self.xram[0x16F2] = 0x40;
        self.xram[0x16F5] = 0x0F;
        self.xram[0x1700] = 0x01;
        self.xram[0x1701] = 0x01;
        self.xram[0x1702] = 0x01;
        self.xram[0x1801] = 0xFF;
        self.xram[0x180D] = 0x55;
        self.xram[0x1843] = 0xFF;
        self.xram[0x1900] = 0x80;
        self.xram[0x1901] = 0x80;
        self.xram[0x1904] = 0x1F;
        self.xram[0x1906] = 0x1F;
        self.xram[0x1909] = 0x1F;
        self.xram[0x190C] = 0x1F;
        self.xram[0x1A00] = 0x10;
        self.xram[0x1A01] = 0x3C;
        // SMBus
        if self.id == 0x5570 {
            self.xram[0x1C26] = 0x19;
        }
        self.xram[0x1C34] = 0x04;
        if self.id == 0x5570 {
            self.xram[0x1C40] = 0x04;
            self.xram[0x1C41] = 0x04;
            self.xram[0x1CA9] = 0x0C;
        }
        // KBC, ECPM
        self.xram[0x1D22] = 0x01;
        self.xram[0x1E03] = 0x01;
        self.xram[0x1E04] = 0x70;
        self.xram[0x1E05] = 0x41;
        self.xram[0x1E06] = 0x01;
        self.xram[0x1E09] = 0x01;
        // GCTRL: chip id echo and version
        self.xram[0x2000] = ((self.id >> 8) & 0xFF) as u8;
        self.xram[0x2001] = (self.id & 0xFF) as u8;
        self.xram[0x2002] = self.version;
        self.xram[0x2006] = if self.id == 0x5570 { 0x4C } else { 0x8C };
        // eSPI slave and virtual-wire defaults
        if self.id == 0x5570 {
            self.xram[0x3104] = 0x03;
            self.xram[0x3105] = 0x02;
            self.xram[0x3107] = 0x0F;
            self.xram[0x310A] = 0x11;
            self.xram[0x310E] = 0x07;
            self.xram[0x3112] = 0x01;
            self.xram[0x3113] = 0x10;
            self.xram[0x3116] = 0x11;
            self.xram[0x3117] = 0x24;
            self.xram[0x311A] = 0x04;
            self.xram[0x311B] = 0x01;
            self.xram[0x3200] = 0x03;
            self.xram[0x3202] = 0x03;
            self.xram[0x3203] = 0x03;
            self.xram[0x3204] = 0x03;
            self.xram[0x3205] = 0x03;
            self.xram[0x3206] = 0x03;
            self.xram[0x3207] = 0x03;
            self.xram[0x3240] = 0x03;
            self.xram[0x3241] = 0x03;
            self.xram[0x3242] = 0x03;
            self.xram[0x3243] = 0x03;
            self.xram[0x3244] = 0x03;
            self.xram[0x3245] = 0x03;
            self.xram[0x3246] = 0x03;
            self.xram[0x3247] = 0x03;
        }
    }

    /// The byte a program fetch at `pc` returns: banked program memory,
    /// unless a SCAR window shadows the physical address.
    pub fn pmem_load(&self, pc: u16) -> (r: u8)
        requires
            self.wf(),
            fetch_ok(self@, pc),
        ensures
            r == fetch_byte(self@, pc),
    {
        match self.try_pmem_load(pc) {
            Some(b) => b,
            None => 0,
        }
    }

    /// As [`Self::pmem_load`], but returns `None` instead of demanding
    /// that the fetch stays inside program memory: a banked fetch past
    /// the end of the image, unserved by any window, has no byte.
    pub fn try_pmem_load(&self, pc: u16) -> (r: Option<u8>)
        requires
            self.wf(),
        ensures
            r == if fetch_ok(self@, pc) {
                Some(fetch_byte(self@, pc))
            } else {
                None::<u8>
            },
    {
        let paddr: usize = if pc >= 0x8000 {
            let bank: u8 = if self.xram[0x1001] & 0x80 == 0 {
                // Use the port-1 latch
                self.iram.load(0x90) & 0b11
            } else {
                // Use ECBB
                self.xram[0x1005] & 0b11
            };
            (pc as usize) + (bank as usize) * 0x8000
        } else {
            pc as usize
        };
        proof {
            lemma_low2_bound(self@.iram[0x90]);
            lemma_low2_bound(self@.xram[0x1005]);
            assert(paddr == fetch_phys(self@, pc));
        }

        let windows = self.scar();
        let ghost table = scar_table(self@.id);
        proof {
            assert(table.skip(0) =~= table);
        }
        let mut i: usize = 0;
        while i < windows.len()
            invariant
                self.wf(),
                windows@ == table,
                table == scar_table(self@.id),
                i <= windows@.len(),
                paddr == fetch_phys(self@, pc),
                scar_lookup(self@, table, paddr as int) == scar_lookup(
                    self@,
                    table.skip(i as int),
                    paddr as int,
                ),
            decreases windows@.len() - i,
        {
            let (reg, base, size) = windows[i];
            proof {
                lemma_scar_entry_bounds(self@.id, i as int);
                assert(table.skip(i as int)[0] == table[i as int]);
            }
            let l = self.xram[reg];
            let m = self.xram[reg + 1];
            let h = self.xram[reg + 2];

            let phys = (l as usize) | ((m as usize) << 8) | (((h & 3) as usize) << 16);
            proof {
                lemma_scar_phys_bound(l, m, h);
            }

            if paddr >= phys && paddr < phys + size {
                return Some(self.xram[(paddr - phys) + base]);
            }
            proof {
                assert(table.skip(i as int).skip(1) =~= table.skip(i as int + 1));
            }
            i += 1;
        }
        proof {
            assert(table.skip(i as int).len() == 0);
        }

        if paddr < PMEM_SIZE {
            Some(self.pmem[paddr])
        } else {
            None
        }
    }
}

/// Internal RAM after one push: the stack pointer at 0x81 is
/// incremented (wrapping within one byte) and the pushed value lands at
/// the new stack pointer.
pub open spec fn push8(iram: Seq<u8>, value: u8) -> Seq<u8> {
    let sp = if iram[0x81] == 0xFF {
        0u8
    } else {
        (iram[0x81] + 1) as u8
    };
    iram.update(0x81, sp).update(sp as int, value)
}

impl Ec {
    /// Pushes one byte onto the 8051 stack.
    fn push_stack(&mut self, value: u8)
        requires
            old(self).wf(),
        ensures
            final(self).wf(),
            final(self)@ == (EcState { iram: push8(old(self)@.iram, value), ..old(self)@ }),
    {
        let sp0 = self.iram.load(0x81);
        let sp: u8 = if sp0 == 0xFF {
            0
        } else {
            sp0 + 1
        };
        self.iram.store(0x81, sp);
        self.iram.store(sp as u16, value);
        proof {
            assert(self@ =~~= (EcState { iram: push8(old(self)@.iram, value), ..old(self)@ }));
        }
    }

    /// Raises interrupt `interrupt`: pushes the program counter (low
    /// byte first) and vectors to `0x0003 + interrupt * 8`.
    pub fn trigger_interrupt(&mut self, interrupt: u8)
        requires
            old(self).wf(),
            interrupt <= 5,
        ensures
            final(self).wf(),
            final(self)@ == (EcState {
                pc: (3 + interrupt * 8) as u16,
                iram: push8(
                    push8(old(self)@.iram, (old(self)@.pc & 0xFF) as u8),
                    ((old(self)@.pc >> 8) & 0xFF) as u8,
                ),
                ..old(self)@
            }),
    {
        let pc = self.pc;
        self.push_stack((pc & 0xFF) as u8);
        self.push_stack(((pc >> 8) & 0xFF) as u8);
        self.pc = 0x0003 + (interrupt as u16) * 8;
        proof {
            assert(self@ =~~= (EcState {
                pc: (3 + interrupt * 8) as u16,
                iram: push8(
                    push8(old(self)@.iram, (old(self)@.pc & 0xFF) as u8),
                    ((old(self)@.pc >> 8) & 0xFF) as u8,
                ),
                ..old(self)@
            }));
        }
    }

    /// Hands over everything the firmware has printed since the last
    /// call and empties the console sink.
    pub fn take_console(&mut self) -> (r: Vec<u8>)
        requires
            old(self).wf(),
        ensures
            final(self).wf(),
            r@ == old(self)@.console,
            final(self)@ == (EcState { console: Seq::<u8>::empty(), ..old(self)@ }),
    {
        let mut out: Vec<u8> = Vec::new();
        core::mem::swap(&mut out, &mut self.console);
        proof {
            assert(self@ =~~= (EcState { console: Seq::<u8>::empty(), ..old(self)@ }));
        }
        out
    }

    /// Advances the monotonic step counter.
    pub fn count_step(&mut self)
        requires
            old(self).wf(),
            old(self)@.steps < u64::MAX,
        ensures
            final(self).wf(),
            final(self)@ == (EcState { steps: (old(self)@.steps + 1) as u64, ..old(self)@ }),
    {
        self.steps = self.steps + 1;
    }
}

/// The two low bits of a byte are at most 3.
proof fn lemma_low2_bound(x: u8)
    by (bit_vector)
    ensures
        x & 0b11 <= 3,
{
}

/// A window's mapping registers and shadow range lie inside XRAM and
/// its size is positive.
pub proof fn lemma_scar_entry_bounds(id: u16, i: int)
    requires
        0 <= i < scar_table(id).len(),
    ensures
        scar_table(id)[i].0 + 2 < XRAM_SIZE,
        scar_table(id)[i].1 + scar_table(id)[i].2 <= 0x1000,
        scar_table(id)[i].2 >= 1,
{
    if id == 0x5570 {
        assert(scar_table(id)[0] == (0x1040usize, 0x0000usize, 4096usize));
    } else {
        assert(scar_table(id)[0] == (0x1040usize, 0x0000usize, 2048usize));
        assert(scar_table(id)[1] == (0x1043usize, 0x0800usize, 1024usize));
        assert(scar_table(id)[2] == (0x1046usize, 0x0C00usize, 512usize));
        assert(scar_table(id)[3] == (0x1049usize, 0x0E00usize, 256usize));
        assert(scar_table(id)[4] == (0x104Cusize, 0x0F00usize, 256usize));
    }
}

/// The packed 18-bit window address is below 0x40000.
pub proof fn lemma_scar_phys_bound(l: u8, m: u8, h: u8)
    ensures
        scar_phys(l, m, h) < 0x40000,
{
    assert((l as usize) | ((m as usize) << 8) | (((h & 3) as usize) << 16) < 0x40000)
        by (bit_vector);
}

} // verus!
