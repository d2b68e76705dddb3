//! Laws of the register fabric and the mailboxes: properties that hold
//! for every access, proved once against the access and transport
//! models.

use vstd::prelude::*;

use crate::Error;
use crate::ec::{EcState, scar_table};
use crate::xram::{
    access_model, commit_byte, decode, dma_bytes, scar_index, window_phys, Decode,
};
use crate::socket::socket_model;

verus! {

/// Read-back masking: every access of a mask-governed register returns
/// the stored byte with its write-only bits reading as zero. (The
/// indirect-flash data register returns flash or SPI bytes instead and
/// is excluded here; its read-back is pinned by the access model
/// directly.)
pub proof fn lemma_readback_masks(s: EcState, address: u16, new_opt: Option<u8>)
    requires
        address != 0x103F,
        decode(s.id, address) is Reg,
    ensures
        (match decode(s.id, address) {
            Decode::Reg(m) => access_model(s, address, new_opt).1 == Ok::<u8, Error>(
                s.xram[address as int] & !m.write_only,
            ),
            _ => true,
        }),
{
}

/// Commit policy, bit by bit: a store of `v` keeps the stored value at
/// read-only bits, clears write-clear bits exactly where `v` holds 1,
/// and takes `v` everywhere else. Write-clear and read-only masks that
/// overlap are a configuration error, excluded here.
pub proof fn lemma_commit_policy(stored: u8, v: u8, wc: u8, ro: u8, bit: u8)
    requires
        wc & ro == 0,
        bit < 8,
    ensures
        ro & (1u8 << bit) != 0 ==> commit_byte(stored, v, wc, ro) & (1u8 << bit) == stored & (
        1u8 << bit),
        wc & (1u8 << bit) != 0 && ro & (1u8 << bit) == 0 ==> commit_byte(stored, v, wc, ro) & (
        1u8 << bit) == (stored & !v) & (1u8 << bit),
        wc & (1u8 << bit) == 0 && ro & (1u8 << bit) == 0 ==> commit_byte(stored, v, wc, ro) & (
        1u8 << bit) == v & (1u8 << bit),
{
    assert(wc & ro == 0 && bit < 8 ==> (ro & (1u8 << bit) != 0 ==> ((stored & ro) | ((stored
        & !v) & wc & !ro) | (v & !wc & !ro)) & (1u8 << bit) == stored & (1u8 << bit)) && (wc & (
    1u8 << bit) != 0 && ro & (1u8 << bit) == 0 ==> ((stored & ro) | ((stored & !v) & wc & !ro) | (
    v & !wc & !ro)) & (1u8 << bit) == (stored & !v) & (1u8 << bit)) && (wc & (1u8 << bit) == 0
        && ro & (1u8 << bit) == 0 ==> ((stored & ro) | ((stored & !v) & wc & !ro) | (v & !wc
        & !ro)) & (1u8 << bit) == v & (1u8 << bit))) by (bit_vector);
}

/// After any store to a mask-governed register, the byte that lands in
/// XRAM at the stored address is exactly [`commit_byte`] of the old
/// byte, the written value, and the register's masks. Side effects of
/// the access (mailbox flags, a SCAR copy, the console) touch other
/// locations only.
pub proof fn lemma_store_commits(s: EcState, address: u16, v: u8)
    requires
        s.id == 0x5570 || s.id == 0x8587,
        s.xram.len() == 0x10000,
        address != 0x103F,
        decode(s.id, address) is Reg,
    ensures
        (match decode(s.id, address) {
            Decode::Reg(m) => access_model(s, address, Some(v)).0.xram[address as int]
                == commit_byte(s.xram[address as int], v, m.write_clear, m.read_only),
            _ => true,
        }),
{
    match scar_index(s.id, address) {
        Some(x) => {
            crate::ec::lemma_scar_entry_bounds(s.id, x as int);
            assert(address >= 0x1042);
        },
        None => {},
    }
}

/// SCAR DMA: a store that drops bit 7 of a window's high mapping
/// register from 1 to 0 copies the window's `size` program-memory bytes
/// at its mapped physical address into XRAM at the window's base.
pub proof fn lemma_scar_dma_copies(s: EcState, address: u16, x: usize, v: u8)
    requires
        s.id == 0x5570 || s.id == 0x8587,
        s.xram.len() == 0x10000,
        scar_index(s.id, address) == Some(x),
        s.xram[address as int] & 0x80 != 0,
        v & 0x80 == 0,
    ensures
        ({
            let base = scar_table(s.id)[x as int].1;
            let size = scar_table(s.id)[x as int].2;
            let phys = window_phys(s, x as int);
            let s2 = access_model(s, address, Some(v)).0;
            forall|j: int|
                base <= j < base + size ==> #[trigger] s2.xram[j] == s.pmem[phys + (j - base)]
        }),
{
    crate::ec::lemma_scar_entry_bounds(s.id, x as int);
    let base = scar_table(s.id)[x as int].1;
    let size = scar_table(s.id)[x as int].2;
    let phys = window_phys(s, x as int);
    let s2 = access_model(s, address, Some(v)).0;
    assert(address >= 0x1042);
    assert forall|j: int| base <= j < base + size implies #[trigger] s2.xram[j] == s.pmem[phys
        + (j - base)] by {
        assert(dma_bytes(s.xram, s.pmem, base, phys, size)[j] == s.pmem[phys + (j - base)]);
    }
}

/// PMC output-buffer round trip: after the firmware stores `v` to the
/// PMC data-out register, the status byte shows OBF; the host's read of
/// the data port answers exactly `v` and clears OBF, and a second read
/// finds the buffer empty and answers 0.
pub proof fn lemma_pmc_obf_round_trip(s: EcState, v: u8)
    requires
        s.id == 0x5570 || s.id == 0x8587,
        s.xram.len() == 0x10000,
    ensures
        ({
            let s1 = access_model(s, 0x1501, Some(v)).0;
            let read1 = socket_model(s1, seq![0x01u8, 0x62u8, 0x00u8, 0x00u8]);
            let read2 = socket_model(read1.0, seq![0x01u8, 0x62u8, 0x00u8, 0x00u8]);
            &&& s1.xram[0x1500] & 1 != 0
            &&& s1.xram[0x1501] == v
            &&& read1.1 == v
            &&& read1.0.xram[0x1500] & 1 == 0
            &&& read2.1 == 0
            &&& read2.0 == read1.0
        }),
{
    let st = s.xram[0x1500];
    assert((st | 1u8) & 1u8 != 0) by (bit_vector);
    assert(commit_byte(s.xram[0x1501], v, 0, 0) == v) by {
        let o = s.xram[0x1501];
        assert(((o & 0u8) | ((o & !v) & 0u8 & !0u8) | (v & !0u8 & !0u8)) == v) by (bit_vector);
    }
    assert(((0x62u8 as u16) | ((0x00u8 as u16) << 8)) == 0x62u16) by (bit_vector);
    let s1 = access_model(s, 0x1501, Some(v)).0;
    let st1 = s1.xram[0x1500];
    assert((st1 & !1u8) & 1u8 == 0) by (bit_vector);
}

/// KBC output-buffer round trip, for the keyboard byte: a firmware
/// store to the keyboard data-out register raises OBF; the host-side
/// read answers the stored byte and clears OBF exactly once.
pub proof fn lemma_kbc_obf_round_trip(s: EcState, v: u8)
    requires
        s.id == 0x5570 || s.id == 0x8587,
        s.xram.len() == 0x10000,
    ensures
        ({
            let s1 = access_model(s, 0x1306, Some(v)).0;
            &&& s1.xram[0x1304] & 1 != 0
            &&& s1.xram[0x1306] == v
            &&& crate::mailbox::host_read_bytes(s1.xram, 0x1304)[0x1304] & 1 == 0
        }),
{
    let st = s.xram[0x1304];
    assert((st | 1u8) & 1u8 != 0) by (bit_vector);
    assert(commit_byte(s.xram[0x1306], v, 0, 0) == v) by {
        let o = s.xram[0x1306];
        assert(((o & 0u8) | ((o & !v) & 0u8 & !0u8) | (v & !0u8 & !0u8)) == v) by (bit_vector);
    }
    let s1 = access_model(s, 0x1306, Some(v)).0;
    let st1 = s1.xram[0x1304];
    assert((st1 | 1u8) & !1u8 & 1u8 == 0) by (bit_vector);
    assert((st1 & !1u8) & 1u8 == 0) by (bit_vector);
}

/// Host writes to the PMC ports, as the firmware observes them: a write
/// to the command port sets IBF and CMD together and deposits the byte
/// at data-in; a write to the data port sets IBF, clears CMD and
/// deposits the byte; the firmware's read of data-in returns the byte
/// and clears IBF.
pub proof fn lemma_pmc_host_writes_visible(s: EcState, v: u8)
    requires
        s.id == 0x5570 || s.id == 0x8587,
        s.xram.len() == 0x10000,
    ensures
        ({
            let sc = socket_model(s, seq![0x02u8, 0x66u8, 0x00u8, v]).0;
            &&& sc.xram[0x1500] & 2 != 0
            &&& sc.xram[0x1500] & 8 != 0
            &&& sc.xram[0x1504] == v
            &&& access_model(sc, 0x1504, None).1 == Ok::<u8, Error>(v)
            &&& access_model(sc, 0x1504, None).0.xram[0x1500] & 2 == 0
        }),
        ({
            let sd = socket_model(s, seq![0x02u8, 0x62u8, 0x00u8, v]).0;
            &&& sd.xram[0x1500] & 2 != 0
            &&& sd.xram[0x1500] & 8 == 0
            &&& sd.xram[0x1504] == v
        }),
{
    assert(((0x66u8 as u16) | ((0x00u8 as u16) << 8)) == 0x66u16) by (bit_vector);
    assert(((0x62u8 as u16) | ((0x00u8 as u16) << 8)) == 0x62u16) by (bit_vector);
    let st = s.xram[0x1500];
    assert((st | (8u8 | 2u8)) & 2u8 != 0 && (st | (8u8 | 2u8)) & 8u8 != 0) by (bit_vector);
    assert(((st & !8u8) | 2u8) & 2u8 != 0 && ((st & !8u8) | 2u8) & 8u8 == 0) by (bit_vector);
    assert(v & !0u8 == v) by (bit_vector);
    let sc = socket_model(s, seq![0x02u8, 0x66u8, 0x00u8, v]).0;
    let stc = sc.xram[0x1500];
    assert((stc & !2u8) & 2u8 == 0) by (bit_vector);
}

/// KBC host writes, as the firmware observes them: command sets
/// IBF and CMD, data sets IBF and clears CMD, both deposit the byte at
/// data-in; the firmware's read of data-in returns the byte and clears
/// IBF.
pub proof fn lemma_kbc_host_writes_visible(s: EcState, v: u8)
    requires
        s.id == 0x5570 || s.id == 0x8587,
        s.xram.len() == 0x10000,
    ensures
        ({
            let sc = EcState {
                xram: crate::mailbox::host_command_bytes(s.xram, 0x1304, 0x130A, v),
                ..s
            };
            &&& sc.xram[0x1304] & 2 != 0
            &&& sc.xram[0x1304] & 8 != 0
            &&& sc.xram[0x130A] == v
            &&& access_model(sc, 0x130A, None).1 == Ok::<u8, Error>(v)
            &&& access_model(sc, 0x130A, None).0.xram[0x1304] & 2 == 0
        }),
        ({
            let sd = EcState {
                xram: crate::mailbox::host_data_bytes(s.xram, 0x1304, 0x130A, v),
                ..s
            };
            &&& sd.xram[0x1304] & 2 != 0
            &&& sd.xram[0x1304] & 8 == 0
            &&& sd.xram[0x130A] == v
        }),
{
    let st = s.xram[0x1304];
    assert((st | (8u8 | 2u8)) & 2u8 != 0 && (st | (8u8 | 2u8)) & 8u8 != 0) by (bit_vector);
    assert(((st & !8u8) | 2u8) & 2u8 != 0 && ((st & !8u8) | 2u8) & 8u8 == 0) by (bit_vector);
    assert(v & !0u8 == v) by (bit_vector);
    let sc = EcState {
        xram: crate::mailbox::host_command_bytes(s.xram, 0x1304, 0x130A, v),
        ..s
    };
    let stc = sc.xram[0x1304];
    assert((stc & !2u8) & 2u8 == 0) by (bit_vector);
}

} // verus!


verus! {

/// No register in the table declares overlapping masks: write-clear,
/// read-only and write-only bits are pairwise disjoint on every
/// register of both chip families. Overlapping masks would make the
/// commit policy ambiguous, so the table keeps them apart.
#[verifier::rlimit(100)]
pub proof fn lemma_masks_disjoint(id: u16, address: u16)
    ensures
        (match decode(id, address) {
            Decode::Reg(m) => m.write_clear & m.read_only == 0 && m.write_clear & m.write_only
                == 0 && m.read_only & m.write_only == 0,
            _ => true,
        }),
{
    assert(0x40u8 & 0x18u8 == 0 && 0x30u8 & 0xC0u8 == 0 && 0x40u8 & 0x3Fu8 == 0 && 0xFEu8
        & 0x01u8 == 0 && 0x03u8 & 0x10u8 == 0 && 0xEEu8 & 0x01u8 == 0) by (bit_vector);
    assert(forall|x: u8, y: u8| x == 0 || y == 0 ==> #[trigger] (x & y) == 0) by (bit_vector);
}

/// After reset every SCAR window is disabled: each high mapping
/// register holds its reset value, which maps the window at or above
/// 0x30000, past every reachable fetch address, so every program fetch
/// is served from program memory.
pub proof fn lemma_reset_disables_windows(s: EcState, pc: u16)
    requires
        s.id == 0x5570 || s.id == 0x8587,
        s.xram.len() == 0x10000,
    ensures
        ({
            let s1 = EcState {
                pc: 0,
                iram: crate::ec::reset_iram_bytes(s.iram),
                xram: crate::ec::reset_xram_bytes(s.id, s.version, s.xram),
                ..s
            };
            crate::ec::scar_lookup(s1, scar_table(s1.id), crate::ec::fetch_phys(s1, pc))
                is None
        }),
{
    let s1 = EcState {
        pc: 0,
        iram: crate::ec::reset_iram_bytes(s.iram),
        xram: crate::ec::reset_xram_bytes(s.id, s.version, s.xram),
        ..s
    };
    let table = scar_table(s1.id);
    let phys = crate::ec::fetch_phys(s1, pc);
    assert(forall|x: u8| #[trigger] (x & 0b11u8) <= 3) by (bit_vector);
    assert(phys <= 0xFFFF + 3 * 0x8000);
    if s1.id == 0x5570 {
        assert(s1.xram[0x1042] == 0x07u8);
        let l0 = s1.xram[0x1040];
        let m0 = s1.xram[0x1041];
        assert(crate::ec::scar_phys(l0, m0, 0x07) >= 0x30000) by (bit_vector);
        assert(table.skip(1).len() == 0);
        assert(crate::ec::scar_lookup(s1, table.skip(1), phys) is None);
        assert(table[0] == (0x1040usize, 0x0000usize, 4096usize));
        assert(crate::ec::scar_lookup(s1, table, phys) is None);
    } else {
        assert(s1.xram[0x1042] == 0x03u8);
        assert(s1.xram[0x1045] == 0x03u8);
        assert(s1.xram[0x1048] == 0x03u8);
        assert(s1.xram[0x104B] == 0x03u8);
        assert(s1.xram[0x104E] == 0x03u8);
        assert(forall|l: u8, m: u8| #[trigger] crate::ec::scar_phys(l, m, 0x03u8) >= 0x30000)
            by (bit_vector);
        assert(table[0] == (0x1040usize, 0x0000usize, 2048usize));
        assert(table[1] == (0x1043usize, 0x0800usize, 1024usize));
        assert(table[2] == (0x1046usize, 0x0C00usize, 512usize));
        assert(table[3] == (0x1049usize, 0x0E00usize, 256usize));
        assert(table[4] == (0x104Cusize, 0x0F00usize, 256usize));
        assert(table.skip(4).skip(1) =~= table.skip(5));
        assert(table.skip(5).len() == 0);
        assert(crate::ec::scar_lookup(s1, table.skip(5), phys) is None);
        assert(table.skip(4)[0] == table[4]);
        assert(crate::ec::scar_lookup(s1, table.skip(4), phys) is None);
        assert(table.skip(3).skip(1) =~= table.skip(4));
        assert(table.skip(3)[0] == table[3]);
        assert(crate::ec::scar_lookup(s1, table.skip(3), phys) is None);
        assert(table.skip(2).skip(1) =~= table.skip(3));
        assert(table.skip(2)[0] == table[2]);
        assert(crate::ec::scar_lookup(s1, table.skip(2), phys) is None);
        assert(table.skip(1).skip(1) =~= table.skip(2));
        assert(table.skip(1)[0] == table[1]);
        assert(crate::ec::scar_lookup(s1, table.skip(1), phys) is None);
        assert(crate::ec::scar_lookup(s1, table, phys) is None);
    }
}

} // verus!

