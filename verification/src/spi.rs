//! SPI flash device model: a stateful consumer of SPI command bytes
//! operating on a mutable flash buffer.
//!
//! Command bytes accumulate in `input` while chip select is asserted;
//! terminating chip select calls [`Spi::step`], which dispatches on the
//! first byte and must drain the queue completely. Bytes produced by
//! read-style commands accumulate in `output` and are drained one byte
//! per follow read.

use vstd::prelude::*;

use crate::Error;

verus! {

/// Mathematical state of the SPI device.
#[verifier::ext_equal]
pub struct SpiState {
    pub write: bool,
    pub fast_read_addr: Option<usize>,
    pub aai_addr: Option<usize>,
    pub input: Seq<u8>,
    pub output: Seq<u8>,
}

/// The 24-bit flash address packed into three command bytes, most
/// significant byte first on the wire, assembled least significant first.
pub open spec fn addr24(a2: u8, a1: u8, a0: u8) -> usize {
    (a0 as usize) | ((a1 as usize) << 8) | ((a2 as usize) << 16)
}

pub proof fn lemma_addr24_bound(a2: u8, a1: u8, a0: u8)
    ensures
        addr24(a2, a1, a0) < 0x100_0000,
{
    assert((a0 as usize) | ((a1 as usize) << 8) | ((a2 as usize) << 16) < 0x100_0000)
        by (bit_vector);
}

/// Successor of a program address within its 256-byte page: the page
/// offset advances but wraps without carrying into the page number.
pub open spec fn page_next(address: usize) -> usize {
    if address & 0xFF == 0xFF {
        (address - 0xFF) as usize
    } else {
        (address + 1) as usize
    }
}

/// Flash contents after programming `data` byte by byte starting at
/// `address`, each write advancing with [`page_next`].
pub open spec fn page_program(flash: Seq<u8>, address: usize, data: Seq<u8>) -> Seq<u8>
    decreases data.len(),
{
    if data.len() == 0 {
        flash
    } else {
        page_program(flash.update(address as int, data[0]), page_next(address), data.skip(1))
    }
}

/// Every address touched by a page program of `n` bytes from `address`
/// lies inside a flash buffer of length `len`.
pub open spec fn page_program_ok(address: usize, n: nat, len: nat) -> bool
    decreases n,
{
    n == 0 || (address < len && page_program_ok(page_next(address), (n - 1) as nat, len))
}

/// Flash contents after a chip erase.
pub open spec fn erased(flash: Seq<u8>) -> Seq<u8> {
    Seq::new(flash.len(), |i: int| 0xFFu8)
}

/// Flash contents after erasing the 256 bytes from `address`.
pub open spec fn page_erased(flash: Seq<u8>, address: usize) -> Seq<u8> {
    Seq::new(
        flash.len(),
        |i: int| if address <= i < address + 256 { 0xFFu8 } else { flash[i] },
    )
}

/// While a fast read is latched, each step emits the byte at the latched
/// address and advances the address, stopping once past the end of flash.
pub open spec fn fast_read_finish(s: SpiState, flash: Seq<u8>) -> SpiState {
    match s.fast_read_addr {
        Some(address) => SpiState {
            fast_read_addr: if address + 1 < flash.len() {
                Some((address + 1) as usize)
            } else {
                None
            },
            output: s.output.push(flash[address as int]),
            ..s
        },
        None => s,
    }
}

/// Effect of one dispatched command. `s.input` holds the parameter bytes,
/// the command byte `cmd` having been consumed and the fast-read latch
/// cleared already.
pub open spec fn dispatch(cmd: u8, s: SpiState, flash: Seq<u8>) -> (SpiState, Seq<u8>, Result<
    (),
    Error,
>) {
    if cmd == 0x01 {
        // write status: consumes one value byte, discards it
        if s.input.len() < 1 {
            (
                SpiState { input: Seq::empty(), ..s },
                flash,
                Err(Error::MissingSpiParameter { opcode: 0x01 }),
            )
        } else {
            (SpiState { input: s.input.skip(1), ..s }, flash, Ok(()))
        }
    } else if cmd == 0x02 {
        // page program: three address bytes, then all remaining bytes as data
        if s.input.len() < 3 {
            (
                SpiState { input: Seq::empty(), ..s },
                flash,
                Err(Error::MissingSpiParameter { opcode: 0x02 }),
            )
        } else {
            let address = addr24(s.input[0], s.input[1], s.input[2]);
            (
                SpiState { input: Seq::empty(), ..s },
                page_program(flash, address, s.input.skip(3)),
                Ok(()),
            )
        }
    } else if cmd == 0x04 {
        // write disable
        (SpiState { write: false, aai_addr: None, ..s }, flash, Ok(()))
    } else if cmd == 0x05 {
        // read status
        (
            SpiState { output: s.output.push(if s.write { 2u8 } else { 0u8 }), ..s },
            flash,
            Ok(()),
        )
    } else if cmd == 0x06 {
        // write enable
        (SpiState { write: true, ..s }, flash, Ok(()))
    } else if cmd == 0x0B {
        // fast read: three address bytes and one dummy byte latch the address
        if s.input.len() < 4 {
            (
                SpiState { input: Seq::empty(), ..s },
                flash,
                Err(Error::MissingSpiParameter { opcode: 0x0B }),
            )
        } else {
            let address = addr24(s.input[0], s.input[1], s.input[2]);
            (
                SpiState { fast_read_addr: Some(address), input: s.input.skip(4), ..s },
                flash,
                Ok(()),
            )
        }
    } else if cmd == 0x50 {
        // write volatile status: no effect
        (s, flash, Ok(()))
    } else if cmd == 0x60 {
        // chip erase
        (s, erased(flash), Ok(()))
    } else if cmd == 0x9F {
        // JEDEC id
        (SpiState { output: s.output.push(0xEF).push(0xEF).push(0xEF), ..s }, flash, Ok(()))
    } else if cmd == 0xAD {
        // auto-address-increment program: an explicit address if more than
        // two bytes are queued, else the latched one; then two data bytes
        if s.input.len() > 2 {
            if s.input.len() < 5 {
                (
                    SpiState { input: Seq::empty(), ..s },
                    flash,
                    Err(Error::MissingSpiParameter { opcode: 0xAD }),
                )
            } else {
                let address = addr24(s.input[0], s.input[1], s.input[2]);
                (
                    SpiState {
                        input: s.input.skip(5),
                        aai_addr: Some((address + 2) as usize),
                        ..s
                    },
                    flash.update(address as int, s.input[3]).update(
                        address as int + 1,
                        s.input[4],
                    ),
                    Ok(()),
                )
            }
        } else {
            match s.aai_addr {
                None => (s, flash, Err(Error::MissingAaiAddress)),
                Some(address) => {
                    if s.input.len() < 2 {
                        (
                            SpiState { input: Seq::empty(), ..s },
                            flash,
                            Err(Error::MissingSpiParameter { opcode: 0xAD }),
                        )
                    } else {
                        (
                            SpiState {
                                input: s.input.skip(2),
                                aai_addr: Some((address + 2) as usize),
                                ..s
                            },
                            flash.update(address as int, s.input[0]).update(
                                address as int + 1,
                                s.input[1],
                            ),
                            Ok(()),
                        )
                    }
                },
            }
        }
    } else if cmd == 0xD7 {
        // page erase: three address bytes select 256 bytes to fill with 0xFF
        if s.input.len() < 3 {
            (
                SpiState { input: Seq::empty(), ..s },
                flash,
                Err(Error::MissingSpiParameter { opcode: 0xD7 }),
            )
        } else {
            let address = addr24(s.input[0], s.input[1], s.input[2]);
            (
                SpiState { input: s.input.skip(3), ..s },
                page_erased(flash, address),
                Ok(()),
            )
        }
    } else {
        (s, flash, Err(Error::UnknownSpiCommand { opcode: cmd }))
    }
}

/// Complete effect of one [`Spi::step`] call: dispatch the queued
/// command, demand that it consumed the queue, then service a latched
/// fast read.
pub open spec fn step_spec(pre: SpiState, flash: Seq<u8>) -> (SpiState, Seq<u8>, Result<
    (),
    Error,
>) {
    if pre.input.len() == 0 {
        (fast_read_finish(pre, flash), flash, Ok(()))
    } else {
        let cmd = pre.input[0];
        let s1 = SpiState { fast_read_addr: None, input: pre.input.skip(1), ..pre };
        let (s2, f2, res) = dispatch(cmd, s1, flash);
        if res is Err {
            (s2, f2, res)
        } else if s2.input.len() != 0 {
            (s2, f2, Err(Error::SpiInputResidue { opcode: cmd }))
        } else {
            (fast_read_finish(s2, f2), f2, Ok(()))
        }
    }
}

/// Every flash index the step touches is inside a buffer of `flash_len`
/// bytes; the executable step demands this instead of faulting.
pub open spec fn step_ok(pre: SpiState, flash_len: nat) -> bool {
    if pre.input.len() == 0 {
        match pre.fast_read_addr {
            Some(address) => address < flash_len,
            None => true,
        }
    } else {
        let cmd = pre.input[0];
        let rest = pre.input.skip(1);
        &&& (cmd == 0x02 && rest.len() >= 3 ==> page_program_ok(
            addr24(rest[0], rest[1], rest[2]),
            (rest.len() - 3) as nat,
            flash_len,
        ))
        &&& (cmd == 0x0B && rest.len() == 4 ==> addr24(rest[0], rest[1], rest[2]) < flash_len)
        &&& (cmd == 0xAD && rest.len() >= 5 ==> addr24(rest[0], rest[1], rest[2]) + 1
            < flash_len)
        &&& (cmd == 0xAD && rest.len() == 2 ==> match pre.aai_addr {
            Some(address) => address + 1 < flash_len,
            None => true,
        })
        &&& (cmd == 0xD7 && rest.len() >= 3 ==> addr24(rest[0], rest[1], rest[2]) + 256
            <= flash_len)
    }
}

/// A page program whose bytes stay inside one 256-byte page lands each
/// byte at consecutive addresses and touches nothing else.
proof fn lemma_page_program_in_page(flash: Seq<u8>, address: usize, data: Seq<u8>)
    requires
        (address & 0xFF) + data.len() <= 256,
        address + data.len() <= flash.len(),
        flash.len() <= usize::MAX,
    ensures
        page_program(flash, address, data).len() == flash.len(),
        forall|j: int|
            address <= j < address + data.len() ==> #[trigger] page_program(
                flash,
                address,
                data,
            )[j] == data[j - address],
        forall|j: int|
            0 <= j < flash.len() && !(address <= j < address + data.len())
                ==> #[trigger] page_program(flash, address, data)[j] == flash[j],
    decreases data.len(),
{
    if data.len() > 0 {
        let written = flash.update(address as int, data[0]);
        if data.len() > 1 {
            assert(address & 0xFF != 0xFF);
            assert((address & 0xFF) != 0xFF ==> ((address + 1) as usize) & 0xFF == (address
                & 0xFF) + 1) by (bit_vector);
            assert(page_next(address) == (address + 1) as usize);
            lemma_page_program_in_page(written, (address + 1) as usize, data.skip(1));
            assert(page_program(flash, address, data) == page_program(
                written,
                (address + 1) as usize,
                data.skip(1),
            ));
            assert forall|j: int|
                address <= j < address + data.len() implies #[trigger] page_program(
                flash,
                address,
                data,
            )[j] == data[j - address] by {
                if j == address {
                    assert(page_program(written, (address + 1) as usize, data.skip(1))[j]
                        == written[j]);
                } else {
                    assert(page_program(written, (address + 1) as usize, data.skip(1))[j]
                        == data.skip(1)[j - address - 1]);
                }
            }
            assert forall|j: int|
                0 <= j < flash.len() && !(address <= j < address + data.len())
                implies #[trigger] page_program(flash, address, data)[j] == flash[j] by {
                assert(page_program(written, (address + 1) as usize, data.skip(1))[j]
                    == written[j]);
            }
        } else {
            assert(data.skip(1).len() == 0);
            assert(page_program(written, page_next(address), data.skip(1)) == written);
            assert(page_program(flash, address, data) == written);
        }
    }
}

/// Chip erase: stepping the device with exactly the erase opcode queued
/// succeeds and leaves every flash byte reading 0xFF.
pub proof fn lemma_chip_erase_blank(pre: SpiState, flash: Seq<u8>)
    requires
        pre.input == seq![0x60u8],
    ensures
        step_spec(pre, flash).2 is Ok,
        step_spec(pre, flash).1.len() == flash.len(),
        forall|i: int| 0 <= i < flash.len() ==> #[trigger] step_spec(pre, flash).1[i] == 0xFFu8,
{
    assert(pre.input.skip(1).len() == 0);
}

/// Page program at a page boundary: programming 257 bytes starting at
/// `page | 0xFF` writes the first byte at `page | 0xFF`, then wraps to
/// the bottom of the same page, so the following 256 bytes land at
/// `page`, `page + 1`, ..., `page + 255`, the last of them overwriting
/// the first at `page | 0xFF`.
pub proof fn lemma_page_program_wraps(flash: Seq<u8>, page: usize, data: Seq<u8>)
    requires
        page & 0xFF == 0,
        data.len() == 257,
        page + 256 <= flash.len(),
        flash.len() <= usize::MAX,
    ensures
        page_program(flash, (page | 0xFF) as usize, data) == page_program(
            flash.update((page | 0xFF) as int, data[0]),
            page,
            data.skip(1),
        ),
        forall|j: int|
            page <= j < page + 256 ==> #[trigger] page_program(
                flash,
                (page | 0xFF) as usize,
                data,
            )[j] == data[j - page + 1],
{
    let start = (page | 0xFF) as usize;
    let p = page;
    assert(p & 0xFF == 0 ==> ((p | 0xFF) as usize) & 0xFF == 0xFF && p | 0xFF == p + 0xFF)
        by (bit_vector)
        requires
            p & 0xFF == 0,
    ;
    assert(page_next(start) == page);
    assert(page_program(flash, start, data) == page_program(
        flash.update(start as int, data[0]),
        page,
        data.skip(1),
    ));
    lemma_page_program_in_page(
        flash.update(start as int, data[0]),
        page,
        data.skip(1),
    );
    assert forall|j: int| page <= j < page + 256 implies #[trigger] page_program(
        flash,
        start,
        data,
    )[j] == data[j - page + 1] by {
        assert(page_program(flash.update(start as int, data[0]), page, data.skip(1))[j]
            == data.skip(1)[j - page]);
    }
}

/// SPI flash device state.
pub struct Spi {
    pub write: bool,
    pub fast_read_addr: Option<usize>,
    pub aai_addr: Option<usize>,
    pub input: Vec<u8>,
    pub output: Vec<u8>,
}

impl View for Spi {
    type V = SpiState;

    open spec fn view(&self) -> SpiState {
        SpiState {
            write: self.write,
            fast_read_addr: self.fast_read_addr,
            aai_addr: self.aai_addr,
            input: self.input@,
            output: self.output@,
        }
    }
}

impl Spi {
    /// A fresh device: write disabled, no latched addresses, empty queues.
    pub fn new() -> (r: Spi)
        ensures
            r@ == (SpiState {
                write: false,
                fast_read_addr: None,
                aai_addr: None,
                input: Seq::<u8>::empty(),
                output: Seq::<u8>::empty(),
            }),
    {
        let r = Spi {
            write: false,
            fast_read_addr: None,
            aai_addr: None,
            input: Vec::new(),
            output: Vec::new(),
        };
        proof {
            assert(r@.input =~= Seq::<u8>::empty());
            assert(r@.output =~= Seq::<u8>::empty());
        }
        r
    }

    /// Decides [`step_ok`]: whether stepping this device against a
    /// flash of `flash_len` bytes stays inside the buffer.
    pub fn step_ok_check(&self, flash_len: usize) -> (r: bool)
        ensures
            r == step_ok(self@, flash_len as nat),
    {
        let n = self.input.len();
        if n == 0 {
            match self.fast_read_addr {
                Some(address) => address < flash_len,
                None => true,
            }
        } else {
            let cmd = self.input[0];
            proof {
                assert(self@.input.skip(1).len() == n - 1);
            }
            if cmd == 0x02 && n >= 4 {
                let a2 = self.input[1];
                let a1 = self.input[2];
                let a0 = self.input[3];
                let mut address = (a0 as usize) | ((a1 as usize) << 8) | ((a2 as usize) << 16);
                let mut k = n - 4;
                proof {
                    assert(self@.input.skip(1)[0] == self@.input[1]);
                    assert(self@.input.skip(1)[1] == self@.input[2]);
                    assert(self@.input.skip(1)[2] == self@.input[3]);
                }
                proof {
                    let rest = self@.input.skip(1);
                    assert(address == addr24(rest[0], rest[1], rest[2]));
                    assert(step_ok(self@, flash_len as nat) == page_program_ok(
                        address,
                        k as nat,
                        flash_len as nat,
                    ));
                }
                while k > 0
                    invariant
                        step_ok(self@, flash_len as nat) == page_program_ok(
                            address,
                            k as nat,
                            flash_len as nat,
                        ),
                    decreases k,
                {
                    if address >= flash_len {
                        proof {
                            assert(!page_program_ok(address, k as nat, flash_len as nat));
                        }
                        return false;
                    }
                    if address & 0xFF == 0xFF {
                        proof {
                            assert(address & 0xFF == 0xFF ==> address >= 0xFF) by (bit_vector);
                        }
                        address -= 0xFF;
                    } else {
                        address += 1;
                    }
                    k -= 1;
                }
                true
            } else if cmd == 0x0B && n == 5 {
                let a2 = self.input[1];
                let a1 = self.input[2];
                let a0 = self.input[3];
                proof {
                    assert(self@.input.skip(1)[0] == self@.input[1]);
                    assert(self@.input.skip(1)[1] == self@.input[2]);
                    assert(self@.input.skip(1)[2] == self@.input[3]);
                }
                ((a0 as usize) | ((a1 as usize) << 8) | ((a2 as usize) << 16)) < flash_len
            } else if cmd == 0xAD && n >= 6 {
                let a2 = self.input[1];
                let a1 = self.input[2];
                let a0 = self.input[3];
                proof {
                    assert(self@.input.skip(1)[0] == self@.input[1]);
                    assert(self@.input.skip(1)[1] == self@.input[2]);
                    assert(self@.input.skip(1)[2] == self@.input[3]);
                    lemma_addr24_bound(a2, a1, a0);
                }
                ((a0 as usize) | ((a1 as usize) << 8) | ((a2 as usize) << 16)) + 1 < flash_len
            } else if cmd == 0xAD && n == 3 {
                match self.aai_addr {
                    Some(address) => address < usize::MAX && address + 1 < flash_len,
                    None => true,
                }
            } else if cmd == 0xD7 && n >= 4 {
                let a2 = self.input[1];
                let a1 = self.input[2];
                let a0 = self.input[3];
                proof {
                    assert(self@.input.skip(1)[0] == self@.input[1]);
                    assert(self@.input.skip(1)[1] == self@.input[2]);
                    assert(self@.input.skip(1)[2] == self@.input[3]);
                }
                let address = (a0 as usize) | ((a1 as usize) << 8) | ((a2 as usize) << 16);
                proof {
                    lemma_addr24_bound(a2, a1, a0);
                }
                address + 256 <= flash_len
            } else {
                true
            }
        }
    }

    /// Terminates chip select: dispatches the queued command against
    /// `flash` and services a latched fast read, exactly as
    /// [`step_spec`] describes. After a successful step the input queue
    /// is empty.
    pub fn step(&mut self, flash: &mut Vec<u8>) -> (r: Result<(), Error>)
        requires
            step_ok(old(self)@, old(flash)@.len() as nat),
        ensures
            final(self)@ == step_spec(old(self)@, old(flash)@).0,
            final(flash)@ == step_spec(old(self)@, old(flash)@).1,
            r == step_spec(old(self)@, old(flash)@).2,
            final(flash)@.len() == old(flash)@.len(),
            r is Ok ==> final(self)@.input.len() == 0,
    {
        let ghost pre = self@;
        let ghost flash0 = flash@;

        if self.input.len() > 0 {
            let command = self.input.remove(0);
            proof {
                assert(self@.input =~= pre.input.skip(1));
            }

            self.fast_read_addr = None;
            let ghost s1 = self@;
            proof {
                assert(s1 =~~= (SpiState {
                    fast_read_addr: None,
                    input: pre.input.skip(1),
                    ..pre
                }));
            }

            match command {
                0x01 => {
                    // write status: one value byte, discarded
                    if self.input.len() < 1 {
                        self.input.clear();
                        proof {
                            assert(self@ =~~= dispatch(command, s1, flash0).0);
                        }
                        return Err(Error::MissingSpiParameter { opcode: 0x01 });
                    }
                    let _value = self.input.remove(0);
                    proof {
                        assert(self@ =~~= dispatch(command, s1, flash0).0);
                    }
                },
                0x02 => {
                    // page program
                    if self.input.len() < 3 {
                        self.input.clear();
                        proof {
                            assert(self@ =~~= dispatch(command, s1, flash0).0);
                        }
                        return Err(Error::MissingSpiParameter { opcode: 0x02 });
                    }
                    let a2 = self.input.remove(0);
                    let a1 = self.input.remove(0);
                    let a0 = self.input.remove(0);

                    let mut address = (a0 as usize) | ((a1 as usize) << 8) | ((a2 as usize)
                        << 16);
                    proof {
                        assert(self@.input =~= s1.input.skip(3));
                        assert(address == addr24(s1.input[0], s1.input[1], s1.input[2]));
                    }

                    let ghost prog_addr = address;
                    let ghost prog_data = self@.input;
                    let ghost prog_flash = flash@;

                    while self.input.len() > 0
                        invariant
                            page_program_ok(address, self@.input.len() as nat, flash@.len() as nat),
                            page_program(prog_flash, prog_addr, prog_data) == page_program(
                                flash@,
                                address,
                                self@.input,
                            ),
                            flash@.len() == flash0.len(),
                            self@.write == s1.write,
                            self@.fast_read_addr == s1.fast_read_addr,
                            self@.aai_addr == s1.aai_addr,
                            self@.output == s1.output,
                        decreases self@.input.len(),
                    {
                        let ghost loop_input = self@.input;
                        let ghost loop_flash = flash@;
                        proof {
                            assert(address < flash@.len());
                        }
                        let value = self.input.remove(0);
                        flash[address] = value;
                        proof {
                            assert(self@.input =~= loop_input.skip(1));
                            assert(flash@ == loop_flash.update(address as int, value));
                        }
                        let flen = flash.len();
                        if address & 0xFF == 0xFF {
                            proof {
                                assert(address & 0xFF == 0xFF ==> address >= 0xFF) by (bit_vector);
                            }
                            address -= 0xFF;
                        } else {
                            address += 1;
                        }
                    }
                    proof {
                        assert(flash@ == page_program(prog_flash, prog_addr, prog_data));
                        assert(self@ =~~= dispatch(command, s1, flash0).0);
                        assert(flash@ == dispatch(command, s1, flash0).1);
                    }
                },
                0x04 => {
                    // write disable
                    self.write = false;
                    self.aai_addr = None;
                    proof {
                        assert(self@ =~~= dispatch(command, s1, flash0).0);
                    }
                },
                0x05 => {
                    // read status
                    let value = if self.write { 2u8 } else { 0u8 };
                    self.output.push(value);
                    proof {
                        assert(self@ =~~= dispatch(command, s1, flash0).0);
                    }
                },
                0x06 => {
                    // write enable
                    self.write = true;
                    proof {
                        assert(self@ =~~= dispatch(command, s1, flash0).0);
                    }
                },
                0x0B => {
                    // fast read
                    if self.input.len() < 4 {
                        self.input.clear();
                        proof {
                            assert(self@ =~~= dispatch(command, s1, flash0).0);
                        }
                        return Err(Error::MissingSpiParameter { opcode: 0x0B });
                    }
                    let a2 = self.input.remove(0);
                    let a1 = self.input.remove(0);
                    let a0 = self.input.remove(0);
                    let _dummy = self.input.remove(0);

                    let address = (a0 as usize) | ((a1 as usize) << 8) | ((a2 as usize) << 16);
                    self.fast_read_addr = Some(address);
                    proof {
                        assert(self@.input =~= s1.input.skip(4));
                        assert(self@ =~~= dispatch(command, s1, flash0).0);
                    }
                },
                0x50 => {
                    // write volatile status register: no effect
                },
                0x60 => {
                    // chip erase
                    let mut i: usize = 0;
                    let end = flash.len();
                    while i < end
                        invariant
                            end == flash@.len(),
                            i <= end,
                            forall|j: int| 0 <= j < i ==> flash@[j] == 0xFFu8,
                            flash@.len() == flash0.len(),
                            self@ == s1,
                        decreases end - i,
                    {
                        flash[i] = 0xFF;
                        i += 1;
                    }
                    proof {
                        assert(flash@ =~= erased(flash0));
                    }
                },
                0x9F => {
                    // JEDEC id
                    self.output.push(0xEF);
                    self.output.push(0xEF);
                    self.output.push(0xEF);
                    proof {
                        assert(self@ =~~= dispatch(command, s1, flash0).0);
                    }
                },
                0xAD => {
                    // auto-address-increment program
                    let address: usize;
                    if self.input.len() > 2 {
                        if self.input.len() < 5 {
                            self.input.clear();
                            proof {
                                assert(self@ =~~= dispatch(command, s1, flash0).0);
                            }
                            return Err(Error::MissingSpiParameter { opcode: 0xAD });
                        }
                        let a2 = self.input.remove(0);
                        let a1 = self.input.remove(0);
                        let a0 = self.input.remove(0);
                        address = (a0 as usize) | ((a1 as usize) << 8) | ((a2 as usize) << 16);
                        proof {
                            assert(self@.input =~= s1.input.skip(3));
                            assert(a1 == s1.input[1] && a0 == s1.input[2]);
                            assert(s1.input == pre.input.skip(1));
                            assert(address + 1 < flash@.len());
                        }
                    } else {
                        match self.aai_addr {
                            Some(latched) => {
                                address = latched;
                            },
                            None => {
                                return Err(Error::MissingAaiAddress);
                            },
                        }
                        if self.input.len() < 2 {
                            self.input.clear();
                            proof {
                                assert(self@ =~~= dispatch(command, s1, flash0).0);
                            }
                            return Err(Error::MissingSpiParameter { opcode: 0xAD });
                        }
                        proof {
                            assert(s1.input == pre.input.skip(1));
                            assert(address + 1 < flash@.len());
                        }
                    }
                    let ghost before_data = self@.input;
                    let d0 = self.input.remove(0);
                    let d1 = self.input.remove(0);
                    proof {
                        assert(self@.input =~= before_data.skip(2));
                        if s1.input.len() > 2 {
                            assert(before_data =~= s1.input.skip(3));
                            assert(self@.input =~= s1.input.skip(5));
                        }
                    }

                    let flen = flash.len();
                    flash[address] = d0;
                    flash[address + 1] = d1;
                    self.aai_addr = Some(address + 2);
                    proof {
                        assert(self@ =~~= dispatch(command, s1, flash0).0);
                        assert(flash@ == dispatch(command, s1, flash0).1);
                    }
                },
                0xD7 => {
                    // page erase
                    if self.input.len() < 3 {
                        self.input.clear();
                        proof {
                            assert(self@ =~~= dispatch(command, s1, flash0).0);
                        }
                        return Err(Error::MissingSpiParameter { opcode: 0xD7 });
                    }
                    let a2 = self.input.remove(0);
                    let a1 = self.input.remove(0);
                    let a0 = self.input.remove(0);
                    let address = (a0 as usize) | ((a1 as usize) << 8) | ((a2 as usize) << 16);
                    proof {
                        assert(self@.input =~= s1.input.skip(3));
                        assert(a1 == s1.input[1] && a0 == s1.input[2]);
                        assert(s1.input == pre.input.skip(1));
                        assert(address + 256 <= flash@.len());
                    }

                    let mut i: usize = 0;
                    let flen = flash.len();
                    let ghost before_erase = flash@;
                    while i < 256
                        invariant
                            flen == flash@.len(),
                            address + 256 <= flash@.len(),
                            i <= 256,
                            flash@.len() == before_erase.len(),
                            forall|j: int|
                                0 <= j < flash@.len() ==> flash@[j] == (if address <= j < address
                                    + i {
                                    0xFFu8
                                } else {
                                    before_erase[j]
                                }),
                            self@.write == s1.write,
                            self@.fast_read_addr == s1.fast_read_addr,
                            self@.aai_addr == s1.aai_addr,
                            self@.output == s1.output,
                            self@.input == s1.input.skip(3),
                        decreases 256 - i,
                    {
                        flash[address + i] = 0xFF;
                        i += 1;
                    }
                    proof {
                        assert(flash@ =~= page_erased(before_erase, address));
                        assert(self@ =~~= dispatch(command, s1, flash0).0);
                    }
                },
                _ => {
                    return Err(Error::UnknownSpiCommand { opcode: command });
                },
            }

            proof {
                assert(self@ =~~= dispatch(command, s1, flash0).0);
                assert(flash@ == dispatch(command, s1, flash0).1);
                assert(dispatch(command, s1, flash0).2 is Ok);
            }

            if self.input.len() != 0 {
                return Err(Error::SpiInputResidue { opcode: command });
            }
        }

        proof {
            match self@.fast_read_addr {
                Some(a) => {
                    if pre.input.len() > 0 {
                        let cmd = pre.input[0];
                        let rest = pre.input.skip(1);
                        assert(cmd == 0x0B);
                        assert(rest.len() == 4);
                        assert(a == addr24(rest[0], rest[1], rest[2]));
                    }
                    assert(a < flash@.len());
                },
                None => {},
            }
        }
        if let Some(address) = self.fast_read_addr {
            let ghost before_finish = self@;
            let flen = flash.len();
            self.output.push(flash[address]);
            let next = address + 1;
            self.fast_read_addr = if next < flash.len() {
                Some(next)
            } else {
                None
            };
            proof {
                assert(self@ =~~= fast_read_finish(before_finish, flash@));
            }
        }

        Ok(())
    }
}

} // verus!
