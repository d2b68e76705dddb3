//! Host-port request handling: the 4-byte request envelope
//! `(op, port_lo, port_hi, value)` maps host `inb`/`outb` traffic onto
//! the SuperIO latch, the PMC mailbox ports and the H2RAM windows.

use vstd::prelude::*;

use crate::ec::{Ec, EcState};
use crate::mailbox::{host_command_bytes, host_data_bytes, host_read_bytes};

verus! {

/// First port of H2RAM window `which`.
pub open spec fn window_start(ba: u8) -> u16 {
    (ba as u16) << 4
}

/// Length in ports of an H2RAM window with attribute byte `aas`.
pub open spec fn window_len(aas: u8) -> u16 {
    1u16 << ((4 + (aas & 7)) as u16)
}

/// Whether `port` falls inside H2RAM window `which` (0 or 1) and that
/// window is enabled in HRAMWC.
pub open spec fn in_h2ram(xram: Seq<u8>, port: u16, which: int) -> bool {
    let wc = xram[0x105A];
    let ba = if which == 0 {
        xram[0x105B]
    } else {
        xram[0x105C]
    };
    let aas = if which == 0 {
        xram[0x105D]
    } else {
        xram[0x105E]
    };
    let start = window_start(ba);
    &&& start <= port
    &&& port < start + window_len(aas)
    &&& wc & (if which == 0 {
        1u8
    } else {
        2u8
    }) != 0
}

/// The port number in a request envelope, low byte first.
pub open spec fn request_port(request: Seq<u8>) -> u16 {
    (request[1] as u16) | ((request[2] as u16) << 8)
}

/// Effect of one host-port request on the controller, and the one-byte
/// response: `op` 0 initializes (a no-op answering 0), 1 is `inb`
/// answering the byte read, 2 is `outb` echoing the written value, and
/// any other op answers 0.
pub open spec fn socket_model(s: EcState, request: Seq<u8>) -> (EcState, u8) {
    let op = request[0];
    let port = request_port(request);
    let value = request[3];
    if op == 1 {
        if port == 0x2E {
            (s, s.superio_addr)
        } else if port == 0x2F {
            if s.superio_addr == 0x20 {
                (s, ((s.id >> 8) & 0xFF) as u8)
            } else if s.superio_addr == 0x21 {
                (s, (s.id & 0xFF) as u8)
            } else {
                (s, 0)
            }
        } else if port == 0x62 {
            if s.xram[0x1500] & 1 != 0 {
                (EcState { xram: host_read_bytes(s.xram, 0x1500), ..s }, s.xram[0x1501])
            } else {
                (s, 0)
            }
        } else if port == 0x66 {
            (s, s.xram[0x1500])
        } else if in_h2ram(s.xram, port, 0) || in_h2ram(s.xram, port, 1) {
            (s, s.xram[port as int])
        } else {
            (s, 0)
        }
    } else if op == 2 {
        if port == 0x2E {
            (EcState { superio_addr: value, ..s }, value)
        } else if port == 0x2F {
            (s, value)
        } else if port == 0x62 {
            (EcState { xram: host_data_bytes(s.xram, 0x1500, 0x1504, value), ..s }, value)
        } else if port == 0x66 {
            (EcState { xram: host_command_bytes(s.xram, 0x1500, 0x1504, value), ..s }, value)
        } else if in_h2ram(s.xram, port, 0) || in_h2ram(s.xram, port, 1) {
            (EcState { xram: s.xram.update(port as int, value), ..s }, value)
        } else {
            (s, value)
        }
    } else {
        (s, 0)
    }
}

/// The three low bits of a byte are at most 7.
proof fn lemma_low3_bound(x: u8)
    by (bit_vector)
    ensures
        x & 7 <= 7,
{
}

/// An H2RAM window starts at a 16-byte boundary below 0x1000 and holds
/// between 16 and 2048 ports.
proof fn lemma_window_bounds(ba: u8, aas: u8)
    by (bit_vector)
    ensures
        window_start(ba) <= 0xFF0,
        16 <= window_len(aas) <= 0x800,
{
}

impl Ec {
    fn h2ram_hit(&self, port: u16) -> (r: bool)
        requires
            self.wf(),
        ensures
            r == (in_h2ram(self@.xram, port, 0) || in_h2ram(self@.xram, port, 1)),
    {
        let hramwc = self.xram[0x105A];
        let hramw0ba = self.xram[0x105B];
        let hramw1ba = self.xram[0x105C];
        let hramw0aas = self.xram[0x105D];
        let hramw1aas = self.xram[0x105E];

        proof {
            lemma_low3_bound(hramw0aas);
            lemma_low3_bound(hramw1aas);
            lemma_window_bounds(hramw0ba, hramw0aas);
            lemma_window_bounds(hramw1ba, hramw1aas);
        }

        let hramw0_length: u16 = 1u16 << ((4 + (hramw0aas & 7)) as u16);
        let hramw1_length: u16 = 1u16 << ((4 + (hramw1aas & 7)) as u16);

        let hramw0_start = (hramw0ba as u16) << 4;
        let hramw1_start = (hramw1ba as u16) << 4;
        let hramw0_end = hramw0_start + hramw0_length - 1;
        let hramw1_end = hramw1_start + hramw1_length - 1;

        (port >= hramw0_start && port <= hramw0_end && (hramwc & 0b01 != 0)) || (port
            >= hramw1_start && port <= hramw1_end && (hramwc & 0b10 != 0))
    }
}

/// Services one host-port request against the controller and returns
/// the one-byte response, as [`socket_model`] describes.
pub fn socket_op(ec: &mut Ec, request: &[u8; 4]) -> (r: [u8; 1])
    requires
        old(ec).wf(),
    ensures
        final(ec).wf(),
        final(ec)@ == socket_model(old(ec)@, request@).0,
        r@ == seq![socket_model(old(ec)@, request@).1],
{
    let op = request[0];
    let port: u16 = (request[1] as u16) | ((request[2] as u16) << 8);
    let value = request[3];

    let mut response: u8 = 0;
    if op == 0x01 {
        // inb
        if port == 0x2E {
            response = ec.superio_addr;
        } else if port == 0x2F {
            if ec.superio_addr == 0x20 {
                response = ((ec.id >> 8) & 0xFF) as u8;
            } else if ec.superio_addr == 0x21 {
                response = (ec.id & 0xFF) as u8;
            }
        } else if port == 0x62 {
            response = match ec.pmc_read() {
                Some(b) => b,
                None => 0,
            };
        } else if port == 0x66 {
            response = ec.xram[0x1500];
        } else if ec.h2ram_hit(port) {
            response = ec.xram[port as usize];
        }
    } else if op == 0x02 {
        // outb
        if port == 0x2E {
            ec.superio_addr = value;
        } else if port == 0x2F {
            // no SuperIO data registers are writable
        } else if port == 0x62 {
            ec.pmc_write(value);
        } else if port == 0x66 {
            ec.pmc_cmd(value);
        } else if ec.h2ram_hit(port) {
            ec.xram[port as usize] = value;
        }
        response = value;
    }

    proof {
        assert(ec@ =~~= socket_model(old(ec)@, request@).0);
    }
    [response]
}

} // verus!
