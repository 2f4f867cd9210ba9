//! UART driver for the first serial controller: the diagnostic channel that
//! is usable before any display exists.
//!
//! Every contract here speaks of the events a call appends to the machine's
//! log.  `init_serial` appends a fixed seven-write programming sequence,
//! independent of any prior state; `send` appends a busy-wait (line-status
//! reads up to and including the first observed transmit-empty status)
//! followed by exactly one data-port write; `print` does so once per byte of
//! its text, in order.

use vstd::prelude::*;
use vstd::string::StringSliceAdditionalSpecFns;

use crate::machine::Event;
use crate::machine::IDLE_STATUS;
use crate::machine::Machine;
use crate::machine::appended;
use crate::machine::next_read_value;
use crate::machine::same_but_io;

verus! {

/// Data register (and divisor-latch low byte) of the first serial controller.
pub const COM1: u16 = 0x3F8;

/// Interrupt-enable register (and divisor-latch high byte).
pub const COM1_IER: u16 = 0x3F9;

/// FIFO control register.
pub const COM1_FCR: u16 = 0x3FA;

/// Line control register.
pub const COM1_LCR: u16 = 0x3FB;

/// Modem control register.
pub const COM1_MCR: u16 = 0x3FC;

/// Line status register.
pub const COM1_LSR: u16 = 0x3FD;

/// Line-status bit: transmit holding register empty, the port is ready for
/// the next byte.
pub const TRANSMIT_EMPTY: u8 = 0x20;

/// A port write, whichever port it went to.
pub open spec fn is_port_write(e: Event) -> bool {
    match e {
        Event::PortWrite { .. } => true,
        _ => false,
    }
}

/// A read of the line-status register that observed the transmitter empty.
pub open spec fn is_ready_read(e: Event) -> bool {
    match e {
        Event::PortRead { port, value } => port == COM1_LSR && value & TRANSMIT_EMPTY != 0,
        _ => false,
    }
}

/// The port writes in an event sequence, as (port, value) pairs, in order.
pub open spec fn port_writes(es: Seq<Event>) -> Seq<(u16, u8)>
    decreases es.len(),
{
    if es.len() == 0 {
        Seq::empty()
    } else {
        let rest = port_writes(es.drop_first());
        match es.first() {
            Event::PortWrite { port, value } => seq![(port, value)] + rest,
            _ => rest,
        }
    }
}

/// The bytes written to the serial data register, in order: outside the
/// initialization sequence (whose divisor-latch writes go to the same
/// register), this is the diagnostic text an observer on the serial line
/// receives.
pub open spec fn emitted(es: Seq<Event>) -> Seq<u8>
    decreases es.len(),
{
    if es.len() == 0 {
        Seq::empty()
    } else {
        let rest = emitted(es.drop_first());
        match es.first() {
            Event::PortWrite { port, value } => if port == COM1 {
                seq![value] + rest
            } else {
                rest
            },
            _ => rest,
        }
    }
}

/// Every port write in `es` is immediately preceded by an observed
/// transmit-empty line status.
pub open spec fn writes_follow_ready(es: Seq<Event>) -> bool {
    forall|i: int|
        0 <= i < es.len() && #[trigger] is_port_write(es[i]) ==> i >= 1 && is_ready_read(
            es[i - 1],
        )
}

/// The reads a busy-wait performs from the given script position: every
/// scripted busy status up to and including the first ready one, or, once
/// the script runs out, the trailing idle status.
pub open spec fn wait_events(script: Seq<u8>, cursor: int) -> Seq<Event>
    decreases script.len() - cursor,
{
    if cursor < 0 || cursor >= script.len() {
        seq![Event::PortRead { port: COM1_LSR, value: IDLE_STATUS }]
    } else if script[cursor] & TRANSMIT_EMPTY != 0 {
        seq![Event::PortRead { port: COM1_LSR, value: script[cursor] }]
    } else {
        seq![Event::PortRead { port: COM1_LSR, value: script[cursor] }] + wait_events(
            script,
            cursor + 1,
        )
    }
}

/// The script position after a busy-wait that started at `cursor`.
pub open spec fn wait_cursor(script: Seq<u8>, cursor: int) -> int
    decreases script.len() - cursor,
{
    if cursor < 0 || cursor >= script.len() {
        cursor
    } else if script[cursor] & TRANSMIT_EMPTY != 0 {
        cursor + 1
    } else {
        wait_cursor(script, cursor + 1)
    }
}

/// The events one `send` appends: the busy-wait, then one data-port write.
pub open spec fn send_events(script: Seq<u8>, cursor: int, byte: u8) -> Seq<Event> {
    wait_events(script, cursor) + seq![Event::PortWrite { port: COM1, value: byte }]
}

/// The events one `print` of `bytes` appends: one `send` per byte, in order.
pub open spec fn print_events(script: Seq<u8>, cursor: int, bytes: Seq<u8>) -> Seq<Event>
    decreases bytes.len(),
{
    if bytes.len() == 0 {
        Seq::empty()
    } else {
        send_events(script, cursor, bytes.first()) + print_events(
            script,
            wait_cursor(script, cursor),
            bytes.drop_first(),
        )
    }
}

/// The script position after a `print` of `bytes` that started at `cursor`.
pub open spec fn print_cursor(script: Seq<u8>, cursor: int, bytes: Seq<u8>) -> int
    decreases bytes.len(),
{
    if bytes.len() == 0 {
        cursor
    } else {
        print_cursor(script, wait_cursor(script, cursor), bytes.drop_first())
    }
}

/// The fixed, ordered seven-step programming sequence of the first serial
/// controller: disable interrupts; enable the divisor latch; divisor low and
/// high bytes for 38400 baud; 8 data bits, no parity, one stop bit; FIFO
/// enabled and cleared with a 14-byte threshold; modem-control lines
/// asserted.
pub open spec fn init_events() -> Seq<Event> {
    seq![
        Event::PortWrite { port: COM1_IER, value: 0x00 },
        Event::PortWrite { port: COM1_LCR, value: 0x80 },
        Event::PortWrite { port: COM1, value: 0x03 },
        Event::PortWrite { port: COM1_IER, value: 0x00 },
        Event::PortWrite { port: COM1_LCR, value: 0x03 },
        Event::PortWrite { port: COM1_FCR, value: 0xC7 },
        Event::PortWrite { port: COM1_MCR, value: 0x0B },
    ]
}

/// Port writes of an appended sequence distribute over concatenation.
pub proof fn lemma_port_writes_concat(a: Seq<Event>, b: Seq<Event>)
    ensures
        port_writes(a + b) == port_writes(a) + port_writes(b),
    decreases a.len(),
{
    if a.len() == 0 {
        assert(a + b =~= b);
        assert(port_writes(a) + port_writes(b) =~= port_writes(b));
    } else {
        assert((a + b).first() == a.first());
        assert((a + b).drop_first() =~= a.drop_first() + b);
        lemma_port_writes_concat(a.drop_first(), b);
        assert(port_writes(a + b) =~= port_writes(a) + port_writes(b));
    }
}

/// Emitted bytes of an appended sequence distribute over concatenation.
pub proof fn lemma_emitted_concat(a: Seq<Event>, b: Seq<Event>)
    ensures
        emitted(a + b) == emitted(a) + emitted(b),
    decreases a.len(),
{
    if a.len() == 0 {
        assert(a + b =~= b);
        assert(emitted(a) + emitted(b) =~= emitted(b));
    } else {
        assert((a + b).first() == a.first());
        assert((a + b).drop_first() =~= a.drop_first() + b);
        lemma_emitted_concat(a.drop_first(), b);
        assert(emitted(a + b) =~= emitted(a) + emitted(b));
    }
}

/// The port writes of a single event.
pub proof fn lemma_port_writes_singleton(e: Event)
    ensures
        port_writes(seq![e]) == match e {
            Event::PortWrite { port, value } => seq![(port, value)],
            _ => Seq::<(u16, u8)>::empty(),
        },
{
    let s = seq![e];
    assert(s.drop_first() =~= Seq::<Event>::empty());
    assert(port_writes(Seq::<Event>::empty()) =~= Seq::<(u16, u8)>::empty());
    match e {
        Event::PortWrite { port, value } => {
            assert(port_writes(s) =~= seq![(port, value)]);
        },
        _ => {
            assert(port_writes(s) =~= Seq::<(u16, u8)>::empty());
        },
    }
}

/// The emitted bytes of a single event.
pub proof fn lemma_emitted_singleton(e: Event)
    ensures
        emitted(seq![e]) == match e {
            Event::PortWrite { port, value } => if port == COM1 {
                seq![value]
            } else {
                Seq::<u8>::empty()
            },
            _ => Seq::<u8>::empty(),
        },
{
    let s = seq![e];
    assert(s.drop_first() =~= Seq::<Event>::empty());
    assert(emitted(Seq::<Event>::empty()) =~= Seq::<u8>::empty());
    match e {
        Event::PortWrite { port, value } => {
            if port == COM1 {
                assert(emitted(s) =~= seq![value]);
            } else {
                assert(emitted(s) =~= Seq::<u8>::empty());
            }
        },
        _ => {
            assert(emitted(s) =~= Seq::<u8>::empty());
        },
    }
}

/// Concatenation keeps every write preceded by a ready status, provided the
/// second part does not begin with a write.
pub proof fn lemma_writes_follow_ready_concat(a: Seq<Event>, b: Seq<Event>)
    requires
        writes_follow_ready(a),
        writes_follow_ready(b),
        b.len() > 0 ==> !is_port_write(b[0]),
    ensures
        writes_follow_ready(a + b),
{
    assert forall|i: int|
        0 <= i < (a + b).len() && #[trigger] is_port_write((a + b)[i]) implies i >= 1
        && is_ready_read((a + b)[i - 1]) by {
        if i < a.len() {
            assert((a + b)[i] == a[i]);
            assert(is_port_write(a[i]));
            assert((a + b)[i - 1] == a[i - 1]);
        } else {
            assert((a + b)[i] == b[i - a.len()]);
            assert(is_port_write(b[i - a.len()]));
            assert(i - a.len() >= 1);
            assert((a + b)[i - 1] == b[i - a.len() - 1]);
        }
    }
}

/// A busy-wait performs at least one read, no write, and ends with an
/// observed transmit-empty status.
pub proof fn lemma_wait_events(script: Seq<u8>, cursor: int)
    ensures
        wait_events(script, cursor).len() >= 1,
        port_writes(wait_events(script, cursor)) == Seq::<(u16, u8)>::empty(),
        emitted(wait_events(script, cursor)) == Seq::<u8>::empty(),
        forall|i: int|
            0 <= i < wait_events(script, cursor).len() ==> !is_port_write(
                #[trigger] wait_events(script, cursor)[i],
            ),
        is_ready_read(wait_events(script, cursor).last()),
    decreases script.len() - cursor,
{
    let we = wait_events(script, cursor);
    if cursor < 0 || cursor >= script.len() {
        lemma_port_writes_singleton(Event::PortRead { port: COM1_LSR, value: IDLE_STATUS });
        lemma_emitted_singleton(Event::PortRead { port: COM1_LSR, value: IDLE_STATUS });
        assert(IDLE_STATUS & TRANSMIT_EMPTY != 0) by (bit_vector);
    } else if script[cursor] & TRANSMIT_EMPTY != 0 {
        lemma_port_writes_singleton(Event::PortRead { port: COM1_LSR, value: script[cursor] });
        lemma_emitted_singleton(Event::PortRead { port: COM1_LSR, value: script[cursor] });
    } else {
        let head = seq![Event::PortRead { port: COM1_LSR, value: script[cursor] }];
        let tail = wait_events(script, cursor + 1);
        lemma_wait_events(script, cursor + 1);
        lemma_port_writes_concat(head, tail);
        lemma_emitted_concat(head, tail);
        lemma_port_writes_singleton(Event::PortRead { port: COM1_LSR, value: script[cursor] });
        lemma_emitted_singleton(Event::PortRead { port: COM1_LSR, value: script[cursor] });
        assert(port_writes(we) =~= Seq::<(u16, u8)>::empty());
        assert(emitted(we) =~= Seq::<u8>::empty());
        assert(we.last() == tail.last());
        assert forall|i: int| 0 <= i < we.len() implies !is_port_write(#[trigger] we[i]) by {
            if i == 0 {
            } else {
                assert(we[i] == tail[i - 1]);
            }
        }
    }
}

/// One `send` performs exactly one port write — of the given byte to the
/// data register — immediately preceded by an observed transmit-empty
/// status, and emits exactly that byte.
pub proof fn lemma_send_events(script: Seq<u8>, cursor: int, byte: u8)
    ensures
        port_writes(send_events(script, cursor, byte)) == seq![(COM1, byte)],
        emitted(send_events(script, cursor, byte)) == seq![byte],
        writes_follow_ready(send_events(script, cursor, byte)),
        send_events(script, cursor, byte).len() >= 2,
        !is_port_write(send_events(script, cursor, byte)[0]),
{
    let we = wait_events(script, cursor);
    let w = seq![Event::PortWrite { port: COM1, value: byte }];
    let se = send_events(script, cursor, byte);
    lemma_wait_events(script, cursor);
    lemma_port_writes_concat(we, w);
    lemma_emitted_concat(we, w);
    lemma_port_writes_singleton(Event::PortWrite { port: COM1, value: byte });
    lemma_emitted_singleton(Event::PortWrite { port: COM1, value: byte });
    assert(port_writes(se) =~= seq![(COM1, byte)]);
    assert(emitted(se) =~= seq![byte]);
    assert forall|i: int|
        0 <= i < se.len() && #[trigger] is_port_write(se[i]) implies i >= 1 && is_ready_read(
        se[i - 1],
    ) by {
        if i < we.len() {
            assert(se[i] == we[i]);
        } else {
            assert(i == we.len());
            assert(se[i - 1] == we.last());
        }
    }
    assert(se[0] == we[0]);
}

/// A `print` of `bytes` performs exactly one port write per byte — to the
/// data register, in the original order, each immediately preceded by an
/// observed transmit-empty status — and emits exactly `bytes`.
pub proof fn lemma_print_events(script: Seq<u8>, cursor: int, bytes: Seq<u8>)
    ensures
        port_writes(print_events(script, cursor, bytes)) == Seq::new(
            bytes.len(),
            |i: int| (COM1, bytes[i]),
        ),
        emitted(print_events(script, cursor, bytes)) == bytes,
        writes_follow_ready(print_events(script, cursor, bytes)),
        bytes.len() > 0 ==> !is_port_write(print_events(script, cursor, bytes)[0]),
    decreases bytes.len(),
{
    let pe = print_events(script, cursor, bytes);
    if bytes.len() == 0 {
        assert(port_writes(pe) =~= Seq::new(bytes.len(), |i: int| (COM1, bytes[i])));
        assert(emitted(pe) =~= bytes);
    } else {
        let se = send_events(script, cursor, bytes.first());
        let rest = print_events(script, wait_cursor(script, cursor), bytes.drop_first());
        lemma_send_events(script, cursor, bytes.first());
        lemma_print_events(script, wait_cursor(script, cursor), bytes.drop_first());
        lemma_port_writes_concat(se, rest);
        lemma_emitted_concat(se, rest);
        assert(port_writes(pe) =~= Seq::new(bytes.len(), |i: int| (COM1, bytes[i])));
        assert(emitted(pe) =~= bytes);
        if bytes.drop_first().len() > 0 {
            lemma_writes_follow_ready_concat(se, rest);
        } else {
            assert(rest =~= Seq::<Event>::empty());
            assert(se + rest =~= se);
        }
        assert(pe[0] == se[0]);
    }
}

/// The serial programming sequence is exactly the seven documented
/// (port, value) pairs, in order, and nothing else: no reads, no other
/// writes.  Together with `init_serial`'s contract — the appended events
/// equal `init_events()` whatever the machine's prior state — this pins the
/// initialization down on every call.
pub proof fn lemma_init_serial_writes()
    ensures
        port_writes(init_events()) == seq![
            (COM1_IER, 0x00u8),
            (COM1_LCR, 0x80u8),
            (COM1, 0x03u8),
            (COM1_IER, 0x00u8),
            (COM1_LCR, 0x03u8),
            (COM1_FCR, 0xC7u8),
            (COM1_MCR, 0x0Bu8),
        ],
        emitted(init_events()) == seq![0x03u8],
{
    reveal_with_fuel(port_writes, 9);
    reveal_with_fuel(emitted, 9);
    assert(port_writes(init_events()) =~= seq![
        (COM1_IER, 0x00u8),
        (COM1_LCR, 0x80u8),
        (COM1, 0x03u8),
        (COM1_IER, 0x00u8),
        (COM1_LCR, 0x03u8),
        (COM1_FCR, 0xC7u8),
        (COM1_MCR, 0x0Bu8),
    ]);
    assert(emitted(init_events()) =~= seq![0x03u8]);
}

/// Programs the serial controller with the fixed seven-step sequence.  The
/// appended events are the same on every call, whatever the machine's prior
/// state: repeating the call is idempotent by construction.
pub fn init_serial(m: &mut Machine)
    ensures
        final(m).events@ == old(m).events@ + init_events(),
        final(m).cursor == old(m).cursor,
        same_but_io(*old(m), *final(m)),
{
    m.write_port(COM1_IER, 0x00);  // disable all interrupts
    m.write_port(COM1_LCR, 0x80);  // enable divisor latch
    m.write_port(COM1, 0x03);  // divisor low byte: 38400 baud
    m.write_port(COM1_IER, 0x00);  // divisor high byte
    m.write_port(COM1_LCR, 0x03);  // 8 data bits, no parity, one stop bit
    m.write_port(COM1_FCR, 0xC7);  // enable and clear FIFO, 14-byte threshold
    m.write_port(COM1_MCR, 0x0B);  // assert modem-control lines
    proof {
        assert(m.events@ =~= old(m).events@ + init_events());
    }
}

/// Checks whether the serial port is ready to send: reads the line status
/// and tests the transmit-empty bit.
fn is_transmit_empty(m: &mut Machine) -> (ready: bool)
    ensures
        final(m).events@ == old(m).events@.push(
            Event::PortRead { port: COM1_LSR, value: next_read_value(*old(m)) },
        ),
        ready == (next_read_value(*old(m)) & TRANSMIT_EMPTY != 0),
        final(m).cursor == if old(m).cursor < old(m).read_script@.len() {
            old(m).cursor + 1
        } else {
            old(m).cursor as int
        },
        same_but_io(*old(m), *final(m)),
{
    let status: u8 = m.read_port(COM1_LSR);
    status & TRANSMIT_EMPTY != 0
}

/// One step of the busy-wait: how a single line-status read relates the
/// event log and script position before it to those after it.
proof fn lemma_wait_step(
    evs: Seq<Event>,
    script: Seq<u8>,
    c: int,
    v: u8,
    ready: bool,
    evs2: Seq<Event>,
    c2: int,
)
    requires
        0 <= c,
        v == if c < script.len() {
            script[c]
        } else {
            IDLE_STATUS
        },
        evs2 == evs.push(Event::PortRead { port: COM1_LSR, value: v }),
        c2 == if c < script.len() {
            c + 1
        } else {
            c
        },
        ready == (v & TRANSMIT_EMPTY != 0),
    ensures
        ready ==> evs + wait_events(script, c) == evs2,
        !ready ==> evs + wait_events(script, c) == evs2 + wait_events(script, c2),
        ready ==> wait_cursor(script, c) == c2,
        !ready ==> wait_cursor(script, c) == wait_cursor(script, c2),
        !ready ==> c < script.len() && c2 == c + 1 && c2 <= script.len(),
{
    let e = Event::PortRead { port: COM1_LSR, value: v };
    if c >= script.len() {
        assert(IDLE_STATUS & TRANSMIT_EMPTY != 0) by (bit_vector);
        assert(wait_events(script, c) =~= seq![e]);
        assert(evs + seq![e] =~= evs.push(e));
        assert(evs2 + Seq::<Event>::empty() =~= evs2);
    } else if ready {
        assert(wait_events(script, c) =~= seq![e]);
        assert(evs + seq![e] =~= evs.push(e));
        assert(evs2 + Seq::<Event>::empty() =~= evs2);
    } else {
        assert(wait_events(script, c) =~= seq![e] + wait_events(script, c + 1));
        assert(evs + (seq![e] + wait_events(script, c + 1)) =~= evs.push(e) + wait_events(
            script,
            c + 1,
        ));
    }
}

/// Sends one byte: busy-waits until the line status reports the transmit
/// holding register empty, then writes the byte to the data register.  The
/// appended events are the busy-wait reads followed by exactly one write.
pub fn send(m: &mut Machine, byte: u8)
    ensures
        final(m).events@ == old(m).events@ + send_events(
            old(m).read_script@,
            old(m).cursor as int,
            byte,
        ),
        final(m).cursor == wait_cursor(old(m).read_script@, old(m).cursor as int),
        same_but_io(*old(m), *final(m)),
{
    let ghost m0: Machine = *old(m);
    let ghost script: Seq<u8> = m.read_script@;
    let ghost c0: int = m.cursor as int;
    loop
        invariant_except_break
            m.read_script@ == script,
            same_but_io(m0, *m),
            m0.events@ + wait_events(script, c0) == m.events@ + wait_events(
                script,
                m.cursor as int,
            ),
            wait_cursor(script, c0) == wait_cursor(script, m.cursor as int),
            m.cursor as int == c0 || m.cursor <= script.len(),
        ensures
            m.read_script@ == script,
            same_but_io(m0, *m),
            m0.events@ + wait_events(script, c0) == m.events@,
            wait_cursor(script, c0) == m.cursor as int,
        decreases script.len() + 1 - m.cursor,
    {
        let ghost evs_before: Seq<Event> = m.events@;
        let ghost c: int = m.cursor as int;
        let ghost v: u8 = next_read_value(*m);
        let ready: bool = is_transmit_empty(m);
        proof {
            lemma_wait_step(evs_before, script, c, v, ready, m.events@, m.cursor as int);
        }
        if ready {
            break ;
        }
    }
    m.write_port(COM1, byte);
    proof {
        assert(m.events@ =~= m0.events@ + send_events(script, c0, byte));
    }
}

/// Sends each byte of `bytes` in order, unbuffered, with no translation.
/// Appends exactly one data-port write per byte, each immediately preceded
/// by an observed transmit-empty status, and emits exactly `bytes`.
pub fn print_bytes(m: &mut Machine, bytes: &[u8])
    ensures
        final(m).events@ == old(m).events@ + print_events(
            old(m).read_script@,
            old(m).cursor as int,
            bytes@,
        ),
        final(m).cursor == print_cursor(old(m).read_script@, old(m).cursor as int, bytes@),
        same_but_io(*old(m), *final(m)),
        port_writes(appended(*old(m), *final(m))) == Seq::new(
            bytes@.len(),
            |i: int| (COM1, bytes@[i]),
        ),
        emitted(appended(*old(m), *final(m))) == bytes@,
        writes_follow_ready(appended(*old(m), *final(m))),
{
    let ghost m0: Machine = *old(m);
    let ghost script: Seq<u8> = m.read_script@;
    let ghost c0: int = m.cursor as int;
    let mut i: usize = 0;
    proof {
        assert(m.events@ =~= m0.events@ + print_events(script, c0, bytes@.take(0)));
    }
    while i < bytes.len()
        invariant
            i <= bytes@.len(),
            m.read_script@ == script,
            same_but_io(m0, *m),
            m.events@ == m0.events@ + print_events(script, c0, bytes@.take(i as int)),
            m.cursor as int == print_cursor(script, c0, bytes@.take(i as int)),
        decreases bytes@.len() - i,
    {
        let ghost taken: Seq<u8> = bytes@.take(i as int);
        let ghost cur: int = m.cursor as int;
        send(m, bytes[i]);
        proof {
            lemma_print_snoc(script, c0, taken, bytes@[i as int]);
            assert(bytes@.take(i + 1 as int) =~= taken.push(bytes@[i as int]));
            assert(m.events@ =~= m0.events@ + print_events(script, c0, bytes@.take(i + 1)));
        }
        i = i + 1;
    }
    proof {
        assert(bytes@.take(bytes@.len() as int) =~= bytes@);
        assert(m.events@ =~= m0.events@ + print_events(script, c0, bytes@));
        lemma_print_events(script, c0, bytes@);
        assert(appended(m0, *m) =~= print_events(script, c0, bytes@));
    }
}

/// Appending one byte to a `print` appends one `send` from the position the
/// earlier bytes left the script at.
proof fn lemma_print_snoc(script: Seq<u8>, cursor: int, bytes: Seq<u8>, byte: u8)
    ensures
        print_events(script, cursor, bytes.push(byte)) == print_events(script, cursor, bytes)
            + send_events(script, print_cursor(script, cursor, bytes), byte),
        print_cursor(script, cursor, bytes.push(byte)) == wait_cursor(
            script,
            print_cursor(script, cursor, bytes),
        ),
    decreases bytes.len(),
{
    if bytes.len() == 0 {
        assert(bytes.push(byte).drop_first() =~= bytes);
        assert(bytes.push(byte).first() == byte);
        assert(print_events(script, cursor, bytes) =~= Seq::<Event>::empty());
        assert(print_events(script, cursor, bytes.push(byte)) =~= send_events(
            script,
            cursor,
            byte,
        ) + print_events(script, wait_cursor(script, cursor), bytes));
        assert(print_events(script, wait_cursor(script, cursor), bytes) =~= Seq::<
            Event,
        >::empty());
        assert(print_events(script, cursor, bytes.push(byte)) =~= print_events(
            script,
            cursor,
            bytes,
        ) + send_events(script, print_cursor(script, cursor, bytes), byte));
        assert(print_cursor(script, cursor, bytes.push(byte)) == print_cursor(
            script,
            wait_cursor(script, cursor),
            bytes,
        ));
        assert(print_cursor(script, wait_cursor(script, cursor), bytes) == wait_cursor(
            script,
            cursor,
        ));
        assert(print_cursor(script, cursor, bytes) == cursor);
    } else {
        assert(bytes.push(byte).drop_first() =~= bytes.drop_first().push(byte));
        assert(bytes.push(byte).first() == bytes.first());
        lemma_print_snoc(script, wait_cursor(script, cursor), bytes.drop_first(), byte);
        assert(print_events(script, cursor, bytes.push(byte)) =~= print_events(
            script,
            cursor,
            bytes,
        ) + send_events(script, print_cursor(script, cursor, bytes), byte));
        assert(print_cursor(script, cursor, bytes.push(byte)) == print_cursor(
            script,
            wait_cursor(script, cursor),
            bytes.drop_first().push(byte),
        ));
        assert(print_cursor(script, cursor, bytes) == print_cursor(
            script,
            wait_cursor(script, cursor),
            bytes.drop_first(),
        ));
    }
}

/// Prints a string to the serial port: sends each of its bytes in order.
pub fn print(m: &mut Machine, s: &str)
    ensures
        final(m).events@ == old(m).events@ + print_events(
            old(m).read_script@,
            old(m).cursor as int,
            s.spec_bytes(),
        ),
        final(m).cursor == print_cursor(
            old(m).read_script@,
            old(m).cursor as int,
            s.spec_bytes(),
        ),
        same_but_io(*old(m), *final(m)),
        emitted(appended(*old(m), *final(m))) == s.spec_bytes(),
        port_writes(appended(*old(m), *final(m))) == Seq::new(
            s.spec_bytes().len(),
            |i: int| (COM1, s.spec_bytes()[i]),
        ),
        writes_follow_ready(appended(*old(m), *final(m))),
{
    print_bytes(m, s.as_bytes());
}

/// Byte-stream writer over the serial port, for callers that format text
/// piecewise onto the diagnostic channel.
pub struct SerialWriter;

impl SerialWriter {
    /// Writes a string fragment to the serial port; never fails.
    pub fn write_str(&mut self, m: &mut Machine, s: &str) -> (r: Result<(), ()>)
        ensures
            final(m).events@ == old(m).events@ + print_events(
                old(m).read_script@,
                old(m).cursor as int,
                s.spec_bytes(),
            ),
            final(m).cursor == print_cursor(
                old(m).read_script@,
                old(m).cursor as int,
                s.spec_bytes(),
            ),
            same_but_io(*old(m), *final(m)),
            emitted(appended(*old(m), *final(m))) == s.spec_bytes(),
            r is Ok,
    {
        print(m, s);
        Ok(())
    }
}

} // verus!
