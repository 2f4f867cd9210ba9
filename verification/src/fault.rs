//! Panic handler: the single unrecoverable-fault path.
//!
//! The sequence is strict and non-interruptible: external interrupts are
//! masked at the processor before anything else, then a fixed banner, the
//! panic message if present, and the source location if available are
//! emitted over the serial channel — the most hardware-minimal channel, the
//! one most likely to still work after an arbitrary fault — and the machine
//! transfers to the terminal halt state.  The framebuffer is never touched
//! and nothing is allocated on this path beyond the model's own event
//! recording.

use vstd::prelude::*;
use vstd::string::StringSliceAdditionalSpecFns;

use crate::machine::Event;
use crate::machine::Machine;
use crate::machine::appended;
use crate::machine::same_but_io;
use crate::serial::emitted;
use crate::serial::lemma_emitted_concat;
use crate::serial::lemma_emitted_singleton;
use crate::serial::print;
use crate::serial::print_bytes;

verus! {

/// A source position carried by a panic: file, line and column.
pub struct SourceLocation<'a> {
    /// The source file name.
    pub file: &'a str,
    /// The line number.
    pub line: u32,
    /// The column number.
    pub column: u32,
}

/// The transient panic record: the message, if any, and the source
/// location, if available.  It exists only during the non-returning panic
/// path.
pub struct PanicRecord<'a> {
    /// The panic message.
    pub message: Option<&'a str>,
    /// The source location of the fault.
    pub location: Option<SourceLocation<'a>>,
}

/// The decimal digits of `n`, most significant first, as ASCII bytes.
pub open spec fn dec_digits(n: nat) -> Seq<u8>
    decreases n,
{
    if n < 10 {
        seq![(0x30 + n) as u8]
    } else {
        dec_digits(n / 10).push((0x30 + n % 10) as u8)
    }
}

/// Formats a number as its decimal digits, most significant first.
pub fn u32_to_decimal(n: u32) -> (r: Vec<u8>)
    ensures
        r@ == dec_digits(n as nat),
    decreases n,
{
    if n < 10 {
        let mut v: Vec<u8> = Vec::new();
        v.push(0x30 + (n as u8));
        proof {
            assert(v@ =~= dec_digits(n as nat));
        }
        v
    } else {
        let mut v: Vec<u8> = u32_to_decimal(n / 10);
        v.push(0x30 + ((n % 10) as u8));
        proof {
            assert(v@ =~= dec_digits(n as nat));
        }
        v
    }
}

/// The fixed banner that opens every panic report.
pub open spec fn banner_text() -> Seq<u8> {
    "*** KERNEL PANIC ***\n".spec_bytes()
}

/// The serial bytes that report the panic message, when one is present.
pub open spec fn message_text(message: Option<&str>) -> Seq<u8> {
    match message {
        Some(s) => "\nMessage: ".spec_bytes() + s.spec_bytes() + "\n".spec_bytes(),
        None => Seq::<u8>::empty(),
    }
}

/// The serial bytes that report the source location, when one is available:
/// `file:line:column`.
pub open spec fn location_text(location: Option<SourceLocation>) -> Seq<u8> {
    match location {
        Some(l) => "Location: ".spec_bytes() + l.file.spec_bytes() + ":".spec_bytes()
            + dec_digits(l.line as nat) + ":".spec_bytes() + dec_digits(l.column as nat)
            + "\n".spec_bytes(),
        None => Seq::<u8>::empty(),
    }
}

/// Everything the panic path emits over the serial channel, in order: the
/// fixed banner, then the message if present, then the location if
/// available.
pub open spec fn panic_text(message: Option<&str>, location: Option<SourceLocation>) -> Seq<
    u8,
> {
    banner_text() + message_text(message) + location_text(location)
}

/// Emits the message part of a panic report.
fn emit_message(m: &mut Machine, message: Option<&str>)
    ensures
        old(m).events@.is_prefix_of(final(m).events@),
        emitted(appended(*old(m), *final(m))) == message_text(message),
        same_but_io(*old(m), *final(m)),
{
    let ghost a0: Seq<Event> = m.events@;
    match message {
        Some(s) => {
            print(m, "\nMessage: ");
            let ghost d1: Seq<Event> = appended(*old(m), *m);
            print(m, s);
            let ghost d2: Seq<Event> = m.events@.skip((a0.len() + d1.len()) as int);
            print(m, "\n");
            let ghost d3: Seq<Event> = m.events@.skip((a0.len() + d1.len() + d2.len()) as int);
            proof {
                assert(appended(*old(m), *m) =~= d1 + d2 + d3);
                lemma_emitted_concat(d1 + d2, d3);
                lemma_emitted_concat(d1, d2);
                assert(emitted(d1 + d2 + d3) =~= message_text(message));
            }
        },
        None => {
            proof {
                assert(appended(*old(m), *m) =~= Seq::<Event>::empty());
                assert(emitted(Seq::<Event>::empty()) =~= Seq::<u8>::empty());
            }
        },
    }
}

/// Emits the source-location part of a panic report.
fn emit_location(m: &mut Machine, location: &Option<SourceLocation>)
    ensures
        old(m).events@.is_prefix_of(final(m).events@),
        emitted(appended(*old(m), *final(m))) == location_text(*location),
        same_but_io(*old(m), *final(m)),
{
    let ghost a0: Seq<Event> = m.events@;
    match location {
        Some(l) => {
            print(m, "Location: ");
            let ghost d1: Seq<Event> = appended(*old(m), *m);
            print(m, l.file);
            let ghost d2: Seq<Event> = m.events@.skip((a0.len() + d1.len()) as int);
            print(m, ":");
            let ghost d3: Seq<Event> = m.events@.skip((a0.len() + d1.len() + d2.len()) as int);
            let line_digits: Vec<u8> = u32_to_decimal(l.line);
            print_bytes(m, line_digits.as_slice());
            let ghost d4: Seq<Event> = m.events@.skip((a0.len() + d1.len() + d2.len() + d3.len()) as int);
            print(m, ":");
            let ghost d5: Seq<Event> = m.events@.skip((a0.len() + d1.len() + d2.len() + d3.len() + d4.len()) as int);
            let column_digits: Vec<u8> = u32_to_decimal(l.column);
            print_bytes(m, column_digits.as_slice());
            let ghost d6: Seq<Event> = m.events@.skip((a0.len() + d1.len() + d2.len() + d3.len() + d4.len() + d5.len()) as int);
            print(m, "\n");
            let ghost d7: Seq<Event> = m.events@.skip((a0.len() + d1.len() + d2.len() + d3.len() + d4.len() + d5.len() + d6.len()) as int);
            proof {
                assert(appended(*old(m), *m) =~= d1 + d2 + d3 + d4 + d5 + d6 + d7);
                lemma_emitted_concat(d1 + d2 + d3 + d4 + d5 + d6, d7);
                lemma_emitted_concat(d1 + d2 + d3 + d4 + d5, d6);
                lemma_emitted_concat(d1 + d2 + d3 + d4, d5);
                lemma_emitted_concat(d1 + d2 + d3, d4);
                lemma_emitted_concat(d1 + d2, d3);
                lemma_emitted_concat(d1, d2);
                assert(emitted(d1 + d2 + d3 + d4 + d5 + d6 + d7) =~= location_text(
                    *location,
                ));
            }
        },
        None => {
            proof {
                assert(appended(*old(m), *m) =~= Seq::<Event>::empty());
                assert(emitted(Seq::<Event>::empty()) =~= Seq::<u8>::empty());
            }
        },
    }
}

/// Drains the panic record to the serial channel and halts forever.
///
/// Interrupts are masked strictly before the first emitted byte — the mask
/// is the very first recorded event; the serial bytes are exactly
/// `panic_text`: banner, then message, then location; the machine ends
/// halted, with control registers and the framebuffer untouched.  The
/// terminal low-power wait is the last recorded event; every further step of
/// the halted machine changes nothing (`Machine::wait_step`).
pub fn handle_panic(m: &mut Machine, record: &PanicRecord)
    ensures
        final(m).interrupts_enabled == false,
        final(m).halted,
        final(m).read_script@ == old(m).read_script@,
        final(m).cr0 == old(m).cr0,
        final(m).cr4 == old(m).cr4,
        old(m).events@.is_prefix_of(final(m).events@),
        appended(*old(m), *final(m))[0] == Event::MaskInterrupts,
        appended(*old(m), *final(m)).last() == Event::LowPowerWait,
        emitted(appended(*old(m), *final(m))) == panic_text(record.message, record.location),
{
    let ghost a0: Seq<Event> = m.events@;
    m.mask_interrupts();
    let ghost e1: Seq<Event> = m.events@;
    let ghost d1: Seq<Event> = seq![Event::MaskInterrupts];
    print(m, "*** KERNEL PANIC ***\n");
    let ghost e2: Seq<Event> = m.events@;
    let ghost d2: Seq<Event> = e2.skip(e1.len() as int);
    emit_message(m, record.message);
    let ghost e3: Seq<Event> = m.events@;
    let ghost d3: Seq<Event> = e3.skip(e2.len() as int);
    emit_location(m, &record.location);
    let ghost e4: Seq<Event> = m.events@;
    let ghost d4: Seq<Event> = e4.skip(e3.len() as int);
    m.halt();
    let ghost e5: Seq<Event> = m.events@;
    let ghost d5: Seq<Event> = seq![Event::LowPowerWait];
    proof {
        assert(e1 =~= a0 + d1);
        assert(e2 =~= e1 + d2);
        assert(e3 =~= e2 + d3);
        assert(e4 =~= e3 + d4);
        assert(e5 =~= e4 + d5);
        assert(emitted(d2) == banner_text());
        assert(emitted(d3) == message_text(record.message));
        assert(emitted(d4) == location_text(record.location));
        assert(appended(*old(m), *m) =~= d1 + d2 + d3 + d4 + d5);
        lemma_emitted_concat(d1 + d2 + d3 + d4, d5);
        lemma_emitted_concat(d1 + d2 + d3, d4);
        lemma_emitted_concat(d1 + d2, d3);
        lemma_emitted_concat(d1, d2);
        lemma_emitted_singleton(Event::MaskInterrupts);
        lemma_emitted_singleton(Event::LowPowerWait);
        assert(emitted(d1 + d2 + d3 + d4 + d5) =~= panic_text(
            record.message,
            record.location,
        ));
        assert((d1 + d2 + d3 + d4 + d5)[0] == Event::MaskInterrupts);
        assert((d1 + d2 + d3 + d4 + d5).last() == Event::LowPowerWait);
    }
}

} // verus!
