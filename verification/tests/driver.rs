use piuma::Event;
use piuma::Machine;
use piuma::cpu::enable_extended_state;
use piuma::fault::u32_to_decimal;
use piuma::serial::SerialWriter;
use piuma::serial::init_serial;
use piuma::serial::print;
use piuma::serial::send;

/// The bytes written to the serial data register, in event order.
fn data_writes(events: &[Event]) -> Vec<u8> {
    let mut out: Vec<u8> = Vec::new();
    for e in events {
        if let Event::PortWrite { port, value } = e {
            if *port == 0x3F8 {
                out.push(*value);
            }
        }
    }
    out
}

/// Checks that every port write in `events` is immediately preceded by a
/// line-status read that observed the transmit-empty bit.
fn writes_follow_ready(events: &[Event]) -> bool {
    for (i, e) in events.iter().enumerate() {
        if let Event::PortWrite { .. } = e {
            if i == 0 {
                return false;
            }
            match events[i - 1] {
                Event::PortRead { port, value } => {
                    if port != 0x3FD || value & 0x20 == 0 {
                        return false;
                    }
                }
                _ => return false,
            }
        }
    }
    true
}

#[test]
fn print_emits_each_byte_in_order() {
    let mut m = Machine::power_on(Vec::new(), 0, 0);
    init_serial(&mut m);
    let after_init = m.events.len();
    print(&mut m, "Hi!");
    let tail = &m.events[after_init..];
    assert_eq!(data_writes(tail), b"Hi!".to_vec());
    assert!(writes_follow_ready(tail));
}

#[test]
fn send_busy_waits_until_transmit_empty() {
    let mut m = Machine::power_on(vec![0x00, 0x00, 0x21], 0, 0);
    send(&mut m, b'A');
    assert_eq!(
        m.events,
        vec![
            Event::PortRead { port: 0x3FD, value: 0x00 },
            Event::PortRead { port: 0x3FD, value: 0x00 },
            Event::PortRead { port: 0x3FD, value: 0x21 },
            Event::PortWrite { port: 0x3F8, value: b'A' },
        ]
    );
    assert_eq!(m.cursor, 3);
}

#[test]
fn send_past_script_sees_idle_status() {
    let mut m = Machine::power_on(Vec::new(), 0, 0);
    send(&mut m, 0x55);
    assert_eq!(
        m.events,
        vec![
            Event::PortRead { port: 0x3FD, value: 0x20 },
            Event::PortWrite { port: 0x3F8, value: 0x55 },
        ]
    );
}

#[test]
fn init_serial_writes_documented_pairs() {
    let expected = vec![
        Event::PortWrite { port: 0x3F9, value: 0x00 },
        Event::PortWrite { port: 0x3FB, value: 0x80 },
        Event::PortWrite { port: 0x3F8, value: 0x03 },
        Event::PortWrite { port: 0x3F9, value: 0x00 },
        Event::PortWrite { port: 0x3FB, value: 0x03 },
        Event::PortWrite { port: 0x3FA, value: 0xC7 },
        Event::PortWrite { port: 0x3FC, value: 0x0B },
    ];
    let mut m = Machine::power_on(Vec::new(), 0, 0);
    init_serial(&mut m);
    assert_eq!(m.events, expected);
    // Idempotent: a second call on the dirtied machine appends the very
    // same sequence again.
    init_serial(&mut m);
    assert_eq!(m.events[7..].to_vec(), expected);
}

#[test]
fn enable_extended_state_is_a_pure_bit_transform() {
    let cr0: u64 = 0xFFFF_FFFF_FFFF_FFFF;
    let cr4: u64 = 0x0000_0000_0000_0000;
    let mut m = Machine::power_on(Vec::new(), cr0, cr4);
    enable_extended_state(&mut m);
    // Emulation bit (bit 2) cleared, monitor co-processor bit (bit 1) set.
    assert_eq!(m.cr0, 0xFFFF_FFFF_FFFF_FFFB);
    // SIMD-state and structured-fault bits (9 and 10) set.
    assert_eq!(m.cr4, 0x0000_0000_0000_0600);
    assert_eq!(
        m.events,
        vec![
            Event::Cr0Write { value: 0xFFFF_FFFF_FFFF_FFFB },
            Event::Cr4Write { value: 0x0000_0000_0000_0600 },
        ]
    );

    // Another pattern: every other bit stays exactly as it was.
    let mut m2 = Machine::power_on(Vec::new(), 0xABCD_EF01_2345_6789, 0xFFFF_FFFF_FFFF_F1FF);
    enable_extended_state(&mut m2);
    assert_eq!(m2.cr0, (0xABCD_EF01_2345_6789u64 & !0x4) | 0x2);
    assert_eq!(m2.cr4, 0xFFFF_FFFF_FFFF_F1FF | 0x600);
}

#[test]
fn decimal_formatting_exact_values() {
    assert_eq!(u32_to_decimal(0), b"0".to_vec());
    assert_eq!(u32_to_decimal(7), b"7".to_vec());
    assert_eq!(u32_to_decimal(10), b"10".to_vec());
    assert_eq!(u32_to_decimal(38400), b"38400".to_vec());
    assert_eq!(u32_to_decimal(4294967295), b"4294967295".to_vec());
}

#[test]
fn serial_writer_writes_fragments() {
    let mut m = Machine::power_on(Vec::new(), 0, 0);
    init_serial(&mut m);
    let after_init = m.events.len();
    let mut w = SerialWriter;
    assert_eq!(w.write_str(&mut m, "ab"), Ok(()));
    assert_eq!(w.write_str(&mut m, "c"), Ok(()));
    assert_eq!(data_writes(&m.events[after_init..]), b"abc".to_vec());
}

#[test]
fn halted_machine_only_waits() {
    let mut m = Machine::power_on(Vec::new(), 1, 2);
    m.halt();
    assert!(m.halted);
    let events_before = m.events.len();
    m.run_halted(5);
    assert_eq!(m.events.len(), events_before + 5);
    for e in &m.events[events_before..] {
        assert_eq!(*e, Event::LowPowerWait);
    }
    assert_eq!(m.cr0, 1);
    assert_eq!(m.cr4, 2);
    assert!(m.interrupts_enabled);
    assert_eq!(m.cursor, 0);
}
