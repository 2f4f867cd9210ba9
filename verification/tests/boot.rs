use piuma::Event;
use piuma::Machine;
use piuma::console::Console;
use piuma::fault::PanicRecord;
use piuma::fault::SourceLocation;
use piuma::fault::handle_panic;
use piuma::kernel::kmain;
use piuma::protocol::BootloaderInfoRequest;
use piuma::protocol::BootloaderInfoResponse;
use piuma::protocol::FramebufferInfo;
use piuma::protocol::FramebufferRequest;
use piuma::protocol::FramebufferResponse;

/// The bytes written to the serial data register, in event order.
fn data_writes(events: &[Event]) -> Vec<u8> {
    let mut out: Vec<u8> = Vec::new();
    for e in events {
        if let Event::PortWrite { port, value } = e {
            if *port == 0x3F8 {
                out.push(*value);
            }
        }
    }
    out
}

/// Whether `needle` occurs as a contiguous run of `haystack` at or after
/// `from`; returns the position after the match.
fn find_from(haystack: &[u8], needle: &[u8], from: usize) -> Option<usize> {
    if needle.is_empty() {
        return Some(from);
    }
    let mut i = from;
    while i + needle.len() <= haystack.len() {
        if &haystack[i..i + needle.len()] == needle {
            return Some(i + needle.len());
        }
        i += 1;
    }
    None
}

fn framebuffer(width: u64, height: u64, pitch: u64) -> FramebufferInfo {
    FramebufferInfo {
        address: 0xA000_0000,
        width,
        height,
        pitch,
        bpp: 32,
        red_mask_size: 8,
        red_mask_shift: 16,
        green_mask_size: 8,
        green_mask_shift: 8,
        blue_mask_size: 8,
        blue_mask_shift: 0,
    }
}

#[test]
fn request_records_carry_documented_magic() {
    let fb_req = FramebufferRequest::new();
    assert_eq!(fb_req.magic_lo, 0x9d5827dcd881dd75);
    assert_eq!(fb_req.magic_hi, 0xa3148604f6fab11b);
    assert_eq!(fb_req.revision, 1);
    assert!(fb_req.response.is_none());
    let info_req = BootloaderInfoRequest::new();
    assert_eq!(info_req.magic_lo, 0xf55038d8e2a1202f);
    assert_eq!(info_req.magic_hi, 0x279426fcf5f59740);
    assert_eq!(info_req.revision, 0);
    assert!(info_req.response.is_none());
}

#[test]
fn null_response_pointer_reports_absent() {
    let fb_req = FramebufferRequest::new();
    assert!(fb_req.get_response().is_none());
    let info_req = BootloaderInfoRequest::new();
    assert!(info_req.get_response().is_none());
}

#[test]
fn absent_framebuffer_boots_to_halt_without_console() {
    let mut m = Machine::power_on(Vec::new(), 0, 0);
    let fb_req = FramebufferRequest::new();
    let info_req = BootloaderInfoRequest::new();
    let console = kmain(&mut m, &fb_req, &info_req);
    assert!(console.is_none());
    assert!(m.halted);
    assert!(m.interrupts_enabled);
    // Two control-register writes, seven controller writes, then the text.
    let uart = data_writes(&m.events[9..]);
    assert_eq!(uart, b"Piuma version 0.0.1\nAcquiring framebuffer\n".to_vec());
    assert_eq!(*m.events.last().unwrap(), Event::LowPowerWait);
}

#[test]
fn framebuffer_geometry_reaches_console_exactly() {
    let mut m = Machine::power_on(Vec::new(), 0, 0);
    let mut fb_req = FramebufferRequest::new();
    fb_req.response = Some(FramebufferResponse {
        framebuffers: vec![framebuffer(1024, 768, 4096)],
    });
    let info_req = BootloaderInfoRequest::new();
    let console = kmain(&mut m, &fb_req, &info_req);
    let c = console.expect("a sound framebuffer must yield a console");
    assert_eq!(c.fb.width, 1024);
    assert_eq!(c.fb.height, 768);
    assert_eq!(c.fb.pitch, 4096);
    assert_eq!(c.fb, framebuffer(1024, 768, 4096));
}

#[test]
fn console_rejects_degenerate_geometry() {
    assert!(Console::initialize(&framebuffer(0, 768, 4096)).is_none());
    assert!(Console::initialize(&framebuffer(1024, 0, 4096)).is_none());
    assert!(Console::initialize(&framebuffer(1, 1, 4)).is_some());
}

#[test]
fn degenerate_framebuffer_degrades_to_serial_only() {
    let mut m = Machine::power_on(Vec::new(), 0, 0);
    let mut fb_req = FramebufferRequest::new();
    fb_req.response = Some(FramebufferResponse { framebuffers: vec![framebuffer(0, 0, 0)] });
    let info_req = BootloaderInfoRequest::new();
    let console = kmain(&mut m, &fb_req, &info_req);
    assert!(console.is_none());
    assert!(m.halted);
    let uart = data_writes(&m.events[9..]);
    assert_eq!(uart, b"Piuma version 0.0.1\nAcquiring framebuffer\n".to_vec());
}

#[test]
fn empty_framebuffer_list_is_no_display() {
    let mut m = Machine::power_on(Vec::new(), 0, 0);
    let mut fb_req = FramebufferRequest::new();
    fb_req.response = Some(FramebufferResponse { framebuffers: Vec::new() });
    let info_req = BootloaderInfoRequest::new();
    let console = kmain(&mut m, &fb_req, &info_req);
    assert!(console.is_none());
    assert!(m.halted);
}

#[test]
fn console_write_appends_byte_stream() {
    let mut c = Console::initialize(&framebuffer(80, 25, 320)).unwrap();
    c.write(b"one ");
    c.write(b"two");
    assert_eq!(c.written, b"one two".to_vec());
}

#[test]
fn panic_report_is_ordered_and_masked_first() {
    let mut m = Machine::power_on(Vec::new(), 0, 0);
    let before = m.events.len();
    let record = PanicRecord {
        message: Some("X"),
        location: Some(SourceLocation { file: "a.rs", line: 10, column: 3 }),
    };
    handle_panic(&mut m, &record);
    assert!(!m.interrupts_enabled);
    assert!(m.halted);
    // Interrupts are masked strictly before the first emitted byte.
    assert_eq!(m.events[before], Event::MaskInterrupts);
    let uart = data_writes(&m.events[before..]);
    assert_eq!(
        uart,
        b"*** KERNEL PANIC ***\n\nMessage: X\nLocation: a.rs:10:3\n".to_vec()
    );
    // In order: the fixed banner, then the message, then file:line:column.
    let after_banner = find_from(&uart, b"*** KERNEL PANIC ***", 0).unwrap();
    let after_message = find_from(&uart, b"X", after_banner).unwrap();
    assert!(find_from(&uart, b"a.rs:10:3", after_message).is_some());
    // Execution never returns: bounded simulated steps change no state
    // beyond the wait instruction itself.
    let snapshot_events = m.events.len();
    let (cr0, cr4, cursor) = (m.cr0, m.cr4, m.cursor);
    m.run_halted(100);
    assert_eq!(m.events.len(), snapshot_events + 100);
    for e in &m.events[snapshot_events..] {
        assert_eq!(*e, Event::LowPowerWait);
    }
    assert_eq!((m.cr0, m.cr4, m.cursor), (cr0, cr4, cursor));
    assert!(!m.interrupts_enabled);
    assert!(m.halted);
}

#[test]
fn panic_without_location_prints_message_only() {
    let mut m = Machine::power_on(Vec::new(), 0, 0);
    let record = PanicRecord { message: Some("oops"), location: None };
    handle_panic(&mut m, &record);
    let uart = data_writes(&m.events);
    assert_eq!(uart, b"*** KERNEL PANIC ***\n\nMessage: oops\n".to_vec());
}

#[test]
fn end_to_end_boot_with_test_loader() {
    let mut m = Machine::power_on(Vec::new(), 0, 0);
    let mut fb_req = FramebufferRequest::new();
    fb_req.response = Some(FramebufferResponse {
        framebuffers: vec![framebuffer(640, 480, 2560)],
    });
    let mut info_req = BootloaderInfoRequest::new();
    info_req.response = Some(BootloaderInfoResponse {
        name: b"TestLoader".to_vec(),
        version: b"1.0".to_vec(),
    });
    let console = kmain(&mut m, &fb_req, &info_req);
    assert!(m.halted);
    let uart = data_writes(&m.events[9..]);
    assert!(uart.starts_with(b"Piuma version 0.0.1\nAcquiring framebuffer\n"));
    let c = console.unwrap();
    let after_name = find_from(&c.written, b"Piuma version 0.0.1", 0).unwrap();
    assert!(find_from(&c.written, b"Bootloader: TestLoader 1.0", after_name).is_some());
    assert_eq!(
        c.written,
        b"Piuma version 0.0.1\nBootloader: TestLoader 1.0\n".to_vec()
    );
}
