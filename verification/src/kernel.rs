//! Entry orchestration: the strict once-per-power-on sequence from
//! bootloader handoff to the terminal halt.
//!
//! Order: enable the floating-point/SIMD units; program the serial
//! controller; emit the startup banner; query the boot protocol for a
//! framebuffer; if one is described and its geometry is sound, bind the
//! console to it and write the splash with the kernel and loader identity;
//! halt.  Absence of any optional resource — no framebuffer response, an
//! empty list, degenerate geometry, no loader identity — is non-fatal: the
//! boot degrades to serial-only diagnostics and still halts normally.

use vstd::prelude::*;
use vstd::string::StringSliceAdditionalSpecFns;

use crate::console::Console;
use crate::cpu::cr0_enabled;
use crate::cpu::cr4_enabled;
use crate::cpu::enable_extended_state;
use crate::machine::Event;
use crate::machine::Machine;
use crate::machine::appended;
use crate::protocol::BootloaderInfoRequest;
use crate::protocol::FramebufferInfo;
use crate::protocol::FramebufferRequest;
use crate::serial::emitted;
use crate::serial::init_events;
use crate::serial::init_serial;
use crate::serial::lemma_emitted_concat;
use crate::serial::lemma_emitted_singleton;
use crate::serial::print;

verus! {

/// The framebuffer orchestration selects: the first of the loader's answer,
/// when there is an answer and it describes at least one.
pub open spec fn selected_framebuffer(fb_req: FramebufferRequest) -> Option<FramebufferInfo> {
    match fb_req.response {
        Some(resp) => if resp.framebuffers@.len() > 0 {
            Some(resp.framebuffers@[0])
        } else {
            None
        },
        None => None,
    }
}

/// Whether the boot ends with a live console: a framebuffer was selected
/// and its geometry is not degenerate.
pub open spec fn console_created(fb_req: FramebufferRequest) -> bool {
    match selected_framebuffer(fb_req) {
        Some(fb) => fb.width > 0 && fb.height > 0,
        None => false,
    }
}

/// The splash the console receives: the kernel identity, then the loader's
/// name and version when the loader identified itself.
pub open spec fn splash_text(info_req: BootloaderInfoRequest) -> Seq<u8> {
    "Piuma version 0.0.1\n".spec_bytes() + match info_req.response {
        Some(info) => "Bootloader: ".spec_bytes() + info.name@ + " ".spec_bytes() + info.version@
            + "\n".spec_bytes(),
        None => Seq::<u8>::empty(),
    }
}

/// The serial text of a boot, in order: the startup banner, the framebuffer
/// acquisition notice, and — exactly when a console comes up — the console
/// notice.
pub open spec fn startup_text(fb_req: FramebufferRequest) -> Seq<u8> {
    "Piuma version 0.0.1\n".spec_bytes() + "Acquiring framebuffer\n".spec_bytes() + (
    if console_created(fb_req) {
        "Console initialized\n".spec_bytes()
    } else {
        Seq::<u8>::empty()
    })
}

/// Runs the boot sequence once: feature bootstrap, serial bring-up, banner,
/// protocol query, optional console and splash, halt.
///
/// The appended events begin with the two control-register writes (the
/// bootstrap completes before anything else runs), followed by the fixed
/// seven-write serial programming sequence; the serial bytes emitted after
/// that are exactly `startup_text`; the last event is the terminal
/// low-power wait.  A console is returned exactly when the loader described
/// a framebuffer with sound geometry; it is bound to that framebuffer and
/// has received exactly `splash_text`.
#[verifier::rlimit(100)]
pub fn kmain(
    m: &mut Machine,
    fb_req: &FramebufferRequest,
    info_req: &BootloaderInfoRequest,
) -> (console: Option<Console>)
    ensures
        final(m).halted,
        final(m).interrupts_enabled == old(m).interrupts_enabled,
        final(m).read_script@ == old(m).read_script@,
        final(m).cr0 == cr0_enabled(old(m).cr0),
        final(m).cr4 == cr4_enabled(old(m).cr4),
        old(m).events@.is_prefix_of(final(m).events@),
        appended(*old(m), *final(m)).len() >= 10,
        appended(*old(m), *final(m))[0] == (Event::Cr0Write {
            value: cr0_enabled(old(m).cr0),
        }),
        appended(*old(m), *final(m))[1] == (Event::Cr4Write {
            value: cr4_enabled(old(m).cr4),
        }),
        appended(*old(m), *final(m)).subrange(2, 9) == init_events(),
        emitted(appended(*old(m), *final(m)).skip(9)) == startup_text(*fb_req),
        appended(*old(m), *final(m)).last() == Event::LowPowerWait,
        match console {
            Some(c) => console_created(*fb_req) && Some(c.fb) == selected_framebuffer(*fb_req)
                && c.written@ == splash_text(*info_req),
            None => !console_created(*fb_req),
        },
{
    let ghost a0: Seq<Event> = m.events@;
    enable_extended_state(m);
    let ghost e1: Seq<Event> = m.events@;
    init_serial(m);
    let ghost e2: Seq<Event> = m.events@;
    print(m, "Piuma version 0.0.1\n");
    let ghost e3: Seq<Event> = m.events@;
    let ghost d3: Seq<Event> = e3.skip(e2.len() as int);
    print(m, "Acquiring framebuffer\n");
    let ghost e4: Seq<Event> = m.events@;
    let ghost d4: Seq<Event> = e4.skip(e3.len() as int);
    let mut console: Option<Console> = None;
    match fb_req.get_response() {
        Some(resp) => {
            if resp.framebuffers.len() > 0 {
                let fb: &FramebufferInfo = &resp.framebuffers[0];
                match Console::initialize(fb) {
                    Some(mut c) => {
                        print(m, "Console initialized\n");
                        c.write("Piuma version 0.0.1\n".as_bytes());
                        match info_req.get_response() {
                            Some(info) => {
                                c.write("Bootloader: ".as_bytes());
                                c.write(info.name.as_slice());
                                c.write(" ".as_bytes());
                                c.write(info.version.as_slice());
                                c.write("\n".as_bytes());
                            },
                            None => {},
                        }
                        proof {
                            assert(c.written@ =~= splash_text(*info_req));
                        }
                        console = Some(c);
                    },
                    None => {},
                }
            }
        },
        None => {},
    }
    let ghost e5: Seq<Event> = m.events@;
    let ghost d5: Seq<Event> = e5.skip(e4.len() as int);
    m.halt();
    proof {
        let d1: Seq<Event> = seq![
            Event::Cr0Write { value: cr0_enabled(old(m).cr0) },
            Event::Cr4Write { value: cr4_enabled(old(m).cr4) },
        ];
        let d2: Seq<Event> = init_events();
        let d6: Seq<Event> = seq![Event::LowPowerWait];
        assert(e1 =~= a0 + d1);
        assert(e2 =~= e1 + d2);
        assert(e3 =~= e2 + d3);
        assert(e4 =~= e3 + d4);
        assert(e5 =~= e4 + d5);
        assert(m.events@ =~= e5 + d6);
        assert(emitted(d3) == "Piuma version 0.0.1\n".spec_bytes());
        assert(emitted(d4) == "Acquiring framebuffer\n".spec_bytes());
        assert(emitted(d5) == (if console_created(*fb_req) {
            "Console initialized\n".spec_bytes()
        } else {
            Seq::<u8>::empty()
        }));
        let app = appended(*old(m), *m);
        assert(app =~= d1 + d2 + d3 + d4 + d5 + d6);
        assert(app.subrange(2, 9) =~= init_events());
        assert(app.skip(9) =~= d3 + d4 + d5 + d6);
        lemma_emitted_concat(d3 + d4 + d5, d6);
        lemma_emitted_concat(d3 + d4, d5);
        lemma_emitted_concat(d3, d4);
        lemma_emitted_singleton(Event::LowPowerWait);
        assert(emitted(app.skip(9)) =~= startup_text(*fb_req));
    }
    console
}

} // verus!
