//! Console adapter: wraps the external glyph renderer over one framebuffer
//! descriptor and exposes a byte-stream write.
//!
//! The renderer itself is an external collaborator, consumed only through
//! this initialize/write contract; the adapter records the descriptor it was
//! bound to and the exact byte stream handed over.  At most one console is
//! constructed per boot, by orchestration.

use vstd::prelude::*;

use crate::protocol::FramebufferInfo;

verus! {

/// The single console context of a boot: rendering state bound to one
/// framebuffer region, and the byte stream written to it so far.
pub struct Console {
    /// The framebuffer descriptor this console was constructed over.
    pub fb: FramebufferInfo,
    /// Every byte streamed into the console, in order.
    pub written: Vec<u8>,
}

impl Console {
    /// Constructs a renderer bound to the described framebuffer.  Returns
    /// `None` — and has never read the framebuffer memory — exactly when the
    /// geometry is degenerate (zero width or zero height); the caller then
    /// falls back to serial-only diagnostics.
    pub fn initialize(fb: &FramebufferInfo) -> (r: Option<Console>)
        ensures
            r is Some <==> fb.width > 0 && fb.height > 0,
            match r {
                Some(c) => c.fb == *fb && c.written@ == Seq::<u8>::empty(),
                None => true,
            },
    {
        if fb.width == 0 || fb.height == 0 {
            None
        } else {
            Some(Console { fb: *fb, written: Vec::new() })
        }
    }

    /// Streams raw bytes into the console.  The renderer owns escape and
    /// newline handling; there is no backpressure and no failure: the bytes
    /// are appended to the stream exactly as given.
    pub fn write(&mut self, bytes: &[u8])
        ensures
            final(self).fb == old(self).fb,
            final(self).written@ == old(self).written@ + bytes@,
    {
        let ghost w0: Seq<u8> = self.written@;
        let ghost fb0: FramebufferInfo = self.fb;
        proof {
            assert(self.written@ =~= w0 + bytes@.take(0));
        }
        let mut i: usize = 0;
        while i < bytes.len()
            invariant
                i <= bytes@.len(),
                self.fb == fb0,
                self.written@ == w0 + bytes@.take(i as int),
            decreases bytes@.len() - i,
        {
            self.written.push(bytes[i]);
            i = i + 1;
            proof {
                assert(self.written@ =~= w0 + bytes@.take(i as int));
            }
        }
        proof {
            assert(bytes@.take(bytes@.len() as int) =~= bytes@);
        }
    }
}

} // verus!
