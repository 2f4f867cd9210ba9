//! Boot protocol client: typed request/response records through which the
//! chainloading bootloader hands the kernel its machine description.
//!
//! The kernel declares, at link time, typed requests inside a
//! loader-recognized memory section; each carries a magic-identifier pair by
//! which the loader recognizes it.  Before transferring control the loader
//! writes a response pointer into each request it supports; a null pointer
//! means the feature is unsupported and optional.  A thin platform layer
//! turns that loader-owned memory into the read-only plain-value views held
//! here — `None` for a null pointer — and the client below is verified over
//! those views.  Response memory is never written and never reinterpreted
//! beyond the declared protocol revision.

use vstd::prelude::*;

verus! {

/// First magic identifier of the framebuffer request.
pub const FRAMEBUFFER_MAGIC_LO: u64 = 0x9d5827dcd881dd75;

/// Second magic identifier of the framebuffer request.
pub const FRAMEBUFFER_MAGIC_HI: u64 = 0xa3148604f6fab11b;

/// First magic identifier of the loader-identity request.
pub const BOOTLOADER_INFO_MAGIC_LO: u64 = 0xf55038d8e2a1202f;

/// Second magic identifier of the loader-identity request.
pub const BOOTLOADER_INFO_MAGIC_HI: u64 = 0x279426fcf5f59740;

/// One framebuffer the loader describes: base address, geometry, row pitch,
/// and per-channel bit-mask layout.  Consumed exactly once, to construct a
/// console.
#[derive(Clone, Copy, PartialEq, Eq, Structural, Debug)]
pub struct FramebufferInfo {
    /// Physical base address of the pixel memory.
    pub address: u64,
    /// Width in pixels.
    pub width: u64,
    /// Height in pixels.
    pub height: u64,
    /// Bytes from one row to the next.
    pub pitch: u64,
    /// Bits per pixel.
    pub bpp: u16,
    /// Red channel mask width in bits.
    pub red_mask_size: u8,
    /// Red channel mask position.
    pub red_mask_shift: u8,
    /// Green channel mask width in bits.
    pub green_mask_size: u8,
    /// Green channel mask position.
    pub green_mask_shift: u8,
    /// Blue channel mask width in bits.
    pub blue_mask_size: u8,
    /// Blue channel mask position.
    pub blue_mask_shift: u8,
}

/// The loader's answer to the framebuffer request: the framebuffers it set
/// up, possibly none.
pub struct FramebufferResponse {
    /// The described framebuffers, in the loader's order.
    pub framebuffers: Vec<FramebufferInfo>,
}

/// The loader's answer to the identity request: its name and version, the
/// null terminators of the underlying strings stripped.
pub struct BootloaderInfoResponse {
    /// The loader's name, as plain bytes.
    pub name: Vec<u8>,
    /// The loader's version, as plain bytes.
    pub version: Vec<u8>,
}

/// The link-time framebuffer request record: magic-identifier pair, protocol
/// revision, and the response slot the loader fills (`None` stands for the
/// null pointer of an unsupported request).
pub struct FramebufferRequest {
    /// First magic identifier, by which the loader recognizes the request.
    pub magic_lo: u64,
    /// Second magic identifier.
    pub magic_hi: u64,
    /// Protocol revision of the request.
    pub revision: u64,
    /// The response slot, written by the loader before control transfer.
    pub response: Option<FramebufferResponse>,
}

impl FramebufferRequest {
    /// A fresh request as declared at link time: recognized magic, current
    /// revision, response slot still null.
    pub fn new() -> (r: FramebufferRequest)
        ensures
            r.magic_lo == FRAMEBUFFER_MAGIC_LO,
            r.magic_hi == FRAMEBUFFER_MAGIC_HI,
            r.revision == 1,
            r.response is None,
    {
        FramebufferRequest {
            magic_lo: FRAMEBUFFER_MAGIC_LO,
            magic_hi: FRAMEBUFFER_MAGIC_HI,
            revision: 1,
            response: None,
        }
    }

    /// Checks the response slot: `None` reports the feature absent — not
    /// fatal, the caller proceeds without it; `Some` is the loader-owned,
    /// read-only response, handed out by reference and never copied or
    /// mutated.
    pub fn get_response(&self) -> (r: Option<&FramebufferResponse>)
        ensures
            match (r, &self.response) {
                (Some(got), Some(held)) => got == held,
                (None, None) => true,
                _ => false,
            },
    {
        match &self.response {
            Some(resp) => Some(resp),
            None => None,
        }
    }
}

/// The link-time loader-identity request record, shaped as the framebuffer
/// request is.
pub struct BootloaderInfoRequest {
    /// First magic identifier, by which the loader recognizes the request.
    pub magic_lo: u64,
    /// Second magic identifier.
    pub magic_hi: u64,
    /// Protocol revision of the request.
    pub revision: u64,
    /// The response slot, written by the loader before control transfer.
    pub response: Option<BootloaderInfoResponse>,
}

impl BootloaderInfoRequest {
    /// A fresh request as declared at link time: recognized magic, current
    /// revision, response slot still null.
    pub fn new() -> (r: BootloaderInfoRequest)
        ensures
            r.magic_lo == BOOTLOADER_INFO_MAGIC_LO,
            r.magic_hi == BOOTLOADER_INFO_MAGIC_HI,
            r.revision == 0,
            r.response is None,
    {
        BootloaderInfoRequest {
            magic_lo: BOOTLOADER_INFO_MAGIC_LO,
            magic_hi: BOOTLOADER_INFO_MAGIC_HI,
            revision: 0,
            response: None,
        }
    }

    /// Checks the response slot, as the framebuffer request does: `None`
    /// reports the loader identity absent and is not fatal.
    pub fn get_response(&self) -> (r: Option<&BootloaderInfoResponse>)
        ensures
            match (r, &self.response) {
                (Some(got), Some(held)) => got == held,
                (None, None) => true,
                _ => false,
            },
    {
        match &self.response {
            Some(resp) => Some(resp),
            None => None,
        }
    }
}

} // verus!
