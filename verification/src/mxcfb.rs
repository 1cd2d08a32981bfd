//! The EPDC update record shared by both display paths.
//!
//! `mxcfb_update_data` mirrors the kernel's e-ink controller update ioctl
//! record field for field; the same record rides inside the UPDATE message of
//! the IPC wire protocol, so its byte layout is a hard ABI contract: eighteen
//! little-endian 32-bit words, 72 bytes in all, in exactly the order the
//! kernel header declares them.

use vstd::prelude::*;

use crate::wire::{le4, le4i, push_i32_le, push_u32_le, read_i32_le, read_u32_le};

verus! {

/// A rectangle in panel coordinates, as the kernel ioctl record carries it.
#[derive(Clone, Copy, Debug, PartialEq, Eq, Structural)]
#[allow(non_camel_case_types)]
pub struct mxcfb_rect {
    pub top: u32,
    pub left: u32,
    pub width: u32,
    pub height: u32,
}

/// The alternate-buffer descriptor of the kernel update record.
#[derive(Clone, Copy, Debug, PartialEq, Eq, Structural)]
#[allow(non_camel_case_types)]
pub struct mxcfb_alt_buffer_data {
    pub phys_addr: u32,
    pub width: u32,
    pub height: u32,
    pub alt_update_region: mxcfb_rect,
}

/// One e-ink display update: region, waveform, mode, correlation marker and
/// the remaining kernel fields.
#[derive(Clone, Copy, Debug, PartialEq, Eq, Structural)]
#[allow(non_camel_case_types)]
pub struct mxcfb_update_data {
    pub update_region: mxcfb_rect,
    pub waveform_mode: u32,
    pub update_mode: u32,
    pub update_marker: u32,
    pub temp: i32,
    pub flags: u32,
    pub dither_mode: i32,
    pub quant_bit: i32,
    pub alt_buffer_data: mxcfb_alt_buffer_data,
}

/// Byte layout of a rectangle: four little-endian words.
pub open spec fn rect_bytes(r: mxcfb_rect) -> Seq<u8> {
    le4(r.top) + le4(r.left) + le4(r.width) + le4(r.height)
}

/// Byte layout of the alternate-buffer descriptor: 28 bytes.
pub open spec fn alt_bytes(a: mxcfb_alt_buffer_data) -> Seq<u8> {
    le4(a.phys_addr) + le4(a.width) + le4(a.height) + rect_bytes(a.alt_update_region)
}

/// Byte layout of a full update record: 72 bytes.
pub open spec fn update_bytes(u: mxcfb_update_data) -> Seq<u8> {
    rect_bytes(u.update_region) + le4(u.waveform_mode) + le4(u.update_mode) + le4(u.update_marker)
        + le4i(u.temp) + le4(u.flags) + le4i(u.dither_mode) + le4i(u.quant_bit) + alt_bytes(
        u.alt_buffer_data,
    )
}

/// Append the 16-byte encoding of a rectangle.
pub fn push_rect(out: &mut Vec<u8>, r: &mxcfb_rect)
    ensures
        final(out)@ == old(out)@ + rect_bytes(*r),
{
    push_u32_le(out, r.top);
    push_u32_le(out, r.left);
    push_u32_le(out, r.width);
    push_u32_le(out, r.height);
    assert(final(out)@ =~= old(out)@ + rect_bytes(*r));
}

/// Append the 28-byte encoding of an alternate-buffer descriptor.
pub fn push_alt(out: &mut Vec<u8>, a: &mxcfb_alt_buffer_data)
    ensures
        final(out)@ == old(out)@ + alt_bytes(*a),
{
    push_u32_le(out, a.phys_addr);
    push_u32_le(out, a.width);
    push_u32_le(out, a.height);
    push_rect(out, &a.alt_update_region);
    assert(final(out)@ =~= old(out)@ + alt_bytes(*a));
}

/// Append the 72-byte encoding of an update record.
pub fn push_update(out: &mut Vec<u8>, u: &mxcfb_update_data)
    ensures
        final(out)@ == old(out)@ + update_bytes(*u),
{
    push_rect(out, &u.update_region);
    push_u32_le(out, u.waveform_mode);
    push_u32_le(out, u.update_mode);
    push_u32_le(out, u.update_marker);
    push_i32_le(out, u.temp);
    push_u32_le(out, u.flags);
    push_i32_le(out, u.dither_mode);
    push_i32_le(out, u.quant_bit);
    push_alt(out, &u.alt_buffer_data);
    assert(final(out)@ =~= old(out)@ + update_bytes(*u));
}

/// Read the rectangle whose 16 bytes sit at `off`.
pub fn read_rect(b: &Vec<u8>, off: usize) -> (r: mxcfb_rect)
    requires
        off + 16 <= b@.len(),
    ensures
        rect_bytes(r) == b@.subrange(off as int, off as int + 16),
{
    let n = b.len();
    let r = mxcfb_rect {
        top: read_u32_le(b, off),
        left: read_u32_le(b, off + 4),
        width: read_u32_le(b, off + 8),
        height: read_u32_le(b, off + 12),
    };
    assert(rect_bytes(r) =~= b@.subrange(off as int, off as int + 16));
    r
}

/// Read the alternate-buffer descriptor whose 28 bytes sit at `off`.
pub fn read_alt(b: &Vec<u8>, off: usize) -> (r: mxcfb_alt_buffer_data)
    requires
        off + 28 <= b@.len(),
    ensures
        alt_bytes(r) == b@.subrange(off as int, off as int + 28),
{
    let n = b.len();
    let r = mxcfb_alt_buffer_data {
        phys_addr: read_u32_le(b, off),
        width: read_u32_le(b, off + 4),
        height: read_u32_le(b, off + 8),
        alt_update_region: read_rect(b, off + 12),
    };
    assert(alt_bytes(r) =~= b@.subrange(off as int, off as int + 28));
    r
}

/// Read the update record whose 72 bytes sit at `off`.
pub fn read_update(b: &Vec<u8>, off: usize) -> (r: mxcfb_update_data)
    requires
        off + 72 <= b@.len(),
    ensures
        update_bytes(r) == b@.subrange(off as int, off as int + 72),
{
    let n = b.len();
    let r = mxcfb_update_data {
        update_region: read_rect(b, off),
        waveform_mode: read_u32_le(b, off + 16),
        update_mode: read_u32_le(b, off + 20),
        update_marker: read_u32_le(b, off + 24),
        temp: read_i32_le(b, off + 28),
        flags: read_u32_le(b, off + 32),
        dither_mode: read_i32_le(b, off + 36),
        quant_bit: read_i32_le(b, off + 40),
        alt_buffer_data: read_alt(b, off + 44),
    };
    assert(update_bytes(r) =~= b@.subrange(off as int, off as int + 72));
    r
}

/// The word of the update record at each of its eighteen 4-byte windows.
pub proof fn lemma_update_parts(u: mxcfb_update_data)
    ensures
        update_bytes(u).len() == 72,
        update_bytes(u).subrange(0, 4) == le4(u.update_region.top),
        update_bytes(u).subrange(4, 8) == le4(u.update_region.left),
        update_bytes(u).subrange(8, 12) == le4(u.update_region.width),
        update_bytes(u).subrange(12, 16) == le4(u.update_region.height),
        update_bytes(u).subrange(16, 20) == le4(u.waveform_mode),
        update_bytes(u).subrange(20, 24) == le4(u.update_mode),
        update_bytes(u).subrange(24, 28) == le4(u.update_marker),
        update_bytes(u).subrange(28, 32) == le4i(u.temp),
        update_bytes(u).subrange(32, 36) == le4(u.flags),
        update_bytes(u).subrange(36, 40) == le4i(u.dither_mode),
        update_bytes(u).subrange(40, 44) == le4i(u.quant_bit),
        update_bytes(u).subrange(44, 48) == le4(u.alt_buffer_data.phys_addr),
        update_bytes(u).subrange(48, 52) == le4(u.alt_buffer_data.width),
        update_bytes(u).subrange(52, 56) == le4(u.alt_buffer_data.height),
        update_bytes(u).subrange(56, 60) == le4(u.alt_buffer_data.alt_update_region.top),
        update_bytes(u).subrange(60, 64) == le4(u.alt_buffer_data.alt_update_region.left),
        update_bytes(u).subrange(64, 68) == le4(u.alt_buffer_data.alt_update_region.width),
        update_bytes(u).subrange(68, 72) == le4(u.alt_buffer_data.alt_update_region.height),
{
    let s = update_bytes(u);
    assert(s.subrange(0, 4) =~= le4(u.update_region.top));
    assert(s.subrange(4, 8) =~= le4(u.update_region.left));
    assert(s.subrange(8, 12) =~= le4(u.update_region.width));
    assert(s.subrange(12, 16) =~= le4(u.update_region.height));
    assert(s.subrange(16, 20) =~= le4(u.waveform_mode));
    assert(s.subrange(20, 24) =~= le4(u.update_mode));
    assert(s.subrange(24, 28) =~= le4(u.update_marker));
    assert(s.subrange(28, 32) =~= le4i(u.temp));
    assert(s.subrange(32, 36) =~= le4(u.flags));
    assert(s.subrange(36, 40) =~= le4i(u.dither_mode));
    assert(s.subrange(40, 44) =~= le4i(u.quant_bit));
    assert(s.subrange(44, 48) =~= le4(u.alt_buffer_data.phys_addr));
    assert(s.subrange(48, 52) =~= le4(u.alt_buffer_data.width));
    assert(s.subrange(52, 56) =~= le4(u.alt_buffer_data.height));
    assert(s.subrange(56, 60) =~= le4(u.alt_buffer_data.alt_update_region.top));
    assert(s.subrange(60, 64) =~= le4(u.alt_buffer_data.alt_update_region.left));
    assert(s.subrange(64, 68) =~= le4(u.alt_buffer_data.alt_update_region.width));
    assert(s.subrange(68, 72) =~= le4(u.alt_buffer_data.alt_update_region.height));
}

/// Two update records with the same 72-byte encoding are the same record.
pub proof fn lemma_update_bytes_injective(a: mxcfb_update_data, b: mxcfb_update_data)
    requires
        update_bytes(a) == update_bytes(b),
    ensures
        a == b,
{
    lemma_update_parts(a);
    lemma_update_parts(b);
    crate::wire::lemma_le4_injective(a.update_region.top, b.update_region.top);
    crate::wire::lemma_le4_injective(a.update_region.left, b.update_region.left);
    crate::wire::lemma_le4_injective(a.update_region.width, b.update_region.width);
    crate::wire::lemma_le4_injective(a.update_region.height, b.update_region.height);
    crate::wire::lemma_le4_injective(a.waveform_mode, b.waveform_mode);
    crate::wire::lemma_le4_injective(a.update_mode, b.update_mode);
    crate::wire::lemma_le4_injective(a.update_marker, b.update_marker);
    crate::wire::lemma_le4i_injective(a.temp, b.temp);
    crate::wire::lemma_le4_injective(a.flags, b.flags);
    crate::wire::lemma_le4i_injective(a.dither_mode, b.dither_mode);
    crate::wire::lemma_le4i_injective(a.quant_bit, b.quant_bit);
    crate::wire::lemma_le4_injective(a.alt_buffer_data.phys_addr, b.alt_buffer_data.phys_addr);
    crate::wire::lemma_le4_injective(a.alt_buffer_data.width, b.alt_buffer_data.width);
    crate::wire::lemma_le4_injective(a.alt_buffer_data.height, b.alt_buffer_data.height);
    crate::wire::lemma_le4_injective(
        a.alt_buffer_data.alt_update_region.top,
        b.alt_buffer_data.alt_update_region.top,
    );
    crate::wire::lemma_le4_injective(
        a.alt_buffer_data.alt_update_region.left,
        b.alt_buffer_data.alt_update_region.left,
    );
    crate::wire::lemma_le4_injective(
        a.alt_buffer_data.alt_update_region.width,
        b.alt_buffer_data.alt_update_region.width,
    );
    crate::wire::lemma_le4_injective(
        a.alt_buffer_data.alt_update_region.height,
        b.alt_buffer_data.alt_update_region.height,
    );
}

} // verus!
