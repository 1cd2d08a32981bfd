//! The shared update-region value: one rectangle of the panel, a waveform
//! selector and flags — the payload unit a caller hands to either backend.
//!
//! A region is valid only when it lies within the panel and has a non-zero
//! area; constructors reject anything else.  Valid regions convert losslessly
//! into both wire payload forms, and the conversion into the coordinate
//! payload is inverted exactly by [`UpdateRegion::spec_of_xochitl`], which is
//! what makes the wire round trip an identity on regions.

use vstd::prelude::*;

use crate::mxcfb::{mxcfb_alt_buffer_data, mxcfb_rect, mxcfb_update_data};
use crate::swtfb_client::{xochitl_data, HEIGHT, WIDTH};

verus! {

/// One display update request: a rectangle in pixel coordinates with the
/// right and bottom edges exclusive, the waveform to refresh it with, and
/// update flags.
#[derive(Clone, Copy, Debug, PartialEq, Eq, Structural)]
pub struct UpdateRegion {
    pub x1: u32,
    pub y1: u32,
    pub x2: u32,
    pub y2: u32,
    pub waveform: u32,
    pub flags: u32,
}

impl UpdateRegion {
    /// A region is valid when it lies within the panel and covers at least
    /// one pixel; waveform and flags must fit the signed wire words.
    pub open spec fn valid(self) -> bool {
        &&& self.x1 < self.x2 <= WIDTH as u32
        &&& self.y1 < self.y2 <= HEIGHT as u32
        &&& self.waveform < 0x8000_0000
        &&& self.flags < 0x8000_0000
    }

    /// Build a region, rejecting exactly the invalid ones: out-of-panel
    /// coordinates, zero-area rectangles, and oversized waveform or flag
    /// words.
    pub fn new(x1: u32, y1: u32, x2: u32, y2: u32, waveform: u32, flags: u32) -> (r: Option<
        UpdateRegion,
    >)
        ensures
            r is Some <==> (UpdateRegion { x1, y1, x2, y2, waveform, flags }).valid(),
            match r {
                Some(reg) => reg == UpdateRegion { x1, y1, x2, y2, waveform, flags },
                None => true,
            },
    {
        if x1 < x2 && x2 <= WIDTH as u32 && y1 < y2 && y2 <= HEIGHT as u32 && waveform
            < 0x8000_0000 && flags < 0x8000_0000 {
            Some(UpdateRegion { x1, y1, x2, y2, waveform, flags })
        } else {
            None
        }
    }

    /// The coordinate wire payload of this region.
    pub open spec fn spec_xochitl(self) -> xochitl_data {
        xochitl_data {
            x1: self.x1 as i32,
            y1: self.y1 as i32,
            x2: self.x2 as i32,
            y2: self.y2 as i32,
            waveform: self.waveform as i32,
            flags: self.flags as i32,
        }
    }

    /// The region a coordinate wire payload describes.
    pub open spec fn spec_of_xochitl(d: xochitl_data) -> UpdateRegion {
        UpdateRegion {
            x1: d.x1 as u32,
            y1: d.y1 as u32,
            x2: d.x2 as u32,
            y2: d.y2 as u32,
            waveform: d.waveform as u32,
            flags: d.flags as u32,
        }
    }

    /// Convert the region into the coordinate wire payload.
    pub fn to_xochitl(&self) -> (d: xochitl_data)
        requires
            self.valid(),
        ensures
            d == self.spec_xochitl(),
    {
        xochitl_data {
            x1: self.x1 as i32,
            y1: self.y1 as i32,
            x2: self.x2 as i32,
            y2: self.y2 as i32,
            waveform: self.waveform as i32,
            flags: self.flags as i32,
        }
    }

    /// The kernel rectangle of this region: origin and extent.
    pub open spec fn spec_rect(self) -> mxcfb_rect {
        mxcfb_rect {
            top: self.y1,
            left: self.x1,
            width: (self.x2 - self.x1) as u32,
            height: (self.y2 - self.y1) as u32,
        }
    }

    /// Convert the region into the kernel rectangle form.
    pub fn to_rect(&self) -> (r: mxcfb_rect)
        requires
            self.valid(),
        ensures
            r == self.spec_rect(),
    {
        mxcfb_rect {
            top: self.y1,
            left: self.x1,
            width: self.x2 - self.x1,
            height: self.y2 - self.y1,
        }
    }

    /// Build the full kernel update record for this region: the rectangle,
    /// this region's waveform and flags, and the given mode, correlation
    /// marker and temperature; no alternate buffer.
    pub fn to_mxcfb(&self, update_mode: u32, update_marker: u32, temp: i32) -> (u:
        mxcfb_update_data)
        requires
            self.valid(),
        ensures
            u.update_region == self.spec_rect(),
            u.waveform_mode == self.waveform,
            u.update_mode == update_mode,
            u.update_marker == update_marker,
            u.temp == temp,
            u.flags == self.flags,
            u.dither_mode == 0,
            u.quant_bit == 0,
            u.alt_buffer_data == spec_no_alt_buffer(),
    {
        mxcfb_update_data {
            update_region: self.to_rect(),
            waveform_mode: self.waveform,
            update_mode,
            update_marker,
            temp,
            flags: self.flags,
            dither_mode: 0,
            quant_bit: 0,
            alt_buffer_data: mxcfb_alt_buffer_data {
                phys_addr: 0,
                width: 0,
                height: 0,
                alt_update_region: mxcfb_rect { top: 0, left: 0, width: 0, height: 0 },
            },
        }
    }
}

/// The all-zero alternate-buffer descriptor: no alternate buffer.
pub open spec fn spec_no_alt_buffer() -> mxcfb_alt_buffer_data {
    mxcfb_alt_buffer_data {
        phys_addr: 0,
        width: 0,
        height: 0,
        alt_update_region: mxcfb_rect { top: 0, left: 0, width: 0, height: 0 },
    }
}

/// Converting a valid region to the coordinate payload and back is the
/// identity: no coordinate, waveform or flag value is lost on the wire.
pub proof fn lemma_region_xochitl_id(r: UpdateRegion)
    requires
        r.valid(),
    ensures
        UpdateRegion::spec_of_xochitl(r.spec_xochitl()) == r,
{
    lemma_u32_i32_id(r.x1);
    lemma_u32_i32_id(r.y1);
    lemma_u32_i32_id(r.x2);
    lemma_u32_i32_id(r.y2);
    lemma_u32_i32_id(r.waveform);
    lemma_u32_i32_id(r.flags);
}

/// Round-trip law for update regions: a well-formed message whose encoding
/// matches the encoded coordinate message of a valid region carries exactly
/// that region, waveform and flags.  Together with the contracts of
/// `swtfb_update::encode` and `decode`, marshalling a valid region and
/// unmarshalling the bytes yields the identical region.
pub proof fn lemma_region_round_trip(r: UpdateRegion, m2: crate::swtfb_client::swtfb_update)
    requires
        r.valid(),
        m2.wf(),
        m2.spec_encode() == (crate::swtfb_client::swtfb_update {
            mtype: crate::swtfb_client::MSG_TYPE::XO_t,
            data: crate::swtfb_client::swtfb_update_data::XochitlUpdate(r.spec_xochitl()),
        }).spec_encode(),
    ensures
        m2.mtype == crate::swtfb_client::MSG_TYPE::XO_t,
        m2.data == crate::swtfb_client::swtfb_update_data::XochitlUpdate(r.spec_xochitl()),
        UpdateRegion::spec_of_xochitl(m2.data->XochitlUpdate_0) == r,
{
    let m = crate::swtfb_client::swtfb_update {
        mtype: crate::swtfb_client::MSG_TYPE::XO_t,
        data: crate::swtfb_client::swtfb_update_data::XochitlUpdate(r.spec_xochitl()),
    };
    crate::swtfb_client::lemma_encode_injective(m2, m);
    lemma_region_xochitl_id(r);
}

/// Casting a non-negative 32-bit value to signed and back is the identity.
proof fn lemma_u32_i32_id(x: u32)
    requires
        x < 0x8000_0000,
    ensures
        (x as i32) as u32 == x,
{
    assert(x < 0x8000_0000 ==> (x as i32) as u32 == x) by (bit_vector);
}

} // verus!
