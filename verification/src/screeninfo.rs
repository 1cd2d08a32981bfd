//! Screen-geometry records mirroring the kernel's fixed and variable
//! screen-info structures.
//!
//! The fixed part holds memory facts (buffer length, line stride), the
//! variable part resolution, per-channel bit layout, rotation and panel
//! timing.  Only the logically meaningful kernel fields are modelled here;
//! the unverified shell keeps byte-exact `#[repr(C)]` copies for the ioctl
//! calls and converts to and from these records.

use vstd::prelude::*;

verus! {

/// Bit placement of one colour channel inside a pixel word.
#[derive(Clone, Copy, Debug, PartialEq, Eq, Structural)]
pub struct Bitfield {
    pub offset: u32,
    pub length: u32,
    pub msb_right: u32,
}

impl Bitfield {
    /// The all-zero channel descriptor.
    pub open spec fn spec_zeroed() -> Bitfield {
        Bitfield { offset: 0, length: 0, msb_right: 0 }
    }

    /// Build the all-zero channel descriptor.
    pub fn zeroed() -> (r: Bitfield)
        ensures
            r == Bitfield::spec_zeroed(),
    {
        Bitfield { offset: 0, length: 0, msb_right: 0 }
    }
}

/// The variable part of the screen geometry: resolution, pixel format,
/// rotation and panel timing.  Mirrors the kernel record of the same role.
#[derive(Clone, Copy, Debug, PartialEq, Eq, Structural)]
pub struct VarScreeninfo {
    pub xres: u32,
    pub yres: u32,
    pub xres_virtual: u32,
    pub yres_virtual: u32,
    pub xoffset: u32,
    pub yoffset: u32,
    pub bits_per_pixel: u32,
    pub grayscale: u32,
    pub red: Bitfield,
    pub green: Bitfield,
    pub blue: Bitfield,
    pub transp: Bitfield,
    pub nonstd: u32,
    pub activate: u32,
    pub height: u32,
    pub width: u32,
    pub accel_flags: u32,
    pub pixclock: u32,
    pub left_margin: u32,
    pub right_margin: u32,
    pub upper_margin: u32,
    pub lower_margin: u32,
    pub hsync_len: u32,
    pub vsync_len: u32,
    pub sync: u32,
    pub vmode: u32,
    pub rotate: u32,
    pub colorspace: u32,
}

impl VarScreeninfo {
    /// The all-zero variable geometry.
    pub open spec fn spec_zeroed() -> VarScreeninfo {
        VarScreeninfo {
            xres: 0,
            yres: 0,
            xres_virtual: 0,
            yres_virtual: 0,
            xoffset: 0,
            yoffset: 0,
            bits_per_pixel: 0,
            grayscale: 0,
            red: Bitfield::spec_zeroed(),
            green: Bitfield::spec_zeroed(),
            blue: Bitfield::spec_zeroed(),
            transp: Bitfield::spec_zeroed(),
            nonstd: 0,
            activate: 0,
            height: 0,
            width: 0,
            accel_flags: 0,
            pixclock: 0,
            left_margin: 0,
            right_margin: 0,
            upper_margin: 0,
            lower_margin: 0,
            hsync_len: 0,
            vsync_len: 0,
            sync: 0,
            vmode: 0,
            rotate: 0,
            colorspace: 0,
        }
    }

    /// Build the all-zero variable geometry.
    pub fn zeroed() -> (r: VarScreeninfo)
        ensures
            r == VarScreeninfo::spec_zeroed(),
    {
        VarScreeninfo {
            xres: 0,
            yres: 0,
            xres_virtual: 0,
            yres_virtual: 0,
            xoffset: 0,
            yoffset: 0,
            bits_per_pixel: 0,
            grayscale: 0,
            red: Bitfield::zeroed(),
            green: Bitfield::zeroed(),
            blue: Bitfield::zeroed(),
            transp: Bitfield::zeroed(),
            nonstd: 0,
            activate: 0,
            height: 0,
            width: 0,
            accel_flags: 0,
            pixclock: 0,
            left_margin: 0,
            right_margin: 0,
            upper_margin: 0,
            lower_margin: 0,
            hsync_len: 0,
            vsync_len: 0,
            sync: 0,
            vmode: 0,
            rotate: 0,
            colorspace: 0,
        }
    }
}

/// The fixed part of the screen geometry: buffer placement, length and line
/// stride.  Mirrors the kernel record of the same role.
#[derive(Clone, Copy, Debug, PartialEq, Eq, Structural)]
pub struct FixScreeninfo {
    pub smem_start: u32,
    pub smem_len: u32,
    pub fb_type: u32,
    pub type_aux: u32,
    pub visual: u32,
    pub xpanstep: u16,
    pub ypanstep: u16,
    pub ywrapstep: u16,
    pub line_length: u32,
    pub mmio_start: u32,
    pub mmio_len: u32,
    pub accel: u32,
}

impl FixScreeninfo {
    /// The all-zero fixed geometry.
    pub open spec fn spec_zeroed() -> FixScreeninfo {
        FixScreeninfo {
            smem_start: 0,
            smem_len: 0,
            fb_type: 0,
            type_aux: 0,
            visual: 0,
            xpanstep: 0,
            ypanstep: 0,
            ywrapstep: 0,
            line_length: 0,
            mmio_start: 0,
            mmio_len: 0,
            accel: 0,
        }
    }

    /// Build the all-zero fixed geometry.
    pub fn zeroed() -> (r: FixScreeninfo)
        ensures
            r == FixScreeninfo::spec_zeroed(),
    {
        FixScreeninfo {
            smem_start: 0,
            smem_len: 0,
            fb_type: 0,
            type_aux: 0,
            visual: 0,
            xpanstep: 0,
            ypanstep: 0,
            ywrapstep: 0,
            line_length: 0,
            mmio_start: 0,
            mmio_len: 0,
            accel: 0,
        }
    }
}

} // verus!
