//! State of the first hardware generation's direct framebuffer backend.
//!
//! That backend owns an open device file and a memory mapping of the display
//! buffer; both live in the unverified shell, together with the ioctl calls
//! themselves.  This module holds everything the backend decides and
//! remembers: the ioctl request codes, the fixed panel configuration written
//! at start-up, the buffer-length computation, the cached geometry with its
//! stride-fits-the-mapping invariant, and the monotonically increasing update
//! marker that correlates updates with completion waits.

use vstd::prelude::*;

use crate::screeninfo::{FixScreeninfo, VarScreeninfo};

verus! {

/// ioctl request code: query the fixed screen geometry.
pub const FBIOGET_FSCREENINFO: u32 = 0x4602;

/// ioctl request code: query the variable screen geometry.
pub const FBIOGET_VSCREENINFO: u32 = 0x4600;

/// ioctl request code: write the variable screen geometry.
pub const FBIOPUT_VSCREENINFO: u32 = 0x4601;

/// ioctl request code: let the EPDC hardware own the buffer again.
pub const MXCFB_ENABLE_EPDC_ACCESS: u32 = 0x4635;

/// ioctl request code: take the buffer away from the EPDC hardware.
pub const MXCFB_DISABLE_EPDC_ACCESS: u32 = 0x4636;

/// ioctl request code: set the autonomous-refresh mode (one 32-bit word).
pub const MXCFB_SET_AUTO_UPDATE_MODE: u32 = 0x4004_462d;

/// ioctl request code: set the update scheme (one 32-bit word).
pub const MXCFB_SET_UPDATE_SCHEME: u32 = 0x4004_4632;

/// Direct-backend state: the update-marker counter and the cached geometry,
/// with the length of the established display mapping.
///
/// The device handle and the mapping itself belong to the unverified shell;
/// `frame_len` records how many bytes that mapping covers, and the invariant
/// keeps the cached stride and height inside it, so no geometry this type
/// hands out ever indexes past the mapped buffer.
pub struct Gen1 {
    pub marker: u32,
    pub var_screen_info: VarScreeninfo,
    pub fix_screen_info: FixScreeninfo,
    pub frame_len: usize,
}

/// The fixed panel configuration the backend writes over the device's
/// current variable geometry at start-up: explicit resolution, rotation and
/// the timing constants of the physical panel; everything else is kept.
pub open spec fn panel_config_spec(cur: VarScreeninfo) -> VarScreeninfo {
    VarScreeninfo {
        xres: 1404,
        yres: 1872,
        rotate: 1,
        width: 0xffff_ffff,
        height: 0xffff_ffff,
        pixclock: 6250,
        left_margin: 32,
        right_margin: 326,
        upper_margin: 4,
        lower_margin: 12,
        hsync_len: 44,
        vsync_len: 1,
        sync: 0,
        vmode: 0,
        accel_flags: 0,
        xres_virtual: cur.xres_virtual,
        yres_virtual: cur.yres_virtual,
        xoffset: cur.xoffset,
        yoffset: cur.yoffset,
        bits_per_pixel: cur.bits_per_pixel,
        grayscale: cur.grayscale,
        red: cur.red,
        green: cur.green,
        blue: cur.blue,
        transp: cur.transp,
        nonstd: cur.nonstd,
        activate: cur.activate,
        colorspace: cur.colorspace,
    }
}

/// Overwrite a queried variable geometry with the fixed panel configuration.
pub fn panel_var_screeninfo(cur: &VarScreeninfo) -> (v: VarScreeninfo)
    ensures
        v == panel_config_spec(*cur),
{
    let mut v = *cur;
    v.xres = 1404;
    v.yres = 1872;
    v.rotate = 1;
    v.width = 0xffff_ffff;
    v.height = 0xffff_ffff;
    v.pixclock = 6250;
    v.left_margin = 32;
    v.right_margin = 326;
    v.upper_margin = 4;
    v.lower_margin = 12;
    v.hsync_len = 44;
    v.vsync_len = 1;
    v.sync = 0;
    v.vmode = 0;
    v.accel_flags = 0;
    v
}

/// Length in bytes of the display buffer: the line stride times the number
/// of lines.
pub fn frame_length(fix: &FixScreeninfo, var: &VarScreeninfo) -> (r: usize)
    requires
        fix.line_length * var.yres <= usize::MAX,
    ensures
        r == fix.line_length * var.yres,
{
    (fix.line_length as usize) * (var.yres as usize)
}

/// Relation between the backend state before and after drawing one update
/// marker: the returned marker is the old counter value and the counter has
/// advanced by exactly one, everything else unchanged.
pub open spec fn next_marker_rel(pre: Gen1, post: Gen1, m: u32) -> bool {
    &&& pre.marker < 0xffff_ffff
    &&& m == pre.marker
    &&& post.marker == pre.marker + 1
    &&& post.var_screen_info == pre.var_screen_info
    &&& post.fix_screen_info == pre.fix_screen_info
    &&& post.frame_len == pre.frame_len
}

impl Gen1 {
    /// The cached geometry fits the established mapping: indexing
    /// `line_length` bytes per line for `yres` lines stays inside it.
    pub open spec fn wf(self) -> bool {
        self.fix_screen_info.line_length * self.var_screen_info.yres <= self.frame_len
    }

    /// Adopt the geometry read back from the device and the length of the
    /// mapping the shell established over it.  The first update marker is 1.
    pub fn new(var_screen_info: VarScreeninfo, fix_screen_info: FixScreeninfo, frame_len: usize)
        -> (g: Gen1)
        requires
            fix_screen_info.line_length * var_screen_info.yres <= frame_len,
        ensures
            g.wf(),
            g.marker == 1,
            g.var_screen_info == var_screen_info,
            g.fix_screen_info == fix_screen_info,
            g.frame_len == frame_len,
    {
        Gen1 { marker: 1, var_screen_info, fix_screen_info, frame_len }
    }

    /// Draw the next update marker: returns the current counter value and
    /// advances the counter, so every update gets its own marker.
    pub fn next_marker(&mut self) -> (m: u32)
        requires
            old(self).marker < 0xffff_ffff,
        ensures
            next_marker_rel(*old(self), *final(self), m),
    {
        let m = self.marker;
        self.marker = self.marker + 1;
        m
    }

    /// Record the outcome of writing a variable geometry to the device: the
    /// cache adopts the new geometry only when the device accepted it, so it
    /// always reflects the last successful write.
    ///
    /// A geometry whose stride and height outgrow the established mapping is
    /// excluded: the shell must remap before adopting such a geometry.
    pub fn note_apply_variable(&mut self, new_geom: &VarScreeninfo, accepted: bool) -> (r: bool)
        requires
            accepted ==> old(self).fix_screen_info.line_length * new_geom.yres <= old(
                self,
            ).frame_len,
            old(self).wf(),
        ensures
            r == accepted,
            final(self).wf(),
            accepted ==> final(self).var_screen_info == *new_geom,
            !accepted ==> final(self).var_screen_info == old(self).var_screen_info,
            final(self).marker == old(self).marker,
            final(self).fix_screen_info == old(self).fix_screen_info,
            final(self).frame_len == old(self).frame_len,
    {
        if accepted {
            self.var_screen_info = *new_geom;
        }
        accepted
    }
}

/// Choose the EPDC-access ioctl code: enable when the hardware is to own the
/// buffer, disable when software is.
pub fn epdc_access_code(enabled: bool) -> (r: u32)
    ensures
        r == if enabled {
            MXCFB_ENABLE_EPDC_ACCESS
        } else {
            MXCFB_DISABLE_EPDC_ACCESS
        },
{
    if enabled {
        MXCFB_ENABLE_EPDC_ACCESS
    } else {
        MXCFB_DISABLE_EPDC_ACCESS
    }
}

/// Two successive updates on one backend instance observe strictly
/// increasing markers: no two updates share a marker value.
pub proof fn lemma_markers_strictly_increase(g0: Gen1, g1: Gen1, g2: Gen1, m1: u32, m2: u32)
    requires
        next_marker_rel(g0, g1, m1),
        next_marker_rel(g1, g2, m2),
    ensures
        m1 < m2,
{
}

} // verus!
