use vstd::prelude::*;

verus! {

/// Display timing of a panel, in pixels and lines, as DRM describes a mode.
#[derive(Clone, Copy, Debug, PartialEq, Eq, Structural)]
pub struct Mode {
    pub clock: u32,
    pub hdisplay: u32,
    pub hsync_start: u32,
    pub hsync_end: u32,
    pub htotal: u32,
    pub vdisplay: u32,
    pub vsync_start: u32,
    pub vsync_end: u32,
    pub vtotal: u32,
    pub width_mm: u32,
    pub height_mm: u32,
}

impl Mode {
    /// The lines from the end of vertical sync to the end of the frame, and
    /// from the end of the visible area to the start of sync, are both
    /// non-negative and fit in a parameter byte.
    pub open spec fn vertical_porches_fit(self) -> bool {
        &&& self.vsync_end <= self.vtotal
        &&& self.vtotal - self.vsync_end <= 0xFF
        &&& self.vdisplay <= self.vsync_start
        &&& self.vsync_start - self.vdisplay <= 0xFF
    }

    /// The pixels from the end of horizontal sync to the end of the line are
    /// non-negative and fit in a parameter byte.
    pub open spec fn horizontal_back_porch_fits(self) -> bool {
        &&& self.hsync_end <= self.htotal
        &&& self.htotal - self.hsync_end <= 0xFF
    }

    /// The timing that the Linux kernel driver uses for this panel.
    pub fn default_mode() -> (r: Mode)
        ensures
            r == (Mode {
                clock: 27500,
                hdisplay: 480,
                hsync_start: 518,
                hsync_end: 530,
                htotal: 542,
                vdisplay: 854,
                vsync_start: 872,
                vsync_end: 880,
                vtotal: 884,
                width_mm: 69,
                height_mm: 139,
            }),
    {
        Mode {
            clock: 27500,
            hdisplay: 480,
            hsync_start: 480 + 38,
            hsync_end: 480 + 38 + 12,
            htotal: 480 + 38 + 12 + 12,
            vdisplay: 854,
            vsync_start: 854 + 18,
            vsync_end: 854 + 18 + 8,
            vtotal: 854 + 18 + 8 + 4,
            width_mm: 69,
            height_mm: 139,
        }
    }

    /// The timing of the 480x480 TDO panel.
    pub fn tdo_mode() -> (r: Mode)
        ensures
            r == (Mode {
                clock: 16000,
                hdisplay: 480,
                hsync_start: 504,
                hsync_end: 510,
                htotal: 528,
                vdisplay: 480,
                vsync_start: 496,
                vsync_end: 500,
                vtotal: 510,
                width_mm: 69,
                height_mm: 139,
            }),
    {
        Mode {
            clock: 16000,
            hdisplay: 480,
            hsync_start: 480 + 24,
            hsync_end: 480 + 24 + 6,
            htotal: 480 + 24 + 6 + 18,
            vdisplay: 480,
            vsync_start: 480 + 16,
            vsync_end: 480 + 16 + 4,
            vtotal: 480 + 16 + 4 + 10,
            width_mm: 69,
            height_mm: 139,
        }
    }

    /// A 480x480 timing after the VESA coordinated video timings.
    pub fn cvt_mode() -> (r: Mode)
        ensures
            r == (Mode {
                clock: 17000,
                hdisplay: 480,
                hsync_start: 488,
                hsync_end: 536,
                htotal: 592,
                vdisplay: 480,
                vsync_start: 481,
                vsync_end: 484,
                vtotal: 497,
                width_mm: 69,
                height_mm: 139,
            }),
    {
        Mode {
            clock: 17000,
            hdisplay: 480,
            hsync_start: 480 + 8,
            hsync_end: 480 + 8 + 48,
            htotal: 480 + 8 + 48 + 56,
            vdisplay: 480,
            vsync_start: 480 + 1,
            vsync_end: 480 + 1 + 3,
            vtotal: 480 + 1 + 3 + 13,
            width_mm: 69,
            height_mm: 139,
        }
    }

    /// A timing after the VESA coordinated video timings with reduced
    /// blanking.
    pub fn cvt_rb_mode() -> (r: Mode)
        ensures
            r == (Mode {
                clock: 23500,
                hdisplay: 640,
                hsync_start: 488,
                hsync_end: 520,
                htotal: 560,
                vdisplay: 480,
                vsync_start: 494,
                vsync_end: 497,
                vtotal: 501,
                width_mm: 69,
                height_mm: 139,
            }),
    {
        Mode {
            clock: 23500,
            hdisplay: 640,
            hsync_start: 480 + 8,
            hsync_end: 480 + 8 + 32,
            htotal: 480 + 8 + 32 + 40,
            vdisplay: 480,
            vsync_start: 480 + 14,
            vsync_end: 480 + 14 + 3,
            vtotal: 480 + 14 + 3 + 4,
            width_mm: 69,
            height_mm: 139,
        }
    }
}

} // verus!
