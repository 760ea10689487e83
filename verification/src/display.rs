use vstd::prelude::*;
use crate::lvgl::Lvgl;
use crate::lvgl::spec_fresh_object;
use crate::obj::Obj;
use crate::screen::Screen;
use crate::support::Color;

verus! {

/// The engine-side record of the one registered display.
#[derive(Copy, Clone, Eq, PartialEq, Structural, Debug)]
pub struct DisplayConfig {
    /// Horizontal resolution in pixels.
    pub hor_res: i16,
    /// Vertical resolution in pixels.
    pub ver_res: i16,
    /// Length, in pixels, of the caller-owned scratch draw buffer.
    pub draw_buffer_len: usize,
    /// The node whose tree is currently shown.
    pub active_screen: usize,
}

/// One dirty rectangle a flush covers, by its corner coordinates, both
/// inclusive, as the native area record gives them.
#[derive(Copy, Clone, Eq, PartialEq, Structural, Debug)]
pub struct Area {
    pub x1: i16,
    pub y1: i16,
    pub x2: i16,
    pub y2: i16,
}

impl Area {
    /// Corners in order: the area covers at least one pixel.
    pub open spec fn wf(self) -> bool {
        self.x1 <= self.x2 && self.y1 <= self.y2
    }

    pub open spec fn spec_width(self) -> int {
        self.x2 - self.x1 + 1
    }

    pub open spec fn spec_height(self) -> int {
        self.y2 - self.y1 + 1
    }

    /// How many pixels the area covers.
    pub open spec fn spec_pixel_count(self) -> int {
        self.spec_width() * self.spec_height()
    }

    /// Builds an area from its two corners.
    pub fn with_corners(x1: i16, y1: i16, x2: i16, y2: i16) -> (a: Area)
        ensures
            a == (Area { x1, y1, x2, y2 }),
    {
        Area { x1, y1, x2, y2 }
    }

    /// How many pixels the area covers.
    pub fn pixel_count(&self) -> (n: usize)
        requires
            self.wf(),
            self.spec_pixel_count() <= usize::MAX,
        ensures
            n == self.spec_pixel_count(),
    {
        let w = (self.x2 as i32 - self.x1 as i32 + 1) as usize;
        let h = (self.y2 as i32 - self.y1 as i32 + 1) as usize;
        proof {
            assert(w * h == self.spec_pixel_count()) by (nonlinear_arith)
                requires
                    w == self.spec_width(),
                    h == self.spec_height(),
            ;
        }
        w * h
    }
}

/// The computing half of the flush callback: from the engine's output
/// buffer and the dirty rectangle, the run of pixels the pixel sink must
/// receive — exactly width times height of them, identical to the buffer
/// contents in row-major order.
pub fn flush_pixels(area: &Area, buffer: &Vec<Color>) -> (pixels: Vec<Color>)
    requires
        area.wf(),
        buffer@.len() >= area.spec_pixel_count(),
    ensures
        pixels@ == buffer@.subrange(0, area.spec_pixel_count()),
{
    let buffer_len = buffer.len();
    proof {
        assert(area.spec_pixel_count() <= buffer_len);
    }
    let n = area.pixel_count();
    let mut pixels: Vec<Color> = Vec::new();
    let mut i: usize = 0;
    while i < n
        invariant
            i <= n,
            n == area.spec_pixel_count(),
            buffer@.len() >= n,
            pixels@ == buffer@.subrange(0, i as int),
        decreases n - i,
    {
        pixels.push(buffer[i]);
        proof {
            assert(pixels@ =~= buffer@.subrange(0, i + 1));
        }
        i = i + 1;
    }
    pixels
}

/// A display binding: the host's pixel sink, bound to the engine's one
/// display-driver slot. The binding holds the sink at a stable place for
/// the whole registration lifetime; resolution and buffer length live in
/// the engine-side record.
pub struct Display<T> {
    pub sink: T,
}

impl<T> Display<T> {
    /// Registers the one display: records its resolution and draw buffer
    /// length, takes ownership of the pixel sink, and creates the initial
    /// active screen node. The resolution is the sink's size, handed in as
    /// plain values.
    pub fn new(lv: &mut Lvgl, sink: T, hor_res: i16, ver_res: i16, draw_buffer_len: usize) -> (d:
        Display<T>)
        requires
            old(lv).initialized,
            old(lv).display is None,
            hor_res > 0,
            ver_res > 0,
            draw_buffer_len > 0,
        ensures
            d.sink == sink,
            final(lv).display == Some(
                DisplayConfig {
                    hor_res,
                    ver_res,
                    draw_buffer_len,
                    active_screen: old(lv).objects@.len() as usize,
                },
            ),
            final(lv).objects@.len() == old(lv).objects@.len() + 1,
            final(lv).objects@.subrange(0, old(lv).objects@.len() as int) == old(lv).objects@,
            spec_fresh_object(final(lv).objects@[old(lv).objects@.len() as int], None),
            *final(lv) == (Lvgl {
                objects: final(lv).objects,
                display: final(lv).display,
                ..*old(lv)
            }),
            crate::lvgl::spec_engine_wf(*old(lv)) ==> crate::lvgl::spec_engine_wf(*final(lv)),
    {
        let screen = lv.create_object(None);
        lv.display = Some(
            DisplayConfig { hor_res, ver_res, draw_buffer_len, active_screen: screen.id },
        );
        Display { sink }
    }

    /// The currently active screen node of this display.
    pub fn screen(&self, lv: &Lvgl) -> (o: Obj)
        requires
            lv.display is Some,
        ensures
            o.id == lv.display->Some_0.active_screen,
    {
        match &lv.display {
            Some(d) => Obj { id: d.active_screen },
            None => Obj { id: 0 },
        }
    }

    /// Makes `screen` the display's active screen.
    pub fn load_screen<C>(&mut self, lv: &mut Lvgl, screen: &Screen<C>)
        requires
            old(lv).display is Some,
            screen.obj.id < old(lv).objects@.len(),
        ensures
            final(lv).display == Some(
                DisplayConfig { active_screen: screen.obj.id, ..old(lv).display->Some_0 },
            ),
            *final(lv) == (Lvgl { display: final(lv).display, ..*old(lv) }),
            *final(self) == *old(self),
            crate::lvgl::spec_engine_wf(*old(lv)) ==> crate::lvgl::spec_engine_wf(*final(lv)),
    {
        let cfg = match &lv.display {
            Some(d) => *d,
            None => {
                proof {
                    assert(false);
                }
                unreached()
            },
        };
        lv.display = Some(DisplayConfig { active_screen: screen.obj.id, ..cfg });
    }

    /// The pixel sink this display writes to.
    pub fn sink(&self) -> (r: &T)
        ensures
            *r == self.sink,
    {
        &self.sink
    }

    /// The pixel sink, for the host to drive directly.
    pub fn sink_mut(&mut self) -> (r: &mut T)
        ensures
            *r == old(self).sink,
            final(self).sink == *final(r),
    {
        &mut self.sink
    }
}

impl Lvgl {
    /// Registers the one display; resolution and buffer length as in
    /// `Display::new`, which this forwards to.
    pub fn register_display<T>(
        &mut self,
        draw_buffer_len: usize,
        hor_res: i16,
        ver_res: i16,
        sink: T,
    ) -> (d: Display<T>)
        requires
            old(self).initialized,
            old(self).display is None,
            hor_res > 0,
            ver_res > 0,
            draw_buffer_len > 0,
        ensures
            d.sink == sink,
            final(self).display == Some(
                DisplayConfig {
                    hor_res,
                    ver_res,
                    draw_buffer_len,
                    active_screen: old(self).objects@.len() as usize,
                },
            ),
            final(self).objects@.len() == old(self).objects@.len() + 1,
            final(self).objects@.subrange(0, old(self).objects@.len() as int) == old(
                self,
            ).objects@,
            spec_fresh_object(final(self).objects@[old(self).objects@.len() as int], None),
            *final(self) == (Lvgl {
                objects: final(self).objects,
                display: final(self).display,
                ..*old(self)
            }),
            crate::lvgl::spec_engine_wf(*old(self)) ==> crate::lvgl::spec_engine_wf(*final(self)),
    {
        Display::new(self, sink, hor_res, ver_res, draw_buffer_len)
    }

    /// The active display's horizontal resolution, or zero while no
    /// display is registered.
    pub fn disp_get_hor_res(&self) -> (r: i16)
        ensures
            r == (match self.display {
                Some(d) => d.hor_res,
                None => 0i16,
            }),
    {
        match &self.display {
            Some(d) => d.hor_res,
            None => 0,
        }
    }

    /// The active display's vertical resolution, or zero while no display
    /// is registered.
    pub fn disp_get_ver_res(&self) -> (r: i16)
        ensures
            r == (match self.display {
                Some(d) => d.ver_res,
                None => 0i16,
            }),
    {
        match &self.display {
            Some(d) => d.ver_res,
            None => 0,
        }
    }

    /// Signals the engine that the flush of one dirty rectangle is
    /// complete. The signal is given exactly once per flush callback,
    /// whatever the sink write's outcome was: the engine's flush protocol
    /// has no failure channel, so a failed write is dropped silently.
    pub fn flush_ready(&mut self, write_succeeded: bool)
        requires
            old(self).display is Some,
            old(self).flush_ready_count < u64::MAX,
        ensures
            *final(self) == (Lvgl {
                flush_ready_count: (old(self).flush_ready_count + 1) as u64,
                ..*old(self)
            }),
    {
        let _ = write_succeeded;
        self.flush_ready_count = self.flush_ready_count + 1;
    }
}

} // verus!
