use vstd::prelude::*;
use crate::event::Event;
use crate::lvgl::Lvgl;
use crate::style::Align;
use crate::style::Flag;
use crate::style::GridAlign;
use crate::style::State;
use crate::style::Style;

verus! {

/// Placement of an object inside a grid cell, as handed to the native
/// grid-layout entry point.
#[derive(Copy, Clone, Eq, PartialEq, Structural, Debug)]
pub struct GridCell {
    pub column_align: GridAlign,
    pub col_pos: u8,
    pub col_span: u8,
    pub row_align: GridAlign,
    pub row_pos: u8,
    pub row_span: u8,
}

/// Placement of an object relative to a base object, as handed to the
/// native alignment entry point.
#[derive(Copy, Clone, Eq, PartialEq, Structural, Debug)]
pub struct AlignSpec {
    pub base: usize,
    pub align: Align,
    pub x_mod: i16,
    pub y_mod: i16,
}

/// One node of the engine's widget tree, as the binding layer observes it:
/// the attributes that the thin forwarding operations write. The engine
/// owns every node; the binding never frees one, so a record, once created,
/// stays for the engine's whole lifetime and its index never moves.
pub struct ObjectRec {
    /// Index of the parent node; a parent always has a smaller index than
    /// its children, because a child is created after its parent.
    pub parent: Option<usize>,
    pub flags: u32,
    pub state: u16,
    pub x: i16,
    pub y: i16,
    pub width: i16,
    pub height: i16,
    pub grid_cell: Option<GridCell>,
    pub align: Option<AlignSpec>,
    /// Selectors of the styles attached to this node, in attachment order.
    pub styles: Vec<u32>,
}

/// A non-owning, copyable handle to one native widget node. The engine
/// owns the node itself; the handle is only the node's identity.
#[derive(Copy, Clone, Eq, PartialEq, Structural, Debug)]
pub struct Obj {
    pub id: usize,
}

/// Anything that stands for one native widget node — the base handle, and
/// whatever wrapper types a host builds around it.
pub trait NativeObject {
    /// The node this value stands for.
    spec fn spec_raw(&self) -> Obj;

    /// Common access to the underlying node handle.
    fn raw(&self) -> (o: Obj)
        ensures
            o == self.spec_raw(),
    ;
}

impl NativeObject for Obj {
    open spec fn spec_raw(&self) -> Obj {
        *self
    }

    fn raw(&self) -> Obj {
        *self
    }
}

impl Obj {
    /// Wraps a raw node identity in a handle.
    pub fn from_raw(id: usize) -> (o: Obj)
        ensures
            o.id == id,
    {
        Obj { id }
    }

    /// Moves the object to a position relative to its parent.
    pub fn set_pos(&self, lv: &mut Lvgl, x: i16, y: i16)
        requires
            self.id < old(lv).objects@.len(),
        ensures
            final(lv).objects@ == old(lv).objects@.update(
                self.id as int,
                ObjectRec { x, y, ..old(lv).objects@[self.id as int] },
            ),
            *final(lv) == (Lvgl { objects: final(lv).objects, ..*old(lv) }),
            crate::lvgl::spec_engine_wf(*old(lv)) ==> crate::lvgl::spec_engine_wf(*final(lv)),
    {
        let rec = &mut lv.objects[self.id];
        rec.x = x;
        rec.y = y;
    }

    /// Sets the object's width and height.
    pub fn set_size(&self, lv: &mut Lvgl, w: i16, h: i16)
        requires
            self.id < old(lv).objects@.len(),
        ensures
            final(lv).objects@ == old(lv).objects@.update(
                self.id as int,
                ObjectRec { width: w, height: h, ..old(lv).objects@[self.id as int] },
            ),
            *final(lv) == (Lvgl { objects: final(lv).objects, ..*old(lv) }),
            crate::lvgl::spec_engine_wf(*old(lv)) ==> crate::lvgl::spec_engine_wf(*final(lv)),
    {
        let rec = &mut lv.objects[self.id];
        rec.width = w;
        rec.height = h;
    }

    /// Sets the object's width.
    pub fn set_width(&self, lv: &mut Lvgl, w: i16)
        requires
            self.id < old(lv).objects@.len(),
        ensures
            final(lv).objects@ == old(lv).objects@.update(
                self.id as int,
                ObjectRec { width: w, ..old(lv).objects@[self.id as int] },
            ),
            *final(lv) == (Lvgl { objects: final(lv).objects, ..*old(lv) }),
            crate::lvgl::spec_engine_wf(*old(lv)) ==> crate::lvgl::spec_engine_wf(*final(lv)),
    {
        let rec = &mut lv.objects[self.id];
        rec.width = w;
    }

    /// Sets the object's height.
    pub fn set_height(&self, lv: &mut Lvgl, h: i16)
        requires
            self.id < old(lv).objects@.len(),
        ensures
            final(lv).objects@ == old(lv).objects@.update(
                self.id as int,
                ObjectRec { height: h, ..old(lv).objects@[self.id as int] },
            ),
            *final(lv) == (Lvgl { objects: final(lv).objects, ..*old(lv) }),
            crate::lvgl::spec_engine_wf(*old(lv)) ==> crate::lvgl::spec_engine_wf(*final(lv)),
    {
        let rec = &mut lv.objects[self.id];
        rec.height = h;
    }

    /// Sets the given flag bits on the object. Setting the bubbling flag
    /// makes events raised on this object also reach its parent.
    pub fn add_flag(&self, lv: &mut Lvgl, flag: Flag)
        requires
            self.id < old(lv).objects@.len(),
        ensures
            final(lv).objects@ == old(lv).objects@.update(
                self.id as int,
                ObjectRec {
                    flags: old(lv).objects@[self.id as int].flags | flag.bits,
                    ..old(lv).objects@[self.id as int]
                },
            ),
            *final(lv) == (Lvgl { objects: final(lv).objects, ..*old(lv) }),
            crate::lvgl::spec_engine_wf(*old(lv)) ==> crate::lvgl::spec_engine_wf(*final(lv)),
    {
        let rec = &mut lv.objects[self.id];
        rec.flags = rec.flags | flag.bits;
    }

    /// Clears the given flag bits on the object.
    pub fn clear_flag(&self, lv: &mut Lvgl, flag: Flag)
        requires
            self.id < old(lv).objects@.len(),
        ensures
            final(lv).objects@ == old(lv).objects@.update(
                self.id as int,
                ObjectRec {
                    flags: old(lv).objects@[self.id as int].flags & !flag.bits,
                    ..old(lv).objects@[self.id as int]
                },
            ),
            *final(lv) == (Lvgl { objects: final(lv).objects, ..*old(lv) }),
            crate::lvgl::spec_engine_wf(*old(lv)) ==> crate::lvgl::spec_engine_wf(*final(lv)),
    {
        let rec = &mut lv.objects[self.id];
        rec.flags = rec.flags & !flag.bits;
    }

    /// Whether every one of the given flag bits is set on the object.
    pub fn has_flag(&self, lv: &Lvgl, flag: Flag) -> (r: bool)
        requires
            self.id < lv.objects@.len(),
        ensures
            r == (lv.objects@[self.id as int].flags & flag.bits == flag.bits),
    {
        lv.objects[self.id].flags & flag.bits == flag.bits
    }

    /// Sets the given state bits on the object.
    pub fn add_state(&self, lv: &mut Lvgl, state: State)
        requires
            self.id < old(lv).objects@.len(),
        ensures
            final(lv).objects@ == old(lv).objects@.update(
                self.id as int,
                ObjectRec {
                    state: old(lv).objects@[self.id as int].state | state.bits,
                    ..old(lv).objects@[self.id as int]
                },
            ),
            *final(lv) == (Lvgl { objects: final(lv).objects, ..*old(lv) }),
            crate::lvgl::spec_engine_wf(*old(lv)) ==> crate::lvgl::spec_engine_wf(*final(lv)),
    {
        let rec = &mut lv.objects[self.id];
        rec.state = rec.state | state.bits;
    }

    /// Clears the given state bits on the object.
    pub fn clear_state(&self, lv: &mut Lvgl, state: State)
        requires
            self.id < old(lv).objects@.len(),
        ensures
            final(lv).objects@ == old(lv).objects@.update(
                self.id as int,
                ObjectRec {
                    state: old(lv).objects@[self.id as int].state & !state.bits,
                    ..old(lv).objects@[self.id as int]
                },
            ),
            *final(lv) == (Lvgl { objects: final(lv).objects, ..*old(lv) }),
            crate::lvgl::spec_engine_wf(*old(lv)) ==> crate::lvgl::spec_engine_wf(*final(lv)),
    {
        let rec = &mut lv.objects[self.id];
        rec.state = rec.state & !state.bits;
    }

    /// The object's current state bits.
    pub fn get_state(&self, lv: &Lvgl) -> (r: State)
        requires
            self.id < lv.objects@.len(),
        ensures
            r.bits == lv.objects@[self.id as int].state,
    {
        State { bits: lv.objects[self.id].state }
    }

    /// Whether any of the given state bits is set on the object.
    pub fn has_state(&self, lv: &Lvgl, state: State) -> (r: bool)
        requires
            self.id < lv.objects@.len(),
        ensures
            r == (lv.objects@[self.id as int].state & state.bits != 0),
    {
        lv.objects[self.id].state & state.bits != 0
    }

    /// Places the object relative to a base object.
    pub fn align_to(&self, lv: &mut Lvgl, base: &Obj, align: Align, x_mod: i16, y_mod: i16)
        requires
            self.id < old(lv).objects@.len(),
            base.id < old(lv).objects@.len(),
        ensures
            final(lv).objects@ == old(lv).objects@.update(
                self.id as int,
                ObjectRec {
                    align: Some(AlignSpec { base: base.id, align, x_mod, y_mod }),
                    ..old(lv).objects@[self.id as int]
                },
            ),
            *final(lv) == (Lvgl { objects: final(lv).objects, ..*old(lv) }),
            crate::lvgl::spec_engine_wf(*old(lv)) ==> crate::lvgl::spec_engine_wf(*final(lv)),
    {
        let rec = &mut lv.objects[self.id];
        rec.align = Some(AlignSpec { base: base.id, align, x_mod, y_mod });
    }

    /// Places the object inside a grid cell.
    pub fn set_grid_cell(
        &self,
        lv: &mut Lvgl,
        column_align: GridAlign,
        col_pos: u8,
        col_span: u8,
        row_align: GridAlign,
        row_pos: u8,
        row_span: u8,
    )
        requires
            self.id < old(lv).objects@.len(),
        ensures
            final(lv).objects@ == old(lv).objects@.update(
                self.id as int,
                ObjectRec {
                    grid_cell: Some(
                        GridCell {
                            column_align,
                            col_pos,
                            col_span,
                            row_align,
                            row_pos,
                            row_span,
                        },
                    ),
                    ..old(lv).objects@[self.id as int]
                },
            ),
            *final(lv) == (Lvgl { objects: final(lv).objects, ..*old(lv) }),
            crate::lvgl::spec_engine_wf(*old(lv)) ==> crate::lvgl::spec_engine_wf(*final(lv)),
    {
        let rec = &mut lv.objects[self.id];
        rec.grid_cell = Some(
            GridCell { column_align, col_pos, col_span, row_align, row_pos, row_span },
        );
    }

    /// Attaches an initialized style to the object under a selector.
    pub fn add_style(&self, lv: &mut Lvgl, style: &Style, style_selector: u32)
        requires
            self.id < old(lv).objects@.len(),
            style.initialized,
        ensures
            final(lv).objects@[self.id as int].styles@ == old(
                lv,
            ).objects@[self.id as int].styles@.push(style_selector),
            final(lv).objects@ == old(lv).objects@.update(
                self.id as int,
                final(lv).objects@[self.id as int],
            ),
            final(lv).objects@[self.id as int] == (ObjectRec {
                styles: final(lv).objects@[self.id as int].styles,
                ..old(lv).objects@[self.id as int]
            }),
            *final(lv) == (Lvgl { objects: final(lv).objects, ..*old(lv) }),
            crate::lvgl::spec_engine_wf(*old(lv)) ==> crate::lvgl::spec_engine_wf(*final(lv)),
    {
        let rec = &mut lv.objects[self.id];
        rec.styles.push(style_selector);
    }

    /// Registers a callback on this object for one event kind, returning
    /// the registration's identity.
    pub fn on_event(&self, lv: &mut Lvgl, event: Event) -> (r: usize)
        requires
            self.id < old(lv).objects@.len(),
        ensures
            r == old(lv).registrations@.len(),
            final(lv).registrations@ == old(lv).registrations@.push(
                crate::dispatch::Registration { obj: self.id, filter: Some(event) },
            ),
            *final(lv) == (Lvgl { registrations: final(lv).registrations, ..*old(lv) }),
            crate::lvgl::spec_engine_wf(*old(lv)) ==> crate::lvgl::spec_engine_wf(*final(lv)),
    {
        lv.add_event_cb(self, Some(event))
    }

    /// Registers a callback on this object for every recognized event
    /// kind, returning the registration's identity.
    pub fn on_any_event(&self, lv: &mut Lvgl) -> (r: usize)
        requires
            self.id < old(lv).objects@.len(),
        ensures
            r == old(lv).registrations@.len(),
            final(lv).registrations@ == old(lv).registrations@.push(
                crate::dispatch::Registration { obj: self.id, filter: None },
            ),
            *final(lv) == (Lvgl { registrations: final(lv).registrations, ..*old(lv) }),
            crate::lvgl::spec_engine_wf(*old(lv)) ==> crate::lvgl::spec_engine_wf(*final(lv)),
    {
        lv.add_event_cb(self, None)
    }
}

} // verus!
