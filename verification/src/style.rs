use vstd::prelude::*;

verus! {

// Native widget-state bits, kept in lockstep with the engine's ABI.
pub const LV_STATE_DEFAULT: u16 = 0x0000;
pub const LV_STATE_CHECKED: u16 = 0x0001;
pub const LV_STATE_FOCUSED: u16 = 0x0002;
pub const LV_STATE_FOCUS_KEY: u16 = 0x0004;
pub const LV_STATE_EDITED: u16 = 0x0008;
pub const LV_STATE_HOVERED: u16 = 0x0010;
pub const LV_STATE_PRESSED: u16 = 0x0020;
pub const LV_STATE_SCROLLED: u16 = 0x0040;
pub const LV_STATE_DISABLED: u16 = 0x0080;
pub const LV_STATE_USER_1: u16 = 0x1000;
pub const LV_STATE_USER_2: u16 = 0x2000;
pub const LV_STATE_USER_3: u16 = 0x4000;
pub const LV_STATE_USER_4: u16 = 0x8000;
pub const LV_STATE_ANY: u16 = 0xffff;

// Native object-flag bits, kept in lockstep with the engine's ABI.
pub const LV_OBJ_FLAG_HIDDEN: u32 = 0x1;
pub const LV_OBJ_FLAG_CLICKABLE: u32 = 0x2;
pub const LV_OBJ_FLAG_CLICK_FOCUSABLE: u32 = 0x4;
pub const LV_OBJ_FLAG_CHECKABLE: u32 = 0x8;
pub const LV_OBJ_FLAG_SCROLLABLE: u32 = 0x10;
pub const LV_OBJ_FLAG_SCROLL_ELASTIC: u32 = 0x20;
pub const LV_OBJ_FLAG_SCROLL_MOMENTUM: u32 = 0x40;
pub const LV_OBJ_FLAG_SCROLL_ONE: u32 = 0x80;
pub const LV_OBJ_FLAG_SCROLL_CHAIN_HOR: u32 = 0x100;
pub const LV_OBJ_FLAG_SCROLL_CHAIN_VER: u32 = 0x200;
pub const LV_OBJ_FLAG_SCROLL_CHAIN: u32 = 0x300;
pub const LV_OBJ_FLAG_SCROLL_ON_FOCUS: u32 = 0x400;
pub const LV_OBJ_FLAG_SCROLL_WITH_ARROW: u32 = 0x800;
pub const LV_OBJ_FLAG_SNAPPABLE: u32 = 0x1000;
pub const LV_OBJ_FLAG_PRESS_LOCK: u32 = 0x2000;
/// Raising an event on an object that carries this flag also delivers the
/// event to the object's parent.
pub const LV_OBJ_FLAG_EVENT_BUBBLE: u32 = 0x4000;
pub const LV_OBJ_FLAG_GESTURE_BUBBLE: u32 = 0x8000;
pub const LV_OBJ_FLAG_ADV_HITTEST: u32 = 0x10000;
pub const LV_OBJ_FLAG_IGNORE_LAYOUT: u32 = 0x20000;
pub const LV_OBJ_FLAG_FLOATING: u32 = 0x40000;
pub const LV_OBJ_FLAG_OVERFLOW_VISIBLE: u32 = 0x80000;
pub const LV_OBJ_FLAG_LAYOUT_1: u32 = 0x800000;
pub const LV_OBJ_FLAG_LAYOUT_2: u32 = 0x1000000;
pub const LV_OBJ_FLAG_WIDGET_1: u32 = 0x2000000;
pub const LV_OBJ_FLAG_WIDGET_2: u32 = 0x4000000;
pub const LV_OBJ_FLAG_USER_1: u32 = 0x8000000;
pub const LV_OBJ_FLAG_USER_2: u32 = 0x10000000;
pub const LV_OBJ_FLAG_USER_3: u32 = 0x20000000;
pub const LV_OBJ_FLAG_USER_4: u32 = 0x40000000;

/// The largest native coordinate value.
pub const LV_COORD_MAX: i16 = 8191;

/// A set of native widget-state bits.
#[derive(Copy, Clone, Eq, PartialEq, Structural, Debug)]
pub struct State {
    pub bits: u16,
}

impl State {
    pub fn from_bits(bits: u16) -> (s: State)
        ensures
            s.bits == bits,
    {
        State { bits }
    }

    pub fn bits(&self) -> (b: u16)
        ensures
            b == self.bits,
    {
        self.bits
    }
}

impl Default for State {
    /// The default widget state: no state bit set.
    fn default() -> (s: State)
        ensures
            s.bits == LV_STATE_DEFAULT,
    {
        State { bits: LV_STATE_DEFAULT }
    }
}

/// A set of native object-flag bits.
#[derive(Copy, Clone, Eq, PartialEq, Structural, Debug)]
pub struct Flag {
    pub bits: u32,
}

impl Flag {
    pub fn from_bits(bits: u32) -> (f: Flag)
        ensures
            f.bits == bits,
    {
        Flag { bits }
    }

    pub fn bits(&self) -> (b: u32)
        ensures
            b == self.bits,
    {
        self.bits
    }
}

/// Placement of an object relative to a base object.
#[derive(Copy, Clone, Eq, PartialEq, Structural, Debug)]
pub enum Align {
    Default,
    TopLeft,
    TopMid,
    TopRight,
    BottomLeft,
    BottomMid,
    BottomRight,
    LeftMid,
    RightMid,
    Center,
    OutTopLeft,
    OutTopMid,
    OutTopRight,
    OutBottomLeft,
    OutBottomMid,
    OutBottomRight,
    OutLeftTop,
    OutLeftMid,
    OutLeftBottom,
    OutRightTop,
    OutRightMid,
    OutRightBottom,
}

pub open spec fn spec_align_value(a: Align) -> u8 {
    match a {
        Align::Default => 0,
        Align::TopLeft => 1,
        Align::TopMid => 2,
        Align::TopRight => 3,
        Align::BottomLeft => 4,
        Align::BottomMid => 5,
        Align::BottomRight => 6,
        Align::LeftMid => 7,
        Align::RightMid => 8,
        Align::Center => 9,
        Align::OutTopLeft => 10,
        Align::OutTopMid => 11,
        Align::OutTopRight => 12,
        Align::OutBottomLeft => 13,
        Align::OutBottomMid => 14,
        Align::OutBottomRight => 15,
        Align::OutLeftTop => 16,
        Align::OutLeftMid => 17,
        Align::OutLeftBottom => 18,
        Align::OutRightTop => 19,
        Align::OutRightMid => 20,
        Align::OutRightBottom => 21,
    }
}

impl Align {
    /// The native integer of this alignment.
    pub fn raw_value(self) -> (v: u8)
        ensures
            v == spec_align_value(self),
    {
        match self {
            Align::Default => 0,
            Align::TopLeft => 1,
            Align::TopMid => 2,
            Align::TopRight => 3,
            Align::BottomLeft => 4,
            Align::BottomMid => 5,
            Align::BottomRight => 6,
            Align::LeftMid => 7,
            Align::RightMid => 8,
            Align::Center => 9,
            Align::OutTopLeft => 10,
            Align::OutTopMid => 11,
            Align::OutTopRight => 12,
            Align::OutBottomLeft => 13,
            Align::OutBottomMid => 14,
            Align::OutBottomRight => 15,
            Align::OutLeftTop => 16,
            Align::OutLeftMid => 17,
            Align::OutLeftBottom => 18,
            Align::OutRightTop => 19,
            Align::OutRightMid => 20,
            Align::OutRightBottom => 21,
        }
    }
}

/// Placement of an object inside one cell of a grid layout.
#[derive(Copy, Clone, Eq, PartialEq, Structural, Debug)]
pub enum GridAlign {
    Start,
    Center,
    End,
    Stretch,
    SpaceEvenly,
    SpaceAround,
    SpaceBetween,
}

pub open spec fn spec_grid_align_value(a: GridAlign) -> u8 {
    match a {
        GridAlign::Start => 0,
        GridAlign::Center => 1,
        GridAlign::End => 2,
        GridAlign::Stretch => 3,
        GridAlign::SpaceEvenly => 4,
        GridAlign::SpaceAround => 5,
        GridAlign::SpaceBetween => 6,
    }
}

impl GridAlign {
    /// The native integer of this grid alignment.
    pub fn raw_value(self) -> (v: u8)
        ensures
            v == spec_grid_align_value(self),
    {
        match self {
            GridAlign::Start => 0,
            GridAlign::Center => 1,
            GridAlign::End => 2,
            GridAlign::Stretch => 3,
            GridAlign::SpaceEvenly => 4,
            GridAlign::SpaceAround => 5,
            GridAlign::SpaceBetween => 6,
        }
    }
}

/// Parts of a widget a style can be attached to.
#[derive(Copy, Clone, Eq, PartialEq, Structural, Debug)]
pub enum Part {
    /// A background-like rectangle.
    Main,
    /// The scrollbar or scrollbars.
    Scrollbar,
    /// Indicator, e.g. for a slider, bar, switch, or checkbox tick box.
    Indicator,
    /// A handle grabbed to adjust a value.
    Knob,
    /// The currently selected option or section.
    Selected,
    /// Similar elements a widget has many of, e.g. table cells.
    Items,
    /// Ticks on a scale, e.g. for a chart or meter.
    Ticks,
    /// A specific place such as a text area's cursor.
    Cursor,
    /// Extension point for custom widgets.
    CustomFirst,
    /// Targets all parts in functions that accept it.
    Any,
}

impl Default for Part {
    fn default() -> (p: Part)
        ensures
            p == Part::Main,
    {
        Part::Main
    }
}

pub open spec fn spec_part_value(p: Part) -> u32 {
    match p {
        Part::Main => 0x000000,
        Part::Scrollbar => 0x010000,
        Part::Indicator => 0x020000,
        Part::Knob => 0x030000,
        Part::Selected => 0x040000,
        Part::Items => 0x050000,
        Part::Ticks => 0x060000,
        Part::Cursor => 0x070000,
        Part::CustomFirst => 0x080000,
        Part::Any => 0x0f0000,
    }
}

impl Part {
    /// The native integer of this part.
    pub fn raw_value(self) -> (v: u32)
        ensures
            v == spec_part_value(self),
    {
        match self {
            Part::Main => 0x000000,
            Part::Scrollbar => 0x010000,
            Part::Indicator => 0x020000,
            Part::Knob => 0x030000,
            Part::Selected => 0x040000,
            Part::Items => 0x050000,
            Part::Ticks => 0x060000,
            Part::Cursor => 0x070000,
            Part::CustomFirst => 0x080000,
            Part::Any => 0x0f0000,
        }
    }
}

/// Themes offered for styling.
#[derive(Copy, Clone, Eq, PartialEq, Structural, Debug)]
pub enum Themes {
    Pretty,
}

/// One style record. The engine treats style contents as its own; the
/// binding layer only creates styles and attaches them to objects under a
/// selector, so the record carries no properties of its own.
#[derive(Copy, Clone, Eq, PartialEq, Structural, Debug)]
pub struct Style {
    pub initialized: bool,
}

impl Default for Style {
    /// A freshly initialized, empty style.
    fn default() -> (s: Style)
        ensures
            s.initialized,
    {
        Style { initialized: true }
    }
}

/// The selector a style is attached under: the part's native value combined
/// with the widget-state bits.
pub open spec fn spec_selector(part: Part, state: State) -> u32 {
    spec_part_value(part) | state.bits as u32
}

/// Combines a part and a state into the native style selector.
pub fn selector(part: Part, state: State) -> (v: u32)
    ensures
        v == spec_selector(part, state),
{
    part.raw_value() | state.bits as u32
}

/// A free-growing grid track unit: the native coordinate that stands for a
/// track taking `x` shares of the free space.
pub fn grid_free(x: i16) -> (v: i16)
    requires
        x <= i16::MAX - (LV_COORD_MAX - 100),
        x >= i16::MIN + (LV_COORD_MAX - 100),
    ensures
        v == LV_COORD_MAX - 100 + x,
{
    LV_COORD_MAX - 100 + x
}

/// The native coordinate that ends a grid track descriptor array.
pub fn grid_last() -> (v: i16)
    ensures
        v == LV_COORD_MAX,
{
    LV_COORD_MAX
}

} // verus!
