//! A safe, verified model of a callback-driven embedded graphics-widget
//! engine binding: object handles, event dispatch with bubbling, a display
//! adapter with a flush protocol, an input-device adapter, a per-screen
//! context container and scheduler entry points.

pub mod dispatch;
pub mod display;
pub mod event;
pub mod input;
pub mod lvgl;
pub mod obj;
pub mod screen;
pub mod style;
pub mod support;

pub use dispatch::Invocation;
pub use dispatch::RawEvent;
pub use dispatch::Registration;
pub use display::Area;
pub use display::Display;
pub use display::DisplayConfig;
pub use display::flush_pixels;
pub use input::IndevData;
pub use input::IndevState;
pub use input::InputDevice;
pub use input::InputDeviceState;
pub use input::LV_INDEV_TYPE_BUTTON;
pub use input::LV_INDEV_TYPE_ENCODER;
pub use input::LV_INDEV_TYPE_KEYPAD;
pub use input::LV_INDEV_TYPE_NONE;
pub use input::LV_INDEV_TYPE_POINTER;
pub use input::TouchPad;
pub use lvgl::Lvgl;
pub use lvgl::heap_init;
pub use obj::AlignSpec;
pub use obj::GridCell;
pub use obj::NativeObject;
pub use obj::Obj;
pub use obj::ObjectRec;
pub use screen::Screen;
pub use style::Align;
pub use style::Flag;
pub use style::GridAlign;
pub use style::LV_COORD_MAX;
pub use style::LV_OBJ_FLAG_CLICKABLE;
pub use style::LV_OBJ_FLAG_EVENT_BUBBLE;
pub use style::LV_OBJ_FLAG_HIDDEN;
pub use style::LV_OBJ_FLAG_SCROLLABLE;
pub use style::LV_STATE_ANY;
pub use style::LV_STATE_CHECKED;
pub use style::LV_STATE_DEFAULT;
pub use style::LV_STATE_DISABLED;
pub use style::LV_STATE_FOCUSED;
pub use style::LV_STATE_PRESSED;
pub use style::Part;
pub use style::State;
pub use style::Style;
pub use style::Themes;
pub use style::grid_free;
pub use style::grid_last;
pub use style::selector;

pub use event::Event;
pub use event::LV_EVENT_ALL;
pub use support::Color;
pub use support::LvError;
pub use support::LvResult;
pub use support::LV_COLOR_DEPTH;
