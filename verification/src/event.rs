use vstd::prelude::*;

verus! {

/// Events the native engine raises on widget objects. The enumeration is
/// closed and kept in lockstep with the engine's ABI: `code` gives the
/// native integer of each kind and `from_code` decodes it again. A native
/// code outside this enumeration is not an error; dispatch drops it.
#[derive(Copy, Clone, Eq, PartialEq, Structural, Debug)]
pub enum Event {
    /// The object has been pressed.
    Pressed,
    /// The object is being pressed (raised continuously while pressing).
    Pressing,
    /// The object is still being pressed but the cursor slid off of it.
    PressLost,
    /// Pressed for a short period of time, then released; not raised if scrolled.
    ShortClicked,
    /// Pressed for at least the long-press time; not raised if scrolled.
    LongPressed,
    /// Raised repeatedly after the long-press time; not raised if scrolled.
    LongPressedRepeat,
    /// Raised on release if not scrolled (regardless of long press).
    Clicked,
    /// Raised in every case when the object has been released.
    Released,
    /// Scrolling begins.
    ScrollBegin,
    /// Scrolling ends.
    ScrollEnd,
    /// Scrolling.
    Scroll,
    /// A gesture is detected.
    Gesture,
    /// A key is sent to the object.
    Key,
    /// The object is focused.
    Focused,
    /// The object is defocused.
    Defocused,
    /// The object is defocused but still selected.
    Leave,
    /// Perform advanced hit-testing.
    HitTest,
    /// Check whether the object fully covers an area.
    CoverCheck,
    /// Get the required extra draw area around the object.
    RefrExtDrawSize,
    /// Starting the main drawing phase.
    DrawMainBegin,
    /// Perform the main drawing.
    DrawMain,
    /// Finishing the main drawing phase.
    DrawMainEnd,
    /// Starting the post-draw phase (when all children are drawn).
    DrawPostBegin,
    /// Perform the post-draw phase (when all children are drawn).
    DrawPost,
    /// Finishing the post-draw phase (when all children are drawn).
    DrawPostEnd,
    /// Starting to draw a part.
    DrawPartBegin,
    /// Finishing to draw a part.
    DrawPartEnd,
    /// The object's value has changed.
    ValueChanged,
    /// A text is inserted into the object.
    Insert,
    /// Notify the object to refresh something on it.
    Refresh,
    /// A process has finished.
    Ready,
    /// A process has been cancelled.
    Cancel,
    /// The object is being deleted.
    Delete,
    /// A child was removed, added, or its size or position changed.
    ChildChanged,
    /// A child was created; always bubbles up to all parents.
    ChildCreated,
    /// A child was deleted; always bubbles up to all parents.
    ChildDeleted,
    /// A screen unload started.
    ScreenUnloadStart,
    /// A screen load started.
    ScreenLoadStart,
    /// A screen was loaded.
    ScreenLoaded,
    /// A screen was unloaded.
    ScreenUnloaded,
    /// The object's coordinates or size have changed.
    SizeChanged,
    /// The object's style has changed.
    StyleChanged,
    /// The children's positions changed due to a layout recalculation.
    LayoutChanged,
    /// Get the internal size of a widget.
    GetSelfSize,
}

/// The native code that stands for "register for all events"; it names no
/// single event kind and decodes to none.
pub const LV_EVENT_ALL: u32 = 0;

pub open spec fn spec_event_code(e: Event) -> u32 {
    match e {
        Event::Pressed => 1,
        Event::Pressing => 2,
        Event::PressLost => 3,
        Event::ShortClicked => 4,
        Event::LongPressed => 5,
        Event::LongPressedRepeat => 6,
        Event::Clicked => 7,
        Event::Released => 8,
        Event::ScrollBegin => 9,
        Event::ScrollEnd => 10,
        Event::Scroll => 11,
        Event::Gesture => 12,
        Event::Key => 13,
        Event::Focused => 14,
        Event::Defocused => 15,
        Event::Leave => 16,
        Event::HitTest => 17,
        Event::CoverCheck => 18,
        Event::RefrExtDrawSize => 19,
        Event::DrawMainBegin => 20,
        Event::DrawMain => 21,
        Event::DrawMainEnd => 22,
        Event::DrawPostBegin => 23,
        Event::DrawPost => 24,
        Event::DrawPostEnd => 25,
        Event::DrawPartBegin => 26,
        Event::DrawPartEnd => 27,
        Event::ValueChanged => 28,
        Event::Insert => 29,
        Event::Refresh => 30,
        Event::Ready => 31,
        Event::Cancel => 32,
        Event::Delete => 33,
        Event::ChildChanged => 34,
        Event::ChildCreated => 35,
        Event::ChildDeleted => 36,
        Event::ScreenUnloadStart => 37,
        Event::ScreenLoadStart => 38,
        Event::ScreenLoaded => 39,
        Event::ScreenUnloaded => 40,
        Event::SizeChanged => 41,
        Event::StyleChanged => 42,
        Event::LayoutChanged => 43,
        Event::GetSelfSize => 44,
    }
}

pub open spec fn spec_event_from_code(code: u32) -> Option<Event> {
    match code {
        1u32 => Some(Event::Pressed),
        2u32 => Some(Event::Pressing),
        3u32 => Some(Event::PressLost),
        4u32 => Some(Event::ShortClicked),
        5u32 => Some(Event::LongPressed),
        6u32 => Some(Event::LongPressedRepeat),
        7u32 => Some(Event::Clicked),
        8u32 => Some(Event::Released),
        9u32 => Some(Event::ScrollBegin),
        10u32 => Some(Event::ScrollEnd),
        11u32 => Some(Event::Scroll),
        12u32 => Some(Event::Gesture),
        13u32 => Some(Event::Key),
        14u32 => Some(Event::Focused),
        15u32 => Some(Event::Defocused),
        16u32 => Some(Event::Leave),
        17u32 => Some(Event::HitTest),
        18u32 => Some(Event::CoverCheck),
        19u32 => Some(Event::RefrExtDrawSize),
        20u32 => Some(Event::DrawMainBegin),
        21u32 => Some(Event::DrawMain),
        22u32 => Some(Event::DrawMainEnd),
        23u32 => Some(Event::DrawPostBegin),
        24u32 => Some(Event::DrawPost),
        25u32 => Some(Event::DrawPostEnd),
        26u32 => Some(Event::DrawPartBegin),
        27u32 => Some(Event::DrawPartEnd),
        28u32 => Some(Event::ValueChanged),
        29u32 => Some(Event::Insert),
        30u32 => Some(Event::Refresh),
        31u32 => Some(Event::Ready),
        32u32 => Some(Event::Cancel),
        33u32 => Some(Event::Delete),
        34u32 => Some(Event::ChildChanged),
        35u32 => Some(Event::ChildCreated),
        36u32 => Some(Event::ChildDeleted),
        37u32 => Some(Event::ScreenUnloadStart),
        38u32 => Some(Event::ScreenLoadStart),
        39u32 => Some(Event::ScreenLoaded),
        40u32 => Some(Event::ScreenUnloaded),
        41u32 => Some(Event::SizeChanged),
        42u32 => Some(Event::StyleChanged),
        43u32 => Some(Event::LayoutChanged),
        44u32 => Some(Event::GetSelfSize),
        _ => None,
    }
}

impl Event {
    /// The native integer this event kind is raised as.
    pub fn code(self) -> (c: u32)
        ensures
            c == spec_event_code(self),
    {
        match self {
            Event::Pressed => 1,
            Event::Pressing => 2,
            Event::PressLost => 3,
            Event::ShortClicked => 4,
            Event::LongPressed => 5,
            Event::LongPressedRepeat => 6,
            Event::Clicked => 7,
            Event::Released => 8,
            Event::ScrollBegin => 9,
            Event::ScrollEnd => 10,
            Event::Scroll => 11,
            Event::Gesture => 12,
            Event::Key => 13,
            Event::Focused => 14,
            Event::Defocused => 15,
            Event::Leave => 16,
            Event::HitTest => 17,
            Event::CoverCheck => 18,
            Event::RefrExtDrawSize => 19,
            Event::DrawMainBegin => 20,
            Event::DrawMain => 21,
            Event::DrawMainEnd => 22,
            Event::DrawPostBegin => 23,
            Event::DrawPost => 24,
            Event::DrawPostEnd => 25,
            Event::DrawPartBegin => 26,
            Event::DrawPartEnd => 27,
            Event::ValueChanged => 28,
            Event::Insert => 29,
            Event::Refresh => 30,
            Event::Ready => 31,
            Event::Cancel => 32,
            Event::Delete => 33,
            Event::ChildChanged => 34,
            Event::ChildCreated => 35,
            Event::ChildDeleted => 36,
            Event::ScreenUnloadStart => 37,
            Event::ScreenLoadStart => 38,
            Event::ScreenLoaded => 39,
            Event::ScreenUnloaded => 40,
            Event::SizeChanged => 41,
            Event::StyleChanged => 42,
            Event::LayoutChanged => 43,
            Event::GetSelfSize => 44,
        }
    }

    /// Decodes a native event code; a code outside the closed enumeration
    /// yields `None`.
    pub fn from_code(code: u32) -> (e: Option<Event>)
        ensures
            e == spec_event_from_code(code),
    {
        match code {
            1u32 => Some(Event::Pressed),
            2u32 => Some(Event::Pressing),
            3u32 => Some(Event::PressLost),
            4u32 => Some(Event::ShortClicked),
            5u32 => Some(Event::LongPressed),
            6u32 => Some(Event::LongPressedRepeat),
            7u32 => Some(Event::Clicked),
            8u32 => Some(Event::Released),
            9u32 => Some(Event::ScrollBegin),
            10u32 => Some(Event::ScrollEnd),
            11u32 => Some(Event::Scroll),
            12u32 => Some(Event::Gesture),
            13u32 => Some(Event::Key),
            14u32 => Some(Event::Focused),
            15u32 => Some(Event::Defocused),
            16u32 => Some(Event::Leave),
            17u32 => Some(Event::HitTest),
            18u32 => Some(Event::CoverCheck),
            19u32 => Some(Event::RefrExtDrawSize),
            20u32 => Some(Event::DrawMainBegin),
            21u32 => Some(Event::DrawMain),
            22u32 => Some(Event::DrawMainEnd),
            23u32 => Some(Event::DrawPostBegin),
            24u32 => Some(Event::DrawPost),
            25u32 => Some(Event::DrawPostEnd),
            26u32 => Some(Event::DrawPartBegin),
            27u32 => Some(Event::DrawPartEnd),
            28u32 => Some(Event::ValueChanged),
            29u32 => Some(Event::Insert),
            30u32 => Some(Event::Refresh),
            31u32 => Some(Event::Ready),
            32u32 => Some(Event::Cancel),
            33u32 => Some(Event::Delete),
            34u32 => Some(Event::ChildChanged),
            35u32 => Some(Event::ChildCreated),
            36u32 => Some(Event::ChildDeleted),
            37u32 => Some(Event::ScreenUnloadStart),
            38u32 => Some(Event::ScreenLoadStart),
            39u32 => Some(Event::ScreenLoaded),
            40u32 => Some(Event::ScreenUnloaded),
            41u32 => Some(Event::SizeChanged),
            42u32 => Some(Event::StyleChanged),
            43u32 => Some(Event::LayoutChanged),
            44u32 => Some(Event::GetSelfSize),
            _ => None,
        }
    }
}

/// The mapping between event kinds and native codes is lossless: decoding
/// the code of any event gives that event back.
pub proof fn lemma_event_code_round_trip(e: Event)
    ensures
        spec_event_from_code(spec_event_code(e)) == Some(e),
{
}

/// Every recognized native code decodes to the one event whose code it is.
pub proof fn lemma_event_code_injective(code: u32, e: Event)
    requires
        spec_event_from_code(code) == Some(e),
    ensures
        spec_event_code(e) == code,
{
}

} // verus!
