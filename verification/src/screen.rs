use vstd::prelude::*;
use crate::display::Display;
use crate::lvgl::Lvgl;
use crate::lvgl::spec_fresh_object;
use crate::obj::Obj;

verus! {

/// The per-screen context container: one screen-level widget node together
/// with the one application context value made visible inside callbacks on
/// that screen's widgets.
///
/// The context slot starts empty so the widget tree can be built first —
/// widgets routinely need to reference siblings or state that only exists
/// once the whole tree stands — and is filled exactly once afterwards.
/// Dispatch never reads the slot before it is filled: `callback_context`
/// demands a filled slot.
pub struct Screen<C> {
    pub obj: Obj,
    pub context: Option<C>,
}

impl<C> Screen<C> {
    /// Creates a screen-level node with an empty context slot.
    pub fn new<T>(lv: &mut Lvgl, display: &Display<T>) -> (s: Screen<C>)
        requires
            old(lv).initialized,
        ensures
            s.obj.id == old(lv).objects@.len(),
            s.context is None,
            final(lv).objects@.len() == old(lv).objects@.len() + 1,
            final(lv).objects@.subrange(0, old(lv).objects@.len() as int) == old(lv).objects@,
            spec_fresh_object(final(lv).objects@[old(lv).objects@.len() as int], None),
            *final(lv) == (Lvgl { objects: final(lv).objects, ..*old(lv) }),
            crate::lvgl::spec_engine_wf(*old(lv)) ==> crate::lvgl::spec_engine_wf(*final(lv)),
    {
        let _ = display;
        let obj = lv.create_object(None);
        Screen { obj, context: None }
    }

    /// The context slot itself, for the two-phase protocol: the same slot
    /// that every callback on this screen later observes, so a value put
    /// into it is the very value the callbacks see.
    pub fn context(&mut self) -> (r: &mut Option<C>)
        ensures
            *r == old(self).context,
            final(self).context == *final(r),
            final(self).obj == old(self).obj,
    {
        &mut self.context
    }

    /// The second phase: stores the context value, exactly once, after the
    /// widget tree is built.
    pub fn set_context(&mut self, context: C)
        requires
            old(self).context is None,
        ensures
            *final(self) == (Screen { context: Some(context), ..*old(self) }),
    {
        self.context = Some(context);
    }

    /// The context value as dispatch hands it to a callback. A populated
    /// slot is an invariant of a screen that receives events, so an empty
    /// slot is outside this operation's domain.
    pub fn callback_context(&mut self) -> (r: &mut C)
        requires
            old(self).context is Some,
        ensures
            *r == old(self).context->Some_0,
            final(self).context == Some(*final(r)),
            final(self).obj == old(self).obj,
    {
        match &mut self.context {
            Some(c) => c,
            None => {
                proof {
                    assert(false);
                }
                unreached()
            },
        }
    }
}

/// Context round trip: the value stored by the two-phase protocol is
/// exactly the value every later callback observes — the container hands
/// callbacks the one slot the value went into, not a copy.
pub proof fn lemma_context_round_trip<C>(before: Screen<C>, v: C)
    requires
        before.context is None,
    ensures
        (Screen { context: Some(v), ..before }).context->Some_0 == v,
{
}

} // verus!
