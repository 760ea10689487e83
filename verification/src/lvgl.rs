use vstd::prelude::*;
use crate::dispatch::Invocation;
use crate::dispatch::RawEvent;
use crate::dispatch::Registration;
use crate::dispatch::spec_pass;
use crate::display::DisplayConfig;
use crate::obj::Obj;
use crate::obj::ObjectRec;
use crate::support::LvError;

verus! {

/// Whether `rec` is a freshly created widget node under `parent`: no flag,
/// the default state, zero geometry, and nothing attached yet.
pub open spec fn spec_fresh_object(rec: ObjectRec, parent: Option<usize>) -> bool {
    &&& rec.parent == parent
    &&& rec.flags == 0u32
    &&& rec.state == 0u16
    &&& rec.x == 0i16
    &&& rec.y == 0i16
    &&& rec.width == 0i16
    &&& rec.height == 0i16
    &&& rec.grid_cell is None
    &&& rec.align is None
    &&& rec.styles@ == Seq::<u32>::empty()
}

/// The engine handle: the one value through which all engine state is
/// reached. The native engine keeps this state on its own heap behind
/// C entry points; the handle models it as plain values, so that every
/// decision the binding layer makes about it can be stated and checked.
pub struct Lvgl {
    /// Whether the one-time engine setup has run.
    pub initialized: bool,
    /// Whether a log sink has been registered.
    pub logger_registered: bool,
    /// The engine's time base in milliseconds; wraps around.
    pub ticks: u32,
    /// Whether a scheduler pass is in flight. Guards against reentrant
    /// passes: a pass started while another is in flight is refused.
    pub in_pass: bool,
    /// Every widget node created so far; a node is never freed, so indexes
    /// are stable identities.
    pub objects: Vec<ObjectRec>,
    /// Every event-callback registration made so far, in order.
    pub registrations: Vec<Registration>,
    /// Events raised since the last pass, in raise order.
    pub pending: Vec<RawEvent>,
    /// The one active display, once registered.
    pub display: Option<DisplayConfig>,
    /// The native kind of each registered input device, in registration
    /// order.
    pub indev_kinds: Vec<u32>,
    /// How many times flush completion has been signalled to the engine.
    pub flush_ready_count: u64,
}

/// The structural invariant of the engine state: every stored object index
/// is in range, and a parent's index is smaller than its child's (children
/// are created after their parents).
pub open spec fn spec_engine_wf(lv: Lvgl) -> bool {
    &&& forall|i: int|
        0 <= i < lv.objects@.len() ==> match (#[trigger] lv.objects@[i]).parent {
            Some(p) => p < i,
            None => true,
        }
    &&& forall|i: int|
        0 <= i < lv.registrations@.len() ==> (#[trigger] lv.registrations@[i]).obj
            < lv.objects@.len()
    &&& forall|i: int|
        0 <= i < lv.pending@.len() ==> (#[trigger] lv.pending@[i]).target < lv.objects@.len()
    &&& match lv.display {
        Some(d) => d.active_screen < lv.objects@.len(),
        None => true,
    }
}

impl Lvgl {
    /// Brings up the engine: one-time setup already performed, no objects,
    /// no registrations, no display, nothing pending.
    pub fn new() -> (lv: Lvgl)
        ensures
            lv.initialized,
            !lv.logger_registered,
            lv.ticks == 0u32,
            !lv.in_pass,
            lv.objects@ == Seq::<ObjectRec>::empty(),
            lv.registrations@ == Seq::<Registration>::empty(),
            lv.pending@ == Seq::<RawEvent>::empty(),
            lv.display is None,
            lv.indev_kinds@ == Seq::<u32>::empty(),
            lv.flush_ready_count == 0u64,
            spec_engine_wf(lv),
    {
        Lvgl {
            initialized: true,
            logger_registered: false,
            ticks: 0,
            in_pass: false,
            objects: Vec::new(),
            registrations: Vec::new(),
            pending: Vec::new(),
            display: None,
            indev_kinds: Vec::new(),
            flush_ready_count: 0,
        }
    }

    /// Performs the one-time engine setup if it has not run yet; a repeated
    /// call changes nothing. Idempotent by design: there is no error for a
    /// second initialization.
    pub fn ensure_init(&mut self)
        ensures
            *final(self) == (Lvgl { initialized: true, ..*old(self) }),
    {
        if !self.initialized {
            self.initialized = true;
        }
    }

    /// Registers the host's log sink with the engine. Registering again
    /// replaces the sink; there is never more than one.
    pub fn register_logger(&mut self)
        requires
            old(self).initialized,
        ensures
            *final(self) == (Lvgl { logger_registered: true, ..*old(self) }),
    {
        self.logger_registered = true;
    }

    /// The engine's current time base in milliseconds.
    pub fn ticks(&self) -> (t: u32)
        ensures
            t == self.ticks,
    {
        self.ticks
    }

    /// Advances the engine's time base; the counter wraps around like the
    /// native one. Safe to call between passes from a context other than
    /// the one driving the scheduler.
    pub fn tick_inc(&mut self, millis_since_last_tick: u32)
        ensures
            final(self).ticks == vstd::wrapping::u32_specs::wrapping_add(
                old(self).ticks,
                millis_since_last_tick,
            ),
            *final(self) == (Lvgl { ticks: final(self).ticks, ..*old(self) }),
    {
        self.ticks = self.ticks.wrapping_add(millis_since_last_tick);
    }

    /// Creates one widget node under `parent` (`None` creates a screen-level
    /// node) and hands back its handle. The engine owns the node; the
    /// handle never frees it.
    pub fn create_object(&mut self, parent: Option<&Obj>) -> (o: Obj)
        requires
            old(self).initialized,
            (match parent {
                Some(po) => po.id < old(self).objects@.len(),
                None => true,
            }),
        ensures
            o.id == old(self).objects@.len(),
            final(self).objects@.len() == old(self).objects@.len() + 1,
            final(self).objects@.subrange(0, old(self).objects@.len() as int) == old(
                self,
            ).objects@,
            spec_fresh_object(
                final(self).objects@[old(self).objects@.len() as int],
                match parent {
                    Some(po) => Some(po.id),
                    None => None,
                },
            ),
            *final(self) == (Lvgl { objects: final(self).objects, ..*old(self) }),
            spec_engine_wf(*old(self)) ==> spec_engine_wf(*final(self)),
    {
        let id = self.objects.len();
        let rec = ObjectRec {
            parent: match parent {
                Some(po) => Some(po.id),
                None => None,
            },
            flags: 0,
            state: 0,
            x: 0,
            y: 0,
            width: 0,
            height: 0,
            grid_cell: None,
            align: None,
            styles: Vec::new(),
        };
        self.objects.push(rec);
        proof {
            assert(final(self).objects@.subrange(0, old(self).objects@.len() as int) =~= old(
                self,
            ).objects@);
        }
        Obj { id }
    }

    /// Registers a callback for events on `obj`: for one event kind when
    /// `filter` names one, for every recognized kind when it is `None`.
    /// The result is the registration's identity, under which each
    /// scheduler pass reports the callback's invocations.
    pub fn add_event_cb(&mut self, obj: &Obj, filter: Option<crate::event::Event>) -> (r: usize)
        requires
            obj.id < old(self).objects@.len(),
        ensures
            r == old(self).registrations@.len(),
            final(self).registrations@ == old(self).registrations@.push(
                Registration { obj: obj.id, filter },
            ),
            *final(self) == (Lvgl { registrations: final(self).registrations, ..*old(self) }),
            spec_engine_wf(*old(self)) ==> spec_engine_wf(*final(self)),
    {
        let r = self.registrations.len();
        self.registrations.push(Registration { obj: obj.id, filter });
        r
    }

    /// Raises the native event `code` on `obj`; the raise is queued and
    /// dispatched by the next scheduler pass.
    pub fn event_send(&mut self, obj: &Obj, code: u32)
        requires
            obj.id < old(self).objects@.len(),
        ensures
            final(self).pending@ == old(self).pending@.push(RawEvent { target: obj.id, code }),
            *final(self) == (Lvgl { pending: final(self).pending, ..*old(self) }),
            spec_engine_wf(*old(self)) ==> spec_engine_wf(*final(self)),
    {
        self.pending.push(RawEvent { target: obj.id, code });
    }

    /// Runs one scheduler pass: dispatches every queued raise along its
    /// bubbling chain against the registrations and reports, in order, the
    /// callback invocations the host must perform. The pass stays in
    /// flight until `pass_done`; a pass begun while another is in flight is
    /// refused and changes nothing, so the context threaded through the
    /// callbacks is never clobbered.
    #[verifier::loop_isolation(false)]
    pub fn run_tasks(&mut self) -> (r: Result<Vec<Invocation>, LvError>)
        ensures
            old(self).in_pass ==> r == Err::<Vec<Invocation>, LvError>(LvError::AlreadyInUse),
            old(self).in_pass ==> *final(self) == *old(self),
            !old(self).in_pass ==> (r matches Ok(invs) && invs@ == spec_pass(
                old(self).objects@,
                old(self).registrations@,
                old(self).pending@,
                old(self).pending@.len() as int,
            )),
            !old(self).in_pass ==> final(self).pending@ == Seq::<RawEvent>::empty(),
            !old(self).in_pass ==> *final(self) == (Lvgl {
                in_pass: true,
                pending: final(self).pending,
                ..*old(self)
            }),
            spec_engine_wf(*old(self)) ==> spec_engine_wf(*final(self)),
    {
        if self.in_pass {
            return Err(LvError::AlreadyInUse);
        }
        self.in_pass = true;
        let mut out: Vec<Invocation> = Vec::new();
        let mut k: usize = 0;
        while k < self.pending.len()
            invariant
                k <= self.pending@.len(),
                out@ == spec_pass(self.objects@, self.registrations@, self.pending@, k as int),
            decreases self.pending@.len() - k,
        {
            let ev = self.pending[k];
            crate::dispatch::raise_into(&self.objects, &self.registrations, ev.target, ev.code, &mut out);
            k = k + 1;
        }
        self.pending = Vec::new();
        Ok(out)
    }

    /// Ends the scheduler pass begun by `run_tasks`, after the host has
    /// performed the reported invocations.
    pub fn pass_done(&mut self)
        ensures
            *final(self) == (Lvgl { in_pass: false, ..*old(self) }),
    {
        self.in_pass = false;
    }
}

/// Brings up the engine's heap and one-time setup; a repeated call changes
/// nothing, exactly like `ensure_init`.
pub fn heap_init(lv: &mut Lvgl)
    ensures
        *final(lv) == (Lvgl { initialized: true, ..*old(lv) }),
{
    lv.ensure_init();
}

/// One-time initialization is idempotent: running the setup twice leaves
/// the engine in exactly the state one run leaves it in.
pub proof fn lemma_ensure_init_idempotent(lv: Lvgl)
    ensures
        (Lvgl { initialized: true, ..Lvgl { initialized: true, ..lv } }) == (Lvgl {
            initialized: true,
            ..lv
        }),
{
}

} // verus!
