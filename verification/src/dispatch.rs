use vstd::prelude::*;
use crate::event::Event;
use crate::event::spec_event_code;
use crate::event::spec_event_from_code;
use crate::obj::Obj;
use crate::obj::ObjectRec;
use crate::style::LV_OBJ_FLAG_EVENT_BUBBLE;

verus! {

/// One event-callback registration: the object it was made on and the
/// event-code filter (`None` means every recognized code). The callable
/// itself is the host's; it is keyed by the registration's index.
#[derive(Copy, Clone, Eq, PartialEq, Debug)]
pub struct Registration {
    pub obj: usize,
    pub filter: Option<Event>,
}

/// One event raised on an object, still carrying its native code.
#[derive(Copy, Clone, Eq, PartialEq, Debug)]
pub struct RawEvent {
    pub target: usize,
    pub code: u32,
}

/// One callback invocation a scheduler pass asks the host to perform:
/// which registration fires, with which decoded event, and — when the
/// event reached the registration's object by bubbling up from a
/// descendant — a handle to that descendant.
#[derive(Copy, Clone, Eq, PartialEq, Debug)]
pub struct Invocation {
    pub registration: usize,
    pub event: Event,
    pub child: Option<Obj>,
}

/// Whether a registration's filter accepts an event.
pub open spec fn spec_matches(filter: Option<Event>, e: Event) -> bool {
    match filter {
        None => true,
        Some(f) => f == e,
    }
}

/// Whether events raised on this object also bubble up to its parent.
pub open spec fn spec_bubbles(o: ObjectRec) -> bool {
    o.flags & LV_OBJ_FLAG_EVENT_BUBBLE != 0
}

/// The objects an event raised on `t` is delivered to, in delivery order:
/// the target itself, then — while the current object bubbles and has a
/// parent — each ancestor in turn. A parent always has a smaller index
/// than its child, which bounds the walk.
pub open spec fn spec_chain(objects: Seq<ObjectRec>, t: int) -> Seq<int>
    decreases t when t >= 0
{
    if 0 <= t && t < objects.len() && spec_bubbles(objects[t]) {
        match objects[t].parent {
            Some(p) => if p < t {
                seq![t] + spec_chain(objects, p as int)
            } else {
                seq![t]
            },
            None => seq![t],
        }
    } else {
        seq![t]
    }
}

/// The child handle a callback receives: a handle to the raising object
/// when the event bubbled here from a descendant, nothing otherwise.
pub open spec fn spec_child(ct: int, tgt: int) -> Option<Obj> {
    if ct == tgt {
        None
    } else {
        Some(Obj { id: tgt as usize })
    }
}

/// The invocations one delivery of event `e` at object `ct` produces among
/// the first `n` registrations, in registration order. The event was
/// raised on `tgt`.
pub open spec fn spec_obj_invocations(
    regs: Seq<Registration>,
    n: int,
    ct: int,
    tgt: int,
    e: Event,
) -> Seq<Invocation>
    decreases n,
{
    if n <= 0 {
        Seq::empty()
    } else {
        spec_obj_invocations(regs, n - 1, ct, tgt, e) + if regs[n - 1].obj == ct
            && spec_matches(regs[n - 1].filter, e) {
            seq![
                Invocation {
                    registration: (n - 1) as usize,
                    event: e,
                    child: spec_child(ct, tgt),
                },
            ]
        } else {
            Seq::empty()
        }
    }
}

/// The invocations produced by delivering event `e`, raised on `tgt`, to
/// each object of `chain` in order.
pub open spec fn spec_deliver_chain(
    regs: Seq<Registration>,
    chain: Seq<int>,
    tgt: int,
    e: Event,
) -> Seq<Invocation>
    decreases chain.len(),
{
    if chain.len() == 0 {
        Seq::empty()
    } else {
        spec_obj_invocations(regs, regs.len() as int, chain[0], tgt, e) + spec_deliver_chain(
            regs,
            chain.drop_first(),
            tgt,
            e,
        )
    }
}

/// Every invocation one raised native event produces: nothing when the
/// code is outside the closed enumeration (such a raise is silently
/// dropped), otherwise the deliveries along the bubbling chain.
pub open spec fn spec_raise(
    objects: Seq<ObjectRec>,
    regs: Seq<Registration>,
    tgt: int,
    code: u32,
) -> Seq<Invocation> {
    match spec_event_from_code(code) {
        None => Seq::empty(),
        Some(e) => spec_deliver_chain(regs, spec_chain(objects, tgt), tgt, e),
    }
}

/// The invocations of the first `n` queued raises of one scheduler pass,
/// in order.
pub open spec fn spec_pass(
    objects: Seq<ObjectRec>,
    regs: Seq<Registration>,
    pending: Seq<RawEvent>,
    n: int,
) -> Seq<Invocation>
    decreases n,
{
    if n <= 0 {
        Seq::empty()
    } else {
        spec_pass(objects, regs, pending, n - 1) + spec_raise(
            objects,
            regs,
            pending[n - 1].target as int,
            pending[n - 1].code,
        )
    }
}

/// The invocations of a sequence that belong to registration `i`, in
/// order.
pub open spec fn spec_for_registration(invs: Seq<Invocation>, i: int) -> Seq<Invocation>
    decreases invs.len(),
{
    if invs.len() == 0 {
        Seq::empty()
    } else {
        let rest = spec_for_registration(invs.drop_first(), i);
        if invs[0].registration == i {
            seq![invs[0]] + rest
        } else {
            rest
        }
    }
}

proof fn lemma_for_registration_empty(i: int)
    ensures
        spec_for_registration(Seq::<Invocation>::empty(), i) == Seq::<Invocation>::empty(),
{
}

proof fn lemma_for_registration_singleton(x: Invocation, i: int)
    ensures
        x.registration == i ==> spec_for_registration(seq![x], i) == seq![x],
        x.registration != i ==> spec_for_registration(seq![x], i) == Seq::<Invocation>::empty(),
{
    reveal_with_fuel(spec_for_registration, 2);
    assert(seq![x].drop_first() =~= Seq::<Invocation>::empty());
    if x.registration == i {
        assert(spec_for_registration(seq![x], i) =~= seq![x]);
    }
}

proof fn lemma_for_registration_distributes(a: Seq<Invocation>, b: Seq<Invocation>, i: int)
    ensures
        spec_for_registration(a + b, i) == spec_for_registration(a, i) + spec_for_registration(
            b,
            i,
        ),
    decreases a.len(),
{
    if a.len() == 0 {
        assert(a + b =~= b);
        assert(spec_for_registration(a, i) + spec_for_registration(b, i) =~= spec_for_registration(
            b,
            i,
        ));
    } else {
        lemma_for_registration_distributes(a.drop_first(), b, i);
        assert((a + b).drop_first() =~= a.drop_first() + b);
        assert((a + b)[0] == a[0]);
        if a[0].registration == i {
            assert(seq![a[0]] + (spec_for_registration(a.drop_first(), i) + spec_for_registration(
                b,
                i,
            )) =~= (seq![a[0]] + spec_for_registration(a.drop_first(), i))
                + spec_for_registration(b, i));
        }
    }
}

/// Among one delivery of `e` at object `ct`, registration `i` fires at
/// most once: exactly when it is a registration on `ct` whose filter
/// accepts `e`, and then with the child `spec_child` gives.
proof fn lemma_obj_invocations_for(
    regs: Seq<Registration>,
    n: int,
    ct: int,
    tgt: int,
    e: Event,
    i: int,
)
    requires
        n <= regs.len() <= usize::MAX,
    ensures
        (0 <= i < n && regs[i].obj == ct && spec_matches(regs[i].filter, e))
            ==> spec_for_registration(spec_obj_invocations(regs, n, ct, tgt, e), i)
            == seq![Invocation { registration: i as usize, event: e, child: spec_child(ct, tgt) }],
        !(0 <= i < n && regs[i].obj == ct && spec_matches(regs[i].filter, e))
            ==> spec_for_registration(spec_obj_invocations(regs, n, ct, tgt, e), i)
            == Seq::<Invocation>::empty(),
    decreases n,
{
    if n <= 0 {
    } else {
        lemma_obj_invocations_for(regs, n - 1, ct, tgt, e, i);
        let prev = spec_obj_invocations(regs, n - 1, ct, tgt, e);
        let fires = regs[n - 1].obj == ct && spec_matches(regs[n - 1].filter, e);
        let tail = if fires {
            seq![
                Invocation {
                    registration: (n - 1) as usize,
                    event: e,
                    child: spec_child(ct, tgt),
                },
            ]
        } else {
            Seq::<Invocation>::empty()
        };
        assert(spec_obj_invocations(regs, n, ct, tgt, e) == prev + tail);
        lemma_for_registration_distributes(prev, tail, i);
        if fires {
            lemma_for_registration_singleton(tail[0], i);
        }
        if fires {
            assert(seq![tail[0]] =~= tail);
        } else {
            assert(spec_for_registration(tail, i) == Seq::<Invocation>::empty());
        }
        let whole = spec_for_registration(spec_obj_invocations(regs, n, ct, tgt, e), i);
        assert(whole == spec_for_registration(prev, i) + spec_for_registration(tail, i));
        if i == n - 1 && fires {
            assert(spec_for_registration(prev, i) == Seq::<Invocation>::empty());
            assert(tail[0].registration == i);
            assert(spec_for_registration(seq![tail[0]], i) == seq![tail[0]]);
            assert(spec_for_registration(tail, i) == tail);
            assert(whole == Seq::<Invocation>::empty() + tail);
            assert(Seq::<Invocation>::empty() + tail =~= tail);
            assert(whole == tail);
        } else {
            if fires {
                assert(tail[0].registration != i);
                assert(spec_for_registration(seq![tail[0]], i) == Seq::<Invocation>::empty());
            }
            assert(spec_for_registration(tail, i) == Seq::<Invocation>::empty());
            assert(whole == spec_for_registration(prev, i) + Seq::<Invocation>::empty());
            assert(spec_for_registration(prev, i) + Seq::<Invocation>::empty() =~= spec_for_registration(prev, i));
            assert(whole == spec_for_registration(prev, i));
        }
    }
}

/// The shape of a bubbling chain: it starts at the raising object and
/// every later element is a strictly smaller index.
proof fn lemma_chain_shape(objects: Seq<ObjectRec>, t: int)
    requires
        t >= 0,
    ensures
        spec_chain(objects, t).len() >= 1,
        spec_chain(objects, t)[0] == t,
        forall|k: int|
            1 <= k < spec_chain(objects, t).len() ==> #[trigger] spec_chain(objects, t)[k] < t,
        forall|k: int|
            0 <= k < spec_chain(objects, t).len() ==> 0 <= #[trigger] spec_chain(objects, t)[k]
                <= t,
    decreases t,
{
    let ch = spec_chain(objects, t);
    if 0 <= t && t < objects.len() && spec_bubbles(objects[t]) {
        match objects[t].parent {
            Some(p) => {
                if p < t {
                    lemma_chain_shape(objects, p as int);
                    assert(ch == seq![t] + spec_chain(objects, p as int));
                } else {
                }
            },
            None => {},
        }
    } else {
    }
}

/// When exactly one element of the chain is registration `i`'s object, the
/// registration fires exactly once over the whole delivery walk.
proof fn lemma_deliver_chain_one_hit(
    regs: Seq<Registration>,
    chain: Seq<int>,
    tgt: int,
    e: Event,
    i: int,
    m: int,
)
    requires
        regs.len() <= usize::MAX,
        0 <= i < regs.len(),
        0 <= m < chain.len(),
        chain[m] == regs[i].obj,
        forall|k: int| 0 <= k < chain.len() && k != m ==> #[trigger] chain[k] != regs[i].obj,
        spec_matches(regs[i].filter, e),
    ensures
        spec_for_registration(spec_deliver_chain(regs, chain, tgt, e), i) == seq![
            Invocation {
                registration: i as usize,
                event: e,
                child: spec_child(regs[i].obj as int, tgt),
            },
        ],
    decreases chain.len(),
{
    let head = spec_obj_invocations(regs, regs.len() as int, chain[0], tgt, e);
    let rest = spec_deliver_chain(regs, chain.drop_first(), tgt, e);
    lemma_obj_invocations_for(regs, regs.len() as int, chain[0], tgt, e, i);
    lemma_for_registration_distributes(head, rest, i);
    if m == 0 {
        lemma_deliver_chain_absent(regs, chain.drop_first(), tgt, e, i);
    } else {
        lemma_deliver_chain_one_hit(regs, chain.drop_first(), tgt, e, i, m - 1);
    }
    assert(spec_for_registration(spec_deliver_chain(regs, chain, tgt, e), i) =~= seq![
        Invocation {
            registration: i as usize,
            event: e,
            child: spec_child(regs[i].obj as int, tgt),
        },
    ]);
}

/// When no element of the chain is registration `i`'s object, the
/// registration does not fire at all.
proof fn lemma_deliver_chain_absent(
    regs: Seq<Registration>,
    chain: Seq<int>,
    tgt: int,
    e: Event,
    i: int,
)
    requires
        regs.len() <= usize::MAX,
        0 <= i < regs.len(),
        forall|k: int| 0 <= k < chain.len() ==> #[trigger] chain[k] != regs[i].obj,
    ensures
        spec_for_registration(spec_deliver_chain(regs, chain, tgt, e), i) == Seq::<
            Invocation,
        >::empty(),
    decreases chain.len(),
{
    if chain.len() == 0 {
        lemma_for_registration_empty(i);
    } else {
        let head = spec_obj_invocations(regs, regs.len() as int, chain[0], tgt, e);
        let rest = spec_deliver_chain(regs, chain.drop_first(), tgt, e);
        lemma_obj_invocations_for(regs, regs.len() as int, chain[0], tgt, e, i);
        lemma_deliver_chain_absent(regs, chain.drop_first(), tgt, e, i);
        lemma_for_registration_distributes(head, rest, i);
        assert(spec_for_registration(spec_deliver_chain(regs, chain, tgt, e), i) =~= Seq::<
            Invocation,
        >::empty());
    }
}

/// A callback registered on an object — whether for one event kind whose
/// filter accepts `e`, or for every kind — is invoked exactly once per
/// raise of `e`'s code on that object, and with no child handle: the
/// raising object is the registration's own.
pub proof fn lemma_registered_callback_fires_once(
    objects: Seq<ObjectRec>,
    regs: Seq<Registration>,
    i: int,
    tgt: int,
    e: Event,
)
    requires
        regs.len() <= usize::MAX,
        0 <= i < regs.len(),
        regs[i].obj == tgt,
        spec_matches(regs[i].filter, e),
    ensures
        spec_for_registration(spec_raise(objects, regs, tgt, spec_event_code(e)), i) == seq![
            Invocation { registration: i as usize, event: e, child: None },
        ],
{
    crate::event::lemma_event_code_round_trip(e);
    let chain = spec_chain(objects, tgt);
    lemma_chain_shape(objects, tgt);
    lemma_deliver_chain_one_hit(regs, chain, tgt, e, i, 0);
    assert(spec_child(regs[i].obj as int, tgt) == None::<Obj>);
}

/// A registration made with no filter fires for every event kind raised
/// on its object, whatever the kind: the law above, for every `e` at once.
pub proof fn lemma_any_filter_fires_for_every_event(
    objects: Seq<ObjectRec>,
    regs: Seq<Registration>,
    i: int,
    tgt: int,
)
    requires
        regs.len() <= usize::MAX,
        0 <= i < regs.len(),
        regs[i].obj == tgt,
        regs[i].filter is None,
    ensures
        forall|e: Event|
            spec_for_registration(
                spec_raise(objects, regs, tgt, spec_event_code(e)),
                i,
            ) == seq![Invocation { registration: i as usize, event: e, child: None }],
{
    assert forall|e: Event|
        spec_for_registration(spec_raise(objects, regs, tgt, spec_event_code(e)), i) == seq![
            Invocation { registration: i as usize, event: e, child: None },
        ] by {
        lemma_registered_callback_fires_once(objects, regs, i, tgt, e);
    }
}

/// When a child with bubbling enabled raises an event that a registration
/// on its parent accepts, that registration is invoked exactly once, with
/// a child handle naming exactly the raising descendant.
pub proof fn lemma_bubbled_event_carries_child_handle(
    objects: Seq<ObjectRec>,
    regs: Seq<Registration>,
    i: int,
    a: int,
    b: int,
    e: Event,
)
    requires
        regs.len() <= usize::MAX,
        0 <= i < regs.len(),
        0 <= b < objects.len(),
        objects[b].parent == Some(a as usize),
        0 <= a < b,
        spec_bubbles(objects[b]),
        regs[i].obj == a,
        spec_matches(regs[i].filter, e),
    ensures
        spec_for_registration(spec_raise(objects, regs, b, spec_event_code(e)), i) == seq![
            Invocation {
                registration: i as usize,
                event: e,
                child: Some(Obj { id: b as usize }),
            },
        ],
{
    crate::event::lemma_event_code_round_trip(e);
    let chain = spec_chain(objects, b);
    let achain = spec_chain(objects, a);
    assert(chain == seq![b] + achain);
    lemma_chain_shape(objects, a);
    assert(chain[1] == a);
    assert forall|k: int| 0 <= k < chain.len() && k != 1 implies #[trigger] chain[k]
        != regs[i].obj by {
        if k == 0 {
        } else {
            assert(chain[k] == achain[k - 1]);
        }
    }
    lemma_deliver_chain_one_hit(regs, chain, b, e, i, 1);
    assert(spec_child(a, b) == Some(Obj { id: b as usize }));
}

/// Without the bubble flag, an event raised on one object never reaches a
/// registration made on a different object.
pub proof fn lemma_no_bubble_no_delivery(
    objects: Seq<ObjectRec>,
    regs: Seq<Registration>,
    i: int,
    b: int,
    code: u32,
)
    requires
        regs.len() <= usize::MAX,
        0 <= i < regs.len(),
        0 <= b < objects.len(),
        !spec_bubbles(objects[b]),
        regs[i].obj != b,
    ensures
        spec_for_registration(spec_raise(objects, regs, b, code), i) == Seq::<
            Invocation,
        >::empty(),
{
    match spec_event_from_code(code) {
        None => {
            lemma_for_registration_empty(i);
        },
        Some(e) => {
            let chain = spec_chain(objects, b);
            assert(chain == seq![b]);
            lemma_deliver_chain_absent(regs, chain, b, e, i);
        },
    }
}

/// A raise whose native code is outside the closed enumeration is dropped
/// silently: it produces no invocation at all.
pub proof fn lemma_unrecognized_code_dropped(
    objects: Seq<ObjectRec>,
    regs: Seq<Registration>,
    tgt: int,
    code: u32,
)
    requires
        spec_event_from_code(code) is None,
    ensures
        spec_raise(objects, regs, tgt, code) == Seq::<Invocation>::empty(),
{
}

pub(crate) fn obj_invocations(
    regs: &Vec<Registration>,
    ct: usize,
    tgt: usize,
    e: Event,
    out: &mut Vec<Invocation>,
)
    ensures
        final(out)@ == old(out)@ + spec_obj_invocations(
            regs@,
            regs@.len() as int,
            ct as int,
            tgt as int,
            e,
        ),
{
    let ghost base = out@;
    let mut i: usize = 0;
    while i < regs.len()
        invariant
            i <= regs.len(),
            out@ == base + spec_obj_invocations(regs@, i as int, ct as int, tgt as int, e),
        decreases regs.len() - i,
    {
        let reg = regs[i];
        let fires = reg.obj == ct && match reg.filter {
            None => true,
            Some(f) => f == e,
        };
        if fires {
            let child = if ct == tgt {
                None
            } else {
                Some(Obj { id: tgt })
            };
            out.push(Invocation { registration: i, event: e, child });
        }
        proof {
            broadcast use vstd::seq_lib::group_seq_properties;

            assert(spec_child(ct as int, tgt as int) == (if ct == tgt {
                None::<Obj>
            } else {
                Some(Obj { id: tgt })
            }));
            assert(out@ =~= base + spec_obj_invocations(regs@, i + 1, ct as int, tgt as int, e));
        }
        i = i + 1;
    }
}

#[verifier::loop_isolation(false)]
pub(crate) fn raise_into(
    objects: &Vec<ObjectRec>,
    regs: &Vec<Registration>,
    tgt: usize,
    code: u32,
    out: &mut Vec<Invocation>,
)
    ensures
        final(out)@ == old(out)@ + spec_raise(objects@, regs@, tgt as int, code),
{
    let e = match Event::from_code(code) {
        Some(e) => e,
        None => {
            proof {
                broadcast use vstd::seq_lib::group_seq_properties;

                assert(out@ =~= out@ + spec_raise(objects@, regs@, tgt as int, code));
            }
            return ;
        },
    };
    let ghost base = out@;
    let ghost full = spec_deliver_chain(regs@, spec_chain(objects@, tgt as int), tgt as int, e);
    let mut current: usize = tgt;
    loop
        invariant
            out@ + spec_deliver_chain(regs@, spec_chain(objects@, current as int), tgt as int, e)
                == base + full,
        decreases current,
    {
        obj_invocations(regs, current, tgt, e, out);
        let continues = if current < objects.len() {
            let bubbles = objects[current].flags & LV_OBJ_FLAG_EVENT_BUBBLE != 0;
            if bubbles {
                match objects[current].parent {
                    Some(p) => if p < current {
                        Some(p)
                    } else {
                        None
                    },
                    None => None,
                }
            } else {
                None
            }
        } else {
            None
        };
        proof {
            broadcast use vstd::seq_lib::group_seq_properties;

            let ch = spec_chain(objects@, current as int);
            if continues is Some {
                let p = continues->Some_0;
                assert(ch =~= seq![current as int] + spec_chain(objects@, p as int));
                assert(ch.drop_first() =~= spec_chain(objects@, p as int));
            } else {
                assert(ch =~= seq![current as int]);
                assert(ch.drop_first() =~= Seq::<int>::empty());
                assert(spec_deliver_chain(regs@, ch.drop_first(), tgt as int, e)
                    == Seq::<Invocation>::empty());
            }
            assert(out@ + spec_deliver_chain(regs@, ch.drop_first(), tgt as int, e) =~= base
                + full);
        }
        match continues {
            Some(p) => {
                current = p;
            },
            None => {
                proof {
                    broadcast use vstd::seq_lib::group_seq_properties;

                    assert(out@ =~= base + full);
                    assert(spec_event_from_code(code) == Some(e));
                    assert(spec_raise(objects@, regs@, tgt as int, code) == full);
                }
                return ;
            },
        }
    }
}

} // verus!

