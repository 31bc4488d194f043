//! The registration and dispatch bridge. A registration binds a callback slot
//! to a widget's native handler handle, a filter of event kinds, and an
//! optional sub-item id. Each registration walks one way through its life:
//! made active by `register`, named by `dispatch_targets` while a matching
//! event is dispatched, and reclaimed exactly once by `teardown`.
//!
//! The bridge owns only the decisions. The callbacks themselves live with the
//! host, in a table indexed by the slot numbers the bridge hands out; the
//! host invokes the slots a dispatch plan names, in the plan's order.

use vstd::prelude::*;

use crate::event::Event;
use crate::event_type::EventType;

verus! {

/// A widget's native event-handler handle, as a plain value. Zero stands for
/// a null handle: a widget that has nothing to dispatch against.
#[derive(Clone, Copy, Debug, PartialEq, Eq, Structural)]
pub struct SourceHandle {
    pub raw: u64,
}

impl SourceHandle {
    pub fn new(raw: u64) -> (r: SourceHandle)
        ensures
            r.raw == raw,
    {
        SourceHandle { raw: raw }
    }

    /// The handle of a widget with no native object behind it.
    pub fn null() -> (r: SourceHandle)
        ensures
            r.raw == 0,
    {
        SourceHandle { raw: 0 }
    }

    pub fn is_null(&self) -> (r: bool)
        ensures
            r == (self.raw == 0),
    {
        self.raw == 0
    }
}

/// Where a registration stands in its life.
#[derive(Clone, Copy, Debug, PartialEq, Eq, Structural)]
pub enum RegState {
    /// The callback slot is live and may be dispatched to.
    Active,
    /// The slot was reclaimed; it must never be dispatched to again.
    Destroyed,
}

/// One registration: the record behind one callback slot.
#[derive(Clone, Copy, Debug, PartialEq, Eq, Structural)]
pub struct Registration {
    /// The handle of the widget the callback was bound on.
    pub source: u64,
    /// The kinds the callback asked for.
    pub filter: EventType,
    /// Whether the registration is scoped to one sub-item id.
    pub has_scope: bool,
    /// The sub-item id, meaningful only when `has_scope` is set.
    pub scope_id: i32,
    pub state: RegState,
}

/// Whether a dispatch on the given handler handle, carrying the given event,
/// reaches this registration: the slot is still active, the event is real,
/// the handles agree, the event's kind is in the filter, and a scoped
/// registration sees its own sub-item id.
pub open spec fn reg_matches(r: Registration, source: u64, e: Event) -> bool {
    &&& r.state is Active
    &&& e.valid
    &&& r.source == source
    &&& (r.filter.bits & e.event_type.bits) != 0
    &&& (r.has_scope ==> r.scope_id == e.id)
}

/// What a correct answer to one native dispatch looks like: every named slot
/// matches, the slots come in strictly ascending order (so none is named
/// twice), and every matching slot is named.
pub open spec fn is_dispatch_plan(
    slots: Seq<Registration>,
    source: u64,
    e: Event,
    plan: Seq<usize>,
) -> bool {
    &&& forall|i: int|
        0 <= i < plan.len() ==> (#[trigger] plan[i]) < slots.len() && reg_matches(
            slots[plan[i] as int],
            source,
            e,
        )
    &&& forall|i: int, j: int|
        #![trigger plan[i], plan[j]]
        0 <= i < j < plan.len() ==> plan[i] < plan[j]
    &&& forall|s: int|
        0 <= s < slots.len() && reg_matches(#[trigger] slots[s], source, e) ==> plan.contains(
            s as usize,
        )
}

/// What teardown does to the slot table: an active slot is marked destroyed
/// and the call is acknowledged; any other slot number, a slot already
/// destroyed included, changes nothing and is refused.
pub open spec fn spec_teardown(slots: Seq<Registration>, slot: int) -> (Seq<Registration>, bool) {
    if 0 <= slot < slots.len() && slots[slot].state is Active {
        (
            slots.update(slot, Registration { state: RegState::Destroyed, ..slots[slot] }),
            true,
        )
    } else {
        (slots, false)
    }
}

/// The bridge's slot table. Its view is the sequence of registrations, in the
/// order they were made; a slot number is an index into it.
pub struct EventBridge {
    slots: Vec<Registration>,
}

impl View for EventBridge {
    type V = Seq<Registration>;

    closed spec fn view(&self) -> Seq<Registration> {
        self.slots@
    }
}

impl EventBridge {
    /// A bridge with no registrations.
    pub fn new() -> (r: EventBridge)
        ensures
            r@ == Seq::<Registration>::empty(),
    {
        EventBridge { slots: Vec::new() }
    }

    /// How many slots were ever handed out, reclaimed ones included.
    pub fn slot_count(&self) -> (r: usize)
        ensures
            r == self@.len(),
    {
        self.slots.len()
    }

    /// Whether the slot exists and is still active.
    pub fn is_active(&self, slot: usize) -> (r: bool)
        ensures
            r == (slot < self@.len() && self@[slot as int].state is Active),
    {
        slot < self.slots.len() && matches!(self.slots[slot].state, RegState::Active)
    }

    /// The registration behind a slot.
    pub fn slot(&self, slot: usize) -> (r: Registration)
        requires
            slot < self@.len(),
        ensures
            r == self@[slot as int],
    {
        self.slots[slot]
    }

    /// Binds a callback slot to a widget for the kinds in the filter. On a
    /// null handle there is nothing to dispatch against: the registration is
    /// a no-op and no slot is made. Otherwise exactly one new active slot is
    /// appended and its number returned.
    pub fn register(&mut self, source: &SourceHandle, filter: EventType) -> (r: Option<usize>)
        ensures
            source.raw == 0 ==> r is None && final(self)@ == old(self)@,
            source.raw != 0 ==> r == Some(old(self)@.len() as usize) && final(self)@ == old(
                self,
            )@.push(
                Registration {
                    source: source.raw,
                    filter: filter,
                    has_scope: false,
                    scope_id: 0,
                    state: RegState::Active,
                },
            ),
    {
        if source.raw == 0 {
            return None;
        }
        let slot = self.slots.len();
        self.slots.push(
            Registration {
                source: source.raw,
                filter: filter,
                has_scope: false,
                scope_id: 0,
                state: RegState::Active,
            },
        );
        Some(slot)
    }

    /// Like `register`, scoped to one sub-item id: the slot is reached only
    /// by events that carry that id, the way menu items and toolbar buttons
    /// share one handler.
    pub fn register_with_id(&mut self, source: &SourceHandle, filter: EventType, id: i32) -> (r:
        Option<usize>)
        ensures
            source.raw == 0 ==> r is None && final(self)@ == old(self)@,
            source.raw != 0 ==> r == Some(old(self)@.len() as usize) && final(self)@ == old(
                self,
            )@.push(
                Registration {
                    source: source.raw,
                    filter: filter,
                    has_scope: true,
                    scope_id: id,
                    state: RegState::Active,
                },
            ),
    {
        if source.raw == 0 {
            return None;
        }
        let slot = self.slots.len();
        self.slots.push(
            Registration {
                source: source.raw,
                filter: filter,
                has_scope: true,
                scope_id: id,
                state: RegState::Active,
            },
        );
        Some(slot)
    }

    /// Decides one native dispatch: names, in ascending order, exactly the
    /// active slots the event reaches on the given handler handle. The host
    /// invokes each named slot's callback once, in order. An event standing
    /// for a null native handle matches no registration, so its plan is
    /// empty: there is nothing to hand a callback.
    pub fn dispatch_targets(&self, source: u64, e: &Event) -> (r: Vec<usize>)
        ensures
            is_dispatch_plan(self@, source, *e, r@),
    {
        let mut plan: Vec<usize> = Vec::new();
        let n = self.slots.len();
        let mut i: usize = 0;
        while i < n
            invariant
                n == self@.len(),
                i <= n,
                forall|k: int|
                    0 <= k < plan@.len() ==> (#[trigger] plan@[k]) < i && reg_matches(
                        self@[plan@[k] as int],
                        source,
                        *e,
                    ),
                forall|k: int, l: int|
                    #![trigger plan@[k], plan@[l]]
                    0 <= k < l < plan@.len() ==> plan@[k] < plan@[l],
                forall|s: int|
                    0 <= s < i && reg_matches(#[trigger] self@[s], source, *e) ==> plan@.contains(
                        s as usize,
                    ),
            decreases n - i,
        {
            let ghost prev = plan@;
            if reg_matches_exec(&self.slots[i], source, e) {
                plan.push(i);
                proof {
                    assert forall|s: int|
                        0 <= s < i + 1 && reg_matches(#[trigger] self@[s], source, *e) implies plan@.contains(
                        s as usize,
                    ) by {
                        if s < i {
                            let k = choose|k: int| 0 <= k < prev.len() && prev[k] == s as usize;
                            assert(plan@[k] == s as usize);
                        } else {
                            assert(plan@[prev.len() as int] == i);
                        }
                    }
                }
            }
            i = i + 1;
        }
        plan
    }

    /// Reclaims a slot, as the native layer's single teardown call for one
    /// registration. Acknowledged exactly once: a second call for the same
    /// slot, or a call for a slot that was never made, is refused and
    /// changes nothing.
    pub fn teardown(&mut self, slot: usize) -> (r: bool)
        ensures
            final(self)@ == spec_teardown(old(self)@, slot as int).0,
            r == spec_teardown(old(self)@, slot as int).1,
    {
        if slot < self.slots.len() {
            let reg = self.slots[slot];
            if matches!(reg.state, RegState::Active) {
                self.slots.set(slot, Registration { state: RegState::Destroyed, ..reg });
                return true;
            }
        }
        false
    }
}

/// Whether a dispatch reaches a registration, as a runtime test.
fn reg_matches_exec(r: &Registration, source: u64, e: &Event) -> (b: bool)
    ensures
        b == reg_matches(*r, source, *e),
{
    matches!(r.state, RegState::Active) && e.valid && r.source == source && (r.filter.bits
        & e.event_type.bits) != 0 && (!r.has_scope || r.scope_id == e.id)
}

/// How often a slot number occurs in a dispatch plan.
pub open spec fn occurrences(plan: Seq<usize>, s: usize) -> nat
    decreases plan.len(),
{
    if plan.len() == 0 {
        0
    } else {
        occurrences(plan.drop_last(), s) + if plan.last() == s {
            1nat
        } else {
            0nat
        }
    }
}

proof fn lemma_occurrences_absent(plan: Seq<usize>, s: usize)
    requires
        !plan.contains(s),
    ensures
        occurrences(plan, s) == 0,
    decreases plan.len(),
{
    if plan.len() > 0 {
        assert(forall|i: int| 0 <= i < plan.len() - 1 ==> plan.drop_last()[i] == plan[i]);
        assert(!plan.drop_last().contains(s)) by {
            if plan.drop_last().contains(s) {
                let i = choose|i: int| 0 <= i < plan.drop_last().len() && plan.drop_last()[i] == s;
                assert(plan[i] == s);
            }
        }
        lemma_occurrences_absent(plan.drop_last(), s);
    }
}

proof fn lemma_ascending_occurrences(plan: Seq<usize>, s: usize)
    requires
        forall|i: int, j: int| #![trigger plan[i], plan[j]] 0 <= i < j < plan.len() ==> plan[i] < plan[j],
        plan.contains(s),
    ensures
        occurrences(plan, s) == 1,
    decreases plan.len(),
{
    let pre = plan.drop_last();
    assert(forall|i: int| 0 <= i < pre.len() ==> pre[i] == plan[i]);
    if plan.last() == s {
        assert(!pre.contains(s)) by {
            if pre.contains(s) {
                let i = choose|i: int| 0 <= i < pre.len() && pre[i] == s;
                assert(plan[i] == plan[plan.len() - 1]);
            }
        }
        lemma_occurrences_absent(pre, s);
    } else {
        let i = choose|i: int| 0 <= i < plan.len() && plan[i] == s;
        assert(i < plan.len() - 1);
        assert(pre.contains(s)) by {
            assert(pre[i] == s);
        }
        lemma_ascending_occurrences(pre, s);
    }
}

/// One native dispatch invokes a matching callback exactly once — never
/// twice, never dropped — and a slot the event does not reach not at all.
pub proof fn lemma_dispatch_exactly_once(
    slots: Seq<Registration>,
    source: u64,
    e: Event,
    plan: Seq<usize>,
    s: usize,
)
    requires
        is_dispatch_plan(slots, source, e, plan),
        (s as int) < slots.len(),
    ensures
        reg_matches(slots[s as int], source, e) ==> occurrences(plan, s) == 1,
        !reg_matches(slots[s as int], source, e) ==> occurrences(plan, s) == 0,
{
    if reg_matches(slots[s as int], source, e) {
        lemma_ascending_occurrences(plan, s);
    } else {
        assert(!plan.contains(s)) by {
            if plan.contains(s) {
                let i = choose|i: int| 0 <= i < plan.len() && plan[i] == s;
                assert(reg_matches(slots[plan[i] as int], source, e));
            }
        }
        lemma_occurrences_absent(plan, s);
    }
}

/// After a slot was torn down, no dispatch plan names it again.
pub proof fn lemma_no_dispatch_after_teardown(
    slots: Seq<Registration>,
    source: u64,
    e: Event,
    plan: Seq<usize>,
    s: usize,
)
    requires
        is_dispatch_plan(slots, source, e, plan),
        (s as int) < slots.len(),
        slots[s as int].state is Destroyed,
    ensures
        !plan.contains(s),
        occurrences(plan, s) == 0,
{
    assert(!plan.contains(s)) by {
        if plan.contains(s) {
            let i = choose|i: int| 0 <= i < plan.len() && plan[i] == s;
            assert(reg_matches(slots[plan[i] as int], source, e));
        }
    }
    lemma_occurrences_absent(plan, s);
}

/// Teardown is acknowledged at most once per slot: after a teardown, tearing
/// the same slot down again is refused and changes nothing.
pub proof fn lemma_teardown_at_most_once(slots: Seq<Registration>, slot: int)
    ensures
        spec_teardown(spec_teardown(slots, slot).0, slot).1 == false,
        spec_teardown(spec_teardown(slots, slot).0, slot).0 == spec_teardown(slots, slot).0,
{
}

} // verus!
