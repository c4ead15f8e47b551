//! Events of the compositor on their way to the entities that they are for.
//!
//! Some objects are made by the compositor, and events for them arrive before it is settled which
//! entity stands for them. Such events wait.

use vstd::prelude::*;
use std::collections::HashMap;

verus! {

/// The events of an object that no entity stands for yet.
pub struct LateObject<E> {
    pub object: u64,
    pub queued: Vec<E>,
}

/// The events that are yet to be handled.
pub struct EventQueue<E> {
    /// Events with the entities that they are for.
    pub events: Vec<(u64, E)>,
    /// The entities of objects that were made by the compositor.
    pub keys: HashMap<u64, u64>,
    /// Objects with events that wait, by the age of their first event.
    pub late: Vec<LateObject<E>>,
}

/// Events of one entity.
pub open spec fn with_key<E>(key: u64, events: Seq<E>) -> Seq<(u64, E)> {
    events.map_values(|event: E| (key, event))
}

/// The waiting events of those objects that entities stand for, oldest object first.
pub open spec fn settled<E>(late: Seq<LateObject<E>>, keys: Map<u64, u64>) -> Seq<(u64, E)>
    decreases late.len(),
{
    if late.len() == 0 {
        Seq::empty()
    } else {
        let before = settled(late.drop_last(), keys);
        let last = late.last();
        if keys.contains_key(last.object) {
            before + with_key(keys[last.object], last.queued@)
        } else {
            before
        }
    }
}

/// The objects that no entity stands for.
pub open spec fn unsettled<E>(late: Seq<LateObject<E>>, keys: Map<u64, u64>) -> Seq<LateObject<E>>
    decreases late.len(),
{
    if late.len() == 0 {
        Seq::empty()
    } else {
        let before = unsettled(late.drop_last(), keys);
        if keys.contains_key(late.last().object) {
            before
        } else {
            before.push(late.last())
        }
    }
}

/// Whether an object waits at a place.
pub open spec fn waits_at<E>(late: Seq<LateObject<E>>, object: u64, k: int) -> bool {
    0 <= k < late.len() && late[k].object == object
}

/// What waits after an event for an object that no entity stands for.
pub open spec fn is_queued<E>(
    before: Seq<LateObject<E>>,
    after: Seq<LateObject<E>>,
    object: u64,
    event: E,
) -> bool {
    if exists|k: int| waits_at(before, object, k) {
        exists|k: int| #[trigger]
            waits_at(before, object, k) && waits_at(after, object, k) && after[k].queued@
                == before[k].queued@.push(event) && after == before.update(k, after[k])
    } else {
        &&& after.len() == before.len() + 1
        &&& after.drop_last() == before
        &&& after.last().object == object
        &&& after.last().queued@ == seq![event]
    }
}

proof fn lemma_unsettled_wait_once<E>(late: Seq<LateObject<E>>, keys: Map<u64, u64>)
    requires
        forall|j: int, k: int|
            0 <= j < k < late.len() ==> (#[trigger] late[j]).object != (#[trigger] late[k]).object,
    ensures
        forall|k: int|
            0 <= k < unsettled(late, keys).len() ==> late.contains(
                #[trigger] unsettled(late, keys)[k],
            ),
        forall|j: int, k: int|
            0 <= j < k < unsettled(late, keys).len() ==> (#[trigger] unsettled(
                late,
                keys,
            )[j]).object != (#[trigger] unsettled(late, keys)[k]).object,
    decreases late.len(),
{
    if late.len() > 0 {
        let first = late.drop_last();
        let before = unsettled(first, keys);
        assert forall|j: int, k: int| 0 <= j < k < first.len() implies (#[trigger] first[j]).object
            != (#[trigger] first[k]).object by {
            assert(late[j] == first[j] && late[k] == first[k]);
        }
        lemma_unsettled_wait_once(first, keys);
        assert forall|k: int| 0 <= k < before.len() implies late.contains(#[trigger] before[k])
            && before[k].object != late.last().object by {
            let j = choose|j: int| 0 <= j < first.len() && first[j] == before[k];
            assert(late[j] == before[k]);
            assert(late[late.len() - 1].object != late[j].object);
        }
        assert(late.contains(late[late.len() - 1]));
    }
}

/// Appends the events of one entity.
fn append_events<E>(events: &mut Vec<(u64, E)>, key: u64, queued: Vec<E>)
    ensures
        final(events)@ == old(events)@ + with_key(key, queued@),
{
    let ghost before = events@;
    let ghost all = queued@;
    let mut rest = queued;
    let ghost mut n: int = 0;
    while rest.len() > 0
        invariant
            0 <= n <= all.len(),
            rest@ == all.skip(n),
            events@ == before + with_key(key, all.take(n)),
        decreases rest.len(),
    {
        let event = rest.remove(0);
        events.push((key, event));
        proof {
            assert(rest@ =~= all.skip(n + 1));
            assert(with_key(key, all.take(n + 1)) =~= with_key(key, all.take(n)).push(
                (key, all[n]),
            ));
            assert(events@ =~= before + with_key(key, all.take(n + 1)));
            n = n + 1;
        }
    }
    assert(all.take(n) =~= all);
}

impl<E> EventQueue<E> {
    /// Whether each object waits once.
    pub open spec fn wf(self) -> bool {
        forall|j: int, k: int|
            0 <= j < k < self.late@.len() ==> (#[trigger] self.late@[j]).object != (
            #[trigger] self.late@[k]).object
    }

    /// No events.
    pub fn new() -> (queue: EventQueue<E>)
        ensures
            queue.wf(),
            queue.events@ == Seq::<(u64, E)>::empty(),
            queue.keys@ == Map::<u64, u64>::empty(),
            queue.late@ == Seq::<LateObject<E>>::empty(),
    {
        EventQueue { events: Vec::new(), keys: HashMap::new(), late: Vec::new() }
    }

    /// Takes an event for an entity.
    pub fn push_event(&mut self, entity: u64, event: E)
        ensures
            final(self).events@ == old(self).events@.push((entity, event)),
            final(self).keys == old(self).keys,
            final(self).late == old(self).late,
    {
        self.events.push((entity, event));
    }

    /// Takes an event for an object that the compositor made. It waits if no entity stands for the
    /// object yet.
    pub fn push_or_queue_event(&mut self, object: u64, event: E)
        requires
            old(self).wf(),
        ensures
            final(self).wf(),
            final(self).keys == old(self).keys,
            if old(self).keys@.contains_key(object) {
                &&& final(self).events@ == old(self).events@.push(
                    (old(self).keys@[object], event),
                )
                &&& final(self).late == old(self).late
            } else {
                &&& final(self).events == old(self).events
                &&& is_queued(old(self).late@, final(self).late@, object, event)
            },
    {
        if let Some(key) = self.keys.get(&object) {
            self.events.push((*key, event));
            return;
        }
        let ghost before = self.late@;
        match self.find_late(object) {
            Some(i) => {
                let mut found = self.late.remove(i);
                found.queued.push(event);
                self.late.insert(i, found);
                proof {
                    assert(self.late@ =~= before.update(i as int, self.late@[i as int]));
                    assert(waits_at(self.late@, object, i as int));
                }
            },
            None => {
                let mut queued: Vec<E> = Vec::new();
                queued.push(event);
                assert(queued@ =~= seq![event]);
                self.late.push(LateObject { object, queued });
                proof {
                    assert(self.late@.drop_last() =~= before);
                    assert forall|k: int| 0 <= k < before.len() implies (#[trigger] before[k]).object
                        != object by {
                        assert(!waits_at(before, object, k));
                    }
                }
            },
        }
    }

    /// Where an object waits.
    fn find_late(&self, object: u64) -> (place: Option<usize>)
        ensures
            match place {
                Some(i) => waits_at(self.late@, object, i as int),
                None => forall|k: int| !waits_at(self.late@, object, k),
            },
    {
        let mut i: usize = 0;
        while i < self.late.len()
            invariant
                i <= self.late@.len(),
                forall|k: int| 0 <= k < i ==> (#[trigger] self.late@[k]).object != object,
            decreases self.late.len() - i,
        {
            if self.late[i].object == object {
                return Some(i);
            }
            i += 1;
        }
        None
    }

    /// Settles which entity stands for an object. Events that waited for it can be read.
    pub fn init(&mut self, object: u64, key: u64)
        requires
            !old(self).keys@.contains_key(object),
        ensures
            final(self).keys@ == old(self).keys@.insert(object, key),
            final(self).events == old(self).events,
            final(self).late == old(self).late,
    {
        self.keys.insert(object, key);
    }

    /// The entity that stands for an object.
    pub fn get(&self, object: u64) -> (key: Option<u64>)
        ensures
            key == (if self.keys@.contains_key(object) {
                Some(self.keys@[object])
            } else {
                None
            }),
    {
        match self.keys.get(&object) {
            Some(key) => Some(*key),
            None => None,
        }
    }

    /// Takes all events whose entities are known: those that did not wait, and then those that
    /// did.
    pub fn read_events(&mut self) -> (events: Vec<(u64, E)>)
        ensures
            events@ == old(self).events@ + settled(old(self).late@, old(self).keys@),
            final(self).events@ == Seq::<(u64, E)>::empty(),
            final(self).late@ == unsettled(old(self).late@, old(self).keys@),
            final(self).keys == old(self).keys,
            old(self).wf() ==> final(self).wf(),
    {
        let ghost all = self.late@;
        let ghost first = self.events@;
        let mut events: Vec<(u64, E)> = Vec::new();
        events.append(&mut self.events);
        let mut rest: Vec<LateObject<E>> = Vec::new();
        rest.append(&mut self.late);
        let ghost mut n: int = 0;
        assert(events@ =~= first + settled(all.take(0), self.keys@));
        assert(rest@ =~= all.skip(0));
        assert(self.late@ =~= unsettled(all.take(0), self.keys@));
        while rest.len() > 0
            invariant
                0 <= n <= all.len(),
                rest@ == all.skip(n),
                self.keys == old(self).keys,
                self.events@ == Seq::<(u64, E)>::empty(),
                events@ == first + settled(all.take(n), self.keys@),
                self.late@ == unsettled(all.take(n), self.keys@),
            decreases rest.len(),
        {
            let object = rest.remove(0);
            proof {
                assert(rest@ =~= all.skip(n + 1));
                assert(all.take(n + 1).drop_last() =~= all.take(n));
                assert(all.take(n + 1).last() == all[n]);
            }
            match self.keys.get(&object.object) {
                Some(key) => {
                    let key = *key;
                    append_events(&mut events, key, object.queued);
                },
                None => {
                    self.late.push(object);
                },
            }
            proof {
                assert(events@ =~= first + settled(all.take(n + 1), self.keys@));
                assert(self.late@ =~= unsettled(all.take(n + 1), self.keys@));
                n = n + 1;
            }
        }
        assert(all.take(n) =~= all);
        proof {
            if old(self).wf() {
                lemma_unsettled_wait_once(all, self.keys@);
            }
        }
        events
    }
}

/// An event that waited comes out with the entity of its object, after the events that waited
/// longer for it, and nothing is lost: the events of one waiting object come out as they came in.
pub proof fn law_waiting_events_keep_their_order<E>(
    late: Seq<LateObject<E>>,
    keys: Map<u64, u64>,
    k: int,
)
    requires
        0 <= k < late.len(),
        keys.contains_key(late[k].object),
    ensures
        exists|start: int| #[trigger]
            stands_at(settled(late, keys), with_key(keys[late[k].object], late[k].queued@), start),
    decreases late.len(),
{
    let part = with_key(keys[late[k].object], late[k].queued@);
    let before = settled(late.drop_last(), keys);
    if k == late.len() - 1 {
        assert(settled(late, keys).subrange(before.len() as int, before.len() as int + part.len())
            =~= part);
        assert(stands_at(settled(late, keys), part, before.len() as int));
    } else {
        assert(late.drop_last()[k] == late[k]);
        law_waiting_events_keep_their_order(late.drop_last(), keys, k);
        let start = choose|start: int| #[trigger] stands_at(before, part, start);
        assert(settled(late, keys).subrange(start, start + part.len()) =~= part);
        assert(stands_at(settled(late, keys), part, start));
    }
}

/// Whether a sequence stands in another at a place.
pub open spec fn stands_at<A>(whole: Seq<A>, part: Seq<A>, start: int) -> bool {
    &&& 0 <= start
    &&& start + part.len() <= whole.len()
    &&& whole.subrange(start, start + part.len()) == part
}

/// Events of objects that no entity stands for wait on when events are read: they come out the
/// next time, if their objects have been settled.
pub proof fn law_unsettled_objects_wait<E>(late: Seq<LateObject<E>>, keys: Map<u64, u64>)
    ensures
        forall|k: int|
            0 <= k < unsettled(late, keys).len() ==> !keys.contains_key(
                (#[trigger] unsettled(late, keys)[k]).object,
            ),
        forall|k: int|
            0 <= k < late.len() && !keys.contains_key((#[trigger] late[k]).object)
                ==> unsettled(late, keys).contains(late[k]),
    decreases late.len(),
{
    if late.len() > 0 {
        let before = unsettled(late.drop_last(), keys);
        law_unsettled_objects_wait(late.drop_last(), keys);
        assert forall|k: int|
            0 <= k < late.len() && !keys.contains_key((#[trigger] late[k]).object) implies unsettled(
            late,
            keys,
        ).contains(late[k]) by {
            if k < late.len() - 1 {
                assert(late.drop_last()[k] == late[k]);
                let j = choose|j: int| 0 <= j < before.len() && before[j] == late[k];
                assert(unsettled(late, keys)[j] == late[k]);
            } else {
                assert(unsettled(late, keys)[before.len() as int] == late[k]);
            }
        }
    }
}

/// An event that had to wait is not lost: it waits with its object, behind those that waited for it
/// before, and as soon as an entity stands for the object it comes out with that entity.
pub proof fn law_queued_event_comes_out<E>(
    before: Seq<LateObject<E>>,
    after: Seq<LateObject<E>>,
    object: u64,
    event: E,
    keys: Map<u64, u64>,
)
    requires
        is_queued(before, after, object, event),
        keys.contains_key(object),
    ensures
        settled(after, keys).contains((keys[object], event)),
        exists|k: int|
            0 <= k < after.len() && (#[trigger] after[k]).object == object && after[k].queued@.len()
                > 0 && after[k].queued@.last() == event,
{
    let k = if exists|k: int| waits_at(before, object, k) {
        choose|k: int| #[trigger]
            waits_at(before, object, k) && waits_at(after, object, k) && after[k].queued@
                == before[k].queued@.push(event) && after == before.update(k, after[k])
    } else {
        after.len() - 1
    };
    assert(after[k].object == object);
    assert(after[k].queued@.last() == event);
    law_waiting_events_keep_their_order(after, keys, k);
    let part = with_key(keys[object], after[k].queued@);
    let start = choose|start: int| #[trigger] stands_at(settled(after, keys), part, start);
    let n = after[k].queued@.len() - 1;
    assert(part[n] == (keys[object], event));
    assert(settled(after, keys).subrange(start, start + part.len())[n] == part[n]);
    assert(settled(after, keys)[start + n] == (keys[object], event));
}

} // verus!
