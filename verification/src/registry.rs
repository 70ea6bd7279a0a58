//! The mathematical model of a hotkey manager, and what holds of it.

use vstd::prelude::*;
use crate::hotkeys::Dispatch;
use crate::hotkeys::HotKeyError;
use crate::notification::Notification;

verus! {

/// What a hotkey manager holds: a counter of ids and a table of callbacks.
pub ghost struct Registry<C> {
    /// The id that the next registration gets.
    pub next_id: int,
    /// The callback of each registered hotkey, by id.
    pub callbacks: Map<i32, C>,
}

impl<C> Registry<C> {
    /// Every id in the table was handed out before: it lies below the counter.
    pub open spec fn wf(self) -> bool {
        &&& 0 <= self.next_id <= i32::MAX
        &&& self.callbacks.dom().finite()
        &&& forall|id: i32| self.callbacks.contains_key(id) ==> 0 <= id < self.next_id
    }

    /// A manager that has registered nothing yet.
    pub open spec fn fresh() -> Registry<C> {
        Registry { next_id: 0, callbacks: Map::empty() }
    }

    /// The manager after a registration. The id is used up whether or not the
    /// operating system bound the hotkey; the callback is kept only if it did.
    pub open spec fn add(self, callback: C, bound: bool) -> Registry<C>
        recommends
            0 <= self.next_id < i32::MAX,
    {
        Registry {
            next_id: self.next_id + 1,
            callbacks: if bound {
                self.callbacks.insert(self.next_id as i32, callback)
            } else {
                self.callbacks
            },
        }
    }

    /// The manager after the removal of `id`.
    pub open spec fn remove(self, id: i32) -> Registry<C> {
        Registry { next_id: self.next_id, callbacks: self.callbacks.remove(id) }
    }

    /// What the dispatch loop does with the next event from the operating system.
    pub open spec fn decide(&self, event: Option<Notification>) -> Result<
        Dispatch<&C>,
        HotKeyError,
    > {
        match event {
            None => Ok(Dispatch::Terminate),
            Some(notification) => if !notification.is_hotkey() {
                Ok(Dispatch::Discard)
            } else {
                match notification.hotkey_id() {
                    None => Err(HotKeyError::UnexpectedNotification),
                    Some(id) => if self.callbacks.contains_key(id) {
                        Ok(Dispatch::Invoke(&self.callbacks[id]))
                    } else {
                        Ok(Dispatch::Discard)
                    },
                }
            },
        }
    }
}

/// One operation on a manager.
pub ghost enum Op<C> {
    /// A registration of `callback`, which the operating system bound or refused.
    Add { callback: C, bound: bool },
    /// The removal of `id`.
    Remove { id: i32 },
}

impl<C> Registry<C> {
    /// The manager after `op`.
    pub open spec fn apply(self, op: Op<C>) -> Registry<C> {
        match op {
            Op::Add { callback, bound } => self.add(callback, bound),
            Op::Remove { id } => self.remove(id),
        }
    }

    /// The manager after the operations of `ops`, first to last.
    pub open spec fn apply_all(self, ops: Seq<Op<C>>) -> Registry<C>
        decreases ops.len(),
    {
        if ops.len() == 0 {
            self
        } else {
            self.apply_all(ops.drop_last()).apply(ops.last())
        }
    }

    /// The id that operation `i` of `ops` uses up, if it is a registration: the
    /// counter as the operations before it left it.
    pub open spec fn issued_id(self, ops: Seq<Op<C>>, i: int) -> int {
        self.apply_all(ops.take(i)).next_id
    }
}

/// The counter never goes down: after more operations it is at least what it was
/// after fewer.
proof fn lemma_counter_monotonic<C>(start: Registry<C>, ops: Seq<Op<C>>, i: int, j: int)
    requires
        0 <= i <= j <= ops.len(),
    ensures
        start.issued_id(ops, i) <= start.issued_id(ops, j),
    decreases j - i,
{
    if i < j {
        lemma_counter_monotonic(start, ops, i, j - 1);
        assert(ops.take(j).drop_last() =~= ops.take(j - 1));
    }
}

/// Every operation keeps a manager well-formed, as long as ids are left for a
/// registration.
pub proof fn lemma_apply_preserves_wf<C>(registry: Registry<C>, op: Op<C>)
    requires
        registry.wf(),
        op is Add ==> registry.next_id < i32::MAX,
    ensures
        registry.apply(op).wf(),
{
}

/// The table changes by registrations and removals alone, one hotkey at a
/// time: an id enters it only through a registration that the operating system
/// bound, under the id that this registration used up; it leaves only through
/// its own removal; and while it stays, its callback stays the same, so that no
/// id ever passes to another registration.
pub proof fn lemma_table_follows_operations<C>(
    before: Registry<C>,
    op: Op<C>,
    after: Registry<C>,
    id: i32,
)
    requires
        before.wf(),
        op is Add ==> before.next_id < i32::MAX,
        after == before.apply(op),
    ensures
        !before.callbacks.contains_key(id) && after.callbacks.contains_key(id) ==> op is Add
            && op->bound && id == before.next_id && after.callbacks[id] == op->callback,
        before.callbacks.contains_key(id) && !after.callbacks.contains_key(id) ==> op is Remove
            && op->id == id,
        before.callbacks.contains_key(id) && after.callbacks.contains_key(id)
            ==> after.callbacks[id] == before.callbacks[id],
{
}

/// The ids that registrations use up are strictly increasing in the order of
/// the calls, whatever is removed in between; so no two registrations ever get
/// the same id.
pub proof fn lemma_ids_strictly_increasing<C>(
    start: Registry<C>,
    ops: Seq<Op<C>>,
    i: int,
    j: int,
)
    requires
        0 <= i < j < ops.len(),
        ops[i] is Add,
    ensures
        start.issued_id(ops, i) < start.issued_id(ops, j),
        start.issued_id(ops, i) != start.issued_id(ops, j),
{
    lemma_counter_monotonic(start, ops, i + 1, j);
    assert(ops.take(i + 1).drop_last() =~= ops.take(i));
}

/// On a manager that has registered nothing yet, registrations alone use up
/// the ids 0, 1, 2 and so on.
pub proof fn lemma_fresh_ids_count_up<C>(ops: Seq<Op<C>>, i: int)
    requires
        0 <= i <= ops.len(),
        forall|k: int| 0 <= k < i ==> ops[k] is Add,
    ensures
        Registry::<C>::fresh().issued_id(ops, i) == i,
    decreases i,
{
    if 0 < i {
        lemma_fresh_ids_count_up(ops, i - 1);
        assert(ops.take(i).drop_last() =~= ops.take(i - 1));
    }
}

/// A registration that the operating system bound adds one hotkey to the table,
/// under an id that was not in it; removing that id gives the table back as it
/// was. A registration that was refused leaves the table as it was from the
/// start.
pub proof fn lemma_add_then_remove<C>(registry: Registry<C>, callback: C, bound: bool)
    requires
        registry.wf(),
        registry.next_id < i32::MAX,
    ensures
        !registry.callbacks.contains_key(registry.next_id as i32),
        bound ==> registry.add(callback, bound).callbacks.len() == registry.callbacks.len() + 1,
        !bound ==> registry.add(callback, bound).callbacks == registry.callbacks,
        registry.add(callback, bound).remove(registry.next_id as i32).callbacks
            == registry.callbacks,
{
    assert(registry.add(callback, bound).remove(registry.next_id as i32).callbacks
        =~= registry.callbacks);
}

/// Removing an id that is not in the table changes nothing. That is so of an id
/// that was never handed out, and of one that was removed before.
pub proof fn lemma_remove_absent<C>(registry: Registry<C>, id: i32)
    ensures
        !registry.callbacks.contains_key(id) ==> registry.remove(id) == registry,
        registry.wf() && !(0 <= id < registry.next_id) ==> registry.remove(id) == registry,
        registry.remove(id).remove(id) == registry.remove(id),
{
    if !registry.callbacks.contains_key(id) {
        assert(registry.remove(id).callbacks =~= registry.callbacks);
    }
    assert(registry.remove(id).remove(id).callbacks =~= registry.remove(id).callbacks);
}

/// A notification of a hotkey goes by the table alone: where its id is in the
/// table, the loop calls the callback registered under that id and no other;
/// where it is not, the loop drops the notification and waits for the next.
pub proof fn lemma_dispatch_goes_by_table<C>(
    registry: Registry<C>,
    notification: Notification,
    id: i32,
)
    requires
        notification.is_hotkey(),
        notification.hotkey_id() == Some(id),
    ensures
        registry.callbacks.contains_key(id) ==> registry.decide(Some(notification)) == Ok::<
            Dispatch<&C>,
            HotKeyError,
        >(Dispatch::Invoke(&registry.callbacks[id])),
        !registry.callbacks.contains_key(id) ==> registry.decide(Some(notification)) == Ok::<
            Dispatch<&C>,
            HotKeyError,
        >(Dispatch::Discard),
{
}

/// Once a hotkey is removed, a notification for it is dropped.
pub proof fn lemma_removed_is_discarded<C>(
    registry: Registry<C>,
    notification: Notification,
    id: i32,
)
    requires
        notification.is_hotkey(),
        notification.hotkey_id() == Some(id),
    ensures
        registry.remove(id).decide(Some(notification)) == Ok::<Dispatch<&C>, HotKeyError>(
            Dispatch::Discard,
        ),
{
}

} // verus!
