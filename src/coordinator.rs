use vstd::prelude::*;

verus! {

#[verifier::external_type_specification]
#[verifier::external_body]
#[verifier::reject_recursive_types(T)]
pub struct ExSlab<T>(slab::Slab<T>);

#[verifier::external_type_specification]
#[verifier::external_body]
pub struct ExUnixStream(mio::net::UnixStream);

/// The slots of a connection table that hold a live connection.
pub uninterp spec fn slots_of(table: slab::Slab<mio::net::UnixStream>) -> Set<usize>;

/// The slot that the next insertion into a connection table will take.
pub uninterp spec fn vacant_of(table: slab::Slab<mio::net::UnixStream>) -> usize;

/// Relies on `slab::Slab::with_capacity`: the new slab holds no value, and its
/// first insertion takes slot 0.
#[verifier::external_body]
fn table_with_capacity(capacity: usize) -> (r: slab::Slab<mio::net::UnixStream>)
    ensures
        slots_of(r) == Set::<usize>::empty(),
        vacant_of(r) == 0,
{
    slab::Slab::with_capacity(capacity)
}

/// Relies on `slab::Slab::vacant_key`: it returns the slot that `insert` takes
/// next, which is vacant, and at most the length of the slab's entry vector.
#[verifier::external_body]
fn table_vacant_key(table: &slab::Slab<mio::net::UnixStream>) -> (r: usize)
    ensures
        r == vacant_of(*table),
        !slots_of(*table).contains(r),
        r < usize::MAX,
{
    table.vacant_key()
}

/// Relies on `slab::Slab::insert`: the value goes to the vacant slot that
/// `vacant_key` reported, which is returned and is occupied afterwards, and
/// which is at most the length of the slab's entry vector.
#[verifier::external_body]
fn table_insert(table: &mut slab::Slab<mio::net::UnixStream>, conn: mio::net::UnixStream) -> (r: usize)
    ensures
        r == vacant_of(*old(table)),
        !slots_of(*old(table)).contains(r),
        r < usize::MAX,
        slots_of(*final(table)) == slots_of(*old(table)).insert(r),
{
    table.insert(conn)
}

/// Relies on `slab::Slab::try_remove`: the value at `key` is taken out if the
/// slot is occupied, and nothing changes otherwise. A freed slot is the one
/// that the next insertion takes.
#[verifier::external_body]
fn table_try_remove(table: &mut slab::Slab<mio::net::UnixStream>, key: usize) -> (r: Option<mio::net::UnixStream>)
    ensures
        r is Some <==> slots_of(*old(table)).contains(key),
        slots_of(*final(table)) == slots_of(*old(table)).remove(key),
        r is Some ==> vacant_of(*final(table)) == key,
{
    table.try_remove(key)
}

/// Relies on `slab::Slab::drain`: every stored value is handed out, and the
/// slab is left empty, its next insertion taking slot 0.
#[verifier::external_body]
fn table_drain(table: &mut slab::Slab<mio::net::UnixStream>) -> (r: Vec<mio::net::UnixStream>)
    ensures
        r@.len() == slots_of(*old(table)).len(),
        slots_of(*final(table)) == Set::<usize>::empty(),
        vacant_of(*final(table)) == 0,
{
    table.drain().collect()
}

/// Relies on `slab::Slab::len`: the number of stored values.
#[verifier::external_body]
fn table_len(table: &slab::Slab<mio::net::UnixStream>) -> (r: usize)
    ensures
        r == slots_of(*table).len(),
{
    table.len()
}

/// The room the connection table starts with; it grows past it as needed.
pub const INITIAL_CAPACITY: usize = 64;

/// Whether a read from a waiter connection carries a signal: it returned at
/// least one byte.
pub open spec fn is_signal(read: Result<usize, std::io::ErrorKind>) -> bool {
    read matches Ok(n) && n > 0
}

/// The error kinds of a read that found nothing to read yet (a spurious
/// readiness event) or was interrupted: the waiter is still there.
pub open spec fn pending_kind(kind: std::io::ErrorKind) -> bool {
    kind == std::io::ErrorKind::WouldBlock || kind == std::io::ErrorKind::Interrupted
}

/// Whether a read from a waiter connection leaves the waiter waiting.
pub open spec fn is_pending(read: Result<usize, std::io::ErrorKind>) -> bool {
    read matches Err(kind) && pending_kind(kind)
}

/// Whether a read from a waiter connection means that the waiter withdrew: it
/// returned no bytes (the peer closed), or failed for good.
pub open spec fn is_withdrawal(read: Result<usize, std::io::ErrorKind>) -> bool {
    !is_signal(read) && !is_pending(read)
}

/// Whether a read error kind leaves the waiter waiting.
pub fn is_pending_kind(kind: std::io::ErrorKind) -> (r: bool)
    ensures
        r == pending_kind(kind),
{
    match kind {
        std::io::ErrorKind::WouldBlock => true,
        std::io::ErrorKind::Interrupted => true,
        _ => false,
    }
}

/// One event of the coordinator, as its connection table sees it.
pub enum Happening {
    /// A waiter was accepted into this slot.
    Joined(usize),
    /// The connection at this slot became readable, and the read returned this
    /// many bytes, or failed with this kind.
    Read(usize, Result<usize, std::io::ErrorKind>),
}

/// How the set of waiting slots reacts to one event: the slots that wait
/// afterwards, and the slots released, if the event was a release.
///
/// A signal on a live slot releases every waiting slot, its own included, and
/// leaves none. A withdrawal removes its own slot only. A pending read, and an
/// event for a slot that holds no connection, change nothing.
pub open spec fn react(waiting: Set<usize>, h: Happening) -> (Set<usize>, Option<Set<usize>>) {
    match h {
        Happening::Joined(s) => (waiting.insert(s), None),
        Happening::Read(s, read) => if !waiting.contains(s) {
            (waiting, None)
        } else if is_signal(read) {
            (Set::empty(), Some(waiting))
        } else if is_pending(read) {
            (waiting, None)
        } else {
            (waiting.remove(s), None)
        },
    }
}

/// The coordinator's table after a run of events: the events are applied in
/// order, and the run stops at the first release, which is reported.
pub open spec fn settle(waiting: Set<usize>, hs: Seq<Happening>) -> (Set<usize>, Option<Set<usize>>)
    decreases hs.len(),
{
    if hs.len() == 0 {
        (waiting, None)
    } else {
        let step = react(waiting, hs[0]);
        if step.1 is Some {
            step
        } else {
            settle(step.0, hs.drop_first())
        }
    }
}

/// What the event loop does after a read from a waiter connection.
pub enum Reaction {
    /// No release: the waiter withdrew and its connection is closed, or its
    /// read is pending and it is back in its slot. The loop goes on.
    Continue,
    /// A signal arrived: remove the socket path, then shut down both
    /// directions of every connection handed out here, and end the loop.
    Release(Vec<mio::net::UnixStream>),
}

/// The coordinator's connection table: one entry per waiting client, keyed by
/// a small slot that is reused once free.
pub struct Coordinator {
    conns: slab::Slab<mio::net::UnixStream>,
}

impl Coordinator {
    /// The slots that hold a waiting connection.
    pub closed spec fn waiting(&self) -> Set<usize> {
        slots_of(self.conns)
    }

    /// The slot that the next inserted connection takes.
    pub closed spec fn next_slot(&self) -> usize {
        vacant_of(self.conns)
    }

    /// An empty table, whose first connection takes slot 0.
    pub fn new() -> (r: Self)
        ensures
            r.waiting() == Set::<usize>::empty(),
            r.waiting().finite(),
            r.next_slot() == 0,
    {
        Coordinator { conns: table_with_capacity(INITIAL_CAPACITY) }
    }

    /// The token under which the next inserted connection is to be registered.
    pub fn next_token(&self) -> (r: mio::Token)
        ensures
            r.0 == self.next_slot() + 1,
            !self.waiting().contains(self.next_slot()),
    {
        crate::token::socket_token(table_vacant_key(&self.conns))
    }

    /// Enters an accepted connection into the table and returns the token it is
    /// registered under.
    pub fn insert(&mut self, conn: mio::net::UnixStream) -> (r: mio::Token)
        ensures
            r.0 == old(self).next_slot() + 1,
            !old(self).waiting().contains(old(self).next_slot()),
            final(self).waiting() == react(old(self).waiting(), Happening::Joined(old(self).next_slot())).0,
            old(self).waiting().finite() ==> final(self).waiting().finite(),
    {
        let slot = table_insert(&mut self.conns, conn);
        crate::token::socket_token(slot)
    }

    /// Takes the connection at `slot` out of the table, to be read; `None`
    /// where the slot holds none. A taken slot is the next one filled, so that
    /// `after_read` can put a pending connection back in it.
    pub fn take(&mut self, slot: usize) -> (r: Option<mio::net::UnixStream>)
        ensures
            r is Some <==> old(self).waiting().contains(slot),
            final(self).waiting() == old(self).waiting().remove(slot),
            r is Some ==> final(self).next_slot() == slot,
            old(self).waiting().finite() ==> final(self).waiting().finite(),
    {
        table_try_remove(&mut self.conns, slot)
    }

    /// Decides what follows a read from the connection `conn`, taken out of
    /// `slot` by `take`: a signal releases everyone, a pending read puts the
    /// connection back, and anything else is the waiter withdrawing.
    ///
    /// Right after `take(slot)` returned `conn`, the table that results is the
    /// one that `react` gives for this read on the table before `take`.
    pub fn after_read(
        &mut self,
        slot: usize,
        conn: mio::net::UnixStream,
        read: Result<usize, std::io::ErrorKind>,
    ) -> (r: Reaction)
        ensures
            is_signal(read) ==> (r matches Reaction::Release(v) && v@.len() == old(self).waiting().len() + 1
                && final(self).waiting() == Set::<usize>::empty()),
            !is_signal(read) ==> r is Continue,
            is_pending(read) ==> final(self).waiting() == old(self).waiting().insert(old(self).next_slot()),
            is_withdrawal(read) ==> final(self).waiting() == old(self).waiting(),
            old(self).waiting().finite() ==> final(self).waiting().finite(),
            old(self).next_slot() == slot && !old(self).waiting().contains(slot) ==> ({
                let before = old(self).waiting().insert(slot);
                let step = react(before, Happening::Read(slot, read));
                &&& final(self).waiting() == step.0
                &&& r is Release <==> step.1 is Some
                &&& r matches Reaction::Release(v) ==> (old(self).waiting().finite() ==> v@.len()
                    == step.1->Some_0.len())
            }),
    {
        let r = match read {
            Ok(n) => if n > 0 {
                let mut all = table_drain(&mut self.conns);
                all.push(conn);
                Reaction::Release(all)
            } else {
                Reaction::Continue
            },
            Err(kind) => {
                if is_pending_kind(kind) {
                    table_insert(&mut self.conns, conn);
                }
                Reaction::Continue
            },
        };
        proof {
            let before = old(self).waiting().insert(slot);
            if !old(self).waiting().contains(slot) {
                assert(before.remove(slot) =~= old(self).waiting());
            }
        }
        r
    }

    /// The number of waiting connections.
    pub fn count(&self) -> (r: usize)
        ensures
            r == self.waiting().len(),
    {
        table_len(&self.conns)
    }
}

/// The events of clients joining at the given slots, in order.
pub open spec fn joins(slots: Seq<usize>) -> Seq<Happening> {
    slots.map_values(|s: usize| Happening::Joined(s))
}

/// Joining releases no one: after a run of joins every joined slot waits,
/// beside those that waited before.
pub proof fn lemma_joins_wait(waiting: Set<usize>, slots: Seq<usize>)
    ensures
        settle(waiting, joins(slots)) == (waiting.union(slots.to_set()), None::<Set<usize>>),
    decreases slots.len(),
{
    if slots.len() == 0 {
        assert(slots.to_set() =~= Set::empty());
        assert(waiting.union(slots.to_set()) =~= waiting);
    } else {
        let rest = slots.drop_first();
        assert(joins(slots).drop_first() =~= joins(rest));
        lemma_joins_wait(waiting.insert(slots[0]), rest);
        assert forall|x: usize| slots.to_set().contains(x) <==> (x == slots[0] || rest.to_set().contains(x)) by {
            if slots.to_set().contains(x) {
                let i = choose|i: int| 0 <= i < slots.len() && slots[i] == x;
                if i > 0 {
                    assert(rest[i - 1] == x);
                }
            }
            if rest.to_set().contains(x) {
                let i = choose|i: int| 0 <= i < rest.len() && rest[i] == x;
                assert(slots[i + 1] == x);
            }
            if x == slots[0] {
                assert(slots.contains(x));
            }
        }
        assert(waiting.insert(slots[0]).union(rest.to_set()) =~= waiting.union(slots.to_set()));
    }
}

/// A run of events followed by one more, where the run released no one, is the
/// run and then that event.
pub proof fn lemma_settle_push(waiting: Set<usize>, hs: Seq<Happening>, h: Happening)
    requires
        settle(waiting, hs).1 is None,
    ensures
        settle(waiting, hs.push(h)) == settle(settle(waiting, hs).0, seq![h]),
    decreases hs.len(),
{
    if hs.len() == 0 {
        assert(hs.push(h) =~= seq![h]);
    } else {
        let step = react(waiting, hs[0]);
        assert(hs.push(h).drop_first() =~= hs.drop_first().push(h));
        lemma_settle_push(step.0, hs.drop_first(), h);
    }
}

/// Any number of waiters, then one signaller that joins and writes a byte:
/// no one is released before the byte arrives, and the byte releases every
/// waiter and the signaller, leaving no one waiting.
pub proof fn lemma_signal_releases_every_waiter(waiters: Seq<usize>, signaller: usize, n: usize)
    requires
        n > 0,
    ensures
        forall|k: int| 0 <= k <= waiters.len() + 1 ==>
            #[trigger] settle(Set::empty(), joins(waiters.push(signaller)).take(k)).1 is None,
        settle(Set::empty(), joins(waiters.push(signaller)).push(Happening::Read(signaller, Ok(n))))
            == (Set::<usize>::empty(), Some(waiters.to_set().insert(signaller))),
{
    let all = waiters.push(signaller);
    assert forall|k: int| 0 <= k <= waiters.len() + 1 implies
        #[trigger] settle(Set::empty(), joins(all).take(k)).1 is None by {
        assert(joins(all).take(k) =~= joins(all.take(k)));
        lemma_joins_wait(Set::empty(), all.take(k));
    }
    lemma_joins_wait(Set::empty(), all);
    lemma_settle_push(Set::empty(), joins(all), Happening::Read(signaller, Ok(n)));
    let joined = Set::<usize>::empty().union(all.to_set());
    assert(all[all.len() - 1] == signaller);
    assert(joined.contains(signaller));
    let after = react(joined, Happening::Read(signaller, Ok(n)));
    assert(seq![Happening::Read(signaller, Ok(n))].drop_first() =~= Seq::<Happening>::empty());
    assert(settle(joined, seq![Happening::Read(signaller, Ok(n))]) == after);
    assert forall|x: usize| all.to_set().contains(x) <==> waiters.to_set().insert(signaller).contains(x) by {
        if all.to_set().contains(x) {
            let i = choose|i: int| 0 <= i < all.len() && all[i] == x;
            if i < waiters.len() {
                assert(waiters[i] == x);
                assert(waiters.contains(x));
            }
        }
        if waiters.to_set().contains(x) {
            let i = choose|i: int| 0 <= i < waiters.len() && waiters[i] == x;
            assert(all[i] == x);
            assert(all.contains(x));
        }
        if x == signaller {
            assert(all.contains(x));
        }
    }
    assert(joined =~= waiters.to_set().insert(signaller));
}

/// Before any signal no one is released, and a waiter stays in the table
/// through any run of events that holds no withdrawal of its own: joins,
/// pending reads and withdrawals of others leave it waiting.
pub proof fn lemma_waiter_held_until_signal(waiting: Set<usize>, hs: Seq<Happening>, slot: usize)
    requires
        waiting.contains(slot),
        forall|i: int| 0 <= i < hs.len() ==> !(#[trigger] hs[i] matches Happening::Read(_, read) && is_signal(read)),
        forall|i: int| 0 <= i < hs.len() ==> !(#[trigger] hs[i] matches Happening::Read(t, read) && t == slot
            && is_withdrawal(read)),
    ensures
        settle(waiting, hs).1 is None,
        settle(waiting, hs).0.contains(slot),
    decreases hs.len(),
{
    if hs.len() > 0 {
        let step = react(waiting, hs[0]);
        assert(step.1 is None && step.0.contains(slot)) by {
            assert(!(hs[0] matches Happening::Read(_, read) && is_signal(read)));
            assert(!(hs[0] matches Happening::Read(t, read) && t == slot && is_withdrawal(read)));
        }
        let rest = hs.drop_first();
        assert forall|i: int| 0 <= i < rest.len() implies
            !(#[trigger] rest[i] matches Happening::Read(_, read) && is_signal(read)) by {
            assert(rest[i] == hs[i + 1]);
        }
        assert forall|i: int| 0 <= i < rest.len() implies
            !(#[trigger] rest[i] matches Happening::Read(t, read) && t == slot && is_withdrawal(read)) by {
            assert(rest[i] == hs[i + 1]);
        }
        lemma_waiter_held_until_signal(step.0, rest, slot);
    }
}

/// A waiter that withdraws before any signal releases no one: only its own
/// slot leaves the table, the count drops by exactly one, and the loop goes on.
pub proof fn lemma_withdrawal_releases_no_one(
    waiting: Set<usize>,
    slot: usize,
    read: Result<usize, std::io::ErrorKind>,
)
    requires
        waiting.finite(),
        waiting.contains(slot),
        is_withdrawal(read),
    ensures
        react(waiting, Happening::Read(slot, read)) == (waiting.remove(slot), None::<Set<usize>>),
        react(waiting, Happening::Read(slot, read)).0.len() == waiting.len() - 1,
{
}

/// A read that finds nothing yet, or is interrupted, keeps the table as it
/// was: the waiter stays, and no one is released.
pub proof fn lemma_pending_read_keeps_waiter(
    waiting: Set<usize>,
    slot: usize,
    read: Result<usize, std::io::ErrorKind>,
)
    requires
        is_pending(read),
    ensures
        react(waiting, Happening::Read(slot, read)) == (waiting, None::<Set<usize>>),
{
}

/// A release leaves the table empty and hands out every waiting slot, the
/// signalling one included.
pub proof fn lemma_release_empties_table(
    waiting: Set<usize>,
    slot: usize,
    read: Result<usize, std::io::ErrorKind>,
)
    requires
        waiting.contains(slot),
        is_signal(read),
    ensures
        react(waiting, Happening::Read(slot, read)) == (Set::<usize>::empty(), Some(waiting)),
{
}

} // verus!
