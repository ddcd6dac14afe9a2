use std::collections::HashSet;
use vstd::prelude::*;

verus! {

broadcast use vstd::std_specs::hash::group_hash_axioms;

/// The pool as a mathematical value: its connections by index, which
/// indices are available for lending, lent out, or known to be broken, and
/// which have been handed out as candidates whose health check is still to be
/// reported.
pub struct PoolModel<C> {
    pub connections: Seq<C>,
    pub available: Set<usize>,
    pub checking: Set<usize>,
    pub borrowed: Set<usize>,
    pub broken: Set<usize>,
}

/// An operation on the pool, as the pool's methods perform it.
pub enum PoolOp<C> {
    /// `add_connection`.
    Add(C),
    /// The first step of `borrow_first_available`: this available index is
    /// taken to be checked.
    Take(usize),
    /// The outcome of checking a candidate, reported to
    /// `borrow_first_available`.
    Finish(usize, bool),
    /// `return_socket`.
    Return(usize),
    /// `mark_broken`.
    MarkBroken(usize),
    /// `add_connection_at`.
    Replace(usize, C),
}

impl<C> PoolModel<C> {
    /// A new connection is appended and is available at once.
    pub open spec fn added(self, connection: C) -> Self {
        PoolModel {
            connections: self.connections.push(connection),
            available: self.available.insert(self.connections.len() as usize),
            ..self
        }
    }

    /// An available index is taken out of the available ones; when it has a
    /// connection, that connection is now being checked.
    pub open spec fn taken(self, index: usize) -> Self {
        PoolModel {
            available: self.available.remove(index),
            checking: if index < self.connections.len() {
                self.checking.insert(index)
            } else {
                self.checking
            },
            ..self
        }
    }

    /// A checked candidate is lent out (whatever happened to its index while
    /// it was being checked).
    pub open spec fn lent(self, index: usize) -> Self {
        PoolModel {
            checking: self.checking.remove(index),
            borrowed: self.borrowed.insert(index),
            ..self
        }
    }

    /// A candidate that failed its check is marked broken.
    pub open spec fn rejected(self, index: usize) -> Self {
        PoolModel { checking: self.checking.remove(index), ..self.marked_broken(index) }
    }

    /// A lent connection comes back; it is available again unless it is
    /// broken.
    pub open spec fn returned(self, index: usize) -> Self {
        PoolModel {
            available: if self.broken.contains(index) {
                self.available
            } else {
                self.available.insert(index)
            },
            borrowed: self.borrowed.remove(index),
            ..self
        }
    }

    /// A connection is found broken: neither available nor lent.
    pub open spec fn marked_broken(self, index: usize) -> Self {
        PoolModel {
            available: self.available.remove(index),
            borrowed: self.borrowed.remove(index),
            broken: self.broken.insert(index),
            ..self
        }
    }

    /// A connection is replaced by a fresh one, which is available; an index
    /// out of range changes nothing.
    pub open spec fn replaced(self, index: usize, connection: C) -> Self {
        if index >= self.connections.len() {
            self
        } else {
            PoolModel {
                connections: self.connections.update(index as int, connection),
                available: self.available.insert(index),
                checking: self.checking,
                borrowed: self.borrowed.remove(index),
                broken: self.broken.remove(index),
            }
        }
    }

    /// What an operation does to the pool. Taking an index that is not
    /// available, and reporting a check of an index that was not handed out
    /// as a candidate, change nothing.
    pub open spec fn step(self, op: PoolOp<C>) -> Self {
        match op {
            PoolOp::Add(c) => self.added(c),
            PoolOp::Take(i) => if self.available.contains(i) {
                self.taken(i)
            } else {
                self
            },
            PoolOp::Finish(i, healthy) => if !self.checking.contains(i) {
                self
            } else if healthy {
                self.lent(i)
            } else {
                self.rejected(i)
            },
            PoolOp::Return(i) => self.returned(i),
            PoolOp::MarkBroken(i) => self.marked_broken(i),
            PoolOp::Replace(i, c) => self.replaced(i, c),
        }
    }

    /// The pool after a sequence of operations, in order.
    pub open spec fn run(self, ops: Seq<PoolOp<C>>) -> Self
        decreases ops.len(),
    {
        if ops.len() == 0 {
            self
        } else {
            self.run(ops.drop_last()).step(ops.last())
        }
    }

    /// The pool between calls: no candidate is awaiting its check, and every
    /// connection's index is in exactly one of the available, lent and broken
    /// sets, and no other index is tracked.
    pub open spec fn settled(self) -> bool {
        &&& self.checking == Set::<usize>::empty()
        &&& self.available.union(self.borrowed).union(self.broken) == self.index_range()
        &&& forall|i: usize| #[trigger] self.available.contains(i) ==> !self.borrowed.contains(i)
            && !self.broken.contains(i)
        &&& forall|i: usize| #[trigger] self.borrowed.contains(i) ==> !self.broken.contains(i)
    }

    /// The indices that have a connection.
    pub open spec fn index_range(self) -> Set<usize> {
        Set::new(|i: usize| i < self.connections.len())
    }

    /// Every index the pool keeps track of has a connection.
    pub open spec fn indices_in_range(self) -> bool {
        &&& forall|i: usize| #[trigger] self.available.contains(i) ==> i < self.connections.len()
        &&& forall|i: usize| #[trigger] self.checking.contains(i) ==> i < self.connections.len()
        &&& forall|i: usize| #[trigger] self.borrowed.contains(i) ==> i < self.connections.len()
        &&& forall|i: usize| #[trigger] self.broken.contains(i) ==> i < self.connections.len()
    }

    /// The connection at `index` is broken, and neither available, awaiting
    /// its check, nor lent.
    pub open spec fn isolated_broken(self, index: usize) -> bool {
        &&& index < self.connections.len()
        &&& self.broken.contains(index)
        &&& !self.available.contains(index)
        &&& !self.checking.contains(index)
        &&& !self.borrowed.contains(index)
    }
}

/// Lending a healthy available connection and taking it back leaves the pool
/// as it was.
pub proof fn lemma_borrow_then_return_restores<C>(pool: PoolModel<C>, index: usize)
    requires
        pool.available.contains(index),
        index < pool.connections.len(),
        !pool.checking.contains(index),
        !pool.borrowed.contains(index),
        !pool.broken.contains(index),
    ensures
        pool.step(PoolOp::Take(index)).step(PoolOp::Finish(index, true)).step(PoolOp::Return(index))
            == pool,
{
    let after = pool.step(PoolOp::Take(index)).step(PoolOp::Finish(index, true)).step(
        PoolOp::Return(index),
    );
    assert(after.available =~= pool.available);
    assert(after.checking =~= pool.checking);
    assert(after.borrowed =~= pool.borrowed);
}

/// A broken connection that is neither available, awaiting its check, nor
/// lent stays so under every operation other than its replacement.
pub proof fn lemma_broken_stays_isolated_by_step<C>(pool: PoolModel<C>, index: usize, op: PoolOp<C>)
    requires
        pool.isolated_broken(index),
        !(op matches PoolOp::Replace(i, _) && i == index),
        op is Add ==> pool.connections.len() < usize::MAX,
    ensures
        pool.step(op).isolated_broken(index),
{
}

/// A connection marked broken while it is not awaiting a check is never lent
/// again until it is replaced: along any sequence of operations without a
/// replacement at its index, it stays broken and is never available, taken as
/// a candidate, or lent (as long as the pool's length stays below
/// `usize::MAX`).
pub proof fn lemma_broken_never_lent<C>(pool: PoolModel<C>, index: usize, ops: Seq<PoolOp<C>>)
    requires
        index < pool.connections.len(),
        !pool.checking.contains(index),
        pool.connections.len() + ops.len() < usize::MAX,
        forall|k: int|
            0 <= k < ops.len() ==> !(#[trigger] ops[k] matches PoolOp::Replace(i, _) && i
                == index),
    ensures
        forall|k: int|
            0 <= k <= ops.len() ==> #[trigger] pool.marked_broken(index).run(
                ops.take(k),
            ).isolated_broken(index) && pool.marked_broken(index).run(
                ops.take(k),
            ).connections.len() <= pool.connections.len() + k,
    decreases ops.len(),
{
    if ops.len() > 0 {
        let prefix = ops.drop_last();
        lemma_broken_never_lent(pool, index, prefix);
        assert forall|k: int| 0 <= k <= ops.len() implies #[trigger] pool.marked_broken(
            index,
        ).run(ops.take(k)).isolated_broken(index) && pool.marked_broken(index).run(
            ops.take(k),
        ).connections.len() <= pool.connections.len() + k by {
            if k < ops.len() {
                assert(ops.take(k) =~= prefix.take(k));
            } else {
                assert(ops.take(k) =~= ops);
                assert(prefix.take(prefix.len() as int) =~= prefix);
                let before = pool.marked_broken(index).run(prefix);
                assert(before.isolated_broken(index) && before.connections.len()
                    <= pool.connections.len() + prefix.len()) by {
                    let whole = prefix.take(prefix.len() as int);
                    assert(pool.marked_broken(index).run(whole).isolated_broken(index));
                    assert(whole == prefix);
                }
                assert(pool.marked_broken(index).run(ops) == before.step(ops.last()));
                lemma_broken_stays_isolated_by_step(
                    pool.marked_broken(index).run(prefix),
                    index,
                    ops.last(),
                );
            }
        }
    } else {
        assert forall|k: int| 0 <= k <= ops.len() implies #[trigger] pool.marked_broken(
            index,
        ).run(ops.take(k)).isolated_broken(index) && pool.marked_broken(index).run(
            ops.take(k),
        ).connections.len() <= pool.connections.len() + k by {
            assert(ops.take(k) =~= Seq::<PoolOp<C>>::empty());
        }
    }
}

/// One attempt of a borrow takes an available connection and, depending on
/// its check, lends it or marks it broken; nothing else changes.
pub proof fn lemma_borrow_attempt<C>(pool: PoolModel<C>, index: usize, healthy: bool)
    requires
        pool.available.contains(index),
        index < pool.connections.len(),
        !pool.checking.contains(index),
    ensures
        pool.step(PoolOp::Take(index)).step(PoolOp::Finish(index, healthy)) == if healthy {
            PoolModel {
                available: pool.available.remove(index),
                borrowed: pool.borrowed.insert(index),
                ..pool
            }
        } else {
            pool.marked_broken(index)
        },
{
    let after = pool.step(PoolOp::Take(index)).step(PoolOp::Finish(index, healthy));
    assert(after.checking =~= pool.checking);
    if healthy {
        assert(after.available =~= pool.available.remove(index));
        assert(after.borrowed =~= pool.borrowed.insert(index));
    } else {
        assert(after.available =~= pool.marked_broken(index).available);
        assert(after.borrowed =~= pool.marked_broken(index).borrowed);
        assert(after.broken =~= pool.marked_broken(index).broken);
    }
}

/// Between calls every connection is available, lent or broken, exactly one
/// of them; appending, returning, marking broken, replacing, and a borrow
/// attempt on an available connection all keep it so.
pub proof fn lemma_calls_keep_settled<C>(
    pool: PoolModel<C>,
    index: usize,
    connection: C,
    healthy: bool,
)
    requires
        pool.settled(),
        index < pool.connections.len(),
        pool.connections.len() < usize::MAX,
    ensures
        pool.step(PoolOp::Add(connection)).settled(),
        pool.step(PoolOp::Return(index)).settled(),
        pool.step(PoolOp::MarkBroken(index)).settled(),
        pool.step(PoolOp::Replace(index, connection)).settled(),
        pool.available.contains(index) ==> pool.step(PoolOp::Take(index)).step(
            PoolOp::Finish(index, healthy),
        ).settled(),
{
    let added = pool.step(PoolOp::Add(connection));
    let fresh = pool.connections.len() as usize;
    assert(fresh as int == pool.connections.len());
    assert(!pool.available.contains(fresh) && !pool.borrowed.contains(fresh)
        && !pool.broken.contains(fresh)) by {
        assert(!pool.index_range().contains(fresh));
        assert(!pool.available.union(pool.borrowed).union(pool.broken).contains(fresh));
    }
    assert(added.available.union(added.borrowed).union(added.broken) =~= added.index_range()) by {
        assert(pool.available.union(pool.borrowed).union(pool.broken) == pool.index_range());
        assert forall|i: usize| #[trigger] added.available.union(added.borrowed).union(
            added.broken,
        ).contains(i) implies added.index_range().contains(i) by {
            if i != fresh {
                assert(pool.available.union(pool.borrowed).union(pool.broken).contains(i));
                assert(pool.index_range().contains(i));
            }
        }
        assert forall|i: usize| #[trigger] added.index_range().contains(i) implies added.available.union(
            added.borrowed,
        ).union(added.broken).contains(i) by {
            if i != pool.connections.len() as usize {
                assert(pool.index_range().contains(i));
            }
        }
    }
    let returned = pool.step(PoolOp::Return(index));
    assert(returned.available.union(returned.borrowed).union(returned.broken)
        =~= returned.index_range()) by {
        assert(pool.index_range().contains(index));
    }
    let broken = pool.step(PoolOp::MarkBroken(index));
    assert(broken.available.union(broken.borrowed).union(broken.broken) =~= broken.index_range())
        by {
        assert(pool.index_range().contains(index));
    }
    let replaced = pool.step(PoolOp::Replace(index, connection));
    assert(replaced.available.union(replaced.borrowed).union(replaced.broken)
        =~= replaced.index_range()) by {
        assert(pool.index_range().contains(index));
    }
    if pool.available.contains(index) {
        lemma_borrow_attempt(pool, index, healthy);
        let after = pool.step(PoolOp::Take(index)).step(PoolOp::Finish(index, healthy));
        assert(after.checking =~= Set::<usize>::empty());
        assert(after.available.union(after.borrowed).union(after.broken) =~= after.index_range());
    }
}

/// Operations on indices that have a connection keep every tracked index
/// within range.
pub proof fn lemma_step_keeps_range<C>(pool: PoolModel<C>, op: PoolOp<C>)
    requires
        pool.indices_in_range(),
        pool.connections.len() < usize::MAX,
        op matches PoolOp::Return(i) ==> i < pool.connections.len(),
        op matches PoolOp::MarkBroken(i) ==> i < pool.connections.len(),
    ensures
        pool.step(op).indices_in_range(),
{
}

/// Replacing a connection makes the new one available and no longer broken
/// or lent, and it is what the pool gives back at that index.
pub proof fn lemma_replace_repairs<C>(pool: PoolModel<C>, index: usize, connection: C)
    requires
        index < pool.connections.len(),
    ensures
        pool.replaced(index, connection).available.contains(index),
        !pool.replaced(index, connection).broken.contains(index),
        !pool.replaced(index, connection).borrowed.contains(index),
        pool.replaced(index, connection).connections[index as int] == connection,
        pool.replaced(index, connection).connections.len() == pool.connections.len(),
{
}

/// What the pool asks for next while lending a connection.
#[derive(Clone, Copy, Debug, PartialEq, Eq, Structural)]
pub enum BorrowStep {
    /// Check the health of this candidate and report the outcome.
    Check(usize),
    /// This connection is lent to the caller.
    Borrowed(usize),
    /// This candidate failed its check and is now marked broken; report the
    /// index to the watchdog and ask again.
    Broken(usize),
    /// No connection can be lent.
    Exhausted,
}

/// The upstream connections, with the bookkeeping of which are available,
/// lent out, or broken, and which have been handed out for checking.
pub struct ConnectionPool<C> {
    connections: Vec<C>,
    available_connections: HashSet<usize>,
    checking_connections: HashSet<usize>,
    borrowed_connections: HashSet<usize>,
    broken_connections: HashSet<usize>,
}

impl<C> View for ConnectionPool<C> {
    type V = PoolModel<C>;

    closed spec fn view(&self) -> PoolModel<C> {
        PoolModel {
            connections: self.connections@,
            available: self.available_connections@,
            checking: self.checking_connections@,
            borrowed: self.borrowed_connections@,
            broken: self.broken_connections@,
        }
    }
}

impl<C> ConnectionPool<C> {
    /// An empty pool.
    pub fn new() -> (pool: Self)
        ensures
            pool@.connections == Seq::<C>::empty(),
            pool@.available == Set::<usize>::empty(),
            pool@.checking == Set::<usize>::empty(),
            pool@.borrowed == Set::<usize>::empty(),
            pool@.broken == Set::<usize>::empty(),
    {
        ConnectionPool {
            connections: Vec::new(),
            available_connections: HashSet::new(),
            checking_connections: HashSet::new(),
            borrowed_connections: HashSet::new(),
            broken_connections: HashSet::new(),
        }
    }

    /// The number of connections the pool holds.
    pub fn len(&self) -> (n: usize)
        ensures
            n == self@.connections.len(),
    {
        self.connections.len()
    }

    /// Appends a connection and makes it available; returns its index.
    pub fn add_connection(&mut self, connection: C) -> (index: usize)
        ensures
            index == old(self)@.connections.len(),
            final(self)@ == old(self)@.step(PoolOp::Add(connection)),
    {
        let index: usize = self.connections.len();
        self.connections.push(connection);
        self.available_connections.insert(index);
        proof {
            assert(final(self)@ == old(self)@.added(connection));
        }
        index
    }

    /// One step of lending the first available connection that is healthy.
    ///
    /// Given the outcome of checking a candidate it handed out, it lends the
    /// candidate if it was healthy and marks it broken otherwise. Without an
    /// outcome (or with one for an index it did not hand out) it takes some
    /// available index and asks for it to be checked, or answers `Exhausted`
    /// when none is available (or the index taken has no connection).
    pub fn borrow_first_available(&mut self, checked: Option<(usize, bool)>) -> (step: BorrowStep)
        ensures
            if checked is Some && old(self)@.checking.contains((checked->0).0) {
                let (index, healthy) = checked->0;
                &&& final(self)@ == old(self)@.step(PoolOp::Finish(index, healthy))
                &&& step == if healthy {
                    BorrowStep::Borrowed(index)
                } else {
                    BorrowStep::Broken(index)
                }
            } else if old(self)@.available == Set::<usize>::empty() {
                step == BorrowStep::Exhausted && final(self)@ == old(self)@
            } else {
                exists|i: usize|
                    #![trigger old(self)@.taken(i)]
                    old(self)@.available.contains(i) && final(self)@ == old(self)@.step(
                        PoolOp::Take(i),
                    ) && final(self)@ == old(self)@.taken(i) && step == if i
                        < old(self)@.connections.len() {
                        BorrowStep::Check(i)
                    } else {
                        BorrowStep::Exhausted
                    }
            },
    {
        if let Some((index, healthy)) = checked {
            if self.checking_connections.contains(&index) {
                if healthy {
                    self.checking_connections.remove(&index);
                    self.borrowed_connections.insert(index);
                    proof {
                        assert(final(self)@ == old(self)@.lent(index));
                    }
                    return BorrowStep::Borrowed(index);
                } else {
                    self.checking_connections.remove(&index);
                    self.mark_broken(index);
                    proof {
                        assert(final(self)@ == old(self)@.rejected(index));
                    }
                    return BorrowStep::Broken(index);
                }
            }
        }
        let mut found: Option<usize> = None;
        let ghost avail = self.available_connections@;
        for k in it: self.available_connections.iter()
            invariant
                avail == self.available_connections@,
                it.seq().unref().to_set() == avail,
                found is None ==> it.index() == 0,
                found matches Some(i) ==> avail.contains(i),
            ensures
                found is None ==> avail == Set::<usize>::empty(),
        {
            if found.is_none() {
                assert(it.seq().unref().to_set().contains(*k));
                found = Some(*k);
            }
        }
        match found {
            None => BorrowStep::Exhausted,
            Some(index) => {
                self.available_connections.remove(&index);
                if index < self.connections.len() {
                    self.checking_connections.insert(index);
                    proof {
                        assert(final(self)@ == old(self)@.taken(index));
                    }
                    BorrowStep::Check(index)
                } else {
                    proof {
                        assert(final(self)@ == old(self)@.taken(index));
                    }
                    BorrowStep::Exhausted
                }
            },
        }
    }

    /// Takes back a lent connection; it becomes available again unless it
    /// was marked broken meanwhile (or is being checked).
    pub fn return_socket(&mut self, index: usize)
        ensures
            final(self)@ == old(self)@.step(PoolOp::Return(index)),
    {
        self.borrowed_connections.remove(&index);
        if !self.broken_connections.contains(&index) {
            self.available_connections.insert(index);
        }
        proof {
            assert(final(self)@ == old(self)@.returned(index));
        }
    }

    /// The connection at `index`, if there is one.
    pub fn get_connection(&self, index: usize) -> (c: Option<&C>)
        ensures
            index < self@.connections.len() ==> c == Some(&self@.connections[index as int]),
            index >= self@.connections.len() ==> c is None,
    {
        if index < self.connections.len() {
            Some(&self.connections[index])
        } else {
            None
        }
    }

    /// Puts a fresh connection in place of the one at `index` and makes it
    /// available; an index out of range is ignored.
    pub fn add_connection_at(&mut self, index: usize, connection: C)
        ensures
            final(self)@ == old(self)@.step(PoolOp::Replace(index, connection)),
    {
        if index >= self.connections.len() {
            return;
        }
        self.connections.set(index, connection);
        self.broken_connections.remove(&index);
        self.borrowed_connections.remove(&index);
        self.available_connections.insert(index);
        proof {
            assert(final(self)@ == old(self)@.replaced(index, connection));
        }
    }

    /// Records that the connection at `index` is broken: it is neither
    /// available, checked, nor lent any more. Returns the index to report to
    /// the watchdog.
    pub fn mark_broken(&mut self, index: usize) -> (report: usize)
        ensures
            final(self)@ == old(self)@.step(PoolOp::MarkBroken(index)),
            report == index,
    {
        self.available_connections.remove(&index);
        self.borrowed_connections.remove(&index);
        self.broken_connections.insert(index);
        proof {
            assert(final(self)@ == old(self)@.marked_broken(index));
        }
        index
    }
}

} // verus!
