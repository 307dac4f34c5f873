//! The pool of connected workers.
//!
//! The pool keeps its workers in the order in which they joined, an index
//! from a worker's identifier to its position, and a cursor that hands the
//! workers out in rotation.

use crate::backend::BackendError;
use crate::channel::share;
use crate::proto::NodeMsg;
use std::collections::HashMap;
use std::sync::Arc;
use tokio::sync::mpsc::Sender;
use vstd::arithmetic::div_mod::{
    lemma_add_mod_noop, lemma_basic_div, lemma_div_is_ordered, lemma_div_plus_one,
    lemma_fundamental_div_mod, lemma_fundamental_div_mod_converse, lemma_mod_add_multiples_vanish,
    lemma_mod_bound, lemma_mod_equivalence, lemma_mod_twice, lemma_small_mod,
};
use vstd::prelude::*;

verus! {

broadcast use vstd::std_specs::hash::group_hash_axioms;

/// A connected worker: its identifier and the sending half of its dispatch
/// channel.
#[derive(Debug)]
pub struct WorkerHandle {
    pub id: u128,
    pub sender: Arc<Sender<NodeMsg>>,
}

impl WorkerHandle {
    /// Makes the handle of the worker `id` that is reached through `sender`.
    pub fn new(id: u128, sender: Sender<NodeMsg>) -> (handle: Self)
        ensures
            handle.id == id,
            *handle.sender == sender,
    {
        WorkerHandle { id, sender: Arc::new(sender) }
    }
}

/// The identifiers of a sequence of workers, in the same order.
pub open spec fn ids_of(handles: Seq<WorkerHandle>) -> Seq<u128> {
    Seq::new(handles.len(), |i: int| handles[i].id)
}

/// Whether `index` maps exactly the identifiers of `handles`, each to its
/// position.
pub open spec fn index_agrees(index: Map<u128, usize>, handles: Seq<WorkerHandle>) -> bool {
    &&& forall|i: int|
        0 <= i < handles.len() ==> index.contains_key((#[trigger] handles[i]).id)
            && index[handles[i].id] == i
    &&& forall|k: u128| #[trigger]
        index.contains_key(k) ==> index[k] < handles.len() && handles[index[k] as int].id == k
}

/// The workers after `worker` has joined: it takes the place of the worker
/// with the same identifier if there is one, and the last place otherwise.
pub open spec fn with_worker(handles: Seq<WorkerHandle>, worker: WorkerHandle) -> Seq<
    WorkerHandle,
> {
    if ids_of(handles).contains(worker.id) {
        handles.update(ids_of(handles).index_of(worker.id), worker)
    } else {
        handles.push(worker)
    }
}

/// The position that the rotation selects when the cursor stands at
/// `cursor` and the pool holds `size` workers.
pub open spec fn selected(cursor: nat, size: nat) -> int
    recommends
        size > 0,
{
    cursor as int % size as int
}

/// Where the cursor stands after one selection.
pub open spec fn advanced(cursor: nat, size: nat) -> nat
    recommends
        size > 0,
{
    ((cursor + 1) as int % size as int) as nat
}

/// Whether the number `j` is the identifier of one of the workers `ids`.
pub open spec fn taken(ids: Seq<u128>, j: int) -> bool {
    0 <= j <= u128::MAX && ids.contains(j as u128)
}

/// If every number below `count` is the identifier of a worker, there are
/// at least `count` workers.
pub proof fn lemma_range_fits(ids: Seq<u128>, count: nat)
    requires
        forall|j: int| 0 <= j < count ==> #[trigger] taken(ids, j),
    ensures
        count <= ids.len(),
{
    let numbers = ids.map_values(|id: u128| id as int);
    let range = vstd::set_lib::set_int_range(0, count as int);
    assert(range.subset_of(numbers.to_set())) by {
        assert forall|j: int| range.contains(j) implies numbers.to_set().contains(j) by {
            assert(taken(ids, j));
            let at = ids.index_of(j as u128);
            assert(0 <= at < ids.len() && ids[at] == j as u128);
            assert(numbers[at] == j);
        }
    }
    vstd::set_lib::lemma_int_range(0, count as int);
    vstd::seq_lib::seq_to_set_is_finite(numbers);
    vstd::set_lib::lemma_len_subset(range, numbers.to_set());
    numbers.lemma_cardinality_of_set();
}

/// The pool of connected workers.
pub struct WorkersBucket {
    workers: Vec<Arc<WorkerHandle>>,
    key_to_idx: HashMap<u128, usize>,
    counter: usize,
}

impl WorkersBucket {
    /// The workers in the order in which they joined.
    pub closed spec fn handles(self) -> Seq<WorkerHandle> {
        Seq::new(self.workers@.len(), |i: int| *self.workers@[i])
    }

    /// The index from identifier to position.
    pub closed spec fn index(self) -> Map<u128, usize> {
        self.key_to_idx@
    }

    /// The rotating cursor.
    pub closed spec fn cursor(self) -> nat {
        self.counter as nat
    }

    /// The identifiers of the workers, in pool order.
    pub open spec fn ids(self) -> Seq<u128> {
        ids_of(self.handles())
    }

    /// The pool's invariant: the index is consistent with the collection.
    pub open spec fn wf(self) -> bool {
        &&& index_agrees(self.index(), self.handles())
        &&& self.index().dom().finite()
    }

    /// An empty pool.
    pub fn new() -> (pool: Self)
        ensures
            pool.wf(),
            pool.handles() == Seq::<WorkerHandle>::empty(),
            pool.cursor() == 0,
    {
        let pool = WorkersBucket { workers: Vec::new(), key_to_idx: HashMap::new(), counter: 0 };
        assert(pool.handles() =~= Seq::<WorkerHandle>::empty());
        pool
    }

    /// The number of workers in the pool.
    pub fn size(&self) -> (n: usize)
        ensures
            n == self.handles().len(),
    {
        self.workers.len()
    }

    /// The number of entries of the index.
    pub fn index_size(&self) -> (n: usize)
        ensures
            n == self.index().len(),
    {
        self.key_to_idx.len()
    }

    /// Whether a worker with this identifier is in the pool.
    pub fn contains(&self, worker_id: u128) -> (found: bool)
        requires
            self.wf(),
        ensures
            found == self.ids().contains(worker_id),
    {
        let found = self.key_to_idx.contains_key(&worker_id);
        proof {
            if found {
                let at = self.index()[worker_id] as int;
                assert(self.ids()[at] == worker_id);
            }
        }
        found
    }

    /// Finds an identifier for a new worker: `wanted` if no worker of the
    /// pool has it, and the least number that no worker has otherwise.
    pub fn free_id(&self, wanted: u128) -> (id: u128)
        requires
            self.wf(),
        ensures
            !self.ids().contains(id),
            !self.ids().contains(wanted) ==> id == wanted,
            self.ids().contains(wanted) ==> forall|j: int|
                0 <= j < id ==> #[trigger] taken(self.ids(), j),
    {
        if !self.contains(wanted) {
            return wanted;
        }
        let size = self.workers.len();
        assert(self.ids().len() == size);
        let mut candidate: u128 = 0;
        while self.contains(candidate)
            invariant
                self.wf(),
                self.ids().len() <= usize::MAX,
                candidate <= self.ids().len(),
                forall|j: int| 0 <= j < candidate ==> #[trigger] taken(self.ids(), j),
            decreases self.ids().len() - candidate,
        {
            proof {
                assert(taken(self.ids(), candidate as int));
                lemma_range_fits(self.ids(), (candidate + 1) as nat);
            }
            candidate = candidate + 1;
        }
        candidate
    }

    /// Adds a worker to the pool.
    ///
    /// A worker with a new identifier is appended. A worker whose identifier
    /// is already in the pool takes that worker's place, so that the index
    /// stays consistent with the collection.
    pub fn add(&mut self, worker: WorkerHandle)
        requires
            old(self).wf(),
        ensures
            final(self).wf(),
            final(self).handles() == with_worker(old(self).handles(), worker),
            final(self).cursor() == old(self).cursor(),
    {
        let id = worker.id;
        let ghost before = self.handles();
        let known = match self.key_to_idx.get(&id) {
            Some(at) => Some(*at),
            None => None,
        };
        match known {
            Some(at) => {
                proof {
                    lemma_position(self.index(), before, id);
                }
                self.workers.set(at, Arc::new(worker));
                assert(self.handles() =~= before.update(at as int, worker));
                assert(index_agrees(self.index(), self.handles()));
            },
            None => {
                proof {
                    if ids_of(before).contains(id) {
                        let at = choose|i: int| 0 <= i < before.len() && ids_of(before)[i] == id;
                        assert(self.index().contains_key(before[at].id));
                    }
                }
                let at = self.workers.len();
                self.key_to_idx.insert(id, at);
                self.workers.push(Arc::new(worker));
                assert(self.handles() =~= before.push(worker));
                assert(index_agrees(self.index(), self.handles())) by {
                    let index = self.index();
                    let handles = self.handles();
                    assert forall|i: int| 0 <= i < handles.len() implies index.contains_key(
                        (#[trigger] handles[i]).id,
                    ) && index[handles[i].id] == i by {
                        if i < before.len() {
                            assert(handles[i] == before[i]);
                        }
                    }
                    assert forall|k: u128| #[trigger] index.contains_key(k) implies index[k]
                        < handles.len() && handles[index[k] as int].id == k by {
                        if k != id {
                            assert(handles[index[k] as int] == before[index[k] as int]);
                        }
                    }
                }
            },
        }
    }

    /// Takes the worker with this identifier out of the pool.
    ///
    /// The workers behind it move up by one place, and the index follows
    /// them. An identifier that is not in the pool gives
    /// `InternalBookkeeping` and changes nothing.
    pub fn remove(&mut self, worker_id: &u128) -> (removed: Result<Arc<WorkerHandle>, BackendError>)
        requires
            old(self).wf(),
        ensures
            final(self).wf(),
            final(self).cursor() == old(self).cursor(),
            match removed {
                Ok(worker) => {
                    &&& old(self).ids().contains(*worker_id)
                    &&& *worker == old(self).handles()[old(self).ids().index_of(*worker_id)]
                    &&& final(self).handles() == old(self).handles().remove(
                        old(self).ids().index_of(*worker_id),
                    )
                },
                Err(e) => {
                    &&& e == BackendError::InternalBookkeeping
                    &&& !old(self).ids().contains(*worker_id)
                    &&& final(self).handles() == old(self).handles()
                },
            },
    {
        let ghost before = self.handles();
        let ghost index_before = self.index();
        let at = match self.key_to_idx.remove(worker_id) {
            Some(at) => at,
            None => {
                proof {
                    if ids_of(before).contains(*worker_id) {
                        let i = choose|i: int|
                            0 <= i < before.len() && ids_of(before)[i] == *worker_id;
                        assert(index_before.contains_key(before[i].id));
                    }
                    assert(self.index() =~= index_before);
                }
                return Err(BackendError::InternalBookkeeping);
            },
        };
        proof {
            lemma_position(index_before, before, *worker_id);
        }
        let worker = self.workers.remove(at);
        let ghost after = self.handles();
        assert(after =~= before.remove(at as int));
        let mut next = at;
        while next < self.workers.len()
            invariant
                at <= next <= self.workers.len(),
                self.handles() == after,
                self.workers@.len() == after.len(),
                after == before.remove(at as int),
                after.len() + 1 == before.len(),
                self.cursor() == old(self).cursor(),
                at < before.len(),
                index_agrees(index_before, before),
                before[at as int].id == *worker_id,
                self.index().dom().finite(),
                self.index().dom() =~= index_before.dom().remove(*worker_id),
                forall|k: u128| #[trigger]
                    self.index().contains_key(k) ==> self.index()[k] == (if index_before[k] < next
                        + 1 && index_before[k] > at {
                        (index_before[k] - 1) as usize
                    } else {
                        index_before[k]
                    }),
            decreases self.workers.len() - next,
        {
            let moved = self.workers[next].id;
            assert(moved == after[next as int].id);
            assert(after[next as int] == before[next + 1]);
            assert(index_before.contains_key(before[next + 1].id));
            assert(index_before[moved] == next + 1);
            self.key_to_idx.insert(moved, next);
            assert(self.index().dom() =~= index_before.dom().remove(*worker_id));
            next += 1;
        }
        assert(index_agrees(self.index(), self.handles())) by {
            let index = self.index();
            assert forall|i: int| 0 <= i < after.len() implies index.contains_key(
                (#[trigger] after[i]).id,
            ) && index[after[i].id] == i by {
                if i < at {
                    assert(after[i] == before[i]);
                    assert(index_before.contains_key(before[i].id));
                } else {
                    assert(after[i] == before[i + 1]);
                    assert(index_before.contains_key(before[i + 1].id));
                }
            }
            assert forall|k: u128| #[trigger] index.contains_key(k) implies index[k] < after.len()
                && after[index[k] as int].id == k by {
                assert(index_before.contains_key(k));
                let was = index_before[k] as int;
                assert(before[was].id == k);
                if was > at {
                    assert(after[was - 1] == before[was]);
                } else {
                    assert(was != at);
                    assert(after[was] == before[was]);
                }
            }
        }
        Ok(worker)
    }

    /// Hands out the next worker in rotation.
    ///
    /// An empty pool gives `NoWorkersAvailable`. Otherwise the worker at the
    /// cursor, taken modulo the pool's size, is returned, and the cursor
    /// moves on by one, modulo the size.
    pub fn get_worker(&mut self) -> (picked: Result<Arc<WorkerHandle>, BackendError>)
        requires
            old(self).wf(),
        ensures
            final(self).wf(),
            final(self).handles() == old(self).handles(),
            match picked {
                Ok(worker) => {
                    &&& old(self).handles().len() > 0
                    &&& *worker == old(self).handles()[selected(
                        old(self).cursor(),
                        old(self).handles().len(),
                    )]
                    &&& final(self).cursor() == advanced(
                        old(self).cursor(),
                        old(self).handles().len(),
                    )
                },
                Err(e) => {
                    &&& e == BackendError::NoWorkersAvailable
                    &&& old(self).handles().len() == 0
                    &&& final(self).cursor() == old(self).cursor()
                },
            },
    {
        let size = self.workers.len();
        if size == 0 {
            return Err(BackendError::NoWorkersAvailable);
        }
        let at = self.counter % size;
        let worker = share(&self.workers[at]);
        proof {
            lemma_add_mod_noop(self.counter as int, 1, size as int);
            lemma_mod_twice(self.counter as int, size as int);
            if size > 1 {
                lemma_small_mod(1, size as nat);
            }
        }
        self.counter = (at + 1) % size;
        Ok(worker)
    }
}

/// In a pool whose index agrees with it, a worker's identifier is found at
/// the position the index gives, and nowhere else.
pub proof fn lemma_position(index: Map<u128, usize>, handles: Seq<WorkerHandle>, id: u128)
    requires
        index_agrees(index, handles),
        index.contains_key(id),
    ensures
        ids_of(handles).contains(id),
        ids_of(handles).index_of(id) == index[id],
        handles[index[id] as int].id == id,
{
    let at = index[id] as int;
    assert(ids_of(handles)[at] == id);
    let found = ids_of(handles).index_of(id);
    assert(0 <= found < handles.len() && ids_of(handles)[found] == id);
    assert(index.contains_key(handles[found].id));
}

/// The index of a consistent pool has one entry for each worker, and no two
/// workers share an identifier.
pub proof fn lemma_index_counts_workers(index: Map<u128, usize>, handles: Seq<WorkerHandle>)
    requires
        index_agrees(index, handles),
        index.dom().finite(),
    ensures
        index.len() == handles.len(),
        ids_of(handles).no_duplicates(),
{
    let ids = ids_of(handles);
    assert forall|i: int, j: int| 0 <= i < ids.len() && 0 <= j < ids.len() && i != j implies ids[i]
        != ids[j] by {
        assert(index.contains_key(handles[i].id));
        assert(index.contains_key(handles[j].id));
    }
    assert(ids.to_set() =~= index.dom()) by {
        assert forall|k: u128| ids.to_set().contains(k) <==> index.dom().contains(k) by {
            if ids.to_set().contains(k) {
                let i = choose|i: int| 0 <= i < ids.len() && ids[i] == k;
                assert(index.contains_key(handles[i].id));
            }
            if index.dom().contains(k) {
                assert(index.contains_key(k));
                assert(ids[index[k] as int] == k);
            }
        }
    }
    ids.unique_seq_to_set();
}

impl WorkersBucket {
    /// In every state of the pool, the size of the collection and the size
    /// of the index are the same, and the identifiers are distinct.
    pub proof fn lemma_size_is_index_size(self)
        requires
            self.wf(),
        ensures
            self.handles().len() == self.index().len(),
            self.ids().no_duplicates(),
    {
        lemma_index_counts_workers(self.index(), self.handles());
    }
}

/// Whether the workers `handles` are exactly the connections `open`, each
/// once.
pub open spec fn tracks(handles: Seq<WorkerHandle>, open: Set<u128>) -> bool {
    &&& ids_of(handles).no_duplicates()
    &&& ids_of(handles).to_set() == open
}

/// A pool that tracks the open connections has as many workers as there
/// are open connections.
pub proof fn lemma_size_is_open_connections(handles: Seq<WorkerHandle>, open: Set<u128>)
    requires
        tracks(handles, open),
    ensures
        open.finite(),
        open.len() == handles.len(),
{
    ids_of(handles).unique_seq_to_set();
    vstd::seq_lib::seq_to_set_is_finite(ids_of(handles));
}

/// A pool that tracks the open connections still does so when a connection
/// with a new identifier opens and its worker is appended.
pub proof fn lemma_opening_is_tracked(
    handles: Seq<WorkerHandle>,
    open: Set<u128>,
    worker: WorkerHandle,
)
    requires
        tracks(handles, open),
        !ids_of(handles).contains(worker.id),
    ensures
        tracks(handles.push(worker), open.insert(worker.id)),
{
    let before = ids_of(handles);
    let after = ids_of(handles.push(worker));
    assert(after =~= before.push(worker.id));
    assert(after.to_set() =~= open.insert(worker.id)) by {
        assert forall|id: u128| after.to_set().contains(id) <==> open.insert(worker.id).contains(
            id,
        ) by {
            if after.to_set().contains(id) {
                let at = choose|at: int| 0 <= at < after.len() && after[at] == id;
                if at < before.len() {
                    assert(before[at] == id);
                }
            }
            if open.contains(id) {
                let at = choose|at: int| 0 <= at < before.len() && before[at] == id;
                assert(after[at] == id);
            }
            if id == worker.id {
                assert(after[before.len() as int] == id);
            }
        }
    }
}

/// A pool that tracks the open connections still does so when a connection
/// closes and its worker is taken out.
pub proof fn lemma_closing_is_tracked(handles: Seq<WorkerHandle>, open: Set<u128>, id: u128)
    requires
        tracks(handles, open),
        open.contains(id),
    ensures
        tracks(handles.remove(ids_of(handles).index_of(id)), open.remove(id)),
{
    let before = ids_of(handles);
    let gone = before.index_of(id);
    assert(before.contains(id));
    assert(0 <= gone < before.len() && before[gone] == id);
    let after = ids_of(handles.remove(gone));
    assert(after =~= before.remove(gone));
    assert(after.to_set() =~= open.remove(id)) by {
        assert forall|other: u128| after.to_set().contains(other) <==> open.remove(id).contains(
            other,
        ) by {
            if after.to_set().contains(other) {
                let at = choose|at: int| 0 <= at < after.len() && after[at] == other;
                if at < gone {
                    assert(before[at] == other);
                } else {
                    assert(before[at + 1] == other);
                }
            }
            if open.contains(other) && other != id {
                let at = choose|at: int| 0 <= at < before.len() && before[at] == other;
                if at < gone {
                    assert(after[at] == other);
                } else {
                    assert(after[at - 1] == other);
                }
            }
        }
    }
}

/// Whenever the pool is not empty, the cursor, taken modulo the pool's size,
/// points at a worker.
pub proof fn lemma_cursor_points_into_pool(cursor: nat, size: nat)
    requires
        size > 0,
    ensures
        0 <= selected(cursor, size) < size,
        advanced(cursor, size) < size,
{
    lemma_mod_bound(cursor as int, size as int);
    lemma_mod_bound((cursor + 1) as int, size as int);
}

/// The position that the `k`-th of a run of selections chooses (counting
/// from zero), in a pool of `size` workers whose cursor stood at `cursor`
/// before the run.
pub open spec fn nth_selected(cursor: nat, size: nat, k: nat) -> int
    decreases k,
{
    if k == 0 {
        selected(cursor, size)
    } else {
        nth_selected(advanced(cursor, size), size, (k - 1) as nat)
    }
}

/// How many of the first `n` selections of such a run choose position `at`.
pub open spec fn visits(cursor: nat, size: nat, at: int, n: nat) -> nat
    decreases n,
{
    if n == 0 {
        0
    } else {
        visits(cursor, size, at, (n - 1) as nat) + if nth_selected(cursor, size, (n - 1) as nat)
            == at {
            1nat
        } else {
            0nat
        }
    }
}

/// How many selections pass before position `at` is chosen for the first
/// time.
pub open spec fn first_visit(cursor: nat, size: nat, at: int) -> int {
    (at - cursor) % (size as int)
}

/// The `k`-th selection chooses the position `k` places behind the cursor,
/// counted round the pool.
pub proof fn lemma_nth_selected(cursor: nat, size: nat, k: nat)
    requires
        size > 0,
    ensures
        nth_selected(cursor, size, k) == (cursor + k) as int % (size as int),
    decreases k,
{
    if k > 0 {
        let next = advanced(cursor, size);
        lemma_nth_selected(next, size, (k - 1) as nat);
        lemma_add_mod_noop((cursor + 1) as int, k - 1, size as int);
        lemma_add_mod_noop(next as int, k - 1, size as int);
        lemma_mod_twice((cursor + 1) as int, size as int);
    }
}

/// The number of visits of a position after `n` selections, in closed form.
pub proof fn lemma_visits_closed_form(cursor: nat, size: nat, at: int, n: nat)
    requires
        size > 0,
        0 <= at < size,
    ensures
        0 <= first_visit(cursor, size, at) < size,
        visits(cursor, size, at, n) == (n + size - 1 - first_visit(cursor, size, at)) / (
        size as int),
    decreases n,
{
    let m = size as int;
    let d = first_visit(cursor, size, at);
    lemma_mod_bound(at - cursor, m);
    if n == 0 {
        lemma_basic_div(m - 1 - d, m);
    } else {
        let k = n - 1;
        lemma_visits_closed_form(cursor, size, at, k as nat);
        lemma_nth_selected(cursor, size, k as nat);
        let x = k + m - 1 - d;
        let q = x / m;
        let r = x % m;
        lemma_fundamental_div_mod(x, m);
        lemma_mod_bound(x, m);
        assert(m * q == q * m) by (nonlinear_arith);
        if r + 1 < m {
            lemma_fundamental_div_mod_converse(x + 1, m, q, r + 1);
        } else {
            assert((q + 1) * m == q * m + m) by (nonlinear_arith);
            lemma_fundamental_div_mod_converse(x + 1, m, q + 1, 0);
        }
        // the selection hits `at` exactly when k - d is a multiple of the size
        lemma_mod_add_multiples_vanish(k - d, m);
        assert(x + 1 == m + (k - d));
        lemma_mod_equivalence(k as int, at - cursor, m);
        lemma_mod_equivalence(k as int, d, m);
        lemma_mod_twice(at - cursor, m);
        lemma_mod_equivalence(cursor + k, at, m);
        lemma_small_mod(at as nat, size);
        assert(k - (at - cursor) == cursor + k - at);
    }
}

/// Round-robin is fair: over `n` consecutive selections from an unchanged
/// pool of `size` workers, each position is chosen `n / size` times, rounded
/// down or rounded up.
pub proof fn lemma_round_robin_is_fair(cursor: nat, size: nat, at: int, n: nat)
    requires
        size > 0,
        0 <= at < size,
    ensures
        visits(cursor, size, at, n) == n / size || visits(cursor, size, at, n) == (n + size - 1)
            / (size as int),
{
    let m = size as int;
    let d = first_visit(cursor, size, at);
    lemma_visits_closed_form(cursor, size, at, n);
    lemma_div_is_ordered(n as int, n + m - 1 - d, m);
    lemma_div_is_ordered(n + m - 1 - d, n + m - 1, m);
    lemma_div_is_ordered(n + m - 1, m + n, m);
    lemma_div_plus_one(n as int, m);
}

} // verus!
