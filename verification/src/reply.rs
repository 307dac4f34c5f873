//! The reply table of one worker connection: the pending reply slots, each
//! under the identifier of the request it belongs to.

use crate::channel::deliver;
use crate::proto::RegistryMsg;
use tokio::sync::oneshot::Sender;
use vstd::prelude::*;
use vstd::string::*;

verus! {

/// The pending reply slots of one connection.
///
/// The table is a map from request identifier to slot. It is kept as two
/// lists of equal length, identifiers and slots, in which no identifier
/// occurs twice: of a hash map with text keys nothing could be proved, as
/// vstd gives `String` no key model.
pub struct WSReplyPool {
    ids: Vec<String>,
    senders: Vec<Sender<RegistryMsg>>,
}

/// The position of `key` in a list without duplicates is the one place
/// where it stands.
proof fn lemma_place(keys: Seq<Seq<char>>, at: int)
    requires
        keys.no_duplicates(),
        0 <= at < keys.len(),
    ensures
        keys.contains(keys[at]),
        keys.index_of(keys[at]) == at,
{
    let found = keys.index_of(keys[at]);
    assert(0 <= found < keys.len() && keys[found] == keys[at]);
}

/// The map that two lists of equal length stand for.
pub open spec fn table_of(keys: Seq<Seq<char>>, slots: Seq<Sender<RegistryMsg>>) -> Map<
    Seq<char>,
    Sender<RegistryMsg>,
> {
    Map::new(|k: Seq<char>| keys.contains(k), |k: Seq<char>| slots[keys.index_of(k)])
}

impl WSReplyPool {
    /// The identifiers of the pending requests.
    pub closed spec fn keys(self) -> Seq<Seq<char>> {
        Seq::new(self.ids@.len(), |i: int| self.ids@[i]@)
    }

    /// The slots, each at the place of its identifier.
    pub closed spec fn slots(self) -> Seq<Sender<RegistryMsg>> {
        self.senders@
    }

    /// The table's invariant: one slot per identifier, no identifier twice.
    pub closed spec fn wf(self) -> bool {
        &&& self.keys().len() == self.slots().len()
        &&& self.keys().no_duplicates()
    }

    /// An empty table.
    pub fn new() -> (pool: Self)
        ensures
            pool.wf(),
            pool@ == Map::<Seq<char>, Sender<RegistryMsg>>::empty(),
    {
        let pool = WSReplyPool { ids: Vec::new(), senders: Vec::new() };
        assert(pool@ =~= Map::<Seq<char>, Sender<RegistryMsg>>::empty());
        pool
    }

    /// The number of pending requests.
    pub fn len(&self) -> (n: usize)
        requires
            self.wf(),
        ensures
            n == self@.len(),
            self@.dom().finite(),
    {
        proof {
            self.lemma_size();
        }
        self.ids.len()
    }

    /// The table has as many entries as the lists are long.
    proof fn lemma_size(self)
        requires
            self.wf(),
        ensures
            self@.dom().finite(),
            self@.len() == self.keys().len(),
    {
        let keys = self.keys();
        assert(self@.dom() =~= keys.to_set());
        keys.unique_seq_to_set();
        vstd::seq_lib::seq_to_set_is_finite(keys);
    }

    /// The place of `id` in the table, if it is there.
    fn find(&self, id: &str) -> (place: Option<usize>)
        requires
            self.wf(),
        ensures
            match place {
                Some(at) => at < self.keys().len() && self.keys()[at as int] == id@
                    && self@.contains_key(id@) && self@[id@] == self.slots()[at as int],
                None => !self@.contains_key(id@),
            },
    {
        let wanted = String::from_str(id);
        let mut at: usize = 0;
        while at < self.ids.len()
            invariant
                at <= self.ids.len(),
                self.wf(),
                wanted@ == id@,
                forall|j: int| 0 <= j < at ==> self.keys()[j] != id@,
            decreases self.ids.len() - at,
        {
            if self.ids[at] == wanted {
                proof {
                    lemma_place(self.keys(), at as int);
                }
                return Some(at);
            }
            at += 1;
        }
        None
    }

    /// Puts `sender` in the table under `id`.
    ///
    /// A slot that was there under the same identifier is displaced and
    /// handed back: its waiter has still to be told.
    pub fn register(&mut self, id: String, sender: Sender<RegistryMsg>) -> (displaced: Option<
        Sender<RegistryMsg>,
    >)
        requires
            old(self).wf(),
        ensures
            final(self).wf(),
            final(self)@ == old(self)@.insert(id@, sender),
            displaced == if old(self)@.contains_key(id@) {
                Some(old(self)@[id@])
            } else {
                None
            },
    {
        let ghost keys = self.keys();
        let ghost slots = self.slots();
        match self.find(id.as_str()) {
            Some(at) => {
                self.senders.push(sender);
                let displaced = self.senders.swap_remove(at);
                assert(self.slots() =~= slots.update(at as int, sender));
                assert(self.keys() == keys);
                assert(final(self)@ =~= old(self)@.insert(id@, sender)) by {
                    assert forall|k: Seq<char>| keys.contains(k) implies #[trigger] self@[k] == (
                    if k == id@ {
                        sender
                    } else {
                        old(self)@[k]
                    }) by {
                        let j = keys.index_of(k);
                        assert(0 <= j < keys.len() && keys[j] == k);
                        lemma_place(keys, j);
                    }
                }
                Some(displaced)
            },
            None => {
                self.ids.push(id);
                self.senders.push(sender);
                assert(self.keys() =~= keys.push(id@));
                assert(self.slots() == slots.push(sender));
                assert(self.keys().no_duplicates());
                assert(final(self)@ =~= old(self)@.insert(id@, sender)) by {
                    let now = self.keys();
                    assert forall|k: Seq<char>| now.contains(k) <==> (keys.contains(k) || k
                        == id@) by {
                        if keys.contains(k) {
                            let j = keys.index_of(k);
                            assert(0 <= j < keys.len() && keys[j] == k);
                            assert(now[j] == k);
                        }
                        if k == id@ {
                            assert(now[keys.len() as int] == k);
                        }
                    }
                    assert forall|k: Seq<char>| now.contains(k) implies #[trigger] self@[k] == (
                    if k == id@ {
                        sender
                    } else {
                        old(self)@[k]
                    }) by {
                        if k == id@ {
                            lemma_place(now, keys.len() as int);
                        } else {
                            let j = keys.index_of(k);
                            assert(0 <= j < keys.len() && keys[j] == k);
                            assert(now[j] == k);
                            lemma_place(now, j);
                        }
                    }
                }
                None
            },
        }
    }

    /// Takes the slot of the request `id` out of the table.
    fn take(&mut self, id: &str) -> (slot: Option<Sender<RegistryMsg>>)
        requires
            old(self).wf(),
        ensures
            final(self).wf(),
            match slot {
                Some(sender) => old(self)@.contains_key(id@) && sender == old(self)@[id@]
                    && final(self)@ == old(self)@.remove(id@),
                None => !old(self)@.contains_key(id@) && final(self)@ == old(self)@,
            },
    {
        let ghost keys = self.keys();
        let ghost slots = self.slots();
        match self.find(id) {
            None => None,
            Some(at) => {
                let _ = self.ids.swap_remove(at);
                let sender = self.senders.swap_remove(at);
                let ghost last = keys.len() - 1;
                let ghost now = self.keys();
                assert(now =~= keys.update(at as int, keys[last]).drop_last());
                assert(self.slots() =~= slots.update(at as int, slots[last]).drop_last());
                assert(now.no_duplicates());
                assert(final(self)@ =~= old(self)@.remove(id@)) by {
                    assert forall|k: Seq<char>| now.contains(k) <==> (keys.contains(k) && k
                        != id@) by {
                        if now.contains(k) {
                            let j = now.index_of(k);
                            assert(0 <= j < now.len() && now[j] == k);
                            if j == at {
                                assert(keys[last] == k);
                            } else {
                                assert(keys[j] == k);
                            }
                        }
                        if keys.contains(k) && k != id@ {
                            let j = keys.index_of(k);
                            assert(0 <= j < keys.len() && keys[j] == k);
                            if j == last {
                                assert(now[at as int] == k);
                            } else {
                                assert(now[j] == k);
                            }
                        }
                    }
                    assert forall|k: Seq<char>| now.contains(k) implies #[trigger] self@[k]
                        == old(self)@[k] by {
                        let j = now.index_of(k);
                        assert(0 <= j < now.len() && now[j] == k);
                        if j == at {
                            lemma_place(keys, last);
                        } else {
                            lemma_place(keys, j);
                        }
                    }
                }
                Some(sender)
            },
        }
    }

    /// Routes a worker's reply to the caller that waits for it.
    ///
    /// The slot of the request `id` leaves the table and `reply` is handed
    /// to it. The reply comes back as an error where no slot is registered
    /// under `id` (an unsolicited response; the table is unchanged), and
    /// where the slot's waiter has already gone.
    pub fn reply(&mut self, id: &str, reply: RegistryMsg) -> (outcome: Result<(), RegistryMsg>)
        requires
            old(self).wf(),
        ensures
            final(self).wf(),
            final(self)@ == old(self)@.remove(id@),
            !old(self)@.contains_key(id@) ==> outcome == Err::<(), RegistryMsg>(reply),
            outcome matches Err(back) ==> back == reply,
    {
        match self.take(id) {
            Some(sender) => deliver(sender, reply),
            None => {
                assert(old(self)@.remove(id@) =~= old(self)@);
                Err(reply)
            },
        }
    }

    /// Empties the table and tells every waiter that the connection is gone.
    pub fn drain(&mut self)
        requires
            old(self).wf(),
        ensures
            final(self).wf(),
            final(self)@ == Map::<Seq<char>, Sender<RegistryMsg>>::empty(),
    {
        self.ids.clear();
        while self.senders.len() > 0
            invariant
                self.ids@.len() == 0,
            decreases self.senders.len(),
        {
            match self.senders.pop() {
                Some(sender) => {
                    let _ = deliver(sender, RegistryMsg::Disconnected);
                },
                None => {},
            }
        }
        assert(self.keys() =~= Seq::<Seq<char>>::empty());
        assert(final(self)@ =~= Map::<Seq<char>, Sender<RegistryMsg>>::empty());
    }
}

impl View for WSReplyPool {
    type V = Map<Seq<char>, Sender<RegistryMsg>>;

    closed spec fn view(&self) -> Map<Seq<char>, Sender<RegistryMsg>> {
        table_of(self.keys(), self.slots())
    }
}

} // verus!
