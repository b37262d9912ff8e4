//! The subscription records, one per subscriber at most.

use vstd::prelude::*;
use crate::address::Address;
use crate::subscription::SubscriptionInfo;

verus! {

struct Entry {
    user: Address,
    info: SubscriptionInfo,
}

/// Whether some entry is `user`'s.
spec fn holds(entries: Seq<Entry>, user: Address) -> bool {
    exists|i: int| 0 <= i < entries.len() && (#[trigger] entries[i]).user == user
}

/// The place of `user`'s entry, if there is one.
spec fn place(entries: Seq<Entry>, user: Address) -> int {
    choose|i: int| 0 <= i < entries.len() && (#[trigger] entries[i]).user == user
}

/// No subscriber has two entries.
spec fn distinct(entries: Seq<Entry>) -> bool {
    forall|i: int, j: int|
        0 <= i < j < entries.len() ==> (#[trigger] entries[i]).user != (#[trigger] entries[j]).user
}

/// The map that the entries stand for.
spec fn as_map(entries: Seq<Entry>) -> Map<Address, SubscriptionInfo> {
    Map::new(|user: Address| holds(entries, user), |user: Address| entries[place(entries, user)].info)
}

/// With distinct entries, the entry at place `i` is what the map holds for
/// its subscriber.
proof fn lemma_entry_in_map(entries: Seq<Entry>, i: int)
    requires
        distinct(entries),
        0 <= i < entries.len(),
    ensures
        as_map(entries).contains_key(entries[i].user),
        as_map(entries)[entries[i].user] == entries[i].info,
        place(entries, entries[i].user) == i,
{
    let user = entries[i].user;
    assert(holds(entries, user));
    let p = place(entries, user);
    assert(0 <= p < entries.len() && entries[p].user == user);
    if p < i {
        assert(entries[p].user != entries[i].user);
    } else if i < p {
        assert(entries[i].user != entries[p].user);
    }
}

/// The subscription records, keyed by subscriber.
pub struct Subscribers {
    entries: Vec<Entry>,
}

impl View for Subscribers {
    type V = Map<Address, SubscriptionInfo>;

    closed spec fn view(&self) -> Map<Address, SubscriptionInfo> {
        as_map(self.entries@)
    }
}

impl Subscribers {
    /// No subscriber has two records.
    pub closed spec fn wf(&self) -> bool {
        distinct(self.entries@)
    }

    /// No records at all.
    pub fn new() -> (r: Subscribers)
        ensures
            r.wf(),
            r@ == Map::<Address, SubscriptionInfo>::empty(),
    {
        let r = Subscribers { entries: Vec::new() };
        assert(r@ =~= Map::<Address, SubscriptionInfo>::empty());
        r
    }

    /// The place of `user`'s entry, or `None` if there is none.
    fn find(&self, user: &Address) -> (r: Option<usize>)
        ensures
            match r {
                Some(i) => i < self.entries@.len() && self.entries@[i as int].user == *user,
                None => !holds(self.entries@, *user),
            },
    {
        let mut i: usize = 0;
        while i < self.entries.len()
            invariant
                i <= self.entries@.len(),
                forall|j: int| 0 <= j < i ==> (#[trigger] self.entries@[j]).user != *user,
            decreases self.entries@.len() - i,
        {
            if self.entries[i].user == *user {
                return Some(i);
            }
            i += 1;
        }
        None
    }

    /// The record of `user`, or `None` if there is none.
    pub fn get(&self, user: &Address) -> (r: Option<SubscriptionInfo>)
        requires
            self.wf(),
        ensures
            r == if self@.contains_key(*user) {
                Some(self@[*user])
            } else {
                None
            },
    {
        match self.find(user) {
            Some(i) => {
                proof {
                    lemma_entry_in_map(self.entries@, i as int);
                }
                Some(self.entries[i].info)
            },
            None => None,
        }
    }

    /// Makes `info` the record of `user`, in place of any record that `user`
    /// had. No other record changes.
    pub fn insert(&mut self, user: Address, info: SubscriptionInfo)
        requires
            old(self).wf(),
        ensures
            final(self).wf(),
            final(self)@ == old(self)@.insert(user, info),
    {
        let ghost before = self.entries@;
        match self.find(&user) {
            Some(i) => {
                self.entries[i] = Entry { user, info };
                proof {
                    let after = self.entries@;
                    assert(after == before.update(i as int, Entry { user, info }));
                    assert forall|a: int, b: int| 0 <= a < b < after.len() implies (
                    #[trigger] after[a]).user != (#[trigger] after[b]).user by {
                        assert(after[a].user == before[a].user);
                        assert(after[b].user == before[b].user);
                    }
                    assert forall|u: Address| holds(after, u) == holds(before, u) by {
                        if holds(after, u) {
                            let p = place(after, u);
                            assert(before[p].user == u);
                        }
                        if holds(before, u) {
                            let p = place(before, u);
                            assert(after[p].user == u);
                        }
                    }
                    assert forall|u: Address| holds(after, u) implies as_map(after)[u] == (if u
                        == user {
                        info
                    } else {
                        as_map(before)[u]
                    }) by {
                        let p = place(after, u);
                        lemma_entry_in_map(after, p);
                        lemma_entry_in_map(before, p);
                    }
                    assert(as_map(after) =~= as_map(before).insert(user, info));
                }
            },
            None => {
                self.entries.push(Entry { user, info });
                proof {
                    let after = self.entries@;
                    let last = before.len() as int;
                    assert(after == before.push(Entry { user, info }));
                    assert forall|a: int, b: int| 0 <= a < b < after.len() implies (
                    #[trigger] after[a]).user != (#[trigger] after[b]).user by {
                        assert(after[a] == before[a]);
                        if b < last {
                            assert(after[b] == before[b]);
                        } else {
                            assert(before[a].user != user);
                        }
                    }
                    assert forall|u: Address| holds(after, u) == (u == user || holds(before, u)) by {
                        if holds(after, u) {
                            let p = place(after, u);
                            if p < last {
                                assert(before[p].user == u);
                            }
                        }
                        if holds(before, u) {
                            let p = place(before, u);
                            assert(after[p].user == u);
                        }
                        if u == user {
                            assert(after[last].user == u);
                        }
                    }
                    assert forall|u: Address| holds(after, u) implies as_map(after)[u] == (if u
                        == user {
                        info
                    } else {
                        as_map(before)[u]
                    }) by {
                        let p = place(after, u);
                        lemma_entry_in_map(after, p);
                        if p < last {
                            assert(after[p] == before[p]);
                            lemma_entry_in_map(before, p);
                        }
                    }
                    assert(as_map(after) =~= as_map(before).insert(user, info));
                }
            },
        }
    }

    /// Deletes the record of `user`, and says whether there was one. No
    /// other record changes.
    pub fn remove(&mut self, user: &Address) -> (r: bool)
        requires
            old(self).wf(),
        ensures
            final(self).wf(),
            r == old(self)@.contains_key(*user),
            final(self)@ == old(self)@.remove(*user),
    {
        let ghost before = self.entries@;
        match self.find(user) {
            Some(i) => {
                self.entries.remove(i);
                proof {
                    let after = self.entries@;
                    let gone = i as int;
                    assert(after == before.remove(gone));
                    assert forall|a: int| 0 <= a < after.len() implies #[trigger] after[a] == before[if a
                        < gone {
                        a
                    } else {
                        a + 1
                    }] by {}
                    assert forall|a: int, b: int| 0 <= a < b < after.len() implies (
                    #[trigger] after[a]).user != (#[trigger] after[b]).user by {
                        let a0 = if a < gone { a } else { a + 1 };
                        let b0 = if b < gone { b } else { b + 1 };
                        assert(after[a] == before[a0]);
                        assert(after[b] == before[b0]);
                        assert(before[a0].user != before[b0].user);
                    }
                    lemma_entry_in_map(before, gone);
                    assert forall|u: Address| holds(after, u) == (u != *user && holds(before, u)) by {
                        if holds(after, u) {
                            let p = place(after, u);
                            let p0 = if p < gone { p } else { p + 1 };
                            assert(after[p] == before[p0]);
                            assert(before[p0].user == u);
                            if u == *user {
                                lemma_entry_in_map(before, p0);
                            }
                        }
                        if u != *user && holds(before, u) {
                            let p0 = place(before, u);
                            let p = if p0 < gone { p0 } else { p0 - 1 };
                            assert(after[p] == before[p0]);
                            assert(after[p].user == u);
                        }
                    }
                    assert forall|u: Address| holds(after, u) implies as_map(after)[u] == as_map(
                        before,
                    )[u] by {
                        let p = place(after, u);
                        let p0 = if p < gone { p } else { p + 1 };
                        assert(after[p] == before[p0]);
                        lemma_entry_in_map(after, p);
                        lemma_entry_in_map(before, p0);
                    }
                    assert(as_map(after) =~= as_map(before).remove(*user));
                }
                true
            },
            None => {
                assert(self@ =~= self@.remove(*user));
                false
            },
        }
    }
}

} // verus!
