//! A keyed store of positions: at most one record for each account and currency.

use vstd::prelude::*;
use crate::account::AccountId;
use crate::currency::Currency;
use crate::position::PositionKey;

verus! {

/// One record of a book, with the key it is filed under.
#[derive(Debug)]
struct Slot<V> {
    account: AccountId,
    currency: Currency,
    value: V,
}

impl<V> Slot<V> {
    /// The key this record is filed under.
    spec fn key(self) -> PositionKey {
        PositionKey { account: self.account, currency: self.currency }
    }
}

/// No two records of `slots` share a key.
spec fn keys_distinct<V>(slots: Seq<Slot<V>>) -> bool {
    forall|i: int, j: int|
        0 <= i < j < slots.len() ==> (#[trigger] slots[i]).key() != (#[trigger] slots[j]).key()
}

/// Some record of `slots` is filed under `key`.
spec fn has_key<V>(slots: Seq<Slot<V>>, key: PositionKey) -> bool {
    exists|i: int| 0 <= i < slots.len() && (#[trigger] slots[i]).key() == key
}

/// The place of a record of `slots` that is filed under `key`.
spec fn place_of<V>(slots: Seq<Slot<V>>, key: PositionKey) -> int {
    choose|i: int| 0 <= i < slots.len() && (#[trigger] slots[i]).key() == key
}

/// The records of `slots` as a map from key to value.
spec fn as_map<V>(slots: Seq<Slot<V>>) -> Map<PositionKey, V> {
    Map::new(|key: PositionKey| has_key(slots, key), |key: PositionKey| slots[place_of(slots, key)].value)
}

/// With distinct keys, the record at place `i` is the one the map holds for its key.
proof fn lemma_record_at<V>(slots: Seq<Slot<V>>, i: int)
    requires
        keys_distinct(slots),
        0 <= i < slots.len(),
    ensures
        as_map(slots).contains_key(slots[i].key()),
        as_map(slots)[slots[i].key()] == slots[i].value,
{
    let key = slots[i].key();
    assert(has_key(slots, key));
    let j = place_of(slots, key);
    assert(0 <= j < slots.len() && slots[j].key() == key);
    if i < j {
        assert(slots[i].key() != slots[j].key());
    } else if j < i {
        assert(slots[j].key() != slots[i].key());
    }
}

/// A book of positions, keyed by account and currency.
#[derive(Debug)]
pub struct PositionBook<V> {
    slots: Vec<Slot<V>>,
}

impl<V> View for PositionBook<V> {
    type V = Map<PositionKey, V>;

    closed spec fn view(&self) -> Map<PositionKey, V> {
        as_map(self.slots@)
    }
}

impl<V: Copy> PositionBook<V> {
    /// The book keeps at most one record for each key.
    pub closed spec fn wf(&self) -> bool {
        keys_distinct(self.slots@)
    }

    /// A book without records.
    pub fn new() -> (r: Self)
        ensures
            r.wf(),
            r@ == Map::<PositionKey, V>::empty(),
    {
        let r = PositionBook { slots: Vec::new() };
        assert(r@ =~= Map::<PositionKey, V>::empty());
        r
    }

    /// Where the record for the key stands, if the book has one.
    fn find(&self, account: &AccountId, currency: Currency) -> (r: Option<usize>)
        requires
            self.wf(),
        ensures
            match r {
                Some(i) => i < self.slots@.len() && self.slots@[i as int].key() == (PositionKey {
                    account: *account,
                    currency,
                }),
                None => !has_key(self.slots@, PositionKey { account: *account, currency }),
            },
    {
        let ghost key = PositionKey { account: *account, currency };
        let mut i: usize = 0;
        while i < self.slots.len()
            invariant
                i <= self.slots@.len(),
                key == (PositionKey { account: *account, currency }),
                forall|j: int| 0 <= j < i ==> (#[trigger] self.slots@[j]).key() != key,
            decreases self.slots@.len() - i,
        {
            let slot = &self.slots[i];
            if slot.currency.same(currency) && slot.account.same(account) {
                return Some(i);
            }
            i += 1;
        }
        None
    }

    /// Looks up the record for an account and currency.
    pub fn get(&self, account: &AccountId, currency: Currency) -> (r: Option<V>)
        requires
            self.wf(),
        ensures
            r == (if self@.contains_key(PositionKey { account: *account, currency }) {
                Some(self@[PositionKey { account: *account, currency }])
            } else {
                None
            }),
    {
        match self.find(account, currency) {
            Some(i) => {
                proof {
                    lemma_record_at(self.slots@, i as int);
                }
                Some(self.slots[i].value)
            },
            None => None,
        }
    }

    /// Files `value` under the account and currency, in place of any record already there.
    pub fn put(&mut self, account: AccountId, currency: Currency, value: V)
        requires
            old(self).wf(),
        ensures
            final(self).wf(),
            final(self)@ == old(self)@.insert(PositionKey { account, currency }, value),
    {
        let ghost key = PositionKey { account, currency };
        let ghost before = self.slots@;
        let slot = Slot { account, currency, value };
        match self.find(&account, currency) {
            Some(i) => {
                self.slots.set(i, slot);
                proof {
                    let after = self.slots@;
                    assert(keys_distinct(after)) by {
                        assert forall|a: int, b: int| 0 <= a < b < after.len() implies (
                        #[trigger] after[a]).key() != (#[trigger] after[b]).key() by {
                            assert(before[a].key() != before[b].key());
                        }
                    }
                    assert forall|k: PositionKey| has_key(after, k) == (k == key || has_key(
                        before,
                        k,
                    )) by {
                        if has_key(after, k) {
                            let a = place_of(after, k);
                            if a != i {
                                assert(before[a].key() == k);
                            }
                        }
                        if k == key {
                            assert(after[i as int].key() == k);
                        } else if has_key(before, k) {
                            let b = place_of(before, k);
                            assert(after[b].key() == k);
                        }
                    }
                    assert forall|k: PositionKey| has_key(after, k) implies as_map(after)[k]
                        == as_map(before).insert(key, value)[k] by {
                        let a = place_of(after, k);
                        lemma_record_at(after, a);
                        if a != i {
                            lemma_record_at(before, a);
                        }
                    }
                    assert(as_map(after) =~= as_map(before).insert(key, value));
                }
            },
            None => {
                self.slots.push(slot);
                proof {
                    let after = self.slots@;
                    let n = before.len() as int;
                    assert(keys_distinct(after)) by {
                        assert forall|a: int, b: int| 0 <= a < b < after.len() implies (
                        #[trigger] after[a]).key() != (#[trigger] after[b]).key() by {
                            if b < n {
                                assert(before[a].key() != before[b].key());
                            } else {
                                assert(before[a].key() != key);
                            }
                        }
                    }
                    assert forall|k: PositionKey| has_key(after, k) == (k == key || has_key(
                        before,
                        k,
                    )) by {
                        if has_key(after, k) {
                            let a = place_of(after, k);
                            if a != n {
                                assert(before[a].key() == k);
                            }
                        }
                        if k == key {
                            assert(after[n].key() == k);
                        } else if has_key(before, k) {
                            let b = place_of(before, k);
                            assert(after[b].key() == k);
                        }
                    }
                    assert forall|k: PositionKey| has_key(after, k) implies as_map(after)[k]
                        == as_map(before).insert(key, value)[k] by {
                        let a = place_of(after, k);
                        lemma_record_at(after, a);
                        if a != n {
                            lemma_record_at(before, a);
                        }
                    }
                    assert(as_map(after) =~= as_map(before).insert(key, value));
                }
            },
        }
    }
}

} // verus!
