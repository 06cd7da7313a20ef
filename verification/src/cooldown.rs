//! Per-user, per-command rate limiting.
//!
//! A use of a command by a user at time `at` blocks the next use until
//! `at + cooldown`. Times are seconds on one clock; all arithmetic on them is
//! stated over the integers, so that a clock that stepped back is handled like
//! any other time: the use stays blocked until the clock has caught up.
//!
//! The store keeps the time of the last use under the pair of user and command
//! name, at most one record per pair.

use crate::registry::Command;
use crate::text::same_text;
use vstd::prelude::*;

verus! {

/// Whether a user may use a command at `now`, given when they last used it
/// (`None`: never) and the command's cooldown.
pub open spec fn cooled_down(last_use: Option<u64>, cooldown: u64, now: u64) -> bool {
    match last_use {
        None => true,
        Some(at) => now - at >= cooldown,
    }
}

/// How long after `now` the user still has to wait.
pub open spec fn remaining(last_use: Option<u64>, cooldown: u64, now: u64) -> int {
    match last_use {
        None => 0,
        Some(at) => if cooldown - (now - at) > 0 {
            cooldown - (now - at)
        } else {
            0
        },
    }
}

/// Decides whether a user may use a command at `now`.
pub fn is_cooled_down_since(last_use: Option<u64>, cooldown: u64, now: u64) -> (cooled: bool)
    ensures
        cooled == cooled_down(last_use, cooldown, now),
{
    match last_use {
        None => true,
        Some(at) => now >= at && now - at >= cooldown,
    }
}

/// Computes how long after `now` a user still has to wait. The result is wide
/// enough for a last use that lies in the future of `now`.
pub fn remaining_cooldown_since(last_use: Option<u64>, cooldown: u64, now: u64) -> (left: u128)
    ensures
        left == remaining(last_use, cooldown, now),
{
    match last_use {
        None => 0,
        Some(at) => {
            let expiry: u128 = at as u128 + cooldown as u128;
            if expiry > now as u128 {
                expiry - now as u128
            } else {
                0
            }
        },
    }
}

/// Nothing remains to wait exactly when the command is cooled down.
pub proof fn law_cooled_down_means_nothing_remains(last_use: Option<u64>, cooldown: u64, now: u64)
    ensures
        cooled_down(last_use, cooldown, now) <==> remaining(last_use, cooldown, now) == 0,
        remaining(last_use, cooldown, now) >= 0,
{
}

/// Once cooled down, a command stays so as time goes on, and what remains to
/// wait shrinks by the time that passes.
pub proof fn law_waiting_ends(last_use: Option<u64>, cooldown: u64, now: u64, later: u64)
    requires
        now <= later,
    ensures
        cooled_down(last_use, cooldown, now) ==> cooled_down(last_use, cooldown, later),
        remaining(last_use, cooldown, later) <= remaining(last_use, cooldown, now),
        !cooled_down(last_use, cooldown, later) ==> remaining(last_use, cooldown, later)
            == remaining(last_use, cooldown, now) - (later - now),
{
}

/// After a use at `used_at`, a user who comes back before the cooldown has
/// passed has to wait for the rest of it.
pub proof fn law_early_return_waits_for_the_rest(used_at: u64, cooldown: u64, now: u64)
    requires
        used_at <= now < used_at + cooldown,
    ensures
        !cooled_down(Some(used_at), cooldown, now),
        remaining(Some(used_at), cooldown, now) == cooldown - (now - used_at),
{
}

/// The store could not be reached, for the given reason.
#[derive(Clone, Debug, PartialEq, Eq)]
pub struct StoreUnavailable {
    pub reason: String,
}

/// The key of a record: the user and the name of the command.
pub type CooldownKey = (u64, Seq<char>);

/// One record of the store: `user` last used `command` at `last_use`.
#[derive(Debug)]
pub struct CooldownRecord {
    pub user: u64,
    pub command: String,
    pub last_use: u64,
}

impl CooldownRecord {
    /// The key under which the record is kept.
    pub open spec fn key(&self) -> CooldownKey {
        (self.user, self.command@)
    }
}

/// Whether some record of `records` has the given key.
pub open spec fn is_recorded(records: Seq<CooldownRecord>, key: CooldownKey) -> bool {
    exists|i: int| 0 <= i < records.len() && (#[trigger] records[i]).key() == key
}

/// The position of a record of `records` with the given key.
pub open spec fn record_of(records: Seq<CooldownRecord>, key: CooldownKey) -> int {
    choose|i: int| 0 <= i < records.len() && (#[trigger] records[i]).key() == key
}

/// Whether no two records of `records` share a key.
pub open spec fn distinct_keys(records: Seq<CooldownRecord>) -> bool {
    forall|i: int, j: int|
        0 <= i < j < records.len() ==> (#[trigger] records[i]).key() != (
        #[trigger] records[j]).key()
}

/// The times of last use in `records`, each under its key.
pub open spec fn last_uses(records: Seq<CooldownRecord>) -> Map<CooldownKey, u64> {
    Map::new(
        |key: CooldownKey| is_recorded(records, key),
        |key: CooldownKey| records[record_of(records, key)].last_use,
    )
}

/// The time of last use under `key` in `uses`, if there is one.
pub open spec fn last_use_in(uses: Map<CooldownKey, u64>, key: CooldownKey) -> Option<u64> {
    if uses.dom().contains(key) {
        Some(uses[key])
    } else {
        None
    }
}

/// Among distinct keys, the time under a key is that of the one record that has it.
proof fn lemma_recorded_at(records: Seq<CooldownRecord>, index: int)
    requires
        distinct_keys(records),
        0 <= index < records.len(),
    ensures
        last_uses(records).dom().contains(records[index].key()),
        last_uses(records)[records[index].key()] == records[index].last_use,
{
    let key = records[index].key();
    assert(is_recorded(records, key));
    let chosen = record_of(records, key);
    assert(chosen == index) by {
        if chosen < index {
            assert(records[chosen].key() != records[index].key());
        } else if index < chosen {
            assert(records[index].key() != records[chosen].key());
        }
    }
}

/// A record under a new key adds its key to the map and leaves the rest alone.
proof fn lemma_record_added(records: Seq<CooldownRecord>, record: CooldownRecord)
    requires
        distinct_keys(records),
        !is_recorded(records, record.key()),
    ensures
        distinct_keys(records.push(record)),
        last_uses(records.push(record)) == last_uses(records).insert(
            record.key(),
            record.last_use,
        ),
{
    let all = records.push(record);
    assert forall|i: int, j: int| 0 <= i < j < all.len() implies (#[trigger] all[i]).key() != (
    #[trigger] all[j]).key() by {
        if j == records.len() {
            assert(all[i] == records[i]);
        }
    }
    assert forall|key: CooldownKey| is_recorded(all, key) implies key == record.key()
        || is_recorded(records, key) by {
        let at = record_of(all, key);
        if at < records.len() {
            assert(records[at] == all[at]);
        }
    }
    assert forall|key: CooldownKey| is_recorded(records, key) implies is_recorded(all, key)
        && last_uses(all)[key] == last_uses(records)[key] by {
        let at = record_of(records, key);
        assert(all[at] == records[at]);
        lemma_recorded_at(all, at);
    }
    lemma_recorded_at(all, records.len() as int);
    assert(last_uses(all) =~= last_uses(records).insert(record.key(), record.last_use));
}

/// A record that takes the place of another with the same key changes the time
/// under that key and leaves the rest alone.
proof fn lemma_record_replaced(records: Seq<CooldownRecord>, index: int, record: CooldownRecord)
    requires
        distinct_keys(records),
        0 <= index < records.len(),
        records[index].key() == record.key(),
    ensures
        distinct_keys(records.update(index, record)),
        last_uses(records.update(index, record)) == last_uses(records).insert(
            record.key(),
            record.last_use,
        ),
{
    let all = records.update(index, record);
    assert forall|i: int, j: int| 0 <= i < j < all.len() implies (#[trigger] all[i]).key() != (
    #[trigger] all[j]).key() by {
        assert(all[i].key() == records[i].key());
        assert(all[j].key() == records[j].key());
    }
    assert forall|key: CooldownKey| is_recorded(all, key) implies is_recorded(records, key) by {
        let at = record_of(all, key);
        assert(records[at].key() == all[at].key());
    }
    assert forall|key: CooldownKey| is_recorded(records, key) implies is_recorded(all, key) && (
    key != record.key() ==> last_uses(all)[key] == last_uses(records)[key]) by {
        let at = record_of(records, key);
        assert(all[at].key() == records[at].key());
        lemma_recorded_at(all, at);
    }
    lemma_recorded_at(all, index);
    lemma_recorded_at(records, index);
    assert(last_uses(all) =~= last_uses(records).insert(record.key(), record.last_use));
}

/// Distinct keys are as many as their records.
proof fn lemma_count_of_keys(records: Seq<CooldownRecord>)
    requires
        distinct_keys(records),
    ensures
        last_uses(records).dom().finite(),
        last_uses(records).dom().len() == records.len(),
    decreases records.len(),
{
    if records.len() == 0 {
        assert(last_uses(records).dom() =~= Set::<CooldownKey>::empty());
    } else {
        let firsts = records.drop_last();
        let last = records.last();
        assert forall|i: int, j: int| 0 <= i < j < firsts.len() implies (#[trigger] firsts[i]).key()
            != (#[trigger] firsts[j]).key() by {
            assert(firsts[i] == records[i]);
            assert(firsts[j] == records[j]);
        }
        if is_recorded(firsts, last.key()) {
            let at = record_of(firsts, last.key());
            assert(records[at] == firsts[at]);
            assert(records[at].key() != records[records.len() - 1].key());
        }
        lemma_count_of_keys(firsts);
        lemma_record_added(firsts, last);
        assert(records =~= firsts.push(last));
        assert(last_uses(records).dom() =~= last_uses(firsts).dom().insert(last.key()));
    }
}

/// The store of last uses, kept in memory.
pub struct CooldownStore {
    records: Vec<CooldownRecord>,
}

impl View for CooldownStore {
    type V = Map<CooldownKey, u64>;

    closed spec fn view(&self) -> Map<CooldownKey, u64> {
        last_uses(self.records@)
    }
}

impl CooldownStore {
    #[verifier::type_invariant]
    spec fn keys_are_unique(&self) -> bool {
        distinct_keys(self.records@)
    }

    /// A store without records.
    pub fn new() -> (store: Self)
        ensures
            store@ == Map::<CooldownKey, u64>::empty(),
    {
        let store = CooldownStore { records: Vec::new() };
        assert(store@ =~= Map::<CooldownKey, u64>::empty());
        store
    }

    /// The position of the record of `user` and `command`, if there is one.
    fn find(&self, user: u64, command: &str) -> (found: Option<usize>)
        ensures
            match found {
                Some(index) => index < self.records@.len() && self.records@[index as int].key() == (
                    user,
                    command@,
                ),
                None => !is_recorded(self.records@, (user, command@)),
            },
    {
        let mut i: usize = 0;
        while i < self.records.len()
            invariant
                i <= self.records.len(),
                forall|k: int| 0 <= k < i ==> (#[trigger] self.records@[k]).key() != (user, command@),
            decreases self.records.len() - i,
        {
            if self.records[i].user == user && same_text(self.records[i].command.as_str(), command) {
                return Some(i);
            }
            i += 1;
        }
        None
    }

    /// The number of records.
    pub fn len(&self) -> (count: usize)
        ensures
            self@.dom().finite(),
            count == self@.dom().len(),
    {
        proof {
            use_type_invariant(self);
            lemma_count_of_keys(self.records@);
        }
        self.records.len()
    }

    /// When `user` last used `command`, if ever.
    pub fn last_use(&self, user: u64, command: &str) -> (at: Option<u64>)
        ensures
            at == last_use_in(self@, (user, command@)),
    {
        proof {
            use_type_invariant(self);
        }
        match self.find(user, command) {
            Some(index) => {
                proof {
                    lemma_recorded_at(self.records@, index as int);
                }
                Some(self.records[index].last_use)
            },
            None => None,
        }
    }

    /// Records that `user` used `command` at `now`: the record of the pair is
    /// created or overwritten, and no other record changes.
    pub fn record_use(&mut self, user: u64, command: &str, now: u64)
        ensures
            final(self)@ == old(self)@.insert((user, command@), now),
    {
        proof {
            use_type_invariant(&*self);
        }
        let record = CooldownRecord { user, command: command.to_owned(), last_use: now };
        let found = self.find(user, command);
        let mut records: Vec<CooldownRecord> = Vec::new();
        core::mem::swap(&mut self.records, &mut records);
        match found {
            Some(index) => {
                proof {
                    lemma_record_replaced(records@, index as int, record);
                }
                records.set(index, record);
            },
            None => {
                proof {
                    lemma_record_added(records@, record);
                }
                records.push(record);
            },
        }
        self.records = records;
    }

    /// Whether `user` may use `command` at `now`.
    pub fn is_cooled_down<E>(&self, user: u64, command: &Command<E>, now: u64) -> (cooled: bool)
        ensures
            cooled == cooled_down(
                last_use_in(self@, (user, command.name@)),
                command.cooldown,
                now,
            ),
    {
        is_cooled_down_since(self.last_use(user, command.name.as_str()), command.cooldown, now)
    }

    /// How long after `now` `user` still has to wait before using `command`.
    pub fn remaining_cooldown<E>(&self, user: u64, command: &Command<E>, now: u64) -> (left: u128)
        ensures
            left == remaining(last_use_in(self@, (user, command.name@)), command.cooldown, now),
    {
        remaining_cooldown_since(self.last_use(user, command.name.as_str()), command.cooldown, now)
    }
}

/// Before a user has ever used a command it is cooled down, and right after a
/// use it is not, unless it has no cooldown.
pub proof fn law_first_use_is_free_and_next_use_waits(
    uses: Map<CooldownKey, u64>,
    user: u64,
    command: Seq<char>,
    cooldown: u64,
    now: u64,
)
    ensures
        !uses.dom().contains((user, command)) ==> cooled_down(
            last_use_in(uses, (user, command)),
            cooldown,
            now,
        ),
        cooldown > 0 ==> !cooled_down(
            last_use_in(uses.insert((user, command), now), (user, command)),
            cooldown,
            now,
        ),
        cooldown == 0 ==> cooled_down(
            last_use_in(uses.insert((user, command), now), (user, command)),
            cooldown,
            now,
        ),
{
}

/// A use leaves the records of every other user and of every other command as
/// they were.
pub proof fn law_use_touches_one_key(
    uses: Map<CooldownKey, u64>,
    key: CooldownKey,
    now: u64,
    other: CooldownKey,
)
    requires
        other != key,
    ensures
        last_use_in(uses.insert(key, now), other) == last_use_in(uses, other),
        last_use_in(uses.insert(key, now), key) == Some(now),
{
}

} // verus!
