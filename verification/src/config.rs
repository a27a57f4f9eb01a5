//! The shared configuration snapshot and the rule by which a fresh one
//! replaces it.

use crate::error::ConfigError;
use vstd::prelude::*;

verus! {

/// Seconds between two reads of the configuration source.
pub const RELOAD_PERIOD_SECS: u64 = 10;

/// One row of a snapshot.
#[derive(Debug, Clone)]
struct Setting {
    key: String,
    value: String,
}

/// A key/value table read from the configuration source. A snapshot is
/// built once and then only read; a change of configuration is a new
/// snapshot.
#[derive(Debug, Clone)]
pub struct ConfigSnapshot {
    settings: Vec<Setting>,
}

/// Whether some row of `rows` has the key `key`.
spec fn has_key(rows: Seq<Setting>, key: Seq<char>) -> bool {
    exists|i: int| 0 <= i < rows.len() && (#[trigger] rows[i]).key@ == key
}

/// The index of a row of `rows` with the key `key`.
spec fn row_of(rows: Seq<Setting>, key: Seq<char>) -> int {
    choose|i: int| 0 <= i < rows.len() && (#[trigger] rows[i]).key@ == key
}

/// No two rows of `rows` have the same key.
spec fn distinct_keys(rows: Seq<Setting>) -> bool {
    forall|i: int, j: int|
        0 <= i < j < rows.len() ==> (#[trigger] rows[i]).key@ != (#[trigger] rows[j]).key@
}

/// The table that `rows` spell out.
spec fn table_of(rows: Seq<Setting>) -> Map<Seq<char>, Seq<char>> {
    Map::new(|key: Seq<char>| has_key(rows, key), |key: Seq<char>| rows[row_of(rows, key)].value@)
}

/// With distinct keys, the row at `i` is the one the table goes by.
proof fn lemma_row_is_entry(rows: Seq<Setting>, i: int)
    requires
        distinct_keys(rows),
        0 <= i < rows.len(),
    ensures
        table_of(rows).contains_key(rows[i].key@),
        table_of(rows)[rows[i].key@] == rows[i].value@,
{
    let key = rows[i].key@;
    assert(has_key(rows, key));
    let j = row_of(rows, key);
    assert(0 <= j < rows.len() && rows[j].key@ == key);
    if j < i {
        assert(rows[j].key@ != rows[i].key@);
    } else if i < j {
        assert(rows[i].key@ != rows[j].key@);
    }
}

impl View for ConfigSnapshot {
    type V = Map<Seq<char>, Seq<char>>;

    closed spec fn view(&self) -> Map<Seq<char>, Seq<char>> {
        table_of(self.settings@)
    }
}

impl ConfigSnapshot {
    /// A snapshot is well formed when no key occurs twice in it.
    pub closed spec fn wf(&self) -> bool {
        distinct_keys(self.settings@)
    }

    /// The empty snapshot.
    pub fn new() -> (snapshot: ConfigSnapshot)
        ensures
            snapshot.wf(),
            snapshot@ == Map::<Seq<char>, Seq<char>>::empty(),
    {
        let snapshot = ConfigSnapshot { settings: Vec::new() };
        assert(snapshot@ =~= Map::<Seq<char>, Seq<char>>::empty());
        snapshot
    }

    /// The position of `key` among the rows, if it has one.
    fn position(&self, key: &str) -> (found: Option<usize>)
        requires
            self.wf(),
        ensures
            match found {
                Some(i) => i < self.settings@.len() && self.settings@[i as int].key@ == key@,
                None => !has_key(self.settings@, key@),
            },
    {
        let wanted = key.to_owned();
        let mut i: usize = 0;
        while i < self.settings.len()
            invariant
                wanted@ == key@,
                i <= self.settings@.len(),
                forall|j: int| 0 <= j < i ==> (#[trigger] self.settings@[j]).key@ != key@,
            decreases self.settings@.len() - i,
        {
            if self.settings[i].key == wanted {
                return Some(i);
            }
            i += 1;
        }
        None
    }

    /// The value of `key`, if the snapshot has one.
    pub fn get(&self, key: &str) -> (value: Option<String>)
        requires
            self.wf(),
        ensures
            value.is_some() == self@.contains_key(key@),
            value matches Some(v) ==> v@ == self@[key@],
    {
        match self.position(key) {
            Some(i) => {
                proof {
                    lemma_row_is_entry(self.settings@, i as int);
                }
                Some(self.settings[i].value.clone())
            },
            None => None,
        }
    }

    /// Gives `key` the value `value`, over any value it had.
    pub fn set(&mut self, key: String, value: String)
        requires
            old(self).wf(),
        ensures
            final(self).wf(),
            final(self)@ == old(self)@.insert(key@, value@),
    {
        let ghost before = self.settings@;
        let ghost k = key@;
        let ghost v = value@;
        match self.position(key.as_str()) {
            Some(i) => {
                self.settings.set(i, Setting { key, value });
                proof {
                    let after = self.settings@;
                    assert forall|j: int| 0 <= j < after.len() implies (#[trigger] after[j]).key@
                        == before[j].key@ by {}
                    assert(distinct_keys(after));
                    lemma_row_is_entry(after, i as int);
                    assert forall|q: Seq<char>| has_key(after, q) <==> has_key(before, q) by {
                        if has_key(after, q) {
                            let j = row_of(after, q);
                            assert(before[j].key@ == q);
                        }
                        if has_key(before, q) {
                            let j = row_of(before, q);
                            assert(after[j].key@ == q);
                        }
                    }
                    assert(has_key(before, k));
                    assert forall|q: Seq<char>| #[trigger] has_key(after, q) && q != k implies table_of(after)[q] == table_of(before)[q] by {
                        let j = row_of(after, q);
                        assert(j != i);
                        assert(after[j] == before[j]);
                        lemma_row_is_entry(after, j);
                        lemma_row_is_entry(before, j);
                    }
                    assert(table_of(after) =~= table_of(before).insert(k, v));
                }
            },
            None => {
                self.settings.push(Setting { key, value });
                proof {
                    let after = self.settings@;
                    let last = after.len() - 1;
                    assert forall|j: int| 0 <= j < before.len() implies (#[trigger] after[j]) == before[j] by {}
                    assert forall|a: int, b: int| 0 <= a < b < after.len() implies (#[trigger] after[a]).key@ != (#[trigger] after[b]).key@ by {
                        if b == last {
                            assert(before[a].key@ != k);
                        } else {
                            assert(before[a].key@ != before[b].key@);
                        }
                    }
                    lemma_row_is_entry(after, last);
                    assert forall|q: Seq<char>| has_key(after, q) <==> (has_key(before, q) || q == k) by {
                        if has_key(after, q) {
                            let j = row_of(after, q);
                            if j != last {
                                assert(before[j].key@ == q);
                            }
                        }
                        if has_key(before, q) {
                            let j = row_of(before, q);
                            assert(after[j].key@ == q);
                        }
                        if q == k {
                            assert(after[last].key@ == q);
                        }
                    }
                    assert forall|q: Seq<char>| #[trigger] has_key(after, q) && q != k implies table_of(after)[q] == table_of(before)[q] by {
                        let j = row_of(before, q);
                        assert(after[j] == before[j]);
                        lemma_row_is_entry(after, j);
                        lemma_row_is_entry(before, j);
                    }
                    assert(table_of(after) =~= table_of(before).insert(k, v));
                }
            },
        }
    }

    /// Whether every entry of this snapshot is an entry of `other`.
    pub fn covered_by(&self, other: &ConfigSnapshot) -> (covered: bool)
        requires
            self.wf(),
            other.wf(),
        ensures
            covered == self@.submap_of(other@),
    {
        let mut i: usize = 0;
        while i < self.settings.len()
            invariant
                self.wf(),
                other.wf(),
                i <= self.settings@.len(),
                forall|j: int|
                    0 <= j < i ==> other@.contains_key((#[trigger] self.settings@[j]).key@)
                        && other@[self.settings@[j].key@] == self.settings@[j].value@,
            decreases self.settings@.len() - i,
        {
            proof {
                lemma_row_is_entry(self.settings@, i as int);
            }
            match other.get(self.settings[i].key.as_str()) {
                Some(theirs) => {
                    if !(theirs == self.settings[i].value) {
                        return false;
                    }
                },
                None => {
                    return false;
                },
            }
            i += 1;
        }
        proof {
            assert forall|q: Seq<char>| #[trigger] self@.dom().contains(q) implies other@.dom().contains(q) && self@[q] == other@[q] by {
                let j = row_of(self.settings@, q);
                lemma_row_is_entry(self.settings@, j);
            }
        }
        true
    }

    /// Whether the two snapshots are the same table: the same keys with the
    /// same values, in whatever order the rows stand.
    pub fn same_as(&self, other: &ConfigSnapshot) -> (same: bool)
        requires
            self.wf(),
            other.wf(),
        ensures
            same == (self@ == other@),
    {
        let same = self.covered_by(other) && other.covered_by(self);
        proof {
            if same {
                assert(self@ =~= other@);
            }
        }
        same
    }
}

/// What a tick of the reload loop did.
#[derive(Debug, Clone, Copy, PartialEq, Eq, Structural)]
pub enum ReloadOutcome {
    /// The source gave a different table; it is now the shared snapshot.
    Replaced,
    /// The source gave the table that is already shared; nothing was written.
    Unchanged,
    /// The source gave no table; the shared snapshot stays in force.
    Failed { error: ConfigError },
}

/// The table that is shared after a tick.
pub open spec fn reloaded(
    current: Map<Seq<char>, Seq<char>>,
    fetched: Result<Map<Seq<char>, Seq<char>>, ConfigError>,
) -> Map<Seq<char>, Seq<char>> {
    match fetched {
        Ok(fresh) => fresh,
        Err(_) => current,
    }
}

/// What a tick reports.
pub open spec fn reload_outcome(
    current: Map<Seq<char>, Seq<char>>,
    fetched: Result<Map<Seq<char>, Seq<char>>, ConfigError>,
) -> ReloadOutcome {
    match fetched {
        Ok(fresh) => if fresh == current {
            ReloadOutcome::Unchanged
        } else {
            ReloadOutcome::Replaced
        },
        Err(error) => ReloadOutcome::Failed { error },
    }
}

/// What the source handed over, as mathematics.
pub open spec fn fetched_table(fetched: Result<ConfigSnapshot, ConfigError>) -> Result<
    Map<Seq<char>, Seq<char>>,
    ConfigError,
> {
    match fetched {
        Ok(fresh) => Ok(fresh@),
        Err(error) => Err(error),
    }
}

/// One tick of the reload loop: takes what the configuration source handed
/// over and swaps it in for the shared snapshot if, and only if, it is a
/// different table. A failure of the source leaves the shared snapshot in
/// force.
pub fn reload(shared: &mut ConfigSnapshot, fetched: Result<ConfigSnapshot, ConfigError>) -> (outcome: ReloadOutcome)
    requires
        old(shared).wf(),
        fetched matches Ok(fresh) ==> fresh.wf(),
    ensures
        final(shared).wf(),
        outcome == reload_outcome(old(shared)@, fetched_table(fetched)),
        final(shared)@ == reloaded(old(shared)@, fetched_table(fetched)),
        outcome != ReloadOutcome::Replaced ==> *final(shared) == *old(shared),
        outcome == ReloadOutcome::Replaced ==> fetched == Ok::<ConfigSnapshot, ConfigError>(*final(shared)),
{
    match fetched {
        Ok(fresh) => {
            if fresh.same_as(shared) {
                ReloadOutcome::Unchanged
            } else {
                *shared = fresh;
                ReloadOutcome::Replaced
            }
        },
        Err(error) => ReloadOutcome::Failed { error },
    }
}

/// Reloading is idempotent. After a tick on which the source gave a table,
/// that table is the shared one; a second tick on which the source gives the
/// same table again reports no change and leaves the shared table as it is.
pub proof fn reload_is_idempotent(
    current: Map<Seq<char>, Seq<char>>,
    fresh: Map<Seq<char>, Seq<char>>,
)
    ensures
        reloaded(current, Ok(fresh)) == fresh,
        reload_outcome(reloaded(current, Ok(fresh)), Ok(fresh)) == ReloadOutcome::Unchanged,
        reloaded(reloaded(current, Ok(fresh)), Ok(fresh)) == reloaded(current, Ok(fresh)),
        fresh != current ==> reload_outcome(current, Ok(fresh)) == ReloadOutcome::Replaced,
{
}

/// A failing source changes nothing, however often it fails.
pub proof fn failed_reload_keeps_snapshot(current: Map<Seq<char>, Seq<char>>, error: ConfigError)
    ensures
        reloaded(current, Err(error)) == current,
        reload_outcome(current, Err(error)) == (ReloadOutcome::Failed { error }),
{
}

} // verus!
