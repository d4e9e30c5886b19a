//! The process-wide cache store.
//!
//! The store keeps typed values under string keys, each with an absolute
//! expiration deadline on a monotonic clock, and a separate map of keys marked
//! stale by explicit invalidation.  Reads miss when the key is absent, marked
//! stale, past its deadline, or stored under another type; writes overwrite
//! unconditionally and clear staleness; a periodic sweep removes the entries
//! of stale keys.  Time enters every operation as a tick count (the shell
//! around the library chooses the unit, e.g. milliseconds), so the whole store
//! is a deterministic state machine: every operation's effect is stated
//! against the model built by [`spec_set`], [`spec_invalidate`] and
//! [`spec_sweep`], and observed through [`spec_get`].

use crate::text::str_eq;
use crate::todos::{clone_todos, Todo, TodoModel, todos_view};
use crate::users::{clone_users, User, UserModel, users_view};
use vstd::prelude::*;

verus! {

/// Ticks an entry lives when a write names no duration of its own.
pub const DEFAULT_CACHE_TTL_MILLIS: u64 = 60000;

/// Ticks between two runs of the background sweep.
pub const SWEEP_INTERVAL_MILLIS: u64 = 30000;

/// A value the store can hold.  The store itself is type-erased: every entry
/// holds one of these, and a read asks for a [`CacheTag`] and misses when the
/// stored variant is another one.
#[derive(Debug, PartialEq, Eq)]
pub enum CacheValue {
    Int(i64),
    Text(String),
    Todos(Vec<Todo>),
    Users(Vec<User>),
    /// A to-do list together with its completed and pending counts.
    TodoSummary(Vec<Todo>, usize, usize),
}

/// Mathematical image of a [`CacheValue`].
pub enum CacheValueModel {
    Int(int),
    Text(Seq<char>),
    Todos(Seq<TodoModel>),
    Users(Seq<UserModel>),
    TodoSummary(Seq<TodoModel>, int, int),
}

impl View for CacheValue {
    type V = CacheValueModel;

    open spec fn view(&self) -> CacheValueModel {
        match self {
            CacheValue::Int(i) => CacheValueModel::Int(*i as int),
            CacheValue::Text(s) => CacheValueModel::Text(s@),
            CacheValue::Todos(ts) => CacheValueModel::Todos(todos_view(ts@)),
            CacheValue::Users(us) => CacheValueModel::Users(users_view(us@)),
            CacheValue::TodoSummary(ts, c, p) => CacheValueModel::TodoSummary(
                todos_view(ts@),
                *c as int,
                *p as int,
            ),
        }
    }
}

/// The type a read expects; each [`CacheValue`] variant carries one.
#[derive(Clone, Copy, Debug, PartialEq, Eq, Structural)]
pub enum CacheTag {
    Int,
    Text,
    Todos,
    Users,
    TodoSummary,
}

/// The tag a stored value answers to.
pub open spec fn tag_of(v: CacheValueModel) -> CacheTag {
    match v {
        CacheValueModel::Int(_) => CacheTag::Int,
        CacheValueModel::Text(_) => CacheTag::Text,
        CacheValueModel::Todos(_) => CacheTag::Todos,
        CacheValueModel::Users(_) => CacheTag::Users,
        CacheValueModel::TodoSummary(_, _, _) => CacheTag::TodoSummary,
    }
}

/// The tag of `v`, computed.
pub fn value_tag(v: &CacheValue) -> (t: CacheTag)
    ensures
        t == tag_of(v@),
{
    match v {
        CacheValue::Int(_) => CacheTag::Int,
        CacheValue::Text(_) => CacheTag::Text,
        CacheValue::Todos(_) => CacheTag::Todos,
        CacheValue::Users(_) => CacheTag::Users,
        CacheValue::TodoSummary(_, _, _) => CacheTag::TodoSummary,
    }
}

impl Clone for CacheValue {
    fn clone(&self) -> (r: Self)
        ensures
            r@ == self@,
    {
        match self {
            CacheValue::Int(i) => CacheValue::Int(*i),
            CacheValue::Text(s) => CacheValue::Text(s.clone()),
            CacheValue::Todos(ts) => CacheValue::Todos(clone_todos(ts)),
            CacheValue::Users(us) => CacheValue::Users(clone_users(us)),
            CacheValue::TodoSummary(ts, c, p) => CacheValue::TodoSummary(clone_todos(ts), *c, *p),
        }
    }
}

/// One stored entry: the value, its deadline, and the tick of its last write.
#[derive(Debug)]
pub struct CacheEntry {
    pub value: CacheValue,
    pub expires_at: u64,
    pub created_at: u64,
}

/// Mathematical image of a [`CacheEntry`].
pub struct EntryModel {
    pub value: CacheValueModel,
    pub expires_at: int,
    pub created_at: int,
}

impl View for CacheEntry {
    type V = EntryModel;

    open spec fn view(&self) -> EntryModel {
        EntryModel {
            value: self.value@,
            expires_at: self.expires_at as int,
            created_at: self.created_at as int,
        }
    }
}

impl Clone for CacheEntry {
    fn clone(&self) -> (r: Self)
        ensures
            r@ == self@,
    {
        CacheEntry {
            value: self.value.clone(),
            expires_at: self.expires_at,
            created_at: self.created_at,
        }
    }
}

/// One key together with its entry.
struct CacheSlot {
    key: String,
    entry: CacheEntry,
}

impl CacheSlot {
    /// Copies the slot, keeping key and entry models.
    fn duplicate(&self) -> (r: Self)
        ensures
            r.key@ == self.key@,
            r.entry@ == self.entry@,
    {
        CacheSlot { key: self.key.clone(), entry: self.entry.clone() }
    }
}

/// No two slots share a key.
spec fn unique_keys(s: Seq<CacheSlot>) -> bool {
    forall|i: int, j: int| 0 <= i < j < s.len() ==> s[i].key@ != s[j].key@
}

/// No two marks name the same key.
spec fn unique_strs(s: Seq<String>) -> bool {
    forall|i: int, j: int| 0 <= i < j < s.len() ==> s[i]@ != s[j]@
}

/// The entry map a slot list denotes.
spec fn slots_map(s: Seq<CacheSlot>) -> Map<Seq<char>, EntryModel> {
    Map::new(
        |k: Seq<char>| exists|i: int| 0 <= i < s.len() && s[i].key@ == k,
        |k: Seq<char>|
            (s[choose|i: int| 0 <= i < s.len() && s[i].key@ == k].entry)@,
    )
}

/// The key set a mark list denotes.
spec fn strs_set(s: Seq<String>) -> Set<Seq<char>> {
    Set::new(|k: Seq<char>| exists|i: int| 0 <= i < s.len() && s[i]@ == k)
}

/// With unique keys, slot `i` is what the map holds at its key.
proof fn lemma_slots_map_at(s: Seq<CacheSlot>, i: int)
    requires
        unique_keys(s),
        0 <= i < s.len(),
    ensures
        slots_map(s).contains_key(s[i].key@),
        slots_map(s)[s[i].key@] == s[i].entry@,
{
    assert(slots_map(s).contains_key(s[i].key@));
    let j = choose|j: int| 0 <= j < s.len() && s[j].key@ == s[i].key@;
    assert(j == i);
}

/// Whole-store model: the entry map, the stale set, and the default duration.
#[verifier::ext_equal]
pub struct CacheModel {
    pub entries: Map<Seq<char>, EntryModel>,
    pub stale: Set<Seq<char>>,
    pub default_ttl: u64,
}

/// What a read observes of a model: the stored value when the key is present,
/// not marked stale, stored under the expected tag, and not yet past its
/// deadline; nothing otherwise.
pub open spec fn spec_get(
    m: CacheModel,
    k: Seq<char>,
    expected: CacheTag,
    now: u64,
) -> Option<CacheValueModel> {
    if m.stale.contains(k) {
        None
    } else if !m.entries.contains_key(k) {
        None
    } else if tag_of(m.entries[k].value) != expected {
        None
    } else if (now as int) < m.entries[k].expires_at {
        Some(m.entries[k].value)
    } else {
        None
    }
}

/// The duration a write uses: its own when it names one, else the default.
pub open spec fn spec_ttl(ttl: Option<u64>, dflt: u64) -> u64 {
    match ttl {
        Some(d) => d,
        None => dflt,
    }
}

/// The model after a write: the entry is replaced wholesale with deadline
/// `now + ttl`, and the key's staleness mark is cleared.
pub open spec fn spec_set(
    m: CacheModel,
    k: Seq<char>,
    v: CacheValueModel,
    ttl: Option<u64>,
    now: u64,
) -> CacheModel {
    CacheModel {
        entries: m.entries.insert(
            k,
            (EntryModel {
                value: v,
                expires_at: now + spec_ttl(ttl, m.default_ttl),
                created_at: now as int,
            }),
        ),
        stale: m.stale.remove(k),
        default_ttl: m.default_ttl,
    }
}

/// The model after an invalidation: the key is marked stale; the entry map is
/// untouched (reclaiming it is the sweep's job).
pub open spec fn spec_invalidate(m: CacheModel, k: Seq<char>) -> CacheModel {
    CacheModel { entries: m.entries, stale: m.stale.insert(k), default_ttl: m.default_ttl }
}

/// The model after clearing one key's staleness mark.
pub open spec fn spec_reset(m: CacheModel, k: Seq<char>) -> CacheModel {
    CacheModel { entries: m.entries, stale: m.stale.remove(k), default_ttl: m.default_ttl }
}

/// The model after a sweep pass: entries of stale keys are removed; the stale
/// set itself is left as it is.
pub open spec fn spec_sweep(m: CacheModel) -> CacheModel {
    CacheModel {
        entries: m.entries.remove_keys(m.stale),
        stale: m.stale,
        default_ttl: m.default_ttl,
    }
}

/// The store: entries, staleness marks, and the default duration.
pub struct CacheState {
    entries: Vec<CacheSlot>,
    stale: Vec<String>,
    default_ttl: u64,
}

impl View for CacheState {
    type V = CacheModel;

    closed spec fn view(&self) -> CacheModel {
        CacheModel {
            entries: slots_map(self.entries@),
            stale: strs_set(self.stale@),
            default_ttl: self.default_ttl,
        }
    }
}

impl CacheState {
    /// The internal lists hold each key at most once, and no entry expires
    /// before it was written.
    pub closed spec fn wf(&self) -> bool {
        &&& unique_keys(self.entries@)
        &&& unique_strs(self.stale@)
        &&& forall|i: int|
            0 <= i < self.entries@.len() ==> self.entries@[i].entry.created_at
                <= self.entries@[i].entry.expires_at
    }

    /// An empty store with the default duration.
    pub fn new() -> (c: CacheState)
        ensures
            c.wf(),
            c@.entries == Map::<Seq<char>, EntryModel>::empty(),
            c@.stale == Set::<Seq<char>>::empty(),
            c@.default_ttl == DEFAULT_CACHE_TTL_MILLIS,
    {
        let c = CacheState {
            entries: Vec::new(),
            stale: Vec::new(),
            default_ttl: DEFAULT_CACHE_TTL_MILLIS,
        };
        proof {
            assert(c@.entries =~= Map::<Seq<char>, EntryModel>::empty());
            assert(c@.stale =~= Set::<Seq<char>>::empty());
        }
        c
    }

    /// The default duration a write falls back to.
    pub fn get_default_duration(&self) -> (d: u64)
        ensures
            d == self@.default_ttl,
    {
        self.default_ttl
    }

    /// Index of the slot holding `key`, if any.
    fn find_entry_index(&self, key: &str) -> (r: Option<usize>)
        ensures
            match r {
                Some(i) => i < self.entries@.len() && self.entries@[i as int].key@ == key@,
                None => forall|i: int| 0 <= i < self.entries@.len() ==> self.entries@[i].key@ != key@,
            },
    {
        let mut i: usize = 0;
        while i < self.entries.len()
            invariant
                0 <= i <= self.entries@.len(),
                forall|j: int| 0 <= j < i ==> self.entries@[j].key@ != key@,
            decreases self.entries@.len() - i,
        {
            if str_eq(self.entries[i].key.as_str(), key) {
                return Some(i);
            }
            i = i + 1;
        }
        None
    }

    /// Index of the staleness mark for `key`, if any.
    fn find_stale_index(&self, key: &str) -> (r: Option<usize>)
        ensures
            match r {
                Some(i) => i < self.stale@.len() && self.stale@[i as int]@ == key@,
                None => forall|i: int| 0 <= i < self.stale@.len() ==> self.stale@[i]@ != key@,
            },
    {
        let mut i: usize = 0;
        while i < self.stale.len()
            invariant
                0 <= i <= self.stale@.len(),
                forall|j: int| 0 <= j < i ==> self.stale@[j]@ != key@,
            decreases self.stale@.len() - i,
        {
            if str_eq(self.stale[i].as_str(), key) {
                return Some(i);
            }
            i = i + 1;
        }
        None
    }

    /// Whether `key` is currently marked stale.
    pub fn is_invalid(&self, key: &str) -> (r: bool)
        ensures
            r == self@.stale.contains(key@),
    {
        match self.find_stale_index(key) {
            Some(_) => true,
            None => false,
        }
    }

    /// Whether the store holds an entry for `key`, whatever its age.
    pub fn has_entry(&self, key: &str) -> (r: bool)
        ensures
            r == self@.entries.contains_key(key@),
    {
        match self.find_entry_index(key) {
            Some(_) => true,
            None => false,
        }
    }

    /// How many entries the store holds.
    pub fn entry_count(&self) -> (n: usize)
        requires
            self.wf(),
        ensures
            self@.entries.dom().finite(),
            n == self@.entries.dom().len(),
    {
        proof {
            lemma_slots_map_len(self.entries@);
        }
        self.entries.len()
    }

    /// A read at tick `now`.  Returns a copy of the stored value exactly when
    /// [`spec_get`] says one is observable; every miss — absent key, staleness
    /// mark, type mismatch, passed deadline — returns nothing.
    pub fn get(&self, key: &str, expected: CacheTag, now: u64) -> (r: Option<CacheValue>)
        requires
            self.wf(),
        ensures
            match r {
                Some(v) => spec_get(self@, key@, expected, now) == Some(v@),
                None => spec_get(self@, key@, expected, now) is None,
            },
    {
        let (value, _) = self.get_with_reason(key, expected, now);
        value
    }

    /// A read together with what happened: the value on a hit, and on a miss
    /// the reason an observer would tag it with.
    pub fn get_with_reason(&self, key: &str, expected: CacheTag, now: u64) -> (r: (
        Option<CacheValue>,
        GetOutcome,
    ))
        requires
            self.wf(),
        ensures
            r.1 == spec_get_outcome(self@, key@, expected, now),
            match r.0 {
                Some(v) => spec_get(self@, key@, expected, now) == Some(v@),
                None => spec_get(self@, key@, expected, now) is None,
            },
    {
        if self.is_invalid(key) {
            return (None, GetOutcome::MissStale);
        }
        match self.find_entry_index(key) {
            Some(i) => {
                proof {
                    lemma_slots_map_at(self.entries@, i as int);
                }
                let entry = &self.entries[i].entry;
                if value_tag(&entry.value) == expected {
                    if now < entry.expires_at {
                        (Some(entry.value.clone()), GetOutcome::Hit)
                    } else {
                        (None, GetOutcome::MissExpired)
                    }
                } else {
                    (None, GetOutcome::MissTypeMismatch)
                }
            },
            None => (None, GetOutcome::MissNotFound),
        }
    }
}

/// What one read amounted to, for the observability counters.
#[derive(Clone, Copy, Debug, PartialEq, Eq, Structural)]
pub enum GetOutcome {
    Hit,
    MissNotFound,
    MissExpired,
    MissStale,
    MissTypeMismatch,
}

/// The outcome a read at tick `now` has on the model, checked in the same
/// order the store checks: staleness, presence, type, deadline.
pub open spec fn spec_get_outcome(
    m: CacheModel,
    k: Seq<char>,
    expected: CacheTag,
    now: u64,
) -> GetOutcome {
    if m.stale.contains(k) {
        GetOutcome::MissStale
    } else if !m.entries.contains_key(k) {
        GetOutcome::MissNotFound
    } else if tag_of(m.entries[k].value) != expected {
        GetOutcome::MissTypeMismatch
    } else if (now as int) < m.entries[k].expires_at {
        GetOutcome::Hit
    } else {
        GetOutcome::MissExpired
    }
}

/// Counters for the metrics side channel: hits, misses by reason, writes and
/// invalidations.  They only observe the store and never affect what it
/// answers.
#[derive(Clone, Copy, Debug, PartialEq, Eq, Structural)]
pub struct CacheStats {
    pub hits: u64,
    pub misses_not_found: u64,
    pub misses_expired: u64,
    pub misses_stale: u64,
    pub sets: u64,
    pub invalidations: u64,
}

impl CacheStats {
    /// All counters at zero.
    pub fn new() -> (r: CacheStats)
        ensures
            r == (CacheStats {
                hits: 0,
                misses_not_found: 0,
                misses_expired: 0,
                misses_stale: 0,
                sets: 0,
                invalidations: 0,
            }),
    {
        CacheStats {
            hits: 0,
            misses_not_found: 0,
            misses_expired: 0,
            misses_stale: 0,
            sets: 0,
            invalidations: 0,
        }
    }

    /// Counts one read: its outcome's counter rises by one (saturating at the
    /// top), the rest stand still.  A type-mismatch miss has no counter of
    /// its own and leaves all of them alone.
    pub fn record_get(&mut self, outcome: GetOutcome)
        ensures
            *final(self) == (match outcome {
                GetOutcome::Hit => (CacheStats {
                    hits: sat_inc(old(self).hits),
                    ..*old(self)
                }),
                GetOutcome::MissNotFound => (CacheStats {
                    misses_not_found: sat_inc(old(self).misses_not_found),
                    ..*old(self)
                }),
                GetOutcome::MissExpired => (CacheStats {
                    misses_expired: sat_inc(old(self).misses_expired),
                    ..*old(self)
                }),
                GetOutcome::MissStale => (CacheStats {
                    misses_stale: sat_inc(old(self).misses_stale),
                    ..*old(self)
                }),
                GetOutcome::MissTypeMismatch => *old(self),
            }),
    {
        match outcome {
            GetOutcome::Hit => {
                self.hits = saturating_inc(self.hits);
            },
            GetOutcome::MissNotFound => {
                self.misses_not_found = saturating_inc(self.misses_not_found);
            },
            GetOutcome::MissExpired => {
                self.misses_expired = saturating_inc(self.misses_expired);
            },
            GetOutcome::MissStale => {
                self.misses_stale = saturating_inc(self.misses_stale);
            },
            GetOutcome::MissTypeMismatch => {},
        }
    }

    /// Counts one write.
    pub fn record_set(&mut self)
        ensures
            *final(self) == (CacheStats { sets: sat_inc(old(self).sets), ..*old(self) }),
    {
        self.sets = saturating_inc(self.sets);
    }

    /// Counts one invalidation.
    pub fn record_invalidation(&mut self)
        ensures
            *final(self) == (CacheStats {
                invalidations: sat_inc(old(self).invalidations),
                ..*old(self)
            }),
    {
        self.invalidations = saturating_inc(self.invalidations);
    }
}

/// One more, stopping at the top of the range.
pub open spec fn sat_inc(n: u64) -> u64 {
    if n == u64::MAX {
        n
    } else {
        (n + 1) as u64
    }
}

/// One more, stopping at the top of the range.
fn saturating_inc(n: u64) -> (r: u64)
    ensures
        r == sat_inc(n),
{
    if n == u64::MAX {
        n
    } else {
        n + 1
    }
}

impl CacheState {
    /// Clears any staleness mark for `key`.  A write calls this so that new
    /// data supersedes the invalidation reason.
    pub fn reset(&mut self, key: &str)
        requires
            old(self).wf(),
        ensures
            final(self).wf(),
            final(self)@ == spec_reset(old(self)@, key@),
    {
        match self.find_stale_index(key) {
            Some(i) => {
                proof {
                    lemma_strs_set_remove(self.stale@, i as int);
                }
                self.stale.remove(i);
                proof {
                    assert(self@ =~= spec_reset(old(self)@, key@));
                }
            },
            None => {
                proof {
                    assert(!strs_set(self.stale@).contains(key@));
                    assert(self@.stale.remove(key@) =~= self@.stale);
                    assert(self@ =~= spec_reset(old(self)@, key@));
                }
            },
        }
    }

    /// Marks `key` stale: every read of it before the next write misses,
    /// whatever the entry's remaining lifetime.  Idempotent.  The entry map is
    /// untouched; the sweep reclaims it later.
    pub fn invalidate(&mut self, key: &str)
        requires
            old(self).wf(),
        ensures
            final(self).wf(),
            final(self)@ == spec_invalidate(old(self)@, key@),
    {
        match self.find_stale_index(key) {
            Some(i) => {
                proof {
                    assert(strs_set(self.stale@).contains(key@));
                    assert(self@.stale.insert(key@) =~= self@.stale);
                    assert(self@ =~= spec_invalidate(old(self)@, key@));
                }
            },
            None => {
                let mark = key.to_owned();
                proof {
                    lemma_strs_set_push(self.stale@, mark);
                }
                self.stale.push(mark);
                proof {
                    assert(self@ =~= spec_invalidate(old(self)@, key@));
                }
            },
        }
    }

    /// Writes `value` under `key` at tick `now`, replacing any earlier entry
    /// wholesale.  The new deadline is `now` plus the given duration, or plus
    /// the default when none is given; any staleness mark for `key` is
    /// cleared.  Always succeeds.
    pub fn set(&mut self, key: &str, value: CacheValue, ttl: Option<u64>, now: u64)
        requires
            old(self).wf(),
            now + spec_ttl(ttl, old(self)@.default_ttl) <= u64::MAX,
        ensures
            final(self).wf(),
            final(self)@ == spec_set(old(self)@, key@, value@, ttl, now),
    {
        let d = match ttl {
            Some(d) => d,
            None => self.default_ttl,
        };
        let slot = CacheSlot {
            key: key.to_owned(),
            entry: CacheEntry { value, expires_at: now + d, created_at: now },
        };
        let ghost mid_entries = self.entries@;
        match self.find_entry_index(key) {
            Some(i) => {
                proof {
                    lemma_slots_map_remove(self.entries@, i as int);
                }
                self.entries.remove(i);
                proof {
                    lemma_slots_map_push(self.entries@, slot);
                }
                self.entries.push(slot);
                proof {
                    assert(slots_map(self.entries@) =~= slots_map(mid_entries).insert(
                        key@,
                        slot.entry@,
                    ));
                }
            },
            None => {
                proof {
                    lemma_slots_map_push(self.entries@, slot);
                }
                self.entries.push(slot);
            },
        }
        self.reset(key);
        proof {
            assert(self@ =~= spec_set(old(self)@, key@, value@, ttl, now));
        }
    }

    /// One sweep pass: removes the entry of every key currently marked stale
    /// and leaves the staleness map as it is.  A stale mark whose key has no
    /// entry, and an empty store, are both harmless no-ops.
    #[verifier::rlimit(50)]
    pub fn cleanup_expired(&mut self)
        requires
            old(self).wf(),
        ensures
            final(self).wf(),
            final(self)@ == spec_sweep(old(self)@),
    {
        let mut kept: Vec<CacheSlot> = Vec::new();
        let mut i: usize = 0;
        while i < self.entries.len()
            invariant
                0 <= i <= self.entries@.len(),
                self.entries == old(self).entries,
                self.stale == old(self).stale,
                self.default_ttl == old(self).default_ttl,
                old(self).wf(),
                unique_keys(kept@),
                forall|j: int|
                    #![trigger kept@[j]]
                    0 <= j < kept@.len() ==> exists|i2: int|
                        #![trigger self.entries@[i2]]
                        0 <= i2 < i && self.entries@[i2].key@ == kept@[j].key@
                            && self.entries@[i2].entry@ == kept@[j].entry@,
                forall|j: int|
                    #![trigger kept@[j]]
                    0 <= j < kept@.len() ==> !self@.stale.contains(kept@[j].key@),
                forall|i2: int|
                    0 <= i2 < i && !self@.stale.contains(#[trigger] self.entries@[i2].key@)
                        ==> exists|j: int|
                        #![trigger kept@[j]]
                        0 <= j < kept@.len() && kept@[j].key@ == self.entries@[i2].key@
                            && kept@[j].entry@ == self.entries@[i2].entry@,
            decreases self.entries@.len() - i,
        {
            let ghost pre = kept@;
            let marked = self.is_invalid(self.entries[i].key.as_str());
            if !marked {
                proof {
                    assert forall|j: int| 0 <= j < kept@.len() implies kept@[j].key@
                        != self.entries@[i as int].key@ by {
                        let i2 = choose|i2: int|
                            #![trigger self.entries@[i2]]
                            0 <= i2 < i && self.entries@[i2].key@ == kept@[j].key@
                                && self.entries@[i2].entry@ == kept@[j].entry@;
                        assert(self.entries@[i2].key@ != self.entries@[i as int].key@);
                    }
                }
                kept.push(self.entries[i].duplicate());
                proof {
                    assert(kept@[kept@.len() - 1].key@ == self.entries@[i as int].key@);
                    assert(kept@[kept@.len() - 1].entry@ == self.entries@[i as int].entry@);
                }
            }
            proof {
                assert forall|i2: int|
                    0 <= i2 <= i && !self@.stale.contains(
                        #[trigger] self.entries@[i2].key@,
                    ) implies exists|j: int|
                    #![trigger kept@[j]]
                    0 <= j < kept@.len() && kept@[j].key@ == self.entries@[i2].key@ && kept@[j].entry@
                        == self.entries@[i2].entry@ by {
                    if i2 == i {
                        assert(kept@[pre.len() as int].key@ == self.entries@[i2].key@);
                        assert(kept@[pre.len() as int].entry@ == self.entries@[i2].entry@);
                    } else {
                        let j0 = choose|j: int|
                            #![trigger pre[j]]
                            0 <= j < pre.len() && pre[j].key@ == self.entries@[i2].key@
                                && pre[j].entry@ == self.entries@[i2].entry@;
                        assert(kept@[j0].key@ == self.entries@[i2].key@);
                        assert(kept@[j0].entry@ == self.entries@[i2].entry@);
                    }
                }
            }
            i = i + 1;
        }
        proof {
            let s = self.entries@;
            let stale = self@.stale;
            assert forall|k: Seq<char>|
                slots_map(kept@).contains_key(k) <==> (slots_map(s).contains_key(k)
                    && !stale.contains(k)) by {
                if slots_map(kept@).contains_key(k) {
                    let j = choose|j: int| 0 <= j < kept@.len() && kept@[j].key@ == k;
                    let i2 = choose|i2: int|
                        0 <= i2 < s.len() && s[i2].key@ == kept@[j].key@ && s[i2].entry@
                            == kept@[j].entry@;
                    assert(s[i2].key@ == k);
                }
                if slots_map(s).contains_key(k) && !stale.contains(k) {
                    let i2 = choose|i2: int| 0 <= i2 < s.len() && s[i2].key@ == k;
                    assert(exists|j: int|
                        0 <= j < kept@.len() && kept@[j].key@ == s[i2].key@ && kept@[j].entry@
                            == s[i2].entry@);
                }
            }
            assert forall|k: Seq<char>| slots_map(kept@).contains_key(k) implies slots_map(kept@)[k]
                == slots_map(s)[k] by {
                let j = choose|j: int| 0 <= j < kept@.len() && kept@[j].key@ == k;
                lemma_slots_map_at(kept@, j);
                let i2 = choose|i2: int|
                    0 <= i2 < s.len() && s[i2].key@ == kept@[j].key@ && s[i2].entry@
                        == kept@[j].entry@;
                lemma_slots_map_at(s, i2);
            }
            assert(slots_map(kept@) =~= slots_map(s).remove_keys(stale));
        }
        self.entries = kept;
        proof {
            assert(self@ =~= spec_sweep(old(self)@));
        }
    }
}

/// A read of the shared store; see [`CacheState::get`].
pub fn get_from_cache(cache: &CacheState, key: &str, expected: CacheTag, now: u64) -> (r: Option<
    CacheValue,
>)
    requires
        cache.wf(),
    ensures
        match r {
            Some(v) => spec_get(cache@, key@, expected, now) == Some(v@),
            None => spec_get(cache@, key@, expected, now) is None,
        },
{
    cache.get(key, expected, now)
}

/// A write to the shared store; see [`CacheState::set`].
pub fn set_to_cache(cache: &mut CacheState, key: &str, value: CacheValue, ttl: Option<u64>, now: u64)
    requires
        old(cache).wf(),
        now + spec_ttl(ttl, old(cache)@.default_ttl) <= u64::MAX,
    ensures
        final(cache).wf(),
        final(cache)@ == spec_set(old(cache)@, key@, value@, ttl, now),
{
    cache.set(key, value, ttl, now)
}

/// Marks one key of the shared store stale; see [`CacheState::invalidate`].
pub fn invalidate_cache(cache: &mut CacheState, key: &str)
    requires
        old(cache).wf(),
    ensures
        final(cache).wf(),
        final(cache)@ == spec_invalidate(old(cache)@, key@),
{
    cache.invalidate(key)
}

/// Removing a slot removes exactly its key from the map.
proof fn lemma_slots_map_remove(s: Seq<CacheSlot>, i: int)
    requires
        unique_keys(s),
        0 <= i < s.len(),
    ensures
        unique_keys(s.remove(i)),
        slots_map(s.remove(i)) =~= slots_map(s).remove(s[i].key@),
{
    let t = s.remove(i);
    s.remove_ensures(i);
    assert forall|k: Seq<char>|
        slots_map(t).contains_key(k) <==> (slots_map(s).contains_key(k) && k != s[i].key@) by {
        if slots_map(t).contains_key(k) {
            let j = choose|j: int| 0 <= j < t.len() && t[j].key@ == k;
            if j < i {
                assert(s[j].key@ == k);
            } else {
                assert(s[j + 1].key@ == k);
            }
        }
        if slots_map(s).contains_key(k) && k != s[i].key@ {
            let j = choose|j: int| 0 <= j < s.len() && s[j].key@ == k;
            if j < i {
                assert(t[j].key@ == k);
            } else {
                assert(t[j - 1].key@ == k);
            }
        }
    }
    assert forall|k: Seq<char>| slots_map(t).contains_key(k) implies slots_map(t)[k]
        == slots_map(s)[k] by {
        let j = choose|j: int| 0 <= j < t.len() && t[j].key@ == k;
        lemma_slots_map_at(t, j);
        if j < i {
            lemma_slots_map_at(s, j);
        } else {
            lemma_slots_map_at(s, j + 1);
        }
    }
}

/// Pushing a slot with a fresh key inserts exactly that key.
proof fn lemma_slots_map_push(s: Seq<CacheSlot>, slot: CacheSlot)
    requires
        unique_keys(s),
        forall|i: int| 0 <= i < s.len() ==> s[i].key@ != slot.key@,
    ensures
        unique_keys(s.push(slot)),
        slots_map(s.push(slot)) =~= slots_map(s).insert(slot.key@, slot.entry@),
{
    let t = s.push(slot);
    assert forall|k: Seq<char>|
        slots_map(t).contains_key(k) <==> (slots_map(s).contains_key(k) || k == slot.key@) by {
        if slots_map(t).contains_key(k) {
            let j = choose|j: int| 0 <= j < t.len() && t[j].key@ == k;
            if j < s.len() {
                assert(s[j].key@ == k);
            }
        }
        if slots_map(s).contains_key(k) {
            let j = choose|j: int| 0 <= j < s.len() && s[j].key@ == k;
            assert(t[j].key@ == k);
        }
        if k == slot.key@ {
            assert(t[s.len() as int].key@ == k);
        }
    }
    assert forall|k: Seq<char>| slots_map(t).contains_key(k) && k != slot.key@ implies slots_map(
        t,
    )[k] == slots_map(s)[k] by {
        let j = choose|j: int| 0 <= j < s.len() && s[j].key@ == k;
        assert(t[j].key@ == k);
        lemma_slots_map_at(t, j);
        lemma_slots_map_at(s, j);
    }
    lemma_slots_map_at(t, s.len() as int);
}

/// Pushing a fresh mark inserts exactly its key.
proof fn lemma_strs_set_push(s: Seq<String>, x: String)
    requires
        unique_strs(s),
        forall|i: int| 0 <= i < s.len() ==> s[i]@ != x@,
    ensures
        unique_strs(s.push(x)),
        strs_set(s.push(x)) =~= strs_set(s).insert(x@),
{
    let t = s.push(x);
    assert forall|k: Seq<char>|
        strs_set(t).contains(k) <==> (strs_set(s).contains(k) || k == x@) by {
        if strs_set(t).contains(k) {
            let j = choose|j: int| 0 <= j < t.len() && t[j]@ == k;
            if j < s.len() {
                assert(s[j]@ == k);
            }
        }
        if strs_set(s).contains(k) {
            let j = choose|j: int| 0 <= j < s.len() && s[j]@ == k;
            assert(t[j]@ == k);
        }
        if k == x@ {
            assert(t[s.len() as int]@ == k);
        }
    }
}

/// Removing a mark removes exactly its key.
proof fn lemma_strs_set_remove(s: Seq<String>, i: int)
    requires
        unique_strs(s),
        0 <= i < s.len(),
    ensures
        unique_strs(s.remove(i)),
        strs_set(s.remove(i)) =~= strs_set(s).remove(s[i]@),
{
    let t = s.remove(i);
    s.remove_ensures(i);
    assert forall|k: Seq<char>|
        strs_set(t).contains(k) <==> (strs_set(s).contains(k) && k != s[i]@) by {
        if strs_set(t).contains(k) {
            let j = choose|j: int| 0 <= j < t.len() && t[j]@ == k;
            if j < i {
                assert(s[j]@ == k);
            } else {
                assert(s[j + 1]@ == k);
            }
        }
        if strs_set(s).contains(k) && k != s[i]@ {
            let j = choose|j: int| 0 <= j < s.len() && s[j]@ == k;
            if j < i {
                assert(t[j]@ == k);
            } else {
                assert(t[j - 1]@ == k);
            }
        }
    }
}

/// With unique keys, the map's domain is finite with one key per slot.
proof fn lemma_slots_map_len(s: Seq<CacheSlot>)
    requires
        unique_keys(s),
    ensures
        slots_map(s).dom().finite(),
        slots_map(s).dom().len() == s.len(),
    decreases s.len(),
{
    if s.len() == 0 {
        assert(slots_map(s).dom() =~= Set::<Seq<char>>::empty());
    } else {
        let prefix = s.drop_last();
        lemma_slots_map_len(prefix);
        assert forall|k: Seq<char>|
            slots_map(s).dom().contains(k) <==> (slots_map(prefix).dom().contains(k) || k
                == s.last().key@) by {
            if slots_map(s).dom().contains(k) {
                let i = choose|i: int| 0 <= i < s.len() && s[i].key@ == k;
                if i < s.len() - 1 {
                    assert(prefix[i].key@ == k);
                }
            }
            if slots_map(prefix).dom().contains(k) {
                let i = choose|i: int| 0 <= i < prefix.len() && prefix[i].key@ == k;
                assert(s[i].key@ == k);
            }
            if k == s.last().key@ {
                assert(s[s.len() - 1].key@ == k);
            }
        }
        assert(slots_map(s).dom() =~= slots_map(prefix).dom().insert(s.last().key@));
        assert(!slots_map(prefix).dom().contains(s.last().key@));
    }
}

} // verus!
