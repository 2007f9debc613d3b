//! TTL-bounded cache of reference data, one slot per entity type.
//!
//! A [`Cache`] mirrors the backing files of the four entity types as slots.
//! Every operation is a step on those slots; whoever owns the files loads a
//! slot before the step and writes it back afterwards.

use crate::clock::unix_now;
use crate::text::{
    decimal, lowercase, one_decimal, round_to_tenths, rounded_tenths, str_eq, tenths_to_string,
    u64_to_string,
};
use crate::value::{Value, ValueView};
use vstd::prelude::*;

verus! {

/// Time-to-live of entries written by a cache made with [`Cache::new`].
pub const DEFAULT_TTL_SECONDS: u64 = 3600;

/// A cached value with the time it was written and its validity window.
#[derive(Debug, PartialEq, Eq)]
pub struct CacheEntry {
    /// Seconds since the epoch at which the entry was written.
    pub timestamp: u64,
    /// Length of the validity window in seconds.
    pub ttl_seconds: u64,
    /// The cached value.
    pub data: Value,
}

/// The mathematical content of a [`CacheEntry`].
pub struct EntryView {
    pub timestamp: u64,
    pub ttl_seconds: u64,
    pub data: ValueView,
}

impl EntryView {
    /// An entry is valid strictly before `timestamp + ttl_seconds`.
    pub open spec fn valid_at(self, now: u64) -> bool {
        now < self.timestamp + self.ttl_seconds
    }

    /// Seconds elapsed since the entry was written; zero for an entry
    /// written in the future.
    pub open spec fn age_at(self, now: u64) -> int {
        if now >= self.timestamp {
            now - self.timestamp
        } else {
            0
        }
    }

    /// Seconds until the entry expires; zero once it has.
    pub open spec fn remaining_at(self, now: u64) -> int {
        if self.timestamp + self.ttl_seconds >= now {
            self.timestamp + self.ttl_seconds - now
        } else {
            0
        }
    }
}

impl View for CacheEntry {
    type V = EntryView;

    open spec fn view(&self) -> EntryView {
        EntryView { timestamp: self.timestamp, ttl_seconds: self.ttl_seconds, data: self.data@ }
    }
}

impl Clone for CacheEntry {
    fn clone(&self) -> (r: Self)
        ensures
            r@ == self@,
    {
        CacheEntry {
            timestamp: self.timestamp,
            ttl_seconds: self.ttl_seconds,
            data: self.data.duplicate(),
        }
    }
}

impl CacheEntry {
    /// Whether the entry is still valid at `now`.
    pub fn is_valid_at(&self, now: u64) -> (valid: bool)
        ensures
            valid == self@.valid_at(now),
    {
        now < self.timestamp || now - self.timestamp < self.ttl_seconds
    }

    /// The age of the entry at `now`, in seconds.
    pub fn age_seconds_at(&self, now: u64) -> (age: u64)
        ensures
            age == self@.age_at(now),
    {
        if now >= self.timestamp {
            now - self.timestamp
        } else {
            0
        }
    }

    /// The seconds left at `now` before the entry expires. A count beyond
    /// the range of `u64` is given as `u64::MAX`.
    pub fn remaining_ttl_at(&self, now: u64) -> (left: u64)
        ensures
            self@.remaining_at(now) <= u64::MAX ==> left == self@.remaining_at(now),
            self@.remaining_at(now) > u64::MAX ==> left == u64::MAX,
    {
        if now >= self.timestamp {
            let elapsed: u64 = now - self.timestamp;
            if elapsed >= self.ttl_seconds {
                0
            } else {
                self.ttl_seconds - elapsed
            }
        } else {
            let ahead: u64 = self.timestamp - now;
            if ahead > u64::MAX - self.ttl_seconds {
                u64::MAX
            } else {
                ahead + self.ttl_seconds
            }
        }
    }

    /// Whether the entry is still valid by the system clock.
    pub fn is_valid(&self) -> (valid: bool)
        ensures
            exists|now: u64| valid == self@.valid_at(now),
    {
        let now: u64 = unix_now();
        self.is_valid_at(now)
    }

    /// The age of the entry by the system clock, in seconds.
    pub fn age_seconds(&self) -> (age: u64)
        ensures
            exists|now: u64| age == self@.age_at(now),
    {
        let now: u64 = unix_now();
        self.age_seconds_at(now)
    }

    /// The seconds left by the system clock before the entry expires.
    pub fn remaining_ttl(&self) -> (left: u64)
        ensures
            exists|now: u64|
                (self@.remaining_at(now) <= u64::MAX ==> left == self@.remaining_at(now)) && (
                self@.remaining_at(now) > u64::MAX ==> left == u64::MAX),
    {
        let now: u64 = unix_now();
        self.remaining_ttl_at(now)
    }
}

/// An entry written `elapsed` seconds ago is valid exactly while `elapsed`
/// is below its time-to-live.
pub proof fn lemma_valid_iff_elapsed_below_ttl(entry: EntryView, now: u64, elapsed: u64)
    requires
        entry.timestamp == now - elapsed,
    ensures
        entry.valid_at(now) <==> elapsed < entry.ttl_seconds,
{
}

/// Age and remaining time-to-live are never negative, whatever the clock
/// says, also for an entry stamped in the future.
pub proof fn lemma_age_and_remaining_non_negative(entry: EntryView, now: u64)
    ensures
        entry.age_at(now) >= 0,
        entry.remaining_at(now) >= 0,
        entry.timestamp > now ==> entry.age_at(now) == 0,
        !entry.valid_at(now) ==> entry.remaining_at(now) == 0,
{
}

/// The closed set of entity types that can be cached.
#[derive(Debug, Clone, Copy, PartialEq, Eq, Structural)]
pub enum CacheType {
    Teams,
    Users,
    Statuses,
    Labels,
}

impl CacheType {
    /// The file name of each type.
    pub open spec fn spec_filename(self) -> Seq<char> {
        match self {
            CacheType::Teams => "teams.json"@,
            CacheType::Users => "users.json"@,
            CacheType::Statuses => "statuses.json"@,
            CacheType::Labels => "labels.json"@,
        }
    }

    /// The display name of each type.
    pub open spec fn spec_display_name(self) -> Seq<char> {
        match self {
            CacheType::Teams => "Teams"@,
            CacheType::Users => "Users"@,
            CacheType::Statuses => "Statuses"@,
            CacheType::Labels => "Labels"@,
        }
    }

    /// Every type, in the order in which they are reported.
    pub open spec fn spec_all() -> Seq<CacheType> {
        seq![CacheType::Teams, CacheType::Users, CacheType::Statuses, CacheType::Labels]
    }

    /// Name of the backing file of this cache type.
    pub fn filename(&self) -> (name: &'static str)
        ensures
            name@ == self.spec_filename(),
    {
        match self {
            CacheType::Teams => "teams.json",
            CacheType::Users => "users.json",
            CacheType::Statuses => "statuses.json",
            CacheType::Labels => "labels.json",
        }
    }

    /// Name of this cache type as shown to the user.
    pub fn display_name(&self) -> (name: &'static str)
        ensures
            name@ == self.spec_display_name(),
    {
        match self {
            CacheType::Teams => "Teams",
            CacheType::Users => "Users",
            CacheType::Statuses => "Statuses",
            CacheType::Labels => "Labels",
        }
    }

    /// Every cache type.
    pub fn all() -> (types: [CacheType; 4])
        ensures
            types@ == Self::spec_all(),
    {
        let types = [CacheType::Teams, CacheType::Users, CacheType::Statuses, CacheType::Labels];
        assert(types@ =~= Self::spec_all());
        types
    }
}

/// No two cache types share a file, and every type is listed once.
pub proof fn lemma_cache_types_distinct(a: CacheType, b: CacheType)
    ensures
        CacheType::spec_all().contains(a),
        a != b ==> a.spec_filename() != b.spec_filename(),
{
    let all = CacheType::spec_all();
    assert(all[0] == CacheType::Teams && all[1] == CacheType::Users && all[2]
        == CacheType::Statuses && all[3] == CacheType::Labels);
    reveal_strlit("teams.json");
    reveal_strlit("users.json");
    reveal_strlit("statuses.json");
    reveal_strlit("labels.json");
    assert("teams.json"@[0] == 't');
    assert("users.json"@[0] == 'u');
    assert("statuses.json"@[0] == 's');
    assert("labels.json"@[0] == 'l');
}

/// What the backing file of one cache type holds.
#[derive(Debug, PartialEq, Eq)]
pub enum Slot {
    /// There is no file.
    Missing,
    /// There is a file, but it cannot be read as an entry.
    Unreadable,
    /// The file holds an entry.
    Stored {
        entry: CacheEntry,
        /// Size of the file in bytes; zero when it is not known.
        size_bytes: u64,
    },
}

/// The mathematical content of a [`Slot`].
pub enum SlotView {
    Missing,
    Unreadable,
    Stored { entry: EntryView, size_bytes: u64 },
}

impl View for Slot {
    type V = SlotView;

    open spec fn view(&self) -> SlotView {
        match self {
            Slot::Missing => SlotView::Missing,
            Slot::Unreadable => SlotView::Unreadable,
            Slot::Stored { entry, size_bytes } => SlotView::Stored {
                entry: entry@,
                size_bytes: *size_bytes,
            },
        }
    }
}

impl Clone for Slot {
    fn clone(&self) -> (r: Self)
        ensures
            r@ == self@,
    {
        match self {
            Slot::Missing => Slot::Missing,
            Slot::Unreadable => Slot::Unreadable,
            Slot::Stored { entry, size_bytes } => Slot::Stored {
                entry: entry.clone(),
                size_bytes: *size_bytes,
            },
        }
    }
}

/// Status of one cache type.
#[derive(Debug, Clone, Copy, PartialEq, Eq, Structural)]
pub struct CacheStatus {
    pub cache_type: CacheType,
    /// Whether a valid entry is stored.
    pub valid: bool,
    /// Age of the stored entry in seconds, if there is an entry.
    pub age_seconds: Option<u64>,
    /// Size of the backing file in bytes, if there is an entry.
    pub size_bytes: Option<u64>,
    /// Number of items in the stored value, if there is an entry.
    pub item_count: Option<usize>,
}

/// The age column: seconds below a minute, minutes below an hour, hours and
/// minutes from there on, a dash where there is no entry.
pub open spec fn age_text(age: Option<u64>) -> Seq<char> {
    match age {
        Some(secs) => if secs < 60 {
            decimal(secs as nat) + "s"@
        } else if secs < 3600 {
            decimal((secs / 60) as nat) + "m"@
        } else {
            decimal((secs / 3600) as nat) + "h "@ + decimal(((secs % 3600) / 60) as nat) + "m"@
        },
        None => "-"@,
    }
}

/// The size column: bytes below 1024, then KB and MB with one decimal place,
/// a dash where there is no entry.
pub open spec fn size_text(size: Option<u64>) -> Seq<char> {
    match size {
        Some(bytes) => if bytes < 1024 {
            decimal(bytes as nat) + " B"@
        } else if bytes < 1024 * 1024 {
            one_decimal(rounded_tenths(bytes as nat, 1024)) + " KB"@
        } else {
            one_decimal(rounded_tenths(bytes as nat, 1024 * 1024)) + " MB"@
        },
        None => "-"@,
    }
}

impl CacheStatus {
    /// The age in a form fit for a table.
    pub fn age_display(&self) -> (text: String)
        ensures
            text@ == age_text(self.age_seconds),
    {
        match self.age_seconds {
            Some(secs) => {
                if secs < 60 {
                    let mut text = u64_to_string(secs);
                    text.append("s");
                    text
                } else if secs < 3600 {
                    let mut text = u64_to_string(secs / 60);
                    text.append("m");
                    text
                } else {
                    let mut text = u64_to_string(secs / 3600);
                    text.append("h ");
                    let minutes = u64_to_string((secs % 3600) / 60);
                    text.append(minutes.as_str());
                    text.append("m");
                    text
                }
            },
            None => "-".to_owned(),
        }
    }

    /// The size in a form fit for a table.
    pub fn size_display(&self) -> (text: String)
        ensures
            text@ == size_text(self.size_bytes),
    {
        match self.size_bytes {
            Some(bytes) => format_size(bytes),
            None => "-".to_owned(),
        }
    }
}

/// A size in bytes in a form fit for a table: bytes below 1024, then KB and
/// MB with one decimal place.
pub fn format_size(bytes: u64) -> (text: String)
    ensures
        text@ == size_text(Some(bytes)),
{
    if bytes < 1024 {
        let mut text = u64_to_string(bytes);
        text.append(" B");
        text
    } else if bytes < 1024 * 1024 {
        let mut text = tenths_to_string(round_to_tenths(bytes, 1024));
        text.append(" KB");
        text
    } else {
        let mut text = tenths_to_string(round_to_tenths(bytes, 1024 * 1024));
        text.append(" MB");
        text
    }
}

/// The number of valid entries among the first `n` of a report.
pub open spec fn valid_count(report: Seq<CacheStatus>, n: int) -> nat
    decreases n,
{
    if n <= 0 {
        0
    } else if report[n - 1].valid {
        valid_count(report, n - 1) + 1
    } else {
        valid_count(report, n - 1)
    }
}

/// The sum of the sizes that the first `n` entries of a report give.
pub open spec fn size_sum(report: Seq<CacheStatus>, n: int) -> nat
    decreases n,
{
    if n <= 0 {
        0
    } else {
        size_sum(report, n - 1) + match report[n - 1].size_bytes {
            Some(bytes) => bytes as nat,
            None => 0,
        }
    }
}

/// Counts the valid entries of a report.
pub fn count_valid(report: &Vec<CacheStatus>) -> (count: usize)
    ensures
        count == valid_count(report@, report.len() as int),
{
    let mut count: usize = 0;
    let mut i: usize = 0;
    while i < report.len()
        invariant
            i <= report.len(),
            count <= i,
            count == valid_count(report@, i as int),
        decreases report.len() - i,
    {
        if report[i].valid {
            count += 1;
        }
        i += 1;
    }
    count
}

/// Adds up the sizes that a report gives. A sum beyond the range of `u64`
/// is given as `u64::MAX`.
pub fn total_size(report: &Vec<CacheStatus>) -> (total: u64)
    ensures
        size_sum(report@, report.len() as int) <= u64::MAX ==> total == size_sum(
            report@,
            report.len() as int,
        ),
        size_sum(report@, report.len() as int) > u64::MAX ==> total == u64::MAX,
{
    let mut total: u64 = 0;
    let mut exceeded: bool = false;
    let mut i: usize = 0;
    while i < report.len()
        invariant
            i <= report.len(),
            !exceeded ==> total == size_sum(report@, i as int),
            exceeded ==> size_sum(report@, i as int) > u64::MAX,
        decreases report.len() - i,
    {
        match report[i].size_bytes {
            Some(bytes) => {
                if !exceeded {
                    if bytes > u64::MAX - total {
                        exceeded = true;
                    } else {
                        total += bytes;
                    }
                }
            },
            None => {},
        }
        i += 1;
    }
    if exceeded {
        u64::MAX
    } else {
        total
    }
}

/// The cache type that a name in lower case stands for. `states` is another
/// name for the statuses.
pub open spec fn type_of_name(name: Seq<char>) -> Option<CacheType> {
    if name == "teams"@ {
        Some(CacheType::Teams)
    } else if name == "users"@ {
        Some(CacheType::Users)
    } else if name == "statuses"@ || name == "states"@ {
        Some(CacheType::Statuses)
    } else if name == "labels"@ {
        Some(CacheType::Labels)
    } else {
        None
    }
}

/// The cache type that a name in lower case stands for.
pub fn cache_type_of_name(name: &str) -> (cache_type: Option<CacheType>)
    ensures
        cache_type == type_of_name(name@),
{
    if str_eq(name, "teams") {
        Some(CacheType::Teams)
    } else if str_eq(name, "users") {
        Some(CacheType::Users)
    } else if str_eq(name, "statuses") || str_eq(name, "states") {
        Some(CacheType::Statuses)
    } else if str_eq(name, "labels") {
        Some(CacheType::Labels)
    } else {
        None
    }
}

/// The cache type that a name stands for, without regard to case.
pub fn parse_cache_type(name: &str) -> (cache_type: Option<CacheType>)
    ensures
        cache_type == type_of_name(lowercase(name@)),
{
    let lower: String = name.to_lowercase();
    cache_type_of_name(lower.as_str())
}

/// The mathematical content of a [`Cache`]: the time-to-live it writes
/// entries with, and one slot per cache type.
pub struct CacheView {
    pub ttl_seconds: u64,
    pub teams: SlotView,
    pub users: SlotView,
    pub statuses: SlotView,
    pub labels: SlotView,
}

impl CacheView {
    /// The slot of a cache type.
    pub open spec fn slot(self, cache_type: CacheType) -> SlotView {
        match cache_type {
            CacheType::Teams => self.teams,
            CacheType::Users => self.users,
            CacheType::Statuses => self.statuses,
            CacheType::Labels => self.labels,
        }
    }

    /// The cache with one slot replaced.
    pub open spec fn with_slot(self, cache_type: CacheType, slot: SlotView) -> CacheView {
        match cache_type {
            CacheType::Teams => CacheView { teams: slot, ..self },
            CacheType::Users => CacheView { users: slot, ..self },
            CacheType::Statuses => CacheView { statuses: slot, ..self },
            CacheType::Labels => CacheView { labels: slot, ..self },
        }
    }

    /// The entry stored for a type, valid or not.
    pub open spec fn entry(self, cache_type: CacheType) -> Option<EntryView> {
        match self.slot(cache_type) {
            SlotView::Stored { entry, .. } => Some(entry),
            _ => None,
        }
    }

    /// The value a lookup at `now` returns: the stored value if there is an
    /// entry and it is valid.
    pub open spec fn lookup(self, cache_type: CacheType, now: u64) -> Option<ValueView> {
        match self.entry(cache_type) {
            Some(entry) => if entry.valid_at(now) {
                Some(entry.data)
            } else {
                None
            },
            None => None,
        }
    }

    /// The cache after a lookup at `now`: an expired entry is gone, all else
    /// is as it was.
    pub open spec fn after_get(self, cache_type: CacheType, now: u64) -> CacheView {
        match self.entry(cache_type) {
            Some(entry) => if entry.valid_at(now) {
                self
            } else {
                self.with_slot(cache_type, SlotView::Missing)
            },
            None => self,
        }
    }

    /// The cache after writing `data` at `now`: a fresh entry with the
    /// cache's time-to-live takes the place of whatever the slot held.
    pub open spec fn after_set(self, cache_type: CacheType, data: ValueView, now: u64) -> CacheView {
        self.with_slot(
            cache_type,
            SlotView::Stored {
                entry: EntryView { timestamp: now, ttl_seconds: self.ttl_seconds, data },
                size_bytes: 0,
            },
        )
    }

    /// The cache after clearing one type.
    pub open spec fn after_clear(self, cache_type: CacheType) -> CacheView {
        self.with_slot(cache_type, SlotView::Missing)
    }

    /// The cache after clearing every type.
    pub open spec fn cleared(self) -> CacheView {
        CacheView {
            ttl_seconds: self.ttl_seconds,
            teams: SlotView::Missing,
            users: SlotView::Missing,
            statuses: SlotView::Missing,
            labels: SlotView::Missing,
        }
    }

    /// The value a keyed lookup at `now` returns: member `key` of the value
    /// that a plain lookup returns.
    pub open spec fn lookup_keyed(self, cache_type: CacheType, key: Seq<char>, now: u64) -> Option<
        ValueView,
    > {
        match self.lookup(cache_type, now) {
            Some(data) => data.get(key),
            None => None,
        }
    }

    /// The value that a keyed write at `now` stores: the valid value of the
    /// type, or else an empty object, with member `key` set where it is an
    /// object.
    pub open spec fn keyed_data(
        self,
        cache_type: CacheType,
        key: Seq<char>,
        value: ValueView,
        now: u64,
    ) -> ValueView {
        match self.lookup(cache_type, now) {
            Some(data) => data.with_member(key, value),
            None => ValueView::empty_object().with_member(key, value),
        }
    }

    /// The cache after a keyed write at `now`: the whole type is written
    /// anew, so its time-to-live starts again for every key.
    pub open spec fn after_set_keyed(
        self,
        cache_type: CacheType,
        key: Seq<char>,
        value: ValueView,
        now: u64,
    ) -> CacheView {
        self.after_set(cache_type, self.keyed_data(cache_type, key, value, now), now)
    }

    /// The status of one type at `now`. An expired entry still reports its
    /// age, size and item count.
    pub open spec fn status_of(self, cache_type: CacheType, now: u64) -> CacheStatus {
        match self.slot(cache_type) {
            SlotView::Stored { entry, size_bytes } => CacheStatus {
                cache_type,
                valid: entry.valid_at(now),
                age_seconds: Some(entry.age_at(now) as u64),
                size_bytes: Some(size_bytes),
                item_count: Some(entry.data.item_count() as usize),
            },
            _ => CacheStatus {
                cache_type,
                valid: false,
                age_seconds: None,
                size_bytes: None,
                item_count: None,
            },
        }
    }

    /// The status of every type at `now`, in the order of
    /// [`CacheType::spec_all`].
    pub open spec fn status(self, now: u64) -> Seq<CacheStatus> {
        Seq::new(4, |i: int| self.status_of(CacheType::spec_all()[i], now))
    }
}

/// A value written to a type is what a lookup of that type returns, at once
/// and for as long as the entry is valid, provided the time-to-live is not
/// zero. Such a lookup removes nothing. Once the time-to-live has passed
/// the lookup returns nothing and leaves no entry. The other types are
/// untouched by the write.
pub proof fn lemma_set_then_get(
    cache: CacheView,
    cache_type: CacheType,
    data: ValueView,
    now: u64,
)
    requires
        cache.ttl_seconds > 0,
    ensures
        cache.after_set(cache_type, data, now).lookup(cache_type, now) == Some(data),
        forall|later: u64|
            now <= later && later - now < cache.ttl_seconds ==> {
                &&& #[trigger] cache.after_set(cache_type, data, now).lookup(cache_type, later)
                    == Some(data)
                &&& cache.after_set(cache_type, data, now).after_get(cache_type, later)
                    == cache.after_set(cache_type, data, now)
            },
        forall|later: u64|
            later - now >= cache.ttl_seconds ==> {
                &&& #[trigger] cache.after_set(cache_type, data, now).lookup(cache_type, later)
                    is None
                &&& cache.after_set(cache_type, data, now).after_get(cache_type, later).slot(
                    cache_type,
                ) is Missing
            },
        forall|other: CacheType|
            other != cache_type ==> #[trigger] cache.after_set(cache_type, data, now).slot(other)
                == cache.slot(other),
{
}

/// Clearing a type twice leaves what clearing it once leaves, and clearing
/// a type that has no file changes nothing.
pub proof fn lemma_clear_type_idempotent(cache: CacheView, cache_type: CacheType)
    ensures
        cache.after_clear(cache_type).after_clear(cache_type) == cache.after_clear(cache_type),
        cache.after_clear(cache_type).slot(cache_type) is Missing,
        cache.slot(cache_type) is Missing ==> cache.after_clear(cache_type) == cache,
        cache.cleared().after_clear(cache_type) == cache.cleared(),
{
}

/// After a keyed write a keyed lookup with the same key returns the written
/// value, and a lookup with another key returns what it returned before the
/// write: nothing, if that key was never written. This holds where the
/// time-to-live is not zero and the valid value of the type, if there is
/// one, is an object.
pub proof fn lemma_set_keyed_then_get_keyed(
    cache: CacheView,
    cache_type: CacheType,
    key: Seq<char>,
    value: ValueView,
    other_key: Seq<char>,
    now: u64,
)
    requires
        cache.ttl_seconds > 0,
        cache.lookup(cache_type, now) matches Some(data) ==> data is Object,
    ensures
        cache.after_set_keyed(cache_type, key, value, now).lookup_keyed(cache_type, key, now)
            == Some(value),
        other_key != key ==> cache.after_set_keyed(cache_type, key, value, now).lookup_keyed(
            cache_type,
            other_key,
            now,
        ) == cache.lookup_keyed(cache_type, other_key, now),
{
}

/// A keyed write renews the whole type: every key that a lookup found
/// before the write is found for a full time-to-live after it, whatever
/// was left of the old one.
pub proof fn lemma_keyed_write_renews_type(
    cache: CacheView,
    cache_type: CacheType,
    key: Seq<char>,
    value: ValueView,
    other_key: Seq<char>,
    now: u64,
    later: u64,
)
    requires
        other_key != key,
        cache.lookup_keyed(cache_type, other_key, now) is Some,
        now <= later,
        later - now < cache.ttl_seconds,
    ensures
        cache.after_set_keyed(cache_type, key, value, now).entry(cache_type) matches Some(entry)
            && entry.timestamp == now && entry.ttl_seconds == cache.ttl_seconds,
        cache.after_set_keyed(cache_type, key, value, now).lookup_keyed(
            cache_type,
            other_key,
            later,
        ) == cache.lookup_keyed(cache_type, other_key, now),
{
}

/// Converts an optional value to its mathematical content.
pub open spec fn view_of(value: Option<Value>) -> Option<ValueView> {
    match value {
        Some(v) => Some(v@),
        None => None,
    }
}

/// The cache: a time-to-live for new entries and the four slots.
#[derive(Debug)]
pub struct Cache {
    ttl_seconds: u64,
    teams: Slot,
    users: Slot,
    statuses: Slot,
    labels: Slot,
}

impl View for Cache {
    type V = CacheView;

    closed spec fn view(&self) -> CacheView {
        CacheView {
            ttl_seconds: self.ttl_seconds,
            teams: self.teams@,
            users: self.users@,
            statuses: self.statuses@,
            labels: self.labels@,
        }
    }
}

impl Cache {
    /// An empty cache that writes entries with the default time-to-live.
    pub fn new() -> (cache: Cache)
        ensures
            cache@.ttl_seconds == DEFAULT_TTL_SECONDS,
            cache@ == cache@.cleared(),
    {
        Self::with_ttl(DEFAULT_TTL_SECONDS)
    }

    /// An empty cache that writes entries with the given time-to-live.
    pub fn with_ttl(ttl_seconds: u64) -> (cache: Cache)
        ensures
            cache@.ttl_seconds == ttl_seconds,
            cache@ == cache@.cleared(),
    {
        Cache {
            ttl_seconds,
            teams: Slot::Missing,
            users: Slot::Missing,
            statuses: Slot::Missing,
            labels: Slot::Missing,
        }
    }

    /// The time-to-live, in seconds, that this cache writes entries with.
    pub fn ttl_seconds(&self) -> (ttl: u64)
        ensures
            ttl == self@.ttl_seconds,
    {
        self.ttl_seconds
    }

    /// The slot of a cache type.
    pub fn slot(&self, cache_type: CacheType) -> (slot: &Slot)
        ensures
            slot@ == self@.slot(cache_type),
    {
        match cache_type {
            CacheType::Teams => &self.teams,
            CacheType::Users => &self.users,
            CacheType::Statuses => &self.statuses,
            CacheType::Labels => &self.labels,
        }
    }

    /// Replaces the slot of a cache type by what its backing file holds.
    pub fn load(&mut self, cache_type: CacheType, slot: Slot)
        ensures
            final(self)@ == old(self)@.with_slot(cache_type, slot@),
    {
        match cache_type {
            CacheType::Teams => {
                self.teams = slot;
            },
            CacheType::Users => {
                self.users = slot;
            },
            CacheType::Statuses => {
                self.statuses = slot;
            },
            CacheType::Labels => {
                self.labels = slot;
            },
        }
    }

    /// Notes the size of the backing file of a stored entry. A slot without
    /// an entry is left as it is.
    pub fn record_size(&mut self, cache_type: CacheType, size_bytes: u64)
        ensures
            final(self)@ == (match old(self)@.slot(cache_type) {
                SlotView::Stored { entry, .. } => old(self)@.with_slot(
                    cache_type,
                    SlotView::Stored { entry, size_bytes },
                ),
                _ => old(self)@,
            }),
    {
        let entry = match self.slot(cache_type) {
            Slot::Stored { entry, .. } => Some(entry.clone()),
            _ => None,
        };
        match entry {
            Some(entry) => {
                self.load(cache_type, Slot::Stored { entry, size_bytes });
            },
            None => {},
        }
    }

    /// The path name of the backing file of a type: its file name.
    pub fn cache_path(&self, cache_type: CacheType) -> (name: &'static str)
        ensures
            name@ == cache_type.spec_filename(),
    {
        cache_type.filename()
    }

    /// Looks a type up at `now`. A valid entry gives its value. An expired
    /// entry gives nothing and is removed. A missing or unreadable file gives
    /// nothing and stays as it is.
    pub fn get_at(&mut self, cache_type: CacheType, now: u64) -> (value: Option<Value>)
        ensures
            view_of(value) == old(self)@.lookup(cache_type, now),
            final(self)@ == old(self)@.after_get(cache_type, now),
    {
        let mut expired: bool = false;
        let value = match self.slot(cache_type) {
            Slot::Stored { entry, .. } => {
                if entry.is_valid_at(now) {
                    Some(entry.data.duplicate())
                } else {
                    expired = true;
                    None
                }
            },
            _ => None,
        };
        if expired {
            self.load(cache_type, Slot::Missing);
        }
        value
    }

    /// The entry stored for a type, valid or not. Nothing is removed.
    pub fn get_entry(&self, cache_type: CacheType) -> (entry: Option<CacheEntry>)
        ensures
            match entry {
                Some(e) => self@.entry(cache_type) == Some(e@),
                None => self@.entry(cache_type) is None,
            },
    {
        match self.slot(cache_type) {
            Slot::Stored { entry, .. } => Some(entry.clone()),
            _ => None,
        }
    }

    /// Writes `data` at `now` as a fresh entry with this cache's
    /// time-to-live, in place of whatever the slot held.
    pub fn set_at(&mut self, cache_type: CacheType, data: Value, now: u64)
        ensures
            final(self)@ == old(self)@.after_set(cache_type, data@, now),
    {
        let entry = CacheEntry { timestamp: now, ttl_seconds: self.ttl_seconds, data };
        self.load(cache_type, Slot::Stored { entry, size_bytes: 0 });
    }

    /// Whether a lookup at `now` finds a value. An expired entry is removed
    /// as by a lookup.
    pub fn is_valid_at(&mut self, cache_type: CacheType, now: u64) -> (valid: bool)
        ensures
            valid == old(self)@.lookup(cache_type, now).is_some(),
            final(self)@ == old(self)@.after_get(cache_type, now),
    {
        self.get_at(cache_type, now).is_some()
    }

    /// Removes the entry of one type, if there is one.
    pub fn clear_type(&mut self, cache_type: CacheType)
        ensures
            final(self)@ == old(self)@.after_clear(cache_type),
    {
        self.load(cache_type, Slot::Missing);
    }

    /// Removes the entries of all types.
    pub fn clear_all(&mut self)
        ensures
            final(self)@ == old(self)@.cleared(),
    {
        let types = CacheType::all();
        let mut i: usize = 0;
        while i < 4
            invariant
                i <= 4,
                types@ == CacheType::spec_all(),
                self@.ttl_seconds == old(self)@.ttl_seconds,
                forall|j: int| 0 <= j < i ==> self@.slot(CacheType::spec_all()[j]) is Missing,
                forall|j: int|
                    i <= j < 4 ==> self@.slot(CacheType::spec_all()[j]) == old(self)@.slot(
                        CacheType::spec_all()[j],
                    ),
            decreases 4 - i,
        {
            self.clear_type(types[i]);
            i += 1;
        }
        proof {
            let all = CacheType::spec_all();
            assert(self@.slot(all[0]) is Missing);
            assert(self@.slot(all[1]) is Missing);
            assert(self@.slot(all[2]) is Missing);
            assert(self@.slot(all[3]) is Missing);
        }
    }

    /// Looks up member `key` of the value of a type at `now`. The whole type
    /// expires at once: an expired entry gives nothing and is removed.
    pub fn get_keyed_at(&mut self, cache_type: CacheType, key: &str, now: u64) -> (value: Option<
        Value,
    >)
        ensures
            view_of(value) == old(self)@.lookup_keyed(cache_type, key@, now),
            final(self)@ == old(self)@.after_get(cache_type, now),
    {
        match self.get_at(cache_type, now) {
            Some(data) => match data.get(key) {
                Some(member) => Some(member.duplicate()),
                None => None,
            },
            None => None,
        }
    }

    /// Sets member `key` of the value of a type at `now`, starting from an
    /// empty object where no valid value is stored, and writes the value
    /// back as a fresh entry.
    pub fn set_keyed_at(&mut self, cache_type: CacheType, key: &str, value: Value, now: u64)
        ensures
            final(self)@ == old(self)@.after_set_keyed(cache_type, key@, value@, now),
    {
        let mut data = match self.get_at(cache_type, now) {
            Some(data) => data,
            None => Value::empty_object(),
        };
        data.insert(key, value);
        self.set_at(cache_type, data, now);
    }

    /// The status of one type at `now`. Nothing is removed.
    pub fn status_of_at(&self, cache_type: CacheType, now: u64) -> (status: CacheStatus)
        ensures
            status == self@.status_of(cache_type, now),
    {
        match self.slot(cache_type) {
            Slot::Stored { entry, size_bytes } => CacheStatus {
                cache_type,
                valid: entry.is_valid_at(now),
                age_seconds: Some(entry.age_seconds_at(now)),
                size_bytes: Some(*size_bytes),
                item_count: Some(entry.data.item_count()),
            },
            _ => CacheStatus {
                cache_type,
                valid: false,
                age_seconds: None,
                size_bytes: None,
                item_count: None,
            },
        }
    }

    /// The status of every type at `now`. Nothing is removed.
    pub fn status_at(&self, now: u64) -> (report: Vec<CacheStatus>)
        ensures
            report@ == self@.status(now),
    {
        let types = CacheType::all();
        let mut report: Vec<CacheStatus> = Vec::new();
        let mut i: usize = 0;
        while i < 4
            invariant
                i <= 4,
                types@ == CacheType::spec_all(),
                report@.len() == i,
                forall|j: int|
                    0 <= j < i ==> report@[j] == self@.status_of(CacheType::spec_all()[j], now),
            decreases 4 - i,
        {
            report.push(self.status_of_at(types[i], now));
            i += 1;
        }
        assert(report@ =~= self@.status(now));
        report
    }

    /// [`Cache::get_at`] at the time of the system clock.
    pub fn get(&mut self, cache_type: CacheType) -> (value: Option<Value>)
        ensures
            exists|now: u64|
                view_of(value) == old(self)@.lookup(cache_type, now) && final(self)@ == old(
                    self,
                )@.after_get(cache_type, now),
    {
        let now: u64 = unix_now();
        self.get_at(cache_type, now)
    }

    /// [`Cache::set_at`] at the time of the system clock.
    pub fn set(&mut self, cache_type: CacheType, data: Value)
        ensures
            exists|now: u64| final(self)@ == old(self)@.after_set(cache_type, data@, now),
    {
        let now: u64 = unix_now();
        self.set_at(cache_type, data, now);
    }

    /// [`Cache::is_valid_at`] at the time of the system clock.
    pub fn is_valid(&mut self, cache_type: CacheType) -> (valid: bool)
        ensures
            exists|now: u64|
                valid == old(self)@.lookup(cache_type, now).is_some() && final(self)@ == old(
                    self,
                )@.after_get(cache_type, now),
    {
        let now: u64 = unix_now();
        self.is_valid_at(cache_type, now)
    }

    /// [`Cache::get_keyed_at`] at the time of the system clock.
    pub fn get_keyed(&mut self, cache_type: CacheType, key: &str) -> (value: Option<Value>)
        ensures
            exists|now: u64|
                view_of(value) == old(self)@.lookup_keyed(cache_type, key@, now) && final(self)@
                    == old(self)@.after_get(cache_type, now),
    {
        let now: u64 = unix_now();
        self.get_keyed_at(cache_type, key, now)
    }

    /// [`Cache::set_keyed_at`] at the time of the system clock.
    pub fn set_keyed(&mut self, cache_type: CacheType, key: &str, value: Value)
        ensures
            exists|now: u64|
                final(self)@ == old(self)@.after_set_keyed(cache_type, key@, value@, now),
    {
        let now: u64 = unix_now();
        self.set_keyed_at(cache_type, key, value, now);
    }

    /// [`Cache::status_at`] at the time of the system clock.
    pub fn status(&self) -> (report: Vec<CacheStatus>)
        ensures
            exists|now: u64| report@ == self@.status(now),
    {
        let now: u64 = unix_now();
        self.status_at(now)
    }
}

} // verus!
