//! The response cache of the connection manager.
//!
//! Entries are keyed by the request fingerprint: host name, connector
//! id, request type and message. Only successful responses are written
//! through, and entries expire by the configured time-to-live.

use vstd::prelude::*;

use crate::configuration::CacheSettings;
use crate::enums::RequestType;
use crate::response::ResponseMessage;

verus! {

/// The fingerprint a response is cached under.
pub struct CacheKey {
    pub host_name: String,
    pub connector_id: String,
    pub request_type: RequestType,
    pub message: String,
}

/// Spec-level contents of a [`CacheKey`].
#[verifier::ext_equal]
pub struct CacheKeyView {
    pub host_name: Seq<char>,
    pub connector_id: Seq<char>,
    pub request_type: RequestType,
    pub message: Seq<char>,
}

impl View for CacheKey {
    type V = CacheKeyView;

    open spec fn view(&self) -> CacheKeyView {
        CacheKeyView {
            host_name: self.host_name@,
            connector_id: self.connector_id@,
            request_type: self.request_type,
            message: self.message@,
        }
    }
}

impl CacheKey {
    pub fn new(host_name: &str, connector_id: &str, request_type: RequestType, message: &str) -> (r:
        CacheKey)
        ensures
            r@ == (CacheKeyView {
                host_name: host_name@,
                connector_id: connector_id@,
                request_type,
                message: message@,
            }),
    {
        let r = CacheKey {
            host_name: host_name.to_owned(),
            connector_id: connector_id.to_owned(),
            request_type,
            message: message.to_owned(),
        };
        proof {
            assert(r@ =~= (CacheKeyView {
                host_name: host_name@,
                connector_id: connector_id@,
                request_type,
                message: message@,
            }));
        }
        r
    }

    fn matches(&self, other: &CacheKey) -> (r: bool)
        ensures
            r == (self@ == other@),
    {
        let r = crate::utils::str_eq(self.host_name.as_str(), other.host_name.as_str())
            && crate::utils::str_eq(self.connector_id.as_str(), other.connector_id.as_str())
            && self.request_type == other.request_type
            && crate::utils::str_eq(self.message.as_str(), other.message.as_str());
        proof {
            if r {
                assert(self@ =~= other@);
            }
        }
        r
    }
}

/// A stored response: its text, its return code, and when it was stored.
#[verifier::ext_equal]
pub struct CacheEntry {
    pub message: String,
    pub return_code: i32,
    pub stored_at: u64,
}

/// Spec-level contents of a [`CacheEntry`].
#[verifier::ext_equal]
pub struct CacheEntryView {
    pub message: Seq<char>,
    pub return_code: i32,
    pub stored_at: u64,
}

impl View for CacheEntry {
    type V = CacheEntryView;

    open spec fn view(&self) -> CacheEntryView {
        CacheEntryView {
            message: self.message@,
            return_code: self.return_code,
            stored_at: self.stored_at,
        }
    }
}

/// The mapping described by the entry list; a later entry wins.
pub open spec fn cache_entries_map(s: Seq<(CacheKey, CacheEntry)>) -> Map<CacheKeyView,
    CacheEntryView>
    decreases s.len(),
{
    if s.len() == 0 {
        Map::empty()
    } else {
        cache_entries_map(s.drop_last()).insert(s.last().0@, s.last().1@)
    }
}

proof fn lemma_cache_entries_key(s: Seq<(CacheKey, CacheEntry)>, k: CacheKeyView)
    ensures
        cache_entries_map(s).contains_key(k) <==> exists|i: int| 0 <= i < s.len() && s[i].0@ == k,
    decreases s.len(),
{
    if s.len() > 0 {
        lemma_cache_entries_key(s.drop_last(), k);
        if s.last().0@ != k && cache_entries_map(s).contains_key(k) {
            let i = choose|i: int| 0 <= i < s.drop_last().len() && s.drop_last()[i].0@ == k;
            assert(s[i].0@ == k);
        }
        if exists|i: int| 0 <= i < s.len() && s[i].0@ == k {
            let i = choose|i: int| 0 <= i < s.len() && s[i].0@ == k;
            if i < s.len() - 1 {
                assert(s.drop_last()[i].0@ == k);
            }
        }
    }
}

proof fn lemma_cache_entries_at(s: Seq<(CacheKey, CacheEntry)>, i: int)
    requires
        0 <= i < s.len(),
        forall|j: int, l: int| 0 <= j < l < s.len() ==> s[j].0@ != s[l].0@,
    ensures
        cache_entries_map(s).contains_key(s[i].0@),
        cache_entries_map(s)[s[i].0@] == s[i].1@,
    decreases s.len(),
{
    lemma_cache_entries_key(s, s[i].0@);
    if i < s.len() - 1 {
        assert(s.drop_last()[i] == s[i]);
        lemma_cache_entries_at(s.drop_last(), i);
        assert(s.last().0@ != s[i].0@);
    }
}

proof fn lemma_cache_entries_remove(s: Seq<(CacheKey, CacheEntry)>, i: int)
    requires
        0 <= i < s.len(),
        forall|j: int, l: int| 0 <= j < l < s.len() ==> s[j].0@ != s[l].0@,
    ensures
        cache_entries_map(s.remove(i)) == cache_entries_map(s).remove(s[i].0@),
    decreases s.len(),
{
    let k = s[i].0@;
    lemma_cache_entries_key(s, k);
    lemma_cache_entries_key(s.remove(i), k);
    if i == s.len() - 1 {
        assert(s.remove(i) =~= s.drop_last());
        lemma_cache_entries_key(s.drop_last(), k);
        assert(!cache_entries_map(s.drop_last()).contains_key(k));
        assert(cache_entries_map(s.drop_last()) =~= cache_entries_map(s).remove(k));
    } else {
        let t = s.remove(i);
        assert(t.drop_last() =~= s.drop_last().remove(i));
        assert(t.last() == s.last());
        lemma_cache_entries_remove(s.drop_last(), i);
        assert(cache_entries_map(t) =~= cache_entries_map(s).remove(k));
    }
}

/// The time-to-live that applies to an entry: the longer initial-value
/// grace period for entries that predate process start, when enabled.
pub open spec fn spec_ttl_for(stored_at: u64, process_start: u64, settings: CacheSettings) -> u64 {
    if stored_at < process_start && settings.provide_initial_value {
        settings.initial_value_time_to_live
    } else {
        settings.time_to_live
    }
}

/// An entry still answers lookups at `now`.
pub open spec fn spec_fresh(
    entry: CacheEntryView,
    now: u64,
    process_start: u64,
    settings: CacheSettings,
) -> bool {
    now - entry.stored_at <= spec_ttl_for(entry.stored_at, process_start, settings)
}

/// What a lookup returns: the entry, if caching is on, the key is
/// present and the entry is fresh.
pub open spec fn spec_lookup(
    cache: Map<CacheKeyView, CacheEntryView>,
    key: CacheKeyView,
    now: u64,
    process_start: u64,
    settings: CacheSettings,
) -> Option<CacheEntryView> {
    if settings.enable_cache && cache.contains_key(key) && spec_fresh(
        cache[key],
        now,
        process_start,
        settings,
    ) {
        Some(cache[key])
    } else {
        None
    }
}

/// The cache state after a write-through: changed only for an enabled
/// cache and a successful response.
pub open spec fn spec_written(
    cache: Map<CacheKeyView, CacheEntryView>,
    key: CacheKeyView,
    message: Seq<char>,
    return_code: i32,
    now: u64,
    settings: CacheSettings,
) -> Map<CacheKeyView, CacheEntryView> {
    if settings.enable_cache && return_code == 0 {
        cache.insert(key, CacheEntryView { message, return_code, stored_at: now })
    } else {
        cache
    }
}

/// The response cache. Owned by the connection manager; times are
/// provided by the caller as seconds.
pub struct ResponseCache {
    entries: Vec<(CacheKey, CacheEntry)>,
    settings: CacheSettings,
    process_start: u64,
}

impl ResponseCache {
    /// Every fingerprint appears in at most one entry.
    #[verifier::type_invariant]
    pub closed spec fn wf(&self) -> bool {
        forall|j: int, l: int|
            0 <= j < l < self.entries@.len() ==> self.entries@[j].0@ != self.entries@[l].0@
    }

    /// The stored mapping from fingerprints to entries.
    pub closed spec fn contents(&self) -> Map<CacheKeyView, CacheEntryView> {
        cache_entries_map(self.entries@)
    }

    pub closed spec fn spec_settings(&self) -> CacheSettings {
        self.settings
    }

    pub closed spec fn spec_process_start(&self) -> u64 {
        self.process_start
    }

    pub fn settings(&self) -> (r: CacheSettings)
        ensures
            r == self.spec_settings(),
    {
        self.settings
    }

    pub fn new(settings: CacheSettings, process_start: u64) -> (r: ResponseCache)
        ensures
            r.contents() == Map::<CacheKeyView, CacheEntryView>::empty(),
            r.spec_settings() == settings,
            r.spec_process_start() == process_start,
    {
        ResponseCache { entries: Vec::new(), settings, process_start }
    }

    fn position_of(&self, key: &CacheKey) -> (r: Option<usize>)
        ensures
            match r {
                Some(i) => i < self.entries@.len() && self.entries@[i as int].0@ == key@
                    && self.contents().contains_key(key@) && self.contents()[key@]
                    == self.entries@[i as int].1@,
                None => !self.contents().contains_key(key@),
            },
    {
        proof {
            use_type_invariant(&*self);
        }
        let ghost s = self.entries@;
        let mut i: usize = 0;
        while i < self.entries.len()
            invariant
                self.wf(),
                s == self.entries@,
                0 <= i <= s.len(),
                forall|j: int| 0 <= j < i ==> s[j].0@ != key@,
            decreases self.entries.len() - i,
        {
            if self.entries[i].0.matches(key) {
                proof {
                    lemma_cache_entries_at(s, i as int);
                }
                return Some(i);
            }
            i += 1;
        }
        proof {
            lemma_cache_entries_key(s, key@);
        }
        None
    }

    /// Serves a fresh cached response under the fingerprint, marked as
    /// coming from the cache. Returns nothing when caching is disabled,
    /// the key is absent, or the entry is stale.
    pub fn lookup(&self, key: &CacheKey, now: u64) -> (r: Option<ResponseMessage>)
        ensures
            match r {
                Some(m) => {
                    &&& spec_lookup(self.contents(), key@, now, self.spec_process_start(), self.spec_settings())
                        matches Some(e)
                    &&& m.message@ == spec_lookup(
                        self.contents(),
                        key@,
                        now,
                        self.spec_process_start(),
                        self.spec_settings(),
                    ).unwrap().message
                    &&& m.return_code == spec_lookup(
                        self.contents(),
                        key@,
                        now,
                        self.spec_process_start(),
                        self.spec_settings(),
                    ).unwrap().return_code
                    &&& m.is_from_cache == true
                    &&& m.not_found == false
                },
                None => spec_lookup(self.contents(), key@, now, self.spec_process_start(), self.spec_settings())
                    is None,
            },
    {
        if !self.settings.enable_cache {
            return None;
        }
        let position = match self.position_of(key) {
            Some(i) => i,
            None => {
                return None;
            },
        };
        let entry = &self.entries[position].1;
        let ttl = if entry.stored_at < self.process_start && self.settings.provide_initial_value {
            self.settings.initial_value_time_to_live
        } else {
            self.settings.time_to_live
        };
        if now >= entry.stored_at && now - entry.stored_at <= ttl {
            Some(
                ResponseMessage {
                    message: entry.message.clone(),
                    return_code: entry.return_code,
                    is_from_cache: true,
                    not_found: false,
                },
            )
        } else if now < entry.stored_at {
            // A clock that moved backwards: the entry is from the future
            // and by the subtraction in the model still fresh.
            Some(
                ResponseMessage {
                    message: entry.message.clone(),
                    return_code: entry.return_code,
                    is_from_cache: true,
                    not_found: false,
                },
            )
        } else {
            None
        }
    }

    /// Writes a response through under the fingerprint. Only an enabled
    /// cache stores, and only successful responses.
    pub fn write(&mut self, key: CacheKey, response: &ResponseMessage, now: u64)
        ensures
            final(self).contents() == spec_written(
                old(self).contents(),
                key@,
                response.message@,
                response.return_code,
                now,
                old(self).spec_settings(),
            ),
            final(self).spec_settings() == old(self).spec_settings(),
            final(self).spec_process_start() == old(self).spec_process_start(),
    {
        proof {
            use_type_invariant(&*self);
        }
        if !self.settings.enable_cache || response.return_code != 0 {
            return;
        }
        let ghost s0 = self.entries@;
        let position = self.position_of(&key);
        let entry = CacheEntry {
            message: response.message.clone(),
            return_code: response.return_code,
            stored_at: now,
        };
        let mut entries: Vec<(CacheKey, CacheEntry)> = Vec::new();
        core::mem::swap(&mut entries, &mut self.entries);
        match position {
            Some(i) => {
                entries.remove(i);
                proof {
                    lemma_cache_entries_remove(s0, i as int);
                }
                let ghost s1 = entries@;
                entries.push((key, entry));
                proof {
                    assert(entries@.drop_last() =~= s1);
                    assert(cache_entries_map(entries@) =~= cache_entries_map(s0).insert(
                        key@,
                        entry@,
                    ));
                    assert forall|j: int, l: int|
                        0 <= j < l < entries@.len() implies entries@[j].0@
                        != entries@[l].0@ by {
                        if l == entries@.len() - 1 {
                            if j < i {
                                assert(s1[j] == s0[j]);
                            } else {
                                assert(s1[j] == s0[j + 1]);
                            }
                        }
                    }
                }
            },
            None => {
                let ghost s1 = entries@;
                entries.push((key, entry));
                proof {
                    assert(entries@.drop_last() =~= s1);
                    assert(cache_entries_map(entries@) =~= cache_entries_map(s0).insert(
                        key@,
                        entry@,
                    ));
                    lemma_cache_entries_key(s1, key@);
                }
            },
        }
        self.entries = entries;
    }
}

/// Cache round trip: a successful response written through at one time
/// is served back, unchanged and marked as cached, by any lookup under
/// the same fingerprint within the time-to-live.
pub proof fn lemma_cache_round_trip(
    cache: Map<CacheKeyView, CacheEntryView>,
    key: CacheKeyView,
    message: Seq<char>,
    stored_at: u64,
    now: u64,
    process_start: u64,
    settings: CacheSettings,
)
    requires
        settings.enable_cache,
        stored_at >= process_start,
        now - stored_at <= settings.time_to_live,
    ensures
        spec_lookup(
            spec_written(cache, key, message, 0, stored_at, settings),
            key,
            now,
            process_start,
            settings,
        ) == Some(CacheEntryView { message, return_code: 0, stored_at }),
{
}

} // verus!
