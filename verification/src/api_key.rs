//! The usage ledger: API keys with per-key byte counters.  The store
//! itself is pure; reading the ledger file and writing it back are the
//! caller's steps around these operations.

use vstd::prelude::*;
use crate::api_types::ApiKeyData;
use crate::clock::now_rfc3339;
use crate::text::str_eq;

verus! {

/// The errors of ledger operations.
#[derive(Debug)]
pub enum ApiKeyError {
    AdminRequired,
    KeyNotFound,
    KeyAlreadyExists,
    FileError(String),
}

impl ApiKeyError {
    /// The human-readable message of the error.
    pub fn message(&self) -> (r: String)
        ensures
            r@ == match self {
                ApiKeyError::AdminRequired => ("管理者権限が必要です")@,
                ApiKeyError::KeyNotFound => ("APIキーが見つかりません")@,
                ApiKeyError::KeyAlreadyExists => ("APIキーが既に存在します")@,
                ApiKeyError::FileError(msg) => ("ファイルエラー: ")@ + msg@,
            },
    {
        match self {
            ApiKeyError::AdminRequired => String::from_str("管理者権限が必要です"),
            ApiKeyError::KeyNotFound => String::from_str("APIキーが見つかりません"),
            ApiKeyError::KeyAlreadyExists => String::from_str("APIキーが既に存在します"),
            ApiKeyError::FileError(msg) => {
                let mut s = String::from_str("ファイルエラー: ");
                s.append(msg.as_str());
                s
            },
        }
    }
}

/// Addition of byte counters, saturating at the counter's maximum.
pub open spec fn sat_add64(a: u64, b: u64) -> u64 {
    if a + b > u64::MAX {
        u64::MAX
    } else {
        (a + b) as u64
    }
}

/// A key occurs in the entry sequence.
pub open spec fn contains_key(s: Seq<ApiKeyData>, k: Seq<char>) -> bool {
    exists|j: int| 0 <= j < s.len() && s[j].key@ == k
}

/// First index of a key in the entry sequence (the length if absent).
pub open spec fn index_of_key(s: Seq<ApiKeyData>, k: Seq<char>) -> int
    decreases s.len(),
{
    if s.len() == 0 {
        0
    } else if s[0].key@ == k {
        0
    } else {
        1 + index_of_key(s.drop_first(), k)
    }
}

pub proof fn lemma_index_of_key(s: Seq<ApiKeyData>, k: Seq<char>)
    ensures
        0 <= index_of_key(s, k) <= s.len(),
        contains_key(s, k) <==> index_of_key(s, k) < s.len(),
        index_of_key(s, k) < s.len() ==> s[index_of_key(s, k)].key@ == k,
        forall|j: int| 0 <= j < index_of_key(s, k) ==> s[j].key@ != k,
    decreases s.len(),
{
    if s.len() == 0 {
        assert(!contains_key(s, k));
    } else if s[0].key@ == k {
        assert(contains_key(s, k));
    } else {
        let t = s.drop_first();
        lemma_index_of_key(t, k);
        if contains_key(s, k) {
            let j = choose|j: int| 0 <= j < s.len() && s[j].key@ == k;
            assert(t[j - 1].key@ == k);
            assert(contains_key(t, k));
        }
        if contains_key(t, k) {
            let j = choose|j: int| 0 <= j < t.len() && t[j].key@ == k;
            assert(s[j + 1].key@ == k);
            assert(contains_key(s, k));
        }
        assert forall|j: int| 0 <= j < index_of_key(s, k) implies s[j].key@ != k by {
            if j > 0 {
                assert(t[j - 1].key@ == s[j].key@);
            }
        }
    }
}

/// First-occurrence deduplication by key, in order.
pub open spec fn dedup_by_key(s: Seq<ApiKeyData>) -> Seq<ApiKeyData>
    decreases s.len(),
{
    if s.len() == 0 {
        Seq::empty()
    } else {
        let d = dedup_by_key(s.drop_last());
        if contains_key(d, s.last().key@) {
            d
        } else {
            d.push(s.last())
        }
    }
}

/// Sum of the entries' original-byte counters, saturating.
pub open spec fn sum_original(s: Seq<ApiKeyData>) -> u64
    decreases s.len(),
{
    if s.len() == 0 {
        0
    } else {
        sat_add64(sum_original(s.drop_last()), s.last().total_original_bytes)
    }
}

/// Sum of the entries' processed-byte counters, saturating.
pub open spec fn sum_processed(s: Seq<ApiKeyData>) -> u64
    decreases s.len(),
{
    if s.len() == 0 {
        0
    } else {
        sat_add64(sum_processed(s.drop_last()), s.last().total_processed_bytes)
    }
}

/// Sum of the entries' compression counts, saturating.
pub open spec fn sum_compressions(s: Seq<ApiKeyData>) -> u64
    decreases s.len(),
{
    if s.len() == 0 {
        0
    } else {
        sat_add64(sum_compressions(s.drop_last()), s.last().compression_count)
    }
}

/// Percentage of bytes saved: `(original - processed) * 100 /
/// original`, zero when nothing was processed or the output grew.
pub open spec fn ratio_spec(original: u64, processed: u64) -> u64 {
    if original == 0 {
        0
    } else if processed >= original {
        0
    } else {
        (((original - processed) * 100) / (original as int)) as u64
    }
}

/// Aggregate ledger statistics.
pub struct StatisticsData {
    pub total_original_bytes: u64,
    pub total_processed_bytes: u64,
    pub total_compressions: u64,
    pub compression_ratio: u64,
    pub total_keys: usize,
}

impl StatisticsData {
    /// The statistics as one tuple.
    pub fn as_tuple(&self) -> (r: (u64, u64, u64, u64, usize))
        ensures
            r.0 == self.total_original_bytes,
            r.1 == self.total_processed_bytes,
            r.2 == self.total_compressions,
            r.3 == self.compression_ratio,
            r.4 == self.total_keys,
    {
        (
            self.total_original_bytes,
            self.total_processed_bytes,
            self.total_compressions,
            self.compression_ratio,
            self.total_keys,
        )
    }
}

/// The admin key accepted by administrative operations.
pub open spec fn admin_key_spec() -> Seq<char> {
    ("changeme")@
}

/// The ledger: the known keys with their usage counters.
pub struct ApiKeyStore {
    keys: Vec<ApiKeyData>,
}

impl ApiKeyStore {
    /// The entries of the ledger, in insertion order.
    pub closed spec fn entries(&self) -> Seq<ApiKeyData> {
        self.keys@
    }

    /// An empty ledger.
    pub fn new() -> (r: Self)
        ensures
            r.entries() == Seq::<ApiKeyData>::empty(),
    {
        ApiKeyStore { keys: Vec::new() }
    }

    /// A ledger holding the given entries, keeping the first entry of
    /// every key.
    pub fn from_entries(entries: Vec<ApiKeyData>) -> (r: Self)
        ensures
            r.entries() == dedup_by_key(entries@),
    {
        let mut store = ApiKeyStore { keys: Vec::new() };
        let mut i: usize = 0;
        assert(entries@.take(0) =~= Seq::<ApiKeyData>::empty());
        while i < entries.len()
            invariant
                i <= entries.len(),
                store.keys@ == dedup_by_key(entries@.take(i as int)),
            decreases entries.len() - i,
        {
            proof {
                assert(entries@.take(i + 1).drop_last() =~= entries@.take(i as int));
                assert(entries@.take(i + 1).last() == entries@[i as int]);
            }
            if !store.validate_key(entries[i].key.as_str()) {
                store.keys.push(entries[i].clone());
            }
            i = i + 1;
        }
        assert(entries@.take(entries.len() as int) =~= entries@);
        store
    }

    /// Index of a key's entry, when the key is known.
    fn find_index(&self, key: &str) -> (r: Option<usize>)
        ensures
            match r {
                Some(j) => j == index_of_key(self.entries(), key@) && j < self.entries().len()
                    && self.entries()[j as int].key@ == key@,
                None => !contains_key(self.entries(), key@),
            },
    {
        proof {
            lemma_index_of_key(self.keys@, key@);
        }
        let mut j: usize = 0;
        while j < self.keys.len()
            invariant
                j <= self.keys.len(),
                forall|m: int| 0 <= m < j ==> self.keys@[m].key@ != key@,
            decreases self.keys.len() - j,
        {
            if str_eq(self.keys[j].key.as_str(), key) {
                proof {
                    lemma_index_of_key(self.keys@, key@);
                }
                return Some(j);
            }
            j = j + 1;
        }
        None
    }

    /// A key is accepted exactly when the ledger holds it.
    pub fn validate_key(&self, key: &str) -> (r: bool)
        ensures
            r == contains_key(self.entries(), key@),
    {
        self.find_index(key).is_some()
    }

    /// The admin key is accepted exactly when it is the configured one.
    pub fn validate_admin_key(&self, admin_key: &str) -> (r: bool)
        ensures
            r == (admin_key@ == admin_key_spec()),
    {
        str_eq(admin_key, "changeme")
    }

    /// The configured admin key.
    pub fn get_admin_key() -> (r: &'static str)
        ensures
            r@ == admin_key_spec(),
    {
        "changeme"
    }

    /// Adds a new key with zeroed counters and the current time as its
    /// creation stamp; refuses a key the ledger already holds.  The
    /// caller persists the ledger afterwards.
    pub fn add_key(&mut self, key: String) -> (r: Result<(), ApiKeyError>)
        ensures
            contains_key(old(self).entries(), key@) ==> r is Err && final(self).entries()
                == old(self).entries() && (r matches Err(
                ApiKeyError::KeyAlreadyExists,
            )),
            !contains_key(old(self).entries(), key@) ==> r is Ok && ({
                let e = final(self).entries();
                &&& e.len() == old(self).entries().len() + 1
                &&& e.drop_last() == old(self).entries()
                &&& e.last().key == key
                &&& e.last().total_bytes_processed == 0
                &&& e.last().total_original_bytes == 0
                &&& e.last().total_processed_bytes == 0
                &&& e.last().compression_count == 0
                &&& e.last().last_used is None
            }),
    {
        if self.find_index(key.as_str()).is_some() {
            return Err(ApiKeyError::KeyAlreadyExists);
        }
        let data = ApiKeyData::new(key, now_rfc3339());
        self.keys.push(data);
        assert(self.keys@.drop_last() =~= old(self).keys@);
        Ok(())
    }

    /// Removes a key, requiring the admin key; the caller persists the
    /// ledger afterwards.
    pub fn remove_key(&mut self, admin_key: &str, key: &str) -> (r: Result<(), ApiKeyError>)
        ensures
            admin_key@ != admin_key_spec() ==> (r matches Err(ApiKeyError::AdminRequired))
                && final(self).entries() == old(self).entries(),
            admin_key@ == admin_key_spec() && !contains_key(old(self).entries(), key@)
                ==> (r matches Err(ApiKeyError::KeyNotFound)) && final(self).entries()
                == old(self).entries(),
            admin_key@ == admin_key_spec() && contains_key(old(self).entries(), key@)
                ==> r is Ok && final(self).entries() == old(self).entries().remove(
                index_of_key(old(self).entries(), key@),
            ),
    {
        if !self.validate_admin_key(admin_key) {
            return Err(ApiKeyError::AdminRequired);
        }
        match self.find_index(key) {
            Some(j) => {
                self.keys.remove(j);
                Ok(())
            },
            None => Err(ApiKeyError::KeyNotFound),
        }
    }

    /// Adds one use to a key's counters, saturating at the counters'
    /// maximum, and stamps the time of use; the caller persists the
    /// ledger afterwards.
    pub fn add_usage(&mut self, key: &str, original_bytes: u64, processed_bytes: u64) -> (r:
        Result<(), ApiKeyError>)
        ensures
            !contains_key(old(self).entries(), key@) ==> (r matches Err(
                ApiKeyError::KeyNotFound,
            )) && final(self).entries() == old(self).entries(),
            contains_key(old(self).entries(), key@) ==> r is Ok && ({
                let idx = index_of_key(old(self).entries(), key@);
                let before = old(self).entries()[idx];
                let after = final(self).entries()[idx];
                &&& final(self).entries().len() == old(self).entries().len()
                &&& forall|m: int|
                    0 <= m < old(self).entries().len() && m != idx
                        ==> final(self).entries()[m] == old(self).entries()[m]
                &&& after.key == before.key
                &&& after.created_at == before.created_at
                &&& after.total_bytes_processed == sat_add64(
                    before.total_bytes_processed,
                    original_bytes,
                )
                &&& after.total_original_bytes == sat_add64(
                    before.total_original_bytes,
                    original_bytes,
                )
                &&& after.total_processed_bytes == sat_add64(
                    before.total_processed_bytes,
                    processed_bytes,
                )
                &&& after.compression_count == sat_add64(before.compression_count, 1)
                &&& after.last_used is Some
            }),
    {
        match self.find_index(key) {
            Some(j) => {
                let entry = &mut self.keys[j];
                entry.add_usage(original_bytes, processed_bytes);
                Ok(())
            },
            None => Err(ApiKeyError::KeyNotFound),
        }
    }

    /// The total bytes processed for a key, when the ledger holds it.
    pub fn get_usage(&self, key: &str) -> (r: Option<u64>)
        ensures
            r == if contains_key(self.entries(), key@) {
                Some(
                    self.entries()[index_of_key(self.entries(), key@)].total_bytes_processed,
                )
            } else {
                None::<u64>
            },
    {
        match self.find_index(key) {
            Some(j) => Some(self.keys[j].total_bytes_processed),
            None => None,
        }
    }

    /// The keys of the ledger, in order.
    pub fn list_keys(&self) -> (r: Vec<String>)
        ensures
            r@.len() == self.entries().len(),
            forall|m: int| 0 <= m < r@.len() ==> r@[m]@ == self.entries()[m].key@,
    {
        let mut r: Vec<String> = Vec::new();
        let mut i: usize = 0;
        while i < self.keys.len()
            invariant
                i <= self.keys.len(),
                r@.len() == i,
                forall|m: int| 0 <= m < i ==> r@[m]@ == self.keys@[m].key@,
            decreases self.keys.len() - i,
        {
            r.push(self.keys[i].key.clone());
            i = i + 1;
        }
        r
    }

    /// The full entries of the ledger, requiring the admin key.
    pub fn list_keys_with_data(&self, admin_key: &str) -> (r: Result<
        Vec<ApiKeyData>,
        ApiKeyError,
    >)
        ensures
            admin_key@ != admin_key_spec() ==> r matches Err(ApiKeyError::AdminRequired),
            admin_key@ == admin_key_spec() ==> (r matches Ok(v) && v@ == self.entries()),
    {
        if !self.validate_admin_key(admin_key) {
            return Err(ApiKeyError::AdminRequired);
        }
        let mut v: Vec<ApiKeyData> = Vec::new();
        let mut i: usize = 0;
        while i < self.keys.len()
            invariant
                i <= self.keys.len(),
                v@.len() == i,
                forall|m: int| 0 <= m < i ==> v@[m] == self.keys@[m],
            decreases self.keys.len() - i,
        {
            v.push(self.keys[i].clone());
            i = i + 1;
        }
        assert(v@ =~= self.keys@);
        Ok(v)
    }

    /// The ledger's aggregate statistics, requiring the admin key.
    /// Totals saturate at the counter maximum.
    pub fn get_statistics(&self, admin_key: &str) -> (r: Result<StatisticsData, ApiKeyError>)
        ensures
            admin_key@ != admin_key_spec() ==> r matches Err(ApiKeyError::AdminRequired),
            admin_key@ == admin_key_spec() ==> (r matches Ok(stats) && {
                let e = self.entries();
                &&& stats.total_original_bytes == sum_original(e)
                &&& stats.total_processed_bytes == sum_processed(e)
                &&& stats.total_compressions == sum_compressions(e)
                &&& stats.compression_ratio == ratio_spec(
                    sum_original(e),
                    sum_processed(e),
                )
                &&& stats.total_keys == e.len()
            }),
    {
        if !self.validate_admin_key(admin_key) {
            return Err(ApiKeyError::AdminRequired);
        }
        let mut total_original: u64 = 0;
        let mut total_processed: u64 = 0;
        let mut total_compressions: u64 = 0;
        let mut i: usize = 0;
        assert(self.keys@.take(0) =~= Seq::<ApiKeyData>::empty());
        while i < self.keys.len()
            invariant
                i <= self.keys.len(),
                total_original == sum_original(self.keys@.take(i as int)),
                total_processed == sum_processed(self.keys@.take(i as int)),
                total_compressions == sum_compressions(self.keys@.take(i as int)),
            decreases self.keys.len() - i,
        {
            proof {
                assert(self.keys@.take(i + 1).drop_last() =~= self.keys@.take(i as int));
                assert(self.keys@.take(i + 1).last() == self.keys@[i as int]);
            }
            total_original = total_original.saturating_add(
                self.keys[i].total_original_bytes,
            );
            total_processed = total_processed.saturating_add(
                self.keys[i].total_processed_bytes,
            );
            total_compressions = total_compressions.saturating_add(
                self.keys[i].compression_count,
            );
            i = i + 1;
        }
        assert(self.keys@.take(self.keys.len() as int) =~= self.keys@);
        let compression_ratio: u64 = if total_original > 0 && total_processed
            < total_original {
            let diff: u64 = total_original - total_processed;
            let q: u128 = (diff as u128) * 100 / (total_original as u128);
            proof {
                let d: int = diff as int;
                let o: int = total_original as int;
                assert((d * 100) / o <= 100) by (nonlinear_arith)
                    requires
                        0 < d <= o,
                ;
                assert(q == (d * 100) / o);
            }
            q as u64
        } else {
            0
        };
        Ok(
            StatisticsData {
                total_original_bytes: total_original,
                total_processed_bytes: total_processed,
                total_compressions,
                compression_ratio,
                total_keys: self.keys.len(),
            },
        )
    }
}

impl ApiKeyData {
    /// A fresh record for a key, with zeroed counters.
    pub fn new(key: String, created_at: String) -> (r: Self)
        ensures
            r.key == key,
            r.total_bytes_processed == 0,
            r.total_original_bytes == 0,
            r.total_processed_bytes == 0,
            r.compression_count == 0,
            r.created_at == created_at,
            r.last_used is None,
    {
        ApiKeyData {
            key,
            total_bytes_processed: 0,
            total_original_bytes: 0,
            total_processed_bytes: 0,
            compression_count: 0,
            created_at,
            last_used: None,
        }
    }

    /// Adds one use to the record's counters, saturating at the
    /// counter maximum, and stamps the time of use.
    pub fn add_usage(&mut self, original_bytes: u64, processed_bytes: u64)
        ensures
            final(self).key == old(self).key,
            final(self).created_at == old(self).created_at,
            final(self).total_bytes_processed == sat_add64(
                old(self).total_bytes_processed,
                original_bytes,
            ),
            final(self).total_original_bytes == sat_add64(
                old(self).total_original_bytes,
                original_bytes,
            ),
            final(self).total_processed_bytes == sat_add64(
                old(self).total_processed_bytes,
                processed_bytes,
            ),
            final(self).compression_count == sat_add64(old(self).compression_count, 1),
            final(self).last_used is Some,
    {
        self.total_bytes_processed = self.total_bytes_processed.saturating_add(
            original_bytes,
        );
        self.total_original_bytes = self.total_original_bytes.saturating_add(original_bytes);
        self.total_processed_bytes = self.total_processed_bytes.saturating_add(
            processed_bytes,
        );
        self.compression_count = self.compression_count.saturating_add(1);
        self.last_used = Some(now_rfc3339());
    }
}

} // verus!
