use vstd::prelude::*;
use crate::pools::MintPoolData;
use crate::pools::pool_data_eq;

verus! {

/// An entry stamped at `stamp` is still live at `now` when its age is below
/// `ttl` seconds.
pub open spec fn spec_entry_live(stamp: u64, now: u64, ttl: u64) -> bool {
    (now as int) < stamp + ttl
}

/// Returns whether an entry stamped at `stamp` is still live at `now`.
pub fn entry_live(stamp: u64, now: u64, ttl: u64) -> (r: bool)
    ensures
        r == spec_entry_live(stamp, now, ttl),
{
    if now >= stamp {
        now - stamp < ttl
    } else {
        true
    }
}

/// One cached aggregate together with the time it was stored.
pub struct CacheEntry {
    pub data: MintPoolData,
    pub timestamp: u64,
}

type Row = (String, String, CacheEntry);

pub open spec fn list_contains(s: Seq<Row>, mint: Seq<char>, wallet: Seq<char>) -> bool {
    exists|i: int| 0 <= i < s.len() && s[i].0@ == mint && s[i].1@ == wallet
}

pub open spec fn list_entry(s: Seq<Row>, mint: Seq<char>, wallet: Seq<char>) -> CacheEntry {
    s[choose|i: int| 0 <= i < s.len() && s[i].0@ == mint && s[i].1@ == wallet].2
}

pub open spec fn list_wf(s: Seq<Row>) -> bool {
    forall|i: int, j: int| 0 <= i < j < s.len() ==> !(s[i].0@ == s[j].0@ && s[i].1@ == s[j].1@)
}

/// How many entries of `s` are already expired at `now`.
pub open spec fn count_expired(s: Seq<Row>, ttl: u64, now: u64) -> nat
    decreases s.len(),
{
    if s.len() == 0 {
        0
    } else {
        count_expired(s.drop_last(), ttl, now) + if !spec_entry_live(
            s.last().2.timestamp,
            now,
            ttl,
        ) {
            1nat
        } else {
            0nat
        }
    }
}

proof fn lemma_entry_at(s: Seq<Row>, i: int)
    requires
        list_wf(s),
        0 <= i < s.len(),
    ensures
        list_contains(s, s[i].0@, s[i].1@),
        list_entry(s, s[i].0@, s[i].1@) == s[i].2,
{
    assert(list_contains(s, s[i].0@, s[i].1@));
    let c = choose|c: int| 0 <= c < s.len() && s[c].0@ == s[i].0@ && s[c].1@ == s[i].1@;
    if c != i {
        if c < i {
            assert(!(s[c].0@ == s[i].0@ && s[c].1@ == s[i].1@));
        } else {
            assert(!(s[i].0@ == s[c].0@ && s[i].1@ == s[c].1@));
        }
        assert(false);
    }
}

/// Replacing the row at `i` by one with the same key touches no other key.
proof fn lemma_update_row(s0: Seq<Row>, i: int, row: Row)
    requires
        list_wf(s0),
        0 <= i < s0.len(),
        row.0@ == s0[i].0@,
        row.1@ == s0[i].1@,
    ensures
        list_wf(s0.update(i, row)),
        list_contains(s0.update(i, row), row.0@, row.1@),
        list_entry(s0.update(i, row), row.0@, row.1@) == row.2,
        forall|m: Seq<char>, w: Seq<char>|
            !(m == row.0@ && w == row.1@) ==> #[trigger] list_contains(s0.update(i, row), m, w)
                == list_contains(s0, m, w),
        forall|m: Seq<char>, w: Seq<char>|
            !(m == row.0@ && w == row.1@) && list_contains(s0, m, w) ==> #[trigger] list_entry(
                s0.update(i, row),
                m,
                w,
            ) == list_entry(s0, m, w),
{
    let s1 = s0.update(i, row);
    assert forall|a: int, b: int| 0 <= a < b < s1.len() implies !(s1[a].0@ == s1[b].0@ && s1[a].1@
        == s1[b].1@) by {
        assert(!(s0[a].0@ == s0[b].0@ && s0[a].1@ == s0[b].1@));
    }
    lemma_entry_at(s1, i);
    assert forall|m: Seq<char>, w: Seq<char>| !(m == row.0@ && w == row.1@) implies #[trigger] list_contains(
        s1,
        m,
        w,
    ) == list_contains(s0, m, w) by {
        if list_contains(s1, m, w) {
            let c = choose|c: int| 0 <= c < s1.len() && s1[c].0@ == m && s1[c].1@ == w;
            assert(c != i);
            assert(s0[c] == s1[c]);
        }
        if list_contains(s0, m, w) {
            let c = choose|c: int| 0 <= c < s0.len() && s0[c].0@ == m && s0[c].1@ == w;
            assert(c != i);
            assert(s1[c] == s0[c]);
        }
    }
    assert forall|m: Seq<char>, w: Seq<char>|
        !(m == row.0@ && w == row.1@) && list_contains(s0, m, w) implies #[trigger] list_entry(
        s1,
        m,
        w,
    ) == list_entry(s0, m, w) by {
        let c = choose|c: int| 0 <= c < s0.len() && s0[c].0@ == m && s0[c].1@ == w;
        assert(c != i);
        assert(s1[c] == s0[c]);
        lemma_entry_at(s0, c);
        lemma_entry_at(s1, c);
    }
}

/// Appending a row whose key is absent touches no other key.
proof fn lemma_push_row(s0: Seq<Row>, row: Row)
    requires
        list_wf(s0),
        !list_contains(s0, row.0@, row.1@),
    ensures
        list_wf(s0.push(row)),
        list_contains(s0.push(row), row.0@, row.1@),
        list_entry(s0.push(row), row.0@, row.1@) == row.2,
        forall|m: Seq<char>, w: Seq<char>|
            !(m == row.0@ && w == row.1@) ==> #[trigger] list_contains(s0.push(row), m, w)
                == list_contains(s0, m, w),
        forall|m: Seq<char>, w: Seq<char>|
            !(m == row.0@ && w == row.1@) && list_contains(s0, m, w) ==> #[trigger] list_entry(
                s0.push(row),
                m,
                w,
            ) == list_entry(s0, m, w),
{
    let s1 = s0.push(row);
    let n = s0.len() as int;
    assert forall|a: int, b: int| 0 <= a < b < s1.len() implies !(s1[a].0@ == s1[b].0@ && s1[a].1@
        == s1[b].1@) by {
        if b < n {
            assert(!(s0[a].0@ == s0[b].0@ && s0[a].1@ == s0[b].1@));
        } else {
            assert(s1[b] == row);
            assert(s1[a] == s0[a]);
        }
    }
    lemma_entry_at(s1, n);
    assert forall|m: Seq<char>, w: Seq<char>| !(m == row.0@ && w == row.1@) implies #[trigger] list_contains(
        s1,
        m,
        w,
    ) == list_contains(s0, m, w) by {
        if list_contains(s1, m, w) {
            let c = choose|c: int| 0 <= c < s1.len() && s1[c].0@ == m && s1[c].1@ == w;
            assert(c != n);
            assert(s0[c] == s1[c]);
        }
        if list_contains(s0, m, w) {
            let c = choose|c: int| 0 <= c < s0.len() && s0[c].0@ == m && s0[c].1@ == w;
            assert(s1[c] == s0[c]);
        }
    }
    assert forall|m: Seq<char>, w: Seq<char>|
        !(m == row.0@ && w == row.1@) && list_contains(s0, m, w) implies #[trigger] list_entry(
        s1,
        m,
        w,
    ) == list_entry(s0, m, w) by {
        let c = choose|c: int| 0 <= c < s0.len() && s0[c].0@ == m && s0[c].1@ == w;
        assert(s1[c] == s0[c]);
        lemma_entry_at(s0, c);
        lemma_entry_at(s1, c);
    }
}

/// `r` occurs among the rows of `s0` at position `lo` or later and is live.
spec fn in_live_suffix(s0: Seq<Row>, r: Row, lo: int, ttl: u64, now: u64) -> bool {
    exists|j: int|
        #![trigger s0[j]]
        lo <= j < s0.len() && r == s0[j] && spec_entry_live(s0[j].2.timestamp, now, ttl)
}

/// `r` occurs among the rows of `kept`.
spec fn kept_has(kept: Seq<Row>, r: Row) -> bool {
    exists|k: int| #![trigger kept[k]] 0 <= k < kept.len() && kept[k] == r
}

/// The rows kept so far all stem from live rows of `s0` at positions `lo`
/// or later.
spec fn kept_sound(s0: Seq<Row>, kept: Seq<Row>, lo: int, ttl: u64, now: u64) -> bool {
    forall|k: int|
        #![trigger kept[k]]
        0 <= k < kept.len() ==> in_live_suffix(s0, kept[k], lo, ttl, now)
}

/// Every live row of `s0` at position `lo` or later has been kept.
spec fn kept_complete(s0: Seq<Row>, kept: Seq<Row>, lo: int, ttl: u64, now: u64) -> bool {
    forall|j: int|
        #![trigger s0[j]]
        lo <= j < s0.len() && spec_entry_live(s0[j].2.timestamp, now, ttl) ==> kept_has(
            kept,
            s0[j],
        )
}

proof fn lemma_suffix_widen(s0: Seq<Row>, r: Row, lo1: int, lo2: int, ttl: u64, now: u64)
    requires
        in_live_suffix(s0, r, lo1, ttl, now),
        lo2 <= lo1,
    ensures
        in_live_suffix(s0, r, lo2, ttl, now),
{
    let j = choose|j: int|
        #![trigger s0[j]]
        lo1 <= j < s0.len() && r == s0[j] && spec_entry_live(s0[j].2.timestamp, now, ttl);
    assert(lo2 <= j < s0.len() && r == s0[j] && spec_entry_live(s0[j].2.timestamp, now, ttl));
}

proof fn lemma_kept_has_push(kept: Seq<Row>, r: Row, x: Row)
    requires
        kept_has(kept, r),
    ensures
        kept_has(kept.push(x), r),
{
    let k = choose|k: int| #![trigger kept[k]] 0 <= k < kept.len() && kept[k] == r;
    assert(kept.push(x)[k] == r);
}

proof fn lemma_sweep_init(s0: Seq<Row>, ttl: u64, now: u64)
    ensures
        kept_sound(s0, Seq::<Row>::empty(), s0.len() as int, ttl, now),
        kept_complete(s0, Seq::<Row>::empty(), s0.len() as int, ttl, now),
{
}

proof fn lemma_sweep_keep(s0: Seq<Row>, kept: Seq<Row>, j: int, ttl: u64, now: u64)
    requires
        list_wf(s0),
        list_wf(kept),
        0 <= j < s0.len(),
        spec_entry_live(s0[j].2.timestamp, now, ttl),
        kept_sound(s0, kept, j + 1, ttl, now),
        kept_complete(s0, kept, j + 1, ttl, now),
    ensures
        kept_sound(s0, kept.push(s0[j]), j, ttl, now),
        kept_complete(s0, kept.push(s0[j]), j, ttl, now),
        list_wf(kept.push(s0[j])),
{
    let k1 = kept.push(s0[j]);
    assert forall|a: int, b: int| 0 <= a < b < k1.len() implies !(k1[a].0@ == k1[b].0@ && k1[a].1@
        == k1[b].1@) by {
        if b == kept.len() {
            assert(k1[a] == kept[a]);
            let ja = choose|ja: int|
                #![trigger s0[ja]]
                j + 1 <= ja < s0.len() && kept[a] == s0[ja] && spec_entry_live(
                    s0[ja].2.timestamp,
                    now,
                    ttl,
                );
            assert(!(s0[j].0@ == s0[ja].0@ && s0[j].1@ == s0[ja].1@));
        } else {
            assert(k1[a] == kept[a] && k1[b] == kept[b]);
        }
    }
    assert forall|k: int| #![trigger k1[k]] 0 <= k < k1.len() implies in_live_suffix(
        s0,
        k1[k],
        j,
        ttl,
        now,
    ) by {
        if k == kept.len() {
            assert(k1[k] == s0[j]);
            assert(in_live_suffix(s0, s0[j], j, ttl, now));
        } else {
            assert(k1[k] == kept[k]);
            assert(in_live_suffix(s0, kept[k], j + 1, ttl, now));
            lemma_suffix_widen(s0, kept[k], j + 1, j, ttl, now);
        }
    }
    assert forall|jj: int| #![trigger s0[jj]]
        j <= jj < s0.len() && spec_entry_live(s0[jj].2.timestamp, now, ttl) implies kept_has(
        k1,
        s0[jj],
    ) by {
        if jj == j {
            assert(k1[kept.len() as int] == s0[j]);
        } else {
            assert(kept_has(kept, s0[jj]));
            lemma_kept_has_push(kept, s0[jj], s0[j]);
        }
    }
}

proof fn lemma_sweep_skip(s0: Seq<Row>, kept: Seq<Row>, j: int, ttl: u64, now: u64)
    requires
        0 <= j < s0.len(),
        !spec_entry_live(s0[j].2.timestamp, now, ttl),
        kept_sound(s0, kept, j + 1, ttl, now),
        kept_complete(s0, kept, j + 1, ttl, now),
    ensures
        kept_sound(s0, kept, j, ttl, now),
        kept_complete(s0, kept, j, ttl, now),
{
    assert forall|k: int| #![trigger kept[k]] 0 <= k < kept.len() implies in_live_suffix(
        s0,
        kept[k],
        j,
        ttl,
        now,
    ) by {
        assert(in_live_suffix(s0, kept[k], j + 1, ttl, now));
        lemma_suffix_widen(s0, kept[k], j + 1, j, ttl, now);
    }
    assert forall|jj: int| #![trigger s0[jj]]
        j <= jj < s0.len() && spec_entry_live(s0[jj].2.timestamp, now, ttl) implies kept_has(
        kept,
        s0[jj],
    ) by {
        assert(jj != j);
    }
}

proof fn lemma_sweep_final(s0: Seq<Row>, kept: Seq<Row>, ttl: u64, now: u64)
    requires
        list_wf(s0),
        list_wf(kept),
        kept_sound(s0, kept, 0, ttl, now),
        kept_complete(s0, kept, 0, ttl, now),
    ensures
        forall|m: Seq<char>, w: Seq<char>| #[trigger]
            list_contains(kept, m, w) <==> (list_contains(s0, m, w) && spec_entry_live(
                list_entry(s0, m, w).timestamp,
                now,
                ttl,
            )),
        forall|m: Seq<char>, w: Seq<char>|
            list_contains(kept, m, w) ==> #[trigger] list_entry(kept, m, w) == list_entry(
                s0,
                m,
                w,
            ),
{
    assert forall|m: Seq<char>, w: Seq<char>| #[trigger] list_contains(kept, m, w) implies (
    list_contains(s0, m, w) && spec_entry_live(list_entry(s0, m, w).timestamp, now, ttl)
        && list_entry(kept, m, w) == list_entry(s0, m, w)) by {
        let k = choose|k: int| 0 <= k < kept.len() && kept[k].0@ == m && kept[k].1@ == w;
        assert(in_live_suffix(s0, kept[k], 0, ttl, now));
        let j = choose|j: int|
            #![trigger s0[j]]
            0 <= j < s0.len() && kept[k] == s0[j] && spec_entry_live(s0[j].2.timestamp, now, ttl);
        lemma_entry_at(s0, j);
        lemma_entry_at(kept, k);
    }
    assert forall|m: Seq<char>, w: Seq<char>|
        list_contains(s0, m, w) && spec_entry_live(
            list_entry(s0, m, w).timestamp,
            now,
            ttl,
        ) implies #[trigger] list_contains(kept, m, w) by {
        let j = choose|j: int| 0 <= j < s0.len() && s0[j].0@ == m && s0[j].1@ == w;
        lemma_entry_at(s0, j);
        assert(kept_has(kept, s0[j]));
        let k = choose|k: int| #![trigger kept[k]] 0 <= k < kept.len() && kept[k] == s0[j];
        assert(kept[k].0@ == m && kept[k].1@ == w);
    }
}

/// Keyed store of previously assembled aggregates with age-based
/// invalidation. Keys `(mint, wallet)` are unique; reads never evict.
pub struct PoolDataCache {
    entries: Vec<Row>,
}

impl PoolDataCache {
    #[verifier::type_invariant]
    closed spec fn wf(self) -> bool {
        list_wf(self.entries@)
    }

    /// Whether an entry (live or stale) is stored under `(mint, wallet)`.
    pub closed spec fn spec_contains(self, mint: Seq<char>, wallet: Seq<char>) -> bool {
        list_contains(self.entries@, mint, wallet)
    }

    /// The entry stored under `(mint, wallet)`, meaningful when
    /// `spec_contains` holds.
    pub closed spec fn spec_entry(self, mint: Seq<char>, wallet: Seq<char>) -> CacheEntry {
        list_entry(self.entries@, mint, wallet)
    }

    pub closed spec fn spec_len(self) -> nat {
        self.entries@.len()
    }

    /// How many stored entries are already expired at `now`.
    pub closed spec fn spec_expired(self, ttl: u64, now: u64) -> nat {
        count_expired(self.entries@, ttl, now)
    }

    /// Whether a live entry is stored under `(mint, wallet)` at `now`.
    pub open spec fn spec_live(self, mint: Seq<char>, wallet: Seq<char>, ttl: u64, now: u64) -> bool {
        self.spec_contains(mint, wallet) && spec_entry_live(
            self.spec_entry(mint, wallet).timestamp,
            now,
            ttl,
        )
    }

    pub fn new() -> (r: PoolDataCache)
        ensures
            r.spec_len() == 0,
            forall|m: Seq<char>, w: Seq<char>| !r.spec_contains(m, w),
    {
        PoolDataCache { entries: Vec::new() }
    }

    /// Returns a value-copy snapshot of the entry under `(mint, wallet)` if
    /// one exists and its age is below `ttl`; a stale entry is treated as
    /// absent and left in place.
    pub fn get(&self, mint: &String, wallet: &String, ttl: u64, now: u64) -> (r: Option<
        MintPoolData,
    >)
        ensures
            r is Some <==> self.spec_live(mint@, wallet@, ttl, now),
            r matches Some(d) ==> pool_data_eq(d, self.spec_entry(mint@, wallet@).data),
    {
        proof {
            use_type_invariant(self);
        }
        let n = self.entries.len();
        let mut i: usize = 0;
        while i < n
            invariant
                n == self.entries@.len(),
                0 <= i <= n,
                list_wf(self.entries@),
                forall|j: int|
                    0 <= j < i ==> !(self.entries@[j].0@ == mint@ && self.entries@[j].1@
                        == wallet@),
            decreases n - i,
        {
            if self.entries[i].0 == *mint && self.entries[i].1 == *wallet {
                proof {
                    lemma_entry_at(self.entries@, i as int);
                }
                let row = &self.entries[i];
                if entry_live(row.2.timestamp, now, ttl) {
                    return Some(row.2.data.duplicate());
                } else {
                    return None;
                }
            }
            i += 1;
        }
        proof {
            assert(!self.spec_contains(mint@, wallet@));
        }
        None
    }

    /// Inserts or overwrites the entry under `(mint, wallet)`, stamping it
    /// with `now`; every other key is left untouched.
    pub fn put(&mut self, mint: String, wallet: String, data: MintPoolData, now: u64)
        ensures
            final(self).spec_contains(mint@, wallet@),
            pool_data_eq(final(self).spec_entry(mint@, wallet@).data, data),
            final(self).spec_entry(mint@, wallet@).timestamp == now,
            forall|m: Seq<char>, w: Seq<char>|
                !(m == mint@ && w == wallet@) ==> #[trigger] final(self).spec_contains(m, w)
                    == old(self).spec_contains(m, w),
            forall|m: Seq<char>, w: Seq<char>|
                !(m == mint@ && w == wallet@) && old(self).spec_contains(m, w)
                    ==> #[trigger] final(self).spec_entry(m, w) == old(self).spec_entry(m, w),
    {
        proof {
            use_type_invariant(&*self);
        }
        let mut rows: Vec<Row> = Vec::new();
        core::mem::swap(&mut rows, &mut self.entries);
        let ghost s0 = rows@;
        let n = rows.len();
        let mut i: usize = 0;
        while i < n
            invariant
                n == rows@.len(),
                0 <= i <= n,
                rows@ == s0,
                old(self).entries@ == s0,
                list_wf(s0),
                forall|j: int| 0 <= j < i ==> !(s0[j].0@ == mint@ && s0[j].1@ == wallet@),
            decreases n - i,
        {
            if rows[i].0 == mint && rows[i].1 == wallet {
                let row = (mint, wallet, CacheEntry { data, timestamp: now });
                proof {
                    lemma_update_row(s0, i as int, row);
                }
                rows[i] = row;
                self.entries = rows;
                return ;
            }
            i += 1;
        }
        let row = (mint, wallet, CacheEntry { data, timestamp: now });
        proof {
            lemma_push_row(s0, row);
        }
        rows.push(row);
        self.entries = rows;
    }

    /// Removes every entry whose age has reached `ttl`; live entries are
    /// kept unchanged.
    pub fn sweep(&mut self, ttl: u64, now: u64)
        ensures
            forall|m: Seq<char>, w: Seq<char>| #[trigger]
                final(self).spec_contains(m, w) <==> old(self).spec_live(m, w, ttl, now),
            forall|m: Seq<char>, w: Seq<char>|
                final(self).spec_contains(m, w) ==> #[trigger] final(self).spec_entry(m, w) == old(
                    self,
                ).spec_entry(m, w),
    {
        proof {
            use_type_invariant(&*self);
        }
        let ghost s0 = self.entries@;
        let mut taken: Vec<Row> = Vec::new();
        core::mem::swap(&mut taken, &mut self.entries);
        let mut kept: Vec<Row> = Vec::new();
        proof {
            lemma_sweep_init(s0, ttl, now);
            assert(taken@ =~= s0.take(taken@.len() as int));
        }
        while taken.len() > 0
            invariant
                taken@.len() <= s0.len(),
                taken@ == s0.take(taken@.len() as int),
                old(self).entries@ == s0,
                list_wf(s0),
                list_wf(kept@),
                kept_sound(s0, kept@, taken@.len() as int, ttl, now),
                kept_complete(s0, kept@, taken@.len() as int, ttl, now),
            decreases taken@.len(),
        {
            let ghost t0 = taken@;
            let ghost j = taken@.len() - 1;
            let row = match taken.pop() {
                Some(row) => row,
                None => {
                    // unreachable: the loop condition saw a nonempty list
                    proof {
                        assert(false);
                    }
                    return ;
                },
            };
            proof {
                assert(t0 == s0.take(t0.len() as int));
                assert(t0[j] == s0[j]);
                assert(row == s0[j]);
                assert(taken@ =~= s0.take(j));
            }
            if entry_live(row.2.timestamp, now, ttl) {
                proof {
                    lemma_sweep_keep(s0, kept@, j, ttl, now);
                }
                kept.push(row);
            } else {
                proof {
                    lemma_sweep_skip(s0, kept@, j, ttl, now);
                }
            }
        }
        proof {
            assert(taken@.len() == 0);
            lemma_sweep_final(s0, kept@, ttl, now);
        }
        self.entries = kept;
    }

    /// TTL determinism: an entry stamped at `t` answers every `get` whose
    /// clock reads less than `t + ttl`, and no `get` at or past `t + ttl`,
    /// whatever else the cache holds. Together with the contract of `get`
    /// (which returns a value exactly when `spec_live` holds) this pins
    /// the boundary on both sides.
    pub proof fn lemma_ttl_determinism(
        self,
        mint: Seq<char>,
        wallet: Seq<char>,
        ttl: u64,
        before: u64,
        after: u64,
    )
        requires
            self.spec_contains(mint, wallet),
            (before as int) < self.spec_entry(mint, wallet).timestamp + ttl,
            (after as int) >= self.spec_entry(mint, wallet).timestamp + ttl,
        ensures
            self.spec_live(mint, wallet, ttl, before),
            !self.spec_live(mint, wallet, ttl, after),
    {
    }

    /// `(total entries, expired-but-present entries)` at `now`.
    pub fn stats(&self, ttl: u64, now: u64) -> (r: (usize, usize))
        ensures
            r.0 == self.spec_len(),
            r.1 == self.spec_expired(ttl, now),
    {
        let n = self.entries.len();
        let mut expired: usize = 0;
        let mut i: usize = 0;
        while i < n
            invariant
                n == self.entries@.len(),
                0 <= i <= n,
                expired == count_expired(self.entries@.take(i as int), ttl, now),
                expired <= i,
            decreases n - i,
        {
            proof {
                assert(self.entries@.take(i + 1).drop_last() =~= self.entries@.take(i as int));
                assert(self.entries@.take(i + 1).last() == self.entries@[i as int]);
            }
            if !entry_live(self.entries[i].2.timestamp, now, ttl) {
                expired += 1;
            }
            i += 1;
        }
        proof {
            assert(self.entries@.take(n as int) =~= self.entries@);
        }
        (n, expired)
    }
}

} // verus!
