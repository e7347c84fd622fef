use vstd::prelude::*;
use crate::address::Address;
use crate::pools::AccountData;
use crate::pools::PoolInfo;
use crate::error::BotError;
use crate::pump::PumpDex;
use crate::raydium::RaydiumDex;

verus! {

/// The 32 bytes of `data` starting at `off`: one address field of a binary
/// account layout.
pub open spec fn spec_field(data: Seq<u8>, off: int) -> Seq<u8> {
    data.subrange(off, off + 32)
}

/// Reads one 32-byte address field out of a raw account buffer.
pub fn read_address_field(data: &Vec<u8>, off: usize) -> (r: Address)
    requires
        off + 32 <= data@.len(),
    ensures
        r@ == spec_field(data@, off as int),
{
    let dlen = data.len();
    let mut bytes: [u8; 32] = [0; 32];
    let mut i: usize = 0;
    while i < 32
        invariant
            dlen == data@.len(),
            off + 32 <= dlen,
            0 <= i <= 32,
            bytes@.len() == 32,
            forall|j: int| 0 <= j < i ==> bytes@[j] == data@[off + j],
        decreases 32 - i,
    {
        bytes[i] = data[off + i];
        i += 1;
    }
    proof {
        assert(bytes@ =~= spec_field(data@, off as int));
    }
    Address::new(bytes)
}

/// The capability set every exchange adapter provides: a stable name, the
/// owning program of its pool accounts, decoding of one raw pool account
/// into a `PoolInfo`, and encoding of a swap payload.
pub trait Dex: Sized {
    /// The adapter's name as a view, the value `name()` returns.
    spec fn spec_name(&self) -> Seq<char>;

    /// The owning program's address as a view, the value `program_id`
    /// returns.
    spec fn spec_program_id(&self) -> Seq<u8>;

    /// The stable name under which the registry finds this adapter.
    fn name(&self) -> (r: String)
        ensures
            r@ == self.spec_name(),
    ;

    /// The on-chain program that must own every pool account of this
    /// exchange.
    fn program_id(&self) -> (r: Address)
        ensures
            r@ == self.spec_program_id(),
    ;

    /// Encodes the swap instruction payload. Both current adapters are
    /// placeholders that encode nothing yet.
    fn get_swap_instruction_data(&self, pool_info: &PoolInfo, amount_in: u64, minimum_out: u64) -> (
        r: Result<Vec<u8>, BotError>)
        ensures
            r matches Ok(v) && v@.len() == 0,
    ;
}

/// The fixed set of adapters, dispatched as a tagged variant: the adapter
/// set is closed at build time, and the registry stores these values.
#[derive(Clone, Copy)]
pub enum DexAdapter {
    Pump(PumpDex),
    Raydium(RaydiumDex),
}

impl DexAdapter {
    pub open spec fn spec_name(self) -> Seq<char> {
        match self {
            DexAdapter::Pump(d) => d.spec_name(),
            DexAdapter::Raydium(d) => d.spec_name(),
        }
    }

    pub open spec fn spec_program_id(self) -> Seq<u8> {
        match self {
            DexAdapter::Pump(d) => d.spec_program_id(),
            DexAdapter::Raydium(d) => d.spec_program_id(),
        }
    }

    pub fn name(&self) -> (r: String)
        ensures
            r@ == self.spec_name(),
    {
        match self {
            DexAdapter::Pump(d) => d.name(),
            DexAdapter::Raydium(d) => d.name(),
        }
    }

    pub fn program_id(&self) -> (r: Address)
        ensures
            r@ == self.spec_program_id(),
    {
        match self {
            DexAdapter::Pump(d) => d.program_id(),
            DexAdapter::Raydium(d) => d.program_id(),
        }
    }
}

pub open spec fn reg_contains(s: Seq<DexAdapter>, name: Seq<char>) -> bool {
    exists|i: int| 0 <= i < s.len() && s[i].spec_name() == name
}

pub open spec fn reg_entry(s: Seq<DexAdapter>, name: Seq<char>) -> DexAdapter {
    s[choose|i: int| 0 <= i < s.len() && s[i].spec_name() == name]
}

pub open spec fn reg_wf(s: Seq<DexAdapter>) -> bool {
    forall|i: int, j: int| 0 <= i < j < s.len() ==> s[i].spec_name() != s[j].spec_name()
}

proof fn lemma_reg_at(s: Seq<DexAdapter>, i: int)
    requires
        reg_wf(s),
        0 <= i < s.len(),
    ensures
        reg_contains(s, s[i].spec_name()),
        reg_entry(s, s[i].spec_name()) == s[i],
{
    assert(reg_contains(s, s[i].spec_name()));
    let c = choose|c: int| 0 <= c < s.len() && s[c].spec_name() == s[i].spec_name();
    if c != i {
        if c < i {
            assert(s[c].spec_name() != s[i].spec_name());
        } else {
            assert(s[i].spec_name() != s[c].spec_name());
        }
        assert(false);
    }
}

/// Name-keyed collection of adapters; the orchestrator looks adapters up by
/// exchange name instead of hardcoding types. Re-registering a name
/// replaces the previous adapter.
pub struct DexRegistry {
    dexes: Vec<DexAdapter>,
}

impl DexRegistry {
    #[verifier::type_invariant]
    closed spec fn wf(self) -> bool {
        reg_wf(self.dexes@)
    }

    pub closed spec fn spec_has(self, name: Seq<char>) -> bool {
        reg_contains(self.dexes@, name)
    }

    pub closed spec fn spec_get(self, name: Seq<char>) -> DexAdapter {
        reg_entry(self.dexes@, name)
    }

    pub closed spec fn spec_all(self) -> Seq<DexAdapter> {
        self.dexes@
    }

    pub fn new() -> (r: DexRegistry)
        ensures
            r.spec_all().len() == 0,
            forall|n: Seq<char>| !r.spec_has(n),
    {
        DexRegistry { dexes: Vec::new() }
    }

    /// Adds `dex` under its name, replacing any adapter already registered
    /// under that name; every other name is untouched. A replacement keeps
    /// the adapter list's length, a new name extends it by one, so the
    /// list always holds one adapter per distinct name ever registered.
    pub fn register(&mut self, dex: DexAdapter)
        ensures
            final(self).spec_has(dex.spec_name()),
            final(self).spec_get(dex.spec_name()) == dex,
            forall|n: Seq<char>|
                n != dex.spec_name() ==> #[trigger] final(self).spec_has(n) == old(self).spec_has(
                    n,
                ),
            forall|n: Seq<char>|
                n != dex.spec_name() && old(self).spec_has(n) ==> #[trigger] final(self).spec_get(
                    n,
                ) == old(self).spec_get(n),
            old(self).spec_has(dex.spec_name()) ==> exists|i: int|
                0 <= i < old(self).spec_all().len() && old(self).spec_all()[i].spec_name()
                    == dex.spec_name() && final(self).spec_all() == old(self).spec_all().update(
                    i,
                    dex,
                ),
            !old(self).spec_has(dex.spec_name()) ==> final(self).spec_all() == old(
                self,
            ).spec_all().push(dex),
    {
        proof {
            use_type_invariant(&*self);
        }
        let mut rows: Vec<DexAdapter> = Vec::new();
        core::mem::swap(&mut rows, &mut self.dexes);
        let ghost s0 = rows@;
        let name = dex.name();
        let n = rows.len();
        let mut i: usize = 0;
        while i < n
            invariant
                n == rows@.len(),
                0 <= i <= n,
                rows@ == s0,
                old(self).dexes@ == s0,
                reg_wf(s0),
                name@ == dex.spec_name(),
                forall|j: int| 0 <= j < i ==> s0[j].spec_name() != dex.spec_name(),
            decreases n - i,
        {
            if rows[i].name() == name {
                proof {
                    lemma_reg_update(s0, i as int, dex);
                }
                rows[i] = dex;
                self.dexes = rows;
                proof {
                    assert(old(self).spec_all() == s0);
                    assert(self.spec_all() == s0.update(i as int, dex));
                    assert((i as int) < s0.len() && s0[i as int].spec_name()
                        == dex.spec_name());
                }
                return ;
            }
            i += 1;
        }
        proof {
            lemma_reg_push(s0, dex);
        }
        rows.push(dex);
        self.dexes = rows;
    }

    /// Looks an adapter up by exchange name.
    pub fn get(&self, name: &str) -> (r: Option<&DexAdapter>)
        ensures
            r is Some <==> self.spec_has(name@),
            r matches Some(d) ==> *d == self.spec_get(name@),
    {
        proof {
            use_type_invariant(self);
        }
        let key: String = name.to_owned();
        let n = self.dexes.len();
        let mut i: usize = 0;
        while i < n
            invariant
                n == self.dexes@.len(),
                0 <= i <= n,
                reg_wf(self.dexes@),
                key@ == name@,
                forall|j: int| 0 <= j < i ==> self.dexes@[j].spec_name() != name@,
            decreases n - i,
        {
            if self.dexes[i].name() == key {
                proof {
                    lemma_reg_at(self.dexes@, i as int);
                }
                return Some(&self.dexes[i]);
            }
            i += 1;
        }
        proof {
            assert(!self.spec_has(name@));
        }
        None
    }

    /// Every registered adapter, in registration order.
    pub fn all_dexes(&self) -> (r: Vec<&DexAdapter>)
        ensures
            r@.len() == self.spec_all().len(),
            forall|i: int| 0 <= i < r@.len() ==> *r@[i] == self.spec_all()[i],
    {
        let n = self.dexes.len();
        let mut out: Vec<&DexAdapter> = Vec::new();
        let mut i: usize = 0;
        while i < n
            invariant
                n == self.dexes@.len(),
                0 <= i <= n,
                out@.len() == i,
                forall|j: int| 0 <= j < i ==> *out@[j] == self.dexes@[j],
            decreases n - i,
        {
            out.push(&self.dexes[i]);
            i += 1;
        }
        out
    }
}

proof fn lemma_reg_update(s0: Seq<DexAdapter>, i: int, d: DexAdapter)
    requires
        reg_wf(s0),
        0 <= i < s0.len(),
        s0[i].spec_name() == d.spec_name(),
    ensures
        reg_wf(s0.update(i, d)),
        reg_contains(s0.update(i, d), d.spec_name()),
        reg_entry(s0.update(i, d), d.spec_name()) == d,
        forall|n: Seq<char>|
            n != d.spec_name() ==> #[trigger] reg_contains(s0.update(i, d), n) == reg_contains(
                s0,
                n,
            ),
        forall|n: Seq<char>|
            n != d.spec_name() && reg_contains(s0, n) ==> #[trigger] reg_entry(s0.update(i, d), n)
                == reg_entry(s0, n),
{
    let s1 = s0.update(i, d);
    assert forall|a: int, b: int| 0 <= a < b < s1.len() implies s1[a].spec_name()
        != s1[b].spec_name() by {
        assert(s0[a].spec_name() != s0[b].spec_name());
    }
    lemma_reg_at(s1, i);
    assert forall|n: Seq<char>| n != d.spec_name() implies #[trigger] reg_contains(s1, n)
        == reg_contains(s0, n) by {
        if reg_contains(s1, n) {
            let c = choose|c: int| 0 <= c < s1.len() && s1[c].spec_name() == n;
            assert(c != i);
            assert(s0[c] == s1[c]);
        }
        if reg_contains(s0, n) {
            let c = choose|c: int| 0 <= c < s0.len() && s0[c].spec_name() == n;
            assert(c != i);
            assert(s1[c] == s0[c]);
        }
    }
    assert forall|n: Seq<char>|
        n != d.spec_name() && reg_contains(s0, n) implies #[trigger] reg_entry(s1, n) == reg_entry(
        s0,
        n,
    ) by {
        let c = choose|c: int| 0 <= c < s0.len() && s0[c].spec_name() == n;
        assert(c != i);
        assert(s1[c] == s0[c]);
        lemma_reg_at(s0, c);
        lemma_reg_at(s1, c);
    }
}

proof fn lemma_reg_push(s0: Seq<DexAdapter>, d: DexAdapter)
    requires
        reg_wf(s0),
        !reg_contains(s0, d.spec_name()),
    ensures
        reg_wf(s0.push(d)),
        reg_contains(s0.push(d), d.spec_name()),
        reg_entry(s0.push(d), d.spec_name()) == d,
        forall|n: Seq<char>|
            n != d.spec_name() ==> #[trigger] reg_contains(s0.push(d), n) == reg_contains(s0, n),
        forall|n: Seq<char>|
            n != d.spec_name() && reg_contains(s0, n) ==> #[trigger] reg_entry(s0.push(d), n)
                == reg_entry(s0, n),
{
    let s1 = s0.push(d);
    let ln = s0.len() as int;
    assert forall|a: int, b: int| 0 <= a < b < s1.len() implies s1[a].spec_name()
        != s1[b].spec_name() by {
        if b < ln {
            assert(s0[a].spec_name() != s0[b].spec_name());
        } else {
            assert(s1[b] == d);
            assert(s1[a] == s0[a]);
        }
    }
    lemma_reg_at(s1, ln);
    assert forall|n: Seq<char>| n != d.spec_name() implies #[trigger] reg_contains(s1, n)
        == reg_contains(s0, n) by {
        if reg_contains(s1, n) {
            let c = choose|c: int| 0 <= c < s1.len() && s1[c].spec_name() == n;
            assert(c != ln);
            assert(s0[c] == s1[c]);
        }
        if reg_contains(s0, n) {
            let c = choose|c: int| 0 <= c < s0.len() && s0[c].spec_name() == n;
            assert(s1[c] == s0[c]);
        }
    }
    assert forall|n: Seq<char>|
        n != d.spec_name() && reg_contains(s0, n) implies #[trigger] reg_entry(s1, n) == reg_entry(
        s0,
        n,
    ) by {
        let c = choose|c: int| 0 <= c < s0.len() && s0[c].spec_name() == n;
        assert(s1[c] == s0[c]);
        lemma_reg_at(s0, c);
        lemma_reg_at(s1, c);
    }
}

/// The result of reading one pool account: what the Account Reader handed
/// back, or the error text it failed with.
pub enum PoolAccountResult {
    Read(AccountData),
    Failed(String),
}

} // verus!
