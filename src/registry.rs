//! The factory's registry of curves: one record per token denomination, kept
//! unique by denomination and by curve address, and read in pages ordered
//! by an index (denomination, creator, status, price or liquidity) from the
//! highest key down, each page starting strictly after the last key of the
//! one before.
use crate::math::Decimal18;
use crate::types::{ContractError, FlambeSetting, FlambeStatus, ProtocolTokenInfo};
use vstd::prelude::*;
use vstd::utf8::{encode_utf8, encode_utf8_decode_utf8};

verus! {

/// The largest page a query returns.
pub const MAX_LIMIT: u32 = 30;

/// The page size when the caller gives none.
pub const DEFAULT_LIMIT: u32 = 10;

/// What the registry holds for each curve.
#[derive(Debug, PartialEq, Eq)]
pub struct FlambeBaseInfo {
    pub creator: String,
    pub flambe_address: String,
    pub flambe_setting: FlambeSetting,
    pub main_token: ProtocolTokenInfo,
    pub status: FlambeStatus,
    pub last_price: Decimal18,
    pub last_liquidity: u128,
}

impl FlambeBaseInfo {
    pub fn copy(&self) -> (r: FlambeBaseInfo)
        ensures
            r == *self,
    {
        FlambeBaseInfo {
            creator: self.creator.clone(),
            flambe_address: self.flambe_address.clone(),
            flambe_setting: self.flambe_setting.copy(),
            main_token: self.main_token.copy(),
            status: self.status,
            last_price: self.last_price,
            last_liquidity: self.last_liquidity,
        }
    }
}

/// How to pick a single curve.
#[derive(Debug, PartialEq, Eq)]
pub enum FlambeFilter {
    ByTokenDenom(String),
    ByFlambeAddr(String),
}

/// Which curves a page lists, and where it starts. A cursor is the last key
/// of the previous page: a denomination for the first three, a value and a
/// denomination for the last two.
#[allow(inconsistent_fields)]
#[derive(Debug, PartialEq, Eq)]
pub enum FlambesFilter {
    Empty { start_after: Option<String> },
    ByStatus { status: FlambeStatus, start_after: Option<String> },
    ByCreator { creator: String, start_after: Option<String> },
    ByPrice { start_after: Option<(Decimal18, String)> },
    ByLiquidity { start_after: Option<(u128, String)> },
}

/// Lexicographic order of byte strings, from position `i` on.
pub open spec fn bytes_lt_from(a: Seq<u8>, b: Seq<u8>, i: int) -> bool
    decreases a.len() - i,
{
    if i < 0 || i >= b.len() {
        false
    } else if i >= a.len() {
        true
    } else if a[i] != b[i] {
        a[i] < b[i]
    } else {
        bytes_lt_from(a, b, i + 1)
    }
}

/// Lexicographic order of byte strings, the order of keys in the store.
pub open spec fn bytes_lt(a: Seq<u8>, b: Seq<u8>) -> bool {
    bytes_lt_from(a, b, 0)
}

/// The order of index keys: by value, then by the denomination's bytes.
pub open spec fn key_lt(x: (int, Seq<u8>), y: (int, Seq<u8>)) -> bool {
    x.0 < y.0 || (x.0 == y.0 && bytes_lt(x.1, y.1))
}

/// The key of the record's denomination.
pub open spec fn pk_bytes(rec: FlambeBaseInfo) -> Seq<u8> {
    encode_utf8(rec.main_token.denom@)
}

/// The key a filter orders records by.
pub open spec fn key_of(filter: FlambesFilter, rec: FlambeBaseInfo) -> (int, Seq<u8>) {
    match filter {
        FlambesFilter::ByPrice { .. } => (rec.last_price.atomics as int, pk_bytes(rec)),
        FlambesFilter::ByLiquidity { .. } => (rec.last_liquidity as int, pk_bytes(rec)),
        _ => (0, pk_bytes(rec)),
    }
}

/// The key a page starts strictly below, if any.
pub open spec fn cursor_of(filter: FlambesFilter) -> Option<(int, Seq<u8>)> {
    match filter {
        FlambesFilter::Empty { start_after: Some(pk) } => Some((0, encode_utf8(pk@))),
        FlambesFilter::ByStatus { start_after: Some(pk), .. } => Some((0, encode_utf8(pk@))),
        FlambesFilter::ByCreator { start_after: Some(pk), .. } => Some((0, encode_utf8(pk@))),
        FlambesFilter::ByPrice { start_after: Some((v, pk)) } => Some((v.atomics as int, encode_utf8(pk@))),
        FlambesFilter::ByLiquidity { start_after: Some((v, pk)) } => Some((v as int, encode_utf8(pk@))),
        _ => None,
    }
}

/// Whether a record belongs to the filter's index at all.
pub open spec fn selects(filter: FlambesFilter, rec: FlambeBaseInfo) -> bool {
    match filter {
        FlambesFilter::ByStatus { status, .. } => rec.status == status,
        FlambesFilter::ByCreator { creator, .. } => rec.creator@ == creator@,
        _ => true,
    }
}

/// Whether a record may appear on the page: it belongs to the index and its
/// key is below the cursor.
pub open spec fn in_range(filter: FlambesFilter, rec: FlambeBaseInfo) -> bool {
    &&& selects(filter, rec)
    &&& match cursor_of(filter) {
        Some(c) => key_lt(key_of(filter, rec), c),
        None => true,
    }
}

/// The page size a query uses.
pub open spec fn page_limit(limit: Option<u32>) -> int {
    let l = match limit {
        Some(l) => l as int,
        None => DEFAULT_LIMIT as int,
    };
    if l < MAX_LIMIT { l } else { MAX_LIMIT as int }
}

/// `page` is the page of `records` that `filter` and `limit` ask for: the
/// records in range, from the highest key down, as many as the limit allows,
/// skipping none.
pub open spec fn is_page(records: Seq<FlambeBaseInfo>, filter: FlambesFilter, limit: Option<u32>, page: Seq<FlambeBaseInfo>) -> bool {
    &&& page.len() <= page_limit(limit)
    &&& forall|i: int| 0 <= i < page.len() ==> records.contains(#[trigger] page[i]) && in_range(filter, page[i])
    &&& forall|i: int, j: int| 0 <= i < j < page.len() ==> key_lt(key_of(filter, #[trigger] page[j]), key_of(filter, #[trigger] page[i]))
    &&& forall|k: int| 0 <= k < records.len() && in_range(filter, #[trigger] records[k]) && (page.len() < page_limit(limit) || (page.len() > 0 && !key_lt(key_of(filter, records[k]), key_of(filter, page.last())))) ==> page.contains(records[k])
}

proof fn lemma_bytes_lt_irreflexive(a: Seq<u8>, i: int)
    ensures
        !bytes_lt_from(a, a, i),
    decreases a.len() - i,
{
    if 0 <= i < a.len() {
        lemma_bytes_lt_irreflexive(a, i + 1);
    }
}

proof fn lemma_bytes_lt_transitive(a: Seq<u8>, b: Seq<u8>, c: Seq<u8>, i: int)
    requires
        bytes_lt_from(a, b, i),
        bytes_lt_from(b, c, i),
    ensures
        bytes_lt_from(a, c, i),
    decreases a.len() - i,
{
    if 0 <= i < a.len() && i < b.len() && i < c.len() && a[i] == b[i] && b[i] == c[i] {
        lemma_bytes_lt_transitive(a, b, c, i + 1);
    }
}

proof fn lemma_bytes_lt_total(a: Seq<u8>, b: Seq<u8>, i: int)
    requires
        0 <= i,
        a != b,
        forall|j: int| 0 <= j < i ==> j < a.len() && j < b.len() && #[trigger] a[j] == b[j],
    ensures
        bytes_lt_from(a, b, i) || bytes_lt_from(b, a, i),
    decreases a.len() - i,
{
    if i >= a.len() && i >= b.len() {
        if i > 0 {
            let j = i - 1;
            assert(a[j] == b[j]);
        }
        assert(a.len() == b.len());
        assert forall|j: int| 0 <= j < a.len() implies a[j] == b[j] by {}
        assert(a =~= b);
    } else if i < a.len() && i < b.len() && a[i] == b[i] {
        lemma_bytes_lt_total(a, b, i + 1);
    }
}

/// `key_lt` is a strict total order.
pub proof fn lemma_key_order(x: (int, Seq<u8>), y: (int, Seq<u8>), z: (int, Seq<u8>))
    ensures
        !key_lt(x, x),
        key_lt(x, y) && key_lt(y, z) ==> key_lt(x, z),
        x != y ==> key_lt(x, y) || key_lt(y, x),
        key_lt(x, y) ==> !key_lt(y, x),
{
    lemma_bytes_lt_irreflexive(x.1, 0);
    if key_lt(x, y) && key_lt(y, z) && x.0 == y.0 && y.0 == z.0 {
        lemma_bytes_lt_transitive(x.1, y.1, z.1, 0);
    }
    if x != y && x.0 == y.0 {
        lemma_bytes_lt_total(x.1, y.1, 0);
    }
    if key_lt(x, y) && key_lt(y, x) && x.0 == y.0 {
        lemma_bytes_lt_transitive(x.1, y.1, x.1, 0);
    }
}

/// `bytes_lt`, computed.
fn bytes_lt_exec(a: &[u8], b: &[u8]) -> (r: bool)
    ensures
        r == bytes_lt(a@, b@),
{
    let mut i: usize = 0;
    while i < a.len() && i < b.len() && a[i] == b[i]
        invariant
            i <= a@.len(),
            i <= b@.len(),
            bytes_lt_from(a@, b@, 0) == bytes_lt_from(a@, b@, i as int),
        decreases a@.len() - i,
    {
        i = i + 1;
    }
    if i < b.len() {
        i == a.len() || a[i] < b[i]
    } else {
        false
    }
}

/// `key_lt`, computed on a value and a denomination.
fn key_lt_exec(xv: u128, xs: &String, yv: u128, ys: &String) -> (r: bool)
    ensures
        r == key_lt((xv as int, encode_utf8(xs@)), (yv as int, encode_utf8(ys@))),
{
    if xv != yv {
        xv < yv
    } else {
        bytes_lt_exec(xs.as_str().as_bytes(), ys.as_str().as_bytes())
    }
}

/// Denominations and curve addresses are unique.
pub open spec fn unique_keys(s: Seq<FlambeBaseInfo>) -> bool {
    forall|i: int, j: int| 0 <= i < s.len() && 0 <= j < s.len() && i != j ==> #[trigger] s[i].main_token.denom@ != #[trigger] s[j].main_token.denom@ && s[i].flambe_address@ != s[j].flambe_address@
}

/// In a registry with unique keys, a key names one record.
proof fn lemma_key_names_record(s: Seq<FlambeBaseInfo>, filter: FlambesFilter, i: int, j: int)
    requires
        unique_keys(s),
        0 <= i < s.len(),
        0 <= j < s.len(),
        key_of(filter, s[i]) == key_of(filter, s[j]),
    ensures
        i == j,
{
    encode_utf8_decode_utf8(s[i].main_token.denom@);
    encode_utf8_decode_utf8(s[j].main_token.denom@);
}

proof fn lemma_push_contains<A>(s: Seq<A>, v: A, x: A)
    ensures
        s.contains(x) ==> s.push(v).contains(x),
        s.push(v).contains(v),
{
    if s.contains(x) {
        let i = choose|i: int| 0 <= i < s.len() && s[i] == x;
        assert(s.push(v)[i] == x);
    }
    assert(s.push(v)[s.len() as int] == v);
}

/// The registry of curves.
#[derive(Debug, PartialEq, Eq)]
pub struct Registry {
    records: Vec<FlambeBaseInfo>,
}

impl View for Registry {
    type V = Seq<FlambeBaseInfo>;

    closed spec fn view(&self) -> Seq<FlambeBaseInfo> {
        self.records@
    }
}

/// The record with a new status.
pub open spec fn with_status(rec: FlambeBaseInfo, status: FlambeStatus) -> FlambeBaseInfo {
    FlambeBaseInfo { status, ..rec }
}

/// The record with a new price and liquidity.
pub open spec fn with_liquidity(rec: FlambeBaseInfo, price: Decimal18, liquidity: u128) -> FlambeBaseInfo {
    FlambeBaseInfo { last_price: price, last_liquidity: liquidity, ..rec }
}

/// Whether some record has this curve address.
pub open spec fn has_address(s: Seq<FlambeBaseInfo>, addr: Seq<char>) -> bool {
    exists|i: int| 0 <= i < s.len() && #[trigger] s[i].flambe_address@ == addr
}

/// Whether some record has this denomination.
pub open spec fn has_denom(s: Seq<FlambeBaseInfo>, denom: Seq<char>) -> bool {
    exists|i: int| 0 <= i < s.len() && #[trigger] s[i].main_token.denom@ == denom
}

impl Registry {
    pub open spec fn wf(&self) -> bool {
        unique_keys(self@)
    }

    pub fn new() -> (r: Registry)
        ensures
            r@ == Seq::<FlambeBaseInfo>::empty(),
            r.wf(),
    {
        Registry { records: Vec::new() }
    }

    pub fn len(&self) -> (r: usize)
        ensures
            r == self@.len(),
    {
        self.records.len()
    }

    pub fn get(&self, i: usize) -> (r: &FlambeBaseInfo)
        requires
            i < self@.len(),
        ensures
            *r == self@[i as int],
    {
        &self.records[i]
    }

    /// The index of the record with this denomination.
    pub fn find_denom(&self, denom: &String) -> (r: Option<usize>)
        ensures
            r matches Some(i) ==> i < self@.len() && self@[i as int].main_token.denom@ == denom@,
            r is None ==> !has_denom(self@, denom@),
    {
        let mut i: usize = 0;
        while i < self.records.len()
            invariant
                i <= self@.len(),
                self@ == self.records@,
                forall|k: int| 0 <= k < i ==> self@[k].main_token.denom@ != denom@,
            decreases self@.len() - i,
        {
            if self.records[i].main_token.denom == *denom {
                return Some(i);
            }
            i = i + 1;
        }
        None
    }

    /// The index of the record with this curve address.
    pub fn find_address(&self, addr: &String) -> (r: Option<usize>)
        ensures
            r matches Some(i) ==> i < self@.len() && self@[i as int].flambe_address@ == addr@,
            r is None ==> !has_address(self@, addr@),
    {
        let mut i: usize = 0;
        while i < self.records.len()
            invariant
                i <= self@.len(),
                self@ == self.records@,
                forall|k: int| 0 <= k < i ==> self@[k].flambe_address@ != addr@,
            decreases self@.len() - i,
        {
            if self.records[i].flambe_address == *addr {
                return Some(i);
            }
            i = i + 1;
        }
        None
    }

    /// A copy of the record the filter picks.
    pub fn load(&self, filter: &FlambeFilter) -> (r: Result<FlambeBaseInfo, ContractError>)
        ensures
            r matches Ok(rec) ==> self@.contains(rec) && match filter {
                FlambeFilter::ByTokenDenom(d) => rec.main_token.denom@ == d@,
                FlambeFilter::ByFlambeAddr(a) => rec.flambe_address@ == a@,
            },
            r is Err ==> r == Err::<FlambeBaseInfo, ContractError>(ContractError::FlambeNotFound) && match filter {
                FlambeFilter::ByTokenDenom(d) => !has_denom(self@, d@),
                FlambeFilter::ByFlambeAddr(a) => !has_address(self@, a@),
            },
    {
        let found = match filter {
            FlambeFilter::ByTokenDenom(d) => self.find_denom(d),
            FlambeFilter::ByFlambeAddr(a) => self.find_address(a),
        };
        match found {
            Some(i) => {
                let rec = self.records[i].copy();
                proof {
                    assert(self@[i as int] == rec);
                }
                Ok(rec)
            },
            None => Err(ContractError::FlambeNotFound),
        }
    }

    /// Adds a new curve. A record with the same denomination or curve address
    /// is refused and nothing changes.
    pub fn insert(&mut self, rec: FlambeBaseInfo) -> (r: Result<(), ContractError>)
        requires
            old(self).wf(),
        ensures
            final(self).wf(),
            has_denom(old(self)@, rec.main_token.denom@) || has_address(old(self)@, rec.flambe_address@) ==> {
                &&& r == Err::<(), ContractError>(ContractError::FlambeAlreadyExists)
                &&& final(self)@ == old(self)@
            },
            !has_denom(old(self)@, rec.main_token.denom@) && !has_address(old(self)@, rec.flambe_address@) ==> {
                &&& r is Ok
                &&& final(self)@ == old(self)@.push(rec)
            },
    {
        if self.find_denom(&rec.main_token.denom).is_some() || self.find_address(&rec.flambe_address).is_some() {
            return Err(ContractError::FlambeAlreadyExists);
        }
        self.records.push(rec);
        proof {
            let s = self@;
            assert forall|i: int, j: int| 0 <= i < s.len() && 0 <= j < s.len() && i != j implies #[trigger] s[i].main_token.denom@ != #[trigger] s[j].main_token.denom@ && s[i].flambe_address@ != s[j].flambe_address@ by {
                if i == s.len() - 1 {
                    assert(!(s[j].main_token.denom@ == rec.main_token.denom@));
                    assert(!(s[j].flambe_address@ == rec.flambe_address@));
                } else if j == s.len() - 1 {
                    assert(!(s[i].main_token.denom@ == rec.main_token.denom@));
                    assert(!(s[i].flambe_address@ == rec.flambe_address@));
                }
            }
        }
        Ok(())
    }

    /// Sets the status of the curve at `addr`.
    pub fn set_status(&mut self, addr: &String, status: FlambeStatus) -> (r: Result<(), ContractError>)
        requires
            old(self).wf(),
        ensures
            final(self).wf(),
            !has_address(old(self)@, addr@) ==> r == Err::<(), ContractError>(ContractError::FlambeNotFound) && final(self)@ == old(self)@,
            has_address(old(self)@, addr@) ==> r is Ok,
            final(self)@.len() == old(self)@.len(),
            forall|i: int| 0 <= i < old(self)@.len() ==> #[trigger] final(self)@[i] == if old(self)@[i].flambe_address@ == addr@ {
                with_status(old(self)@[i], status)
            } else {
                old(self)@[i]
            },
    {
        let i = match self.find_address(addr) {
            Some(i) => i,
            None => return Err(ContractError::FlambeNotFound),
        };
        let mut rec = self.records[i].copy();
        rec.status = status;
        self.records.set(i, rec);
        proof {
            assert forall|k: int| 0 <= k < self@.len() && k != i implies old(self)@[k].flambe_address@ != addr@ by {
                assert(old(self)@[k].main_token.denom@ != old(self)@[i as int].main_token.denom@);
            }
            let s = self@;
            assert forall|a: int, b: int| 0 <= a < s.len() && 0 <= b < s.len() && a != b implies #[trigger] s[a].main_token.denom@ != #[trigger] s[b].main_token.denom@ && s[a].flambe_address@ != s[b].flambe_address@ by {
                assert(old(self)@[a].main_token.denom@ != old(self)@[b].main_token.denom@);
            }
        }
        Ok(())
    }

    /// Records the latest price and liquidity of the curve at `addr`.
    pub fn set_liquidity(&mut self, addr: &String, price: Decimal18, liquidity: u128) -> (r: Result<(), ContractError>)
        requires
            old(self).wf(),
        ensures
            final(self).wf(),
            !has_address(old(self)@, addr@) ==> r == Err::<(), ContractError>(ContractError::FlambeNotFound) && final(self)@ == old(self)@,
            has_address(old(self)@, addr@) ==> r is Ok,
            final(self)@.len() == old(self)@.len(),
            forall|i: int| 0 <= i < old(self)@.len() ==> #[trigger] final(self)@[i] == if old(self)@[i].flambe_address@ == addr@ {
                with_liquidity(old(self)@[i], price, liquidity)
            } else {
                old(self)@[i]
            },
    {
        let i = match self.find_address(addr) {
            Some(i) => i,
            None => return Err(ContractError::FlambeNotFound),
        };
        let mut rec = self.records[i].copy();
        rec.last_price = price;
        rec.last_liquidity = liquidity;
        self.records.set(i, rec);
        proof {
            assert forall|k: int| 0 <= k < self@.len() && k != i implies old(self)@[k].flambe_address@ != addr@ by {
                assert(old(self)@[k].main_token.denom@ != old(self)@[i as int].main_token.denom@);
            }
            let s = self@;
            assert forall|a: int, b: int| 0 <= a < s.len() && 0 <= b < s.len() && a != b implies #[trigger] s[a].main_token.denom@ != #[trigger] s[b].main_token.denom@ && s[a].flambe_address@ != s[b].flambe_address@ by {
                assert(old(self)@[a].main_token.denom@ != old(self)@[b].main_token.denom@);
            }
        }
        Ok(())
    }
}

/// The value part of the key a filter orders records by.
fn key_value(filter: &FlambesFilter, rec: &FlambeBaseInfo) -> (r: u128)
    ensures
        r as int == key_of(*filter, *rec).0,
{
    match filter {
        FlambesFilter::ByPrice { .. } => rec.last_price.atomics,
        FlambesFilter::ByLiquidity { .. } => rec.last_liquidity,
        _ => 0,
    }
}

/// `key_lt` of two records' keys under `filter`.
fn key_less(filter: &FlambesFilter, a: &FlambeBaseInfo, b: &FlambeBaseInfo) -> (r: bool)
    ensures
        r == key_lt(key_of(*filter, *a), key_of(*filter, *b)),
{
    key_lt_exec(key_value(filter, a), &a.main_token.denom, key_value(filter, b), &b.main_token.denom)
}

/// `in_range`, computed.
fn in_range_exec(filter: &FlambesFilter, rec: &FlambeBaseInfo) -> (r: bool)
    ensures
        r == in_range(*filter, *rec),
{
    let v = key_value(filter, rec);
    let d = &rec.main_token.denom;
    match filter {
        FlambesFilter::Empty { start_after } => match start_after {
            Some(pk) => key_lt_exec(v, d, 0, pk),
            None => true,
        },
        FlambesFilter::ByStatus { status, start_after } => rec.status == *status && match start_after {
            Some(pk) => key_lt_exec(v, d, 0, pk),
            None => true,
        },
        FlambesFilter::ByCreator { creator, start_after } => rec.creator == *creator && match start_after {
            Some(pk) => key_lt_exec(v, d, 0, pk),
            None => true,
        },
        FlambesFilter::ByPrice { start_after } => match start_after {
            Some((p, pk)) => key_lt_exec(v, d, p.atomics, pk),
            None => true,
        },
        FlambesFilter::ByLiquidity { start_after } => match start_after {
            Some((l, pk)) => key_lt_exec(v, d, *l, pk),
            None => true,
        },
    }
}

/// Whether record `k` is still to be listed: in range and, once a record has
/// been listed, below the last one listed.
pub open spec fn below(s: Seq<FlambeBaseInfo>, filter: FlambesFilter, last: Option<usize>, k: int) -> bool {
    &&& in_range(filter, s[k])
    &&& match last {
        Some(l) => key_lt(key_of(filter, s[k]), key_of(filter, s[l as int])),
        None => true,
    }
}

impl Registry {
    /// The record with the highest key among those still to be listed.
    fn best_below(&self, filter: &FlambesFilter, last: Option<usize>) -> (r: Option<usize>)
        requires
            last matches Some(l) ==> l < self@.len(),
        ensures
            r matches Some(b) ==> b < self@.len() && below(self@, *filter, last, b as int) && forall|k: int| 0 <= k < self@.len() && #[trigger] below(self@, *filter, last, k) ==> !key_lt(key_of(*filter, self@[b as int]), key_of(*filter, self@[k])),
            r is None ==> forall|k: int| 0 <= k < self@.len() ==> !#[trigger] below(self@, *filter, last, k),
    {
        let mut best: Option<usize> = None;
        let mut k: usize = 0;
        while k < self.records.len()
            invariant
                k <= self@.len(),
                self@ == self.records@,
                last matches Some(l) ==> l < self@.len(),
                best matches Some(b) ==> b < k && below(self@, *filter, last, b as int) && forall|j: int| 0 <= j < k && #[trigger] below(self@, *filter, last, j) ==> !key_lt(key_of(*filter, self@[b as int]), key_of(*filter, self@[j])),
                best is None ==> forall|j: int| 0 <= j < k ==> !#[trigger] below(self@, *filter, last, j),
            decreases self@.len() - k,
        {
            let rec = &self.records[k];
            let is_below = in_range_exec(filter, rec) && match last {
                Some(l) => key_less(filter, rec, &self.records[l]),
                None => true,
            };
            if is_below {
                let better = match best {
                    Some(b) => key_less(filter, &self.records[b], rec),
                    None => true,
                };
                if better {
                    proof {
                        if let Some(b) = best {
                            assert forall|j: int| 0 <= j < k + 1 && #[trigger] below(self@, *filter, last, j) implies !key_lt(key_of(*filter, self@[k as int]), key_of(*filter, self@[j])) by {
                                lemma_key_order(key_of(*filter, self@[k as int]), key_of(*filter, self@[b as int]), key_of(*filter, self@[j]));
                                lemma_key_order(key_of(*filter, self@[b as int]), key_of(*filter, self@[k as int]), key_of(*filter, self@[j]));
                                lemma_key_order(key_of(*filter, self@[k as int]), key_of(*filter, self@[j]), key_of(*filter, self@[b as int]));
                                if j == k {
                                    lemma_key_order(key_of(*filter, self@[k as int]), key_of(*filter, self@[k as int]), key_of(*filter, self@[k as int]));
                                }
                            }
                        } else {
                            assert forall|j: int| 0 <= j < k + 1 && #[trigger] below(self@, *filter, last, j) implies !key_lt(key_of(*filter, self@[k as int]), key_of(*filter, self@[j])) by {
                                lemma_key_order(key_of(*filter, self@[k as int]), key_of(*filter, self@[k as int]), key_of(*filter, self@[k as int]));
                            }
                        }
                    }
                    best = Some(k);
                } else {
                    proof {
                        let b = best->Some_0;
                        assert forall|j: int| 0 <= j < k + 1 && #[trigger] below(self@, *filter, last, j) implies !key_lt(key_of(*filter, self@[b as int]), key_of(*filter, self@[j])) by {
                            if j == k {
                                lemma_key_order(key_of(*filter, self@[b as int]), key_of(*filter, self@[k as int]), key_of(*filter, self@[k as int]));
                            }
                        }
                    }
                }
            }
            k = k + 1;
        }
        best
    }

    /// The page of curves that `filter` selects, from the highest key down,
    /// starting strictly after the filter's cursor and holding at most
    /// `limit` records (ten when none is given, thirty at most).
    pub fn page(&self, filter: &FlambesFilter, limit: Option<u32>) -> (r: Vec<FlambeBaseInfo>)
        requires
            self.wf(),
        ensures
            is_page(self@, *filter, limit, r@),
    {
        let requested = match limit {
            Some(l) => l,
            None => DEFAULT_LIMIT,
        };
        let lim: usize = if requested < MAX_LIMIT { requested as usize } else { MAX_LIMIT as usize };
        let mut out: Vec<FlambeBaseInfo> = Vec::new();
        let mut last: Option<usize> = None;
        while out.len() < lim
            invariant
                self.wf(),
                lim == page_limit(limit),
                out@.len() <= lim,
                last is None <==> out@.len() == 0,
                last matches Some(l) ==> l < self@.len() && out@.last() == self@[l as int],
                forall|i: int| 0 <= i < out@.len() ==> self@.contains(#[trigger] out@[i]) && in_range(*filter, out@[i]),
                forall|i: int, j: int| 0 <= i < j < out@.len() ==> key_lt(key_of(*filter, #[trigger] out@[j]), key_of(*filter, #[trigger] out@[i])),
                forall|k: int| 0 <= k < self@.len() && in_range(*filter, #[trigger] self@[k]) && (last matches Some(l) && !key_lt(key_of(*filter, self@[k]), key_of(*filter, self@[l as int]))) ==> out@.contains(self@[k]),
            decreases lim - out@.len(),
        {
            let b = match self.best_below(filter, last) {
                Some(b) => b,
                None => {
                    proof {
                        assert forall|k: int| 0 <= k < self@.len() && in_range(*filter, #[trigger] self@[k]) && (out@.len() < page_limit(limit) || (out@.len() > 0 && !key_lt(key_of(*filter, self@[k]), key_of(*filter, out@.last())))) implies out@.contains(self@[k]) by {
                            assert(!below(self@, *filter, last, k));
                        }
                    }
                    return out;
                },
            };
            let ghost old_out = out@;
            let ghost old_last = last;
            let rec = self.records[b].copy();
            out.push(rec);
            last = Some(b);
            proof {
                let kb = key_of(*filter, self@[b as int]);
                assert(out@.last() == self@[b as int]);
                lemma_push_contains(old_out, self@[b as int], self@[b as int]);
                assert forall|i: int| 0 <= i < out@.len() implies self@.contains(#[trigger] out@[i]) && in_range(*filter, out@[i]) by {
                    if i == old_out.len() {
                        assert(self@[b as int] == out@[i]);
                    } else {
                        assert(out@[i] == old_out[i]);
                    }
                }
                assert forall|i: int, j: int| 0 <= i < j < out@.len() implies key_lt(key_of(*filter, #[trigger] out@[j]), key_of(*filter, #[trigger] out@[i])) by {
                    if j == old_out.len() {
                        let l = old_last->Some_0;
                        assert(out@[i] == old_out[i]);
                        assert(key_lt(kb, key_of(*filter, self@[l as int])));
                        if i < old_out.len() - 1 {
                            assert(key_lt(key_of(*filter, old_out.last()), key_of(*filter, old_out[i])));
                            lemma_key_order(kb, key_of(*filter, old_out.last()), key_of(*filter, old_out[i]));
                        }
                    } else {
                        assert(out@[i] == old_out[i]);
                        assert(out@[j] == old_out[j]);
                    }
                }
                assert forall|k: int| 0 <= k < self@.len() && in_range(*filter, #[trigger] self@[k]) && (last matches Some(l) && !key_lt(key_of(*filter, self@[k]), key_of(*filter, self@[l as int]))) implies out@.contains(self@[k]) by {
                    lemma_push_contains(old_out, self@[b as int], self@[k]);
                    if below(self@, *filter, old_last, k) {
                        assert(!key_lt(kb, key_of(*filter, self@[k])));
                        lemma_key_order(kb, key_of(*filter, self@[k]), kb);
                        lemma_key_names_record(self@, *filter, b as int, k);
                    }
                }
            }
        }
        out
    }
}

} // verus!