//! Creating and listing strategy instances.
use crate::clock::new_id;
use crate::strategy_api::dto::ApiResponse;
use crate::text::{ascii_lower_seq, owned, str_eq, to_ascii_lowercase, to_uppercase, trim, unicode_trim, unicode_uppercase};
use vstd::prelude::*;

verus! {

/// A request to create a strategy instance.
#[derive(Debug, Clone)]
pub struct CreateStrategyRequest {
    /// Strategy type: "spot_grid" or "spot_mean_reversion".
    pub strategy_type: String,
    /// Market type: only "spot".
    pub market_type: String,
    /// Trading pair.
    pub symbol: String,
    /// Owner (the number of a UUID).
    pub owner_id: Option<u128>,
    /// Name of the instance.
    pub name: Option<String>,
    /// Whether the instance starts at once (default yes).
    pub auto_start: Option<bool>,
}

/// The configuration of a new strategy instance.
#[derive(Debug, Clone)]
pub struct StrategyConfig {
    /// Instance id (the number of a UUID).
    pub instance_id: u128,
    /// Strategy type, trimmed and lower-cased.
    pub strategy_type: String,
    /// Trading pair, trimmed and upper-cased.
    pub symbol: String,
    /// Owner.
    pub owner_id: u128,
    /// Name.
    pub name: String,
    /// Whether it starts at once.
    pub auto_start: bool,
}

/// The answer to a creation.
#[derive(Debug, Clone)]
pub struct CreateStrategyResponse {
    /// The new instance's id.
    pub instance_id: u128,
    /// "strategy created".
    pub message: String,
}

/// A strategy instance in a listing.
#[derive(Debug, Clone)]
pub struct StrategyInfoDto {
    /// Instance id.
    pub instance_id: u128,
    /// Strategy type.
    pub strategy_type: String,
    /// Market type.
    pub market_type: String,
    /// Trading pair.
    pub symbol: String,
    /// Whether it is running.
    pub is_active: bool,
}

/// A listing of strategy instances.
#[derive(Debug, Clone)]
pub struct StrategyListResponse {
    /// The instances.
    pub strategies: Vec<StrategyInfoDto>,
    /// How many there are.
    pub total: usize,
}

/// The strategy type key of a request: trimmed, ASCII lower-cased.
pub open spec fn type_key(t: Seq<char>) -> Seq<char> {
    ascii_lower_seq(unicode_trim(t))
}

/// The pair of a request: trimmed, upper-cased.
pub open spec fn symbol_key(s: Seq<char>) -> Seq<char> {
    unicode_uppercase(unicode_trim(s))
}

/// The name of a new instance: the given one when it is not blank, otherwise
/// "type-pair".
pub open spec fn instance_name(name: Option<Seq<char>>, t: Seq<char>, symbol: Seq<char>) -> Seq<char> {
    match name {
        Some(n) => if unicode_trim(n).len() > 0 {
            n
        } else {
            t + "-"@ + symbol
        },
        None => t + "-"@ + symbol,
    }
}

/// The message of a refused creation request, checked in order: no loader, no
/// owner, an unsupported type, an empty pair, a market other than spot; `None`
/// when the request is accepted.
pub open spec fn creation_refusal(req: CreateStrategyRequest, loader_ready: bool) -> Option<Seq<char>> {
    if !loader_ready {
        Some("strategy loader is not initialized"@)
    } else if req.owner_id is None {
        Some("owner_id is required"@)
    } else if type_key(req.strategy_type@) != "spot_grid"@ && type_key(req.strategy_type@) != "spot_mean_reversion"@ {
        Some("unsupported strategy_type, allowed: spot_grid, spot_mean_reversion"@)
    } else if unicode_trim(req.symbol@).len() == 0 {
        Some("symbol cannot be empty"@)
    } else if type_key(req.market_type@) != "spot"@ {
        Some("only spot market_type is currently supported"@)
    } else {
        None
    }
}

/// Checks a creation request and builds the new instance's configuration with a
/// fresh id, or gives the message of the first problem.
pub fn prepare_strategy(req: &CreateStrategyRequest, loader_ready: bool) -> (r: Result<StrategyConfig, String>)
    ensures
        match creation_refusal(*req, loader_ready) {
            Some(m) => r matches Err(e) && e@ == m,
            None => r matches Ok(c) && {
                &&& c.strategy_type@ == type_key(req.strategy_type@)
                &&& c.symbol@ == symbol_key(req.symbol@)
                &&& Some(c.owner_id) == req.owner_id
                &&& c.name@ == instance_name(
                    match req.name {
                        Some(n) => Some(n@),
                        None => None,
                    },
                    type_key(req.strategy_type@),
                    symbol_key(req.symbol@),
                )
                &&& c.auto_start == (match req.auto_start {
                    Some(b) => b,
                    None => true,
                })
            },
        },
{
    if !loader_ready {
        return Err(owned("strategy loader is not initialized"));
    }
    let owner_id = match req.owner_id {
        Some(v) => v,
        None => {
            return Err(owned("owner_id is required"));
        },
    };
    let strategy_type = to_ascii_lowercase(trim(req.strategy_type.as_str()));
    if !str_eq(strategy_type.as_str(), "spot_grid") && !str_eq(strategy_type.as_str(), "spot_mean_reversion") {
        return Err(owned("unsupported strategy_type, allowed: spot_grid, spot_mean_reversion"));
    }
    let symbol = to_uppercase(trim(req.symbol.as_str()));
    if symbol.as_str().unicode_len() == 0 {
        return Err(owned("symbol cannot be empty"));
    }
    let market_type = to_ascii_lowercase(trim(req.market_type.as_str()));
    if !str_eq(market_type.as_str(), "spot") {
        return Err(owned("only spot market_type is currently supported"));
    }
    let name = match &req.name {
        Some(n) => if trim(n.as_str()).unicode_len() > 0 {
            n.clone()
        } else {
            let mut d = strategy_type.clone();
            d.append("-");
            d.append(symbol.as_str());
            d
        },
        None => {
            let mut d = strategy_type.clone();
            d.append("-");
            d.append(symbol.as_str());
            d
        },
    };
    let auto_start = match req.auto_start {
        Some(b) => b,
        None => true,
    };
    Ok(StrategyConfig { instance_id: new_id(), strategy_type, symbol, owner_id, name, auto_start })
}

/// The answer to a creation, from what loading the configuration gave: the first
/// id loaded; a refusal when nothing was loaded; the error otherwise.
pub fn creation_response(loaded: Result<Vec<u128>, String>) -> (r: ApiResponse<CreateStrategyResponse>)
    ensures
        match loaded {
            Ok(ids) => if ids@.len() > 0 {
                r.success && (r.data matches Some(d) && d.instance_id == ids@[0] && d.message@ == "strategy created"@)
            } else {
                !r.success && (r.error matches Some(e) && e@ == "strategy was rejected by config validation"@)
            },
            Err(msg) => !r.success && (r.error matches Some(e) && e@ == "failed to create strategy: "@ + msg@),
        },
{
    match loaded {
        Ok(ids) => if ids.len() > 0 {
            ApiResponse::ok(CreateStrategyResponse { instance_id: ids[0], message: owned("strategy created") })
        } else {
            ApiResponse::err(owned("strategy was rejected by config validation"))
        },
        Err(msg) => {
            let mut m = owned("failed to create strategy: ");
            m.append(msg.as_str());
            ApiResponse::err(m)
        },
    }
}

/// A strategy instance with its creation time, for listing.
#[derive(Debug, Clone)]
pub struct StrategyEntry {
    /// Creation time, in milliseconds since the Unix epoch.
    pub created_at: i64,
    /// What is listed of it.
    pub info: StrategyInfoDto,
}

/// Whether an entry was created at `k`, as a predicate.
pub open spec fn created_at_is(k: i64) -> spec_fn(StrategyEntry) -> bool {
    |e: StrategyEntry| e.created_at == k
}

/// Oldest first.
pub open spec fn sorted_by_creation(s: Seq<StrategyEntry>) -> bool {
    forall|i: int, j: int| 0 <= i <= j < s.len() ==> s[i].created_at <= s[j].created_at
}

/// `r` is `s` sorted oldest first, entries created at the same time keeping
/// their order (a stable sort): `r` is sorted, and for every creation time the
/// entries created then come in `r` exactly as in `s`.
pub open spec fn stably_sorted(r: Seq<StrategyEntry>, s: Seq<StrategyEntry>) -> bool {
    &&& r.len() == s.len()
    &&& sorted_by_creation(r)
    &&& forall|k: i64| #[trigger] r.filter(created_at_is(k)) == s.filter(created_at_is(k))
}

/// A sequence none of whose elements satisfies `p` filters to nothing.
proof fn lemma_filter_none(s: Seq<StrategyEntry>, p: spec_fn(StrategyEntry) -> bool)
    requires
        forall|i: int| 0 <= i < s.len() ==> !p(#[trigger] s[i]),
    ensures
        s.filter(p) == Seq::<StrategyEntry>::empty(),
    decreases s.len(),
{
    reveal(Seq::filter);
    if s.len() > 0 {
        lemma_filter_none(s.drop_last(), p);
        assert(!p(s[s.len() - 1]));
    }
}

/// The filter of `a + [e] + b` is the filters of the three pieces, in order.
proof fn lemma_filter_three(a: Seq<StrategyEntry>, e: StrategyEntry, b: Seq<StrategyEntry>, p: spec_fn(StrategyEntry) -> bool)
    ensures
        (a.push(e) + b).filter(p) == a.filter(p) + (if p(e) { seq![e] } else { Seq::<StrategyEntry>::empty() }) + b.filter(p),
{
    reveal(Seq::filter);
    Seq::filter_distributes_over_add(a.push(e), b, p);
    assert(a.push(e).drop_last() =~= a);
    if p(e) {
        assert(a.filter(p).push(e) =~= a.filter(p) + seq![e]);
    } else {
        assert(a.filter(p) =~= a.filter(p) + Seq::<StrategyEntry>::empty());
    }
}

/// The entries sorted oldest first; entries created at the same time keep their
/// order.
pub fn sort_by_creation(entries: Vec<StrategyEntry>) -> (r: Vec<StrategyEntry>)
    ensures
        stably_sorted(r@, entries@),
{
    let ghost orig = entries@;
    let n = entries.len();
    let mut rest = entries;
    let mut r: Vec<StrategyEntry> = Vec::new();
    let mut i: usize = 0;
    proof {
        assert(orig.take(0) =~= Seq::<StrategyEntry>::empty());
        assert forall|k: i64| #[trigger] r@.filter(created_at_is(k)) == orig.take(0).filter(created_at_is(k)) by {
            reveal(Seq::filter);
        }
    }
    while rest.len() > 0
        invariant
            i <= orig.len(),
            orig.len() == n,
            rest@ == orig.skip(i as int),
            stably_sorted(r@, orig.take(i as int)),
        decreases rest@.len(),
    {
        assert(i < orig.len());
        let e = rest.remove(0);
        assert(e == orig[i as int]);
        let mut j: usize = 0;
        while j < r.len() && r[j].created_at <= e.created_at
            invariant
                j <= r@.len(),
                forall|t: int| 0 <= t < j ==> (#[trigger] r@[t]).created_at <= e.created_at,
            decreases r@.len() - j,
        {
            j = j + 1;
        }
        let ghost before = r@;
        proof {
            assert forall|t: int| j <= t < before.len() implies (#[trigger] before[t]).created_at > e.created_at by {
                assert(before[j as int].created_at > e.created_at);
                assert(before[j as int].created_at <= before[t].created_at);
            }
        }
        r.insert(j, e);
        proof {
            let a = before.subrange(0, j as int);
            let b = before.subrange(j as int, before.len() as int);
            assert(r@ =~= a.push(e) + b);
            assert(before =~= a + b);
            assert(orig.take(i + 1) =~= orig.take(i as int).push(e));
            assert forall|x: int, y: int| 0 <= x <= y < r@.len() implies r@[x].created_at <= r@[y].created_at by {
                if x < j && y < j {
                } else if x < j && y == j {
                } else if x < j && y > j {
                    assert(r@[y] == before[y - 1]);
                } else if x == j && y > j {
                    assert(r@[y] == before[y - 1]);
                } else if x > j {
                    assert(r@[x] == before[x - 1]);
                    assert(r@[y] == before[y - 1]);
                }
            }
            assert forall|k: i64| #[trigger] r@.filter(created_at_is(k)) == orig.take(i + 1).filter(created_at_is(k)) by {
                let p = created_at_is(k);
                lemma_filter_three(a, e, b, p);
                Seq::filter_distributes_over_add(a, b, p);
                assert(orig.take(i + 1).filter(p) == orig.take(i as int).filter(p) + (if p(e) {
                    seq![e]
                } else {
                    Seq::<StrategyEntry>::empty()
                })) by {
                    reveal(Seq::filter);
                    assert(orig.take(i + 1).drop_last() =~= orig.take(i as int));
                    if p(e) {
                        assert(orig.take(i as int).filter(p).push(e) =~= orig.take(i as int).filter(p) + seq![e]);
                    } else {
                        assert(orig.take(i as int).filter(p) =~= orig.take(i as int).filter(p) + Seq::<StrategyEntry>::empty());
                    }
                }
                if p(e) {
                    assert forall|t: int| 0 <= t < b.len() implies !p(#[trigger] b[t]) by {
                        assert(b[t] == before[j + t]);
                    }
                    lemma_filter_none(b, p);
                    assert(r@.filter(p) =~= a.filter(p) + seq![e]);
                    assert(before.filter(p) =~= a.filter(p));
                } else {
                    assert(r@.filter(p) =~= a.filter(p) + b.filter(p));
                }
            }
        }
        i = i + 1;
    }
    assert(orig.take(i as int) =~= orig);
    r
}

/// The listing of the given instances, oldest first (a stable sort by creation
/// time), with their count.
pub fn strategy_list_by_creation(entries: Vec<StrategyEntry>) -> (r: StrategyListResponse)
    ensures
        r.total == entries@.len(),
        exists|s: Seq<StrategyEntry>| stably_sorted(s, entries@) && r.strategies@ == s.map_values(|e: StrategyEntry| e.info),
{
    let sorted = sort_by_creation(entries);
    let ghost s = sorted@;
    let n = sorted.len();
    let mut infos: Vec<StrategyInfoDto> = Vec::new();
    let mut rest = sorted;
    let mut i: usize = 0;
    while rest.len() > 0
        invariant
            i <= s.len(),
            s.len() == n,
            rest@ == s.skip(i as int),
            infos@ == s.take(i as int).map_values(|e: StrategyEntry| e.info),
        decreases rest@.len(),
    {
        assert(i < s.len());
        let e = rest.remove(0);
        assert(e == s[i as int]);
        infos.push(e.info);
        assert(s.take(i + 1).map_values(|e: StrategyEntry| e.info) =~= s.take(i as int).map_values(|e: StrategyEntry| e.info).push(
            s[i as int].info,
        ));
        i = i + 1;
    }
    assert(s.take(i as int) =~= s);
    let total = infos.len();
    StrategyListResponse { strategies: infos, total }
}

} // verus!
