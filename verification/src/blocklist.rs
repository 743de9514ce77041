//! In-memory blocklist of force-revoked access-token ids (jtis). An entry
//! stays blocking for fifteen minutes, the lifetime of an access token.
//!
//! Times are nanoseconds on a monotonic clock read by the caller; a jti is
//! the 128-bit value of its UUID.
use vstd::prelude::*;

use dashmap::DashMap;

verus! {

/// How long an entry blocks, in nanoseconds (15 minutes).
pub const TTL_NS: u64 = 900_000_000_000;

#[verifier::external_type_specification]
#[verifier::external_body]
#[verifier::reject_recursive_types(K)]
#[verifier::reject_recursive_types(V)]
#[verifier::reject_recursive_types(S)]
pub struct ExDashMap<K, V, S>(DashMap<K, V, S>);

/// Jti to the time it was added.
pub type JtiMap = DashMap<u128, u64>;

/// The jtis held by a blocklist map, each with the time it was added.
pub uninterp spec fn blocklist_entries(m: JtiMap) -> Map<u128, u64>;

/// Time elapsed from `then` to `now`; zero when `now` is earlier, as
/// `Instant::saturating_duration_since` gives it.
pub open spec fn elapsed(then: u64, now: u64) -> int {
    if now >= then {
        now - then
    } else {
        0
    }
}

/// An entry added at `added` still blocks at `now`.
pub open spec fn live(added: u64, now: u64) -> bool {
    elapsed(added, now) < TTL_NS
}

/// The jtis of `entries` that still block at `now`.
pub open spec fn active(entries: Map<u128, u64>, now: u64) -> Set<u128> {
    Set::new(|k: u128| entries.dom().contains(k) && live(entries[k], now))
}

/// `entries` without the ones that no longer block at `now`.
pub open spec fn prune(entries: Map<u128, u64>, now: u64) -> Map<u128, u64> {
    entries.restrict(active(entries, now))
}

/// Whether an entry added at `added` still blocks at `now`.
pub fn is_live(added: u64, now: u64) -> (r: bool)
    ensures
        r == live(added, now),
{
    let e = if now >= added {
        now - added
    } else {
        0
    };
    e < TTL_NS
}

/// `DashMap::new`: an empty map.
#[verifier::external_body]
fn map_new() -> (r: JtiMap)
    ensures
        blocklist_entries(r) =~= Map::empty(),
{
    DashMap::new()
}

/// `DashMap::insert`: sets the value of `k` to `v`, replacing any old one.
#[verifier::external_body]
fn map_insert(m: &mut JtiMap, k: u128, v: u64)
    ensures
        blocklist_entries(*final(m)) == blocklist_entries(*old(m)).insert(k, v),
{
    m.insert(k, v);
}

/// `DashMap::get`: the value of `k`, copied out of the guard it comes in.
#[verifier::external_body]
fn map_get(m: &JtiMap, k: u128) -> (r: Option<u64>)
    ensures
        r == (if blocklist_entries(*m).dom().contains(k) {
            Some(blocklist_entries(*m)[k])
        } else {
            None
        }),
{
    m.get(&k).map(|e| *e)
}

/// `DashMap::remove`: drops `k` from the map.
#[verifier::external_body]
fn map_remove(m: &mut JtiMap, k: u128)
    ensures
        blocklist_entries(*final(m)) == blocklist_entries(*old(m)).remove(k),
{
    m.remove(&k);
}

/// `DashMap::retain`, keeping the entries that still block at `now`.
#[verifier::external_body]
fn map_retain_live(m: &mut JtiMap, now: u64)
    ensures
        blocklist_entries(*final(m)) == prune(blocklist_entries(*old(m)), now),
{
    m.retain(|_, added| is_live(*added, now));
}

/// `DashMap::iter`, each entry mapped to its key: every key once, in an
/// order that the map does not promise.
#[verifier::external_body]
fn map_keys(m: &JtiMap) -> (r: Vec<u128>)
    ensures
        r@.to_set() == blocklist_entries(*m).dom(),
        r@.no_duplicates(),
{
    m.iter().map(|e| *e.key()).collect()
}

/// In-memory blocklist for force-revoked jtis.
pub struct Blocklist {
    entries: JtiMap,
}

impl View for Blocklist {
    /// Each jti with the time it was added.
    type V = Map<u128, u64>;

    closed spec fn view(&self) -> Map<u128, u64> {
        blocklist_entries(self.entries)
    }
}

impl Default for Blocklist {
    fn default() -> (b: Self)
        ensures
            b@ == Map::<u128, u64>::empty(),
    {
        Self::new()
    }
}

impl Blocklist {
    /// An empty blocklist.
    pub fn new() -> (b: Self)
        ensures
            b@ == Map::<u128, u64>::empty(),
    {
        Blocklist { entries: map_new() }
    }

    /// Adds a jti to the blocklist at time `now`.
    pub fn add(&mut self, jti: u128, now: u64)
        ensures
            final(self)@ == old(self)@.insert(jti, now),
    {
        map_insert(&mut self.entries, jti, now);
    }

    /// Whether `jti` is blocked at `now`. An entry found expired is dropped.
    pub fn contains(&mut self, jti: u128, now: u64) -> (r: bool)
        ensures
            r == active(old(self)@, now).contains(jti),
            final(self)@ == (if old(self)@.dom().contains(jti) && !live(old(self)@[jti], now) {
                old(self)@.remove(jti)
            } else {
                old(self)@
            }),
    {
        match map_get(&self.entries, jti) {
            Some(added) => {
                if is_live(added, now) {
                    return true;
                }
                map_remove(&mut self.entries, jti);
                false
            },
            None => false,
        }
    }

    /// All jtis that still block at `now`, each once; expired entries are
    /// dropped.
    pub fn list(&mut self, now: u64) -> (r: Vec<u128>)
        ensures
            final(self)@ == prune(old(self)@, now),
            r@.to_set() == active(old(self)@, now),
            r@.no_duplicates(),
    {
        map_retain_live(&mut self.entries, now);
        let r = map_keys(&self.entries);
        assert(prune(old(self)@, now).dom() =~= active(old(self)@, now));
        r
    }
}

/// A jti added at time `added` blocks at `now` exactly while less than 15
/// minutes have passed since (a clock read earlier than `added` counts as
/// no time passed).
pub proof fn law_added_jti_blocks_until_ttl(m: Map<u128, u64>, jti: u128, added: u64, now: u64)
    ensures
        active(m.insert(jti, added), now).contains(jti) <==> live(added, now),
        now >= added ==> (live(added, now) <==> now - added < TTL_NS),
{
}

/// Adding a jti at `now` blocks it at once, and leaves every other jti
/// blocking or not as before.
pub proof fn law_add_blocks_at_once(m: Map<u128, u64>, jti: u128, now: u64)
    ensures
        active(m.insert(jti, now), now) == active(m, now).insert(jti),
{
    assert(active(m.insert(jti, now), now) =~= active(m, now).insert(jti));
}

/// Looking a jti up, or listing, at `now` never changes which jtis block at
/// `now`: they only drop entries that no longer block.
pub proof fn law_cleanup_keeps_blocking_set(m: Map<u128, u64>, jti: u128, now: u64)
    ensures
        active(prune(m, now), now) == active(m, now),
        m.dom().contains(jti) && !live(m[jti], now) ==> active(m.remove(jti), now) == active(m, now),
{
    assert(active(prune(m, now), now) =~= active(m, now));
    if m.dom().contains(jti) && !live(m[jti], now) {
        assert(active(m.remove(jti), now) =~= active(m, now));
    }
}

} // verus!
