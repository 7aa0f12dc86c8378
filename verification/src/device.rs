//! Resolution of filesystem paths to canonical block-device identities.
//!
//! A block device may be reachable through many paths (symlinks, duplicate
//! entries); what identifies the physical device is its device number. The
//! resolver maps every supplied path to its device identity, deduplicating
//! aliases so that each device appears exactly once, and rejects paths that
//! do not name a block device.

use vstd::prelude::*;
use vstd::string::StringExecFns;

use crate::errors::{ErrorView, StratisError};

verus! {

/// The canonical identifier of a block device: its major and minor numbers,
/// as the platform extracts them from a 64-bit device number.
#[derive(Debug, PartialEq, Eq, Structural, Clone, Copy, Hash)]
pub struct DeviceIdentity {
    /// Device major number.
    pub major: u32,
    /// Device minor number.
    pub minor: u32,
}

/// The major number encoded in a 64-bit device number: bits 8 through 19
/// hold its low part and bits 32 and up its high part.
pub open spec fn spec_major(devno: u64) -> u32 {
    (((devno >> 8) & 0xfff) | ((devno >> 32) & 0xffff_f000)) as u32
}

/// The minor number encoded in a 64-bit device number: bits 0 through 7
/// hold its low part and bits 20 through 31 its high part.
pub open spec fn spec_minor(devno: u64) -> u32 {
    ((devno & 0xff) | ((devno >> 12) & 0xffff_ff00)) as u32
}

/// The identity packed into a 64-bit device number.
pub open spec fn identity_of(devno: u64) -> DeviceIdentity {
    DeviceIdentity { major: spec_major(devno), minor: spec_minor(devno) }
}

impl DeviceIdentity {
    /// Unpack a 64-bit device number into its major and minor numbers.
    pub fn from_devno(devno: u64) -> (r: DeviceIdentity)
        ensures
            r == identity_of(devno),
    {
        DeviceIdentity {
            major: (((devno >> 8) & 0xfff) | ((devno >> 32) & 0xffff_f000)) as u32,
            minor: ((devno & 0xff) | ((devno >> 12) & 0xffff_ff00)) as u32,
        }
    }
}

/// The mapping that a sequence of (identity, path) entries denotes: entries
/// are applied in order, so of two entries with the same identity the later
/// one wins.
pub open spec fn map_of_pairs(s: Seq<(DeviceIdentity, Seq<char>)>) -> Map<DeviceIdentity, Seq<char>>
    decreases s.len(),
{
    if s.len() == 0 {
        Map::empty()
    } else {
        map_of_pairs(s.drop_last()).insert(s.last().0, s.last().1)
    }
}

/// A deduplicated mapping from device identity to one representative path.
/// Each identity appears at most once; when several input paths alias the
/// same device, the path supplied last is the one retained (a deliberate
/// last-write-wins policy).
pub struct ResolvedDeviceSet {
    entries: Vec<(DeviceIdentity, String)>,
}

impl View for ResolvedDeviceSet {
    type V = Map<DeviceIdentity, Seq<char>>;

    open spec fn view(&self) -> Map<DeviceIdentity, Seq<char>> {
        map_of_pairs(self.pairs())
    }
}

impl ResolvedDeviceSet {
    /// The stored entries, with paths abstracted to character sequences.
    pub closed spec fn pairs(&self) -> Seq<(DeviceIdentity, Seq<char>)> {
        self.entries@.map_values(|p: (DeviceIdentity, String)| (p.0, p.1@))
    }

    /// Well-formed: no identity occurs twice.
    pub open spec fn wf(&self) -> bool {
        forall|i: int, j: int|
            0 <= i < j < self.pairs().len() ==> (#[trigger] self.pairs()[i]).0 != (
            #[trigger] self.pairs()[j]).0
    }

    /// An empty set of resolved devices.
    pub fn new() -> (r: Self)
        ensures
            r.wf(),
            r@ == Map::<DeviceIdentity, Seq<char>>::empty(),
            r.pairs().len() == 0,
    {
        let r = ResolvedDeviceSet { entries: Vec::new() };
        proof {
            assert(r.pairs() =~= Seq::<(DeviceIdentity, Seq<char>)>::empty());
        }
        r
    }

    /// Record that `path` resolves to the device `key`. If the device was
    /// already present its previous representative path is discarded: the
    /// path supplied last wins.
    pub fn insert(&mut self, key: DeviceIdentity, path: String)
        requires
            old(self).wf(),
        ensures
            final(self).wf(),
            final(self)@ == old(self)@.insert(key, path@),
            final(self).pairs().len() <= old(self).pairs().len() + 1,
    {
        let ghost orig = self.pairs();
        let mut i: usize = 0;
        let n = self.entries.len();
        while i < n
            invariant
                orig == old(self).pairs(),
                old(self).wf(),
                n == orig.len(),
                0 <= i <= n,
                self == old(self),
                forall|j: int| 0 <= j < i ==> (#[trigger] orig[j]).0 != key,
            decreases n - i,
        {
            if self.entries[i].0 == key {
                let _ = self.entries.remove(i);
                proof {
                    assert(self.pairs() =~= orig.remove(i as int));
                    lemma_map_of_pairs_remove_redundant(orig, i as int, key, path@);
                }
                self.entries.push((key, path));
                proof {
                    assert(self.pairs() =~= orig.remove(i as int).push((key, path@)));
                    assert(self.pairs().drop_last() =~= orig.remove(i as int));
                    assert(self.pairs().last() == (key, path@));
                    assert(self@ == old(self)@.insert(key, path@));
                    assert(orig[i as int].0 == key);
                    assert forall|a: int, b: int|
                        0 <= a < b < self.pairs().len() implies (#[trigger] self.pairs()[a]).0 != (
                    #[trigger] self.pairs()[b]).0 by {
                        let r = orig.remove(i as int);
                        assert(self.pairs()[a] == r[a]);
                        if a < i {
                            assert(r[a] == orig[a]);
                        } else {
                            assert(r[a] == orig[a + 1]);
                        }
                        if b < self.pairs().len() - 1 {
                            assert(self.pairs()[b] == r[b]);
                            if b < i {
                                assert(r[b] == orig[b]);
                            } else {
                                assert(r[b] == orig[b + 1]);
                            }
                        }
                    }
                }
                return ;
            }
            i += 1;
        }
        self.entries.push((key, path));
        proof {
            assert(self.pairs() =~= orig.push((key, path@)));
            assert(self.pairs().drop_last() =~= orig);
            assert(self.pairs().last() == (key, path@));
            assert(self@ == old(self)@.insert(key, path@));
            assert forall|a: int, b: int|
                0 <= a < b < self.pairs().len() implies (#[trigger] self.pairs()[a]).0 != (
            #[trigger] self.pairs()[b]).0 by {
                if b == self.pairs().len() - 1 {
                    assert(self.pairs()[a] == orig[a]);
                }
            }
        }
    }

    /// The number of distinct devices recorded.
    pub fn len(&self) -> (r: usize)
        requires
            self.wf(),
        ensures
            r == self@.dom().len(),
    {
        proof {
            lemma_map_of_pairs_dom(self.pairs());
            keys_of(self.pairs()).unique_seq_to_set();
            assert(keys_of(self.pairs()).no_duplicates());
        }
        self.entries.len()
    }

    /// The recorded entries, each device identity with its representative
    /// path, for the caller to walk.
    pub fn entries(&self) -> (r: &Vec<(DeviceIdentity, String)>)
        ensures
            r@.map_values(|p: (DeviceIdentity, String)| (p.0, p.1@)) == self.pairs(),
    {
        &self.entries
    }

    /// The representative path recorded for a device, if any.
    pub fn get(&self, key: DeviceIdentity) -> (r: Option<&String>)
        requires
            self.wf(),
        ensures
            match r {
                Some(p) => self@.dom().contains(key) && self@[key] == p@,
                None => !self@.dom().contains(key),
            },
    {
        proof {
            lemma_map_of_pairs_dom(self.pairs());
        }
        let n = self.entries.len();
        let mut i: usize = 0;
        while i < n
            invariant
                self.wf(),
                n == self.pairs().len(),
                0 <= i <= n,
                forall|j: int| 0 <= j < i ==> (#[trigger] self.pairs()[j]).0 != key,
            decreases n - i,
        {
            if self.entries[i].0 == key {
                proof {
                    lemma_map_of_pairs_at(self.pairs(), i as int);
                }
                return Some(&self.entries[i].1);
            }
            i += 1;
        }
        proof {
            assert(forall|j: int|
                0 <= j < self.pairs().len() ==> (#[trigger] self.pairs()[j]).0 != key);
            lemma_map_of_pairs_dom(self.pairs());
            assert(!keys_of(self.pairs()).contains(key));
        }
        None
    }
}

/// What one query for the device number behind a path can come back with.
pub enum DevnoLookup {
    /// The query itself failed; the payload is its error text.
    Failed(Seq<char>),
    /// The path exists but does not name a block device, or names nothing.
    NotBlock,
    /// The path names a block device with this 64-bit device number.
    Devno(u64),
}

/// The outcome of resolving a list of paths, given what each device-number
/// query came back with.
pub enum ResolveOutcome {
    /// Every queried path named a block device; the resulting mapping.
    Resolved(Map<DeviceIdentity, Seq<char>>),
    /// The first offence was a path that is no block device; the payload is
    /// that path.
    Rejected(Seq<char>),
    /// The first offence was a failing query; the payload is its error text.
    Failed(Seq<char>),
}

/// Resolution as a function of the query outcomes: the lookups are consumed
/// in order, each one paired with the path at its position; the first
/// rejection or failure settles the outcome, and on success the mapping
/// retains, for aliasing paths, the one supplied last.
pub open spec fn resolve_spec(looks: Seq<DevnoLookup>, paths: Seq<Seq<char>>) -> ResolveOutcome
    recommends
        looks.len() <= paths.len(),
    decreases looks.len(),
{
    if looks.len() == 0 {
        ResolveOutcome::Resolved(Map::empty())
    } else {
        match resolve_spec(looks.drop_last(), paths) {
            ResolveOutcome::Resolved(m) => match looks.last() {
                DevnoLookup::Failed(msg) => ResolveOutcome::Failed(msg),
                DevnoLookup::NotBlock => ResolveOutcome::Rejected(paths[looks.len() - 1]),
                DevnoLookup::Devno(d) => ResolveOutcome::Resolved(
                    m.insert(identity_of(d), paths[looks.len() - 1]),
                ),
            },
            other => other,
        }
    }
}

/// The error message with which a path that is no block device is rejected.
pub open spec fn invalid_path_msg(path: Seq<char>) -> Seq<char> {
    "path "@ + path + " does not refer to a block device"@
}

/// How a resolution result corresponds to the outcomes of the device-number
/// queries that were made for the leading input paths, in order.
pub open spec fn resolve_matches(
    looks: Seq<DevnoLookup>,
    paths: Seq<Seq<char>>,
    r: Result<ResolvedDeviceSet, StratisError>,
) -> bool {
    &&& looks.len() <= paths.len()
    &&& match resolve_spec(looks, paths) {
        ResolveOutcome::Resolved(m) => {
            &&& looks.len() == paths.len()
            &&& r matches Ok(set) && set.wf() && set@ == m
        },
        ResolveOutcome::Rejected(p) => r matches Err(e) && e@ == ErrorView::Invalid(
            invalid_path_msg(p),
        ),
        ResolveOutcome::Failed(msg) => r matches Err(e) && e@ == ErrorView::Io(msg),
    }
}

/// Relies on `devicemapper::devnode_to_devno`: a read-only query of the OS
/// for the device number backing a path. It answers `None` when the path
/// names no block device or nothing at all, and fails only when the path's
/// metadata cannot be read; the error text is the underlying error's. The
/// answer reflects the state of the system at the moment of the call, so
/// nothing is assumed of it.
#[verifier::external_body]
fn devno_for_path(path: &str) -> (r: Result<Option<u64>, String>) {
    match devicemapper::devnode_to_devno(std::path::Path::new(path)) {
        Ok(v) => Ok(v),
        Err(e) => Err(format!("{e}")),
    }
}

/// Resolve a list of paths to a deduplicated set of block devices, each
/// mapped to one of the paths that reached it. Fails with an `Invalid`
/// error naming the first path that does not refer to a block device, and
/// resolves no path after it; a failing query is reported as an `Io` error.
pub fn resolve_devices(paths: &Vec<String>) -> (r: Result<ResolvedDeviceSet, StratisError>)
    ensures
        exists|looks: Seq<DevnoLookup>| #[trigger] resolve_matches(looks, paths.deep_view(), r),
        r matches Ok(set) ==> set.wf() && set@.dom().len() <= paths@.len(),
{
    let ghost pv = paths.deep_view();
    let mut set = ResolvedDeviceSet::new();
    let ghost mut looks: Seq<DevnoLookup> = Seq::empty();
    let mut i: usize = 0;
    proof {
        assert(resolve_spec(looks, pv) == ResolveOutcome::Resolved(set@));
    }
    while i < paths.len()
        invariant
            pv == paths.deep_view(),
            0 <= i <= paths.len(),
            looks.len() == i,
            set.wf(),
            all_block(looks),
            resolve_spec(looks, pv) == ResolveOutcome::Resolved(set@),
        decreases paths.len() - i,
    {
        proof {
            assert(pv[i as int] == paths[i as int]@);
        }
        match devno_for_path(paths[i].as_str()) {
            Err(msg) => {
                proof {
                    let l2 = looks.push(DevnoLookup::Failed(msg@));
                    assert(l2.drop_last() =~= looks);
                    assert(resolve_spec(l2, pv) == ResolveOutcome::Failed(msg@));
                    assert(resolve_matches(l2, pv, Err::<ResolvedDeviceSet, StratisError>(
                        StratisError::Io(msg),
                    )));
                }
                return Err(StratisError::Io(msg));
            },
            Ok(None) => {
                let m = String::from_str("path ").concat(paths[i].as_str()).concat(
                    " does not refer to a block device",
                );
                proof {
                    let l2 = looks.push(DevnoLookup::NotBlock);
                    assert(l2.drop_last() =~= looks);
                    assert(resolve_spec(l2, pv) == ResolveOutcome::Rejected(pv[i as int]));
                    assert(m@ == invalid_path_msg(pv[i as int]));
                    assert(resolve_matches(l2, pv, Err::<ResolvedDeviceSet, StratisError>(
                        StratisError::Invalid(m),
                    )));
                }
                return Err(StratisError::Invalid(m));
            },
            Ok(Some(devno)) => {
                let id = DeviceIdentity::from_devno(devno);
                let ghost prev = set@;
                set.insert(id, paths[i].clone());
                proof {
                    let l2 = looks.push(DevnoLookup::Devno(devno));
                    assert(l2.drop_last() =~= looks);
                    assert(resolve_spec(l2, pv) == ResolveOutcome::Resolved(
                        prev.insert(identity_of(devno), pv[i as int]),
                    ));
                    looks = l2;
                    assert(resolve_spec(looks, pv) == ResolveOutcome::Resolved(set@));
                }
            },
        }
        i += 1;
    }
    proof {
        assert(resolve_matches(looks, pv, Ok::<ResolvedDeviceSet, StratisError>(set)));
        lemma_resolve_is_bounded(looks, pv);
    }
    Ok(set)
}

/// Resolution is fail-fast: once the queries made so far have settled the
/// outcome as a rejection or a failure, the outcomes of any queries that
/// could have followed cannot change it. The paths after the first offender
/// are never resolved.
pub proof fn lemma_resolution_is_fail_fast(
    looks: Seq<DevnoLookup>,
    paths: Seq<Seq<char>>,
    ext: Seq<DevnoLookup>,
)
    requires
        !(resolve_spec(looks, paths) is Resolved),
    ensures
        resolve_spec(looks + ext, paths) == resolve_spec(looks, paths),
    decreases ext.len(),
{
    if ext.len() == 0 {
        assert(looks + ext =~= looks);
    } else {
        lemma_resolution_is_fail_fast(looks, paths, ext.drop_last());
        assert((looks + ext).drop_last() =~= looks + ext.drop_last());
    }
}

/// Whether every query outcome named a block device.
pub open spec fn all_block(looks: Seq<DevnoLookup>) -> bool {
    forall|i: int| 0 <= i < looks.len() ==> (#[trigger] looks[i]) is Devno
}

/// The device number held by a query outcome.
pub open spec fn devno_of(l: DevnoLookup) -> u64 {
    match l {
        DevnoLookup::Devno(d) => d,
        _ => 0,
    }
}

/// The device identities behind a sequence of query outcomes, in order.
pub open spec fn identities_of(looks: Seq<DevnoLookup>) -> Seq<DeviceIdentity> {
    looks.map_values(|l: DevnoLookup| identity_of(devno_of(l)))
}

/// The set of a non-empty sequence of identities is the set of its prefix
/// plus its last element.
proof fn lemma_id_seq_to_set_last(s: Seq<DeviceIdentity>)
    requires
        s.len() > 0,
    ensures
        s.to_set() =~= s.drop_last().to_set().insert(s.last()),
{
    assert forall|x: DeviceIdentity| #[trigger]
        s.to_set().contains(x) implies s.drop_last().to_set().contains(x) || x == s.last() by {
        let k = choose|k: int| 0 <= k < s.len() && s[k] == x;
        if k < s.len() - 1 {
            assert(s.drop_last()[k] == x);
            assert(s.drop_last().contains(x));
        }
    }
    assert forall|x: DeviceIdentity|
        s.drop_last().to_set().contains(x) || x == s.last() implies #[trigger] s.to_set().contains(
        x,
    ) by {
        if s.drop_last().to_set().contains(x) {
            let k = choose|k: int| 0 <= k < s.drop_last().len() && s.drop_last()[k] == x;
            assert(s[k] == x);
        } else {
            assert(s[s.len() - 1] == x);
        }
        assert(s.contains(x));
    }
}

/// When every queried path names a block device, resolution succeeds and
/// the resulting mapping holds exactly one entry per distinct device.
pub proof fn lemma_resolve_collects_identities(looks: Seq<DevnoLookup>, paths: Seq<Seq<char>>)
    requires
        all_block(looks),
        looks.len() <= paths.len(),
    ensures
        resolve_spec(looks, paths) matches ResolveOutcome::Resolved(m) && m.dom()
            =~= identities_of(looks).to_set(),
    decreases looks.len(),
{
    if looks.len() == 0 {
        assert(identities_of(looks).to_set() =~= Set::<DeviceIdentity>::empty());
    } else {
        lemma_resolve_collects_identities(looks.drop_last(), paths);
        let m0 = resolve_spec(looks.drop_last(), paths)->Resolved_0;
        lemma_id_seq_to_set_last(identities_of(looks));
        assert(identities_of(looks).drop_last() =~= identities_of(looks.drop_last()));
        assert(identities_of(looks).last() == identity_of(devno_of(looks.last())));
    }
}

/// One mapping entry per distinct device: the mapping never has more
/// entries than there were paths.
pub proof fn lemma_resolve_is_bounded(looks: Seq<DevnoLookup>, paths: Seq<Seq<char>>)
    requires
        all_block(looks),
        looks.len() <= paths.len(),
    ensures
        resolve_spec(looks, paths) matches ResolveOutcome::Resolved(m) && m.dom().len()
            <= looks.len(),
{
    lemma_resolve_collects_identities(looks, paths);
    identities_of(looks).lemma_cardinality_of_set();
}

/// Deduplication of aliases: when two input paths alias the same physical
/// device, the mapping that resolution returns has strictly fewer entries
/// than there were inputs.
pub proof fn lemma_resolve_dedups_aliases(
    looks: Seq<DevnoLookup>,
    paths: Seq<Seq<char>>,
    i: int,
    j: int,
)
    requires
        all_block(looks),
        looks.len() <= paths.len(),
        0 <= i < j < looks.len(),
        identity_of(devno_of(looks[i])) == identity_of(devno_of(looks[j])),
    ensures
        resolve_spec(looks, paths) matches ResolveOutcome::Resolved(m) && m.dom().len()
            < looks.len(),
{
    lemma_resolve_collects_identities(looks, paths);
    let ids = identities_of(looks);
    let shorter = ids.remove(j);
    assert forall|x: DeviceIdentity| #[trigger]
        ids.to_set().contains(x) implies shorter.to_set().contains(x) by {
        let k = choose|k: int| 0 <= k < ids.len() && ids[k] == x;
        if k == j {
            assert(shorter[i] == x);
        } else if k < j {
            assert(shorter[k] == x);
        } else {
            assert(shorter[k - 1] == x);
        }
        assert(shorter.contains(x));
    }
    assert forall|x: DeviceIdentity| #[trigger]
        shorter.to_set().contains(x) implies ids.to_set().contains(x) by {
        let k = choose|k: int| 0 <= k < shorter.len() && shorter[k] == x;
        if k < j {
            assert(ids[k] == x);
        } else {
            assert(ids[k + 1] == x);
        }
        assert(ids.contains(x));
    }
    assert(ids.to_set() =~= shorter.to_set());
    shorter.lemma_cardinality_of_set();
}

/// The identities of a sequence of entries, in order.
pub open spec fn keys_of(s: Seq<(DeviceIdentity, Seq<char>)>) -> Seq<DeviceIdentity> {
    s.map_values(|p: (DeviceIdentity, Seq<char>)| p.0)
}

/// The domain of the denoted map is exactly the set of identities present,
/// and with no duplicate identity every stored value is visible.
pub proof fn lemma_map_of_pairs_dom(s: Seq<(DeviceIdentity, Seq<char>)>)
    ensures
        map_of_pairs(s).dom() =~= keys_of(s).to_set(),
    decreases s.len(),
{
    if s.len() == 0 {
        assert(keys_of(s).to_set() =~= Set::<DeviceIdentity>::empty());
    } else {
        lemma_map_of_pairs_dom(s.drop_last());
        assert(keys_of(s.drop_last()) =~= keys_of(s).drop_last());
        assert forall|x: DeviceIdentity| #[trigger]
            keys_of(s).to_set().contains(x) implies map_of_pairs(s).dom().contains(x) by {
            let i = choose|i: int| 0 <= i < keys_of(s).len() && keys_of(s)[i] == x;
            if i < s.len() - 1 {
                assert(keys_of(s).drop_last()[i] == x);
                assert(keys_of(s).drop_last().to_set().contains(x));
            } else {
                assert(x == s.last().0);
            }
        }
        assert forall|x: DeviceIdentity| #[trigger]
            map_of_pairs(s).dom().contains(x) implies keys_of(s).to_set().contains(x) by {
            if x == s.last().0 {
                assert(keys_of(s)[s.len() - 1] == x);
                assert(keys_of(s).contains(x));
            } else {
                assert(keys_of(s).drop_last().to_set().contains(x));
                let i = choose|i: int|
                    0 <= i < keys_of(s).drop_last().len() && keys_of(s).drop_last()[i] == x;
                assert(keys_of(s)[i] == x);
                assert(keys_of(s).contains(x));
            }
        }
    }
}

/// With no duplicate identity, the entry at position `i` is what the map
/// holds for its identity.
pub proof fn lemma_map_of_pairs_at(s: Seq<(DeviceIdentity, Seq<char>)>, i: int)
    requires
        0 <= i < s.len(),
        forall|a: int, b: int| 0 <= a < b < s.len() ==> (#[trigger] s[a]).0 != (#[trigger] s[b]).0,
    ensures
        map_of_pairs(s).dom().contains(s[i].0),
        map_of_pairs(s)[s[i].0] == s[i].1,
    decreases s.len(),
{
    if i == s.len() - 1 {
    } else {
        lemma_map_of_pairs_at(s.drop_last(), i);
        assert(s.drop_last()[i] == s[i]);
        assert(s[i].0 != s.last().0);
    }
}

/// Removing an entry whose identity is about to be overwritten does not
/// change the outcome of the overwrite.
pub proof fn lemma_map_of_pairs_remove_redundant(
    s: Seq<(DeviceIdentity, Seq<char>)>,
    i: int,
    key: DeviceIdentity,
    value: Seq<char>,
)
    requires
        0 <= i < s.len(),
        s[i].0 == key,
        forall|a: int, b: int| 0 <= a < b < s.len() ==> (#[trigger] s[a]).0 != (#[trigger] s[b]).0,
    ensures
        map_of_pairs(s.remove(i)).insert(key, value) == map_of_pairs(s).insert(key, value),
    decreases s.len(),
{
    if i == s.len() - 1 {
        assert(s.remove(i) =~= s.drop_last());
        assert(map_of_pairs(s).insert(key, value) =~= map_of_pairs(s.drop_last()).insert(
            key,
            value,
        ));
    } else {
        lemma_map_of_pairs_remove_redundant(s.drop_last(), i, key, value);
        assert(s.remove(i).drop_last() =~= s.drop_last().remove(i));
        assert(s.remove(i).last() == s.last());
        let last = s.last();
        assert(s[i].0 != last.0);
        assert(map_of_pairs(s.remove(i)) == map_of_pairs(s.drop_last().remove(i)).insert(
            last.0,
            last.1,
        ));
        assert(map_of_pairs(s.remove(i)).insert(key, value) =~= map_of_pairs(
            s.drop_last().remove(i),
        ).insert(key, value).insert(last.0, last.1));
        assert(map_of_pairs(s).insert(key, value) =~= map_of_pairs(s.drop_last()).insert(
            key,
            value,
        ).insert(last.0, last.1));
    }
}

} // verus!
