use vstd::prelude::*;
use vstd::string::*;
use vstd::seq_lib::*;
use crate::config::Registry;
use crate::errors::GripError;
use crate::package::Package;

verus! {

/// Registry position `a` is consulted before position `b`: it has the
/// higher priority, or the same priority and the earlier place in the
/// configured sequence.
pub open spec fn precedes(regs: Seq<Registry>, a: usize, b: usize) -> bool {
    ||| regs[a as int].priority > regs[b as int].priority
    ||| (regs[a as int].priority == regs[b as int].priority && a < b)
}

/// Position `i` of the configured sequence occurs in `ord`.
pub open spec fn appears(ord: Seq<usize>, i: int) -> bool {
    exists|k: int| 0 <= k < ord.len() && (#[trigger] ord[k]) == i
}

/// `ord` is the resolution order over `regs`: a permutation of all
/// positions, sorted by priority descending with ties kept in configured
/// order. Exactly one sequence satisfies this.
pub open spec fn order_ok(regs: Seq<Registry>, ord: Seq<usize>) -> bool {
    &&& ord.len() == regs.len()
    &&& forall|k: int| 0 <= k < ord.len() ==> (#[trigger] ord[k]) < regs.len()
    &&& forall|k: int, l: int|
        0 <= k < l < ord.len() ==> precedes(regs, #[trigger] ord[k], #[trigger] ord[l])
    &&& forall|i: int| 0 <= i < regs.len() ==> appears(ord, i)
}

/// Computes the resolution order of the configured registries.
pub fn resolution_order(regs: &Vec<Registry>) -> (ord: Vec<usize>)
    ensures
        order_ok(regs@, ord@),
{
    let n: usize = regs.len();
    let mut ord: Vec<usize> = Vec::new();
    let mut i: usize = 0;
    while i < n
        invariant
            i <= n,
            n == regs@.len(),
            ord@.len() == i,
            forall|k: int| 0 <= k < ord@.len() ==> (#[trigger] ord@[k]) < i,
            forall|k: int, l: int|
                0 <= k < l < ord@.len() ==> precedes(regs@, #[trigger] ord@[k], #[trigger] ord@[l]),
            forall|j: int| 0 <= j < i ==> appears(ord@, j),
        decreases n - i,
    {
        let p: i32 = regs[i].priority;
        let mut pos: usize = 0;
        while pos < ord.len() && regs[ord[pos]].priority >= p
            invariant
                pos <= ord@.len(),
                i <= n,
                n == regs@.len(),
                ord@.len() == i,
                forall|k: int| 0 <= k < ord@.len() ==> (#[trigger] ord@[k]) < i,
                p == regs@[i as int].priority,
                forall|k: int| 0 <= k < pos ==> regs@[(#[trigger] ord@[k]) as int].priority >= p,
            decreases ord@.len() - pos,
        {
            pos += 1;
        }
        let ghost old_ord = ord@;
        ord.insert(pos, i);
        proof {
            old_ord.insert_ensures(pos as int, i);
            let new_ord = ord@;
            // every element below the insertion point outranks the new one;
            // every element at or after it ranks below.
            assert forall|k: int, l: int| 0 <= k < l < new_ord.len() implies precedes(
                regs@,
                #[trigger] new_ord[k],
                #[trigger] new_ord[l],
            ) by {
                if l < pos {
                } else if k < pos && l == pos {
                    assert(new_ord[k] == old_ord[k]);
                    assert(regs@[old_ord[k] as int].priority >= p);
                    assert(old_ord[k] < i);
                } else if k < pos && l > pos {
                    assert(new_ord[k] == old_ord[k]);
                    assert(new_ord[l] == old_ord[l - 1]);
                } else if k == pos && l > pos {
                    assert(new_ord[l] == old_ord[l - 1]);
                    if pos < old_ord.len() {
                        assert(regs@[old_ord[pos as int] as int].priority < p);
                        if pos < l - 1 {
                            assert(precedes(regs@, old_ord[pos as int], old_ord[l - 1]));
                        }
                        assert(regs@[old_ord[l - 1] as int].priority < p);
                    }
                } else {
                    assert(new_ord[k] == old_ord[k - 1]);
                    assert(new_ord[l] == old_ord[l - 1]);
                }
            }
            assert forall|j: int| 0 <= j < i + 1 implies appears(new_ord, j) by {
                if j == i {
                    assert(new_ord[pos as int] == i);
                } else {
                    assert(appears(old_ord, j));
                    let k = choose|k: int| 0 <= k < old_ord.len() && (#[trigger] old_ord[k]) == j;
                    if k < pos {
                        assert(new_ord[k] == old_ord[k]);
                    } else {
                        assert(new_ord[k + 1] == old_ord[k]);
                    }
                }
            }
        }
        i += 1;
    }
    ord
}

/// The first position in resolution order, at or after `k`, whose
/// registry holds the package (`holds[i]` says the registry at configured
/// position `i` holds it).
pub open spec fn first_hit_from(ord: Seq<usize>, holds: Seq<bool>, k: int) -> Option<int>
    decreases ord.len() - k,
{
    if k >= ord.len() {
        None
    } else if holds[ord[k] as int] {
        Some(k)
    } else {
        first_hit_from(ord, holds, k + 1)
    }
}

/// The configured position of the registry that resolution returns the
/// manifest from, if any registry holds the package.
pub open spec fn winning_registry(regs: Seq<Registry>, ord: Seq<usize>, holds: Seq<bool>) -> Option<
    int,
> {
    match first_hit_from(ord, holds, 0) {
        Some(k) => Some(ord[k] as int),
        None => None,
    }
}

proof fn lemma_first_hit(ord: Seq<usize>, holds: Seq<bool>, k: int)
    requires
        0 <= k <= ord.len(),
        forall|l: int| 0 <= l < ord.len() ==> (#[trigger] ord[l]) < holds.len(),
    ensures
        match first_hit_from(ord, holds, k) {
            Some(p) => k <= p < ord.len() && holds[ord[p] as int] && forall|l: int|
                k <= l < p ==> !holds[(#[trigger] ord[l]) as int],
            None => forall|l: int| k <= l < ord.len() ==> !holds[(#[trigger] ord[l]) as int],
        },
    decreases ord.len() - k,
{
    if k < ord.len() && !holds[ord[k] as int] {
        lemma_first_hit(ord, holds, k + 1);
    }
}

/// Law: resolution returns the manifest from the highest-priority registry
/// holding the package, and among equal priorities from the one configured
/// first. In particular, a package present in two registries of different
/// priorities always comes from the higher-priority one, whatever the
/// configuration order; and with equal priorities resolution is stable,
/// following configuration order.
pub proof fn lemma_winner_is_best(regs: Seq<Registry>, ord: Seq<usize>, holds: Seq<bool>, i: int)
    requires
        order_ok(regs, ord),
        holds.len() == regs.len(),
        0 <= i < regs.len(),
        holds[i],
    ensures
        winning_registry(regs, ord, holds) matches Some(w) && 0 <= w < regs.len() && holds[w]
            && regs[w].priority >= regs[i].priority && (regs[w].priority == regs[i].priority ==> w
            <= i),
{
    lemma_first_hit(ord, holds, 0);
    assert(appears(ord, i));
    let ki = choose|k: int| 0 <= k < ord.len() && (#[trigger] ord[k]) == i;
    match first_hit_from(ord, holds, 0) {
        Some(p) => {
            let w = ord[p] as int;
            if p < ki {
                assert(precedes(regs, ord[p], ord[ki]));
            } else if ki < p {
                assert(!holds[ord[ki] as int]);
            }
        },
        None => {
            assert(!holds[ord[ki] as int]);
        },
    }
}

/// Law: a package absent from every registry has no winning registry;
/// resolution exhausts the order and fails with `PackageNotFound`, as the
/// resolver below guarantees step by step.
pub proof fn lemma_absent_no_winner(regs: Seq<Registry>, ord: Seq<usize>, holds: Seq<bool>)
    requires
        order_ok(regs, ord),
        holds.len() == regs.len(),
        forall|i: int| 0 <= i < holds.len() ==> !(#[trigger] holds[i]),
    ensures
        winning_registry(regs, ord, holds) is None,
{
    lemma_first_hit(ord, holds, 0);
}

/// Law: with all priorities equal, resolution returns the manifest from
/// the first registry in configuration order that holds the package.
pub proof fn lemma_equal_priorities_config_order(
    regs: Seq<Registry>,
    ord: Seq<usize>,
    holds: Seq<bool>,
    i: int,
)
    requires
        order_ok(regs, ord),
        holds.len() == regs.len(),
        0 <= i < regs.len(),
        holds[i],
        forall|a: int, b: int|
            0 <= a < regs.len() && 0 <= b < regs.len() ==> #[trigger] regs[a].priority
                == #[trigger] regs[b].priority,
    ensures
        winning_registry(regs, ord, holds) matches Some(w) && holds[w] && forall|j: int|
            0 <= j < w ==> !holds[j],
{
    lemma_winner_is_best(regs, ord, holds, i);
    let w = winning_registry(regs, ord, holds)->Some_0;
    assert forall|j: int| 0 <= j < w implies !holds[j] by {
        if holds[j] {
            lemma_winner_is_best(regs, ord, holds, j);
        }
    }
}

/// The resolver below probes positions of the resolution order one by
/// one, returning the first hit: a hit at the pending position is the
/// first hit from there, and a miss leaves the first hit to the positions
/// after it. Its run therefore returns the manifest of exactly the
/// winning registry.
pub proof fn lemma_machine_follows_winner(ord: Seq<usize>, holds: Seq<bool>, pos: int)
    requires
        0 <= pos < ord.len(),
        forall|l: int| 0 <= l < ord.len() ==> (#[trigger] ord[l]) < holds.len(),
    ensures
        holds[ord[pos] as int] ==> first_hit_from(ord, holds, pos) == Some(pos),
        !holds[ord[pos] as int] ==> first_hit_from(ord, holds, pos) == first_hit_from(
            ord,
            holds,
            pos + 1,
        ),
{
}

/// The remote a registry is cloned from: its configured URL over https,
/// with the `.git` suffix.
pub fn clone_url(url: &str) -> (r: String)
    ensures
        r@ == "https://"@ + url@ + ".git"@,
{
    "https://".to_owned().concat(url).concat(".git")
}

/// The working copy of a registry's index on disk:
/// `<data_root>/registries/<name>`. A missing copy is cloned shallowly;
/// an existing one is updated fast-forward only.
pub fn registry_copy_dir(data_root: &str, name: &str) -> (r: String)
    ensures
        r@ == data_root@ + "/registries/"@ + name@,
{
    data_root.to_owned().concat("/registries/").concat(name)
}

/// The manifest file probed for a package inside a registry working copy:
/// `<registry_copy>/packages/<package>.json`.
pub fn manifest_path(registry_copy: &str, package: &str) -> (r: String)
    ensures
        r@ == registry_copy@ + "/packages/"@ + package@ + ".json"@,
{
    registry_copy.to_owned().concat("/packages/").concat(package).concat(".json")
}

/// What probing one registry turned up. The caller syncs the registry's
/// working copy and looks for `packages/<name>.json` in it.
pub enum ProbeResult {
    /// The sync process reported failure; `cloned` tells whether a fresh
    /// clone was attempted rather than an update of an existing copy.
    SyncFailed { cloned: bool },
    /// The registry holds a manifest for the package, read and parsed.
    Found(Package),
    /// The manifest file exists but did not parse: the parse error text,
    /// surfaced as-is rather than downgraded to `PackageNotFound`.
    Malformed(String),
    /// The registry holds no manifest for the package.
    Missing,
}

/// Walks the configured registries in resolution order, one probe at a
/// time, and short-circuits on the first hit: once a registry yields a
/// manifest, no lower-priority registry is consulted.
pub struct Resolver {
    pub package: String,
    pub regs: Vec<Registry>,
    pub ord: Vec<usize>,
    pub pos: usize,
}

impl Resolver {
    pub open spec fn wf(self) -> bool {
        &&& order_ok(self.regs@, self.ord@)
        &&& self.pos <= self.ord@.len()
    }

    /// Starts a resolution over the configured registries.
    pub fn new(regs: Vec<Registry>, package: String) -> (r: Resolver)
        ensures
            r.wf(),
            r.regs@ == regs@,
            r.package@ == package@,
            r.pos == 0,
    {
        let ord = resolution_order(&regs);
        Resolver { package, regs, ord, pos: 0 }
    }

    /// The registry to sync and probe next; `None` once every registry
    /// has been probed without a hit.
    pub fn pending(&self) -> (r: Option<&Registry>)
        requires
            self.wf(),
        ensures
            self.pos < self.ord@.len() ==> (r matches Some(reg) && *reg == self.regs@[self.ord@[self.pos as int] as int]),
            self.pos >= self.ord@.len() ==> r is None,
    {
        if self.pos < self.ord.len() {
            Some(&self.regs[self.ord[self.pos]])
        } else {
            None
        }
    }

    /// Takes the result of probing the pending registry. A manifest is
    /// returned at once; a sync failure or a malformed manifest aborts the
    /// resolution with that first failure; a miss moves on, and a miss at
    /// the last registry fails with `PackageNotFound` naming the package.
    /// A successful result only ever comes from a `Found` probe.
    pub fn on_probe(&mut self, probe: ProbeResult) -> (out: Option<Result<Package, GripError>>)
        requires
            old(self).wf(),
            old(self).pos < old(self).ord@.len(),
        ensures
            final(self).wf(),
            final(self).regs@ == old(self).regs@,
            final(self).ord@ == old(self).ord@,
            final(self).package@ == old(self).package@,
            match probe {
                ProbeResult::Found(pkg) => out matches Some(Ok(p)) && p == pkg && final(self).pos
                    == old(self).pos,
                ProbeResult::Malformed(m) => out matches Some(Err(e)) && (
                e matches GripError::Other(t) && t == m) && final(self).pos == old(self).pos,
                ProbeResult::SyncFailed { cloned } => out matches Some(Err(e)) && (
                e matches GripError::RegistryError(t) && t@ == (if cloned {
                    "Failed to clone registry "@
                } else {
                    "Failed to update registry "@
                }) + old(self).regs@[old(self).ord@[old(self).pos as int] as int].name@)
                    && final(self).pos == old(self).pos,
                ProbeResult::Missing => {
                    &&& final(self).pos == old(self).pos + 1
                    &&& if old(self).pos + 1 == old(self).ord@.len() {
                        out matches Some(Err(e)) && (e matches GripError::PackageNotFound(t) && t@
                            == old(self).package@)
                    } else {
                        out is None
                    }
                },
            },
    {
        match probe {
            ProbeResult::Found(pkg) => Some(Ok(pkg)),
            ProbeResult::Malformed(m) => Some(Err(GripError::Other(m))),
            ProbeResult::SyncFailed { cloned } => {
                let reg_name: &String = &self.regs[self.ord[self.pos]].name;
                let msg = if cloned {
                    "Failed to clone registry ".to_owned().concat(reg_name.as_str())
                } else {
                    "Failed to update registry ".to_owned().concat(reg_name.as_str())
                };
                Some(Err(GripError::RegistryError(msg)))
            },
            ProbeResult::Missing => {
                let total: usize = self.ord.len();
                self.pos = self.pos + 1;
                if self.pos == total {
                    Some(Err(GripError::PackageNotFound(self.package.clone())))
                } else {
                    None
                }
            },
        }
    }
}

} // verus!
