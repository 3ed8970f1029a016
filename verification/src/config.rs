use vstd::prelude::*;
use vstd::string::*;
use crate::errors::GripError;
use crate::text::str_eq;

verus! {

/// A prioritized, version-control-backed source of package manifests.
/// Higher priority is consulted first during resolution; ties are broken
/// by position in the configured sequence.
#[derive(Debug)]
pub struct Registry {
    pub name: String,
    pub url: String,
    pub priority: i32,
}

impl Clone for Registry {
    fn clone(&self) -> (r: Self)
        ensures
            r == *self,
    {
        Registry { name: self.name.clone(), url: self.url.clone(), priority: self.priority }
    }
}

#[derive(Debug)]
pub struct Settings {
    pub install_dir: String,
    pub auto_update: bool,
}

/// The configured registry set, read by the resolution pipeline and
/// mutated only by the registry-management operations below.
#[derive(Debug)]
pub struct Config {
    pub registries: Vec<Registry>,
    pub default_registry: String,
    pub cache_ttl: u64,
    pub settings: Settings,
}

impl Default for Settings {
    fn default() -> (s: Self)
        ensures
            s.install_dir@ == "$HOME/.local/bin"@,
            s.auto_update == true,
    {
        Settings { install_dir: "$HOME/.local/bin".to_owned(), auto_update: true }
    }
}

impl Default for Config {
    fn default() -> (c: Self)
        ensures
            c.registries@.len() == 1,
            c.registries@[0].name@ == "default"@,
            c.registries@[0].url@ == "github.com/Grip-Packages/Grip-Packages"@,
            c.registries@[0].priority == 100,
            c.default_registry@ == "github.com/Grip-Packages/Grip-Packages"@,
            c.cache_ttl == 3600,
            c.settings.install_dir@ == "$HOME/.local/bin"@,
            c.settings.auto_update == true,
    {
        let mut registries: Vec<Registry> = Vec::new();
        registries.push(Registry {
            name: "default".to_owned(),
            url: "github.com/Grip-Packages/Grip-Packages".to_owned(),
            priority: 100,
        });
        Config {
            registries,
            default_registry: "github.com/Grip-Packages/Grip-Packages".to_owned(),
            cache_ttl: 3600,
            settings: Settings::default(),
        }
    }
}

/// Whether some registry in `regs` is named `name`.
pub open spec fn has_registry_named(regs: Seq<Registry>, name: Seq<char>) -> bool {
    exists|i: int| 0 <= i < regs.len() && regs[i].name@ == name
}

/// The default priority given to a registry added without one.
pub open spec fn priority_or_default(p: Option<i32>) -> i32 {
    match p {
        Some(v) => v,
        None => 0,
    }
}

impl Config {
    /// Adds a registry under a fresh name; refuses a name already in use.
    /// The registry set is otherwise unchanged, and an added registry goes
    /// to the end of the configured sequence.
    pub fn add_registry(&mut self, name: String, url: String, priority: Option<i32>) -> (r: Result<
        (),
        GripError,
    >)
        ensures
            match r {
                Ok(()) => {
                    &&& !has_registry_named(old(self).registries@, name@)
                    &&& final(self).registries@ == old(self).registries@.push(
                        (Registry { name, url, priority: priority_or_default(priority) }),
                    )
                },
                Err(e) => {
                    &&& has_registry_named(old(self).registries@, name@)
                    &&& *final(self) == *old(self)
                    &&& e matches GripError::RegistryError(m)
                        && m@ == "Registry '"@ + name@ + "' already exists"@
                },
            },
            final(self).default_registry == old(self).default_registry,
            final(self).cache_ttl == old(self).cache_ttl,
    {
        let n: usize = self.registries.len();
        let mut i: usize = 0;
        while i < n
            invariant
                i <= n,
                n == self.registries@.len(),
                forall|j: int| 0 <= j < i ==> self.registries@[j].name@ != name@,
            decreases n - i,
        {
            if str_eq(self.registries[i].name.as_str(), name.as_str()) {
                let msg = "Registry '".to_owned().concat(name.as_str()).concat(
                    "' already exists",
                );
                return Err(GripError::RegistryError(msg));
            }
            i += 1;
        }
        let reg = Registry { name, url, priority: unwrap_or_zero(priority) };
        self.registries.push(reg);
        Ok(())
    }

    /// Removes every registry of the given name; the default registry
    /// cannot be removed, and removing an unknown name is an error that
    /// leaves the configuration unchanged.
    pub fn remove_registry(&mut self, name: &String) -> (r: Result<(), GripError>)
        ensures
            match r {
                Ok(()) => {
                    &&& name@ != "default"@
                    &&& has_registry_named(old(self).registries@, name@)
                    &&& final(self).registries@ == old(self).registries@.filter(
                        |reg: Registry| reg.name@ != name@,
                    )
                },
                Err(e) => {
                    &&& *final(self) == *old(self)
                    &&& if name@ == "default"@ {
                        e matches GripError::RegistryError(m)
                            && m@ == "Cannot remove default registry"@
                    } else {
                        !has_registry_named(old(self).registries@, name@)
                            && (e matches GripError::RegistryNotFound(m) && m@ == name@)
                    }
                },
            },
            final(self).default_registry == old(self).default_registry,
            final(self).cache_ttl == old(self).cache_ttl,
    {
        if str_eq(name.as_str(), "default") {
            return Err(GripError::RegistryError("Cannot remove default registry".to_owned()));
        }
        let ghost pred = |reg: Registry| reg.name@ != name@;
        let n: usize = self.registries.len();
        let mut kept: Vec<Registry> = Vec::new();
        let mut i: usize = 0;
        while i < n
            invariant
                i <= n,
                n == self.registries@.len(),
                kept@ == self.registries@.subrange(0, i as int).filter(pred),
                pred == (|reg: Registry| reg.name@ != name@),
            decreases n - i,
        {
            let keep = !str_eq(self.registries[i].name.as_str(), name.as_str());
            proof {
                lemma_filter_push(
                    self.registries@.subrange(0, i as int),
                    pred,
                    self.registries@[i as int],
                );
                assert(self.registries@.subrange(0, i + 1).drop_last() =~= self.registries@
                    .subrange(0, i as int));
                assert(self.registries@.subrange(0, i + 1) =~= self.registries@.subrange(
                    0,
                    i as int,
                ).push(self.registries@[i as int]));
            }
            if keep {
                let reg = self.registries[i].clone();
                kept.push(reg);
            }
            i += 1;
        }
        proof {
            assert(self.registries@.subrange(0, n as int) =~= self.registries@);
        }
        if kept.len() == n {
            proof {
                lemma_filter_full_len(self.registries@, pred);
            }
            return Err(GripError::RegistryNotFound(name.clone()));
        }
        proof {
            if !has_registry_named(self.registries@, name@) {
                lemma_filter_all(self.registries@, pred);
            }
        }
        self.registries = kept;
        Ok(())
    }
}

fn unwrap_or_zero(p: Option<i32>) -> (r: i32)
    ensures
        r == priority_or_default(p),
{
    match p {
        Some(v) => v,
        None => 0,
    }
}

/// Filtering a sequence extended by one element keeps the element exactly
/// when it satisfies the predicate.
proof fn lemma_filter_push(s: Seq<Registry>, pred: spec_fn(Registry) -> bool, x: Registry)
    ensures
        pred(x) ==> s.push(x).filter(pred) == s.filter(pred).push(x),
        !pred(x) ==> s.push(x).filter(pred) == s.filter(pred),
{
    reveal_with_fuel(Seq::filter, 2);
    assert(s.push(x).drop_last() =~= s);
    assert(s.push(x).last() == x);
}

/// A filter that keeps everything returns the sequence itself.
proof fn lemma_filter_all(s: Seq<Registry>, pred: spec_fn(Registry) -> bool)
    requires
        forall|i: int| 0 <= i < s.len() ==> pred(s[i]),
    ensures
        s.filter(pred) == s,
    decreases s.len(),
{
    reveal_with_fuel(Seq::filter, 2);
    if s.len() == 0 {
        assert(s.filter(pred) =~= s);
    } else {
        lemma_filter_all(s.drop_last(), pred);
        assert(s.filter(pred) =~= s);
    }
}

/// A filter that loses no length kept every element.
proof fn lemma_filter_full_len(s: Seq<Registry>, pred: spec_fn(Registry) -> bool)
    requires
        s.filter(pred).len() == s.len(),
    ensures
        forall|i: int| 0 <= i < s.len() ==> pred(s[i]),
    decreases s.len(),
{
    reveal_with_fuel(Seq::filter, 2);
    if s.len() > 0 {
        s.drop_last().lemma_filter_len(pred);
        assert(s.drop_last().filter(pred).len() == s.drop_last().len());
        lemma_filter_full_len(s.drop_last(), pred);
        assert(forall|i: int|
            0 <= i < s.len() - 1 ==> pred(#[trigger] s[i]) == pred(s.drop_last()[i]));
        assert(pred(s.last()));
    }
}

} // verus!
