//! Registry of filament profiles indexed by their names.

use vstd::prelude::*;
use crate::text::{chars_eq, chars_of};
use super::types::{name_of, Entries, FilamentProfile};

verus! {

broadcast use vstd::string::group_string_axioms;

/// Every profile has a name and no name occurs twice.
pub open spec fn registry_wf(ps: Seq<Entries>) -> bool {
    &&& forall|i: int| 0 <= i < ps.len() ==> (#[trigger] name_of(ps[i])) is Some
    &&& forall|i: int, j: int| 0 <= i < j < ps.len() ==> name_of(ps[i]) != name_of(ps[j])
}

/// Some profile of the registry is named `n`.
pub open spec fn has_profile(ps: Seq<Entries>, n: Seq<char>) -> bool {
    exists|i: int| 0 <= i < ps.len() && name_of(ps[i]) == Some(n)
}

/// Position of the profile named `n` (meaningful when there is one).
pub open spec fn profile_index(ps: Seq<Entries>, n: Seq<char>) -> int {
    choose|i: int| 0 <= i < ps.len() && name_of(ps[i]) == Some(n)
}

/// The profile named `n`, if any.
pub open spec fn profile_named(ps: Seq<Entries>, n: Seq<char>) -> Option<Entries> {
    if has_profile(ps, n) {
        Some(ps[profile_index(ps, n)])
    } else {
        None
    }
}

/// The registry after inserting a profile: a profile without a name is
/// ignored; one whose name is already present replaces the old profile in
/// place; otherwise it is added.
pub open spec fn registry_insert(ps: Seq<Entries>, p: Entries) -> Seq<Entries> {
    match name_of(p) {
        None => ps,
        Some(n) => if has_profile(ps, n) {
            ps.update(profile_index(ps, n), p)
        } else {
            ps.push(p)
        },
    }
}

/// The names of the registry's profiles, in registry order.
pub open spec fn registry_names(ps: Seq<Entries>) -> Seq<Seq<char>> {
    ps.map_values(|p: Entries| name_of(p)->0)
}

pub proof fn lemma_profile_index(ps: Seq<Entries>, n: Seq<char>, i: int)
    requires
        registry_wf(ps),
        0 <= i < ps.len(),
        name_of(ps[i]) == Some(n),
    ensures
        has_profile(ps, n),
        profile_index(ps, n) == i,
        profile_named(ps, n) == Some(ps[i]),
{
    assert(has_profile(ps, n));
    let j = profile_index(ps, n);
    if j != i {
        if j < i {
            assert(name_of(ps[j]) != name_of(ps[i]));
        } else {
            assert(name_of(ps[i]) != name_of(ps[j]));
        }
    }
}

/// Law: inserting a named profile makes it the one found under its name,
/// leaves every other name's profile as it was, keeps the registry
/// well-formed, and grows the registry by one exactly when the name was new.
/// Inserting a profile without a name changes nothing.
pub proof fn law_insert_then_lookup(ps: Seq<Entries>, p: Entries, other: Seq<char>)
    requires
        registry_wf(ps),
    ensures
        registry_wf(registry_insert(ps, p)),
        name_of(p) is None ==> registry_insert(ps, p) == ps,
        name_of(p) matches Some(n) ==> profile_named(registry_insert(ps, p), n) == Some(p),
        name_of(p) != Some(other) ==> profile_named(registry_insert(ps, p), other) == profile_named(
            ps,
            other,
        ),
        name_of(p) matches Some(n) ==> registry_insert(ps, p).len() == ps.len() + (if has_profile(
            ps,
            n,
        ) {
            0int
        } else {
            1int
        }),
{
    let ps2 = registry_insert(ps, p);
    match name_of(p) {
        None => {},
        Some(n) => {
            if has_profile(ps, n) {
                let k = profile_index(ps, n);
                assert(registry_wf(ps2)) by {
                    assert forall|i: int| 0 <= i < ps2.len() implies (#[trigger] name_of(ps2[i])) is Some by {
                        if i != k {
                            assert(ps2[i] == ps[i]);
                        }
                    }
                    assert forall|i: int, j: int| 0 <= i < j < ps2.len() implies name_of(ps2[i])
                        != name_of(ps2[j]) by {
                        if i == k {
                            assert(name_of(ps[i]) != name_of(ps[j]));
                        } else if j == k {
                            assert(name_of(ps[i]) != name_of(ps[j]));
                        }
                    }
                }
                lemma_profile_index(ps2, n, k);
                if Some(other) != Some(n) {
                    if has_profile(ps, other) {
                        let m = profile_index(ps, other);
                        assert(m != k);
                        lemma_profile_index(ps2, other, m);
                    } else {
                        assert(!has_profile(ps2, other)) by {
                            if has_profile(ps2, other) {
                                let m = profile_index(ps2, other);
                                assert(m != k);
                                assert(ps2[m] == ps[m]);
                            }
                        }
                    }
                }
            } else {
                assert(registry_wf(ps2)) by {
                    assert forall|i: int| 0 <= i < ps2.len() implies (#[trigger] name_of(ps2[i])) is Some by {
                        if i < ps.len() {
                            assert(ps2[i] == ps[i]);
                        }
                    }
                    assert forall|i: int, j: int| 0 <= i < j < ps2.len() implies name_of(ps2[i])
                        != name_of(ps2[j]) by {
                        if j == ps.len() {
                            assert(ps2[i] == ps[i]);
                            assert(name_of(ps[i]) is Some);
                            if name_of(ps[i]) == Some(n) {
                                assert(has_profile(ps, n));
                            }
                        }
                    }
                }
                lemma_profile_index(ps2, n, ps.len() as int);
                if Some(other) != Some(n) {
                    if has_profile(ps, other) {
                        let m = profile_index(ps, other);
                        lemma_profile_index(ps2, other, m);
                    } else {
                        assert(!has_profile(ps2, other)) by {
                            if has_profile(ps2, other) {
                                let m = profile_index(ps2, other);
                                if m < ps.len() {
                                    assert(ps2[m] == ps[m]);
                                }
                            }
                        }
                    }
                }
            }
        },
    }
}

/// Law: the names the registry reports are exactly the names under which a
/// profile is found, each once.
pub proof fn law_names_are_keys(ps: Seq<Entries>, n: Seq<char>)
    requires
        registry_wf(ps),
    ensures
        registry_names(ps).contains(n) <==> has_profile(ps, n),
        registry_names(ps).len() == ps.len(),
        registry_names(ps).no_duplicates(),
{
    let ns = registry_names(ps);
    if ns.contains(n) {
        let i = choose|i: int| 0 <= i < ns.len() && ns[i] == n;
        assert(name_of(ps[i]) is Some);
        assert(name_of(ps[i]) == Some(n));
    }
    if has_profile(ps, n) {
        let i = profile_index(ps, n);
        assert(ns[i] == n);
    }
    assert forall|i: int, j: int| 0 <= i < ns.len() && 0 <= j < ns.len() && i != j implies ns[i]
        != ns[j] by {
        assert(name_of(ps[i]) is Some);
        assert(name_of(ps[j]) is Some);
        if i < j {
            assert(name_of(ps[i]) != name_of(ps[j]));
        } else {
            assert(name_of(ps[j]) != name_of(ps[i]));
        }
    }
}

/// Registry of discovered filament profiles, keyed by profile name.
pub struct ProfileRegistry {
    profiles: Vec<FilamentProfile>,
}

impl View for ProfileRegistry {
    type V = Seq<Entries>;

    closed spec fn view(&self) -> Seq<Entries> {
        self.profiles@.map_values(|p: FilamentProfile| p@)
    }
}

impl ProfileRegistry {
    #[verifier::type_invariant]
    closed spec fn inv(&self) -> bool {
        registry_wf(self@)
    }

    /// The registry is well-formed: every profile named, no name twice.
    pub fn check_wf(&self)
        ensures
            registry_wf(self@),
    {
        proof {
            use_type_invariant(self);
        }
    }

    /// Create an empty registry.
    pub fn new() -> (r: ProfileRegistry)
        ensures
            r@.len() == 0,
    {
        let r = ProfileRegistry { profiles: Vec::new() };
        proof {
            assert(r@ =~= Seq::<Entries>::empty());
        }
        r
    }

    fn position(&self, name: &Vec<char>) -> (r: Option<usize>)
        ensures
            match r {
                Some(i) => i < self@.len() && name_of(self@[i as int]) == Some(name@)
                    && profile_index(self@, name@) == i && profile_named(self@, name@) == Some(
                    self@[i as int],
                ),
                None => !has_profile(self@, name@) && profile_named(self@, name@) is None,
            },
    {
        proof {
            use_type_invariant(self);
        }
        let mut i: usize = 0;
        while i < self.profiles.len()
            invariant
                i <= self.profiles@.len(),
                self@.len() == self.profiles@.len(),
                forall|k: int| 0 <= k < i ==> name_of(self@[k]) != Some(name@),
            decreases self.profiles.len() - i,
        {
            let p = &self.profiles[i];
            match p.name() {
                Some(n) => {
                    let nc = chars_of(n);
                    if chars_eq(&nc, name) {
                        proof {
                            use_type_invariant(self);
                            lemma_profile_index(self@, name@, i as int);
                        }
                        return Some(i);
                    }
                },
                None => {},
            }
            i = i + 1;
        }
        None
    }

    /// Look up a profile by its name.
    pub fn get_by_name(&self, name: &str) -> (r: Option<&FilamentProfile>)
        ensures
            match r {
                Some(p) => profile_named(self@, name@) == Some(p@),
                None => profile_named(self@, name@) is None,
            },
    {
        let n = chars_of(name);
        match self.position(&n) {
            Some(i) => Some(&self.profiles[i]),
            None => None,
        }
    }

    /// Insert a profile under its name (see `registry_insert`); a profile
    /// without a name is not inserted.
    pub fn insert(&mut self, profile: FilamentProfile)
        ensures
            final(self)@ == registry_insert(old(self)@, profile@),
    {
        proof {
            use_type_invariant(&*self);
        }
        let ghost before = self@;
        let n = match profile.name() {
            Some(n) => chars_of(n),
            None => {
                return;
            },
        };
        proof {
            law_insert_then_lookup(before, profile@, n@);
        }
        match self.position(&n) {
            Some(i) => {
                let mut profiles: Vec<FilamentProfile> = Vec::new();
                std::mem::swap(&mut profiles, &mut self.profiles);
                profiles.set(i, profile);
                proof {
                    assert(profiles@.map_values(|p: FilamentProfile| p@) =~= registry_insert(
                        before,
                        profile@,
                    ));
                }
                self.profiles = profiles;
            },
            None => {
                let mut profiles: Vec<FilamentProfile> = Vec::new();
                std::mem::swap(&mut profiles, &mut self.profiles);
                profiles.push(profile);
                proof {
                    assert(profiles@.map_values(|p: FilamentProfile| p@) =~= registry_insert(
                        before,
                        profile@,
                    ));
                }
                self.profiles = profiles;
            },
        }
    }

    /// All profile names in the registry.
    pub fn names(&self) -> (r: Vec<&str>)
        ensures
            r@.map_values(|s: &str| s@) == registry_names(self@),
    {
        proof {
            use_type_invariant(self);
        }
        let mut r: Vec<&str> = Vec::new();
        let mut i: usize = 0;
        while i < self.profiles.len()
            invariant
                i <= self.profiles@.len(),
                self@.len() == self.profiles@.len(),
                registry_wf(self@),
                r@.len() == i,
                forall|k: int| 0 <= k < i ==> Some((#[trigger] r@[k])@) == name_of(self@[k]),
            decreases self.profiles.len() - i,
        {
            proof {
                assert(name_of(self@[i as int]) is Some);
            }
            match self.profiles[i].name() {
                Some(n) => r.push(n),
                None => {
                    proof {
                        assert(false);
                    }
                    return r;
                },
            }
            i = i + 1;
        }
        proof {
            assert forall|k: int| 0 <= k < r@.len() implies r@.map_values(|s: &str| s@)[k]
                == registry_names(self@)[k] by {
                assert(name_of(self@[k]) is Some);
            }
            assert(r@.map_values(|s: &str| s@) =~= registry_names(self@));
        }
        r
    }

    /// Number of profiles in the registry.
    pub fn len(&self) -> (n: usize)
        ensures
            n == self@.len(),
    {
        self.profiles.len()
    }

    /// Whether the registry holds no profile.
    pub fn is_empty(&self) -> (b: bool)
        ensures
            b == (self@.len() == 0),
    {
        self.profiles.len() == 0
    }
}

} // verus!
