//! The profile registry, and the launch arguments that select a profile.

use vstd::prelude::*;

verus! {

/// How the browser is told which profile to use.
#[derive(Clone, Debug, PartialEq, Eq)]
pub enum ProfileLocation {
    /// By the profile's directory.
    Path(String),
    /// By its name, which the browser looks up itself.
    Named,
}

/// `Some(path)` for a profile given by path, `None` for one given by name.
pub open spec fn location_view(l: ProfileLocation) -> Option<Seq<char>> {
    match l {
        ProfileLocation::Path(p) => Some(p@),
        ProfileLocation::Named => None,
    }
}

/// Profile names, each with how the profile is located. A name occurs at
/// most once.
pub struct ProfileRegistry {
    names: Vec<String>,
    locations: Vec<ProfileLocation>,
}

impl ProfileRegistry {
    pub closed spec fn wf(&self) -> bool {
        &&& self.names.len() == self.locations.len()
        &&& forall|i: int, j: int|
            0 <= i < j < self.names.len() ==> (#[trigger] self.names@[i])@ != (#[trigger] self.names@[j])@
    }

    /// Whether `name` is registered.
    pub closed spec fn has(&self, name: Seq<char>) -> bool {
        exists|i: int| 0 <= i < self.names.len() && (#[trigger] self.names@[i])@ == name
    }

    /// The position of `name` among the registered names.
    pub closed spec fn index_of(&self, name: Seq<char>) -> int {
        choose|i: int| 0 <= i < self.names.len() && (#[trigger] self.names@[i])@ == name
    }

    proof fn lemma_index_of(&self, i: int)
        requires
            self.wf(),
            0 <= i < self.names.len(),
        ensures
            self.has(self.names@[i]@),
            self.index_of(self.names@[i]@) == i,
    {
        let k = self.names@[i]@;
        assert(self.has(k));
        let j = self.index_of(k);
        assert(self.names@[j]@ == k);
        if j < i {
            assert(self.names@[j]@ != self.names@[i]@);
        } else if i < j {
            assert(self.names@[i]@ != self.names@[j]@);
        }
    }
}

impl View for ProfileRegistry {
    type V = Map<Seq<char>, Option<Seq<char>>>;

    /// Each registered name, with `Some(path)` or `None` as it is located.
    closed spec fn view(&self) -> Map<Seq<char>, Option<Seq<char>>> {
        Map::new(
            |k: Seq<char>| self.has(k),
            |k: Seq<char>| location_view(self.locations@[self.index_of(k)]),
        )
    }
}

impl ProfileRegistry {
    /// A registry with no profiles.
    pub fn new() -> (r: ProfileRegistry)
        ensures
            r.wf(),
            r@ == Map::<Seq<char>, Option<Seq<char>>>::empty(),
    {
        let r = ProfileRegistry { names: Vec::new(), locations: Vec::new() };
        assert(r@ =~= Map::<Seq<char>, Option<Seq<char>>>::empty());
        r
    }

    /// The position of `name`, if it is registered.
    fn find(&self, name: &String) -> (r: Option<usize>)
        requires
            self.wf(),
        ensures
            r is Some <==> self.has(name@),
            r is Some ==> r->Some_0 < self.names.len() && r->Some_0 == self.index_of(name@),
    {
        let mut i: usize = 0;
        while i < self.names.len()
            invariant
                self.wf(),
                i <= self.names.len(),
                forall|j: int| 0 <= j < i ==> (#[trigger] self.names@[j])@ != name@,
            decreases self.names.len() - i,
        {
            if self.names[i] == *name {
                proof {
                    self.lemma_index_of(i as int);
                }
                return Some(i);
            }
            i = i + 1;
        }
        None
    }

    /// How `name` is located, if it is registered.
    pub fn get(&self, name: &String) -> (r: Option<&ProfileLocation>)
        requires
            self.wf(),
        ensures
            r is Some <==> self@.contains_key(name@),
            r is Some ==> location_view(*r->Some_0) == self@[name@],
    {
        match self.find(name) {
            Some(i) => Some(&self.locations[i]),
            None => None,
        }
    }

    /// Registers `name` with `location`, replacing what it had before.
    pub fn insert(&mut self, name: String, location: ProfileLocation)
        requires
            old(self).wf(),
        ensures
            final(self).wf(),
            final(self)@ == old(self)@.insert(name@, location_view(location)),
    {
        let ghost old_self = *self;
        match self.find(&name) {
            Some(i) => {
                self.locations.set(i, location);
                proof {
                    assert forall|k: Seq<char>| #[trigger] old_self.has(k) implies self.index_of(k)
                        == old_self.index_of(k) by {
                        old_self.lemma_index_of(old_self.index_of(k));
                        self.lemma_index_of(old_self.index_of(k));
                    }
                    assert(self@ =~= old_self@.insert(name@, location_view(location)));
                }
            },
            None => {
                let ghost n = self.names.len() as int;
                self.names.push(name);
                self.locations.push(location);
                proof {
                    assert(self.names@[n]@ == name@);
                    self.lemma_index_of(n);
                    assert forall|k: Seq<char>| #[trigger] old_self.has(k) implies self.has(k)
                        && self.index_of(k) == old_self.index_of(k) by {
                        let i = old_self.index_of(k);
                        old_self.lemma_index_of(i);
                        assert(self.names@[i] == old_self.names@[i]);
                        self.lemma_index_of(i);
                    }
                    assert forall|k: Seq<char>| #[trigger] self.has(k) implies old_self.has(k) || k
                        == name@ by {
                        let i = self.index_of(k);
                        if i < n {
                            assert(old_self.names@[i] == self.names@[i]);
                        }
                    }
                    assert(self@ =~= old_self@.insert(name@, location_view(location)));
                }
            },
        }
    }
}

/// The flag that selects a profile by its directory.
pub open spec fn path_flag() -> Seq<char> {
    seq!['-', '-', 'p', 'r', 'o', 'f', 'i', 'l', 'e']
}

/// The flag that selects a profile by its name.
pub open spec fn name_flag() -> Seq<char> {
    seq!['-', 'P']
}

/// The arguments that select `profile`: its path where the registry gives
/// one, else its name.
pub open spec fn profile_args(profile: Seq<char>, registry: Map<Seq<char>, Option<Seq<char>>>) -> Seq<
    Seq<char>,
> {
    if registry.contains_key(profile) && registry[profile] is Some {
        seq![path_flag(), registry[profile]->Some_0]
    } else {
        seq![name_flag(), profile]
    }
}

/// The texts of a list of strings.
pub open spec fn strings_view(v: Seq<String>) -> Seq<Seq<char>> {
    v.map_values(|s: String| s@)
}

/// The two arguments that select `profile`: `--profile` and its path when the
/// registry maps it to a path, `-P` and the name otherwise.
pub fn resolve_launch_args(profile: &String, registry: &ProfileRegistry) -> (r: Vec<String>)
    requires
        registry.wf(),
    ensures
        strings_view(r@) == profile_args(profile@, registry@),
{
    let mut r: Vec<String> = Vec::new();
    match registry.get(profile) {
        Some(ProfileLocation::Path(path)) => {
            let flag = String::from_str("--profile");
            proof {
                reveal_strlit("--profile");
                assert(flag@ =~= path_flag());
            }
            r.push(flag);
            r.push(path.clone());
        },
        _ => {
            let flag = String::from_str("-P");
            proof {
                reveal_strlit("-P");
                assert(flag@ =~= name_flag());
            }
            r.push(flag);
            r.push(profile.clone());
        },
    }
    assert(strings_view(r@) =~= profile_args(profile@, registry@));
    r
}

} // verus!
