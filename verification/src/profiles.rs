//! The launcher's profiles: one profile per named game setup, kept in a table by key.
use vstd::prelude::*;

verus! {

/// The window size a profile starts the game with.
#[derive(Debug, Clone, PartialEq, Eq, Structural)]
pub struct Resolution {
    pub height: u32,
    pub width: u32,
}

impl Default for Resolution {
    fn default() -> (res: Self)
        ensures
            res.height == 0 && res.width == 0,
    {
        Resolution { height: 0, width: 0 }
    }
}

/// One game setup: the version it runs, where, with which Java and arguments.
#[allow(non_snake_case)]
#[derive(Debug, Clone)]
pub struct Profile {
    pub created: String,
    pub icon: Option<String>,
    pub lastUsed: String,
    pub lastVersionId: String,
    pub name: String,
    pub javaArgs: Option<String>,
    pub javaDir: Option<String>,
    pub gameDir: Option<String>,
    pub resolution: Option<Resolution>,
    pub typ: String,
}

impl Default for Profile {
    /// A profile whose texts are empty and whose optional settings are absent.
    fn default() -> (res: Self)
        ensures
            res.created@ == Seq::<char>::empty(),
            res.icon is None,
            res.lastUsed@ == Seq::<char>::empty(),
            res.lastVersionId@ == Seq::<char>::empty(),
            res.name@ == Seq::<char>::empty(),
            res.javaArgs is None,
            res.javaDir is None,
            res.gameDir is None,
            res.resolution is None,
            res.typ@ == Seq::<char>::empty(),
    {
        Profile {
            created: String::new(),
            icon: None,
            lastUsed: String::new(),
            lastVersionId: String::new(),
            name: String::new(),
            javaArgs: None,
            javaDir: None,
            gameDir: None,
            resolution: None,
            typ: String::new(),
        }
    }
}

impl Profile {
    /// Renames the profile.
    pub fn set_name(&mut self, str: String)
        ensures
            *final(self) == (Profile { name: str, ..*old(self) }),
    {
        self.name = str;
    }

    /// Sets the game version the profile runs.
    pub fn set_version_id(&mut self, str: String)
        ensures
            *final(self) == (Profile { lastVersionId: str, ..*old(self) }),
    {
        self.lastVersionId = str;
    }

    /// Sets, or clears, the directory the game runs in.
    pub fn set_game_dir(&mut self, str: Option<String>)
        ensures
            *final(self) == (Profile { gameDir: str, ..*old(self) }),
    {
        self.gameDir = str;
    }

    /// Sets, or clears, the Java installation the game runs with.
    pub fn set_java_dir(&mut self, str: Option<String>)
        ensures
            *final(self) == (Profile { javaDir: str, ..*old(self) }),
    {
        self.javaDir = str;
    }

    /// Sets, or clears, the extra arguments given to Java.
    pub fn set_java_args(&mut self, str: Option<String>)
        ensures
            *final(self) == (Profile { javaArgs: str, ..*old(self) }),
    {
        self.javaArgs = str;
    }
}

/// Entry `i` of `s` has the key `k`.
pub open spec fn has_key_at(s: Seq<(String, Profile)>, k: Seq<char>, i: int) -> bool {
    0 <= i < s.len() && s[i].0@ == k
}

/// No two entries of `s` have the same key.
pub open spec fn keys_distinct(s: Seq<(String, Profile)>) -> bool {
    forall|i: int, j: int|
        0 <= i < s.len() && 0 <= j < s.len() && #[trigger] s[i].0@ == #[trigger] s[j].0@ ==> i == j
}

/// The table that the entries `s` stand for: each key maps to the profile stored with it.
pub open spec fn entries_map(s: Seq<(String, Profile)>) -> Map<Seq<char>, Profile> {
    Map::new(
        |k: Seq<char>| exists|i: int| has_key_at(s, k, i),
        |k: Seq<char>| s[choose|i: int| has_key_at(s, k, i)].1,
    )
}

/// With distinct keys, the table holds exactly the profile of each entry under its key.
pub proof fn lemma_entries_map_at(s: Seq<(String, Profile)>, i: int)
    requires
        keys_distinct(s),
        0 <= i < s.len(),
    ensures
        entries_map(s).contains_key(s[i].0@),
        entries_map(s)[s[i].0@] == s[i].1,
{
    let k = s[i].0@;
    assert(has_key_at(s, k, i));
    let j = choose|j: int| has_key_at(s, k, j);
    assert(s[j].0@ == s[i].0@);
}

/// A key that no entry has is not in the table.
pub proof fn lemma_entries_map_absent(s: Seq<(String, Profile)>, k: Seq<char>)
    requires
        forall|i: int| 0 <= i < s.len() ==> s[i].0@ != k,
    ensures
        !entries_map(s).contains_key(k),
{
}

/// Storing `e` at the index of an entry with the same key updates that key in the table.
proof fn lemma_entries_map_update(s: Seq<(String, Profile)>, j: int, e: (String, Profile))
    requires
        keys_distinct(s),
        0 <= j < s.len(),
        s[j].0@ == e.0@,
    ensures
        keys_distinct(s.update(j, e)),
        entries_map(s.update(j, e)) == entries_map(s).insert(e.0@, e.1),
{
    let t = s.update(j, e);
    assert(keys_distinct(t)) by {
        assert forall|a: int, b: int|
            0 <= a < t.len() && 0 <= b < t.len() && #[trigger] t[a].0@ == #[trigger] t[b].0@ implies a == b by {
            assert(s[a].0@ == t[a].0@ || a == j);
            assert(s[b].0@ == t[b].0@ || b == j);
            if a == j {
                assert(s[j].0@ == s[b].0@);
            } else if b == j {
                assert(s[a].0@ == s[j].0@);
            } else {
                assert(s[a].0@ == s[b].0@);
            }
        }
    }
    let m1 = entries_map(t);
    let m2 = entries_map(s).insert(e.0@, e.1);
    assert forall|k: Seq<char>| m1.contains_key(k) <==> m2.contains_key(k) by {
        if m1.contains_key(k) {
            let i = choose|i: int| has_key_at(t, k, i);
            if i != j {
                assert(has_key_at(s, k, i));
            }
        }
        if m2.contains_key(k) && k != e.0@ {
            let i = choose|i: int| has_key_at(s, k, i);
            assert(i != j);
            assert(has_key_at(t, k, i));
        }
        if k == e.0@ {
            assert(has_key_at(t, k, j));
        }
    }
    assert forall|k: Seq<char>| m1.contains_key(k) implies m1[k] == m2[k] by {
        let i = choose|i: int| has_key_at(t, k, i);
        lemma_entries_map_at(t, i);
        if i != j {
            lemma_entries_map_at(s, i);
        }
    }
    assert(m1 =~= m2);
}

/// Appending an entry with a new key adds that key to the table.
proof fn lemma_entries_map_push(s: Seq<(String, Profile)>, e: (String, Profile))
    requires
        keys_distinct(s),
        forall|i: int| 0 <= i < s.len() ==> s[i].0@ != e.0@,
    ensures
        keys_distinct(s.push(e)),
        entries_map(s.push(e)) == entries_map(s).insert(e.0@, e.1),
{
    let t = s.push(e);
    assert forall|a: int, b: int|
        0 <= a < t.len() && 0 <= b < t.len() && #[trigger] t[a].0@ == #[trigger] t[b].0@ implies a == b by {
        if a < s.len() && b < s.len() {
            assert(s[a].0@ == s[b].0@);
        } else if a < s.len() {
            assert(s[a].0@ == e.0@);
        } else if b < s.len() {
            assert(s[b].0@ == e.0@);
        }
    }
    let m1 = entries_map(t);
    let m2 = entries_map(s).insert(e.0@, e.1);
    assert forall|k: Seq<char>| m1.contains_key(k) <==> m2.contains_key(k) by {
        if m1.contains_key(k) {
            let i = choose|i: int| has_key_at(t, k, i);
            if i < s.len() {
                assert(has_key_at(s, k, i));
            }
        }
        if m2.contains_key(k) && k != e.0@ {
            let i = choose|i: int| has_key_at(s, k, i);
            assert(has_key_at(t, k, i));
        }
        if k == e.0@ {
            assert(has_key_at(t, k, s.len() as int));
        }
    }
    assert forall|k: Seq<char>| m1.contains_key(k) implies m1[k] == m2[k] by {
        let i = choose|i: int| has_key_at(t, k, i);
        lemma_entries_map_at(t, i);
        if i < s.len() {
            lemma_entries_map_at(s, i);
        }
    }
    assert(m1 =~= m2);
}

/// Removing the entry at `j` removes its key from the table.
proof fn lemma_entries_map_remove(s: Seq<(String, Profile)>, j: int)
    requires
        keys_distinct(s),
        0 <= j < s.len(),
    ensures
        keys_distinct(s.remove(j)),
        entries_map(s.remove(j)) == entries_map(s).remove(s[j].0@),
{
    let t = s.remove(j);
    let k0 = s[j].0@;
    assert forall|a: int| 0 <= a < t.len() implies #[trigger] t[a] == s[if a < j { a } else { a + 1 }] by {}
    assert forall|a: int, b: int|
        0 <= a < t.len() && 0 <= b < t.len() && #[trigger] t[a].0@ == #[trigger] t[b].0@ implies a == b by {
        let a1 = if a < j { a } else { a + 1 };
        let b1 = if b < j { b } else { b + 1 };
        assert(s[a1].0@ == s[b1].0@);
    }
    let m1 = entries_map(t);
    let m2 = entries_map(s).remove(k0);
    assert forall|k: Seq<char>| m1.contains_key(k) <==> m2.contains_key(k) by {
        if m1.contains_key(k) {
            let i = choose|i: int| has_key_at(t, k, i);
            let i1 = if i < j { i } else { i + 1 };
            assert(has_key_at(s, k, i1));
            assert(i1 != j);
            assert(k != k0);
        }
        if m2.contains_key(k) {
            let i = choose|i: int| has_key_at(s, k, i);
            assert(i != j);
            let i0 = if i < j { i } else { i - 1 };
            assert(t[i0] == s[i]);
            assert(has_key_at(t, k, i0));
        }
    }
    assert forall|k: Seq<char>| m1.contains_key(k) implies m1[k] == m2[k] by {
        let i = choose|i: int| has_key_at(t, k, i);
        let i1 = if i < j { i } else { i + 1 };
        lemma_entries_map_at(t, i);
        assert(t[i] == s[i1]);
        lemma_entries_map_at(s, i1);
    }
    assert(m1 =~= m2);
}

/// The launcher's table of profiles, by key.
#[derive(Debug)]
pub struct Profiles {
    profiles: Vec<(String, Profile)>,
}

impl Profiles {
    #[verifier::type_invariant]
    spec fn keys_unique(self) -> bool {
        keys_distinct(self.profiles@)
    }

    /// The entries of the table, in the order the table lists them.
    pub closed spec fn entries(self) -> Seq<(String, Profile)> {
        self.profiles@
    }
}

impl View for Profiles {
    type V = Map<Seq<char>, Profile>;

    open spec fn view(&self) -> Map<Seq<char>, Profile> {
        entries_map(self.entries())
    }
}

impl Profiles {
    /// An empty table.
    pub fn new() -> (res: Self)
        ensures
            res.entries() == Seq::<(String, Profile)>::empty(),
            res@ == Map::<Seq<char>, Profile>::empty(),
    {
        let res = Profiles { profiles: Vec::new() };
        assert(res@ =~= Map::<Seq<char>, Profile>::empty());
        res
    }

    /// The index of the entry with key `key`, if there is one.
    fn find(&self, key: &String) -> (res: Option<usize>)
        ensures
            match res {
                Some(j) => has_key_at(self.entries(), key@, j as int),
                None => forall|i: int| 0 <= i < self.entries().len() ==> self.entries()[i].0@ != key@,
            },
    {
        let mut i: usize = 0;
        while i < self.profiles.len()
            invariant
                i <= self.profiles@.len(),
                forall|a: int| 0 <= a < i ==> self.profiles@[a].0@ != key@,
            decreases self.profiles@.len() - i,
        {
            if self.profiles[i].0 == *key {
                return Some(i);
            }
            i = i + 1;
        }
        None
    }

    /// Stores `profile` under `key`, replacing the profile stored there before.
    pub fn add(&mut self, profile: Profile, key: &str)
        ensures
            final(self)@ == old(self)@.insert(key@, profile),
    {
        proof {
            use_type_invariant(&*self);
        }
        let key = String::from_str(key);
        let ghost s = self.profiles@;
        match self.find(&key) {
            Some(j) => {
                proof {
                    lemma_entries_map_update(s, j as int, (key, profile));
                }
                let mut v = Vec::new();
                std::mem::swap(&mut v, &mut self.profiles);
                v.set(j, (key, profile));
                self.profiles = v;
            },
            None => {
                proof {
                    assert(s == self.entries());
                    assert(forall|i: int| 0 <= i < s.len() ==> #[trigger] s[i].0@ != key@);
                    lemma_entries_map_push(s, (key, profile));
                }
                let mut v = Vec::new();
                std::mem::swap(&mut v, &mut self.profiles);
                v.push((key, profile));
                self.profiles = v;
            },
        }
    }

    /// Removes the profile stored under `key`, if any.
    pub fn remove(&mut self, key: &str)
        ensures
            final(self)@ == old(self)@.remove(key@),
    {
        proof {
            use_type_invariant(&*self);
        }
        let key = String::from_str(key);
        let ghost s = self.profiles@;
        match self.find(&key) {
            Some(j) => {
                proof {
                    lemma_entries_map_remove(s, j as int);
                }
                let mut v = Vec::new();
                std::mem::swap(&mut v, &mut self.profiles);
                let _ = v.remove(j);
                self.profiles = v;
            },
            None => {
                proof {
                    assert(s == self.entries());
                    assert(forall|i: int| 0 <= i < s.len() ==> #[trigger] s[i].0@ != key@);
                    lemma_entries_map_absent(s, key@);
                    assert(entries_map(s).remove(key@) =~= entries_map(s));
                }
            },
        }
    }

    /// The entries of the table, in its order.
    pub fn into_entries(self) -> (res: Vec<(String, Profile)>)
        ensures
            res@ == self.entries(),
            keys_distinct(res@),
    {
        proof {
            use_type_invariant(&self);
        }
        self.profiles
    }
}

/// After a profile is added under a key, the table gives that profile back for the key and
/// gives back for every other key what it gave before.
pub proof fn law_add_then_read(
    before: Map<Seq<char>, Profile>,
    after: Map<Seq<char>, Profile>,
    key: Seq<char>,
    profile: Profile,
)
    requires
        after == before.insert(key, profile),
    ensures
        after.contains_key(key),
        after[key] == profile,
        forall|k: Seq<char>| k != key ==> (after.contains_key(k) <==> before.contains_key(k)),
        forall|k: Seq<char>| k != key && before.contains_key(k) ==> after[k] == before[k],
{
}

/// Removing the key just added gives back the table as it was, less that key; for a key
/// that was not there, the table as it was.
pub proof fn law_remove_undoes_add(before: Map<Seq<char>, Profile>, key: Seq<char>, profile: Profile)
    ensures
        before.insert(key, profile).remove(key) == before.remove(key),
        !before.contains_key(key) ==> before.insert(key, profile).remove(key) == before,
{
    assert(before.insert(key, profile).remove(key) =~= before.remove(key));
    if !before.contains_key(key) {
        assert(before.remove(key) =~= before);
    }
}

/// The profiles listed from a table, in its order, are exactly those it holds: the one at
/// each position is the one the table holds under that entry's key, and every profile the
/// table holds is listed.
pub proof fn law_listed_profiles_are_the_table(s: Seq<(String, Profile)>)
    requires
        keys_distinct(s),
    ensures
        forall|i: int| 0 <= i < s.len() ==>
            entries_map(s).contains_key(#[trigger] s[i].0@)
                && entries_map(s)[s[i].0@] == s.map_values(|e: (String, Profile)| e.1)[i],
        forall|k: Seq<char>| #[trigger] entries_map(s).contains_key(k) ==>
            s.map_values(|e: (String, Profile)| e.1).contains(entries_map(s)[k]),
{
    assert forall|i: int| 0 <= i < s.len() implies
        entries_map(s).contains_key(#[trigger] s[i].0@)
            && entries_map(s)[s[i].0@] == s.map_values(|e: (String, Profile)| e.1)[i] by {
        lemma_entries_map_at(s, i);
    }
    assert forall|k: Seq<char>| #[trigger] entries_map(s).contains_key(k) implies
        s.map_values(|e: (String, Profile)| e.1).contains(entries_map(s)[k]) by {
        let i = choose|i: int| has_key_at(s, k, i);
        lemma_entries_map_at(s, i);
        assert(s.map_values(|e: (String, Profile)| e.1)[i] == entries_map(s)[k]);
    }
}

/// The launcher's own settings file: where things live and where they are fetched from.
#[derive(Debug, Clone)]
pub struct MccToml {
    pub java_homes: String,
    pub versions: String,
    pub profiles_file: String,
    pub manifest_url: String,
    pub assets_url: String,
    pub versions_bin: String,
    pub assets_dir: String,
    pub libs_dir: String,
    pub versions_json_dir: String,
    pub default_game_dir: String,
}

} // verus!
