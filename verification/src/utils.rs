//! Placeholder substitution in settings values, and a small mutable cell.
use vstd::prelude::*;
use crate::text::{law_replace_absent, occurs_at, replace_all, replace_str, seq_contains};

verus! {

/// The placeholder that stands for `key` in a settings value: `[key]`.
pub open spec fn placeholder(key: Seq<char>) -> Seq<char> {
    seq!['['] + key + seq![']']
}

/// `s` after replacing, entry by entry in the given order, every `[key]` by its value.
pub open spec fn replace_entries(s: Seq<char>, entries: Seq<(Seq<char>, Seq<char>)>) -> Seq<char>
    decreases entries.len(),
{
    if entries.len() == 0 {
        s
    } else {
        replace_entries(replace_all(s, placeholder(entries[0].0), entries[0].1), entries.drop_first())
    }
}

/// Substituting with one table and then another is substituting with the two joined.
pub proof fn law_replace_entries_concat(
    s: Seq<char>,
    a: Seq<(Seq<char>, Seq<char>)>,
    b: Seq<(Seq<char>, Seq<char>)>,
)
    ensures
        replace_entries(s, a + b) == replace_entries(replace_entries(s, a), b),
    decreases a.len(),
{
    if a.len() == 0 {
        assert(a + b =~= b);
    } else {
        assert((a + b)[0] == a[0]);
        assert((a + b).drop_first() =~= a.drop_first() + b);
        law_replace_entries_concat(replace_all(s, placeholder(a[0].0), a[0].1), a.drop_first(), b);
    }
}

/// A text in which no placeholder of the table occurs comes back unchanged.
pub proof fn law_replace_entries_absent(s: Seq<char>, entries: Seq<(Seq<char>, Seq<char>)>)
    requires
        forall|i: int| 0 <= i < entries.len() ==> !seq_contains(s, placeholder(#[trigger] entries[i].0)),
    ensures
        replace_entries(s, entries) == s,
    decreases entries.len(),
{
    if entries.len() > 0 {
        law_replace_absent(s, placeholder(entries[0].0), entries[0].1);
        assert forall|i: int| 0 <= i < entries.drop_first().len() implies
            !seq_contains(s, placeholder(#[trigger] entries.drop_first()[i].0)) by {
            assert(entries.drop_first()[i] == entries[i + 1]);
        }
        law_replace_entries_absent(s, entries.drop_first());
    }
}

/// `k` holds no bracket, `[` or `]`.
pub open spec fn bracket_free(k: Seq<char>) -> bool {
    forall|i: int| 0 <= i < k.len() ==> k[i] != '[' && k[i] != ']'
}

/// The placeholders of two different bracket-free keys never start at the same place.
pub(crate) proof fn lemma_placeholders_differ(s: Seq<char>, ka: Seq<char>, kb: Seq<char>)
    requires
        bracket_free(ka),
        bracket_free(kb),
        occurs_at(s, placeholder(ka), 0),
        occurs_at(s, placeholder(kb), 0),
    ensures
        ka == kb,
{
    let pa = placeholder(ka);
    let pb = placeholder(kb);
    let n = ka.len() as int;
    let m = kb.len() as int;
    assert forall|i: int| 0 <= i < pa.len() implies s[i] == pa[i] by {
        assert(s.subrange(0, pa.len() as int)[i] == pa[i]);
    }
    assert forall|i: int| 0 <= i < pb.len() implies s[i] == pb[i] by {
        assert(s.subrange(0, pb.len() as int)[i] == pb[i]);
    }
    if n < m {
        assert(pa[n + 1] == ']');
        assert(pb[n + 1] == kb[n]);
    } else if m < n {
        assert(pb[m + 1] == ']');
        assert(pa[m + 1] == ka[m]);
    } else {
        assert forall|i: int| 0 <= i < n implies ka[i] == kb[i] by {
            assert(pa[i + 1] == ka[i]);
            assert(pb[i + 1] == kb[i]);
        }
        assert(ka =~= kb);
    }
}

/// The entries of a substitution table, each key and value taken by its characters.
pub open spec fn entries_view(map: Seq<(String, String)>) -> Seq<(Seq<char>, Seq<char>)> {
    map.map_values(|e: (String, String)| (e.0@, e.1@))
}

/// No key occurs twice in the table, as in a map.
pub open spec fn distinct_keys(entries: Seq<(Seq<char>, Seq<char>)>) -> bool {
    forall|i: int, j: int| 0 <= i < j < entries.len() ==> entries[i].0 != entries[j].0
}

/// The placeholder `[key]` for `key`.
fn placeholder_of(key: &str) -> (res: String)
    ensures
        res@ == placeholder(key@),
{
    let mut res = String::new();
    res.append("[");
    res.append(key);
    res.append("]");
    proof {
        reveal_strlit("[");
        reveal_strlit("]");
        assert(res@ =~= placeholder(key@));
    }
    res
}

/// Replaces, for each entry of `map` in its order, every `[key]` in `str` by the entry's value.
pub fn replace_map(str: &str, map: Vec<(String, String)>) -> (res: String)
    requires
        distinct_keys(entries_view(map@)),
    ensures
        res@ == replace_entries(str@, entries_view(map@)),
{
    let ghost ev = entries_view(map@);
    let mut cur = String::new();
    cur.append(str);
    let mut i: usize = 0;
    assert(ev.skip(0) =~= ev);
    while i < map.len()
        invariant
            ev == entries_view(map@),
            i <= map@.len(),
            replace_entries(cur@, ev.skip(i as int)) == replace_entries(str@, ev),
        decreases map@.len() - i,
    {
        let pat = placeholder_of(map[i].0.as_str());
        let next = replace_str(cur.as_str(), pat.as_str(), map[i].1.as_str());
        assert(ev.skip(i as int).drop_first() =~= ev.skip(i + 1));
        cur = next;
        i = i + 1;
    }
    assert(ev.skip(i as int) =~= Seq::<(Seq<char>, Seq<char>)>::empty());
    cur
}

/// The substitution table of the launcher's settings for the given user name:
/// `[env.dir]` is `app`, then `[appdata.roaming]` is the user's roaming application folder.
pub open spec fn mcc_config_entries(user_name: Seq<char>) -> Seq<(Seq<char>, Seq<char>)> {
    seq![
        ("env.dir"@, "app"@),
        ("appdata.roaming"@, "C:\\Users\\"@ + user_name + "\\AppData\\Roaming"@),
    ]
}

/// Resolves the launcher's placeholders in a settings value for the user named `user_name`.
pub fn replace_mcc_config_with_user(str: &str, user_name: &str) -> (res: String)
    ensures
        res@ == replace_entries(str@, mcc_config_entries(user_name@)),
{
    let mut roaming = String::new();
    roaming.append("C:\\Users\\");
    roaming.append(user_name);
    roaming.append("\\AppData\\Roaming");
    let mut map: Vec<(String, String)> = Vec::new();
    map.push((String::from_str("env.dir"), String::from_str("app")));
    map.push((String::from_str("appdata.roaming"), roaming));
    let ghost ev = entries_view(map@);
    assert(ev =~= mcc_config_entries(user_name@));
    assert(distinct_keys(ev)) by {
        assert("env.dir"@.len() != "appdata.roaming"@.len()) by {
            reveal_strlit("env.dir");
            reveal_strlit("appdata.roaming");
        }
    }
    replace_map(str, map)
}

/// Resolves the launcher's placeholders in a settings value for the user running the program.
pub fn replace_mcc_config(str: &str) -> (res: String)
    ensures
        exists|u: Seq<char>| res@ == #[trigger] replace_entries(str@, mcc_config_entries(u)),
{
    let user_name = get_user_name();
    replace_mcc_config_with_user(str, user_name.as_str())
}

/// The name of the user running the program, from `whoami::username`.
/// It depends on the machine, so nothing is claimed of it; `whoami` falls back to a fixed
/// name instead of failing, so the call always returns.
#[verifier::external_body]
pub fn get_user_name() -> String {
    whoami::username()
}

/// A value that can be read and replaced in place.
#[derive(Clone)]
pub struct Value<T> {
    pub v: T,
}

impl<T> Value<T> {
    /// A cell holding `v`.
    pub fn new(v: T) -> (res: Self)
        ensures
            res.v == v,
    {
        Value { v }
    }

    /// Replaces the held value by `v`.
    pub fn set(&mut self, v: T)
        ensures
            final(self).v == v,
    {
        self.v = v;
    }
}

} // verus!
