//! What the screens list: profile lines and entries, and adding a profile to the table.
use vstd::prelude::*;
use crate::components::ListItemValued;
use crate::profiles::{Profile, Profiles};

verus! {

/// The line of a profile in the profile chooser: `name : type`.
pub open spec fn profile_label(p: Profile) -> Seq<char> {
    p.name@ + " : "@ + p.typ@
}

/// The line of a profile in a profile list: `first : version : type`.
pub open spec fn profile_line(first: Seq<char>, p: Profile) -> Seq<char> {
    first + " : "@ + p.lastVersionId@ + " : "@ + p.typ@
}

/// `a : b`.
fn join2(a: &str, b: &str) -> (res: String)
    ensures
        res@ == a@ + " : "@ + b@,
{
    let mut res = String::new();
    res.append(a);
    res.append(" : ");
    res.append(b);
    res
}

/// `a : b : c`.
fn join3(a: &str, b: &str, c: &str) -> (res: String)
    ensures
        res@ == a@ + " : "@ + b@ + " : "@ + c@,
{
    let mut res = String::new();
    res.append(a);
    res.append(" : ");
    res.append(b);
    res.append(" : ");
    res.append(c);
    res
}

/// An entry per profile, in order, showing `name : type` and standing for the profile.
pub fn to_list_state_valued(list: Vec<Profile>) -> (res: Vec<ListItemValued<Profile>>)
    ensures
        res@.len() == list@.len(),
        forall|i: int| 0 <= i < list@.len() ==> {
            &&& (#[trigger] res@[i]).label() == profile_label(list@[i])
            &&& res@[i].item() == list@[i]
        },
{
    let ghost all = list@;
    let mut rest = list;
    let n0 = rest.len();
    assert(all.len() == n0);
    let mut res: Vec<ListItemValued<Profile>> = Vec::new();
    let mut k: usize = 0;
    while rest.len() > 0
        invariant
            k <= all.len(),
            all.len() <= usize::MAX,
            rest@ == all.skip(k as int),
            res@.len() == k,
            forall|i: int| 0 <= i < k ==> {
                &&& (#[trigger] res@[i]).label() == profile_label(all[i])
                &&& res@[i].item() == all[i]
            },
        decreases rest@.len(),
    {
        let profile = rest.remove(0);
        assert(profile == all[k as int]);
        let label = join2(profile.name.as_str(), profile.typ.as_str());
        res.push(ListItemValued::new(label, profile));
        assert(rest@ =~= all.skip(k + 1));
        k = k + 1;
    }
    res
}

/// A line per entry of the table, in its order: `key : version : type`.
pub fn profiles_list(profiles: Profiles) -> (res: Vec<String>)
    ensures
        res@.len() == profiles.entries().len(),
        forall|i: int| 0 <= i < res@.len() ==>
            (#[trigger] res@[i])@ == profile_line(profiles.entries()[i].0@, profiles.entries()[i].1),
{
    let entries = profiles.into_entries();
    let mut res: Vec<String> = Vec::new();
    let mut i: usize = 0;
    while i < entries.len()
        invariant
            i <= entries@.len(),
            res@.len() == i,
            forall|j: int| 0 <= j < i ==>
                (#[trigger] res@[j])@ == profile_line(entries@[j].0@, entries@[j].1),
        decreases entries@.len() - i,
    {
        let e = &entries[i];
        res.push(join3(e.0.as_str(), e.1.lastVersionId.as_str(), e.1.typ.as_str()));
        i = i + 1;
    }
    res
}

/// A line per entry of the list, in order: `name : version : type` of the profile it stands for.
pub fn to_list_item(list: Vec<ListItemValued<Profile>>) -> (res: Vec<String>)
    ensures
        res@.len() == list@.len(),
        forall|i: int| 0 <= i < res@.len() ==>
            (#[trigger] res@[i])@ == profile_line(list@[i].item().name@, list@[i].item()),
{
    let ghost all = list@;
    let mut rest = list;
    let n0 = rest.len();
    assert(all.len() == n0);
    let mut res: Vec<String> = Vec::new();
    let mut k: usize = 0;
    while rest.len() > 0
        invariant
            k <= all.len(),
            all.len() <= usize::MAX,
            rest@ == all.skip(k as int),
            res@.len() == k,
            forall|j: int| 0 <= j < k ==>
                (#[trigger] res@[j])@ == profile_line(all[j].item().name@, all[j].item()),
        decreases rest@.len(),
    {
        let entry = rest.remove(0);
        assert(entry == all[k as int]);
        let profile = entry.get_value();
        res.push(join3(profile.name.as_str(), profile.lastVersionId.as_str(), profile.typ.as_str()));
        assert(rest@ =~= all.skip(k + 1));
        k = k + 1;
    }
    res
}

/// The profiles of the table, in its order.
pub fn profiles_indexed_list(profiles: Profiles) -> (res: Vec<Profile>)
    ensures
        res@ == profiles.entries().map_values(|e: (String, Profile)| e.1),
{
    let ghost all = profiles.entries();
    let mut rest = profiles.into_entries();
    let n0 = rest.len();
    assert(all.len() == n0);
    let mut res: Vec<Profile> = Vec::new();
    let mut k: usize = 0;
    while rest.len() > 0
        invariant
            k <= all.len(),
            all.len() <= usize::MAX,
            rest@ == all.skip(k as int),
            res@ == all.take(k as int).map_values(|e: (String, Profile)| e.1),
        decreases rest@.len(),
    {
        let (_key, profile) = rest.remove(0);
        assert(all.take(k + 1).map_values(|e: (String, Profile)| e.1)
            =~= all.take(k as int).map_values(|e: (String, Profile)| e.1).push(profile));
        res.push(profile);
        assert(rest@ =~= all.skip(k + 1));
        k = k + 1;
    }
    assert(all.take(k as int) =~= all);
    res
}

/// Adds `profile` to the table under its own name, replacing a profile of that name.
pub fn add_new(profiles: &mut Profiles, profile: Profile)
    ensures
        final(profiles)@ == old(profiles)@.insert(profile.name@, profile),
{
    let name = profile.name.clone();
    profiles.add(profile, name.as_str());
}

} // verus!
