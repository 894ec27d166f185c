//! Why the order of a substitution table does not matter on texts whose brackets are not
//! nested: the result is the simultaneous substitution by the table taken as a map.
use vstd::prelude::*;
use crate::text::{
    lemma_replace_after_plain, lemma_replace_all_keep, lemma_replace_all_match, no_open_bracket,
    occurs_at, replace_all,
};
use crate::utils::{
    bracket_free, distinct_keys, lemma_placeholders_differ, mcc_config_entries, placeholder, replace_entries,
};

verus! {

/// No `[` of `s` is followed by another `[` before a `]` closes it.
pub open spec fn flat(s: Seq<char>) -> bool
    decreases s.len(),
{
    if s.len() == 0 {
        true
    } else if s[0] == '[' {
        in_open(s.skip(1))
    } else {
        flat(s.skip(1))
    }
}

/// `s` follows a `[` not yet closed: no `[` comes before the next `]`, and the text after that
/// `]` is `flat`.
pub open spec fn in_open(s: Seq<char>) -> bool
    decreases s.len(),
{
    if s.len() == 0 {
        true
    } else if s[0] == '[' {
        false
    } else if s[0] == ']' {
        flat(s.skip(1))
    } else {
        in_open(s.skip(1))
    }
}

/// Some key of `m` has its placeholder at the start of `s`.
pub open spec fn key_at(s: Seq<char>, m: Map<Seq<char>, Seq<char>>) -> bool {
    exists|k: Seq<char>| m.contains_key(k) && occurs_at(s, placeholder(k), 0)
}

/// `s` with every placeholder of a key of `m` replaced by the key's value in one pass from
/// the left, each `[key]` read in `s` itself.
pub open spec fn subst(s: Seq<char>, m: Map<Seq<char>, Seq<char>>) -> Seq<char>
    decreases s.len(),
{
    if s.len() == 0 {
        s
    } else if key_at(s, m) {
        let k = choose|k: Seq<char>| m.contains_key(k) && occurs_at(s, placeholder(k), 0);
        m[k] + subst(s.skip(placeholder(k).len() as int), m)
    } else {
        seq![s[0]] + subst(s.skip(1), m)
    }
}

/// Every key of `m` is bracket-free.
pub open spec fn keys_bracket_free(m: Map<Seq<char>, Seq<char>>) -> bool {
    forall|k: Seq<char>| #[trigger] m.contains_key(k) ==> bracket_free(k)
}

/// A placeholder at the start means a `[` at the start.
proof fn lemma_key_at_bracket(s: Seq<char>, m: Map<Seq<char>, Seq<char>>)
    requires
        key_at(s, m),
    ensures
        s.len() > 0 && s[0] == '[',
{
    let k = choose|k: Seq<char>| m.contains_key(k) && occurs_at(s, placeholder(k), 0);
    assert(s.subrange(0, placeholder(k).len() as int)[0] == s[0]);
}

/// With bracket-free keys, the key whose placeholder starts `s` is `k`.
proof fn lemma_subst_at(s: Seq<char>, m: Map<Seq<char>, Seq<char>>, k: Seq<char>)
    requires
        keys_bracket_free(m),
        m.contains_key(k),
        occurs_at(s, placeholder(k), 0),
    ensures
        subst(s, m) == m[k] + subst(s.skip(placeholder(k).len() as int), m),
{
    assert(key_at(s, m));
    let c = choose|c: Seq<char>| m.contains_key(c) && occurs_at(s, placeholder(c), 0);
    lemma_placeholders_differ(s, c, k);
    lemma_key_at_bracket(s, m);
}

/// Without a placeholder at the start, the first character is kept.
proof fn lemma_subst_keep(s: Seq<char>, m: Map<Seq<char>, Seq<char>>)
    requires
        s.len() > 0,
        !key_at(s, m),
    ensures
        subst(s, m) == seq![s[0]] + subst(s.skip(1), m),
{
}

/// A text without `[` in front passes through the substitution untouched.
proof fn lemma_subst_after_plain(u: Seq<char>, x: Seq<char>, m: Map<Seq<char>, Seq<char>>)
    requires
        no_open_bracket(u),
    ensures
        subst(u + x, m) == u + subst(x, m),
    decreases u.len(),
{
    if u.len() == 0 {
        assert(u + x =~= x);
    } else {
        let t = u + x;
        assert(t[0] == u[0]);
        if key_at(t, m) {
            lemma_key_at_bracket(t, m);
        }
        lemma_subst_keep(t, m);
        assert(t.skip(1) =~= u.skip(1) + x);
        lemma_subst_after_plain(u.skip(1), x, m);
        assert(seq![u[0]] + (u.skip(1) + subst(x, m)) =~= u + subst(x, m));
    }
}

/// A text without `[` in front does not change whether the rest is `flat` or `in_open`.
proof fn lemma_flat_after_plain(u: Seq<char>, x: Seq<char>)
    requires
        no_open_bracket(u),
    ensures
        flat(u + x) == flat(x),
    decreases u.len(),
{
    if u.len() == 0 {
        assert(u + x =~= x);
    } else {
        assert((u + x)[0] == u[0]);
        assert((u + x).skip(1) =~= u.skip(1) + x);
        lemma_flat_after_plain(u.skip(1), x);
    }
}

/// Bracket-free text after an open `[` keeps it open.
proof fn lemma_open_after_free(u: Seq<char>, x: Seq<char>)
    requires
        bracket_free(u),
    ensures
        in_open(u + x) == in_open(x),
    decreases u.len(),
{
    if u.len() == 0 {
        assert(u + x =~= x);
    } else {
        assert((u + x)[0] == u[0]);
        assert((u + x).skip(1) =~= u.skip(1) + x);
        lemma_open_after_free(u.skip(1), x);
    }
}

/// After an open `[`, a key and `]` that start the text after a replacement already started
/// it before: replacing cannot complete a placeholder there.
proof fn lemma_open_prefix(u: Seq<char>, k: Seq<char>, k0: Seq<char>, v0: Seq<char>)
    requires
        in_open(u),
        bracket_free(k),
        occurs_at(replace_all(u, placeholder(k0), v0), k + seq![']'], 0),
    ensures
        occurs_at(u, k + seq![']'], 0),
    decreases u.len(),
{
    let p = k + seq![']'];
    let pa = placeholder(k0);
    let r = replace_all(u, pa, v0);
    if u.len() == 0 {
        assert(r == u);
    } else {
        assert(u[0] != '[');
        if occurs_at(u, pa, 0) {
            assert(u.subrange(0, pa.len() as int)[0] == u[0]);
        }
        lemma_replace_all_keep(u, pa, v0);
        let u1 = u.skip(1);
        let r1 = replace_all(u1, pa, v0);
        assert(r == seq![u[0]] + r1);
        assert(r.subrange(0, p.len() as int)[0] == r[0]);
        if k.len() == 0 {
            assert(u.subrange(0, 1) =~= p);
        } else {
            assert(u[0] == k[0]);
            assert(in_open(u1));
            let q = k.skip(1) + seq![']'];
            assert(r1.subrange(0, q.len() as int) =~= q) by {
                assert forall|i: int| 0 <= i < q.len() implies r1.subrange(0, q.len() as int)[i] == q[i] by {
                    assert(r.subrange(0, p.len() as int)[i + 1] == p[i + 1]);
                    assert(r[i + 1] == r1[i]);
                }
            }
            assert(bracket_free(k.skip(1))) by {
                assert forall|i: int| 0 <= i < k.skip(1).len() implies
                    k.skip(1)[i] != '[' && k.skip(1)[i] != ']' by {
                    assert(k.skip(1)[i] == k[i + 1]);
                }
            }
            lemma_open_prefix(u1, k.skip(1), k0, v0);
            assert(u.subrange(0, p.len() as int) =~= p) by {
                assert forall|i: int| 0 <= i < p.len() implies u.subrange(0, p.len() as int)[i] == p[i] by {
                    if i > 0 {
                        assert(u1.subrange(0, q.len() as int)[i - 1] == q[i - 1]);
                    }
                }
            }
        }
    }
}

/// Replacing the placeholder of one key `k0` by its value without `[`, then substituting the
/// rest of the table, is substituting the whole table; and the text stays `flat` (or stays
/// `in_open`, after an open `[`).
proof fn lemma_step(s: Seq<char>, m: Map<Seq<char>, Seq<char>>, k0: Seq<char>, open: bool)
    requires
        keys_bracket_free(m),
        m.contains_key(k0),
        no_open_bracket(m[k0]),
        if open { in_open(s) } else { flat(s) },
    ensures
        if open {
            in_open(replace_all(s, placeholder(k0), m[k0]))
        } else {
            flat(replace_all(s, placeholder(k0), m[k0]))
        },
        subst(replace_all(s, placeholder(k0), m[k0]), m.remove(k0)) == subst(s, m),
    decreases s.len(),
{
    let pa = placeholder(k0);
    let v0 = m[k0];
    let m1 = m.remove(k0);
    let r = replace_all(s, pa, v0);
    assert(keys_bracket_free(m1));
    if s.len() == 0 {
        assert(r == s);
    } else if s[0] != '[' {
        if occurs_at(s, pa, 0) {
            assert(s.subrange(0, pa.len() as int)[0] == s[0]);
        }
        lemma_replace_all_keep(s, pa, v0);
        let s1 = s.skip(1);
        let r1 = replace_all(s1, pa, v0);
        if open && s[0] != ']' {
            lemma_step(s1, m, k0, true);
        } else {
            lemma_step(s1, m, k0, false);
        }
        assert(r == seq![s[0]] + r1);
        assert(r.skip(1) =~= r1);
        if key_at(r, m1) {
            lemma_key_at_bracket(r, m1);
        }
        if key_at(s, m) {
            lemma_key_at_bracket(s, m);
        }
        lemma_subst_keep(r, m1);
        lemma_subst_keep(s, m);
    } else if key_at(s, m) {
        assert(!open);
        let k = choose|k: Seq<char>| m.contains_key(k) && occurs_at(s, placeholder(k), 0);
        let pk = placeholder(k);
        let rest = s.skip(pk.len() as int);
        assert(bracket_free(k));
        // `flat(s)` passes over `[k]` to `flat(rest)`.
        assert(s.skip(1) =~= (k + seq![']']) + rest) by {
            assert forall|i: int| 0 <= i < s.skip(1).len() implies s.skip(1)[i] == ((k + seq![']']) + rest)[i] by {
                if i < pk.len() - 1 {
                    assert(s.subrange(0, pk.len() as int)[i + 1] == pk[i + 1]);
                }
            }
        }
        lemma_open_after_free(k, seq![']'] + rest);
        assert((k + seq![']']) + rest =~= k + (seq![']'] + rest));
        assert((seq![']'] + rest).skip(1) =~= rest);
        assert(flat(rest));
        lemma_step(rest, m, k0, false);
        let rr = replace_all(rest, pa, v0);
        lemma_subst_at(s, m, k);
        if k == k0 {
            lemma_replace_all_match(s, pa, v0);
            lemma_flat_after_plain(v0, rr);
            lemma_subst_after_plain(v0, rr, m1);
        } else {
            if occurs_at(s, pa, 0) {
                lemma_placeholders_differ(s, k, k0);
            }
            lemma_replace_all_keep(s, pa, v0);
            let tail = k + seq![']'];
            assert(no_open_bracket(tail));
            assert(s.skip(1) =~= tail + rest);
            lemma_replace_after_plain(tail, rest, pa, v0);
            assert(r =~= pk + rr);
            // `r` is `flat`: `[k]` in front, then `rr`.
            assert(r.skip(1) =~= k + (seq![']'] + rr));
            lemma_open_after_free(k, seq![']'] + rr);
            assert((seq![']'] + rr).skip(1) =~= rr);
            // `r` substitutes `[k]` first.
            assert(m1.contains_key(k));
            assert(occurs_at(r, pk, 0)) by {
                assert(r.subrange(0, pk.len() as int) =~= pk);
            }
            lemma_subst_at(r, m1, k);
            assert(r.skip(pk.len() as int) =~= rr);
        }
    } else {
        // An `[` that opens no placeholder of the table.
        assert(!open);
        if occurs_at(s, pa, 0) {
            assert(key_at(s, m));
        }
        lemma_replace_all_keep(s, pa, v0);
        let s1 = s.skip(1);
        let r1 = replace_all(s1, pa, v0);
        assert(in_open(s1));
        lemma_step(s1, m, k0, true);
        assert(r == seq![s[0]] + r1);
        assert(r.skip(1) =~= r1);
        if key_at(r, m1) {
            let k = choose|k: Seq<char>| m1.contains_key(k) && occurs_at(r, placeholder(k), 0);
            let pk = placeholder(k);
            let q = k + seq![']'];
            assert(occurs_at(r1, q, 0)) by {
                assert forall|i: int| 0 <= i < q.len() implies r1.subrange(0, q.len() as int)[i] == q[i] by {
                    assert(r.subrange(0, pk.len() as int)[i + 1] == pk[i + 1]);
                    assert(r[i + 1] == r1[i]);
                }
                assert(r1.subrange(0, q.len() as int) =~= q);
            }
            lemma_open_prefix(s1, k, k0, v0);
            assert(occurs_at(s, pk, 0)) by {
                assert forall|i: int| 0 <= i < pk.len() implies s.subrange(0, pk.len() as int)[i] == pk[i] by {
                    if i > 0 {
                        assert(s1.subrange(0, q.len() as int)[i - 1] == q[i - 1]);
                    }
                }
                assert(s.subrange(0, pk.len() as int) =~= pk);
            }
            assert(m.contains_key(k));
            assert(false);
        }
        lemma_subst_keep(r, m1);
        lemma_subst_keep(s, m);
    }
}

/// The table as a map from keys to values.
pub open spec fn table_map(t: Seq<(Seq<char>, Seq<char>)>) -> Map<Seq<char>, Seq<char>>
    decreases t.len(),
{
    if t.len() == 0 {
        Map::empty()
    } else {
        table_map(t.drop_first()).insert(t[0].0, t[0].1)
    }
}

/// A table whose order cannot matter: its keys are distinct and bracket-free, and its values
/// hold no `[`.
pub open spec fn order_free_table(t: Seq<(Seq<char>, Seq<char>)>) -> bool {
    &&& distinct_keys(t)
    &&& forall|i: int| 0 <= i < t.len() ==> bracket_free(#[trigger] t[i].0)
    &&& forall|i: int| 0 <= i < t.len() ==> no_open_bracket(#[trigger] t[i].1)
}

/// The keys of the map are those of the table, and with distinct keys each maps to its value.
proof fn lemma_table_map(t: Seq<(Seq<char>, Seq<char>)>)
    requires
        distinct_keys(t),
    ensures
        forall|k: Seq<char>| #[trigger] table_map(t).contains_key(k)
            <==> exists|i: int| 0 <= i < t.len() && t[i].0 == k,
        forall|i: int| 0 <= i < t.len() ==> table_map(t)[#[trigger] t[i].0] == t[i].1,
    decreases t.len(),
{
    if t.len() > 0 {
        let t1 = t.drop_first();
        assert(distinct_keys(t1)) by {
            assert forall|i: int, j: int| 0 <= i < j < t1.len() implies t1[i].0 != t1[j].0 by {
                assert(t1[i] == t[i + 1] && t1[j] == t[j + 1]);
            }
        }
        lemma_table_map(t1);
        assert forall|k: Seq<char>| #[trigger] table_map(t).contains_key(k)
            <==> exists|i: int| 0 <= i < t.len() && t[i].0 == k by {
            if table_map(t1).contains_key(k) {
                let i = choose|i: int| 0 <= i < t1.len() && t1[i].0 == k;
                assert(t[i + 1].0 == k);
            }
            if exists|i: int| 0 <= i < t.len() && t[i].0 == k {
                let i = choose|i: int| 0 <= i < t.len() && t[i].0 == k;
                if i > 0 {
                    assert(t1[i - 1].0 == k);
                }
            }
        }
        assert forall|i: int| 0 <= i < t.len() implies table_map(t)[#[trigger] t[i].0] == t[i].1 by {
            if i > 0 {
                assert(t1[i - 1] == t[i]);
                assert(t[i].0 != t[0].0);
            }
        }
    }
}

/// The substitution by an empty table leaves the text as it is.
proof fn lemma_subst_empty(s: Seq<char>)
    ensures
        subst(s, Map::empty()) == s,
    decreases s.len(),
{
    if s.len() > 0 {
        lemma_subst_empty(s.skip(1));
        assert(seq![s[0]] + s.skip(1) =~= s);
    }
}

/// On a `flat` text, replacing entry by entry in the table's order is the simultaneous
/// substitution by the table taken as a map.
pub proof fn law_entries_are_simultaneous(s: Seq<char>, t: Seq<(Seq<char>, Seq<char>)>)
    requires
        order_free_table(t),
        flat(s),
    ensures
        replace_entries(s, t) == subst(s, table_map(t)),
    decreases t.len(),
{
    if t.len() == 0 {
        lemma_subst_empty(s);
    } else {
        let t1 = t.drop_first();
        let m = table_map(t);
        let k0 = t[0].0;
        lemma_table_map(t);
        assert(keys_bracket_free(m)) by {
            assert forall|k: Seq<char>| #[trigger] m.contains_key(k) implies bracket_free(k) by {
                let i = choose|i: int| 0 <= i < t.len() && t[i].0 == k;
                assert(bracket_free(t[i].0));
            }
        }
        assert(m[k0] == t[0].1);
        assert(no_open_bracket(t[0].1));
        lemma_step(s, m, k0, false);
        assert(order_free_table(t1)) by {
            assert forall|i: int, j: int| 0 <= i < j < t1.len() implies t1[i].0 != t1[j].0 by {
                assert(t1[i] == t[i + 1] && t1[j] == t[j + 1]);
            }
            assert forall|i: int| 0 <= i < t1.len() implies bracket_free(#[trigger] t1[i].0) by {
                assert(t1[i] == t[i + 1]);
            }
            assert forall|i: int| 0 <= i < t1.len() implies no_open_bracket(#[trigger] t1[i].1) by {
                assert(t1[i] == t[i + 1]);
            }
        }
        lemma_table_map(t1);
        assert(!table_map(t1).contains_key(k0)) by {
            if table_map(t1).contains_key(k0) {
                let i = choose|i: int| 0 <= i < t1.len() && t1[i].0 == k0;
                assert(t[i + 1].0 == t[0].0);
            }
        }
        assert(m.remove(k0) =~= table_map(t1));
        let r = replace_all(s, placeholder(k0), t[0].1);
        law_entries_are_simultaneous(r, t1);
    }
}

/// Two tables with the same keys and values, in whatever order, resolve a `flat` text alike:
/// the order in which a map of placeholders is walked does not change the result.
pub proof fn law_table_order_irrelevant(
    s: Seq<char>,
    t1: Seq<(Seq<char>, Seq<char>)>,
    t2: Seq<(Seq<char>, Seq<char>)>,
)
    requires
        order_free_table(t1),
        order_free_table(t2),
        table_map(t1) == table_map(t2),
        flat(s),
    ensures
        replace_entries(s, t1) == replace_entries(s, t2),
{
    law_entries_are_simultaneous(s, t1);
    law_entries_are_simultaneous(s, t2);
}

/// For a user name without `[`, the order in which the launcher's table is walked does not
/// change how a `flat` settings value is resolved.
pub proof fn law_mcc_config_order_irrelevant(s: Seq<char>, user_name: Seq<char>)
    requires
        no_open_bracket(user_name),
        flat(s),
    ensures
        replace_entries(s, mcc_config_entries(user_name)) == replace_entries(
            s,
            seq![mcc_config_entries(user_name)[1], mcc_config_entries(user_name)[0]],
        ),
{
    reveal_strlit("env.dir");
    reveal_strlit("appdata.roaming");
    reveal_strlit("app");
    reveal_strlit("C:\\Users\\");
    reveal_strlit("\\AppData\\Roaming");
    let e = mcc_config_entries(user_name);
    let f = seq![e[1], e[0]];
    let roaming = "C:\\Users\\"@ + user_name + "\\AppData\\Roaming"@;
    assert(e[0] == ("env.dir"@, "app"@));
    assert(e[1] == ("appdata.roaming"@, roaming));
    assert(no_open_bracket(roaming)) by {
        assert forall|i: int| 0 <= i < roaming.len() implies roaming[i] != '[' by {
            let n = "C:\\Users\\"@.len() as int;
            if i >= n && i < n + user_name.len() {
                assert(roaming[i] == user_name[i - n]);
            }
        }
    }
    assert(e[0].0 != e[1].0) by {
        assert("env.dir"@.len() != "appdata.roaming"@.len());
    }
    assert(order_free_table(e));
    assert(order_free_table(f));
    assert(e.drop_first() =~= seq![e[1]]);
    assert(f.drop_first() =~= seq![e[0]]);
    assert(seq![e[1]].drop_first() =~= Seq::<(Seq<char>, Seq<char>)>::empty());
    assert(seq![e[0]].drop_first() =~= Seq::<(Seq<char>, Seq<char>)>::empty());
    reveal_with_fuel(table_map, 3);
    assert(table_map(e) =~= table_map(f));
    law_table_order_irrelevant(s, e, f);
}

} // verus!
