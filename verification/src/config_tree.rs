//! Layered configuration: a TOML-like tree of tables, and merging an overlay onto a base.
//!
//! Values that are not tables (strings, numbers, arrays, ...) are leaves; the tree
//! refers to each of them by a number, and whoever built the tree keeps the leaf values.
use vstd::prelude::*;

verus! {

/// A configuration value: a table of named values, or a leaf that stands for any other value.
pub enum ConfigValue {
    Table(ConfigTable),
    Leaf(u64),
}

/// A table: named values, each name at most once.
pub struct ConfigTable {
    pub entries: Vec<(String, ConfigValue)>,
}

/// What is found at the end of a path through the tree.
pub enum Node {
    Table,
    Leaf(u64),
}

/// Some entry of `entries` has the name `key`.
pub open spec fn has_key(entries: Seq<(String, ConfigValue)>, key: Seq<char>) -> bool {
    exists|i: int| 0 <= i < entries.len() && (#[trigger] entries[i]).0@ == key
}

/// The value named `key` in `entries`, if any.
pub open spec fn find(entries: Seq<(String, ConfigValue)>, key: Seq<char>) -> Option<ConfigValue> {
    if has_key(entries, key) {
        let i = choose|i: int| 0 <= i < entries.len() && (#[trigger] entries[i]).0@ == key;
        Some(entries[i].1)
    } else {
        None
    }
}

/// No name occurs twice in `entries`.
pub open spec fn distinct_keys(entries: Seq<(String, ConfigValue)>) -> bool {
    forall|i: int, j: int|
        0 <= i < entries.len() && 0 <= j < entries.len() && i != j ==> (#[trigger] entries[i]).0@
            != (#[trigger] entries[j]).0@
}

/// The value reached from `v` by following the names of `path`.
pub open spec fn get_value(v: ConfigValue, path: Seq<Seq<char>>) -> Option<ConfigValue>
    decreases path.len(),
{
    if path.len() == 0 {
        Some(v)
    } else {
        match v {
            ConfigValue::Table(t) => match find(t.entries@, path[0]) {
                Some(child) => get_value(child, path.drop_first()),
                None => None,
            },
            ConfigValue::Leaf(_) => None,
        }
    }
}

/// Every table reachable in the tree has distinct names.
pub open spec fn wf_value(v: ConfigValue) -> bool {
    forall|path: Seq<Seq<char>>|
        match #[trigger] get_value(v, path) {
            Some(ConfigValue::Table(t)) => distinct_keys(t.entries@),
            _ => true,
        }
}

/// Every table reachable from `t`, `t` included, has distinct names.
pub open spec fn wf_table(t: ConfigTable) -> bool {
    wf_value(ConfigValue::Table(t))
}

/// The kind of node a value is.
pub open spec fn node_of(v: ConfigValue) -> Node {
    match v {
        ConfigValue::Table(_) => Node::Table,
        ConfigValue::Leaf(id) => Node::Leaf(id),
    }
}

/// What is found by following the names of `path` from `v`.
pub open spec fn get_path(v: ConfigValue, path: Seq<Seq<char>>) -> Option<Node> {
    match get_value(v, path) {
        Some(x) => Some(node_of(x)),
        None => None,
    }
}

/// What `path` reaches once `overlay` is laid over `base`: an overlay table that meets a
/// base table is merged into it, name by name; any other overlay value replaces what the
/// base held; names the overlay lacks keep the base value.
pub open spec fn merged_path(base: ConfigTable, overlay: ConfigTable, path: Seq<Seq<char>>) -> Option<Node>
    decreases path.len(),
{
    if path.len() == 0 {
        Some(Node::Table)
    } else {
        match find(overlay.entries@, path[0]) {
            None => get_path(ConfigValue::Table(base), path),
            Some(ConfigValue::Table(ot)) => match find(base.entries@, path[0]) {
                Some(ConfigValue::Table(bt)) => merged_path(bt, ot, path.drop_first()),
                _ => get_path(ConfigValue::Table(overlay), path),
            },
            Some(ConfigValue::Leaf(_)) => get_path(ConfigValue::Table(overlay), path),
        }
    }
}


/// In a table with distinct names, the value found under an entry's name is that entry's.
pub proof fn lemma_find_at(entries: Seq<(String, ConfigValue)>, i: int)
    requires
        distinct_keys(entries),
        0 <= i < entries.len(),
    ensures
        has_key(entries, entries[i].0@),
        find(entries, entries[i].0@) == Some(entries[i].1),
{
    let k = entries[i].0@;
    assert(has_key(entries, k));
    let j = choose|j: int| 0 <= j < entries.len() && (#[trigger] entries[j]).0@ == k;
    assert(j == i);
}

/// Removing entry `i` of a table with distinct names keeps the names distinct, drops
/// the entry's name and leaves every other name's value alone.
pub proof fn lemma_find_remove(entries: Seq<(String, ConfigValue)>, i: int, key: Seq<char>)
    requires
        distinct_keys(entries),
        0 <= i < entries.len(),
    ensures
        distinct_keys(entries.remove(i)),
        !has_key(entries.remove(i), entries[i].0@),
        key != entries[i].0@ ==> find(entries.remove(i), key) == find(entries, key),
{
    let r = entries.remove(i);
    assert forall|a: int, b: int|
        0 <= a < r.len() && 0 <= b < r.len() && a != b implies (#[trigger] r[a]).0@
        != (#[trigger] r[b]).0@ by {
        let a0 = if a < i { a } else { a + 1 };
        let b0 = if b < i { b } else { b + 1 };
        assert(r[a] == entries[a0]);
        assert(r[b] == entries[b0]);
    }
    if has_key(r, entries[i].0@) {
        let a = choose|a: int| 0 <= a < r.len() && (#[trigger] r[a]).0@ == entries[i].0@;
        let a0 = if a < i { a } else { a + 1 };
        assert(r[a] == entries[a0]);
    }
    if key != entries[i].0@ {
        if has_key(entries, key) {
            let j = choose|j: int| 0 <= j < entries.len() && (#[trigger] entries[j]).0@ == key;
            lemma_find_at(entries, j);
            let j1 = if j < i { j } else { j - 1 };
            assert(r[j1] == entries[j]);
            lemma_find_at(r, j1);
        } else {
            if has_key(r, key) {
                let a = choose|a: int| 0 <= a < r.len() && (#[trigger] r[a]).0@ == key;
                let a0 = if a < i { a } else { a + 1 };
                assert(r[a] == entries[a0]);
            }
        }
    }
}

/// Adding an entry under a fresh name keeps names distinct, finds the new value under
/// that name and leaves every other name's value alone.
pub proof fn lemma_find_push(entries: Seq<(String, ConfigValue)>, e: (String, ConfigValue), key: Seq<char>)
    requires
        distinct_keys(entries),
        !has_key(entries, e.0@),
    ensures
        distinct_keys(entries.push(e)),
        find(entries.push(e), e.0@) == Some(e.1),
        key != e.0@ ==> find(entries.push(e), key) == find(entries, key),
{
    let r = entries.push(e);
    assert forall|a: int, b: int|
        0 <= a < r.len() && 0 <= b < r.len() && a != b implies (#[trigger] r[a]).0@
        != (#[trigger] r[b]).0@ by {
        if a == entries.len() {
            assert(r[b] == entries[b]);
        } else if b == entries.len() {
            assert(r[a] == entries[a]);
        } else {
            assert(r[a] == entries[a]);
            assert(r[b] == entries[b]);
        }
    }
    assert(r[entries.len() as int] == e);
    lemma_find_at(r, entries.len() as int);
    if key != e.0@ {
        if has_key(entries, key) {
            let j = choose|j: int| 0 <= j < entries.len() && (#[trigger] entries[j]).0@ == key;
            lemma_find_at(entries, j);
            assert(r[j] == entries[j]);
            lemma_find_at(r, j);
        } else {
            if has_key(r, key) {
                let a = choose|a: int| 0 <= a < r.len() && (#[trigger] r[a]).0@ == key;
                assert(r[a] == entries[a]);
            }
        }
    }
}

/// Following a name of a table, then the rest of a path, is following the whole path.
pub proof fn lemma_get_value_step(t: ConfigTable, i: int, q: Seq<Seq<char>>)
    requires
        distinct_keys(t.entries@),
        0 <= i < t.entries@.len(),
    ensures
        get_value(ConfigValue::Table(t), seq![t.entries@[i].0@] + q) == get_value(t.entries@[i].1, q),
{
    let p = seq![t.entries@[i].0@] + q;
    lemma_find_at(t.entries@, i);
    assert(p.drop_first() =~= q);
    assert(p[0] == t.entries@[i].0@);
}

/// A path that starts with a name goes through the value found under that name.
pub proof fn lemma_path_cons(t: ConfigTable, o: ConfigTable, k: Seq<char>, q: Seq<Seq<char>>)
    ensures
        get_value(ConfigValue::Table(t), seq![k] + q) == match find(t.entries@, k) {
            Some(c) => get_value(c, q),
            None => None,
        },
        merged_path(t, o, seq![k] + q) == match find(o.entries@, k) {
            None => get_path(ConfigValue::Table(t), seq![k] + q),
            Some(ConfigValue::Table(ot)) => match find(t.entries@, k) {
                Some(ConfigValue::Table(bt)) => merged_path(bt, ot, q),
                _ => get_path(ConfigValue::Table(o), seq![k] + q),
            },
            Some(ConfigValue::Leaf(_)) => get_path(ConfigValue::Table(o), seq![k] + q),
        },
{
    let p = seq![k] + q;
    assert(p.drop_first() =~= q);
    assert(p[0] == k);
}

/// Every value held in a well-formed table is well formed.
pub proof fn lemma_wf_child(t: ConfigTable, i: int)
    requires
        wf_table(t),
        0 <= i < t.entries@.len(),
    ensures
        distinct_keys(t.entries@),
        wf_value(t.entries@[i].1),
{
    assert(get_value(ConfigValue::Table(t), Seq::empty()) == Some(ConfigValue::Table(t)));
    assert forall|q: Seq<Seq<char>>|
        match #[trigger] get_value(t.entries@[i].1, q) {
            Some(ConfigValue::Table(c)) => distinct_keys(c.entries@),
            _ => true,
        } by {
        lemma_get_value_step(t, i, q);
        assert(get_value(ConfigValue::Table(t), seq![t.entries@[i].0@] + q) == get_value(
            t.entries@[i].1,
            q,
        ));
    }
}

/// A table with distinct names whose values are all well formed is well formed.
pub proof fn lemma_wf_from_children(t: ConfigTable)
    requires
        distinct_keys(t.entries@),
        forall|i: int| 0 <= i < t.entries@.len() ==> #[trigger] wf_value(t.entries@[i].1),
    ensures
        wf_table(t),
{
    let v = ConfigValue::Table(t);
    assert forall|path: Seq<Seq<char>>|
        match #[trigger] get_value(v, path) {
            Some(ConfigValue::Table(c)) => distinct_keys(c.entries@),
            _ => true,
        } by {
        if path.len() > 0 {
            if has_key(t.entries@, path[0]) {
                let j = choose|j: int|
                    0 <= j < t.entries@.len() && (#[trigger] t.entries@[j]).0@ == path[0];
                lemma_find_at(t.entries@, j);
                assert(wf_value(t.entries@[j].1));
                assert(get_value(v, path) == get_value(t.entries@[j].1, path.drop_first()));
            }
        }
    }
}

/// Position of the entry named `key`, if there is one.
fn key_position(entries: &Vec<(String, ConfigValue)>, key: &String) -> (r: Option<usize>)
    ensures
        match r {
            Some(i) => i < entries@.len() && entries@[i as int].0@ == key@,
            None => !has_key(entries@, key@),
        },
{
    let mut i: usize = 0;
    while i < entries.len()
        invariant
            i <= entries@.len(),
            forall|j: int| 0 <= j < i ==> (#[trigger] entries@[j]).0@ != key@,
        decreases entries@.len() - i,
    {
        if entries[i].0 == *key {
            return Some(i);
        }
        i = i + 1;
    }
    None
}

/// Lay `overlay` over `base`: a table of the overlay that meets a table of the base is
/// merged into it, recursively; any other value of the overlay replaces the base value
/// of the same name (or is added).
pub fn merge_toml_tables(base: &mut ConfigTable, overlay: ConfigTable)
    requires
        wf_table(*old(base)),
        wf_table(overlay),
    ensures
        wf_table(*final(base)),
        forall|path: Seq<Seq<char>>|
            #[trigger] get_path(ConfigValue::Table(*final(base)), path) == merged_path(
                *old(base),
                overlay,
                path,
            ),
    decreases overlay,
{
    let ghost base0 = *base;
    let ghost ov0 = overlay;
    proof {
        lemma_wf_child_all(base0);
        lemma_wf_child_all(ov0);
    }
    let ConfigTable { entries: mut rest } = overlay;
    while rest.len() > 0
        invariant
            ov0 == overlay,
            rest@ == ov0.entries@.take(rest@.len() as int),
            rest@.len() <= ov0.entries@.len(),
            distinct_keys(ov0.entries@),
            forall|i: int| 0 <= i < ov0.entries@.len() ==> #[trigger] wf_value(ov0.entries@[i].1),
            distinct_keys(base.entries@),
            forall|i: int|
                0 <= i < base.entries@.len() ==> #[trigger] wf_value(base.entries@[i].1),
            forall|k: Seq<char>|
                !has_key(ov0.entries@.skip(rest@.len() as int), k) ==> #[trigger] find(
                    base.entries@,
                    k,
                ) == find(base0.entries@, k),
            forall|path: Seq<Seq<char>>|
                path.len() > 0 && has_key(ov0.entries@.skip(rest@.len() as int), path[0])
                    ==> #[trigger] get_path(ConfigValue::Table(*base), path) == merged_path(
                    base0,
                    ov0,
                    path,
                ),
        decreases rest@.len(),
    {
        let ghost r = rest@.len() as int;
        let ghost before = base.entries@;
        let ghost base_start = *base;
        let (key, value) = rest.pop().unwrap();
        let ghost e = ov0.entries@[r - 1];
        proof {
            assert(e == (key, value));
            lemma_find_at(ov0.entries@, r - 1);
            // the name being laid over has not been seen yet
            if has_key(ov0.entries@.skip(r), key@) {
                let j = choose|j: int|
                    0 <= j < ov0.entries@.skip(r).len() && (#[trigger] ov0.entries@.skip(r)[j]).0@
                        == key@;
                assert(ov0.entries@.skip(r)[j] == ov0.entries@[r + j]);
            }
            assert(find(base.entries@, key@) == find(base0.entries@, key@));
        }
        let pos = key_position(&base.entries, &key);
        let ghost new_child: ConfigValue;
        match value {
            ConfigValue::Table(ot) => {
                match pos {
                    Some(i) => {
                        proof {
                            lemma_find_at(before, i as int);
                            lemma_find_remove(before, i as int, key@);
                        }
                        let (bk, bv) = base.entries.remove(i);
                        match bv {
                            ConfigValue::Table(mut bt) => {
                                proof {
                                    assert(decreases_to!(ov0 => ov0.entries));
                                    assert(decreases_to!(ov0.entries => ov0.entries@));
                                    assert(decreases_to!(ov0.entries@ => e));
                                    assert(decreases_to!(e => e.1));
                                    assert(decreases_to!(e.1 => ot));
                                    assert(decreases_to!(ov0 => ot));
                                }
                                let ghost bt0 = bt;
                                merge_toml_tables(&mut bt, ot);
                                proof {
                                    new_child = ConfigValue::Table(bt);
                                    assert(find(base0.entries@, key@) == Some(ConfigValue::Table(bt0)));
                                    assert forall|q: Seq<Seq<char>>|
                                        #[trigger] get_path(new_child, q) == merged_path(
                                            base0,
                                            ov0,
                                            seq![key@] + q,
                                        ) by {
                                        lemma_path_cons(base0, ov0, key@, q);
                                    }
                                }
                                base.entries.push((bk, ConfigValue::Table(bt)));
                            },
                            ConfigValue::Leaf(_) => {
                                proof {
                                    new_child = ConfigValue::Table(ot);
                                }
                                base.entries.push((key, ConfigValue::Table(ot)));
                            },
                        }
                    },
                    None => {
                        proof {
                            new_child = ConfigValue::Table(ot);
                        }
                        base.entries.push((key, ConfigValue::Table(ot)));
                    },
                }
            },
            ConfigValue::Leaf(id) => {
                match pos {
                    Some(i) => {
                        proof {
                            lemma_find_remove(before, i as int, key@);
                        }
                        base.entries.remove(i);
                    },
                    None => {},
                }
                proof {
                    new_child = ConfigValue::Leaf(id);
                }
                base.entries.push((key, ConfigValue::Leaf(id)));
            },
        }
        proof {
            assert forall|q: Seq<Seq<char>>|
                #[trigger] get_path(new_child, q) == merged_path(base0, ov0, seq![key@] + q) by {
                lemma_path_cons(base0, ov0, key@, q);
                lemma_path_cons(ov0, ov0, key@, q);
            }
            let after = base.entries@;
            let mid = after.drop_last();
            let last = after.last();
            assert(last.0@ == key@);
            assert(last.1 == new_child);
            assert(after =~= mid.push(last));
            match pos {
                Some(i) => {
                    assert(mid =~= before.remove(i as int));
                },
                None => {
                    assert(mid =~= before);
                },
            }
            assert(distinct_keys(mid));
            assert(!has_key(mid, key@));
            assert forall|k: Seq<char>| k != key@ implies #[trigger] find(after, k) == find(
                before,
                k,
            ) by {
                lemma_find_push(mid, last, k);
                match pos {
                    Some(i) => {
                        lemma_find_remove(before, i as int, k);
                    },
                    None => {},
                }
            }
            lemma_find_push(mid, last, key@);
            assert(find(after, key@) == Some(new_child));
            assert forall|i: int| 0 <= i < after.len() implies #[trigger] wf_value(after[i].1) by {
                if i < mid.len() {
                    match pos {
                        Some(p) => {
                            let i0 = if i < p { i } else { i + 1 };
                            assert(mid[i] == before[i0]);
                        },
                        None => {
                            assert(mid[i] == before[i]);
                        },
                    }
                } else {
                    assert(wf_value(ov0.entries@[r - 1].1));
                }
            }
            assert(rest@ == ov0.entries@.take(rest@.len() as int));
            assert(ov0.entries@.skip(r - 1) =~= seq![e] + ov0.entries@.skip(r));
            assert forall|k: Seq<char>|
                has_key(ov0.entries@.skip(r - 1), k) <==> (k == key@ || has_key(
                    ov0.entries@.skip(r),
                    k,
                )) by {
                if has_key(ov0.entries@.skip(r - 1), k) && k != key@ {
                    let j = choose|j: int|
                        0 <= j < ov0.entries@.skip(r - 1).len() && (#[trigger] ov0.entries@.skip(
                            r - 1,
                        )[j]).0@ == k;
                    assert(j > 0);
                    assert(ov0.entries@.skip(r)[j - 1] == ov0.entries@.skip(r - 1)[j]);
                }
                if has_key(ov0.entries@.skip(r), k) {
                    let j = choose|j: int|
                        0 <= j < ov0.entries@.skip(r).len() && (#[trigger] ov0.entries@.skip(
                            r,
                        )[j]).0@ == k;
                    assert(ov0.entries@.skip(r)[j] == ov0.entries@.skip(r - 1)[j + 1]);
                }
                if k == key@ {
                    assert(ov0.entries@.skip(r - 1)[0] == e);
                }
            }
            assert forall|path: Seq<Seq<char>>|
                path.len() > 0 && has_key(ov0.entries@.skip(r - 1), path[0]) implies #[trigger] get_path(
                ConfigValue::Table(*base),
                path,
            ) == merged_path(base0, ov0, path) by {
                let q = path.drop_first();
                if path[0] == key@ {
                    assert(path =~= seq![key@] + q);
                    lemma_path_cons(*base, ov0, key@, q);
                    assert(get_path(new_child, q) == merged_path(base0, ov0, seq![key@] + q));
                    assert(get_path(ConfigValue::Table(*base), path) == get_path(new_child, q));
                } else {
                    assert(has_key(ov0.entries@.skip(r), path[0]));
                    assert(find(base.entries@, path[0]) == find(before, path[0]));
                    assert(path =~= seq![path[0]] + q);
                    lemma_path_cons(*base, ov0, path[0], q);
                    lemma_path_cons(base_start, ov0, path[0], q);
                    assert(get_path(ConfigValue::Table(*base), path) == get_path(
                        ConfigValue::Table(base_start),
                        path,
                    ));
                }
            }
        }
    }
    proof {
        lemma_wf_from_children(*base);
        assert(ov0.entries@.skip(0) =~= ov0.entries@);
        assert forall|path: Seq<Seq<char>>|
            #[trigger] get_path(ConfigValue::Table(*base), path) == merged_path(base0, ov0, path) by {
            if path.len() > 0 && !has_key(ov0.entries@, path[0]) {
                assert(find(base.entries@, path[0]) == find(base0.entries@, path[0]));
            }
        }
    }
}

/// `ts` are the successive states of laying `overlays` over `base`, one at a time and in
/// order: `ts[0]` is `base`, and each next state is the previous one with the next
/// overlay laid over it.
pub open spec fn layering(base: ConfigTable, overlays: Seq<ConfigTable>, ts: Seq<ConfigTable>) -> bool {
    &&& ts.len() == overlays.len() + 1
    &&& ts[0] == base
    &&& forall|k: int, path: Seq<Seq<char>>|
        0 <= k < overlays.len() ==> #[trigger] get_path(ConfigValue::Table(ts[k + 1]), path)
            == merged_path(ts[k], overlays[k], path)
}

/// Lay each of `overlays` over `base` in turn, the first one first: a later overlay
/// wins over an earlier one and over the base.
pub fn merge_overlays(base: &mut ConfigTable, overlays: Vec<ConfigTable>)
    requires
        wf_table(*old(base)),
        forall|i: int| 0 <= i < overlays@.len() ==> wf_table(#[trigger] overlays@[i]),
    ensures
        wf_table(*final(base)),
        exists|ts: Seq<ConfigTable>| layering(*old(base), overlays@, ts) && ts.last() == *final(base),
{
    let ghost all = overlays@;
    let ghost start = *base;
    let ghost mut ts: Seq<ConfigTable> = seq![*base];
    let total = overlays.len();
    let mut rest = overlays;
    let mut i: usize = 0;
    proof {
        assert(all.skip(0) =~= all);
    }
    while rest.len() > 0
        invariant
            i <= all.len(),
            all.len() == total,
            rest@ == all.skip(i as int),
            forall|j: int| 0 <= j < all.len() ==> wf_table(#[trigger] all[j]),
            wf_table(*base),
            ts.len() == i + 1,
            ts[0] == start,
            ts.last() == *base,
            forall|k: int, path: Seq<Seq<char>>|
                0 <= k < i ==> #[trigger] get_path(ConfigValue::Table(ts[k + 1]), path)
                    == merged_path(ts[k], all[k], path),
        decreases rest@.len(),
    {
        let overlay = rest.remove(0);
        proof {
            assert(all.skip(i as int)[0] == overlay);
            assert(all.skip(i as int).drop_first() =~= all.skip(i + 1));
        }
        let ghost before = *base;
        merge_toml_tables(base, overlay);
        proof {
            let old_ts = ts;
            ts = ts.push(*base);
            assert forall|k: int, path: Seq<Seq<char>>|
                0 <= k < i + 1 implies #[trigger] get_path(ConfigValue::Table(ts[k + 1]), path)
                    == merged_path(ts[k], all[k], path) by {
                if k < i {
                    assert(ts[k + 1] == old_ts[k + 1]);
                    assert(ts[k] == old_ts[k]);
                } else {
                    assert(ts[k] == before);
                    assert(all[k] == overlay);
                }
            }
        }
        i = i + 1;
    }
    proof {
        assert(i == all.len());
        assert(layering(start, all, ts));
    }
}

/// Every value of a well-formed table is well formed.
pub proof fn lemma_wf_child_all(t: ConfigTable)
    requires
        wf_table(t),
    ensures
        distinct_keys(t.entries@),
        forall|i: int| 0 <= i < t.entries@.len() ==> #[trigger] wf_value(t.entries@[i].1),
{
    assert(get_value(ConfigValue::Table(t), Seq::empty()) == Some(ConfigValue::Table(t)));
    assert forall|i: int| 0 <= i < t.entries@.len() implies #[trigger] wf_value(t.entries@[i].1) by {
        lemma_wf_child(t, i);
    }
}

/// Laying an empty overlay over a base changes nothing.
pub proof fn lemma_merge_empty_overlay(base: ConfigTable, overlay: ConfigTable, path: Seq<Seq<char>>)
    requires
        overlay.entries@.len() == 0,
    ensures
        merged_path(base, overlay, path) == get_path(ConfigValue::Table(base), path),
{
    if path.len() > 0 {
        assert(!has_key(overlay.entries@, path[0]));
    }
}

/// Laying a table over itself changes nothing.
pub proof fn lemma_merge_idempotent(t: ConfigTable, path: Seq<Seq<char>>)
    ensures
        merged_path(t, t, path) == get_path(ConfigValue::Table(t), path),
    decreases path.len(),
{
    if path.len() > 0 {
        let q = path.drop_first();
        match find(t.entries@, path[0]) {
            Some(ConfigValue::Table(c)) => {
                lemma_merge_idempotent(c, q);
            },
            _ => {},
        }
    }
}

/// Whatever leaf the overlay holds at a path, the merged configuration holds there too.
pub proof fn lemma_merge_overlay_leaf_wins(base: ConfigTable, overlay: ConfigTable, path: Seq<Seq<char>>, id: u64)
    requires
        get_path(ConfigValue::Table(overlay), path) == Some(Node::Leaf(id)),
    ensures
        merged_path(base, overlay, path) == Some(Node::Leaf(id)),
    decreases path.len(),
{
    let q = path.drop_first();
    match find(overlay.entries@, path[0]) {
        Some(ConfigValue::Table(ot)) => match find(base.entries@, path[0]) {
            Some(ConfigValue::Table(bt)) => {
                lemma_merge_overlay_leaf_wins(bt, ot, q, id);
            },
            _ => {},
        },
        _ => {},
    }
}

/// What the overlay does not name keeps its value from the base.
pub proof fn lemma_merge_keeps_unnamed(base: ConfigTable, overlay: ConfigTable, path: Seq<Seq<char>>)
    requires
        path.len() > 0,
        !has_key(overlay.entries@, path[0]),
    ensures
        merged_path(base, overlay, path) == get_path(ConfigValue::Table(base), path),
{
}


/// Overlays are laid in order, so the last one wins: whatever leaf the last overlay holds
/// at a path, the layered configuration holds there too.
pub proof fn lemma_layering_last_leaf_wins(
    base: ConfigTable,
    overlays: Seq<ConfigTable>,
    ts: Seq<ConfigTable>,
    path: Seq<Seq<char>>,
    id: u64,
)
    requires
        layering(base, overlays, ts),
        overlays.len() > 0,
        get_path(ConfigValue::Table(overlays.last()), path) == Some(Node::Leaf(id)),
    ensures
        get_path(ConfigValue::Table(ts.last()), path) == Some(Node::Leaf(id)),
{
    let k = overlays.len() - 1;
    assert(get_path(ConfigValue::Table(ts[k + 1]), path) == merged_path(ts[k], overlays[k], path));
    lemma_merge_overlay_leaf_wins(ts[k], overlays[k], path, id);
}

} // verus!
