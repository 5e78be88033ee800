//! What the guild configuration operations promise together: reading back a
//! configuration or a type that was written, and that the cache of type names
//! always lists exactly the names the table holds.

use vstd::prelude::*;
use crate::guild_config::{
    GuildConfigManager, ChannelConfig, TypeEntry, cache_agrees, added_cache, removed_cache, listed, other_name, unique_type_keys, has_type, role_of, names_of, rebuilt_cache,
    upsert_type, without_type, other_type, lemma_role_of_unique, lemma_role_of_none,
    lemma_filter_source, lemma_filter_keeps_unique_keys,
};

verus! {

broadcast use vstd::seq_lib::group_filter_ensures;

/// Read after write: the channels set for a guild are the ones read back,
/// and no other guild's channels change.
pub proof fn law_config_read_back(
    configs: Map<u64, ChannelConfig>,
    guild_id: u64,
    forum_id: u64,
    lfg_command_channel_id: u64,
    other: u64,
)
    requires
        other != guild_id,
    ensures
        ({
            let after = configs.insert(guild_id, ChannelConfig { forum_id, lfg_command_channel_id });
            &&& after.contains_key(guild_id)
            &&& after[guild_id].forum_id == forum_id
            &&& after[guild_id].lfg_command_channel_id == lfg_command_channel_id
            &&& after.contains_key(other) == configs.contains_key(other)
            &&& configs.contains_key(other) ==> after[other] == configs[other]
        }),
{
}

proof fn lemma_has_type_upsert(t: Seq<TypeEntry>, g: u64, n: Seq<char>, r: u64, g2: u64, n2: Seq<char>)
    ensures
        has_type(upsert_type(t, g, n, r), g2, n2) == (has_type(t, g2, n2) || (g2 == g && n2 == n)),
{
    let u = upsert_type(t, g, n, r);
    if has_type(t, g, n) {
        assert(u.len() == t.len());
        if has_type(t, g2, n2) {
            let i = choose|i: int| 0 <= i < t.len() && t[i].0 == g2 && t[i].1 == n2;
            assert(u[i].0 == g2 && u[i].1 == n2);
        }
        if has_type(u, g2, n2) {
            let i = choose|i: int| 0 <= i < u.len() && u[i].0 == g2 && u[i].1 == n2;
            assert(t[i].0 == g2 && t[i].1 == n2 || (g2 == g && n2 == n));
        }
        if g2 == g && n2 == n {
            let i = choose|i: int| 0 <= i < t.len() && t[i].0 == g && t[i].1 == n;
            assert(u[i].0 == g && u[i].1 == n);
        }
    } else {
        if has_type(t, g2, n2) {
            let i = choose|i: int| 0 <= i < t.len() && t[i].0 == g2 && t[i].1 == n2;
            assert(u[i] == t[i]);
        }
        if has_type(u, g2, n2) {
            let i = choose|i: int| 0 <= i < u.len() && u[i].0 == g2 && u[i].1 == n2;
            if i < t.len() {
                assert(u[i] == t[i]);
            }
        }
        if g2 == g && n2 == n {
            assert(u[t.len() as int].0 == g && u[t.len() as int].1 == n);
        }
    }
}

proof fn lemma_has_type_without(t: Seq<TypeEntry>, g: u64, n: Seq<char>, g2: u64, n2: Seq<char>)
    ensures
        has_type(without_type(t, g, n), g2, n2) == (has_type(t, g2, n2) && !(g2 == g && n2 == n)),
{
    let pred = other_type(g, n);
    let u = without_type(t, g, n);
    if has_type(u, g2, n2) {
        let i = choose|i: int| 0 <= i < u.len() && u[i].0 == g2 && u[i].1 == n2;
        lemma_filter_source(t, pred, i);
        assert(pred(u[i]));
    }
    if has_type(t, g2, n2) && !(g2 == g && n2 == n) {
        let i = choose|i: int| 0 <= i < t.len() && t[i].0 == g2 && t[i].1 == n2;
        assert(pred(t[i]));
        assert(u.contains(t[i]));
    }
}

/// Read after write: once a type is added (or updated) its name finds the
/// new role, other names find what they found before, and names stay unique.
pub proof fn law_added_type_is_found(
    t: Seq<TypeEntry>,
    guild_id: u64,
    name: Seq<char>,
    role_id: u64,
    g2: u64,
    n2: Seq<char>,
)
    requires
        unique_type_keys(t),
        !(g2 == guild_id && n2 == name),
    ensures
        unique_type_keys(upsert_type(t, guild_id, name, role_id)),
        role_of(upsert_type(t, guild_id, name, role_id), guild_id, name) == Some(role_id),
        role_of(upsert_type(t, guild_id, name, role_id), g2, n2) == role_of(t, g2, n2),
{
    let u = upsert_type(t, guild_id, name, role_id);
    if has_type(t, guild_id, name) {
        let i = choose|i: int| 0 <= i < t.len() && t[i].0 == guild_id && t[i].1 == name;
        assert forall|a: int, b: int| 0 <= a < b < u.len() implies !(u[a].0 == u[b].0 && u[a].1
            == u[b].1) by {
            assert(u[a].0 == t[a].0 && u[a].1 == t[a].1);
            assert(u[b].0 == t[b].0 && u[b].1 == t[b].1);
        }
        lemma_role_of_unique(u, guild_id, name, i);
    } else {
        assert forall|a: int, b: int| 0 <= a < b < u.len() implies !(u[a].0 == u[b].0 && u[a].1
            == u[b].1) by {
            if b == t.len() {
                assert(u[a] == t[a]);
            } else {
                assert(u[a] == t[a] && u[b] == t[b]);
            }
        }
        lemma_role_of_unique(u, guild_id, name, t.len() as int);
    }
    lemma_has_type_upsert(t, guild_id, name, role_id, g2, n2);
    if has_type(t, g2, n2) {
        let j = choose|j: int| 0 <= j < t.len() && t[j].0 == g2 && t[j].1 == n2;
        lemma_role_of_unique(t, g2, n2, j);
        assert(u[j] == t[j]);
        lemma_role_of_unique(u, g2, n2, j);
    } else {
        lemma_role_of_none(t, g2, n2);
        lemma_role_of_none(u, g2, n2);
    }
}

/// A removed type is gone, and other names find what they found before.
pub proof fn law_removed_type_is_gone(
    t: Seq<TypeEntry>,
    guild_id: u64,
    name: Seq<char>,
    g2: u64,
    n2: Seq<char>,
)
    requires
        unique_type_keys(t),
        !(g2 == guild_id && n2 == name),
    ensures
        role_of(without_type(t, guild_id, name), guild_id, name) == None::<u64>,
        role_of(without_type(t, guild_id, name), g2, n2) == role_of(t, g2, n2),
{
    let pred = other_type(guild_id, name);
    let u = without_type(t, guild_id, name);
    lemma_has_type_without(t, guild_id, name, guild_id, name);
    lemma_role_of_none(u, guild_id, name);
    lemma_has_type_without(t, guild_id, name, g2, n2);
    lemma_filter_keeps_unique_keys(t, pred);
    if has_type(t, g2, n2) {
        let j = choose|j: int| 0 <= j < t.len() && t[j].0 == g2 && t[j].1 == n2;
        lemma_role_of_unique(t, g2, n2, j);
        let k = choose|k: int| 0 <= k < u.len() && u[k].0 == g2 && u[k].1 == n2;
        lemma_filter_source(t, pred, k);
        let j2 = choose|j2: int| 0 <= j2 < t.len() && t[j2] == u[k];
        if j2 != j {
            assert(!(t[j].0 == t[j2].0 && t[j].1 == t[j2].1));
        }
        lemma_role_of_unique(u, g2, n2, k);
    } else {
        lemma_role_of_none(t, g2, n2);
        lemma_role_of_none(u, g2, n2);
    }
}

/// The rebuilt cache agrees with the table it was built from.
pub proof fn law_rebuilt_cache_agrees(t: Seq<TypeEntry>)
    ensures
        cache_agrees(t, rebuilt_cache(t)),
{
    let c = rebuilt_cache(t);
    assert forall|g: u64, n: Seq<char>|
        #![trigger c[g].contains(n)]
        #![trigger has_type(t, g, n)]
        (c.contains_key(g) && c[g].contains(n)) <==> has_type(t, g, n) by {
        let pred = |e: TypeEntry| e.0 == g;
        let f = t.filter(pred);
        if c.contains_key(g) && c[g].contains(n) {
            let k = choose|k: int| 0 <= k < c[g].len() && c[g][k] == n;
            assert(c[g] == names_of(t, g));
            assert(c[g][k] == f[k].1);
            lemma_filter_source(t, pred, k);
            let j = choose|j: int| 0 <= j < t.len() && t[j] == f[k];
            assert(pred(f[k]));
            assert(t[j].0 == g && t[j].1 == n);
        }
        if has_type(t, g, n) {
            let j = choose|j: int| 0 <= j < t.len() && t[j].0 == g && t[j].1 == n;
            assert(c.contains_key(g));
            assert(pred(t[j]));
            assert(f.contains(t[j]));
            let k = choose|k: int| 0 <= k < f.len() && f[k] == t[j];
            assert(names_of(t, g)[k] == n);
            assert(c[g].contains(n));
        }
    }
}

/// Adding a type keeps the cache in agreement with the table.
pub proof fn law_add_type_keeps_cache(
    t: Seq<TypeEntry>,
    c: Map<u64, Seq<Seq<char>>>,
    guild_id: u64,
    name: Seq<char>,
    role_id: u64,
)
    requires
        cache_agrees(t, c),
    ensures
        cache_agrees(upsert_type(t, guild_id, name, role_id), added_cache(c, guild_id, name)),
{
    let u = upsert_type(t, guild_id, name, role_id);
    let prev = if c.contains_key(guild_id) {
        c[guild_id]
    } else {
        Seq::<Seq<char>>::empty()
    };
    let d = added_cache(c, guild_id, name);
    assert forall|g: u64, n: Seq<char>|
        #![trigger d[g].contains(n)]
        #![trigger has_type(u, g, n)]
        (d.contains_key(g) && d[g].contains(n)) <==> has_type(u, g, n) by {
        lemma_has_type_upsert(t, guild_id, name, role_id, g, n);
        assert(has_type(t, g, n) <==> (c.contains_key(g) && c[g].contains(n)));
        if g == guild_id {
            if prev.push(name).contains(n) && n != name {
                let k = choose|k: int| 0 <= k < prev.push(name).len() && prev.push(name)[k] == n;
                assert(prev[k] == n);
            }
            if c.contains_key(g) && c[g].contains(n) {
                let k = choose|k: int| 0 <= k < c[g].len() && c[g][k] == n;
                assert(prev.push(name)[k] == n);
            }
            assert(prev.push(name)[prev.len() as int] == name);
        }
    }
}

/// Removing a type keeps the cache in agreement with the table.
pub proof fn law_remove_type_keeps_cache(
    t: Seq<TypeEntry>,
    c: Map<u64, Seq<Seq<char>>>,
    guild_id: u64,
    name: Seq<char>,
)
    requires
        cache_agrees(t, c),
    ensures
        cache_agrees(without_type(t, guild_id, name), removed_cache(t, c, guild_id, name)),
{
    let u = without_type(t, guild_id, name);
    let removed = has_type(t, guild_id, name);
    let d = removed_cache(t, c, guild_id, name);
    assert forall|g: u64, n: Seq<char>|
        #![trigger d[g].contains(n)]
        #![trigger has_type(u, g, n)]
        (d.contains_key(g) && d[g].contains(n)) <==> has_type(u, g, n) by {
        lemma_has_type_without(t, guild_id, name, g, n);
        assert(has_type(t, g, n) <==> (c.contains_key(g) && c[g].contains(n)));
        if removed {
            assert(c.contains_key(guild_id) && c[guild_id].contains(name));
        } else {
            assert(!(c.contains_key(guild_id) && c[guild_id].contains(name)));
        }
        if removed && g == guild_id {
            let pn = other_name(name);
            let f = c[g].filter(pn);
            if f.contains(n) {
                let k = choose|k: int| 0 <= k < f.len() && f[k] == n;
                assert(pn(f[k]));
                assert(c[g].filter(pn).contains(f[k]));
                filter_member_is_member(c[g], pn, k);
            }
            if c[g].contains(n) && n != name {
                let k = choose|k: int| 0 <= k < c[g].len() && c[g][k] == n;
                assert(pn(c[g][k]));
                assert(f.contains(c[g][k]));
            }
        }
    }
}

proof fn filter_member_is_member(s: Seq<Seq<char>>, pred: spec_fn(Seq<char>) -> bool, i: int)
    requires
        0 <= i < s.filter(pred).len(),
    ensures
        s.contains(s.filter(pred)[i]),
    decreases s.len(),
{
    reveal(Seq::filter);
    let rest = s.drop_last();
    let f = rest.filter(pred);
    if pred(s.last()) && i == f.len() {
        assert(s[s.len() - 1] == s.filter(pred)[i]);
    } else {
        filter_member_is_member(rest, pred, i);
        let j = choose|j: int| 0 <= j < rest.len() && rest[j] == f[i];
        assert(s[j] == s.filter(pred)[i]);
    }
}

/// An empty manager's cache agrees with its empty table.
pub proof fn law_empty_cache_agrees()
    ensures
        cache_agrees(Seq::<TypeEntry>::empty(), Map::<u64, Seq<Seq<char>>>::empty()),
{
}

/// The configuration after a history of successful `set_config` calls, in
/// order, starting from an empty manager (the type operations leave the
/// configuration as it is).
pub open spec fn configs_after(history: Seq<(u64, ChannelConfig)>) -> Map<u64, ChannelConfig>
    decreases history.len(),
{
    if history.len() == 0 {
        Map::empty()
    } else {
        configs_after(history.drop_last()).insert(history.last().0, history.last().1)
    }
}

/// The channels of the last `set_config` call for `guild_id` in the history,
/// if any.
pub open spec fn last_set(history: Seq<(u64, ChannelConfig)>, guild_id: u64) -> Option<
    ChannelConfig,
>
    decreases history.len(),
{
    if history.len() == 0 {
        None
    } else if history.last().0 == guild_id {
        Some(history.last().1)
    } else {
        last_set(history.drop_last(), guild_id)
    }
}

proof fn lemma_configs_after(history: Seq<(u64, ChannelConfig)>, guild_id: u64)
    ensures
        configs_after(history).contains_key(guild_id) == (last_set(history, guild_id) is Some),
        last_set(history, guild_id) matches Some(c) ==> configs_after(history)[guild_id] == c,
    decreases history.len(),
{
    if history.len() > 0 {
        lemma_configs_after(history.drop_last(), guild_id);
    }
}

/// Read after write, over any history: a guild's forum and command channel
/// are those of its last `set_config` call, whatever was set for other
/// guilds since; a guild that was never configured has neither.
pub proof fn law_config_history(
    m: GuildConfigManager,
    history: Seq<(u64, ChannelConfig)>,
    guild_id: u64,
)
    requires
        m.configs() == configs_after(history),
    ensures
        m.forum_of(guild_id) == (match last_set(history, guild_id) {
            Some(c) => Some(c.forum_id),
            None => None::<u64>,
        }),
        m.command_channel_of(guild_id) == (match last_set(history, guild_id) {
            Some(c) => Some(c.lfg_command_channel_id),
            None => None::<u64>,
        }),
{
    lemma_configs_after(history, guild_id);
}

/// After a type is added, the guild's listed names include it; other guilds'
/// lists do not change.
pub proof fn law_added_type_is_listed(
    c: Map<u64, Seq<Seq<char>>>,
    guild_id: u64,
    name: Seq<char>,
    other: u64,
)
    requires
        other != guild_id,
    ensures
        listed(added_cache(c, guild_id, name), guild_id).contains(name),
        listed(added_cache(c, guild_id, name), other) == listed(c, other),
{
    let l = listed(added_cache(c, guild_id, name), guild_id);
    assert(l[l.len() - 1] == name);
}

/// After a type is removed from a table whose cache agrees with it, the
/// guild's listed names no longer include it; other guilds' lists do not
/// change.
pub proof fn law_removed_type_is_not_listed(
    t: Seq<TypeEntry>,
    c: Map<u64, Seq<Seq<char>>>,
    guild_id: u64,
    name: Seq<char>,
    other: u64,
)
    requires
        cache_agrees(t, c),
        other != guild_id,
    ensures
        !listed(removed_cache(t, c, guild_id, name), guild_id).contains(name),
        listed(removed_cache(t, c, guild_id, name), other) == listed(c, other),
{
    let d = removed_cache(t, c, guild_id, name);
    if has_type(t, guild_id, name) && c.contains_key(guild_id) {
        let f = c[guild_id].filter(other_name(name));
        if f.contains(name) {
            let k = choose|k: int| 0 <= k < f.len() && f[k] == name;
            assert(other_name(name)(f[k]));
        }
    } else if c.contains_key(guild_id) && c[guild_id].contains(name) {
        assert(has_type(t, guild_id, name));
    }
}

/// A change to the types and their cache, as `add_type`, `remove_type` and
/// `load_type_cache` make it (`set_config` changes neither).
pub enum TypeOp {
    Add { guild_id: u64, name: Seq<char>, role_id: u64 },
    Remove { guild_id: u64, name: Seq<char> },
    Load,
}

/// The types and the cache after one change.
pub open spec fn apply_type_op(
    state: (Seq<TypeEntry>, Map<u64, Seq<Seq<char>>>),
    op: TypeOp,
) -> (Seq<TypeEntry>, Map<u64, Seq<Seq<char>>>) {
    match op {
        TypeOp::Add { guild_id, name, role_id } => (
            upsert_type(state.0, guild_id, name, role_id),
            added_cache(state.1, guild_id, name),
        ),
        TypeOp::Remove { guild_id, name } => (
            without_type(state.0, guild_id, name),
            removed_cache(state.0, state.1, guild_id, name),
        ),
        TypeOp::Load => (state.0, rebuilt_cache(state.0)),
    }
}

/// The types and the cache after the changes `ops`, in order.
pub open spec fn after_type_ops(
    state: (Seq<TypeEntry>, Map<u64, Seq<Seq<char>>>),
    ops: Seq<TypeOp>,
) -> (Seq<TypeEntry>, Map<u64, Seq<Seq<char>>>)
    decreases ops.len(),
{
    if ops.len() == 0 {
        state
    } else {
        apply_type_op(after_type_ops(state, ops.drop_last()), ops.last())
    }
}

/// The change adds or removes the type `name` of `guild_id`.
pub open spec fn names_type(op: TypeOp, guild_id: u64, name: Seq<char>) -> bool {
    match op {
        TypeOp::Add { guild_id: g, name: n, .. } => g == guild_id && n == name,
        TypeOp::Remove { guild_id: g, name: n } => g == guild_id && n == name,
        TypeOp::Load => false,
    }
}

/// With a cache that agrees with its table, a guild lists a name exactly
/// when it has a type of that name.
pub proof fn lemma_listed_iff_stored(
    t: Seq<TypeEntry>,
    c: Map<u64, Seq<Seq<char>>>,
    guild_id: u64,
    name: Seq<char>,
)
    requires
        cache_agrees(t, c),
    ensures
        listed(c, guild_id).contains(name) == has_type(t, guild_id, name),
{
    if !c.contains_key(guild_id) {
        assert(!(c.contains_key(guild_id) && c[guild_id].contains(name)));
        assert(!Seq::<Seq<char>>::empty().contains(name));
    } else {
        assert((c.contains_key(guild_id) && c[guild_id].contains(name)) == has_type(
            t,
            guild_id,
            name,
        ));
    }
}

proof fn lemma_other_ops_keep_type(
    state: (Seq<TypeEntry>, Map<u64, Seq<Seq<char>>>),
    ops: Seq<TypeOp>,
    guild_id: u64,
    name: Seq<char>,
)
    requires
        cache_agrees(state.0, state.1),
        forall|i: int| 0 <= i < ops.len() ==> !names_type(#[trigger] ops[i], guild_id, name),
    ensures
        cache_agrees(after_type_ops(state, ops).0, after_type_ops(state, ops).1),
        has_type(after_type_ops(state, ops).0, guild_id, name) == has_type(state.0, guild_id, name),
    decreases ops.len(),
{
    if ops.len() > 0 {
        let rest = ops.drop_last();
        assert forall|i: int| 0 <= i < rest.len() implies !names_type(
            #[trigger] rest[i],
            guild_id,
            name,
        ) by {
            assert(rest[i] == ops[i]);
        }
        lemma_other_ops_keep_type(state, rest, guild_id, name);
        let mid = after_type_ops(state, rest);
        assert(!names_type(ops[ops.len() - 1], guild_id, name));
        match ops.last() {
            TypeOp::Add { guild_id: g, name: n, role_id: r } => {
                law_add_type_keeps_cache(mid.0, mid.1, g, n, r);
                lemma_has_type_upsert(mid.0, g, n, r, guild_id, name);
            },
            TypeOp::Remove { guild_id: g, name: n } => {
                law_remove_type_keeps_cache(mid.0, mid.1, g, n);
                lemma_has_type_without(mid.0, g, n, guild_id, name);
            },
            TypeOp::Load => {
                law_rebuilt_cache_agrees(mid.0);
            },
        }
    }
}

/// Over any later history: once the type `name` of `guild_id` is added, the
/// guild lists it after every later change that neither adds nor removes
/// that same type (changes to other types, other guilds, or a rebuild of
/// the cache).
pub proof fn law_added_type_stays_listed(
    t: Seq<TypeEntry>,
    c: Map<u64, Seq<Seq<char>>>,
    guild_id: u64,
    name: Seq<char>,
    role_id: u64,
    later: Seq<TypeOp>,
)
    requires
        cache_agrees(t, c),
        forall|i: int| 0 <= i < later.len() ==> !names_type(#[trigger] later[i], guild_id, name),
    ensures
        listed(
            after_type_ops(
                apply_type_op((t, c), TypeOp::Add { guild_id, name, role_id }),
                later,
            ).1,
            guild_id,
        ).contains(name),
{
    let s = apply_type_op((t, c), TypeOp::Add { guild_id, name, role_id });
    law_add_type_keeps_cache(t, c, guild_id, name, role_id);
    lemma_has_type_upsert(t, guild_id, name, role_id, guild_id, name);
    lemma_other_ops_keep_type(s, later, guild_id, name);
    let e = after_type_ops(s, later);
    lemma_listed_iff_stored(e.0, e.1, guild_id, name);
}

/// Over any later history: once the type `name` of `guild_id` is removed,
/// the guild does not list it after any later change that neither adds nor
/// removes that same type.
pub proof fn law_removed_type_stays_unlisted(
    t: Seq<TypeEntry>,
    c: Map<u64, Seq<Seq<char>>>,
    guild_id: u64,
    name: Seq<char>,
    later: Seq<TypeOp>,
)
    requires
        cache_agrees(t, c),
        forall|i: int| 0 <= i < later.len() ==> !names_type(#[trigger] later[i], guild_id, name),
    ensures
        !listed(
            after_type_ops(apply_type_op((t, c), TypeOp::Remove { guild_id, name }), later).1,
            guild_id,
        ).contains(name),
{
    let s = apply_type_op((t, c), TypeOp::Remove { guild_id, name });
    law_remove_type_keeps_cache(t, c, guild_id, name);
    lemma_has_type_without(t, guild_id, name, guild_id, name);
    lemma_other_ops_keep_type(s, later, guild_id, name);
    let e = after_type_ops(s, later);
    lemma_listed_iff_stored(e.0, e.1, guild_id, name);
}

} // verus!
