//! Per-guild configuration: the LFG forum and the channel where `/lfg-create`
//! is used, the LFG types with the role each one pings, and the cache of type
//! names that autocompletion reads.

use std::collections::HashMap;
use vstd::prelude::*;

verus! {

broadcast use vstd::std_specs::hash::group_hash_axioms;

/// The two channels configured for a guild.
#[derive(Clone, Copy, Debug, PartialEq, Eq, Structural)]
pub struct ChannelConfig {
    pub forum_id: u64,
    pub lfg_command_channel_id: u64,
}

/// An LFG type of a guild: its name and the role it pings.
#[derive(Debug)]
pub struct LfgType {
    pub guild_id: u64,
    pub name: String,
    pub role_id: u64,
}

/// An LFG type as a plain value: guild, name, role.
pub type TypeEntry = (u64, Seq<char>, u64);

/// The characters of each string.
pub open spec fn texts(v: Seq<String>) -> Seq<Seq<char>> {
    v.map_values(|s: String| s@)
}

/// The plain value of a stored type.
pub open spec fn entry_of(t: LfgType) -> TypeEntry {
    (t.guild_id, t.name@, t.role_id)
}

/// No guild has two types of the same name.
pub open spec fn unique_type_keys(t: Seq<TypeEntry>) -> bool {
    forall|i: int, j: int| 0 <= i < j < t.len() ==> !(t[i].0 == t[j].0 && t[i].1 == t[j].1)
}

/// The guild `guild_id` has a type named `name`.
pub open spec fn has_type(t: Seq<TypeEntry>, guild_id: u64, name: Seq<char>) -> bool {
    exists|i: int| 0 <= i < t.len() && t[i].0 == guild_id && t[i].1 == name
}

/// The role pinged by the first type of `guild_id` named `name`, if any.
pub open spec fn role_of(t: Seq<TypeEntry>, guild_id: u64, name: Seq<char>) -> Option<u64>
    decreases t.len(),
{
    if t.len() == 0 {
        None
    } else if t[0].0 == guild_id && t[0].1 == name {
        Some(t[0].2)
    } else {
        role_of(t.drop_first(), guild_id, name)
    }
}

/// The names of the types of `guild_id`, in table order.
pub open spec fn names_of(t: Seq<TypeEntry>, guild_id: u64) -> Seq<Seq<char>> {
    t.filter(|e: TypeEntry| e.0 == guild_id).map_values(|e: TypeEntry| e.1)
}

/// The cache built from the table: every guild that has types, mapped to
/// their names in table order.
pub open spec fn rebuilt_cache(t: Seq<TypeEntry>) -> Map<u64, Seq<Seq<char>>> {
    Map::new(
        |g: u64| exists|i: int| 0 <= i < t.len() && t[i].0 == g,
        |g: u64| names_of(t, g),
    )
}

/// The table after the upsert of type `name` of `guild_id` with `role_id`:
/// the role of an existing type is replaced, a new type is appended.
pub open spec fn upsert_type(t: Seq<TypeEntry>, guild_id: u64, name: Seq<char>, role_id: u64) -> Seq<
    TypeEntry,
> {
    if has_type(t, guild_id, name) {
        t.map_values(
            |e: TypeEntry|
                if e.0 == guild_id && e.1 == name {
                    (guild_id, name, role_id)
                } else {
                    e
                },
        )
    } else {
        t.push((guild_id, name, role_id))
    }
}

/// Whether a type is not the type `name` of `guild_id`.
pub open spec fn other_type(guild_id: u64, name: Seq<char>) -> spec_fn(TypeEntry) -> bool {
    |e: TypeEntry| !(e.0 == guild_id && e.1 == name)
}

/// The table without the type `name` of `guild_id`.
pub open spec fn without_type(t: Seq<TypeEntry>, guild_id: u64, name: Seq<char>) -> Seq<TypeEntry> {
    t.filter(other_type(guild_id, name))
}

/// The cache lists a name for a guild exactly when the table holds a type of
/// that name for that guild.
pub open spec fn cache_agrees(t: Seq<TypeEntry>, c: Map<u64, Seq<Seq<char>>>) -> bool {
    forall|g: u64, n: Seq<char>|
        #![trigger c[g].contains(n)]
        #![trigger has_type(t, g, n)]
        (c.contains_key(g) && c[g].contains(n)) <==> has_type(t, g, n)
}

/// The names `get_types` lists for `guild_id`: the cached names, or none
/// when the guild has no cache entry.
pub open spec fn listed(c: Map<u64, Seq<Seq<char>>>, guild_id: u64) -> Seq<Seq<char>> {
    if c.contains_key(guild_id) {
        c[guild_id]
    } else {
        Seq::empty()
    }
}

/// The cache after `name` is added to `guild_id`: appended to its names.
pub open spec fn added_cache(c: Map<u64, Seq<Seq<char>>>, guild_id: u64, name: Seq<char>) -> Map<
    u64,
    Seq<Seq<char>>,
> {
    c.insert(guild_id, listed(c, guild_id).push(name))
}

/// The cache after the type `name` of `guild_id` is removed from the table
/// `t`: when the type existed and the guild has cached names, every
/// occurrence of `name` leaves them.
pub open spec fn removed_cache(
    t: Seq<TypeEntry>,
    c: Map<u64, Seq<Seq<char>>>,
    guild_id: u64,
    name: Seq<char>,
) -> Map<u64, Seq<Seq<char>>> {
    if has_type(t, guild_id, name) && c.contains_key(guild_id) {
        c.insert(guild_id, c[guild_id].filter(other_name(name)))
    } else {
        c
    }
}

/// Whether a cached name is not `name`.
pub open spec fn other_name(name: Seq<char>) -> spec_fn(Seq<char>) -> bool {
    |x: Seq<char>| x != name
}

proof fn lemma_names_of_push(s: Seq<TypeEntry>, e: TypeEntry, g: u64)
    ensures
        names_of(s.push(e), g) == (if e.0 == g {
            names_of(s, g).push(e.1)
        } else {
            names_of(s, g)
        }),
{
    let pred = |x: TypeEntry| x.0 == g;
    reveal_with_fuel(Seq::filter, 1);
    assert(s.push(e).drop_last() =~= s);
    if e.0 == g {
        assert(s.push(e).filter(pred) == s.filter(pred).push(e));
        assert(s.filter(pred).push(e).map_values(|x: TypeEntry| x.1) =~= s.filter(pred).map_values(
            |x: TypeEntry| x.1,
        ).push(e.1));
    } else {
        assert(s.push(e).filter(pred) == s.filter(pred));
    }
}

proof fn lemma_names_of_absent(s: Seq<TypeEntry>, g: u64)
    requires
        !(exists|i: int| 0 <= i < s.len() && s[i].0 == g),
    ensures
        names_of(s, g) == Seq::<Seq<char>>::empty(),
    decreases s.len(),
{
    reveal_with_fuel(Seq::filter, 1);
    if s.len() > 0 {
        let r = s.drop_last();
        assert(!(exists|i: int| 0 <= i < r.len() && r[i].0 == g)) by {
            if exists|i: int| 0 <= i < r.len() && r[i].0 == g {
                let i = choose|i: int| 0 <= i < r.len() && r[i].0 == g;
                assert(s[i] == r[i]);
            }
        }
        lemma_names_of_absent(r, g);
        assert(s.last().0 != g);
        assert(s.filter(|x: TypeEntry| x.0 == g) == r.filter(|x: TypeEntry| x.0 == g));
    }
    assert(names_of(s, g) =~= Seq::<Seq<char>>::empty());
}

proof fn lemma_rebuilt_push(s: Seq<TypeEntry>, e: TypeEntry)
    ensures
        rebuilt_cache(s.push(e)) == rebuilt_cache(s).insert(
            e.0,
            (if rebuilt_cache(s).contains_key(e.0) {
                rebuilt_cache(s)[e.0]
            } else {
                Seq::<Seq<char>>::empty()
            }).push(e.1),
        ),
{
    let t = s.push(e);
    let old_c = rebuilt_cache(s);
    let new_c = rebuilt_cache(t);
    let expect = old_c.insert(
        e.0,
        (if old_c.contains_key(e.0) {
            old_c[e.0]
        } else {
            Seq::<Seq<char>>::empty()
        }).push(e.1),
    );
    assert forall|g: u64| new_c.contains_key(g) <==> expect.contains_key(g) by {
        if exists|i: int| 0 <= i < s.len() && s[i].0 == g {
            let i = choose|i: int| 0 <= i < s.len() && s[i].0 == g;
            assert(t[i] == s[i]);
        }
        if g == e.0 {
            assert(t[s.len() as int].0 == g);
        }
        if exists|i: int| 0 <= i < t.len() && t[i].0 == g {
            let i = choose|i: int| 0 <= i < t.len() && t[i].0 == g;
            if i < s.len() {
                assert(t[i] == s[i]);
            }
        }
    }
    assert forall|g: u64| new_c.contains_key(g) implies new_c[g] == expect[g] by {
        lemma_names_of_push(s, e, g);
        if g == e.0 && !old_c.contains_key(g) {
            lemma_names_of_absent(s, g);
        }
    }
    assert(new_c =~= expect);
}

proof fn lemma_role_of_first(t: Seq<TypeEntry>, g: u64, n: Seq<char>, i: int)
    requires
        0 <= i < t.len(),
        t[i].0 == g && t[i].1 == n,
        forall|j: int| 0 <= j < i ==> !(t[j].0 == g && t[j].1 == n),
    ensures
        role_of(t, g, n) == Some(t[i].2),
    decreases i,
{
    if i > 0 {
        lemma_role_of_first(t.drop_first(), g, n, i - 1);
    }
}

/// A name that a guild has no type of finds no role.
pub proof fn lemma_role_of_none(t: Seq<TypeEntry>, g: u64, n: Seq<char>)
    requires
        !has_type(t, g, n),
    ensures
        role_of(t, g, n) == None::<u64>,
    decreases t.len(),
{
    if t.len() > 0 {
        assert(!(t[0].0 == g && t[0].1 == n));
        assert(!has_type(t.drop_first(), g, n)) by {
            if has_type(t.drop_first(), g, n) {
                let i = choose|i: int|
                    0 <= i < t.drop_first().len() && t.drop_first()[i].0 == g
                        && t.drop_first()[i].1 == n;
                assert(t[i + 1] == t.drop_first()[i]);
            }
        }
        lemma_role_of_none(t.drop_first(), g, n);
    }
}

/// In a table where no guild has two types of the same name, the role
/// found for a name is the role of the type at that name's index.
pub proof fn lemma_role_of_unique(t: Seq<TypeEntry>, g: u64, n: Seq<char>, i: int)
    requires
        unique_type_keys(t),
        0 <= i < t.len(),
        t[i].0 == g && t[i].1 == n,
    ensures
        role_of(t, g, n) == Some(t[i].2),
{
    lemma_role_of_first(t, g, n, i);
}

/// Keeping some of the types keeps every (guild, name) pair unique.
pub proof fn lemma_filter_keeps_unique_keys(t: Seq<TypeEntry>, pred: spec_fn(TypeEntry) -> bool)
    requires
        unique_type_keys(t),
    ensures
        unique_type_keys(t.filter(pred)),
    decreases t.len(),
{
    reveal(Seq::filter);
    if t.len() > 0 {
        let rest = t.drop_last();
        lemma_filter_keeps_unique_keys(rest, pred);
        if pred(t.last()) {
            let f = rest.filter(pred);
            assert forall|i: int| 0 <= i < f.len() implies !(f[i].0 == t.last().0 && f[i].1
                == t.last().1) by {
                lemma_filter_source(rest, pred, i);
            }
        }
    }
}

/// Every kept type is one of the types it was kept from.
pub proof fn lemma_filter_source(t: Seq<TypeEntry>, pred: spec_fn(TypeEntry) -> bool, i: int)
    requires
        0 <= i < t.filter(pred).len(),
    ensures
        exists|j: int| 0 <= j < t.len() && t[j] == t.filter(pred)[i],
    decreases t.len(),
{
    reveal(Seq::filter);
    let rest = t.drop_last();
    let f = rest.filter(pred);
    if pred(t.last()) && i == f.len() {
        assert(t[t.len() - 1] == t.filter(pred)[i]);
    } else {
        lemma_filter_source(rest, pred, i);
        let j = choose|j: int| 0 <= j < rest.len() && rest[j] == f[i];
        assert(t[j] == t.filter(pred)[i]);
    }
}

/// The tables behind `GuildConfigManager`, which keeps them well formed.
#[derive(Debug)]
struct ConfigTables {
    configs: HashMap<u64, ChannelConfig>,
    types: Vec<LfgType>,
    types_cache: HashMap<u64, Vec<String>>,
}

impl ConfigTables {
    /// The configured channels of each guild.
    pub closed spec fn configs(&self) -> Map<u64, ChannelConfig> {
        self.configs@
    }

    /// The LFG types, in the order they were first added.
    pub closed spec fn types(&self) -> Seq<TypeEntry> {
        self.types@.map_values(|t: LfgType| entry_of(t))
    }

    /// The cached type names of each guild.
    pub closed spec fn cache(&self) -> Map<u64, Seq<Seq<char>>> {
        self.types_cache@.map_values(|v: Vec<String>| texts(v@))
    }

    /// The forum configured for `guild_id`, if any.
    pub open spec fn forum_of(&self, guild_id: u64) -> Option<u64> {
        if self.configs().contains_key(guild_id) {
            Some(self.configs()[guild_id].forum_id)
        } else {
            None
        }
    }

    /// The command channel configured for `guild_id`, if any.
    pub open spec fn command_channel_of(&self, guild_id: u64) -> Option<u64> {
        if self.configs().contains_key(guild_id) {
            Some(self.configs()[guild_id].lfg_command_channel_id)
        } else {
            None
        }
    }

    /// No guild has two types of the same name, and the cache lists exactly
    /// the names of the stored types.
    pub open spec fn wf(&self) -> bool {
        &&& unique_type_keys(self.types())
        &&& cache_agrees(self.types(), self.cache())
    }

    /// No configuration, no types, an empty cache.
    fn new() -> (m: ConfigTables)
        ensures
            m.wf(),
            m.configs() == Map::<u64, ChannelConfig>::empty(),
            m.types() == Seq::<TypeEntry>::empty(),
            m.cache() == Map::<u64, Seq<Seq<char>>>::empty(),
    {
        let m = ConfigTables {
            configs: HashMap::new(),
            types: Vec::new(),
            types_cache: HashMap::new(),
        };
        assert(m.types() =~= Seq::<TypeEntry>::empty());
        assert(m.cache() =~= Map::<u64, Seq<Seq<char>>>::empty());
        proof {
            crate::guild_config_laws::law_empty_cache_agrees();
        }
        m
    }

    /// Sets (or replaces) the forum and the command channel of `guild_id`.
    pub fn set_config(&mut self, guild_id: u64, forum_id: u64, lfg_command_channel_id: u64)
        requires
            old(self).wf(),
        ensures
            final(self).wf(),
            final(self).configs() == old(self).configs().insert(
                guild_id,
                ChannelConfig { forum_id, lfg_command_channel_id },
            ),
            final(self).types() == old(self).types(),
            final(self).cache() == old(self).cache(),
    {
        self.configs.insert(guild_id, ChannelConfig { forum_id, lfg_command_channel_id });
    }

    /// The forum configured for `guild_id`, if any.
    pub fn get_forum_id(&self, guild_id: u64) -> (r: Option<u64>)
        ensures
            r == self.forum_of(guild_id),
    {
        match self.configs.get(&guild_id) {
            Some(c) => Some(c.forum_id),
            None => None,
        }
    }

    /// The channel where `/lfg-create` must be used in `guild_id`, if any.
    pub fn get_lfg_command_channel(&self, guild_id: u64) -> (r: Option<u64>)
        ensures
            r == self.command_channel_of(guild_id),
    {
        match self.configs.get(&guild_id) {
            Some(c) => Some(c.lfg_command_channel_id),
            None => None,
        }
    }

    fn find_type(&self, guild_id: u64, name: &String) -> (r: Option<usize>)
        ensures
            match r {
                Some(i) => i < self.types().len() && self.types()[i as int].0 == guild_id
                    && self.types()[i as int].1 == name@ && forall|j: int|
                    0 <= j < i ==> !(self.types()[j].0 == guild_id && self.types()[j].1
                        == name@),
                None => !has_type(self.types(), guild_id, name@),
            },
    {
        let n = self.types.len();
        for i in 0..n
            invariant
                n == self.types@.len(),
                forall|j: int|
                    0 <= j < i ==> !(self.types()[j].0 == guild_id && self.types()[j].1
                        == name@),
        {
            if self.types[i].guild_id == guild_id && self.types[i].name == *name {
                return Some(i);
            }
        }
        None
    }

    /// The role pinged by the type `name` of `guild_id`, if there is one.
    pub fn get_role_from_name(&self, guild_id: u64, name: String) -> (r: Option<u64>)
        ensures
            r == role_of(self.types(), guild_id, name@),
    {
        match self.find_type(guild_id, &name) {
            Some(i) => {
                proof {
                    lemma_role_of_first(self.types(), guild_id, name@, i as int);
                }
                Some(self.types[i].role_id)
            },
            None => {
                proof {
                    lemma_role_of_none(self.types(), guild_id, name@);
                }
                None
            },
        }
    }

    /// The cached type names of `guild_id` (none when the guild has no
    /// cache entry).
    pub fn get_types(&self, guild_id: u64) -> (r: Vec<String>)
        ensures
            texts(r@) == listed(self.cache(), guild_id),
    {
        match self.types_cache.get(&guild_id) {
            Some(v) => {
                let r = v.clone();
                assert(texts(r@) =~= texts(v@)) by {
                    assert forall|i: int| 0 <= i < r@.len() implies r@[i]@ == v@[i]@ by {
                        assert(cloned::<String>(v@[i], r@[i]));
                    }
                }
                r
            },
            None => {
                let r: Vec<String> = Vec::new();
                assert(texts(r@) =~= Seq::<Seq<char>>::empty());
                r
            },
        }
    }

    fn cached_names(&self, guild_id: u64) -> (r: Vec<String>)
        ensures
            texts(r@) == listed(self.cache(), guild_id),
    {
        self.get_types(guild_id)
    }

    /// Adds the type `name` to `guild_id` with the role `role_id`, or gives an
    /// existing type of that name the new role. Either way `name` is appended
    /// to the guild's cached names (an update appends it once more).
    pub fn add_type(&mut self, guild_id: u64, name: String, role_id: u64)
        requires
            old(self).wf(),
        ensures
            final(self).wf(),
            final(self).configs() == old(self).configs(),
            final(self).types() == upsert_type(old(self).types(), guild_id, name@, role_id),
            final(self).cache() == added_cache(old(self).cache(), guild_id, name@),
    {
        let ghost old_types = self.types();
        let ghost old_cache = self.cache();
        let ghost name_view = name@;
        let entry = LfgType { guild_id, name: name.clone(), role_id };
        match self.find_type(guild_id, &name) {
            Some(i) => {
                self.types[i] = entry;
                proof {
                    let t = self.types();
                    let expect = upsert_type(old_types, guild_id, name@, role_id);
                    assert(t.len() == expect.len());
                    assert forall|k: int| 0 <= k < t.len() implies t[k] == expect[k] by {
                        if k != i {
                            assert(t[k] == old_types[k]);
                            assert(!(old_types[k].0 == guild_id && old_types[k].1 == name@));
                        }
                    }
                    assert(t =~= expect);
                    assert forall|a: int, b: int| 0 <= a < b < t.len() implies !(t[a].0 == t[b].0
                        && t[a].1 == t[b].1) by {
                        assert(t[a].0 == old_types[a].0 && t[a].1 == old_types[a].1);
                        assert(t[b].0 == old_types[b].0 && t[b].1 == old_types[b].1);
                    }
                }
            },
            None => {
                self.types.push(entry);
                proof {
                    let t = self.types();
                    assert(t =~= old_types.push((guild_id, name@, role_id)));
                    assert forall|a: int, b: int| 0 <= a < b < t.len() implies !(t[a].0 == t[b].0
                        && t[a].1 == t[b].1) by {
                        if b == old_types.len() {
                            assert(t[a] == old_types[a]);
                        } else {
                            assert(t[a] == old_types[a] && t[b] == old_types[b]);
                        }
                    }
                }
            },
        }
        let mut names = self.cached_names(guild_id);
        let ghost prior = names@;
        names.push(name);
        assert(texts(names@) =~= texts(prior).push(names@.last()@));
        self.types_cache.insert(guild_id, names);
        assert(self.cache() =~= old_cache.insert(guild_id, texts(names@)));
        proof {
            crate::guild_config_laws::law_add_type_keeps_cache(
                old_types,
                old_cache,
                guild_id,
                name_view,
                role_id,
            );
        }
    }

    /// Removes the type `name` of `guild_id`; true when it existed. When it
    /// did, every occurrence of `name` leaves the guild's cached names.
    pub fn remove_type(&mut self, guild_id: u64, name: String) -> (removed: bool)
        requires
            old(self).wf(),
        ensures
            final(self).wf(),
            removed == has_type(old(self).types(), guild_id, name@),
            final(self).configs() == old(self).configs(),
            final(self).types() == without_type(old(self).types(), guild_id, name@),
            final(self).cache() == removed_cache(old(self).types(), old(self).cache(), guild_id, name@),
    {
        let ghost old_types = self.types();
        let ghost old_cache = self.cache();
        let removed = self.find_type(guild_id, &name).is_some();
        let ghost pred = other_type(guild_id, name@);
        let mut kept: Vec<LfgType> = Vec::new();
        let n = self.types.len();
        for i in 0..n
            invariant
                n == self.types@.len(),
                self.types() == old_types,
                pred == other_type(guild_id, name@),
                kept@.map_values(|t: LfgType| entry_of(t)) == old_types.take(i as int).filter(
                    pred,
                ),
        {
            let t = &self.types[i];
            let ghost before = kept@;
            assert(old_types.take(i + 1).drop_last() =~= old_types.take(i as int));
            assert(old_types[i as int] == entry_of(self.types@[i as int]));
            reveal_with_fuel(Seq::filter, 1);
            if !(t.guild_id == guild_id && t.name == name) {
                let copy = LfgType { guild_id: t.guild_id, name: t.name.clone(), role_id: t.role_id };
                assert(entry_of(copy) == old_types[i as int]);
                kept.push(copy);
                assert(old_types.take(i + 1).filter(pred) == old_types.take(i as int).filter(
                    pred,
                ).push(old_types[i as int]));
                assert(kept@.map_values(|t: LfgType| entry_of(t)) =~= before.map_values(
                    |t: LfgType| entry_of(t),
                ).push(old_types[i as int]));
            } else {
                assert(!pred(old_types[i as int]));
                assert(old_types.take(i + 1).filter(pred) == old_types.take(i as int).filter(
                    pred,
                ));
            }
        }
        assert(old_types.take(n as int) =~= old_types);
        let ghost kept_view = kept@;
        self.types = kept;
        proof {
            lemma_filter_keeps_unique_keys(old_types, pred);
            assert(self.types() =~= kept_view.map_values(|t: LfgType| entry_of(t)));
            assert(self.types() =~= without_type(old_types, guild_id, name@));
        }
        if removed {
            match self.types_cache.get(&guild_id) {
                Some(v) => {
                    let ghost pn = other_name(name@);
                    let mut rest: Vec<String> = Vec::new();
                    let m = v.len();
                    for k in 0..m
                        invariant
                            m == v@.len(),
                            pn == other_name(name@),
                            texts(rest@) == texts(v@).take(k as int).filter(pn),
                    {
                        let ghost before = rest@;
                        assert(texts(v@).take(k + 1).drop_last() =~= texts(v@).take(k as int));
                        reveal_with_fuel(Seq::filter, 1);
                        if !(v[k] == name) {
                            rest.push(v[k].clone());
                            assert(texts(v@).take(k + 1).filter(pn) == texts(v@).take(
                                k as int,
                            ).filter(pn).push(v@[k as int]@));
                            assert(texts(rest@) =~= texts(before).push(v@[k as int]@));
                        } else {
                            assert(texts(v@).take(k + 1).filter(pn) == texts(v@).take(
                                k as int,
                            ).filter(pn));
                        }
                    }
                    assert(texts(v@).take(m as int) =~= texts(v@));
                    self.types_cache.insert(guild_id, rest);
                    assert(self.cache() =~= old_cache.insert(
                        guild_id,
                        old_cache[guild_id].filter(other_name(name@)),
                    ));
                },
                None => {},
            }
        }
        assert(self.cache() == removed_cache(old_types, old_cache, guild_id, name@));
        proof {
            crate::guild_config_laws::law_remove_type_keeps_cache(
                old_types,
                old_cache,
                guild_id,
                name@,
            );
        }
        removed
    }

    /// Rebuilds the cache from the stored types: every guild with types maps
    /// to their names, in table order.
    pub fn load_type_cache(&mut self)
        requires
            old(self).wf(),
        ensures
            final(self).wf(),
            final(self).configs() == old(self).configs(),
            final(self).types() == old(self).types(),
            final(self).cache() == rebuilt_cache(old(self).types()),
    {
        self.types_cache.clear();
        let n = self.types.len();
        assert(self.cache() =~= rebuilt_cache(self.types().take(0)));
        for i in 0..n
            invariant
                n == self.types@.len(),
                self.types() == old(self).types(),
                self.configs() == old(self).configs(),
                self.cache() == rebuilt_cache(self.types().take(i as int)),
        {
            let guild_id = self.types[i].guild_id;
            let name = self.types[i].name.clone();
            let mut names = match self.types_cache.get(&guild_id) {
                Some(v) => v.clone(),
                None => Vec::new(),
            };
            let ghost before = self.cache();
            proof {
                assert(texts(names@) == (if before.contains_key(guild_id) {
                    before[guild_id]
                } else {
                    Seq::<Seq<char>>::empty()
                })) by {
                    if before.contains_key(guild_id) {
                        let v = self.types_cache@[guild_id];
                        assert forall|k: int| 0 <= k < names@.len() implies names@[k]@ == v@[k]@ by {
                            assert(cloned::<String>(v@[k], names@[k]));
                        }
                        assert(texts(names@) =~= texts(v@));
                    } else {
                        assert(texts(names@) =~= Seq::<Seq<char>>::empty());
                    }
                }
            }
            let ghost prior = names@;
            let ghost name_view = name@;
            names.push(name);
            assert(names@ == prior.push(names@.last()));
            assert(texts(names@) =~= texts(prior).push(name_view));
            self.types_cache.insert(guild_id, names);
            proof {
                let e = self.types()[i as int];
                assert(e == entry_of(self.types@[i as int]));
                assert(e.0 == guild_id && e.1 == name_view);
                assert(self.types().take(i + 1) =~= self.types().take(i as int).push(e));
                lemma_rebuilt_push(self.types().take(i as int), e);
                assert(self.cache() =~= before.insert(guild_id, texts(names@)));
            }
        }
        assert(self.types().take(n as int) =~= self.types());
        proof {
            crate::guild_config_laws::law_rebuilt_cache_agrees(self.types());
        }
    }
}

impl Clone for LfgType {
    /// A copy with the same guild, name and role.
    fn clone(&self) -> (r: Self)
        ensures
            entry_of(r) == entry_of(*self),
    {
        LfgType { guild_id: self.guild_id, name: self.name.clone(), role_id: self.role_id }
    }
}

impl Clone for ConfigTables {
    fn clone(&self) -> (r: Self)
        ensures
            r.configs() == self.configs(),
            r.types() == self.types(),
            r.cache() == self.cache(),
    {
        let types = self.types.clone();
        assert(types@.map_values(|t: LfgType| entry_of(t)) =~= self.types());
        ConfigTables {
            configs: self.configs.clone(),
            types,
            types_cache: self.types_cache.clone(),
        }
    }
}

/// The configuration of every guild, its LFG types and the cache of type
/// names. No guild has two types of the same name, and the cache lists
/// exactly the names of the stored types.
#[derive(Debug)]
pub struct GuildConfigManager {
    tables: ConfigTables,
}

impl GuildConfigManager {
    #[verifier::type_invariant]
    spec fn tables_are_well_formed(self) -> bool {
        self.tables.wf()
    }

    /// The configured channels of each guild.
    pub closed spec fn configs(&self) -> Map<u64, ChannelConfig> {
        self.tables.configs()
    }

    /// The LFG types, in the order they were first added.
    pub closed spec fn types(&self) -> Seq<TypeEntry> {
        self.tables.types()
    }

    /// The cached type names of each guild.
    pub closed spec fn cache(&self) -> Map<u64, Seq<Seq<char>>> {
        self.tables.cache()
    }

    /// The forum configured for `guild_id`, if any.
    pub open spec fn forum_of(&self, guild_id: u64) -> Option<u64> {
        if self.configs().contains_key(guild_id) {
            Some(self.configs()[guild_id].forum_id)
        } else {
            None
        }
    }

    /// The command channel configured for `guild_id`, if any.
    pub open spec fn command_channel_of(&self, guild_id: u64) -> Option<u64> {
        if self.configs().contains_key(guild_id) {
            Some(self.configs()[guild_id].lfg_command_channel_id)
        } else {
            None
        }
    }

    /// No guild has two types of the same name, and the cache lists exactly
    /// the names of the stored types.
    pub open spec fn wf(&self) -> bool {
        &&& unique_type_keys(self.types())
        &&& cache_agrees(self.types(), self.cache())
    }

    /// No configuration, no types, an empty cache.
    pub fn new() -> (m: GuildConfigManager)
        ensures
            m.wf(),
            m.configs() == Map::<u64, ChannelConfig>::empty(),
            m.types() == Seq::<TypeEntry>::empty(),
            m.cache() == Map::<u64, Seq<Seq<char>>>::empty(),
    {
        GuildConfigManager { tables: ConfigTables::new() }
    }

    /// Sets (or replaces) the forum and the command channel of `guild_id`.
    pub fn set_config(&mut self, guild_id: u64, forum_id: u64, lfg_command_channel_id: u64)
        ensures
            final(self).wf(),
            final(self).configs() == old(self).configs().insert(
                guild_id,
                ChannelConfig { forum_id, lfg_command_channel_id },
            ),
            final(self).types() == old(self).types(),
            final(self).cache() == old(self).cache(),
    {
        proof {
            use_type_invariant(&*self);
        }
        let mut t = ConfigTables::new();
        std::mem::swap(&mut self.tables, &mut t);
        t.set_config(guild_id, forum_id, lfg_command_channel_id);
        self.tables = t;
    }

    /// The forum configured for `guild_id`, if any.
    pub fn get_forum_id(&self, guild_id: u64) -> (r: Option<u64>)
        ensures
            r == self.forum_of(guild_id),
    {
        self.tables.get_forum_id(guild_id)
    }

    /// The channel where `/lfg-create` must be used in `guild_id`, if any.
    pub fn get_lfg_command_channel(&self, guild_id: u64) -> (r: Option<u64>)
        ensures
            r == self.command_channel_of(guild_id),
    {
        self.tables.get_lfg_command_channel(guild_id)
    }

    /// The role pinged by the type `name` of `guild_id`, if there is one.
    pub fn get_role_from_name(&self, guild_id: u64, name: String) -> (r: Option<u64>)
        ensures
            r == role_of(self.types(), guild_id, name@),
    {
        self.tables.get_role_from_name(guild_id, name)
    }

    /// The cached type names of `guild_id` (none when the guild has no
    /// cache entry).
    pub fn get_types(&self, guild_id: u64) -> (r: Vec<String>)
        ensures
            texts(r@) == listed(self.cache(), guild_id),
    {
        self.tables.get_types(guild_id)
    }

    /// Adds the type `name` to `guild_id` with the role `role_id`, or gives an
    /// existing type of that name the new role. Either way `name` is appended
    /// to the guild's cached names (an update appends it once more).
    pub fn add_type(&mut self, guild_id: u64, name: String, role_id: u64)
        ensures
            final(self).wf(),
            final(self).configs() == old(self).configs(),
            final(self).types() == upsert_type(old(self).types(), guild_id, name@, role_id),
            final(self).cache() == added_cache(old(self).cache(), guild_id, name@),
    {
        proof {
            use_type_invariant(&*self);
        }
        let mut t = ConfigTables::new();
        std::mem::swap(&mut self.tables, &mut t);
        t.add_type(guild_id, name, role_id);
        self.tables = t;
    }

    /// Removes the type `name` of `guild_id`; true when it existed. When it
    /// did, every occurrence of `name` leaves the guild's cached names.
    pub fn remove_type(&mut self, guild_id: u64, name: String) -> (removed: bool)
        ensures
            final(self).wf(),
            removed == has_type(old(self).types(), guild_id, name@),
            final(self).configs() == old(self).configs(),
            final(self).types() == without_type(old(self).types(), guild_id, name@),
            final(self).cache() == removed_cache(old(self).types(), old(self).cache(), guild_id, name@),
    {
        proof {
            use_type_invariant(&*self);
        }
        let mut t = ConfigTables::new();
        std::mem::swap(&mut self.tables, &mut t);
        let removed = t.remove_type(guild_id, name);
        self.tables = t;
        removed
    }

    /// Rebuilds the cache from the stored types: every guild with types maps
    /// to their names, in table order.
    pub fn load_type_cache(&mut self)
        ensures
            final(self).wf(),
            final(self).configs() == old(self).configs(),
            final(self).types() == old(self).types(),
            final(self).cache() == rebuilt_cache(old(self).types()),
    {
        proof {
            use_type_invariant(&*self);
        }
        let mut t = ConfigTables::new();
        std::mem::swap(&mut self.tables, &mut t);
        t.load_type_cache();
        self.tables = t;
    }
}

impl Clone for GuildConfigManager {
    /// A copy holding the same configuration, types and cache.
    fn clone(&self) -> (r: Self)
        ensures
            r.configs() == self.configs(),
            r.types() == self.types(),
            r.cache() == self.cache(),
    {
        proof {
            use_type_invariant(self);
        }
        GuildConfigManager { tables: self.tables.clone() }
    }
}

} // verus!
