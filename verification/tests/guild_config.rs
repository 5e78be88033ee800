use gather::guild_config::{GuildConfigManager, LfgType};

fn s(t: &str) -> String {
    t.to_string()
}

#[test]
fn config_read_back() {
    let mut m = GuildConfigManager::new();
    assert_eq!(m.get_forum_id(1), None);
    assert_eq!(m.get_lfg_command_channel(1), None);
    m.set_config(1, 100, 200);
    m.set_config(2, 300, 400);
    assert_eq!(m.get_forum_id(1), Some(100));
    assert_eq!(m.get_lfg_command_channel(1), Some(200));
    m.set_config(1, 101, 201);
    assert_eq!(m.get_forum_id(1), Some(101));
    assert_eq!(m.get_lfg_command_channel(1), Some(201));
    assert_eq!(m.get_forum_id(2), Some(300));
}

#[test]
fn added_type_is_found() {
    let mut m = GuildConfigManager::new();
    assert_eq!(m.get_role_from_name(1, s("raid")), None);
    m.add_type(1, s("raid"), 11);
    m.add_type(1, s("pvp"), 12);
    m.add_type(2, s("raid"), 21);
    assert_eq!(m.get_role_from_name(1, s("raid")), Some(11));
    assert_eq!(m.get_role_from_name(1, s("pvp")), Some(12));
    assert_eq!(m.get_role_from_name(2, s("raid")), Some(21));
    assert_eq!(m.get_role_from_name(2, s("pvp")), None);
    assert_eq!(m.get_types(1), vec![s("raid"), s("pvp")]);
    assert_eq!(m.get_types(2), vec![s("raid")]);
    assert!(m.get_types(3).is_empty());
}

#[test]
fn updating_a_type_replaces_the_role_and_repeats_the_cached_name() {
    let mut m = GuildConfigManager::new();
    m.add_type(1, s("raid"), 11);
    m.add_type(1, s("raid"), 12);
    assert_eq!(m.get_role_from_name(1, s("raid")), Some(12));
    assert_eq!(m.get_types(1), vec![s("raid"), s("raid")]);
    m.load_type_cache();
    assert_eq!(m.get_types(1), vec![s("raid")]);
}

#[test]
fn removed_type_is_gone() {
    let mut m = GuildConfigManager::new();
    m.add_type(1, s("raid"), 11);
    m.add_type(1, s("raid"), 11);
    m.add_type(1, s("pvp"), 12);
    assert!(m.remove_type(1, s("raid")));
    assert_eq!(m.get_role_from_name(1, s("raid")), None);
    assert_eq!(m.get_role_from_name(1, s("pvp")), Some(12));
    assert_eq!(m.get_types(1), vec![s("pvp")]);
    assert!(!m.remove_type(1, s("raid")));
    assert!(!m.remove_type(2, s("pvp")));
    assert_eq!(m.get_types(1), vec![s("pvp")]);
}

#[test]
fn rebuilt_cache_lists_the_table() {
    let mut m = GuildConfigManager::new();
    m.add_type(2, s("b"), 1);
    m.add_type(1, s("a"), 2);
    m.add_type(2, s("c"), 3);
    m.load_type_cache();
    assert_eq!(m.get_types(2), vec![s("b"), s("c")]);
    assert_eq!(m.get_types(1), vec![s("a")]);
    m.remove_type(1, s("a"));
    m.load_type_cache();
    assert!(m.get_types(1).is_empty());
}

#[test]
fn config_survives_other_writes() {
    let mut m = GuildConfigManager::new();
    m.set_config(1, 100, 200);
    m.set_config(2, 300, 400);
    m.add_type(1, s("raid"), 7);
    m.remove_type(1, s("raid"));
    m.load_type_cache();
    assert_eq!(m.get_forum_id(1), Some(100));
    assert_eq!(m.get_lfg_command_channel(1), Some(200));
    assert_eq!(m.get_forum_id(3), None);
    assert_eq!(m.get_lfg_command_channel(3), None);
}

#[test]
fn type_list_follows_adds_and_removes() {
    let mut m = GuildConfigManager::new();
    m.add_type(1, s("raid"), 7);
    m.add_type(2, s("pvp"), 8);
    assert!(m.get_types(1).contains(&s("raid")));
    assert!(!m.remove_type(1, s("pvp")));
    assert!(!m.get_types(1).contains(&s("pvp")));
    assert!(m.remove_type(1, s("raid")));
    assert!(!m.get_types(1).contains(&s("raid")));
    assert_eq!(m.get_types(2), vec![s("pvp")]);
}

#[test]
fn clones_keep_everything() {
    let mut m = GuildConfigManager::new();
    m.set_config(1, 100, 200);
    m.add_type(1, s("raid"), 7);
    let c = m.clone();
    assert_eq!(c.get_forum_id(1), Some(100));
    assert_eq!(c.get_role_from_name(1, s("raid")), Some(7));
    assert_eq!(c.get_types(1), vec![s("raid")]);
    let t = LfgType { guild_id: 1, name: s("pvp"), role_id: 8 };
    let u = t.clone();
    assert_eq!((u.guild_id, u.name.as_str(), u.role_id), (1, "pvp", 8));
}
