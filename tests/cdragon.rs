use std::collections::HashMap;

use cdragon::mtime_format::{deserialize, serialize};
use cdragon::{
    entity_ids, freshness, CDragon, CatalogError, Champion, Config, ErrorKind, Fetched,
    PlaystyleInfo, Plugin, PluginKind, PluginName, Status, StatusCheck, TacticalInfo, Timestamp,
    UpdateError, UpdateEvent, UpdateRun, UpdateStage,
};

fn ts(text: &str) -> Timestamp {
    deserialize(text).unwrap()
}

fn plugin(name: PluginName, mtime: Timestamp) -> Plugin {
    Plugin::new(name, PluginKind::Directory, mtime, None)
}

fn champion(id: u64, name: &str) -> Champion {
    Champion {
        id,
        name: name.to_string(),
        alias: name.to_string(),
        title: "the Dark Child".to_string(),
        short_bio: String::new(),
        tactical_info: TacticalInfo { style: 10, difficulty: 1, damage_type: "kMagic".to_string() },
        playstyle_info: PlaystyleInfo {
            damage: 3,
            durability: 1,
            crowd_control: 3,
            mobility: 1,
            utility: 1,
        },
        square_portrait_path: String::new(),
        stinger_sfx_path: String::new(),
        choose_vo_path: String::new(),
        ban_vo_path: String::new(),
        roles: vec!["mage".to_string()],
    }
}

fn config() -> Config {
    Config {
        cache_dir: "/tmp/cache".to_string(),
        data_dir: "/tmp/data".to_string(),
        config_dir: "/tmp/config".to_string(),
    }
}

#[test]
fn mtime_text_round_trip() {
    let t = Timestamp::from_secs(1717200000);
    let text = serialize(t).unwrap();
    assert_eq!(text, "Sat, 01 Jun 2024 00:00:00 UTC");
    assert_eq!(deserialize(&text), Ok(t));
}

#[test]
fn mtime_text_parses_to_utc_seconds() {
    assert_eq!(deserialize("Sun, 01 Jan 2023 00:00:00 UTC"), Ok(Timestamp::from_secs(1672531200)));
    assert_eq!(deserialize("Wed, 01 Jan 2025 12:30:15 UTC"), Ok(Timestamp::from_secs(1735734615)));
}

#[test]
fn mtime_text_that_does_not_parse_is_a_decode_error() {
    assert_eq!(deserialize("2024-06-01"), Err(CatalogError::Fetch(ErrorKind::Decode)));
    assert_eq!(deserialize(""), Err(CatalogError::Fetch(ErrorKind::Decode)));
}

#[test]
fn mtime_out_of_range_has_no_text() {
    assert_eq!(serialize(Timestamp::from_secs(i64::MAX)), None);
}

#[test]
fn plugin_round_trip_keeps_fields() {
    let p = Plugin::new(PluginName::RcpFeLolTft, PluginKind::File, ts("Mon, 03 Jul 2023 10:11:12 UTC"), Some(42));
    let text = serialize(p.mtime).unwrap();
    let back = Plugin::new(p.name, p.kind, deserialize(&text).unwrap(), p.size);
    assert_eq!(back, p);
}

#[test]
fn champs_out_of_date() {
    let p = plugin(PluginName::RcpBeLolGameData, ts("Sat, 01 Jun 2024 00:00:00 UTC"));
    assert!(p.updated_since(ts("Sun, 01 Jan 2023 00:00:00 UTC")));
    assert!(!p.updated_since(ts("Wed, 01 Jan 2025 00:00:00 UTC")));
    assert!(!p.updated_since(p.mtime));
}

#[test]
fn older_cache_is_out_of_date() {
    let cached = ts("Sun, 01 Jan 2023 00:00:00 UTC");
    let remote = ts("Sat, 01 Jun 2024 00:00:00 UTC");
    assert_eq!(freshness(cached, remote), Status::OutOfDate);
}

#[test]
fn newer_cache_is_up_to_date() {
    let cached = ts("Wed, 01 Jan 2025 00:00:00 UTC");
    let remote = ts("Sat, 01 Jun 2024 00:00:00 UTC");
    assert_eq!(freshness(cached, remote), Status::UpToDate);
    assert_eq!(freshness(remote, remote), Status::UpToDate);
}

#[test]
fn cold_start_is_out_of_date() {
    assert_eq!(
        CDragon::status_check(&None, PluginName::RcpBeLolGameData),
        StatusCheck::Decided(Status::OutOfDate)
    );
    let cached = Some(vec![plugin(PluginName::RcpFeAudio, Timestamp::from_secs(5))]);
    assert_eq!(
        CDragon::status_check(&cached, PluginName::RcpBeLolGameData),
        StatusCheck::Decided(Status::OutOfDate)
    );
}

#[test]
fn cached_plugin_needs_the_remote_date() {
    let cached = Some(vec![
        plugin(PluginName::RcpFeAudio, Timestamp::from_secs(5)),
        plugin(PluginName::RcpBeLolGameData, Timestamp::from_secs(7)),
        plugin(PluginName::RcpBeLolGameData, Timestamp::from_secs(9)),
    ]);
    assert_eq!(
        CDragon::status_check(&cached, PluginName::RcpBeLolGameData),
        StatusCheck::NeedsRemote(Timestamp::from_secs(7))
    );
    assert_eq!(
        CDragon::cached_plugin_updated_date(&cached, &PluginName::RcpFeAudio),
        Some(Timestamp::from_secs(5))
    );
}

#[test]
fn cached_versus_remote_dates() {
    let name = PluginName::RcpBeLolGameData;
    let remote = Ok(vec![
        plugin(PluginName::RcpFeAudio, ts("Mon, 01 Jan 2035 00:00:00 UTC")),
        plugin(name, ts("Sat, 01 Jun 2024 00:00:00 UTC")),
    ]);
    assert_eq!(CDragon::status(ts("Sun, 01 Jan 2023 00:00:00 UTC"), &remote, name), Ok(Status::OutOfDate));
    assert_eq!(CDragon::status(ts("Wed, 01 Jan 2025 00:00:00 UTC"), &remote, name), Ok(Status::UpToDate));
}

#[test]
fn failed_remote_check_fails() {
    let name = PluginName::RcpBeLolGameData;
    let err = CatalogError::Fetch(ErrorKind::Network);
    assert_eq!(CDragon::status(Timestamp::from_secs(1), &Err(err), name), Err(err));
    let remote = Ok(vec![plugin(PluginName::RcpFeAudio, Timestamp::from_secs(3))]);
    assert_eq!(
        CDragon::status(Timestamp::from_secs(1), &remote, name),
        Err(CatalogError::MissingPlugin(name))
    );
    assert_eq!(
        CDragon::network_plugin_updated_date(&vec![], &name),
        Err(CatalogError::MissingPlugin(name))
    );
}

#[test]
fn entity_ids_skip_the_first_entry() {
    assert_eq!(entity_ids(&vec![Some(99), Some(1), Some(2)]), Ok(vec![1, 2]));
    assert_eq!(entity_ids(&vec![None, Some(1), Some(2)]), Ok(vec![1, 2]));
    assert_eq!(entity_ids(&vec![None]), Ok(vec![]));
    assert_eq!(entity_ids(&vec![]), Ok(vec![]));
    assert_eq!(
        entity_ids(&vec![Some(1), None, Some(2)]),
        Err(CatalogError::Fetch(ErrorKind::Decode))
    );
}

#[test]
fn get_champ_ids() {
    let summary = r#"[{"id": -1, "name": "None"}, {"id": 1, "name": "Annie"}, {"id": 2, "name": "Olaf"}]"#;
    assert_eq!(CDragon::champion_ids(summary), Ok(vec![1, 2]));
    assert_eq!(CDragon::champion_ids(r#"["placeholder", {"id": 266}]"#), Ok(vec![266]));
    assert_eq!(CDragon::champion_ids("[]"), Ok(vec![]));
}

#[test]
fn malformed_index_is_a_decode_error() {
    let decode = Err(CatalogError::Fetch(ErrorKind::Decode));
    assert_eq!(CDragon::champion_ids(r#"[{}, {"id": 1}, {"name": "x"}]"#), decode);
    assert_eq!(CDragon::champion_ids(r#"[{}, {"id": "1"}]"#), decode);
    assert_eq!(CDragon::champion_ids(r#"{"id": 1}"#), decode);
    assert_eq!(CDragon::champion_ids("not json"), decode);
}

#[test]
fn all_champs() {
    let fetched: Vec<Fetched> = vec![
        (1, Ok(champion(1, "Annie"))),
        (2, Ok(champion(2, "Olaf"))),
        (3, Ok(champion(3, "Galio"))),
    ];
    let map = CDragon::all_champions(fetched).unwrap();
    assert_eq!(map.len(), 3);
    let mut keys: Vec<u64> = map.keys().copied().collect();
    keys.sort();
    assert_eq!(keys, vec![1, 2, 3]);
    assert_eq!(map[&1].name, "Annie");
    assert_eq!(map[&1].playstyle_info.damage, 3);
    assert_eq!(map[&3].name, "Galio");
}

#[test]
fn empty_fan_out_gives_empty_map() {
    assert_eq!(CDragon::all_champions(vec![]).unwrap().len(), 0);
}

#[test]
fn one_failed_fetch_fails_the_join() {
    let fetched: Vec<Fetched> = vec![
        (1, Ok(champion(1, "Annie"))),
        (2, Err(ErrorKind::NotFound)),
        (3, Ok(champion(3, "Galio"))),
    ];
    assert_eq!(
        CDragon::all_champions(fetched).err(),
        Some(CatalogError::Entity { id: 2, kind: ErrorKind::NotFound })
    );
}

#[test]
fn first_failure_in_join_order_is_reported() {
    let fetched: Vec<Fetched> = vec![
        (1, Ok(champion(1, "Annie"))),
        (2, Err(ErrorKind::Decode)),
        (3, Err(ErrorKind::Network)),
    ];
    assert_eq!(
        CDragon::all_champions(fetched).err(),
        Some(CatalogError::Entity { id: 2, kind: ErrorKind::Decode })
    );
}

fn run_update(cd: &mut CDragon, plugins: Vec<Plugin>, champions: HashMap<u64, Champion>) {
    let run = UpdateRun::new();
    let run = cd.update(run, UpdateEvent::PluginsFetched(Ok(plugins))).unwrap();
    assert_eq!(run.stage, UpdateStage::SavePlugins);
    let run = cd.update(run, UpdateEvent::PluginsSaved(true)).unwrap();
    assert_eq!(run.stage, UpdateStage::FetchChampions);
    let run = cd.update(run, UpdateEvent::ChampionsFetched(Ok(champions))).unwrap();
    assert_eq!(run.stage, UpdateStage::SaveChampions);
    let run = cd.update(run, UpdateEvent::ChampionsSaved(true)).unwrap();
    assert_eq!(run.stage, UpdateStage::Done);
}

#[test]
fn update() {
    let mut cd = CDragon::new(config());
    assert_eq!(cd.status, Status::Uninitialized);
    let mut first = HashMap::new();
    first.insert(1, champion(1, "Annie"));
    run_update(&mut cd, vec![plugin(PluginName::RcpBeLolGameData, Timestamp::from_secs(10))], first);
    assert_eq!(cd.status, Status::UpToDate);
    assert_eq!(cd.plugins, vec![plugin(PluginName::RcpBeLolGameData, Timestamp::from_secs(10))]);
    assert_eq!(cd.champions.len(), 1);

    let mut second = HashMap::new();
    second.insert(2, champion(2, "Olaf"));
    second.insert(3, champion(3, "Galio"));
    run_update(&mut cd, vec![plugin(PluginName::RcpBeLolGameData, Timestamp::from_secs(20))], second);
    assert_eq!(cd.status, Status::UpToDate);
    assert_eq!(cd.plugins, vec![plugin(PluginName::RcpBeLolGameData, Timestamp::from_secs(20))]);
    assert_eq!(cd.champions.len(), 2);
    assert!(cd.champions.contains_key(&2) && !cd.champions.contains_key(&1));
    assert_eq!(cd.config.cache_dir, "/tmp/cache");
}

#[test]
fn failed_update_stages_leave_the_aggregate_alone() {
    let mut cd = CDragon::new(config());
    let err = CatalogError::Fetch(ErrorKind::Network);
    assert_eq!(
        cd.update(UpdateRun::new(), UpdateEvent::PluginsFetched(Err(err))).err(),
        Some(UpdateError::Plugins(err))
    );
    let run = cd.update(UpdateRun::new(), UpdateEvent::PluginsFetched(Ok(vec![]))).unwrap();
    assert_eq!(cd.update(run, UpdateEvent::PluginsSaved(false)).err(), Some(UpdateError::PluginCache));
    let run = cd.update(UpdateRun::new(), UpdateEvent::PluginsFetched(Ok(vec![]))).unwrap();
    let run = cd.update(run, UpdateEvent::PluginsSaved(true)).unwrap();
    let fail = CatalogError::Entity { id: 7, kind: ErrorKind::NotFound };
    assert_eq!(
        cd.update(run, UpdateEvent::ChampionsFetched(Err(fail))).err(),
        Some(UpdateError::Champions(fail))
    );
    let run = cd.update(UpdateRun::new(), UpdateEvent::PluginsFetched(Ok(vec![]))).unwrap();
    let run = cd.update(run, UpdateEvent::PluginsSaved(true)).unwrap();
    let run = cd.update(run, UpdateEvent::ChampionsFetched(Ok(HashMap::new()))).unwrap();
    assert_eq!(cd.update(run, UpdateEvent::ChampionsSaved(false)).err(), Some(UpdateError::ChampionCache));
    assert_eq!(cd.status, Status::Uninitialized);
}

#[test]
fn status_names() {
    assert_eq!(Status::Uninitialized.as_str(), "Uninitialized");
    assert_eq!(Status::OutOfDate.as_str(), "OutOfDate");
    assert_eq!(Status::UpToDate.as_str(), "UpToDate");
}

#[test]
fn get_plugs() {
    let p = Plugin::decode("rcp-be-lol-game-data", "directory", "Sat, 01 Jun 2024 00:00:00 UTC", None).unwrap();
    assert_eq!(p.name, PluginName::RcpBeLolGameData);
    assert_eq!(p.kind, PluginKind::Directory);
    assert_eq!(p.mtime, Timestamp::from_secs(1717200000));
    assert_eq!(p.size, None);
    let f = Plugin::decode("rcp-fe-lol-l10n", "file", "Sun, 01 Jan 2023 00:00:00 UTC", Some(512)).unwrap();
    assert_eq!(f.name, PluginName::RcpFeLolL10n);
    assert_eq!(f.kind, PluginKind::File);
    assert_eq!(f.size, Some(512));
}

#[test]
fn unknown_plugin_name_is_the_manifest() {
    assert_eq!(PluginName::from_wire_name("rcp-fe-lol-arcade"), PluginName::PluginManifest);
    assert_eq!(PluginName::from_wire_name("rcp-fe-something-new"), PluginName::PluginManifest);
    assert_eq!(PluginName::from_wire_name(""), PluginName::PluginManifest);
    assert_eq!(PluginName::from_wire_name("none"), PluginName::Unnamed);
}

#[test]
fn plugin_names_round_trip() {
    let names = [
        PluginName::Unnamed,
        PluginName::RcpBeLolGameData,
        PluginName::RcpFeLolTft,
        PluginName::RcpFeLolTftTeamPlanner,
        PluginName::RcpFeLolPft,
        PluginName::RcpFePluginRunner,
        PluginName::PluginManifest,
    ];
    for n in names {
        assert_eq!(PluginName::from_wire_name(n.wire_name()), n);
    }
    assert_eq!(PluginName::RcpFeLolTftTeamPlanner.wire_name(), "rcp-fe-lol-tft-team-planner");
    assert_eq!(PluginKind::from_wire_name(PluginKind::File.wire_name()), Some(PluginKind::File));
    assert_eq!(PluginKind::from_wire_name(PluginKind::Directory.wire_name()), Some(PluginKind::Directory));
}

#[test]
fn bad_plugin_entries_are_decode_errors() {
    let decode = Err(CatalogError::Fetch(ErrorKind::Decode));
    assert_eq!(Plugin::decode("rcp-fe-audio", "folder", "Sun, 01 Jan 2023 00:00:00 UTC", None), decode);
    assert_eq!(Plugin::decode("rcp-fe-audio", "file", "yesterday", None), decode);
    assert_eq!(PluginKind::from_wire_name("File"), None);
}

#[test]
fn encoded_plugin_decodes_to_itself() {
    let p = Plugin::new(PluginName::RcpFeLolLoot, PluginKind::File, Timestamp::from_secs(1688379072), Some(-3));
    let text = serialize(p.mtime).unwrap();
    let back = Plugin::decode(p.name.wire_name(), p.kind.wire_name(), &text, p.size);
    assert_eq!(back, Ok(p));
}
