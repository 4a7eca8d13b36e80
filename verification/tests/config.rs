use sidewinder::server::A2SConfig;
use sidewinder::server::GameConfig;
use sidewinder::server::GamePlatform;
use sidewinder::server::GameProperties;
use sidewinder::server::JoinQueueConfig;
use sidewinder::server::ModConfig;
use sidewinder::server::OperatingConfig;
use sidewinder::server::RconConfig;
use sidewinder::server::RconPermission;
use sidewinder::server::ServerConfig;

#[test]
fn defaults_match_documented_values() {
    let a = A2SConfig::default();
    assert_eq!(a.address, "0.0.0.0");
    assert_eq!(a.port, 17777);
    let r = RconConfig::default();
    assert_eq!(r.port, 19999);
    assert_eq!(r.password, "changeme_withoutspaces");
    assert_eq!(r.max_clients, 16);
    assert_eq!(r.permission, RconPermission::Monitor);
    let g = GameConfig::default();
    assert_eq!(g.scenario_id, "{59AD59368755F41A}Missions/21_GM_Eden.conf");
    assert_eq!(g.max_players, 64);
    assert_eq!(g.supported_platforms, vec![GamePlatform::PC]);
    assert!(g.mods_required_by_default);
    let p = GameProperties::default();
    assert_eq!(p.server_max_view_distance, 1600);
    assert_eq!(p.server_min_grass_distance, 50);
    assert_eq!(p.network_view_distance, 1500);
    assert!(p.fast_validation);
    assert!(p.battleye);
    let o = OperatingConfig::default();
    assert_eq!(o.player_save_time, 120);
    assert_eq!(o.ai_limit, -1);
    assert_eq!(o.slot_reservation_timeout, 60);
    assert_eq!(o.join_queue.max_size, 50);
    let c = ServerConfig::default();
    assert_eq!(c.bind_address, "");
    assert_eq!(c.bind_port, None);
    assert_eq!(c.public_port, 0);
}

#[test]
fn default_config_serializes_canonically() {
    let c = ServerConfig::default();
    let s = c.to_json();
    // optional fields absent from the default are omitted entirely
    assert!(s.starts_with("{\"bindAddress\":\"\",\"publicPort\":0,\"a2s\":{\"address\":\"0.0.0.0\",\"port\":17777},"));
    assert!(!s.contains("bindPort"));
    assert!(!s.contains("publicAddress"));
    assert!(!s.contains("missionHeader"));
    assert!(s.contains("\"permission\":\"monitor\""));
    assert!(s.contains("\"supportedPlatforms\":[\"PLATFORM_PC\"]"));
    assert!(s.contains("\"aiLimit\":-1"));
    assert!(s.ends_with("\"joinQueue\":{\"maxSize\":50}}}"));
}

fn full_config() -> ServerConfig {
    let mut c = ServerConfig::default();
    c.bind_address = String::from("192.168.0.2");
    c.bind_port = Some(2001);
    c.public_address = Some(String::from("203.0.113.9"));
    c.public_port = 2001;
    c.rcon.password = String::from("s3cret \"quoted\" \\ and\ttabs");
    c.rcon.permission = RconPermission::Admin;
    c.rcon.blacklist = vec![String::from("cheater"), String::from("griefer")];
    c.game.name = String::from("Night Ops — EU #1");
    c.game.password = Some(String::from("join me\n"));
    c.game.admins = vec![String::from("ident-1")];
    c.game.max_players = 96;
    c.game.cross_platform = true;
    c.game.supported_platforms = vec![GamePlatform::PC, GamePlatform::XBL, GamePlatform::PSN];
    c.game.game_properties.mission_header = Some(vec![
        (String::from("difficulty"), String::from("veteran")),
        (String::from("weather"), String::from("storm\u{7}")),
    ]);
    c.game.mods = vec![
        ModConfig {
            mod_id: String::from("591AF5BDA9F7CE8B"),
            name: String::from("RHS"),
            required: true,
        },
        ModConfig {
            mod_id: String::from("5965550F24A0C152"),
            name: String::from("ACE Core"),
            required: false,
        },
    ];
    c.operating.disable_navmesh_streaming = Some(vec![String::from("everon")]);
    c.operating.ai_limit = -1;
    c.operating.player_save_time = 240;
    c.operating.join_queue = JoinQueueConfig { max_size: 75 };
    c
}

#[test]
fn config_round_trip_default() {
    let c = ServerConfig::default();
    let s = c.to_json();
    let back = ServerConfig::from_json(&s).expect("canonical text parses");
    assert_eq!(back, c);
    assert_eq!(back.to_json(), s);
}

#[test]
fn config_round_trip_full() {
    let c = full_config();
    let s = c.to_json();
    let back = ServerConfig::from_json(&s).expect("canonical text parses");
    assert_eq!(back, c);
    assert_eq!(back.to_json(), s);
}

#[test]
fn full_config_serialized_fields() {
    let s = full_config().to_json();
    assert!(s.contains("\"bindPort\":2001"));
    assert!(s.contains("\"publicAddress\":\"203.0.113.9\""));
    assert!(s.contains("\"password\":\"s3cret \\\"quoted\\\" \\\\ and\\ttabs\""));
    assert!(s.contains("\"permission\":\"admin\""));
    assert!(s.contains("\"blacklist\":[\"cheater\",\"griefer\"]"));
    assert!(s.contains("\"password\":\"join me\\n\""));
    assert!(s.contains(
        "\"supportedPlatforms\":[\"PLATFORM_PC\",\"PLATFORM_XBL\",\"PLATFORM_PSN\"]"
    ));
    assert!(s.contains(
        "\"missionHeader\":{\"difficulty\":\"veteran\",\"weather\":\"storm\\u0007\"}"
    ));
    assert!(s.contains("\"modId\":\"591AF5BDA9F7CE8B\""));
    assert!(s.contains("\"disableNavmeshStreaming\":[\"everon\"]"));
    assert!(s.contains("\"joinQueue\":{\"maxSize\":75}"));
}

#[test]
fn serializer_matches_reference_encoder() {
    // the canonical form must be byte-for-byte what the standard JSON
    // encoder produces for the same value tree
    let mut a2s = serde_json::Map::new();
    a2s.insert(
        String::from("address"),
        serde_json::Value::String(String::from("0.0.0.0")),
    );
    a2s.insert(String::from("port"), serde_json::Value::from(17777u16));
    let reference = serde_json::to_string(&serde_json::Value::Object(a2s)).unwrap();
    let ours = ServerConfig::default().to_json();
    assert!(ours.contains(&reference));
}

#[test]
fn non_canonical_text_is_rejected() {
    // a leading space breaks the canonical form
    let c = ServerConfig::default();
    let s = format!(" {}", c.to_json());
    assert!(ServerConfig::from_json(&s).is_none());
    // trailing garbage is rejected too
    let s2 = format!("{}x", c.to_json());
    assert!(ServerConfig::from_json(&s2).is_none());
    assert!(ServerConfig::from_json("{}").is_none());
}
