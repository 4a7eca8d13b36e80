//! The declarative server configuration: an immutable tree of settings
//! that a driver materializes into a running server instance.
//!
//! Each type carries a `Default` implementation whose contract pins every
//! field, and the whole tree serializes to a canonical text form (see
//! [`crate::json`]); that serialized form is the single source of truth
//! handed to the runtime environment.

use vstd::prelude::*;

verus! {

/// Settings for the query protocol endpoint.
#[derive(Clone, Debug, PartialEq, Eq)]
pub struct A2SConfig {
    pub address: String,
    pub port: u16,
}

/// Holds iff every field of `a` has its documented default value.
pub open spec fn a2s_is_default(a: A2SConfig) -> bool {
    &&& a.address@ == "0.0.0.0"@
    &&& a.port == 17777u16
}

impl Default for A2SConfig {
    /// A query endpoint bound on all interfaces at the conventional port.
    fn default() -> (r: Self)
        ensures
            a2s_is_default(r),
    {
        Self { address: String::from_str("0.0.0.0"), port: 17777 }
    }
}

/// What a remote-console client is allowed to do.
#[derive(Clone, Debug, PartialEq, Eq)]
pub enum RconPermission {
    /// The admin can perform any command.
    Admin,
    /// The monitor can only perform commands which do not change the
    /// server's state.
    Monitor,
}

impl Default for RconPermission {
    /// The least privileged level.
    fn default() -> (r: Self)
        ensures
            r == RconPermission::Monitor,
    {
        RconPermission::Monitor
    }
}

/// Settings for the remote-console endpoint.
#[derive(Clone, Debug, PartialEq, Eq)]
pub struct RconConfig {
    pub address: String,
    pub port: u16,
    pub password: String,
    pub max_clients: u16,
    pub permission: RconPermission,
    pub blacklist: Vec<String>,
    pub whitelist: Vec<String>,
}

/// Holds iff every field of `r` has its documented default value.
pub open spec fn rcon_is_default(r: RconConfig) -> bool {
    &&& r.address@ == "0.0.0.0"@
    &&& r.port == 19999u16
    &&& r.password@ == "changeme_withoutspaces"@
    &&& r.max_clients == 16u16
    &&& r.permission == RconPermission::Monitor
    &&& r.blacklist@ =~= Seq::<String>::empty()
    &&& r.whitelist@ =~= Seq::<String>::empty()
}

impl Default for RconConfig {
    fn default() -> (r: Self)
        ensures
            rcon_is_default(r),
    {
        Self {
            address: String::from_str("0.0.0.0"),
            port: 19999,
            password: String::from_str("changeme_withoutspaces"),
            max_clients: 16,
            permission: RconPermission::Monitor,
            blacklist: Vec::new(),
            whitelist: Vec::new(),
        }
    }
}

/// A platform that players may join from.
#[derive(Clone, Debug, PartialEq, Eq)]
pub enum GamePlatform {
    /// PC
    PC,
    /// Xbox Console
    XBL,
    /// PlayStation Console
    PSN,
}

impl Default for GamePlatform {
    fn default() -> (r: Self)
        ensures
            r == GamePlatform::PC,
    {
        GamePlatform::PC
    }
}

/// Fine-grained game behaviour switches.
#[derive(Clone, Debug, PartialEq, Eq)]
pub struct GameProperties {
    pub server_max_view_distance: u16,
    pub server_min_grass_distance: u16,
    pub fast_validation: bool,
    pub network_view_distance: u16,
    pub battleye: bool,
    pub disable_third_person: bool,
    pub von_disable_ui: bool,
    pub von_disable_direct_speech_ui: bool,
    pub von_can_transmit_cross_faction: bool,
    /// Optional scenario header overrides, as ordered key/value pairs.
    /// Invariant ([`game_properties_wf`]): the keys are pairwise
    /// distinct — the entries stand for a keyed map, kept as a vector
    /// only so that the serialized order is deterministic.
    pub mission_header: Option<Vec<(String, String)>>,
}

/// Well-formedness of the behaviour switches: the scenario header
/// overrides, when present, hold no key twice.  Constructors of the
/// header are expected to keep this; serialization does not depend on
/// it, but a header with a repeated key would serialize to an object
/// with a duplicated member.
pub open spec fn game_properties_wf(g: GameProperties) -> bool {
    match g.mission_header {
        Option::Some(m) => forall|a: int, b: int|
            0 <= a < b < m@.len() ==> m@[a].0@ != m@[b].0@,
        Option::None => true,
    }
}

/// Holds iff every field of `g` has its documented default value.
pub open spec fn game_properties_is_default(g: GameProperties) -> bool {
    &&& g.server_max_view_distance == 1600u16
    &&& g.server_min_grass_distance == 50u16
    &&& g.fast_validation == true
    &&& g.network_view_distance == 1500u16
    &&& g.battleye == true
    &&& g.disable_third_person == false
    &&& g.von_disable_ui == false
    &&& g.von_disable_direct_speech_ui == false
    &&& g.von_can_transmit_cross_faction == false
    &&& g.mission_header is None
}

impl Default for GameProperties {
    fn default() -> (r: Self)
        ensures
            game_properties_is_default(r),
            game_properties_wf(r),
    {
        Self {
            server_max_view_distance: 1600,
            server_min_grass_distance: 50,
            network_view_distance: 1500,
            disable_third_person: false,
            fast_validation: true,
            battleye: true,
            von_disable_ui: false,
            von_disable_direct_speech_ui: false,
            von_can_transmit_cross_faction: false,
            mission_header: None,
        }
    }
}

/// One entry of the ordered mod list.
#[derive(Clone, Debug, PartialEq, Eq, Default)]
pub struct ModConfig {
    pub mod_id: String,
    pub name: String,
    pub required: bool,
}

/// The game session settings.
#[derive(Clone, Debug, PartialEq, Eq)]
pub struct GameConfig {
    pub name: String,
    pub password: Option<String>,
    pub password_admin: String,
    pub admins: Vec<String>,
    pub scenario_id: String,
    pub max_players: u16,
    pub visible: bool,
    pub cross_platform: bool,
    pub supported_platforms: Vec<GamePlatform>,
    pub game_properties: GameProperties,
    pub mods_required_by_default: bool,
    pub mods: Vec<ModConfig>,
}

/// Holds iff every field of `g` has its documented default value.
pub open spec fn game_is_default(g: GameConfig) -> bool {
    &&& g.name@ == Seq::<char>::empty()
    &&& g.password is None
    &&& g.password_admin@ == Seq::<char>::empty()
    &&& g.admins@ =~= Seq::<String>::empty()
    &&& g.scenario_id@ == "{59AD59368755F41A}Missions/21_GM_Eden.conf"@
    &&& g.max_players == 64u16
    &&& g.visible == true
    &&& g.cross_platform == false
    &&& g.supported_platforms@.len() == 1
    &&& g.supported_platforms@[0] == GamePlatform::PC
    &&& game_properties_is_default(g.game_properties)
    &&& g.mods_required_by_default == true
    &&& g.mods@ =~= Seq::<ModConfig>::empty()
}

impl Default for GameConfig {
    fn default() -> (r: Self)
        ensures
            game_is_default(r),
    {
        let mut platforms: Vec<GamePlatform> = Vec::new();
        platforms.push(GamePlatform::PC);
        Self {
            name: String::new(),
            password: None,
            password_admin: String::new(),
            admins: Vec::new(),
            scenario_id: String::from_str("{59AD59368755F41A}Missions/21_GM_Eden.conf"),
            max_players: 64,
            visible: true,
            cross_platform: false,
            supported_platforms: platforms,
            game_properties: GameProperties::default(),
            mods_required_by_default: true,
            mods: Vec::new(),
        }
    }
}

/// Bounds on the queue of players waiting to join.
#[derive(Clone, Debug, PartialEq, Eq)]
pub struct JoinQueueConfig {
    pub max_size: i16,
}

impl Default for JoinQueueConfig {
    fn default() -> (r: Self)
        ensures
            r.max_size == 50i16,
    {
        Self { max_size: 50 }
    }
}

/// Operating policy for the running server process.
#[derive(Clone, Debug, PartialEq, Eq)]
pub struct OperatingConfig {
    pub lobby_player_synchronise: bool,
    pub disable_crash_reporter: bool,
    pub disable_navmesh_streaming: Option<Vec<String>>,
    pub disable_server_shutdown: bool,
    pub disable_ai: bool,
    pub player_save_time: i16,
    pub ai_limit: i16,
    pub slot_reservation_timeout: i16,
    pub join_queue: JoinQueueConfig,
}

/// Holds iff every field of `o` has its documented default value.
pub open spec fn operating_is_default(o: OperatingConfig) -> bool {
    &&& o.lobby_player_synchronise == true
    &&& o.disable_crash_reporter == false
    &&& o.disable_navmesh_streaming is None
    &&& o.disable_server_shutdown == false
    &&& o.disable_ai == false
    &&& o.player_save_time == 120i16
    &&& o.ai_limit == -1i16
    &&& o.slot_reservation_timeout == 60i16
    &&& o.join_queue.max_size == 50i16
}

impl Default for OperatingConfig {
    fn default() -> (r: Self)
        ensures
            operating_is_default(r),
    {
        Self {
            lobby_player_synchronise: true,
            disable_crash_reporter: false,
            disable_navmesh_streaming: None,
            disable_server_shutdown: false,
            disable_ai: false,
            player_save_time: 120,
            ai_limit: -1,
            slot_reservation_timeout: 60,
            join_queue: JoinQueueConfig::default(),
        }
    }
}

/// The complete declarative description of one server instance.
#[derive(Clone, Debug, PartialEq, Eq)]
pub struct ServerConfig {
    pub bind_address: String,
    pub bind_port: Option<u16>,
    pub public_address: Option<String>,
    pub public_port: u16,
    pub a2s: A2SConfig,
    pub rcon: RconConfig,
    pub game: GameConfig,
    pub operating: OperatingConfig,
}

/// Holds iff every field of `c` has its documented default value.
pub open spec fn server_config_is_default(c: ServerConfig) -> bool {
    &&& c.bind_address@ == Seq::<char>::empty()
    &&& c.bind_port is None
    &&& c.public_address is None
    &&& c.public_port == 0u16
    &&& a2s_is_default(c.a2s)
    &&& rcon_is_default(c.rcon)
    &&& game_is_default(c.game)
    &&& operating_is_default(c.operating)
}

impl Default for ServerConfig {
    fn default() -> (r: Self)
        ensures
            server_config_is_default(r),
    {
        Self {
            bind_address: String::new(),
            bind_port: None,
            public_address: None,
            public_port: 0,
            a2s: A2SConfig::default(),
            rcon: RconConfig::default(),
            game: GameConfig::default(),
            operating: OperatingConfig::default(),
        }
    }
}

} // verus!
