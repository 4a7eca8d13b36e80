//! The canonical serialized form of a [`ServerConfig`].
//!
//! The configuration file mounted into the runtime environment holds this
//! exact text: object fields in declaration order, camel-case keys, no
//! whitespace, optional fields omitted when absent, and the minimal string
//! escapes.  The spec functions here define that form character by
//! character; [`ServerConfig::to_json`] is proved to produce it, and
//! [`ServerConfig::from_json`] reads it back.

use vstd::prelude::*;

use crate::server::A2SConfig;
use crate::server::GameConfig;
use crate::server::GamePlatform;
use crate::server::GameProperties;
use crate::server::JoinQueueConfig;
use crate::server::ModConfig;
use crate::server::OperatingConfig;
use crate::server::RconConfig;
use crate::server::RconPermission;
use crate::server::ServerConfig;

verus! {

// ---------------------------------------------------------------------
// Primitive forms: decimal numbers, booleans, escaped strings.
// ---------------------------------------------------------------------

/// The single decimal digit `d` (`d < 10`), as text.
pub open spec fn spec_digit(d: nat) -> Seq<char> {
    if d == 0 {
        "0"@
    } else if d == 1 {
        "1"@
    } else if d == 2 {
        "2"@
    } else if d == 3 {
        "3"@
    } else if d == 4 {
        "4"@
    } else if d == 5 {
        "5"@
    } else if d == 6 {
        "6"@
    } else if d == 7 {
        "7"@
    } else if d == 8 {
        "8"@
    } else {
        "9"@
    }
}

/// The single lower-case hexadecimal digit `d` (`d < 16`), as text.
pub open spec fn spec_hex_digit(d: nat) -> Seq<char> {
    if d < 10 {
        spec_digit(d)
    } else if d == 10 {
        "a"@
    } else if d == 11 {
        "b"@
    } else if d == 12 {
        "c"@
    } else if d == 13 {
        "d"@
    } else if d == 14 {
        "e"@
    } else {
        "f"@
    }
}

/// The decimal representation of `n`, without sign or leading zeros.
pub open spec fn spec_dec(n: nat) -> Seq<char>
    decreases n,
{
    if n < 10 {
        spec_digit(n)
    } else {
        spec_dec(n / 10) + spec_digit(n % 10)
    }
}

/// The decimal representation of the integer `n`, `-` first if negative.
pub open spec fn spec_int_dec(n: int) -> Seq<char> {
    if n < 0 {
        "-"@ + spec_dec((-n) as nat)
    } else {
        spec_dec(n as nat)
    }
}

/// The serialized boolean `b`.
pub open spec fn spec_bool(b: bool) -> Seq<char> {
    if b {
        "true"@
    } else {
        "false"@
    }
}

/// How one character appears inside a serialized string: itself, unless
/// it needs one of the fixed two-character escapes, or a `\u00..` escape
/// for the remaining control characters.
pub open spec fn spec_escape_char(c: char) -> Seq<char> {
    if c == '"' {
        "\\\""@
    } else if c == '\\' {
        "\\\\"@
    } else if c == '\u{08}' {
        "\\b"@
    } else if c == '\t' {
        "\\t"@
    } else if c == '\n' {
        "\\n"@
    } else if c == '\u{0C}' {
        "\\f"@
    } else if c == '\r' {
        "\\r"@
    } else if (c as u32) < 32 {
        "\\u00"@ + spec_hex_digit((c as u32) as nat / 16) + spec_hex_digit((c as u32) as nat % 16)
    } else {
        seq![c]
    }
}

/// The body of a serialized string: each character escaped as needed.
pub open spec fn spec_escape(s: Seq<char>) -> Seq<char>
    decreases s.len(),
{
    if s.len() == 0 {
        Seq::<char>::empty()
    } else {
        spec_escape(s.drop_last()) + spec_escape_char(s.last())
    }
}

/// The serialized string `s`: quoted and escaped.
pub open spec fn spec_json_string(s: Seq<char>) -> Seq<char> {
    "\""@ + spec_escape(s) + "\""@
}

/// The elements of a serialized array or object body, separated by commas.
pub open spec fn spec_join_comma(xs: Seq<Seq<char>>) -> Seq<char>
    decreases xs.len(),
{
    if xs.len() == 0 {
        Seq::<char>::empty()
    } else if xs.len() == 1 {
        xs[0]
    } else {
        spec_join_comma(xs.drop_last()) + ","@ + xs.last()
    }
}

/// A serialized array of strings.
pub open spec fn spec_string_array(ss: Seq<String>) -> Seq<char> {
    "["@ + spec_join_comma(ss.map_values(|s: String| spec_json_string(s@))) + "]"@
}

// ---------------------------------------------------------------------
// The form of each configuration type.
// ---------------------------------------------------------------------

/// The serialized remote-console permission level.
pub open spec fn spec_permission_json(p: RconPermission) -> Seq<char> {
    match p {
        RconPermission::Admin => "\"admin\""@,
        RconPermission::Monitor => "\"monitor\""@,
    }
}

/// The serialized platform tag.
pub open spec fn spec_platform_json(p: GamePlatform) -> Seq<char> {
    match p {
        GamePlatform::PC => "\"PLATFORM_PC\""@,
        GamePlatform::XBL => "\"PLATFORM_XBL\""@,
        GamePlatform::PSN => "\"PLATFORM_PSN\""@,
    }
}

/// A serialized array of platform tags.
pub open spec fn spec_platform_array(ps: Seq<GamePlatform>) -> Seq<char> {
    "["@ + spec_join_comma(ps.map_values(|p: GamePlatform| spec_platform_json(p))) + "]"@
}

/// The serialized form of one mod entry.
pub open spec fn spec_mod_json(m: ModConfig) -> Seq<char> {
    "{\"modId\":"@ + spec_json_string(m.mod_id@) + ",\"name\":"@ + spec_json_string(m.name@)
        + ",\"required\":"@ + spec_bool(m.required) + "}"@
}

/// A serialized array of mod entries.
pub open spec fn spec_mod_array(ms: Seq<ModConfig>) -> Seq<char> {
    "["@ + spec_join_comma(ms.map_values(|m: ModConfig| spec_mod_json(m))) + "]"@
}

/// A serialized object of ordered key/value pairs.
pub open spec fn spec_header_json(es: Seq<(String, String)>) -> Seq<char> {
    "{"@ + spec_join_comma(
        es.map_values(
            |e: (String, String)| spec_json_string(e.0@) + ":"@ + spec_json_string(e.1@),
        ),
    ) + "}"@
}

/// The serialized query-protocol settings.
pub open spec fn spec_a2s_json(a: A2SConfig) -> Seq<char> {
    "{\"address\":"@ + spec_json_string(a.address@) + ",\"port\":"@ + spec_dec(a.port as nat)
        + "}"@
}

/// The serialized remote-console settings.
pub open spec fn spec_rcon_json(r: RconConfig) -> Seq<char> {
    "{\"address\":"@ + spec_json_string(r.address@) + ",\"port\":"@ + spec_dec(r.port as nat)
        + ",\"password\":"@ + spec_json_string(r.password@) + ",\"maxClients\":"@ + spec_dec(
        r.max_clients as nat,
    ) + ",\"permission\":"@ + spec_permission_json(r.permission) + ",\"blacklist\":"@
        + spec_string_array(r.blacklist@) + ",\"whitelist\":"@ + spec_string_array(r.whitelist@)
        + "}"@
}

/// The view-distance and validation fields of the behaviour switches.
pub open spec fn spec_game_properties_head(g: GameProperties) -> Seq<char> {
    "{\"serverMaxViewDistance\":"@ + spec_dec(g.server_max_view_distance as nat)
        + ",\"serverMinGrassDistance\":"@ + spec_dec(g.server_min_grass_distance as nat)
        + ",\"fastValidation\":"@ + spec_bool(g.fast_validation) + ",\"networkViewDistance\":"@
        + spec_dec(g.network_view_distance as nat)
}

/// The anti-cheat, camera and voice fields of the behaviour switches.
pub open spec fn spec_game_properties_tail(g: GameProperties) -> Seq<char> {
    ",\"battlEye\":"@ + spec_bool(g.battleye) + ",\"disableThirdPerson\":"@ + spec_bool(
        g.disable_third_person,
    ) + ",\"VONDisableUI\":"@ + spec_bool(g.von_disable_ui) + ",\"VONDisableDirectSpeechUI\":"@
        + spec_bool(g.von_disable_direct_speech_ui) + ",\"VONCanTransmitCrossFaction\":"@
        + spec_bool(g.von_can_transmit_cross_faction)
}

/// The fixed (always present) fields of the game behaviour switches.
pub open spec fn spec_game_properties_fields(g: GameProperties) -> Seq<char> {
    spec_game_properties_head(g) + spec_game_properties_tail(g)
}

/// The serialized game behaviour switches.
pub open spec fn spec_game_properties_json(g: GameProperties) -> Seq<char> {
    spec_game_properties_fields(g) + (match g.mission_header {
        Option::Some(m) => ",\"missionHeader\":"@ + spec_header_json(m@),
        Option::None => Seq::<char>::empty(),
    }) + "}"@
}

/// The administration and scenario fields of the session settings.
pub open spec fn spec_game_fields_head(g: GameConfig) -> Seq<char> {
    ",\"passwordAdmin\":"@ + spec_json_string(g.password_admin@) + ",\"admins\":"@
        + spec_string_array(g.admins@) + ",\"scenarioId\":"@ + spec_json_string(g.scenario_id@)
        + ",\"maxPlayers\":"@ + spec_dec(g.max_players as nat)
}

/// The visibility, platform and mod fields of the session settings.
pub open spec fn spec_game_fields_tail(g: GameConfig) -> Seq<char> {
    ",\"visible\":"@ + spec_bool(g.visible) + ",\"crossPlatform\":"@ + spec_bool(
        g.cross_platform,
    ) + ",\"supportedPlatforms\":"@ + spec_platform_array(g.supported_platforms@)
        + ",\"gameProperties\":"@ + spec_game_properties_json(g.game_properties)
        + ",\"modsRequiredByDefault\":"@ + spec_bool(g.mods_required_by_default) + ",\"mods\":"@
        + spec_mod_array(g.mods@) + "}"@
}

/// The fixed trailing fields of the game session settings.
pub open spec fn spec_game_fields(g: GameConfig) -> Seq<char> {
    spec_game_fields_head(g) + spec_game_fields_tail(g)
}

/// The serialized game session settings.
pub open spec fn spec_game_json(g: GameConfig) -> Seq<char> {
    "{\"name\":"@ + spec_json_string(g.name@) + (match g.password {
        Option::Some(p) => ",\"password\":"@ + spec_json_string(p@),
        Option::None => Seq::<char>::empty(),
    }) + spec_game_fields(g)
}

/// The serialized join-queue bounds.
pub open spec fn spec_join_queue_json(j: JoinQueueConfig) -> Seq<char> {
    "{\"maxSize\":"@ + spec_int_dec(j.max_size as int) + "}"@
}

/// The fixed trailing fields of the operating policy.
pub open spec fn spec_operating_fields(o: OperatingConfig) -> Seq<char> {
    ",\"disableServerShutdown\":"@ + spec_bool(o.disable_server_shutdown)
        + ",\"disableAI\":"@ + spec_bool(o.disable_ai) + ",\"playerSaveTime\":"@ + spec_int_dec(
        o.player_save_time as int,
    ) + ",\"aiLimit\":"@ + spec_int_dec(o.ai_limit as int) + ",\"slotReservationTimeout\":"@
        + spec_int_dec(o.slot_reservation_timeout as int) + ",\"joinQueue\":"@
        + spec_join_queue_json(o.join_queue) + "}"@
}

/// The serialized operating policy.
pub open spec fn spec_operating_json(o: OperatingConfig) -> Seq<char> {
    "{\"lobbyPlayerSynchronise\":"@ + spec_bool(o.lobby_player_synchronise)
        + ",\"disableCrashReporter\":"@ + spec_bool(o.disable_crash_reporter) + (
    match o.disable_navmesh_streaming {
        Option::Some(ns) => ",\"disableNavmeshStreaming\":"@ + spec_string_array(ns@),
        Option::None => Seq::<char>::empty(),
    }) + spec_operating_fields(o)
}

/// The fixed trailing fields of a whole server configuration.
pub open spec fn spec_server_config_fields(c: ServerConfig) -> Seq<char> {
    ",\"publicPort\":"@ + spec_dec(c.public_port as nat) + ",\"a2s\":"@ + spec_a2s_json(
        c.a2s,
    ) + ",\"rcon\":"@ + spec_rcon_json(c.rcon) + ",\"game\":"@ + spec_game_json(c.game)
        + ",\"operating\":"@ + spec_operating_json(c.operating) + "}"@
}

/// The canonical serialized form of a whole server configuration.
pub open spec fn spec_server_config_json(c: ServerConfig) -> Seq<char> {
    "{\"bindAddress\":"@ + spec_json_string(c.bind_address@) + (match c.bind_port {
        Option::Some(p) => ",\"bindPort\":"@ + spec_dec(p as nat),
        Option::None => Seq::<char>::empty(),
    }) + (match c.public_address {
        Option::Some(a) => ",\"publicAddress\":"@ + spec_json_string(a@),
        Option::None => Seq::<char>::empty(),
    }) + spec_server_config_fields(c)
}

// ---------------------------------------------------------------------
// The verified serializer.
// ---------------------------------------------------------------------

/// Concatenation of character sequences reassociates freely.
pub broadcast proof fn seq_char_assoc(a: Seq<char>, b: Seq<char>, c: Seq<char>)
    ensures
        #[trigger] ((a + b) + c) == a + (b + c),
{
    assert((a + b) + c =~= a + (b + c));
}

/// Relies on `String::push`: appends exactly the one character `c`.
#[verifier::external_body]
fn push_char(out: &mut String, c: char)
    ensures
        final(out)@ == old(out)@ + seq![c],
{
    out.push(c);
}

/// Appends the one decimal digit `d`.
fn write_digit(out: &mut String, d: u16)
    requires
        d < 10,
    ensures
        final(out)@ == old(out)@ + spec_digit(d as nat),
{
    match d {
        0 => out.append("0"),
        1 => out.append("1"),
        2 => out.append("2"),
        3 => out.append("3"),
        4 => out.append("4"),
        5 => out.append("5"),
        6 => out.append("6"),
        7 => out.append("7"),
        8 => out.append("8"),
        _ => out.append("9"),
    }
}

/// Appends the one lower-case hexadecimal digit `d`.
fn write_hex_digit(out: &mut String, d: u32)
    requires
        d < 16,
    ensures
        final(out)@ == old(out)@ + spec_hex_digit(d as nat),
{
    match d {
        0 => out.append("0"),
        1 => out.append("1"),
        2 => out.append("2"),
        3 => out.append("3"),
        4 => out.append("4"),
        5 => out.append("5"),
        6 => out.append("6"),
        7 => out.append("7"),
        8 => out.append("8"),
        9 => out.append("9"),
        10 => out.append("a"),
        11 => out.append("b"),
        12 => out.append("c"),
        13 => out.append("d"),
        14 => out.append("e"),
        _ => out.append("f"),
    }
}

/// Appends the decimal representation of `n`.
fn write_u16(out: &mut String, n: u16)
    ensures
        final(out)@ == old(out)@ + spec_dec(n as nat),
    decreases n,
{
    if n < 10 {
        write_digit(out, n);
    } else {
        write_u16(out, n / 10);
        write_digit(out, n % 10);
        proof {
            assert(out@ =~= old(out)@ + spec_dec(n as nat));
        }
    }
}

/// Appends the decimal representation of the signed `n`.
fn write_i16(out: &mut String, n: i16)
    ensures
        final(out)@ == old(out)@ + spec_int_dec(n as int),
{
    if n < 0 {
        out.append("-");
        let m: u16 = (-(n as i32)) as u16;
        assert(m as nat == (-(n as int)) as nat);
        write_u16(out, m);
        proof {
            assert(out@ =~= old(out)@ + spec_int_dec(n as int));
        }
    } else {
        write_u16(out, n as u16);
    }
}

/// Appends the serialized boolean `b`.
fn write_bool(out: &mut String, b: bool)
    ensures
        final(out)@ == old(out)@ + spec_bool(b),
{
    if b {
        out.append("true");
    } else {
        out.append("false");
    }
}

/// Appends one character of a string body, escaped as the form requires.
fn write_escaped_char(out: &mut String, c: char)
    ensures
        final(out)@ == old(out)@ + spec_escape_char(c),
{
    if c == '"' {
        out.append("\\\"");
    } else if c == '\\' {
        out.append("\\\\");
    } else if c == '\u{08}' {
        out.append("\\b");
    } else if c == '\t' {
        out.append("\\t");
    } else if c == '\n' {
        out.append("\\n");
    } else if c == '\u{0C}' {
        out.append("\\f");
    } else if c == '\r' {
        out.append("\\r");
    } else if (c as u32) < 32 {
        out.append("\\u00");
        write_hex_digit(out, (c as u32) / 16);
        write_hex_digit(out, (c as u32) % 16);
        proof {
            assert(out@ =~= old(out)@ + spec_escape_char(c));
        }
    } else {
        push_char(out, c);
    }
}

/// Appends the serialized string `s`: quoted and escaped.
fn write_json_string(out: &mut String, s: &str)
    ensures
        final(out)@ == old(out)@ + spec_json_string(s@),
{
    out.append("\"");
    let n = s.unicode_len();
    let mut i: usize = 0;
    while i < n
        invariant
            i <= n,
            n == s@.len(),
            out@ == old(out)@ + "\""@ + spec_escape(s@.take(i as int)),
        decreases n - i,
    {
        let c = s.get_char(i);
        write_escaped_char(out, c);
        proof {
            assert(s@.take(i + 1).drop_last() =~= s@.take(i as int));
            assert(s@.take(i + 1).last() == c);
            assert(out@ =~= old(out)@ + "\""@ + spec_escape(s@.take(i + 1)));
        }
        i += 1;
    }
    out.append("\"");
    proof {
        assert(s@.take(n as int) =~= s@);
        assert(out@ =~= old(out)@ + spec_json_string(s@));
    }
}

/// Appends a serialized array of strings.
fn write_string_array(out: &mut String, xs: &Vec<String>)
    ensures
        final(out)@ == old(out)@ + spec_string_array(xs@),
{
    let ghost ys = xs@.map_values(|s: String| spec_json_string(s@));
    out.append("[");
    let mut i: usize = 0;
    while i < xs.len()
        invariant
            i <= xs.len(),
            ys == xs@.map_values(|s: String| spec_json_string(s@)),
            out@ == old(out)@ + "["@ + spec_join_comma(ys.take(i as int)),
        decreases xs.len() - i,
    {
        if i > 0 {
            out.append(",");
        }
        write_json_string(out, xs[i].as_str());
        proof {
            lemma_join_step(ys, i as int);
            assert(ys[i as int] == spec_json_string(xs@[i as int]@));
            assert(out@ =~= old(out)@ + "["@ + spec_join_comma(ys.take(i + 1)));
        }
        i += 1;
    }
    out.append("]");
    proof {
        assert(ys.take(xs@.len() as int) =~= ys);
        assert(out@ =~= old(out)@ + spec_string_array(xs@));
    }
}

/// Appends one serialized platform tag.
fn write_platform(out: &mut String, p: &GamePlatform)
    ensures
        final(out)@ == old(out)@ + spec_platform_json(*p),
{
    match p {
        GamePlatform::PC => out.append("\"PLATFORM_PC\""),
        GamePlatform::XBL => out.append("\"PLATFORM_XBL\""),
        GamePlatform::PSN => out.append("\"PLATFORM_PSN\""),
    }
}

/// Appends a serialized array of platform tags.
fn write_platform_array(out: &mut String, xs: &Vec<GamePlatform>)
    ensures
        final(out)@ == old(out)@ + spec_platform_array(xs@),
{
    let ghost ys = xs@.map_values(|p: GamePlatform| spec_platform_json(p));
    out.append("[");
    let mut i: usize = 0;
    while i < xs.len()
        invariant
            i <= xs.len(),
            ys == xs@.map_values(|p: GamePlatform| spec_platform_json(p)),
            out@ == old(out)@ + "["@ + spec_join_comma(ys.take(i as int)),
        decreases xs.len() - i,
    {
        if i > 0 {
            out.append(",");
        }
        write_platform(out, &xs[i]);
        proof {
            lemma_join_step(ys, i as int);
            assert(out@ =~= old(out)@ + "["@ + spec_join_comma(ys.take(i + 1)));
        }
        i += 1;
    }
    out.append("]");
    proof {
        assert(ys.take(xs@.len() as int) =~= ys);
        assert(out@ =~= old(out)@ + spec_platform_array(xs@));
    }
}

/// Appends one serialized mod entry.
fn write_mod(out: &mut String, m: &ModConfig)
    ensures
        final(out)@ == old(out)@ + spec_mod_json(*m),
{
    out.append("{\"modId\":");
    write_json_string(out, m.mod_id.as_str());
    out.append(",\"name\":");
    write_json_string(out, m.name.as_str());
    out.append(",\"required\":");
    write_bool(out, m.required);
    out.append("}");
    proof {
        broadcast use seq_char_assoc;

        assert(out@ == old(out)@ + spec_mod_json(*m));
    }
}

/// Appends a serialized array of mod entries.
fn write_mod_array(out: &mut String, xs: &Vec<ModConfig>)
    ensures
        final(out)@ == old(out)@ + spec_mod_array(xs@),
{
    let ghost ys = xs@.map_values(|m: ModConfig| spec_mod_json(m));
    out.append("[");
    let mut i: usize = 0;
    while i < xs.len()
        invariant
            i <= xs.len(),
            ys == xs@.map_values(|m: ModConfig| spec_mod_json(m)),
            out@ == old(out)@ + "["@ + spec_join_comma(ys.take(i as int)),
        decreases xs.len() - i,
    {
        if i > 0 {
            out.append(",");
        }
        write_mod(out, &xs[i]);
        proof {
            lemma_join_step(ys, i as int);
            assert(out@ =~= old(out)@ + "["@ + spec_join_comma(ys.take(i + 1)));
        }
        i += 1;
    }
    out.append("]");
    proof {
        assert(ys.take(xs@.len() as int) =~= ys);
        assert(out@ =~= old(out)@ + spec_mod_array(xs@));
    }
}

/// Appends a serialized object of ordered key/value pairs.
fn write_header(out: &mut String, xs: &Vec<(String, String)>)
    ensures
        final(out)@ == old(out)@ + spec_header_json(xs@),
{
    let ghost ys = xs@.map_values(
        (|e: (String, String)| spec_json_string(e.0@) + ":"@ + spec_json_string(e.1@)),
    );
    out.append("{");
    let mut i: usize = 0;
    while i < xs.len()
        invariant
            i <= xs.len(),
            ys == xs@.map_values(
                (|e: (String, String)| spec_json_string(e.0@) + ":"@ + spec_json_string(e.1@)),
            ),
            out@ == old(out)@ + "{"@ + spec_join_comma(ys.take(i as int)),
        decreases xs.len() - i,
    {
        if i > 0 {
            out.append(",");
        }
        write_json_string(out, xs[i].0.as_str());
        out.append(":");
        write_json_string(out, xs[i].1.as_str());
        proof {
            lemma_join_step(ys, i as int);
            assert(out@ =~= old(out)@ + "{"@ + spec_join_comma(ys.take(i + 1)));
        }
        i += 1;
    }
    out.append("}");
    proof {
        assert(ys.take(xs@.len() as int) =~= ys);
        assert(out@ =~= old(out)@ + spec_header_json(xs@));
    }
}

/// Appends the serialized query-protocol settings.
fn write_a2s(out: &mut String, a: &A2SConfig)
    ensures
        final(out)@ == old(out)@ + spec_a2s_json(*a),
{
    out.append("{\"address\":");
    write_json_string(out, a.address.as_str());
    out.append(",\"port\":");
    write_u16(out, a.port);
    out.append("}");
    proof {
        broadcast use seq_char_assoc;

        assert(out@ == old(out)@ + spec_a2s_json(*a));
    }
}

/// Appends the serialized remote-console settings.
#[verifier::rlimit(100)]
fn write_rcon(out: &mut String, r: &RconConfig)
    ensures
        final(out)@ == old(out)@ + spec_rcon_json(*r),
{
    out.append("{\"address\":");
    write_json_string(out, r.address.as_str());
    out.append(",\"port\":");
    write_u16(out, r.port);
    out.append(",\"password\":");
    write_json_string(out, r.password.as_str());
    out.append(",\"maxClients\":");
    write_u16(out, r.max_clients);
    out.append(",\"permission\":");
    match &r.permission {
        RconPermission::Admin => out.append("\"admin\""),
        RconPermission::Monitor => out.append("\"monitor\""),
    }
    out.append(",\"blacklist\":");
    write_string_array(out, &r.blacklist);
    out.append(",\"whitelist\":");
    write_string_array(out, &r.whitelist);
    out.append("}");
    proof {
        broadcast use seq_char_assoc;

        assert(out@ == old(out)@ + spec_rcon_json(*r));
    }
}

/// Appends the view-distance and validation fields of the switches.
fn write_game_properties_head(out: &mut String, g: &GameProperties)
    ensures
        final(out)@ == old(out)@ + spec_game_properties_head(*g),
{
    out.append("{\"serverMaxViewDistance\":");
    write_u16(out, g.server_max_view_distance);
    out.append(",\"serverMinGrassDistance\":");
    write_u16(out, g.server_min_grass_distance);
    out.append(",\"fastValidation\":");
    write_bool(out, g.fast_validation);
    out.append(",\"networkViewDistance\":");
    write_u16(out, g.network_view_distance);
    proof {
        broadcast use seq_char_assoc;

        assert(out@ == old(out)@ + spec_game_properties_head(*g));
    }
}

/// Appends the anti-cheat, camera and voice fields of the switches.
#[verifier::rlimit(100)]
fn write_game_properties_tail(out: &mut String, g: &GameProperties)
    ensures
        final(out)@ == old(out)@ + spec_game_properties_tail(*g),
{
    out.append(",\"battlEye\":");
    write_bool(out, g.battleye);
    out.append(",\"disableThirdPerson\":");
    write_bool(out, g.disable_third_person);
    out.append(",\"VONDisableUI\":");
    write_bool(out, g.von_disable_ui);
    out.append(",\"VONDisableDirectSpeechUI\":");
    write_bool(out, g.von_disable_direct_speech_ui);
    out.append(",\"VONCanTransmitCrossFaction\":");
    write_bool(out, g.von_can_transmit_cross_faction);
    proof {
        broadcast use seq_char_assoc;

        assert(out@ == old(out)@ + spec_game_properties_tail(*g));
    }
}

/// Appends the fixed fields of the game behaviour switches.
fn write_game_properties_fields(out: &mut String, g: &GameProperties)
    ensures
        final(out)@ == old(out)@ + spec_game_properties_fields(*g),
{
    write_game_properties_head(out, g);
    write_game_properties_tail(out, g);
    proof {
        broadcast use seq_char_assoc;

        assert(out@ == old(out)@ + spec_game_properties_fields(*g));
    }
}

/// Appends the serialized game behaviour switches.
fn write_game_properties(out: &mut String, g: &GameProperties)
    ensures
        final(out)@ == old(out)@ + spec_game_properties_json(*g),
{
    write_game_properties_fields(out, g);
    match &g.mission_header {
        Option::Some(m) => {
            out.append(",\"missionHeader\":");
            write_header(out, m);
        },
        Option::None => {},
    }
    out.append("}");
    proof {
        broadcast use seq_char_assoc;

        assert(out@ == old(out)@ + spec_game_properties_json(*g));
    }
}

/// Appends the administration and scenario fields of the settings.
fn write_game_fields_head(out: &mut String, g: &GameConfig)
    ensures
        final(out)@ == old(out)@ + spec_game_fields_head(*g),
{
    out.append(",\"passwordAdmin\":");
    write_json_string(out, g.password_admin.as_str());
    out.append(",\"admins\":");
    write_string_array(out, &g.admins);
    out.append(",\"scenarioId\":");
    write_json_string(out, g.scenario_id.as_str());
    out.append(",\"maxPlayers\":");
    write_u16(out, g.max_players);
    proof {
        broadcast use seq_char_assoc;

        assert(out@ == old(out)@ + spec_game_fields_head(*g));
    }
}

/// Appends the visibility, platform and mod fields of the settings.
#[verifier::rlimit(100)]
fn write_game_fields_tail(out: &mut String, g: &GameConfig)
    ensures
        final(out)@ == old(out)@ + spec_game_fields_tail(*g),
{
    out.append(",\"visible\":");
    write_bool(out, g.visible);
    out.append(",\"crossPlatform\":");
    write_bool(out, g.cross_platform);
    proof {
        assert(out@ =~= old(out)@ + (",\"visible\":"@ + spec_bool(g.visible)
            + ",\"crossPlatform\":"@ + spec_bool(g.cross_platform)));
    }
    out.append(",\"supportedPlatforms\":");
    write_platform_array(out, &g.supported_platforms);
    out.append(",\"gameProperties\":");
    write_game_properties(out, &g.game_properties);
    proof {
        assert(out@ =~= old(out)@ + (",\"visible\":"@ + spec_bool(g.visible)
            + ",\"crossPlatform\":"@ + spec_bool(g.cross_platform)
            + ",\"supportedPlatforms\":"@ + spec_platform_array(g.supported_platforms@)
            + ",\"gameProperties\":"@ + spec_game_properties_json(g.game_properties)));
    }
    out.append(",\"modsRequiredByDefault\":");
    write_bool(out, g.mods_required_by_default);
    out.append(",\"mods\":");
    write_mod_array(out, &g.mods);
    out.append("}");
    proof {
        broadcast use seq_char_assoc;

        assert(out@ == old(out)@ + spec_game_fields_tail(*g));
    }
}

/// Appends the fixed trailing fields of the game session settings.
fn write_game_fields(out: &mut String, g: &GameConfig)
    ensures
        final(out)@ == old(out)@ + spec_game_fields(*g),
{
    write_game_fields_head(out, g);
    write_game_fields_tail(out, g);
    proof {
        broadcast use seq_char_assoc;

        assert(out@ == old(out)@ + spec_game_fields(*g));
    }
}

/// Appends the serialized game session settings.
fn write_game(out: &mut String, g: &GameConfig)
    ensures
        final(out)@ == old(out)@ + spec_game_json(*g),
{
    out.append("{\"name\":");
    write_json_string(out, g.name.as_str());
    match &g.password {
        Option::Some(p) => {
            out.append(",\"password\":");
            write_json_string(out, p.as_str());
        },
        Option::None => {},
    }
    write_game_fields(out, g);
    proof {
        broadcast use seq_char_assoc;

        assert(out@ == old(out)@ + spec_game_json(*g));
    }
}

/// Appends the fixed trailing fields of the operating policy.
#[verifier::rlimit(100)]
fn write_operating_fields(out: &mut String, o: &OperatingConfig)
    ensures
        final(out)@ == old(out)@ + spec_operating_fields(*o),
{
    out.append(",\"disableServerShutdown\":");
    write_bool(out, o.disable_server_shutdown);
    out.append(",\"disableAI\":");
    write_bool(out, o.disable_ai);
    out.append(",\"playerSaveTime\":");
    write_i16(out, o.player_save_time);
    out.append(",\"aiLimit\":");
    write_i16(out, o.ai_limit);
    out.append(",\"slotReservationTimeout\":");
    write_i16(out, o.slot_reservation_timeout);
    out.append(",\"joinQueue\":");
    out.append("{\"maxSize\":");
    write_i16(out, o.join_queue.max_size);
    out.append("}");
    out.append("}");
    proof {
        broadcast use seq_char_assoc;

        assert(out@ == old(out)@ + spec_operating_fields(*o));
    }
}

/// Appends the serialized operating policy.
fn write_operating(out: &mut String, o: &OperatingConfig)
    ensures
        final(out)@ == old(out)@ + spec_operating_json(*o),
{
    out.append("{\"lobbyPlayerSynchronise\":");
    write_bool(out, o.lobby_player_synchronise);
    out.append(",\"disableCrashReporter\":");
    write_bool(out, o.disable_crash_reporter);
    match &o.disable_navmesh_streaming {
        Option::Some(ns) => {
            out.append(",\"disableNavmeshStreaming\":");
            write_string_array(out, ns);
        },
        Option::None => {},
    }
    write_operating_fields(out, o);
    proof {
        broadcast use seq_char_assoc;

        assert(out@ == old(out)@ + spec_operating_json(*o));
    }
}

impl ServerConfig {
    /// The canonical serialized form of this configuration: the exact
    /// text written into the runtime environment.
    pub fn to_json(&self) -> (r: String)
        ensures
            r@ == spec_server_config_json(*self),
    {
        let ghost head = "{\"bindAddress\":"@ + spec_json_string(self.bind_address@);
        let ghost port_part = (match self.bind_port {
            Option::Some(p) => ",\"bindPort\":"@ + spec_dec(p as nat),
            Option::None => Seq::<char>::empty(),
        });
        let ghost addr_part = (if self.public_address is Some {
            ",\"publicAddress\":"@ + spec_json_string(self.public_address->0@)
        } else {
            Seq::<char>::empty()
        });
        let mut out = String::new();
        out.append("{\"bindAddress\":");
        write_json_string(&mut out, self.bind_address.as_str());
        proof {
            assert(out@ =~= head);
        }
        match self.bind_port {
            Option::Some(p) => {
                out.append(",\"bindPort\":");
                write_u16(&mut out, p);
            },
            Option::None => {},
        }
        proof {
            assert(out@ =~= head + port_part);
        }
        match &self.public_address {
            Option::Some(a) => {
                out.append(",\"publicAddress\":");
                write_json_string(&mut out, a.as_str());
            },
            Option::None => {},
        }
        proof {
            assert(out@ =~= head + port_part + addr_part);
        }
        write_server_config_fields(&mut out, self);
        proof {
            assert(out@ =~= spec_server_config_json(*self));
        }
        out
    }
}

/// Appends the fixed trailing fields of a whole server configuration.
#[verifier::rlimit(100)]
fn write_server_config_fields(out: &mut String, c: &ServerConfig)
    ensures
        final(out)@ == old(out)@ + spec_server_config_fields(*c),
{
    out.append(",\"publicPort\":");
    write_u16(out, c.public_port);
    out.append(",\"a2s\":");
    write_a2s(out, &c.a2s);
    out.append(",\"rcon\":");
    write_rcon(out, &c.rcon);
    out.append(",\"game\":");
    write_game(out, &c.game);
    out.append(",\"operating\":");
    write_operating(out, &c.operating);
    out.append("}");
    proof {
        broadcast use seq_char_assoc;

        assert(out@ == old(out)@ + spec_server_config_fields(*c));
    }
}

/// How `spec_join_comma` grows when one more element is appended.
proof fn lemma_join_step(xs: Seq<Seq<char>>, i: int)
    requires
        0 <= i < xs.len(),
    ensures
        i == 0 ==> spec_join_comma(xs.take(1)) == xs[0],
        i > 0 ==> spec_join_comma(xs.take(i + 1)) == spec_join_comma(xs.take(i)) + ","@ + xs[i],
{
    assert(xs.take(i + 1).drop_last() =~= xs.take(i));
    assert(xs.take(i + 1).last() == xs[i]);
    if i == 0 {
        assert(xs.take(1).len() == 1);
        assert(xs.take(1)[0] == xs[0]);
    }
}

// ---------------------------------------------------------------------
// The verified parser for the canonical form.
//
// Each parser consumes characters from `i` and, on success, returns
// the parsed value with the position after it, guaranteeing that the
// consumed text is exactly the canonical form of that value.  A parse
// can therefore never recover a value whose canonical form differs
// from the input; that every canonical text is accepted is checked by
// the round-trip tests.
// ---------------------------------------------------------------------

/// How a subrange splits at an interior point.
proof fn lemma_subrange_split(s: Seq<char>, i: int, k: int, j: int)
    requires
        0 <= i <= k <= j <= s.len(),
    ensures
        s.subrange(i, j) == s.subrange(i, k) + s.subrange(k, j),
{
    assert(s.subrange(i, j) =~= s.subrange(i, k) + s.subrange(k, j));
}

/// The characters of `s`, as an indexable vector.
fn to_chars(s: &str) -> (v: Vec<char>)
    ensures
        v@ == s@,
{
    let n = s.unicode_len();
    let mut v: Vec<char> = Vec::new();
    let mut i: usize = 0;
    while i < n
        invariant
            i <= n,
            n == s@.len(),
            v@ == s@.take(i as int),
        decreases n - i,
    {
        v.push(s.get_char(i));
        proof {
            assert(s@.take(i + 1) =~= s@.take(i as int).push(s@[i as int]));
        }
        i += 1;
    }
    proof {
        assert(s@.take(n as int) =~= s@);
    }
    v
}

/// Consumes exactly the literal `lit` at `i`, if it stands there.
fn expect_lit(v: &Vec<char>, i: usize, lit: &str) -> (r: Option<usize>)
    requires
        i <= v@.len(),
    ensures
        r matches Some(j) ==> i <= j <= v@.len() && j == i + lit@.len() && v@.subrange(
            i as int,
            j as int,
        ) == lit@,
{
    let m = lit.unicode_len();
    let n = v.len();
    if m > n - i {
        return None;
    }
    let mut k: usize = 0;
    while k < m
        invariant
            k <= m,
            m == lit@.len(),
            n == v@.len(),
            i + m <= n,
            forall|l: int| 0 <= l < k ==> v@[i + l] == lit@[l],
        decreases m - k,
    {
        if v[i + k] != lit.get_char(k) {
            return None;
        }
        k += 1;
    }
    proof {
        assert(v@.subrange(i as int, (i + m) as int) =~= lit@);
    }
    Some(i + m)
}

/// The numeric value of a decimal digit character, with its form.
fn digit_of(c: char) -> (r: Option<u16>)
    ensures
        r matches Some(d) ==> d < 10 && spec_digit(d as nat) == seq![c],
{
    proof {
        reveal_strlit("0");
        reveal_strlit("1");
        reveal_strlit("2");
        reveal_strlit("3");
        reveal_strlit("4");
        reveal_strlit("5");
        reveal_strlit("6");
        reveal_strlit("7");
        reveal_strlit("8");
        reveal_strlit("9");
    }
    match c {
        '0' => Some(0),
        '1' => Some(1),
        '2' => Some(2),
        '3' => Some(3),
        '4' => Some(4),
        '5' => Some(5),
        '6' => Some(6),
        '7' => Some(7),
        '8' => Some(8),
        '9' => Some(9),
        _ => None,
    }
}

/// Parses a decimal number without sign or leading zeros, bounded by
/// `bound`.
fn p_dec(v: &Vec<char>, i: usize, bound: u32) -> (r: Option<(u32, usize)>)
    requires
        i <= v@.len(),
        10 <= bound <= 65535,
    ensures
        r matches Some(p) ==> i <= p.1 <= v@.len() && p.0 <= bound && v@.subrange(
            i as int,
            p.1 as int,
        ) == spec_dec(p.0 as nat),
{
    if i >= v.len() {
        return None;
    }
    let d0 = match digit_of(v[i]) {
        Some(d) => d,
        None => { return None; },
    };
    if d0 == 0 {
        proof {
            assert(v@.subrange(i as int, (i + 1) as int) =~= seq![v@[i as int]]);
        }
        return Some((0, i + 1));
    }
    let mut n: u32 = d0 as u32;
    let mut j: usize = i + 1;
    proof {
        assert(v@.subrange(i as int, j as int) =~= seq![v@[i as int]]);
    }
    while j < v.len()
        invariant
            i < j <= v@.len(),
            1 <= n <= bound <= 65535,
            v@.subrange(i as int, j as int) == spec_dec(n as nat),
        decreases v@.len() - j,
    {
        let d = match digit_of(v[j]) {
            Some(d) => d,
            None => { break; },
        };
        let next: u32 = n * 10 + d as u32;
        if next > bound {
            return None;
        }
        proof {
            assert((n * 10 + d) as nat / 10 == n as nat && (n * 10 + d) as nat % 10
                == d as nat) by (nonlinear_arith)
                requires
                    d < 10,
                    n >= 1,
            ;
            assert(spec_dec(next as nat) == spec_dec(n as nat) + spec_digit(d as nat));
            lemma_subrange_split(v@, i as int, j as int, j + 1);
            assert(v@.subrange(j as int, (j + 1) as int) =~= seq![v@[j as int]]);
        }
        n = next;
        j += 1;
    }
    Some((n, j))
}

/// Parses a `u16` in canonical decimal form.
fn p_u16(v: &Vec<char>, i: usize) -> (r: Option<(u16, usize)>)
    requires
        i <= v@.len(),
    ensures
        r matches Some(p) ==> i <= p.1 <= v@.len() && v@.subrange(i as int, p.1 as int)
            == spec_dec(p.0 as nat),
{
    match p_dec(v, i, 65535) {
        Some((n, j)) => Some((n as u16, j)),
        None => None,
    }
}

/// Parses an `i16` in canonical decimal form: a minus sign admits no
/// zero and no value beyond the type's range.
fn p_i16(v: &Vec<char>, i: usize) -> (r: Option<(i16, usize)>)
    requires
        i <= v@.len(),
    ensures
        r matches Some(p) ==> i <= p.1 <= v@.len() && v@.subrange(i as int, p.1 as int)
            == spec_int_dec(p.0 as int),
{
    if i < v.len() && v[i] == '-' {
        proof {
            reveal_strlit("-");
        }
        match p_dec(v, i + 1, 32768) {
            Some((m, j)) => {
                if m == 0 {
                    None
                } else {
                    let x: i16 = (-(m as i32)) as i16;
                    proof {
                        assert(v@.subrange(i as int, (i + 1) as int) =~= "-"@);
                        lemma_subrange_split(v@, i as int, i + 1, j as int);
                        assert(x as int == -(m as int));
                    }
                    Some((x, j))
                }
            },
            None => None,
        }
    } else {
        match p_dec(v, i, 32767) {
            Some((n, j)) => Some((n as i16, j)),
            None => None,
        }
    }
}

/// Parses a serialized boolean.
fn p_bool(v: &Vec<char>, i: usize) -> (r: Option<(bool, usize)>)
    requires
        i <= v@.len(),
    ensures
        r matches Some(p) ==> i <= p.1 <= v@.len() && v@.subrange(i as int, p.1 as int)
            == spec_bool(p.0),
{
    match expect_lit(v, i, "true") {
        Some(j) => Some((true, j)),
        None => match expect_lit(v, i, "false") {
            Some(j) => Some((false, j)),
            None => None,
        },
    }
}

/// The control character with the given code, for the `\u00..` escapes.
fn control_char(code: u8) -> (r: Option<char>)
    ensures
        r matches Some(c) ==> c as u32 == code as u32 && (c as u32) < 32 && code != 8 && code
            != 9 && code != 10 && code != 12 && code != 13,
{
    match code {
        0x00 => Some('\u{00}'),
        0x01 => Some('\u{01}'),
        0x02 => Some('\u{02}'),
        0x03 => Some('\u{03}'),
        0x04 => Some('\u{04}'),
        0x05 => Some('\u{05}'),
        0x06 => Some('\u{06}'),
        0x07 => Some('\u{07}'),
        0x0b => Some('\u{0b}'),
        0x0e => Some('\u{0e}'),
        0x0f => Some('\u{0f}'),
        0x10 => Some('\u{10}'),
        0x11 => Some('\u{11}'),
        0x12 => Some('\u{12}'),
        0x13 => Some('\u{13}'),
        0x14 => Some('\u{14}'),
        0x15 => Some('\u{15}'),
        0x16 => Some('\u{16}'),
        0x17 => Some('\u{17}'),
        0x18 => Some('\u{18}'),
        0x19 => Some('\u{19}'),
        0x1a => Some('\u{1a}'),
        0x1b => Some('\u{1b}'),
        0x1c => Some('\u{1c}'),
        0x1d => Some('\u{1d}'),
        0x1e => Some('\u{1e}'),
        0x1f => Some('\u{1f}'),
        _ => None,
    }
}

/// The value of a lower-case hexadecimal digit, with its form.
fn hex_digit_of(c: char) -> (r: Option<u8>)
    ensures
        r matches Some(d) ==> d < 16 && spec_hex_digit(d as nat) == seq![c],
{
    proof {
        reveal_strlit("a");
        reveal_strlit("b");
        reveal_strlit("c");
        reveal_strlit("d");
        reveal_strlit("e");
        reveal_strlit("f");
    }
    match digit_of(c) {
        Some(d) => Some(d as u8),
        None => match c {
            'a' => Some(10),
            'b' => Some(11),
            'c' => Some(12),
            'd' => Some(13),
            'e' => Some(14),
            'f' => Some(15),
            _ => None,
        },
    }
}

/// Parses one character of a string body at `j`, unescaping the
/// canonical escapes, and appends it to `acc`.
fn p_string_char(v: &Vec<char>, j: usize, acc: &mut String) -> (r: Option<usize>)
    requires
        j < v@.len(),
        v@[j as int] != '"',
    ensures
        r matches Some(k) ==> j < k <= v@.len() && v@.subrange(j as int, k as int)
            == spec_escape_char(final(acc)@.last()) && final(acc)@.len() == old(acc)@.len() + 1
            && final(acc)@.drop_last() == old(acc)@,
{
    let n = v.len();
    let c = v[j];
    if c == '\\' {
        if j + 1 >= n {
            return None;
        }
        let e = v[j + 1];
        if e == '"' || e == '\\' || e == 'b' || e == 't' || e == 'n' || e == 'f' || e == 'r' {
            let un: char = if e == '"' {
                '"'
            } else if e == '\\' {
                '\\'
            } else if e == 'b' {
                '\u{08}'
            } else if e == 't' {
                '\t'
            } else if e == 'n' {
                '\n'
            } else if e == 'f' {
                '\u{0c}'
            } else {
                '\r'
            };
            push_char(acc, un);
            proof {
                reveal_strlit("\\\"");
                reveal_strlit("\\\\");
                reveal_strlit("\\b");
                reveal_strlit("\\t");
                reveal_strlit("\\n");
                reveal_strlit("\\f");
                reveal_strlit("\\r");
                assert(v@.subrange(j as int, (j + 2) as int) =~= seq![v@[j as int], v@[j + 1]]);
                assert(acc@.drop_last() =~= old(acc)@);
            }
            Some(j + 2)
        } else if e == 'u' {
            if n - j <= 5 {
                return None;
            }
            if v[j + 2] != '0' || v[j + 3] != '0' {
                return None;
            }
            let d1 = match hex_digit_of(v[j + 4]) {
                Some(d) => d,
                None => { return None; },
            };
            let d2 = match hex_digit_of(v[j + 5]) {
                Some(d) => d,
                None => { return None; },
            };
            let code: u8 = d1 * 16 + d2;
            let un = match control_char(code) {
                Some(c2) => c2,
                None => { return None; },
            };
            push_char(acc, un);
            proof {
                reveal_strlit("\\u00");
                assert(acc@.drop_last() =~= old(acc)@);
                assert((un as u32) / 16 == d1 as u32 && (un as u32) % 16 == d2 as u32);
                assert(spec_escape_char(un) == "\\u00"@ + spec_hex_digit(d1 as nat)
                    + spec_hex_digit(d2 as nat));
                assert(v@.subrange(j as int, (j + 6) as int) =~= seq![
                    v@[j as int],
                    v@[j + 1],
                    v@[j + 2],
                    v@[j + 3],
                    v@[j + 4],
                    v@[j + 5],
                ]);
                assert(("\\u00"@ + spec_hex_digit(d1 as nat) + spec_hex_digit(d2 as nat))
                    =~= seq![v@[j as int], v@[j + 1], v@[j + 2], v@[j + 3], v@[j + 4], v@[j + 5]]);
            }
            Some(j + 6)
        } else {
            None
        }
    } else {
        let cu = c as u32;
        if cu < 32 {
            return None;
        }
        push_char(acc, c);
        proof {
            assert(v@.subrange(j as int, (j + 1) as int) =~= seq![v@[j as int]]);
            assert(acc@.drop_last() =~= old(acc)@);
        }
        Some(j + 1)
    }
}

/// Parses a serialized string: quoted, with canonical escapes.
fn p_string(v: &Vec<char>, i: usize) -> (r: Option<(String, usize)>)
    requires
        i <= v@.len(),
    ensures
        r matches Some(p) ==> i <= p.1 <= v@.len() && v@.subrange(i as int, p.1 as int)
            == spec_json_string(p.0@),
{
    if i >= v.len() || v[i] != '"' {
        return None;
    }
    let mut acc = String::new();
    let mut j: usize = i + 1;
    proof {
        reveal_strlit("\"");
        assert(v@.subrange((i + 1) as int, (i + 1) as int) =~= spec_escape(acc@));
    }
    while j < v.len()
        invariant
            i < j <= v@.len(),
            v@[i as int] == '"',
            v@.subrange(i + 1, j as int) == spec_escape(acc@),
        decreases v@.len() - j,
    {
        if v[j] == '"' {
            proof {
                reveal_strlit("\"");
                assert(v@.subrange(i as int, (i + 1) as int) =~= "\""@);
                assert(v@.subrange(j as int, (j + 1) as int) =~= "\""@);
                lemma_subrange_split(v@, i as int, i + 1, j as int);
                lemma_subrange_split(v@, i as int, j as int, j + 1);
                broadcast use seq_char_assoc;

                assert(v@.subrange(i as int, (j + 1) as int) == spec_json_string(acc@));
            }
            return Some((acc, j + 1));
        }
        let ghost acc_old = acc@;
        let j2 = match p_string_char(v, j, &mut acc) {
            Some(k) => k,
            None => { return None; },
        };
        proof {
            lemma_subrange_split(v@, i + 1, j as int, j2 as int);
            assert(acc@ =~= acc_old.push(acc@.last()));
            assert(spec_escape(acc@) == spec_escape(acc_old) + spec_escape_char(acc@.last()));
        }
        j = j2;
    }
    None
}


/// Parses a serialized array of strings.
fn p_string_array(v: &Vec<char>, i: usize) -> (r: Option<(Vec<String>, usize)>)
    requires
        i <= v@.len(),
    ensures
        r matches Some(p) ==> i <= p.1 <= v@.len() && v@.subrange(i as int, p.1 as int)
            == spec_string_array(p.0@),
{
    let n = v.len();
    if i >= n || v[i] != '[' {
        return None;
    }
    proof {
        reveal_strlit("[");
        reveal_strlit("]");
        reveal_strlit(",");
        reveal_strlit("\"");
    }
    let mut xs: Vec<String> = Vec::new();
    let mut j: usize = i + 1;
    if j < n && v[j] == ']' {
        proof {
            assert(xs@.map_values(|q: String| spec_json_string(q@)) =~= Seq::<Seq<char>>::empty());
            assert(v@.subrange(i as int, (j + 1) as int) =~= "["@ + spec_join_comma(
                xs@.map_values(|q: String| spec_json_string(q@)),
            ) + "]"@);
        }
        return Some((xs, j + 1));
    }
    loop
        invariant
            i < j <= n,
            n == v@.len(),
            v@[i as int] == '[',
            xs@.len() == 0 ==> j == i + 1,
            xs@.len() > 0 ==> v@.subrange(i + 1, j as int) == spec_join_comma(
                xs@.map_values(|q: String| spec_json_string(q@)),
            ) + ","@,
        decreases n - j,
    {
        let ghost ys_old = xs@.map_values(|q: String| spec_json_string(q@));
        let parsed = match p_string(v, j) {
            Some(p) => p,
            None => {
                return None;
            },
        };
        let elem = parsed.0;
        let j2 = parsed.1;
        proof {
            reveal_strlit("\"");
            assert(spec_json_string(elem@).len() >= 2);
        }
        xs.push(elem);
        let ghost ys = xs@.map_values(|q: String| spec_json_string(q@));
        proof {
            broadcast use seq_char_assoc;
            broadcast use vstd::prelude::Seq::lemma_push_map_commute;

            assert(ys == ys_old.push(spec_json_string(xs@.last()@)));
            assert(ys.take(ys.len() as int - 1) =~= ys_old);
            lemma_join_step(ys, ys.len() as int - 1);
            lemma_subrange_split(v@, i + 1, j as int, j2 as int);
            assert(v@.subrange(i + 1, j2 as int) == spec_join_comma(ys));
        }
        if j2 < n && v[j2] == ',' {
            j = j2 + 1;
            proof {
                reveal_strlit(",");
                lemma_subrange_split(v@, i + 1, j2 as int, j as int);
                assert(v@.subrange(j2 as int, j as int) =~= ","@);
            }
        } else if j2 < n && v[j2] == ']' {
            proof {
                broadcast use seq_char_assoc;

                reveal_strlit("[");
                reveal_strlit("]");
                assert(v@.subrange(i as int, (i + 1) as int) =~= "["@);
                assert(v@.subrange(j2 as int, (j2 + 1) as int) =~= "]"@);
                lemma_subrange_split(v@, i as int, i + 1, j2 as int);
                lemma_subrange_split(v@, i as int, j2 as int, (j2 + 1) as int);
                assert(v@.subrange(i as int, (j2 + 1) as int) == spec_string_array(xs@));
            }
            return Some((xs, j2 + 1));
        } else {
            return None;
        }
    }
}


/// Parses a serialized platform tag.
fn p_platform(v: &Vec<char>, i: usize) -> (r: Option<(GamePlatform, usize)>)
    requires
        i <= v@.len(),
    ensures
        r matches Some(p) ==> i < p.1 <= v@.len() && v@.subrange(i as int, p.1 as int)
            == spec_platform_json(p.0),
{
    proof {
        reveal_strlit("\"PLATFORM_PC\"");
        reveal_strlit("\"PLATFORM_XBL\"");
        reveal_strlit("\"PLATFORM_PSN\"");
    }
    match expect_lit(v, i, "\"PLATFORM_PC\"") {
        Some(j) => Some((GamePlatform::PC, j)),
        None => match expect_lit(v, i, "\"PLATFORM_XBL\"") {
            Some(j) => Some((GamePlatform::XBL, j)),
            None => match expect_lit(v, i, "\"PLATFORM_PSN\"") {
                Some(j) => Some((GamePlatform::PSN, j)),
                None => None,
            },
        },
    }
}

/// Parses a serialized array of platform tags.
fn p_platform_array(v: &Vec<char>, i: usize) -> (r: Option<(Vec<GamePlatform>, usize)>)
    requires
        i <= v@.len(),
    ensures
        r matches Some(p) ==> i <= p.1 <= v@.len() && v@.subrange(i as int, p.1 as int)
            == spec_platform_array(p.0@),
{
    let n = v.len();
    if i >= n || v[i] != '[' {
        return None;
    }
    proof {
        reveal_strlit("[");
        reveal_strlit("]");
    }
    let mut xs: Vec<GamePlatform> = Vec::new();
    let mut j: usize = i + 1;
    if j < n && v[j] == ']' {
        proof {
            assert(xs@.map_values(|q: GamePlatform| spec_platform_json(q)) =~= Seq::<
                Seq<char>,
            >::empty());
            assert(v@.subrange(i as int, (j + 1) as int) =~= "["@ + spec_join_comma(
                xs@.map_values(|q: GamePlatform| spec_platform_json(q)),
            ) + "]"@);
        }
        return Some((xs, j + 1));
    }
    loop
        invariant
            i < j <= n,
            n == v@.len(),
            v@[i as int] == '[',
            xs@.len() == 0 ==> j == i + 1,
            xs@.len() > 0 ==> v@.subrange(i + 1, j as int) == spec_join_comma(
                xs@.map_values(|q: GamePlatform| spec_platform_json(q)),
            ) + ","@,
        decreases n - j,
    {
        let ghost ys_old = xs@.map_values(|q: GamePlatform| spec_platform_json(q));
        let parsed = match p_platform(v, j) {
            Some(p) => p,
            None => {
                return None;
            },
        };
        let elem = parsed.0;
        let j2 = parsed.1;
        xs.push(elem);
        let ghost ys = xs@.map_values(|q: GamePlatform| spec_platform_json(q));
        proof {
            broadcast use seq_char_assoc;
            broadcast use vstd::prelude::Seq::lemma_push_map_commute;

            assert(ys == ys_old.push(spec_platform_json(xs@.last())));
            assert(ys.take(ys.len() as int - 1) =~= ys_old);
            lemma_join_step(ys, ys.len() as int - 1);
            lemma_subrange_split(v@, i + 1, j as int, j2 as int);
            assert(v@.subrange(i + 1, j2 as int) == spec_join_comma(ys));
        }
        if j2 < n && v[j2] == ',' {
            j = j2 + 1;
            proof {
                reveal_strlit(",");
                lemma_subrange_split(v@, i + 1, j2 as int, j as int);
                assert(v@.subrange(j2 as int, j as int) =~= ","@);
            }
        } else if j2 < n && v[j2] == ']' {
            proof {
                broadcast use seq_char_assoc;

                reveal_strlit("[");
                reveal_strlit("]");
                assert(v@.subrange(i as int, (i + 1) as int) =~= "["@);
                assert(v@.subrange(j2 as int, (j2 + 1) as int) =~= "]"@);
                lemma_subrange_split(v@, i as int, i + 1, j2 as int);
                lemma_subrange_split(v@, i as int, j2 as int, (j2 + 1) as int);
                assert(v@.subrange(i as int, (j2 + 1) as int) == spec_platform_array(xs@));
            }
            return Some((xs, j2 + 1));
        } else {
            return None;
        }
    }
}

/// Parses one serialized mod entry.
fn p_mod(v: &Vec<char>, i: usize) -> (r: Option<(ModConfig, usize)>)
    requires
        i <= v@.len(),
    ensures
        r matches Some(p) ==> i < p.1 <= v@.len() && v@.subrange(i as int, p.1 as int)
            == spec_mod_json(p.0),
{
    let j1 = match expect_lit(v, i, "{\"modId\":") {
        Some(j) => j,
        None => {
            return None;
        },
    };
    let p1 = match p_string(v, j1) {
        Some(p) => p,
        None => {
            return None;
        },
    };
    let j2 = match expect_lit(v, p1.1, ",\"name\":") {
        Some(j) => j,
        None => {
            return None;
        },
    };
    let p2 = match p_string(v, j2) {
        Some(p) => p,
        None => {
            return None;
        },
    };
    let j3 = match expect_lit(v, p2.1, ",\"required\":") {
        Some(j) => j,
        None => {
            return None;
        },
    };
    let p3 = match p_bool(v, j3) {
        Some(p) => p,
        None => {
            return None;
        },
    };
    let j4 = match expect_lit(v, p3.1, "}") {
        Some(j) => j,
        None => {
            return None;
        },
    };
    let m = ModConfig { mod_id: p1.0, name: p2.0, required: p3.0 };
    proof {
        broadcast use seq_char_assoc;

        reveal_strlit("{\"modId\":");
        lemma_subrange_split(v@, i as int, j1 as int, p1.1 as int);
        lemma_subrange_split(v@, i as int, p1.1 as int, j2 as int);
        lemma_subrange_split(v@, i as int, j2 as int, p2.1 as int);
        lemma_subrange_split(v@, i as int, p2.1 as int, j3 as int);
        lemma_subrange_split(v@, i as int, j3 as int, p3.1 as int);
        lemma_subrange_split(v@, i as int, p3.1 as int, j4 as int);
        assert(v@.subrange(i as int, j4 as int) == spec_mod_json(m));
    }
    Some((m, j4))
}

/// Closes a parsed mod array: brackets around a complete joined body.
proof fn lemma_mod_array_close(v: Seq<char>, i: int, j2: int, xs: Seq<ModConfig>)
    requires
        0 <= i < j2 < v.len(),
        v[i] == '[',
        v[j2] == ']',
        v.subrange(i + 1, j2) == spec_join_comma(xs.map_values(|q: ModConfig| spec_mod_json(q))),
    ensures
        v.subrange(i, j2 + 1) == spec_mod_array(xs),
{
    broadcast use seq_char_assoc;

    reveal_strlit("[");
    reveal_strlit("]");
    assert(v.subrange(i, i + 1) =~= "["@);
    assert(v.subrange(j2, j2 + 1) =~= "]"@);
    lemma_subrange_split(v, i, i + 1, j2);
    lemma_subrange_split(v, i, j2, j2 + 1);
}

/// How the joined body of a mod array grows by its last element.
proof fn lemma_mod_array_step(v: Seq<char>, i: int, j: int, j2: int, xs: Seq<ModConfig>)
    requires
        0 <= i,
        i + 1 <= j <= j2 <= v.len(),
        xs.len() >= 1,
        xs.len() == 1 ==> j == i + 1,
        xs.len() > 1 ==> v.subrange(i + 1, j) == spec_join_comma(
            xs.drop_last().map_values(|q: ModConfig| spec_mod_json(q)),
        ) + ","@,
        v.subrange(j, j2) == spec_mod_json(xs.last()),
    ensures
        v.subrange(i + 1, j2) == spec_join_comma(xs.map_values(|q: ModConfig| spec_mod_json(q))),
{
    broadcast use seq_char_assoc;
    broadcast use vstd::prelude::Seq::lemma_push_map_commute;

    let ys = xs.map_values(|q: ModConfig| spec_mod_json(q));
    assert(xs =~= xs.drop_last().push(xs.last()));
    assert(ys == xs.drop_last().push(xs.last()).map_values(|q: ModConfig| spec_mod_json(q)));
    assert(ys.take(ys.len() as int - 1) =~= xs.drop_last().map_values(
        |q: ModConfig| spec_mod_json(q),
    ));
    lemma_join_step(ys, ys.len() as int - 1);
    lemma_subrange_split(v, i + 1, j, j2);
}

/// Parses a serialized array of mod entries.
#[verifier::rlimit(100)]
fn p_mod_array(v: &Vec<char>, i: usize) -> (r: Option<(Vec<ModConfig>, usize)>)
    requires
        i <= v@.len(),
    ensures
        r matches Some(p) ==> i <= p.1 <= v@.len() && v@.subrange(i as int, p.1 as int)
            == spec_mod_array(p.0@),
{
    let n = v.len();
    if i >= n || v[i] != '[' {
        return None;
    }
    proof {
        reveal_strlit("[");
        reveal_strlit("]");
    }
    let mut xs: Vec<ModConfig> = Vec::new();
    let mut j: usize = i + 1;
    if j < n && v[j] == ']' {
        proof {
            assert(xs@.map_values(|q: ModConfig| spec_mod_json(q)) =~= Seq::<Seq<char>>::empty());
            assert(v@.subrange(i as int, (j + 1) as int) =~= "["@ + spec_join_comma(
                xs@.map_values(|q: ModConfig| spec_mod_json(q)),
            ) + "]"@);
        }
        return Some((xs, j + 1));
    }
    loop
        invariant
            i < j <= n,
            n == v@.len(),
            v@[i as int] == '[',
            xs@.len() == 0 ==> j == i + 1,
            xs@.len() > 0 ==> v@.subrange(i + 1, j as int) == spec_join_comma(
                xs@.map_values(|q: ModConfig| spec_mod_json(q)),
            ) + ","@,
        decreases n - j,
    {
        let ghost ys_old = xs@.map_values(|q: ModConfig| spec_mod_json(q));
        let parsed = match p_mod(v, j) {
            Some(p) => p,
            None => {
                return None;
            },
        };
        let j2 = parsed.1;
        xs.push(parsed.0);
        proof {
            assert(xs@.drop_last() =~= xs@.take(xs@.len() - 1));
            assert(xs@.drop_last().map_values(|q: ModConfig| spec_mod_json(q)) =~= ys_old);
            lemma_mod_array_step(v@, i as int, j as int, j2 as int, xs@);
        }
        if j2 < n && v[j2] == ',' {
            j = j2 + 1;
            proof {
                reveal_strlit(",");
                lemma_subrange_split(v@, i + 1, j2 as int, j as int);
                assert(v@.subrange(j2 as int, j as int) =~= ","@);
            }
        } else if j2 < n && v[j2] == ']' {
            proof {
                lemma_mod_array_close(v@, i as int, j2 as int, xs@);
            }
            return Some((xs, j2 + 1));
        } else {
            return None;
        }
    }
}

/// Parses a serialized object of ordered key/value pairs.
#[verifier::rlimit(100)]
fn p_header(v: &Vec<char>, i: usize) -> (r: Option<(Vec<(String, String)>, usize)>)
    requires
        i <= v@.len(),
    ensures
        r matches Some(p) ==> i <= p.1 <= v@.len() && v@.subrange(i as int, p.1 as int)
            == spec_header_json(p.0@),
{
    let n = v.len();
    if i >= n || v[i] != '{' {
        return None;
    }
    proof {
        reveal_strlit("{");
        reveal_strlit("}");
    }
    let mut xs: Vec<(String, String)> = Vec::new();
    let mut j: usize = i + 1;
    if j < n && v[j] == '}' {
        proof {
            assert(xs@.map_values(
                (|e: (String, String)| spec_json_string(e.0@) + ":"@ + spec_json_string(e.1@)),
            ) =~= Seq::<Seq<char>>::empty());
            assert(v@.subrange(i as int, (j + 1) as int) =~= "{"@ + spec_join_comma(
                xs@.map_values(
                    (|e: (String, String)| spec_json_string(e.0@) + ":"@ + spec_json_string(
                        e.1@,
                    )),
                ),
            ) + "}"@);
        }
        return Some((xs, j + 1));
    }
    loop
        invariant
            i < j <= n,
            n == v@.len(),
            v@[i as int] == '{',
            xs@.len() == 0 ==> j == i + 1,
            xs@.len() > 0 ==> v@.subrange(i + 1, j as int) == spec_join_comma(
                xs@.map_values(
                    (|e: (String, String)| spec_json_string(e.0@) + ":"@ + spec_json_string(
                        e.1@,
                    )),
                ),
            ) + ","@,
        decreases n - j,
    {
        let ghost ys_old = xs@.map_values(
            (|e: (String, String)| spec_json_string(e.0@) + ":"@ + spec_json_string(e.1@)),
        );
        let pk = match p_string(v, j) {
            Some(p) => p,
            None => {
                return None;
            },
        };
        let jc = match expect_lit(v, pk.1, ":") {
            Some(k) => k,
            None => {
                return None;
            },
        };
        let pv = match p_string(v, jc) {
            Some(p) => p,
            None => {
                return None;
            },
        };
        let j2 = pv.1;
        proof {
            reveal_strlit("\"");
        }
        xs.push((pk.0, pv.0));
        let ghost ys = xs@.map_values(
            (|e: (String, String)| spec_json_string(e.0@) + ":"@ + spec_json_string(e.1@)),
        );
        proof {
            broadcast use seq_char_assoc;
            broadcast use vstd::prelude::Seq::lemma_push_map_commute;

            assert(ys == ys_old.push(
                spec_json_string(xs@.last().0@) + ":"@ + spec_json_string(xs@.last().1@),
            ));
            assert(ys.take(ys.len() as int - 1) =~= ys_old);
            lemma_join_step(ys, ys.len() as int - 1);
            lemma_subrange_split(v@, j as int, pk.1 as int, jc as int);
            lemma_subrange_split(v@, j as int, jc as int, j2 as int);
            lemma_subrange_split(v@, i + 1, j as int, j2 as int);
            assert(v@.subrange(i + 1, j2 as int) == spec_join_comma(ys));
        }
        if j2 < n && v[j2] == ',' {
            j = j2 + 1;
            proof {
                reveal_strlit(",");
                lemma_subrange_split(v@, i + 1, j2 as int, j as int);
                assert(v@.subrange(j2 as int, j as int) =~= ","@);
            }
        } else if j2 < n && v[j2] == '}' {
            proof {
                broadcast use seq_char_assoc;

                reveal_strlit("{");
                reveal_strlit("}");
                assert(v@.subrange(i as int, (i + 1) as int) =~= "{"@);
                assert(v@.subrange(j2 as int, (j2 + 1) as int) =~= "}"@);
                lemma_subrange_split(v@, i as int, i + 1, j2 as int);
                lemma_subrange_split(v@, i as int, j2 as int, (j2 + 1) as int);
                assert(v@.subrange(i as int, (j2 + 1) as int) == spec_header_json(xs@));
            }
            return Some((xs, j2 + 1));
        } else {
            return None;
        }
    }
}


/// Parses the serialized remote-console permission level.
fn p_permission(v: &Vec<char>, i: usize) -> (r: Option<(RconPermission, usize)>)
    requires
        i <= v@.len(),
    ensures
        r matches Some(p) ==> i <= p.1 <= v@.len() && v@.subrange(i as int, p.1 as int)
            == spec_permission_json(p.0),
{
    match expect_lit(v, i, "\"admin\"") {
        Some(j) => Some((RconPermission::Admin, j)),
        None => match expect_lit(v, i, "\"monitor\"") {
            Some(j) => Some((RconPermission::Monitor, j)),
            None => None,
        },
    }
}

/// Parses the serialized query-protocol settings.
fn p_a2s(v: &Vec<char>, i: usize) -> (r: Option<(A2SConfig, usize)>)
    requires
        i <= v@.len(),
    ensures
        r matches Some(p) ==> i <= p.1 <= v@.len() && v@.subrange(i as int, p.1 as int)
            == spec_a2s_json(p.0),
{
    let j1 = match expect_lit(v, i, "{\"address\":") {
        Some(j) => j,
        None => {
            return None;
        },
    };
    let p1 = match p_string(v, j1) {
        Some(p) => p,
        None => {
            return None;
        },
    };
    let j2 = match expect_lit(v, p1.1, ",\"port\":") {
        Some(j) => j,
        None => {
            return None;
        },
    };
    let p2 = match p_u16(v, j2) {
        Some(p) => p,
        None => {
            return None;
        },
    };
    let j3 = match expect_lit(v, p2.1, "}") {
        Some(j) => j,
        None => {
            return None;
        },
    };
    let a = A2SConfig { address: p1.0, port: p2.0 };
    proof {
        broadcast use seq_char_assoc;

        lemma_subrange_split(v@, i as int, j1 as int, p1.1 as int);
        lemma_subrange_split(v@, i as int, p1.1 as int, j2 as int);
        lemma_subrange_split(v@, i as int, j2 as int, p2.1 as int);
        lemma_subrange_split(v@, i as int, p2.1 as int, j3 as int);
        assert(v@.subrange(i as int, j3 as int) == spec_a2s_json(a));
    }
    Some((a, j3))
}

/// Parses the serialized remote-console settings.
#[verifier::rlimit(100)]
fn p_rcon(v: &Vec<char>, i: usize) -> (r: Option<(RconConfig, usize)>)
    requires
        i <= v@.len(),
    ensures
        r matches Some(p) ==> i <= p.1 <= v@.len() && v@.subrange(i as int, p.1 as int)
            == spec_rcon_json(p.0),
{
    let j1 = match expect_lit(v, i, "{\"address\":") {
        Some(j) => j,
        None => {
            return None;
        },
    };
    let p1 = match p_string(v, j1) {
        Some(p) => p,
        None => {
            return None;
        },
    };
    let j2 = match expect_lit(v, p1.1, ",\"port\":") {
        Some(j) => j,
        None => {
            return None;
        },
    };
    let p2 = match p_u16(v, j2) {
        Some(p) => p,
        None => {
            return None;
        },
    };
    let j3 = match expect_lit(v, p2.1, ",\"password\":") {
        Some(j) => j,
        None => {
            return None;
        },
    };
    let p3 = match p_string(v, j3) {
        Some(p) => p,
        None => {
            return None;
        },
    };
    let j4 = match expect_lit(v, p3.1, ",\"maxClients\":") {
        Some(j) => j,
        None => {
            return None;
        },
    };
    let p4 = match p_u16(v, j4) {
        Some(p) => p,
        None => {
            return None;
        },
    };
    let j5 = match expect_lit(v, p4.1, ",\"permission\":") {
        Some(j) => j,
        None => {
            return None;
        },
    };
    let p5 = match p_permission(v, j5) {
        Some(p) => p,
        None => {
            return None;
        },
    };
    let j6 = match expect_lit(v, p5.1, ",\"blacklist\":") {
        Some(j) => j,
        None => {
            return None;
        },
    };
    let p6 = match p_string_array(v, j6) {
        Some(p) => p,
        None => {
            return None;
        },
    };
    let j7 = match expect_lit(v, p6.1, ",\"whitelist\":") {
        Some(j) => j,
        None => {
            return None;
        },
    };
    let p7 = match p_string_array(v, j7) {
        Some(p) => p,
        None => {
            return None;
        },
    };
    let j8 = match expect_lit(v, p7.1, "}") {
        Some(j) => j,
        None => {
            return None;
        },
    };
    let c = RconConfig {
        address: p1.0,
        port: p2.0,
        password: p3.0,
        max_clients: p4.0,
        permission: p5.0,
        blacklist: p6.0,
        whitelist: p7.0,
    };
    proof {
        broadcast use seq_char_assoc;

        lemma_subrange_split(v@, i as int, j1 as int, p1.1 as int);
        lemma_subrange_split(v@, i as int, p1.1 as int, j2 as int);
        lemma_subrange_split(v@, i as int, j2 as int, p2.1 as int);
        lemma_subrange_split(v@, i as int, p2.1 as int, j3 as int);
        lemma_subrange_split(v@, i as int, j3 as int, p3.1 as int);
        lemma_subrange_split(v@, i as int, p3.1 as int, j4 as int);
        lemma_subrange_split(v@, i as int, j4 as int, p4.1 as int);
        lemma_subrange_split(v@, i as int, p4.1 as int, j5 as int);
        lemma_subrange_split(v@, i as int, j5 as int, p5.1 as int);
        lemma_subrange_split(v@, i as int, p5.1 as int, j6 as int);
        lemma_subrange_split(v@, i as int, j6 as int, p6.1 as int);
        lemma_subrange_split(v@, i as int, p6.1 as int, j7 as int);
        lemma_subrange_split(v@, i as int, j7 as int, p7.1 as int);
        lemma_subrange_split(v@, i as int, p7.1 as int, j8 as int);
        assert(v@.subrange(i as int, j8 as int) == spec_rcon_json(c));
    }
    Some((c, j8))
}

/// Parses the serialized game behaviour switches.
#[verifier::rlimit(100)]
fn p_game_properties(v: &Vec<char>, i: usize) -> (r: Option<(GameProperties, usize)>)
    requires
        i <= v@.len(),
    ensures
        r matches Some(p) ==> i <= p.1 <= v@.len() && v@.subrange(i as int, p.1 as int)
            == spec_game_properties_json(p.0),
{
    let j1 = match expect_lit(v, i, "{\"serverMaxViewDistance\":") {
        Some(j) => j,
        None => { return None; },
    };
    let p1 = match p_u16(v, j1) {
        Some(p) => p,
        None => { return None; },
    };
    let j2 = match expect_lit(v, p1.1, ",\"serverMinGrassDistance\":") {
        Some(j) => j,
        None => { return None; },
    };
    let p2 = match p_u16(v, j2) {
        Some(p) => p,
        None => { return None; },
    };
    let j3 = match expect_lit(v, p2.1, ",\"fastValidation\":") {
        Some(j) => j,
        None => { return None; },
    };
    let p3 = match p_bool(v, j3) {
        Some(p) => p,
        None => { return None; },
    };
    let j4 = match expect_lit(v, p3.1, ",\"networkViewDistance\":") {
        Some(j) => j,
        None => { return None; },
    };
    let p4 = match p_u16(v, j4) {
        Some(p) => p,
        None => { return None; },
    };
    let j5 = match expect_lit(v, p4.1, ",\"battlEye\":") {
        Some(j) => j,
        None => { return None; },
    };
    let p5 = match p_bool(v, j5) {
        Some(p) => p,
        None => { return None; },
    };
    let j6 = match expect_lit(v, p5.1, ",\"disableThirdPerson\":") {
        Some(j) => j,
        None => { return None; },
    };
    let p6 = match p_bool(v, j6) {
        Some(p) => p,
        None => { return None; },
    };
    let j7 = match expect_lit(v, p6.1, ",\"VONDisableUI\":") {
        Some(j) => j,
        None => { return None; },
    };
    let p7 = match p_bool(v, j7) {
        Some(p) => p,
        None => { return None; },
    };
    let j8 = match expect_lit(v, p7.1, ",\"VONDisableDirectSpeechUI\":") {
        Some(j) => j,
        None => { return None; },
    };
    let p8 = match p_bool(v, j8) {
        Some(p) => p,
        None => { return None; },
    };
    let j9 = match expect_lit(v, p8.1, ",\"VONCanTransmitCrossFaction\":") {
        Some(j) => j,
        None => { return None; },
    };
    let p9 = match p_bool(v, j9) {
        Some(p) => p,
        None => { return None; },
    };
    let mh = match expect_lit(v, p9.1, ",\"missionHeader\":") {
        Some(k) => {
            let p = match p_header(v, k) {
                Some(p) => p,
                None => { return None; },
            };
            proof {
                lemma_subrange_split(v@, p9.1 as int, k as int, p.1 as int);
                assert(v@.subrange(p9.1 as int, p.1 as int) == ",\"missionHeader\":"@
                    + spec_header_json(p.0@));
            }
            (Some(p.0), p.1)
        },
        None => {
            proof {
                assert(v@.subrange(p9.1 as int, p9.1 as int) =~= Seq::<char>::empty());
            }
            (None, p9.1)
        },
    };
    let j10 = match expect_lit(v, mh.1, "}") {
        Some(j) => j,
        None => { return None; },
    };
    let g = GameProperties {
        server_max_view_distance: p1.0,
        server_min_grass_distance: p2.0,
        fast_validation: p3.0,
        network_view_distance: p4.0,
        battleye: p5.0,
        disable_third_person: p6.0,
        von_disable_ui: p7.0,
        von_disable_direct_speech_ui: p8.0,
        von_can_transmit_cross_faction: p9.0,
        mission_header: mh.0,
    };
    proof {
        lemma_subrange_split(v@, i as int, j1 as int, p1.1 as int);
        lemma_subrange_split(v@, i as int, p1.1 as int, j2 as int);
        lemma_subrange_split(v@, i as int, j2 as int, p2.1 as int);
        lemma_subrange_split(v@, i as int, p2.1 as int, j3 as int);
        lemma_subrange_split(v@, i as int, j3 as int, p3.1 as int);
        lemma_subrange_split(v@, i as int, p3.1 as int, j4 as int);
        lemma_subrange_split(v@, i as int, j4 as int, p4.1 as int);
        assert(v@.subrange(i as int, p4.1 as int) == spec_game_properties_head(g));
        lemma_subrange_split(v@, p4.1 as int, j5 as int, p5.1 as int);
        lemma_subrange_split(v@, p4.1 as int, p5.1 as int, j6 as int);
        lemma_subrange_split(v@, p4.1 as int, j6 as int, p6.1 as int);
        lemma_subrange_split(v@, p4.1 as int, p6.1 as int, j7 as int);
        lemma_subrange_split(v@, p4.1 as int, j7 as int, p7.1 as int);
        lemma_subrange_split(v@, p4.1 as int, p7.1 as int, j8 as int);
        lemma_subrange_split(v@, p4.1 as int, j8 as int, p8.1 as int);
        lemma_subrange_split(v@, p4.1 as int, p8.1 as int, j9 as int);
        lemma_subrange_split(v@, p4.1 as int, j9 as int, p9.1 as int);
        assert(v@.subrange(p4.1 as int, p9.1 as int) == spec_game_properties_tail(g));
        lemma_subrange_split(v@, i as int, p4.1 as int, p9.1 as int);
        assert(v@.subrange(i as int, p9.1 as int) == spec_game_properties_fields(g));
        lemma_subrange_split(v@, i as int, p9.1 as int, mh.1 as int);
        lemma_subrange_split(v@, i as int, mh.1 as int, j10 as int);
        assert(v@.subrange(i as int, j10 as int) == spec_game_properties_json(g));
    }
    Some((g, j10))
}

/// Parses the serialized game session settings.
#[verifier::rlimit(100)]
fn p_game(v: &Vec<char>, i: usize) -> (r: Option<(GameConfig, usize)>)
    requires
        i <= v@.len(),
    ensures
        r matches Some(p) ==> i <= p.1 <= v@.len() && v@.subrange(i as int, p.1 as int)
            == spec_game_json(p.0),
{
    let j1 = match expect_lit(v, i, "{\"name\":") {
        Some(j) => j,
        None => { return None; },
    };
    let p1 = match p_string(v, j1) {
        Some(p) => p,
        None => { return None; },
    };
    let pw = match expect_lit(v, p1.1, ",\"password\":") {
        Some(k) => {
            let p = match p_string(v, k) {
                Some(p) => p,
                None => { return None; },
            };
            proof {
                lemma_subrange_split(v@, p1.1 as int, k as int, p.1 as int);
                assert(v@.subrange(p1.1 as int, p.1 as int) == ",\"password\":"@
                    + spec_json_string(p.0@));
            }
            (Some(p.0), p.1)
        },
        None => {
            proof {
                assert(v@.subrange(p1.1 as int, p1.1 as int) =~= Seq::<char>::empty());
            }
            (None, p1.1)
        },
    };
    let j2 = match expect_lit(v, pw.1, ",\"passwordAdmin\":") {
        Some(j) => j,
        None => { return None; },
    };
    let p2 = match p_string(v, j2) {
        Some(p) => p,
        None => { return None; },
    };
    let j3 = match expect_lit(v, p2.1, ",\"admins\":") {
        Some(j) => j,
        None => { return None; },
    };
    let p3 = match p_string_array(v, j3) {
        Some(p) => p,
        None => { return None; },
    };
    let j4 = match expect_lit(v, p3.1, ",\"scenarioId\":") {
        Some(j) => j,
        None => { return None; },
    };
    let p4 = match p_string(v, j4) {
        Some(p) => p,
        None => { return None; },
    };
    let j5 = match expect_lit(v, p4.1, ",\"maxPlayers\":") {
        Some(j) => j,
        None => { return None; },
    };
    let p5 = match p_u16(v, j5) {
        Some(p) => p,
        None => { return None; },
    };
    let j6 = match expect_lit(v, p5.1, ",\"visible\":") {
        Some(j) => j,
        None => { return None; },
    };
    let p6 = match p_bool(v, j6) {
        Some(p) => p,
        None => { return None; },
    };
    let j7 = match expect_lit(v, p6.1, ",\"crossPlatform\":") {
        Some(j) => j,
        None => { return None; },
    };
    let p7 = match p_bool(v, j7) {
        Some(p) => p,
        None => { return None; },
    };
    let j8 = match expect_lit(v, p7.1, ",\"supportedPlatforms\":") {
        Some(j) => j,
        None => { return None; },
    };
    let p8 = match p_platform_array(v, j8) {
        Some(p) => p,
        None => { return None; },
    };
    let j9 = match expect_lit(v, p8.1, ",\"gameProperties\":") {
        Some(j) => j,
        None => { return None; },
    };
    let p9 = match p_game_properties(v, j9) {
        Some(p) => p,
        None => { return None; },
    };
    let j10 = match expect_lit(v, p9.1, ",\"modsRequiredByDefault\":") {
        Some(j) => j,
        None => { return None; },
    };
    let p10 = match p_bool(v, j10) {
        Some(p) => p,
        None => { return None; },
    };
    let j11 = match expect_lit(v, p10.1, ",\"mods\":") {
        Some(j) => j,
        None => { return None; },
    };
    let p11 = match p_mod_array(v, j11) {
        Some(p) => p,
        None => { return None; },
    };
    let j12 = match expect_lit(v, p11.1, "}") {
        Some(j) => j,
        None => { return None; },
    };
    let g = GameConfig {
        name: p1.0,
        password: pw.0,
        password_admin: p2.0,
        admins: p3.0,
        scenario_id: p4.0,
        max_players: p5.0,
        visible: p6.0,
        cross_platform: p7.0,
        supported_platforms: p8.0,
        game_properties: p9.0,
        mods_required_by_default: p10.0,
        mods: p11.0,
    };
    proof {
        lemma_subrange_split(v@, pw.1 as int, j2 as int, p2.1 as int);
        lemma_subrange_split(v@, pw.1 as int, p2.1 as int, j3 as int);
        lemma_subrange_split(v@, pw.1 as int, j3 as int, p3.1 as int);
        lemma_subrange_split(v@, pw.1 as int, p3.1 as int, j4 as int);
        lemma_subrange_split(v@, pw.1 as int, j4 as int, p4.1 as int);
        lemma_subrange_split(v@, pw.1 as int, p4.1 as int, j5 as int);
        lemma_subrange_split(v@, pw.1 as int, j5 as int, p5.1 as int);
        assert(v@.subrange(pw.1 as int, p5.1 as int) == spec_game_fields_head(g));
        lemma_subrange_split(v@, p5.1 as int, j6 as int, p6.1 as int);
        lemma_subrange_split(v@, p5.1 as int, p6.1 as int, j7 as int);
        lemma_subrange_split(v@, p5.1 as int, j7 as int, p7.1 as int);
        lemma_subrange_split(v@, p5.1 as int, p7.1 as int, j8 as int);
        lemma_subrange_split(v@, p5.1 as int, j8 as int, p8.1 as int);
        lemma_subrange_split(v@, p5.1 as int, p8.1 as int, j9 as int);
        lemma_subrange_split(v@, p5.1 as int, j9 as int, p9.1 as int);
        lemma_subrange_split(v@, p5.1 as int, p9.1 as int, j10 as int);
        lemma_subrange_split(v@, p5.1 as int, j10 as int, p10.1 as int);
        lemma_subrange_split(v@, p5.1 as int, p10.1 as int, j11 as int);
        lemma_subrange_split(v@, p5.1 as int, j11 as int, p11.1 as int);
        lemma_subrange_split(v@, p5.1 as int, p11.1 as int, j12 as int);
        assert(v@.subrange(p5.1 as int, j12 as int) == spec_game_fields_tail(g));
        lemma_subrange_split(v@, pw.1 as int, p5.1 as int, j12 as int);
        assert(v@.subrange(pw.1 as int, j12 as int) == spec_game_fields(g));
        lemma_subrange_split(v@, i as int, j1 as int, p1.1 as int);
        lemma_subrange_split(v@, i as int, p1.1 as int, pw.1 as int);
        lemma_subrange_split(v@, i as int, pw.1 as int, j12 as int);
        assert(v@.subrange(i as int, j12 as int) == spec_game_json(g));
    }
    Some((g, j12))
}

/// Parses the serialized operating policy.
#[verifier::rlimit(100)]
fn p_operating(v: &Vec<char>, i: usize) -> (r: Option<(OperatingConfig, usize)>)
    requires
        i <= v@.len(),
    ensures
        r matches Some(p) ==> i <= p.1 <= v@.len() && v@.subrange(i as int, p.1 as int)
            == spec_operating_json(p.0),
{
    let j1 = match expect_lit(v, i, "{\"lobbyPlayerSynchronise\":") {
        Some(j) => j,
        None => { return None; },
    };
    let p1 = match p_bool(v, j1) {
        Some(p) => p,
        None => { return None; },
    };
    let j2 = match expect_lit(v, p1.1, ",\"disableCrashReporter\":") {
        Some(j) => j,
        None => { return None; },
    };
    let p2 = match p_bool(v, j2) {
        Some(p) => p,
        None => { return None; },
    };
    let ns = match expect_lit(v, p2.1, ",\"disableNavmeshStreaming\":") {
        Some(k) => {
            let p = match p_string_array(v, k) {
                Some(p) => p,
                None => { return None; },
            };
            proof {
                broadcast use seq_char_assoc;

                lemma_subrange_split(v@, p2.1 as int, k as int, p.1 as int);
                assert(v@.subrange(p2.1 as int, p.1 as int) == ",\"disableNavmeshStreaming\":"@
                    + spec_string_array(p.0@));
            }
            (Some(p.0), p.1)
        },
        None => {
            proof {
                assert(v@.subrange(p2.1 as int, p2.1 as int) =~= Seq::<char>::empty());
            }
            (None, p2.1)
        },
    };
    let j3 = match expect_lit(v, ns.1, ",\"disableServerShutdown\":") {
        Some(j) => j,
        None => { return None; },
    };
    let p3 = match p_bool(v, j3) {
        Some(p) => p,
        None => { return None; },
    };
    let j4 = match expect_lit(v, p3.1, ",\"disableAI\":") {
        Some(j) => j,
        None => { return None; },
    };
    let p4 = match p_bool(v, j4) {
        Some(p) => p,
        None => { return None; },
    };
    let j5 = match expect_lit(v, p4.1, ",\"playerSaveTime\":") {
        Some(j) => j,
        None => { return None; },
    };
    let p5 = match p_i16(v, j5) {
        Some(p) => p,
        None => { return None; },
    };
    let j6 = match expect_lit(v, p5.1, ",\"aiLimit\":") {
        Some(j) => j,
        None => { return None; },
    };
    let p6 = match p_i16(v, j6) {
        Some(p) => p,
        None => { return None; },
    };
    let j7 = match expect_lit(v, p6.1, ",\"slotReservationTimeout\":") {
        Some(j) => j,
        None => { return None; },
    };
    let p7 = match p_i16(v, j7) {
        Some(p) => p,
        None => { return None; },
    };
    let ja = match expect_lit(v, p7.1, ",\"joinQueue\":") {
        Some(j) => j,
        None => { return None; },
    };
    let jb = match expect_lit(v, ja, "{\"maxSize\":") {
        Some(j) => j,
        None => { return None; },
    };
    let p8 = match p_i16(v, jb) {
        Some(p) => p,
        None => { return None; },
    };
    let jc = match expect_lit(v, p8.1, "}") {
        Some(j) => j,
        None => { return None; },
    };
    let j9 = match expect_lit(v, jc, "}") {
        Some(j) => j,
        None => { return None; },
    };
    let o = OperatingConfig {
        lobby_player_synchronise: p1.0,
        disable_crash_reporter: p2.0,
        disable_navmesh_streaming: ns.0,
        disable_server_shutdown: p3.0,
        disable_ai: p4.0,
        player_save_time: p5.0,
        ai_limit: p6.0,
        slot_reservation_timeout: p7.0,
        join_queue: JoinQueueConfig { max_size: p8.0 },
    };
    proof {
        broadcast use seq_char_assoc;

        lemma_subrange_split(v@, ja as int, jb as int, p8.1 as int);
        lemma_subrange_split(v@, ja as int, p8.1 as int, jc as int);
        assert(v@.subrange(ja as int, jc as int) == spec_join_queue_json(o.join_queue));
        lemma_subrange_split(v@, ns.1 as int, j3 as int, p3.1 as int);
        lemma_subrange_split(v@, ns.1 as int, p3.1 as int, j4 as int);
        lemma_subrange_split(v@, ns.1 as int, j4 as int, p4.1 as int);
        lemma_subrange_split(v@, ns.1 as int, p4.1 as int, j5 as int);
        lemma_subrange_split(v@, ns.1 as int, j5 as int, p5.1 as int);
        lemma_subrange_split(v@, ns.1 as int, p5.1 as int, j6 as int);
        lemma_subrange_split(v@, ns.1 as int, j6 as int, p6.1 as int);
        lemma_subrange_split(v@, ns.1 as int, p6.1 as int, j7 as int);
        lemma_subrange_split(v@, ns.1 as int, j7 as int, p7.1 as int);
        lemma_subrange_split(v@, ns.1 as int, p7.1 as int, ja as int);
        lemma_subrange_split(v@, ns.1 as int, ja as int, jc as int);
        lemma_subrange_split(v@, ns.1 as int, jc as int, j9 as int);
        assert(v@.subrange(ns.1 as int, j9 as int) == spec_operating_fields(o));
        lemma_subrange_split(v@, i as int, j1 as int, p1.1 as int);
        lemma_subrange_split(v@, i as int, p1.1 as int, j2 as int);
        lemma_subrange_split(v@, i as int, j2 as int, p2.1 as int);
        lemma_subrange_split(v@, i as int, p2.1 as int, ns.1 as int);
        lemma_subrange_split(v@, i as int, ns.1 as int, j9 as int);
        assert(v@.subrange(i as int, j9 as int) == spec_operating_json(o));
    }
    Some((o, j9))
}

impl ServerConfig {
    /// Reads a configuration back from its canonical serialized form:
    /// whenever a value comes back, the input is exactly that value's
    /// canonical text — a parse can never return a value whose
    /// serialization differs from what was read.  Only the canonical
    /// form is accepted: object fields in declaration order, camel-case
    /// keys, no whitespace, absent optional fields omitted.
    #[verifier::rlimit(100)]
    pub fn from_json(s: &str) -> (r: Option<ServerConfig>)
        ensures
            r matches Some(c) ==> s@ == spec_server_config_json(c),
    {
        let v = to_chars(s);
        let n = v.len();
        let j1 = match expect_lit(&v, 0, "{\"bindAddress\":") {
            Some(j) => j,
            None => { return None; },
        };
        let p1 = match p_string(&v, j1) {
            Some(p) => p,
            None => { return None; },
        };
        let bp = match expect_lit(&v, p1.1, ",\"bindPort\":") {
            Some(k) => {
                let p = match p_u16(&v, k) {
                    Some(p) => p,
                    None => { return None; },
                };
                proof {
                    lemma_subrange_split(v@, p1.1 as int, k as int, p.1 as int);
                    assert(v@.subrange(p1.1 as int, p.1 as int) == ",\"bindPort\":"@ + spec_dec(
                        p.0 as nat,
                    ));
                }
                (Some(p.0), p.1)
            },
            None => {
                proof {
                    assert(v@.subrange(p1.1 as int, p1.1 as int) =~= Seq::<char>::empty());
                }
                (None, p1.1)
            },
        };
        let pa = match expect_lit(&v, bp.1, ",\"publicAddress\":") {
            Some(k) => {
                let p = match p_string(&v, k) {
                    Some(p) => p,
                    None => { return None; },
                };
                proof {
                    lemma_subrange_split(v@, bp.1 as int, k as int, p.1 as int);
                    assert(v@.subrange(bp.1 as int, p.1 as int) == ",\"publicAddress\":"@
                        + spec_json_string(p.0@));
                }
                (Some(p.0), p.1)
            },
            None => {
                proof {
                    assert(v@.subrange(bp.1 as int, bp.1 as int) =~= Seq::<char>::empty());
                }
                (None, bp.1)
            },
        };
        let j2 = match expect_lit(&v, pa.1, ",\"publicPort\":") {
            Some(j) => j,
            None => { return None; },
        };
        let p2 = match p_u16(&v, j2) {
            Some(p) => p,
            None => { return None; },
        };
        let j3 = match expect_lit(&v, p2.1, ",\"a2s\":") {
            Some(j) => j,
            None => { return None; },
        };
        let p3 = match p_a2s(&v, j3) {
            Some(p) => p,
            None => { return None; },
        };
        let j4 = match expect_lit(&v, p3.1, ",\"rcon\":") {
            Some(j) => j,
            None => { return None; },
        };
        let p4 = match p_rcon(&v, j4) {
            Some(p) => p,
            None => { return None; },
        };
        let j5 = match expect_lit(&v, p4.1, ",\"game\":") {
            Some(j) => j,
            None => { return None; },
        };
        let p5 = match p_game(&v, j5) {
            Some(p) => p,
            None => { return None; },
        };
        let j6 = match expect_lit(&v, p5.1, ",\"operating\":") {
            Some(j) => j,
            None => { return None; },
        };
        let p6 = match p_operating(&v, j6) {
            Some(p) => p,
            None => { return None; },
        };
        let j7 = match expect_lit(&v, p6.1, "}") {
            Some(j) => j,
            None => { return None; },
        };
        if j7 != n {
            return None;
        }
        let c = ServerConfig {
            bind_address: p1.0,
            bind_port: bp.0,
            public_address: pa.0,
            public_port: p2.0,
            a2s: p3.0,
            rcon: p4.0,
            game: p5.0,
            operating: p6.0,
        };
        proof {
            lemma_subrange_split(v@, pa.1 as int, j2 as int, p2.1 as int);
            lemma_subrange_split(v@, pa.1 as int, p2.1 as int, j3 as int);
            lemma_subrange_split(v@, pa.1 as int, j3 as int, p3.1 as int);
            lemma_subrange_split(v@, pa.1 as int, p3.1 as int, j4 as int);
            lemma_subrange_split(v@, pa.1 as int, j4 as int, p4.1 as int);
            lemma_subrange_split(v@, pa.1 as int, p4.1 as int, j5 as int);
            lemma_subrange_split(v@, pa.1 as int, j5 as int, p5.1 as int);
            lemma_subrange_split(v@, pa.1 as int, p5.1 as int, j6 as int);
            lemma_subrange_split(v@, pa.1 as int, j6 as int, p6.1 as int);
            lemma_subrange_split(v@, pa.1 as int, p6.1 as int, j7 as int);
            assert(v@.subrange(pa.1 as int, j7 as int) == spec_server_config_fields(c));
            lemma_subrange_split(v@, 0, j1 as int, p1.1 as int);
            lemma_subrange_split(v@, 0, p1.1 as int, bp.1 as int);
            lemma_subrange_split(v@, 0, bp.1 as int, pa.1 as int);
            lemma_subrange_split(v@, 0, pa.1 as int, j7 as int);
            assert(v@.subrange(0, j7 as int) == spec_server_config_json(c));
            assert(v@.subrange(0, n as int) =~= v@);
        }
        Some(c)
    }
}

} // verus!
