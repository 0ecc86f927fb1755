//! The client's game state: connection state, object cache, chat, world
//! settings sent by the server, queued bridge commands and server GUI.
//!
//! The network and bridge connections live with the caller; this state
//! machine takes each server packet and says what the bridge must do.
use vstd::prelude::*;
use std::collections::HashMap;
use crate::id::NetworkID;
use crate::protocol::Packet;
use crate::text::{decimal, trimmed, last_index_of, parse_hex_u32, chars_of, string_of_chars, trim_range, rfind_char, parse_hex_range};
use crate::constants::CLIENT_VERSION;
use crate::event::{PipeFrame, frames_view};
use crate::client::config::ClientConfig;
use crate::client::registry::{ClientRegistry, RegView, InterpUpdate, reg_step, reg_ref};
use crate::client::widgets::{GuiState, WidgetView, gui_step};
use crate::client::ipc::{Param, OP_TRACK_ACTOR, OP_UNTRACK_ACTOR};
use crate::client::sync::{entity_of, packets_to_commands, ref_of_entity, command_target, commands_spec, commands_view, REF_MARK, events_to_packets, realizes_all, sync_packets};

verus! {

/// Where the client is in joining a game.
#[derive(Debug, Clone, Copy, PartialEq, Eq, Structural)]
pub enum ClientState {
    Disconnected,
    Connecting,
    Authenticating,
    Loading,
    InGame,
}

/// Server-authoritative game clock; `time_scale` is a bit pattern.
#[derive(Debug, Clone, Copy, PartialEq, Eq, Structural)]
pub struct GameClock {
    pub year: u32,
    pub month: u32,
    pub day: u32,
    pub hour: u32,
    pub time_scale: u32,
}

impl Default for GameClock {
    fn default() -> (r: GameClock)
        ensures
            r == (GameClock { year: 0, month: 0, day: 0, hour: 0, time_scale: 0 }),
    {
        GameClock { year: 0, month: 0, day: 0, hour: 0, time_scale: 0 }
    }
}

/// The client's game state. Hardcore needs are bit patterns.
pub struct Game {
    pub state: ClientState,
    pub config: ClientConfig,
    pub registry: ClientRegistry,
    pub local_player_id: Option<NetworkID>,
    /// (sender, text) pairs, oldest first.
    pub chat_messages: Vec<(String, String)>,
    pub weather: u32,
    pub karma: i32,
    /// Server rule: player-vs-player combat allowed.
    pub pvp_enabled: bool,
    /// The game clock, once the server sent one.
    pub game_time: Option<GameClock>,
    /// Bridge commands to run, oldest first.
    pub pending_commands: Vec<(u32, Vec<Param>)>,
    /// Reputation by faction.
    pub reputation: HashMap<u32, i32>,
    pub hardcore_hunger: u32,
    pub hardcore_thirst: u32,
    pub hardcore_sleep: u32,
    pub gui: GuiState,
}

/// The game state as plain values.
#[verifier::ext_equal]
pub struct GameView {
    pub state: ClientState,
    pub registry: RegView,
    pub local: Option<NetworkID>,
    pub chat: Seq<(Seq<char>, Seq<char>)>,
    pub weather: u32,
    pub karma: i32,
    pub pvp: bool,
    pub time: Option<GameClock>,
    pub pending: Seq<(u32, Seq<Param>)>,
    pub reputation: Map<u32, i32>,
    pub hunger: u32,
    pub thirst: u32,
    pub sleep: u32,
    pub widgets: Seq<WidgetView>,
    pub clicks: Seq<NetworkID>,
    pub mode: bool,
}

/// Chat entries as characters.
pub open spec fn chat_view(v: Seq<(String, String)>) -> Seq<(Seq<char>, Seq<char>)> {
    v.map_values(|m: (String, String)| (m.0@, m.1@))
}

/// The chat line shown when the server ends the session.
pub open spec fn end_message(reason: u8) -> Seq<char> {
    "Disconnected (reason: "@ + decimal(reason as nat) + ")"@
}

/// What one server packet does to the game state, besides the object
/// cache and the bridge commands.
pub open spec fn dispatch_step(v: GameView, p: Packet) -> GameView {
    match p {
        Packet::GameLoad => v,
        Packet::GameStart => v,
        Packet::GameEnd { reason } => GameView {
            state: ClientState::Disconnected,
            chat: v.chat.push(("System"@, end_message(reason))),
            ..v
        },
        Packet::GameChat { message } => GameView { chat: v.chat.push(("Server"@, message@)), ..v },
        Packet::GameWeather { weather } => GameView { weather, ..v },
        Packet::GameTime { year, month, day, hour, time_scale } => GameView {
            time: Some(GameClock { year, month, day, hour, time_scale }),
            ..v
        },
        Packet::ServerSettings { pvp_enabled } => GameView { pvp: pvp_enabled, ..v },
        Packet::SpellCast { .. } => v,
        Packet::KarmaUpdate { value } => GameView { karma: value, ..v },
        Packet::ReputationUpdate { faction, value } => GameView {
            reputation: v.reputation.insert(faction, value),
            ..v
        },
        Packet::HardcoreStats { hunger, thirst, sleep } => GameView { hunger, thirst, sleep, ..v },
        Packet::PlayerNew { id, .. } => if v.local is None {
            GameView { local: Some(id), ..v }
        } else {
            v
        },
        Packet::OwnershipGranted { .. } => v,
        Packet::OwnershipReleased { .. } => v,
        _ => {
            let (widgets, mode, _) = gui_step(v.widgets, v.mode, p);
            GameView { widgets, mode, ..v }
        },
    }
}

/// The game reference inside an entity id, for ids made from references.
pub open spec fn entity_ref(id: NetworkID) -> Option<u32> {
    if id.value() & REF_MARK != 0 {
        Some((id.value() & 0x7FFF_FFFF) as u32)
    } else {
        None
    }
}

/// Bridge commands that start or stop sampling an actor whose simulation
/// this client gained or lost.
pub open spec fn ownership_commands(p: Packet) -> Seq<(u32, Seq<Param>)> {
    match p {
        Packet::OwnershipGranted { id } => match entity_ref(id) {
            Some(r) => seq![(OP_TRACK_ACTOR, seq![Param::U32(r)])],
            None => Seq::empty(),
        },
        Packet::OwnershipReleased { id } => match entity_ref(id) {
            Some(r) => seq![(OP_UNTRACK_ACTOR, seq![Param::U32(r)])],
            None => Seq::empty(),
        },
        _ => Seq::empty(),
    }
}

/// Bridge commands that apply a remote entity's change to the local game,
/// once the local player is known; `rv` resolves entities to references.
pub open spec fn remote_commands(rv: RegView, local: Option<NetworkID>, p: Packet) -> Seq<(u32, Seq<Param>)> {
    match local {
        Some(l) => commands_spec(
            seq![p],
            l,
            seq![
                match command_target(p, l) {
                    Some(id) => reg_ref(rv, id),
                    None => None::<u32>,
                },
            ],
        ),
        None => Seq::empty(),
    }
}

/// What one server packet does to the whole game state, and what the
/// interpolation buffers must do.
pub open spec fn handle_step(v: GameView, p: Packet) -> (GameView, InterpUpdate) {
    let (rv, upd) = reg_step(v.registry, p);
    let queued = GameView {
        registry: rv,
        pending: v.pending + remote_commands(rv, v.local, p) + ownership_commands(p),
        ..v
    };
    (dispatch_step(queued, p), upd)
}

/// A load-order entry `file:crc`: split at the last colon, both sides
/// trimmed, the CRC read as hexadecimal; `None` when there is no colon or
/// the CRC does not parse.
pub open spec fn mod_entry(s: Seq<char>) -> Option<(Seq<char>, u32)> {
    match last_index_of(s, ':') {
        Some(i) => match parse_hex_u32(trimmed(s.subrange(i + 1, s.len() as int))) {
            Some(crc) => Some((trimmed(s.subrange(0, i)), crc)),
            None => None,
        },
        None => None,
    }
}

/// The entries of a load order that parse, in order.
pub open spec fn mod_list_spec(ms: Seq<Seq<char>>) -> Seq<(Seq<char>, u32)>
    decreases ms.len(),
{
    if ms.len() == 0 {
        Seq::empty()
    } else {
        let prev = mod_list_spec(ms.drop_last());
        match mod_entry(ms.last()) {
            Some(e) => prev.push(e),
            None => prev,
        }
    }
}

/// Load-order entries as characters.
pub open spec fn mods_view(v: Seq<(String, u32)>) -> Seq<(Seq<char>, u32)> {
    v.map_values(|m: (String, u32)| (m.0@, m.1))
}

/// The configured entries as characters.
pub open spec fn strings_view(v: Seq<String>) -> Seq<Seq<char>> {
    v.map_values(|m: String| m@)
}

/// Parses one load-order entry `file:crc`.
pub fn parse_mod_entry(s: &str) -> (r: Option<(String, u32)>)
    ensures
        match mod_entry(s@) {
            Some(e) => r matches Some(v) && v.0@ == e.0 && v.1 == e.1,
            None => r is None,
        },
{
    let cs = chars_of(s);
    let n = cs.len();
    match rfind_char(&cs, ':') {
        Some(i) => {
            assert(last_index_of(s@, ':') == Some(i as int));
            let crc_part = trim_range(&cs, i + 1, n);
            assert(crc_part@.subrange(0, crc_part@.len() as int) =~= crc_part@);
            match parse_hex_range(&crc_part, 0, crc_part.len()) {
                Some(crc) => {
                    let file = trim_range(&cs, 0, i);
                    Some((string_of_chars(file), crc))
                },
                None => None,
            }
        },
        None => None,
    }
}

/// The load order to report: the entries that parse, in order.
pub fn mod_list(mods: &Vec<String>) -> (r: Vec<(String, u32)>)
    ensures
        mods_view(r@) == mod_list_spec(strings_view(mods@)),
{
    let ghost ms = strings_view(mods@);
    let mut out: Vec<(String, u32)> = Vec::new();
    let mut i: usize = 0;
    while i < mods.len()
        invariant
            i <= mods@.len(),
            ms == strings_view(mods@),
            mods_view(out@) == mod_list_spec(ms.take(i as int)),
        decreases mods@.len() - i,
    {
        assert(ms.take(i as int + 1).drop_last() =~= ms.take(i as int));
        assert(ms.take(i as int + 1).last() == mods@[i as int]@);
        let ghost before = out@;
        match parse_mod_entry(mods[i].as_str()) {
            Some(e) => {
                out.push(e);
                assert(mods_view(out@) =~= mods_view(before).push((e.0@, e.1)));
            },
            None => {},
        }
        i = i + 1;
    }
    assert(ms.take(i as int) =~= ms);
    out
}

impl Game {
    /// The game state as plain values.
    pub open spec fn view(&self) -> GameView {
        GameView {
            state: self.state,
            registry: self.registry.view(),
            local: self.local_player_id,
            chat: chat_view(self.chat_messages@),
            weather: self.weather,
            karma: self.karma,
            pvp: self.pvp_enabled,
            time: self.game_time,
            pending: commands_view(self.pending_commands@),
            reputation: self.reputation@,
            hunger: self.hardcore_hunger,
            thirst: self.hardcore_thirst,
            sleep: self.hardcore_sleep,
            widgets: self.gui.widgets(),
            clicks: self.gui.clicks(),
            mode: self.gui.mode(),
        }
    }

    /// The object cache and the GUI are well formed.
    pub open spec fn wf(&self) -> bool {
        self.registry.wf() && self.gui.wf()
    }

    /// A disconnected client with nothing known yet.
    pub fn new(config: ClientConfig) -> (g: Game)
        ensures
            g.wf(),
            g.config == config,
            g.view().state == ClientState::Disconnected,
            g.view().registry.objects == Seq::<(NetworkID, crate::client::registry::ObjView)>::empty(),
            g.view().registry.owned == Set::<NetworkID>::empty(),
            g.view().registry.weather == 0,
            g.view().local is None,
            g.view().chat == Seq::<(Seq<char>, Seq<char>)>::empty(),
            g.view().weather == 0,
            g.view().karma == 0,
            !g.view().pvp,
            g.view().time is None,
            g.view().pending == Seq::<(u32, Seq<Param>)>::empty(),
            g.view().reputation == Map::<u32, i32>::empty(),
            g.view().hunger == 0 && g.view().thirst == 0 && g.view().sleep == 0,
            g.view().widgets == Seq::<WidgetView>::empty(),
            g.view().clicks == Seq::<NetworkID>::empty(),
            !g.view().mode,
    {
        let g = Game {
            state: ClientState::Disconnected,
            config,
            registry: ClientRegistry::new(),
            local_player_id: None,
            chat_messages: Vec::new(),
            weather: 0,
            karma: 0,
            pvp_enabled: false,
            game_time: None,
            pending_commands: Vec::new(),
            reputation: HashMap::new(),
            hardcore_hunger: 0,
            hardcore_thirst: 0,
            hardcore_sleep: 0,
            gui: GuiState::new(),
        };
        assert(g.view().chat =~= Seq::<(Seq<char>, Seq<char>)>::empty());
        assert(g.view().pending =~= Seq::<(u32, Seq<Param>)>::empty());
        g
    }

    /// Applies a server packet: updates the object cache, queues the bridge
    /// commands it calls for, then applies it to the rest of the state.
    /// Returns what the interpolation buffers must do.
    pub fn handle_packet(&mut self, packet: Packet) -> (r: InterpUpdate)
        requires
            old(self).wf(),
        ensures
            final(self).wf(),
            final(self).config == old(self).config,
            (final(self).view(), r) == handle_step(old(self).view(), packet),
    {
        let ghost v0 = self.view();
        let upd = self.registry.apply_packet(&packet);
        let ghost rv = self.registry.view();
        let mut ps: Vec<Packet> = Vec::new();
        ps.push(packet);
        assert(ps@ =~= seq![packet]);
        match self.local_player_id {
            Some(local) => {
                let reg = &self.registry;
                let resolve = |id: NetworkID| -> (r: Option<u32>)
                    requires
                        reg.wf(),
                    ensures
                        r == reg_ref(reg.view(), id),
                    { reg.ref_of(id) };
                let mut cmds = packets_to_commands(ps.as_slice(), local, resolve);
                proof {
                    let rs = choose|rs: Seq<Option<u32>>|
                        {
                            &&& rs.len() == ps@.len()
                            &&& forall|i: int|
                                0 <= i < ps@.len() ==> (command_target(ps@[i], local) matches Some(id)
                                    ==> resolve.ensures((id,), #[trigger] rs[i]))
                            &&& commands_view(cmds@) == commands_spec(ps@, local, rs)
                        };
                    let want = seq![
                        match command_target(packet, local) {
                            Some(id) => reg_ref(rv, id),
                            None => None::<u32>,
                        },
                    ];
                    if let Some(id) = command_target(packet, local) {
                        assert(resolve.ensures((id,), rs[0]));
                    }
                    reveal_with_fuel(commands_spec, 2);
                    assert(commands_spec(ps@, local, rs) == commands_spec(ps@, local, want));
                }
                let ghost before = self.pending_commands@;
                self.pending_commands.append(&mut cmds);
                assert(commands_view(self.pending_commands@) =~= commands_view(before) + remote_commands(
                    rv,
                    v0.local,
                    packet,
                ));
            },
            None => {
                assert(remote_commands(rv, v0.local, packet) =~= Seq::<(u32, Seq<Param>)>::empty());
                assert(commands_view(self.pending_commands@) =~= commands_view(self.pending_commands@) + remote_commands(
                    rv,
                    v0.local,
                    packet,
                ));
            },
        }
        let ghost mid = self.pending_commands@;
        assert(ps@[0] == packet);
        match &ps[0] {
            Packet::OwnershipGranted { id } => {
                match ref_of_entity(*id) {
                    Some(r) => {
                        let args = vec![Param::U32(r)];
                        assert(args@ =~= seq![Param::U32(r)]);
                        self.pending_commands.push((OP_TRACK_ACTOR, args));
                        assert(commands_view(self.pending_commands@) =~= commands_view(mid).push((OP_TRACK_ACTOR, seq![Param::U32(r)])));
                    },
                    None => {},
                }
            },
            Packet::OwnershipReleased { id } => {
                match ref_of_entity(*id) {
                    Some(r) => {
                        let args = vec![Param::U32(r)];
                        assert(args@ =~= seq![Param::U32(r)]);
                        self.pending_commands.push((OP_UNTRACK_ACTOR, args));
                        assert(commands_view(self.pending_commands@) =~= commands_view(mid).push((OP_UNTRACK_ACTOR, seq![Param::U32(r)])));
                    },
                    None => {},
                }
            },
            _ => {},
        }
        assert(commands_view(self.pending_commands@) =~= commands_view(mid) + ownership_commands(packet));
        crate::client::dispatch::dispatch(self, &ps[0]);
        upd
    }

    /// Starts authenticating: the join request (player name, empty
    /// password, client version) and the load-order report, in sending
    /// order.
    pub fn authenticate(&mut self) -> (r: (Packet, Packet))
        ensures
            final(self).view() == (GameView { state: ClientState::Authenticating, ..old(self).view() }),
            final(self).config == old(self).config,
            r.0 matches Packet::GameAuth { name, password, version } && name@ == old(self).config.name@
                && password@.len() == 0 && version@ == CLIENT_VERSION@,
            r.1 matches Packet::GameModList { mods } && mods_view(mods@) == mod_list_spec(
                strings_view(old(self).config.mods@),
            ),
    {
        self.state = ClientState::Authenticating;
        let auth = Packet::GameAuth {
            name: self.config.name.clone(),
            password: String::new(),
            version: CLIENT_VERSION.to_owned(),
        };
        let mods = mod_list(&self.config.mods);
        (auth, Packet::GameModList { mods })
    }

    /// The request to simulate actor `id`.
    pub fn claim_ownership(&self, id: NetworkID) -> (p: Packet)
        ensures
            p == (Packet::OwnershipClaim { id }),
    {
        Packet::OwnershipClaim { id }
    }

    /// The report of a spell cast by `id`.
    pub fn send_spell_cast(&self, id: NetworkID, spell: u32, source: i32, dual: bool, target: NetworkID) -> (p: Packet)
        ensures
            p == (Packet::SpellCast { id, spell, source, dual, target }),
    {
        Packet::SpellCast { id, spell, source, dual, target }
    }

    /// The packets for engine event frames read from the bridge: none
    /// until the local player is known.
    pub fn poll_bridge(&self, frames: &[PipeFrame]) -> (r: Vec<Packet>)
        ensures
            match self.local_player_id {
                Some(local) => realizes_all(r@, sync_packets(frames_view(frames@), local)),
                None => r@.len() == 0,
            },
    {
        if frames.len() == 0 {
            assert(frames_view(frames@) =~= Seq::<(u8, Seq<u8>)>::empty());
            let r: Vec<Packet> = Vec::new();
            proof {
                if let Some(local) = self.local_player_id {
                    assert(sync_packets(frames_view(frames@), local) =~= Seq::empty());
                }
            }
            return r;
        }
        match self.local_player_id {
            Some(local) => events_to_packets(frames, local),
            None => Vec::new(),
        }
    }

    /// Takes the queued bridge commands to run, oldest first. Without a
    /// bridge connection they stay queued and nothing is returned.
    pub fn flush_commands(&mut self, bridge_connected: bool) -> (r: Vec<(u32, Vec<Param>)>)
        ensures
            bridge_connected ==> commands_view(r@) == old(self).view().pending && final(self).view() == (GameView {
                pending: Seq::<(u32, Seq<Param>)>::empty(),
                ..old(self).view()
            }),
            !bridge_connected ==> r@.len() == 0 && final(self).view() == old(self).view(),
            final(self).config == old(self).config,
            final(self).wf() == old(self).wf(),
    {
        if !bridge_connected {
            return Vec::new();
        }
        let mut r: Vec<(u32, Vec<Param>)> = Vec::new();
        std::mem::swap(&mut r, &mut self.pending_commands);
        assert(commands_view(self.pending_commands@) =~= Seq::<(u32, Seq<Param>)>::empty());
        r
    }

    /// Whether this client simulates actor `id`.
    pub fn owns(&self, id: NetworkID) -> (r: bool)
        ensures
            r == self.view().registry.owned.contains(id),
    {
        self.registry.is_owned(id)
    }

    /// Records a chat line typed by the local player and returns the packet
    /// that sends it.
    pub fn send_chat(&mut self, message: String) -> (p: Packet)
        ensures
            final(self).view() == (GameView {
                chat: old(self).view().chat.push((old(self).config.name@, message@)),
                ..old(self).view()
            }),
            final(self).config == old(self).config,
            p == (Packet::GameChat { message }),
    {
        let name = self.config.name.clone();
        let text = message.clone();
        let ghost before = self.chat_messages@;
        self.chat_messages.push((name, text));
        assert(chat_view(self.chat_messages@) =~= chat_view(before).push((self.config.name@, message@)));
        Packet::GameChat { message }
    }

    /// Takes the queued GUI clicks as the packets that report them.
    pub fn flush_gui_clicks(&mut self) -> (r: Vec<Packet>)
        ensures
            final(self).view() == (GameView { clicks: Seq::<NetworkID>::empty(), ..old(self).view() }),
            final(self).config == old(self).config,
            final(self).wf() == old(self).wf(),
            r@.len() == old(self).view().clicks.len(),
            forall|i: int|
                0 <= i < r@.len() ==> #[trigger] r@[i] == (Packet::UpdateWindowClick {
                    id: old(self).view().clicks[i],
                }),
    {
        let clicks = self.gui.take_clicks();
        let mut out: Vec<Packet> = Vec::new();
        let mut i: usize = 0;
        while i < clicks.len()
            invariant
                i <= clicks@.len(),
                out@.len() == i,
                forall|k: int| 0 <= k < i ==> #[trigger] out@[k] == (Packet::UpdateWindowClick { id: clicks@[k] }),
            decreases clicks@.len() - i,
        {
            out.push(Packet::UpdateWindowClick { id: clicks[i] });
            i = i + 1;
        }
        out
    }
}

/// No bridge command applies an ownership packet to a remote entity.
proof fn lemma_no_remote_commands(rv: RegView, local: Option<NetworkID>, p: Packet)
    requires
        p is OwnershipGranted || p is OwnershipReleased,
    ensures
        remote_commands(rv, local, p) == Seq::<(u32, Seq<Param>)>::empty(),
{
    if let Some(l) = local {
        assert(command_target(p, l) is None);
        assert(seq![p].drop_last() =~= Seq::<Packet>::empty());
        reveal_with_fuel(commands_spec, 2);
        assert(remote_commands(rv, local, p) =~= Seq::<(u32, Seq<Param>)>::empty());
    }
}

/// What an ownership packet does to the whole state.
#[verifier::rlimit(40)]
proof fn lemma_ownership_step(v: GameView, p: Packet)
    requires
        p is OwnershipGranted || p is OwnershipReleased,
    ensures
        handle_step(v, p).0 == (GameView {
            registry: reg_step(v.registry, p).0,
            pending: v.pending + ownership_commands(p),
            ..v
        }),
{
    let rv = reg_step(v.registry, p).0;
    lemma_no_remote_commands(rv, v.local, p);
    assert(v.pending + remote_commands(rv, v.local, p) + ownership_commands(p) =~= v.pending + ownership_commands(p));
}

/// Ownership of an NPC this client observed (an entity made from game
/// reference `ref_id`) drives the bridge: a grant marks the actor owned
/// and queues the command that starts sampling that reference; a release
/// unmarks it and queues the command that stops. Nothing else is queued.
pub proof fn law_ownership_drives_actor_tracking(v: GameView, ref_id: u32, id: NetworkID)
    requires
        ref_id < 0x8000_0000,
        id.value() == entity_of(ref_id),
    ensures
        handle_step(v, Packet::OwnershipGranted { id }).0.registry.owned == v.registry.owned.insert(id),
        handle_step(v, Packet::OwnershipGranted { id }).0.pending == v.pending.push(
            (OP_TRACK_ACTOR, seq![Param::U32(ref_id)]),
        ),
        handle_step(v, Packet::OwnershipReleased { id }).0.registry.owned == v.registry.owned.remove(id),
        handle_step(v, Packet::OwnershipReleased { id }).0.pending == v.pending.push(
            (OP_UNTRACK_ACTOR, seq![Param::U32(ref_id)]),
        ),
{
    crate::client::sync::law_entity_ref_roundtrip(ref_id);
    assert(entity_ref(id) == Some(ref_id));
    let g = Packet::OwnershipGranted { id };
    let r = Packet::OwnershipReleased { id };
    lemma_ownership_step(v, g);
    lemma_ownership_step(v, r);
    assert(v.pending + ownership_commands(g) =~= v.pending.push((OP_TRACK_ACTOR, seq![Param::U32(ref_id)])));
    assert(v.pending + ownership_commands(r) =~= v.pending.push((OP_UNTRACK_ACTOR, seq![Param::U32(ref_id)])));
}

/// World settings from the server replace exactly their own field of the
/// game state: weather, karma, PvP rule, hardcore needs; a reputation
/// update sets that faction's standing and keeps the others.
pub proof fn law_settings_packets_set_their_field(
    v: GameView,
    weather: u32,
    karma: i32,
    pvp: bool,
    faction: u32,
    standing: i32,
    hunger: u32,
    thirst: u32,
    sleep: u32,
)
    ensures
        dispatch_step(v, (Packet::GameWeather { weather })) == (GameView { weather, ..v }),
        dispatch_step(v, (Packet::KarmaUpdate { value: karma })) == (GameView { karma, ..v }),
        dispatch_step(v, (Packet::ServerSettings { pvp_enabled: pvp })) == (GameView { pvp, ..v }),
        dispatch_step(v, (Packet::HardcoreStats { hunger, thirst, sleep })) == (GameView { hunger, thirst, sleep, ..v }),
        dispatch_step(v, (Packet::ReputationUpdate { faction, value: standing })).reputation[faction] == standing,
        forall|f: u32| f != faction && v.reputation.contains_key(f) ==>
            #[trigger] dispatch_step(v, (Packet::ReputationUpdate { faction, value: standing })).reputation[f] == v.reputation[f],
{
}

/// A chat message from the server is appended to the chat log under
/// "Server"; the end of the session disconnects and appends a system line;
/// neither changes anything else.
pub proof fn law_chat_and_end_packets(v: GameView, message: String, reason: u8)
    ensures
        dispatch_step(v, (Packet::GameChat { message })) == (GameView { chat: v.chat.push(("Server"@, message@)), ..v }),
        dispatch_step(v, (Packet::GameEnd { reason })).state == ClientState::Disconnected,
        dispatch_step(v, (Packet::GameEnd { reason })).chat == v.chat.push(("System"@, end_message(reason))),
        dispatch_step(v, (Packet::GameEnd { reason })).registry == v.registry,
{
}

/// The first player the server announces becomes the local player; later
/// announcements do not change it.
pub proof fn law_first_player_is_local(
    v: GameView,
    id: NetworkID,
    ref_id: u32,
    base_id: u32,
    controls: Vec<(u8, (u8, bool))>,
    scale: u32,
)
    ensures
        ({
            let after = dispatch_step(v, (Packet::PlayerNew { id, ref_id, base_id, controls, scale }));
            &&& v.local is None ==> after.local == Some(id)
            &&& v.local is Some ==> after.local == v.local
            &&& after.registry == v.registry && after.chat == v.chat
        }),
{
}

/// The server's clock packet sets the game clock to its date, hour and
/// time scale; loading and starting a game change nothing.
pub proof fn law_clock_packet_sets_clock(v: GameView, year: u32, month: u32, day: u32, hour: u32, time_scale: u32)
    ensures
        ({
            let after = dispatch_step(v, (Packet::GameTime { year, month, day, hour, time_scale }));
            &&& after.time matches Some(c) && c.year == year && c.month == month && c.day == day && c.hour == hour
                && c.time_scale == time_scale
            &&& after == (GameView { time: after.time, ..v })
        }),
        dispatch_step(v, Packet::GameLoad) == v,
        dispatch_step(v, Packet::GameStart) == v,
{
}

/// Handling a death packet for a cached actor marks that actor dead or
/// alive as the packet says, and keeps its other fields, every other
/// object, the chat log, the local player and the widgets.
pub proof fn law_handled_death_reaches_the_cache(v: GameView, i: int, dead: bool, limbs: u16, cause: i8)
    requires
        crate::client::registry::ids_distinct(v.registry.objects),
        0 <= i < v.registry.objects.len(),
        v.registry.objects[i].1 is Actor,
    ensures
        ({
            let p = Packet::UpdateActorDead { id: v.registry.objects[i].0, dead, limbs, cause };
            let (after, upd) = handle_step(v, p);
            let o = after.registry.objects[i].1;
            let before = v.registry.objects[i].1;
            &&& upd == InterpUpdate::Keep
            &&& crate::client::registry::others_kept(v.registry, after.registry, i)
            &&& o is Actor
            &&& o->Actor_dead == dead
            &&& o->Actor_ref_id == before->Actor_ref_id
            &&& o->Actor_pos == before->Actor_pos
            &&& o->Actor_health == before->Actor_health
            &&& after.chat == v.chat && after.local == v.local && after.widgets == v.widgets
        }),
{
    crate::client::registry::law_death_packet_sets_dead(v.registry, i, dead, limbs, cause);
}

} // verus!
