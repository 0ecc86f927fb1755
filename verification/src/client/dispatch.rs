//! Applies a server packet to the client's game state: session end, chat,
//! world settings, the local player and the server GUI.
use vstd::prelude::*;
use crate::protocol::Packet;
use crate::text::{decimal_string, push_str_chars};
use crate::client::game::{Game, ClientState, GameClock, chat_view, dispatch_step, end_message};

verus! {

/// The chat line shown when the server ends the session.
fn end_text(reason: u8) -> (r: String)
    ensures
        r@ == end_message(reason),
{
    let mut m = String::new();
    push_str_chars(&mut m, "Disconnected (reason: ");
    let digits = decimal_string(reason as u64);
    push_str_chars(&mut m, digits.as_str());
    push_str_chars(&mut m, ")");
    proof {
        reveal_strlit("Disconnected (reason: ");
        reveal_strlit(")");
    }
    assert(m@ =~= end_message(reason));
    m
}

/// Applies an incoming server packet to the game state.
pub fn dispatch(game: &mut Game, packet: &Packet)
    requires
        old(game).wf(),
    ensures
        final(game).wf(),
        final(game).config == old(game).config,
        final(game).view() == dispatch_step(old(game).view(), *packet),
{
    broadcast use vstd::std_specs::hash::group_hash_axioms;
    let ghost v = game.view();
    match packet {
        Packet::GameLoad => {},
        Packet::GameStart => {},
        Packet::GameEnd { reason } => {
            game.state = ClientState::Disconnected;
            let who = "System".to_owned();
            let text = end_text(*reason);
            let ghost before = game.chat_messages@;
            game.chat_messages.push((who, text));
            proof {
                reveal_strlit("System");
            }
            assert(chat_view(game.chat_messages@) =~= chat_view(before).push(("System"@, end_message(*reason))));
        },
        Packet::GameChat { message } => {
            let who = "Server".to_owned();
            let text = message.clone();
            let ghost before = game.chat_messages@;
            game.chat_messages.push((who, text));
            proof {
                reveal_strlit("Server");
            }
            assert(chat_view(game.chat_messages@) =~= chat_view(before).push(("Server"@, message@)));
        },
        Packet::GameWeather { weather } => {
            game.weather = *weather;
        },
        Packet::GameTime { year, month, day, hour, time_scale } => {
            game.game_time = Some(
                GameClock { year: *year, month: *month, day: *day, hour: *hour, time_scale: *time_scale },
            );
        },
        Packet::ServerSettings { pvp_enabled } => {
            game.pvp_enabled = *pvp_enabled;
        },
        Packet::SpellCast { .. } => {},
        Packet::KarmaUpdate { value } => {
            game.karma = *value;
        },
        Packet::ReputationUpdate { faction, value } => {
            game.reputation.insert(*faction, *value);
        },
        Packet::HardcoreStats { hunger, thirst, sleep } => {
            game.hardcore_hunger = *hunger;
            game.hardcore_thirst = *thirst;
            game.hardcore_sleep = *sleep;
        },
        Packet::PlayerNew { id, .. } => {
            if game.local_player_id.is_none() {
                game.local_player_id = Some(*id);
            }
        },
        Packet::OwnershipGranted { .. } => {},
        Packet::OwnershipReleased { .. } => {},
        _ => {
            game.gui.apply_packet(packet);
        },
    }
    assert(game.view() =~= dispatch_step(v, *packet));
}

} // verus!
