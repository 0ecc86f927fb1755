use ashfall::client::ipc::{ipc_mode_for, IpcMode};
use ashfall::client::config::ClientConfig;
use ashfall::client::game::{mod_list, parse_mod_entry, ClientState, Game};
use ashfall::client::ipc::{
    CommandResult, IpcClient, Param, OP_GET_POS, OP_SET_POS, PIPE_OP_COMMAND, PIPE_OP_EVENT, PIPE_OP_RETURN,
};
use ashfall::constants::CLIENT_VERSION;
use ashfall::event::{encode_frame, encode_ref_event, split_frames, PipeFrame};
use ashfall::id::NetworkID;
use ashfall::protocol::Packet;
use ashfall::text::{chars_of, parse_hex_range, str_eq, trim_range};

#[test]
fn command_request_frames_key_opcode_and_params() {
    let mut ipc = IpcClient::new();
    let (k1, req) = ipc.command_request(OP_SET_POS, &[Param::U32(0x14), Param::F32(1.0f32.to_bits())]);
    assert_eq!(k1, 1);
    let (frames, rest) = split_frames(&req);
    assert!(rest.is_empty());
    assert_eq!(frames.len(), 1);
    assert_eq!(frames[0].opcode, PIPE_OP_COMMAND);
    let mut want = Vec::new();
    want.extend_from_slice(&1u32.to_le_bytes());
    want.extend_from_slice(&OP_SET_POS.to_le_bytes());
    want.push(2);
    want.extend_from_slice(&0x14u32.to_le_bytes());
    want.extend_from_slice(&1.0f32.to_bits().to_le_bytes());
    assert_eq!(frames[0].payload, want);
    let (k2, _) = ipc.command_request(OP_GET_POS, &[]);
    assert_eq!(k2, 2, "keys count up");
}

#[test]
fn replies_are_matched_by_key_and_events_kept() {
    let mut ipc = IpcClient::new();
    let (k, _) = ipc.command_request(OP_GET_POS, &[Param::U32(7)]);
    let mut reply = k.to_le_bytes().to_vec();
    for f in [1.0f32, 2.0, 3.0] {
        reply.extend_from_slice(&f.to_le_bytes());
    }
    let mut stream = encode_frame(PIPE_OP_RETURN, &[9, 0, 0, 0, 0xAA]);
    stream.extend(encode_ref_event(3, 0x42));
    stream.extend(encode_frame(PIPE_OP_RETURN, &reply));
    // Bytes arrive in two pieces; the cut frame waits for its rest.
    let cut = stream.len() - 3;
    ipc.ingest(&stream[..cut]);
    assert!(ipc.take_return(k).is_none(), "reply not complete yet");
    ipc.ingest(&stream[cut..]);
    let got = ipc.take_return(k).expect("reply for our key");
    match CommandResult::decode(&got) {
        CommandResult::Floats(v) => {
            assert_eq!(v, vec![1.0f32.to_bits(), 2.0f32.to_bits(), 3.0f32.to_bits()])
        }
        other => panic!("unexpected {:?}", other),
    }
    assert!(ipc.take_return(k).is_none(), "claimed once");
    assert_eq!(ipc.take_return(9), Some(vec![0xAA]), "other key still waiting");
    let events = ipc.take_events();
    assert_eq!(events.len(), 1);
    assert_eq!(events[0].opcode, PIPE_OP_EVENT);
    assert!(ipc.take_events().is_empty());
}

#[test]
fn other_frames_are_dropped() {
    let mut ipc = IpcClient::new();
    ipc.ingest(&encode_frame(0x01, &[1, 2, 3]));
    assert!(ipc.take_events().is_empty());
    assert!(ipc.take_return(0x0003_0201).is_none());
}

#[test]
fn mod_entries_parse_like_the_config_format() {
    assert_eq!(parse_mod_entry("Fallout3.esm:1A2B3C4D"), Some(("Fallout3.esm".to_string(), 0x1A2B3C4D)));
    assert_eq!(parse_mod_entry("  Anchorage.esm :  +ff "), Some(("Anchorage.esm".to_string(), 0xFF)));
    assert_eq!(parse_mod_entry("a:b:10"), Some(("a:b".to_string(), 0x10)), "splits at the last colon");
    assert_eq!(parse_mod_entry("NoCrc.esp"), None);
    assert_eq!(parse_mod_entry("Bad.esp:xyz"), None);
    assert_eq!(parse_mod_entry("Big.esp:100000000"), None, "does not fit a u32");
    assert_eq!(parse_mod_entry("Empty.esp:"), None);
    assert_eq!(parse_mod_entry("Plus.esp:+"), None);
    let list = mod_list(&vec!["A.esm:1".to_string(), "junk".to_string(), "B.esp:ffffffff".to_string()]);
    assert_eq!(list, vec![("A.esm".to_string(), 1), ("B.esp".to_string(), 0xFFFF_FFFF)]);
}

#[test]
fn text_helpers() {
    let cs = chars_of(" \t ab c \n");
    assert_eq!(trim_range(&cs, 0, cs.len()), vec!['a', 'b', ' ', 'c']);
    let hex = chars_of("C0ffee");
    assert_eq!(parse_hex_range(&hex, 0, hex.len()), Some(0xC0FFEE));
    assert!(str_eq("abc", "abc"));
    assert!(!str_eq("abc", "abd"));
}

#[test]
fn authenticate_builds_join_and_load_order() {
    let mut config = ClientConfig::default();
    config.mods = vec!["Fallout3.esm:DEADBEEF".to_string(), "broken".to_string()];
    let mut g = Game::new(config);
    let (auth, mods) = g.authenticate();
    assert_eq!(g.state, ClientState::Authenticating);
    assert_eq!(
        auth,
        Packet::GameAuth { name: "Wanderer".to_string(), password: String::new(), version: CLIENT_VERSION.to_string() }
    );
    assert_eq!(mods, Packet::GameModList { mods: vec![("Fallout3.esm".to_string(), 0xDEADBEEF)] });
}

#[test]
fn bridge_events_and_commands_flow() {
    let mut g = Game::new(ClientConfig::default());
    let frames = vec![PipeFrame { opcode: PIPE_OP_EVENT, payload: vec![] }];
    assert!(g.poll_bridge(&frames).is_empty(), "no local player yet");
    g.local_player_id = Some(NetworkID::new(1));
    assert!(g.poll_bridge(&[]).is_empty());
    g.pending_commands.push((OP_GET_POS, vec![Param::U32(1)]));
    assert!(g.flush_commands(false).is_empty(), "no bridge: kept queued");
    assert_eq!(g.pending_commands.len(), 1);
    assert_eq!(g.flush_commands(true), vec![(OP_GET_POS, vec![Param::U32(1)])]);
    assert!(g.pending_commands.is_empty());
    assert_eq!(g.claim_ownership(NetworkID::new(5)), Packet::OwnershipClaim { id: NetworkID::new(5) });
    assert_eq!(
        g.send_spell_cast(NetworkID::new(1), 0x10, 0, false, NetworkID::new(2)),
        Packet::SpellCast { id: NetworkID::new(1), spell: 0x10, source: 0, dual: false, target: NetworkID::new(2) }
    );
}

#[test]
fn configured_ipc_mode_names_the_connection() {
    assert_eq!(ipc_mode_for("unix", 1771), IpcMode::Native { path: "/tmp/ashfall-ipc.sock".to_string() });
    assert_eq!(ipc_mode_for("tcp", 2000), IpcMode::Proton { port: 2000 });
    assert_eq!(ipc_mode_for("stub", 2000), IpcMode::Stub);
    assert_eq!(ipc_mode_for("TCP", 2000), IpcMode::Stub);
}
