use ashfall::channel::{Channel, PacketKind};
use ashfall::string_cache::{CachedString, StringTable};
use ashfall::types::ObjectKind;

#[test]
fn test_intern_assigns_stable_ids() {
    let mut t = StringTable::new();
    assert_eq!(t.intern("hello"), 0);
    assert_eq!(t.intern("world"), 1);
    assert_eq!(t.intern("hello"), 0, "repeat returns the same id");
    assert_eq!(t.lookup(0), Some("hello"));
    assert_eq!(t.lookup(1), Some("world"));
    assert_eq!(t.lookup(99), None);
    assert_eq!(t.len(), 2);
    assert!(!t.is_empty());
}

#[test]
fn test_intern_plain_then_id_only() {
    let mut table = StringTable::new();
    let first = CachedString::intern(&mut table, "Vault101".to_string());
    assert!(matches!(&first, CachedString::Inline { id: 0, value } if value == "Vault101"));
    let second = CachedString::intern(&mut table, "Vault101".to_string());
    assert_eq!(second, CachedString::Id(0), "repeat sends id only");
}

#[test]
fn test_client_resolve_builds_table() {
    let mut t = StringTable::new();
    let s = CachedString::Inline { id: 3, value: "Vault101".into() };
    assert_eq!(s.resolve(&mut t), "Vault101");
    assert_eq!(t.lookup(3), Some("Vault101"));
    assert_eq!(CachedString::Id(3).resolve(&mut t), "Vault101");
    assert_eq!(CachedString::Id(7).resolve(&mut t), "", "unknown id -> empty");
    assert_eq!(CachedString::Plain("raw".into()).resolve(&mut t), "raw");
    assert_eq!(t.lookup(0), None, "plain never registered");
}

#[test]
fn resolve_inline_pads_with_placeholders() {
    let mut t = StringTable::new();
    CachedString::Inline { id: 2, value: "Megaton".into() }.resolve(&mut t);
    assert_eq!(t.len(), 3);
    assert_eq!(t.lookup(0), None);
    assert_eq!(t.lookup(1), None);
    assert_eq!(t.lookup(2), Some("Megaton"));
    assert!(StringTable::new().is_empty());
}

#[test]
fn resolve_inline_into_a_placeholder_keeps_higher_ids() {
    let mut t = StringTable::new();
    CachedString::Inline { id: 2, value: "x".into() }.resolve(&mut t);
    CachedString::Inline { id: 0, value: "y".into() }.resolve(&mut t);
    assert_eq!(t.lookup(0), Some("y"));
    assert_eq!(t.lookup(2), Some("x"));
    assert_eq!(t.len(), 3);
    assert_eq!(CachedString::Id(2).resolve(&mut t), "x");
}

#[test]
fn packet_channel_mapping() {
    assert_eq!(Channel::from_packet(&PacketKind::GameStart), Channel::System);
    assert_eq!(Channel::from_packet(&PacketKind::GameChat), Channel::Chat);
    assert_eq!(Channel::from_packet(&PacketKind::UpdatePos), Channel::Game);
    assert_eq!(Channel::from_packet(&PacketKind::QuestStage), Channel::System);
}

#[test]
fn test_channel_routing() {
    for k in [
        PacketKind::GameStart,
        PacketKind::QuestStage,
        PacketKind::DialogueFlag,
        PacketKind::DialogueChoice,
        PacketKind::KarmaUpdate,
        PacketKind::ReputationUpdate,
        PacketKind::HardcoreStats,
    ] {
        assert_eq!(Channel::from_packet(&k), Channel::System);
    }
    assert_eq!(Channel::from_packet(&PacketKind::GameChat), Channel::Chat);
    assert_eq!(Channel::from_packet(&PacketKind::UpdatePos), Channel::Game);
    assert_eq!(Channel::from_packet(&PacketKind::ActorHit), Channel::Game);
}

#[test]
fn unreliable_delivery_set() {
    assert!(Channel::is_unreliable(&PacketKind::UpdatePos));
    assert!(Channel::is_unreliable(&PacketKind::UpdateAngle));
    assert!(Channel::is_unreliable(&PacketKind::UpdateVelocity));
    assert!(!Channel::is_unreliable(&PacketKind::GameStart));
    assert!(!Channel::is_unreliable(&PacketKind::GameChat));
}

#[test]
fn test_unreliable_routing() {
    assert!(Channel::is_unreliable(&PacketKind::UpdatePos));
    assert!(Channel::is_unreliable(&PacketKind::UpdateAngle));
    assert!(Channel::is_unreliable(&PacketKind::UpdateVelocity));
    assert!(Channel::is_unreliable(&PacketKind::ProjectileRemove));
    assert!(!Channel::is_unreliable(&PacketKind::GameChat));
    assert!(!Channel::is_unreliable(&PacketKind::ActorDamaged));
}

#[test]
fn object_kind_hierarchy() {
    assert_eq!(ObjectKind::Player.mask(), 0x40);
    assert!(ObjectKind::Player.is_kind(ObjectKind::Actor));
    assert!(ObjectKind::Player.is_kind(ObjectKind::Reference));
    assert!(ObjectKind::Container.is_kind(ObjectKind::ItemList));
    assert!(!ObjectKind::Item.is_kind(ObjectKind::Container));
    assert!(ObjectKind::Button.is_kind(ObjectKind::Window));
    assert!(!ObjectKind::Button.is_kind(ObjectKind::Text));
    assert!(ObjectKind::Text.is_kind(ObjectKind::Text));
}

#[test]
fn host_strings_are_read_as_utf8() {
    use_host_strings();
}

fn use_host_strings() {
    assert_eq!(ashfall::script::read_host_string(Some(b"hello")), Some("hello".to_string()));
    assert_eq!(ashfall::script::read_host_string(Some("Vault 101 — ok".as_bytes())), Some("Vault 101 — ok".to_string()));
    assert_eq!(ashfall::script::read_host_string(Some(&[])), None, "zero length");
    assert_eq!(ashfall::script::read_host_string(None), None, "null pointer");
    assert_eq!(ashfall::script::read_host_string(Some(&[0xFF, 0x41])), None, "not UTF-8");
    assert_eq!(ashfall::script::read_host_string_or_empty(Some(&[0xC3])), String::new());
    assert_eq!(ashfall::script::read_host_string_or_empty(Some(b"x")), "x".to_string());
}
