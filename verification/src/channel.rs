//! Packet channels (RakNet channel semantics) and delivery classes.
//!
//! Routing depends only on which kind of packet is sent, so it is stated
//! over [`PacketKind`], the variant tag of a protocol packet.
use vstd::prelude::*;

verus! {

/// Communication channel for packet ordering guarantees.
#[derive(Debug, Clone, Copy, PartialEq, Eq, Structural)]
pub enum Channel {
    /// Authentication, state setup, disconnect, quest/dialogue and world globals.
    System,
    /// Object/actor/item/position sync.
    Game,
    /// Chat messages.
    Chat,
}

/// The kind (variant tag) of a protocol packet.
#[derive(Debug, Clone, Copy, PartialEq, Eq, Structural)]
pub enum PacketKind {
    GameAuth,
    GameLoad,
    GameStart,
    GameEnd,
    GameMod,
    GameMessage,
    GameChat,
    GameWeather,
    GameGlobal,
    GameBase,
    GameDeleted,
    ReferenceNew,
    ObjectNew,
    VolatileNew,
    ObjectRemove,
    UpdatePos,
    UpdateAngle,
    UpdateCell,
    UpdateName,
    UpdateLock,
    UpdateOwner,
    UpdateActivate,
    UpdateSound,
    ItemNew,
    UpdateItemCount,
    UpdateItemCondition,
    UpdateItemEquipped,
    ContainerNew,
    ItemListNew,
    ActorNew,
    UpdateActorState,
    UpdateActorRace,
    UpdateActorSex,
    UpdateActorDead,
    UpdateActorValue,
    UpdateFireWeapon,
    UpdateActorIdle,
    PlayerNew,
    UpdateControl,
    UpdateInterior,
    UpdateExterior,
    UpdateContext,
    UpdateConsole,
    WindowNew,
    WindowRemove,
    EditNew,
    CheckboxNew,
    RadioButtonNew,
    ListNew,
    ListItemNew,
    ListItemRemove,
    UpdateWindowPos,
    UpdateWindowSize,
    UpdateWindowVisible,
    UpdateWindowLocked,
    UpdateWindowText,
    UpdateEditMaxLen,
    UpdateEditValidation,
    UpdateCheckboxSelected,
    UpdateRadioButtonSelected,
    UpdateRadioButtonGroup,
    UpdateListMultiSelect,
    UpdateListItemSelected,
    UpdateListItemText,
    UpdateWindowMode,
    UpdateWindowClick,
    UpdateWindowReturn,
    MasterQuery,
    MasterAnnounce,
    MasterUpdate,
    ActorAIPackage,
    ActorCombatTarget,
    ActorDamaged,
    ActorDeathExt,
    ActorFaction,
    ActorHit,
    ActorStateDelta,
    ButtonNew,
    TextNew,
    CellSnapshot,
    DialogueChoice,
    DialogueFlag,
    DoorState,
    ExplosionNew,
    GameModList,
    GameTime,
    HardcoreStats,
    KarmaUpdate,
    OwnershipClaim,
    OwnershipGranted,
    OwnershipReleased,
    ProjectileNew,
    ProjectileRemove,
    QuestStage,
    ReputationUpdate,
    ServerSettings,
    SpellCast,
    TerminalState,
    UpdateScale,
    UpdateVelocity,
}

/// Kinds routed on the system channel.
pub open spec fn is_system_kind(k: PacketKind) -> bool {
    match k {
        PacketKind::GameStart | PacketKind::GameLoad | PacketKind::GameEnd | PacketKind::GameAuth | PacketKind::GameMod | PacketKind::GameMessage | PacketKind::GameWeather | PacketKind::GameGlobal | PacketKind::GameBase | PacketKind::GameDeleted | PacketKind::QuestStage | PacketKind::DialogueFlag | PacketKind::DialogueChoice | PacketKind::KarmaUpdate | PacketKind::ReputationUpdate | PacketKind::HardcoreStats => true,
        _ => false,
    }
}

/// The channel a packet kind travels on: system kinds on System, chat on
/// Chat, everything else on Game.
pub open spec fn channel_of(k: PacketKind) -> Channel {
    if is_system_kind(k) {
        Channel::System
    } else if k == PacketKind::GameChat {
        Channel::Chat
    } else {
        Channel::Game
    }
}

/// Kinds that tolerate loss (position, angle, velocity, projectile removal).
pub open spec fn is_unreliable_kind(k: PacketKind) -> bool {
    match k {
        PacketKind::UpdatePos | PacketKind::UpdateAngle | PacketKind::UpdateVelocity
        | PacketKind::ProjectileRemove => true,
        _ => false,
    }
}

impl Channel {
    /// The channel a packet of this kind travels on.
    pub fn from_packet(packet: &PacketKind) -> (r: Channel)
        ensures
            r == channel_of(*packet),
    {
        match packet {
            PacketKind::GameStart
            | PacketKind::GameLoad
            | PacketKind::GameEnd
            | PacketKind::GameAuth
            | PacketKind::GameMod
            | PacketKind::GameMessage
            | PacketKind::GameWeather
            | PacketKind::GameGlobal
            | PacketKind::GameBase
            | PacketKind::GameDeleted
            | PacketKind::QuestStage
            | PacketKind::DialogueFlag
            | PacketKind::DialogueChoice
            | PacketKind::KarmaUpdate
            | PacketKind::ReputationUpdate
            | PacketKind::HardcoreStats => Channel::System,
            PacketKind::GameChat => Channel::Chat,
            _ => Channel::Game,
        }
    }

    /// Whether a packet of this kind uses unreliable (fire-and-forget) delivery.
    pub fn is_unreliable(packet: &PacketKind) -> (r: bool)
        ensures
            r == is_unreliable_kind(*packet),
    {
        match packet {
            PacketKind::UpdatePos | PacketKind::UpdateAngle | PacketKind::UpdateVelocity
            | PacketKind::ProjectileRemove => true,
            _ => false,
        }
    }
}

/// Routing: the session, world-setting, quest, dialogue and reputation
/// kinds (GameStart, GameLoad, GameEnd, GameAuth, GameMod, GameMessage,
/// GameWeather, GameGlobal, GameBase, GameDeleted, QuestStage,
/// DialogueFlag, DialogueChoice, KarmaUpdate, ReputationUpdate,
/// HardcoreStats) travel on the system channel, chat on the chat channel,
/// and every other kind on the game channel.
pub proof fn law_channel_routing(k: PacketKind)
    ensures
        ({
            let system = k == PacketKind::GameStart || k == PacketKind::GameLoad || k == PacketKind::GameEnd
                || k == PacketKind::GameAuth || k == PacketKind::GameMod || k == PacketKind::GameMessage
                || k == PacketKind::GameWeather || k == PacketKind::GameGlobal || k == PacketKind::GameBase
                || k == PacketKind::GameDeleted || k == PacketKind::QuestStage || k == PacketKind::DialogueFlag
                || k == PacketKind::DialogueChoice || k == PacketKind::KarmaUpdate
                || k == PacketKind::ReputationUpdate || k == PacketKind::HardcoreStats;
            &&& system ==> channel_of(k) == Channel::System
            &&& k == PacketKind::GameChat ==> channel_of(k) == Channel::Chat
            &&& !system && k != PacketKind::GameChat ==> channel_of(k) == Channel::Game
        }),
{
}

/// Delivery class: position, rotation and velocity updates and projectile
/// removals go unreliable (a newer one supersedes a lost one); every other
/// kind is delivered reliably.
pub proof fn law_unreliable_kinds(k: PacketKind)
    ensures
        is_unreliable_kind(k) <==> (k == PacketKind::UpdatePos || k == PacketKind::UpdateAngle
            || k == PacketKind::UpdateVelocity || k == PacketKind::ProjectileRemove),
{
}

/// Unreliable delivery is only ever used on the game channel: chat and
/// system traffic is always reliable.
pub proof fn law_unreliable_only_on_game_channel(k: PacketKind)
    ensures
        is_unreliable_kind(k) ==> channel_of(k) == Channel::Game,
{
}

/// Wire-format packet header sent before the payload.
#[derive(Debug, Clone, Copy, PartialEq, Eq, Structural)]
pub struct PacketHeader {
    /// Total payload length (excluding this header).
    pub length: u16,
    /// Channel for ordering guarantees.
    pub channel: u8,
}

impl PacketHeader {
    /// Header size: 2 bytes length + 1 byte channel.
    pub const SIZE: usize = 3;
}

/// Largest postcard-encoded payload that fits one UDP datagram.
pub const MAX_PACKET_SIZE: usize = 1200;

} // verus!
