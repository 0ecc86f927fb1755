//! Game protocol packets as the client logic reads and writes them.
//!
//! Floating-point fields are IEEE-754 single-precision bit patterns and map
//! fields are lists of (key, value) pairs. Packets of the remaining kinds
//! are held as `Other` with their kind.
use vstd::prelude::*;
use crate::channel::PacketKind;
use crate::id::NetworkID;
use crate::string_cache::CachedString;

verus! {

/// A protocol packet.
#[derive(Debug, Clone, PartialEq, Eq)]
pub enum Packet {
    /// Client to server: join request.
    GameAuth { name: String, password: String, version: String },
    /// Server to client: world state follows.
    GameLoad,
    /// Server to client: the game loop starts.
    GameStart,
    /// End of the session, with a reason code.
    GameEnd { reason: u8 },
    /// Chat message broadcast.
    GameChat { message: String },
    /// Server to client: weather change.
    GameWeather { weather: u32 },
    /// Server to client: the game clock; `time_scale` is a bit pattern.
    GameTime { year: u32, month: u32, day: u32, hour: u32, time_scale: u32 },
    /// Server to client: server rules sent on join.
    ServerSettings { pvp_enabled: bool },
    /// Client to server: the load order, as (file name, CRC32) pairs.
    GameModList { mods: Vec<(String, u32)> },
    /// A spell cast by `id`.
    SpellCast { id: NetworkID, spell: u32, source: i32, dual: bool, target: NetworkID },
    /// Server to client: karma.
    KarmaUpdate { value: i32 },
    /// Server to client: reputation with a faction.
    ReputationUpdate { faction: u32, value: i32 },
    /// Server to client: hardcore needs, as bit patterns.
    HardcoreStats { hunger: u32, thirst: u32, sleep: u32 },
    /// Client to server: a server GUI widget was clicked.
    UpdateWindowClick { id: NetworkID },
    ObjectNew {
        id: NetworkID,
        ref_id: u32,
        base_id: u32,
        name: CachedString,
        game_pos: [u32; 3],
        net_pos: [u32; 3],
        angle: [u32; 3],
        scale: u32,
        cell: u32,
        enabled: bool,
        lock: u32,
        owner: u32,
    },
    ObjectRemove { id: NetworkID, silent: bool },
    UpdatePos { id: NetworkID, pos: [u32; 3] },
    /// Rotation about the x and z axes.
    UpdateAngle { id: NetworkID, angle: [u32; 2] },
    UpdateName { id: NetworkID, name: CachedString },
    UpdateLock { id: NetworkID, lock: u32 },
    UpdateScale { id: NetworkID, scale: u32 },
    /// `actor` activated object `id`.
    UpdateActivate { id: NetworkID, actor: NetworkID },
    ItemNew {
        id: NetworkID,
        ref_id: u32,
        base_id: u32,
        container: NetworkID,
        count: u32,
        condition: u32,
        equipped: bool,
        silent: bool,
        stick: bool,
    },
    UpdateItemCount { id: NetworkID, count: u32, silent: bool },
    UpdateItemCondition { id: NetworkID, condition: u32, health: u32 },
    UpdateItemEquipped { id: NetworkID, equipped: bool, silent: bool, stick: bool },
    ActorNew {
        id: NetworkID,
        ref_id: u32,
        base_id: u32,
        values: Vec<(u8, u32)>,
        base_values: Vec<(u8, u32)>,
        race: u32,
        age: i32,
        idle: u32,
        moving: u8,
        moving_xy: u8,
        weapon: u8,
        female: bool,
        alerted: bool,
        sneaking: bool,
        dead: bool,
        death_limbs: u16,
        death_cause: i8,
        scale: u32,
    },
    UpdateActorState {
        id: NetworkID,
        idle: u32,
        moving: u8,
        moving_xy: u8,
        weapon: u8,
        alerted: bool,
        sneaking: bool,
        firing: bool,
    },
    /// Actor state fields that changed; absent fields keep their value.
    ActorStateDelta {
        id: NetworkID,
        idle: Option<u32>,
        moving: Option<u8>,
        moving_xy: Option<u8>,
        weapon: Option<u8>,
        alerted: Option<bool>,
        sneaking: Option<bool>,
        firing: Option<bool>,
    },
    UpdateActorDead { id: NetworkID, dead: bool, limbs: u16, cause: i8 },
    UpdateActorValue { id: NetworkID, base: bool, index: u8, value: u32 },
    UpdateFireWeapon { id: NetworkID, weapon: u32 },
    PlayerNew {
        id: NetworkID,
        ref_id: u32,
        base_id: u32,
        controls: Vec<(u8, (u8, bool))>,
        scale: u32,
    },
    /// Client asks to simulate an NPC it observed.
    OwnershipClaim { id: NetworkID },
    /// Server grants the simulation of an NPC.
    OwnershipGranted { id: NetworkID },
    /// Server takes the simulation back.
    OwnershipReleased { id: NetworkID },
    WindowNew {
        id: NetworkID,
        parent: NetworkID,
        label: String,
        pos: [u32; 4],
        size: [u32; 4],
        locked: bool,
        visible: bool,
        text: String,
    },
    ButtonNew {
        id: NetworkID,
        parent: NetworkID,
        label: String,
        pos: [u32; 4],
        size: [u32; 4],
        locked: bool,
        visible: bool,
        text: String,
    },
    TextNew {
        id: NetworkID,
        parent: NetworkID,
        label: String,
        pos: [u32; 4],
        size: [u32; 4],
        locked: bool,
        visible: bool,
        text: String,
    },
    EditNew {
        id: NetworkID,
        parent: NetworkID,
        label: String,
        pos: [u32; 4],
        size: [u32; 4],
        locked: bool,
        visible: bool,
        text: String,
        max_len: u32,
        validation: String,
    },
    CheckboxNew {
        id: NetworkID,
        parent: NetworkID,
        label: String,
        pos: [u32; 4],
        size: [u32; 4],
        locked: bool,
        visible: bool,
        text: String,
        selected: bool,
    },
    RadioButtonNew {
        id: NetworkID,
        parent: NetworkID,
        label: String,
        pos: [u32; 4],
        size: [u32; 4],
        locked: bool,
        visible: bool,
        text: String,
        selected: bool,
        group: u32,
    },
    ListNew {
        id: NetworkID,
        parent: NetworkID,
        label: String,
        pos: [u32; 4],
        size: [u32; 4],
        locked: bool,
        visible: bool,
        text: String,
        multiselect: bool,
    },
    ListItemNew { id: NetworkID, container: NetworkID, text: String, selected: bool },
    ListItemRemove { id: NetworkID },
    WindowRemove { id: NetworkID },
    UpdateWindowPos { id: NetworkID, pos: [u32; 4] },
    UpdateWindowSize { id: NetworkID, size: [u32; 4] },
    UpdateWindowVisible { id: NetworkID, visible: bool },
    UpdateWindowLocked { id: NetworkID, locked: bool },
    UpdateWindowText { id: NetworkID, text: String },
    UpdateEditMaxLen { id: NetworkID, max_len: u32 },
    UpdateEditValidation { id: NetworkID, validation: String },
    UpdateCheckboxSelected { id: NetworkID, selected: bool },
    UpdateRadioButtonSelected { id: NetworkID, previous: NetworkID, selected: bool },
    UpdateRadioButtonGroup { id: NetworkID, group: u32 },
    UpdateListMultiSelect { id: NetworkID, multiselect: bool },
    UpdateListItemSelected { id: NetworkID, selected: bool },
    UpdateListItemText { id: NetworkID, text: String },
    UpdateWindowMode { enabled: bool },
    /// Server and client: a mod file to verify, with its CRC32.
    GameMod { filename: String, crc: u32 },
    /// Server to client: a UI notification.
    GameMessage { message: String, emoticon: u8 },
    /// Server to client: a global variable's value.
    GameGlobal { global: u32, value: i32 },
    /// Server to client: the player's base form.
    GameBase { player_base: u32 },
    /// Server to client: deleted static references, by cell.
    GameDeleted { deleted: Vec<(u32, Vec<u32>)> },
    /// A bare reference.
    ReferenceNew { id: NetworkID, ref_id: u32, base_id: u32 },
    /// A short-lived object at a position.
    VolatileNew { id: NetworkID, base_id: u32, pos: [u32; 3] },
    /// An object moved to another cell.
    UpdateCell { id: NetworkID, cell: u32, pos: [u32; 3] },
    /// An object's owner changed.
    UpdateOwner { id: NetworkID, owner: u32 },
    /// An object plays a sound.
    UpdateSound { id: NetworkID, sound: u32 },
    /// A container.
    ContainerNew { id: NetworkID, ref_id: u32, base_id: u32 },
    /// The items of a container.
    ItemListNew { id: NetworkID, items: Vec<NetworkID> },
    /// An actor's race and age.
    UpdateActorRace { id: NetworkID, race: u32, age: i32, delta_age: i32 },
    /// An actor's sex.
    UpdateActorSex { id: NetworkID, female: bool },
    /// An actor's idle animation.
    UpdateActorIdle { id: NetworkID, idle: u32, name: String },
    /// A player's control binding.
    UpdateControl { id: NetworkID, control: u8, key: u8 },
    /// A player entered an interior cell.
    UpdateInterior { id: NetworkID, cell: String, spawn: bool },
    /// A player entered an exterior cell.
    UpdateExterior { id: NetworkID, world: u32, x: i32, y: i32, spawn: bool },
    /// The cells around a player.
    UpdateContext { id: NetworkID, cells: [u32; 9], spawn: bool },
    /// A player's console access.
    UpdateConsole { id: NetworkID, enabled: bool },
    /// A server GUI widget's return key.
    UpdateWindowReturn { id: NetworkID },
    /// Client to master: list the servers.
    MasterQuery,
    /// Server to master: announcement; rules as (key, value) pairs.
    MasterAnnounce { name: String, map: String, players: u32, max_players: u32, rules: Vec<(String, String)>, mod_files: Vec<String>, game_type: String },
    /// Server to master: player count update.
    MasterUpdate { name: String, map: String, players: u32, max_players: u32 },
    /// Any other packet, by kind.
    Other(PacketKind),
}

/// The kind (variant tag) of a packet.
pub open spec fn kind_of(p: Packet) -> PacketKind {
    match p {
        Packet::GameAuth { .. } => PacketKind::GameAuth,
        Packet::GameLoad { .. } => PacketKind::GameLoad,
        Packet::GameStart { .. } => PacketKind::GameStart,
        Packet::GameEnd { .. } => PacketKind::GameEnd,
        Packet::GameChat { .. } => PacketKind::GameChat,
        Packet::GameWeather { .. } => PacketKind::GameWeather,
        Packet::GameTime { .. } => PacketKind::GameTime,
        Packet::ServerSettings { .. } => PacketKind::ServerSettings,
        Packet::GameModList { .. } => PacketKind::GameModList,
        Packet::SpellCast { .. } => PacketKind::SpellCast,
        Packet::KarmaUpdate { .. } => PacketKind::KarmaUpdate,
        Packet::ReputationUpdate { .. } => PacketKind::ReputationUpdate,
        Packet::HardcoreStats { .. } => PacketKind::HardcoreStats,
        Packet::UpdateWindowClick { .. } => PacketKind::UpdateWindowClick,
        Packet::ObjectNew { .. } => PacketKind::ObjectNew,
        Packet::ObjectRemove { .. } => PacketKind::ObjectRemove,
        Packet::UpdatePos { .. } => PacketKind::UpdatePos,
        Packet::UpdateAngle { .. } => PacketKind::UpdateAngle,
        Packet::UpdateName { .. } => PacketKind::UpdateName,
        Packet::UpdateLock { .. } => PacketKind::UpdateLock,
        Packet::UpdateScale { .. } => PacketKind::UpdateScale,
        Packet::UpdateActivate { .. } => PacketKind::UpdateActivate,
        Packet::ItemNew { .. } => PacketKind::ItemNew,
        Packet::UpdateItemCount { .. } => PacketKind::UpdateItemCount,
        Packet::UpdateItemCondition { .. } => PacketKind::UpdateItemCondition,
        Packet::UpdateItemEquipped { .. } => PacketKind::UpdateItemEquipped,
        Packet::ActorNew { .. } => PacketKind::ActorNew,
        Packet::UpdateActorState { .. } => PacketKind::UpdateActorState,
        Packet::ActorStateDelta { .. } => PacketKind::ActorStateDelta,
        Packet::UpdateActorDead { .. } => PacketKind::UpdateActorDead,
        Packet::UpdateActorValue { .. } => PacketKind::UpdateActorValue,
        Packet::UpdateFireWeapon { .. } => PacketKind::UpdateFireWeapon,
        Packet::PlayerNew { .. } => PacketKind::PlayerNew,
        Packet::OwnershipClaim { .. } => PacketKind::OwnershipClaim,
        Packet::OwnershipGranted { .. } => PacketKind::OwnershipGranted,
        Packet::OwnershipReleased { .. } => PacketKind::OwnershipReleased,
        Packet::WindowNew { .. } => PacketKind::WindowNew,
        Packet::ButtonNew { .. } => PacketKind::ButtonNew,
        Packet::TextNew { .. } => PacketKind::TextNew,
        Packet::EditNew { .. } => PacketKind::EditNew,
        Packet::CheckboxNew { .. } => PacketKind::CheckboxNew,
        Packet::RadioButtonNew { .. } => PacketKind::RadioButtonNew,
        Packet::ListNew { .. } => PacketKind::ListNew,
        Packet::ListItemNew { .. } => PacketKind::ListItemNew,
        Packet::ListItemRemove { .. } => PacketKind::ListItemRemove,
        Packet::WindowRemove { .. } => PacketKind::WindowRemove,
        Packet::UpdateWindowPos { .. } => PacketKind::UpdateWindowPos,
        Packet::UpdateWindowSize { .. } => PacketKind::UpdateWindowSize,
        Packet::UpdateWindowVisible { .. } => PacketKind::UpdateWindowVisible,
        Packet::UpdateWindowLocked { .. } => PacketKind::UpdateWindowLocked,
        Packet::UpdateWindowText { .. } => PacketKind::UpdateWindowText,
        Packet::UpdateEditMaxLen { .. } => PacketKind::UpdateEditMaxLen,
        Packet::UpdateEditValidation { .. } => PacketKind::UpdateEditValidation,
        Packet::UpdateCheckboxSelected { .. } => PacketKind::UpdateCheckboxSelected,
        Packet::UpdateRadioButtonSelected { .. } => PacketKind::UpdateRadioButtonSelected,
        Packet::UpdateRadioButtonGroup { .. } => PacketKind::UpdateRadioButtonGroup,
        Packet::UpdateListMultiSelect { .. } => PacketKind::UpdateListMultiSelect,
        Packet::UpdateListItemSelected { .. } => PacketKind::UpdateListItemSelected,
        Packet::UpdateListItemText { .. } => PacketKind::UpdateListItemText,
        Packet::UpdateWindowMode { .. } => PacketKind::UpdateWindowMode,
        Packet::GameMod { .. } => PacketKind::GameMod,
        Packet::GameMessage { .. } => PacketKind::GameMessage,
        Packet::GameGlobal { .. } => PacketKind::GameGlobal,
        Packet::GameBase { .. } => PacketKind::GameBase,
        Packet::GameDeleted { .. } => PacketKind::GameDeleted,
        Packet::ReferenceNew { .. } => PacketKind::ReferenceNew,
        Packet::VolatileNew { .. } => PacketKind::VolatileNew,
        Packet::UpdateCell { .. } => PacketKind::UpdateCell,
        Packet::UpdateOwner { .. } => PacketKind::UpdateOwner,
        Packet::UpdateSound { .. } => PacketKind::UpdateSound,
        Packet::ContainerNew { .. } => PacketKind::ContainerNew,
        Packet::ItemListNew { .. } => PacketKind::ItemListNew,
        Packet::UpdateActorRace { .. } => PacketKind::UpdateActorRace,
        Packet::UpdateActorSex { .. } => PacketKind::UpdateActorSex,
        Packet::UpdateActorIdle { .. } => PacketKind::UpdateActorIdle,
        Packet::UpdateControl { .. } => PacketKind::UpdateControl,
        Packet::UpdateInterior { .. } => PacketKind::UpdateInterior,
        Packet::UpdateExterior { .. } => PacketKind::UpdateExterior,
        Packet::UpdateContext { .. } => PacketKind::UpdateContext,
        Packet::UpdateConsole { .. } => PacketKind::UpdateConsole,
        Packet::UpdateWindowReturn { .. } => PacketKind::UpdateWindowReturn,
        Packet::MasterQuery { .. } => PacketKind::MasterQuery,
        Packet::MasterAnnounce { .. } => PacketKind::MasterAnnounce,
        Packet::MasterUpdate { .. } => PacketKind::MasterUpdate,
        Packet::Other(k) => k,
    }
}

impl Packet {
    /// The kind (variant tag) of this packet.
    pub fn kind(&self) -> (r: PacketKind)
        ensures
            r == kind_of(*self),
    {
        match self {
            Packet::GameAuth { .. } => PacketKind::GameAuth,
            Packet::GameLoad { .. } => PacketKind::GameLoad,
            Packet::GameStart { .. } => PacketKind::GameStart,
            Packet::GameEnd { .. } => PacketKind::GameEnd,
            Packet::GameChat { .. } => PacketKind::GameChat,
            Packet::GameWeather { .. } => PacketKind::GameWeather,
            Packet::GameTime { .. } => PacketKind::GameTime,
            Packet::ServerSettings { .. } => PacketKind::ServerSettings,
            Packet::GameModList { .. } => PacketKind::GameModList,
            Packet::SpellCast { .. } => PacketKind::SpellCast,
            Packet::KarmaUpdate { .. } => PacketKind::KarmaUpdate,
            Packet::ReputationUpdate { .. } => PacketKind::ReputationUpdate,
            Packet::HardcoreStats { .. } => PacketKind::HardcoreStats,
            Packet::UpdateWindowClick { .. } => PacketKind::UpdateWindowClick,
            Packet::ObjectNew { .. } => PacketKind::ObjectNew,
            Packet::ObjectRemove { .. } => PacketKind::ObjectRemove,
            Packet::UpdatePos { .. } => PacketKind::UpdatePos,
            Packet::UpdateAngle { .. } => PacketKind::UpdateAngle,
            Packet::UpdateName { .. } => PacketKind::UpdateName,
            Packet::UpdateLock { .. } => PacketKind::UpdateLock,
            Packet::UpdateScale { .. } => PacketKind::UpdateScale,
            Packet::UpdateActivate { .. } => PacketKind::UpdateActivate,
            Packet::ItemNew { .. } => PacketKind::ItemNew,
            Packet::UpdateItemCount { .. } => PacketKind::UpdateItemCount,
            Packet::UpdateItemCondition { .. } => PacketKind::UpdateItemCondition,
            Packet::UpdateItemEquipped { .. } => PacketKind::UpdateItemEquipped,
            Packet::ActorNew { .. } => PacketKind::ActorNew,
            Packet::UpdateActorState { .. } => PacketKind::UpdateActorState,
            Packet::ActorStateDelta { .. } => PacketKind::ActorStateDelta,
            Packet::UpdateActorDead { .. } => PacketKind::UpdateActorDead,
            Packet::UpdateActorValue { .. } => PacketKind::UpdateActorValue,
            Packet::UpdateFireWeapon { .. } => PacketKind::UpdateFireWeapon,
            Packet::PlayerNew { .. } => PacketKind::PlayerNew,
            Packet::OwnershipClaim { .. } => PacketKind::OwnershipClaim,
            Packet::OwnershipGranted { .. } => PacketKind::OwnershipGranted,
            Packet::OwnershipReleased { .. } => PacketKind::OwnershipReleased,
            Packet::WindowNew { .. } => PacketKind::WindowNew,
            Packet::ButtonNew { .. } => PacketKind::ButtonNew,
            Packet::TextNew { .. } => PacketKind::TextNew,
            Packet::EditNew { .. } => PacketKind::EditNew,
            Packet::CheckboxNew { .. } => PacketKind::CheckboxNew,
            Packet::RadioButtonNew { .. } => PacketKind::RadioButtonNew,
            Packet::ListNew { .. } => PacketKind::ListNew,
            Packet::ListItemNew { .. } => PacketKind::ListItemNew,
            Packet::ListItemRemove { .. } => PacketKind::ListItemRemove,
            Packet::WindowRemove { .. } => PacketKind::WindowRemove,
            Packet::UpdateWindowPos { .. } => PacketKind::UpdateWindowPos,
            Packet::UpdateWindowSize { .. } => PacketKind::UpdateWindowSize,
            Packet::UpdateWindowVisible { .. } => PacketKind::UpdateWindowVisible,
            Packet::UpdateWindowLocked { .. } => PacketKind::UpdateWindowLocked,
            Packet::UpdateWindowText { .. } => PacketKind::UpdateWindowText,
            Packet::UpdateEditMaxLen { .. } => PacketKind::UpdateEditMaxLen,
            Packet::UpdateEditValidation { .. } => PacketKind::UpdateEditValidation,
            Packet::UpdateCheckboxSelected { .. } => PacketKind::UpdateCheckboxSelected,
            Packet::UpdateRadioButtonSelected { .. } => PacketKind::UpdateRadioButtonSelected,
            Packet::UpdateRadioButtonGroup { .. } => PacketKind::UpdateRadioButtonGroup,
            Packet::UpdateListMultiSelect { .. } => PacketKind::UpdateListMultiSelect,
            Packet::UpdateListItemSelected { .. } => PacketKind::UpdateListItemSelected,
            Packet::UpdateListItemText { .. } => PacketKind::UpdateListItemText,
            Packet::UpdateWindowMode { .. } => PacketKind::UpdateWindowMode,
            Packet::GameMod { .. } => PacketKind::GameMod,
            Packet::GameMessage { .. } => PacketKind::GameMessage,
            Packet::GameGlobal { .. } => PacketKind::GameGlobal,
            Packet::GameBase { .. } => PacketKind::GameBase,
            Packet::GameDeleted { .. } => PacketKind::GameDeleted,
            Packet::ReferenceNew { .. } => PacketKind::ReferenceNew,
            Packet::VolatileNew { .. } => PacketKind::VolatileNew,
            Packet::UpdateCell { .. } => PacketKind::UpdateCell,
            Packet::UpdateOwner { .. } => PacketKind::UpdateOwner,
            Packet::UpdateSound { .. } => PacketKind::UpdateSound,
            Packet::ContainerNew { .. } => PacketKind::ContainerNew,
            Packet::ItemListNew { .. } => PacketKind::ItemListNew,
            Packet::UpdateActorRace { .. } => PacketKind::UpdateActorRace,
            Packet::UpdateActorSex { .. } => PacketKind::UpdateActorSex,
            Packet::UpdateActorIdle { .. } => PacketKind::UpdateActorIdle,
            Packet::UpdateControl { .. } => PacketKind::UpdateControl,
            Packet::UpdateInterior { .. } => PacketKind::UpdateInterior,
            Packet::UpdateExterior { .. } => PacketKind::UpdateExterior,
            Packet::UpdateContext { .. } => PacketKind::UpdateContext,
            Packet::UpdateConsole { .. } => PacketKind::UpdateConsole,
            Packet::UpdateWindowReturn { .. } => PacketKind::UpdateWindowReturn,
            Packet::MasterQuery { .. } => PacketKind::MasterQuery,
            Packet::MasterAnnounce { .. } => PacketKind::MasterAnnounce,
            Packet::MasterUpdate { .. } => PacketKind::MasterUpdate,
            Packet::Other(k) => *k,
        }
    }
}

/// The chat packet carrying a message.
pub fn build_chat_packet(message: String) -> (r: Packet)
    ensures
        r == (Packet::GameChat { message }),
{
    Packet::GameChat { message }
}

} // verus!
