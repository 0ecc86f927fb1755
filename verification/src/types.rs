//! Object type bitmask hierarchy (Reference > Object > ItemList > ...).
use vstd::prelude::*;
use crate::id::NetworkID;

verus! {

/// Bitmask type identifiers for the object hierarchy.
#[derive(Debug, Clone, Copy, PartialEq, Eq, Hash, Structural)]
pub enum ObjectKind {
    Reference,
    Object,
    ItemList,
    Item,
    Container,
    Actor,
    Player,
    Window,
    Button,
    Text,
    Edit,
    Checkbox,
    RadioButton,
    ListItem,
    List,
}

/// Every reference kind (Reference..=Player).
pub const ALL_REFERENCES: u32 = 0x0000_007F;
/// Every object kind (Object..=Player).
pub const ALL_OBJECTS: u32 = 0x0000_007E;
/// Every item-list kind (ItemList, Container, Actor, Player).
pub const ALL_ITEMLISTS: u32 = 0x0000_0074;
/// Every container kind (Container, Actor, Player).
pub const ALL_CONTAINERS: u32 = 0x0000_0070;
/// Every actor kind (Actor, Player).
pub const ALL_ACTORS: u32 = 0x0000_0060;
/// Every GUI kind (Window..=List).
pub const ALL_WINDOWS: u32 = 0x0000_7F80;

/// The one-bit mask of a kind: bit i for the i-th kind in declaration order.
pub open spec fn kind_mask(k: ObjectKind) -> u32 {
    match k {
        ObjectKind::Reference => 0x0000_0001,
        ObjectKind::Object => 0x0000_0002,
        ObjectKind::ItemList => 0x0000_0004,
        ObjectKind::Item => 0x0000_0008,
        ObjectKind::Container => 0x0000_0010,
        ObjectKind::Actor => 0x0000_0020,
        ObjectKind::Player => 0x0000_0040,
        ObjectKind::Window => 0x0000_0080,
        ObjectKind::Button => 0x0000_0100,
        ObjectKind::Text => 0x0000_0200,
        ObjectKind::Edit => 0x0000_0400,
        ObjectKind::Checkbox => 0x0000_0800,
        ObjectKind::RadioButton => 0x0000_1000,
        ObjectKind::ListItem => 0x0000_2000,
        ObjectKind::List => 0x0000_4000,
    }
}

/// The family mask tested when asking whether a kind descends from `other`;
/// `None` for a leaf kind that only matches itself.
pub open spec fn family_mask(other: ObjectKind) -> Option<u32> {
    match other {
        ObjectKind::Reference => Some(ALL_REFERENCES),
        ObjectKind::Object => Some(ALL_OBJECTS),
        ObjectKind::ItemList => Some(ALL_ITEMLISTS),
        ObjectKind::Container => Some(ALL_CONTAINERS),
        ObjectKind::Actor => Some(ALL_ACTORS),
        ObjectKind::Item => Some(0x0000_0008u32),
        ObjectKind::Player => Some(0x0000_0040u32),
        ObjectKind::Window => Some(ALL_WINDOWS),
        _ => None,
    }
}

impl ObjectKind {
    pub fn mask(self) -> (r: u32)
        ensures
            r == kind_mask(self),
    {
        match self {
            ObjectKind::Reference => 0x0000_0001,
            ObjectKind::Object => 0x0000_0002,
            ObjectKind::ItemList => 0x0000_0004,
            ObjectKind::Item => 0x0000_0008,
            ObjectKind::Container => 0x0000_0010,
            ObjectKind::Actor => 0x0000_0020,
            ObjectKind::Player => 0x0000_0040,
            ObjectKind::Window => 0x0000_0080,
            ObjectKind::Button => 0x0000_0100,
            ObjectKind::Text => 0x0000_0200,
            ObjectKind::Edit => 0x0000_0400,
            ObjectKind::Checkbox => 0x0000_0800,
            ObjectKind::RadioButton => 0x0000_1000,
            ObjectKind::ListItem => 0x0000_2000,
            ObjectKind::List => 0x0000_4000,
        }
    }

    /// Whether this kind is or descends from `other`.
    pub fn is_kind(self, other: ObjectKind) -> (r: bool)
        ensures
            r == match family_mask(other) {
                Some(m) => kind_mask(self) & m != 0,
                None => self == other,
            },
    {
        match other {
            ObjectKind::Reference => self.mask() & ALL_REFERENCES != 0,
            ObjectKind::Object => self.mask() & ALL_OBJECTS != 0,
            ObjectKind::ItemList => self.mask() & ALL_ITEMLISTS != 0,
            ObjectKind::Container => self.mask() & ALL_CONTAINERS != 0,
            ObjectKind::Actor => self.mask() & ALL_ACTORS != 0,
            ObjectKind::Item => self.mask() & 0x0000_0008 != 0,
            ObjectKind::Player => self.mask() & 0x0000_0040 != 0,
            ObjectKind::Window => self.mask() & ALL_WINDOWS != 0,
            _ => self == other,
        }
    }
}

/// Every kind descends from itself, and a player is an actor, a container,
/// an item list, an object and a reference.
pub proof fn law_kind_hierarchy(k: ObjectKind)
    ensures
        family_mask(k) matches Some(m) ==> kind_mask(k) & m != 0,
        kind_mask(ObjectKind::Player) & ALL_ACTORS != 0,
        kind_mask(ObjectKind::Player) & ALL_CONTAINERS != 0,
        kind_mask(ObjectKind::Player) & ALL_ITEMLISTS != 0,
        kind_mask(ObjectKind::Player) & ALL_OBJECTS != 0,
        kind_mask(ObjectKind::Player) & ALL_REFERENCES != 0,
        kind_mask(ObjectKind::Window) & ALL_REFERENCES == 0,
        kind_mask(ObjectKind::Item) & ALL_CONTAINERS == 0,
{
    assert(1u32 & 0x7Fu32 != 0 && 2u32 & 0x7Eu32 != 0 && 4u32 & 0x74u32 != 0 && 8u32 & 8u32 != 0
        && 0x10u32 & 0x70u32 != 0 && 0x20u32 & 0x60u32 != 0 && 0x40u32 & 0x40u32 != 0 && 0x80u32
        & 0x7F80u32 != 0) by (bit_vector);
    assert(0x40u32 & 0x60u32 != 0 && 0x40u32 & 0x70u32 != 0 && 0x40u32 & 0x74u32 != 0 && 0x40u32
        & 0x7Eu32 != 0 && 0x40u32 & 0x7Fu32 != 0 && 0x80u32 & 0x7Fu32 == 0 && 8u32 & 0x70u32 == 0)
        by (bit_vector);
}

/// Core interface of every game object (Reference, Object, Item, Actor,
/// Player, Window, ...): its id, its kind and its kind bitmask.
pub trait GameObject {
    fn id(&self) -> NetworkID;

    fn kind(&self) -> ObjectKind;

    fn kind_mask(&self) -> u32;
}

/// Reason codes for a disconnect, in wire order (Kick = 0 .. NoReason = 5).
#[derive(Debug, Clone, Copy, PartialEq, Eq, Structural)]
pub enum Reason {
    Kick,
    Ban,
    Error,
    Denied,
    Quit,
    /// No particular reason (wire code 5).
    NoReason,
}

} // verus!
