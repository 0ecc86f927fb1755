//! Script opcode interception.
//!
//! Handlers registered per opcode decide whether the engine runs a script
//! opcode (`Allow`), skips it because the server will answer (`Block`), or
//! skips it with a ready result (`Replace`). The delegated opcodes are the
//! multiplayer-sensitive ones (PlaceAtMe, AddItem, SetStage, ...), which are
//! relayed to the server instead of running locally.
use vstd::prelude::*;

verus! {

/// What the engine does with an intercepted opcode.
#[derive(Debug, Clone, PartialEq, Eq)]
pub enum OpcodeAction {
    /// Run the engine's own handler.
    Allow,
    /// Suppress the engine's handler; the server handles it.
    Block,
    /// Suppress the engine's handler and answer these bytes.
    Replace(Vec<u8>),
}

/// A registered handler, described by the answer it gives.
#[derive(Debug, Clone, Copy, PartialEq, Eq, Structural)]
pub enum OpcodeHandler {
    /// Always lets the opcode run.
    AllowAll,
    /// Always suppresses the opcode (fully delegated to the server).
    BlockAll,
}

/// Handler answer that lets every opcode run.
pub fn allow_all(_opcode: u16, _params: &[u32]) -> (r: OpcodeAction)
    ensures
        r is Allow,
{
    OpcodeAction::Allow
}

/// Handler answer that suppresses every opcode.
pub fn block_all(_opcode: u16, _params: &[u32]) -> (r: OpcodeAction)
    ensures
        r is Block,
{
    OpcodeAction::Block
}

impl OpcodeHandler {
    /// The action this handler answers with.
    pub open spec fn action_is(self, a: OpcodeAction) -> bool {
        match self {
            OpcodeHandler::AllowAll => a is Allow,
            OpcodeHandler::BlockAll => a is Block,
        }
    }

    /// Runs the handler on an opcode and its parameters.
    pub fn handle(&self, opcode: u16, params: &[u32]) -> (r: OpcodeAction)
        ensures
            self.action_is(r),
    {
        match self {
            OpcodeHandler::AllowAll => allow_all(opcode, params),
            OpcodeHandler::BlockAll => block_all(opcode, params),
        }
    }
}

/// Number of slots of the handler table; opcodes index it by their low
/// 13 bits.
pub const OPCODE_TABLE_SIZE: usize = 0x2000;

/// Slot of an opcode in the handler table.
pub open spec fn slot_of(opcode: u16) -> int {
    (opcode as int) % 0x2000
}

/// Slot of an opcode in the handler table: `opcode & 0x1FFF`.
pub fn opcode_index(opcode: u16) -> (r: usize)
    ensures
        r == slot_of(opcode),
        r < OPCODE_TABLE_SIZE,
{
    let r = (opcode & 0x1FFF) as usize;
    assert(opcode & 0x1FFF == opcode % 0x2000) by (bit_vector);
    r
}

/// Number of occupied slots.
pub open spec fn count_registered(s: Seq<Option<OpcodeHandler>>) -> nat
    decreases s.len(),
{
    if s.len() == 0 {
        0
    } else {
        count_registered(s.drop_last()) + if s.last() is Some {
            1nat
        } else {
            0nat
        }
    }
}

/// 1 for an occupied slot, 0 for an empty one.
pub open spec fn occupied(h: Option<OpcodeHandler>) -> int {
    if h is Some {
        1
    } else {
        0
    }
}

/// Overwriting one slot changes the count by the difference in occupancy.
pub proof fn lemma_count_update(s: Seq<Option<OpcodeHandler>>, i: int, v: Option<OpcodeHandler>)
    requires
        0 <= i < s.len(),
    ensures
        count_registered(s.update(i, v)) == count_registered(s) - occupied(s[i]) + occupied(v),
    decreases s.len(),
{
    let u = s.update(i, v);
    if i == s.len() - 1 {
        assert(u.drop_last() =~= s.drop_last());
    } else {
        assert(u.drop_last() =~= s.drop_last().update(i, v));
        lemma_count_update(s.drop_last(), i, v);
    }
}

/// A table of empty slots has no handler.
pub proof fn lemma_count_empty(s: Seq<Option<OpcodeHandler>>)
    requires
        forall|i: int| 0 <= i < s.len() ==> s[i] is None,
    ensures
        count_registered(s) == 0,
    decreases s.len(),
{
    if s.len() > 0 {
        lemma_count_empty(s.drop_last());
    }
}

/// The count never exceeds the number of slots.
pub proof fn lemma_count_bound(s: Seq<Option<OpcodeHandler>>)
    ensures
        count_registered(s) <= s.len(),
    decreases s.len(),
{
    if s.len() > 0 {
        lemma_count_bound(s.drop_last());
    }
}

/// Direct-indexed table of opcode handlers.
#[derive(Debug, Clone)]
pub struct OpcodeTable {
    slots: Vec<Option<OpcodeHandler>>,
}

impl OpcodeTable {
    /// The slots, in index order.
    pub closed spec fn view(&self) -> Seq<Option<OpcodeHandler>> {
        self.slots@
    }

    /// The handler registered for an opcode, if any.
    pub open spec fn handler_of(&self, opcode: u16) -> Option<OpcodeHandler> {
        self.view()[slot_of(opcode)]
    }

    /// The table has exactly one slot per index.
    pub open spec fn wf(&self) -> bool {
        self.view().len() == OPCODE_TABLE_SIZE
    }

    /// A table with no handler.
    pub fn new() -> (r: OpcodeTable)
        ensures
            r.wf(),
            forall|i: int| 0 <= i < OPCODE_TABLE_SIZE ==> r.view()[i] is None,
            count_registered(r.view()) == 0,
    {
        let mut slots: Vec<Option<OpcodeHandler>> = Vec::new();
        let mut i: usize = 0;
        while i < OPCODE_TABLE_SIZE
            invariant
                i <= OPCODE_TABLE_SIZE,
                slots@.len() == i,
                forall|j: int| 0 <= j < i ==> slots@[j] is None,
            decreases OPCODE_TABLE_SIZE - i,
        {
            slots.push(None);
            i = i + 1;
        }
        proof {
            lemma_count_empty(slots@);
        }
        OpcodeTable { slots }
    }
}

/// Registers a handler for an opcode, replacing any previous one.
pub fn register_handler(table: &mut OpcodeTable, opcode: u16, handler: OpcodeHandler)
    requires
        old(table).wf(),
    ensures
        final(table).wf(),
        final(table).view() == old(table).view().update(slot_of(opcode), Some(handler)),
{
    let i = opcode_index(opcode);
    table.slots.set(i, Some(handler));
}

/// Removes the handler of an opcode.
pub fn unregister_handler(table: &mut OpcodeTable, opcode: u16)
    requires
        old(table).wf(),
    ensures
        final(table).wf(),
        final(table).view() == old(table).view().update(slot_of(opcode), None),
{
    let i = opcode_index(opcode);
    table.slots.set(i, None);
}

/// The action for an opcode about to run: its handler's answer, or `Allow`
/// when none is registered.
pub fn intercept(table: &OpcodeTable, opcode: u16, params: &[u32]) -> (r: OpcodeAction)
    requires
        table.wf(),
    ensures
        match table.handler_of(opcode) {
            Some(h) => h.action_is(r),
            None => r is Allow,
        },
{
    let i = opcode_index(opcode);
    match &table.slots[i] {
        Some(h) => h.handle(opcode, params),
        None => OpcodeAction::Allow,
    }
}

/// Whether an opcode has a handler.
pub fn has_handler(table: &OpcodeTable, opcode: u16) -> (r: bool)
    requires
        table.wf(),
    ensures
        r == table.handler_of(opcode) is Some,
{
    let i = opcode_index(opcode);
    table.slots[i].is_some()
}

/// Number of registered handlers.
pub fn handler_count(table: &OpcodeTable) -> (r: usize)
    ensures
        r == count_registered(table.view()),
{
    let mut c: usize = 0;
    let mut i: usize = 0;
    while i < table.slots.len()
        invariant
            i <= table.slots@.len(),
            c == count_registered(table.slots@.take(i as int)),
            c <= i,
        decreases table.slots@.len() - i,
    {
        assert(table.slots@.take(i as int + 1).drop_last() =~= table.slots@.take(i as int));
        if table.slots[i].is_some() {
            c = c + 1;
        }
        i = i + 1;
    }
    assert(table.slots@.take(i as int) =~= table.slots@);
    c
}

/// Registering a handler on an empty slot adds one to the count, and
/// removing it again gives the count back.
pub proof fn law_register_unregister_count(t: Seq<Option<OpcodeHandler>>, opcode: u16, h: OpcodeHandler)
    requires
        t.len() == OPCODE_TABLE_SIZE,
        t[slot_of(opcode)] is None,
    ensures
        count_registered(t.update(slot_of(opcode), Some(h))) == count_registered(t) + 1,
        t.update(slot_of(opcode), Some(h)).update(slot_of(opcode), None) == t,
{
    lemma_count_update(t, slot_of(opcode), Some(h));
    assert(t.update(slot_of(opcode), Some(h)).update(slot_of(opcode), None) =~= t);
}

/// GECK opcode of PlaceAtMe.
pub const PLACE_AT_ME: u16 = 0x1025;
/// GECK opcode of AddItem.
pub const ADD_ITEM: u16 = 0x1002;
/// GECK opcode of RemoveItem.
pub const REMOVE_ITEM: u16 = 0x1052;
/// GECK opcode of EquipItem.
pub const EQUIP_ITEM: u16 = 0x10EE;
/// GECK opcode of UnequipItem.
pub const UNEQUIP_ITEM: u16 = 0x10EF;
/// GECK opcode of ForceActorValue.
pub const SET_AV: u16 = 0x110E;
/// GECK opcode of KillActor.
pub const KILL: u16 = 0x108B;
/// GECK opcode of SetRestrained.
pub const SET_RESTRAINED: u16 = 0x10F3;
/// GECK opcode of PlayGroup.
pub const PLAY_GROUP: u16 = 0x1013;
/// GECK opcode of Lock.
pub const LOCK: u16 = 0x1072;
/// GECK opcode of Unlock.
pub const UNLOCK: u16 = 0x1073;
/// GECK opcode of SetOwnership.
pub const SET_OWNERSHIP: u16 = 0x1117;
/// GECK opcode of Activate.
pub const ACTIVATE: u16 = 0x100D;
/// GECK opcode of SetStage.
pub const SET_STAGE: u16 = 0x1039;
/// GECK opcode of SetAlert.
pub const SET_ALERT: u16 = 0x105A;

/// The opcodes delegated to the server by default.
pub open spec fn spec_delegated() -> Seq<u16> {
    seq![
        PLACE_AT_ME,
        ADD_ITEM,
        REMOVE_ITEM,
        EQUIP_ITEM,
        UNEQUIP_ITEM,
        SET_AV,
        KILL,
        SET_RESTRAINED,
        PLAY_GROUP,
        LOCK,
        UNLOCK,
        SET_OWNERSHIP,
        ACTIVATE,
        SET_STAGE,
        SET_ALERT,
    ]
}

/// The opcodes delegated to the server by default.
pub fn delegated_opcodes() -> (r: Vec<u16>)
    ensures
        r@ == spec_delegated(),
{
    let r = vec![
        PLACE_AT_ME,
        ADD_ITEM,
        REMOVE_ITEM,
        EQUIP_ITEM,
        UNEQUIP_ITEM,
        SET_AV,
        KILL,
        SET_RESTRAINED,
        PLAY_GROUP,
        LOCK,
        UNLOCK,
        SET_OWNERSHIP,
        ACTIVATE,
        SET_STAGE,
        SET_ALERT,
    ];
    assert(r@ =~= spec_delegated());
    r
}

/// Registers the blocking handler for every delegated opcode; other slots
/// keep their handlers.
pub fn register_defaults(table: &mut OpcodeTable)
    requires
        old(table).wf(),
    ensures
        final(table).wf(),
        forall|k: int| 0 <= k < 15 ==> #[trigger] final(table).handler_of(spec_delegated()[k])
            == Some(OpcodeHandler::BlockAll),
        forall|op: u16|
            (forall|k: int| 0 <= k < 15 ==> slot_of(spec_delegated()[k]) != slot_of(op))
                ==> #[trigger] final(table).handler_of(op) == old(table).handler_of(op),
{
    let ops = delegated_opcodes();
    let mut i: usize = 0;
    while i < ops.len()
        invariant
            ops@ == spec_delegated(),
            i <= 15,
            table.wf(),
            forall|k: int| 0 <= k < i ==> #[trigger] table.handler_of(spec_delegated()[k]) == Some(
                OpcodeHandler::BlockAll,
            ),
            forall|op: u16|
                (forall|k: int| 0 <= k < i ==> slot_of(spec_delegated()[k]) != slot_of(op))
                    ==> #[trigger] table.handler_of(op) == old(table).handler_of(op),
        decreases 15 - i,
    {
        let ghost before = *table;
        register_handler(table, ops[i], OpcodeHandler::BlockAll);
        proof {
            assert forall|k: int| 0 <= k < i + 1 implies #[trigger] table.handler_of(
                spec_delegated()[k],
            ) == Some(OpcodeHandler::BlockAll) by {
                if slot_of(spec_delegated()[k]) != slot_of(spec_delegated()[i as int]) {
                    assert(table.handler_of(spec_delegated()[k]) == before.handler_of(
                        spec_delegated()[k],
                    ));
                }
            }
            assert forall|op: u16|
                (forall|k: int| 0 <= k < i + 1 ==> slot_of(spec_delegated()[k]) != slot_of(op))
                    implies #[trigger] table.handler_of(op) == old(table).handler_of(op) by {
                assert(slot_of(spec_delegated()[i as int]) != slot_of(op));
                assert(table.handler_of(op) == before.handler_of(op));
            }
        }
        i = i + 1;
    }
}

/// High bits marking a custom (VAULTFUNCTION) opcode.
pub const VAULTFUNCTION_MASK: u16 = 0xE000;

/// Whether an opcode is a custom VAULTFUNCTION opcode (its top three bits
/// set).
pub fn is_vaultfunction(opcode: u16) -> (r: bool)
    ensures
        r == (opcode >= 0xE000),
{
    let r = (opcode & VAULTFUNCTION_MASK) == VAULTFUNCTION_MASK;
    assert((opcode & 0xE000 == 0xE000) == (opcode >= 0xE000)) by (bit_vector);
    r
}

/// Index of a VAULTFUNCTION opcode: its low 12 bits.
pub fn vaultfunction_index(opcode: u16) -> (r: u16)
    ensures
        r == opcode % 0x1000,
{
    let r = opcode & 0x0FFF;
    assert(opcode & 0x0FFF == opcode % 0x1000) by (bit_vector);
    r
}

} // verus!
