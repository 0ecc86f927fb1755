//! Server-authored GUI state: windows and widgets created and updated by
//! window packets. Positions and sizes are IEEE-754 bit patterns.
use vstd::prelude::*;
use crate::id::NetworkID;
use crate::protocol::Packet;
use crate::client::ui::GuiWidgetKind;

verus! {

/// Bit pattern of 200.0, the default widget width.
pub const DEFAULT_WIDTH_BITS: u32 = 0x4348_0000;
/// Bit pattern of 100.0, the default widget height.
pub const DEFAULT_HEIGHT_BITS: u32 = 0x42C8_0000;

/// One server-authored widget.
#[derive(Debug, Clone, PartialEq, Eq)]
pub struct GuiWindow {
    pub id: NetworkID,
    pub parent: Option<NetworkID>,
    pub label: String,
    pub pos: [u32; 4],
    pub size: [u32; 4],
    pub locked: bool,
    pub visible: bool,
    pub text: String,
    pub kind: GuiWidgetKind,
    pub max_len: u32,
    pub validation: String,
    pub selected: bool,
    pub group: u32,
    pub multiselect: bool,
    /// Items of a list, in insertion order.
    pub items: Vec<NetworkID>,
}

/// A widget with its strings as characters.
pub struct WidgetView {
    pub id: NetworkID,
    pub parent: Option<NetworkID>,
    pub label: Seq<char>,
    pub pos: [u32; 4],
    pub size: [u32; 4],
    pub locked: bool,
    pub visible: bool,
    pub text: Seq<char>,
    pub kind: GuiWidgetKind,
    pub max_len: u32,
    pub validation: Seq<char>,
    pub selected: bool,
    pub group: u32,
    pub multiselect: bool,
    pub items: Seq<NetworkID>,
}

/// A fresh widget: at the origin, 200 x 100, unlocked, visible, with no
/// text and no items.
pub open spec fn fresh(
    id: NetworkID,
    parent: Option<NetworkID>,
    label: Seq<char>,
    kind: GuiWidgetKind,
) -> WidgetView {
    WidgetView {
        id,
        parent,
        label,
        pos: [0u32, 0u32, 0u32, 0u32],
        size: [DEFAULT_WIDTH_BITS, DEFAULT_HEIGHT_BITS, 0u32, 0u32],
        locked: false,
        visible: true,
        text: Seq::empty(),
        kind,
        max_len: 0,
        validation: Seq::empty(),
        selected: false,
        group: 0,
        multiselect: false,
        items: Seq::empty(),
    }
}

impl GuiWindow {
    /// The widget with its strings as characters.
    pub open spec fn view(&self) -> WidgetView {
        WidgetView {
            id: self.id,
            parent: self.parent,
            label: self.label@,
            pos: self.pos,
            size: self.size,
            locked: self.locked,
            visible: self.visible,
            text: self.text@,
            kind: self.kind,
            max_len: self.max_len,
            validation: self.validation@,
            selected: self.selected,
            group: self.group,
            multiselect: self.multiselect,
            items: self.items@,
        }
    }

    /// A fresh widget.
    pub fn new(id: NetworkID, parent: Option<NetworkID>, label: String, kind: GuiWidgetKind) -> (r: GuiWindow)
        ensures
            r@ == fresh(id, parent, label@, kind),
    {
        let r = GuiWindow {
            id,
            parent,
            label,
            pos: [0, 0, 0, 0],
            size: [DEFAULT_WIDTH_BITS, DEFAULT_HEIGHT_BITS, 0, 0],
            locked: false,
            visible: true,
            text: String::new(),
            kind,
            max_len: 0,
            validation: String::new(),
            selected: false,
            group: 0,
            multiselect: false,
            items: Vec::new(),
        };
        assert(r@.text =~= Seq::<char>::empty());
        assert(r@.items =~= Seq::<NetworkID>::empty());
        r
    }

    /// Title bar text of a window: its label, or "Window" when unlabelled.
    pub fn title(&self) -> (r: &str)
        ensures
            r@ == (if self.label@.len() == 0 { "Window"@ } else { self.label@ }),
    {
        if self.label.as_str().is_empty() {
            "Window"
        } else {
            self.label.as_str()
        }
    }

    /// Text a text widget shows: its text, or its label when it has none.
    pub fn display_text(&self) -> (r: &str)
        ensures
            r@ == (if self.text@.len() == 0 { self.label@ } else { self.text@ }),
    {
        if self.text.as_str().is_empty() {
            self.label.as_str()
        } else {
            self.text.as_str()
        }
    }
}

/// No two widgets share an id.
pub open spec fn ids_distinct(ws: Seq<WidgetView>) -> bool {
    forall|i: int, j: int| 0 <= i < j < ws.len() ==> ws[i].id != ws[j].id
}

/// Position of the widget with id `id`.
pub open spec fn find_widget(ws: Seq<WidgetView>, id: NetworkID) -> Option<int> {
    if exists|i: int| 0 <= i < ws.len() && ws[i].id == id {
        Some(choose|i: int| 0 <= i < ws.len() && ws[i].id == id)
    } else {
        None
    }
}

/// The widgets after storing `w` under its id (replacing the widget with
/// that id, if any).
pub open spec fn place(ws: Seq<WidgetView>, w: WidgetView) -> Seq<WidgetView> {
    match find_widget(ws, w.id) {
        Some(i) => ws.update(i, w),
        None => ws.push(w),
    }
}

/// The widgets after removing the one with id `id`.
pub open spec fn drop_widget(ws: Seq<WidgetView>, id: NetworkID) -> Seq<WidgetView> {
    match find_widget(ws, id) {
        Some(i) => ws.remove(i),
        None => ws,
    }
}

/// A change to one field of a widget.
pub enum EditView {
    Pos([u32; 4]),
    Size([u32; 4]),
    Visible(bool),
    Locked(bool),
    Text(Seq<char>),
    MaxLen(u32),
    Validation(Seq<char>),
    Selected(bool),
    Group(u32),
    MultiSelect(bool),
    /// Append an item to a list.
    AddItem(NetworkID),
}

/// A widget after a change.
pub open spec fn apply_edit(e: EditView, w: WidgetView) -> WidgetView {
    match e {
        EditView::Pos(pos) => WidgetView { pos, ..w },
        EditView::Size(size) => WidgetView { size, ..w },
        EditView::Visible(visible) => WidgetView { visible, ..w },
        EditView::Locked(locked) => WidgetView { locked, ..w },
        EditView::Text(text) => WidgetView { text, ..w },
        EditView::MaxLen(max_len) => WidgetView { max_len, ..w },
        EditView::Validation(validation) => WidgetView { validation, ..w },
        EditView::Selected(selected) => WidgetView { selected, ..w },
        EditView::Group(group) => WidgetView { group, ..w },
        EditView::MultiSelect(multiselect) => WidgetView { multiselect, ..w },
        EditView::AddItem(item) => WidgetView { items: w.items.push(item), ..w },
    }
}

/// The widgets after changing the one with id `id` (none changes when
/// there is no such widget).
pub open spec fn edit(ws: Seq<WidgetView>, id: NetworkID, e: EditView) -> Seq<WidgetView> {
    match find_widget(ws, id) {
        Some(i) => ws.update(i, apply_edit(e, ws[i])),
        None => ws,
    }
}

/// A widget a creation packet describes.
pub open spec fn created(
    id: NetworkID,
    parent: NetworkID,
    label: Seq<char>,
    kind: GuiWidgetKind,
    pos: [u32; 4],
    size: [u32; 4],
    locked: bool,
    visible: bool,
    text: Seq<char>,
) -> WidgetView {
    WidgetView { pos, size, locked, visible, text, ..fresh(id, Some(parent), label, kind) }
}

/// The widgets after one window packet, and whether the packet was a
/// window packet.
pub open spec fn gui_step(ws: Seq<WidgetView>, mode: bool, p: Packet) -> (Seq<WidgetView>, bool, bool) {
    match p {
        Packet::WindowNew { id, parent, label, pos, size, locked, visible, text } => (
            place(ws, created(id, parent, label@, GuiWidgetKind::Window, pos, size, locked, visible, text@)),
            mode,
            true,
        ),
        Packet::ButtonNew { id, parent, label, pos, size, locked, visible, text } => (
            place(ws, created(id, parent, label@, GuiWidgetKind::Button, pos, size, locked, visible, text@)),
            mode,
            true,
        ),
        Packet::TextNew { id, parent, label, pos, size, locked, visible, text } => (
            place(ws, created(id, parent, label@, GuiWidgetKind::Text, pos, size, locked, visible, text@)),
            mode,
            true,
        ),
        Packet::EditNew { id, parent, label, pos, size, locked, visible, text, max_len, validation } => (
            place(
                ws,
                WidgetView {
                    max_len,
                    validation: validation@,
                    ..created(id, parent, label@, GuiWidgetKind::Edit, pos, size, locked, visible, text@)
                },
            ),
            mode,
            true,
        ),
        Packet::CheckboxNew { id, parent, label, pos, size, locked, visible, text, selected } => (
            place(
                ws,
                WidgetView {
                    selected,
                    ..created(id, parent, label@, GuiWidgetKind::Checkbox, pos, size, locked, visible, text@)
                },
            ),
            mode,
            true,
        ),
        Packet::RadioButtonNew { id, parent, label, pos, size, locked, visible, text, selected, group } => (
            place(
                ws,
                WidgetView {
                    selected,
                    group,
                    ..created(id, parent, label@, GuiWidgetKind::RadioButton, pos, size, locked, visible, text@)
                },
            ),
            mode,
            true,
        ),
        Packet::ListNew { id, parent, label, pos, size, locked, visible, text, multiselect } => (
            place(
                ws,
                WidgetView {
                    multiselect,
                    ..created(id, parent, label@, GuiWidgetKind::List, pos, size, locked, visible, text@)
                },
            ),
            mode,
            true,
        ),
        Packet::ListItemNew { id, container, text, selected } => (
            place(
                edit(ws, container, EditView::AddItem(id)),
                WidgetView { selected, ..fresh(id, Some(container), text@, GuiWidgetKind::ListItem) },
            ),
            mode,
            true,
        ),
        Packet::ListItemRemove { id } => (drop_widget(ws, id), mode, true),
        Packet::WindowRemove { id } => (drop_widget(ws, id), mode, true),
        Packet::UpdateWindowPos { id, pos } => (
            edit(ws, id, EditView::Pos(pos)),
            mode,
            true,
        ),
        Packet::UpdateWindowSize { id, size } => (
            edit(ws, id, EditView::Size(size)),
            mode,
            true,
        ),
        Packet::UpdateWindowVisible { id, visible } => (
            edit(ws, id, EditView::Visible(visible)),
            mode,
            true,
        ),
        Packet::UpdateWindowLocked { id, locked } => (
            edit(ws, id, EditView::Locked(locked)),
            mode,
            true,
        ),
        Packet::UpdateWindowText { id, text } => (
            edit(ws, id, EditView::Text(text@)),
            mode,
            true,
        ),
        Packet::UpdateEditMaxLen { id, max_len } => (
            edit(ws, id, EditView::MaxLen(max_len)),
            mode,
            true,
        ),
        Packet::UpdateEditValidation { id, validation } => (
            edit(ws, id, EditView::Validation(validation@)),
            mode,
            true,
        ),
        Packet::UpdateCheckboxSelected { id, selected } => (
            edit(ws, id, EditView::Selected(selected)),
            mode,
            true,
        ),
        Packet::UpdateRadioButtonSelected { id, selected, .. } => (
            edit(ws, id, EditView::Selected(selected)),
            mode,
            true,
        ),
        Packet::UpdateRadioButtonGroup { id, group } => (
            edit(ws, id, EditView::Group(group)),
            mode,
            true,
        ),
        Packet::UpdateListMultiSelect { id, multiselect } => (
            edit(ws, id, EditView::MultiSelect(multiselect)),
            mode,
            true,
        ),
        Packet::UpdateListItemSelected { id, selected } => (
            edit(ws, id, EditView::Selected(selected)),
            mode,
            true,
        ),
        Packet::UpdateListItemText { id, text } => (
            edit(ws, id, EditView::Text(text@)),
            mode,
            true,
        ),
        Packet::UpdateWindowMode { enabled } => (ws, enabled, true),
        _ => (ws, mode, false),
    }
}

/// With distinct ids, the widget at `i` is the one `find_widget` finds.
proof fn lemma_find_widget_is(ws: Seq<WidgetView>, id: NetworkID, i: int)
    requires
        ids_distinct(ws),
        0 <= i < ws.len(),
        ws[i].id == id,
    ensures
        find_widget(ws, id) == Some(i),
{
    let c = choose|j: int| 0 <= j < ws.len() && ws[j].id == id;
    assert(0 <= c < ws.len() && ws[c].id == id);
    if c != i {
        if c < i {
            assert(ws[c].id != ws[i].id);
        } else {
            assert(ws[i].id != ws[c].id);
        }
    }
}

/// Server-authored GUI state.
#[derive(Debug, Clone)]
pub struct GuiState {
    widgets: Vec<GuiWindow>,
    pending_clicks: Vec<NetworkID>,
    window_mode: bool,
}

impl GuiState {
    /// The widgets, in creation order.
    pub closed spec fn widgets(&self) -> Seq<WidgetView> {
        self.widgets@.map_values(|w: GuiWindow| w@)
    }

    /// Clicks not yet sent back to the server, oldest first.
    pub closed spec fn clicks(&self) -> Seq<NetworkID> {
        self.pending_clicks@
    }

    /// Whether the GUI captures input.
    pub closed spec fn mode(&self) -> bool {
        self.window_mode
    }

    /// No two widgets share an id.
    pub open spec fn wf(&self) -> bool {
        ids_distinct(self.widgets())
    }

    /// Whether the GUI captures input.
    pub fn window_mode(&self) -> (r: bool)
        ensures
            r == self.mode(),
    {
        self.window_mode
    }

    /// Queues a click on widget `id` for the server.
    pub fn push_click(&mut self, id: NetworkID)
        ensures
            final(self).clicks() == old(self).clicks().push(id),
            final(self).widgets() == old(self).widgets(),
            final(self).mode() == old(self).mode(),
    {
        self.pending_clicks.push(id);
    }

    /// Takes the queued clicks, oldest first, leaving none queued.
    pub fn take_clicks(&mut self) -> (r: Vec<NetworkID>)
        ensures
            r@ == old(self).clicks(),
            final(self).clicks() == Seq::<NetworkID>::empty(),
            final(self).widgets() == old(self).widgets(),
            final(self).mode() == old(self).mode(),
    {
        let mut r: Vec<NetworkID> = Vec::new();
        std::mem::swap(&mut r, &mut self.pending_clicks);
        r
    }

    /// No widget, no pending click, GUI mode off.
    pub fn new() -> (r: GuiState)
        ensures
            r.wf(),
            r.widgets() == Seq::<WidgetView>::empty(),
            r.clicks() == Seq::<NetworkID>::empty(),
            !r.mode(),
    {
        let r = GuiState { widgets: Vec::new(), pending_clicks: Vec::new(), window_mode: false };
        assert(r.widgets() =~= Seq::<WidgetView>::empty());
        r
    }

    /// Position of the widget with id `id`.
    fn position(&self, id: NetworkID) -> (r: Option<usize>)
        requires
            self.wf(),
        ensures
            match r {
                Some(i) => find_widget(self.widgets(), id) == Some(i as int) && i < self.widgets().len(),
                None => find_widget(self.widgets(), id) is None,
            },
    {
        let ghost ws = self.widgets();
        let mut i: usize = 0;
        while i < self.widgets.len()
            invariant
                ws == self.widgets@.map_values(|w: GuiWindow| w@),
                ids_distinct(ws),
                i <= self.widgets@.len(),
                forall|j: int| 0 <= j < i ==> ws[j].id != id,
            decreases self.widgets@.len() - i,
        {
            if self.widgets[i].id == id {
                proof {
                    assert(ws[i as int] == self.widgets@[i as int]@);
                    lemma_find_widget_is(ws, id, i as int);
                }
                return Some(i);
            }
            i = i + 1;
        }
        None
    }

    /// The widget with id `id`, if any.
    pub fn get(&self, id: NetworkID) -> (r: Option<&GuiWindow>)
        requires
            self.wf(),
        ensures
            match find_widget(self.widgets(), id) {
                Some(i) => r matches Some(w) && w@ == self.widgets()[i],
                None => r is None,
            },
    {
        match self.position(id) {
            Some(i) => {
                assert(self.widgets()[i as int] == self.widgets@[i as int]@);
                Some(&self.widgets[i])
            },
            None => None,
        }
    }

    /// Stores a widget under its id, replacing the widget with that id.
    fn put(&mut self, w: GuiWindow)
        requires
            old(self).wf(),
        ensures
            final(self).wf(),
            final(self).widgets() == place(old(self).widgets(), w@),
            final(self).clicks() == old(self).clicks(),
            final(self).mode() == old(self).mode(),
    {
        let ghost ws = self.widgets();
        let ghost wv = w@;
        match self.position(w.id) {
            Some(i) => {
                proof {
                    let c = choose|j: int| 0 <= j < ws.len() && ws[j].id == wv.id;
                    assert(ws[i as int].id == wv.id);
                }
                self.widgets.set(i, w);
                proof {
                    assert(self.widgets() =~= ws.update(i as int, wv));
                    assert forall|a: int, b: int| 0 <= a < b < ws.len() implies self.widgets()[a].id
                        != self.widgets()[b].id by {
                        assert(ws[a].id != ws[b].id);
                    }
                }
            },
            None => {
                self.widgets.push(w);
                proof {
                    assert(self.widgets() =~= ws.push(wv));
                    assert forall|a: int, b: int| 0 <= a < b < ws.len() + 1 implies self.widgets()[a].id
                        != self.widgets()[b].id by {
                        if b < ws.len() {
                            assert(ws[a].id != ws[b].id);
                        } else {
                            assert(ws[a].id != wv.id);
                        }
                    }
                }
            },
        }
    }

    /// Removes the widget with id `id`.
    fn take(&mut self, id: NetworkID)
        requires
            old(self).wf(),
        ensures
            final(self).wf(),
            final(self).widgets() == drop_widget(old(self).widgets(), id),
            final(self).clicks() == old(self).clicks(),
            final(self).mode() == old(self).mode(),
    {
        let ghost ws = self.widgets();
        match self.position(id) {
            Some(i) => {
                let ghost before = self.widgets@;
                self.widgets.remove(i);
                proof {
                    assert(self.widgets@ == before.remove(i as int));
                    assert(self.widgets() =~= ws.remove(i as int));
                    assert forall|a: int, b: int| 0 <= a < b < ws.len() - 1 implies self.widgets()[a].id
                        != self.widgets()[b].id by {
                        let a2 = if a < i { a } else { a + 1 };
                        let b2 = if b < i { b } else { b + 1 };
                        assert(ws[a2].id != ws[b2].id);
                    }
                }
            },
            None => {},
        }
    }

    /// Changes one field of the widget with id `id`, if there is one.
    fn edit_widget(&mut self, id: NetworkID, e: Edit)
        requires
            old(self).wf(),
        ensures
            final(self).wf(),
            final(self).widgets() == edit(old(self).widgets(), id, e.view()),
            final(self).clicks() == old(self).clicks(),
            final(self).mode() == old(self).mode(),
    {
        let ghost ws = self.widgets();
        match self.position(id) {
            Some(i) => {
                let ghost before = self.widgets@;
                let mut w = self.widgets.remove(i);
                assert(w@ == ws[i as int]);
                match e {
                    Edit::Pos(v) => w.pos = v,
                    Edit::Size(v) => w.size = v,
                    Edit::Visible(v) => w.visible = v,
                    Edit::Locked(v) => w.locked = v,
                    Edit::Text(v) => w.text = v,
                    Edit::MaxLen(v) => w.max_len = v,
                    Edit::Validation(v) => w.validation = v,
                    Edit::Selected(v) => w.selected = v,
                    Edit::Group(v) => w.group = v,
                    Edit::MultiSelect(v) => w.multiselect = v,
                    Edit::AddItem(v) => w.items.push(v),
                }
                let ghost wv = w@;
                assert(wv =~= apply_edit(e.view(), ws[i as int]));
                self.widgets.insert(i, w);
                proof {
                    assert(self.widgets@ =~= before.update(i as int, self.widgets@[i as int]));
                    assert(self.widgets() =~= ws.update(i as int, wv));
                    assert forall|a: int, b: int| 0 <= a < b < ws.len() implies self.widgets()[a].id
                        != self.widgets()[b].id by {
                        assert(ws[a].id != ws[b].id);
                    }
                }
            },
            None => {},
        }
    }
}

/// A change to one field of a widget.
pub enum Edit {
    Pos([u32; 4]),
    Size([u32; 4]),
    Visible(bool),
    Locked(bool),
    Text(String),
    MaxLen(u32),
    Validation(String),
    Selected(bool),
    Group(u32),
    MultiSelect(bool),
    AddItem(NetworkID),
}

impl Edit {
    /// The change with its strings as characters.
    pub open spec fn view(&self) -> EditView {
        match self {
            Edit::Pos(v) => EditView::Pos(*v),
            Edit::Size(v) => EditView::Size(*v),
            Edit::Visible(v) => EditView::Visible(*v),
            Edit::Locked(v) => EditView::Locked(*v),
            Edit::Text(v) => EditView::Text(v@),
            Edit::MaxLen(v) => EditView::MaxLen(*v),
            Edit::Validation(v) => EditView::Validation(v@),
            Edit::Selected(v) => EditView::Selected(*v),
            Edit::Group(v) => EditView::Group(*v),
            Edit::MultiSelect(v) => EditView::MultiSelect(*v),
            Edit::AddItem(v) => EditView::AddItem(*v),
        }
    }
}

/// A widget as a creation packet describes it.
fn make_widget(
    id: NetworkID,
    parent: NetworkID,
    label: String,
    kind: GuiWidgetKind,
    pos: [u32; 4],
    size: [u32; 4],
    locked: bool,
    visible: bool,
    text: String,
) -> (r: GuiWindow)
    ensures
        r@ == created(id, parent, label@, kind, pos, size, locked, visible, text@),
{
    let mut w = GuiWindow::new(id, Some(parent), label, kind);
    w.pos = pos;
    w.size = size;
    w.locked = locked;
    w.visible = visible;
    w.text = text;
    w
}

impl GuiState {
    /// Applies one window packet; `false` (and no change) for any other
    /// packet.
    pub fn apply_packet(&mut self, packet: &Packet) -> (r: bool)
        requires
            old(self).wf(),
        ensures
            final(self).wf(),
            (final(self).widgets(), final(self).mode(), r) == gui_step(
                old(self).widgets(),
                old(self).mode(),
                *packet,
            ),
            final(self).clicks() == old(self).clicks(),
    {
        match packet {
            Packet::WindowNew { id, parent, label, pos, size, locked, visible, text } => {
                let w = make_widget(*id, *parent, label.clone(), GuiWidgetKind::Window, *pos, *size, *locked, *visible, text.clone());
                self.put(w);
            },
            Packet::ButtonNew { id, parent, label, pos, size, locked, visible, text } => {
                let w = make_widget(*id, *parent, label.clone(), GuiWidgetKind::Button, *pos, *size, *locked, *visible, text.clone());
                self.put(w);
            },
            Packet::TextNew { id, parent, label, pos, size, locked, visible, text } => {
                let w = make_widget(*id, *parent, label.clone(), GuiWidgetKind::Text, *pos, *size, *locked, *visible, text.clone());
                self.put(w);
            },
            Packet::EditNew { id, parent, label, pos, size, locked, visible, text, max_len, validation } => {
                let mut w = make_widget(*id, *parent, label.clone(), GuiWidgetKind::Edit, *pos, *size, *locked, *visible, text.clone());
                w.max_len = *max_len;
                w.validation = validation.clone();
                self.put(w);
            },
            Packet::CheckboxNew { id, parent, label, pos, size, locked, visible, text, selected } => {
                let mut w = make_widget(*id, *parent, label.clone(), GuiWidgetKind::Checkbox, *pos, *size, *locked, *visible, text.clone());
                w.selected = *selected;
                self.put(w);
            },
            Packet::RadioButtonNew { id, parent, label, pos, size, locked, visible, text, selected, group } => {
                let mut w = make_widget(*id, *parent, label.clone(), GuiWidgetKind::RadioButton, *pos, *size, *locked, *visible, text.clone());
                w.selected = *selected;
                w.group = *group;
                self.put(w);
            },
            Packet::ListNew { id, parent, label, pos, size, locked, visible, text, multiselect } => {
                let mut w = make_widget(*id, *parent, label.clone(), GuiWidgetKind::List, *pos, *size, *locked, *visible, text.clone());
                w.multiselect = *multiselect;
                self.put(w);
            },
            Packet::ListItemNew { id, container, text, selected } => {
                let mut w = GuiWindow::new(*id, Some(*container), text.clone(), GuiWidgetKind::ListItem);
                w.selected = *selected;
                self.edit_widget(*container, Edit::AddItem(*id));
                self.put(w);
            },
            Packet::ListItemRemove { id } => self.take(*id),
            Packet::WindowRemove { id } => self.take(*id),
            Packet::UpdateWindowPos { id, pos } => self.edit_widget(*id, Edit::Pos(*pos)),
            Packet::UpdateWindowSize { id, size } => self.edit_widget(*id, Edit::Size(*size)),
            Packet::UpdateWindowVisible { id, visible } => self.edit_widget(*id, Edit::Visible(*visible)),
            Packet::UpdateWindowLocked { id, locked } => self.edit_widget(*id, Edit::Locked(*locked)),
            Packet::UpdateWindowText { id, text } => self.edit_widget(*id, Edit::Text(text.clone())),
            Packet::UpdateEditMaxLen { id, max_len } => self.edit_widget(*id, Edit::MaxLen(*max_len)),
            Packet::UpdateEditValidation { id, validation } => {
                self.edit_widget(*id, Edit::Validation(validation.clone()))
            },
            Packet::UpdateCheckboxSelected { id, selected } => {
                self.edit_widget(*id, Edit::Selected(*selected))
            },
            Packet::UpdateRadioButtonSelected { id, selected, .. } => {
                self.edit_widget(*id, Edit::Selected(*selected))
            },
            Packet::UpdateRadioButtonGroup { id, group } => self.edit_widget(*id, Edit::Group(*group)),
            Packet::UpdateListMultiSelect { id, multiselect } => {
                self.edit_widget(*id, Edit::MultiSelect(*multiselect))
            },
            Packet::UpdateListItemSelected { id, selected } => {
                self.edit_widget(*id, Edit::Selected(*selected))
            },
            Packet::UpdateListItemText { id, text } => self.edit_widget(*id, Edit::Text(text.clone())),
            Packet::UpdateWindowMode { enabled } => {
                self.window_mode = *enabled;
            },
            _ => {
                return false;
            },
        }
        true
    }

    /// The children of a widget (widgets whose parent is `id`), in creation
    /// order.
    pub fn children(&self, id: NetworkID) -> (r: Vec<&GuiWindow>)
        ensures
            r@.len() == self.widgets().filter(|w: WidgetView| w.parent == Some(id)).len(),
            forall|i: int| 0 <= i < r@.len() ==> r@[i]@ == self.widgets().filter(
                |w: WidgetView| w.parent == Some(id),
            )[i],
    {
        let ghost ws = self.widgets();
        let ghost p = |w: WidgetView| w.parent == Some(id);
        let mut out: Vec<&GuiWindow> = Vec::new();
        let mut i: usize = 0;
        while i < self.widgets.len()
            invariant
                i <= self.widgets@.len(),
                ws == self.widgets@.map_values(|w: GuiWindow| w@),
                p == (|w: WidgetView| w.parent == Some(id)),
                out@.len() == ws.take(i as int).filter(p).len(),
                forall|k: int| 0 <= k < out@.len() ==> out@[k]@ == ws.take(i as int).filter(p)[k],
            decreases self.widgets@.len() - i,
        {
            proof {
                reveal(Seq::filter);
                assert(ws.take(i as int + 1).drop_last() =~= ws.take(i as int));
                assert(ws.take(i as int + 1).last() == ws[i as int]);
                assert(ws[i as int] == self.widgets@[i as int]@);
            }
            let is_child = match self.widgets[i].parent {
                Some(q) => q == id,
                None => false,
            };
            if is_child {
                out.push(&self.widgets[i]);
            }
            i = i + 1;
        }
        assert(ws.take(i as int) =~= ws);
        out
    }

    /// Whether there is server GUI to show: window mode is on or some
    /// top-level window exists.
    pub fn has_gui(&self) -> (r: bool)
        ensures
            r == (self.mode() || self.widgets().filter(|w: WidgetView| is_top(w)).len() > 0),
    {
        self.window_mode() || self.top_windows().len() > 0
    }

    /// The top-level windows (no parent, or the null parent), in creation
    /// order.
    pub fn top_windows(&self) -> (r: Vec<&GuiWindow>)
        ensures
            r@.len() == self.widgets().filter(|w: WidgetView| is_top(w)).len(),
            forall|i: int| 0 <= i < r@.len() ==> r@[i]@ == self.widgets().filter(
                |w: WidgetView| is_top(w),
            )[i],
    {
        let ghost ws = self.widgets();
        let ghost p = |w: WidgetView| is_top(w);
        let mut out: Vec<&GuiWindow> = Vec::new();
        let mut i: usize = 0;
        while i < self.widgets.len()
            invariant
                i <= self.widgets@.len(),
                ws == self.widgets@.map_values(|w: GuiWindow| w@),
                p == (|w: WidgetView| is_top(w)),
                out@.len() == ws.take(i as int).filter(p).len(),
                forall|k: int| 0 <= k < out@.len() ==> out@[k]@ == ws.take(i as int).filter(p)[k],
            decreases self.widgets@.len() - i,
        {
            proof {
                reveal(Seq::filter);
                assert(ws.take(i as int + 1).drop_last() =~= ws.take(i as int));
                assert(ws.take(i as int + 1).last() == ws[i as int]);
                assert(ws[i as int] == self.widgets@[i as int]@);
            }
            let w = &self.widgets[i];
            let top = w.kind == GuiWidgetKind::Window && match w.parent {
                Some(q) => q.as_u64() == 0,
                None => true,
            };
            if top {
                out.push(w);
            }
            i = i + 1;
        }
        assert(ws.take(i as int) =~= ws);
        out
    }
}

/// A top-level window: a window with no parent or the null parent.
pub open spec fn is_top(w: WidgetView) -> bool {
    w.kind == GuiWidgetKind::Window && match w.parent {
        Some(q) => q.value() == 0,
        None => true,
    }
}

/// A widget stored under its id is the one found under that id, and the
/// other widgets keep their ids distinct.
pub proof fn law_placed_widget_is_found(ws: Seq<WidgetView>, w: WidgetView)
    requires
        ids_distinct(ws),
    ensures
        ids_distinct(place(ws, w)),
        find_widget(place(ws, w), w.id) matches Some(i) && place(ws, w)[i] == w,
{
    let r = place(ws, w);
    match find_widget(ws, w.id) {
        Some(i) => {
            assert(ws[i].id == w.id);
            assert forall|a: int, b: int| 0 <= a < b < r.len() implies r[a].id != r[b].id by {
                assert(ws[a].id != ws[b].id);
            }
            lemma_find_widget_is(r, w.id, i);
        },
        None => {
            assert forall|a: int, b: int| 0 <= a < b < r.len() implies r[a].id != r[b].id by {
                if b < ws.len() {
                    assert(ws[a].id != ws[b].id);
                } else {
                    assert(ws[a].id != w.id);
                }
            }
            lemma_find_widget_is(r, w.id, ws.len() as int);
        },
    }
}

/// After a widget is removed no widget has its id.
pub proof fn law_removed_widget_is_gone(ws: Seq<WidgetView>, id: NetworkID)
    requires
        ids_distinct(ws),
    ensures
        find_widget(drop_widget(ws, id), id) is None,
{
    let r = drop_widget(ws, id);
    match find_widget(ws, id) {
        Some(i) => {
            assert(ws[i].id == id);
            if exists|k: int| 0 <= k < r.len() && r[k].id == id {
                let k = choose|k: int| 0 <= k < r.len() && r[k].id == id;
                let k2 = if k < i { k } else { k + 1 };
                assert(r[k] == ws[k2]);
                if k2 < i {
                    assert(ws[k2].id != ws[i].id);
                } else {
                    assert(ws[i].id != ws[k2].id);
                }
            }
        },
        None => {},
    }
}

/// Every widget but the one at `i` is the same in `a` and `b`.
pub open spec fn others_unchanged(a: Seq<WidgetView>, b: Seq<WidgetView>, i: int) -> bool {
    &&& b.len() == a.len()
    &&& forall|j: int| 0 <= j < a.len() && j != i ==> #[trigger] b[j] == a[j]
}

proof fn lemma_edit_at(ws: Seq<WidgetView>, i: int, e: EditView)
    requires
        ids_distinct(ws),
        0 <= i < ws.len(),
    ensures
        others_unchanged(ws, edit(ws, ws[i].id, e), i),
        edit(ws, ws[i].id, e)[i] == apply_edit(e, ws[i]),
{
    lemma_find_widget_is(ws, ws[i].id, i);
}

/// Moving a known widget sets its position and nothing else (its size stays). Other widgets and the window mode are untouched.
#[verifier::rlimit(40)]
pub proof fn law_move_sets_position(ws: Seq<WidgetView>, mode: bool, i: int, x: [u32; 4])
    requires
        ids_distinct(ws),
        0 <= i < ws.len(),
    ensures
        ({
            let id = ws[i].id;
            let r = gui_step(ws, mode, Packet::UpdateWindowPos { id, pos: x });
            &&& r.1 == mode
            &&& others_unchanged(ws, r.0, i)
            &&& r.0[i] == WidgetView { pos: x, ..ws[i] }
            &&& r.0[i].size == ws[i].size
        }),
{
    lemma_edit_at(ws, i, EditView::Pos(x));
}

/// Resizing a known widget sets its size and nothing else (its position stays). Other widgets and the window mode are untouched.
#[verifier::rlimit(40)]
pub proof fn law_resize_sets_size(ws: Seq<WidgetView>, mode: bool, i: int, x: [u32; 4])
    requires
        ids_distinct(ws),
        0 <= i < ws.len(),
    ensures
        ({
            let id = ws[i].id;
            let r = gui_step(ws, mode, Packet::UpdateWindowSize { id, size: x });
            &&& r.1 == mode
            &&& others_unchanged(ws, r.0, i)
            &&& r.0[i] == WidgetView { size: x, ..ws[i] }
            &&& r.0[i].pos == ws[i].pos
        }),
{
    lemma_edit_at(ws, i, EditView::Size(x));
}

/// Showing or hiding a known widget sets its visibility and nothing else. Other widgets and the window mode are untouched.
#[verifier::rlimit(40)]
pub proof fn law_visibility_sets_visible(ws: Seq<WidgetView>, mode: bool, i: int, x: bool)
    requires
        ids_distinct(ws),
        0 <= i < ws.len(),
    ensures
        ({
            let id = ws[i].id;
            let r = gui_step(ws, mode, Packet::UpdateWindowVisible { id, visible: x });
            &&& r.1 == mode
            &&& others_unchanged(ws, r.0, i)
            &&& r.0[i] == WidgetView { visible: x, ..ws[i] }
        }),
{
    lemma_edit_at(ws, i, EditView::Visible(x));
}

/// Locking or unlocking a known widget sets its lock and nothing else. Other widgets and the window mode are untouched.
#[verifier::rlimit(40)]
pub proof fn law_lock_sets_locked(ws: Seq<WidgetView>, mode: bool, i: int, x: bool)
    requires
        ids_distinct(ws),
        0 <= i < ws.len(),
    ensures
        ({
            let id = ws[i].id;
            let r = gui_step(ws, mode, Packet::UpdateWindowLocked { id, locked: x });
            &&& r.1 == mode
            &&& others_unchanged(ws, r.0, i)
            &&& r.0[i] == WidgetView { locked: x, ..ws[i] }
        }),
{
    lemma_edit_at(ws, i, EditView::Locked(x));
}

/// A new input limit for a known widget sets that limit and nothing else. Other widgets and the window mode are untouched.
#[verifier::rlimit(40)]
pub proof fn law_max_len_sets_max_len(ws: Seq<WidgetView>, mode: bool, i: int, x: u32)
    requires
        ids_distinct(ws),
        0 <= i < ws.len(),
    ensures
        ({
            let id = ws[i].id;
            let r = gui_step(ws, mode, Packet::UpdateEditMaxLen { id, max_len: x });
            &&& r.1 == mode
            &&& others_unchanged(ws, r.0, i)
            &&& r.0[i] == WidgetView { max_len: x, ..ws[i] }
        }),
{
    lemma_edit_at(ws, i, EditView::MaxLen(x));
}

/// Ticking a known checkbox sets its selection and nothing else. Other widgets and the window mode are untouched.
#[verifier::rlimit(40)]
pub proof fn law_checkbox_sets_selected(ws: Seq<WidgetView>, mode: bool, i: int, x: bool)
    requires
        ids_distinct(ws),
        0 <= i < ws.len(),
    ensures
        ({
            let id = ws[i].id;
            let r = gui_step(ws, mode, Packet::UpdateCheckboxSelected { id, selected: x });
            &&& r.1 == mode
            &&& others_unchanged(ws, r.0, i)
            &&& r.0[i] == WidgetView { selected: x, ..ws[i] }
        }),
{
    lemma_edit_at(ws, i, EditView::Selected(x));
}

/// Moving a known radio button to a group sets its group and nothing else. Other widgets and the window mode are untouched.
#[verifier::rlimit(40)]
pub proof fn law_group_sets_group(ws: Seq<WidgetView>, mode: bool, i: int, x: u32)
    requires
        ids_distinct(ws),
        0 <= i < ws.len(),
    ensures
        ({
            let id = ws[i].id;
            let r = gui_step(ws, mode, Packet::UpdateRadioButtonGroup { id, group: x });
            &&& r.1 == mode
            &&& others_unchanged(ws, r.0, i)
            &&& r.0[i] == WidgetView { group: x, ..ws[i] }
        }),
{
    lemma_edit_at(ws, i, EditView::Group(x));
}

/// Switching a known list's multi-select sets that flag and nothing else. Other widgets and the window mode are untouched.
#[verifier::rlimit(40)]
pub proof fn law_multiselect_sets_multiselect(ws: Seq<WidgetView>, mode: bool, i: int, x: bool)
    requires
        ids_distinct(ws),
        0 <= i < ws.len(),
    ensures
        ({
            let id = ws[i].id;
            let r = gui_step(ws, mode, Packet::UpdateListMultiSelect { id, multiselect: x });
            &&& r.1 == mode
            &&& others_unchanged(ws, r.0, i)
            &&& r.0[i] == WidgetView { multiselect: x, ..ws[i] }
        }),
{
    lemma_edit_at(ws, i, EditView::MultiSelect(x));
}

/// Replacing the text of a known widget sets its text and nothing else.
#[verifier::rlimit(40)]
pub proof fn law_text_sets_text(ws: Seq<WidgetView>, mode: bool, i: int, text: String)
    requires
        ids_distinct(ws),
        0 <= i < ws.len(),
    ensures
        ({
            let r = gui_step(ws, mode, Packet::UpdateWindowText { id: ws[i].id, text });
            &&& r.1 == mode
            &&& others_unchanged(ws, r.0, i)
            &&& r.0[i] == WidgetView { text: text@, ..ws[i] }
        }),
{
    lemma_edit_at(ws, i, EditView::Text(text@));
}

/// The widget found under `id` in `ws` has kind `kind`, hangs under
/// `parent`, and carries the given label, placement, size, lock state,
/// visibility and text.
pub open spec fn shows_widget(
    ws: Seq<WidgetView>,
    id: NetworkID,
    parent: NetworkID,
    label: Seq<char>,
    kind: GuiWidgetKind,
    pos: [u32; 4],
    size: [u32; 4],
    locked: bool,
    visible: bool,
    text: Seq<char>,
) -> bool {
    find_widget(ws, id) matches Some(k) && {
        let w = ws[k];
        &&& w.kind == kind
        &&& w.parent == Some(parent)
        &&& w.label == label
        &&& w.pos == pos
        &&& w.size == size
        &&& w.locked == locked
        &&& w.visible == visible
        &&& w.text == text
        &&& w.items == Seq::<NetworkID>::empty()
    }
}

/// A window, button or text packet creates a widget of that kind under
/// its id, with the packet's parent, label, position, size, lock state,
/// visibility and text; the window mode is untouched and the ids stay
/// distinct.
#[verifier::rlimit(40)]
pub proof fn law_new_widget_packets_create_their_widget(ws: Seq<WidgetView>, mode: bool, p: Packet)
    requires
        ids_distinct(ws),
    ensures
        ({
            let r = gui_step(ws, mode, p);
            &&& (p matches Packet::WindowNew { id, parent, label, pos, size, locked, visible, text } ==> {
                &&& r.1 == mode
                &&& ids_distinct(r.0)
                &&& shows_widget(r.0, id, parent, label@, GuiWidgetKind::Window, pos, size, locked, visible, text@)
            })
            &&& (p matches Packet::ButtonNew { id, parent, label, pos, size, locked, visible, text } ==> {
                &&& r.1 == mode
                &&& ids_distinct(r.0)
                &&& shows_widget(r.0, id, parent, label@, GuiWidgetKind::Button, pos, size, locked, visible, text@)
            })
            &&& (p matches Packet::TextNew { id, parent, label, pos, size, locked, visible, text } ==> {
                &&& r.1 == mode
                &&& ids_distinct(r.0)
                &&& shows_widget(r.0, id, parent, label@, GuiWidgetKind::Text, pos, size, locked, visible, text@)
            })
        }),
{
    match p {
        Packet::WindowNew { id, parent, label, pos, size, locked, visible, text } => {
            law_placed_widget_is_found(ws, created(id, parent, label@, GuiWidgetKind::Window, pos, size, locked, visible, text@));
        },
        Packet::ButtonNew { id, parent, label, pos, size, locked, visible, text } => {
            law_placed_widget_is_found(ws, created(id, parent, label@, GuiWidgetKind::Button, pos, size, locked, visible, text@));
        },
        Packet::TextNew { id, parent, label, pos, size, locked, visible, text } => {
            law_placed_widget_is_found(ws, created(id, parent, label@, GuiWidgetKind::Text, pos, size, locked, visible, text@));
        },
        _ => {},
    }
}

/// An edit box, checkbox, radio button or list packet creates a widget of
/// that kind under its id with the packet's placement and contents, and
/// with the packet's own extra: length limit and validation, selection,
/// selection and group, or multi-selection.
#[verifier::rlimit(40)]
pub proof fn law_input_widget_packets_create_their_widget(ws: Seq<WidgetView>, mode: bool, p: Packet)
    requires
        ids_distinct(ws),
    ensures
        ({
            let r = gui_step(ws, mode, p);
            &&& (p matches Packet::EditNew { id, parent, label, pos, size, locked, visible, text, max_len, validation } ==> {
                &&& r.1 == mode
                &&& shows_widget(r.0, id, parent, label@, GuiWidgetKind::Edit, pos, size, locked, visible, text@)
                &&& r.0[find_widget(r.0, id)->0].max_len == max_len
                &&& r.0[find_widget(r.0, id)->0].validation == validation@
            })
            &&& (p matches Packet::CheckboxNew { id, parent, label, pos, size, locked, visible, text, selected } ==> {
                &&& r.1 == mode
                &&& shows_widget(r.0, id, parent, label@, GuiWidgetKind::Checkbox, pos, size, locked, visible, text@)
                &&& r.0[find_widget(r.0, id)->0].selected == selected
            })
            &&& (p matches Packet::RadioButtonNew { id, parent, label, pos, size, locked, visible, text, selected, group } ==> {
                &&& r.1 == mode
                &&& shows_widget(r.0, id, parent, label@, GuiWidgetKind::RadioButton, pos, size, locked, visible, text@)
                &&& r.0[find_widget(r.0, id)->0].selected == selected
                &&& r.0[find_widget(r.0, id)->0].group == group
            })
            &&& (p matches Packet::ListNew { id, parent, label, pos, size, locked, visible, text, multiselect } ==> {
                &&& r.1 == mode
                &&& shows_widget(r.0, id, parent, label@, GuiWidgetKind::List, pos, size, locked, visible, text@)
                &&& r.0[find_widget(r.0, id)->0].multiselect == multiselect
            })
        }),
{
    match p {
        Packet::EditNew { id, parent, label, pos, size, locked, visible, text, max_len, validation } => {
            law_placed_widget_is_found(
                ws,
                WidgetView {
                    max_len,
                    validation: validation@,
                    ..created(id, parent, label@, GuiWidgetKind::Edit, pos, size, locked, visible, text@)
                },
            );
        },
        Packet::CheckboxNew { id, parent, label, pos, size, locked, visible, text, selected } => {
            law_placed_widget_is_found(
                ws,
                WidgetView { selected, ..created(id, parent, label@, GuiWidgetKind::Checkbox, pos, size, locked, visible, text@) },
            );
        },
        Packet::RadioButtonNew { id, parent, label, pos, size, locked, visible, text, selected, group } => {
            law_placed_widget_is_found(
                ws,
                WidgetView {
                    selected,
                    group,
                    ..created(id, parent, label@, GuiWidgetKind::RadioButton, pos, size, locked, visible, text@)
                },
            );
        },
        Packet::ListNew { id, parent, label, pos, size, locked, visible, text, multiselect } => {
            law_placed_widget_is_found(
                ws,
                WidgetView { multiselect, ..created(id, parent, label@, GuiWidgetKind::List, pos, size, locked, visible, text@) },
            );
        },
        _ => {},
    }
}

/// Removing a window or a list item forgets it: nothing is found under its
/// id afterwards, and the window mode is untouched.
pub proof fn law_remove_packets_forget(ws: Seq<WidgetView>, mode: bool, id: NetworkID)
    requires
        ids_distinct(ws),
    ensures
        ({
            let a = gui_step(ws, mode, Packet::WindowRemove { id });
            let b = gui_step(ws, mode, Packet::ListItemRemove { id });
            &&& find_widget(a.0, id) is None && a.1 == mode && a.2
            &&& find_widget(b.0, id) is None && b.1 == mode && b.2
        }),
{
    law_removed_widget_is_gone(ws, id);
}

/// Switching the window mode sets it to the packet's flag and leaves every
/// widget as it was.
pub proof fn law_window_mode_packet_sets_mode(ws: Seq<WidgetView>, mode: bool, enabled: bool)
    ensures
        gui_step(ws, mode, Packet::UpdateWindowMode { enabled }) == (ws, enabled, true),
{
}

/// A new list item is found under its id as a list item of its container,
/// labelled with the packet's text and selected as the packet says; and a
/// container known before lists the new item last among its items.
#[verifier::rlimit(60)]
pub proof fn law_list_item_joins_its_list(
    ws: Seq<WidgetView>,
    mode: bool,
    id: NetworkID,
    container: NetworkID,
    text: String,
    selected: bool,
    c: int,
)
    requires
        ids_distinct(ws),
        id != container,
        0 <= c < ws.len(),
        ws[c].id == container,
    ensures
        ({
            let r = gui_step(ws, mode, Packet::ListItemNew { id, container, text, selected });
            &&& r.1 == mode && r.2
            &&& ids_distinct(r.0)
            &&& find_widget(r.0, id) matches Some(k) && {
                &&& r.0[k].kind == GuiWidgetKind::ListItem
                &&& r.0[k].parent == Some(container)
                &&& r.0[k].label == text@
                &&& r.0[k].selected == selected
            }
            &&& find_widget(r.0, container) == Some(c)
            &&& r.0[c].items == ws[c].items.push(id)
            &&& r.0[c].kind == ws[c].kind
        }),
{
    lemma_find_widget_is(ws, container, c);
    let e = edit(ws, container, EditView::AddItem(id));
    assert(e == ws.update(c, apply_edit(EditView::AddItem(id), ws[c])));
    assert(ids_distinct(e)) by {
        assert forall|a: int, b: int| 0 <= a < b < e.len() implies e[a].id != e[b].id by {
            assert(e[a].id == ws[a].id);
            assert(e[b].id == ws[b].id);
        }
    }
    let w = WidgetView { selected, ..fresh(id, Some(container), text@, GuiWidgetKind::ListItem) };
    law_placed_widget_is_found(e, w);
    let t = place(e, w);
    match find_widget(e, id) {
        Some(i) => {
            assert(e[i].id == id);
            assert(i != c);
            assert(t[c] == e[c]);
        },
        None => {
            assert(t[c] == e[c]);
        },
    }
    assert(t[c].id == container);
    lemma_find_widget_is(t, container, c);
}

} // verus!
