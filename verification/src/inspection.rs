//! What an inspection tool sees of the app.
use vstd::prelude::*;

use crate::notice::joined2;
use crate::text::{chars_of, optional_view, same, same_lists, views};

verus! {

/// The name of the whole app in the tree.
pub const ROOT_ID: &'static str = "auru-pm";

/// A screen or window that can be inspected.
#[derive(Clone, Copy, Debug, PartialEq, Eq, Structural)]
pub enum Surface {
    Library,
    Onboarding,
    Settings,
}

impl Surface {
    pub open spec fn text(self) -> Seq<char> {
        match self {
            Surface::Library => "library"@,
            Surface::Onboarding => "onboarding"@,
            Surface::Settings => "settings"@,
        }
    }

    /// The surface's name in the protocol.
    pub fn value(self) -> (r: &'static str)
        ensures
            r@ == self.text(),
    {
        match self {
            Surface::Library => "library",
            Surface::Onboarding => "onboarding",
            Surface::Settings => "settings",
        }
    }
}

// ---------------------------------------------------------------------------
// Nodes
// ---------------------------------------------------------------------------

/// Something that can be seen or used.
#[derive(Debug)]
pub struct SemanticNode {
    pub id: String,
    pub role: String,
    pub label: String,
    pub value: Option<String>,
    pub focused: bool,
    pub actions: Vec<String>,
}

/// A node by its texts.
#[verifier::ext_equal]
pub struct NodeView {
    pub id: Seq<char>,
    pub role: Seq<char>,
    pub label: Seq<char>,
    pub value: Option<Seq<char>>,
    pub focused: bool,
    pub actions: Seq<Seq<char>>,
}

impl View for SemanticNode {
    type V = NodeView;

    open spec fn view(&self) -> NodeView {
        NodeView {
            id: self.id@,
            role: self.role@,
            label: self.label@,
            value: optional_view(self.value),
            focused: self.focused,
            actions: views(self.actions@),
        }
    }
}

/// Nodes by their texts.
pub open spec fn node_views(nodes: Seq<SemanticNode>) -> Seq<NodeView> {
    nodes.map_values(|node: SemanticNode| node@)
}

/// What can be done with a node.
#[derive(Clone, Copy, Debug, PartialEq, Eq, Structural)]
pub enum NodeActions {
    Nothing,
    Click,
    Focus,
    /// Focus it and type.
    Type,
}

impl NodeActions {
    pub open spec fn texts(self) -> Seq<Seq<char>> {
        match self {
            NodeActions::Nothing => Seq::empty(),
            NodeActions::Click => seq!["click"@],
            NodeActions::Focus => seq!["focus"@],
            NodeActions::Type => seq!["focus"@, "type_text"@],
        }
    }

    /// The actions' names in the protocol.
    pub fn names(self) -> (r: Vec<String>)
        ensures
            views(r@) == self.texts(),
    {
        let mut out: Vec<String> = Vec::new();
        match self {
            NodeActions::Nothing => {},
            NodeActions::Click => {
                out.push("click".to_owned());
            },
            NodeActions::Focus => {
                out.push("focus".to_owned());
            },
            NodeActions::Type => {
                out.push("focus".to_owned());
                out.push("type_text".to_owned());
            },
        }
        assert(views(out@) =~= self.texts());
        out
    }
}

/// A node by its texts.
pub open spec fn node_of(
    id: Seq<char>,
    role: Seq<char>,
    label: Seq<char>,
    value: Option<Seq<char>>,
    focused: bool,
    actions: Seq<Seq<char>>,
) -> NodeView {
    NodeView { id, role, label, value, focused, actions }
}

/// A node.
pub fn node(
    id: &str,
    role: &str,
    label: &str,
    value: Option<String>,
    focused: bool,
    actions: Vec<String>,
) -> (r: SemanticNode)
    ensures
        r@ == node_of(id@, role@, label@, optional_view(value), focused, views(actions@)),
{
    SemanticNode {
        id: id.to_owned(),
        role: role.to_owned(),
        label: label.to_owned(),
        value,
        focused,
        actions,
    }
}

/// Something that is only to be seen.
pub open spec fn label_node(
    id: Seq<char>,
    role: Seq<char>,
    label: Seq<char>,
    value: Option<Seq<char>>,
) -> NodeView {
    node_of(id, role, label, value, false, NodeActions::Nothing.texts())
}

/// Something that is only to be seen.
pub fn shown(id: &str, role: &str, label: &str, value: Option<String>) -> (r: SemanticNode)
    ensures
        r@ == label_node(id@, role@, label@, optional_view(value)),
{
    node(id, role, label, value, false, NodeActions::Nothing.names())
}

/// A button, which can be clicked while it is enabled.
pub open spec fn button_node(
    id: Seq<char>,
    label: Seq<char>,
    value: Option<Seq<char>>,
    enabled: bool,
) -> NodeView {
    node_of(
        id,
        "button"@,
        label,
        value,
        false,
        if enabled {
            NodeActions::Click.texts()
        } else {
            NodeActions::Nothing.texts()
        },
    )
}

/// A button, which can be clicked while it is enabled.
pub fn button(id: &str, label: &str, value: Option<String>, enabled: bool) -> (r: SemanticNode)
    ensures
        r@ == button_node(id@, label@, optional_view(value), enabled),
{
    let actions = if enabled {
        NodeActions::Click
    } else {
        NodeActions::Nothing
    };
    node(id, "button", label, value, false, actions.names())
}

/// The text in an entry field, and whether it has the focus.
#[derive(Debug)]
pub struct InputValue {
    pub text: String,
    pub focused: bool,
}

/// An entry field that can be typed into.
pub open spec fn input_node(id: Seq<char>, role: Seq<char>, label: Seq<char>, input: InputValue) -> NodeView {
    node_of(id, role, label, Some(input.text@), input.focused, NodeActions::Type.texts())
}

/// An entry field that can be typed into.
pub fn entry(id: &str, role: &str, label: &str, input: &InputValue) -> (r: SemanticNode)
    ensures
        r@ == input_node(id@, role@, label@, *input),
{
    node(id, role, label, Some(input.text.clone()), input.focused, NodeActions::Type.names())
}

/// Put a node behind others.
pub fn push_node(nodes: &mut Vec<SemanticNode>, node: SemanticNode)
    ensures
        node_views(final(nodes)@) == node_views(old(nodes)@).push(node@),
{
    let ghost before = nodes@;
    nodes.push(node);
    assert(node_views(nodes@) =~= node_views(before).push(node@));
}

// ---------------------------------------------------------------------------
// Names that say nothing
// ---------------------------------------------------------------------------

/// The FNV-1a hash of some bytes, after others.
pub open spec fn fnv(hash: u64, bytes: Seq<u8>) -> u64
    decreases bytes.len(),
{
    if bytes.len() == 0 {
        hash
    } else {
        fnv((hash ^ (bytes[0] as u64)).wrapping_mul(0x0000_0100_0000_01b3), bytes.skip(1))
    }
}

/// The hash of no bytes.
pub const FNV_START: u64 = 0xcbf2_9ce4_8422_2325;

/// A digit below sixteen.
pub open spec fn hex_digit(d: nat) -> char {
    if d < 10 {
        (48 + d) as char
    } else {
        (87 + d) as char
    }
}

/// A number in so many hexadecimal digits.
pub open spec fn hex(n: nat, digits: nat) -> Seq<char>
    decreases digits,
{
    if digits == 0 {
        Seq::empty()
    } else {
        hex(n / 16, (digits - 1) as nat).push(hex_digit(n % 16))
    }
}

fn hex_text(n: u64, digits: usize) -> (r: String)
    ensures
        r@ == hex(n as nat, digits as nat),
    decreases digits,
{
    if digits == 0 {
        let out = String::new();
        assert(out@ =~= Seq::<char>::empty());
        return out;
    }
    let mut out = hex_text(n / 16, digits - 1);
    let last: u8 = (n % 16) as u8;
    out.push(
        if last < 10 {
            (48 + last) as char
        } else {
            (87 + last) as char
        },
    );
    out
}

/// A name made from an identity: a prefix and a hash.
pub open spec fn opaque_id(prefix: Seq<char>, identity: Seq<u8>) -> Seq<char> {
    prefix + "-"@ + hex(fnv(FNV_START, identity) as nat, 16)
}

/// A stable name for an identity that may hold private paths or punctuation.
pub fn stable_id(prefix: &str, identity: &str) -> (r: String)
    ensures
        r@ == opaque_id(prefix@, vstd::utf8::encode_utf8(identity@)),
{
    let bytes = identity.as_bytes();
    let ghost all = bytes@;
    let mut hash: u64 = FNV_START;
    let mut i: usize = 0;
    assert(all.skip(0) =~= all);
    while i < bytes.len()
        invariant
            i <= bytes@.len(),
            all == bytes@,
            fnv(FNV_START, all) == fnv(hash, all.skip(i as int)),
        decreases bytes@.len() - i,
    {
        assert(all.skip(i as int)[0] == all[i as int]);
        assert(all.skip(i as int).skip(1) =~= all.skip(i + 1));
        hash = (hash ^ (bytes[i] as u64)).wrapping_mul(0x0000_0100_0000_01b3);
        i = i + 1;
    }
    assert(all.skip(i as int).len() == 0);
    let mut out = joined2(prefix, "-");
    out.append(hex_text(hash, 16).as_str());
    out
}

/// What is shown of an identity is sixteen hexadecimal digits, whatever the
/// identity says.
pub proof fn identities_stay_hidden(prefix: Seq<char>, identity: Seq<u8>)
    ensures
        opaque_id(prefix, identity).len() == prefix.len() + 17,
        opaque_id(prefix, identity).take(prefix.len() as int) == prefix,
        forall|i: int|
            prefix.len() < i < prefix.len() + 17 ==> ('0' <= #[trigger] opaque_id(prefix, identity)[i]
                <= '9' || 'a' <= opaque_id(prefix, identity)[i] <= 'f'),
{
    reveal_strlit("-");
    let n = fnv(FNV_START, identity) as nat;
    hex_is_digits(n, 16);
    assert forall|i: int| prefix.len() < i < prefix.len() + 17 implies ('0'
        <= #[trigger] opaque_id(prefix, identity)[i] <= '9' || 'a' <= opaque_id(prefix, identity)[i]
        <= 'f') by {
        assert(opaque_id(prefix, identity)[i] == hex(n, 16)[i - prefix.len() - 1]);
    }
    assert(opaque_id(prefix, identity).take(prefix.len() as int) =~= prefix);
}

proof fn hex_is_digits(n: nat, digits: nat)
    ensures
        hex(n, digits).len() == digits,
        forall|i: int|
            0 <= i < digits ==> ('0' <= #[trigger] hex(n, digits)[i] <= '9' || 'a' <= hex(n, digits)[i]
                <= 'f'),
    decreases digits,
{
    if digits > 0 {
        hex_is_digits(n / 16, (digits - 1) as nat);
    }
}

// ---------------------------------------------------------------------------
// Keys
// ---------------------------------------------------------------------------

/// The keys that type a text: one for each character.
pub fn keystrokes(text: &str) -> (r: Vec<String>)
    ensures
        views(r@) == Seq::new(text@.len(), |i: int| seq![text@[i]]),
{
    let chars = chars_of(text);
    let mut keys: Vec<String> = Vec::new();
    let mut i: usize = 0;
    while i < chars.len()
        invariant
            i <= chars@.len(),
            chars@ == text@,
            keys@.len() == i,
            forall|j: int| 0 <= j < i ==> (#[trigger] keys@[j])@ == seq![text@[j]],
        decreases chars@.len() - i,
    {
        let mut key = String::new();
        key.push(chars[i]);
        assert(key@ =~= seq![text@[i as int]]);
        keys.push(key);
        i = i + 1;
    }
    assert(views(keys@) =~= Seq::new(text@.len(), |i: int| seq![text@[i]]));
    keys
}

/// What is answered to a key, by whether the window handled it.
pub fn key_answer(handled: bool) -> (r: Result<(), String>)
    ensures
        handled ==> r is Ok,
        !handled ==> r is Err && r->Err_0@
            == "the active GPUI window did not handle that key"@,
{
    if handled {
        Ok(())
    } else {
        Err("the active GPUI window did not handle that key".to_owned())
    }
}

/// What is answered to a text, by whether the window handled each of its keys.
pub fn typing_answer(handled: bool) -> (r: Result<(), String>)
    ensures
        handled ==> r is Ok,
        !handled ==> r is Err && r->Err_0@
            == "the active GPUI window has no editable focus target"@,
{
    if handled {
        Ok(())
    } else {
        Err("the active GPUI window has no editable focus target".to_owned())
    }
}

// ---------------------------------------------------------------------------
// Publishing
// ---------------------------------------------------------------------------

/// The root of the tree.
pub open spec fn root_node(surface: Surface, focused: bool) -> NodeView {
    node_of(
        ROOT_ID@,
        "application"@,
        "Auru PM"@,
        Some(surface.text()),
        focused,
        NodeActions::Focus.texts(),
    )
}

/// A window, by a number that no other window has.
pub type WindowId = u64;

/// What was published last, and from which window.
#[derive(Debug)]
pub struct InspectionPublisher {
    pub revision: u64,
    pub published_nodes: Vec<SemanticNode>,
    /// The size of the window's content when it was published.
    pub published_size: (u32, u32),
    pub active_window: Option<WindowId>,
}

fn same_node(a: &SemanticNode, b: &SemanticNode) -> (r: bool)
    ensures
        r == (a@ == b@),
{
    let values = match (&a.value, &b.value) {
        (Some(a), Some(b)) => same(a.as_str(), b.as_str()),
        (None, None) => true,
        _ => false,
    };
    same(a.id.as_str(), b.id.as_str()) && same(a.role.as_str(), b.role.as_str()) && same(
        a.label.as_str(),
        b.label.as_str(),
    ) && values && a.focused == b.focused && same_lists(&a.actions, &b.actions)
}

fn same_nodes(a: &Vec<SemanticNode>, b: &Vec<SemanticNode>) -> (r: bool)
    ensures
        r == (node_views(a@) == node_views(b@)),
{
    assert(node_views(a@).len() == a@.len());
    assert(node_views(b@).len() == b@.len());
    if a.len() != b.len() {
        return false;
    }
    let mut i: usize = 0;
    while i < a.len()
        invariant
            i <= a@.len(),
            a@.len() == b@.len(),
            forall|j: int| 0 <= j < i ==> node_views(a@)[j] == #[trigger] node_views(b@)[j],
        decreases a@.len() - i,
    {
        if !same_node(&a[i], &b[i]) {
            assert(node_views(a@)[i as int] != node_views(b@)[i as int]);
            return false;
        }
        i = i + 1;
    }
    assert(node_views(a@) =~= node_views(b@));
    true
}

impl InspectionPublisher {
    pub fn new() -> (r: Self)
        ensures
            r.revision == 0,
            r.published_nodes@.len() == 0,
            r.active_window is None,
    {
        InspectionPublisher {
            revision: 0,
            published_nodes: Vec::new(),
            published_size: (0, 0),
            active_window: None,
        }
    }

    /// Whether a window may be published: one in the background must not stand
    /// in for the one that actions go to.
    pub open spec fn admits(self, window: WindowId, active: bool) -> bool {
        active || self.active_window is None || self.active_window == Some(window)
    }

    /// Whether this is a new tree.
    pub open spec fn is_news(self, nodes: Seq<NodeView>, size: (u32, u32)) -> bool {
        node_views(self.published_nodes@) != nodes || self.published_size != size
    }

    /// Publish what a window shows: the tree has a new revision if anything in
    /// it changed. Says whether there is a tree to send.
    pub fn publish(
        &mut self,
        surface: Surface,
        window: WindowId,
        active: bool,
        size: (u32, u32),
        root_focused: bool,
        nodes: Vec<SemanticNode>,
    ) -> (r: bool)
        ensures
            !old(self).admits(window, active) ==> !r && *final(self) == *old(self),
            old(self).admits(window, active) ==> {
                let tree = seq![root_node(surface, root_focused)] + node_views(nodes@);
                &&& final(self).active_window == Some(window)
                &&& r == old(self).is_news(tree, size)
                &&& !r ==> *final(self) == (InspectionPublisher {
                    active_window: Some(window),
                    ..*old(self)
                })
                &&& r ==> {
                    &&& node_views(final(self).published_nodes@) == tree
                    &&& final(self).published_size == size
                    &&& final(self).revision == (if old(self).revision == u64::MAX {
                        u64::MAX
                    } else {
                        (old(self).revision + 1) as u64
                    })
                }
            },
    {
        let other = match self.active_window {
            Some(known) => known != window,
            None => false,
        };
        if !active && other {
            return false;
        }
        self.active_window = Some(window);
        let root = node(
            ROOT_ID,
            "application",
            "Auru PM",
            Some(surface.value().to_owned()),
            root_focused,
            NodeActions::Focus.names(),
        );
        let ghost before = nodes@;
        let ghost top = root@;
        let mut nodes = nodes;
        nodes.insert(0, root);
        assert(node_views(nodes@) =~= seq![top] + node_views(before));
        if same_nodes(&nodes, &self.published_nodes) && self.published_size.0 == size.0
            && self.published_size.1 == size.1 {
            return false;
        }
        if self.revision < u64::MAX {
            self.revision = self.revision + 1;
        }
        self.published_nodes = nodes;
        self.published_size = size;
        true
    }

    pub fn active_window(&self) -> (r: Option<WindowId>)
        ensures
            r == self.active_window,
    {
        self.active_window
    }
}

} // verus!
