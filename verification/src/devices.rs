//! Walking the native list of audio output devices.
//!
//! The native layer hands out the devices as a chain of nodes, each with the
//! address of the next and the last with none. The chain belongs to the caller
//! as a whole: it is given back through its first node, once, when the walk is
//! over. The walk here decides what is to be done next; the program around the
//! library reads the node or releases the chain and reports back.

use vstd::prelude::*;
use vstd::string::*;
use crate::handle::released_handle;
use crate::marshal::{owned_text, text_or_empty};

verus! {

/// One node of the native chain, copied out of native memory as it stands.
/// A text is `None` where the node has none. `next` is the address of the
/// node after it, zero at the end of the chain.
#[derive(Debug, Clone)]
pub struct DeviceNode {
    pub device: Option<String>,
    pub description: Option<String>,
    pub next: usize,
}

impl DeviceNode {
    /// The device that the node describes, as plain text. A text that the
    /// node does not have is empty.
    pub open spec fn text(self) -> DeviceText {
        (text_or_empty(self.device), text_or_empty(self.description))
    }
}

/// An audio output device: the name it is selected by, and a description for
/// people.
#[derive(Debug, Clone)]
pub struct AudioDevice {
    pub device: String,
    pub description: String,
}

/// What a walk asks for next.
#[derive(Debug, Clone, Copy, PartialEq, Eq, Structural)]
pub enum WalkAction {
    /// Read the node at this address and report it with `visit`.
    Read(usize),
    /// The last node has been read: take the chain with `release` and give it
    /// back to the native layer. The address is that of its first node.
    Release(usize),
    /// Nothing is left to do.
    Done,
}

/// A device as plain text: its name, then its description.
pub type DeviceText = (Seq<char>, Seq<char>);

/// The devices of `list` as plain text, in the order of the list.
pub open spec fn device_texts(list: Seq<AudioDevice>) -> Seq<DeviceText> {
    list.map_values(|d: AudioDevice| (d.device@, d.description@))
}

/// The devices that the nodes `nodes` describe, in the order of the nodes.
pub open spec fn node_texts(nodes: Seq<DeviceNode>) -> Seq<DeviceText> {
    nodes.map_values(|n: DeviceNode| n.text())
}

/// A walk along a native device chain.
#[derive(Debug)]
pub struct DeviceWalk {
    head: usize,
    at: usize,
    found: Vec<AudioDevice>,
}

/// What a walk stands for.
pub struct DeviceWalkView {
    /// The address of the first node, zero when the chain is not held: there
    /// was none, or it has been handed out for release.
    pub head: usize,
    /// The address of the node to read next, zero when none is left.
    pub at: usize,
    /// The devices read so far, in the order of the chain.
    pub found: Seq<DeviceText>,
}

impl DeviceWalkView {
    /// The walk at the start of the chain whose first node is at `head`.
    pub open spec fn start(head: usize) -> DeviceWalkView {
        DeviceWalkView { head, at: head, found: Seq::empty() }
    }

    /// What the walk asks for next.
    pub open spec fn action(self) -> WalkAction {
        if self.at != 0 {
            WalkAction::Read(self.at)
        } else if self.head != 0 {
            WalkAction::Release(self.head)
        } else {
            WalkAction::Done
        }
    }

    /// The walk after the node it asked for was read as `node`: the device is
    /// noted and the walk moves to the next node. A walk that asked for no
    /// node stays as it is.
    pub open spec fn visit(self, node: DeviceNode) -> DeviceWalkView {
        if self.at != 0 {
            DeviceWalkView {
                head: self.head,
                at: node.next,
                found: self.found.push(node.text()),
            }
        } else {
            self
        }
    }

    /// The walk after the nodes `nodes` were read one after another.
    pub open spec fn visit_all(self, nodes: Seq<DeviceNode>) -> DeviceWalkView
        decreases nodes.len(),
    {
        if nodes.len() == 0 {
            self
        } else {
            self.visit_all(nodes.drop_last()).visit(nodes.last())
        }
    }

    /// The walk after the chain was taken for release: it holds no chain and
    /// asks for no node. The devices found stay.
    pub open spec fn release(self) -> DeviceWalkView {
        DeviceWalkView { head: 0, at: 0, found: self.found }
    }

    /// Whether `nodes` is a chain that starts at `head` and is read to its
    /// end: each node but the last names a next one, and the last names none.
    pub open spec fn is_chain(head: usize, nodes: Seq<DeviceNode>) -> bool {
        &&& head != 0
        &&& nodes.len() > 0
        &&& forall|i: int| 0 <= i < nodes.len() - 1 ==> (#[trigger] nodes[i]).next != 0
        &&& nodes.last().next == 0
    }

    /// The address at which node `i` of a chain stands: `head` for the first,
    /// and for each other the address that the node before it names.
    pub open spec fn address_of(head: usize, nodes: Seq<DeviceNode>, i: int) -> usize {
        if i <= 0 {
            head
        } else {
            nodes[i - 1].next
        }
    }
}

impl View for DeviceWalk {
    type V = DeviceWalkView;

    closed spec fn view(&self) -> DeviceWalkView {
        DeviceWalkView { head: self.head, at: self.at, found: device_texts(self.found@) }
    }
}

impl DeviceWalk {
    /// The walk at the start of the chain whose first node is at `head`. Where
    /// `head` is zero there is no chain, and the walk is over before it began.
    pub fn start(head: usize) -> (walk: DeviceWalk)
        ensures
            walk@ == DeviceWalkView::start(head),
    {
        let walk = DeviceWalk { head, at: head, found: Vec::new() };
        assert(device_texts(walk.found@) =~= Seq::<DeviceText>::empty());
        walk
    }

    /// What is to be done next.
    pub fn action(&self) -> (next: WalkAction)
        ensures
            next == self@.action(),
    {
        if self.at != 0 {
            WalkAction::Read(self.at)
        } else if self.head != 0 {
            WalkAction::Release(self.head)
        } else {
            WalkAction::Done
        }
    }

    /// Takes note of the node that was asked for, read as `node`, and moves on
    /// to the node after it. Its texts are copied, a missing one as the empty
    /// text; nothing of the native node is kept. A walk that asked for no node
    /// ignores the call.
    pub fn visit(&mut self, node: DeviceNode)
        ensures
            final(self)@ == old(self)@.visit(node),
    {
        if self.at != 0 {
            let ghost before = self.found@;
            let device = AudioDevice {
                device: owned_text(node.device),
                description: owned_text(node.description),
            };
            self.found.push(device);
            self.at = node.next;
            assert(device_texts(self.found@) =~= device_texts(before).push(node.text()));
        }
    }

    /// Gives up the chain. The address that comes back is that of its first
    /// node, to be given back to the native layer by the caller; from then on
    /// the walk holds no chain and asks for nothing, and a further call hands
    /// out nothing.
    pub fn release(&mut self) -> (handle: Option<usize>)
        ensures
            handle == released_handle(old(self)@.head),
            final(self)@ == old(self)@.release(),
    {
        let head: usize = self.head;
        self.head = 0;
        self.at = 0;
        if head == 0 {
            None
        } else {
            Some(head)
        }
    }

    /// The devices read so far, in the order of the chain.
    pub fn devices(&self) -> (list: &Vec<AudioDevice>)
        ensures
            device_texts(list@) == self@.found,
    {
        &self.found
    }
}

/// A walk along a chain reads each node at the address that the node before it
/// names, the first at the head, and notes the devices in the order of the
/// chain. When the last node has been read it asks for the chain to be
/// released through its head, and asks for no further node.
pub proof fn walk_follows_chain(head: usize, nodes: Seq<DeviceNode>)
    requires
        DeviceWalkView::is_chain(head, nodes),
    ensures
        forall|i: int|
            0 <= i < nodes.len() ==> (#[trigger] DeviceWalkView::start(head).visit_all(
                nodes.take(i),
            )).action() == WalkAction::Read(DeviceWalkView::address_of(head, nodes, i)),
        DeviceWalkView::start(head).visit_all(nodes).found == node_texts(nodes),
        DeviceWalkView::start(head).visit_all(nodes).head == head,
        DeviceWalkView::start(head).visit_all(nodes).action() == WalkAction::Release(head),
{
    assert forall|i: int| 0 <= i <= nodes.len() implies ({
        let walk = #[trigger] DeviceWalkView::start(head).visit_all(nodes.take(i));
        &&& walk.head == head
        &&& walk.at == DeviceWalkView::address_of(head, nodes, i)
        &&& walk.found == node_texts(nodes.take(i))
    }) by {
        walk_prefix(head, nodes, i);
    }
    assert(nodes.take(nodes.len() as int) =~= nodes);
    assert forall|i: int| 0 <= i < nodes.len() implies (#[trigger] DeviceWalkView::start(
        head,
    ).visit_all(nodes.take(i))).action() == WalkAction::Read(
        DeviceWalkView::address_of(head, nodes, i),
    ) by {
        if i > 0 {
            assert(nodes[i - 1].next != 0);
        }
    }
}

/// Where a walk stands after the first `i` nodes of a chain.
proof fn walk_prefix(head: usize, nodes: Seq<DeviceNode>, i: int)
    requires
        DeviceWalkView::is_chain(head, nodes),
        0 <= i <= nodes.len(),
    ensures
        DeviceWalkView::start(head).visit_all(nodes.take(i)).head == head,
        DeviceWalkView::start(head).visit_all(nodes.take(i)).at == DeviceWalkView::address_of(
            head,
            nodes,
            i,
        ),
        DeviceWalkView::start(head).visit_all(nodes.take(i)).found == node_texts(nodes.take(i)),
    decreases i,
{
    let start = DeviceWalkView::start(head);
    if i == 0 {
        assert(nodes.take(0).len() == 0);
        assert(node_texts(nodes.take(0)) =~= Seq::<DeviceText>::empty());
    } else {
        walk_prefix(head, nodes, i - 1);
        assert(nodes.take(i).drop_last() =~= nodes.take(i - 1));
        assert(nodes.take(i).last() == nodes[i - 1]);
        let before = start.visit_all(nodes.take(i - 1));
        assert(before.at != 0) by {
            if i - 1 > 0 {
                assert(nodes[i - 2].next != 0);
            }
        }
        assert(node_texts(nodes.take(i)) =~= node_texts(nodes.take(i - 1)).push(
            nodes[i - 1].text(),
        ));
    }
}

/// The chain is handed out for release once: a walk that has been released
/// holds no chain, asks for nothing, and hands out nothing when released
/// again. A walk over no chain at all never hands one out.
pub proof fn chain_is_released_once(walk: DeviceWalkView)
    ensures
        walk.release().action() == WalkAction::Done,
        released_handle(walk.release().head) is None,
        walk.release().release() == walk.release(),
        DeviceWalkView::start(0).action() == WalkAction::Done,
        released_handle(DeviceWalkView::start(0).head) is None,
{
}

} // verus!
