//! The render graph: the ordered list of nodes the audio tick mixes, and
//! the command protocol that mutates it while audio keeps playing.
//!
//! The index of a node is its address for every command; commands against
//! an index at or past the current length answer `InvalidId` and change
//! nothing. Every mutation reports the broadcast the observers are owed,
//! and any background load the I/O layer must run.

use crate::midi::Message;
use crate::node;
use crate::node::{Node, Reply};
use crate::path::VirtualPaths;
use crate::preset_map::PresetMap;
use vstd::prelude::*;

verus! {

/// One typed command addressed to the graph.
#[derive(Debug, Clone, PartialEq)]
pub enum RequestKind {
    NodeRequest { id: usize, kind: node::RequestKind },
    AddNode { kind: String },
    RemoveNode { id: usize },
    CloneNode { id: usize },
    MoveNode { id: usize, new_id: usize },
}

/// The typed response one command earns.
#[derive(Debug, Clone, Copy, PartialEq, Eq, Structural)]
pub enum ResponseKind {
    InvalidNodeKind,
    InvalidId,
    Denied,
    Failed,
    Okay,
    NodeResponse { id: usize, kind: node::ResponseKind },
}

/// One graph-mutation event fanned out to observers; broadcasting with no
/// observer listening is a no-op, never an error.
#[derive(Debug, Clone, PartialEq)]
pub enum UpdateKind {
    AddNode { id: usize, kind: String },
    RemoveNode { id: usize },
    CloneNode { id: usize },
    MoveNode { id: usize, new_id: usize },
}

/// Everything one command decided: the response (or `None` while a file
/// load defers it), the broadcast owed to observers, and the background
/// load the I/O layer must start, as the node id to answer and the real
/// path to open.
#[derive(Debug, Clone, PartialEq)]
pub struct Outcome {
    pub response: Option<ResponseKind>,
    pub update: Option<UpdateKind>,
    pub load: Option<(usize, Vec<String>)>,
}

#[derive(Debug, Clone, PartialEq)]
pub struct RenderGraph {
    pub registered_node_kinds: Vec<String>,
    pub nodes: Vec<(String, Node)>,
    pub sample_rate: Option<u32>,
    pub global_transposition: i8,
    pub virtual_paths: VirtualPaths,
}

/// A constructor for `kind` is registered.
pub open spec fn spec_registered(g: RenderGraph, kind: Seq<char>) -> bool {
    exists|i: int|
        0 <= i < g.registered_node_kinds@.len() && (#[trigger] g.registered_node_kinds@[i])@ == kind
}

/// A just-constructed node as `AddNode` appends it: default configuration
/// under the kind's name, with the graph's sample rate, global
/// transposition and path table already propagated.
pub open spec fn spec_fresh_node(g: RenderGraph, kind: String, n: Node) -> bool {
    &&& n.name@ == kind@
    &&& n.enabled
    &&& crate::midi_filter::spec_default(n.midi_filter@)
    &&& n.gain_milli == node::UNITY_GAIN_MILLI
    &&& n.transposition == 0
    &&& n.global_transposition == g.global_transposition
    &&& n.velocity_mapping is Identity
    &&& !n.ignore_global_transposition
    &&& node::spec_same_virtual_paths(n.virtual_paths, g.virtual_paths)
    &&& n.sample_rate == g.sample_rate
    &&& n.last_file is None
    &&& n.bank is None
    &&& n.preset is None
    &&& n.preset_map is None
    &&& n.user_presets@.len() == node::NUM_USER_PRESETS
    &&& forall|i: int| 0 <= i < node::NUM_USER_PRESETS ==> n.user_presets@[i]
    &&& !n.has_engine
    &&& !n.loading
    &&& n.voices.voices@.len() == 0
}

/// The node's reply, wrapped with its id, as the command channel sees it:
/// an immediate answer carries the node id, a started load defers the
/// answer and surfaces the load instead.
pub open spec fn spec_reply_routed(id: usize, reply: Reply, oc: Outcome) -> bool {
    match reply {
        Reply::Done(rk) => oc.response == Some(ResponseKind::NodeResponse { id, kind: rk })
            && oc.load is None,
        Reply::LoadStarted(p) => oc.response is None && oc.load == Some((id, p)),
    }
}

/// Everything one graph command does: how `post` relates to `pre` and
/// which outcome comes back, for every command kind.
pub open spec fn spec_graph_outcome(
    pre: RenderGraph,
    post: RenderGraph,
    kind: RequestKind,
    oc: Outcome,
) -> bool {
    match kind {
        RequestKind::NodeRequest { id, kind: nk } => if id >= pre.nodes@.len() {
            &&& oc.response == Some(ResponseKind::InvalidId)
            &&& post == pre
            &&& oc.update is None
            &&& oc.load is None
        } else {
            &&& post.nodes@.len() == pre.nodes@.len()
            &&& forall|i: int|
                0 <= i < pre.nodes@.len() && i != id ==> post.nodes@[i] == pre.nodes@[i]
            &&& post.nodes@[id as int].0 == pre.nodes@[id as int].0
            &&& post == (RenderGraph { nodes: post.nodes, ..pre })
            &&& exists|reply: Reply|
                node::spec_request_outcome(
                    pre.nodes@[id as int].1,
                    post.nodes@[id as int].1,
                    nk,
                    reply,
                ) && #[trigger] spec_reply_routed(id, reply, oc)
            &&& oc.update is None
        },
        RequestKind::AddNode { kind } => if !spec_registered(pre, kind@) {
            &&& oc.response == Some(ResponseKind::InvalidNodeKind)
            &&& post == pre
            &&& oc.update is None
            &&& oc.load is None
        } else {
            &&& post.nodes@.len() == pre.nodes@.len() + 1
            &&& forall|i: int| 0 <= i < pre.nodes@.len() ==> post.nodes@[i] == pre.nodes@[i]
            &&& post.nodes@.last().0 == kind
            &&& spec_fresh_node(pre, kind, post.nodes@.last().1)
            &&& post == (RenderGraph { nodes: post.nodes, ..pre })
            &&& oc.response == Some(ResponseKind::Okay)
            &&& oc.update == Some(UpdateKind::AddNode { id: pre.nodes@.len() as usize, kind })
            &&& oc.load is None
        },
        RequestKind::RemoveNode { id } => if id >= pre.nodes@.len() {
            &&& oc.response == Some(ResponseKind::InvalidId)
            &&& post == pre
            &&& oc.update is None
            &&& oc.load is None
        } else {
            &&& post.nodes@ == pre.nodes@.remove(id as int)
            &&& post == (RenderGraph { nodes: post.nodes, ..pre })
            &&& oc.response == Some(ResponseKind::Okay)
            &&& oc.update == Some(UpdateKind::RemoveNode { id })
            &&& oc.load is None
        },
        RequestKind::CloneNode { id } => if id >= pre.nodes@.len() {
            &&& oc.response == Some(ResponseKind::InvalidId)
            &&& post == pre
            &&& oc.update is None
            &&& oc.load is None
        } else {
            let c = post.nodes@.last().1;
            &&& post.nodes@.len() == pre.nodes@.len() + 1
            &&& forall|i: int| 0 <= i < pre.nodes@.len() ==> post.nodes@[i] == pre.nodes@[i]
            &&& post.nodes@.last().0 == pre.nodes@[id as int].0
            &&& node::spec_clone_of(pre.nodes@[id as int].1, (Node { loading: false, ..c }))
            &&& (c.loading <==> (c.last_file is Some && c.sample_rate is Some
                && node::spec_translates(c.virtual_paths, c.last_file.unwrap())))
            &&& if c.loading {
                oc.load matches Some(l) && l.0 == pre.nodes@.len()
            } else {
                oc.load is None
            }
            &&& post == (RenderGraph { nodes: post.nodes, ..pre })
            &&& oc.response == Some(ResponseKind::Okay)
            &&& oc.update == Some(UpdateKind::CloneNode { id })
        },
        RequestKind::MoveNode { id, new_id } => if id >= pre.nodes@.len() || new_id
            >= pre.nodes@.len() {
            &&& oc.response == Some(ResponseKind::InvalidId)
            &&& post == pre
            &&& oc.update is None
            &&& oc.load is None
        } else {
            &&& post.nodes@ == pre.nodes@.remove(id as int).insert(
                new_id as int,
                pre.nodes@[id as int],
            )
            &&& post == (RenderGraph { nodes: post.nodes, ..pre })
            &&& oc.response == Some(ResponseKind::Okay)
            &&& oc.update == Some(UpdateKind::MoveNode { id, new_id })
            &&& oc.load is None
        },
    }
}

impl RenderGraph {
    /// Every node is well formed and carries the graph's current sample
    /// rate, global transposition and path table.
    pub open spec fn wf(&self) -> bool {
        &&& self.virtual_paths.wf()
        &&& forall|i: int|
            0 <= i < self.nodes@.len() ==> {
                let n = (#[trigger] self.nodes@[i]).1;
                &&& n.wf()
                &&& n.sample_rate == self.sample_rate
                &&& n.global_transposition == self.global_transposition
                &&& node::spec_same_virtual_paths(n.virtual_paths, self.virtual_paths)
            }
    }

    /// An empty graph with nothing registered.
    pub fn new(virtual_paths: VirtualPaths) -> (r: RenderGraph)
        requires
            virtual_paths.wf(),
        ensures
            r.wf(),
            r.nodes@.len() == 0,
            r.registered_node_kinds@.len() == 0,
            r.sample_rate is None,
            r.global_transposition == 0,
            r.virtual_paths == virtual_paths,
    {
        RenderGraph {
            registered_node_kinds: Vec::new(),
            nodes: Vec::new(),
            sample_rate: None,
            global_transposition: 0,
            virtual_paths,
        }
    }

    /// Make `name` constructible through `AddNode`.
    pub fn register_node_kind(&mut self, name: String)
        requires
            old(self).wf(),
        ensures
            final(self).wf(),
            spec_registered(*final(self), name@),
            final(self).nodes == old(self).nodes,
            final(self).sample_rate == old(self).sample_rate,
            final(self).global_transposition == old(self).global_transposition,
            final(self).virtual_paths == old(self).virtual_paths,
            forall|k: Seq<char>|
                spec_registered(*final(self), k) <==> (spec_registered(*old(self), k) || k
                    == name@),
    {
        let n = self.registered_node_kinds.len();
        let mut i: usize = 0;
        while i < n
            invariant
                i <= n,
                n == self.registered_node_kinds@.len(),
                *self == *old(self),
                old(self).wf(),
            decreases n - i,
        {
            if self.registered_node_kinds[i] == name {
                proof {
                    assert((self.registered_node_kinds@[i as int])@ == name@);
                    assert(spec_registered(*self, name@));
                    assert forall|k: Seq<char>|
                        spec_registered(*self, k) <==> (spec_registered(*old(self), k) || k
                            == name@) by {}
                }
                return ;
            }
            i += 1;
        }
        let ghost prior = self.registered_node_kinds@;
        self.registered_node_kinds.push(name);
        proof {
            assert((self.registered_node_kinds@[n as int])@ == name@);
            assert(spec_registered(*self, name@));
            assert forall|k: Seq<char>|
                spec_registered(*self, k) implies (spec_registered(*old(self), k) || k
                    == name@) by {
                let j = choose|j: int|
                    0 <= j < self.registered_node_kinds@.len() && (
                    #[trigger] self.registered_node_kinds@[j])@ == k;
                if j < n {
                    assert(prior[j]@ == k);
                }
            }
            assert forall|k: Seq<char>|
                (spec_registered(*old(self), k) || k == name@) implies spec_registered(
                *self,
                k,
            ) by {
                if spec_registered(*old(self), k) {
                    let j = choose|j: int|
                        0 <= j < prior.len() && (#[trigger] prior[j])@ == k;
                    assert((self.registered_node_kinds@[j])@ == k);
                }
            }
        }
    }

    /// Whether a constructor for `name` is registered.
    fn is_registered(&self, name: &String) -> (r: bool)
        ensures
            r == spec_registered(*self, name@),
    {
        let n = self.registered_node_kinds.len();
        let mut i: usize = 0;
        while i < n
            invariant
                i <= n,
                n == self.registered_node_kinds@.len(),
                forall|j: int| 0 <= j < i ==> (#[trigger] self.registered_node_kinds@[j])@ != name@,
            decreases n - i,
        {
            if self.registered_node_kinds[i] == *name {
                return true;
            }
            i += 1;
        }
        false
    }

    /// Handle one command: validate the address, apply the mutation or
    /// forward to the node, and say what to respond, broadcast and load.
    pub fn process_request(&mut self, kind: RequestKind) -> (oc: Outcome)
        requires
            old(self).wf(),
        ensures
            final(self).wf(),
            spec_graph_outcome(*old(self), *final(self), kind, oc),
    {
        match kind {
            RequestKind::NodeRequest { id, kind: nk } => self.process_node_request(id, nk),
            RequestKind::AddNode { kind } => self.process_add_node(kind),
            RequestKind::RemoveNode { id } => self.process_remove_node(id),
            RequestKind::CloneNode { id } => self.process_clone_node(id),
            RequestKind::MoveNode { id, new_id } => self.process_move_node(id, new_id),
        }
    }

    fn process_node_request(&mut self, id: usize, nk: node::RequestKind) -> (oc: Outcome)
        requires
            old(self).wf(),
        ensures
            final(self).wf(),
            spec_graph_outcome(
                *old(self),
                *final(self),
                (RequestKind::NodeRequest { id, kind: nk }),
                oc,
            ),
    {
        if id >= self.nodes.len() {
            return Outcome { response: Some(ResponseKind::InvalidId), update: None, load: None };
        }
        let ghost nk0 = nk;
        let slot = &mut self.nodes[id];
        let reply = slot.1.process_request(nk);
        let ghost greply = reply;
        let oc = match reply {
            Reply::Done(rk) => Outcome {
                response: Some(ResponseKind::NodeResponse { id, kind: rk }),
                update: None,
                load: None,
            },
            Reply::LoadStarted(p) => Outcome { response: None, update: None, load: Some((id, p)) },
        };
        proof {
            assert(node::spec_request_outcome(
                old(self).nodes@[id as int].1,
                self.nodes@[id as int].1,
                nk0,
                greply,
            ) && spec_reply_routed(id, greply, oc));
        }
        oc
    }

    fn process_add_node(&mut self, kind: String) -> (oc: Outcome)
        requires
            old(self).wf(),
        ensures
            final(self).wf(),
            spec_graph_outcome(*old(self), *final(self), (RequestKind::AddNode { kind }), oc),
    {
        if !self.is_registered(&kind) {
            return Outcome {
                response: Some(ResponseKind::InvalidNodeKind),
                update: None,
                load: None,
            };
        }
        let id = self.nodes.len();
        let mut fresh = Node::new(kind.clone());
        match self.sample_rate {
            Some(rate) => fresh.set_sample_rate(rate),
            None => {},
        }
        fresh.set_global_transposition(self.global_transposition);
        fresh.set_virtual_paths(node::clone_virtual_paths(&self.virtual_paths));
        let update = UpdateKind::AddNode { id, kind: kind.clone() };
        self.nodes.push((kind, fresh));
        Outcome { response: Some(ResponseKind::Okay), update: Some(update), load: None }
    }

    fn process_remove_node(&mut self, id: usize) -> (oc: Outcome)
        requires
            old(self).wf(),
        ensures
            final(self).wf(),
            spec_graph_outcome(*old(self), *final(self), (RequestKind::RemoveNode { id }), oc),
    {
        if id >= self.nodes.len() {
            return Outcome { response: Some(ResponseKind::InvalidId), update: None, load: None };
        }
        self.nodes.remove(id);
        Outcome {
            response: Some(ResponseKind::Okay),
            update: Some(UpdateKind::RemoveNode { id }),
            load: None,
        }
    }

    fn process_clone_node(&mut self, id: usize) -> (oc: Outcome)
        requires
            old(self).wf(),
        ensures
            final(self).wf(),
            spec_graph_outcome(*old(self), *final(self), (RequestKind::CloneNode { id }), oc),
    {
        if id >= self.nodes.len() {
            return Outcome { response: Some(ResponseKind::InvalidId), update: None, load: None };
        }
        let new_id = self.nodes.len();
        let kind_name = self.nodes[id].0.clone();
        let mut cloned = self.nodes[id].1.clone_node();
        let load = match cloned.start_pending_load() {
            Some(real_path) => Some((new_id, real_path)),
            None => None,
        };
        proof {
            assert(node::spec_clone_of(
                old(self).nodes@[id as int].1,
                (Node { loading: false, ..cloned }),
            ));
        }
        self.nodes.push((kind_name, cloned));
        Outcome {
            response: Some(ResponseKind::Okay),
            update: Some(UpdateKind::CloneNode { id }),
            load,
        }
    }

    fn process_move_node(&mut self, id: usize, new_id: usize) -> (oc: Outcome)
        requires
            old(self).wf(),
        ensures
            final(self).wf(),
            spec_graph_outcome(
                *old(self),
                *final(self),
                (RequestKind::MoveNode { id, new_id }),
                oc,
            ),
    {
        if id >= self.nodes.len() || new_id >= self.nodes.len() {
            return Outcome { response: Some(ResponseKind::InvalidId), update: None, load: None };
        }
        let slot = self.nodes.remove(id);
        self.nodes.insert(new_id, slot);
        Outcome {
            response: Some(ResponseKind::Okay),
            update: Some(UpdateKind::MoveNode { id, new_id }),
            load: None,
        }
    }

    /// Deliver one decoded MIDI message to every node in graph order; entry
    /// `i` is what node `i`'s engine receives, or `None` where that node
    /// gates the message out.
    pub fn route_midi_message(&self, message: &Message) -> (r: Vec<Option<Message>>)
        requires
            self.wf(),
            crate::midi::spec_message_valid(*message),
        ensures
            r@.len() == self.nodes@.len(),
            forall|i: int|
                0 <= i < self.nodes@.len() ==> r@[i] == node::spec_deliver(
                    self.nodes@[i].1,
                    *message,
                ),
    {
        let n = self.nodes.len();
        let mut r: Vec<Option<Message>> = Vec::new();
        let mut i: usize = 0;
        while i < n
            invariant
                i <= n,
                n == self.nodes@.len(),
                self.wf(),
                crate::midi::spec_message_valid(*message),
                r@.len() == i,
                forall|j: int|
                    0 <= j < i ==> r@[j] == node::spec_deliver(self.nodes@[j].1, *message),
            decreases n - i,
        {
            r.push(self.nodes[i].1.receive_midi_message(message));
            i += 1;
        }
        r
    }

    /// Change the sample rate: it reaches every node, and every node that
    /// can rebuild its engine at the new rate starts a background load.
    /// The result lists those loads in node order.
    pub fn set_sample_rate(&mut self, sample_rate: u32) -> (loads: Vec<(usize, Vec<String>)>)
        requires
            old(self).wf(),
        ensures
            final(self).wf(),
            final(self).sample_rate == Some(sample_rate),
            final(self).registered_node_kinds == old(self).registered_node_kinds,
            final(self).global_transposition == old(self).global_transposition,
            final(self).virtual_paths == old(self).virtual_paths,
            final(self).nodes@.len() == old(self).nodes@.len(),
            forall|i: int|
                0 <= i < old(self).nodes@.len() ==> {
                    let prev = (#[trigger] old(self).nodes@[i]).1;
                    let cur = final(self).nodes@[i].1;
                    &&& final(self).nodes@[i].0 == old(self).nodes@[i].0
                    &&& cur.loading == (prev.last_file is Some && node::spec_translates(
                        prev.virtual_paths,
                        prev.last_file.unwrap(),
                    ) || prev.loading)
                    &&& (cur.loading == prev.loading ==> cur == (Node {
                        sample_rate: Some(sample_rate),
                        ..prev
                    }))
                    &&& (cur.loading != prev.loading ==> cur == (Node {
                        sample_rate: Some(sample_rate),
                        loading: true,
                        ..prev
                    }))
                },
            forall|j: int|
                0 <= j < loads@.len() ==> {
                    let id = (#[trigger] loads@[j]).0 as int;
                    0 <= id < final(self).nodes@.len() && final(self).nodes@[id].1.loading
                },
            forall|i: int|
                0 <= i < old(self).nodes@.len() && final(self).nodes@[i].1.loading && !(
                #[trigger] old(self).nodes@[i]).1.loading ==> exists|j: int|
                    0 <= j < loads@.len() && (#[trigger] loads@[j]).0 == i,
    {
        self.sample_rate = Some(sample_rate);
        let n = self.nodes.len();
        let mut loads: Vec<(usize, Vec<String>)> = Vec::new();
        let mut i: usize = 0;
        while i < n
            invariant
                i <= n,
                n == self.nodes@.len() == old(self).nodes@.len(),
                self.sample_rate == Some(sample_rate),
                self.registered_node_kinds == old(self).registered_node_kinds,
                self.global_transposition == old(self).global_transposition,
                self.virtual_paths == old(self).virtual_paths,
                old(self).wf(),
                self.virtual_paths.wf(),
                forall|k: int| i <= k < n ==> self.nodes@[k] == old(self).nodes@[k],
                forall|k: int|
                    0 <= k < i ==> {
                        let prev = (#[trigger] old(self).nodes@[k]).1;
                        let cur = self.nodes@[k].1;
                        &&& self.nodes@[k].0 == old(self).nodes@[k].0
                        &&& cur.wf()
                        &&& cur.sample_rate == Some(sample_rate)
                        &&& cur.global_transposition == self.global_transposition
                        &&& node::spec_same_virtual_paths(cur.virtual_paths, self.virtual_paths)
                        &&& cur.loading == (prev.last_file is Some && node::spec_translates(
                            prev.virtual_paths,
                            prev.last_file.unwrap(),
                        ) || prev.loading)
                        &&& (cur.loading == prev.loading ==> cur == (Node {
                            sample_rate: Some(sample_rate),
                            ..prev
                        }))
                        &&& (cur.loading != prev.loading ==> cur == (Node {
                            sample_rate: Some(sample_rate),
                            loading: true,
                            ..prev
                        }))
                    },
                forall|j: int|
                    0 <= j < loads@.len() ==> {
                        let id = (#[trigger] loads@[j]).0 as int;
                        0 <= id < i && self.nodes@[id].1.loading
                    },
                forall|k: int|
                    0 <= k < i && self.nodes@[k].1.loading && !(
                    #[trigger] old(self).nodes@[k]).1.loading ==> exists|j: int|
                        0 <= j < loads@.len() && (#[trigger] loads@[j]).0 == k,
            decreases n - i,
        {
            let ghost loads0 = loads@;
            let was_loading = self.nodes[i].1.loading;
            let slot = &mut self.nodes[i];
            slot.1.set_sample_rate(sample_rate);
            let mut started = false;
            if !was_loading {
                match slot.1.start_pending_load() {
                    Some(real_path) => {
                        loads.push((i, real_path));
                        started = true;
                    },
                    None => {},
                }
            }
            proof {
                assert forall|k: int|
                    0 <= k < i + 1 && self.nodes@[k].1.loading && !(
                    #[trigger] old(self).nodes@[k]).1.loading implies exists|j: int|
                    0 <= j < loads@.len() && (#[trigger] loads@[j]).0 == k by {
                    if k == i {
                        if started {
                            assert(loads@[loads@.len() - 1].0 == i);
                        } else {
                            assert(self.nodes@[k].1.loading == old(self).nodes@[k].1.loading);
                        }
                    } else {
                        let j0 = choose|j: int|
                            0 <= j < loads0.len() && (#[trigger] loads0[j]).0 == k;
                        assert(loads@[j0].0 == k);
                    }
                }
            }
            i += 1;
        }
        proof {
            assert forall|i: int| 0 <= i < self.nodes@.len() implies {
                let nd = (#[trigger] self.nodes@[i]).1;
                &&& nd.wf()
                &&& nd.sample_rate == self.sample_rate
                &&& nd.global_transposition == self.global_transposition
                &&& node::spec_same_virtual_paths(nd.virtual_paths, self.virtual_paths)
            } by {
                assert((old(self).nodes@[i]).1.wf());
            }
        }
        loads
    }

    /// Change the global transposition: it reaches every node.
    pub fn set_global_transposition(&mut self, transposition: i8)
        requires
            old(self).wf(),
        ensures
            final(self).wf(),
            final(self).global_transposition == transposition,
            final(self).registered_node_kinds == old(self).registered_node_kinds,
            final(self).sample_rate == old(self).sample_rate,
            final(self).virtual_paths == old(self).virtual_paths,
            final(self).nodes@.len() == old(self).nodes@.len(),
            forall|i: int|
                0 <= i < old(self).nodes@.len() ==> final(self).nodes@[i].0 == old(self).nodes@[i].0 && final(self).nodes@[i].1 == (Node {
                    global_transposition: transposition,
                    ..old(self).nodes@[i].1
                }),
    {
        self.global_transposition = transposition;
        let n = self.nodes.len();
        let mut i: usize = 0;
        while i < n
            invariant
                i <= n,
                n == self.nodes@.len() == old(self).nodes@.len(),
                self.global_transposition == transposition,
                self.registered_node_kinds == old(self).registered_node_kinds,
                self.sample_rate == old(self).sample_rate,
                self.virtual_paths == old(self).virtual_paths,
                old(self).wf(),
                self.virtual_paths.wf(),
                forall|k: int| i <= k < n ==> self.nodes@[k] == old(self).nodes@[k],
                forall|k: int|
                    0 <= k < i ==> (#[trigger] self.nodes@[k]).0 == old(self).nodes@[k].0
                        && self.nodes@[k].1 == (Node {
                        global_transposition: transposition,
                        ..old(self).nodes@[k].1
                    }),
            decreases n - i,
        {
            let slot = &mut self.nodes[i];
            slot.1.set_global_transposition(transposition);
            i += 1;
        }
    }

    /// Answer a finished background load for node `id`. The response for
    /// the original requester comes back; a load whose node has meanwhile
    /// left the graph is discarded silently.
    pub fn finish_node_load(&mut self, id: usize, outcome: Option<PresetMap>) -> (r: Option<
        node::ResponseKind,
    >)
        requires
            old(self).wf(),
            match outcome {
                Some(pm) => pm.wf(),
                None => true,
            },
        ensures
            final(self).wf(),
            id >= old(self).nodes@.len() ==> r is None && *final(self) == *old(self),
            id < old(self).nodes@.len() ==> {
                &&& final(self).nodes@.len() == old(self).nodes@.len()
                &&& forall|i: int|
                    0 <= i < old(self).nodes@.len() && i != id ==> final(self).nodes@[i] == old(self).nodes@[i]
                &&& final(self).nodes@[id as int].0 == old(self).nodes@[id as int].0
                &&& *final(self) == (RenderGraph { nodes: final(self).nodes, ..*old(self) })
                &&& !final(self).nodes@[id as int].1.loading
                &&& match outcome {
                    Some(_) => r == Some(node::ResponseKind::Okay) && final(self).nodes@[id as int].1.has_engine,
                    None => r == Some(node::ResponseKind::Failed),
                }
            },
    {
        if id >= self.nodes.len() {
            return None;
        }
        let slot = &mut self.nodes[id];
        Some(slot.1.finish_load(outcome))
    }
}

/// The message a scheduler hit arrives as: a positive velocity is a
/// note-on; a zero velocity is the note-off every node must treat it as.
pub open spec fn spec_scheduler_event(msg: crate::sequencer::ControlMessage) -> Message {
    match msg.midi_msg.kind {
        crate::midi::MessageKind::NoteOn { note, velocity } => if velocity > 0 {
            msg.midi_msg
        } else {
            Message {
                kind: crate::midi::MessageKind::NoteOff { note, velocity: 0 },
                channel: msg.midi_msg.channel,
            }
        },
        _ => msg.midi_msg,
    }
}

impl RenderGraph {
    /// Deliver one scheduler hit to the node it targets: `None` where the
    /// target id is (no longer) valid, otherwise what that node's engine
    /// receives, with a zero-velocity note-on turned into a note-off first.
    pub fn route_control_message(&self, msg: &crate::sequencer::ControlMessage) -> (r: Option<
        Option<Message>,
    >)
        requires
            self.wf(),
            crate::midi::spec_message_valid(msg.midi_msg),
        ensures
            match r {
                None => msg.instrument_id >= self.nodes@.len(),
                Some(ev) => msg.instrument_id < self.nodes@.len() && ev == node::spec_deliver(
                    self.nodes@[msg.instrument_id as int].1,
                    spec_scheduler_event(*msg),
                ),
            },
    {
        let node_id = msg.instrument_id;
        if node_id >= self.nodes.len() {
            return None;
        }
        let event = match msg.midi_msg.kind {
            crate::midi::MessageKind::NoteOn { note, velocity } => {
                if velocity > 0 {
                    msg.midi_msg
                } else {
                    Message {
                        kind: crate::midi::MessageKind::NoteOff { note, velocity: 0 },
                        channel: msg.midi_msg.channel,
                    }
                }
            },
            _ => msg.midi_msg,
        };
        Some(self.nodes[node_id].1.receive_midi_message(&event))
    }
}

/// After a valid removal every id from the new length up is dead: a node
/// request addressed there answers `InvalidId` and the graph does not
/// change.
pub proof fn lemma_remove_then_request_invalid(
    g0: RenderGraph,
    g1: RenderGraph,
    g2: RenderGraph,
    id: usize,
    oc1: Outcome,
    id2: usize,
    nk: node::RequestKind,
    oc2: Outcome,
)
    requires
        id < g0.nodes@.len(),
        spec_graph_outcome(g0, g1, (RequestKind::RemoveNode { id }), oc1),
        id2 >= g0.nodes@.len() - 1,
        spec_graph_outcome(g1, g2, (RequestKind::NodeRequest { id: id2, kind: nk }), oc2),
    ensures
        g1.nodes@.len() == g0.nodes@.len() - 1,
        oc2.response == Some(ResponseKind::InvalidId),
        g2 == g1,
{
    g0.nodes@.remove_ensures(id as int);
}

/// Adding a node and then cloning it grows the graph by exactly two, and
/// the clone's configuration equals the added node's, with the fields a
/// background load fills starting empty.
pub proof fn lemma_add_then_clone(
    g0: RenderGraph,
    g1: RenderGraph,
    g2: RenderGraph,
    kind: String,
    oc1: Outcome,
    oc2: Outcome,
)
    requires
        spec_registered(g0, kind@),
        spec_graph_outcome(g0, g1, (RequestKind::AddNode { kind }), oc1),
        spec_graph_outcome(
            g1,
            g2,
            (RequestKind::CloneNode { id: (g1.nodes@.len() - 1) as usize }),
            oc2,
        ),
    ensures
        g1.nodes@.len() == g0.nodes@.len() + 1,
        g2.nodes@.len() == g0.nodes@.len() + 2,
        node::spec_clone_of(
            g1.nodes@[g1.nodes@.len() - 1].1,
            (Node { loading: false, ..g2.nodes@[g2.nodes@.len() - 1].1 }),
        ),
{
    let id = (g1.nodes@.len() - 1) as usize;
    assert(g1.nodes@.len() == g0.nodes@.len() + 1);
    assert(g1.nodes@.len() == g1.nodes.len());
    assert(id as int == g1.nodes@.len() - 1);
    assert(id < g1.nodes@.len());
}

/// After the original and its clone finish the same successful load, the
/// engine-dependent state of the two agrees: same preset directory, same
/// resolved bank and program, both with an engine installed.
pub proof fn lemma_clone_converges(
    orig: Node,
    clone: Node,
    orig_after: Node,
    clone_after: Node,
    pm: PresetMap,
    r1: node::ResponseKind,
    r2: node::ResponseKind,
)
    requires
        node::spec_clone_of(orig, clone),
        node::spec_load_finished(orig, orig_after, Some(pm), r1),
        node::spec_load_finished(clone, clone_after, Some(pm), r2),
    ensures
        orig_after.preset_map == clone_after.preset_map,
        orig_after.bank == clone_after.bank,
        orig_after.preset == clone_after.preset,
        orig_after.has_engine && clone_after.has_engine,
{
    match (orig_after.bank, orig_after.preset) {
        (Some(b1), Some(p1)) => {
            match (clone_after.bank, clone_after.preset) {
                (Some(b2), Some(p2)) => {
                    if !(b1 == b2 && p1 == p2) {
                        assert(crate::preset_map::spec_has_preset(pm, b1, p1));
                        assert(crate::preset_map::spec_has_preset(pm, b2, p2));
                        assert(b1 * 256 + p1 <= b2 * 256 + p2);
                        assert(b2 * 256 + p2 <= b1 * 256 + p1);
                    }
                },
                _ => {},
            }
        },
        _ => {},
    }
}

} // verus!
