//! Inter-plugin messaging: point-to-point delivery, broadcast fan-out,
//! request/response correlation, and a canonical JSON wire form.
//!
//! The bus owns one inbound queue per registered plugin and assigns every
//! message a fresh correlation id from a counter, so a response can be
//! matched to exactly one outstanding request. Delivery to an unknown or
//! inactive recipient is dropped, never fatal to the sender.

use vstd::prelude::*;
use vstd::string::StrSliceExecFns;
use vstd::string::StringExecFns;
use crate::checksum::hex_digit;
use crate::strutil::{copy_str, str_eq};

verus! {

/// Types of messages that can be sent.
#[derive(Debug, Clone, Copy, PartialEq, Eq, Structural)]
pub enum MessageType {
    Request,
    Response,
    Event,
    Broadcast,
    Error,
    System,
}

/// Message payload: plain text, bytes, raw JSON text, a named function
/// call, an event, or a structured error.
#[derive(Debug, Clone)]
pub enum MessagePayload {
    Text(String),
    Binary(Vec<u8>),
    Json(String),
    Function { name: String, args: String },
    Event { event_type: String, data: String },
    Error { code: u32, message: String, details: Option<String> },
}

/// A message on the bus. Immutable once constructed; `reply_to` correlates
/// a response to at most one request.
#[derive(Debug, Clone)]
pub struct PluginMessage {
    /// Correlation id, assigned by the bus from its counter.
    pub id: u64,
    pub sender: String,
    /// Absent for a broadcast.
    pub recipient: Option<String>,
    pub message_type: MessageType,
    pub payload: MessagePayload,
    /// Caller-supplied milliseconds.
    pub timestamp: u64,
    pub reply_to: Option<u64>,
}

/// A payload over mathematical values.
pub enum PayloadView {
    Text(Seq<char>),
    Binary(Seq<u8>),
    Json(Seq<char>),
    Function { name: Seq<char>, args: Seq<char> },
    Event { event_type: Seq<char>, data: Seq<char> },
    Error { code: u32, message: Seq<char>, details: Option<Seq<char>> },
}

/// A message over mathematical values.
pub struct MessageView {
    pub id: u64,
    pub sender: Seq<char>,
    pub recipient: Option<Seq<char>>,
    pub message_type: MessageType,
    pub payload: PayloadView,
    pub timestamp: u64,
    pub reply_to: Option<u64>,
}

impl View for MessagePayload {
    type V = PayloadView;

    open spec fn view(&self) -> PayloadView {
        match self {
            MessagePayload::Text(s) => PayloadView::Text(s@),
            MessagePayload::Binary(b) => PayloadView::Binary(b@),
            MessagePayload::Json(s) => PayloadView::Json(s@),
            MessagePayload::Function { name, args } => PayloadView::Function {
                name: name@,
                args: args@,
            },
            MessagePayload::Event { event_type, data } => PayloadView::Event {
                event_type: event_type@,
                data: data@,
            },
            MessagePayload::Error { code, message, details } => PayloadView::Error {
                code: *code,
                message: message@,
                details: match details {
                    Some(d) => Some(d@),
                    None => None,
                },
            },
        }
    }
}

impl View for PluginMessage {
    type V = MessageView;

    open spec fn view(&self) -> MessageView {
        MessageView {
            id: self.id,
            sender: self.sender@,
            recipient: match &self.recipient {
                Some(r) => Some(r@),
                None => None,
            },
            message_type: self.message_type,
            payload: self.payload@,
            timestamp: self.timestamp,
            reply_to: self.reply_to,
        }
    }
}

/// Errors of the bus.
#[derive(Debug, Clone, Copy, PartialEq, Eq, Structural)]
pub enum BusError {
    /// The response channel closed before a response arrived.
    ChannelClosed,
    /// No response arrived within the request's timeout.
    Timeout,
    /// The text is not the canonical wire form of any message.
    Malformed,
}

/// A request sent to a plugin, answered by at most one response.
#[derive(Debug, Clone)]
pub struct PluginRequest {
    pub id: u64,
    pub function: String,
    pub args: String,
    /// Caller-supplied milliseconds.
    pub timeout: u64,
}

/// A response to a request, correlated by `request_id`.
#[derive(Debug, Clone)]
pub struct PluginResponse {
    pub request_id: u64,
    pub success: bool,
    pub result: Option<String>,
    pub error: Option<String>,
    /// Caller-supplied milliseconds.
    pub execution_time: u64,
}

/// One plugin's inbound channel.
#[derive(Debug)]
pub struct PluginChannel {
    pub plugin_id: String,
    pub active: bool,
    pub inbox: Vec<PluginMessage>,
}

impl PluginChannel {
    /// The id of the plugin this channel belongs to.
    pub fn plugin_id(&self) -> (r: &str)
        ensures
            r@ == self.plugin_id@,
    {
        self.plugin_id.as_str()
    }

    /// Whether the channel still accepts messages.
    pub fn is_active(&self) -> (r: bool)
        ensures
            r == self.active,
    {
        self.active
    }
}

/// The routing overlay: directed routes between plugins, and the broadcast
/// subscriber list. Routes restrict who may address whom; the subscriber
/// list decides who receives broadcasts.
#[derive(Debug)]
pub struct MessageRouter {
    pub routes: Vec<(String, Vec<String>)>,
    pub broadcast_subscribers: Vec<String>,
}

/// Whether `subs` holds the id `id`.
pub open spec fn subscribed(subs: Seq<String>, id: Seq<char>) -> bool {
    exists|i: int| 0 <= i < subs.len() && subs[i]@ == id
}

/// The routing table over mathematical values: each pair as its key and
/// destination views.
pub open spec fn route_views(routes: Seq<(String, Vec<String>)>) -> Seq<
    (Seq<char>, Seq<Seq<char>>),
> {
    routes.map_values(
        |p: (String, Vec<String>)| (p.0@, crate::strutil::views_of(p.1@)),
    )
}

/// Whether the table holds a route list keyed `from`.
pub open spec fn has_route_key(routes: Seq<(String, Vec<String>)>, from: Seq<char>) -> bool {
    exists|i: int| 0 <= i < routes.len() && (#[trigger] routes[i]).0@ == from
}

/// The table after a plugin leaves: its own list dropped, and its id
/// filtered out of every other destination list, order kept.
pub open spec fn routes_without(
    rv: Seq<(Seq<char>, Seq<Seq<char>>)>,
    id: Seq<char>,
) -> Seq<(Seq<char>, Seq<Seq<char>>)>
    decreases rv.len(),
{
    if rv.len() == 0 {
        Seq::empty()
    } else {
        let rest = routes_without(rv.skip(1), id);
        if rv[0].0 == id {
            rest
        } else {
            seq![(rv[0].0, rv[0].1.filter(|d: Seq<char>| d != id))] + rest
        }
    }
}

impl MessageRouter {
    /// A router with no routes and no subscribers.
    pub fn new() -> (r: Self)
        ensures
            r.routes@.len() == 0,
            r.broadcast_subscribers@.len() == 0,
    {
        MessageRouter { routes: Vec::new(), broadcast_subscribers: Vec::new() }
    }

    /// Adds a route from `from` to `to`: appended to the first route list
    /// keyed `from`, or to a fresh list when none exists; every other pair
    /// is untouched.
    pub fn add_route(&mut self, from: &str, to: &str)
        ensures
            final(self).broadcast_subscribers == old(self).broadcast_subscribers,
            has_route_key(old(self).routes@, from@) ==> exists|j: int|
                {
                    &&& 0 <= j < old(self).routes@.len()
                    &&& (#[trigger] old(self).routes@[j]).0@ == from@
                    &&& forall|k: int| 0 <= k < j ==> old(self).routes@[k].0@ != from@
                    &&& final(self).routes@.len() == old(self).routes@.len()
                    &&& final(self).routes@[j].0@ == from@
                    &&& crate::strutil::views_of(final(self).routes@[j].1@)
                        == crate::strutil::views_of(old(self).routes@[j].1@).push(to@)
                    &&& forall|k: int|
                        0 <= k < final(self).routes@.len() && k != j ==> final(self).routes@[k]
                            == old(self).routes@[k]
                },
            !has_route_key(old(self).routes@, from@) ==> {
                &&& final(self).routes@.len() == old(self).routes@.len() + 1
                &&& final(self).routes@.take(old(self).routes@.len() as int) == old(self).routes@
                &&& final(self).routes@.last().0@ == from@
                &&& crate::strutil::views_of(final(self).routes@.last().1@) == seq![to@]
            },
    {
        let n = self.routes.len();
        let mut i: usize = 0;
        while i < n
            invariant
                n == self.routes@.len(),
                i <= n,
                self.broadcast_subscribers == old(self).broadcast_subscribers,
                self.routes == old(self).routes,
                forall|k: int| 0 <= k < i ==> (#[trigger] self.routes@[k]).0@ != from@,
            decreases n - i,
        {
            if str_eq(self.routes[i].0.as_str(), from) {
                proof {
                    assert(has_route_key(self.routes@, from@)) by {
                        assert(self.routes@[i as int].0@ == from@);
                    }
                }
                let ghost pre = self.routes@;
                let mut pair = self.routes.remove(i);
                let ghost pre_dests = pair.1@;
                pair.1.push(copy_str(to));
                let ghost gp = pair;
                self.routes.insert(i, pair);
                proof {
                    assert(self.routes@[i as int] == gp);
                    assert(self.routes@.len() == pre.len());
                    assert(crate::strutil::views_of(gp.1@) =~= crate::strutil::views_of(
                        pre_dests,
                    ).push(to@));
                    assert(forall|k: int|
                        0 <= k < self.routes@.len() && k != i ==> self.routes@[k] == pre[k]);
                }
                return ;
            }
            i = i + 1;
        }
        proof {
            assert(!has_route_key(self.routes@, from@));
        }
        let ghost glen = self.routes@.len();
        self.routes.push((copy_str(from), vec![copy_str(to)]));
        proof {
            assert(self.routes@.take(glen as int) =~= old(self).routes@);
            assert(crate::strutil::views_of(self.routes@.last().1@) =~= seq![to@]);
        }
    }

    /// Removes every occurrence of `to` in the first route list keyed
    /// `from`; every other pair is untouched, and a missing key changes
    /// nothing.
    pub fn remove_route(&mut self, from: &str, to: &str)
        ensures
            final(self).broadcast_subscribers == old(self).broadcast_subscribers,
            !has_route_key(old(self).routes@, from@) ==> final(self).routes == old(self).routes,
            has_route_key(old(self).routes@, from@) ==> exists|j: int|
                {
                    &&& 0 <= j < old(self).routes@.len()
                    &&& (#[trigger] old(self).routes@[j]).0@ == from@
                    &&& forall|k: int| 0 <= k < j ==> old(self).routes@[k].0@ != from@
                    &&& final(self).routes@.len() == old(self).routes@.len()
                    &&& final(self).routes@[j].0@ == from@
                    &&& crate::strutil::views_of(final(self).routes@[j].1@)
                        == crate::strutil::views_of(old(self).routes@[j].1@).filter(
                        |d: Seq<char>| d != to@,
                    )
                    &&& forall|k: int|
                        0 <= k < final(self).routes@.len() && k != j ==> final(self).routes@[k]
                            == old(self).routes@[k]
                },
    {
        let n = self.routes.len();
        let mut i: usize = 0;
        while i < n
            invariant
                n == self.routes@.len(),
                i <= n,
                self.broadcast_subscribers == old(self).broadcast_subscribers,
                self.routes == old(self).routes,
                forall|k: int| 0 <= k < i ==> (#[trigger] self.routes@[k]).0@ != from@,
            decreases n - i,
        {
            if str_eq(self.routes[i].0.as_str(), from) {
                proof {
                    assert(has_route_key(self.routes@, from@)) by {
                        assert(self.routes@[i as int].0@ == from@);
                    }
                }
                let ghost pre = self.routes@;
                let pair = self.routes.remove(i);
                let key = pair.0;
                let dests = pair.1;
                let kept = filter_destinations(&dests, to);
                self.routes.insert(i, (key, kept));
                proof {
                    assert(self.routes@.len() == pre.len());
                    assert(self.routes@[i as int].0@ == from@);
                    assert(forall|k: int|
                        0 <= k < self.routes@.len() && k != i ==> self.routes@[k] == pre[k]);
                }
                return ;
            }
            i = i + 1;
        }
        proof {
            assert(!has_route_key(self.routes@, from@));
        }
    }

    /// Removes `plugin_id`'s own route list and its occurrences in every
    /// other list, order kept.
    pub fn remove_routes(&mut self, plugin_id: &str)
        ensures
            final(self).broadcast_subscribers == old(self).broadcast_subscribers,
            route_views(final(self).routes@) == routes_without(
                route_views(old(self).routes@),
                plugin_id@,
            ),
    {
        let ghost orig = route_views(self.routes@);
        let mut kept: Vec<(String, Vec<String>)> = Vec::new();
        let n = self.routes.len();
        let mut i: usize = 0;
        proof {
            assert(orig.skip(0) =~= orig);
            assert(route_views(kept@) + routes_without(orig.skip(0), plugin_id@)
                =~= routes_without(orig, plugin_id@));
        }
        while i < n
            invariant
                orig == route_views(old(self).routes@),
                self.broadcast_subscribers == old(self).broadcast_subscribers,
                n == orig.len(),
                i <= n,
                route_views(self.routes@) == orig.skip(i as int),
                route_views(kept@) + routes_without(orig.skip(i as int), plugin_id@)
                    =~= routes_without(orig, plugin_id@),
            decreases n - i,
        {
            proof {
                assert(orig.skip(i as int)[0] == orig[i as int]);
                assert(orig.skip(i as int).skip(1) =~= orig.skip(i + 1));
            }
            let pair = self.routes.remove(0);
            proof {
                assert(route_views(self.routes@) =~= orig.skip(i as int).skip(1));
                assert((pair.0@, crate::strutil::views_of(pair.1@)) == orig[i as int]);
            }
            if !str_eq(pair.0.as_str(), plugin_id) {
                let dests = filter_destinations(&pair.1, plugin_id);
                let ghost kv = route_views(kept@);
                kept.push((pair.0, dests));
                proof {
                    assert(route_views(kept@) =~= kv.push(
                        (orig[i as int].0, orig[i as int].1.filter(|d: Seq<char>| d != plugin_id@)),
                    ));
                }
            }
            i = i + 1;
        }
        proof {
            assert(routes_without(orig.skip(n as int), plugin_id@) =~= Seq::<
                (Seq<char>, Seq<Seq<char>>),
            >::empty());
            assert(route_views(kept@) + Seq::<(Seq<char>, Seq<Seq<char>>)>::empty()
                =~= route_views(kept@));
        }
        self.routes = kept;
        proof {
            assert(route_views(self.routes@) =~= route_views(kept@));
        }
    }

    /// The destinations routed from `from`, empty when none are.
    pub fn get_routes(&self, from: &str) -> (r: Vec<String>)
        ensures
            (exists|j: int|
                0 <= j < self.routes@.len() && (#[trigger] self.routes@[j]).0@ == from@) ==> exists|j: int|
                {
                    &&& 0 <= j < self.routes@.len()
                    &&& (#[trigger] self.routes@[j]).0@ == from@
                    &&& r@.len() == self.routes@[j].1@.len()
                    &&& forall|k: int|
                        0 <= k < r@.len() ==> (#[trigger] r@[k])@ == self.routes@[j].1@[k]@
                },
    {
        let n = self.routes.len();
        let mut i: usize = 0;
        while i < n
            invariant
                n == self.routes@.len(),
                i <= n,
                forall|k: int| 0 <= k < i ==> (#[trigger] self.routes@[k]).0@ != from@,
            decreases n - i,
        {
            if str_eq(self.routes[i].0.as_str(), from) {
                let r = clone_string_list(&self.routes[i].1);
                proof {
                    assert((self.routes@[i as int]).0@ == from@);
                }
                return r;
            }
            i = i + 1;
        }
        Vec::new()
    }

    /// Subscribes `plugin_id` to broadcasts (at most once).
    pub fn add_broadcast_subscriber(&mut self, plugin_id: &str)
        ensures
            final(self).routes == old(self).routes,
            subscribed(final(self).broadcast_subscribers@, plugin_id@),
            subscribed(old(self).broadcast_subscribers@, plugin_id@) ==> final(self).broadcast_subscribers == old(self).broadcast_subscribers,
            !subscribed(old(self).broadcast_subscribers@, plugin_id@) ==> {
                &&& final(self).broadcast_subscribers@.len() == old(self).broadcast_subscribers@.len() + 1
                &&& final(self).broadcast_subscribers@.last()@ == plugin_id@
                &&& final(self).broadcast_subscribers@.take(
                    old(self).broadcast_subscribers@.len() as int,
                ) == old(self).broadcast_subscribers@
            },
    {
        let n = self.broadcast_subscribers.len();
        let mut i: usize = 0;
        while i < n
            invariant
                n == self.broadcast_subscribers@.len(),
                i <= n,
                self.routes == old(self).routes,
                self.broadcast_subscribers == old(self).broadcast_subscribers,
                forall|k: int| 0 <= k < i ==> self.broadcast_subscribers@[k]@ != plugin_id@,
            decreases n - i,
        {
            if str_eq(self.broadcast_subscribers[i].as_str(), plugin_id) {
                proof {
                    assert(subscribed(self.broadcast_subscribers@, plugin_id@)) by {
                        assert(self.broadcast_subscribers@[i as int]@ == plugin_id@);
                    }
                }
                return ;
            }
            i = i + 1;
        }
        let ghost glen = self.broadcast_subscribers@.len();
        self.broadcast_subscribers.push(copy_str(plugin_id));
        proof {
            assert(subscribed(self.broadcast_subscribers@, plugin_id@)) by {
                assert(self.broadcast_subscribers@[glen as int]@ == plugin_id@);
            }
            assert(self.broadcast_subscribers@.take(glen as int) =~= old(self).broadcast_subscribers@);
        }
    }

    /// Unsubscribes `plugin_id` from broadcasts.
    pub fn remove_broadcast_subscriber(&mut self, plugin_id: &str)
        ensures
            final(self).routes == old(self).routes,
            !subscribed(final(self).broadcast_subscribers@, plugin_id@),
    {
        let mut kept: Vec<String> = Vec::new();
        loop
            invariant
                self.routes == old(self).routes,
                forall|k: int| 0 <= k < kept@.len() ==> (#[trigger] kept@[k])@ != plugin_id@,
            decreases self.broadcast_subscribers@.len(),
        {
            if self.broadcast_subscribers.len() == 0 {
                break ;
            }
            let s = self.broadcast_subscribers.remove(0);
            if !str_eq(s.as_str(), plugin_id) {
                kept.push(s);
            }
        }
        self.broadcast_subscribers = kept;
    }

    /// The broadcast subscribers, in subscription order.
    pub fn get_broadcast_subscribers(&self) -> (r: Vec<String>)
        ensures
            r@.len() == self.broadcast_subscribers@.len(),
            forall|k: int|
                0 <= k < r@.len() ==> (#[trigger] r@[k])@ == self.broadcast_subscribers@[k]@,
    {
        clone_string_list(&self.broadcast_subscribers)
    }
}

/// The destinations of `dests` that are not `drop`, in order.
fn filter_destinations(dests: &Vec<String>, drop: &str) -> (r: Vec<String>)
    ensures
        crate::strutil::views_of(r@) == crate::strutil::views_of(dests@).filter(
            |d: Seq<char>| d != drop@,
        ),
{
    let ghost dv = crate::strutil::views_of(dests@);
    let ghost pred = |d: Seq<char>| d != drop@;
    let mut out: Vec<String> = Vec::new();
    let m = dests.len();
    let mut k: usize = 0;
    proof {
        reveal(Seq::filter);
        assert(dv.take(0).filter(pred) =~= Seq::<Seq<char>>::empty());
        assert(crate::strutil::views_of(out@) =~= dv.take(0).filter(pred));
    }
    while k < m
        invariant
            dv == crate::strutil::views_of(dests@),
            pred == (|d: Seq<char>| d != drop@),
            m == dests@.len(),
            m == dv.len(),
            k <= m,
            crate::strutil::views_of(out@) == dv.take(k as int).filter(pred),
        decreases m - k,
    {
        proof {
            reveal(Seq::filter);
            assert(dv.take(k + 1).drop_last() =~= dv.take(k as int));
            assert(dv.take(k + 1).last() == dv[k as int]);
            assert(dv[k as int] == dests@[k as int]@);
        }
        if !str_eq(dests[k].as_str(), drop) {
            let ghost ov = crate::strutil::views_of(out@);
            out.push(dests[k].clone());
            proof {
                assert(crate::strutil::views_of(out@) =~= ov.push(dv[k as int]));
            }
        }
        k = k + 1;
    }
    proof {
        assert(dv.take(m as int) =~= dv);
    }
    out
}

/// An element-by-element copy of a list of strings.
fn clone_string_list(v: &Vec<String>) -> (r: Vec<String>)
    ensures
        r@.len() == v@.len(),
        forall|k: int| 0 <= k < r@.len() ==> (#[trigger] r@[k])@ == v@[k]@,
{
    let mut out: Vec<String> = Vec::new();
    let n = v.len();
    let mut i: usize = 0;
    while i < n
        invariant
            n == v@.len(),
            i <= n,
            out@.len() == i,
            forall|k: int| 0 <= k < i ==> (#[trigger] out@[k])@ == v@[k]@,
        decreases n - i,
    {
        out.push(v[i].clone());
        i = i + 1;
    }
    out
}

} // verus!

verus! {

/// Whether `channels` holds a channel for `id`.
pub open spec fn has_channel(channels: Seq<PluginChannel>, id: Seq<char>) -> bool {
    exists|i: int| 0 <= i < channels.len() && channels[i].plugin_id@ == id
}

/// Whether `pending` holds the correlation id `id`.
pub open spec fn pending_has(pending: Seq<u64>, id: u64) -> bool {
    exists|i: int| 0 <= i < pending.len() && pending[i] == id
}

/// The message the bus constructs for sender, recipient, type, payload and
/// timestamp, under correlation id `id` and reply correlation `reply_to`.
pub open spec fn message_of(
    id: u64,
    sender: Seq<char>,
    recipient: Option<Seq<char>>,
    message_type: MessageType,
    payload: PayloadView,
    timestamp: u64,
    reply_to: Option<u64>,
) -> MessageView {
    MessageView { id, sender, recipient, message_type, payload, timestamp, reply_to }
}

/// The communication bus: one inbound channel per registered plugin, the
/// routing overlay, the serializer, the outstanding correlation ids, and
/// the counter they are drawn from.
pub struct PluginCommunication {
    pub channels: Vec<PluginChannel>,
    pub message_router: MessageRouter,
    pub serializer: MessageSerializer,
    pub pending_requests: Vec<u64>,
    pub next_id: u64,
}

impl PluginCommunication {
    /// Well-formedness: outstanding correlation ids are distinct and below
    /// the counter, so a fresh id never collides with an outstanding one.
    pub open spec fn wf(self) -> bool {
        &&& forall|i: int, j: int|
            0 <= i < j < self.pending_requests@.len() ==> self.pending_requests@[i]
                != self.pending_requests@[j]
        &&& forall|i: int|
            0 <= i < self.pending_requests@.len() ==> self.pending_requests@[i] < self.next_id
    }

    /// An empty bus.
    pub fn new() -> (r: Self)
        ensures
            r.channels@.len() == 0,
            r.message_router.routes@.len() == 0,
            r.message_router.broadcast_subscribers@.len() == 0,
            r.pending_requests@.len() == 0,
            r.next_id == 0,
            r.wf(),
    {
        PluginCommunication {
            channels: Vec::new(),
            message_router: MessageRouter::new(),
            serializer: MessageSerializer::new(),
            pending_requests: Vec::new(),
            next_id: 0,
        }
    }

    /// Registers `plugin_id` for communication: it gains an active channel
    /// with an empty inbox — replacing the first existing channel of that
    /// id, or appended — and every other channel is untouched.
    pub fn register_plugin(&mut self, plugin_id: &str)
        requires
            old(self).wf(),
        ensures
            final(self).wf(),
            final(self).message_router == old(self).message_router,
            final(self).pending_requests == old(self).pending_requests,
            final(self).next_id == old(self).next_id,
            has_channel(final(self).channels@, plugin_id@),
            has_channel(old(self).channels@, plugin_id@) ==> exists|j: int|
                {
                    &&& 0 <= j < old(self).channels@.len()
                    &&& (#[trigger] old(self).channels@[j]).plugin_id@ == plugin_id@
                    &&& forall|k: int|
                        0 <= k < j ==> old(self).channels@[k].plugin_id@ != plugin_id@
                    &&& final(self).channels@.len() == old(self).channels@.len()
                    &&& final(self).channels@[j].plugin_id@ == plugin_id@
                    &&& final(self).channels@[j].active
                    &&& final(self).channels@[j].inbox@.len() == 0
                    &&& forall|k: int|
                        0 <= k < final(self).channels@.len() && k != j ==> final(self).channels@[
                            k
                        ] == old(self).channels@[k]
                },
            !has_channel(old(self).channels@, plugin_id@) ==> {
                &&& final(self).channels@.len() == old(self).channels@.len() + 1
                &&& final(self).channels@.take(old(self).channels@.len() as int) == old(self).channels@
                &&& final(self).channels@.last().plugin_id@ == plugin_id@
                &&& final(self).channels@.last().active
                &&& final(self).channels@.last().inbox@.len() == 0
            },
    {
        let fresh = PluginChannel {
            plugin_id: copy_str(plugin_id),
            active: true,
            inbox: Vec::new(),
        };
        let ghost gf = fresh;
        let n = self.channels.len();
        let mut i: usize = 0;
        while i < n
            invariant
                old(self).wf(),
                n == self.channels@.len(),
                i <= n,
                *self == *old(self),
                gf.plugin_id@ == plugin_id@,
                gf.active,
                gf.inbox@.len() == 0,
                fresh == gf,
                forall|k: int|
                    0 <= k < i ==> (#[trigger] self.channels@[k]).plugin_id@ != plugin_id@,
            decreases n - i,
        {
            if str_eq(self.channels[i].plugin_id.as_str(), plugin_id) {
                proof {
                    assert(has_channel(self.channels@, plugin_id@)) by {
                        assert(self.channels@[i as int].plugin_id@ == plugin_id@);
                    }
                }
                let ghost pre = self.channels@;
                let _ = self.channels.remove(i);
                self.channels.insert(i, fresh);
                proof {
                    assert(self.channels@[i as int] == gf);
                    assert(has_channel(self.channels@, plugin_id@)) by {
                        assert(self.channels@[i as int].plugin_id@ == plugin_id@);
                    }
                    assert(forall|k: int|
                        0 <= k < self.channels@.len() && k != i ==> self.channels@[k] == pre[k]);
                }
                return ;
            }
            i = i + 1;
        }
        proof {
            assert(!has_channel(self.channels@, plugin_id@));
        }
        let ghost glen = self.channels@.len();
        self.channels.push(fresh);
        proof {
            assert(has_channel(self.channels@, plugin_id@)) by {
                assert(self.channels@[glen as int].plugin_id@ == plugin_id@);
            }
            assert(self.channels@.take(glen as int) =~= old(self).channels@);
        }
    }

    /// Unregisters `plugin_id`: its channels are removed (all others kept
    /// in order), its own route list is dropped and its id is filtered out
    /// of every other route list.
    pub fn unregister_plugin(&mut self, plugin_id: &str)
        requires
            old(self).wf(),
        ensures
            final(self).wf(),
            final(self).pending_requests == old(self).pending_requests,
            final(self).next_id == old(self).next_id,
            !has_channel(final(self).channels@, plugin_id@),
            final(self).channels@ == old(self).channels@.filter(
                |ch: PluginChannel| ch.plugin_id@ != plugin_id@,
            ),
            final(self).message_router.broadcast_subscribers == old(self).message_router.broadcast_subscribers,
            route_views(final(self).message_router.routes@) == routes_without(
                route_views(old(self).message_router.routes@),
                plugin_id@,
            ),
    {
        let ghost orig = self.channels@;
        let ghost pred = |ch: PluginChannel| ch.plugin_id@ != plugin_id@;
        let mut kept: Vec<PluginChannel> = Vec::new();
        let n = self.channels.len();
        let mut i: usize = 0;
        proof {
            reveal(Seq::filter);
            assert(orig.take(0).filter(pred) =~= Seq::<PluginChannel>::empty());
            assert(orig.skip(0) =~= orig);
        }
        while i < n
            invariant
                orig == old(self).channels@,
                pred == (|ch: PluginChannel| ch.plugin_id@ != plugin_id@),
                old(self).wf(),
                self.pending_requests == old(self).pending_requests,
                self.next_id == old(self).next_id,
                self.message_router == old(self).message_router,
                n == orig.len(),
                i <= n,
                self.channels@ == orig.skip(i as int),
                kept@ == orig.take(i as int).filter(pred),
            decreases n - i,
        {
            proof {
                reveal(Seq::filter);
                assert(orig.skip(i as int)[0] == orig[i as int]);
                assert(orig.skip(i as int).skip(1) =~= orig.skip(i + 1));
                assert(orig.take(i + 1).drop_last() =~= orig.take(i as int));
                assert(orig.take(i + 1).last() == orig[i as int]);
            }
            let ch = self.channels.remove(0);
            proof {
                assert(self.channels@ =~= orig.skip(i as int).skip(1));
            }
            if !str_eq(ch.plugin_id.as_str(), plugin_id) {
                kept.push(ch);
            }
            i = i + 1;
        }
        proof {
            assert(orig.take(n as int) =~= orig);
        }
        self.channels = kept;
        self.message_router.remove_routes(plugin_id);
        proof {
            assert(self.channels@ == orig.filter(pred));
            assert(!has_channel(self.channels@, plugin_id@)) by {
                if has_channel(self.channels@, plugin_id@) {
                    let m = choose|m: int|
                        0 <= m < self.channels@.len() && self.channels@[m].plugin_id@
                            == plugin_id@;
                    orig.lemma_filter_pred(pred, m);
                }
            }
        }
    }

    /// The channel of `plugin_id`, if registered.
    pub fn get_channel(&self, plugin_id: &str) -> (r: Option<&PluginChannel>)
        ensures
            r is Some <==> has_channel(self.channels@, plugin_id@),
            r matches Some(ch) ==> ch.plugin_id@ == plugin_id@,
    {
        let n = self.channels.len();
        let mut i: usize = 0;
        while i < n
            invariant
                n == self.channels@.len(),
                i <= n,
                forall|k: int| 0 <= k < i ==> self.channels@[k].plugin_id@ != plugin_id@,
            decreases n - i,
        {
            if str_eq(self.channels[i].plugin_id.as_str(), plugin_id) {
                proof {
                    assert(has_channel(self.channels@, plugin_id@)) by {
                        assert(self.channels@[i as int].plugin_id@ == plugin_id@);
                    }
                }
                return Some(&self.channels[i]);
            }
            i = i + 1;
        }
        None
    }

    /// Appends `message` to its recipient's inbox: to the first channel of
    /// that id when it exists and is active; an unknown or inactive
    /// recipient drops the message silently (never fatal to the sender).
    fn deliver_message(&mut self, message: PluginMessage)
        ensures
            final(self).message_router == old(self).message_router,
            final(self).pending_requests == old(self).pending_requests,
            final(self).next_id == old(self).next_id,
            (message@.recipient is None || !has_channel(
                old(self).channels@,
                message@.recipient.unwrap(),
            )) ==> final(self).channels == old(self).channels,
            message@.recipient is Some && has_channel(
                old(self).channels@,
                message@.recipient.unwrap(),
            ) ==> exists|j: int|
                {
                    let rec = message@.recipient.unwrap();
                    &&& 0 <= j < old(self).channels@.len()
                    &&& (#[trigger] old(self).channels@[j]).plugin_id@ == rec
                    &&& forall|k: int|
                        0 <= k < j ==> old(self).channels@[k].plugin_id@ != rec
                    &&& if old(self).channels@[j].active {
                        &&& final(self).channels@.len() == old(self).channels@.len()
                        &&& final(self).channels@[j].plugin_id@ == rec
                        &&& final(self).channels@[j].active
                        &&& final(self).channels@[j].inbox@.len() == old(self).channels@[
                            j
                        ].inbox@.len() + 1
                        &&& final(self).channels@[j].inbox@.last()@ == message@
                        &&& final(self).channels@[j].inbox@.take(
                            old(self).channels@[j].inbox@.len() as int,
                        ) == old(self).channels@[j].inbox@
                        &&& forall|k: int|
                            0 <= k < final(self).channels@.len() && k != j ==> final(self).channels@[k] == old(self).channels@[k]
                    } else {
                        final(self).channels == old(self).channels
                    }
                },
    {
        let ghost gm = message@;
        let recipient = match &message.recipient {
            Some(r) => r.clone(),
            None => {
                return ;
            },
        };
        let ghost pre = self.channels@;
        let n = self.channels.len();
        let mut i: usize = 0;
        while i < n
            invariant
                pre == self.channels@,
                pre == old(self).channels@,
                *self == *old(self),
                gm == message@,
                gm.recipient is Some,
                recipient@ == gm.recipient.unwrap(),
                n == pre.len(),
                i <= n,
                forall|k: int| 0 <= k < i ==> pre[k].plugin_id@ != recipient@,
            decreases n - i,
        {
            if str_eq(self.channels[i].plugin_id.as_str(), recipient.as_str()) {
                proof {
                    assert(has_channel(pre, recipient@)) by {
                        assert(pre[i as int].plugin_id@ == recipient@);
                    }
                }
                if self.channels[i].active {
                    let mut ch = self.channels.remove(i);
                    let ghost pre_inbox = ch.inbox@;
                    ch.inbox.push(message);
                    let ghost gch = ch;
                    self.channels.insert(i, ch);
                    proof {
                        assert(self.channels@[i as int] == gch);
                        assert(gch.inbox@.last()@ == gm);
                        assert(gch.inbox@.take(pre_inbox.len() as int) =~= pre_inbox);
                        assert(forall|k: int|
                            0 <= k < self.channels@.len() && k != i ==> self.channels@[k]
                                == pre[k]);
                    }
                }
                return ;
            }
            i = i + 1;
        }
        proof {
            assert(!has_channel(pre, recipient@));
        }
    }

    /// Sends a point-to-point message: a fresh correlation id is drawn and
    /// the message is delivered as [`deliver_message`] says. The id is
    /// returned.
    pub fn send_message(
        &mut self,
        sender: &str,
        recipient: &str,
        message_type: MessageType,
        payload: MessagePayload,
        now: u64,
    ) -> (r: u64)
        requires
            old(self).wf(),
            old(self).next_id < u64::MAX,
        ensures
            final(self).wf(),
            r == old(self).next_id,
            final(self).next_id == old(self).next_id + 1,
            final(self).pending_requests == old(self).pending_requests,
            final(self).message_router == old(self).message_router,
            has_channel(old(self).channels@, recipient@) ==> exists|j: int|
                {
                    &&& 0 <= j < old(self).channels@.len()
                    &&& (#[trigger] old(self).channels@[j]).plugin_id@ == recipient@
                    &&& forall|k: int|
                        0 <= k < j ==> old(self).channels@[k].plugin_id@ != recipient@
                    &&& if old(self).channels@[j].active {
                        &&& final(self).channels@.len() == old(self).channels@.len()
                        &&& final(self).channels@[j].plugin_id@ == recipient@
                        &&& final(self).channels@[j].active
                        &&& final(self).channels@[j].inbox@.len() == old(self).channels@[
                            j
                        ].inbox@.len() + 1
                        &&& final(self).channels@[j].inbox@.last()@ == message_of(
                            old(self).next_id,
                            sender@,
                            Some(recipient@),
                            message_type,
                            payload@,
                            now,
                            None,
                        )
                        &&& final(self).channels@[j].inbox@.take(
                            old(self).channels@[j].inbox@.len() as int,
                        ) == old(self).channels@[j].inbox@
                        &&& forall|k: int|
                            0 <= k < final(self).channels@.len() && k != j ==> final(self).channels@[k] == old(self).channels@[k]
                    } else {
                        final(self).channels == old(self).channels
                    }
                },
            !has_channel(old(self).channels@, recipient@) ==> final(self).channels == old(self).channels,
    {
        let id = self.next_id;
        self.next_id = id + 1;
        let ghost gp = payload@;
        let message = PluginMessage {
            id,
            sender: copy_str(sender),
            recipient: Some(copy_str(recipient)),
            message_type,
            payload,
            timestamp: now,
            reply_to: None,
        };
        proof {
            assert(message@ == message_of(id, sender@, Some(recipient@), message_type, gp, now, None));
        }
        self.deliver_message(message);
        id
    }

    /// Broadcasts a message: every active broadcast subscriber except the
    /// sender receives a copy; every other channel is untouched.
    pub fn broadcast_message(
        &mut self,
        sender: &str,
        message_type: MessageType,
        payload: MessagePayload,
        now: u64,
    ) -> (r: u64)
        requires
            old(self).wf(),
            old(self).next_id < u64::MAX,
        ensures
            final(self).wf(),
            r == old(self).next_id,
            final(self).next_id == old(self).next_id + 1,
            final(self).pending_requests == old(self).pending_requests,
            final(self).message_router == old(self).message_router,
            final(self).channels@.len() == old(self).channels@.len(),
            forall|k: int|
                0 <= k < old(self).channels@.len() ==> {
                    let ch = #[trigger] old(self).channels@[k];
                    if subscribed(
                        old(self).message_router.broadcast_subscribers@,
                        ch.plugin_id@,
                    ) && ch.active && ch.plugin_id@ != sender@ {
                        &&& final(self).channels@[k].plugin_id@ == ch.plugin_id@
                        &&& final(self).channels@[k].active == ch.active
                        &&& final(self).channels@[k].inbox@.len() == ch.inbox@.len() + 1
                        &&& final(self).channels@[k].inbox@.last()@ == message_of(
                            old(self).next_id,
                            sender@,
                            None,
                            message_type,
                            payload@,
                            now,
                            None,
                        )
                        &&& final(self).channels@[k].inbox@.take(ch.inbox@.len() as int)
                            == ch.inbox@
                    } else {
                        final(self).channels@[k] == ch
                    }
                },
    {
        let id = self.next_id;
        self.next_id = id + 1;
        let ghost gp = payload@;
        let message = PluginMessage {
            id,
            sender: copy_str(sender),
            recipient: None,
            message_type,
            payload,
            timestamp: now,
            reply_to: None,
        };
        let ghost gm = message@;
        proof {
            assert(gm == message_of(id, sender@, None, message_type, gp, now, None));
        }
        let ghost pre = self.channels@;
        let n = self.channels.len();
        let mut i: usize = 0;
        while i < n
            invariant
                pre == old(self).channels@,
                gm == message@,
                message.recipient is None,
                self.message_router == old(self).message_router,
                self.pending_requests == old(self).pending_requests,
                self.next_id == old(self).next_id + 1,
                old(self).wf(),
                self.wf(),
                n == pre.len(),
                self.channels@.len() == n,
                i <= n,
                forall|k: int|
                    0 <= k < i ==> {
                        let ch = #[trigger] pre[k];
                        if subscribed(
                            old(self).message_router.broadcast_subscribers@,
                            ch.plugin_id@,
                        ) && ch.active && ch.plugin_id@ != sender@ {
                            &&& self.channels@[k].plugin_id@ == ch.plugin_id@
                            &&& self.channels@[k].active == ch.active
                            &&& self.channels@[k].inbox@.len() == ch.inbox@.len() + 1
                            &&& self.channels@[k].inbox@.last()@ == gm
                            &&& self.channels@[k].inbox@.take(ch.inbox@.len() as int)
                                == ch.inbox@
                        } else {
                            self.channels@[k] == ch
                        }
                    },
                forall|k: int| i <= k < n ==> self.channels@[k] == pre[k],
            decreases n - i,
        {
            let is_sub = crate::strutil::string_vec_contains(
                &self.message_router.broadcast_subscribers,
                self.channels[i].plugin_id.as_str(),
            );
            proof {
                assert(crate::strutil::contains_string(
                    crate::strutil::views_of(self.message_router.broadcast_subscribers@),
                    self.channels@[i as int].plugin_id@,
                ) == subscribed(
                    self.message_router.broadcast_subscribers@,
                    self.channels@[i as int].plugin_id@,
                )) by {
                    lemma_subscribed_views(
                        self.message_router.broadcast_subscribers@,
                        self.channels@[i as int].plugin_id@,
                    );
                }
            }
            if is_sub && self.channels[i].active
                && !str_eq(self.channels[i].plugin_id.as_str(), sender) {
                let copy = clone_message(&message);
                let mut ch = self.channels.remove(i);
                let ghost pre_inbox = ch.inbox@;
                ch.inbox.push(copy);
                let ghost gch = ch;
                self.channels.insert(i, ch);
                proof {
                    assert(self.channels@[i as int] == gch);
                    assert(gch.inbox@.take(pre_inbox.len() as int) =~= pre_inbox);
                    assert(forall|k: int|
                        0 <= k < n && k != i ==> self.channels@[k] == pre[k] || (0 <= k < i));
                }
            }
            i = i + 1;
        }
        id
    }

    /// Starts a request: a fresh correlation id is drawn and registered as
    /// outstanding, and a `Request` message whose `reply_to` is that id is
    /// delivered to `recipient`. The host resolves the id with
    /// [`resolve_response`] or [`request_timeout`]; each outstanding id is
    /// resolved at most once.
    pub fn send_request(
        &mut self,
        sender: &str,
        recipient: &str,
        function: &str,
        args: String,
        timeout: u64,
        now: u64,
    ) -> (r: u64)
        requires
            old(self).wf(),
            old(self).next_id < u64::MAX,
        ensures
            final(self).wf(),
            r == old(self).next_id,
            !pending_has(old(self).pending_requests@, r),
            final(self).next_id == old(self).next_id + 1,
            final(self).pending_requests@ == old(self).pending_requests@.push(r),
            final(self).message_router == old(self).message_router,
            has_channel(old(self).channels@, recipient@) ==> exists|j: int|
                {
                    &&& 0 <= j < old(self).channels@.len()
                    &&& (#[trigger] old(self).channels@[j]).plugin_id@ == recipient@
                    &&& forall|k: int|
                        0 <= k < j ==> old(self).channels@[k].plugin_id@ != recipient@
                    &&& if old(self).channels@[j].active {
                        &&& final(self).channels@.len() == old(self).channels@.len()
                        &&& final(self).channels@[j].plugin_id@ == recipient@
                        &&& final(self).channels@[j].active
                        &&& final(self).channels@[j].inbox@.len() == old(self).channels@[
                            j
                        ].inbox@.len() + 1
                        &&& final(self).channels@[j].inbox@.last()@ == message_of(
                            r,
                            sender@,
                            Some(recipient@),
                            MessageType::Request,
                            (PayloadView::Function { name: function@, args: args@ }),
                            now,
                            Some(r),
                        )
                        &&& final(self).channels@[j].inbox@.take(
                            old(self).channels@[j].inbox@.len() as int,
                        ) == old(self).channels@[j].inbox@
                        &&& forall|k: int|
                            0 <= k < final(self).channels@.len() && k != j ==> final(self).channels@[k] == old(self).channels@[k]
                    } else {
                        final(self).channels == old(self).channels
                    }
                },
            !has_channel(old(self).channels@, recipient@) ==> final(self).channels == old(self).channels,
    {
        let _ = timeout;
        let id = self.next_id;
        proof {
            assert(!pending_has(self.pending_requests@, id));
        }
        self.next_id = id + 1;
        self.pending_requests.push(id);
        let message = PluginMessage {
            id,
            sender: copy_str(sender),
            recipient: Some(copy_str(recipient)),
            message_type: MessageType::Request,
            payload: MessagePayload::Function { name: copy_str(function), args },
            timestamp: now,
            reply_to: Some(id),
        };
        self.deliver_message(message);
        id
    }

    /// Hands a response to the waiter it correlates with: the response is
    /// returned exactly when its `request_id` is an outstanding correlation
    /// id, which then stops being outstanding — so each request resolves to
    /// at most one response, and a response to an unknown or already
    /// resolved id resolves nothing, whatever other traffic is in flight.
    pub fn resolve_response(&mut self, response: PluginResponse) -> (r: Option<PluginResponse>)
        requires
            old(self).wf(),
        ensures
            final(self).wf(),
            final(self).channels == old(self).channels,
            final(self).message_router == old(self).message_router,
            final(self).next_id == old(self).next_id,
            r is Some <==> pending_has(old(self).pending_requests@, response.request_id),
            r matches Some(resp) ==> resp == response,
            !pending_has(final(self).pending_requests@, response.request_id),
            forall|other: u64|
                other != response.request_id ==> (pending_has(
                    final(self).pending_requests@,
                    other,
                ) <==> pending_has(old(self).pending_requests@, other)),
    {
        match self.take_pending(response.request_id) {
            true => Some(response),
            false => None,
        }
    }

    /// Times out an outstanding request: the id stops being outstanding;
    /// the result says whether a waiter was still there.
    pub fn request_timeout(&mut self, request_id: u64) -> (r: bool)
        requires
            old(self).wf(),
        ensures
            final(self).wf(),
            final(self).channels == old(self).channels,
            final(self).message_router == old(self).message_router,
            final(self).next_id == old(self).next_id,
            r == pending_has(old(self).pending_requests@, request_id),
            !pending_has(final(self).pending_requests@, request_id),
            forall|other: u64|
                other != request_id ==> (pending_has(final(self).pending_requests@, other)
                    <==> pending_has(old(self).pending_requests@, other)),
    {
        self.take_pending(request_id)
    }

    /// Removes `request_id` from the outstanding set, reporting whether it
    /// was there.
    fn take_pending(&mut self, request_id: u64) -> (r: bool)
        requires
            old(self).wf(),
        ensures
            final(self).wf(),
            final(self).channels == old(self).channels,
            final(self).message_router == old(self).message_router,
            final(self).next_id == old(self).next_id,
            r == pending_has(old(self).pending_requests@, request_id),
            !pending_has(final(self).pending_requests@, request_id),
            forall|other: u64|
                other != request_id ==> (pending_has(final(self).pending_requests@, other)
                    <==> pending_has(old(self).pending_requests@, other)),
    {
        let ghost pv = self.pending_requests@;
        let n = self.pending_requests.len();
        let mut i: usize = 0;
        while i < n
            invariant
                old(self).wf(),
                pv == old(self).pending_requests@,
                pv == self.pending_requests@,
                *self == *old(self),
                n == pv.len(),
                i <= n,
                forall|k: int| 0 <= k < i ==> pv[k] != request_id,
            decreases n - i,
        {
            if self.pending_requests[i] == request_id {
                proof {
                    assert(pending_has(pv, request_id)) by {
                        assert(pv[i as int] == request_id);
                    }
                }
                let _ = self.pending_requests.remove(i);
                proof {
                    assert(!pending_has(self.pending_requests@, request_id)) by {
                        assert forall|k: int|
                            0 <= k < self.pending_requests@.len() implies self.pending_requests@[
                            k
                        ] != request_id by {
                            if k < i {
                                assert(self.pending_requests@[k] == pv[k]);
                            } else {
                                assert(self.pending_requests@[k] == pv[k + 1]);
                            }
                        }
                    }
                    assert forall|other: u64| other != request_id implies (pending_has(
                        self.pending_requests@,
                        other,
                    ) <==> pending_has(pv, other)) by {
                        if pending_has(pv, other) {
                            let m = choose|m: int| 0 <= m < pv.len() && pv[m] == other;
                            if m < i {
                                assert(self.pending_requests@[m] == other);
                            } else {
                                assert(m != i);
                                assert(self.pending_requests@[m - 1] == other);
                            }
                        }
                        if pending_has(self.pending_requests@, other) {
                            let m = choose|m: int|
                                0 <= m < self.pending_requests@.len()
                                    && self.pending_requests@[m] == other;
                            if m < i {
                                assert(pv[m] == other);
                            } else {
                                assert(pv[m + 1] == other);
                            }
                        }
                    }
                }
                return true;
            }
            i = i + 1;
        }
        false
    }
}

/// `string_vec_contains` and `subscribed` agree.
proof fn lemma_subscribed_views(subs: Seq<String>, id: Seq<char>)
    ensures
        crate::strutil::contains_string(crate::strutil::views_of(subs), id) == subscribed(
            subs,
            id,
        ),
{
    if crate::strutil::contains_string(crate::strutil::views_of(subs), id) {
        let i = choose|i: int|
            0 <= i < crate::strutil::views_of(subs).len() && crate::strutil::views_of(subs)[i]
                == id;
        assert(subs[i]@ == id);
    }
    if subscribed(subs, id) {
        let i = choose|i: int| 0 <= i < subs.len() && subs[i]@ == id;
        assert(crate::strutil::views_of(subs)[i] == id);
    }
}

/// A copy of `message` with the same mathematical value.
pub fn clone_message(m: &PluginMessage) -> (r: PluginMessage)
    ensures
        r@ == m@,
{
    PluginMessage {
        id: m.id,
        sender: m.sender.clone(),
        recipient: match &m.recipient {
            Some(s) => Some(s.clone()),
            None => None,
        },
        message_type: m.message_type,
        payload: clone_payload(&m.payload),
        timestamp: m.timestamp,
        reply_to: m.reply_to,
    }
}

/// A copy of `payload` with the same mathematical value.
pub fn clone_payload(p: &MessagePayload) -> (r: MessagePayload)
    ensures
        r@ == p@,
{
    match p {
        MessagePayload::Text(s) => MessagePayload::Text(s.clone()),
        MessagePayload::Binary(b) => MessagePayload::Binary(vstd::slice::slice_to_vec(b.as_slice())),
        MessagePayload::Json(s) => MessagePayload::Json(s.clone()),
        MessagePayload::Function { name, args } => MessagePayload::Function {
            name: name.clone(),
            args: args.clone(),
        },
        MessagePayload::Event { event_type, data } => MessagePayload::Event {
            event_type: event_type.clone(),
            data: data.clone(),
        },
        MessagePayload::Error { code, message, details } => MessagePayload::Error {
            code: *code,
            message: message.clone(),
            details: match details {
                Some(d) => Some(d.clone()),
                None => None,
            },
        },
    }
}

} // verus!

verus! {

/// The canonical escaping of one character inside a JSON string: quote and
/// backslash are escaped, control characters become `\u00` plus two hex
/// digits, everything else stands verbatim.
pub open spec fn json_escape_char(c: char) -> Seq<char> {
    if c == '"' {
        seq!['\\', '"']
    } else if c == '\\' {
        seq!['\\', '\\']
    } else if (c as u32) < 32 {
        seq!['\\', 'u', '0', '0', hex_digit(((c as u32) / 16) as u8), hex_digit(
            ((c as u32) % 16) as u8,
        )]
    } else {
        seq![c]
    }
}

/// The canonical escaping of a whole string.
pub open spec fn json_escape(s: Seq<char>) -> Seq<char>
    decreases s.len(),
{
    if s.len() == 0 {
        Seq::empty()
    } else {
        json_escape(s.drop_last()) + json_escape_char(s.last())
    }
}

/// A string in its JSON form: escaped, between quotes.
pub open spec fn quoted(s: Seq<char>) -> Seq<char> {
    seq!['"'] + json_escape(s) + seq!['"']
}

/// The decimal rendering of `n`, most significant digit first, no leading
/// zeros.
pub open spec fn dec_of(n: u64) -> Seq<char>
    decreases n,
{
    if n < 10 {
        seq![hex_digit(n as u8)]
    } else {
        dec_of(n / 10) + seq![hex_digit((n % 10) as u8)]
    }
}

/// A byte list in its JSON form: decimal values between commas.
pub open spec fn bytes_dec(b: Seq<u8>) -> Seq<char>
    decreases b.len(),
{
    if b.len() == 0 {
        Seq::empty()
    } else if b.len() == 1 {
        dec_of(b[0] as u64)
    } else {
        dec_of(b[0] as u64) + seq![','] + bytes_dec(b.skip(1))
    }
}

/// The wire name of a message type, between quotes.
pub open spec fn json_of_type(t: MessageType) -> Seq<char> {
    match t {
        MessageType::Request => "\"Request\""@,
        MessageType::Response => "\"Response\""@,
        MessageType::Event => "\"Event\""@,
        MessageType::Broadcast => "\"Broadcast\""@,
        MessageType::Error => "\"Error\""@,
        MessageType::System => "\"System\""@,
    }
}

/// An optional string in its JSON form: quoted, or `null`.
pub open spec fn json_opt_str(o: Option<Seq<char>>) -> Seq<char> {
    match o {
        Some(s) => quoted(s),
        None => "null"@,
    }
}

/// An optional number in its JSON form: decimal, or `null`.
pub open spec fn json_opt_num(o: Option<u64>) -> Seq<char> {
    match o {
        Some(n) => dec_of(n),
        None => "null"@,
    }
}

/// A payload in its JSON form: one externally-tagged object per variant.
pub open spec fn json_of_payload(p: PayloadView) -> Seq<char> {
    match p {
        PayloadView::Text(s) => "{\"Text\":"@ + quoted(s) + "}"@,
        PayloadView::Binary(b) => "{\"Binary\":["@ + bytes_dec(b) + "]}"@,
        PayloadView::Json(s) => "{\"Json\":"@ + quoted(s) + "}"@,
        PayloadView::Function { name, args } => "{\"Function\":{\"name\":"@ + quoted(name)
            + ",\"args\":"@ + quoted(args) + "}}"@,
        PayloadView::Event { event_type, data } => "{\"Event\":{\"event_type\":"@ + quoted(
            event_type,
        ) + ",\"data\":"@ + quoted(data) + "}}"@,
        PayloadView::Error { code, message, details } => "{\"Error\":{\"code\":"@ + dec_of(
            code as u64,
        ) + ",\"message\":"@ + quoted(message) + ",\"details\":"@ + json_opt_str(details)
            + "}}"@,
    }
}

/// The canonical JSON form of a whole message.
pub open spec fn json_of_message(m: MessageView) -> Seq<char> {
    "{\"id\":"@ + dec_of(m.id) + ",\"sender\":"@ + quoted(m.sender) + ",\"recipient\":"@
        + json_opt_str(m.recipient) + ",\"message_type\":"@ + json_of_type(m.message_type)
        + ",\"payload\":"@ + json_of_payload(m.payload) + ",\"timestamp\":"@ + dec_of(
        m.timestamp,
    ) + ",\"reply_to\":"@ + json_opt_num(m.reply_to) + "}"@
}

/// Appends a literal to `out`.
fn push_lit(out: &mut String, lit: &str)
    ensures
        final(out)@ == old(out)@ + lit@,
{
    out.append(lit);
}

/// Appends the decimal rendering of `n` to `out`.
fn push_u64(out: &mut String, n: u64)
    ensures
        final(out)@ == old(out)@ + dec_of(n),
    decreases n,
{
    if n < 10 {
        crate::strutil::push_char(out, crate::checksum::hex_char(n as u8));
        proof {
            assert(final(out)@ =~= old(out)@ + dec_of(n));
        }
    } else {
        push_u64(out, n / 10);
        crate::strutil::push_char(out, crate::checksum::hex_char((n % 10) as u8));
        proof {
            assert(final(out)@ =~= old(out)@ + dec_of(n));
        }
    }
}

/// Appends the canonical escaping of `s`, between quotes, to `out`.
fn push_quoted(out: &mut String, s: &str)
    ensures
        final(out)@ == old(out)@ + quoted(s@),
{
    crate::strutil::push_char(out, '"');
    let n = s.unicode_len();
    let mut i: usize = 0;
    proof {
        assert(json_escape(s@.take(0)) =~= Seq::<char>::empty());
        assert(out@ =~= old(out)@ + seq!['"'] + json_escape(s@.take(0)));
    }
    while i < n
        invariant
            n == s@.len(),
            i <= n,
            out@ == old(out)@ + seq!['"'] + json_escape(s@.take(i as int)),
        decreases n - i,
    {
        proof {
            assert(s@.take(i + 1).drop_last() =~= s@.take(i as int));
            assert(s@.take(i + 1).last() == s@[i as int]);
        }
        let c = s.get_char(i);
        if c == '"' {
            crate::strutil::push_char(out, '\\');
            crate::strutil::push_char(out, '"');
        } else if c == '\\' {
            crate::strutil::push_char(out, '\\');
            crate::strutil::push_char(out, '\\');
        } else if (c as u32) < 32 {
            let v = c as u32;
            crate::strutil::push_char(out, '\\');
            crate::strutil::push_char(out, 'u');
            crate::strutil::push_char(out, '0');
            crate::strutil::push_char(out, '0');
            crate::strutil::push_char(out, crate::checksum::hex_char((v / 16) as u8));
            crate::strutil::push_char(out, crate::checksum::hex_char((v % 16) as u8));
        } else {
            crate::strutil::push_char(out, c);
        }
        proof {
            assert(out@ =~= old(out)@ + seq!['"'] + json_escape(s@.take(i + 1)));
        }
        i = i + 1;
    }
    crate::strutil::push_char(out, '"');
    proof {
        assert(s@.take(n as int) =~= s@);
        assert(out@ =~= old(out)@ + quoted(s@));
    }
}

/// Appends the JSON byte list rendering of `b` (without brackets) to
/// `out`.
fn push_bytes_dec(out: &mut String, b: &[u8])
    ensures
        final(out)@ == old(out)@ + bytes_dec(b@),
{
    let n = b.len();
    let mut i: usize = 0;
    proof {
        assert(b@.skip(0) =~= b@);
    }
    while i < n
        invariant
            n == b@.len(),
            i <= n,
            out@ + bytes_dec(b@.skip(i as int)) =~= old(out)@ + bytes_dec(b@),
        decreases n - i,
    {
        proof {
            assert(b@.skip(i as int)[0] == b@[i as int]);
            assert(b@.skip(i as int).skip(1) =~= b@.skip(i + 1));
        }
        push_u64(out, b[i] as u64);
        if i + 1 < n {
            crate::strutil::push_char(out, ',');
        }
        i = i + 1;
    }
    proof {
        assert(b@.skip(n as int) =~= Seq::<u8>::empty());
        assert(out@ + Seq::<char>::empty() =~= out@);
    }
}

/// Appends the JSON form of `payload` to `out`.
fn push_payload(out: &mut String, payload: &MessagePayload)
    ensures
        final(out)@ == old(out)@ + json_of_payload(payload@),
{
    match payload {
        MessagePayload::Text(s) => {
            push_lit(out, "{\"Text\":");
            push_quoted(out, s.as_str());
            push_lit(out, "}");
        },
        MessagePayload::Binary(b) => {
            push_lit(out, "{\"Binary\":[");
            push_bytes_dec(out, b.as_slice());
            push_lit(out, "]}");
        },
        MessagePayload::Json(s) => {
            push_lit(out, "{\"Json\":");
            push_quoted(out, s.as_str());
            push_lit(out, "}");
        },
        MessagePayload::Function { name, args } => {
            push_lit(out, "{\"Function\":{\"name\":");
            push_quoted(out, name.as_str());
            push_lit(out, ",\"args\":");
            push_quoted(out, args.as_str());
            push_lit(out, "}}");
        },
        MessagePayload::Event { event_type, data } => {
            push_lit(out, "{\"Event\":{\"event_type\":");
            push_quoted(out, event_type.as_str());
            push_lit(out, ",\"data\":");
            push_quoted(out, data.as_str());
            push_lit(out, "}}");
        },
        MessagePayload::Error { code, message: msg, details } => {
            push_lit(out, "{\"Error\":{\"code\":");
            push_u64(out, *code as u64);
            push_lit(out, ",\"message\":");
            push_quoted(out, msg.as_str());
            push_lit(out, ",\"details\":");
            match details {
                Some(d) => push_quoted(out, d.as_str()),
                None => push_lit(out, "null"),
            }
            push_lit(out, "}}");
        },
    }
    proof {
        assert(final(out)@ =~= old(out)@ + json_of_payload(payload@));
    }
}

/// Serializes bus messages to the canonical JSON wire form and back.
pub struct MessageSerializer;

impl MessageSerializer {
    /// A serializer.
    pub fn new() -> (r: Self) {
        MessageSerializer
    }

    /// The canonical JSON form of `message`.
    #[verifier::rlimit(80)]
    pub fn to_json(&self, message: &PluginMessage) -> (r: String)
        ensures
            r@ == json_of_message(message@),
    {
        let mut out = String::new();
        push_lit(&mut out, "{\"id\":");
        push_u64(&mut out, message.id);
        push_lit(&mut out, ",\"sender\":");
        push_quoted(&mut out, message.sender.as_str());
        push_lit(&mut out, ",\"recipient\":");
        match &message.recipient {
            Some(rec) => push_quoted(&mut out, rec.as_str()),
            None => push_lit(&mut out, "null"),
        }
        push_lit(&mut out, ",\"message_type\":");
        match message.message_type {
            MessageType::Request => push_lit(&mut out, "\"Request\""),
            MessageType::Response => push_lit(&mut out, "\"Response\""),
            MessageType::Event => push_lit(&mut out, "\"Event\""),
            MessageType::Broadcast => push_lit(&mut out, "\"Broadcast\""),
            MessageType::Error => push_lit(&mut out, "\"Error\""),
            MessageType::System => push_lit(&mut out, "\"System\""),
        }
        push_lit(&mut out, ",\"payload\":");
        push_payload(&mut out, &message.payload);
        push_lit(&mut out, ",\"timestamp\":");
        push_u64(&mut out, message.timestamp);
        push_lit(&mut out, ",\"reply_to\":");
        match message.reply_to {
            Some(n) => push_u64(&mut out, n),
            None => push_lit(&mut out, "null"),
        }
        push_lit(&mut out, "}");
        proof {
            assert(out@ =~= json_of_message(message@));
        }
        out
    }

    /// Parses the canonical JSON wire form back into a message: a
    /// successful parse is exactly a text that [`Self::to_json`] would
    /// produce for the returned message. That every canonical text parses
    /// is not claimed here; callers that need the round trip check the
    /// result.
    pub fn from_json(&self, s: &str) -> (r: Result<PluginMessage, BusError>)
        ensures
            r matches Ok(m) ==> s@ == json_of_message(m@),
    {
        let chars = crate::strutil::chars_of(s);
        let parsed = match parse_message_text(&chars) {
            Some(m) => m,
            None => {
                return Err(BusError::Malformed);
            },
        };
        let reencoded = self.to_json(&parsed);
        if str_eq(reencoded.as_str(), s) {
            Ok(parsed)
        } else {
            Err(BusError::Malformed)
        }
    }

    /// The canonical JSON wire form of `message`, as bytes.
    pub fn to_binary(&self, message: &PluginMessage) -> (r: Vec<u8>) {
        let json = self.to_json(message);
        json.as_str().as_bytes_vec()
    }

    /// Parses bytes holding the canonical JSON wire form back into a
    /// message.
    pub fn from_binary(&self, bytes: &[u8]) -> (r: Result<PluginMessage, BusError>) {
        match bytes_to_string(vstd::slice::slice_to_vec(bytes)) {
            Some(s) => self.from_json(s.as_str()),
            None => Err(BusError::Malformed),
        }
    }
}

/// Relies on `String::from_utf8` from std: decodes UTF-8 bytes, `None`
/// when the bytes are not valid UTF-8.
#[verifier::external_body]
fn bytes_to_string(bytes: Vec<u8>) -> (r: Option<String>) {
    String::from_utf8(bytes).ok()
}

/// Whether the input at `i` starts with the literal `lit`; the position
/// after it, if so.
fn p_lit(v: &Vec<char>, i: usize, lit: &str) -> (r: Option<usize>)
    ensures
        r matches Some(j) ==> i <= j <= v@.len(),
{
    let m = lit.unicode_len();
    if m > v.len() || i > v.len() - m {
        return None;
    }
    let mut k: usize = 0;
    while k < m
        invariant
            m == lit@.len(),
            i + m <= v@.len(),
            v@.len() <= usize::MAX,
            k <= m,
        decreases m - k,
    {
        if v[i + k] != lit.get_char(k) {
            return None;
        }
        k = k + 1;
    }
    Some(i + m)
}

/// Parses a canonical decimal `u64` at `i`.
fn p_u64(v: &Vec<char>, i: usize) -> (r: Option<(u64, usize)>)
    ensures
        r matches Some(p) ==> i < p.1 <= v@.len(),
{
    if i >= v.len() {
        return None;
    }
    let u0 = v[i] as u32;
    if u0 == 48 {
        return Some((0, i + 1));
    }
    if !(49 <= u0 && u0 <= 57) {
        return None;
    }
    let mut n: u64 = (u0 - 48) as u64;
    let mut j: usize = i + 1;
    while j < v.len()
        invariant
            i < j,
            j <= v@.len(),
        decreases v@.len() - j,
    {
        let u = v[j] as u32;
        if 48 <= u && u <= 57 {
            let d = (u - 48) as u64;
            if n > (u64::MAX - d) / 10 {
                return None;
            }
            proof {
                assert(n * 10 + d <= u64::MAX) by (nonlinear_arith)
                    requires
                        n <= (u64::MAX - d) / 10,
                        d <= 9,
                {
                }
            }
            n = n * 10 + d;
            j = j + 1;
        } else {
            break ;
        }
    }
    Some((n, j))
}

/// Decodes one lowercase hexadecimal digit.
fn p_hex(c: char) -> (r: Option<u8>)
    ensures
        r matches Some(h) ==> h < 16,
{
    let u = c as u32;
    if 48 <= u && u <= 57 {
        Some((u - 48) as u8)
    } else if 97 <= u && u <= 102 {
        Some(((u - 97) + 10) as u8)
    } else {
        None
    }
}

/// Parses a JSON string at `i` (after the opening quote), undoing the
/// canonical escaping; the position after the closing quote.
fn p_string(v: &Vec<char>, i: usize) -> (r: Option<(String, usize)>)
    ensures
        r matches Some(p) ==> i <= p.1 <= v@.len(),
{
    let mut out = String::new();
    let mut j: usize = i;
    loop
        invariant
            i <= j,
        decreases v@.len() - j,
    {
        if j >= v.len() {
            return None;
        }
        let c = v[j];
        if c == '"' {
            return Some((out, j + 1));
        }
        if c == '\\' {
            if v.len() - j < 2 {
                return None;
            }
            let e = v[j + 1];
            if e == '"' {
                crate::strutil::push_char(&mut out, '"');
                j = j + 2;
            } else if e == '\\' {
                crate::strutil::push_char(&mut out, '\\');
                j = j + 2;
            } else if e == 'u' {
                if v.len() - j < 6 {
                    return None;
                }
                if v[j + 2] != '0' || v[j + 3] != '0' {
                    return None;
                }
                let hi = match p_hex(v[j + 4]) {
                    Some(h) => h,
                    None => {
                        return None;
                    },
                };
                let lo = match p_hex(v[j + 5]) {
                    Some(h) => h,
                    None => {
                        return None;
                    },
                };
                let val: u8 = hi * 16 + lo;
                if val >= 32 {
                    return None;
                }
                crate::strutil::push_char(&mut out, val as char);
                j = j + 6;
            } else {
                return None;
            }
        } else if (c as u32) < 32 {
            return None;
        } else {
            crate::strutil::push_char(&mut out, c);
            j = j + 1;
        }
    }
}

/// Parses a quoted JSON string at `i` (including the opening quote).
fn p_quoted(v: &Vec<char>, i: usize) -> (r: Option<(String, usize)>) {
    match p_lit(v, i, "\"") {
        Some(j) => p_string(v, j),
        None => None,
    }
}

/// Parses a byte list at `i` (after the opening bracket), including the
/// closing bracket.
fn p_bytes(v: &Vec<char>, i: usize) -> (r: Option<(Vec<u8>, usize)>) {
    let mut out: Vec<u8> = Vec::new();
    if let Some(j) = p_lit(v, i, "]") {
        return Some((out, j));
    }
    let mut j: usize = i;
    if j > v.len() {
        return None;
    }
    loop
        invariant
            j <= v@.len(),
        decreases v@.len() - j,
    {
        let (n, j2) = match p_u64(v, j) {
            Some(p) => p,
            None => {
                return None;
            },
        };
        if n > 255 {
            return None;
        }
        out.push(n as u8);
        if let Some(j3) = p_lit(v, j2, "]") {
            return Some((out, j3));
        }
        let j3 = match p_lit(v, j2, ",") {
            Some(j3) => j3,
            None => {
                return None;
            },
        };
        if j3 <= j {
            return None;
        }
        j = j3;
    }
}

/// Parses a message type tag at `i` (including quotes).
fn p_type(v: &Vec<char>, i: usize) -> (r: Option<(MessageType, usize)>) {
    if let Some(j) = p_lit(v, i, "\"Request\"") {
        return Some((MessageType::Request, j));
    }
    if let Some(j) = p_lit(v, i, "\"Response\"") {
        return Some((MessageType::Response, j));
    }
    if let Some(j) = p_lit(v, i, "\"Event\"") {
        return Some((MessageType::Event, j));
    }
    if let Some(j) = p_lit(v, i, "\"Broadcast\"") {
        return Some((MessageType::Broadcast, j));
    }
    if let Some(j) = p_lit(v, i, "\"Error\"") {
        return Some((MessageType::Error, j));
    }
    if let Some(j) = p_lit(v, i, "\"System\"") {
        return Some((MessageType::System, j));
    }
    None
}

/// Parses a payload object at `i`.
fn p_payload(v: &Vec<char>, i: usize) -> (r: Option<(MessagePayload, usize)>) {
    if let Some(j) = p_lit(v, i, "{\"Text\":\"") {
        let (s, j2) = p_string(v, j)?;
        let j3 = p_lit(v, j2, "}")?;
        return Some((MessagePayload::Text(s), j3));
    }
    if let Some(j) = p_lit(v, i, "{\"Binary\":[") {
        let (b, j2) = p_bytes(v, j)?;
        let j3 = p_lit(v, j2, "}")?;
        return Some((MessagePayload::Binary(b), j3));
    }
    if let Some(j) = p_lit(v, i, "{\"Json\":\"") {
        let (s, j2) = p_string(v, j)?;
        let j3 = p_lit(v, j2, "}")?;
        return Some((MessagePayload::Json(s), j3));
    }
    if let Some(j) = p_lit(v, i, "{\"Function\":{\"name\":\"") {
        let (name, j2) = p_string(v, j)?;
        let j3 = p_lit(v, j2, ",\"args\":\"")?;
        let (args, j4) = p_string(v, j3)?;
        let j5 = p_lit(v, j4, "}}")?;
        return Some((MessagePayload::Function { name, args }, j5));
    }
    if let Some(j) = p_lit(v, i, "{\"Event\":{\"event_type\":\"") {
        let (event_type, j2) = p_string(v, j)?;
        let j3 = p_lit(v, j2, ",\"data\":\"")?;
        let (data, j4) = p_string(v, j3)?;
        let j5 = p_lit(v, j4, "}}")?;
        return Some((MessagePayload::Event { event_type, data }, j5));
    }
    if let Some(j) = p_lit(v, i, "{\"Error\":{\"code\":") {
        let (code, j2) = p_u64(v, j)?;
        if code > u32::MAX as u64 {
            return None;
        }
        let j3 = p_lit(v, j2, ",\"message\":\"")?;
        let (message, j4) = p_string(v, j3)?;
        let j5 = p_lit(v, j4, ",\"details\":")?;
        if let Some(j6) = p_lit(v, j5, "null") {
            let j7 = p_lit(v, j6, "}}")?;
            return Some(
                (MessagePayload::Error { code: code as u32, message, details: None }, j7),
            );
        }
        let j6 = p_lit(v, j5, "\"")?;
        let (d, j7) = p_string(v, j6)?;
        let j8 = p_lit(v, j7, "}}")?;
        return Some(
            (MessagePayload::Error { code: code as u32, message, details: Some(d) }, j8),
        );
    }
    None
}

/// Parses a whole message text; the entire input must be consumed.
fn parse_message_text(v: &Vec<char>) -> (r: Option<PluginMessage>) {
    let j = p_lit(v, 0, "{\"id\":")?;
    let (id, j) = p_u64(v, j)?;
    let j = p_lit(v, j, ",\"sender\":\"")?;
    let (sender, j) = p_string(v, j)?;
    let j = p_lit(v, j, ",\"recipient\":")?;
    let (recipient, j) = if let Some(j2) = p_lit(v, j, "null") {
        (None, j2)
    } else {
        let j2 = p_lit(v, j, "\"")?;
        let (rec, j3) = p_string(v, j2)?;
        (Some(rec), j3)
    };
    let j = p_lit(v, j, ",\"message_type\":")?;
    let (message_type, j) = p_type(v, j)?;
    let j = p_lit(v, j, ",\"payload\":")?;
    let (payload, j) = p_payload(v, j)?;
    let j = p_lit(v, j, ",\"timestamp\":")?;
    let (timestamp, j) = p_u64(v, j)?;
    let j = p_lit(v, j, ",\"reply_to\":")?;
    let (reply_to, j) = if let Some(j2) = p_lit(v, j, "null") {
        (None, j2)
    } else {
        let (n, j2) = p_u64(v, j)?;
        (Some(n), j2)
    };
    let j = p_lit(v, j, "}")?;
    if j == v.len() {
        Some(
            PluginMessage {
                id,
                sender,
                recipient,
                message_type,
                payload,
                timestamp,
                reply_to,
            },
        )
    } else {
        None
    }
}

} // verus!
