//! The event feed: per-repository topics that fan each published event out
//! to every current subscriber, each through a bounded buffer of its own.

use vstd::prelude::*;

verus! {

/// The kind of artifact an event or a reference is about.
#[derive(Debug, Clone, Copy, PartialEq, Eq, Structural)]
pub enum DataType {
    Manifest,
    Blob,
    Upload,
}

impl DataType {
    /// The name used on the wire.
    pub fn as_str(&self) -> &'static str {
        match self {
            DataType::Manifest => "Manifest",
            DataType::Blob => "Blob",
            DataType::Upload => "Upload",
        }
    }
}

/// The HTTP method of the request that caused an event.
#[derive(Debug, Clone, Copy, PartialEq, Eq, Structural)]
pub enum Method {
    Get,
    Head,
    Put,
    Patch,
}

impl Method {
    /// The method's name, as HTTP writes it.
    pub fn as_str(&self) -> &'static str {
        match self {
            Method::Get => "GET",
            Method::Head => "HEAD",
            Method::Put => "PUT",
            Method::Patch => "PATCH",
        }
    }
}

/// A pointer from an event to an artifact that the operation depends on.
#[derive(Debug)]
pub struct Ref {
    pub data_type: DataType,
    pub repo: String,
    pub identifier: String,
}

pub ghost struct RefView {
    pub data_type: DataType,
    pub repo: Seq<char>,
    pub identifier: Seq<char>,
}

impl View for Ref {
    type V = RefView;

    open spec fn view(&self) -> RefView {
        RefView { data_type: self.data_type, repo: self.repo@, identifier: self.identifier@ }
    }
}

impl Ref {
    /// A copy of this reference.
    pub fn duplicate(&self) -> (r: Ref)
        ensures
            r@ == self@,
    {
        Ref { data_type: self.data_type, repo: self.repo.clone(), identifier: self.identifier.clone() }
    }
}

/// Copies a list of references.
pub fn duplicate_refs(refs: &Vec<Ref>) -> (r: Vec<Ref>)
    ensures
        r@.map_values(|x: Ref| x@) == refs@.map_values(|x: Ref| x@),
{
    let mut r: Vec<Ref> = Vec::new();
    let mut i: usize = 0;
    while i < refs.len()
        invariant
            i <= refs.len(),
            r.len() == i,
            forall|j: int| 0 <= j < i ==> (#[trigger] r@[j])@ == refs@[j]@,
        decreases refs.len() - i,
    {
        r.push(refs[i].duplicate());
        i = i + 1;
    }
    proof {
        assert(r@.map_values(|x: Ref| x@) =~= refs@.map_values(|x: Ref| x@));
    }
    r
}

/// One registry operation, as reported to subscribers.
#[derive(Debug)]
pub struct Event {
    pub data_type: DataType,
    pub method: Method,
    pub status: u16,
    pub repo: String,
    pub identifier: String,
    pub refs: Option<Vec<Ref>>,
}

pub ghost struct EventView {
    pub data_type: DataType,
    pub method: Method,
    pub status: u16,
    pub repo: Seq<char>,
    pub identifier: Seq<char>,
    pub refs: Option<Seq<RefView>>,
}

pub open spec fn refs_view(refs: Option<Vec<Ref>>) -> Option<Seq<RefView>> {
    match refs {
        Some(v) => Some(v@.map_values(|x: Ref| x@)),
        None => None,
    }
}

impl View for Event {
    type V = EventView;

    open spec fn view(&self) -> EventView {
        EventView {
            data_type: self.data_type,
            method: self.method,
            status: self.status,
            repo: self.repo@,
            identifier: self.identifier@,
            refs: refs_view(self.refs),
        }
    }
}

impl Event {
    /// A copy of this event.
    pub fn duplicate(&self) -> (r: Event)
        ensures
            r@ == self@,
    {
        let refs = match &self.refs {
            Some(v) => Some(duplicate_refs(v)),
            None => None,
        };
        Event {
            data_type: self.data_type,
            method: self.method,
            status: self.status,
            repo: self.repo.clone(),
            identifier: self.identifier.clone(),
            refs,
        }
    }
}

/// How many events a subscriber's buffer holds before further events are
/// dropped for that subscriber.
pub const SUBSCRIBER_CAPACITY: usize = 10;

struct Subscription {
    id: u64,
    ns: String,
    buffer: Vec<Event>,
}

pub ghost struct SubscriptionView {
    pub id: u64,
    pub ns: Seq<char>,
    pub buffer: Seq<EventView>,
}

impl View for Subscription {
    type V = SubscriptionView;

    closed spec fn view(&self) -> SubscriptionView {
        SubscriptionView {
            id: self.id,
            ns: self.ns@,
            buffer: self.buffer@.map_values(|e: Event| e@),
        }
    }
}

/// The topics by repository, with their subscriptions.
pub struct ChannelMap {
    topics: Vec<String>,
    subs: Vec<Subscription>,
    next_id: u64,
}

pub ghost struct ChannelMapView {
    /// The repositories that have a topic, in order of creation.
    pub topics: Seq<Seq<char>>,
    /// The live subscriptions, in order of joining.
    pub subs: Seq<SubscriptionView>,
    /// The id that the next subscription gets.
    pub next_id: u64,
}

impl View for ChannelMap {
    type V = ChannelMapView;

    closed spec fn view(&self) -> ChannelMapView {
        ChannelMapView {
            topics: self.topics@.map_values(|t: String| t@),
            subs: self.subs@.map_values(|s: Subscription| s@),
            next_id: self.next_id,
        }
    }
}

/// Subscription ids are unique and below the next one; every subscription
/// belongs to a topic; no buffer holds more than its capacity.
pub open spec fn hub_wf(v: ChannelMapView) -> bool {
    &&& forall|i: int, j: int| 0 <= i < j < v.subs.len() ==> v.subs[i].id != v.subs[j].id
    &&& forall|i: int| 0 <= i < v.subs.len() ==> (#[trigger] v.subs[i]).id < v.next_id
    &&& forall|i: int| 0 <= i < v.subs.len() ==> v.topics.contains((#[trigger] v.subs[i]).ns)
    &&& forall|i: int| 0 <= i < v.subs.len() ==> (#[trigger] v.subs[i]).buffer.len() <= SUBSCRIBER_CAPACITY
}

/// A subscription after `e` is published on topic `ns`: appended if the
/// subscription is to `ns` and its buffer has room, else unchanged.
pub open spec fn deliver(s: SubscriptionView, ns: Seq<char>, e: EventView) -> SubscriptionView {
    if s.ns == ns && s.buffer.len() < SUBSCRIBER_CAPACITY {
        SubscriptionView { id: s.id, ns: s.ns, buffer: s.buffer.push(e) }
    } else {
        s
    }
}

/// The feed after `e` is published on topic `ns`.
pub open spec fn publish(v: ChannelMapView, ns: Seq<char>, e: EventView) -> ChannelMapView {
    ChannelMapView {
        topics: v.topics,
        subs: Seq::new(v.subs.len(), |i: int| deliver(v.subs[i], ns, e)),
        next_id: v.next_id,
    }
}

/// The feed after each of `es` is published on topic `ns`, in order.
pub open spec fn publish_all(v: ChannelMapView, ns: Seq<char>, es: Seq<EventView>) -> ChannelMapView
    decreases es.len(),
{
    if es.len() == 0 {
        v
    } else {
        publish(publish_all(v, ns, es.drop_last()), ns, es.last())
    }
}

/// The feed after a subscription to `ns` joins: the topic is created if it
/// is new, and the subscription starts with an empty buffer.
pub open spec fn subscribe(v: ChannelMapView, ns: Seq<char>) -> ChannelMapView {
    ChannelMapView {
        topics: if v.topics.contains(ns) { v.topics } else { v.topics.push(ns) },
        subs: v.subs.push(SubscriptionView { id: v.next_id, ns, buffer: Seq::empty() }),
        next_id: (v.next_id + 1) as u64,
    }
}

impl ChannelMap {
    pub open spec fn wf(&self) -> bool {
        hub_wf(self@)
    }

    fn find_topic(&self, ns: &String) -> (r: bool)
        ensures
            r == self@.topics.contains(ns@),
    {
        let mut i: usize = 0;
        while i < self.topics.len()
            invariant
                i <= self.topics.len(),
                forall|j: int| 0 <= j < i ==> self.topics@[j]@ != ns@,
            decreases self.topics.len() - i,
        {
            if self.topics[i] == *ns {
                proof {
                    assert(self@.topics[i as int] == ns@);
                }
                return true;
            }
            i = i + 1;
        }
        proof {
            if self@.topics.contains(ns@) {
                let j = choose|j: int| 0 <= j < self@.topics.len() && self@.topics[j] == ns@;
                assert(self.topics@[j]@ == ns@);
            }
        }
        false
    }

    fn find_subscription(&self, id: u64) -> (r: Option<usize>)
        ensures
            match r {
                Some(i) => i < self@.subs.len() && self@.subs[i as int].id == id,
                None => forall|i: int| 0 <= i < self@.subs.len() ==> self@.subs[i].id != id,
            },
    {
        let mut i: usize = 0;
        while i < self.subs.len()
            invariant
                i <= self.subs.len(),
                forall|j: int| 0 <= j < i ==> self@.subs[j].id != id,
            decreases self.subs.len() - i,
        {
            if self.subs[i].id == id {
                return Some(i);
            }
            i = i + 1;
        }
        None
    }

    /// Publishes `e` on the topic `ns`: each subscription to `ns` whose
    /// buffer has room receives it; the others, and every other topic, are
    /// left as they were. Without a topic for `ns` nothing changes.
    pub fn publish(&mut self, ns: &String, e: &Event)
        requires
            old(self).wf(),
        ensures
            final(self).wf(),
            final(self)@ == publish(old(self)@, ns@, e@),
    {
        let n = self.subs.len();
        let mut i: usize = 0;
        while i < n
            invariant
                n == self.subs.len() == old(self).subs.len(),
                i <= n,
                self.topics == old(self).topics,
                self.next_id == old(self).next_id,
                forall|j: int| 0 <= j < i ==> self@.subs[j] == deliver(old(self)@.subs[j], ns@, e@),
                forall|j: int| i <= j < n ==> self@.subs[j] == old(self)@.subs[j],
            decreases n - i,
        {
            if self.subs[i].ns == *ns && self.subs[i].buffer.len() < SUBSCRIBER_CAPACITY {
                let ghost before = self@.subs;
                let mut s = self.subs.remove(i);
                s.buffer.push(e.duplicate());
                proof {
                    assert(s@.buffer =~= before[i as int].buffer.push(e@));
                }
                self.subs.insert(i, s);
                proof {
                    assert forall|j: int| 0 <= j < n implies self@.subs[j] == if j == i {
                        deliver(before[j], ns@, e@)
                    } else {
                        before[j]
                    } by {
                        if j < i {
                            assert(self.subs@[j] == old(self).subs@[j] || self.subs@[j]@ == before[j]);
                        }
                    }
                }
            }
            i = i + 1;
        }
        proof {
            assert(self@.subs =~= publish(old(self)@, ns@, e@).subs);
        }
    }

    /// Joins a new subscription to `ns`, creating the topic if needed, and
    /// returns its id; `None`, with nothing changed, once ids are used up.
    pub fn subscribe(&mut self, ns: String) -> (r: Option<u64>)
        requires
            old(self).wf(),
        ensures
            final(self).wf(),
            match r {
                Some(id) => old(self)@.next_id < u64::MAX && id == old(self)@.next_id
                    && final(self)@ == subscribe(old(self)@, ns@),
                None => old(self)@.next_id == u64::MAX && final(self)@ == old(self)@,
            },
    {
        if self.next_id == u64::MAX {
            return None;
        }
        let id = self.next_id;
        if !self.find_topic(&ns) {
            self.topics.push(ns.clone());
        }
        self.subs.push(Subscription { id, ns, buffer: Vec::new() });
        self.next_id = id + 1;
        proof {
            let v = subscribe(old(self)@, ns@);
            assert(self@.topics =~= v.topics);
            assert(self@.subs[self@.subs.len() - 1].buffer =~= Seq::<EventView>::empty());
            assert(self@.subs =~= v.subs);
            assert(v.topics.contains(ns@)) by {
                if !old(self)@.topics.contains(ns@) {
                    assert(v.topics[v.topics.len() - 1] == ns@);
                }
            }
            assert forall|i: int| 0 <= i < v.subs.len() implies v.topics.contains((#[trigger] v.subs[i]).ns) by {
                if i < old(self)@.subs.len() {
                    let t = old(self)@.subs[i].ns;
                    assert(old(self)@.topics.contains(t));
                    if !old(self)@.topics.contains(ns@) {
                        let k = choose|k: int| 0 <= k < old(self)@.topics.len() && old(self)@.topics[k] == t;
                        assert(v.topics[k] == t);
                    }
                }
            }
        }
        Some(id)
    }

    /// Takes the oldest event waiting for subscription `id`, if there is one.
    pub fn next_event(&mut self, id: u64) -> (r: Option<Event>)
        requires
            old(self).wf(),
        ensures
            final(self).wf(),
            match r {
                Some(e) => exists|i: int|
                    0 <= i < old(self)@.subs.len() && old(self)@.subs[i].id == id
                        && old(self)@.subs[i].buffer.len() > 0
                        && e@ == old(self)@.subs[i].buffer[0]
                        && final(self)@ == (ChannelMapView {
                            subs: old(self)@.subs.update(i, SubscriptionView {
                                buffer: old(self)@.subs[i].buffer.drop_first(),
                                ..old(self)@.subs[i]
                            }),
                            ..old(self)@
                        }),
                None => final(self)@ == old(self)@ && forall|i: int|
                    0 <= i < old(self)@.subs.len() && old(self)@.subs[i].id == id
                        ==> old(self)@.subs[i].buffer.len() == 0,
            },
    {
        match self.find_subscription(id) {
            None => None,
            Some(i) => {
                if self.subs[i].buffer.len() == 0 {
                    proof {
                        assert forall|j: int| 0 <= j < old(self)@.subs.len() && old(self)@.subs[j].id == id
                            implies old(self)@.subs[j].buffer.len() == 0 by {
                            assert(j == i);
                        }
                    }
                    return None;
                }
                let ghost before = self@.subs;
                let mut s = self.subs.remove(i);
                let e = s.buffer.remove(0);
                proof {
                    assert(s@.buffer =~= before[i as int].buffer.drop_first());
                }
                self.subs.insert(i, s);
                proof {
                    let v = ChannelMapView {
                        subs: before.update(i as int, SubscriptionView {
                            buffer: before[i as int].buffer.drop_first(),
                            ..before[i as int]
                        }),
                        ..old(self)@
                    };
                    assert(self@.subs =~= v.subs);
                    assert(self@.topics =~= v.topics);
                }
                Some(e)
            },
        }
    }

    /// Ends subscription `id`, dropping what its buffer held.
    pub fn unsubscribe(&mut self, id: u64)
        requires
            old(self).wf(),
        ensures
            final(self).wf(),
            final(self)@.topics == old(self)@.topics,
            final(self)@.next_id == old(self)@.next_id,
            forall|i: int|
                0 <= i < old(self)@.subs.len() && old(self)@.subs[i].id == id
                    ==> final(self)@.subs == old(self)@.subs.remove(i),
            (forall|i: int| 0 <= i < old(self)@.subs.len() ==> old(self)@.subs[i].id != id)
                ==> final(self)@ == old(self)@,
    {
        match self.find_subscription(id) {
            None => {},
            Some(i) => {
                let ghost before = self@.subs;
                let _ = self.subs.remove(i);
                proof {
                    assert(self@.subs =~= before.remove(i as int));
                    assert forall|j: int| 0 <= j < before.len() && before[j].id == id
                        implies self@.subs == before.remove(j) by {
                        assert(j == i);
                    }
                }
            },
        }
    }
}

/// The event that `send` publishes.
pub open spec fn event_view(
    data_type: DataType,
    method: Method,
    status: u16,
    repo: Seq<char>,
    identifier: Seq<char>,
    refs: Option<Seq<RefView>>,
) -> EventView {
    EventView { data_type, method, status, repo, identifier, refs }
}

/// Publishes, on the topic of repository `ns`, the event of an operation on
/// `identifier` that answered `status`.
pub fn send(
    ns: &String,
    data_type: DataType,
    method: Method,
    status: u16,
    identifier: String,
    refs: Option<Vec<Ref>>,
    cm: &mut ChannelMap,
)
    requires
        old(cm).wf(),
    ensures
        final(cm).wf(),
        final(cm)@ == publish(
            old(cm)@,
            ns@,
            event_view(data_type, method, status, ns@, identifier@, refs_view(refs)),
        ),
{
    let e = Event { data_type, method, status, repo: ns.clone(), identifier, refs };
    cm.publish(ns, &e);
}

/// Creates the feed with no topics.
pub fn new_channel_map() -> (r: ChannelMap)
    ensures
        r.wf(),
        r@.topics.len() == 0,
        r@.subs.len() == 0,
{
    let r = ChannelMap { topics: Vec::new(), subs: Vec::new(), next_id: 0 };
    proof {
        assert(r@.subs =~= Seq::<SubscriptionView>::empty());
    }
    r
}

/// What a buffer holding `b` holds after `es` are published to it: the
/// events in order of publication, up to the capacity.
pub open spec fn kept(b: Seq<EventView>, es: Seq<EventView>) -> Seq<EventView> {
    let n = b.len() + es.len();
    (b + es).take(if n < SUBSCRIBER_CAPACITY { n as int } else { SUBSCRIBER_CAPACITY as int })
}

/// Events published one after another on a topic reach each subscription
/// to it in the order they were published: its buffer becomes what it held,
/// followed by the new events, until the capacity is reached; the rest are
/// dropped for that subscription. Subscriptions to other topics keep their
/// buffers, and no subscription is added or removed.
pub proof fn lemma_publish_order(v: ChannelMapView, ns: Seq<char>, es: Seq<EventView>, i: int)
    requires
        0 <= i < v.subs.len(),
        v.subs[i].buffer.len() <= SUBSCRIBER_CAPACITY,
    ensures
        publish_all(v, ns, es).subs.len() == v.subs.len(),
        publish_all(v, ns, es).subs[i].id == v.subs[i].id,
        publish_all(v, ns, es).subs[i].ns == v.subs[i].ns,
        publish_all(v, ns, es).subs[i].buffer == if v.subs[i].ns == ns {
            kept(v.subs[i].buffer, es)
        } else {
            v.subs[i].buffer
        },
    decreases es.len(),
{
    let b = v.subs[i].buffer;
    if es.len() == 0 {
        assert((b + es).take(b.len() as int) =~= b);
    } else {
        let front = es.drop_last();
        lemma_publish_order(v, ns, front, i);
        let w = publish_all(v, ns, front);
        let e = es.last();
        assert(publish_all(v, ns, es) == publish(w, ns, e));
        if v.subs[i].ns == ns {
            let kb = kept(b, front);
            assert(w.subs[i].buffer == kb);
            if b.len() + front.len() < SUBSCRIBER_CAPACITY {
                assert(kb =~= b + front);
                assert(kept(b, es) =~= (b + front).push(e));
            } else {
                assert(kb.len() == SUBSCRIBER_CAPACITY);
                assert(kept(b, es) =~= kb);
            }
        }
    }
}

/// A subscription that joins a topic after some events were published on
/// it sees none of them: its buffer holds exactly the first events
/// published after it joined, up to its capacity.
pub proof fn lemma_late_subscriber(
    v: ChannelMapView,
    ns: Seq<char>,
    earlier: Seq<EventView>,
    later: Seq<EventView>,
)
    ensures
        ({
            let joined = subscribe(publish_all(v, ns, earlier), ns);
            let w = publish_all(joined, ns, later);
            let s = w.subs[w.subs.len() - 1];
            &&& w.subs.len() == joined.subs.len()
            &&& s.id == v.next_id
            &&& s.buffer == later.take(
                if later.len() < SUBSCRIBER_CAPACITY { later.len() as int } else { SUBSCRIBER_CAPACITY as int },
            )
        }),
{
    lemma_publish_keeps_next_id(v, ns, earlier);
    let joined = subscribe(publish_all(v, ns, earlier), ns);
    let last = joined.subs.len() - 1;
    lemma_publish_order(joined, ns, later, last);
    assert(Seq::<EventView>::empty() + later =~= later);
}

proof fn lemma_publish_keeps_next_id(v: ChannelMapView, ns: Seq<char>, es: Seq<EventView>)
    ensures
        publish_all(v, ns, es).next_id == v.next_id,
    decreases es.len(),
{
    if es.len() > 0 {
        lemma_publish_keeps_next_id(v, ns, es.drop_last());
    }
}

} // verus!
