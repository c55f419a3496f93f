//! The event bus: who listens to which event, and what an emission sets off.
use std::collections::HashMap;
use std::marker::PhantomData;
use vstd::prelude::*;

use crate::device::ffi::DeviceIdentity;
use crate::device::identity_of;
use crate::device::Device;

verus! {

broadcast use vstd::std_specs::hash::group_hash_axioms;

/// Names one event instance. Two keys are the same channel exactly when they
/// are equal: instances that describe equal data under different keys are
/// different channels.
#[derive(Clone, Copy, Debug, PartialEq, Eq, Hash, Structural)]
pub enum EventKey {
    /// The telemetry of a device.
    Device(DeviceIdentity),
    /// An instance of an event type of the application's own.
    Instance { type_id: u32, instance: u64 },
}

impl EventKey {
    /// The integer under which the channel is stored.
    pub open spec fn spec_code(self) -> u128 {
        match self {
            EventKey::Device(device) => device.spec_key() as u128,
            EventKey::Instance { type_id, instance } => (0x1_0000_0000_0000_0000_0000_0000
                + type_id * 0x1_0000_0000_0000_0000 + instance) as u128,
        }
    }

    pub fn code(&self) -> (code: u128)
        ensures
            code == self.spec_code(),
    {
        match self {
            EventKey::Device(device) => device.key() as u128,
            EventKey::Instance { type_id, instance } => 0x1_0000_0000_0000_0000_0000_0000u128
                + (*type_id as u128) * 0x1_0000_0000_0000_0000u128 + (*instance as u128),
        }
    }

    /// Distinct keys never share a code.
    pub proof fn lemma_code_injective(a: EventKey, b: EventKey)
        ensures
            a.spec_code() == b.spec_code() <==> a == b,
    {
        match (a, b) {
            (EventKey::Device(x), EventKey::Device(y)) => {
                DeviceIdentity::lemma_key_injective(x, y);
            },
            _ => {},
        }
    }
}

/// Something that can be subscribed to and emitted.
pub trait Event {
    /// The channel of this instance.
    spec fn spec_event_key(&self) -> EventKey;

    fn event_key(&self) -> (key: EventKey)
        ensures
            key == self.spec_event_key(),
    ;
}

/// One entry of a channel's subscriber list.
pub enum Subscriber<H, E, F> {
    /// A handler that cannot fail.
    Handler(H),
    /// A handler that can fail, with the callback that is told of a failure.
    Fallible { handler: H, on_err: E },
    /// A derived event: the data, mapped by `map`, is emitted on `target`.
    Trigger { target: EventKey, map: F },
    /// A derived event that carries the data on to `target` as it is.
    Forward { target: EventKey },
}

/// One step of an emission, for the caller to carry out.
pub enum Action<'a, P, H, E> {
    /// Call `handler` with `data`.
    Invoke { handler: &'a H, data: &'a P },
    /// Call `handler` with `data`, and `on_err` with its error if it fails.
    InvokeFallible { handler: &'a H, on_err: &'a E, data: &'a P },
    /// Emit `data`, which a trigger's map made, on `target`.
    Emit { target: EventKey, data: P },
    /// Emit `data` on `target`.
    Forward { target: EventKey, data: &'a P },
}

/// Whether `action` is what `subscriber` is owed when `data` is emitted: a
/// handler is called with the emitted data, and a derived event is emitted
/// with what its map makes of them, or with the data themselves.
pub open spec fn delivers<P, H, E, F: Fn(&P) -> P>(
    subscriber: Subscriber<H, E, F>,
    data: P,
    action: Action<P, H, E>,
) -> bool {
    match subscriber {
        Subscriber::Handler(handler) => {
            &&& action matches Action::Invoke { handler: invoked, data: handed }
            &&& *invoked == handler
            &&& *handed == data
        },
        Subscriber::Fallible { handler, on_err } => {
            &&& action matches Action::InvokeFallible {
                handler: invoked,
                on_err: told,
                data: handed,
            }
            &&& *invoked == handler
            &&& *told == on_err
            &&& *handed == data
        },
        Subscriber::Trigger { target, map } => {
            &&& action matches Action::Emit { target: derived, data: mapped }
            &&& derived == target
            &&& call_ensures(map, (&data,), mapped)
        },
        Subscriber::Forward { target } => {
            &&& action matches Action::Forward { target: derived, data: handed }
            &&& derived == target
            &&& *handed == data
        },
    }
}

/// Whether `plan` is what emitting `data` to `subscribers` sets off: one
/// action for each subscriber, in their order.
pub open spec fn emission<P, H, E, F: Fn(&P) -> P>(
    subscribers: Seq<Subscriber<H, E, F>>,
    data: P,
    plan: Seq<Action<P, H, E>>,
) -> bool {
    &&& plan.len() == subscribers.len()
    &&& forall|i: int| 0 <= i < plan.len() ==> delivers(#[trigger] subscribers[i], data, plan[i])
}

/// The subscribers that a table holds for `event`, oldest first: none where
/// the table does not know the event.
pub open spec fn subscribers_of<H, E, F>(
    table: Map<EventKey, Seq<Subscriber<H, E, F>>>,
    event: EventKey,
) -> Seq<Subscriber<H, E, F>> {
    if table.contains_key(event) {
        table[event]
    } else {
        Seq::empty()
    }
}

/// The table after `subscriber` registered for `event`: it is the last of
/// the event's subscribers, and nothing else has changed.
pub open spec fn subscribed<H, E, F>(
    table: Map<EventKey, Seq<Subscriber<H, E, F>>>,
    event: EventKey,
    subscriber: Subscriber<H, E, F>,
) -> Map<EventKey, Seq<Subscriber<H, E, F>>> {
    table.insert(event, subscribers_of(table, event).push(subscriber))
}

/// An event is known to the table from its first subscriber on, and no
/// registration ends that: whoever registers, every event that was known
/// stays known, with the subscribers it had, in their order.
pub proof fn law_channels_are_retained<H, E, F>(
    table: Map<EventKey, Seq<Subscriber<H, E, F>>>,
    event: EventKey,
    subscriber: Subscriber<H, E, F>,
)
    ensures
        subscribed(table, event, subscriber).contains_key(event),
        subscribers_of(subscribed(table, event, subscriber), event).last() == subscriber,
        forall|known: EventKey| #[trigger]
            table.contains_key(known) ==> subscribed(table, event, subscriber).contains_key(
                known,
            ),
        forall|other: EventKey|
            subscribers_of(table, other).is_prefix_of(
                #[trigger] subscribers_of(subscribed(table, event, subscriber), other),
            ),
{
    let after = subscribed(table, event, subscriber);
    assert forall|other: EventKey|
        subscribers_of(table, other).is_prefix_of(#[trigger] subscribers_of(after, other)) by {
        if other == event {
            assert(subscribers_of(after, other).take(subscribers_of(table, other).len() as int)
                =~= subscribers_of(table, other));
        } else {
            assert(subscribers_of(after, other) =~= subscribers_of(table, other));
        }
    }
}

/// Two handlers that registered for an event are both called when it is
/// emitted, in the order in which they registered, and so is whoever
/// listened before them.
pub proof fn law_emit_reaches_every_handler<P, H, E, F: Fn(&P) -> P>(
    table: Map<EventKey, Seq<Subscriber<H, E, F>>>,
    event: EventKey,
    first: H,
    second: H,
    data: P,
    plan: Seq<Action<P, H, E>>,
)
    requires
        emission(
            subscribers_of(
                subscribed(
                    subscribed(table, event, Subscriber::Handler(first)),
                    event,
                    Subscriber::Handler(second),
                ),
                event,
            ),
            data,
            plan,
        ),
    ensures
        plan.len() == subscribers_of(table, event).len() + 2,
        plan[plan.len() - 2] matches Action::Invoke { handler, data: handed } && *handler == first
            && *handed == data,
        plan[plan.len() - 1] matches Action::Invoke { handler, data: handed } && *handler
            == second && *handed == data,
        emission(subscribers_of(table, event), data, plan.take(plan.len() - 2)),
{
    let before = subscribers_of(table, event);
    let after = before.push(Subscriber::Handler(first)).push(Subscriber::Handler(second));
    assert(subscribers_of(
        subscribed(
            subscribed(table, event, Subscriber::Handler(first)),
            event,
            Subscriber::Handler(second),
        ),
        event,
    ) == after);
    assert(delivers(after[before.len() as int], data, plan[before.len() as int]));
    assert(delivers(after[before.len() as int + 1], data, plan[before.len() as int + 1]));
    let kept = plan.take(before.len() as int);
    assert forall|i: int| 0 <= i < kept.len() implies delivers(
        #[trigger] before[i],
        data,
        kept[i],
    ) by {
        assert(delivers(after[i], data, plan[i]));
    }
}

/// A trigger sets off exactly one emission on its target for each emission
/// on its source, with the data that its map makes of the emitted data; and
/// every handler that listens to the target is called when that emission is
/// carried out.
pub proof fn law_trigger_emits_once<P, H, E, F: Fn(&P) -> P>(
    table: Map<EventKey, Seq<Subscriber<H, E, F>>>,
    source: EventKey,
    target: EventKey,
    map: F,
    data: P,
    plan: Seq<Action<P, H, E>>,
    onward: Seq<Action<P, H, E>>,
)
    requires
        emission(
            subscribers_of(subscribed(table, source, Subscriber::Trigger { target, map }), source),
            data,
            plan,
        ),
        plan.last() matches Action::Emit { target: derived, data: mapped } && emission(
            subscribers_of(subscribed(table, source, Subscriber::Trigger { target, map }), derived),
            mapped,
            onward,
        ),
    ensures
        plan.len() == subscribers_of(table, source).len() + 1,
        emission(subscribers_of(table, source), data, plan.take(plan.len() - 1)),
        plan.last() matches Action::Emit { target: derived, data: mapped } && derived == target
            && call_ensures(map, (&data,), mapped),
        forall|i: int|
            0 <= i < onward.len() ==> (#[trigger] subscribers_of(
                subscribed(table, source, Subscriber::Trigger { target, map }),
                target,
            )[i] matches Subscriber::Handler(handler) ==> onward[i] matches Action::Invoke {
                handler: invoked,
                data: handed,
            } && *invoked == handler && call_ensures(map, (&data,), *handed)),
{
    let trigger = Subscriber::Trigger { target, map };
    let before = subscribers_of(table, source);
    let after = before.push(trigger);
    assert(subscribers_of(subscribed(table, source, trigger), source) == after);
    assert(delivers(after[before.len() as int], data, plan[before.len() as int]));
    let kept = plan.take(before.len() as int);
    assert forall|i: int| 0 <= i < kept.len() implies delivers(
        #[trigger] before[i],
        data,
        kept[i],
    ) by {
        assert(delivers(after[i], data, plan[i]));
    }
    let mapped = plan.last()->Emit_data;
    let listeners = subscribers_of(subscribed(table, source, trigger), target);
    assert forall|i: int| 0 <= i < onward.len() implies (#[trigger] listeners[i] matches
        Subscriber::Handler(handler) ==> onward[i] matches Action::Invoke {
        handler: invoked,
        data: handed,
    } && *invoked == handler && call_ensures(map, (&data,), *handed)) by {
        assert(delivers(listeners[i], mapped, onward[i]));
    }
}

/// Whether `subscriber` can be served whatever is emitted: a trigger's map
/// must accept every payload.
pub open spec fn serviceable<P, H, E, F: Fn(&P) -> P>(subscriber: Subscriber<H, E, F>) -> bool {
    match subscriber {
        Subscriber::Trigger { target, map } => forall|data: P| call_requires(map, (&data,)),
        _ => true,
    }
}

/// The subscriber table of the event bus: for each event instance that has
/// subscribers, its subscribers in the order in which they registered.
#[verifier::reject_recursive_types(P)]
pub struct Emitter<P, H, E, F: Fn(&P) -> P> {
    callbacks: HashMap<u128, Vec<Subscriber<H, E, F>>>,
    payload: PhantomData<P>,
}

impl<P, H, E, F: Fn(&P) -> P> View for Emitter<P, H, E, F> {
    type V = Map<EventKey, Seq<Subscriber<H, E, F>>>;

    closed spec fn view(&self) -> Map<EventKey, Seq<Subscriber<H, E, F>>> {
        Map::new(
            |event: EventKey|
                self.callbacks@.contains_key(event.spec_code())
                    && self.callbacks@[event.spec_code()]@.len() > 0,
            |event: EventKey| self.callbacks@[event.spec_code()]@,
        )
    }
}

impl<P, H, E, F: Fn(&P) -> P> Emitter<P, H, E, F> {
    #[verifier::type_invariant]
    closed spec fn all_serviceable(&self) -> bool {
        forall|code: u128, i: int|
            self.callbacks@.contains_key(code) && 0 <= i < self.callbacks@[code]@.len()
                ==> serviceable::<P, H, E, F>(#[trigger] self.callbacks@[code]@[i])
    }

    /// The subscribers of `event`, oldest first.
    pub open spec fn subscribers(&self, event: EventKey) -> Seq<Subscriber<H, E, F>> {
        subscribers_of(self@, event)
    }

    /// Whether `event` is known to the emitter: it has a subscriber.
    pub open spec fn is_registered(&self, event: EventKey) -> bool {
        self@.contains_key(event)
    }

    /// An emitter to which nobody listens.
    pub fn new() -> (emitter: Self)
        ensures
            emitter@ == Map::<EventKey, Seq<Subscriber<H, E, F>>>::empty(),
    {
        let emitter = Emitter { callbacks: HashMap::new(), payload: PhantomData };
        assert(emitter@ =~= Map::<EventKey, Seq<Subscriber<H, E, F>>>::empty());
        emitter
    }

    fn subscribe(&mut self, event: &EventKey, subscriber: Subscriber<H, E, F>)
        requires
            serviceable::<P, H, E, F>(subscriber),
        ensures
            final(self)@ == subscribed(old(self)@, *event, subscriber),
    {
        proof {
            use_type_invariant(&*self);
        }
        let code = event.code();
        let mut callbacks = HashMap::new();
        core::mem::swap(&mut self.callbacks, &mut callbacks);
        let mut list = match callbacks.remove(&code) {
            Some(list) => list,
            None => Vec::new(),
        };
        list.push(subscriber);
        let ghost extended = list@;
        callbacks.insert(code, list);
        self.callbacks = callbacks;
        proof {
            let before = old(self)@;
            let after = final(self)@;
            let expected = subscribed(before, *event, subscriber);
            assert(extended =~= subscribers_of(before, *event).push(subscriber));
            assert forall|other: EventKey| after.contains_key(other) == expected.contains_key(
                other,
            ) by {
                EventKey::lemma_code_injective(other, *event);
            }
            assert forall|other: EventKey| after.contains_key(other) implies after[other]
                == expected[other] by {
                EventKey::lemma_code_injective(other, *event);
            }
            assert(after =~= expected);
        }
    }

    /// Appends `callback` to the subscribers of `event`.
    pub fn register(&mut self, event: &EventKey, callback: H)
        ensures
            final(self)@ == subscribed(old(self)@, *event, Subscriber::Handler(callback)),
    {
        self.subscribe(event, Subscriber::Handler(callback));
    }

    /// Appends a handler that can fail to the subscribers of `event`, with
    /// the callback that is to be told of its failures.
    pub fn register_fallible(&mut self, event: &EventKey, callback: H, on_err: E)
        ensures
            final(self)@ == subscribed(
                old(self)@,
                *event,
                Subscriber::Fallible { handler: callback, on_err },
            ),
    {
        self.subscribe(event, Subscriber::Fallible { handler: callback, on_err });
    }

    /// Derives `event` from `trigger`: from now on an emission on `trigger`
    /// sets off one emission on `event`, with the data that `map` makes of
    /// the emitted data.
    pub fn register_trigger(&mut self, trigger: &EventKey, event: EventKey, map: F)
        requires
            forall|data: P| call_requires(map, (&data,)),
        ensures
            final(self)@ == subscribed(
                old(self)@,
                *trigger,
                Subscriber::Trigger { target: event, map },
            ),
    {
        self.subscribe(trigger, Subscriber::Trigger { target: event, map });
    }

    /// Derives `event` from `trigger` with the data unchanged.
    pub fn trigger(&mut self, trigger: &EventKey, event: EventKey)
        ensures
            final(self)@ == subscribed(old(self)@, *trigger, Subscriber::Forward { target: event }),
    {
        self.subscribe(trigger, Subscriber::Forward { target: event });
    }

    /// What emitting `data` on `event` sets off: one action for each
    /// subscriber of `event`, in the order of registration. Every handler is
    /// to be called with `data`; derived events are to be emitted in turn.
    /// An event without subscribers sets nothing off.
    pub fn emit<'a>(&'a self, event: &EventKey, data: &'a P) -> (plan: Vec<Action<'a, P, H, E>>)
        ensures
            emission(self.subscribers(*event), *data, plan@),
    {
        proof {
            use_type_invariant(self);
        }
        let code = event.code();
        let mut plan: Vec<Action<'a, P, H, E>> = Vec::new();
        match self.callbacks.get(&code) {
            None => {},
            Some(list) => {
                let mut i: usize = 0;
                while i < list.len()
                    invariant
                        i <= list@.len(),
                        plan@.len() == i,
                        list@ == self.subscribers(*event),
                        forall|j: int|
                            0 <= j < list@.len() ==> serviceable::<P, H, E, F>(#[trigger] list@[j]),
                        forall|j: int|
                            0 <= j < i ==> delivers(#[trigger] list@[j], *data, plan@[j]),
                    decreases list@.len() - i,
                {
                    let action = match &list[i] {
                        Subscriber::Handler(handler) => Action::Invoke { handler, data },
                        Subscriber::Fallible { handler, on_err } => Action::InvokeFallible {
                            handler,
                            on_err,
                            data,
                        },
                        Subscriber::Trigger { target, map } => {
                            assert(serviceable::<P, H, E, F>(list@[i as int]));
                            Action::Emit { target: *target, data: map(data) }
                        },
                        Subscriber::Forward { target } => Action::Forward {
                            target: *target,
                            data,
                        },
                    };
                    plan.push(action);
                    i = i + 1;
                }
            },
        }
        plan
    }

    /// What a device's fresh telemetry sets off.
    pub fn emit_device<'a, D: Device>(&'a self, device: &D, data: &'a P) -> (plan: Vec<
        Action<'a, P, H, E>,
    >)
        ensures
            emission(self.subscribers(EventKey::Device(identity_of(device))), *data, plan@),
    {
        let event = EventKey::Device(DeviceIdentity::of(device));
        self.emit(&event, data)
    }
}

impl<D: Device> Event for D {
    open spec fn spec_event_key(&self) -> EventKey {
        EventKey::Device(identity_of(self))
    }

    fn event_key(&self) -> (key: EventKey) {
        EventKey::Device(DeviceIdentity::of(self))
    }
}

/// Subscribing by the event itself: what an emitter offers for a key, an
/// event offers for its own.
pub trait EventExt: Event {
    /// Subscribes a handler that can fail, with the callback that is to be
    /// told of its failures.
    fn register_fallible<P, H, E, F: Fn(&P) -> P>(
        &self,
        emitter: &mut Emitter<P, H, E, F>,
        f: H,
        on_err: E,
    )
        ensures
            final(emitter)@ == subscribed(
                old(emitter)@,
                self.spec_event_key(),
                Subscriber::Fallible { handler: f, on_err },
            ),
    {
        let key = self.event_key();
        emitter.register_fallible(&key, f, on_err);
    }

    /// Subscribes a handler.
    fn register<P, H, E, F: Fn(&P) -> P>(&self, emitter: &mut Emitter<P, H, E, F>, f: H)
        ensures
            final(emitter)@ == subscribed(
                old(emitter)@,
                self.spec_event_key(),
                Subscriber::Handler(f),
            ),
    {
        let key = self.event_key();
        emitter.register(&key, f);
    }

    /// Derives `other` from this event, with the data unchanged.
    fn trigger<P, H, E, F: Fn(&P) -> P, O: Event>(
        &self,
        emitter: &mut Emitter<P, H, E, F>,
        other: &O,
    )
        ensures
            final(emitter)@ == subscribed(
                old(emitter)@,
                self.spec_event_key(),
                Subscriber::Forward { target: other.spec_event_key() },
            ),
    {
        let key = self.event_key();
        emitter.trigger(&key, other.event_key());
    }
}

impl<T: Event> EventExt for T {

}

} // verus!
