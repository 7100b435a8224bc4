//! A publish/subscribe event bus for decoupling game systems.
//!
//! Handlers are stored in subscription order together with the kind of
//! event they listen to. The bus is generic over the handler type `H`, so the
//! caller decides how a handler is represented and how it is invoked, and
//! over the type `X` in which events of the program's own types travel: such
//! a type implements [`GameEvent`] with a kind of its own, so that its
//! events reach only its own handlers.
use vstd::prelude::*;

verus! {

/// The kinds of game events that can travel over the bus.
#[derive(Clone, Copy, PartialEq, Eq, Structural, Debug)]
pub enum EventKind {
    Damage,
    StatusEffectStart,
    StatusEffectEnd,
    MapChange,
    ChatMessage,
    SkillCast,
    EntitySpawn,
    EntityDespawn,
    /// The kind that a program's own event type names.
    Custom(u64),
}

/// Emitted when an entity takes damage.
#[derive(Clone, Debug)]
pub struct DamageEvent {
    pub source_entity_id: u32,
    pub target_entity_id: u32,
    pub damage: u32,
    pub is_critical: bool,
}

/// Emitted when a status effect starts on an entity.
#[derive(Clone, Debug)]
pub struct StatusEffectStartEvent {
    pub entity_id: u32,
    pub effect_id: u16,
    pub duration_ms: u32,
}

/// Emitted when a status effect ends on an entity.
#[derive(Clone, Debug)]
pub struct StatusEffectEndEvent {
    pub entity_id: u32,
    pub effect_id: u16,
}

/// Emitted when the player changes map.
#[derive(Clone, Debug)]
pub struct MapChangeEvent {
    pub map_name: String,
}

/// Emitted when a chat message arrives.
#[derive(Clone, Debug)]
pub struct ChatMessageEvent {
    pub sender: String,
    pub message: String,
    pub channel: ChatChannel,
}

/// The channel a chat message was sent on.
#[derive(Clone, Copy, PartialEq, Eq, Structural, Debug)]
pub enum ChatChannel {
    Public,
    Party,
    Guild,
    Whisper,
    Server,
}

/// Emitted when a skill is cast.
#[derive(Clone, Debug)]
pub struct SkillCastEvent {
    pub caster_entity_id: u32,
    pub skill_id: u16,
    pub skill_level: u8,
}

/// Emitted when an entity spawns.
#[derive(Clone, Debug)]
pub struct EntitySpawnEvent {
    pub entity_id: u32,
    pub job_id: u16,
    pub position: [u16; 2],
}

/// Emitted when an entity despawns.
#[derive(Clone, Debug)]
pub struct EntityDespawnEvent {
    pub entity_id: u32,
}

/// Any game event, tagged with its kind.
#[derive(Clone, Debug)]
pub enum AnyGameEvent<X> {
    /// An event of a type that the program defines, which names its own
    /// kind.
    Custom { kind: u64, event: X },
    Damage(DamageEvent),
    StatusEffectStart(StatusEffectStartEvent),
    StatusEffectEnd(StatusEffectEndEvent),
    MapChange(MapChangeEvent),
    ChatMessage(ChatMessageEvent),
    SkillCast(SkillCastEvent),
    EntitySpawn(EntitySpawnEvent),
    EntityDespawn(EntityDespawnEvent),
}

impl<X> AnyGameEvent<X> {
    /// The kind of the wrapped event.
    pub open spec fn spec_kind(&self) -> EventKind {
        match self {
            AnyGameEvent::Damage(_) => EventKind::Damage,
            AnyGameEvent::StatusEffectStart(_) => EventKind::StatusEffectStart,
            AnyGameEvent::StatusEffectEnd(_) => EventKind::StatusEffectEnd,
            AnyGameEvent::MapChange(_) => EventKind::MapChange,
            AnyGameEvent::ChatMessage(_) => EventKind::ChatMessage,
            AnyGameEvent::SkillCast(_) => EventKind::SkillCast,
            AnyGameEvent::EntitySpawn(_) => EventKind::EntitySpawn,
            AnyGameEvent::EntityDespawn(_) => EventKind::EntityDespawn,
            AnyGameEvent::Custom { kind, .. } => EventKind::Custom(*kind),
        }
    }

    /// Returns the kind of the wrapped event.
    pub fn kind(&self) -> (kind: EventKind)
        ensures
            kind == self.spec_kind(),
    {
        match self {
            AnyGameEvent::Damage(_) => EventKind::Damage,
            AnyGameEvent::StatusEffectStart(_) => EventKind::StatusEffectStart,
            AnyGameEvent::StatusEffectEnd(_) => EventKind::StatusEffectEnd,
            AnyGameEvent::MapChange(_) => EventKind::MapChange,
            AnyGameEvent::ChatMessage(_) => EventKind::ChatMessage,
            AnyGameEvent::SkillCast(_) => EventKind::SkillCast,
            AnyGameEvent::EntitySpawn(_) => EventKind::EntitySpawn,
            AnyGameEvent::EntityDespawn(_) => EventKind::EntityDespawn,
            AnyGameEvent::Custom { kind, .. } => EventKind::Custom(*kind),
        }
    }
}

/// A game event that can be published through the event bus.
pub trait GameEvent<X>: Sized {
    /// The kind that identifies this event type on the bus.
    spec fn spec_kind() -> EventKind;

    /// The event wrapped as an [`AnyGameEvent`].
    spec fn spec_wrap(&self) -> AnyGameEvent<X>;

    /// Returns the kind that identifies this event type on the bus.
    fn kind() -> (kind: EventKind)
        ensures
            kind == Self::spec_kind(),
    ;

    /// Wraps a copy of the event as an [`AnyGameEvent`].
    fn to_any(&self) -> (event: AnyGameEvent<X>)
        ensures
            event == self.spec_wrap(),
            event.spec_kind() == Self::spec_kind(),
    ;
}

impl<X> GameEvent<X> for DamageEvent {
    open spec fn spec_kind() -> EventKind { EventKind::Damage }
    open spec fn spec_wrap(&self) -> AnyGameEvent<X> { AnyGameEvent::Damage(*self) }
    fn kind() -> (kind: EventKind) { EventKind::Damage }
    fn to_any(&self) -> (event: AnyGameEvent<X>) {
        AnyGameEvent::Damage(DamageEvent {
            source_entity_id: self.source_entity_id,
            target_entity_id: self.target_entity_id,
            damage: self.damage,
            is_critical: self.is_critical,
        })
    }
}

impl<X> GameEvent<X> for StatusEffectStartEvent {
    open spec fn spec_kind() -> EventKind { EventKind::StatusEffectStart }
    open spec fn spec_wrap(&self) -> AnyGameEvent<X> { AnyGameEvent::StatusEffectStart(*self) }
    fn kind() -> (kind: EventKind) { EventKind::StatusEffectStart }
    fn to_any(&self) -> (event: AnyGameEvent<X>) {
        AnyGameEvent::StatusEffectStart(StatusEffectStartEvent {
            entity_id: self.entity_id,
            effect_id: self.effect_id,
            duration_ms: self.duration_ms,
        })
    }
}

impl<X> GameEvent<X> for StatusEffectEndEvent {
    open spec fn spec_kind() -> EventKind { EventKind::StatusEffectEnd }
    open spec fn spec_wrap(&self) -> AnyGameEvent<X> { AnyGameEvent::StatusEffectEnd(*self) }
    fn kind() -> (kind: EventKind) { EventKind::StatusEffectEnd }
    fn to_any(&self) -> (event: AnyGameEvent<X>) {
        AnyGameEvent::StatusEffectEnd(StatusEffectEndEvent { entity_id: self.entity_id, effect_id: self.effect_id })
    }
}

impl<X> GameEvent<X> for MapChangeEvent {
    open spec fn spec_kind() -> EventKind { EventKind::MapChange }
    open spec fn spec_wrap(&self) -> AnyGameEvent<X> { AnyGameEvent::MapChange(*self) }
    fn kind() -> (kind: EventKind) { EventKind::MapChange }
    fn to_any(&self) -> (event: AnyGameEvent<X>) {
        AnyGameEvent::MapChange(MapChangeEvent { map_name: self.map_name.clone() })
    }
}

impl<X> GameEvent<X> for ChatMessageEvent {
    open spec fn spec_kind() -> EventKind { EventKind::ChatMessage }
    open spec fn spec_wrap(&self) -> AnyGameEvent<X> { AnyGameEvent::ChatMessage(*self) }
    fn kind() -> (kind: EventKind) { EventKind::ChatMessage }
    fn to_any(&self) -> (event: AnyGameEvent<X>) {
        AnyGameEvent::ChatMessage(ChatMessageEvent {
            sender: self.sender.clone(),
            message: self.message.clone(),
            channel: self.channel,
        })
    }
}

impl<X> GameEvent<X> for SkillCastEvent {
    open spec fn spec_kind() -> EventKind { EventKind::SkillCast }
    open spec fn spec_wrap(&self) -> AnyGameEvent<X> { AnyGameEvent::SkillCast(*self) }
    fn kind() -> (kind: EventKind) { EventKind::SkillCast }
    fn to_any(&self) -> (event: AnyGameEvent<X>) {
        AnyGameEvent::SkillCast(SkillCastEvent {
            caster_entity_id: self.caster_entity_id,
            skill_id: self.skill_id,
            skill_level: self.skill_level,
        })
    }
}

impl<X> GameEvent<X> for EntitySpawnEvent {
    open spec fn spec_kind() -> EventKind { EventKind::EntitySpawn }
    open spec fn spec_wrap(&self) -> AnyGameEvent<X> { AnyGameEvent::EntitySpawn(*self) }
    fn kind() -> (kind: EventKind) { EventKind::EntitySpawn }
    fn to_any(&self) -> (event: AnyGameEvent<X>) {
        AnyGameEvent::EntitySpawn(EntitySpawnEvent {
            entity_id: self.entity_id,
            job_id: self.job_id,
            position: self.position,
        })
    }
}

impl<X> GameEvent<X> for EntityDespawnEvent {
    open spec fn spec_kind() -> EventKind { EventKind::EntityDespawn }
    open spec fn spec_wrap(&self) -> AnyGameEvent<X> { AnyGameEvent::EntityDespawn(*self) }
    fn kind() -> (kind: EventKind) { EventKind::EntityDespawn }
    fn to_any(&self) -> (event: AnyGameEvent<X>) {
        AnyGameEvent::EntityDespawn(EntityDespawnEvent { entity_id: self.entity_id })
    }
}


/// Wrapping a game event for the bus keeps the event as it is: each field
/// of the wrapped event is the field of the event that was published or
/// deferred, and the wrapped event has the kind of its type. So a handler is
/// handed the event itself.
pub proof fn law_wrap_keeps_events<X>(
    damage: DamageEvent,
    start: StatusEffectStartEvent,
    end: StatusEffectEndEvent,
    map: MapChangeEvent,
    chat: ChatMessageEvent,
    cast: SkillCastEvent,
    spawn: EntitySpawnEvent,
    despawn: EntityDespawnEvent,
)
    ensures
        <DamageEvent as GameEvent<X>>::spec_wrap(&damage) matches AnyGameEvent::Damage(d) && d.source_entity_id
            == damage.source_entity_id && d.target_entity_id == damage.target_entity_id && d.damage
            == damage.damage && d.is_critical == damage.is_critical,
        <StatusEffectStartEvent as GameEvent<X>>::spec_wrap(&start) matches AnyGameEvent::StatusEffectStart(
            d,
        ) && d.entity_id == start.entity_id && d.effect_id == start.effect_id && d.duration_ms
            == start.duration_ms,
        <StatusEffectEndEvent as GameEvent<X>>::spec_wrap(&end) matches AnyGameEvent::StatusEffectEnd(d)
            && d.entity_id == end.entity_id && d.effect_id == end.effect_id,
        <MapChangeEvent as GameEvent<X>>::spec_wrap(&map) matches AnyGameEvent::MapChange(d) && d.map_name@
            == map.map_name@,
        <ChatMessageEvent as GameEvent<X>>::spec_wrap(&chat) matches AnyGameEvent::ChatMessage(d) && d.sender@
            == chat.sender@ && d.message@ == chat.message@ && d.channel == chat.channel,
        <SkillCastEvent as GameEvent<X>>::spec_wrap(&cast) matches AnyGameEvent::SkillCast(d)
            && d.caster_entity_id == cast.caster_entity_id && d.skill_id == cast.skill_id && d.skill_level
            == cast.skill_level,
        <EntitySpawnEvent as GameEvent<X>>::spec_wrap(&spawn) matches AnyGameEvent::EntitySpawn(d) && d.entity_id
            == spawn.entity_id && d.job_id == spawn.job_id && d.position@ == spawn.position@,
        <EntityDespawnEvent as GameEvent<X>>::spec_wrap(&despawn) matches AnyGameEvent::EntityDespawn(d)
            && d.entity_id == despawn.entity_id,
        <DamageEvent as GameEvent<X>>::spec_wrap(&damage).spec_kind() == <DamageEvent as GameEvent<X>>::spec_kind(),
        <StatusEffectStartEvent as GameEvent<X>>::spec_wrap(&start).spec_kind() == <StatusEffectStartEvent as GameEvent<X>>::spec_kind(),
        <StatusEffectEndEvent as GameEvent<X>>::spec_wrap(&end).spec_kind() == <StatusEffectEndEvent as GameEvent<X>>::spec_kind(),
        <MapChangeEvent as GameEvent<X>>::spec_wrap(&map).spec_kind() == <MapChangeEvent as GameEvent<X>>::spec_kind(),
        <ChatMessageEvent as GameEvent<X>>::spec_wrap(&chat).spec_kind() == <ChatMessageEvent as GameEvent<X>>::spec_kind(),
        <SkillCastEvent as GameEvent<X>>::spec_wrap(&cast).spec_kind() == <SkillCastEvent as GameEvent<X>>::spec_kind(),
        <EntitySpawnEvent as GameEvent<X>>::spec_wrap(&spawn).spec_kind() == <EntitySpawnEvent as GameEvent<X>>::spec_kind(),
        <EntityDespawnEvent as GameEvent<X>>::spec_wrap(&despawn).spec_kind() == <EntityDespawnEvent as GameEvent<X>>::spec_kind(),
{
}

/// A registered handler together with the kind of event it listens to.
pub struct HandlerEntry<H> {
    pub kind: EventKind,
    pub id: usize,
    pub handler: H,
}

/// Handle returned when subscribing. Used to unsubscribe later.
#[derive(Clone, Copy, Debug, PartialEq, Eq, Structural)]
pub struct SubscriptionId {
    pub kind: EventKind,
    pub handler_id: usize,
}

/// Whether a handler entry is the one a subscription handle refers to.
pub open spec fn is_subscription<H>(entry: HandlerEntry<H>, subscription: SubscriptionId) -> bool {
    entry.kind == subscription.kind && entry.id == subscription.handler_id
}

/// The positions, in subscription order, of the first `n` entries that
/// listen to `kind`.
pub open spec fn kind_positions<H>(entries: Seq<HandlerEntry<H>>, kind: EventKind, n: int) -> Seq<int>
    decreases n,
{
    if n <= 0 {
        Seq::empty()
    } else if entries[n - 1].kind == kind {
        kind_positions(entries, kind, n - 1).push(n - 1)
    } else {
        kind_positions(entries, kind, n - 1)
    }
}

/// Whether `results` are what calling `invoke` with each handler subscribed
/// to the kind of `event`, in subscription order, returned.
pub open spec fn delivered<H, X, R, F: Fn(&H, &AnyGameEvent<X>) -> R>(
    entries: Seq<HandlerEntry<H>>,
    event: AnyGameEvent<X>,
    results: Seq<R>,
    invoke: F,
) -> bool {
    let targets = handlers_of_kind(entries, event.spec_kind());
    &&& results.len() == targets.len()
    &&& forall|k: int|
        0 <= k < results.len() ==> call_ensures(
            invoke,
            (&entries[targets[k]].handler, &event),
            #[trigger] results[k],
        )
}

/// Every position listed among the first `n` entries lies below `n` and
/// refers to an entry of the given kind.
pub proof fn lemma_kind_positions_bounded<H>(entries: Seq<HandlerEntry<H>>, kind: EventKind, n: int)
    requires
        0 <= n <= entries.len(),
    ensures
        forall|k: int| 0 <= k < kind_positions(entries, kind, n).len() ==> {
            let p = #[trigger] kind_positions(entries, kind, n)[k];
            0 <= p < n && entries[p].kind == kind
        },
    decreases n,
{
    if n > 0 {
        lemma_kind_positions_bounded(entries, kind, n - 1);
    }
}

/// The positions, in subscription order, of all entries that listen to `kind`.
pub open spec fn handlers_of_kind<H>(entries: Seq<HandlerEntry<H>>, kind: EventKind) -> Seq<int> {
    kind_positions(entries, kind, entries.len() as int)
}

/// Subscribing a handler raises the number of subscribers of its kind by one
/// and leaves the subscribers of every other kind as they were.
pub proof fn law_subscribe_counts<H>(entries: Seq<HandlerEntry<H>>, entry: HandlerEntry<H>, kind: EventKind)
    ensures
        handlers_of_kind(entries.push(entry), kind).len() == handlers_of_kind(entries, kind).len() + if entry.kind
            == kind {
            1int
        } else {
            0int
        },
{
    lemma_kind_positions_prefix(entries.push(entry), entries, kind, entries.len() as int);
}

/// A new subscriber is the last to be called for its kind, after the
/// earlier subscribers in their order.
pub proof fn law_new_subscriber_called_last<H>(entries: Seq<HandlerEntry<H>>, entry: HandlerEntry<H>)
    ensures
        ({
            let before = handlers_of_kind(entries, entry.kind);
            let after = handlers_of_kind(entries.push(entry), entry.kind);
            &&& after.len() == before.len() + 1
            &&& after[after.len() - 1] == entries.len()
            &&& forall|k: int| 0 <= k < before.len() ==> after[k] == before[k]
        }),
{
    lemma_kind_positions_prefix(entries.push(entry), entries, entry.kind, entries.len() as int);
}

/// The positions among the first `n` entries only depend on those entries.
pub proof fn lemma_kind_positions_prefix<H>(a: Seq<HandlerEntry<H>>, b: Seq<HandlerEntry<H>>, kind: EventKind, n: int)
    requires
        0 <= n <= a.len(),
        n <= b.len(),
        forall|i: int| 0 <= i < n ==> a[i] == b[i],
    ensures
        kind_positions(a, kind, n) == kind_positions(b, kind, n),
    decreases n,
{
    if n > 0 {
        lemma_kind_positions_prefix(a, b, kind, n - 1);
    }
}

/// Whether some entry is the subscription that the handle refers to.
pub open spec fn is_subscribed<H>(entries: Seq<HandlerEntry<H>>, subscription: SubscriptionId) -> bool {
    exists|i: int| 0 <= i < entries.len() && #[trigger] is_subscription(entries[i], subscription)
}

/// The entries without the one that the handle refers to (unchanged where
/// there is none).
pub open spec fn without_subscription<H>(entries: Seq<HandlerEntry<H>>, subscription: SubscriptionId) -> Seq<
    HandlerEntry<H>,
> {
    if is_subscribed(entries, subscription) {
        entries.remove(
            choose|i: int| 0 <= i < entries.len() && #[trigger] is_subscription(entries[i], subscription),
        )
    } else {
        entries
    }
}

/// On entries with increasing ids, at most one entry is the subscription
/// that a handle refers to.
pub proof fn lemma_subscription_unique<H>(entries: Seq<HandlerEntry<H>>, next_id: int, subscription: SubscriptionId, i: int, j: int)
    requires
        ids_well_formed(entries, next_id),
        0 <= i < entries.len(),
        0 <= j < entries.len(),
        is_subscription(entries[i], subscription),
        is_subscription(entries[j], subscription),
    ensures
        i == j,
{
    if i < j {
        assert(entries[i].id < entries[j].id);
    } else if j < i {
        assert(entries[j].id < entries[i].id);
    }
}

/// Removing an entry keeps the ids increasing and below the next id.
pub proof fn lemma_remove_keeps_ids<H>(entries: Seq<HandlerEntry<H>>, next_id: int, index: int)
    requires
        ids_well_formed(entries, next_id),
        0 <= index < entries.len(),
    ensures
        ids_well_formed(entries.remove(index), next_id),
{
    let removed = entries.remove(index);
    assert forall|a: int, b: int| 0 <= a < b < removed.len() implies removed[a].id < removed[b].id by {
        if a < index {
            if b < index {
            } else {
                assert(removed[b] == entries[b + 1]);
            }
        } else {
            assert(removed[a] == entries[a + 1]);
            assert(removed[b] == entries[b + 1]);
        }
    }
    assert forall|a: int| 0 <= a < removed.len() implies removed[a].id < next_id by {
        if a >= index {
            assert(removed[a] == entries[a + 1]);
        }
    }
}

/// The entry that a handle refers to is the one at `index`, where it is
/// there: unsubscribing removes exactly that entry.
pub proof fn lemma_without_subscription_at<H>(entries: Seq<HandlerEntry<H>>, next_id: int, subscription: SubscriptionId, index: int)
    requires
        ids_well_formed(entries, next_id),
        0 <= index < entries.len(),
        is_subscription(entries[index], subscription),
    ensures
        is_subscribed(entries, subscription),
        without_subscription(entries, subscription) == entries.remove(index),
{
    let chosen = choose|i: int| 0 <= i < entries.len() && #[trigger] is_subscription(entries[i], subscription);
    lemma_subscription_unique(entries, next_id, subscription, chosen, index);
}

/// Unsubscribing with the handle that a subscription just returned removes
/// exactly that handler again, and so restores the handlers as they were
/// (and with them every subscriber count).
pub proof fn law_unsubscribe_undoes_subscribe<H>(
    entries: Seq<HandlerEntry<H>>,
    next_id: int,
    kind: EventKind,
    handler: H,
)
    requires
        ids_well_formed(entries, next_id),
        0 <= next_id <= usize::MAX,
    ensures
        ({
            let subscribed = entries.push(HandlerEntry { kind, id: next_id as usize, handler });
            without_subscription(subscribed, SubscriptionId { kind, handler_id: next_id as usize }) == entries
        }),
{
    let entry = HandlerEntry { kind, id: next_id as usize, handler };
    let subscribed = entries.push(entry);
    let subscription = SubscriptionId { kind, handler_id: next_id as usize };
    assert forall|i: int, j: int| 0 <= i < j < subscribed.len() implies subscribed[i].id < subscribed[j].id by {
        if j < entries.len() {
            assert(subscribed[i] == entries[i] && subscribed[j] == entries[j]);
        } else {
            assert(subscribed[i] == entries[i]);
        }
    }
    assert forall|i: int| 0 <= i < subscribed.len() implies subscribed[i].id < next_id + 1 by {
        if i < entries.len() {
            assert(subscribed[i] == entries[i]);
        }
    }
    lemma_without_subscription_at(subscribed, next_id + 1, subscription, entries.len() as int);
    assert(subscribed.remove(entries.len() as int) =~= entries);
}

/// After unsubscribing, no entry is that subscription any more, so a
/// second unsubscribe with the same handle changes nothing.
pub proof fn law_unsubscribe_idempotent<H>(entries: Seq<HandlerEntry<H>>, next_id: int, subscription: SubscriptionId)
    requires
        ids_well_formed(entries, next_id),
    ensures
        ids_well_formed(without_subscription(entries, subscription), next_id),
        !is_subscribed(without_subscription(entries, subscription), subscription),
        without_subscription(without_subscription(entries, subscription), subscription)
            == without_subscription(entries, subscription),
{
    if is_subscribed(entries, subscription) {
        let index = choose|i: int| 0 <= i < entries.len() && #[trigger] is_subscription(entries[i], subscription);
        let removed = entries.remove(index);
        lemma_remove_keeps_ids(entries, next_id, index);
        if is_subscribed(removed, subscription) {
            let j = choose|i: int| 0 <= i < removed.len() && #[trigger] is_subscription(removed[i], subscription);
            if j < index {
                assert(removed[j] == entries[j]);
                lemma_subscription_unique(entries, next_id, subscription, j, index);
            } else {
                assert(removed[j] == entries[j + 1]);
                lemma_subscription_unique(entries, next_id, subscription, j + 1, index);
            }
        }
    }
}

/// Removing the entry at `index` lowers the number of entries of its kind
/// by one and keeps that of every other kind.
pub proof fn lemma_kind_count_remove<H>(entries: Seq<HandlerEntry<H>>, index: int, kind: EventKind, n: int)
    requires
        0 <= index <= n < entries.len(),
    ensures
        kind_positions(entries.remove(index), kind, n).len() == kind_positions(entries, kind, n + 1).len()
            - (if entries[index].kind == kind { 1int } else { 0int }),
    decreases n,
{
    let removed = entries.remove(index);
    if n == index {
        lemma_kind_positions_prefix(removed, entries, kind, n);
    } else {
        lemma_kind_count_remove(entries, index, kind, n - 1);
        assert(removed[n - 1] == entries[n]);
    }
}

/// Unsubscribing lowers the number of subscribers of the handle's kind by
/// one where the handle was subscribed, and keeps every other count.
pub proof fn law_unsubscribe_counts<H>(entries: Seq<HandlerEntry<H>>, subscription: SubscriptionId, kind: EventKind)
    ensures
        handlers_of_kind(without_subscription(entries, subscription), kind).len() == handlers_of_kind(entries, kind).len()
            - (if is_subscribed(entries, subscription) && subscription.kind == kind { 1int } else { 0int }),
{
    if is_subscribed(entries, subscription) {
        let index = choose|i: int| 0 <= i < entries.len() && #[trigger] is_subscription(entries[i], subscription);
        lemma_kind_count_remove(entries, index, kind, entries.len() - 1);
    }
}

/// The handle that refers to `entry`.
pub open spec fn subscription_of<H>(entry: HandlerEntry<H>) -> SubscriptionId {
    SubscriptionId { kind: entry.kind, handler_id: entry.id }
}

/// A call on the bus, as far as its handlers are concerned: a subscription
/// that returned a handle, an unsubscribe with a handle, or any other call
/// (publishing, deferring, flushing, counting).
pub enum BusCall {
    Subscribed(SubscriptionId),
    Unsubscribed(SubscriptionId),
    Other,
}

/// Whether `call` takes the entries `before` to `after`.
pub open spec fn bus_step<H>(before: Seq<HandlerEntry<H>>, call: BusCall, after: Seq<HandlerEntry<H>>) -> bool {
    match call {
        BusCall::Subscribed(subscription) => {
            &&& after.len() == before.len() + 1
            &&& after.drop_last() == before
            &&& subscription_of(after.last()) == subscription
        },
        BusCall::Unsubscribed(subscription) => after == without_subscription(before, subscription),
        BusCall::Other => after == before,
    }
}

/// `handles` without `subscription` (unchanged where it is not there).
pub open spec fn without_handle(handles: Seq<SubscriptionId>, subscription: SubscriptionId) -> Seq<SubscriptionId> {
    if exists|i: int| 0 <= i < handles.len() && handles[i] == subscription {
        handles.remove(choose|i: int| 0 <= i < handles.len() && handles[i] == subscription)
    } else {
        handles
    }
}

/// The handles that `calls` returned by subscribing and did not since pass
/// to unsubscribe, in the order they were returned.
pub open spec fn live_subscriptions(calls: Seq<BusCall>) -> Seq<SubscriptionId>
    decreases calls.len(),
{
    if calls.len() == 0 {
        Seq::empty()
    } else {
        let before = live_subscriptions(calls.drop_last());
        match calls.last() {
            BusCall::Subscribed(subscription) => before.push(subscription),
            BusCall::Unsubscribed(subscription) => without_handle(before, subscription),
            BusCall::Other => before,
        }
    }
}

/// The number of `handles` of `kind`.
pub open spec fn count_of_kind(handles: Seq<SubscriptionId>, kind: EventKind) -> nat
    decreases handles.len(),
{
    if handles.len() == 0 {
        0
    } else {
        count_of_kind(handles.drop_last(), kind) + if handles.last().kind == kind {
            1nat
        } else {
            0nat
        }
    }
}

/// The number of entries of a kind is the number of their handles of that
/// kind.
proof fn lemma_count_of_kind<H>(entries: Seq<HandlerEntry<H>>, kind: EventKind, n: int)
    requires
        0 <= n <= entries.len(),
    ensures
        kind_positions(entries, kind, n).len() == count_of_kind(
            entries.take(n).map_values(|e: HandlerEntry<H>| subscription_of(e)),
            kind,
        ),
    decreases n,
{
    if n > 0 {
        lemma_count_of_kind(entries, kind, n - 1);
        assert(entries.take(n).map_values(|e: HandlerEntry<H>| subscription_of(e)).drop_last()
            =~= entries.take(n - 1).map_values(|e: HandlerEntry<H>| subscription_of(e)));
    }
}

/// One call keeps the entries' handles equal to the live subscriptions.
proof fn lemma_bus_step_handles<H>(
    before: Seq<HandlerEntry<H>>,
    next_id: int,
    call: BusCall,
    after: Seq<HandlerEntry<H>>,
    live: Seq<SubscriptionId>,
)
    requires
        ids_well_formed(before, next_id),
        bus_step(before, call, after),
        before.map_values(|e: HandlerEntry<H>| subscription_of(e)) == live,
    ensures
        after.map_values(|e: HandlerEntry<H>| subscription_of(e)) == match call {
            BusCall::Subscribed(subscription) => live.push(subscription),
            BusCall::Unsubscribed(subscription) => without_handle(live, subscription),
            BusCall::Other => live,
        },
{
    let handles = |e: HandlerEntry<H>| subscription_of(e);
    match call {
        BusCall::Subscribed(subscription) => {
            assert(after =~= before.push(after.last()));
            assert(after.map_values(handles) =~= live.push(subscription));
        },
        BusCall::Unsubscribed(subscription) => {
            if is_subscribed(before, subscription) {
                let i = choose|i: int| 0 <= i < before.len() && #[trigger] is_subscription(before[i], subscription);
                assert(live[i] == subscription);
                let j = choose|j: int| 0 <= j < live.len() && live[j] == subscription;
                assert(is_subscription(before[j], subscription));
                lemma_subscription_unique(before, next_id, subscription, i, j);
                assert(after.map_values(handles) =~= live.remove(i));
            } else {
                assert forall|j: int| 0 <= j < live.len() implies live[j] != subscription by {
                    if live[j] == subscription {
                        assert(is_subscription(before[j], subscription));
                    }
                }
            }
        },
        BusCall::Other => {},
    }
}

/// The handlers of a bus are exactly the live subscriptions: those that
/// subscribing returned and that were not since passed to unsubscribe, in
/// the order they were returned, each once. So the number of subscribers of
/// a kind is the number of live subscriptions of that kind. `buses` are the
/// bus when new and after each of `calls`.
pub proof fn law_subscriber_count_is_live<H, X>(buses: Seq<EventBus<H, X>>, calls: Seq<BusCall>)
    requires
        buses.len() == calls.len() + 1,
        buses[0].entries() == Seq::<HandlerEntry<H>>::empty(),
        forall|k: int| 0 <= k < buses.len() ==> (#[trigger] buses[k]).wf(),
        forall|k: int| 0 <= k < calls.len() ==> bus_step(#[trigger] buses[k].entries(), calls[k], buses[k + 1].entries()),
    ensures
        buses.last().entries().map_values(|e: HandlerEntry<H>| subscription_of(e)) == live_subscriptions(calls),
        forall|kind: EventKind| #[trigger] handlers_of_kind(buses.last().entries(), kind).len()
            == count_of_kind(live_subscriptions(calls), kind),
        forall|i: int, j: int|
            0 <= i < j < live_subscriptions(calls).len() ==> live_subscriptions(calls)[i] != live_subscriptions(calls)[j],
{
    lemma_live_prefix(buses, calls, calls.len() as int);
    assert(calls.take(calls.len() as int) =~= calls);
    let last = buses.last();
    assert(last == buses[calls.len() as int]);
    assert forall|kind: EventKind| #[trigger] handlers_of_kind(last.entries(), kind).len()
        == count_of_kind(live_subscriptions(calls), kind) by {
        lemma_count_of_kind(last.entries(), kind, last.entries().len() as int);
        assert(last.entries().take(last.entries().len() as int) =~= last.entries());
    }
    let live = live_subscriptions(calls);
    assert forall|i: int, j: int| 0 <= i < j < live.len() implies live[i] != live[j] by {
        assert(live[i] == subscription_of(last.entries()[i]));
        assert(live[j] == subscription_of(last.entries()[j]));
        assert(last.entries()[i].id < last.entries()[j].id);
    }
}

proof fn lemma_live_prefix<H, X>(buses: Seq<EventBus<H, X>>, calls: Seq<BusCall>, n: int)
    requires
        buses.len() == calls.len() + 1,
        0 <= n <= calls.len(),
        buses[0].entries() == Seq::<HandlerEntry<H>>::empty(),
        forall|k: int| 0 <= k < buses.len() ==> (#[trigger] buses[k]).wf(),
        forall|k: int| 0 <= k < calls.len() ==> bus_step(#[trigger] buses[k].entries(), calls[k], buses[k + 1].entries()),
    ensures
        buses[n].entries().map_values(|e: HandlerEntry<H>| subscription_of(e)) == live_subscriptions(calls.take(n)),
    decreases n,
{
    if n == 0 {
        assert(buses[0].entries().map_values(|e: HandlerEntry<H>| subscription_of(e)) =~= Seq::<SubscriptionId>::empty());
    } else {
        lemma_live_prefix(buses, calls, n - 1);
        let before = buses[n - 1];
        assert(before.wf());
        assert(bus_step(before.entries(), calls[n - 1], buses[n].entries()));
        lemma_bus_step_handles(
            before.entries(),
            before.next_handler_id() as int,
            calls[n - 1],
            buses[n].entries(),
            live_subscriptions(calls.take(n - 1)),
        );
        assert(calls.take(n).drop_last() =~= calls.take(n - 1));
        assert(calls.take(n).last() == calls[n - 1]);
    }
}

/// Handler ids strictly increase along the entries and stay below `next_id`.
pub open spec fn ids_well_formed<H>(entries: Seq<HandlerEntry<H>>, next_id: int) -> bool {
    &&& forall|i: int, j: int| 0 <= i < j < entries.len() ==> entries[i].id < entries[j].id
    &&& forall|i: int| 0 <= i < entries.len() ==> entries[i].id < next_id
}

/// A lightweight publish/subscribe event bus for decoupling game systems.
///
/// Systems subscribe to one kind of event and receive callbacks when events
/// of that kind are published or flushed from the deferred queue.
pub struct EventBus<H, X> {
    handlers: Vec<HandlerEntry<H>>,
    next_id: usize,
    deferred: Vec<AnyGameEvent<X>>,
}

impl<H, X> Default for EventBus<H, X> {
    /// An empty event bus, as [`EventBus::new`] makes it.
    fn default() -> (bus: Self)
        ensures
            bus.wf(),
            bus.entries() == Seq::<HandlerEntry<H>>::empty(),
            bus.next_handler_id() == 0,
            bus.deferred_events() == Seq::<AnyGameEvent<X>>::empty(),
    {
        Self::new()
    }
}

impl<H, X> EventBus<H, X> {
    /// The registered handlers in subscription order.
    pub closed spec fn entries(&self) -> Seq<HandlerEntry<H>> {
        self.handlers@
    }

    /// The id the next subscription will receive.
    pub closed spec fn next_handler_id(&self) -> nat {
        self.next_id as nat
    }

    /// The events waiting in the deferred queue, oldest first.
    pub closed spec fn deferred_events(&self) -> Seq<AnyGameEvent<X>> {
        self.deferred@
    }

    /// Handler ids are unique (strictly increasing) and below the next id.
    pub closed spec fn wf(&self) -> bool {
        ids_well_formed(self.handlers@, self.next_id as int)
    }

    /// On a well-formed bus the handler ids increase along the entries and
    /// stay below the next id.
    pub proof fn lemma_wf_ids(&self)
        requires
            self.wf(),
        ensures
            ids_well_formed(self.entries(), self.next_handler_id() as int),
    {
    }

    /// Creates an empty event bus.
    pub fn new() -> (bus: Self)
        ensures
            bus.wf(),
            bus.entries() == Seq::<HandlerEntry<H>>::empty(),
            bus.next_handler_id() == 0,
            bus.deferred_events() == Seq::<AnyGameEvent<X>>::empty(),
    {
        Self { handlers: Vec::new(), next_id: 0, deferred: Vec::new() }
    }

    /// Whether another handler id can be handed out, which
    /// [`subscribe`](Self::subscribe) needs.
    pub fn can_subscribe(&self) -> (can: bool)
        ensures
            can == (self.next_handler_id() < usize::MAX),
    {
        self.next_id < usize::MAX
    }

    /// Subscribe `handler` to events of type `E`. Returns a handle that can
    /// be used to unsubscribe the handler again.
    pub fn subscribe<E: GameEvent<X>>(&mut self, handler: H) -> (subscription: SubscriptionId)
        requires
            old(self).wf(),
            old(self).next_handler_id() < usize::MAX,
        ensures
            final(self).wf(),
            subscription.kind == E::spec_kind(),
            subscription.handler_id == old(self).next_handler_id(),
            final(self).next_handler_id() == old(self).next_handler_id() + 1,
            final(self).entries() == old(self).entries().push(
                HandlerEntry { kind: E::spec_kind(), id: subscription.handler_id, handler },
            ),
            bus_step(old(self).entries(), BusCall::Subscribed(subscription), final(self).entries()),
            final(self).deferred_events() == old(self).deferred_events(),
    {
        let id = self.next_id;
        let kind = E::kind();
        let ghost before = self.handlers@;
        self.handlers.push(HandlerEntry { kind, id, handler });
        self.next_id = id + 1;
        assert(self.handlers@.drop_last() =~= before);
        SubscriptionId { kind, handler_id: id }
    }

    /// Unsubscribe a previously registered handler. Unknown handles are
    /// ignored.
    pub fn unsubscribe(&mut self, subscription: SubscriptionId)
        requires
            old(self).wf(),
        ensures
            final(self).wf(),
            final(self).next_handler_id() == old(self).next_handler_id(),
            final(self).deferred_events() == old(self).deferred_events(),
            final(self).entries() == without_subscription(old(self).entries(), subscription),
            bus_step(old(self).entries(), BusCall::Unsubscribed(subscription), final(self).entries()),
            !is_subscribed(final(self).entries(), subscription),
    {
        let mut index: usize = 0;
        while index < self.handlers.len()
            invariant
                0 <= index <= self.handlers.len(),
                self.wf(),
                *self == *old(self),
                forall|j: int| 0 <= j < index ==> !is_subscription(self.handlers@[j], subscription),
            decreases self.handlers.len() - index,
        {
            if self.handlers[index].kind == subscription.kind && self.handlers[index].id == subscription.handler_id {
                let ghost before = self.handlers@;
                let _removed = self.handlers.remove(index);
                proof {
                    lemma_without_subscription_at(before, self.next_id as int, subscription, index as int);
                    lemma_remove_keeps_ids(before, self.next_id as int, index as int);
                    law_unsubscribe_idempotent(before, self.next_id as int, subscription);
                }
                return;
            }
            index += 1;
        }
        proof {
            assert(!is_subscribed(self.handlers@, subscription));
        }
    }

    /// Positions of the handlers subscribed to `kind`, in subscription order.
    pub fn handler_positions(&self, kind: EventKind) -> (positions: Vec<usize>)
        ensures
            positions@.len() == handlers_of_kind(self.entries(), kind).len(),
            forall|i: int| 0 <= i < positions@.len() ==> positions@[i] as int == handlers_of_kind(self.entries(), kind)[i],
            forall|i: int| 0 <= i < positions@.len() ==> positions@[i] < self.entries().len(),
    {
        let mut positions: Vec<usize> = Vec::new();
        let mut index: usize = 0;
        while index < self.handlers.len()
            invariant
                0 <= index <= self.handlers.len(),
                positions@.len() == kind_positions(self.handlers@, kind, index as int).len(),
                forall|i: int| 0 <= i < positions@.len() ==> positions@[i] as int == kind_positions(self.handlers@, kind, index as int)[i],
            decreases self.handlers.len() - index,
        {
            if self.handlers[index].kind == kind {
                positions.push(index);
            }
            index += 1;
        }
        proof {
            lemma_kind_positions_bounded(self.handlers@, kind, self.handlers@.len() as int);
            assert forall|i: int| 0 <= i < positions@.len() implies positions@[i] < self.handlers@.len() by {
                assert(positions@[i] as int == kind_positions(self.handlers@, kind, self.handlers@.len() as int)[i]);
            }
        }
        positions
    }

    /// Publish an event immediately: `invoke` is called with every handler
    /// subscribed to the event's kind, in subscription order; what each
    /// call returned is returned in that order.
    pub fn publish<E: GameEvent<X>, R, F: Fn(&H, &AnyGameEvent<X>) -> R>(&self, event: &E, invoke: &F) -> (results: Vec<R>)
        requires
            forall|h: &H, e: &AnyGameEvent<X>| call_requires(*invoke, (h, e)),
        ensures
            delivered(self.entries(), event.spec_wrap(), results@, *invoke),
    {
        let any = event.to_any();
        self.dispatch(&any, invoke)
    }

    fn dispatch<R, F: Fn(&H, &AnyGameEvent<X>) -> R>(&self, event: &AnyGameEvent<X>, invoke: &F) -> (results: Vec<R>)
        requires
            forall|h: &H, e: &AnyGameEvent<X>| call_requires(*invoke, (h, e)),
        ensures
            delivered(self.entries(), *event, results@, *invoke),
    {
        let positions = self.handler_positions(event.kind());
        let ghost targets = handlers_of_kind(self.entries(), event.spec_kind());
        let mut results: Vec<R> = Vec::new();
        let mut i: usize = 0;
        while i < positions.len()
            invariant
                0 <= i <= positions@.len(),
                positions@.len() == targets.len(),
                targets == handlers_of_kind(self.entries(), event.spec_kind()),
                forall|k: int| 0 <= k < positions@.len() ==> positions@[k] as int == targets[k],
                forall|k: int| 0 <= k < positions@.len() ==> positions@[k] < self.handlers@.len(),
                forall|h: &H, e: &AnyGameEvent<X>| call_requires(*invoke, (h, e)),
                results@.len() == i,
                forall|k: int|
                    0 <= k < i ==> call_ensures(
                        *invoke,
                        (&self.entries()[targets[k]].handler, event),
                        #[trigger] results@[k],
                    ),
            decreases positions.len() - i,
        {
            let position = positions[i];
            let result = invoke(&self.handlers[position].handler, event);
            results.push(result);
            i += 1;
        }
        results
    }

    /// Queue an event for deferred processing.
    pub fn defer<E: GameEvent<X>>(&mut self, event: E)
        requires
            old(self).wf(),
        ensures
            final(self).wf(),
            final(self).entries() == old(self).entries(),
            final(self).next_handler_id() == old(self).next_handler_id(),
            final(self).deferred_events() == old(self).deferred_events().push(event.spec_wrap()),
    {
        let any = event.to_any();
        self.deferred.push(any);
    }

    /// Process all deferred events in the order they were queued, calling
    /// `invoke` with every handler subscribed to each event's kind. The
    /// deferred queue is empty afterwards; for each processed event, in
    /// order, the event and what the calls for it returned are returned.
    pub fn flush_deferred<R, F: Fn(&H, &AnyGameEvent<X>) -> R>(&mut self, invoke: &F) -> (flushed: Vec<(AnyGameEvent<X>, Vec<R>)>)
        requires
            old(self).wf(),
            forall|h: &H, e: &AnyGameEvent<X>| call_requires(*invoke, (h, e)),
        ensures
            final(self).wf(),
            flushed@.len() == old(self).deferred_events().len(),
            forall|i: int|
                0 <= i < flushed@.len() ==> (#[trigger] flushed@[i]).0 == old(self).deferred_events()[i]
                    && delivered(old(self).entries(), flushed@[i].0, flushed@[i].1@, *invoke),
            final(self).deferred_events() == Seq::<AnyGameEvent<X>>::empty(),
            final(self).entries() == old(self).entries(),
            final(self).next_handler_id() == old(self).next_handler_id(),
    {
        let mut events: Vec<AnyGameEvent<X>> = Vec::new();
        std::mem::swap(&mut events, &mut self.deferred);
        let ghost queued = events@;
        let mut flushed: Vec<(AnyGameEvent<X>, Vec<R>)> = Vec::new();
        while events.len() > 0
            invariant
                self.wf(),
                self.entries() == old(self).entries(),
                self.next_handler_id() == old(self).next_handler_id(),
                self.deferred_events() == Seq::<AnyGameEvent<X>>::empty(),
                queued == old(self).deferred_events(),
                flushed@.len() + events@.len() == queued.len(),
                events@ == queued.subrange(flushed@.len() as int, queued.len() as int),
                forall|h: &H, e: &AnyGameEvent<X>| call_requires(*invoke, (h, e)),
                forall|i: int|
                    0 <= i < flushed@.len() ==> (#[trigger] flushed@[i]).0 == queued[i] && delivered(
                        old(self).entries(),
                        flushed@[i].0,
                        flushed@[i].1@,
                        *invoke,
                    ),
            decreases events@.len(),
        {
            let event = events.remove(0);
            let results = self.dispatch(&event, invoke);
            flushed.push((event, results));
            assert(events@ =~= queued.subrange(flushed@.len() as int, queued.len() as int));
        }
        flushed
    }

    /// Returns the number of subscribers for events of type `E`.
    pub fn subscriber_count<E: GameEvent<X>>(&self) -> (count: usize)
        ensures
            count == handlers_of_kind(self.entries(), E::spec_kind()).len(),
    {
        let positions = self.handler_positions(E::kind());
        positions.len()
    }
}

} // verus!
