use korangar::system::event_bus::{
    AnyGameEvent, GameEvent, ChatChannel, ChatMessageEvent, DamageEvent, EntityDespawnEvent, EventBus,
    EventKind, MapChangeEvent, SkillCastEvent,
};

/// An event type of the program's own, beyond the game events.
#[derive(Clone, Debug, PartialEq)]
struct Beacon {
    strength: u8,
}

const BEACON_KIND: u64 = 1;

impl GameEvent<Beacon> for Beacon {
    fn spec_kind() -> EventKind {
        EventKind::Custom(BEACON_KIND)
    }

    fn spec_wrap(&self) -> AnyGameEvent<Beacon> {
        self.to_any()
    }

    fn kind() -> EventKind {
        EventKind::Custom(BEACON_KIND)
    }

    fn to_any(&self) -> AnyGameEvent<Beacon> {
        AnyGameEvent::Custom { kind: BEACON_KIND, event: self.clone() }
    }
}

fn damage(amount: u32) -> DamageEvent {
    DamageEvent { source_entity_id: 1, target_entity_id: 2, damage: amount, is_critical: false }
}

fn invoke(handler: &u32, event: &AnyGameEvent<Beacon>) -> (u32, EventKind) {
    (*handler, event.kind())
}

#[test]
fn subscribe_increases_subscriber_count() {
    let mut bus: EventBus<u32, Beacon> = EventBus::default();
    assert_eq!(bus.subscriber_count::<DamageEvent>(), 0);
    bus.subscribe::<DamageEvent>(10);
    bus.subscribe::<DamageEvent>(11);
    bus.subscribe::<MapChangeEvent>(12);
    assert_eq!(bus.subscriber_count::<DamageEvent>(), 2);
    assert_eq!(bus.subscriber_count::<MapChangeEvent>(), 1);
    assert_eq!(bus.subscriber_count::<SkillCastEvent>(), 0);
}

#[test]
fn unsubscribe_undoes_subscribe() {
    let mut bus: EventBus<u32, Beacon> = EventBus::new();
    bus.subscribe::<DamageEvent>(10);
    let id = bus.subscribe::<DamageEvent>(11);
    assert_eq!(bus.subscriber_count::<DamageEvent>(), 2);
    bus.unsubscribe(id);
    assert_eq!(bus.subscriber_count::<DamageEvent>(), 1);
    let results = bus.publish(&damage(5), &invoke);
    assert_eq!(results, vec![(10, EventKind::Damage)]);
    // A second unsubscribe of the same id changes nothing.
    bus.unsubscribe(id);
    assert_eq!(bus.subscriber_count::<DamageEvent>(), 1);
}

#[test]
fn publish_reaches_only_handlers_of_the_kind_in_order() {
    let mut bus: EventBus<u32, Beacon> = EventBus::new();
    bus.subscribe::<DamageEvent>(1);
    bus.subscribe::<MapChangeEvent>(2);
    bus.subscribe::<DamageEvent>(3);
    let results = bus.publish(&damage(7), &invoke);
    assert_eq!(results, vec![(1, EventKind::Damage), (3, EventKind::Damage)]);
    let map = MapChangeEvent { map_name: "prontera".to_string() };
    let results = bus.publish(&map, &invoke);
    assert_eq!(results, vec![(2, EventKind::MapChange)]);
}

#[test]
fn publish_without_subscribers_calls_nothing() {
    let bus: EventBus<u32, Beacon> = EventBus::new();
    let results = bus.publish(&EntityDespawnEvent { entity_id: 9 }, &invoke);
    assert!(results.is_empty());
}

#[test]
fn deferred_events_are_flushed_in_order_once() {
    let mut bus: EventBus<u32, Beacon> = EventBus::new();
    bus.subscribe::<DamageEvent>(1);
    bus.subscribe::<ChatMessageEvent>(2);
    bus.defer(damage(3));
    bus.defer(ChatMessageEvent {
        sender: "a".to_string(),
        message: "hi".to_string(),
        channel: ChatChannel::Party,
    });
    bus.defer(damage(4));
    let flushed = bus.flush_deferred(&invoke);
    assert_eq!(flushed.len(), 3);
    assert_eq!(flushed[0].0.kind(), EventKind::Damage);
    assert_eq!(flushed[1].0.kind(), EventKind::ChatMessage);
    assert_eq!(flushed[2].0.kind(), EventKind::Damage);
    match &flushed[0].0 {
        AnyGameEvent::Damage(event) => assert_eq!(event.damage, 3),
        _ => panic!("first deferred event is not the first damage"),
    }
    match &flushed[2].0 {
        AnyGameEvent::Damage(event) => assert_eq!(event.damage, 4),
        _ => panic!("last deferred event is not the second damage"),
    }
    assert_eq!(flushed[0].1, vec![(1, EventKind::Damage)]);
    assert_eq!(flushed[1].1, vec![(2, EventKind::ChatMessage)]);
    let again = bus.flush_deferred(&invoke);
    assert!(again.is_empty());
}

#[test]
fn a_fresh_bus_can_subscribe() {
    let mut bus: EventBus<u32, Beacon> = EventBus::new();
    assert!(bus.can_subscribe());
    let first = bus.subscribe::<DamageEvent>(1);
    let second = bus.subscribe::<DamageEvent>(2);
    assert_ne!(first, second);
    bus.unsubscribe(first);
    bus.unsubscribe(first);
    assert_eq!(bus.subscriber_count::<DamageEvent>(), 1);
    assert!(bus.can_subscribe());
}

#[test]
fn a_program_event_type_reaches_only_its_own_handlers() {
    let mut bus: EventBus<u32, Beacon> = EventBus::new();
    bus.subscribe::<Beacon>(1);
    bus.subscribe::<DamageEvent>(2);
    bus.subscribe::<Beacon>(3);
    assert_eq!(bus.subscriber_count::<Beacon>(), 2);
    let results = bus.publish(&Beacon { strength: 5 }, &invoke);
    assert_eq!(results, vec![(1, EventKind::Custom(BEACON_KIND)), (3, EventKind::Custom(BEACON_KIND))]);
    bus.defer(Beacon { strength: 6 });
    let flushed = bus.flush_deferred(&invoke);
    match &flushed[0].0 {
        AnyGameEvent::Custom { kind, event } => assert_eq!((*kind, event.strength), (BEACON_KIND, 6)),
        _ => panic!("the deferred beacon"),
    }
}
