use msg_generator::builder::GeneratorBuilder;
use msg_generator::slot_generator::{ResolverParams, SlotDuties, ValId};
use msg_generator::{Action, Error, Event, Generator, Message, MsgType};
use std::collections::HashSet;

const A: ValId = 0xA;
const B: ValId = 0xB;

fn registry() -> HashSet<ValId> {
    let mut validators = HashSet::new();
    validators.insert(A);
    validators.insert(B);
    validators
}

fn configured() -> GeneratorBuilder {
    Generator::builder()
        .genesis_time(0)
        .slot_duration(12)
        .validators(registry())
        .resolver_params(ResolverParams { subnet_count: 64, committee_size: 128 })
}

fn generator() -> Generator {
    configured().build().expect("every setting was given")
}

fn slot_100() -> SlotDuties {
    SlotDuties {
        proposer: Some(A),
        aggregates: vec![],
        attestations: vec![(A, 3), (B, 7)],
        sync_committee_aggregates: vec![],
        sync_committee_messages: vec![],
    }
}

fn every_kind() -> SlotDuties {
    SlotDuties {
        proposer: Some(B),
        aggregates: vec![(A, 1), (B, 2)],
        attestations: vec![(B, 5), (A, 4)],
        sync_committee_aggregates: vec![(A, 0)],
        sync_committee_messages: vec![(A, 9), (B, 9), (A, 8)],
    }
}

fn drain(generator: &mut Generator) -> Vec<Message> {
    let mut delivered = Vec::new();
    while let Ok(Action::Deliver(message)) = generator.poll_next(Event::Pull) {
        delivered.push(message);
    }
    delivered
}

#[test]
fn slot_100_is_delivered_in_order_and_then_the_timer_is_asked_for() {
    let mut generator = generator();
    assert_eq!(generator.poll_next(Event::Pull), Ok(Action::InspectTimer));
    assert_eq!(generator.poll_next(Event::NotDue), Ok(Action::Suspend));
    assert_eq!(generator.poll_next(Event::Pull), Ok(Action::InspectTimer));
    assert_eq!(
        generator.poll_next(Event::SlotStarted { slot: 100, duties: slot_100() }),
        Ok(Action::Deliver(Message::BeaconBlock { proposer: A, slot: 100 }))
    );
    assert_eq!(
        generator.poll_next(Event::Pull),
        Ok(Action::Deliver(Message::Attestation { attester: A, subnet: 3, slot: 100 }))
    );
    assert_eq!(
        generator.poll_next(Event::Pull),
        Ok(Action::Deliver(Message::Attestation { attester: B, subnet: 7, slot: 100 }))
    );
    assert_eq!(generator.poll_next(Event::Pull), Ok(Action::InspectTimer));
    assert_eq!(generator.poll_next(Event::NotDue), Ok(Action::Suspend));
}

#[test]
fn kinds_come_in_the_declared_order_and_duties_in_the_resolvers_order() {
    let mut generator = generator();
    generator.queue_slot_msgs(7, &every_kind());
    assert_eq!(generator.queued(), 9);
    assert_eq!(
        drain(&mut generator),
        vec![
            Message::BeaconBlock { proposer: B, slot: 7 },
            Message::AggregateAndProofAttestation { aggregator: A, subnet: 1, slot: 7 },
            Message::AggregateAndProofAttestation { aggregator: B, subnet: 2, slot: 7 },
            Message::Attestation { attester: B, subnet: 5, slot: 7 },
            Message::Attestation { attester: A, subnet: 4, slot: 7 },
            Message::SignedContributionAndProof { validator: A, subnet: 0, slot: 7 },
            Message::SyncCommitteeMessage { validator: A, subnet: 9, slot: 7 },
            Message::SyncCommitteeMessage { validator: B, subnet: 9, slot: 7 },
            Message::SyncCommitteeMessage { validator: A, subnet: 8, slot: 7 },
        ]
    );
    assert_eq!(generator.queued(), 0);
}

#[test]
fn ranks_of_delivered_kinds_never_fall() {
    let mut generator = generator();
    generator.queue_slot_msgs(7, &every_kind());
    let order = MsgType::iter();
    let ranks: Vec<usize> = drain(&mut generator)
        .iter()
        .map(|message| order.iter().position(|kind| *kind == message.kind()).unwrap())
        .collect();
    assert_eq!(ranks, vec![0, 1, 1, 2, 2, 3, 4, 4, 4]);
}

#[test]
fn delivered_messages_are_exactly_the_resolved_duties() {
    let duties = every_kind();
    let mut generator = generator();
    generator.queue_slot_msgs(31, &duties);
    let delivered = drain(&mut generator);
    let distinct: HashSet<Message> = delivered.iter().copied().collect();
    assert_eq!(distinct.len(), delivered.len());
    let mut expected: HashSet<Message> = HashSet::new();
    expected.insert(Message::BeaconBlock { proposer: duties.proposer.unwrap(), slot: 31 });
    for (aggregator, subnet) in duties.aggregates.iter().copied() {
        expected.insert(Message::AggregateAndProofAttestation { aggregator, subnet, slot: 31 });
    }
    for (attester, subnet) in duties.attestations.iter().copied() {
        expected.insert(Message::Attestation { attester, subnet, slot: 31 });
    }
    for (validator, subnet) in duties.sync_committee_aggregates.iter().copied() {
        expected.insert(Message::SignedContributionAndProof { validator, subnet, slot: 31 });
    }
    for (validator, subnet) in duties.sync_committee_messages.iter().copied() {
        expected.insert(Message::SyncCommitteeMessage { validator, subnet, slot: 31 });
    }
    assert_eq!(distinct, expected);
}

#[test]
fn a_duty_that_the_resolver_repeats_is_queued_twice() {
    let mut duties = SlotDuties::none();
    duties.attestations = vec![(A, 3), (A, 3)];
    let mut generator = generator();
    generator.queue_slot_msgs(5, &duties);
    let message = Message::Attestation { attester: A, subnet: 3, slot: 5 };
    assert_eq!(drain(&mut generator), vec![message, message]);
}

#[test]
fn a_slot_without_duties_asks_for_the_timer_again() {
    let mut generator = generator();
    assert_eq!(
        generator.poll_next(Event::SlotStarted { slot: 100, duties: SlotDuties::none() }),
        Ok(Action::InspectTimer)
    );
    assert_eq!(generator.queued(), 0);
    assert_eq!(generator.poll_next(Event::NotDue), Ok(Action::Suspend));
}

#[test]
fn a_boundary_delivers_at_once_whichever_kind_comes_first() {
    let mut duties = SlotDuties::none();
    duties.sync_committee_messages = vec![(B, 2)];
    let mut generator = generator();
    assert_eq!(generator.poll_next(Event::Pull), Ok(Action::InspectTimer));
    assert_eq!(
        generator.poll_next(Event::SlotStarted { slot: 8, duties }),
        Ok(Action::Deliver(Message::SyncCommitteeMessage { validator: B, subnet: 2, slot: 8 }))
    );
}

#[test]
fn skipped_slots_are_never_filled_in() {
    let mut generator = generator();
    generator.poll_next(Event::SlotStarted { slot: 100, duties: slot_100() }).unwrap();
    drain(&mut generator);
    let mut later = SlotDuties::none();
    later.proposer = Some(B);
    later.aggregates = vec![(A, 1)];
    let first = generator.poll_next(Event::SlotStarted { slot: 103, duties: later }).unwrap();
    let mut delivered = vec![];
    if let Action::Deliver(message) = first {
        delivered.push(message);
    }
    delivered.extend(drain(&mut generator));
    assert_eq!(
        delivered,
        vec![
            Message::BeaconBlock { proposer: B, slot: 103 },
            Message::AggregateAndProofAttestation { aggregator: A, subnet: 1, slot: 103 },
        ]
    );
    assert!(delivered.iter().all(|message| message.slot() == 103));
}

#[test]
fn a_new_slot_goes_behind_messages_that_are_still_unread() {
    let mut generator = generator();
    generator.queue_slot_msgs(100, &slot_100());
    let mut next = SlotDuties::none();
    next.proposer = Some(B);
    assert_eq!(
        generator.poll_next(Event::SlotStarted { slot: 101, duties: next }),
        Ok(Action::Deliver(Message::BeaconBlock { proposer: A, slot: 100 }))
    );
    assert_eq!(
        drain(&mut generator),
        vec![
            Message::Attestation { attester: A, subnet: 3, slot: 100 },
            Message::Attestation { attester: B, subnet: 7, slot: 100 },
            Message::BeaconBlock { proposer: B, slot: 101 },
        ]
    );
}

#[test]
fn draining_never_asks_for_the_timer() {
    let mut generator = generator();
    generator.queue_slot_msgs(7, &every_kind());
    let mut asked = 0;
    let mut delivered = 0;
    for _ in 0..12 {
        match generator.poll_next(Event::Pull) {
            Ok(Action::Deliver(_)) => {
                assert_eq!(asked, 0);
                delivered += 1;
            }
            Ok(Action::InspectTimer) => asked += 1,
            other => panic!("unexpected answer {:?}", other),
        }
    }
    assert_eq!(delivered, 9);
    assert_eq!(asked, 3);
}

#[test]
fn a_queued_message_is_delivered_even_when_the_timer_is_not_due() {
    let mut generator = generator();
    generator.queue_slot_msgs(100, &slot_100());
    assert_eq!(
        generator.poll_next(Event::NotDue),
        Ok(Action::Deliver(Message::BeaconBlock { proposer: A, slot: 100 }))
    );
    assert_eq!(generator.queued(), 2);
}

#[test]
fn a_silent_time_source_is_an_error_and_changes_nothing() {
    let mut generator = generator();
    assert_eq!(generator.poll_next(Event::ClockUnavailable), Err(Error::TimeSourceUnavailable));
    generator.queue_slot_msgs(100, &slot_100());
    assert_eq!(generator.poll_next(Event::ClockUnavailable), Err(Error::TimeSourceUnavailable));
    assert_eq!(generator.queued(), 3);
    assert_eq!(generator.validators(), &registry());
    assert_eq!(
        generator.poll_next(Event::Pull),
        Ok(Action::Deliver(Message::BeaconBlock { proposer: A, slot: 100 }))
    );
}

#[test]
fn the_registry_and_the_settings_stay_as_built() {
    let mut generator = generator();
    let config = generator.config();
    generator.poll_next(Event::SlotStarted { slot: 1, duties: every_kind() }).unwrap();
    drain(&mut generator);
    generator.poll_next(Event::NotDue).unwrap();
    generator.poll_next(Event::SlotStarted { slot: 2, duties: slot_100() }).unwrap();
    assert_eq!(generator.validators(), &registry());
    assert_eq!(generator.config(), config);
}

#[test]
fn time_since_last_slot_is_the_slot_length_less_the_time_left() {
    let generator = generator();
    assert_eq!(generator.time_since_last_slot(Some(5)), 7);
    assert_eq!(generator.time_since_last_slot(Some(0)), 12);
    assert_eq!(generator.time_since_last_slot(Some(12)), 0);
}

#[test]
fn time_since_last_slot_never_goes_below_zero() {
    let generator = generator();
    assert_eq!(generator.time_since_last_slot(Some(13)), 0);
    assert_eq!(generator.time_since_last_slot(Some(u128::MAX)), 0);
}

#[test]
fn time_since_last_slot_without_a_clock_reading_is_a_whole_slot() {
    let generator = generator();
    assert_eq!(generator.time_since_last_slot(None), 12);
}

#[test]
fn what_is_delivered_and_what_is_queued_make_up_what_the_slots_brought() {
    let mut generator = generator();
    let mut delivered = vec![];
    let events = vec![
        Event::Pull,
        Event::SlotStarted { slot: 100, duties: slot_100() },
        Event::Pull,
        Event::NotDue,
        Event::ClockUnavailable,
        Event::SlotStarted { slot: 101, duties: SlotDuties::none() },
        Event::SlotStarted { slot: 102, duties: every_kind() },
        Event::Pull,
    ];
    for event in events {
        if let Ok(Action::Deliver(message)) = generator.poll_next(event) {
            delivered.push(message);
        }
    }
    assert_eq!(delivered.len(), 5);
    assert_eq!(generator.queued(), 7);
    delivered.extend(drain(&mut generator));
    let mut brought = vec![
        Message::BeaconBlock { proposer: A, slot: 100 },
        Message::Attestation { attester: A, subnet: 3, slot: 100 },
        Message::Attestation { attester: B, subnet: 7, slot: 100 },
    ];
    brought.extend(vec![
        Message::BeaconBlock { proposer: B, slot: 102 },
        Message::AggregateAndProofAttestation { aggregator: A, subnet: 1, slot: 102 },
        Message::AggregateAndProofAttestation { aggregator: B, subnet: 2, slot: 102 },
        Message::Attestation { attester: B, subnet: 5, slot: 102 },
        Message::Attestation { attester: A, subnet: 4, slot: 102 },
        Message::SignedContributionAndProof { validator: A, subnet: 0, slot: 102 },
        Message::SyncCommitteeMessage { validator: A, subnet: 9, slot: 102 },
        Message::SyncCommitteeMessage { validator: B, subnet: 9, slot: 102 },
        Message::SyncCommitteeMessage { validator: A, subnet: 8, slot: 102 },
    ]);
    assert_eq!(delivered, brought);
}

#[test]
fn a_driver_that_keeps_to_its_turn_sees_one_slot_at_a_time() {
    let mut generator = generator();
    let slots: Vec<(u64, SlotDuties)> =
        vec![(100, slot_100()), (101, SlotDuties::none()), (104, every_kind())];
    let mut resolutions = 0;
    let mut delivered = vec![];
    let mut pending = slots.into_iter();
    let mut event = Event::Pull;
    loop {
        match generator.poll_next(event) {
            Ok(Action::Deliver(message)) => {
                delivered.push(message);
                event = Event::Pull;
            }
            Ok(Action::InspectTimer) => {
                assert_eq!(generator.queued(), 0);
                match pending.next() {
                    Some((slot, duties)) => {
                        resolutions += 1;
                        event = Event::SlotStarted { slot, duties };
                    }
                    None => event = Event::NotDue,
                }
            }
            Ok(Action::Suspend) => break,
            Err(error) => panic!("unexpected error {:?}", error),
        }
    }
    assert_eq!(resolutions, 3);
    let slots_seen: Vec<u64> = delivered.iter().map(|message| message.slot()).collect();
    assert_eq!(slots_seen, vec![100, 100, 100, 104, 104, 104, 104, 104, 104, 104, 104, 104]);
}

#[test]
fn distinct_duties_give_distinct_messages() {
    let mut generator = generator();
    generator.queue_slot_msgs(3, &every_kind());
    let delivered = drain(&mut generator);
    for (i, first) in delivered.iter().enumerate() {
        for second in delivered.iter().skip(i + 1) {
            assert_ne!(first, second);
        }
    }
}

#[test]
fn a_validator_with_one_duty_of_a_kind_has_one_message_of_that_kind() {
    let mut generator = generator();
    generator.queue_slot_msgs(100, &slot_100());
    let delivered = drain(&mut generator);
    for (i, first) in delivered.iter().enumerate() {
        for second in delivered.iter().skip(i + 1) {
            assert_ne!(
                (first.kind(), first.validator(), first.slot()),
                (second.kind(), second.validator(), second.slot())
            );
        }
    }
}
