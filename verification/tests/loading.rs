use sprite_player::animation::AnimationDriver;
use sprite_player::completer::Completer;
use sprite_player::frames::{FrameTable, SpriteFrame};
use sprite_player::loader::{
    begin, claim, effect, on_error, on_event, on_load, Effect, HostEvent, LoadOutcome,
};
use sprite_player::signal::{create, polled, settled, Polled};

fn one_frame() -> FrameTable {
    let mut table = FrameTable::new();
    table.insert("Run (1).png".to_string(), SpriteFrame { x: 0, y: 0, w: 8, h: 8 });
    table
}

#[test]
fn first_take_gets_the_handle_and_later_ones_nothing() {
    let mut guard = Completer::new(7u32);
    assert!(guard.is_armed());
    assert_eq!(guard.try_take(), Some(7));
    assert!(!guard.is_armed());
    assert_eq!(guard.try_take(), None);
    assert_eq!(guard.try_take(), None);
    assert!(!guard.is_armed());
}

#[test]
fn claim_pairs_the_handle_with_the_outcome_of_the_first_event() {
    let mut guard = Completer::new('p');
    let first = claim(&mut guard, HostEvent::Failed("decode"));
    assert_eq!(first, Some(('p', Err("decode"))));
    let second: Option<(char, LoadOutcome<&str>)> = claim(&mut guard, HostEvent::Loaded);
    assert_eq!(second, None);

    let mut guard = Completer::new('q');
    let first: Option<(char, LoadOutcome<&str>)> = claim(&mut guard, HostEvent::Loaded);
    assert_eq!(first, Some(('q', Ok(()))));
    assert_eq!(claim(&mut guard, HostEvent::Failed("late")), None);
}

#[test]
fn event_outcomes() {
    assert_eq!(HostEvent::<u8>::Loaded.outcome(), Ok(()));
    assert_eq!(HostEvent::Failed(3u8).outcome(), Err(3));
}

#[test]
fn answers_of_the_sending_half() {
    assert_eq!(effect::<u8>(Ok(())), Effect::Resolved);
    assert_eq!(effect(Err(Err(5u8))), Effect::Unheard(Err(5)));
    assert_eq!(effect::<u8>(Err(Ok(()))), Effect::Unheard(Ok(())));
}

#[test]
fn nothing_fired_leaves_the_signal_pending() {
    let (guard, mut consumer) = begin::<String>();
    assert!(guard.is_armed());
    assert_eq!(consumer.poll(), Polled::Pending);
    assert_eq!(consumer.poll(), Polled::Pending);
}

#[test]
fn success_then_spurious_error_resolves_ok() {
    let (mut guard, mut consumer) = begin::<String>();
    assert_eq!(on_load(&mut guard), Effect::Resolved);
    assert_eq!(on_error(&mut guard, "spurious".to_string()), Effect::Ignored);
    assert!(!guard.is_armed());
    assert_eq!(consumer.poll(), Polled::Ready(Ok(())));
}

#[test]
fn error_first_resolves_err_and_no_animation_starts() {
    let (mut guard, mut consumer) = begin::<String>();
    assert_eq!(on_error(&mut guard, "not found".to_string()), Effect::Resolved);
    assert_eq!(on_load(&mut guard), Effect::Ignored);
    let outcome = match consumer.poll() {
        Polled::Ready(outcome) => outcome,
        other => panic!("unresolved: {:?}", other),
    };
    assert_eq!(outcome, Err("not found".to_string()));
    let started = AnimationDriver::start_after(outcome, (), one_frame(), 1, 50);
    assert_eq!(started.err(), Some("not found".to_string()));
}

#[test]
fn success_starts_the_animation_at_index_zero() {
    let (mut guard, mut consumer) = begin::<String>();
    assert_eq!(on_load(&mut guard), Effect::Resolved);
    let outcome = match consumer.poll() {
        Polled::Ready(outcome) => outcome,
        other => panic!("unresolved: {:?}", other),
    };
    let driver = AnimationDriver::start_after(outcome, "image", one_frame(), 1, 50).ok().unwrap();
    assert_eq!(driver.frame_index(), 0);
    assert_eq!(driver.period_ms(), 50);
    assert_eq!(driver.cycle_length(), 1);
    assert_eq!(*driver.image_handle(), "image");
    assert!(driver.has_next_frame());
}

#[test]
fn success_only() {
    let (mut guard, mut consumer) = begin::<u32>();
    assert_eq!(on_event(&mut guard, HostEvent::Loaded), Effect::Resolved);
    assert_eq!(consumer.poll(), Polled::Ready(Ok(())));
}

#[test]
fn error_only() {
    let (mut guard, mut consumer) = begin::<u32>();
    assert_eq!(on_event(&mut guard, HostEvent::Failed(404)), Effect::Resolved);
    assert_eq!(consumer.poll(), Polled::Ready(Err(404)));
}

#[test]
fn repeated_events_of_one_kind_fire_once() {
    let (mut guard, mut consumer) = begin::<u32>();
    assert_eq!(on_error(&mut guard, 1), Effect::Resolved);
    assert_eq!(on_error(&mut guard, 2), Effect::Ignored);
    assert_eq!(on_error(&mut guard, 3), Effect::Ignored);
    assert_eq!(consumer.poll(), Polled::Ready(Err(1)));
}

#[test]
fn outcome_goes_unheard_when_nobody_waits() {
    let (mut guard, consumer) = begin::<u32>();
    drop(consumer);
    assert_eq!(on_error(&mut guard, 9), Effect::Unheard(Err(9)));
    assert_eq!(on_load(&mut guard), Effect::Ignored);

    let (mut guard, consumer) = begin::<u32>();
    drop(consumer);
    assert_eq!(on_load(&mut guard), Effect::Unheard(Ok(())));
}

#[test]
fn dropped_producer_abandons_the_signal() {
    let (guard, mut consumer) = begin::<u32>();
    drop(guard);
    assert_eq!(consumer.poll(), Polled::Abandoned);
}

#[test]
fn consumer_resolves_to_the_value_sent() {
    let (producer, mut consumer) = create::<LoadOutcome<String>>();
    assert_eq!(consumer.poll(), Polled::Pending);
    assert_eq!(producer.send(Err("boom".to_string())), Ok(()));
    assert_eq!(consumer.poll(), Polled::Ready(Err("boom".to_string())));

    let (producer, mut consumer) = create::<LoadOutcome<String>>();
    assert_eq!(producer.send(Ok(())), Ok(()));
    assert_eq!(consumer.poll(), Polled::Ready(Ok(())));
}

#[test]
fn send_hands_the_value_back_when_the_consumer_is_gone() {
    let (producer, consumer) = create::<u64>();
    drop(consumer);
    assert_eq!(producer.send(41), Err(41));
}

#[test]
fn awaiting_the_receiver_yields_the_outcome() {
    let (mut guard, consumer) = begin::<u32>();
    assert_eq!(on_load(&mut guard), Effect::Resolved);
    assert_eq!(on_error(&mut guard, 5), Effect::Ignored);
    let awaited = futures::executor::block_on(consumer.into_receiver());
    assert_eq!(awaited, Ok(Ok(())));
}

#[test]
fn channel_answers_read_as_states() {
    let (sender, mut receiver) = futures::channel::oneshot::channel::<u8>();
    assert_eq!(polled(receiver.try_recv()), Polled::Pending);
    assert_eq!(sender.send(6), Ok(()));
    assert_eq!(polled(receiver.try_recv()), Polled::Ready(6));
    assert_eq!(polled(receiver.try_recv()), Polled::Abandoned);
}

#[test]
fn awaited_answers_read_as_states() {
    let (sender, receiver) = futures::channel::oneshot::channel::<u8>();
    assert_eq!(sender.send(6), Ok(()));
    assert_eq!(settled(futures::executor::block_on(receiver)), Polled::Ready(6));

    let (sender, receiver) = futures::channel::oneshot::channel::<u8>();
    drop(sender);
    assert_eq!(settled(futures::executor::block_on(receiver)), Polled::Abandoned);
}
