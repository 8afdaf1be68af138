use egui_elm::command::Command;
use egui_elm::subscription::{IntoSubscription, MessageStream, StreamSubscription, Subscription, should_restart};
use egui_elm::token::{SubscriptionToken, TokenValue, token_eq};

#[test]
fn message_command_completes() {
    let mut futures = Command::message(5).into_futures();
    let output = futures.pop().expect("future").resolve_blocking().expect("message");
    assert_eq!(output, 5);
}

#[test]
fn batch_flattens_all_commands() {
    let a = Command::message("a");
    let b = Command::message("b");
    let combined = Command::batch(vec![a, b]);
    let mut futures = combined.into_futures();

    let mut results = Vec::new();
    for future in futures.drain(..) {
        results.push(future.resolve_blocking().unwrap());
    }
    results.sort();
    assert_eq!(results, vec!["a", "b"]);
}

#[test]
fn batch_preserves_task_order_and_count() {
    let combined = Command::batch(vec![
        Command::message("a"),
        Command::none(),
        Command::message("b"),
    ]);
    let futures = combined.into_futures();
    assert_eq!(futures.len(), 2);

    let mut results = Vec::new();
    for future in futures {
        results.push(future.resolve_blocking().unwrap());
    }
    assert_eq!(results, vec!["a", "b"]);
}

#[test]
fn none_mapped_stays_empty() {
    let command = Command::<i32>::none().map(|x| x + 1).map(|x| x * 2);
    assert!(command.into_futures().is_empty());
}

#[test]
fn map_transforms_command_results() {
    let command = Command::message(21).map(|x: i32| x * 2);
    let mut futures = command.into_futures();
    assert_eq!(futures.len(), 1);
    assert_eq!(futures.pop().unwrap().resolve_blocking(), Some(42));
}

#[test]
fn perform_runs_computation() {
    let command = Command::perform(|| 6 * 7);
    let mut futures = command.into_futures();
    assert_eq!(futures.pop().unwrap().resolve_blocking(), Some(42));
}

#[test]
fn async_and_optional_future_commands() {
    let command = Command::async_(futures::future::ready(1));
    let mut futures = command.into_futures();
    assert_eq!(futures.pop().unwrap().resolve_blocking(), Some(1));

    let dropped = Command::<i32>::from_optional_future(futures::future::ready(None));
    let mut futures = dropped.into_futures();
    assert_eq!(futures.pop().unwrap().resolve_blocking(), None);
}

#[test]
fn batch_merges_streams() {
    let combined = Subscription::batch(vec![
        Subscription::from_stream(MessageStream::from_futures_stream(futures::stream::iter(
            vec![1, 2],
        ))),
        Subscription::from_stream(MessageStream::from_futures_stream(futures::stream::iter(
            vec![3],
        ))),
    ]);

    let mut stream = combined.into_stream();
    let mut values = Vec::new();
    while values.len() < 3 {
        match stream.next_message() {
            Some(value) => values.push(value),
            None => break,
        }
    }

    assert_eq!(values.len(), 3);
    assert!(values.contains(&1));
    assert!(values.contains(&2));
    assert!(values.contains(&3));
}

#[test]
fn map_transforms_messages() {
    let subscription = Subscription::from_stream(MessageStream::from_futures_stream(
        futures::stream::iter(vec![1, 2, 3]),
    ));
    let mut stream = subscription.map(|value| value * 2).into_stream();
    let mut doubled = Vec::new();
    while let Some(value) = stream.next_message() {
        doubled.push(value);
    }

    assert_eq!(doubled, vec![2, 4, 6]);
}

#[test]
fn interval_emits_multiple_messages() {
    let subscription = Subscription::interval(5, 42);
    let mut stream = subscription.into_stream();
    let mut values = Vec::new();
    while values.len() < 2 {
        match stream.next_message() {
            Some(value) => values.push(value),
            None => break,
        }
    }

    assert_eq!(values, vec![42, 42]);
}

#[test]
fn interval_with_produces_fresh_messages() {
    let mut counter = 0;
    let subscription = Subscription::interval_with(5, move || {
        counter += 1;
        counter
    });
    let mut stream = subscription.into_stream();
    let mut values = Vec::new();
    while values.len() < 3 {
        match stream.next_message() {
            Some(value) => values.push(value),
            None => break,
        }
    }

    assert_eq!(values, vec![1, 2, 3]);
}

#[test]
fn token_equality_is_structural() {
    let a = SubscriptionToken::new(TokenValue::Int(7));
    let b = SubscriptionToken::new(TokenValue::Int(7));
    let c = SubscriptionToken::new(TokenValue::Int(8));
    let unit = SubscriptionToken::new(TokenValue::Unit);
    let text = SubscriptionToken::new(TokenValue::Text(String::from("tick")));
    let text2 = SubscriptionToken::new(TokenValue::Text(String::from("tick")));
    let pair = SubscriptionToken::new(TokenValue::Pair(
        Box::new(TokenValue::Int(7)),
        Box::new(TokenValue::Text(String::from("tick"))),
    ));
    let pair2 = SubscriptionToken::new(TokenValue::Pair(
        Box::new(TokenValue::Int(7)),
        Box::new(TokenValue::Text(String::from("tick"))),
    ));
    let pair3 = SubscriptionToken::new(TokenValue::Pair(
        Box::new(TokenValue::Int(7)),
        Box::new(TokenValue::Text(String::from("tock"))),
    ));

    assert!(token_eq(&a, &b));
    assert!(a == b);
    assert!(!token_eq(&a, &c));
    assert!(!token_eq(&a, &unit));
    assert!(!token_eq(&a, &text));
    assert!(token_eq(&text, &text2));
    assert!(token_eq(&pair, &pair2));
    assert!(!token_eq(&pair, &pair3));
    assert!(!token_eq(&pair, &a));
}

#[test]
fn none_subscriptions_never_restart() {
    let first = Subscription::<i32>::none();
    let second = Subscription::<i32>::none();
    assert!(!should_restart(&first.identity(), &second.identity()));
}

#[test]
fn equal_interval_tokens_are_judged_identical() {
    let previous = Subscription::interval(100, 1).with_token(TokenValue::Int(100));
    let next = Subscription::interval(100, 1).with_token(TokenValue::Int(100));
    assert!(!should_restart(&previous.identity(), &next.identity()));

    let differing = Subscription::interval(100, 1).with_token(TokenValue::Int(200));
    assert!(should_restart(&previous.identity(), &differing.identity()));

    let untagged = Subscription::interval(100, 1);
    assert!(should_restart(&previous.identity(), &untagged.identity()));
    assert!(should_restart(&untagged.identity(), &untagged.identity()));
}

#[test]
fn map_preserves_identity_token() {
    let tagged = Subscription::interval(10, 1).with_token(TokenValue::Int(5));
    let mapped = tagged.map(|v| v + 1);
    let expected = SubscriptionToken::new(TokenValue::Int(5));
    match mapped.identity() {
        Some(token) => assert!(token_eq(&token, &expected)),
        None => panic!("mapping must keep the token"),
    }
}

#[test]
fn batch_identity_present_only_when_all_members_tagged() {
    let all_tagged = Subscription::batch(vec![
        Subscription::<i32>::none(),
        Subscription::interval(10, 1).with_token(TokenValue::Int(1)),
    ]);
    assert!(all_tagged.identity().is_some());

    let again = Subscription::batch(vec![
        Subscription::<i32>::none(),
        Subscription::interval(10, 1).with_token(TokenValue::Int(1)),
    ]);
    assert!(!should_restart(&all_tagged.identity(), &again.identity()));

    let changed_member = Subscription::batch(vec![
        Subscription::<i32>::none(),
        Subscription::interval(10, 1).with_token(TokenValue::Int(2)),
    ]);
    assert!(should_restart(&all_tagged.identity(), &changed_member.identity()));

    let one_untagged = Subscription::batch(vec![
        Subscription::<i32>::none(),
        Subscription::interval(10, 1),
    ]);
    assert!(one_untagged.identity().is_none());
}

#[test]
fn stream_subscription_boxes_with_token() {
    let typed = StreamSubscription::new(MessageStream::from_futures_stream(
        futures::stream::iter(vec![1, 2]),
    ))
    .with_token(TokenValue::Text(String::from("pair")));
    let expected = SubscriptionToken::new(TokenValue::Text(String::from("pair")));
    match typed.identity() {
        Some(token) => assert!(token_eq(&token, &expected)),
        None => panic!("token must be attached"),
    }

    let boxed = typed.boxed();
    match boxed.identity() {
        Some(token) => assert!(token_eq(&token, &expected)),
        None => panic!("boxing must keep the token"),
    }
    let mut stream = boxed.into_stream();
    assert_eq!(stream.next_message(), Some(1));
    assert_eq!(stream.next_message(), Some(2));
    assert_eq!(stream.next_message(), None);
}
