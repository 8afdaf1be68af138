use std::time::Duration;

use egui_elm::command::Command;
use egui_elm::driver::{ElmApp, TokioRuntime};
use egui_elm::program::Program;
use egui_elm::subscription::Subscription;
use egui_elm::token::{SubscriptionToken, TokenValue, token_eq};
use egui_elm::view::ViewContext;

fn sleep_ms(ms: u64) {
    futures::executor::block_on(futures_timer::Delay::new(Duration::from_millis(ms)));
}

#[derive(Clone, Copy, PartialEq, Debug)]
enum CounterMsg {
    Increment,
    Decrement,
}

struct Counter {
    count: i64,
}

#[test]
fn counter_scenario() {
    let runtime = TokioRuntime::try_current_or_new().unwrap();
    let program = Program::new(
        |_: &()| (Counter { count: 0 }, Command::none()),
        |m: &Counter, msg: CounterMsg| match msg {
            CounterMsg::Increment => (Counter { count: m.count + 1 }, Command::none()),
            CounterMsg::Decrement => (Counter { count: m.count - 1 }, Command::none()),
        },
        |_: &Counter, _: &(), _: &ViewContext<CounterMsg>| {},
        |_: &Counter| Subscription::none(),
    );
    let (model, initial) = (program.init)(&());
    assert_eq!(model.count, 0);
    let mut app = ElmApp::new(program, model, initial, runtime);

    app.handle_message(CounterMsg::Increment);
    app.handle_message(CounterMsg::Increment);
    app.handle_message(CounterMsg::Increment);
    assert_eq!(app.model().count, 3);

    app.handle_message(CounterMsg::Decrement);
    assert_eq!(app.model().count, 2);
}

#[derive(Clone, PartialEq, Debug)]
enum LoaderMsg {
    Load,
    DataLoaded(String),
}

struct Loader {
    loading: bool,
    data: Option<String>,
    request_count: u32,
}

#[test]
fn async_loader_scenario() {
    let runtime = TokioRuntime::try_current_or_new().unwrap();
    let program = Program::new(
        |_: &()| (Loader { loading: false, data: None, request_count: 0 }, Command::none()),
        |m: &Loader, msg: LoaderMsg| match msg {
            LoaderMsg::Load => (
                Loader { loading: true, data: m.data.clone(), request_count: m.request_count },
                Command::perform(|| LoaderMsg::DataLoaded(String::from("payload"))),
            ),
            LoaderMsg::DataLoaded(payload) => (
                Loader {
                    loading: false,
                    data: Some(payload),
                    request_count: m.request_count + 1,
                },
                Command::none(),
            ),
        },
        |_: &Loader, _: &(), _: &ViewContext<LoaderMsg>| {},
        |_: &Loader| Subscription::none(),
    );
    let (model, initial) = (program.init)(&());
    let mut app = ElmApp::new(program, model, initial, runtime);
    assert!(!app.model().loading);

    app.handle_message(LoaderMsg::Load);
    assert!(app.model().loading);

    let mut waited = 0;
    while app.model().request_count == 0 && waited < 50 {
        sleep_ms(50);
        app.drain_mailbox();
        waited += 1;
    }
    assert!(!app.model().loading);
    assert_eq!(app.model().data.as_deref(), Some("payload"));
    assert_eq!(app.model().request_count, 1);
}

#[derive(Clone, Copy, PartialEq, Debug)]
enum AutoMsg {
    Toggle,
    Tick,
}

struct Auto {
    auto: bool,
    ticks: u32,
}

fn expect_token(actual: &Option<SubscriptionToken>, expected: TokenValue) {
    let expected = SubscriptionToken::new(expected);
    match actual {
        Some(token) => assert!(token_eq(token, &expected)),
        None => panic!("an identity token was expected"),
    }
}

#[test]
fn subscription_restart_scenario() {
    let runtime = TokioRuntime::try_current_or_new().unwrap();
    let program = Program::new(
        |_: &()| (Auto { auto: false, ticks: 0 }, Command::none()),
        |m: &Auto, msg: AutoMsg| match msg {
            AutoMsg::Toggle => (Auto { auto: !m.auto, ticks: m.ticks }, Command::none()),
            AutoMsg::Tick => (Auto { auto: m.auto, ticks: m.ticks + 1 }, Command::none()),
        },
        |_: &Auto, _: &(), _: &ViewContext<AutoMsg>| {},
        |m: &Auto| {
            if m.auto {
                Subscription::interval(40, AutoMsg::Tick).with_token(TokenValue::Int(1))
            } else {
                Subscription::none()
            }
        },
    );
    let (model, initial) = (program.init)(&());
    let mut app = ElmApp::new(program, model, initial, runtime);
    expect_token(app.current_identity(), TokenValue::Unit);

    app.drain_mailbox();
    expect_token(app.current_identity(), TokenValue::Unit);

    app.handle_message(AutoMsg::Toggle);
    assert!(app.model().auto);
    expect_token(app.current_identity(), TokenValue::Int(1));

    let mut waited = 0;
    while app.model().ticks == 0 && waited < 50 {
        sleep_ms(50);
        app.drain_mailbox();
        waited += 1;
    }
    assert!(app.model().ticks > 0);

    app.handle_message(AutoMsg::Toggle);
    assert!(!app.model().auto);
    expect_token(app.current_identity(), TokenValue::Unit);

    sleep_ms(120);
    app.drain_mailbox();
    let settled = app.model().ticks;
    sleep_ms(200);
    app.drain_mailbox();
    assert_eq!(app.model().ticks, settled);
}

#[derive(Clone, Copy, PartialEq, Debug)]
enum PairMsg {
    A,
    B,
}

struct PairCount {
    a: u32,
    b: u32,
}

#[test]
fn batch_then_cancel_terminates_both_members() {
    let runtime = TokioRuntime::try_current_or_new().unwrap();
    let program = Program::new(
        |_: &()| (PairCount { a: 0, b: 0 }, Command::none()),
        |m: &PairCount, msg: PairMsg| match msg {
            PairMsg::A => (PairCount { a: m.a + 1, b: m.b }, Command::none()),
            PairMsg::B => (PairCount { a: m.a, b: m.b + 1 }, Command::none()),
        },
        |_: &PairCount, _: &(), _: &ViewContext<PairMsg>| {},
        |_: &PairCount| {
            Subscription::batch(vec![
                Subscription::interval(30, PairMsg::A).with_token(TokenValue::Int(1)),
                Subscription::interval(45, PairMsg::B).with_token(TokenValue::Int(2)),
            ])
        },
    );
    let (model, initial) = (program.init)(&());
    let mut app = ElmApp::new(program, model, initial, runtime);

    let mut waited = 0;
    while (app.model().a == 0 || app.model().b == 0) && waited < 50 {
        sleep_ms(50);
        app.drain_mailbox();
        waited += 1;
    }
    assert!(app.model().a > 0);
    assert!(app.model().b > 0);

    app.shutdown();
    sleep_ms(120);
    app.drain_mailbox();
    let settled_a = app.model().a;
    let settled_b = app.model().b;
    sleep_ms(200);
    app.drain_mailbox();
    assert_eq!(app.model().a, settled_a);
    assert_eq!(app.model().b, settled_b);
}

#[test]
fn mailbox_drains_in_enqueue_order() {
    let runtime = TokioRuntime::try_current_or_new().unwrap();
    let program = Program::new(
        |_: &()| (Vec::<i32>::new(), Command::none()),
        |log: &Vec<i32>, msg: i32| {
            let mut log = log.clone();
            log.push(msg);
            (log, Command::none())
        },
        |_: &Vec<i32>, _: &(), context: &ViewContext<i32>| {
            let second_producer = context.clone();
            context.send(1);
            context.send(2);
            second_producer.send(3);
        },
        |_: &Vec<i32>| Subscription::none(),
    );
    let (model, initial) = (program.init)(&());
    let mut app = ElmApp::new(program, model, initial, runtime);

    app.run_frame(&());
    app.drain_mailbox();
    assert_eq!(app.model(), &vec![1, 2, 3]);
}

#[test]
fn runtime_is_created_when_no_ambient_exists() {
    let runtime = TokioRuntime::try_current_or_new().unwrap();
    assert!(!runtime.adopted());
}

#[test]
fn ambient_runtime_is_adopted() {
    let outer = tokio::runtime::Runtime::new().unwrap();
    let adopted = outer.block_on(async { TokioRuntime::try_current_or_new().unwrap().adopted() });
    assert!(adopted);
}
