use std::sync::Arc;
use std::sync::Mutex;

use eventbuzz::event::ApplicationEvent;
use eventbuzz::sync::eventbus::Eventbus;
use eventbuzz::sync::eventbus::EventbusBuilder;
use eventbuzz::sync::listener::ApplicationEventListener;
use eventbuzz::sync::publisher::ApplicationEventPublisher;
use eventbuzz::sync::publisher::BuiltinSyncApplicationEventPublisher;
use eventbuzz::sync::publisher::WrappedApplicationEventListener;

struct HelloEvent {
    message: String,
}

struct UpdateEvent {
    message: String,
}

impl ApplicationEvent for HelloEvent {
    fn topic() -> String {
        String::from("io.github.eventbuzz.global.hello.topic")
    }
}

impl ApplicationEvent for UpdateEvent {
    fn topic() -> String {
        String::from("io.github.eventbuzz.global.hello.topic")
    }
}

type Log = Arc<Mutex<Vec<String>>>;

fn new_log() -> Log {
    Arc::new(Mutex::new(Vec::new()))
}

fn entries(log: &Log) -> Vec<String> {
    log.lock().unwrap().clone()
}

struct HelloEventListener {
    log: Log,
}

struct GreetingEventListener {
    log: Log,
}

struct UpdateEventListener {
    log: Log,
}

impl ApplicationEventListener<HelloEvent> for HelloEventListener {
    fn on_application_event(&self, event: &HelloEvent) {
        println!("sync: HelloEventListener: Received event with message: {}", event.message);
        self.log.lock().unwrap().push(format!("hello:{}", event.message));
    }
}

impl ApplicationEventListener<HelloEvent> for GreetingEventListener {
    fn on_application_event(&self, event: &HelloEvent) {
        println!("sync: GreetingEventListener: Received event with message: {}", event.message);
        self.log.lock().unwrap().push(format!("greeting:{}", event.message));
    }
}

impl ApplicationEventListener<UpdateEvent> for UpdateEventListener {
    fn on_application_event(&self, event: &UpdateEvent) {
        println!("sync: UpdateEventListener: Received event with message: {}", event.message);
        self.log.lock().unwrap().push(format!("update:{}", event.message));
    }
}

/// A listener that tells its invocations apart by a name of its own.
struct Named {
    name: String,
    log: Log,
}

impl ApplicationEventListener<HelloEvent> for Named {
    fn on_application_event(&self, event: &HelloEvent) {
        self.log.lock().unwrap().push(format!("{}:{}", self.name, event.message));
    }
}

impl ApplicationEventListener<UpdateEvent> for Named {
    fn on_application_event(&self, event: &UpdateEvent) {
        self.log.lock().unwrap().push(format!("{}:{}", self.name, event.message));
    }
}

fn named(name: &str, log: &Log) -> Named {
    Named { name: String::from(name), log: log.clone() }
}

#[test]
fn test_eventbus_pub_sub() {
    let log = new_log();
    let mut eventbus: Eventbus = Eventbus::builder() /* config or init | Unsupported now */
        .build();

    eventbus.register_listener(HelloEventListener { log: log.clone() });
    eventbus.register_listener(GreetingEventListener { log: log.clone() });
    eventbus.register_listener(UpdateEventListener { log: log.clone() });

    println!("sync: --- prepare.sync.publish.HelloEvent ---");

    eventbus.publish_event(HelloEvent {
        message: String::from("Hello, Rust!"),
    });

    assert_eq!(entries(&log), vec!["hello:Hello, Rust!", "greeting:Hello, Rust!"]);

    println!("sync: --- prepare.sync.publish.UpdateEvent ---");

    eventbus.publish_event(UpdateEvent {
        message: String::from("Hello, Rust!"),
    });

    println!("sync: --- post.sync.publish.UpdateEvent ---");

    assert_eq!(
        entries(&log),
        vec!["hello:Hello, Rust!", "greeting:Hello, Rust!", "update:Hello, Rust!"]
    );
}

#[test]
fn publish_without_listeners_does_nothing() {
    let eventbus = Eventbus::builder().build();
    eventbus.publish_event(HelloEvent { message: String::from("nobody") });
    eventbus.publish_event(UpdateEvent { message: String::from("nobody") });
}

#[test]
fn publish_of_a_type_without_listeners_invokes_no_one() {
    let log = new_log();
    let mut eventbus = Eventbus::builder().build();
    eventbus.register_listener::<HelloEvent, _>(named("L1", &log));
    eventbus.publish_event(UpdateEvent { message: String::from("x") });
    assert_eq!(entries(&log), Vec::<String>::new());
}

#[test]
fn two_listeners_of_one_type_run_once_each_in_registration_order() {
    let log = new_log();
    let mut eventbus = Eventbus::builder().build();
    eventbus.register_listener::<HelloEvent, _>(named("L1", &log));
    eventbus.register_listener::<HelloEvent, _>(named("L2", &log));
    eventbus.publish_event(HelloEvent { message: String::from("a") });
    assert_eq!(entries(&log), vec!["L1:a", "L2:a"]);
}

#[test]
fn only_the_listeners_of_the_published_type_run() {
    let log = new_log();
    let mut eventbus = Eventbus::builder().build();
    eventbus.register_listener::<HelloEvent, _>(named("L1", &log));
    eventbus.register_listener::<UpdateEvent, _>(named("L2", &log));
    eventbus.publish_event(UpdateEvent { message: String::from("x") });
    assert_eq!(entries(&log), vec!["L2:x"]);
}

#[test]
fn a_shared_topic_does_not_route() {
    assert_eq!(HelloEvent::topic(), UpdateEvent::topic());
    let log = new_log();
    let mut eventbus = Eventbus::builder().build();
    eventbus.register_listener::<HelloEvent, _>(named("hello", &log));
    eventbus.publish_event(UpdateEvent { message: String::from("u") });
    assert_eq!(entries(&log), Vec::<String>::new());
    eventbus.publish_event(HelloEvent { message: String::from("h") });
    assert_eq!(entries(&log), vec!["hello:h"]);
}

#[test]
fn publishing_twice_delivers_twice_in_the_same_order() {
    let log = new_log();
    let mut eventbus = Eventbus::builder().build();
    eventbus.register_listener::<HelloEvent, _>(named("L1", &log));
    eventbus.register_listener::<HelloEvent, _>(named("L2", &log));
    eventbus.register_listener::<HelloEvent, _>(named("L3", &log));
    eventbus.publish_event(HelloEvent { message: String::from("e") });
    let first = entries(&log);
    eventbus.publish_event(HelloEvent { message: String::from("e") });
    let both = entries(&log);
    assert_eq!(first, vec!["L1:e", "L2:e", "L3:e"]);
    assert_eq!(both.len(), 6);
    assert_eq!(both[..3], first[..]);
    assert_eq!(both[3..], first[..]);
}

#[test]
fn registrations_of_different_types_interleave_freely() {
    let log = new_log();
    let mut eventbus = Eventbus::builder().build();
    eventbus.register_listener::<HelloEvent, _>(named("h1", &log));
    eventbus.register_listener::<UpdateEvent, _>(named("u1", &log));
    eventbus.register_listener::<HelloEvent, _>(named("h2", &log));
    eventbus.register_listener::<UpdateEvent, _>(named("u2", &log));
    eventbus.publish_event(UpdateEvent { message: String::from("m") });
    eventbus.publish_event(HelloEvent { message: String::from("n") });
    assert_eq!(entries(&log), vec!["u1:m", "u2:m", "h1:n", "h2:n"]);
}

#[test]
fn a_listener_registered_after_a_publish_sees_only_later_events() {
    let log = new_log();
    let mut eventbus = Eventbus::builder().build();
    eventbus.register_listener::<HelloEvent, _>(named("early", &log));
    eventbus.publish_event(HelloEvent { message: String::from("1") });
    eventbus.register_listener::<HelloEvent, _>(named("late", &log));
    eventbus.publish_event(HelloEvent { message: String::from("2") });
    assert_eq!(entries(&log), vec!["early:1", "early:2", "late:2"]);
}

#[test]
fn the_same_listener_type_may_be_registered_many_times() {
    let log = new_log();
    let mut eventbus = Eventbus::builder().build();
    let mut expected = Vec::new();
    for i in 0..50 {
        eventbus.register_listener::<HelloEvent, _>(named(&format!("n{}", i), &log));
        expected.push(format!("n{}:go", i));
    }
    eventbus.publish_event(HelloEvent { message: String::from("go") });
    assert_eq!(entries(&log), expected);
}

#[test]
fn each_bus_has_a_registry_of_its_own() {
    let log = new_log();
    let mut first = EventbusBuilder::new().build();
    let second = EventbusBuilder::new().build();
    first.register_listener::<HelloEvent, _>(named("first", &log));
    second.publish_event(HelloEvent { message: String::from("x") });
    assert_eq!(entries(&log), Vec::<String>::new());
    first.publish_event(HelloEvent { message: String::from("y") });
    assert_eq!(entries(&log), vec!["first:y"]);
}

#[test]
fn the_publisher_works_without_the_bus() {
    let log = new_log();
    let mut publisher = BuiltinSyncApplicationEventPublisher::new();
    publisher.publish_event(HelloEvent { message: String::from("none yet") });
    publisher.register_listener::<HelloEvent, _>(named("hello", &log));
    publisher.register_listener::<UpdateEvent, _>(named("update", &log));
    publisher.publish_event(HelloEvent { message: String::from("a") });
    publisher.publish_event(UpdateEvent { message: String::from("b") });
    assert_eq!(entries(&log), vec!["hello:a", "update:b"]);
}

/// A listener that publishes what it hears on a bus of its own.
struct Relay {
    downstream: Eventbus,
}

impl ApplicationEventListener<HelloEvent> for Relay {
    fn on_application_event(&self, event: &HelloEvent) {
        self.downstream.publish_event(UpdateEvent { message: event.message.clone() });
    }
}

#[test]
fn a_listener_may_publish_on_another_bus() {
    let log = new_log();
    let mut downstream = Eventbus::builder().build();
    downstream.register_listener::<UpdateEvent, _>(named("sink", &log));
    let mut upstream = Eventbus::builder().build();
    upstream.register_listener::<HelloEvent, _>(Relay { downstream });
    upstream.publish_event(HelloEvent { message: String::from("relayed") });
    assert_eq!(entries(&log), vec!["sink:relayed"]);
}

#[test]
fn a_wrapper_shares_the_handle_it_was_given() {
    let log = new_log();
    let boxed: Box<dyn ApplicationEventListener<HelloEvent>> = Box::new(named("shared", &log));
    let mine = Arc::new(boxed);
    let wrapper = WrappedApplicationEventListener::new(mine.clone());
    assert_eq!(Arc::strong_count(&mine), 2);
    mine.on_application_event(&HelloEvent { message: String::from("direct") });
    assert_eq!(entries(&log), vec!["shared:direct"]);
    drop(wrapper);
    assert_eq!(Arc::strong_count(&mine), 1);
}
