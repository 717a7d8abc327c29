use datagen::config::{ConfigCause, ConfigFile, CounterConfig};
use datagen::format::Format;
use datagen::generator::GenerateError;
use datagen::options::{AnyGenerator, CliArgs};
use datagen::publish::{LoopAction, LoopEvent, Phase, PublishLoop};
use datagen::sink::{BrokerFailure, CloseRequest, Delivery, KafkaSink, MqttSink, Sink, Stage};
use datagen::{gen, parse_args, CounterGen, GenError, GenOpts, IdEventGen, SinkErr};
use std::time::Duration;

fn counter_at(initial_count: u64) -> AnyGenerator {
    AnyGenerator::Counter(CounterGen::from_config(CounterConfig {
        initial_count: Some(initial_count),
        format: Some(Format::JSON),
    }))
}

fn mqtt_run(generator: AnyGenerator) -> PublishLoop {
    let opts = GenOpts::new_mqtt("tcp://h:1883", "doors", "u", "p", Duration::from_millis(5), generator);
    PublishLoop::open(opts, Ok(())).unwrap()
}

fn kafka_run(generator: AnyGenerator) -> PublishLoop {
    let opts = GenOpts::new_kafka("k:9092", "ticks", Duration::from_millis(5), generator);
    PublishLoop::open(opts, Ok(())).unwrap()
}

fn count_in(payload: &str) -> u64 {
    let value: serde_json::Value = serde_json::from_str(payload).unwrap();
    value["count"].as_u64().unwrap()
}

fn sleep() -> LoopAction {
    LoopAction::Sleep { interval: Duration::from_millis(5), failure: None }
}

#[test]
fn send_failure_on_cycle_five_closes_once() {
    let mut run = mqtt_run(counter_at(0));
    assert_eq!(run.phase(), Phase::Idle);
    let mut event = LoopEvent::Start;
    let mut sends = 0u64;
    let mut sleeps = 0u64;
    let mut closes = Vec::new();
    let mut idle_steps = 0;
    for _ in 0..40 {
        match gen(&mut run, event.clone()) {
            LoopAction::Send(delivery) => {
                assert_eq!(run.phase(), Phase::Sending);
                match delivery {
                    Delivery::Mqtt { topic, qos, payload } => {
                        assert_eq!(topic, "doors");
                        assert_eq!(qos, 1);
                        assert_eq!(count_in(&payload), sends);
                    }
                    other => panic!("unexpected: {:?}", other),
                }
                sends += 1;
                event = if sends == 5 {
                    LoopEvent::SendFailed("broker went away".to_string())
                } else {
                    LoopEvent::Sent
                };
            }
            LoopAction::Sleep { interval, failure } => {
                assert_eq!(run.phase(), Phase::Sleeping);
                assert_eq!(interval, Duration::from_millis(5));
                assert_eq!(failure, None);
                sleeps += 1;
                event = LoopEvent::Slept;
            }
            LoopAction::Close { request, outcome } => {
                assert_eq!(run.phase(), Phase::Closed);
                closes.push((request, outcome));
                event = LoopEvent::Slept;
            }
            LoopAction::Nothing => {
                assert_eq!(run.phase(), Phase::Closed);
                idle_steps += 1;
                event = match idle_steps % 4 {
                    0 => LoopEvent::Start,
                    1 => LoopEvent::Sent,
                    2 => LoopEvent::Shutdown,
                    _ => LoopEvent::SendFailed("again".to_string()),
                };
            }
        }
    }
    assert_eq!(sends, 5);
    assert_eq!(sleeps, 4);
    assert_eq!(
        closes,
        vec![(
            CloseRequest::Disconnect,
            Err(SinkErr::MqttError(BrokerFailure {
                stage: Stage::Send,
                message: "broker went away".to_string(),
            })),
        )]
    );
    assert!(idle_steps > 20);
}

#[test]
fn send_failure_on_a_kafka_run() {
    let mut run = kafka_run(counter_at(9));
    match gen(&mut run, LoopEvent::Start) {
        LoopAction::Send(Delivery::Kafka { topic, payload }) => {
            assert_eq!(topic, "ticks");
            assert_eq!(count_in(&payload), 9);
        }
        other => panic!("unexpected: {:?}", other),
    }
    assert_eq!(
        gen(&mut run, LoopEvent::SendFailed("queue full".to_string())),
        LoopAction::Close {
            request: CloseRequest::Nothing,
            outcome: Err(SinkErr::KafkaError(BrokerFailure {
                stage: Stage::Send,
                message: "queue full".to_string(),
            })),
        }
    );
    assert_eq!(run.phase(), Phase::Closed);
    assert_eq!(gen(&mut run, LoopEvent::Slept), LoopAction::Nothing);
}

#[test]
fn generation_failure_does_not_end_the_run() {
    let mut run = mqtt_run(counter_at(u64::MAX));
    let mut event = LoopEvent::Start;
    for _ in 0..10 {
        assert_eq!(
            gen(&mut run, event),
            LoopAction::Sleep {
                interval: Duration::from_millis(5),
                failure: Some(GenerateError::CounterExhausted),
            }
        );
        assert_eq!(run.phase(), Phase::Sleeping);
        event = LoopEvent::Slept;
    }
}

#[test]
fn run_recovers_after_a_cycle() {
    let mut run = kafka_run(counter_at(u64::MAX - 1));
    assert!(matches!(gen(&mut run, LoopEvent::Start), LoopAction::Send(_)));
    assert_eq!(gen(&mut run, LoopEvent::Sent), sleep());
    assert_eq!(
        gen(&mut run, LoopEvent::Slept),
        LoopAction::Sleep {
            interval: Duration::from_millis(5),
            failure: Some(GenerateError::CounterExhausted),
        }
    );
    assert_eq!(run.phase(), Phase::Sleeping);
}

#[test]
fn shutdown_ends_the_run_with_success() {
    let mut run = mqtt_run(counter_at(0));
    assert_eq!(
        gen(&mut run, LoopEvent::Shutdown),
        LoopAction::Close { request: CloseRequest::Disconnect, outcome: Ok(()) }
    );
    assert_eq!(run.phase(), Phase::Closed);
    assert_eq!(gen(&mut run, LoopEvent::Shutdown), LoopAction::Nothing);

    let mut run = kafka_run(counter_at(0));
    assert!(matches!(gen(&mut run, LoopEvent::Start), LoopAction::Send(_)));
    assert_eq!(
        gen(&mut run, LoopEvent::Shutdown),
        LoopAction::Close { request: CloseRequest::Nothing, outcome: Ok(()) }
    );
    assert_eq!(gen(&mut run, LoopEvent::Sent), LoopAction::Nothing);
}

#[test]
fn events_that_are_not_awaited_change_nothing() {
    let mut run = mqtt_run(counter_at(0));
    let idle = mqtt_run(counter_at(0));
    for event in [LoopEvent::Sent, LoopEvent::Slept, LoopEvent::SendFailed("x".to_string())] {
        assert_eq!(gen(&mut run, event), LoopAction::Nothing);
        assert_eq!(run, idle);
    }
    assert!(matches!(gen(&mut run, LoopEvent::Start), LoopAction::Send(_)));
    let sending = mqtt_run(counter_at(0));
    assert_ne!(run, sending);
    assert_eq!(run.phase(), Phase::Sending);
    for event in [LoopEvent::Start, LoopEvent::Slept] {
        assert_eq!(gen(&mut run, event), LoopAction::Nothing);
        assert_eq!(run.phase(), Phase::Sending);
    }
    assert_eq!(gen(&mut run, LoopEvent::Sent), sleep());
    for event in [LoopEvent::Start, LoopEvent::Sent, LoopEvent::SendFailed("x".to_string())] {
        assert_eq!(gen(&mut run, event), LoopAction::Nothing);
        assert_eq!(run.phase(), Phase::Sleeping);
    }
}

#[test]
fn run_over_a_sink_that_is_closed_already() {
    let mut sink = Sink::Mqtt(MqttSink::new("doors", 1, Ok(())).unwrap());
    sink.close();
    let mut run = PublishLoop::new(sink, counter_at(0), Duration::from_millis(5));
    assert_eq!(run.phase(), Phase::Closed);
    assert_eq!(gen(&mut run, LoopEvent::Start), LoopAction::Nothing);
    assert_eq!(gen(&mut run, LoopEvent::Shutdown), LoopAction::Nothing);
}

#[test]
fn run_is_not_opened_on_a_failed_connection() {
    let opts =
        GenOpts::new_mqtt("tcp://h:1883", "doors", "u", "p", Duration::from_millis(5), counter_at(0));
    assert_eq!(
        PublishLoop::open(opts, Err("connection refused".to_string())),
        Err(SinkErr::MqttError(BrokerFailure {
            stage: Stage::Connect,
            message: "connection refused".to_string(),
        }))
    );
}

#[test]
fn run_sleeps_for_the_interval_of_the_options() {
    let args = CliArgs { subcommand: Some("kafka-gen".to_string()), ..CliArgs::default() };
    let opts = parse_args(&args, &ConfigFile::Absent).unwrap();
    let mut run = PublishLoop::open(opts, Ok(())).unwrap();
    assert_eq!(run.sleep_interval(), Duration::from_millis(500));
    match gen(&mut run, LoopEvent::Start) {
        LoopAction::Send(Delivery::Kafka { topic, payload }) => {
            assert_eq!(topic, "my-topic");
            assert!(payload.starts_with("time,count\n"));
            assert!(payload.ends_with(",0\n"));
        }
        other => panic!("unexpected: {:?}", other),
    }
    assert_eq!(
        gen(&mut run, LoopEvent::Sent),
        LoopAction::Sleep { interval: Duration::from_millis(500), failure: None }
    );
}

#[test]
fn id_event_run_sends_pairs() {
    let mut run = PublishLoop::new(
        Sink::Kafka(KafkaSink::new("pairs", Ok(())).unwrap()),
        AnyGenerator::IdEvent(IdEventGen::new()),
        Duration::from_millis(1),
    );
    let mut event = LoopEvent::Start;
    for _ in 0..20 {
        match gen(&mut run, event) {
            LoopAction::Send(Delivery::Kafka { topic, payload }) => {
                assert_eq!(topic, "pairs");
                assert!(payload.starts_with("time,id,event\n"));
                event = LoopEvent::Sent;
            }
            LoopAction::Sleep { failure: None, .. } => event = LoopEvent::Slept,
            other => panic!("unexpected: {:?}", other),
        }
    }
}

#[test]
fn bad_configuration_fails_before_any_sink_is_made() {
    // The options are the only way to a sink and to a connection request;
    // with a configuration that cannot be used there are none.
    let args = CliArgs {
        subcommand: Some("mqtt-gen".to_string()),
        generator: Some("id_event".to_string()),
        ..CliArgs::default()
    };
    let file = ConfigFile::Unreadable {
        path: "\u{0}bad/path.toml".to_string(),
        cause: "file name contained an unexpected NUL byte".to_string(),
    };
    assert_eq!(
        parse_args(&args, &file),
        Err(GenError::ConfigError(
            "\u{0}bad/path.toml".to_string(),
            ConfigCause::Unreadable("file name contained an unexpected NUL byte".to_string()),
        ))
    );
}
