use datagen::config::{ConfigCause, ConfigFile, IdEventConfig};
use datagen::format::Format;
use datagen::options::{AnyGenerator, CliArgs};
use datagen::{generator_from_id, parse_args, CounterGen, GenError, GenOpts, IdEventGen};
use std::time::Duration;

fn some(text: &str) -> Option<String> {
    Some(text.to_string())
}

fn counter() -> AnyGenerator {
    AnyGenerator::Counter(CounterGen::new())
}

#[test]
fn new_mqtt_authenticates_at_level_one() {
    let opts =
        GenOpts::new_mqtt("tcp://h:1883", "t", "u", "p", Duration::from_millis(250), counter());
    assert_eq!(
        opts,
        GenOpts::Mqtt {
            host: "tcp://h:1883".to_string(),
            topic: "t".to_string(),
            authenticate: true,
            username: "u".to_string(),
            password: "p".to_string(),
            qos: 1,
            generator: counter(),
            sleep_interval: Duration::from_millis(250),
        }
    );
    assert_eq!(opts.sleep_interval(), Duration::from_millis(250));
}

#[test]
fn new_kafka_keeps_what_it_is_given() {
    let generator = AnyGenerator::IdEvent(IdEventGen::new());
    let opts = GenOpts::new_kafka("k1:9092,k2:9092", "t", Duration::from_millis(7), generator);
    assert_eq!(
        opts,
        GenOpts::Kafka {
            bootstrap_servers: "k1:9092,k2:9092".to_string(),
            topic: "t".to_string(),
            generator: AnyGenerator::IdEvent(IdEventGen::new()),
            sleep_interval: Duration::from_millis(7),
        }
    );
    assert_eq!(opts.sleep_interval().as_millis(), 7);
}

#[test]
fn to_string_of_mqtt_options() {
    let opts = GenOpts::new_mqtt(
        "tcp://localhost:1883",
        "my-topic",
        "myusername",
        "secret",
        Duration::from_millis(500),
        counter(),
    );
    assert_eq!(opts.to_string(), "GenOpts: tcp://localhost:1883 my-topic myusername");
}

#[test]
fn to_string_of_kafka_options() {
    let opts = GenOpts::new_kafka("127.0.0.1:9092", "my-topic", Duration::from_millis(500), counter());
    assert_eq!(opts.to_string(), "GenOpts: 127.0.0.1:9092 my-topic");
    let opts = GenOpts::new_kafka("", "", Duration::from_millis(500), counter());
    assert_eq!(opts.to_string(), "GenOpts:  ");
}

#[test]
fn generator_from_id_knows_two_ids() {
    assert_eq!(generator_from_id("counter", &ConfigFile::Absent), Ok(counter()));
    assert_eq!(
        generator_from_id("id_event", &ConfigFile::Absent),
        Ok(AnyGenerator::IdEvent(IdEventGen::new()))
    );
    assert_eq!(
        generator_from_id("Counter", &ConfigFile::Absent),
        Err(GenError::NoGenerator("Counter".to_string()))
    );
    assert_eq!(
        generator_from_id("", &ConfigFile::Absent),
        Err(GenError::NoGenerator("".to_string()))
    );
}

#[test]
fn generator_from_id_reads_the_configuration() {
    let file = ConfigFile::Read {
        path: "gen.toml".to_string(),
        content: "ids = [\"a\"]\nevents = [\"x\"]\nformat = \"JSON\"\ninitial_count = 3\n"
            .to_string(),
    };
    let expected = IdEventGen::from_config(IdEventConfig {
        ids: vec!["a".to_string()],
        events: vec!["x".to_string()],
        format: Some(Format::JSON),
    });
    assert_eq!(generator_from_id("id_event", &file), Ok(AnyGenerator::IdEvent(expected)));
    match generator_from_id("counter", &file) {
        Ok(AnyGenerator::Counter(counter)) => {
            assert_eq!(counter.count(), 3);
            assert_eq!(counter.format(), Format::JSON);
        }
        other => panic!("unexpected: {:?}", other),
    }
}

#[test]
fn generator_from_id_reports_the_path_of_a_bad_configuration() {
    let file = ConfigFile::Read { path: "gen.toml".to_string(), content: "ids = 3\n".to_string() };
    assert_eq!(
        generator_from_id("id_event", &file),
        Err(GenError::ConfigError("gen.toml".to_string(), ConfigCause::Field("ids".to_string())))
    );
    // An unknown id is reported before the file is looked at.
    assert_eq!(
        generator_from_id("nope", &file),
        Err(GenError::NoGenerator("nope".to_string()))
    );
}

#[test]
fn parse_args_without_a_subcommand() {
    assert_eq!(parse_args(&CliArgs::default(), &ConfigFile::Absent), Err(GenError::NoSink));
    let args = CliArgs { generator: some("nope"), ..CliArgs::default() };
    assert_eq!(parse_args(&args, &ConfigFile::Absent), Err(GenError::NoSink));
}

#[test]
fn parse_args_with_an_unknown_subcommand() {
    let args = CliArgs { subcommand: some("amqp-gen"), ..CliArgs::default() };
    assert_eq!(
        parse_args(&args, &ConfigFile::Absent),
        Err(GenError::InvalidSink("amqp-gen".to_string()))
    );
}

#[test]
fn parse_args_mqtt_defaults() {
    let args = CliArgs { subcommand: some("mqtt-gen"), ..CliArgs::default() };
    assert_eq!(
        parse_args(&args, &ConfigFile::Absent),
        Ok(GenOpts::Mqtt {
            host: "tcp://localhost:1883".to_string(),
            topic: "my-topic".to_string(),
            authenticate: true,
            username: "myusername".to_string(),
            password: "mypassword".to_string(),
            qos: 1,
            generator: counter(),
            sleep_interval: Duration::from_millis(500),
        })
    );
}

#[test]
fn parse_args_kafka_defaults() {
    let args = CliArgs { subcommand: some("kafka-gen"), ..CliArgs::default() };
    assert_eq!(
        parse_args(&args, &ConfigFile::Absent),
        Ok(GenOpts::Kafka {
            bootstrap_servers: "127.0.0.1:9092".to_string(),
            topic: "my-topic".to_string(),
            generator: counter(),
            sleep_interval: Duration::from_millis(500),
        })
    );
}

#[test]
fn parse_args_mqtt_with_everything_given() {
    let args = CliArgs {
        interval: Some(20),
        generator: some("id_event"),
        subcommand: some("mqtt-gen"),
        host: some("tcp://broker:1883"),
        topic: some("doors"),
        username: some("alice"),
        password: some("wonder"),
        bootstrap_servers: some("ignored:9092"),
    };
    assert_eq!(
        parse_args(&args, &ConfigFile::Absent),
        Ok(GenOpts::Mqtt {
            host: "tcp://broker:1883".to_string(),
            topic: "doors".to_string(),
            authenticate: true,
            username: "alice".to_string(),
            password: "wonder".to_string(),
            qos: 1,
            generator: AnyGenerator::IdEvent(IdEventGen::new()),
            sleep_interval: Duration::from_millis(20),
        })
    );
}

#[test]
fn parse_args_kafka_with_everything_given() {
    let args = CliArgs {
        interval: Some(0),
        generator: some("counter"),
        subcommand: some("kafka-gen"),
        topic: some("ticks"),
        bootstrap_servers: some("k:9092"),
        ..CliArgs::default()
    };
    assert_eq!(
        parse_args(&args, &ConfigFile::Absent),
        Ok(GenOpts::Kafka {
            bootstrap_servers: "k:9092".to_string(),
            topic: "ticks".to_string(),
            generator: counter(),
            sleep_interval: Duration::from_millis(0),
        })
    );
}

#[test]
fn parse_args_with_an_unknown_generator() {
    for subcommand in ["mqtt-gen", "kafka-gen"] {
        let args =
            CliArgs { subcommand: some(subcommand), generator: some("dice"), ..CliArgs::default() };
        assert_eq!(
            parse_args(&args, &ConfigFile::Absent),
            Err(GenError::NoGenerator("dice".to_string()))
        );
    }
}

#[test]
fn parse_args_with_a_configuration_path_that_cannot_be_read() {
    let file = ConfigFile::Unreadable {
        path: "/no/such/dir/gen.toml".to_string(),
        cause: "No such file or directory (os error 2)".to_string(),
    };
    for subcommand in ["mqtt-gen", "kafka-gen"] {
        for generator in ["counter", "id_event"] {
            let args = CliArgs {
                subcommand: some(subcommand),
                generator: some(generator),
                ..CliArgs::default()
            };
            assert_eq!(
                parse_args(&args, &file),
                Err(GenError::ConfigError(
                    "/no/such/dir/gen.toml".to_string(),
                    ConfigCause::Unreadable("No such file or directory (os error 2)".to_string()),
                ))
            );
        }
    }
}

#[test]
fn parse_args_with_a_malformed_configuration() {
    let file =
        ConfigFile::Read { path: "gen.toml".to_string(), content: "initial_count = ".to_string() };
    let args = CliArgs { subcommand: some("kafka-gen"), ..CliArgs::default() };
    match parse_args(&args, &file) {
        Err(GenError::ConfigError(path, ConfigCause::Syntax(message))) => {
            assert_eq!(path, "gen.toml");
            assert!(!message.is_empty());
        }
        other => panic!("unexpected: {:?}", other),
    }
}

#[test]
fn parse_args_with_a_configuration() {
    let file = ConfigFile::Read {
        path: "gen.toml".to_string(),
        content: "initial_count = 100\n".to_string(),
    };
    let args = CliArgs { subcommand: some("kafka-gen"), ..CliArgs::default() };
    match parse_args(&args, &file) {
        Ok(GenOpts::Kafka { generator: AnyGenerator::Counter(counter), .. }) => {
            assert_eq!(counter.count(), 100);
        }
        other => panic!("unexpected: {:?}", other),
    }
}
