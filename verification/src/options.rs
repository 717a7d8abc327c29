//! Run options: which generator, which sink, how long to sleep.

use vstd::prelude::*;
use vstd::string::*;
use std::time::Duration;
use crate::config::{ConfigCause, ConfigCauseView, ConfigFile, ConfigFileView};
use crate::counter::{CounterGen, CounterGenView};
use crate::generator::{GenerateError, Generator};
use crate::id_event::{IdEventGen, IdEventGenView};
use crate::text::same_text;

verus! {

/// The length of a `Duration` in whole milliseconds, as `as_millis` gives it.
pub uninterp spec fn duration_millis(d: Duration) -> nat;

pub assume_specification[ Duration::from_millis ](millis: u64) -> (d: Duration)
    ensures
        duration_millis(d) == millis as nat,
;

/// One of the generators of this library.
#[derive(Clone, Debug, PartialEq, Eq)]
pub enum AnyGenerator {
    Counter(CounterGen),
    IdEvent(IdEventGen),
}

/// The mathematical content of an [`AnyGenerator`].
pub enum GeneratorView {
    Counter(CounterGenView),
    IdEvent(IdEventGenView),
}

impl View for AnyGenerator {
    type V = GeneratorView;

    open spec fn view(&self) -> GeneratorView {
        match *self {
            AnyGenerator::Counter(generator) => GeneratorView::Counter(generator@),
            AnyGenerator::IdEvent(generator) => GeneratorView::IdEvent(generator@),
        }
    }
}

impl GeneratorView {
    /// Whether one generation can lead from `self` to `after` with result
    /// `r`: the generator stays of its kind and does what that kind does.
    pub open spec fn produces(self, after: GeneratorView, r: Result<String, GenerateError>) -> bool {
        match (self, after) {
            (GeneratorView::Counter(before), GeneratorView::Counter(then)) => before.produces(
                then,
                r,
            ),
            (GeneratorView::IdEvent(before), GeneratorView::IdEvent(then)) => before.produces(
                then,
                r,
            ),
            _ => false,
        }
    }
}

impl Generator for AnyGenerator {
    open spec fn produces(&self, after: &Self, r: &Result<String, GenerateError>) -> bool {
        self@.produces(after@, *r)
    }

    fn gen(&mut self) -> (r: Result<String, GenerateError>) {
        match self {
            AnyGenerator::Counter(generator) => generator.gen(),
            AnyGenerator::IdEvent(generator) => generator.gen(),
        }
    }
}

/// Why the options of a run could not be made.
#[derive(Clone, Debug, PartialEq, Eq)]
pub enum GenError {
    Unk(String),
    /// No generator goes by the given id.
    NoGenerator(String),
    /// No sink was selected.
    NoSink,
    /// No sink goes by the given name.
    InvalidSink(String),
    /// The configuration file at the given path could not be used.
    ConfigError(String, ConfigCause),
}

/// The mathematical content of a [`GenError`].
pub enum GenErrorView {
    Unk(Seq<char>),
    NoGenerator(Seq<char>),
    NoSink,
    InvalidSink(Seq<char>),
    ConfigError(Seq<char>, ConfigCauseView),
}

impl View for GenError {
    type V = GenErrorView;

    open spec fn view(&self) -> GenErrorView {
        match *self {
            GenError::Unk(message) => GenErrorView::Unk(message@),
            GenError::NoGenerator(id) => GenErrorView::NoGenerator(id@),
            GenError::NoSink => GenErrorView::NoSink,
            GenError::InvalidSink(name) => GenErrorView::InvalidSink(name@),
            GenError::ConfigError(path, cause) => GenErrorView::ConfigError(path@, cause@),
        }
    }
}

/// The generator that goes by `id`, built from what the configuration file
/// gives: `"counter"` or `"id_event"`; the file's error carries its path.
pub open spec fn generator_for(id: Seq<char>, file: ConfigFileView) -> Result<
    GeneratorView,
    GenErrorView,
> {
    if id == "counter"@ {
        match CounterGenView::from_file(file) {
            Ok(generator) => Ok(GeneratorView::Counter(generator)),
            Err(cause) => Err(GenErrorView::ConfigError(file.path(), cause)),
        }
    } else if id == "id_event"@ {
        match IdEventGenView::from_file(file) {
            Ok(generator) => Ok(GeneratorView::IdEvent(generator)),
            Err(cause) => Err(GenErrorView::ConfigError(file.path(), cause)),
        }
    } else {
        Err(GenErrorView::NoGenerator(id))
    }
}

/// Builds the generator that goes by `id` from what the configuration file
/// gives.
pub fn generator_from_id(id: &str, file: &ConfigFile) -> (r: Result<AnyGenerator, GenError>)
    ensures
        match r {
            Ok(generator) => generator_for(id@, file@) == Ok::<GeneratorView, GenErrorView>(
                generator@,
            ),
            Err(error) => generator_for(id@, file@) == Err::<GeneratorView, GenErrorView>(error@),
        },
{
    if same_text(id, "counter") {
        match CounterGen::from_file(file) {
            Ok(generator) => Ok(AnyGenerator::Counter(generator)),
            Err(cause) => Err(GenError::ConfigError(file.path(), cause)),
        }
    } else if same_text(id, "id_event") {
        match IdEventGen::from_file(file) {
            Ok(generator) => Ok(AnyGenerator::IdEvent(generator)),
            Err(cause) => Err(GenError::ConfigError(file.path(), cause)),
        }
    } else {
        Err(GenError::NoGenerator(String::from_str(id)))
    }
}

/// The options of a run, by sink.
#[derive(Debug, PartialEq, Eq)]
pub enum GenOpts {
    Mqtt {
        host: String,
        topic: String,
        authenticate: bool,
        username: String,
        password: String,
        qos: i32,
        generator: AnyGenerator,
        sleep_interval: Duration,
    },
    Kafka {
        bootstrap_servers: String,
        topic: String,
        generator: AnyGenerator,
        sleep_interval: Duration,
    },
}

/// The mathematical content of a [`GenOpts`]; the sleep interval in whole
/// milliseconds.
pub enum GenOptsView {
    Mqtt {
        host: Seq<char>,
        topic: Seq<char>,
        authenticate: bool,
        username: Seq<char>,
        password: Seq<char>,
        qos: i32,
        generator: GeneratorView,
        sleep_millis: nat,
    },
    Kafka {
        bootstrap_servers: Seq<char>,
        topic: Seq<char>,
        generator: GeneratorView,
        sleep_millis: nat,
    },
}

impl View for GenOpts {
    type V = GenOptsView;

    open spec fn view(&self) -> GenOptsView {
        match *self {
            GenOpts::Mqtt {
                host,
                topic,
                authenticate,
                username,
                password,
                qos,
                generator,
                sleep_interval,
            } => GenOptsView::Mqtt {
                host: host@,
                topic: topic@,
                authenticate,
                username: username@,
                password: password@,
                qos,
                generator: generator@,
                sleep_millis: duration_millis(sleep_interval),
            },
            GenOpts::Kafka {
                bootstrap_servers,
                topic,
                generator,
                sleep_interval,
            } => GenOptsView::Kafka {
                bootstrap_servers: bootstrap_servers@,
                topic: topic@,
                generator: generator@,
                sleep_millis: duration_millis(sleep_interval),
            },
        }
    }
}

impl GenOptsView {
    /// The options in one line: the sink's address, its topic and, for
    /// MQTT, the user name.
    pub open spec fn line(self) -> Seq<char> {
        match self {
            GenOptsView::Mqtt { host, topic, username, .. } => "GenOpts: "@ + host + " "@ + topic
                + " "@ + username,
            GenOptsView::Kafka { bootstrap_servers, topic, .. } => "GenOpts: "@
                + bootstrap_servers + " "@ + topic,
        }
    }
}

impl GenOpts {
    /// Options for an MQTT sink: authenticated, at delivery-quality level 1.
    pub fn new_mqtt(
        host: &str,
        topic: &str,
        username: &str,
        password: &str,
        sleep_interval: Duration,
        generator: AnyGenerator,
    ) -> (r: GenOpts)
        ensures
            r@ == (GenOptsView::Mqtt {
                host: host@,
                topic: topic@,
                authenticate: true,
                username: username@,
                password: password@,
                qos: 1,
                generator: generator@,
                sleep_millis: duration_millis(sleep_interval),
            }),
            r is Mqtt,
            r->Mqtt_sleep_interval == sleep_interval,
            r->Mqtt_generator == generator,
    {
        GenOpts::Mqtt {
            qos: 1,
            host: String::from_str(host),
            topic: String::from_str(topic),
            authenticate: true,
            username: String::from_str(username),
            password: String::from_str(password),
            sleep_interval,
            generator,
        }
    }

    /// Options for a Kafka sink.
    pub fn new_kafka(
        bootstrap_servers: &str,
        topic: &str,
        sleep_interval: Duration,
        generator: AnyGenerator,
    ) -> (r: GenOpts)
        ensures
            r@ == (GenOptsView::Kafka {
                bootstrap_servers: bootstrap_servers@,
                topic: topic@,
                generator: generator@,
                sleep_millis: duration_millis(sleep_interval),
            }),
            r is Kafka,
            r->Kafka_sleep_interval == sleep_interval,
            r->Kafka_generator == generator,
    {
        GenOpts::Kafka {
            bootstrap_servers: String::from_str(bootstrap_servers),
            topic: String::from_str(topic),
            sleep_interval,
            generator,
        }
    }

    /// The options in one line.
    pub fn to_string(&self) -> (r: String)
        ensures
            r@ == self@.line(),
    {
        let mut line = String::from_str("GenOpts: ");
        match self {
            GenOpts::Mqtt { host, topic, username, .. } => {
                line.append(host.as_str());
                line.append(" ");
                line.append(topic.as_str());
                line.append(" ");
                line.append(username.as_str());
            },
            GenOpts::Kafka { bootstrap_servers, topic, .. } => {
                line.append(bootstrap_servers.as_str());
                line.append(" ");
                line.append(topic.as_str());
            },
        }
        line
    }

    /// How long the run sleeps after each cycle.
    pub open spec fn spec_sleep_interval(&self) -> Duration {
        match *self {
            GenOpts::Mqtt { sleep_interval, .. } => sleep_interval,
            GenOpts::Kafka { sleep_interval, .. } => sleep_interval,
        }
    }

    /// How long the run sleeps after each cycle.
    #[verifier::when_used_as_spec(spec_sleep_interval)]
    pub fn sleep_interval(&self) -> (r: Duration)
        ensures
            r == self.spec_sleep_interval(),
    {
        match self {
            GenOpts::Mqtt { sleep_interval, .. } => *sleep_interval,
            GenOpts::Kafka { sleep_interval, .. } => *sleep_interval,
        }
    }
}

/// What the command line gave, before any default is applied.
#[derive(Clone, Debug, Default, PartialEq, Eq)]
pub struct CliArgs {
    /// The sleep interval in milliseconds.
    pub interval: Option<u64>,
    /// The id of the generator.
    pub generator: Option<String>,
    /// The name of the subcommand, which selects the sink.
    pub subcommand: Option<String>,
    pub host: Option<String>,
    pub topic: Option<String>,
    pub username: Option<String>,
    pub password: Option<String>,
    pub bootstrap_servers: Option<String>,
}

/// The mathematical content of a [`CliArgs`].
pub struct CliArgsView {
    pub interval: Option<u64>,
    pub generator: Option<Seq<char>>,
    pub subcommand: Option<Seq<char>>,
    pub host: Option<Seq<char>>,
    pub topic: Option<Seq<char>>,
    pub username: Option<Seq<char>>,
    pub password: Option<Seq<char>>,
    pub bootstrap_servers: Option<Seq<char>>,
}

/// The text that an optional string holds.
pub open spec fn text_of(value: Option<String>) -> Option<Seq<char>> {
    match value {
        Some(text) => Some(text@),
        None => None,
    }
}

impl View for CliArgs {
    type V = CliArgsView;

    open spec fn view(&self) -> CliArgsView {
        CliArgsView {
            interval: self.interval,
            generator: text_of(self.generator),
            subcommand: text_of(self.subcommand),
            host: text_of(self.host),
            topic: text_of(self.topic),
            username: text_of(self.username),
            password: text_of(self.password),
            bootstrap_servers: text_of(self.bootstrap_servers),
        }
    }
}

/// A given text, or the default where none was given.
pub open spec fn or_default(value: Option<Seq<char>>, default: Seq<char>) -> Seq<char> {
    match value {
        Some(text) => text,
        None => default,
    }
}

/// The sleep interval in milliseconds where none was given.
pub open spec fn default_interval_millis() -> nat {
    500
}

impl CliArgsView {
    /// The sleep interval in milliseconds.
    pub open spec fn sleep_millis(self) -> nat {
        match self.interval {
            Some(millis) => millis as nat,
            None => default_interval_millis(),
        }
    }

    /// The id of the generator; `"counter"` where none was given.
    pub open spec fn generator_id(self) -> Seq<char> {
        or_default(self.generator, "counter"@)
    }

    /// The options that the arguments select. The subcommand decides first:
    /// none is an error, and so is any but `"mqtt-gen"` and `"kafka-gen"`.
    /// Then the generator is built, and its error is the run's. Every
    /// argument that was not given takes its default.
    pub open spec fn options(self, file: ConfigFileView) -> Result<GenOptsView, GenErrorView> {
        match self.subcommand {
            None => Err(GenErrorView::NoSink),
            Some(name) => if name == "mqtt-gen"@ {
                match generator_for(self.generator_id(), file) {
                    Err(error) => Err(error),
                    Ok(generator) => Ok(
                        GenOptsView::Mqtt {
                            host: or_default(self.host, "tcp://localhost:1883"@),
                            topic: or_default(self.topic, "my-topic"@),
                            authenticate: true,
                            username: or_default(self.username, "myusername"@),
                            password: or_default(self.password, "mypassword"@),
                            qos: 1,
                            generator,
                            sleep_millis: self.sleep_millis(),
                        },
                    ),
                }
            } else if name == "kafka-gen"@ {
                match generator_for(self.generator_id(), file) {
                    Err(error) => Err(error),
                    Ok(generator) => Ok(
                        GenOptsView::Kafka {
                            bootstrap_servers: or_default(
                                self.bootstrap_servers,
                                "127.0.0.1:9092"@,
                            ),
                            topic: or_default(self.topic, "my-topic"@),
                            generator,
                            sleep_millis: self.sleep_millis(),
                        },
                    ),
                }
            } else {
                Err(GenErrorView::InvalidSink(name))
            },
        }
    }
}

/// A given text, or the default where none was given.
fn text_or<'a>(value: &'a Option<String>, default: &'a str) -> (r: &'a str)
    ensures
        r@ == or_default(text_of(*value), default@),
{
    match value {
        Some(text) => text.as_str(),
        None => default,
    }
}

/// Makes the options of a run from what the command line gave and what the
/// configuration file holds.
pub fn parse_args(args: &CliArgs, file: &ConfigFile) -> (r: Result<GenOpts, GenError>)
    ensures
        match r {
            Ok(opts) => args@.options(file@) == Ok::<GenOptsView, GenErrorView>(opts@),
            Err(error) => args@.options(file@) == Err::<GenOptsView, GenErrorView>(error@),
        },
{
    let sleep_interval_ms: u64 = match args.interval {
        Some(millis) => millis,
        None => 500,
    };
    let sleep_interval = Duration::from_millis(sleep_interval_ms);
    let gen_type = text_or(&args.generator, "counter");
    match &args.subcommand {
        None => Err(GenError::NoSink),
        Some(name) => {
            if same_text(name.as_str(), "mqtt-gen") {
                let host = text_or(&args.host, "tcp://localhost:1883");
                let topic = text_or(&args.topic, "my-topic");
                let username = text_or(&args.username, "myusername");
                let password = text_or(&args.password, "mypassword");
                match generator_from_id(gen_type, file) {
                    Ok(generator) => Ok(
                        GenOpts::new_mqtt(
                            host,
                            topic,
                            username,
                            password,
                            sleep_interval,
                            generator,
                        ),
                    ),
                    Err(error) => Err(error),
                }
            } else if same_text(name.as_str(), "kafka-gen") {
                let bootstrap_servers = text_or(&args.bootstrap_servers, "127.0.0.1:9092");
                let topic = text_or(&args.topic, "my-topic");
                match generator_from_id(gen_type, file) {
                    Ok(generator) => Ok(
                        GenOpts::new_kafka(bootstrap_servers, topic, sleep_interval, generator),
                    ),
                    Err(error) => Err(error),
                }
            } else {
                Err(GenError::InvalidSink(name.clone()))
            }
        },
    }
}

} // verus!
