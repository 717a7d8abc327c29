//! Sinks: what to ask of a broker, and what a sink does once it is closed.

use vstd::prelude::*;
use vstd::string::*;
use crate::config::{ConfigCause, ConfigCauseView};
use crate::options::{AnyGenerator, GenOpts, GenOptsView};

verus! {

/// The step of a sink's life at which its broker failed.
#[derive(Clone, Copy, Debug, PartialEq, Eq, Structural)]
pub enum Stage {
    Connect,
    Send,
    Close,
}

/// A failure that a broker reported: the step, and the broker's message.
#[derive(Clone, Debug, PartialEq, Eq)]
pub struct BrokerFailure {
    pub stage: Stage,
    pub message: String,
}

/// The mathematical content of a [`BrokerFailure`].
pub struct BrokerFailureView {
    pub stage: Stage,
    pub message: Seq<char>,
}

impl View for BrokerFailure {
    type V = BrokerFailureView;

    open spec fn view(&self) -> BrokerFailureView {
        BrokerFailureView { stage: self.stage, message: self.message@ }
    }
}

/// Why a sink could not be made, or could not do what it was asked.
#[derive(Clone, Debug, PartialEq, Eq)]
pub enum SinkErr {
    Unk(String),
    NoGenerator(String),
    ConfigError(String, ConfigCause),
    /// The MQTT broker failed.
    MqttError(BrokerFailure),
    /// The Kafka broker failed.
    KafkaError(BrokerFailure),
}

/// The mathematical content of a [`SinkErr`].
pub enum SinkErrView {
    Unk(Seq<char>),
    NoGenerator(Seq<char>),
    ConfigError(Seq<char>, ConfigCauseView),
    MqttError(BrokerFailureView),
    KafkaError(BrokerFailureView),
}

impl View for SinkErr {
    type V = SinkErrView;

    open spec fn view(&self) -> SinkErrView {
        match *self {
            SinkErr::Unk(message) => SinkErrView::Unk(message@),
            SinkErr::NoGenerator(id) => SinkErrView::NoGenerator(id@),
            SinkErr::ConfigError(path, cause) => SinkErrView::ConfigError(path@, cause@),
            SinkErr::MqttError(failure) => SinkErrView::MqttError(failure@),
            SinkErr::KafkaError(failure) => SinkErrView::KafkaError(failure@),
        }
    }
}

impl SinkErrView {
    /// Whether this is a broker's failure to connect.
    pub open spec fn is_connect_error(self) -> bool {
        match self {
            SinkErrView::MqttError(failure) => failure.stage == Stage::Connect,
            SinkErrView::KafkaError(failure) => failure.stage == Stage::Connect,
            _ => false,
        }
    }

    /// Whether this is a broker's failure to take a message.
    pub open spec fn is_send_error(self) -> bool {
        match self {
            SinkErrView::MqttError(failure) => failure.stage == Stage::Send,
            SinkErrView::KafkaError(failure) => failure.stage == Stage::Send,
            _ => false,
        }
    }
}

/// The two transports.
#[derive(Clone, Copy, Debug, PartialEq, Eq, Structural)]
pub enum Transport {
    Mqtt,
    Kafka,
}

impl Transport {
    /// The error for a failure of this transport's broker.
    pub open spec fn failure(self, stage: Stage, message: Seq<char>) -> SinkErrView {
        match self {
            Transport::Mqtt => SinkErrView::MqttError(BrokerFailureView { stage, message }),
            Transport::Kafka => SinkErrView::KafkaError(BrokerFailureView { stage, message }),
        }
    }

    /// Makes the error for a failure of this transport's broker.
    pub fn error(self, stage: Stage, message: String) -> (r: SinkErr)
        ensures
            r@ == self.failure(stage, message@),
    {
        match self {
            Transport::Mqtt => SinkErr::MqttError(BrokerFailure { stage, message }),
            Transport::Kafka => SinkErr::KafkaError(BrokerFailure { stage, message }),
        }
    }
}

/// A user name and a password.
#[derive(Clone, Debug, PartialEq, Eq)]
pub struct Credentials {
    pub username: String,
    pub password: String,
}

/// One setting of a Kafka producer.
#[derive(Clone, Debug, PartialEq, Eq)]
pub struct Setting {
    pub key: String,
    pub value: String,
}

/// What to ask of a broker to open a sink.
#[derive(Clone, Debug, PartialEq, Eq)]
pub enum ConnectRequest {
    /// Connect to the MQTT broker at `host`, with the credentials if any, and
    /// wait until the connection stands or has failed.
    Mqtt { host: String, credentials: Option<Credentials> },
    /// Make a Kafka producer with these settings, in this order.
    Kafka { settings: Vec<Setting> },
}

/// The mathematical content of a [`ConnectRequest`]; credentials as the pair
/// of user name and password, a setting as the pair of key and value.
pub enum ConnectRequestView {
    Mqtt { host: Seq<char>, credentials: Option<(Seq<char>, Seq<char>)> },
    Kafka { settings: Seq<(Seq<char>, Seq<char>)> },
}

impl View for ConnectRequest {
    type V = ConnectRequestView;

    open spec fn view(&self) -> ConnectRequestView {
        match *self {
            ConnectRequest::Mqtt { host, credentials } => ConnectRequestView::Mqtt {
                host: host@,
                credentials: match credentials {
                    Some(given) => Some((given.username@, given.password@)),
                    None => None,
                },
            },
            ConnectRequest::Kafka { settings } => ConnectRequestView::Kafka {
                settings: settings@.map_values(|s: Setting| (s.key@, s.value@)),
            },
        }
    }
}

/// The request that opens an MQTT sink: credentials only where the sink
/// authenticates.
pub open spec fn mqtt_request(
    host: Seq<char>,
    authenticate: bool,
    username: Seq<char>,
    password: Seq<char>,
) -> ConnectRequestView {
    ConnectRequestView::Mqtt {
        host,
        credentials: if authenticate {
            Some((username, password))
        } else {
            None
        },
    }
}

/// The time in milliseconds after which a Kafka message that was not
/// delivered is given up, as the producer's setting has it.
pub open spec fn kafka_message_timeout() -> Seq<char> {
    "5000"@
}

/// The request that opens a Kafka sink: the bootstrap servers, delivery
/// reports with offsets, and the message timeout.
pub open spec fn kafka_request(bootstrap_servers: Seq<char>) -> ConnectRequestView {
    ConnectRequestView::Kafka {
        settings: seq![
            ("bootstrap.servers"@, bootstrap_servers),
            ("produce.offset.report"@, "true"@),
            ("message.timeout.ms"@, kafka_message_timeout()),
        ],
    }
}

/// A message for a broker.
#[derive(Clone, Debug, PartialEq, Eq)]
pub enum Delivery {
    /// Publish `payload` to `topic` at delivery-quality level `qos`, and wait
    /// for the broker's acknowledgement.
    Mqtt { topic: String, qos: i32, payload: String },
    /// Send `payload` to `topic`, and wait for the result.
    Kafka { topic: String, payload: String },
}

/// The mathematical content of a [`Delivery`].
pub enum DeliveryView {
    Mqtt { topic: Seq<char>, qos: i32, payload: Seq<char> },
    Kafka { topic: Seq<char>, payload: Seq<char> },
}

impl View for Delivery {
    type V = DeliveryView;

    open spec fn view(&self) -> DeliveryView {
        match *self {
            Delivery::Mqtt { topic, qos, payload } => DeliveryView::Mqtt {
                topic: topic@,
                qos,
                payload: payload@,
            },
            Delivery::Kafka { topic, payload } => DeliveryView::Kafka {
                topic: topic@,
                payload: payload@,
            },
        }
    }
}

/// What to ask of a broker to close a sink.
#[derive(Clone, Copy, Debug, PartialEq, Eq, Structural)]
pub enum CloseRequest {
    /// Disconnect, and wait until the broker has let go.
    Disconnect,
    /// Nothing is to be done.
    Nothing,
}

/// An MQTT sink: a fixed topic and delivery-quality level.
#[derive(Clone, Debug, PartialEq, Eq)]
pub struct MqttSink {
    topic: String,
    qos: i32,
    open: bool,
}

/// A Kafka sink: a fixed topic.
#[derive(Clone, Debug, PartialEq, Eq)]
pub struct KafkaSink {
    topic: String,
    open: bool,
}

/// A sink of either transport.
#[derive(Clone, Debug, PartialEq, Eq)]
pub enum Sink {
    Mqtt(MqttSink),
    Kafka(KafkaSink),
}

/// The mathematical content of a sink: its transport, its topic, the
/// delivery-quality level (of an MQTT sink), and whether it is open.
pub struct SinkView {
    pub transport: Transport,
    pub topic: Seq<char>,
    pub qos: i32,
    pub open: bool,
}

impl SinkView {
    /// The message that carries `payload` to this sink's broker; `None`
    /// once the sink is closed.
    pub open spec fn delivery(self, payload: Seq<char>) -> Option<DeliveryView> {
        if !self.open {
            None
        } else {
            match self.transport {
                Transport::Mqtt => Some(
                    DeliveryView::Mqtt { topic: self.topic, qos: self.qos, payload },
                ),
                Transport::Kafka => Some(DeliveryView::Kafka { topic: self.topic, payload }),
            }
        }
    }

    /// What closing asks of the broker: an open MQTT sink disconnects; a
    /// Kafka sink, and any sink that is closed already, asks nothing.
    pub open spec fn close_request(self) -> CloseRequest {
        if self.open && self.transport == Transport::Mqtt {
            CloseRequest::Disconnect
        } else {
            CloseRequest::Nothing
        }
    }

    /// The sink after a close.
    pub open spec fn closed(self) -> SinkView {
        SinkView { open: false, ..self }
    }

    /// The error for a failure of this sink's broker.
    pub open spec fn failure(self, stage: Stage, message: Seq<char>) -> SinkErrView {
        self.transport.failure(stage, message)
    }
}

/// The error of a send on a sink that is closed.
pub open spec fn closed_error() -> SinkErrView {
    SinkErrView::Unk("sink is closed"@)
}

impl View for MqttSink {
    type V = SinkView;

    closed spec fn view(&self) -> SinkView {
        SinkView { transport: Transport::Mqtt, topic: self.topic@, qos: self.qos, open: self.open }
    }
}

impl View for KafkaSink {
    type V = SinkView;

    closed spec fn view(&self) -> SinkView {
        SinkView { transport: Transport::Kafka, topic: self.topic@, qos: 0, open: self.open }
    }
}

impl View for Sink {
    type V = SinkView;

    open spec fn view(&self) -> SinkView {
        match *self {
            Sink::Mqtt(sink) => sink@,
            Sink::Kafka(sink) => sink@,
        }
    }
}

/// The outcome of opening a sink: the open sink where the broker accepted,
/// else the broker's failure to connect.
pub open spec fn opened(
    transport: Transport,
    topic: Seq<char>,
    qos: i32,
    connected: Result<(), String>,
) -> Result<SinkView, SinkErrView> {
    match connected {
        Ok(_) => Ok(SinkView { transport, topic, qos, open: true }),
        Err(message) => Err(transport.failure(Stage::Connect, message@)),
    }
}

impl MqttSink {
    /// What to ask of the broker to open an MQTT sink.
    pub fn connect_request(host: &str, authenticate: bool, username: &str, password: &str) -> (r:
        ConnectRequest)
        ensures
            r@ == mqtt_request(host@, authenticate, username@, password@),
    {
        let credentials = if authenticate {
            Some(
                Credentials {
                    username: String::from_str(username),
                    password: String::from_str(password),
                },
            )
        } else {
            None
        };
        ConnectRequest::Mqtt { host: String::from_str(host), credentials }
    }

    /// An MQTT sink on a connection whose outcome is `connected`.
    pub fn new(topic: &str, qos: i32, connected: Result<(), String>) -> (r: Result<
        MqttSink,
        SinkErr,
    >)
        ensures
            match opened(Transport::Mqtt, topic@, qos, connected) {
                Ok(sink) => r is Ok && r->Ok_0@ == sink,
                Err(error) => r is Err && r->Err_0@ == error,
            },
    {
        match connected {
            Ok(_) => Ok(MqttSink { topic: String::from_str(topic), qos, open: true }),
            Err(message) => Err(Transport::Mqtt.error(Stage::Connect, message)),
        }
    }
}

impl KafkaSink {
    /// What to ask of the broker to open a Kafka sink.
    pub fn connect_request(bootstrap_servers: &str) -> (r: ConnectRequest)
        ensures
            r@ == kafka_request(bootstrap_servers@),
    {
        let msg_timeout_ms = "5000";
        let mut settings: Vec<Setting> = Vec::new();
        settings.push(
            Setting {
                key: String::from_str("bootstrap.servers"),
                value: String::from_str(bootstrap_servers),
            },
        );
        settings.push(
            Setting {
                key: String::from_str("produce.offset.report"),
                value: String::from_str("true"),
            },
        );
        settings.push(
            Setting {
                key: String::from_str("message.timeout.ms"),
                value: String::from_str(msg_timeout_ms),
            },
        );
        let r = ConnectRequest::Kafka { settings };
        assert(r@->Kafka_settings =~= kafka_request(bootstrap_servers@)->Kafka_settings);
        r
    }

    /// A Kafka sink on a producer whose making had the outcome `created`.
    pub fn new(topic: &str, created: Result<(), String>) -> (r: Result<KafkaSink, SinkErr>)
        ensures
            match opened(Transport::Kafka, topic@, 0, created) {
                Ok(sink) => r is Ok && r->Ok_0@ == sink,
                Err(error) => r is Err && r->Err_0@ == error,
            },
    {
        match created {
            Ok(_) => Ok(KafkaSink { topic: String::from_str(topic), open: true }),
            Err(message) => Err(Transport::Kafka.error(Stage::Connect, message)),
        }
    }
}

impl Sink {
    /// The transport of this sink.
    pub fn transport(&self) -> (r: Transport)
        ensures
            r == self@.transport,
    {
        match self {
            Sink::Mqtt(_) => Transport::Mqtt,
            Sink::Kafka(_) => Transport::Kafka,
        }
    }

    /// Whether the sink is open.
    pub fn is_open(&self) -> (r: bool)
        ensures
            r == self@.open,
    {
        match self {
            Sink::Mqtt(sink) => sink.open,
            Sink::Kafka(sink) => sink.open,
        }
    }

    /// The message that carries `data` to the broker. A closed sink sends
    /// nothing: it answers with an error.
    pub fn send(&self, data: String) -> (r: Result<Delivery, SinkErr>)
        ensures
            match self@.delivery(data@) {
                Some(delivery) => r is Ok && r->Ok_0@ == delivery,
                None => r is Err && r->Err_0@ == closed_error(),
            },
    {
        if !self.is_open() {
            return Err(SinkErr::Unk(String::from_str("sink is closed")));
        }
        match self {
            Sink::Mqtt(sink) => Ok(
                Delivery::Mqtt { topic: sink.topic.clone(), qos: sink.qos, payload: data },
            ),
            Sink::Kafka(sink) => Ok(Delivery::Kafka { topic: sink.topic.clone(), payload: data }),
        }
    }

    /// The result of a step that the broker answered with `outcome`: the
    /// broker's failure becomes this sink's error of that step.
    pub fn answered(&self, stage: Stage, outcome: Result<(), String>) -> (r: Result<(), SinkErr>)
        ensures
            match outcome {
                Ok(_) => r is Ok,
                Err(message) => r is Err && r->Err_0@ == self@.failure(stage, message@),
            },
    {
        match outcome {
            Ok(_) => Ok(()),
            Err(message) => Err(self.transport().error(stage, message)),
        }
    }

    /// Closes the sink and says what to ask of the broker. Closing a closed
    /// sink changes nothing and asks nothing.
    pub fn close(&mut self) -> (r: CloseRequest)
        ensures
            r == old(self)@.close_request(),
            final(self)@ == old(self)@.closed(),
    {
        match self {
            Sink::Mqtt(sink) => {
                let r = if sink.open {
                    CloseRequest::Disconnect
                } else {
                    CloseRequest::Nothing
                };
                sink.open = false;
                r
            },
            Sink::Kafka(sink) => {
                sink.open = false;
                CloseRequest::Nothing
            },
        }
    }
}

/// Closing is idempotent: after one close, another asks nothing of the
/// broker and leaves the sink as it is, and no payload is delivered.
pub proof fn law_close_is_idempotent(sink: SinkView, payload: Seq<char>)
    ensures
        sink.closed().close_request() == CloseRequest::Nothing,
        sink.closed().closed() == sink.closed(),
        sink.closed().delivery(payload) is None,
{
}

/// What to ask of the broker to open the sink that the options select.
pub open spec fn request_for(opts: GenOptsView) -> ConnectRequestView {
    match opts {
        GenOptsView::Mqtt {
            host,
            authenticate,
            username,
            password,
            ..
        } => mqtt_request(host, authenticate, username, password),
        GenOptsView::Kafka { bootstrap_servers, .. } => kafka_request(
            bootstrap_servers,
        ),
    }
}

/// The sink that the options select, on a connection whose outcome is
/// `connected`.
pub open spec fn sink_for(opts: GenOptsView, connected: Result<(), String>) -> Result<
    SinkView,
    SinkErrView,
> {
    match opts {
        GenOptsView::Mqtt { topic, qos, .. } => opened(
            Transport::Mqtt,
            topic,
            qos,
            connected,
        ),
        GenOptsView::Kafka { topic, .. } => opened(
            Transport::Kafka,
            topic,
            0,
            connected,
        ),
    }
}

/// What to ask of the broker to open the sink that the options select.
pub fn connect_request(opts: &GenOpts) -> (r: ConnectRequest)
    ensures
        r@ == request_for(opts@),
{
    match opts {
        GenOpts::Mqtt { host, authenticate, username, password, .. } => MqttSink::connect_request(
            host.as_str(),
            *authenticate,
            username.as_str(),
            password.as_str(),
        ),
        GenOpts::Kafka { bootstrap_servers, .. } => KafkaSink::connect_request(
            bootstrap_servers.as_str(),
        ),
    }
}

/// Makes the sink that the options select, on a connection whose outcome is
/// `connected`, and hands the generator back beside it.
pub fn new_sink(opts: GenOpts, connected: Result<(), String>) -> (r: Result<
    (Sink, AnyGenerator),
    SinkErr,
>)
    ensures
        match sink_for(opts@, connected) {
            Ok(sink) => r is Ok && r->Ok_0.0@ == sink && r->Ok_0.1 == match opts {
                GenOpts::Mqtt { generator, .. } => generator,
                GenOpts::Kafka { generator, .. } => generator,
            },
            Err(error) => r is Err && r->Err_0@ == error,
        },
{
    match opts {
        GenOpts::Mqtt { topic, qos, generator, .. } => match MqttSink::new(
            topic.as_str(),
            qos,
            connected,
        ) {
            Ok(sink) => Ok((Sink::Mqtt(sink), generator)),
            Err(error) => Err(error),
        },
        GenOpts::Kafka { topic, generator, .. } => match KafkaSink::new(
            topic.as_str(),
            connected,
        ) {
            Ok(sink) => Ok((Sink::Kafka(sink), generator)),
            Err(error) => Err(error),
        },
    }
}

} // verus!
