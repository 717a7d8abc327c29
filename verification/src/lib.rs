//! A synthetic-event publisher: generators produce records, encoders turn
//! them into text, and a publish run decides what is sent, when the run
//! sleeps and when it closes its sink.

pub mod config;
pub mod counter;
pub mod format;
pub mod generator;
pub mod id_event;
pub mod options;
pub mod publish;
pub mod record;
pub mod sink;
pub mod text;

pub use crate::counter::CounterGen;
pub use crate::generator::Generator;
pub use crate::id_event::IdEventGen;
pub use crate::options::{generator_from_id, parse_args, GenError, GenOpts};
pub use crate::publish::gen;
pub use crate::sink::{new_sink, SinkErr};
