//! The generator of random id/event pairs.

use vstd::prelude::*;
use vstd::string::*;
use rand::seq::SliceRandom;
use crate::config::{
    id_event_settings, ConfigCause, ConfigCauseView, ConfigFile, ConfigFileView, IdEventConfig,
    IdEventConfigView, TomlItem,
};
use crate::format::Format;
use crate::generator::{
    encode, generated_as, get_current_time_iso8601, GenerateError, Generator,
};
use crate::record::{texts, Record, RecordView};

verus! {

/// Calls `rand::seq::SliceRandom::choose` on the items, with
/// `rand::thread_rng`. Trusted: an empty slice gives `None`; any other gives
/// one of its elements.
#[verifier::external_body]
fn choose_entry<'a>(items: &'a Vec<String>) -> (r: Option<&'a String>)
    ensures
        match r {
            Some(chosen) => items@.contains(*chosen),
            None => items@.len() == 0,
        },
{
    items.choose(&mut rand::thread_rng())
}

/// The text that stands for a draw from an empty vocabulary.
pub open spec fn placeholder() -> Seq<char> {
    "?"@
}

/// Whether `chosen` can be a draw from `vocabulary`: one of its entries, or
/// the placeholder where it has none.
pub open spec fn drawn_from(vocabulary: Seq<Seq<char>>, chosen: Seq<char>) -> bool {
    if vocabulary.len() == 0 {
        chosen == placeholder()
    } else {
        vocabulary.contains(chosen)
    }
}

/// The ids of a generator built without a configuration.
pub open spec fn default_ids() -> Seq<Seq<char>> {
    seq!["door-1"@, "window-2"@, "access-1"@]
}

/// The events of a generator built without a configuration.
pub open spec fn default_events() -> Seq<Seq<char>> {
    seq!["open"@, "close"@, "cross"@]
}

/// Turns a draw into a text: the chosen entry, or the placeholder where the
/// vocabulary gave none.
pub fn draw_or_placeholder(choice: Option<&String>) -> (r: String)
    ensures
        r@ == match choice {
            Some(chosen) => chosen@,
            None => placeholder(),
        },
{
    match choice {
        Some(chosen) => chosen.clone(),
        None => String::from_str("?"),
    }
}

/// A generator of random id/event pairs from two fixed vocabularies.
#[derive(Clone, Debug, PartialEq, Eq)]
pub struct IdEventGen {
    ids: Vec<String>,
    events: Vec<String>,
    format: Format,
}

/// The mathematical content of an [`IdEventGen`].
pub struct IdEventGenView {
    pub ids: Seq<Seq<char>>,
    pub events: Seq<Seq<char>>,
    pub format: Format,
}

impl View for IdEventGen {
    type V = IdEventGenView;

    closed spec fn view(&self) -> IdEventGenView {
        IdEventGenView { ids: texts(self.ids@), events: texts(self.events@), format: self.format }
    }
}

impl IdEventGenView {
    /// The generator built without a configuration.
    pub open spec fn initial() -> IdEventGenView {
        IdEventGenView { ids: default_ids(), events: default_events(), format: Format::CSV }
    }

    /// The generator built from a configuration: its vocabularies, and
    /// delimited text where it names no format.
    pub open spec fn configured(config: IdEventConfigView) -> IdEventGenView {
        IdEventGenView {
            ids: config.ids,
            events: config.events,
            format: match config.format {
                Some(format) => format,
                None => Format::CSV,
            },
        }
    }

    /// The generator for what a configuration file gives, or the cause by
    /// which there is none.
    pub open spec fn from_file(file: ConfigFileView) -> Result<IdEventGenView, ConfigCauseView> {
        match file.settings(|document: TomlItem| id_event_settings(document)) {
            Ok(None) => Ok(IdEventGenView::initial()),
            Ok(Some(config)) => Ok(IdEventGenView::configured(config)),
            Err(cause) => Err(cause),
        }
    }

    /// Whether `record` can be generated: an id/event record whose id is a
    /// draw from the ids and whose event is a draw from the events.
    pub open spec fn can_generate(self, record: RecordView) -> bool {
        &&& record is IdEvent
        &&& drawn_from(self.ids, record->id)
        &&& drawn_from(self.events, record->event)
    }

    /// Whether a generation can end with `r`: the encoding of a record that
    /// can be generated.
    pub open spec fn can_produce(self, r: Result<String, GenerateError>) -> bool {
        exists|record: RecordView| #[trigger]
            self.can_generate(record) && generated_as(self.format, record, r)
    }

    /// Whether one generation can lead from `self` to `after` with result
    /// `r`: the generator stays as it is.
    pub open spec fn produces(self, after: IdEventGenView, r: Result<String, GenerateError>) -> bool {
        after == self && self.can_produce(r)
    }
}

impl IdEventGen {
    /// A generator with the built-in vocabularies, encoding as delimited text.
    pub fn new() -> (r: IdEventGen)
        ensures
            r@ == IdEventGenView::initial(),
    {
        let mut ids: Vec<String> = Vec::new();
        ids.push(String::from_str("door-1"));
        ids.push(String::from_str("window-2"));
        ids.push(String::from_str("access-1"));
        let mut events: Vec<String> = Vec::new();
        events.push(String::from_str("open"));
        events.push(String::from_str("close"));
        events.push(String::from_str("cross"));
        assert(texts(ids@) =~= default_ids());
        assert(texts(events@) =~= default_events());
        IdEventGen { ids, events, format: Format::CSV }
    }

    /// A generator with the vocabularies of a configuration; delimited text
    /// where the configuration names no format.
    pub fn from_config(config: IdEventConfig) -> (r: IdEventGen)
        ensures
            r@ == IdEventGenView::configured(config@),
    {
        let format = match config.format {
            Some(format) => format,
            None => Format::CSV,
        };
        IdEventGen { ids: config.ids, events: config.events, format }
    }

    /// A generator for what a configuration file gives: the built-in one
    /// where no path was given, the configured one where the document holds
    /// id/event settings, else the cause by which it does not.
    pub fn from_file(file: &ConfigFile) -> (r: Result<IdEventGen, ConfigCause>)
        ensures
            match IdEventGenView::from_file(file@) {
                Ok(view) => r is Ok && r->Ok_0@ == view,
                Err(cause) => r is Err && r->Err_0@ == cause,
            },
    {
        match file {
            ConfigFile::Absent => Ok(IdEventGen::new()),
            ConfigFile::Unreadable { cause, .. } => Err(ConfigCause::Unreadable(cause.clone())),
            ConfigFile::Read { content, .. } => match IdEventConfig::from_document(
                content.as_str(),
            ) {
                Ok(config) => Ok(IdEventGen::from_config(config)),
                Err(cause) => Err(cause),
            },
        }
    }

    /// The format this generator encodes with.
    pub fn format(&self) -> (r: Format)
        ensures
            r == self@.format,
    {
        self.format
    }

    /// The record for a given timestamp and two given draws.
    pub fn record_from(&self, time: String, id: Option<&String>, event: Option<&String>) -> (r:
        Record)
        ensures
            r@ == (RecordView::IdEvent {
                time: time@,
                id: match id {
                    Some(chosen) => chosen@,
                    None => placeholder(),
                },
                event: match event {
                    Some(chosen) => chosen@,
                    None => placeholder(),
                },
            }),
    {
        Record::id_event(time, draw_or_placeholder(id), draw_or_placeholder(event))
    }

    /// Draws an id and an event, each independently of the other, and stamps
    /// the pair with the current time. Every id comes from the ids and every
    /// event from the events; an empty vocabulary gives the placeholder.
    pub fn next_record(&self) -> (r: Record)
        ensures
            self@.can_generate(r@),
    {
        let id = choose_entry(&self.ids);
        let event = choose_entry(&self.events);
        let record = self.record_from(get_current_time_iso8601(), id, event);
        proof {
            lemma_choice_is_drawn(self.ids@, id);
            lemma_choice_is_drawn(self.events@, event);
        }
        record
    }
}

/// A choice from a vocabulary, put through [`draw_or_placeholder`], is a
/// draw from its texts.
proof fn lemma_choice_is_drawn(items: Seq<String>, choice: Option<&String>)
    requires
        match choice {
            Some(chosen) => items.contains(*chosen),
            None => items.len() == 0,
        },
    ensures
        drawn_from(
            texts(items),
            match choice {
                Some(chosen) => chosen@,
                None => placeholder(),
            },
        ),
{
    match choice {
        Some(chosen) => {
            let i = choose|i: int| 0 <= i < items.len() && items[i] == *chosen;
            assert(texts(items)[i] == chosen@);
        },
        None => {},
    }
}

impl Generator for IdEventGen {
    open spec fn produces(&self, after: &Self, r: &Result<String, GenerateError>) -> bool {
        self@.produces(after@, *r)
    }

    fn gen(&mut self) -> (r: Result<String, GenerateError>) {
        let record = self.next_record();
        encode(self.format, &record)
    }
}

} // verus!
