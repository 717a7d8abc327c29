//! Records: what a generator produces on one tick.

use vstd::prelude::*;
use vstd::string::*;
use crate::text::{decimal_text, u64_to_text};

verus! {

/// One generated record: a timestamp and one of two payload shapes.
#[derive(Clone, Debug, PartialEq, Eq)]
pub enum Record {
    /// A counter tick.
    Counter { time: String, count: u64 },
    /// An id/event pair.
    IdEvent { time: String, id: String, event: String },
}

/// The mathematical content of a [`Record`].
pub enum RecordView {
    Counter { time: Seq<char>, count: nat },
    IdEvent { time: Seq<char>, id: Seq<char>, event: Seq<char> },
}

/// The content of one field of a record.
pub enum FieldValue {
    Text(Seq<char>),
    Number(nat),
}

impl View for Record {
    type V = RecordView;

    open spec fn view(&self) -> RecordView {
        match *self {
            Record::Counter { time, count } => RecordView::Counter {
                time: time@,
                count: count as nat,
            },
            Record::IdEvent { time, id, event } => RecordView::IdEvent {
                time: time@,
                id: id@,
                event: event@,
            },
        }
    }
}

impl RecordView {
    /// The timestamp of the record.
    pub open spec fn time(self) -> Seq<char> {
        match self {
            RecordView::Counter { time, .. } => time,
            RecordView::IdEvent { time, .. } => time,
        }
    }

    /// The field names in declared order: the timestamp first, then the
    /// payload fields.
    pub open spec fn field_names(self) -> Seq<Seq<char>> {
        match self {
            RecordView::Counter { .. } => seq!["time"@, "count"@],
            RecordView::IdEvent { .. } => seq!["time"@, "id"@, "event"@],
        }
    }

    /// The field contents, in the order of [`RecordView::field_names`].
    pub open spec fn field_values(self) -> Seq<FieldValue> {
        match self {
            RecordView::Counter { time, count } => seq![
                FieldValue::Text(time),
                FieldValue::Number(count),
            ],
            RecordView::IdEvent { time, id, event } => seq![
                FieldValue::Text(time),
                FieldValue::Text(id),
                FieldValue::Text(event),
            ],
        }
    }

    /// The fields as texts, a number as its decimal numeral, in the order of
    /// [`RecordView::field_names`].
    pub open spec fn field_texts(self) -> Seq<Seq<char>> {
        match self {
            RecordView::Counter { time, count } => seq![time, decimal_text(count)],
            RecordView::IdEvent { time, id, event } => seq![time, id, event],
        }
    }

    /// The record as a finite map from field name to field content.
    pub open spec fn members(self) -> Map<Seq<char>, FieldValue> {
        match self {
            RecordView::Counter { time, count } => Map::empty().insert(
                "time"@,
                FieldValue::Text(time),
            ).insert("count"@, FieldValue::Number(count)),
            RecordView::IdEvent { time, id, event } => Map::empty().insert(
                "time"@,
                FieldValue::Text(time),
            ).insert("id"@, FieldValue::Text(id)).insert("event"@, FieldValue::Text(event)),
        }
    }
}

/// The record that a set of members describes: a text `time` with a number
/// `count` and nothing else is a counter record; texts `time`, `id` and
/// `event` and nothing else are an id/event record; anything else is none.
pub open spec fn record_of(members: Map<Seq<char>, FieldValue>) -> Option<RecordView> {
    if members.dom() =~= set!["time"@, "count"@] && members["time"@] is Text
        && members["count"@] is Number {
        Some(
            RecordView::Counter {
                time: members["time"@]->Text_0,
                count: members["count"@]->Number_0,
            },
        )
    } else if members.dom() =~= set!["time"@, "id"@, "event"@] && members["time"@] is Text
        && members["id"@] is Text && members["event"@] is Text {
        Some(
            RecordView::IdEvent {
                time: members["time"@]->Text_0,
                id: members["id"@]->Text_0,
                event: members["event"@]->Text_0,
            },
        )
    } else {
        None
    }
}

/// The field names are four different texts.
pub proof fn lemma_field_names_differ()
    ensures
        "time"@ != "count"@,
        "time"@ != "id"@,
        "time"@ != "event"@,
        "count"@ != "id"@,
        "count"@ != "event"@,
        "id"@ != "event"@,
{
    reveal_strlit("time");
    reveal_strlit("count");
    reveal_strlit("id");
    reveal_strlit("event");
    assert("time"@.len() == 4);
    assert("count"@.len() == 5);
    assert("id"@.len() == 2);
    assert("event"@.len() == 5);
    assert("count"@[0] == 'c');
    assert("event"@[0] == 'e');
}

/// The members of a record hold the whole record: reading them back gives
/// the record, for every record. Two records with the same members are
/// therefore the same record.
pub proof fn law_members_round_trip(record: RecordView)
    ensures
        record_of(record.members()) == Some(record),
{
    lemma_field_names_differ();
    match record {
        RecordView::Counter { time, count } => {
            assert(record.members().dom() =~= set!["time"@, "count"@]);
        },
        RecordView::IdEvent { time, id, event } => {
            assert(record.members().dom() =~= set!["time"@, "id"@, "event"@]);
            assert(!(record.members().dom() =~= set!["time"@, "count"@])) by {
                assert(record.members().dom().contains("id"@));
                assert(!set!["time"@, "count"@].contains("id"@));
            }
        },
    }
}

/// The texts held by a sequence of strings.
pub open spec fn texts(strings: Seq<String>) -> Seq<Seq<char>> {
    strings.map_values(|s: String| s@)
}

impl Record {
    /// A counter record.
    pub fn counter(time: String, count: u64) -> (r: Record)
        ensures
            r@ == (RecordView::Counter { time: time@, count: count as nat }),
    {
        Record::Counter { time, count }
    }

    /// An id/event record.
    pub fn id_event(time: String, id: String, event: String) -> (r: Record)
        ensures
            r@ == (RecordView::IdEvent { time: time@, id: id@, event: event@ }),
    {
        Record::IdEvent { time, id, event }
    }

    /// The field names in declared order.
    pub fn field_names(&self) -> (names: Vec<String>)
        ensures
            texts(names@) == self@.field_names(),
    {
        let mut names: Vec<String> = Vec::new();
        names.push(String::from_str("time"));
        match self {
            Record::Counter { .. } => {
                names.push(String::from_str("count"));
            },
            Record::IdEvent { .. } => {
                names.push(String::from_str("id"));
                names.push(String::from_str("event"));
            },
        }
        assert(texts(names@) =~= self@.field_names());
        names
    }

    /// The fields as texts, in the order of [`Record::field_names`].
    pub fn field_texts(&self) -> (fields: Vec<String>)
        ensures
            texts(fields@) == self@.field_texts(),
    {
        let mut fields: Vec<String> = Vec::new();
        match self {
            Record::Counter { time, count } => {
                fields.push(time.clone());
                fields.push(u64_to_text(*count));
            },
            Record::IdEvent { time, id, event } => {
                fields.push(time.clone());
                fields.push(id.clone());
                fields.push(event.clone());
            },
        }
        assert(texts(fields@) =~= self@.field_texts());
        fields
    }
}

} // verus!
