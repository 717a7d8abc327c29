//! The counter generator and the law of its count.

use vstd::prelude::*;
use crate::format::Format;
use crate::config::{
    counter_settings, ConfigCause, ConfigCauseView, ConfigFile, ConfigFileView, CounterConfig,
    TomlItem,
};
use crate::generator::{
    encode, generated_as, get_current_time_iso8601, GenerateError, Generator,
};
use crate::record::{Record, RecordView};

verus! {

/// A generator of counter ticks: each successful generation carries the
/// current count and then advances it by one.
#[derive(Clone, Debug, PartialEq, Eq)]
pub struct CounterGen {
    count: u64,
    format: Format,
}

/// The mathematical content of a [`CounterGen`].
pub struct CounterGenView {
    pub count: nat,
    pub format: Format,
}

impl View for CounterGen {
    type V = CounterGenView;

    closed spec fn view(&self) -> CounterGenView {
        CounterGenView { count: self.count as nat, format: self.format }
    }
}

/// The largest count a counter can hold. A counter that stands there
/// generates nothing, so that no count is ever given out twice.
pub open spec fn count_limit() -> nat {
    u64::MAX as nat
}

impl CounterGenView {
    /// The counter built without a configuration.
    pub open spec fn initial() -> CounterGenView {
        CounterGenView { count: 0, format: Format::CSV }
    }

    /// The counter built from a configuration: zero where it names no
    /// initial count, delimited text where it names no format.
    pub open spec fn configured(config: CounterConfig) -> CounterGenView {
        CounterGenView {
            count: match config.initial_count {
                Some(count) => count as nat,
                None => 0,
            },
            format: match config.format {
                Some(format) => format,
                None => Format::CSV,
            },
        }
    }

    /// The counter for what a configuration file gives, or the cause by
    /// which there is none.
    pub open spec fn from_file(file: ConfigFileView) -> Result<CounterGenView, ConfigCauseView> {
        match file.settings(|document: TomlItem| counter_settings(document)) {
            Ok(None) => Ok(CounterGenView::initial()),
            Ok(Some(config)) => Ok(CounterGenView::configured(config)),
            Err(cause) => Err(cause),
        }
    }

    /// The record that a generation at `time` carries.
    pub open spec fn record_at(self, time: Seq<char>) -> RecordView {
        RecordView::Counter { time, count: self.count }
    }

    /// One generation at `time`, from `self` to `after` with result `r`.
    /// A counter at its limit fails and stays. Otherwise the record carries
    /// the current count; where the encoder gives a text the count advances
    /// by one, and where it fails the counter stays.
    pub open spec fn tick(
        self,
        time: Seq<char>,
        after: CounterGenView,
        r: Result<String, GenerateError>,
    ) -> bool {
        if self.count >= count_limit() {
            r == Err::<String, GenerateError>(GenerateError::CounterExhausted) && after == self
        } else {
            &&& generated_as(self.format, self.record_at(time), r)
            &&& after.format == self.format
            &&& after.count == if r is Ok {
                self.count + 1
            } else {
                self.count
            }
        }
    }
}

impl CounterGenView {
    /// Whether one generation can lead from `self` to `after` with result
    /// `r`: it does so at some time.
    pub open spec fn produces(self, after: CounterGenView, r: Result<String, GenerateError>) -> bool {
        exists|time: Seq<char>| #[trigger] self.tick(time, after, r)
    }
}

impl CounterGen {
    /// A counter that starts at zero and encodes as delimited text.
    pub fn new() -> (r: CounterGen)
        ensures
            r@ == CounterGenView::initial(),
    {
        CounterGen { count: 0, format: Format::CSV }
    }

    /// A counter with the settings of a configuration: zero where it names
    /// no initial count, delimited text where it names no format.
    pub fn from_config(config: CounterConfig) -> (r: CounterGen)
        ensures
            r@ == CounterGenView::configured(config),
    {
        let count = match config.initial_count {
            Some(count) => count,
            None => 0,
        };
        let format = match config.format {
            Some(format) => format,
            None => Format::CSV,
        };
        CounterGen { count, format }
    }

    /// A counter for what a configuration file gives: the built-in one
    /// where no path was given, the configured one where the document holds
    /// counter settings, else the cause by which it does not.
    pub fn from_file(file: &ConfigFile) -> (r: Result<CounterGen, ConfigCause>)
        ensures
            match CounterGenView::from_file(file@) {
                Ok(view) => r is Ok && r->Ok_0@ == view,
                Err(cause) => r is Err && r->Err_0@ == cause,
            },
    {
        match file {
            ConfigFile::Absent => Ok(CounterGen::new()),
            ConfigFile::Unreadable { cause, .. } => Err(ConfigCause::Unreadable(cause.clone())),
            ConfigFile::Read { content, .. } => match CounterConfig::from_document(
                content.as_str(),
            ) {
                Ok(config) => Ok(CounterGen::from_config(config)),
                Err(cause) => Err(cause),
            },
        }
    }

    /// The count that the next successful generation carries.
    pub fn count(&self) -> (r: u64)
        ensures
            r as nat == self@.count,
    {
        self.count
    }

    /// The format this generator encodes with.
    pub fn format(&self) -> (r: Format)
        ensures
            r == self@.format,
    {
        self.format
    }

    /// One generation with the given timestamp.
    pub fn gen_at(&mut self, time: String) -> (r: Result<String, GenerateError>)
        ensures
            old(self)@.tick(time@, final(self)@, r),
    {
        if self.count == u64::MAX {
            return Err(GenerateError::CounterExhausted);
        }
        let record = Record::counter(time, self.count);
        let r = encode(self.format, &record);
        if r.is_ok() {
            self.count = self.count + 1;
        }
        r
    }
}

impl Generator for CounterGen {
    open spec fn produces(&self, after: &Self, r: &Result<String, GenerateError>) -> bool {
        self@.produces(after@, *r)
    }

    fn gen(&mut self) -> (r: Result<String, GenerateError>) {
        let time = get_current_time_iso8601();
        let r = self.gen_at(time);
        assert(old(self)@.tick(time@, self@, r));
        r
    }
}

/// The number of successful generations among `results`.
pub open spec fn successes(results: Seq<Result<String, GenerateError>>) -> nat
    decreases results.len(),
{
    if results.len() == 0 {
        0
    } else {
        successes(results.drop_last()) + if results.last() is Ok {
            1nat
        } else {
            0nat
        }
    }
}

/// Whether `states`, `times` and `results` describe consecutive generations
/// of one counter: generation `j` leads from `states[j]` to `states[j + 1]`
/// at `times[j]` with `results[j]`.
pub open spec fn counter_run(
    states: Seq<CounterGenView>,
    times: Seq<Seq<char>>,
    results: Seq<Result<String, GenerateError>>,
) -> bool {
    &&& states.len() == results.len() + 1
    &&& times.len() == results.len()
    &&& forall|j: int|
        0 <= j < results.len() ==> (#[trigger] states[j]).tick(
            times[j],
            states[j + 1],
            results[j],
        )
}

/// Along a run of a counter the format stays, and the count is the initial
/// count plus the number of successful generations so far.
pub proof fn lemma_counter_run_count(
    states: Seq<CounterGenView>,
    times: Seq<Seq<char>>,
    results: Seq<Result<String, GenerateError>>,
    j: int,
)
    requires
        counter_run(states, times, results),
        0 <= j <= results.len(),
    ensures
        states[j].format == states[0].format,
        states[j].count == states[0].count + successes(results.take(j)),
    decreases j,
{
    if j == 0 {
        assert(results.take(0).len() == 0);
    } else {
        lemma_counter_run_count(states, times, results, j - 1);
        assert(states[j - 1].tick(times[j - 1], states[j], results[j - 1]));
        assert(results.take(j).drop_last() =~= results.take(j - 1));
        assert(results.take(j).last() == results[j - 1]);
    }
}

/// For a counter with initial count `n`, the `k`-th successful generation
/// yields the encoding of the record with count `n + k - 1`.
pub proof fn law_counter_kth_generation(
    states: Seq<CounterGenView>,
    times: Seq<Seq<char>>,
    results: Seq<Result<String, GenerateError>>,
    j: int,
)
    requires
        counter_run(states, times, results),
        0 <= j < results.len(),
        results[j] is Ok,
    ensures
        successes(results.take(j + 1)) >= 1,
        states[0].format.encoding(
            RecordView::Counter {
                time: times[j],
                count: (states[0].count + successes(results.take(j + 1)) - 1) as nat,
            },
        ) == Some(results[j]->Ok_0@),
{
    lemma_counter_run_count(states, times, results, j);
    assert(states[j].tick(times[j], states[j + 1], results[j]));
    assert(results.take(j + 1).drop_last() =~= results.take(j));
    assert(results.take(j + 1).last() == results[j]);
}

} // verus!
