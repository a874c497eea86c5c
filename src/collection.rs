use vstd::prelude::*;
use vstd::string::*;

use crate::check_result::{CheckResult, SimpleCheckResult};
use crate::metric::{metric_text, Metric};
use crate::numeric::Real;
use crate::state::{annotated, worst_of, State};

verus! {

/// A text tagged with the severity it is annotated with.
#[derive(Debug)]
pub struct TaggedText {
    pub state: State,
    pub text: Option<String>,
}

/// The annotated text; empty when there is no text.
pub open spec fn tagged_text(t: TaggedText) -> Seq<char> {
    match t.text {
        Some(s) => annotated(t.state, s@),
        None => Seq::empty(),
    }
}

/// Appends `text` annotated with the marker of `state`.
fn push_annotated(out: &mut String, state: State, text: &str)
    ensures
        final(out)@ == old(out)@ + annotated(state, text@),
{
    out.append(text);
    match state {
        State::Okay => {},
        State::Warn => out.append(" (!)"),
        State::Crit => out.append(" (!!)"),
        State::Unknown => out.append(" (?)"),
    }
    assert(final(out)@ =~= old(out)@ + annotated(state, text@));
}

impl TaggedText {
    pub fn render(&self) -> (r: String)
        ensures
            r@ == tagged_text(*self),
    {
        let mut out = String::new();
        match &self.text {
            Some(text) => push_annotated(&mut out, self.state, text.as_str()),
            None => {},
        }
        assert(out@ =~= tagged_text(*self));
        out
    }
}

/// One entry of the detail block: a text line, a measurement, or both.
#[derive(Debug)]
pub enum Details {
    Text(TaggedText),
    Metric(Metric<Real>),
    TextMetric(TaggedText, Metric<Real>),
}

/// The detail entry for a text and a measurement.
pub open spec fn details_of(state: State, text: Option<String>, metric: Option<Metric<Real>>) -> Details {
    match metric {
        None => Details::Text(TaggedText { state, text }),
        Some(m) => if text.is_none() {
            Details::Metric(m)
        } else {
            Details::TextMetric(TaggedText { state, text }, m)
        },
    }
}

impl Details {
    pub fn new(state: State, text: Option<String>, metric: Option<Metric<Real>>) -> (r: Self)
        ensures
            r == details_of(state, text, metric),
    {
        match metric {
            None => Details::Text(TaggedText { state, text }),
            Some(m) => if text.is_none() {
                Details::Metric(m)
            } else {
                Details::TextMetric(TaggedText { state, text }, m)
            },
        }
    }
}

/// One entry of the summary line.
#[derive(Debug)]
pub struct Summary(pub TaggedText);

impl Summary {
    pub fn new(state: State, text: Option<String>) -> (r: Self)
        ensures
            r == Summary(TaggedText { state, text }),
    {
        Summary(TaggedText { state, text })
    }

    pub fn state(&self) -> (r: State)
        ensures
            r == self.0.state,
    {
        self.0.state
    }

    pub fn text(&self) -> (r: Option<&String>)
        ensures
            match self.0.text {
                Some(t) => r == Some(&t),
                None => r.is_none(),
            },
    {
        match &self.0.text {
            Some(t) => Some(t),
            None => None,
        }
    }
}

/// The aggregate of findings: overall severity, summary and detail entries.
#[derive(Debug)]
pub struct Collection {
    pub state: State,
    pub summary: Vec<Summary>,
    pub details: Vec<Details>,
}

/// The severities of the summary entries, one per finding.
pub open spec fn summary_states(s: Seq<Summary>) -> Seq<State> {
    s.map_values(|e: Summary| e.0.state)
}

/// The severities of a sequence of findings.
pub open spec fn states_of(crs: Seq<CheckResult<Real>>) -> Seq<State> {
    crs.map_values(|cr: CheckResult<Real>| cr.state)
}

/// The summary entry of a finding: its severity and summary, even when absent.
pub open spec fn summary_of(cr: CheckResult<Real>) -> Summary {
    Summary(TaggedText { state: cr.state, text: cr.summary })
}

/// The summary entries of a sequence of findings.
pub open spec fn summaries_of(crs: Seq<CheckResult<Real>>) -> Seq<Summary> {
    crs.map_values(|cr: CheckResult<Real>| summary_of(cr))
}

/// The detail entries of a finding.
///
/// A finding with neither details nor measurement repeats its summary, if it
/// has one; any other has one entry, whose text falls back to the summary.
pub open spec fn details_for(cr: CheckResult<Real>) -> Seq<Details> {
    if cr.details.is_none() && cr.metrics.is_none() {
        match cr.summary {
            Some(t) => seq![details_of(cr.state, Some(t), None)],
            None => Seq::empty(),
        }
    } else {
        let text = if cr.details.is_some() {
            cr.details
        } else {
            cr.summary
        };
        seq![details_of(cr.state, text, cr.metrics)]
    }
}

/// The detail entries of a sequence of findings, in order.
pub open spec fn all_details_for(crs: Seq<CheckResult<Real>>) -> Seq<Details>
    decreases crs.len(),
{
    if crs.len() == 0 {
        Seq::empty()
    } else {
        all_details_for(crs.drop_last()) + details_for(crs.last())
    }
}

/// The annotated texts of the summary entries that have one.
pub open spec fn summary_parts(s: Seq<Summary>) -> Seq<Seq<char>>
    decreases s.len(),
{
    if s.len() == 0 {
        Seq::empty()
    } else {
        let rest = summary_parts(s.drop_last());
        match s.last().0.text {
            Some(t) => rest.push(annotated(s.last().0.state, t@)),
            None => rest,
        }
    }
}

/// The text lines of the detail block, one per entry that carries text.
pub open spec fn detail_lines(d: Seq<Details>) -> Seq<Seq<char>>
    decreases d.len(),
{
    if d.len() == 0 {
        Seq::empty()
    } else {
        let rest = detail_lines(d.drop_last());
        match d.last() {
            Details::Text(t) => rest.push(tagged_text(t)),
            Details::Metric(_) => rest,
            Details::TextMetric(t, _) => rest.push(tagged_text(t)),
        }
    }
}

/// The performance-data tokens, one per entry that carries a measurement.
pub open spec fn metric_tokens(d: Seq<Details>) -> Seq<Seq<char>>
    decreases d.len(),
{
    if d.len() == 0 {
        Seq::empty()
    } else {
        let rest = metric_tokens(d.drop_last());
        match d.last() {
            Details::Text(_) => rest,
            Details::Metric(m) => rest.push(metric_text(m)),
            Details::TextMetric(_, m) => rest.push(metric_text(m)),
        }
    }
}

/// The parts, with `sep` between each two.
pub open spec fn joined(parts: Seq<Seq<char>>, sep: Seq<char>) -> Seq<char>
    decreases parts.len(),
{
    if parts.len() == 0 {
        Seq::empty()
    } else if parts.len() == 1 {
        parts[0]
    } else {
        joined(parts.drop_last(), sep) + sep + parts.last()
    }
}

/// A text annotated with its severity, as a summary line and again as a
/// detail line.
pub open spec fn annotated_twice(state: State, text: Seq<char>) -> Seq<char> {
    annotated(state, text) + "\n"@ + annotated(state, text)
}

/// The full plugin output of a collection.
///
/// The summary line (or the overall severity's name when it is empty), then
/// ` | ` and the measurements if there are any, then a newline and the detail
/// lines if there are any.
pub open spec fn collection_text(state: State, summary: Seq<Summary>, details: Seq<Details>) -> Seq<char> {
    let line = joined(summary_parts(summary), ", "@);
    let head = if line.len() == 0 {
        state.name()
    } else {
        line
    };
    let metrics = metric_tokens(details);
    let with_metrics = if metrics.len() == 0 {
        head
    } else {
        head + " | "@ + joined(metrics, " "@)
    };
    let lines = detail_lines(details);
    if lines.len() == 0 {
        with_metrics
    } else {
        with_metrics + "\n"@ + joined(lines, "\n"@)
    }
}

proof fn lemma_joined_push(parts: Seq<Seq<char>>, sep: Seq<char>, p: Seq<char>)
    ensures
        joined(parts.push(p), sep) == if parts.len() == 0 {
            p
        } else {
            joined(parts, sep) + sep + p
        },
{
    assert(parts.push(p).drop_last() =~= parts);
}

/// Appends `part` to a text that holds `joined(parts, sep)`.
fn push_part(out: &mut String, sep: &str, part: &str, started: bool, Ghost(parts): Ghost<Seq<Seq<char>>>)
    requires
        old(out)@ == joined(parts, sep@),
        started == (parts.len() > 0),
    ensures
        final(out)@ == joined(parts.push(part@), sep@),
{
    proof {
        lemma_joined_push(parts, sep@, part@);
    }
    if !started {
        assert(old(out)@ =~= Seq::<char>::empty());
        out.append(part);
        assert(final(out)@ =~= part@);
    } else {
        out.append(sep);
        out.append(part);
    }
}

impl Collection {
    /// The overall severity is the worst of the findings' severities.
    pub open spec fn well_formed(&self) -> bool {
        self.state == worst_of(summary_states(self.summary@))
    }

    /// Drains `results` into a new collection, in order.
    pub fn from_results(results: &mut Vec<CheckResult<Real>>) -> (r: Collection)
        ensures
            r.state == worst_of(states_of(old(results)@)),
            r.summary@ == summaries_of(old(results)@),
            r.details@ == all_details_for(old(results)@),
            r.well_formed(),
            final(results)@.len() == 0,
    {
        let ghost input = old(results)@;
        let mut out = Collection { state: State::Okay, summary: Vec::new(), details: Vec::new() };
        let ghost mut done: int = 0;
        assert(input.subrange(0, 0) =~= Seq::<CheckResult<Real>>::empty());
        assert(summaries_of(input.subrange(0, 0)) =~= Seq::<Summary>::empty());
        assert(states_of(input.subrange(0, 0)) =~= Seq::<State>::empty());
        assert(results@ =~= input.subrange(0, input.len() as int));
        while results.len() > 0
            invariant
                0 <= done <= input.len(),
                results@ == input.subrange(done, input.len() as int),
                out.state == worst_of(states_of(input.subrange(0, done))),
                out.summary@ == summaries_of(input.subrange(0, done)),
                out.details@ == all_details_for(input.subrange(0, done)),
            decreases results.len(),
        {
            let cr = results.remove(0);
            let ghost before = input.subrange(0, done);
            let ghost after = input.subrange(0, done + 1);
            assert(after.drop_last() =~= before);
            assert(after.last() == cr);
            assert(states_of(after).drop_last() =~= states_of(before));
            let CheckResult { state, summary, details, metrics } = cr;
            out.state = out.state.worst(state);
            let copy = match &summary {
                Some(s) => Some(s.clone()),
                None => None,
            };
            out.summary.push(Summary::new(state, copy));
            assert(out.summary@ =~= summaries_of(after));
            if details.is_none() && metrics.is_none() {
                match summary {
                    Some(t) => out.details.push(Details::new(state, Some(t), None)),
                    None => {},
                }
            } else {
                let text = match details {
                    Some(d) => Some(d),
                    None => summary,
                };
                out.details.push(Details::new(state, text, metrics));
            }
            assert(out.details@ =~= all_details_for(after));
            proof {
                done = done + 1;
            }
            assert(results@ =~= input.subrange(done, input.len() as int));
        }
        assert(input.subrange(0, done) =~= input);
        assert(summary_states(out.summary@) =~= states_of(input));
        out
    }

    /// A collection of the one finding `check_result`.
    pub fn from_simple(check_result: SimpleCheckResult) -> (r: Collection)
        ensures
            ({
                let cr = CheckResult::<Real> {
                    state: check_result.state,
                    summary: check_result.summary,
                    details: check_result.details,
                    metrics: None,
                };
                &&& r.state == check_result.state
                &&& r.summary@ == seq![summary_of(cr)]
                &&& r.details@ == details_for(cr)
            }),
            r.well_formed(),
    {
        let mut results: Vec<CheckResult<Real>> = Vec::new();
        results.push(CheckResult::from(check_result));
        let ghost input = results@;
        let r = Collection::from_results(&mut results);
        proof {
            let cr = input[0];
            assert(cr == (CheckResult::<Real> {
                state: check_result.state,
                summary: check_result.summary,
                details: check_result.details,
                metrics: None,
            }));
            assert(states_of(input).last() == cr.state);
            assert(input.drop_last() =~= Seq::<CheckResult<Real>>::empty());
            assert(states_of(input).drop_last() =~= Seq::<State>::empty());
            assert(worst_of(states_of(input).drop_last()) == State::Okay);
            assert(worst_of(states_of(input)) == cr.state);
            assert(summaries_of(input) =~= seq![summary_of(cr)]);
            assert(all_details_for(input.drop_last()) =~= Seq::<Details>::empty());
            assert(all_details_for(input) =~= details_for(cr));
        }
        r
    }

    /// Appends `other`'s entries after this collection's and takes the worse
    /// overall severity; `other`'s entries are moved out.
    pub fn join(&mut self, other: &mut Collection)
        ensures
            final(self).state == old(self).state.spec_worst(old(other).state),
            final(self).summary@ == old(self).summary@ + old(other).summary@,
            final(self).details@ == old(self).details@ + old(other).details@,
            final(other).state == old(other).state,
            final(other).summary@.len() == 0,
            final(other).details@.len() == 0,
            old(self).well_formed() && old(other).well_formed() ==> final(self).well_formed(),
    {
        proof {
            if self.well_formed() && other.well_formed() {
                crate::laws::lemma_join_well_formed(self.state, self.summary@, other.state, other.summary@);
            }
        }
        self.state = self.state.worst(other.state);
        self.summary.append(&mut other.summary);
        self.details.append(&mut other.details);
    }

    /// The plugin output: summary line, measurements, detail lines.
    pub fn render(&self) -> (r: String)
        ensures
            r@ == collection_text(self.state, self.summary@, self.details@),
    {
        let mut line = String::new();
        let mut has_line = false;
        let mut i: usize = 0;
        assert(self.summary@.subrange(0, 0) =~= Seq::<Summary>::empty());
        while i < self.summary.len()
            invariant
                i <= self.summary@.len(),
                line@ == joined(summary_parts(self.summary@.subrange(0, i as int)), ", "@),
                has_line == (summary_parts(self.summary@.subrange(0, i as int)).len() > 0),
            decreases self.summary@.len() - i,
        {
            let ghost before = self.summary@.subrange(0, i as int);
            let ghost after = self.summary@.subrange(0, i + 1);
            assert(after.drop_last() =~= before);
            let entry = &self.summary[i];
            match &entry.0.text {
                Some(t) => {
                    let mut piece = String::new();
                    push_annotated(&mut piece, entry.0.state, t.as_str());
                    push_part(&mut line, ", ", piece.as_str(), has_line, Ghost(summary_parts(before)));
                    has_line = true;
                },
                None => {},
            }
            i = i + 1;
        }
        assert(self.summary@.subrange(0, self.summary@.len() as int) =~= self.summary@);
        let mut metrics = String::new();
        let mut lines = String::new();
        let mut has_metrics = false;
        let mut has_lines = false;
        let mut j: usize = 0;
        assert(self.details@.subrange(0, 0) =~= Seq::<Details>::empty());
        while j < self.details.len()
            invariant
                j <= self.details@.len(),
                metrics@ == joined(metric_tokens(self.details@.subrange(0, j as int)), " "@),
                lines@ == joined(detail_lines(self.details@.subrange(0, j as int)), "\n"@),
                has_metrics == (metric_tokens(self.details@.subrange(0, j as int)).len() > 0),
                has_lines == (detail_lines(self.details@.subrange(0, j as int)).len() > 0),
            decreases self.details@.len() - j,
        {
            let ghost before = self.details@.subrange(0, j as int);
            let ghost after = self.details@.subrange(0, j + 1);
            assert(after.drop_last() =~= before);
            match &self.details[j] {
                Details::Text(t) => {
                    let text = t.render();
                    push_part(&mut lines, "\n", text.as_str(), has_lines, Ghost(detail_lines(before)));
                    has_lines = true;
                },
                Details::Metric(m) => {
                    let token = m.render();
                    push_part(&mut metrics, " ", token.as_str(), has_metrics, Ghost(metric_tokens(before)));
                    has_metrics = true;
                },
                Details::TextMetric(t, m) => {
                    let text = t.render();
                    push_part(&mut lines, "\n", text.as_str(), has_lines, Ghost(detail_lines(before)));
                    has_lines = true;
                    let token = m.render();
                    push_part(&mut metrics, " ", token.as_str(), has_metrics, Ghost(metric_tokens(before)));
                    has_metrics = true;
                },
            }
            j = j + 1;
        }
        assert(self.details@.subrange(0, self.details@.len() as int) =~= self.details@);
        let mut out = if line.as_str().is_empty() {
            self.state.as_str().to_owned()
        } else {
            line
        };
        if has_metrics {
            out.append(" | ");
            out.append(metrics.as_str());
        }
        if has_lines {
            out.append("\n");
            out.append(lines.as_str());
        }
        out
    }
}

impl From<&mut Vec<CheckResult<Real>>> for Collection {
    /// Drains `results` into a new collection, in order.
    fn from(results: &mut Vec<CheckResult<Real>>) -> (r: Collection)
        ensures
            r.state == worst_of(states_of(old(results)@)),
            r.summary@ == summaries_of(old(results)@),
            r.details@ == all_details_for(old(results)@),
            r.well_formed(),
            final(results)@.len() == 0,
    {
        Collection::from_results(results)
    }
}

impl vstd::std_specs::convert::FromSpecImpl<&mut Vec<CheckResult<Real>>> for Collection {
    /// `from` states its result over the entries' views in its own `ensures`:
    /// a collection holds vectors, which no spec function here can build.
    open spec fn obeys_from_spec() -> bool {
        false
    }

    open spec fn from_spec(results: &mut Vec<CheckResult<Real>>) -> Collection {
        vstd::pervasive::arbitrary()
    }
}

impl From<SimpleCheckResult> for Collection {
    /// A collection of the one finding `check_result`.
    fn from(check_result: SimpleCheckResult) -> (r: Collection)
        ensures
            ({
                let cr = CheckResult::<Real> {
                    state: check_result.state,
                    summary: check_result.summary,
                    details: check_result.details,
                    metrics: None,
                };
                &&& r.state == check_result.state
                &&& r.summary@ == seq![summary_of(cr)]
                &&& r.details@ == details_for(cr)
            }),
            r.well_formed(),
    {
        Collection::from_simple(check_result)
    }
}

impl vstd::std_specs::convert::FromSpecImpl<SimpleCheckResult> for Collection {
    /// `from` states its result over the entries' views in its own `ensures`:
    /// a collection holds vectors, which no spec function here can build.
    open spec fn obeys_from_spec() -> bool {
        false
    }

    open spec fn from_spec(check_result: SimpleCheckResult) -> Collection {
        vstd::pervasive::arbitrary()
    }
}

/// Process exit status for a collection: 0, 1, 2, 3 for `Okay`, `Warn`,
/// `Crit`, `Unknown`.
pub fn exit_code(collection: &Collection) -> (r: i32)
    ensures
        r == collection.state.spec_exit_code(),
{
    collection.state.exit_code()
}

impl Default for Collection {
    fn default() -> (r: Collection)
        ensures
            r.state == State::Okay,
            r.summary@.len() == 0,
            r.details@.len() == 0,
            r.well_formed(),
    {
        let r = Collection { state: State::Okay, summary: Vec::new(), details: Vec::new() };
        assert(summary_states(r.summary@) =~= Seq::<State>::empty());
        r
    }
}

} // verus!
