use vstd::prelude::*;

use crate::check_result::CheckResult;
use crate::collection::{
    all_details_for, annotated_twice, collection_text, detail_lines, joined, metric_tokens, summary_parts, details_for, summaries_of, summary_of,
    summary_states, states_of,
};
use crate::metric::metric_text;
use crate::numeric::Real;
use crate::render::{decimal, digit_text, padded, Render};
use crate::state::{annotated, worst_of, State};

verus! {

/// The worst severity of two concatenated sequences is the worse of their
/// worst severities.
pub proof fn lemma_worst_of_concat(x: Seq<State>, y: Seq<State>)
    ensures
        worst_of(x + y) == worst_of(x).spec_worst(worst_of(y)),
    decreases y.len(),
{
    if y.len() == 0 {
        assert(x + y =~= x);
    } else {
        assert((x + y).drop_last() =~= x + y.drop_last());
        assert((x + y).last() == y.last());
        lemma_worst_of_concat(x, y.drop_last());
    }
}

/// The detail entries of concatenated findings are those of each part, in order.
pub proof fn lemma_all_details_concat(x: Seq<CheckResult<Real>>, y: Seq<CheckResult<Real>>)
    ensures
        all_details_for(x + y) == all_details_for(x) + all_details_for(y),
    decreases y.len(),
{
    if y.len() == 0 {
        assert(x + y =~= x);
        assert(all_details_for(x) + all_details_for(y) =~= all_details_for(x));
    } else {
        assert((x + y).drop_last() =~= x + y.drop_last());
        assert((x + y).last() == y.last());
        lemma_all_details_concat(x, y.drop_last());
        assert(all_details_for(x + y) =~= all_details_for(x) + all_details_for(y));
    }
}

/// The overall severity of a collection built from findings is their maximum
/// in merge order: no finding is worse, and unless there are none (then it is
/// `Okay`) some finding has it.
pub proof fn lemma_overall_is_maximum(crs: Seq<CheckResult<Real>>)
    ensures
        forall|i: int| 0 <= i < crs.len() ==> (#[trigger] crs[i]).state.rank() <= worst_of(states_of(crs)).rank(),
        crs.len() == 0 ==> worst_of(states_of(crs)) == State::Okay,
        crs.len() > 0 ==> exists|i: int| 0 <= i < crs.len() && (#[trigger] crs[i]).state == worst_of(states_of(crs)),
    decreases crs.len(),
{
    if crs.len() > 0 {
        let rest = crs.drop_last();
        assert(states_of(crs).drop_last() =~= states_of(rest));
        lemma_overall_is_maximum(rest);
        let w = worst_of(states_of(crs));
        assert forall|i: int| 0 <= i < crs.len() implies (#[trigger] crs[i]).state.rank() <= w.rank() by {
            if i < crs.len() - 1 {
                assert(crs[i] == rest[i]);
            }
        }
        if w == crs.last().state {
            assert(crs[crs.len() - 1].state == w);
        } else {
            let j = choose|j: int| 0 <= j < rest.len() && (#[trigger] rest[j]).state == worst_of(states_of(rest));
            assert(crs[j] == rest[j]);
        }
    }
}

/// No findings make a collection that is `Okay` and renders as `OK`.
pub proof fn lemma_empty_renders_ok()
    ensures
        ({
            let none = Seq::<CheckResult<Real>>::empty();
            &&& worst_of(states_of(none)) == State::Okay
            &&& collection_text(worst_of(states_of(none)), summaries_of(none), all_details_for(none))
                == "OK"@
        }),
{
    let none = Seq::<CheckResult<Real>>::empty();
    assert(states_of(none) =~= Seq::<State>::empty());
    assert(summaries_of(none) =~= Seq::empty());
}

/// The exit code ranks `Unknown` above `Crit`, while merge order ranks it below.
pub proof fn lemma_exit_code_order_differs()
    ensures
        State::Unknown.spec_exit_code() == 3,
        State::Crit.spec_exit_code() == 2,
        State::Unknown.spec_exit_code() > State::Crit.spec_exit_code(),
        State::Unknown.rank() < State::Crit.rank(),
        State::Unknown.spec_worst(State::Crit) == State::Crit,
{
}

/// A finding with only a summary renders its annotated text twice: as the
/// summary line and as the one detail line.
pub proof fn lemma_bare_finding_renders_twice(state: State, summary: String)
    requires
        summary@.len() > 0,
    ensures
        ({
            let cr = CheckResult::<Real> { state, summary: Some(summary), details: None, metrics: None };
            collection_text(state, seq![summary_of(cr)], details_for(cr)) == annotated_twice(
                state,
                summary@,
            )
        }),
{
    let cr = CheckResult::<Real> { state, summary: Some(summary), details: None, metrics: None };
    let s = seq![summary_of(cr)];
    let d = details_for(cr);
    assert(s.drop_last() =~= Seq::empty());
    assert(d.drop_last() =~= Seq::empty());
    let t = annotated(state, summary@);
    assert(t.len() >= summary@.len());
    assert(s.last() == summary_of(cr));
    assert(summary_parts(s.drop_last()) =~= Seq::<Seq<char>>::empty());
    assert(summary_parts(s) =~= seq![t]);
    assert(joined(seq![t], ", "@) == t);
    assert(metric_tokens(d.drop_last()) =~= Seq::<Seq<char>>::empty());
    assert(detail_lines(d.drop_last()) =~= Seq::<Seq<char>>::empty());
    assert(metric_tokens(d) =~= Seq::<Seq<char>>::empty());
    assert(detail_lines(d) =~= seq![t]);
    assert(joined(seq![t], "\n"@) == t);
}

/// Joining collections built from findings `a`, then `b`, then `c` gives the
/// collection built from `a + b + c`: the same overall severity, the same
/// entries in the same order, and so the same rendered text.
pub proof fn lemma_join_matches_concatenation(
    a: Seq<CheckResult<Real>>,
    b: Seq<CheckResult<Real>>,
    c: Seq<CheckResult<Real>>,
)
    ensures
        ({
            let all = a + b + c;
            let state = worst_of(states_of(a)).spec_worst(worst_of(states_of(b))).spec_worst(
                worst_of(states_of(c)),
            );
            let summary = summaries_of(a) + summaries_of(b) + summaries_of(c);
            let details = all_details_for(a) + all_details_for(b) + all_details_for(c);
            &&& state == worst_of(states_of(all))
            &&& summary == summaries_of(all)
            &&& details == all_details_for(all)
            &&& collection_text(state, summary, details) == collection_text(
                worst_of(states_of(all)),
                summaries_of(all),
                all_details_for(all),
            )
        }),
{
    let ab = a + b;
    assert(states_of(ab) =~= states_of(a) + states_of(b));
    assert(states_of(ab + c) =~= states_of(ab) + states_of(c));
    lemma_worst_of_concat(states_of(a), states_of(b));
    lemma_worst_of_concat(states_of(ab), states_of(c));
    assert(summaries_of(ab + c) =~= summaries_of(a) + summaries_of(b) + summaries_of(c));
    lemma_all_details_concat(a, b);
    lemma_all_details_concat(ab, c);
}

/// The performance-data tokens of findings, in their order; findings without
/// a measurement give none.
pub open spec fn metrics_in_order(crs: Seq<CheckResult<Real>>) -> Seq<Seq<char>>
    decreases crs.len(),
{
    if crs.len() == 0 {
        Seq::empty()
    } else {
        let rest = metrics_in_order(crs.drop_last());
        match crs.last().metrics {
            Some(m) => rest.push(metric_text(m)),
            None => rest,
        }
    }
}

/// The measurements of a collection built from findings are rendered in the
/// order of the findings, one token for each finding that carries one.
pub proof fn lemma_metrics_in_finding_order(crs: Seq<CheckResult<Real>>)
    ensures
        metric_tokens(all_details_for(crs)) == metrics_in_order(crs),
    decreases crs.len(),
{
    if crs.len() > 0 {
        let rest = crs.drop_last();
        lemma_metrics_in_finding_order(rest);
        let prefix = all_details_for(rest);
        let last = details_for(crs.last());
        assert(all_details_for(crs) == prefix + last);
        if last.len() == 1 {
            assert((prefix + last).drop_last() =~= prefix);
            assert((prefix + last).last() == last[0]);
        } else {
            assert(prefix + last =~= prefix);
        }
    }
}

/// The detail lines of findings, in their order: each finding's details, or
/// else its summary, annotated with its severity; findings with neither give
/// none.
pub open spec fn text_lines_in_order(crs: Seq<CheckResult<Real>>) -> Seq<Seq<char>>
    decreases crs.len(),
{
    if crs.len() == 0 {
        Seq::empty()
    } else {
        let rest = text_lines_in_order(crs.drop_last());
        let cr = crs.last();
        let text = if cr.details.is_some() {
            cr.details
        } else {
            cr.summary
        };
        match text {
            Some(t) => rest.push(annotated(cr.state, t@)),
            None => rest,
        }
    }
}

/// The detail lines of a collection built from findings are the findings'
/// texts only, in their order: no measurement is ever among them.
pub proof fn lemma_detail_lines_are_texts(crs: Seq<CheckResult<Real>>)
    ensures
        detail_lines(all_details_for(crs)) == text_lines_in_order(crs),
    decreases crs.len(),
{
    if crs.len() > 0 {
        let rest = crs.drop_last();
        lemma_detail_lines_are_texts(rest);
        let prefix = all_details_for(rest);
        let last = details_for(crs.last());
        assert(all_details_for(crs) == prefix + last);
        if last.len() == 1 {
            assert((prefix + last).drop_last() =~= prefix);
            assert((prefix + last).last() == last[0]);
        } else {
            assert(prefix + last =~= prefix);
        }
    }
}

/// The output of a collection built from findings: the summary line (or the
/// overall severity's name), then ` | ` and the findings' measurements in
/// their order if there are any, then a newline and the findings' texts in
/// their order if there are any.
pub proof fn lemma_rendering_of_findings(crs: Seq<CheckResult<Real>>)
    ensures
        ({
            let line = joined(summary_parts(summaries_of(crs)), ", "@);
            let head = if line.len() == 0 {
                worst_of(states_of(crs)).name()
            } else {
                line
            };
            let metrics = metrics_in_order(crs);
            let with_metrics = if metrics.len() == 0 {
                head
            } else {
                head + " | "@ + joined(metrics, " "@)
            };
            let lines = text_lines_in_order(crs);
            collection_text(worst_of(states_of(crs)), summaries_of(crs), all_details_for(crs)) == if lines.len() == 0 {
                with_metrics
            } else {
                with_metrics + "\n"@ + joined(lines, "\n"@)
            }
        }),
{
    lemma_metrics_in_finding_order(crs);
    lemma_detail_lines_are_texts(crs);
}

/// Whether `c` is an ASCII decimal digit.
pub open spec fn is_digit(c: char) -> bool {
    '0' <= c && c <= '9'
}

/// Whether every character of `s` is a decimal digit.
pub open spec fn all_digits(s: Seq<char>) -> bool {
    forall|i: int| 0 <= i < s.len() ==> is_digit(#[trigger] s[i])
}

proof fn lemma_digit_text(d: nat)
    requires
        d < 10,
    ensures
        digit_text(d).len() == 1,
        is_digit(digit_text(d)[0]),
{
    reveal_strlit("0");
    reveal_strlit("1");
    reveal_strlit("2");
    reveal_strlit("3");
    reveal_strlit("4");
    reveal_strlit("5");
    reveal_strlit("6");
    reveal_strlit("7");
    reveal_strlit("8");
    reveal_strlit("9");
}

proof fn lemma_decimal_digits(n: nat)
    ensures
        decimal(n).len() >= 1,
        all_digits(decimal(n)),
    decreases n,
{
    if n < 10 {
        lemma_digit_text(n);
    } else {
        lemma_decimal_digits(n / 10);
        lemma_digit_text(n % 10);
        let a = decimal(n / 10);
        let b = digit_text(n % 10);
        assert forall|i: int| 0 <= i < (a + b).len() implies is_digit(#[trigger] (a + b)[i]) by {
            if i >= a.len() {
                assert((a + b)[i] == b[i - a.len()]);
            }
        }
    }
}

proof fn lemma_padded_digits(n: nat, width: nat)
    ensures
        padded(n, width).len() == width,
        all_digits(padded(n, width)),
    decreases width,
{
    if width > 0 {
        lemma_padded_digits(n / 10, (width - 1) as nat);
        lemma_digit_text(n % 10);
        let a = padded(n / 10, (width - 1) as nat);
        let b = digit_text(n % 10);
        assert forall|i: int| 0 <= i < (a + b).len() implies is_digit(#[trigger] (a + b)[i]) by {
            if i >= a.len() {
                assert((a + b)[i] == b[i - a.len()]);
            }
        }
    }
}

/// An integer renders as an optional `-` followed by one or more digits.
pub proof fn lemma_integer_shape(x: isize)
    ensures
        ({
            let t = Real::Integer(x).text();
            let start: int = if x < 0 { 1 } else { 0 };
            &&& t.len() > start
            &&& (x < 0 ==> t[0] == '-')
            &&& forall|i: int| start <= i < t.len() ==> is_digit(#[trigger] t[i])
        }),
{
    reveal_strlit("-");
    let n: int = x as int;
    let m: nat = if n < 0 { (-n) as nat } else { n as nat };
    lemma_decimal_digits(m);
    let t = Real::Integer(x).text();
    if x < 0 {
        assert forall|i: int| 1 <= i < t.len() implies is_digit(#[trigger] t[i]) by {
            assert(t[i] == decimal(m)[i - 1]);
        }
    }
}

/// A floating-point reading renders as an optional `-`, one or more digits,
/// a `.`, and exactly six digits.
pub proof fn lemma_double_shape(micros: i128)
    ensures
        ({
            let t = Real::Double(micros).text();
            let start: int = if micros < 0 { 1 } else { 0 };
            &&& t.len() >= start + 8
            &&& (micros < 0 ==> t[0] == '-')
            &&& t[t.len() - 7] == '.'
            &&& forall|i: int| start <= i < t.len() - 7 ==> is_digit(#[trigger] t[i])
            &&& forall|i: int| t.len() - 6 <= i < t.len() ==> is_digit(#[trigger] t[i])
        }),
{
    reveal_strlit("-");
    reveal_strlit(".");
    let m: int = micros as int;
    let magnitude: int = if m < 0 { -m } else { m };
    let sign: Seq<char> = if m < 0 { "-"@ } else { Seq::empty() };
    let whole = decimal((magnitude / 1_000_000) as nat);
    let frac = padded((magnitude % 1_000_000) as nat, 6);
    lemma_decimal_digits((magnitude / 1_000_000) as nat);
    lemma_padded_digits((magnitude % 1_000_000) as nat, 6);
    let t = Real::Double(micros).text();
    assert(t == sign + whole + "."@ + frac);
    let start: int = sign.len() as int;
    assert forall|i: int| start <= i < t.len() - 7 implies is_digit(#[trigger] t[i]) by {
        assert(t[i] == whole[i - start]);
    }
    assert forall|i: int| t.len() - 6 <= i < t.len() implies is_digit(#[trigger] t[i]) by {
        assert(t[i] == frac[i - (t.len() - 6)]);
    }
}

/// Joining keeps the overall severity the worst of all summary entries.
pub proof fn lemma_join_well_formed(
    s1: State,
    x: Seq<crate::collection::Summary>,
    s2: State,
    y: Seq<crate::collection::Summary>,
)
    requires
        s1 == worst_of(summary_states(x)),
        s2 == worst_of(summary_states(y)),
    ensures
        s1.spec_worst(s2) == worst_of(summary_states(x + y)),
{
    assert(summary_states(x + y) =~= summary_states(x) + summary_states(y));
    lemma_worst_of_concat(summary_states(x), summary_states(y));
}

} // verus!
