use check_cert::{
    as_option, exit_code, CheckResult, Collection, InvalidLevels, Levels, LevelsChecker,
    LevelsCheckerArgs, LevelsStrategy, Metric, OutputType, Real, SimpleCheckResult, State, Uom,
};

fn m(name: &str, x: isize) -> Metric<Real> {
    Metric::<Real>::builder().label(name).value(Real::Integer(x)).build()
}

fn args(label: &str) -> LevelsCheckerArgs {
    LevelsCheckerArgs::new(label, None)
}

#[test]
fn overall_is_worst_in_merge_order() {
    let coll = Collection::from(&mut vec![
        SimpleCheckResult::unknown("u").into(),
        SimpleCheckResult::warn("w").into(),
    ]);
    assert_eq!(coll.state, State::Unknown);
    let coll = Collection::from(&mut vec![
        SimpleCheckResult::crit("c").into(),
        SimpleCheckResult::unknown("u").into(),
        SimpleCheckResult::ok("o").into(),
    ]);
    assert_eq!(coll.state, State::Crit);
    assert_eq!(State::Unknown.worst(State::Crit), State::Crit);
    assert_eq!(State::Warn.worst(State::Okay), State::Warn);
}

#[test]
fn empty_collection_renders_ok() {
    let coll = Collection::default();
    assert_eq!(coll.state, State::Okay);
    assert_eq!(coll.render(), "OK");
    assert_eq!(exit_code(&coll), 0);
}

#[test]
fn exit_codes_follow_their_own_order() {
    let code = |cr: SimpleCheckResult| exit_code(&Collection::from(cr));
    assert_eq!(code(SimpleCheckResult::ok("a")), 0);
    assert_eq!(code(SimpleCheckResult::warn("a")), 1);
    assert_eq!(code(SimpleCheckResult::crit("a")), 2);
    assert_eq!(code(SimpleCheckResult::unknown("a")), 3);
    let both = Collection::from(&mut vec![
        SimpleCheckResult::unknown("u").into(),
        SimpleCheckResult::crit("c").into(),
    ]);
    assert_eq!(both.state, State::Crit);
    assert_eq!(exit_code(&both), 2);
    assert!(State::Unknown < State::Crit);
    assert!(State::Unknown.exit_code() > State::Crit.exit_code());
}

#[test]
fn state_names() {
    assert_eq!(State::Okay.as_str(), "OK");
    assert_eq!(State::Warn.as_str(), "WARNING");
    assert_eq!(State::Crit.as_str(), "CRITICAL");
    assert_eq!(State::Unknown.as_str(), "UNKNOWN");
    assert_eq!(State::default(), State::Okay);
    let coll = Collection::from(&mut vec![CheckResult::<Real>::from(SimpleCheckResult::new(
        State::Unknown,
        None,
        None,
    ))]);
    assert_eq!(coll.render(), "UNKNOWN");
}

#[test]
fn bare_finding_renders_twice() {
    assert_eq!(Collection::from(SimpleCheckResult::ok("summary")).render(), "summary\nsummary");
    assert_eq!(
        Collection::from(SimpleCheckResult::warn("summary")).render(),
        "summary (!)\nsummary (!)"
    );
}

#[test]
fn three_findings_scenario() {
    let coll = Collection::from(&mut vec![
        SimpleCheckResult::ok("s1").into(),
        SimpleCheckResult::warn("s2").into(),
        SimpleCheckResult::crit("s3").into(),
    ]);
    assert_eq!(coll.state, State::Crit);
    assert_eq!(coll.render(), "s1, s2 (!), s3 (!!)\ns1\ns2 (!)\ns3 (!!)");
}

#[test]
fn metrics_follow_the_bar_and_not_the_detail_lines() {
    let coll = Collection::from(&mut vec![
        CheckResult::ok("summary 1", m("m1", 13)),
        CheckResult::warn("summary 2", m("m2", 37)),
        CheckResult::crit("summary 3", m("m3", 42)),
    ]);
    let out = coll.render();
    let (first, rest) = out.split_once('\n').unwrap();
    assert!(first.ends_with(" | m1=13;;;; m2=37;;;; m3=42;;;;"));
    assert!(!rest.contains('='));
}

#[test]
fn measurement_only_finding_has_no_detail_line() {
    let coll = Collection::from(&mut vec![CheckResult::notice("", m("m", 1))]);
    assert_eq!(coll.state, State::Okay);
    assert_eq!(coll.render(), "OK | m=1;;;;");
}

#[test]
fn join_matches_one_collection_of_all() {
    let a = || vec![SimpleCheckResult::ok("a").into(), CheckResult::warn("b", m("mb", 2))];
    let b = || vec![CheckResult::<Real>::from(SimpleCheckResult::notice("n"))];
    let c = || vec![SimpleCheckResult::unknown("c").into(), CheckResult::crit("d", m("md", 4))];
    let mut joined = Collection::from(&mut a());
    joined.join(&mut Collection::from(&mut b()));
    joined.join(&mut Collection::from(&mut c()));
    let mut all = a();
    all.extend(b());
    all.extend(c());
    let whole = Collection::from(&mut all);
    assert_eq!(joined.state, whole.state);
    assert_eq!(joined.render(), whole.render());
    assert_eq!(
        whole.render(),
        "a, b (!), c (?), d (!!) | mb=2;;;; md=4;;;;\na\nb (!)\nn\nc (?)\nd (!!)"
    );
}

#[test]
fn join_empties_the_other_collection() {
    let mut left = Collection::from(SimpleCheckResult::ok("a"));
    let mut right = Collection::from(SimpleCheckResult::crit("b"));
    left.join(&mut right);
    assert_eq!(left.state, State::Crit);
    assert!(right.summary.is_empty());
    assert!(right.details.is_empty());
    assert_eq!(left.summary.len(), 2);
}

#[test]
fn upper_checker_promotes_a_warning_notice() {
    let checker =
        LevelsChecker::try_new(LevelsStrategy::Upper, Levels { warn: 10, crit: 20 }).unwrap();
    let cr = checker.check(15, OutputType::Notice("n".to_string()), args("x"));
    assert_eq!(cr.state, State::Warn);
    assert_eq!(cr.summary.as_deref(), Some("n (warn/crit at 10/20)"));
    assert!(cr.details.is_none());
    let coll = Collection::from(&mut vec![cr.map(Real::from)]);
    assert_eq!(coll.state, State::Warn);
}

#[test]
fn upper_checker_classifies_at_the_thresholds() {
    let checker =
        LevelsChecker::try_new(LevelsStrategy::Upper, Levels { warn: 10, crit: 20 }).unwrap();
    let state = |v: isize| checker.check(v, OutputType::Summary("s".to_string()), args("x")).state;
    assert_eq!(state(9), State::Okay);
    assert_eq!(state(10), State::Warn);
    assert_eq!(state(19), State::Warn);
    assert_eq!(state(20), State::Crit);
    assert_eq!(state(1000), State::Crit);
}

#[test]
fn lower_checker_classifies_below_the_thresholds() {
    let checker =
        LevelsChecker::try_new(LevelsStrategy::Lower, Levels { warn: 20, crit: 10 }).unwrap();
    let cr = checker.check(5, OutputType::Summary("left".to_string()), args("days"));
    assert_eq!(cr.state, State::Crit);
    assert_eq!(cr.summary.as_deref(), Some("left (warn/crit below 20/10)"));
    let cr = checker.check(10, OutputType::Notice("left".to_string()), args("days"));
    assert_eq!(cr.state, State::Warn);
    assert_eq!(cr.summary.as_deref(), Some("left (warn/crit below 20/10)"));
    let cr = checker.check(20, OutputType::Notice("left".to_string()), args("days"));
    assert_eq!(cr.state, State::Okay);
    assert!(cr.summary.is_none());
    assert_eq!(cr.details.as_deref(), Some("left"));
}

#[test]
fn ok_summary_stays_in_the_summary() {
    let checker =
        LevelsChecker::try_new(LevelsStrategy::Upper, Levels { warn: 10, crit: 20 }).unwrap();
    let uom = Some(Uom::new("d"));
    let cr = checker.check(3, OutputType::Summary("fine".to_string()), LevelsCheckerArgs::new("age", uom));
    assert_eq!(cr.state, State::Okay);
    assert_eq!(cr.summary.as_deref(), Some("fine"));
    assert!(cr.details.is_none());
    let metric = cr.metrics.as_ref().unwrap();
    assert_eq!(metric.label, "age");
    assert_eq!(metric.value, 3);
    assert_eq!(metric.levels, Some(Levels { warn: 10, crit: 20 }));
    assert!(metric.bounds.is_none());
    let coll = Collection::from(&mut vec![cr.map(Real::from)]);
    assert_eq!(coll.render(), "fine | age=3d;10;20;;\nfine");
}

#[test]
fn inconsistent_thresholds_are_refused() {
    let upper = LevelsChecker::try_new(LevelsStrategy::Upper, Levels { warn: 20, crit: 10 });
    assert_eq!(upper.unwrap_err(), InvalidLevels);
    let lower = LevelsChecker::try_new(LevelsStrategy::Lower, Levels { warn: 10, crit: 20 });
    assert_eq!(lower.unwrap_err().message(), "bad values");
    let lower_equal = LevelsChecker::try_new(LevelsStrategy::Lower, Levels { warn: 10, crit: 10 });
    assert!(lower_equal.is_err());
    let upper_equal = LevelsChecker::try_new(LevelsStrategy::Upper, Levels { warn: 10, crit: 10 });
    assert!(upper_equal.is_ok());
}

#[test]
fn strategy_comparison() {
    assert!(LevelsStrategy::Upper.cmp(&5isize, &5));
    assert!(!LevelsStrategy::Upper.cmp(&4isize, &5));
    assert!(LevelsStrategy::Lower.cmp(&4isize, &5));
    assert!(!LevelsStrategy::Lower.cmp(&5isize, &5));
}

#[test]
fn empty_texts_are_absent() {
    assert_eq!(as_option(""), None);
    assert_eq!(as_option("x"), Some("x".to_string()));
    let cr = SimpleCheckResult::warn_with_details("", "d");
    assert!(cr.summary.is_none());
    assert_eq!(cr.details.as_deref(), Some("d"));
    let cr = CheckResult::unknown("", m("m", 1));
    assert!(cr.summary.is_none());
    assert_eq!(cr.state, State::Unknown);
}

#[test]
fn details_fall_back_to_summary() {
    let coll = Collection::from(&mut vec![CheckResult::ok_with_details("s", "", m("m", 2))]);
    assert_eq!(coll.render(), "s | m=2;;;;\ns");
}

#[test]
fn empty_ok_text_from_checker_is_absent() {
    let checker =
        LevelsChecker::try_new(LevelsStrategy::Upper, Levels { warn: 10, crit: 20 }).unwrap();
    let cr = checker.check(1, OutputType::Summary(String::new()), args("v"));
    assert!(cr.summary.is_none());
    assert!(cr.details.is_none());
    let coll = Collection::from(&mut vec![cr.map(Real::from)]);
    assert_eq!(coll.render(), "OK | v=1;10;20;;");
    let cr = checker.check(1, OutputType::Notice(String::new()), args("v"));
    assert!(cr.summary.is_none());
    assert!(cr.details.is_none());
}

#[test]
fn simple_result_converts_without_measurement() {
    let cr: CheckResult<Real> = SimpleCheckResult::crit_with_details("s", "d").into();
    assert_eq!(cr.state, State::Crit);
    assert_eq!(cr.summary.as_deref(), Some("s"));
    assert_eq!(cr.details.as_deref(), Some("d"));
    assert!(cr.metrics.is_none());
    let d: CheckResult<Real> = CheckResult::default();
    assert_eq!(d.state, State::Okay);
}
