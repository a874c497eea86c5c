use check_cert::{
    CheckResult, Collection, Levels, LevelsChecker, LevelsCheckerArgs, LevelsStrategy, Metric,
    OutputType, Real, SimpleCheckResult, State, Uom,
};

#[test]
fn test_with_empty_str() {
    assert_eq!(
        SimpleCheckResult::ok_with_details("", ""),
        SimpleCheckResult::ok("")
    );
    assert_eq!(
        SimpleCheckResult::ok_with_details("", ""),
        SimpleCheckResult::notice("")
    );
    assert_eq!(
        SimpleCheckResult::ok_with_details("", ""),
        SimpleCheckResult::new(State::Okay, None, None)
    );
}

#[test]
fn test_single_check_result_ok() {
    let coll = Collection::from(SimpleCheckResult::ok("summary"));
    assert_eq!(coll.state, State::Okay);
    assert_eq!(coll.render(), "summary\nsummary");
}

#[test]
fn test_single_check_result_warn() {
    let coll = Collection::from(SimpleCheckResult::warn("summary"));
    assert_eq!(coll.state, State::Warn);
    assert_eq!(coll.render(), "summary (!)\nsummary (!)");
}

#[test]
fn test_single_check_result_crit() {
    let coll = Collection::from(SimpleCheckResult::crit("summary"));
    assert_eq!(coll.state, State::Crit);
    assert_eq!(coll.render(), "summary (!!)\nsummary (!!)");
}

#[test]
fn test_single_check_result_unknown() {
    let coll = Collection::from(SimpleCheckResult::unknown("summary"));
    assert_eq!(coll.state, State::Unknown);
    assert_eq!(coll.render(), "summary (?)\nsummary (?)");
}

#[test]
fn test_no_check_results_is_ok() {
    let coll = Collection::from(&mut vec![]);
    assert_eq!(coll.state, State::Okay);
    assert_eq!(coll.render(), "OK");
}

#[test]
fn test_merge_check_results_with_state_only() {
    let cr1 = SimpleCheckResult::default();
    let cr2 = SimpleCheckResult::default();
    let cr3 = SimpleCheckResult::default();
    let coll = Collection::from(&mut vec![cr1.into(), cr2.into(), cr3.into()]);
    assert_eq!(coll.state, State::Okay);
    assert_eq!(coll.render(), "OK");
}

#[test]
fn test_merge_check_results_ok() {
    let cr1 = SimpleCheckResult::ok("summary 1");
    let cr2 = SimpleCheckResult::ok("summary 2");
    let cr3 = SimpleCheckResult::ok("summary 3");
    let coll = Collection::from(&mut vec![cr1.into(), cr2.into(), cr3.into()]);
    assert_eq!(coll.state, State::Okay);
    assert_eq!(
        coll.render(),
        "summary 1, summary 2, summary 3\n\
        summary 1\n\
        summary 2\n\
        summary 3"
    );
}

#[test]
fn test_merge_check_results_warn() {
    let cr1 = SimpleCheckResult::ok("summary 1");
    let cr2 = SimpleCheckResult::warn("summary 2");
    let cr3 = SimpleCheckResult::ok("summary 3");
    let coll = Collection::from(&mut vec![cr1.into(), cr2.into(), cr3.into()]);
    assert_eq!(coll.state, State::Warn);
    assert_eq!(
        coll.render(),
        "summary 1, summary 2 (!), summary 3\n\
        summary 1\n\
        summary 2 (!)\n\
        summary 3"
    );
}

#[test]
fn test_merge_check_results_crit() {
    let cr1 = SimpleCheckResult::ok("summary 1");
    let cr2 = SimpleCheckResult::warn("summary 2");
    let cr3 = SimpleCheckResult::crit("summary 3");
    let coll = Collection::from(&mut vec![cr1.into(), cr2.into(), cr3.into()]);
    assert_eq!(coll.state, State::Crit);
    assert_eq!(
        coll.render(),
        "summary 1, summary 2 (!), summary 3 (!!)\n\
        summary 1\n\
        summary 2 (!)\n\
        summary 3 (!!)"
    );
}

#[test]
fn test_merge_check_results_unknown() {
    let cr1 = SimpleCheckResult::ok("summary 1");
    let cr2 = SimpleCheckResult::warn("summary 2");
    let cr3 = SimpleCheckResult::crit("summary 3");
    let cr4 = SimpleCheckResult::unknown("summary 4");
    let coll = Collection::from(&mut vec![cr1.into(), cr2.into(), cr3.into(), cr4.into()]);
    assert_eq!(coll.state, State::Crit);
    assert_eq!(
        coll.render(),
        "summary 1, summary 2 (!), summary 3 (!!), summary 4 (?)\n\
        summary 1\n\
        summary 2 (!)\n\
        summary 3 (!!)\n\
        summary 4 (?)"
    );
}

fn m(name: &str, x: isize) -> Metric<Real> {
    Metric::<Real>::builder()
        .label(name)
        .value(Real::Integer(x))
        .build()
}

#[test]
fn test_collection_with_metrics() {
    let cr1 = CheckResult::ok("summary 1", m("m1", 13));
    let cr2 = CheckResult::warn("summary 2", m("m2", 37));
    let cr3 = CheckResult::crit("summary 3", m("m3", 42));
    let mut vec = vec![cr1, cr2, cr3];
    let coll = Collection::from(&mut vec);
    assert_eq!(coll.state, State::Crit);
    assert_eq!(
        coll.render(),
        "summary 1, summary 2 (!), summary 3 (!!) | m1=13;;;; m2=37;;;; m3=42;;;;\n\
        summary 1\n\
        summary 2 (!)\n\
        summary 3 (!!)"
    );
    assert!(vec.is_empty());
}

#[test]
fn test_joined_collection_with_metrics() {
    let mut coll = Collection::default();
    coll.join(&mut Collection::from(&mut vec![CheckResult::ok(
        "summary 1",
        m("m1", 13),
    )]));
    coll.join(&mut Collection::from(&mut vec![CheckResult::warn(
        "summary 2",
        m("m2", 37),
    )]));
    coll.join(&mut Collection::from(&mut vec![CheckResult::crit(
        "summary 3",
        m("m3", 42),
    )]));
    let coll = coll;
    assert_eq!(coll.state, State::Crit);
    assert_eq!(
        coll.render(),
        "summary 1, summary 2 (!), summary 3 (!!) | m1=13;;;; m2=37;;;; m3=42;;;;\n\
        summary 1\n\
        summary 2 (!)\n\
        summary 3 (!!)"
    );
}

#[test]
fn test_collection_with_details() {
    let cr_ok = SimpleCheckResult::ok_with_details("summary ok", "details ok");
    let cr_notice = SimpleCheckResult::notice("notice");
    let cr_warn = SimpleCheckResult::warn_with_details("summary warn", "details warn");
    let cr_crit = SimpleCheckResult::crit_with_details("summary crit", "details crit");
    let coll = Collection::from(&mut vec![
        cr_ok.into(),
        cr_notice.into(),
        cr_warn.into(),
        cr_crit.into(),
    ]);
    assert_eq!(coll.state, State::Crit);
    assert_eq!(
        coll.render(),
        "summary ok, summary warn (!), summary crit (!!)\n\
        details ok\n\
        notice\n\
        details warn (!)\n\
        details crit (!!)"
    );
}

#[test]
fn test_collection_with_metrics_and_details() {
    let cr_ok = SimpleCheckResult::ok("summary ok");
    let cr_notice = SimpleCheckResult::notice("notice");
    let cr_warn = CheckResult::warn_with_details("summary warn", "details warn", m("mwarn", 13));
    let cr_crit = CheckResult::crit_with_details("summary crit", "details crit", m("mcrit", 37));
    let coll = Collection::from(&mut vec![cr_ok.into(), cr_notice.into(), cr_warn, cr_crit]);
    assert_eq!(coll.state, State::Crit);
    assert_eq!(
        coll.render(),
        "summary ok, summary warn (!), summary crit (!!) | mwarn=13;;;; mcrit=37;;;;\n\
        summary ok\n\
        notice\n\
        details warn (!)\n\
        details crit (!!)"
    );
}

#[test]
fn test_collection_with_heterogeneous_details() {
    let cr_ok = SimpleCheckResult::ok("summary ok");
    let cr_notice = SimpleCheckResult::notice("notice");
    let cr_warn = CheckResult::warn_with_details("summary warn", "details warn", m("mwarn", 13));
    let cr_crit = CheckResult::crit("summary crit", m("mcrit", 37));
    let coll = Collection::from(&mut vec![cr_ok.into(), cr_notice.into(), cr_warn, cr_crit]);
    assert_eq!(coll.state, State::Crit);
    assert_eq!(
        coll.render(),
        "summary ok, summary warn (!), summary crit (!!) | mwarn=13;;;; mcrit=37;;;;\n\
        summary ok\n\
        notice\n\
        details warn (!)\n\
        summary crit (!!)"
    );
}

#[test]
fn test_collection_levels_checker_warn_notice() {
    let levels =
        LevelsChecker::try_new(LevelsStrategy::Upper, Levels { warn: 10, crit: 20 }).unwrap();
    let args = LevelsCheckerArgs {
        label: "label".to_string(),
        uom: Some(Uom("ms".to_string())),
    };
    let check = levels.check(15, OutputType::Notice("notice".to_string()), args);
    let coll = Collection::from(&mut vec![check.map(Real::from)]);
    assert_eq!(coll.state, State::Warn);
    assert_eq!(
        coll.render(),
        "notice (warn/crit at 10/20) (!) | label=15ms;10;20;;\nnotice (warn/crit at 10/20) (!)"
    );
}
