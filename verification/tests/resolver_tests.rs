use astral_flow_meter::dll::{ModuleResolver, ProbeOutcome};

fn candidates(names: &[&str]) -> Vec<String> {
    names.iter().map(|n| String::from(*n)).collect()
}

#[test]
fn resolver_takes_first_success_and_stops() {
    let mut resolver = ModuleResolver::new(candidates(&["bad.dll", "good.dll", "later.dll"]));

    let first = resolver.pending().expect("first candidate offered");
    assert_eq!(first, String::from("bad.dll"));
    assert!(resolver.step(ProbeOutcome::NotFound).is_none());

    let second = resolver.pending().expect("second candidate offered");
    assert_eq!(second, String::from("good.dll"));
    let handle = resolver.step(ProbeOutcome::Loaded).expect("handle from good path");
    assert!(handle.loaded);
    assert_eq!(handle.path, String::from("good.dll"));

    // after the success no later candidate is ever offered
    assert!(resolver.pending().is_none());
    assert_eq!(resolver.failures, 1);
}

#[test]
fn resolver_all_missing_reports_one_failure_per_path() {
    let mut resolver = ModuleResolver::new(candidates(&["a.dll", "b.dll", "c.dll"]));
    for _ in 0..3 {
        assert!(resolver.pending().is_some());
        assert!(resolver.step(ProbeOutcome::NotFound).is_none());
    }
    assert!(resolver.pending().is_none());
    assert_eq!(resolver.failures, 3);
}

#[test]
fn resolver_counts_load_failures_too() {
    let mut resolver = ModuleResolver::new(candidates(&["exists_but_bad.dll", "missing.dll"]));
    assert!(resolver.step(ProbeOutcome::LoadFailed).is_none());
    assert!(resolver.step(ProbeOutcome::NotFound).is_none());
    assert!(resolver.pending().is_none());
    assert_eq!(resolver.failures, 2);
}

#[test]
fn resolver_empty_list_offers_nothing() {
    let resolver = ModuleResolver::new(Vec::new());
    assert!(resolver.pending().is_none());
    assert_eq!(resolver.failures, 0);
}
