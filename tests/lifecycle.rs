use bmi_rs::handle::{is_admitted, step, Call, Handle, Lifecycle};

struct Counter {
    finalized: u32,
}

#[test]
fn second_finalize_does_not_reach_the_model() {
    let mut h = Handle::new(Counter { finalized: 0 });
    let m = h.begin(Call::Finalize).expect("first finalize is admitted");
    m.finalized += 1;
    assert_eq!(m.finalized, 1);
    h.finish(Call::Finalize, true);
    assert_eq!(h.state(), Lifecycle::Finalized);
    assert!(h.begin(Call::Finalize).is_none());
    h.finish(Call::Finalize, true);
    assert_eq!(h.state(), Lifecycle::Finalized);
}

#[test]
fn every_call_after_finalize_is_refused() {
    let mut h = Handle::new(Counter { finalized: 0 });
    h.finish(Call::Initialize, true);
    h.finish(Call::Finalize, false);
    for call in [Call::Initialize, Call::Update, Call::Query, Call::Access, Call::Finalize] {
        assert!(h.begin(call).is_none());
    }
}

#[test]
fn values_are_reachable_only_after_initialize() {
    let mut h = Handle::new(Counter { finalized: 0 });
    assert_eq!(h.state(), Lifecycle::Registered);
    assert!(h.begin(Call::Access).is_none());
    assert!(h.begin(Call::Update).is_none());
    assert!(h.begin(Call::Query).is_some());
    assert!(h.begin(Call::Initialize).is_some());
    h.finish(Call::Initialize, true);
    assert_eq!(h.state(), Lifecycle::Initialized);
    assert!(h.begin(Call::Access).is_some());
    assert!(h.begin(Call::Initialize).is_none());
    h.finish(Call::Update, true);
    assert_eq!(h.state(), Lifecycle::Updated);
    assert!(h.begin(Call::Update).is_some());
}

#[test]
fn failed_initialize_leaves_the_handle_registered() {
    assert_eq!(step(Lifecycle::Registered, Call::Initialize, false), Lifecycle::Registered);
    assert_eq!(step(Lifecycle::Registered, Call::Initialize, true), Lifecycle::Initialized);
    assert_eq!(step(Lifecycle::Initialized, Call::Update, false), Lifecycle::Initialized);
    assert_eq!(step(Lifecycle::Updated, Call::Initialize, true), Lifecycle::Updated);
    assert_eq!(step(Lifecycle::Registered, Call::Finalize, false), Lifecycle::Finalized);
    assert!(!is_admitted(Lifecycle::Finalized, Call::Query));
    assert!(is_admitted(Lifecycle::Updated, Call::Access));
}
