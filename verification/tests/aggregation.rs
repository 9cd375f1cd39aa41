use service_status::aggregator::{Aggregation, Query, Reply, Stage};
use service_status::registry::Registry;
use service_status::status::{ServiceDetails, Status, StatusRecord};

/// A stand-in for the inspector: the services it knows, in enumeration
/// order, each with its running state; and whether enumeration works.
struct FakeInspector {
    services: Vec<(String, bool)>,
    can_enumerate: bool,
    enumerations: usize,
}

impl FakeInspector {
    fn new(services: &[(&str, bool)]) -> FakeInspector {
        FakeInspector {
            services: services.iter().map(|(n, r)| (n.to_string(), *r)).collect(),
            can_enumerate: true,
            enumerations: 0,
        }
    }

    fn knows(&self, name: &str) -> bool {
        self.services.iter().any(|(n, _)| n == name)
    }

    fn is_running(&self, name: &str) -> bool {
        self.services.iter().any(|(n, r)| n == name && *r)
    }

    fn detail(&self, name: &str) -> ServiceDetails {
        details_of(name)
    }

    fn enumerate(&mut self) -> Option<Vec<String>> {
        self.enumerations += 1;
        if self.can_enumerate {
            Some(self.services.iter().map(|(n, _)| n.clone()).collect())
        } else {
            None
        }
    }
}

fn details_of(name: &str) -> ServiceDetails {
    ServiceDetails {
        service_name: name.to_string(),
        service_display_name: format!("{} display", name),
        executable_path: format!("/usr/sbin/{}", name),
        description: format!("the {} daemon", name),
        service_type: "simple".to_string(),
        service_account: "root".to_string(),
    }
}

fn record_of(name: &str, status: Status) -> StatusRecord {
    StatusRecord { name: name.to_string(), status, detail: details_of(name) }
}

fn registry_of(names: &[&str]) -> Registry {
    let mut registry = Registry::new();
    registry.set(names.iter().map(|n| n.to_string()).collect());
    registry
}

fn aggregate(registry: &mut Registry, inspector: &mut FakeInspector) -> Vec<StatusRecord> {
    let mut pass = Aggregation::begin(registry);
    loop {
        match pass.pending() {
            Query::EnumerateAll => {
                let names = inspector.enumerate();
                pass.resolve(registry, names);
            }
            Query::Exists(name) => pass.answer(Reply::Exists(inspector.knows(&name))),
            Query::IsRunning(name) => pass.answer(Reply::Running(inspector.is_running(&name))),
            Query::FetchDetail(name) => pass.answer(Reply::Detail(inspector.detail(&name))),
            Query::Done => break,
        }
    }
    assert!(pass.is_finished());
    pass.into_records()
}

#[test]
fn running_service_gives_one_active_record() {
    let mut registry = registry_of(&["sshd"]);
    let mut inspector = FakeInspector::new(&[("sshd", true)]);
    let records = aggregate(&mut registry, &mut inspector);
    assert_eq!(records, vec![record_of("sshd", Status::Active)]);
    assert_eq!(records.len(), 1);
    assert_eq!(records[0].status, Status::Active);
    assert!(!records[0].detail.service_name.is_empty());
    assert!(!records[0].detail.service_display_name.is_empty());
    assert!(!records[0].detail.executable_path.is_empty());
    assert!(!records[0].detail.description.is_empty());
    assert!(!records[0].detail.service_type.is_empty());
    assert!(!records[0].detail.service_account.is_empty());
    assert_eq!(registry.get(), vec!["sshd".to_string()]);
    assert_eq!(inspector.enumerations, 0);
}

#[test]
fn unknown_service_gives_no_record() {
    let mut registry = registry_of(&["nonexistent-service-xyz"]);
    let mut inspector = FakeInspector::new(&[("sshd", true)]);
    let records = aggregate(&mut registry, &mut inspector);
    assert!(records.is_empty());
    assert_eq!(registry.get(), vec!["nonexistent-service-xyz".to_string()]);
}

#[test]
fn sentinel_expands_to_all_services_in_order() {
    let mut registry = registry_of(&[":all_services"]);
    let mut inspector = FakeInspector::new(&[("a", true), ("b", false)]);
    let records = aggregate(&mut registry, &mut inspector);
    assert_eq!(records, vec![record_of("a", Status::Active), record_of("b", Status::Inactive)]);
    assert_eq!(registry.get(), vec!["a".to_string(), "b".to_string()]);
    assert!(!registry.contains_sentinel());
}

#[test]
fn sentinel_is_resolved_only_once() {
    let mut registry = registry_of(&[":all_services"]);
    let mut inspector = FakeInspector::new(&[("a", true), ("b", false)]);
    let first = aggregate(&mut registry, &mut inspector);
    assert_eq!(inspector.enumerations, 1);
    let second = aggregate(&mut registry, &mut inspector);
    assert_eq!(inspector.enumerations, 1);
    assert_eq!(first, second);
}

#[test]
fn stage_follows_the_queries() {
    let registry = registry_of(&["a"]);
    let mut pass = Aggregation::begin(&registry);
    assert_eq!(pass.stage(), Stage::Existence);
    assert_eq!(pass.pending(), Query::Exists("a".to_string()));
    pass.answer(Reply::Exists(true));
    assert_eq!(pass.stage(), Stage::RunningState);
    assert_eq!(pass.pending(), Query::IsRunning("a".to_string()));
    pass.answer(Reply::Running(false));
    assert_eq!(pass.stage(), Stage::Detail);
    assert_eq!(pass.pending(), Query::FetchDetail("a".to_string()));
    pass.answer(Reply::Detail(details_of("a")));
    assert_eq!(pass.stage(), Stage::Finished);
    assert_eq!(pass.pending(), Query::Done);
    assert_eq!(pass.into_records(), vec![record_of("a", Status::Inactive)]);
}

#[test]
fn failed_enumeration_gives_empty_list_and_keeps_registry() {
    let mut registry = registry_of(&[":all_services"]);
    let mut inspector = FakeInspector::new(&[("a", true)]);
    inspector.can_enumerate = false;
    let records = aggregate(&mut registry, &mut inspector);
    assert!(records.is_empty());
    assert_eq!(registry.get(), vec![":all_services".to_string()]);
    assert_eq!(inspector.enumerations, 1);
    // The sentinel is still there, so the next pass asks again.
    inspector.can_enumerate = true;
    let records = aggregate(&mut registry, &mut inspector);
    assert_eq!(records, vec![record_of("a", Status::Active)]);
    assert_eq!(inspector.enumerations, 2);
    assert_eq!(registry.get(), vec!["a".to_string()]);
}

#[test]
fn empty_enumeration_empties_the_registry() {
    let mut registry = registry_of(&[":all_services"]);
    let mut inspector = FakeInspector::new(&[]);
    let records = aggregate(&mut registry, &mut inspector);
    assert!(records.is_empty());
    assert!(registry.get().is_empty());
    assert_eq!(registry.len(), 0);
}

#[test]
fn sentinel_anywhere_discards_the_other_names() {
    let mut registry = registry_of(&["x", ":all_services", "y"]);
    let mut inspector = FakeInspector::new(&[("a", false), ("x", true)]);
    let records = aggregate(&mut registry, &mut inspector);
    assert_eq!(records, vec![record_of("a", Status::Inactive), record_of("x", Status::Active)]);
    assert_eq!(registry.get(), vec!["a".to_string(), "x".to_string()]);
}

#[test]
fn enumerated_sentinel_is_dropped() {
    let mut registry = registry_of(&[":all_services"]);
    let mut pass = Aggregation::begin(&registry);
    assert_eq!(pass.stage(), Stage::Enumerating);
    assert_eq!(pass.pending(), Query::EnumerateAll);
    pass.resolve(
        &mut registry,
        Some(vec!["a".to_string(), ":all_services".to_string(), "b".to_string()]),
    );
    assert_eq!(registry.get(), vec!["a".to_string(), "b".to_string()]);
    assert_eq!(pass.pending(), Query::Exists("a".to_string()));
    pass.answer(Reply::Exists(false));
    assert_eq!(pass.pending(), Query::Exists("b".to_string()));
    pass.answer(Reply::Exists(false));
    assert_eq!(pass.pending(), Query::Done);
    assert!(pass.into_records().is_empty());
}

#[test]
fn empty_registry_is_finished_at_once() {
    let registry = Registry::new();
    let pass = Aggregation::begin(&registry);
    assert!(pass.is_finished());
    assert_eq!(pass.pending(), Query::Done);
    assert!(pass.into_records().is_empty());
}

#[test]
fn unexpected_reply_changes_nothing() {
    let registry = registry_of(&["a", "b"]);
    let mut pass = Aggregation::begin(&registry);
    pass.answer(Reply::Running(true));
    assert_eq!(pass.stage(), Stage::Existence);
    assert_eq!(pass.pending(), Query::Exists("a".to_string()));
    pass.answer(Reply::Detail(details_of("a")));
    assert_eq!(pass.pending(), Query::Exists("a".to_string()));
    pass.answer(Reply::Exists(true));
    pass.answer(Reply::Exists(true));
    assert_eq!(pass.pending(), Query::IsRunning("a".to_string()));
    pass.answer(Reply::Running(true));
    pass.answer(Reply::Running(false));
    assert_eq!(pass.pending(), Query::FetchDetail("a".to_string()));
    pass.answer(Reply::Detail(details_of("a")));
    assert_eq!(pass.pending(), Query::Exists("b".to_string()));
    assert_eq!(pass.into_records(), vec![record_of("a", Status::Active)]);
}

#[test]
fn resolve_is_ignored_when_not_asked_for() {
    let mut registry = registry_of(&["a"]);
    let mut pass = Aggregation::begin(&registry);
    pass.resolve(&mut registry, Some(vec!["z".to_string()]));
    assert_eq!(registry.get(), vec!["a".to_string()]);
    assert_eq!(pass.pending(), Query::Exists("a".to_string()));
    pass.resolve(&mut registry, None);
    assert_eq!(registry.get(), vec!["a".to_string()]);
    assert_eq!(pass.pending(), Query::Exists("a".to_string()));
}

#[test]
fn records_are_at_most_as_many_as_names() {
    let inspector_services = [("a", true), ("c", false)];
    let mut inspector = FakeInspector::new(&inspector_services);
    let mut registry = registry_of(&["a", "b", "c"]);
    let records = aggregate(&mut registry, &mut inspector);
    assert_eq!(records.len(), 2);
    assert_eq!(records, vec![record_of("a", Status::Active), record_of("c", Status::Inactive)]);
    let mut registry = registry_of(&["c", "a"]);
    let records = aggregate(&mut registry, &mut inspector);
    assert_eq!(records.len(), 2);
    assert_eq!(records, vec![record_of("c", Status::Inactive), record_of("a", Status::Active)]);
}

#[test]
fn two_passes_give_the_same_list() {
    let mut inspector = FakeInspector::new(&[("a", true), ("b", false), ("d", true)]);
    let mut registry = registry_of(&["d", "zzz", "a", "a"]);
    let first = aggregate(&mut registry, &mut inspector);
    let second = aggregate(&mut registry, &mut inspector);
    assert_eq!(first, second);
    assert_eq!(
        first,
        vec![
            record_of("d", Status::Active),
            record_of("a", Status::Active),
            record_of("a", Status::Active)
        ]
    );
    assert_eq!(
        registry.get(),
        vec!["d".to_string(), "zzz".to_string(), "a".to_string(), "a".to_string()]
    );
}

#[test]
fn status_follows_the_running_state() {
    assert_eq!(Status::from_running(true), Status::Active);
    assert_eq!(Status::from_running(false), Status::Inactive);
}

#[test]
fn record_clone_is_equal() {
    let record = record_of("sshd", Status::Active);
    assert_eq!(record.clone(), record);
    let details = details_of("cron");
    assert_eq!(details.clone(), details);
}
