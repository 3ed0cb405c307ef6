use nebulet::config::Config;
use nebulet::record::{next_timestamp, ContainerRecord};
use nebulet::status::ContainerStatus;

fn sample(status: ContainerStatus, runtime_id: Option<&str>) -> ContainerRecord {
    ContainerRecord {
        id: "c1".to_owned(),
        name: "web".to_owned(),
        image: "nginx".to_owned(),
        status,
        runtime_id: runtime_id.map(|s| s.to_owned()),
        created_at: 100,
        updated_at: 200,
    }
}

#[test]
fn status_as_str_gives_the_persisted_names() {
    assert_eq!(ContainerStatus::Pending.as_str(), "Pending");
    assert_eq!(ContainerStatus::Created.as_str(), "Created");
    assert_eq!(ContainerStatus::Running.as_str(), "Running");
    assert_eq!(ContainerStatus::Stopped.as_str(), "Stopped");
    assert_eq!(ContainerStatus::Failed.as_str(), "Failed");
    assert_eq!(ContainerStatus::Removing.as_str(), "Removing");
}

#[test]
fn status_parse_round_trips_every_name() {
    let all = [
        ContainerStatus::Pending,
        ContainerStatus::Created,
        ContainerStatus::Running,
        ContainerStatus::Stopped,
        ContainerStatus::Failed,
        ContainerStatus::Removing,
    ];
    for s in all {
        assert_eq!(ContainerStatus::parse(s.as_str()), Some(s));
    }
}

#[test]
fn status_parse_rejects_unknown_strings() {
    assert_eq!(ContainerStatus::parse("exited"), None);
    assert_eq!(ContainerStatus::parse("pending"), None);
    assert_eq!(ContainerStatus::parse(""), None);
}

#[test]
fn report_mapping_defaults_to_stopped() {
    assert_eq!(ContainerStatus::from_report("running"), ContainerStatus::Running);
    assert_eq!(ContainerStatus::from_report("created"), ContainerStatus::Created);
    assert_eq!(ContainerStatus::from_report("exited"), ContainerStatus::Stopped);
    assert_eq!(ContainerStatus::from_report("dead"), ContainerStatus::Stopped);
    assert_eq!(ContainerStatus::from_report(""), ContainerStatus::Stopped);
}

#[test]
fn new_record_starts_pending_without_handle() {
    let r = ContainerRecord::new("c9".to_owned(), "db".to_owned(), "postgres".to_owned(), 42);
    assert_eq!(r.id, "c9");
    assert_eq!(r.name, "db");
    assert_eq!(r.image, "postgres");
    assert_eq!(r.status, ContainerStatus::Pending);
    assert_eq!(r.runtime_id, None);
    assert_eq!(r.created_at, 42);
    assert_eq!(r.updated_at, 42);
}

#[test]
fn created_record_has_a_fresh_36_character_key() {
    let r = ContainerRecord::create("web".to_owned(), "nginx".to_owned());
    assert_eq!(r.id.chars().count(), 36);
    assert_eq!(r.status, ContainerStatus::Pending);
    assert_eq!(r.runtime_id, None);
    assert_eq!(r.created_at, r.updated_at);
    let other = ContainerRecord::create("web".to_owned(), "nginx".to_owned());
    assert_ne!(r.id, other.id);
}

#[test]
fn update_status_refreshes_updated_at() {
    let mut r = sample(ContainerStatus::Created, Some("rt-1"));
    r.update_status(ContainerStatus::Running, 300);
    assert_eq!(r.status, ContainerStatus::Running);
    assert_eq!(r.updated_at, 300);
    assert_eq!(r.created_at, 100);
    assert_eq!(r.runtime_id.as_deref(), Some("rt-1"));
}

#[test]
fn set_runtime_id_stores_the_handle() {
    let mut r = sample(ContainerStatus::Created, None);
    r.set_runtime_id("rt-7".to_owned(), 250);
    assert_eq!(r.runtime_id.as_deref(), Some("rt-7"));
    assert_eq!(r.updated_at, 250);
}

#[test]
fn request_removal_marks_the_record() {
    let mut r = sample(ContainerStatus::Running, Some("rt-1"));
    r.request_removal(400);
    assert_eq!(r.status, ContainerStatus::Removing);
    assert_eq!(r.updated_at, 400);
    assert_eq!(r.runtime_id.as_deref(), Some("rt-1"));
}

#[test]
fn next_timestamp_never_goes_backwards() {
    let mut r = sample(ContainerStatus::Running, Some("rt-1"));
    r.updated_at = i64::MAX - 1;
    let t = next_timestamp(&r);
    assert_eq!(t, i64::MAX - 1);
    let fresh = sample(ContainerStatus::Running, Some("rt-1"));
    assert!(next_timestamp(&fresh) >= fresh.updated_at);
}

#[test]
fn config_default_values() {
    let c = Config::default();
    assert_eq!(c.server_port, 8080);
    assert_eq!(c.server_host, "0.0.0.0");
    assert_eq!(c.processor_name, "nebulet-processor");
    assert_eq!(c.log_level, "info");
    assert!(!c.log_json);
    assert_eq!(c.database_url, "sqlite://./nebulet.db?mode=rwc");
}
