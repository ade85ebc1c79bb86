use netstatsd::app_health::{get_hpos_app_health, HealthMap};
use netstatsd::application::{ApplicationDescriptor, ApplicationStatus, CellHandle, StatusKind};
use netstatsd::error::{ConnectionCause, Error};

fn entry_of(id: &str, status: ApplicationStatus) -> ApplicationDescriptor {
    ApplicationDescriptor {
        id: id.to_string(),
        status,
        cells: vec![CellHandle { dna: vec![1, 2], agent: vec![3] }],
    }
}

#[test]
fn end_to_end_health_aggregation() {
    let apps = vec![
        entry_of("core-app:v1::x", ApplicationStatus::Running),
        entry_of("hha-happ", ApplicationStatus::Paused { reason: "error".to_string() }),
    ];
    let map = get_hpos_app_health(Ok(apps)).unwrap();
    assert_eq!(map.len(), 2);
    assert_eq!(map.get(&"core-app:v1::x".to_string()), Some(&ApplicationStatus::Running));
    assert_eq!(
        map.get(&"hha-happ".to_string()),
        Some(&ApplicationStatus::Paused { reason: "error".to_string() })
    );
    assert_eq!(map.get(&"hha-happ".to_string()).unwrap().kind(), StatusKind::Paused);
    assert_eq!(map.get(&"other".to_string()), None);
}

#[test]
fn every_status_passes_through_unchanged() {
    let statuses = vec![
        ApplicationStatus::Running,
        ApplicationStatus::Paused { reason: "p".to_string() },
        ApplicationStatus::Disabled { reason: "never started".to_string() },
        ApplicationStatus::AwaitingInput,
    ];
    let apps: Vec<ApplicationDescriptor> =
        statuses.iter().enumerate().map(|(i, s)| entry_of(&format!("app-{i}"), s.clone())).collect();
    let map = get_hpos_app_health(Ok(apps)).unwrap();
    assert_eq!(map.len(), 4);
    for (i, status) in statuses.iter().enumerate() {
        assert_eq!(map.get(&format!("app-{i}")), Some(status));
        let (id, held) = map.entry(i);
        assert_eq!(id, &format!("app-{i}"));
        assert_eq!(held, status);
    }
}

#[test]
fn status_kinds() {
    assert_eq!(ApplicationStatus::Running.kind(), StatusKind::Running);
    assert_eq!(ApplicationStatus::Paused { reason: String::new() }.kind(), StatusKind::Paused);
    assert_eq!(ApplicationStatus::Disabled { reason: String::new() }.kind(), StatusKind::Disabled);
    assert_eq!(ApplicationStatus::AwaitingInput.kind(), StatusKind::AwaitingInput);
}

#[test]
fn a_repeated_identifier_keeps_the_last_status() {
    let apps = vec![
        entry_of("a", ApplicationStatus::Running),
        entry_of("b", ApplicationStatus::Running),
        entry_of("a", ApplicationStatus::AwaitingInput),
    ];
    let map = get_hpos_app_health(Ok(apps)).unwrap();
    assert_eq!(map.len(), 2);
    assert_eq!(map.get(&"a".to_string()), Some(&ApplicationStatus::AwaitingInput));
    assert_eq!(map.get(&"b".to_string()), Some(&ApplicationStatus::Running));
    assert_eq!(map.entry(0).0, "a");
    assert_eq!(map.entry(1).0, "b");
}

#[test]
fn an_empty_listing_gives_an_empty_map() {
    let map = get_hpos_app_health(Ok(Vec::new())).unwrap();
    assert_eq!(map.len(), 0);
    assert_eq!(map.get(&String::new()), None);
}

#[test]
fn a_failed_listing_is_passed_on() {
    let failure = Error::Protocol { details: "no such interface".to_string() };
    assert_eq!(
        get_hpos_app_health(Err(failure)).unwrap_err(),
        Error::Protocol { details: "no such interface".to_string() }
    );
    let dropped = Error::Connection { cause: ConnectionCause::Dropped };
    assert_eq!(
        get_hpos_app_health(Err(dropped)).unwrap_err(),
        Error::Connection { cause: ConnectionCause::Dropped }
    );
}

#[test]
fn insert_sets_and_replaces() {
    let mut map = HealthMap::new();
    assert_eq!(map.len(), 0);
    map.insert("x".to_string(), ApplicationStatus::Running);
    map.insert("y".to_string(), ApplicationStatus::AwaitingInput);
    map.insert("x".to_string(), ApplicationStatus::Disabled { reason: "r".to_string() });
    assert_eq!(map.len(), 2);
    assert_eq!(
        map.get(&"x".to_string()),
        Some(&ApplicationStatus::Disabled { reason: "r".to_string() })
    );
    assert_eq!(map.get(&"y".to_string()), Some(&ApplicationStatus::AwaitingInput));
}

#[test]
fn clones_are_equal() {
    let statuses = vec![
        ApplicationStatus::Running,
        ApplicationStatus::Paused { reason: "p".to_string() },
        ApplicationStatus::Disabled { reason: "d".to_string() },
        ApplicationStatus::AwaitingInput,
    ];
    for status in &statuses {
        assert_eq!(&status.clone(), status);
    }
    let cell = CellHandle { dna: vec![1, 2, 3], agent: vec![4] };
    assert_eq!(cell.clone(), cell);
    let errors = vec![
        Error::Connection { cause: ConnectionCause::Busy },
        Error::Protocol { details: "details".to_string() },
        Error::UnexpectedResponse { got: netstatsd::error::ResponseKind::Other },
        Error::Config { cause: netstatsd::error::ConfigCause::Unreadable },
        Error::Signing { cause: netstatsd::error::SigningCause::Unlock },
    ];
    for error in &errors {
        assert_eq!(&error.clone(), error);
        assert_eq!(error.clone().kind(), error.kind());
    }
}
