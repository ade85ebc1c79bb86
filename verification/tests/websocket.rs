use netstatsd::application::{ApplicationDescriptor, ApplicationStatus, CellHandle, StatusKind};
use netstatsd::error::{ConnectionCause, Error, ErrorKind, ResponseKind};
use netstatsd::retry::{ConnectStep, RetryPolicy};
use netstatsd::websocket::{
    AdminRequest, AdminResponse, AdminWebsocket, AppRequest, AppResponse, AppWebsocket,
    ConductorChannel, ZomeCall,
};

fn quick() -> RetryPolicy {
    RetryPolicy { base_delay_ms: 5, multiplier: 2, max_delay_ms: 1000, max_attempts: 3 }
}

fn refused(cause: ConnectionCause) -> Error {
    Error::Connection { cause }
}

fn open_admin() -> AdminWebsocket {
    let (mut ws, step) = AdminWebsocket::connect(4444, quick());
    assert_eq!(step, ConnectStep::Attempt { after_ms: 0 });
    ws.channel.established();
    ws
}

fn open_app() -> AppWebsocket {
    let (mut ws, _) = AppWebsocket::connect(42233, quick());
    ws.channel.established();
    ws
}

fn described(id: &str, status: ApplicationStatus) -> ApplicationDescriptor {
    ApplicationDescriptor {
        id: id.to_string(),
        status,
        cells: vec![CellHandle { dna: vec![9; 39], agent: vec![7; 39] }],
    }
}

#[test]
fn url_names_the_port() {
    let (channel, _) = ConductorChannel::connect(4444, quick());
    assert_eq!(channel.url(), "ws://localhost:4444/");
    assert_eq!(ConductorChannel::connect(0, quick()).0.url(), "ws://localhost:0/");
    assert_eq!(ConductorChannel::connect(80, quick()).0.url(), "ws://localhost:80/");
    assert_eq!(ConductorChannel::connect(u16::MAX, quick()).0.url(), "ws://localhost:65535/");
}

#[test]
fn connect_fails_after_bounded_attempts() {
    let (mut ws, first) = AdminWebsocket::connect(4444, quick());
    assert_eq!(first, ConnectStep::Attempt { after_ms: 0 });
    assert_eq!(ws.channel.attempt_failed(), ConnectStep::Attempt { after_ms: 5 });
    assert_eq!(ws.channel.attempt_failed(), ConnectStep::Attempt { after_ms: 10 });
    let last = ws.channel.attempt_failed();
    assert_eq!(
        last,
        ConnectStep::GiveUp { error: refused(ConnectionCause::RetriesExhausted { attempts: 3 }) }
    );
    match last {
        ConnectStep::GiveUp { error } => assert_eq!(error.kind(), ErrorKind::Connection),
        ConnectStep::Attempt { .. } => unreachable!(),
    }
    assert_eq!(
        ws.list_apps(None),
        Err(refused(ConnectionCause::RetriesExhausted { attempts: 3 }))
    );
    assert_eq!(
        ws.channel.attempt_failed(),
        ConnectStep::GiveUp { error: refused(ConnectionCause::RetriesExhausted { attempts: 3 }) }
    );
    ws.channel.established();
    assert_eq!(
        ws.apps_listed(Some(AdminResponse::AppsListed(Vec::new()))),
        Err(refused(ConnectionCause::RetriesExhausted { attempts: 3 }))
    );
}

#[test]
fn connect_with_no_attempts_allowed_fails_at_once() {
    let never = RetryPolicy { base_delay_ms: 5, multiplier: 2, max_delay_ms: 5, max_attempts: 0 };
    let (mut ws, step) = AdminWebsocket::connect(4444, never);
    assert_eq!(
        step,
        ConnectStep::GiveUp { error: refused(ConnectionCause::RetriesExhausted { attempts: 0 }) }
    );
    ws.channel.established();
    assert_eq!(
        ws.list_apps(None),
        Err(refused(ConnectionCause::RetriesExhausted { attempts: 0 }))
    );
}

#[test]
fn a_later_attempt_may_succeed() {
    let (mut ws, _) = AdminWebsocket::connect(4444, quick());
    assert_eq!(ws.channel.attempt_failed(), ConnectStep::Attempt { after_ms: 5 });
    ws.channel.established();
    assert_eq!(ws.list_apps(None), Ok(AdminRequest::ListApps { status_filter: None }));
}

#[test]
fn requests_before_the_connection_are_refused() {
    let (mut ws, _) = AdminWebsocket::connect(4444, quick());
    assert_eq!(ws.list_apps(None), Err(refused(ConnectionCause::NotConnected)));
    assert_eq!(
        ws.apps_listed(Some(AdminResponse::AppsListed(Vec::new()))),
        Err(refused(ConnectionCause::NotConnected))
    );
    ws.channel.established();
    assert_eq!(ws.list_apps(None), Ok(AdminRequest::ListApps { status_filter: None }));
}

#[test]
fn list_apps_returns_the_remote_order() {
    let mut ws = open_admin();
    assert_eq!(
        ws.list_apps(Some(StatusKind::Running)),
        Ok(AdminRequest::ListApps { status_filter: Some(StatusKind::Running) })
    );
    let listed = vec![
        described("zeta", ApplicationStatus::Running),
        described("alpha", ApplicationStatus::Running),
        described("mid:v1", ApplicationStatus::Running),
    ];
    let out = ws.apps_listed(Some(AdminResponse::AppsListed(listed))).unwrap();
    let ids: Vec<&str> = out.iter().map(|a| a.id.as_str()).collect();
    assert_eq!(ids, vec!["zeta", "alpha", "mid:v1"]);
    assert_eq!(ws.list_apps(None), Ok(AdminRequest::ListApps { status_filter: None }));
}

#[test]
fn one_request_at_a_time() {
    let mut ws = open_admin();
    assert!(ws.list_apps(None).is_ok());
    assert_eq!(ws.list_apps(None), Err(refused(ConnectionCause::Busy)));
    assert_eq!(ws.apps_listed(Some(AdminResponse::AppsListed(Vec::new()))), Ok(Vec::new()));
    assert_eq!(
        ws.apps_listed(Some(AdminResponse::AppsListed(Vec::new()))),
        Err(refused(ConnectionCause::Unawaited))
    );
}

#[test]
fn remote_error_is_a_protocol_error() {
    let mut ws = open_admin();
    assert!(ws.list_apps(None).is_ok());
    let out = ws.apps_listed(Some(AdminResponse::Error("bad request".to_string())));
    assert_eq!(out, Err(Error::Protocol { details: "bad request".to_string() }));
    assert_eq!(out.unwrap_err().kind(), ErrorKind::Protocol);
    assert!(ws.list_apps(None).is_ok());
}

#[test]
fn other_response_is_unexpected() {
    let mut ws = open_admin();
    assert!(ws.list_apps(None).is_ok());
    let out = ws.apps_listed(Some(AdminResponse::Other));
    assert_eq!(out, Err(Error::UnexpectedResponse { got: ResponseKind::Other }));
    assert_eq!(out.unwrap_err().kind(), ErrorKind::UnexpectedResponse);
}

#[test]
fn a_dropped_connection_stays_unusable() {
    let mut ws = open_admin();
    assert!(ws.list_apps(None).is_ok());
    assert_eq!(ws.apps_listed(None), Err(refused(ConnectionCause::Dropped)));
    assert_eq!(ws.list_apps(None), Err(refused(ConnectionCause::Dropped)));
    ws.channel.established();
    assert_eq!(ws.list_apps(None), Err(refused(ConnectionCause::Dropped)));
}

#[test]
fn outcomes_out_of_turn_change_nothing() {
    let mut ws = open_admin();
    assert_eq!(
        ws.channel.attempt_failed(),
        ConnectStep::GiveUp { error: refused(ConnectionCause::Unawaited) }
    );
    assert!(ws.list_apps(None).is_ok());
    assert_eq!(
        ws.channel.attempt_failed(),
        ConnectStep::GiveUp { error: refused(ConnectionCause::Busy) }
    );
    ws.channel.established();
    assert_eq!(ws.list_apps(None), Err(refused(ConnectionCause::Busy)));
    assert_eq!(ws.apps_listed(Some(AdminResponse::AppsListed(Vec::new()))), Ok(Vec::new()));
}

#[test]
fn response_kinds() {
    assert_eq!(AdminResponse::AppsListed(Vec::new()).kind(), ResponseKind::AppsListed);
    assert_eq!(AdminResponse::Error(String::new()).kind(), ResponseKind::Error);
    assert_eq!(AdminResponse::Other.kind(), ResponseKind::Other);
    assert_eq!(AppResponse::AppInfo(None).kind(), ResponseKind::AppInfo);
    assert_eq!(AppResponse::ZomeCall(Vec::new()).kind(), ResponseKind::ZomeCall);
    assert_eq!(AppResponse::Error(String::new()).kind(), ResponseKind::Error);
    assert_eq!(AppResponse::Other.kind(), ResponseKind::Other);
}

#[test]
fn app_info_of_a_missing_application_is_none() {
    let mut ws = open_app();
    assert_eq!(
        ws.get_app_info("core-app:v1::x".to_string()),
        Ok(AppRequest::AppInfo { installed_app_id: "core-app:v1::x".to_string() })
    );
    assert_eq!(ws.app_info(Some(AppResponse::AppInfo(None))), Ok(None));
}

#[test]
fn app_info_of_an_installed_application() {
    let mut ws = open_app();
    assert!(ws.get_app_info("core-app:v1::x".to_string()).is_ok());
    let info = described("core-app:v1::x", ApplicationStatus::Running);
    let out = ws.app_info(Some(AppResponse::AppInfo(Some(info)))).unwrap();
    assert_eq!(out, Some(described("core-app:v1::x", ApplicationStatus::Running)));
}

#[test]
fn app_info_errors() {
    let mut ws = open_app();
    assert!(ws.get_app_info("a".to_string()).is_ok());
    assert_eq!(
        ws.app_info(Some(AppResponse::ZomeCall(vec![1]))),
        Err(Error::UnexpectedResponse { got: ResponseKind::ZomeCall })
    );
    assert!(ws.get_app_info("a".to_string()).is_ok());
    assert_eq!(
        ws.app_info(Some(AppResponse::Error("denied".to_string()))),
        Err(Error::Protocol { details: "denied".to_string() })
    );
    assert!(ws.get_app_info("a".to_string()).is_ok());
    assert_eq!(
        ws.app_info(Some(AppResponse::Other)),
        Err(Error::UnexpectedResponse { got: ResponseKind::Other })
    );
    assert!(ws.get_app_info("a".to_string()).is_ok());
    assert_eq!(ws.app_info(None), Err(refused(ConnectionCause::Dropped)));
    assert_eq!(ws.get_app_info("a".to_string()), Err(refused(ConnectionCause::Dropped)));
}

fn call() -> ZomeCall {
    ZomeCall {
        cell: CellHandle { dna: vec![1, 2, 3], agent: vec![4, 5] },
        zome_name: "hha".to_string(),
        fn_name: "get_happs".to_string(),
        payload: vec![0xc0],
        cap_secret: None,
        provenance: vec![4, 5],
    }
}

#[test]
fn zome_call_returns_the_bytes() {
    let mut ws = open_app();
    assert_eq!(ws.zome_call(call()), Ok(AppRequest::ZomeCall(call())));
    assert_eq!(ws.zome_called(Some(AppResponse::ZomeCall(vec![0x90]))), Ok(vec![0x90]));
}

#[test]
fn zome_call_errors() {
    let mut ws = open_app();
    assert!(ws.zome_call(call()).is_ok());
    assert_eq!(ws.zome_call(call()), Err(refused(ConnectionCause::Busy)));
    assert_eq!(
        ws.zome_called(Some(AppResponse::AppInfo(None))),
        Err(Error::UnexpectedResponse { got: ResponseKind::AppInfo })
    );
    assert!(ws.zome_call(call()).is_ok());
    assert_eq!(
        ws.zome_called(Some(AppResponse::Error("unauthorized".to_string()))),
        Err(Error::Protocol { details: "unauthorized".to_string() })
    );
    assert!(ws.zome_call(call()).is_ok());
    assert_eq!(
        ws.zome_called(Some(AppResponse::Other)),
        Err(Error::UnexpectedResponse { got: ResponseKind::Other })
    );
    assert_eq!(ws.zome_called(Some(AppResponse::ZomeCall(Vec::new()))), Err(refused(ConnectionCause::Unawaited)));
    assert!(ws.zome_call(call()).is_ok());
    assert_eq!(ws.zome_called(None), Err(refused(ConnectionCause::Dropped)));
}
