use netstatsd::application::{ApplicationDescriptor, ApplicationStatus, CellHandle};
use netstatsd::config::{
    configure_holochain_yaml, file_name, first_core_app, get_all_hha_happs, happ_id,
    hha_get_happs_call, last_url_segment, DnaResource, Happ, HappsFile, HostingPrices,
    LoginConfig, PresentedHappBundle,
};
use std::path::Path;
use netstatsd::error::{ConfigCause, Error, ErrorKind};

fn by_url(url: &str) -> Happ {
    Happ { bundle_url: Some(url.to_string()), bundle_path: None, ui_url: None, ui_path: None }
}

fn by_path(path: &str) -> Happ {
    Happ { bundle_url: None, bundle_path: Some(path.to_string()), ui_url: None, ui_path: None }
}

fn ui_only() -> Happ {
    Happ {
        bundle_url: None,
        bundle_path: None,
        ui_url: Some("https://example.org/ui.zip".to_string()),
        ui_path: None,
    }
}

#[test]
fn yaml_path_default_and_configured() {
    assert_eq!(configure_holochain_yaml(None), "/var/lib/configure-holochain/config.yaml");
    assert_eq!(configure_holochain_yaml(Some("/tmp/config.yaml".to_string())), "/tmp/config.yaml");
    assert_eq!(configure_holochain_yaml(Some(String::new())), "");
}

#[test]
fn id_from_a_file_name() {
    assert_eq!(happ_id("core-app.0_1_0.happ", &None), "core-app:0_1_0");
    assert_eq!(happ_id("servicelogger.0_1_0.happ", &None), "servicelogger:0_1_0");
    assert_eq!(happ_id("plain", &None), "plain");
    assert_eq!(happ_id("a.b.c", &None), "a:b:c");
    assert_eq!(happ_id("x.happ.happ", &None), "x");
    assert_eq!(happ_id("x.hap.happy", &None), "x:hapy");
    assert_eq!(happ_id("", &None), "");
}

#[test]
fn id_with_an_override() {
    let uid = Some("0001".to_string());
    assert_eq!(happ_id("core-app.0_1_0.happ", &uid), "core-app:0_1_0::0001");
    assert_eq!(happ_id("plain", &Some(String::new())), "plain::");
}

#[test]
fn id_agrees_with_two_std_replacements() {
    for name in ["core-app.v1.happ", ".happ", "...", "a.happ.b", "no-dots", ".ha.happpp"] {
        assert_eq!(happ_id(name, &None), name.replace(".happ", "").replace(".", ":"));
        assert_eq!(
            happ_id(name, &Some("u".to_string())),
            format!("{}::{}", name.replace(".happ", "").replace(".", ":"), "u")
        );
    }
}

#[test]
fn bundle_name_from_a_url() {
    let happ = by_url("https://holo-host.github.io/releases/download/v1/core-app.0_1_0.happ");
    assert_eq!(happ.bundle_name(), Some("core-app.0_1_0.happ".to_string()));
    assert_eq!(happ.id(&None), Some("core-app:0_1_0".to_string()));
    assert_eq!(happ.id(&Some("dev".to_string())), Some("core-app:0_1_0::dev".to_string()));
}

#[test]
fn bundle_name_from_urls_with_odd_paths() {
    assert_eq!(by_url("https://example.org").bundle_name(), Some(String::new()));
    assert_eq!(by_url("https://example.org/dir/").bundle_name(), Some(String::new()));
    assert_eq!(
        by_url("https://example.org/a/b c.happ?x=1#frag").bundle_name(),
        Some("b%20c.happ".to_string())
    );
    assert_eq!(by_url("data:text/plain,Hello").bundle_name(), None);
    assert_eq!(by_url("not a url").bundle_name(), None);
    assert_eq!(by_url("not a url").id(&None), None);
}

#[test]
fn last_segment_of_a_url() {
    assert_eq!(last_url_segment("https://example.org/a/b/c.happ"), Some("c.happ".to_string()));
    assert_eq!(last_url_segment("https://example.org/a/b/"), Some(String::new()));
    assert_eq!(last_url_segment("https://example.org"), Some(String::new()));
    assert_eq!(last_url_segment("file:///var/lib/x.happ"), Some("x.happ".to_string()));
    assert_eq!(last_url_segment("mailto:someone@example.org"), None);
    assert_eq!(last_url_segment(""), None);
    assert_eq!(last_url_segment("/only/a/path.happ"), None);
}

#[test]
fn file_name_of_paths() {
    assert_eq!(file_name("/var/lib/happs/core-app.0_1.happ"), Some("core-app.0_1.happ".to_string()));
    assert_eq!(file_name("core-app.happ"), Some("core-app.happ".to_string()));
    assert_eq!(file_name("dir/"), Some("dir".to_string()));
    assert_eq!(file_name("dir//sub///"), Some("sub".to_string()));
    assert_eq!(file_name("dir/."), Some("dir".to_string()));
    assert_eq!(file_name("./x"), Some("x".to_string()));
    assert_eq!(file_name(".hidden"), Some(".hidden".to_string()));
    assert_eq!(file_name("a/..."), Some("...".to_string()));
    assert_eq!(file_name("a/.."), None);
    assert_eq!(file_name(".."), None);
    assert_eq!(file_name("a/../"), None);
    assert_eq!(file_name("."), None);
    assert_eq!(file_name("./"), None);
    assert_eq!(file_name("/"), None);
    assert_eq!(file_name("//"), None);
    assert_eq!(file_name(""), None);
}

#[test]
fn file_name_agrees_with_std_paths() {
    let pieces = ["", "/", ".", "..", "a", "b.happ", "./", "../", "a/", "//", ".x", "x."];
    for first in pieces {
        for second in pieces {
            for third in pieces {
                let path = format!("{first}{second}{third}");
                let expected = Path::new(&path).file_name().map(|n| n.to_string_lossy().to_string());
                assert_eq!(file_name(&path), expected, "{path:?}");
            }
        }
    }
}

#[test]
fn bundle_name_from_a_path() {
    let happ = by_path("/var/lib/happs/servicelogger.0_2.happ");
    assert_eq!(happ.bundle_name(), Some("servicelogger.0_2.happ".to_string()));
    assert_eq!(happ.id(&None), Some("servicelogger:0_2".to_string()));
    assert_eq!(by_path("relative.happ").id(&None), Some("relative".to_string()));
    assert_eq!(by_path("/dir/..").bundle_name(), None);
    assert_eq!(by_path("/").id(&None), None);
}

#[test]
fn path_wins_over_url() {
    let happ = Happ {
        bundle_url: Some("https://example.org/from-url.happ".to_string()),
        bundle_path: Some("/x/from-path.happ".to_string()),
        ui_url: None,
        ui_path: None,
    };
    assert_eq!(happ.id(&None), Some("from-path".to_string()));
}

#[test]
fn bundle_without_url_and_path() {
    assert_eq!(ui_only().bundle_name(), Some("unreabable".to_string()));
    assert_eq!(ui_only().id(&None), Some("unreabable".to_string()));
    assert_eq!(ui_only().id(&Some("7".to_string())), Some("unreabable::7".to_string()));
}

#[test]
fn first_core_app_by_marker() {
    let ids = vec![
        None,
        Some("servicelogger:0_1".to_string()),
        Some("my-core-app:0_2".to_string()),
        Some("core-app:0_3".to_string()),
    ];
    assert_eq!(first_core_app(&ids), Some(2));
    assert_eq!(first_core_app(&vec![None, Some("core".to_string())]), None);
    assert_eq!(first_core_app(&Vec::new()), None);
}

#[test]
fn find_core_app_in_the_file() {
    let file = HappsFile {
        self_hosted_happs: vec![by_url("https://example.org/core-app.9.happ")],
        core_happs: vec![
            by_url("https://example.org/servicelogger.0_1.happ"),
            by_path("/happs/core-app.0_2.happ"),
            by_url("https://example.org/core-app.0_3.happ"),
        ],
    };
    assert_eq!(file.find_core_app(&None), Some(by_path("/happs/core-app.0_2.happ")));
}

#[test]
fn find_core_app_without_one() {
    let file = HappsFile {
        self_hosted_happs: vec![by_url("https://example.org/core-app.9.happ")],
        core_happs: vec![by_url("https://example.org/servicelogger.0_1.happ"), ui_only()],
    };
    assert_eq!(file.find_core_app(&None), None);
    let empty = HappsFile { self_hosted_happs: Vec::new(), core_happs: Vec::new() };
    assert_eq!(empty.find_core_app(&Some("u".to_string())), None);
}

#[test]
fn find_core_app_by_override() {
    let file = HappsFile {
        self_hosted_happs: Vec::new(),
        core_happs: vec![by_url("https://example.org/servicelogger.0_1.happ")],
    };
    let found = file.find_core_app(&Some("core-app".to_string()));
    assert_eq!(found, Some(by_url("https://example.org/servicelogger.0_1.happ")));
}

fn core_app() -> ApplicationDescriptor {
    ApplicationDescriptor {
        id: "core-app:0_2::x".to_string(),
        status: ApplicationStatus::Running,
        cells: vec![
            CellHandle { dna: vec![1, 1, 1], agent: vec![2, 2] },
            CellHandle { dna: vec![3, 3, 3], agent: vec![4, 4] },
        ],
    }
}

#[test]
fn registry_call_goes_to_the_first_cell() {
    let call = hha_get_happs_call(Some(core_app()), vec![0xc0]).unwrap();
    assert_eq!(call.cell, CellHandle { dna: vec![1, 1, 1], agent: vec![2, 2] });
    assert_eq!(call.zome_name, "hha");
    assert_eq!(call.fn_name, "get_happs");
    assert_eq!(call.payload, vec![0xc0]);
    assert_eq!(call.cap_secret, None);
    assert_eq!(call.provenance, vec![2, 2]);
}

#[test]
fn registry_call_to_a_core_application_without_cells() {
    let mut bare = core_app();
    bare.cells.clear();
    let out = hha_get_happs_call(Some(bare), vec![0xc0]);
    assert_eq!(out, Err(Error::Config { cause: ConfigCause::CoreAppWithoutCells }));
    assert_eq!(out.unwrap_err().kind(), ErrorKind::Config);
}

#[test]
fn registry_call_without_the_core_application() {
    let out = hha_get_happs_call(None, vec![0xc0]);
    assert_eq!(out, Err(Error::Config { cause: ConfigCause::CoreAppNotInstalled }));
    assert_eq!(out.unwrap_err().kind(), ErrorKind::Config);
}

fn bundle(id: &str) -> PresentedHappBundle {
    PresentedHappBundle {
        id: id.to_string(),
        provider_pubkey: "uhCAk".to_string(),
        is_draft: false,
        is_clone: false,
        bundle_url: "https://example.org/app.happ".to_string(),
        ui_src_url: String::new(),
        dnas: vec![DnaResource {
            hash: "uhC0k".to_string(),
            src_url: String::new(),
            nick: "main".to_string(),
        }],
        hosted_url: String::new(),
        name: "app".to_string(),
        logo_url: String::new(),
        description: String::new(),
        categories: Vec::new(),
        jurisdictions: Vec::new(),
        hosting_prices: HostingPrices {
            cpu: "0".to_string(),
            storage: "0".to_string(),
            bandwidth: "0".to_string(),
        },
        login_config: LoginConfig {
            require_joining_code: false,
            display_publisher_name: true,
            help_url: None,
        },
    }
}

#[test]
fn registry_identifiers_in_order() {
    let ids = get_all_hha_happs(vec![bundle("uhCkkB"), bundle("uhCkkA"), bundle("uhCkkB")]);
    assert_eq!(ids, vec!["uhCkkB".to_string(), "uhCkkA".to_string(), "uhCkkB".to_string()]);
    assert_eq!(get_all_hha_happs(Vec::new()), Vec::<String>::new());
}
