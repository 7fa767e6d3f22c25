use dedicated_server_availability_watcher::controller::{
    CycleOutcome, WatchMode, WatchState, WatchStep,
};
use dedicated_server_availability_watcher::notifiers::simple::SimpleGet;
use dedicated_server_availability_watcher::notifiers::{Notification, Notifier};
use dedicated_server_availability_watcher::providers::online::{
    Online, OnlineDediboxProductAvailability, OnlineDediboxProductDatacenter,
};
use dedicated_server_availability_watcher::providers::ovh::{
    Ovh, OvhDedicatedServerDatacenterAvailability, OvhDedicatedServerInformation,
};
use dedicated_server_availability_watcher::providers::scaleway::{
    Scaleway, ScalewayBaremetalOffer,
};
use dedicated_server_availability_watcher::providers::{
    CheckAnswer, CheckDecision, CheckRunner, Factory, Highlight, InventoryAnswer, InventoryRunner,
    ListRunner, Provider, Report, Runner, ServerCheck, ServerInfo,
};
use dedicated_server_availability_watcher::storage::{
    CheckResultStorage, DirectoryProbe, RecordRead,
};
use dedicated_server_availability_watcher::{CheckResult, EnvVar, Environment, LibError};

fn strings(items: &[&str]) -> Vec<String> {
    items.iter().map(|s| s.to_string()).collect()
}

fn env_of(vars: &[(&str, &str)]) -> Environment {
    Environment {
        vars: vars
            .iter()
            .map(|(name, value)| EnvVar { name: name.to_string(), value: Some(value.to_string()) })
            .collect(),
    }
}

fn provider_env() -> Environment {
    env_of(&[
        ("ONLINE_PRIVATE_TOKEN", "tok"),
        ("SCALEWAY_SECRET_KEY", "550e8400-e29b-41d4-a716-446655440000"),
        ("SCALEWAY_BAREMETAL_ZONES", "fr-par-2"),
        ("SIMPLE_URL", "https://example.org/hook"),
        ("SIMPLE_GET_PARAM_NAME_PROVIDER", "provider"),
        ("SIMPLE_GET_PARAM_NAME_SERVERS", "servers"),
    ])
}

fn api_error(message: &str) -> LibError {
    LibError::ApiError { message: message.to_string() }
}

fn message_of(error: &LibError) -> String {
    match error {
        LibError::ApiError { message } => message.clone(),
        other => panic!("unexpected {:?}", other),
    }
}

#[test]
fn provider_factory_knows_every_name() {
    assert_eq!(Factory::names(), strings(&["online", "ovh", "scaleway"]));
    for name in Factory::names() {
        let provider = Factory::from_env_by_name(&name, &provider_env()).unwrap();
        assert_eq!(provider.name(), name);
    }
}

#[test]
fn provider_factory_refuses_an_unknown_name() {
    for name in ["", "OVH", "aws"] {
        match Factory::from_env_by_name(name, &provider_env()) {
            Err(LibError::UnknownProvider { provider }) => assert_eq!(provider, name),
            other => panic!("unexpected {:?}", other),
        }
    }
}

#[test]
fn provider_factory_reports_missing_configuration() {
    match Factory::from_env_by_name("scaleway", &env_of(&[])) {
        Err(LibError::EnvError { name, .. }) => assert_eq!(name, "SCALEWAY_SECRET_KEY"),
        other => panic!("unexpected {:?}", other),
    }
    match Factory::from_env_by_name("ovh", &env_of(&[("OVH_EXCLUDE_DATACENTER", "a,,b")])) {
        Err(LibError::ValueError { value, .. }) => assert_eq!(value, "a,,b"),
        other => panic!("unexpected {:?}", other),
    }
}

fn ovh_entry(server: &str, availability: &str) -> OvhDedicatedServerInformation {
    OvhDedicatedServerInformation {
        datacenters: vec![OvhDedicatedServerDatacenterAvailability {
            availability: availability.to_string(),
            datacenter: "gra".to_string(),
        }],
        memory: None,
        storage: None,
        server: server.to_string(),
    }
}

fn scaleway_offer(id: &str, stock: &str) -> ScalewayBaremetalOffer {
    ScalewayBaremetalOffer {
        id: id.to_string(),
        name: "n".to_string(),
        stock: stock.to_string(),
        disks: vec![],
        enable: true,
        memories: vec![],
    }
}

fn three_providers() -> Vec<Provider> {
    Factory::names()
        .iter()
        .map(|name| Factory::from_env_by_name(name, &provider_env()).unwrap())
        .collect()
}

#[test]
fn every_provider_reports_an_unknown_server() {
    let unknown = vec![
        CheckAnswer::Online(None),
        CheckAnswer::Ovh(vec![ovh_entry("other", "72H")]),
        CheckAnswer::Scaleway(vec![None]),
    ];
    for (provider, answer) in three_providers().iter().zip(unknown.iter()) {
        match provider.check("X", answer) {
            Err(LibError::UnknownServer { server }) => assert_eq!(server, "X"),
            other => panic!("unexpected {:?}", other),
        }
    }
}

#[test]
fn every_provider_answers_for_a_known_server() {
    let up = vec![
        CheckAnswer::Online(Some(OnlineDediboxProductAvailability {
            available: true,
            datacenters: vec![OnlineDediboxProductDatacenter { name: "DC2".to_string() }],
        })),
        CheckAnswer::Ovh(vec![ovh_entry("X", "72H")]),
        CheckAnswer::Scaleway(vec![None, Some(scaleway_offer("X", "low"))]),
    ];
    let down = vec![
        CheckAnswer::Online(Some(OnlineDediboxProductAvailability {
            available: true,
            datacenters: vec![],
        })),
        CheckAnswer::Ovh(vec![ovh_entry("X", "unavailable")]),
        CheckAnswer::Scaleway(vec![Some(scaleway_offer("X", "empty"))]),
    ];
    for (provider, answer) in three_providers().iter().zip(up.iter()) {
        assert_eq!(provider.check("X", answer).unwrap(), true);
    }
    for (provider, answer) in three_providers().iter().zip(down.iter()) {
        assert_eq!(provider.check("X", answer).unwrap(), false);
    }
}

#[test]
fn a_provider_refuses_the_answer_of_another() {
    let ovh = Provider::Ovh(Ovh::new(&None).unwrap());
    match ovh.check("X", &CheckAnswer::Online(None)) {
        Err(LibError::ApiError { message }) => {
            assert_eq!(message, "this is no answer of the provider ovh")
        }
        other => panic!("unexpected {:?}", other),
    }
    let online = Provider::Online(Online::new("tok", &None).unwrap());
    match online.inventory(true, InventoryAnswer::Ovh(vec![])) {
        Err(LibError::ApiError { message }) => {
            assert_eq!(message, "this is no answer of the provider online")
        }
        other => panic!("unexpected {:?}", other),
    }
}

#[test]
fn provider_inventory_of_each_kind() {
    let ovh = Provider::Ovh(Ovh::new(&None).unwrap());
    let listed = ovh
        .inventory(
            false,
            InventoryAnswer::Ovh(vec![ovh_entry("a", "72H"), ovh_entry("b", "unknown")]),
        )
        .unwrap();
    assert_eq!(listed.len(), 1);
    assert_eq!(listed[0].reference, "a (@gra)");
    let scaleway =
        Provider::Scaleway(Scaleway::new("550e8400-e29b-41d4-a716-446655440000", "z").unwrap());
    let merged = scaleway
        .inventory(
            true,
            InventoryAnswer::Scaleway(vec![
                vec![scaleway_offer("X", "empty")],
                vec![scaleway_offer("X", "low")],
            ]),
        )
        .unwrap();
    assert_eq!(merged.len(), 1);
    assert!(merged[0].available);
    let online = Provider::Online(Online::new("tok", &None).unwrap());
    assert!(matches!(
        online.inventory(true, InventoryAnswer::Online(None)),
        Err(LibError::ApiError { .. })
    ));
    assert_eq!(online.inventory(true, InventoryAnswer::Online(Some(vec![]))).unwrap(), vec![]);
}

#[test]
fn provider_list_is_sorted() {
    assert_eq!(ListRunner::heading(), "Available providers:");
    assert_eq!(ListRunner::names(), strings(&["online", "ovh", "scaleway"]));
}

#[test]
fn runner_builds_its_parts() {
    assert_eq!(Runner::build_provider("ovh", &provider_env()).unwrap().name(), "ovh");
    assert_eq!(Runner::build_notifier(&None, &provider_env()).unwrap(), None);
    let notifier =
        Runner::build_notifier(&Some("simple-get".to_string()), &provider_env()).unwrap();
    assert_eq!(notifier.unwrap().name(), "simple-get");
    assert!(matches!(
        Runner::build_notifier(&Some("pigeon".to_string()), &provider_env()),
        Err(LibError::UnknownNotifier { .. })
    ));
    assert_eq!(Runner::build_storage("dir", DirectoryProbe::Directory).unwrap().path, "dir");
    assert!(matches!(
        Runner::build_storage("dir", DirectoryProbe::NotADirectory),
        Err(LibError::ValueError { .. })
    ));
}

#[test]
fn inventory_lines_follow_the_inventory() {
    let runner = InventoryRunner::new("ovh", &provider_env()).unwrap();
    assert_eq!(runner.provider.name(), "ovh");
    let inventory = vec![
        ServerInfo {
            reference: "a".to_string(),
            memory: "64G".to_string(),
            storage: "2T".to_string(),
            available: true,
        },
        ServerInfo {
            reference: "b".to_string(),
            memory: "N/A".to_string(),
            storage: "N/A".to_string(),
            available: false,
        },
    ];
    let lines = runner.list_inventory(&inventory);
    assert_eq!(lines.len(), 2);
    assert_eq!(lines[0].reference, "a");
    assert_eq!(lines[0].memory, "64G");
    assert_eq!(lines[0].storage, "2T");
    assert_eq!(lines[0].highlight, Highlight::Available);
    assert_eq!(lines[1].reference, "b");
    assert_eq!(lines[1].highlight, Highlight::Unavailable);
    assert!(runner.list_inventory(&vec![]).is_empty());
    assert!(matches!(
        InventoryRunner::new("aws", &provider_env()),
        Err(LibError::UnknownProvider { .. })
    ));
}

fn runner_with(notifier: Option<Notifier>, servers: &[&str]) -> CheckRunner {
    CheckRunner::new(
        Provider::Ovh(Ovh::new(&None).unwrap()),
        strings(servers),
        notifier,
        CheckResultStorage::new("store", DirectoryProbe::Directory).unwrap(),
    )
}

fn simple_get() -> Notifier {
    Notifier::SimpleGet(SimpleGet {
        url: "https://example.org/hook".to_string(),
        param_provider: "provider".to_string(),
        param_servers: "servers".to_string(),
    })
}

fn check(server: &str, outcome: Result<bool, LibError>) -> ServerCheck {
    ServerCheck { server: server.to_string(), outcome }
}

#[test]
fn check_servers_keeps_the_available_ones_in_order() {
    let runner = runner_with(None, &["typeA", "typeB", "typeC"]);
    let result = runner
        .check_servers(vec![
            check("typeA", Ok(true)),
            check("typeB", Ok(false)),
            check("typeC", Ok(true)),
        ])
        .unwrap();
    assert_eq!(result.provider_name, "ovh");
    assert_eq!(result.available_servers, strings(&["typeA", "typeC"]));
    let none = runner.check_servers(vec![]).unwrap();
    assert!(none.available_servers.is_empty());
}

#[test]
fn check_servers_keeps_requested_duplicates() {
    let runner = runner_with(None, &["typeA", "typeA"]);
    let result =
        runner.check_servers(vec![check("typeA", Ok(true)), check("typeA", Ok(true))]).unwrap();
    assert_eq!(result.available_servers, strings(&["typeA", "typeA"]));
}

#[test]
fn check_servers_reports_the_first_failure() {
    let runner = runner_with(None, &["typeA", "typeB", "typeC", "typeD"]);
    let outcome = runner.check_servers(vec![
        check("typeA", Ok(true)),
        check("typeB", Err(api_error("first"))),
        check("typeC", Ok(true)),
        check("typeD", Err(api_error("second"))),
    ]);
    assert_eq!(message_of(&outcome.unwrap_err()), "first");
}

#[test]
fn notify_result_without_notifier_prints_the_servers() {
    let result = CheckResult {
        provider_name: "ovh".to_string(),
        available_servers: strings(&["typeA", "typeB"]),
    };
    assert_eq!(
        Runner::notify_result(&None, &result).unwrap(),
        Report::Print(strings(&["typeA", "typeB"]))
    );
    let chosen = Some(simple_get());
    match Runner::notify_result(&chosen, &result).unwrap() {
        Report::Notify(notification) => {
            assert_eq!(notification, simple_get().notify(&result).unwrap())
        }
        other => panic!("unexpected {:?}", other),
    }
}

struct Disk {
    files: Vec<(String, String)>,
}

impl Disk {
    fn read(&self, path: &str) -> RecordRead {
        match self.files.iter().find(|(name, _)| name == path) {
            Some((_, content)) => RecordRead::Content(content.clone()),
            None => RecordRead::Missing,
        }
    }

    fn write(&mut self, path: &str, content: &str) {
        self.files.retain(|(name, _)| name != path);
        self.files.push((path.to_string(), content.to_string()));
    }
}

fn run_cycle(
    runner: &CheckRunner,
    disk: &mut Disk,
    available: &[&str],
) -> Option<Notification> {
    let checks = runner
        .servers
        .iter()
        .map(|server| check(server, Ok(available.contains(&server.as_str()))))
        .collect();
    let latest = runner.check_servers(checks).unwrap();
    let path = runner.record_path().unwrap();
    match runner.check_once(&latest, disk.read(&path)).unwrap() {
        CheckDecision::Unchanged => None,
        CheckDecision::Changed { record, report } => {
            assert_eq!(record.path, path);
            disk.write(&record.path, &record.hash);
            match report.unwrap() {
                Report::Notify(notification) => Some(notification),
                other => panic!("unexpected {:?}", other),
            }
        }
    }
}

#[test]
fn end_to_end_three_cycles() {
    let runner = runner_with(Some(simple_get()), &["typeA", "typeB", "typeC"]);
    let mut disk = Disk { files: vec![] };

    let first = run_cycle(&runner, &mut disk, &["typeA", "typeB"]).unwrap();
    match first {
        Notification::Http(request) => assert_eq!(
            request.query,
            vec![
                ("provider".to_string(), "ovh".to_string()),
                ("servers".to_string(), "typeA,typeB".to_string())
            ]
        ),
        other => panic!("unexpected {:?}", other),
    }
    assert_eq!(disk.files.len(), 1);
    let stored = disk.files[0].1.clone();

    assert_eq!(run_cycle(&runner, &mut disk, &["typeA", "typeB"]), None);
    assert_eq!(disk.files[0].1, stored);

    let third = run_cycle(&runner, &mut disk, &["typeA", "typeB", "typeC"]).unwrap();
    match third {
        Notification::Http(request) => {
            assert_eq!(request.query[1].1, "typeA,typeB,typeC")
        }
        other => panic!("unexpected {:?}", other),
    }
    assert_eq!(disk.files.len(), 1);
    assert_ne!(disk.files[0].1, stored);

    let path = runner.record_path().unwrap();
    let new = CheckResult {
        provider_name: "ovh".to_string(),
        available_servers: strings(&["typeA", "typeB", "typeC"]),
    };
    let old = CheckResult {
        provider_name: "ovh".to_string(),
        available_servers: strings(&["typeA", "typeB"]),
    };
    assert_eq!(runner.storage.is_equal(&new, disk.read(&path)).unwrap(), true);
    assert_eq!(runner.storage.is_equal(&old, disk.read(&path)).unwrap(), false);
}

#[test]
fn check_once_with_reordered_request_sees_no_change() {
    let mut disk = Disk { files: vec![] };
    let first = runner_with(Some(simple_get()), &["typeA", "typeB"]);
    assert!(run_cycle(&first, &mut disk, &["typeA", "typeB"]).is_some());
    let second = runner_with(Some(simple_get()), &["typeB", "typeA"]);
    assert_eq!(first.record_path().unwrap(), second.record_path().unwrap());
    assert_eq!(run_cycle(&second, &mut disk, &["typeA", "typeB"]), None);
}

#[test]
fn check_once_hands_on_a_failed_read() {
    let runner = runner_with(None, &["typeA"]);
    let latest = runner.check_servers(vec![check("typeA", Ok(true))]).unwrap();
    let failure = std::io::Error::new(std::io::ErrorKind::PermissionDenied, "denied");
    assert!(matches!(
        runner.check_once(&latest, RecordRead::Failed(failure)),
        Err(LibError::IOError { .. })
    ));
}

#[test]
fn check_once_without_notifier_prints() {
    let runner = runner_with(None, &["typeA", "typeB"]);
    let latest = runner
        .check_servers(vec![check("typeA", Ok(false)), check("typeB", Ok(true))])
        .unwrap();
    match runner.check_once(&latest, RecordRead::Missing).unwrap() {
        CheckDecision::Changed { record, report } => {
            assert_eq!(record.path, runner.record_path().unwrap());
            assert_eq!(report.unwrap(), Report::Print(strings(&["typeB"])));
        }
        other => panic!("unexpected {:?}", other),
    }
}

fn run_watch(mode: WatchMode, outcomes: Vec<CycleOutcome>) -> (usize, Vec<String>, Option<String>) {
    let mut state = WatchState::new();
    let mut logged = vec![];
    let mut cycles = 0;
    for outcome in outcomes {
        cycles += 1;
        match state.advance(mode, outcome) {
            WatchStep::Sleep { seconds, logged: entry } => {
                assert_eq!(WatchMode::Every(seconds), mode);
                if let Some(e) = entry {
                    logged.push(message_of(&e));
                }
            }
            WatchStep::Finish(Ok(())) => return (cycles, logged, None),
            WatchStep::Finish(Err(e)) => return (cycles, logged, Some(message_of(&e))),
        }
    }
    (cycles, logged, None)
}

#[test]
fn watch_ends_on_a_failure_in_the_first_cycle() {
    let (cycles, logged, failure) = run_watch(
        WatchMode::Every(60),
        vec![
            CycleOutcome::CheckFailed(api_error("one")),
            CycleOutcome::CheckFailed(api_error("two")),
            CycleOutcome::Notified,
            CycleOutcome::CheckFailed(api_error("four")),
        ],
    );
    assert_eq!(cycles, 1);
    assert!(logged.is_empty());
    assert_eq!(failure, Some("one".to_string()));
}

#[test]
fn watch_logs_later_failures_and_goes_on() {
    let (cycles, logged, failure) = run_watch(
        WatchMode::Every(60),
        vec![
            CycleOutcome::Notified,
            CycleOutcome::CheckFailed(api_error("two")),
            CycleOutcome::CheckFailed(api_error("three")),
            CycleOutcome::Unchanged,
        ],
    );
    assert_eq!(cycles, 4);
    assert_eq!(logged, strings(&["two", "three"]));
    assert_eq!(failure, None);
}

#[test]
fn watch_ends_when_the_first_notification_fails() {
    let (cycles, logged, failure) = run_watch(
        WatchMode::Every(60),
        vec![CycleOutcome::NotifyFailed(api_error("no channel")), CycleOutcome::Unchanged],
    );
    assert_eq!(cycles, 1);
    assert!(logged.is_empty());
    assert_eq!(failure, Some("no channel".to_string()));

    let (cycles, _, failure) = run_watch(
        WatchMode::Every(60),
        vec![
            CycleOutcome::Unchanged,
            CycleOutcome::CheckFailed(api_error("down")),
            CycleOutcome::NotifyFailed(api_error("no channel")),
            CycleOutcome::Unchanged,
        ],
    );
    assert_eq!(cycles, 3);
    assert_eq!(failure, Some("no channel".to_string()));
}

#[test]
fn watch_swallows_notification_failures_after_a_success() {
    let (cycles, logged, failure) = run_watch(
        WatchMode::Every(5),
        vec![
            CycleOutcome::Notified,
            CycleOutcome::NotifyFailed(api_error("flaky")),
            CycleOutcome::Unchanged,
            CycleOutcome::NotifyFailed(api_error("flaky again")),
        ],
    );
    assert_eq!(cycles, 4);
    assert_eq!(logged, strings(&["flaky", "flaky again"]));
    assert_eq!(failure, None);
}

#[test]
fn watch_always_ends_on_storage_trouble() {
    let (cycles, _, failure) = run_watch(
        WatchMode::Every(5),
        vec![
            CycleOutcome::Notified,
            CycleOutcome::StorageFailed(api_error("disk")),
            CycleOutcome::Unchanged,
        ],
    );
    assert_eq!(cycles, 2);
    assert_eq!(failure, Some("disk".to_string()));
}

#[test]
fn single_check_runs_one_cycle() {
    for outcome in [CycleOutcome::Unchanged, CycleOutcome::Notified] {
        let (cycles, logged, failure) =
            run_watch(WatchMode::Once, vec![outcome, CycleOutcome::Unchanged]);
        assert_eq!(cycles, 1);
        assert!(logged.is_empty());
        assert_eq!(failure, None);
    }
    for outcome in [
        CycleOutcome::CheckFailed(api_error("x")),
        CycleOutcome::StorageFailed(api_error("x")),
        CycleOutcome::NotifyFailed(api_error("x")),
    ] {
        let (cycles, _, failure) = run_watch(WatchMode::Once, vec![outcome]);
        assert_eq!(cycles, 1);
        assert_eq!(failure, Some("x".to_string()));
    }
}

#[test]
fn watch_state_after_each_outcome() {
    let mut state = WatchState::new();
    assert_eq!(state, WatchState { first_cycle: true, notified: false });
    state.advance(WatchMode::Every(1), CycleOutcome::Unchanged);
    assert_eq!(state, WatchState { first_cycle: false, notified: false });
    state.advance(WatchMode::Every(1), CycleOutcome::Notified);
    assert_eq!(state, WatchState { first_cycle: false, notified: true });
    state.advance(WatchMode::Every(1), CycleOutcome::NotifyFailed(api_error("x")));
    assert_eq!(state, WatchState { first_cycle: false, notified: true });
}
