use dedicated_server_availability_watcher::providers::online::{
    Online, OnlineDediboxProduct, OnlineDediboxProductAvailability,
    OnlineDediboxProductDatacenter, OnlineDediboxProductSpecs, OnlineDediboxProductStock,
    OnlinePlanRange, OnlineProductEntry,
};
use dedicated_server_availability_watcher::providers::ovh::{
    Ovh, OvhDedicatedServerDatacenterAvailability, OvhDedicatedServerInformation,
};
use dedicated_server_availability_watcher::providers::scaleway::{
    Scaleway, ScalewayBaremetalOffer, ScalewayBaremetalOfferDisk, ScalewayBaremetalOfferMemory,
};
use dedicated_server_availability_watcher::providers::ServerInfo;
use dedicated_server_availability_watcher::{EnvFault, EnvVar, Environment, LibError};

fn strings(items: &[&str]) -> Vec<String> {
    items.iter().map(|s| s.to_string()).collect()
}

fn env_of(vars: &[(&str, &str)]) -> Environment {
    Environment {
        vars: vars
            .iter()
            .map(|(name, value)| EnvVar { name: name.to_string(), value: Some(value.to_string()) })
            .collect(),
    }
}

fn ovh_dc(datacenter: &str, availability: &str) -> OvhDedicatedServerDatacenterAvailability {
    OvhDedicatedServerDatacenterAvailability {
        availability: availability.to_string(),
        datacenter: datacenter.to_string(),
    }
}

fn ovh_info(server: &str, dcs: &[(&str, &str)]) -> OvhDedicatedServerInformation {
    OvhDedicatedServerInformation {
        datacenters: dcs.iter().map(|(d, a)| ovh_dc(d, a)).collect(),
        memory: Some("ram-64g".to_string()),
        storage: None,
        server: server.to_string(),
    }
}

#[test]
fn ovh_datacenter_availability() {
    assert!(!ovh_dc("gra", "unavailable").is_available());
    assert!(!ovh_dc("gra", "unknown").is_available());
    assert!(ovh_dc("gra", "1H-low").is_available());
    assert!(ovh_dc("gra", "").is_available());
    assert!(ovh_dc("gra", "Unavailable").is_available());
}

#[test]
fn ovh_server_is_available_in_any_datacenter() {
    assert!(!ovh_info("s", &[]).is_available());
    assert!(!ovh_info("s", &[("gra", "unavailable"), ("rbx", "unknown")]).is_available());
    assert!(ovh_info("s", &[("gra", "unavailable"), ("rbx", "72H")]).is_available());
}

#[test]
fn ovh_server_info_exact_value() {
    let info = ovh_info("24ska01", &[("gra", "unavailable"), ("rbx", "72H")]).server_info();
    assert_eq!(
        info,
        ServerInfo {
            reference: "24ska01 (@gra,rbx)".to_string(),
            memory: "ram-64g".to_string(),
            storage: "N/A".to_string(),
            available: true,
        }
    );
}

#[test]
fn ovh_new_and_from_env() {
    assert_eq!(Ovh::new(&None).unwrap().excluded_datacenters, Vec::<String>::new());
    let ovh = Ovh::new(&Some("ca, bhs".to_string())).unwrap();
    assert_eq!(ovh.excluded_datacenters, strings(&["ca", "bhs"]));
    assert_eq!(ovh.name(), "ovh");
    assert!(matches!(Ovh::new(&Some("ca,,bhs".to_string())), Err(LibError::ValueError { .. })));
    let env = env_of(&[("OVH_EXCLUDE_DATACENTER", " fr,gra ")]);
    assert_eq!(Ovh::from_env(&env).unwrap().excluded_datacenters, strings(&["fr", "gra"]));
    assert_eq!(Ovh::from_env(&env_of(&[])).unwrap().excluded_datacenters, Vec::<String>::new());
}

#[test]
fn ovh_query_parameters() {
    let all = Ovh::new(&None).unwrap();
    assert_eq!(
        all.availability_query(None),
        vec![("excludeDatacenters".to_string(), "false".to_string())]
    );
    let some = Ovh::new(&Some("ca,bhs".to_string())).unwrap();
    assert_eq!(
        some.availability_query(Some("24ska01")),
        vec![
            ("excludeDatacenters".to_string(), "true".to_string()),
            ("datacenters".to_string(), "ca,bhs".to_string()),
            ("server".to_string(), "24ska01".to_string()),
        ]
    );
}

#[test]
fn ovh_status_of_an_answer() {
    assert!(Ovh::api_get_dedicated_server_datacenter_availabilities(200).is_ok());
    match Ovh::api_get_dedicated_server_datacenter_availabilities(429) {
        Err(LibError::ApiError { message }) => {
            assert_eq!(message, "OVH request error (status 429)")
        }
        other => panic!("unexpected {:?}", other),
    }
}

#[test]
fn ovh_inventory_filters_unavailable() {
    let ovh = Ovh::new(&None).unwrap();
    let answer =
        vec![ovh_info("a", &[("gra", "72H")]), ovh_info("b", &[("gra", "unavailable")])];
    let available = ovh.inventory(&answer, false);
    assert_eq!(available.len(), 1);
    assert_eq!(available[0].reference, "a (@gra)");
    let all = ovh.get_servers_info(&answer, true);
    assert_eq!(all.len(), 2);
    assert_eq!(all[1].reference, "b (@gra)");
    assert!(!all[1].available);
}

#[test]
fn ovh_check_unknown_server() {
    let ovh = Ovh::new(&None).unwrap();
    for answer in [vec![], vec![ovh_info("other", &[("gra", "72H")])]] {
        match ovh.check("24ska01", &answer) {
            Err(LibError::UnknownServer { server }) => assert_eq!(server, "24ska01"),
            other => panic!("unexpected {:?}", other),
        }
    }
}

#[test]
fn ovh_check_one_match() {
    let ovh = Ovh::new(&None).unwrap();
    let up = vec![ovh_info("other", &[]), ovh_info("24ska01", &[("gra", "72H")])];
    assert_eq!(ovh.check("24ska01", &up).unwrap(), true);
    let down = vec![ovh_info("24ska01", &[("gra", "unavailable")])];
    assert_eq!(ovh.check("24ska01", &down).unwrap(), false);
}

#[test]
fn ovh_check_several_matches_is_ambiguous() {
    let ovh = Ovh::new(&None).unwrap();
    let answer = vec![ovh_info("24ska01", &[("gra", "72H")]), ovh_info("24ska01", &[])];
    match ovh.check("24ska01", &answer) {
        Err(LibError::ApiError { message }) => {
            assert_eq!(message, "OVH knows several servers by the name `24ska01`")
        }
        other => panic!("unexpected {:?}", other),
    }
}

fn online_product(id: u32, stocks: &[(&str, u32)]) -> OnlineDediboxProduct {
    OnlineDediboxProduct {
        id,
        slug: "start-2-s-ssd".to_string(),
        specs: OnlineDediboxProductSpecs {
            cpu: "1 x Intel C2350".to_string(),
            ram: "4 GB".to_string(),
            disks: "1 x 120 GB SSD".to_string(),
        },
        stocks: stocks
            .iter()
            .map(|(name, stock)| OnlineDediboxProductStock {
                datacenter: OnlineDediboxProductDatacenter { name: name.to_string() },
                stock: *stock,
            })
            .collect(),
    }
}

fn json_failure() -> serde_json::Error {
    serde_json::from_str::<serde_json::Value>("{").unwrap_err()
}

#[test]
fn online_product_availability() {
    assert!(!online_product(1, &[]).is_available());
    assert!(!online_product(1, &[("DC2", 0), ("DC3", 0)]).is_available());
    assert!(online_product(1, &[("DC2", 0), ("DC3", 2)]).is_available());
    assert!(online_product(1, &[("DC2", u32::MAX), ("DC3", u32::MAX)]).is_available());
}

#[test]
fn online_server_info_exact_value() {
    assert_eq!(
        online_product(1234, &[("DC2", 0), ("DC3", 2)]).server_info(),
        ServerInfo {
            reference: "1234 (start-2-s-ssd@DC2,DC3)".to_string(),
            memory: "4GB".to_string(),
            storage: "1x120GBSSD".to_string(),
            available: true,
        }
    );
}

#[test]
fn online_new_refuses_an_empty_token() {
    match Online::new("", &None) {
        Err(LibError::ValueError { name, value }) => {
            assert_eq!(name, "found empty online api token");
            assert_eq!(value, "");
        }
        other => panic!("unexpected {:?}", other),
    }
}

#[test]
fn online_new_and_from_env() {
    let online = Online::new("tok", &Some("DC2, DC3".to_string())).unwrap();
    assert_eq!(online.api_token, "tok");
    assert_eq!(online.datacenters, strings(&["DC2", "DC3"]));
    assert_eq!(online.name(), "online");
    assert_eq!(online.authentication().value, "Bearer tok");
    assert!(matches!(
        Online::new("tok", &Some("DC2,".to_string())),
        Err(LibError::ValueError { .. })
    ));
    let env = env_of(&[("ONLINE_PRIVATE_TOKEN", " tok "), ("ONLINE_DATACENTERS", "DC5")]);
    let built = Online::from_env(&env).unwrap();
    assert_eq!(built.api_token, "tok");
    assert_eq!(built.datacenters, strings(&["DC5"]));
    match Online::from_env(&env_of(&[])) {
        Err(LibError::EnvError { name, source }) => {
            assert_eq!(name, "ONLINE_PRIVATE_TOKEN");
            assert_eq!(source, EnvFault::NotPresent);
        }
        other => panic!("unexpected {:?}", other),
    }
}

#[test]
fn online_urls() {
    assert_eq!(
        Online::availability_url("1234"),
        "https://api.online.net/api/v1/dedibox/availability/1234"
    );
}

#[test]
fn online_status_of_an_availability() {
    assert_eq!(Online::get_product_availability(200).unwrap(), true);
    assert_eq!(Online::get_product_availability(404).unwrap(), false);
    match Online::get_product_availability(500) {
        Err(LibError::ApiError { message }) => {
            assert_eq!(message, "Online dedibox request error (status 500)")
        }
        other => panic!("unexpected {:?}", other),
    }
    assert!(Online::get_authenticated_url(204).is_ok());
    assert!(matches!(Online::get_authenticated_url(404), Err(LibError::ApiError { .. })));
}

#[test]
fn online_plans_are_flattened_in_order() {
    let root = Some(vec![
        OnlinePlanRange {
            name: "start".to_string(),
            products: Some(vec![
                OnlineProductEntry::Product(online_product(1, &[])),
                OnlineProductEntry::Product(online_product(2, &[])),
            ]),
        },
        OnlinePlanRange { name: "empty".to_string(), products: Some(vec![]) },
        OnlinePlanRange {
            name: "pro".to_string(),
            products: Some(vec![OnlineProductEntry::Product(online_product(3, &[]))]),
        },
    ]);
    let ids: Vec<u32> = Online::get_plans(root).unwrap().iter().map(|p| p.id).collect();
    assert_eq!(ids, vec![1, 2, 3]);
    assert_eq!(Online::get_plans(Some(vec![])).unwrap(), vec![]);
}

#[test]
fn online_plans_root_is_no_object() {
    match Online::get_plans(None) {
        Err(LibError::ApiError { message }) => {
            assert_eq!(message, "Dedibox value root is not a json object")
        }
        other => panic!("unexpected {:?}", other),
    }
}

#[test]
fn online_plans_first_failure_wins() {
    let root = Some(vec![
        OnlinePlanRange {
            name: "start".to_string(),
            products: Some(vec![OnlineProductEntry::Product(online_product(1, &[]))]),
        },
        OnlinePlanRange { name: "odd".to_string(), products: None },
        OnlinePlanRange {
            name: "pro".to_string(),
            products: Some(vec![OnlineProductEntry::Malformed(json_failure())]),
        },
    ]);
    match Online::get_plans(root) {
        Err(LibError::ApiError { message }) => {
            assert_eq!(message, "Dedibox value odd is not a json object")
        }
        other => panic!("unexpected {:?}", other),
    }
    let root = Some(vec![
        OnlinePlanRange {
            name: "pro".to_string(),
            products: Some(vec![
                OnlineProductEntry::Product(online_product(1, &[])),
                OnlineProductEntry::Malformed(json_failure()),
            ]),
        },
        OnlinePlanRange { name: "odd".to_string(), products: None },
    ]);
    assert!(matches!(Online::get_plans(root), Err(LibError::JsonError { .. })));
}

#[test]
fn online_inventory_filters_unavailable() {
    let products = vec![online_product(1, &[("DC2", 0)]), online_product(2, &[("DC2", 1)])];
    let available = Online::inventory(&products, false);
    assert_eq!(available.len(), 1);
    assert_eq!(available[0].reference, "2 (start-2-s-ssd@DC2)");
    assert_eq!(Online::inventory(&products, true).len(), 2);
}

fn online_availability(available: bool, names: &[&str]) -> OnlineDediboxProductAvailability {
    OnlineDediboxProductAvailability {
        available,
        datacenters: names
            .iter()
            .map(|n| OnlineDediboxProductDatacenter { name: n.to_string() })
            .collect(),
    }
}

#[test]
fn online_check_without_datacenters_counts_any_stock() {
    let online = Online::new("tok", &None).unwrap();
    assert_eq!(online.check("1", &Some(online_availability(false, &["DC2"]))).unwrap(), true);
    assert_eq!(online.check("1", &Some(online_availability(true, &["DC2", "DC3"]))).unwrap(), true);
    assert_eq!(online.check("1", &Some(online_availability(true, &[]))).unwrap(), false);
    assert_eq!(online.check("1", &Some(online_availability(false, &[]))).unwrap(), false);
}

#[test]
fn online_check_with_datacenters_intersects() {
    let online = Online::new("tok", &Some("DC2,DC3".to_string())).unwrap();
    assert_eq!(online.check("1", &Some(online_availability(true, &["DC5"]))).unwrap(), false);
    assert_eq!(online.check("1", &Some(online_availability(true, &[]))).unwrap(), false);
    assert_eq!(
        online.check("1", &Some(online_availability(false, &["DC5", "DC3"]))).unwrap(),
        true
    );
    assert_eq!(
        online.check("1", &Some(online_availability(true, &["DC2", "DC2", "DC3"]))).unwrap(),
        true
    );
}

#[test]
fn online_check_unknown_server() {
    let online = Online::new("tok", &None).unwrap();
    match online.check("9999", &None) {
        Err(LibError::UnknownServer { server }) => assert_eq!(server, "9999"),
        other => panic!("unexpected {:?}", other),
    }
}

const KEY: &str = "550e8400-e29b-41d4-a716-446655440000";

fn offer(id: &str, enable: bool, stock: &str) -> ScalewayBaremetalOffer {
    ScalewayBaremetalOffer {
        id: id.to_string(),
        name: format!("name-{}", id),
        stock: stock.to_string(),
        disks: vec![
            ScalewayBaremetalOfferDisk { capacity: 1_000_000_000_000 },
            ScalewayBaremetalOfferDisk { capacity: 1_000_000_000_000 },
        ],
        enable,
        memories: vec![ScalewayBaremetalOfferMemory { capacity: 34_359_738_368 }],
    }
}

#[test]
fn scaleway_offer_availability() {
    assert!(offer("x", true, "available").is_available());
    assert!(offer("x", true, "low").is_available());
    assert!(!offer("x", true, "empty").is_available());
    assert!(!offer("x", false, "available").is_available());
}

#[test]
fn scaleway_server_info_exact_value() {
    assert_eq!(
        offer("x1", true, "low").server_info(),
        ServerInfo {
            reference: "x1 (name-x1)".to_string(),
            memory: "34G".to_string(),
            storage: "2000G".to_string(),
            available: true,
        }
    );
}

#[test]
fn scaleway_server_info_sums_without_overflow() {
    let mut big = offer("x1", true, "low");
    big.disks = vec![
        ScalewayBaremetalOfferDisk { capacity: u64::MAX },
        ScalewayBaremetalOfferDisk { capacity: u64::MAX },
    ];
    big.memories = vec![];
    let info = big.server_info();
    assert_eq!(info.storage, "36893488147G");
    assert_eq!(info.memory, "0G");
}

#[test]
fn scaleway_new_accepts_a_uuid() {
    let scaleway = Scaleway::new(KEY, "fr-par-1, fr-par-2").unwrap();
    assert_eq!(scaleway.secret_key, KEY);
    assert_eq!(scaleway.zones, strings(&["fr-par-1", "fr-par-2"]));
    assert_eq!(scaleway.name(), "scaleway");
    assert_eq!(scaleway.authentication().header, "X-Auth-Token");
    assert_eq!(scaleway.authentication().value, KEY);
}

#[test]
fn scaleway_new_refuses_a_malformed_key() {
    for key in ["", "not-a-uuid", "550e8400-e29b-41d4-a716-44665544000"] {
        match Scaleway::new(key, "fr-par-1") {
            Err(LibError::ValueError { name, value }) => {
                assert_eq!(name, "malformed scaleway secret key");
                assert_eq!(value, uuid::Uuid::parse_str(key).unwrap_err().to_string());
            }
            other => panic!("unexpected {:?}", other),
        }
    }
}

#[test]
fn scaleway_new_refuses_an_empty_zone() {
    for zones in ["", "fr-par-1,,nl-ams-1", "fr-par-1, "] {
        match Scaleway::new(KEY, zones) {
            Err(LibError::ValueError { name, value }) => {
                assert_eq!(name, "found empty scaleway zone");
                assert_eq!(value, zones);
            }
            other => panic!("unexpected {:?}", other),
        }
    }
}

#[test]
fn scaleway_from_env() {
    let env = env_of(&[("SCALEWAY_SECRET_KEY", KEY), ("SCALEWAY_BAREMETAL_ZONES", "fr-par-2")]);
    assert_eq!(Scaleway::from_env(&env).unwrap().zones, strings(&["fr-par-2"]));
    match Scaleway::from_env(&env_of(&[("SCALEWAY_SECRET_KEY", KEY)])) {
        Err(LibError::EnvError { name, .. }) => assert_eq!(name, "SCALEWAY_BAREMETAL_ZONES"),
        other => panic!("unexpected {:?}", other),
    }
}

#[test]
fn scaleway_urls() {
    assert_eq!(
        Scaleway::zone_offers_url("fr-par-2"),
        "https://api.scaleway.com/baremetal/v1/zones/fr-par-2/offers"
    );
    assert_eq!(
        Scaleway::zone_offer_url("fr-par-2", "abc"),
        "https://api.scaleway.com/baremetal/v1/zones/fr-par-2/offers/abc"
    );
}

#[test]
fn scaleway_status_of_a_zone() {
    assert_eq!(Scaleway::get_zone_offer(200).unwrap(), true);
    assert_eq!(Scaleway::get_zone_offer(404).unwrap(), false);
    match Scaleway::get_zone_offer(403) {
        Err(LibError::ApiError { message }) => {
            assert_eq!(message, "Scaleway baremetal request error (status 403)")
        }
        other => panic!("unexpected {:?}", other),
    }
    assert!(Scaleway::get_zone_offers(200).is_ok());
    assert!(matches!(Scaleway::get_zone_offers(404), Err(LibError::ApiError { .. })));
}

#[test]
fn scaleway_merge_upgrades_an_unavailable_offer() {
    let zones = vec![vec![offer("X", true, "empty")], vec![offer("X", true, "low")]];
    let merged = Scaleway::get_offers(&zones);
    assert_eq!(merged.len(), 1);
    assert!(merged[0].is_available());
    assert_eq!(merged[0].stock, "low");
    let inventory = Scaleway::inventory(&zones, false);
    assert_eq!(inventory.len(), 1);
    assert!(inventory[0].available);
}

#[test]
fn scaleway_merge_never_downgrades() {
    let zones = vec![vec![offer("X", true, "available")], vec![offer("X", false, "empty")]];
    let merged = Scaleway::get_offers(&zones);
    assert_eq!(merged.len(), 1);
    assert!(merged[0].is_available());
    assert_eq!(merged[0].stock, "available");
    assert!(merged[0].enable);
    assert!(Scaleway::inventory(&zones, false)[0].available);
}

#[test]
fn scaleway_merge_last_available_wins() {
    let zones = vec![
        vec![offer("X", true, "low"), offer("Y", true, "empty")],
        vec![offer("X", true, "available")],
        vec![offer("Z", false, "low"), offer("X", true, "empty")],
    ];
    let merged = Scaleway::get_offers(&zones);
    let ids: Vec<&str> = merged.iter().map(|o| o.id.as_str()).collect();
    assert_eq!(ids, vec!["X", "Y", "Z"]);
    assert_eq!(merged[0].stock, "available");
    assert!(!merged[1].is_available());
    assert!(!merged[2].is_available());
    assert_eq!(Scaleway::inventory(&zones, false).len(), 1);
    assert_eq!(Scaleway::inventory(&zones, true).len(), 3);
}

#[test]
fn scaleway_insert_or_update_offer_steps() {
    let mut known = vec![];
    Scaleway::insert_or_update_offer(&mut known, &offer("X", true, "empty"));
    assert_eq!(known, vec![offer("X", true, "empty")]);
    Scaleway::insert_or_update_offer(&mut known, &offer("X", false, "low"));
    assert_eq!(known, vec![offer("X", true, "empty")]);
    Scaleway::insert_or_update_offer(&mut known, &offer("X", true, "low"));
    assert_eq!(known, vec![offer("X", true, "low")]);
    Scaleway::insert_or_update_offer(&mut known, &offer("Y", true, "low"));
    assert_eq!(known.len(), 2);
}

#[test]
fn scaleway_get_offer_skips_absent_zones() {
    let sightings = vec![None, Some(offer("X", true, "empty")), None, Some(offer("X", true, "low"))];
    let found = Scaleway::get_offer("X", &sightings).unwrap();
    assert_eq!(found.stock, "low");
    assert_eq!(Scaleway::check("X", &sightings).unwrap(), true);
    let reverse = vec![Some(offer("X", true, "low")), Some(offer("X", true, "empty"))];
    assert_eq!(Scaleway::check("X", &reverse).unwrap(), true);
    let never = vec![Some(offer("X", true, "empty")), Some(offer("X", false, "low"))];
    assert_eq!(Scaleway::check("X", &never).unwrap(), false);
}

#[test]
fn scaleway_get_offer_first_available_stays() {
    let sightings = vec![Some(offer("X", true, "low")), Some(offer("X", true, "available"))];
    assert_eq!(Scaleway::get_offer("X", &sightings).unwrap().stock, "low");
}

#[test]
fn scaleway_check_unknown_server() {
    for sightings in [vec![], vec![None, None]] {
        match Scaleway::check("X", &sightings) {
            Err(LibError::UnknownServer { server }) => assert_eq!(server, "X"),
            other => panic!("unexpected {:?}", other),
        }
    }
}
