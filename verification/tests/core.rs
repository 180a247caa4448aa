use supcore::census::{
    CensusUpdate, ElectionEntry, ElectionRumor, MemberRumor, ServiceRumor,
};
use supcore::error::Error;
use supcore::manager::{GossipState, Manager, ManagerConfig, TickStatus};
use supcore::package::{parse_port, Package, PackageIdent};
use supcore::service::{Topology, UpdateStrategy};
use supcore::signals::{translate_signal, SignalEvent, SIGHUP, SIGINT, SIGTERM, SIGUSR1};
use supcore::supervisor::PlatformRequest;
use supcore::updater::{
    next_check_at, run_checker_cycle, time_to_wait, CheckOutcome, UpdateInbox,
};

fn ident(name: &str, version: u64, release: u64) -> PackageIdent {
    PackageIdent::new("core".to_string(), name.to_string(), version, release)
}

fn pkg(name: &str, version: u64, exposes: Vec<&str>) -> Package {
    Package {
        name: name.to_string(),
        ident: ident(name, version, 1),
        exposes: exposes.into_iter().map(|p| p.to_string()).collect(),
        svc_user: "svc".to_string(),
        svc_group: "svc".to_string(),
    }
}

fn manager() -> Manager {
    Manager::new(
        ManagerConfig {
            group: "default".to_string(),
            organization: None,
            hostname: "host-a".to_string(),
            ip: "10.0.0.1".to_string(),
        },
        GossipState::new("member-1".to_string()),
    )
}

#[test]
fn parse_port_exact_values() {
    assert_eq!(parse_port("80"), Some(80));
    assert_eq!(parse_port("0"), Some(0));
    assert_eq!(parse_port("65535"), Some(65535));
    assert_eq!(parse_port("4294967295"), Some(4294967295));
    assert_eq!(parse_port("4294967296"), None);
    assert_eq!(parse_port(""), None);
    assert_eq!(parse_port("12a"), None);
    assert_eq!(parse_port("-1"), None);
}

#[test]
fn signal_translation_vocabulary() {
    assert_eq!(translate_signal(SIGINT), Some(SignalEvent::Shutdown));
    assert_eq!(translate_signal(SIGTERM), Some(SignalEvent::Shutdown));
    assert_eq!(translate_signal(SIGHUP), Some(SignalEvent::Passthrough(SIGHUP)));
    assert_eq!(translate_signal(SIGUSR1), Some(SignalEvent::Passthrough(SIGUSR1)));
    assert_eq!(translate_signal(9), None);
}

#[test]
fn update_checker_cadence() {
    assert_eq!(next_check_at(100), 60100);
    assert_eq!(time_to_wait(60100, 100), 60000);
    assert_eq!(time_to_wait(60100, 60100), 0);
    assert_eq!(time_to_wait(60100, 70000), 0);
}

#[test]
fn add_service_rejects_bad_port_without_mutation() {
    let mut m = manager();
    let r = m.add_service(pkg("web", 1, vec!["80", "80a"]), Topology::Standalone, UpdateStrategy::Disabled);
    assert_eq!(r, Err(Error::InvalidPort));
    assert_eq!(m.services.len(), 0);
    assert_eq!(m.gossip.service_store.counter, 0);
    assert_eq!(m.gossip.service_store.entries.len(), 0);
}

#[test]
fn add_service_gossips_parsed_ports() {
    let mut m = manager();
    let r = m.add_service(pkg("web", 1, vec!["80", "8080"]), Topology::Standalone, UpdateStrategy::Disabled);
    assert!(r.is_ok());
    assert_eq!(m.services.len(), 1);
    assert_eq!(m.gossip.service_store.counter, 1);
    let rumor = &m.gossip.service_store.entries[0];
    assert_eq!(rumor.exposes, vec![80, 8080]);
    assert_eq!(rumor.member_id, "member-1".to_string());
    assert_eq!(rumor.service_group.package, "web".to_string());
    assert_eq!(rumor.hostname, "host-a".to_string());
    assert!(m.services[0].update_inbox.is_none());
    assert!(!m.services[0].needs_restart);
}

#[test]
fn census_rebuild_only_when_fingerprint_moves() {
    let mut m = manager();
    m.add_service(pkg("web", 1, vec![]), Topology::Standalone, UpdateStrategy::Disabled)
        .unwrap();
    let last = CensusUpdate::new(0, 0, 0);
    let (changed, u1) = m.build_census(&last).unwrap();
    assert!(changed);
    assert_eq!(u1, CensusUpdate::new(1, 0, 0));
    assert_eq!(m.census_list.entries.len(), 1);
    // idempotence: nothing mutated the stores in between
    let (changed2, u2) = m.build_census(&u1).unwrap();
    assert!(!changed2);
    assert_eq!(u2, u1);
    assert_eq!(m.census_list.entries.len(), 1);
}

#[test]
fn census_entries_cover_every_service_rumor() {
    let mut m = manager();
    m.gossip.service_store.insert(ServiceRumor {
        member_id: "member-1".to_string(),
        service_group: supcore::census::ServiceGroup::new(
            "web".to_string(),
            "default".to_string(),
            None,
        ),
        hostname: "host-a".to_string(),
        ip: "10.0.0.1".to_string(),
        exposes: vec![80],
    });
    m.gossip.service_store.insert(ServiceRumor {
        member_id: "member-2".to_string(),
        service_group: supcore::census::ServiceGroup::new(
            "db".to_string(),
            "default".to_string(),
            None,
        ),
        hostname: "host-b".to_string(),
        ip: "10.0.0.2".to_string(),
        exposes: vec![5432],
    });
    m.gossip.election_store.insert(ElectionEntry {
        service_group: supcore::census::ServiceGroup::new(
            "web".to_string(),
            "default".to_string(),
            None,
        ),
        rumors: vec![ElectionRumor {
            key: "election".to_string(),
            leader_id: "member-1".to_string(),
        }],
    });
    m.gossip.member_store.insert(MemberRumor {
        member_id: "member-2".to_string(),
        alive: true,
    });
    let (changed, _) = m.build_census(&CensusUpdate::new(0, 0, 0)).unwrap();
    assert!(changed);
    assert_eq!(m.census_list.entries.len(), 2);
    let web = &m.census_list.entries[0];
    assert_eq!(web.member_id, "member-1".to_string());
    assert!(web.leader);
    assert!(!web.alive);
    let db = &m.census_list.entries[1];
    assert_eq!(db.member_id, "member-2".to_string());
    assert!(!db.leader);
    assert!(db.alive);
}

#[test]
fn missing_election_rumor_fails_loudly() {
    let mut m = manager();
    m.gossip.election_store.insert(ElectionEntry {
        service_group: supcore::census::ServiceGroup::new(
            "web".to_string(),
            "default".to_string(),
            None,
        ),
        rumors: vec![],
    });
    let r = m.build_census(&CensusUpdate::new(0, 0, 0));
    assert_eq!(r, Err(Error::MissingElection));
    assert_eq!(m.census_list.entries.len(), 0);
}

#[test]
fn election_set_without_the_well_known_key_fails_loudly() {
    let mut m = manager();
    m.gossip.election_store.insert(ElectionEntry {
        service_group: supcore::census::ServiceGroup::new(
            "web".to_string(),
            "default".to_string(),
            None,
        ),
        rumors: vec![ElectionRumor {
            key: "vote".to_string(),
            leader_id: "member-1".to_string(),
        }],
    });
    let r = m.build_census(&CensusUpdate::new(0, 0, 0));
    assert_eq!(r, Err(Error::MissingElection));
}

#[test]
fn checker_hands_off_exactly_one_newer_package() {
    let local = ident("web", 1, 1);
    let newer = ident("web", 2, 1);
    let mut inbox = UpdateInbox::new();
    let fetched = pkg("web", 2, vec![]);
    let outcome = run_checker_cycle(&local, Some(newer), Some(fetched), &mut inbox);
    assert_eq!(outcome, CheckOutcome::Delivered);
    assert!(inbox.slot.is_some());
    // a second delivery before the service drains is refused
    let again = run_checker_cycle(
        &local,
        Some(ident("web", 3, 1)),
        Some(pkg("web", 3, vec![])),
        &mut inbox,
    );
    assert_eq!(again, CheckOutcome::Busy);
    assert_eq!(inbox.slot.as_ref().unwrap().ident.version, 2);
}

#[test]
fn checker_hands_off_nothing_when_not_newer() {
    let local = ident("web", 2, 1);
    let mut inbox = UpdateInbox::new();
    let outcome = run_checker_cycle(
        &local,
        Some(ident("web", 2, 1)),
        Some(pkg("web", 2, vec![])),
        &mut inbox,
    );
    assert_eq!(outcome, CheckOutcome::NotNewer);
    assert!(inbox.slot.is_none());
    let no_remote = run_checker_cycle(&local, None, None, &mut inbox);
    assert_eq!(no_remote, CheckOutcome::NoRemote);
    assert!(inbox.slot.is_none());
}

#[test]
fn delivered_update_sets_needs_restart_on_drain() {
    let mut m = manager();
    m.add_service(pkg("web", 1, vec![]), Topology::Standalone, UpdateStrategy::AtOnce)
        .unwrap();
    let r = m.services[0].deliver_update(pkg("web", 2, vec![]));
    assert_eq!(r, supcore::updater::HandoffResult::Delivered);
    m.check_for_updated_packages();
    assert!(m.services[0].needs_restart);
    assert_eq!(m.services[0].package.ident.version, 2);
    assert!(m.services[0].update_inbox.as_ref().unwrap().slot.is_none());
}

#[test]
fn dead_checker_is_respawned_on_drain() {
    let mut m = manager();
    m.add_service(pkg("web", 1, vec![]), Topology::Standalone, UpdateStrategy::AtOnce)
        .unwrap();
    m.services[0].update_inbox.as_mut().unwrap().disconnect();
    m.check_for_updated_packages();
    let inbox = m.services[0].update_inbox.as_ref().unwrap();
    assert!(inbox.connected);
    assert!(inbox.slot.is_none());
    assert!(!m.services[0].needs_restart);
}

#[test]
fn shutdown_stops_every_service_once() {
    let mut m = manager();
    m.add_service(pkg("web", 1, vec![]), Topology::Standalone, UpdateStrategy::Disabled)
        .unwrap();
    m.add_service(pkg("db", 1, vec![]), Topology::Standalone, UpdateStrategy::Disabled)
        .unwrap();
    m.services[0].start(101).unwrap();
    m.services[1].start(102).unwrap();
    let r = m.tick(Some(SignalEvent::Shutdown)).unwrap();
    assert_eq!(r, TickStatus::Terminated);
    for (svc, pid) in m.services.iter().zip([101u32, 102u32]) {
        assert!(svc.supervisor.pid.is_none());
        assert_eq!(
            svc.supervisor.requests,
            vec![
                PlatformRequest::Spawn(pid),
                PlatformRequest::StopProcess(pid)
            ]
        );
    }
}

#[test]
fn forwarded_signal_reaches_every_running_service() {
    let mut m = manager();
    m.add_service(pkg("web", 1, vec![]), Topology::Standalone, UpdateStrategy::Disabled)
        .unwrap();
    m.add_service(pkg("db", 1, vec![]), Topology::Standalone, UpdateStrategy::Disabled)
        .unwrap();
    m.services[0].start(101).unwrap();
    // the second service has no process: the signal is a no-op there
    let r = m.tick(Some(SignalEvent::Passthrough(SIGHUP))).unwrap();
    assert_eq!(r, TickStatus::Running);
    assert_eq!(
        m.services[0].supervisor.requests,
        vec![
            PlatformRequest::Spawn(101),
            PlatformRequest::SignalProcess(101, SIGHUP)
        ]
    );
    assert_eq!(m.services[1].supervisor.requests, vec![]);
}

#[test]
fn start_twice_is_refused() {
    let mut m = manager();
    m.add_service(pkg("web", 1, vec![]), Topology::Standalone, UpdateStrategy::Disabled)
        .unwrap();
    m.services[0].start(101).unwrap();
    assert_eq!(m.services[0].start(102), Err(Error::AlreadyRunning));
    assert_eq!(m.services[0].supervisor.pid, Some(101));
}

#[test]
fn restart_clears_pending_flag_and_replaces_process() {
    let mut m = manager();
    m.add_service(pkg("web", 1, vec![]), Topology::Standalone, UpdateStrategy::AtOnce)
        .unwrap();
    m.services[0].start(101).unwrap();
    m.services[0].deliver_update(pkg("web", 2, vec![]));
    m.check_for_updated_packages();
    assert!(m.services[0].needs_restart);
    m.services[0].restart(103).unwrap();
    assert!(!m.services[0].needs_restart);
    assert_eq!(m.services[0].supervisor.pid, Some(103));
    assert_eq!(
        m.services[0].supervisor.requests,
        vec![
            PlatformRequest::Spawn(101),
            PlatformRequest::StopProcess(101),
            PlatformRequest::Spawn(103)
        ]
    );
}

#[test]
fn two_services_rebuild_once_then_hold() {
    let mut m = manager();
    m.add_service(pkg("web", 1, vec![]), Topology::Standalone, UpdateStrategy::Disabled)
        .unwrap();
    m.add_service(pkg("db", 1, vec![]), Topology::Standalone, UpdateStrategy::Disabled)
        .unwrap();
    m.gossip.member_store.insert(MemberRumor {
        member_id: "member-1".to_string(),
        alive: true,
    });
    // first tick: the fingerprint moved away from (0,0,0), so the
    // census is rebuilt and covers both services
    let r1 = m.tick(None).unwrap();
    assert_eq!(r1, TickStatus::Running);
    assert_eq!(m.last_census_update, CensusUpdate::new(2, 0, 1));
    assert_eq!(m.census_list.entries.len(), 2);
    assert!(m.services.iter().all(|s| s.config.is_some()));
    let before: Vec<String> = m.census_list.entries.iter().map(|e| e.member_id.clone()).collect();
    // second tick: no store mutation, no rebuild, census retained
    let r2 = m.tick(None).unwrap();
    assert_eq!(r2, TickStatus::Running);
    assert_eq!(m.last_census_update, CensusUpdate::new(2, 0, 1));
    let after: Vec<String> = m.census_list.entries.iter().map(|e| e.member_id.clone()).collect();
    assert_eq!(before, after);
    assert_eq!(m.census_list.entries.len(), 2);
}

#[test]
fn reconfigure_selects_own_group_rows() {
    let mut m = manager();
    m.add_service(pkg("web", 1, vec![]), Topology::Standalone, UpdateStrategy::Disabled)
        .unwrap();
    m.add_service(pkg("db", 1, vec![]), Topology::Standalone, UpdateStrategy::Disabled)
        .unwrap();
    m.tick(None).unwrap();
    let web_cfg = m.services[0].config.as_ref().unwrap();
    assert_eq!(web_cfg.entries.len(), 1);
    assert_eq!(web_cfg.entries[0].service_group.package, "web".to_string());
    let db_cfg = m.services[1].config.as_ref().unwrap();
    assert_eq!(db_cfg.entries.len(), 1);
    assert_eq!(db_cfg.entries[0].service_group.package, "db".to_string());
}

#[test]
fn newer_than_is_a_strict_order_on_releases() {
    assert!(ident("web", 2, 1).newer_than(&ident("web", 1, 9)));
    assert!(ident("web", 1, 2).newer_than(&ident("web", 1, 1)));
    assert!(!ident("web", 1, 1).newer_than(&ident("web", 1, 1)));
    assert!(!ident("web", 1, 1).newer_than(&ident("web", 2, 1)));
    // a different package is never "newer", whatever its numbers
    assert!(!ident("db", 9, 9).newer_than(&ident("web", 1, 1)));
}

#[test]
fn error_messages_name_the_condition() {
    assert_eq!(Error::InvalidPort.message(), "invalid port");
    assert_eq!(Error::MissingElection.message(), "missing election entry");
    assert_eq!(Error::AlreadyRunning.message(), "process already running");
}
