use nvmd::draft::Draft;
use nvmd::error::CoreError;
use nvmd::groups::{Group, IGroups};
use nvmd::install::install_request;
use nvmd::projects::{Assignment, IProjects, PInfo, Project};
use nvmd::settings::{ISettings, Proxy};
use nvmd::sync::{sync_status, BatchSync, BATCH_LIMIT, STATUS_MISSING, STATUS_WRITTEN};
use nvmd::throttle::{ProgressThrottle, PROGRESS_INTERVAL_MS};
use nvmd::transaction::{
    change_with_group, change_with_version, commit_project_list, finish_change, Config, Saves,
};
use nvmd::MARKER_FILE_NAME;

fn s(t: &str) -> String {
    t.to_string()
}

fn project(path: &str, version: Option<Assignment>) -> Project {
    Project { path: s(path), version }
}

fn group(name: &str, version: &str, members: &[&str]) -> Group {
    Group { name: s(name), version: s(version), projects: members.iter().map(|m| s(m)).collect() }
}

fn settings() -> ISettings {
    ISettings {
        mirror: Some(s("https://nodejs.org/dist")),
        directory: Some(s("/opt/node")),
        proxy: Some(Proxy { enabled: true, address: s("127.0.0.1:8080") }),
        no_proxy: Some(false),
    }
}

fn config(projects: Vec<Project>, groups: Vec<Group>) -> Config {
    Config::new(settings(), IProjects { list: projects }, IGroups { list: groups })
}

#[test]
fn discard_right_after_apply_changes_nothing() {
    let mut d = Draft::new(IProjects { list: vec![project("/a", None)] });
    d.latest().list.push(project("/b", None));
    d.apply();
    assert_eq!(d.data(), d.committed());
    d.discard();
    assert_eq!(d.data().list, vec![project("/a", None), project("/b", None)]);
    assert_eq!(d.committed().list.len(), 2);
}

#[test]
fn discard_undoes_every_mutation_since_apply() {
    let mut d = Draft::new(IProjects { list: vec![project("/a", None)] });
    d.latest().list.push(project("/b", None));
    d.latest().list[0].version = Some(Assignment::Version(s("18.0.0")));
    d.latest().list.clear();
    d.discard();
    assert_eq!(d.data().list, vec![project("/a", None)]);
}

#[test]
fn apply_twice_is_apply_once() {
    let mut d = Draft::new(IGroups { list: vec![group("lts", "20.0.0", &[])] });
    d.latest().list[0].projects.push(s("/a"));
    d.apply();
    let once = d.committed().clone();
    d.apply();
    assert_eq!(d.committed(), &once);
    assert_eq!(d.data(), &once);
}

#[test]
fn explicit_version_keeps_group_members() {
    let mut cfg = config(
        vec![project("/a", None), project("/b", Some(Assignment::Group(s("lts"))))],
        vec![group("lts", "20.0.0", &["/b"])],
    );
    let plan = change_with_version(&mut cfg, &s("/a"), &s("16.1.0")).unwrap();
    assert_eq!(plan.path, "/a");
    assert_eq!(plan.version, "16.1.0");
    assert!(!plan.commit_groups);
    assert_eq!(cfg.groups.data().list[0].projects, vec![s("/b")]);
    assert_eq!(cfg.projects.data().list[0].version, Some(Assignment::Version(s("16.1.0"))));
    let saves = finish_change(&mut cfg, &plan, true);
    assert_eq!(saves, Saves { projects: true, groups: false });
    assert_eq!(cfg.projects.committed().list[0].version, Some(Assignment::Version(s("16.1.0"))));
}

#[test]
fn explicit_version_takes_project_out_of_its_group() {
    let mut cfg = config(
        vec![project("/a", Some(Assignment::Group(s("lts"))))],
        vec![group("lts", "20.0.0", &["/x", "/a", "/y"])],
    );
    let plan = change_with_version(&mut cfg, &s("/a"), &s("16.1.0")).unwrap();
    assert!(plan.commit_groups);
    assert_eq!(cfg.groups.data().list[0].projects, vec![s("/x"), s("/y")]);
    let saves = finish_change(&mut cfg, &plan, true);
    assert_eq!(saves, Saves { projects: true, groups: true });
    assert_eq!(cfg.groups.committed().list[0].projects, vec![s("/x"), s("/y")]);
}

#[test]
fn group_change_moves_project_between_groups() {
    let mut cfg = config(
        vec![project("/a", Some(Assignment::Group(s("old"))))],
        vec![group("old", "16.0.0", &["/a", "/b"]), group("lts", "20.0.0", &["/c"])],
    );
    let plan = change_with_group(&mut cfg, &s("/a"), &s("lts")).unwrap();
    assert_eq!(plan.version, "20.0.0");
    assert_eq!(cfg.groups.data().list[0].projects, vec![s("/b")]);
    assert_eq!(cfg.groups.data().list[1].projects, vec![s("/c"), s("/a")]);
}

#[test]
fn joining_a_group_twice_lists_the_project_once() {
    let mut cfg = config(
        vec![project("/a", Some(Assignment::Group(s("lts"))))],
        vec![group("lts", "20.0.0", &["/a"])],
    );
    let plan = change_with_group(&mut cfg, &s("/a"), &s("lts")).unwrap();
    assert_eq!(plan.version, "20.0.0");
    assert_eq!(cfg.groups.data().list[0].projects, vec![s("/a")]);
}

#[test]
fn missing_group_fails_and_rolls_back() {
    let mut cfg = config(
        vec![project("/a", Some(Assignment::Group(s("old"))))],
        vec![group("old", "16.0.0", &["/a"])],
    );
    let r = change_with_group(&mut cfg, &s("/a"), &s("nope"));
    assert_eq!(r.unwrap_err(), CoreError::GroupNotFound);
    assert_eq!(cfg.projects.data().list, vec![project("/a", Some(Assignment::Group(s("old"))))]);
    assert_eq!(cfg.groups.data().list, vec![group("old", "16.0.0", &["/a"])]);
}

#[test]
fn unknown_project_fails_and_rolls_back() {
    let mut cfg = config(vec![project("/a", None)], vec![group("lts", "20.0.0", &[])]);
    let r = change_with_version(&mut cfg, &s("/zzz"), &s("18.0.0"));
    assert_eq!(r.unwrap_err(), CoreError::ProjectNotFound);
    let r = change_with_group(&mut cfg, &s("/zzz"), &s("lts"));
    assert_eq!(r.unwrap_err(), CoreError::ProjectNotFound);
    assert_eq!(cfg.projects.data().list, vec![project("/a", None)]);
    assert_eq!(cfg.groups.data().list, vec![group("lts", "20.0.0", &[])]);
}

#[test]
fn failed_marker_write_rolls_back_both_domains() {
    let mut cfg = config(
        vec![project("/a", Some(Assignment::Version(s("18.0.0"))))],
        vec![group("lts", "20.0.0", &[])],
    );
    let plan = change_with_group(&mut cfg, &s("/a"), &s("lts")).unwrap();
    let saves = finish_change(&mut cfg, &plan, false);
    assert_eq!(saves, Saves { projects: false, groups: false });
    assert_eq!(cfg.projects.data().list[0].version, Some(Assignment::Version(s("18.0.0"))));
    assert!(cfg.groups.data().list[0].projects.is_empty());
}

#[test]
fn end_to_end_project_joins_lts() {
    let mut cfg = config(
        vec![project("/a", Some(Assignment::Version(s("18.0.0"))))],
        vec![group("lts", "20.0.0", &[])],
    );
    let plan = change_with_group(&mut cfg, &s("/a"), &s("lts")).unwrap();
    assert_eq!(plan.path, "/a");
    assert_eq!(plan.version, "20.0.0");
    assert_eq!(sync_status(true), 200);
    let saves = finish_change(&mut cfg, &plan, true);
    assert_eq!(saves, Saves { projects: true, groups: true });
    assert_eq!(cfg.groups.committed().list[0].projects, vec![s("/a")]);
    assert_eq!(cfg.projects.committed().list[0].version, Some(Assignment::Group(s("lts"))));
    let projects = cfg.projects.committed().clone();
    let groups = cfg.groups.committed().clone();
    cfg.projects.apply();
    cfg.groups.apply();
    assert_eq!(cfg.projects.committed(), &projects);
    assert_eq!(cfg.groups.committed(), &groups);
}

#[test]
fn project_list_is_replaced_and_committed() {
    let mut cfg = config(vec![project("/a", None)], vec![]);
    let list = vec![project("/b", None), project("/c", Some(Assignment::Version(s("20.1.0"))))];
    commit_project_list(&mut cfg, &list);
    assert_eq!(cfg.projects.committed().list, list);
    assert_eq!(cfg.projects.data().list, list);
}

#[test]
fn batch_keeps_at_most_three_writes_in_flight() {
    let mut batch = BatchSync::new(10);
    let mut in_flight: Vec<usize> = Vec::new();
    let mut written: Vec<usize> = Vec::new();
    let mut step: usize = 0;
    while !batch.is_finished() {
        while let Some(i) = batch.next_path() {
            in_flight.push(i);
            assert!(in_flight.len() <= BATCH_LIMIT);
        }
        assert!(in_flight.len() <= 3);
        // writes take varying time: complete the one chosen by the step count
        let k = step % in_flight.len();
        let i = in_flight.remove(k);
        batch.complete(i, true);
        written.push(i);
        step += 1;
    }
    written.sort();
    assert_eq!(written, (0..10).collect::<Vec<usize>>());
    assert_eq!(batch.outcome(), Ok(()));
}

#[test]
fn batch_reports_first_failure_after_all_complete() {
    let mut batch = BatchSync::new(5);
    let mut in_flight: Vec<usize> = Vec::new();
    let mut completed = 0;
    while !batch.is_finished() {
        while let Some(i) = batch.next_path() {
            in_flight.push(i);
        }
        let i = in_flight.pop().unwrap();
        batch.complete(i, i != 1 && i != 3);
        completed += 1;
    }
    assert_eq!(completed, 5);
    // completion order is 2, 3, 4, 1, 0: path 3 is the first to fail
    assert_eq!(batch.outcome(), Err(3));
}

#[test]
fn empty_batch_is_finished_at_once() {
    let mut batch = BatchSync::new(0);
    assert!(batch.is_finished());
    assert_eq!(batch.next_path(), None);
    assert_eq!(batch.outcome(), Ok(()));
}

#[test]
fn sync_status_codes() {
    assert_eq!(sync_status(false), 404);
    assert_eq!(sync_status(true), 200);
    assert_eq!(STATUS_MISSING, 404);
    assert_eq!(STATUS_WRITTEN, 200);
    assert_eq!(MARKER_FILE_NAME, ".nvmdrc");
}

#[test]
fn throttle_passes_ticks_at_zero_and_three_hundred() {
    let mut t = ProgressThrottle::new();
    let mut emitted = Vec::new();
    for (now, transferred) in [(0u64, 10usize), (100, 20), (200, 30), (300, 40), (400, 50)] {
        if let Some(d) = t.tick(now, "node-v20.tar.gz", transferred, 100) {
            emitted.push((now, d));
        }
    }
    assert_eq!(emitted.len(), 2);
    assert_eq!(emitted[0].0, 0);
    assert_eq!(emitted[1].0, 300);
    assert_eq!(emitted[1].1.transferred, 40);
    assert_eq!(emitted[1].1.total, 100);
    assert_eq!(emitted[1].1.source, "node-v20.tar.gz");
    assert_eq!(PROGRESS_INTERVAL_MS, 300);
}

#[test]
fn throttle_drops_final_tick_inside_window() {
    let mut t = ProgressThrottle::new();
    assert!(t.tick(1000, "x", 1, 100).is_some());
    assert!(t.tick(1299, "x", 100, 100).is_none());
    assert!(t.tick(1300, "x", 100, 100).is_some());
}

#[test]
fn install_request_copies_settings() {
    let r = install_request(&settings(), &Some(s("20.0.0"))).unwrap();
    assert_eq!(r.version, "20.0.0");
    assert_eq!(r.mirror, "https://nodejs.org/dist");
    assert_eq!(r.dest, "/opt/node");
    assert_eq!(r.proxy, Some(Proxy { enabled: true, address: s("127.0.0.1:8080") }));
    assert_eq!(r.no_proxy, Some(false));
}

#[test]
fn install_request_errors() {
    assert_eq!(install_request(&settings(), &None).unwrap_err(), CoreError::VersionMissing);
    let mut no_mirror = settings();
    no_mirror.mirror = None;
    assert_eq!(
        install_request(&no_mirror, &Some(s("20.0.0"))).unwrap_err(),
        CoreError::MirrorMissing
    );
    let mut no_dir = settings();
    no_dir.directory = None;
    assert_eq!(
        install_request(&no_dir, &Some(s("20.0.0"))).unwrap_err(),
        CoreError::DirectoryMissing
    );
}

#[test]
fn picked_folder_info() {
    let p = PInfo::new(s("/work/app"), Some(s("18.0.0")));
    assert_eq!(p.path, "/work/app");
    assert_eq!(p.version, Some(s("18.0.0")));
}
