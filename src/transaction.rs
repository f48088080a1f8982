//! Updates that move the project and group domains together: both are
//! committed, or both are rolled back.
//!
//! A change runs in two steps around the marker-file write that the caller
//! performs: `change_with_version` / `change_with_group` mutate the drafts and
//! say what to write; `finish_change` commits or rolls back once the write's
//! outcome is known.
use vstd::prelude::*;

use crate::draft::Draft;
use crate::error::CoreError;
use crate::groups::{attach, detach, group_index, has_group, has_member, IGroups};
use crate::projects::{assign, has_path, Assignment, IProjects, Project};
use crate::settings::ISettings;

verus! {

/// The three configuration domains of one process.
pub struct Config {
    pub settings: Draft<ISettings>,
    pub projects: Draft<IProjects>,
    pub groups: Draft<IGroups>,
}

/// What a change asks the caller to write, and what it will commit.
#[derive(Clone, Debug, PartialEq, Eq)]
pub struct SyncPlan {
    /// Directory of the project whose marker file is written.
    pub path: String,
    /// The version the marker file is to hold.
    pub version: String,
    /// Whether the group domain changed and is to be committed too.
    pub commit_groups: bool,
}

/// Which domains were committed and are to be saved.
#[derive(PartialEq, Eq, Structural, Clone, Copy, Debug)]
pub struct Saves {
    pub projects: bool,
    pub groups: bool,
}

/// `cfg` has both drafts rolled back to the snapshots of `prev`, with
/// nothing committed.
pub open spec fn rolled_back(cfg: &Config, prev: &Config) -> bool {
    &&& cfg.projects.discarded_from(&prev.projects)
    &&& cfg.groups.discarded_from(&prev.groups)
}

/// `cfg` keeps the settings and every snapshot of `prev`.
pub open spec fn snapshots_kept(cfg: &Config, prev: &Config) -> bool {
    &&& cfg.settings.saved() == prev.settings.saved()
    &&& cfg.settings.draft() == prev.settings.draft()
    &&& cfg.projects.saved() == prev.projects.saved()
    &&& cfg.groups.saved() == prev.groups.saved()
}

/// A change that fails rolls both drafts back: where no change was pending
/// before it, both drafts end exactly as they were.
pub proof fn lemma_failed_change_leaves_drafts(cfg: Config, prev: Config)
    requires
        rolled_back(&cfg, &prev),
        prev.projects.draft() == prev.projects.saved(),
        prev.groups.draft() == prev.groups.saved(),
    ensures
        cfg.projects.draft() == prev.projects.draft(),
        cfg.groups.draft() == prev.groups.draft(),
        cfg.projects.saved() == prev.projects.saved(),
        cfg.groups.saved() == prev.groups.saved(),
{
}

impl Config {
    /// The three domains as loaded from storage.
    pub fn new(settings: ISettings, projects: IProjects, groups: IGroups) -> (r: Config)
        ensures
            r.settings.saved() == settings@ && r.settings.draft() == settings@,
            r.projects.saved() == projects@ && r.projects.draft() == projects@,
            r.groups.saved() == groups@ && r.groups.draft() == groups@,
    {
        Config {
            settings: Draft::new(settings),
            projects: Draft::new(projects),
            groups: Draft::new(groups),
        }
    }
}

/// Replaces the project registry with `list` and commits it, as after the
/// registry was reloaded or edited as a whole.
pub fn commit_project_list(cfg: &mut Config, list: &Vec<Project>)
    ensures
        final(cfg).settings.saved() == old(cfg).settings.saved(),
        final(cfg).settings.draft() == old(cfg).settings.draft(),
        final(cfg).groups.saved() == old(cfg).groups.saved(),
        final(cfg).groups.draft() == old(cfg).groups.draft(),
        final(cfg).projects.saved() == list@,
        final(cfg).projects.draft() == list@,
{
    cfg.projects.latest().update_list(list);
    cfg.projects.apply();
}

/// Starts moving project `name` to the explicit `version`: the project is
/// assigned the version and leaves every group. When the project is not
/// registered, both drafts are rolled back and the error returned.
pub fn change_with_version(cfg: &mut Config, name: &String, version: &String) -> (r: Result<
    SyncPlan,
    CoreError,
>)
    ensures
        snapshots_kept(final(cfg), old(cfg)),
        r is Ok <==> has_path(old(cfg).projects.draft(), name@),
        match r {
            Ok(plan) => {
                &&& plan.path@ == name@
                &&& plan.version@ == version@
                &&& plan.commit_groups == has_member(old(cfg).groups.draft(), name@)
                &&& final(cfg).projects.draft() == assign(
                    old(cfg).projects.draft(),
                    name@,
                    Assignment::Version(*version),
                )
                &&& final(cfg).groups.draft() == detach(old(cfg).groups.draft(), name@)
            },
            Err(e) => e == CoreError::ProjectNotFound && rolled_back(final(cfg), old(cfg)),
        },
{
    let found = cfg.projects.latest().update_version(name, Assignment::Version(version.clone()));
    match found {
        Ok(path) => {
            let changed = cfg.groups.latest().update_projects(&path);
            Ok(SyncPlan { path, version: version.clone(), commit_groups: changed })
        },
        Err(e) => {
            cfg.projects.discard();
            cfg.groups.discard();
            Err(e)
        },
    }
}

/// Starts moving project `name` into the group `group_name`: the project is
/// assigned the group, joins it, leaves every other group, and is to run the
/// group's version. When the project is not registered or the group does not
/// exist, both drafts are rolled back and the error returned.
pub fn change_with_group(cfg: &mut Config, name: &String, group_name: &String) -> (r: Result<
    SyncPlan,
    CoreError,
>)
    ensures
        snapshots_kept(final(cfg), old(cfg)),
        r is Ok <==> has_path(old(cfg).projects.draft(), name@) && has_group(
            old(cfg).groups.draft(),
            group_name@,
        ),
        match r {
            Ok(plan) => {
                &&& plan.path@ == name@
                &&& plan.version@ == old(cfg).groups.draft()[group_index(
                    old(cfg).groups.draft(),
                    group_name@,
                )].version
                &&& plan.commit_groups
                &&& final(cfg).projects.draft() == assign(
                    old(cfg).projects.draft(),
                    name@,
                    Assignment::Group(*group_name),
                )
                &&& final(cfg).groups.draft() == attach(
                    old(cfg).groups.draft(),
                    name@,
                    group_name@,
                )
            },
            Err(e) => {
                &&& rolled_back(final(cfg), old(cfg))
                &&& (e == CoreError::ProjectNotFound <==> !has_path(
                    old(cfg).projects.draft(),
                    name@,
                ))
                &&& (e == CoreError::GroupNotFound <==> has_path(old(cfg).projects.draft(), name@)
                    && !has_group(old(cfg).groups.draft(), group_name@))
            },
        },
{
    let found = cfg.projects.latest().update_version(name, Assignment::Group(group_name.clone()));
    match found {
        Ok(path) => {
            let version = cfg.groups.latest().update_projects_version(&path, group_name);
            match version {
                Some(version) => Ok(SyncPlan { path, version, commit_groups: true }),
                None => {
                    cfg.projects.discard();
                    cfg.groups.discard();
                    Err(CoreError::GroupNotFound)
                },
            }
        },
        Err(e) => {
            cfg.projects.discard();
            cfg.groups.discard();
            Err(e)
        },
    }
}

/// Ends a change once the marker write's outcome is known: on success the
/// project domain is committed, and the group domain too where the plan says
/// so; on failure both drafts are rolled back.
pub fn finish_change(cfg: &mut Config, plan: &SyncPlan, synced: bool) -> (r: Saves)
    ensures
        final(cfg).settings.saved() == old(cfg).settings.saved(),
        final(cfg).settings.draft() == old(cfg).settings.draft(),
        r == (Saves { projects: synced, groups: synced && plan.commit_groups }),
        synced ==> final(cfg).projects.applied_from(&old(cfg).projects),
        synced && plan.commit_groups ==> final(cfg).groups.applied_from(&old(cfg).groups),
        synced && !plan.commit_groups ==> final(cfg).groups.saved() == old(cfg).groups.saved()
            && final(cfg).groups.draft() == old(cfg).groups.draft(),
        !synced ==> rolled_back(final(cfg), old(cfg)),
{
    if synced {
        cfg.projects.apply();
        if plan.commit_groups {
            cfg.groups.apply();
        }
        Saves { projects: true, groups: plan.commit_groups }
    } else {
        cfg.projects.discard();
        cfg.groups.discard();
        Saves { projects: false, groups: false }
    }
}

} // verus!
