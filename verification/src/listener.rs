//! The reconciliation decisions: which events matter, and how each one
//! mutates the registry. The surrounding loop — listing containers, waiting
//! on the event stream, writing files and reloading the proxies — is plain
//! I/O and lives outside the library; it calls in here for every decision
//! and re-renders whenever a handler reports an effective change.

use crate::app_data::{
    matches_app_of, matches_container_of, spec_app_name, spec_build_error, spec_builds_ok,
    AppContainerData, AppData, BuildError,
};
use crate::config::Config;
use crate::registry::{
    renamed_containers, spec_has_app, spec_has_container_id, without_id, Registry,
};
use crate::strutil::str_eq;
use crate::summary::{ContainerSummary, EventSummary, RawEventRecord};
use vstd::prelude::*;

verus! {

/// What kind of container event arrived.
#[derive(PartialEq, Eq, Structural, Clone, Copy, Debug)]
pub enum EventKind {
    Create,
    Destroy,
    Rename,
    Update,
    Other,
}

/// The kind an action string decodes to.
pub open spec fn spec_kind_of_action(a: Seq<char>) -> EventKind {
    if a == "create"@ {
        EventKind::Create
    } else if a == "destroy"@ {
        EventKind::Destroy
    } else if a == "rename"@ {
        EventKind::Rename
    } else if a == "update"@ {
        EventKind::Update
    } else {
        EventKind::Other
    }
}

/// Decodes an event record: `None` for anything that is not a container
/// event with an action, otherwise the action's kind.
pub fn classify_event(rec: &RawEventRecord) -> (r: Option<EventKind>)
    ensures
        rec.event_type is None ==> r is None,
        rec.event_type matches Some(t) && t@ != "container"@ ==> r is None,
        rec.event_type matches Some(t) && t@ == "container"@ && rec.action is None ==> r is None,
        rec.event_type matches Some(t) ==> (t@ == "container"@ ==> (rec.action matches Some(a) ==> r
            == Some(spec_kind_of_action(a@)))),
{
    let t = match &rec.event_type {
        Some(t) => t,
        None => {
            return None;
        },
    };
    if !str_eq(t.as_str(), "container") {
        return None;
    }
    let a = match &rec.action {
        Some(a) => a,
        None => {
            return None;
        },
    };
    if str_eq(a.as_str(), "create") {
        Some(EventKind::Create)
    } else if str_eq(a.as_str(), "destroy") {
        Some(EventKind::Destroy)
    } else if str_eq(a.as_str(), "rename") {
        Some(EventKind::Rename)
    } else if str_eq(a.as_str(), "update") {
        Some(EventKind::Update)
    } else {
        Some(EventKind::Other)
    }
}

/// The registry after a container was attached to the existing entry named
/// `name`: that entry gained exactly one container — the summary's — at the
/// end of its collection, and nothing else moved.
pub open spec fn attached_shape(
    oa: Seq<AppData>,
    fa: Seq<AppData>,
    name: Seq<char>,
    s: ContainerSummary,
) -> bool {
    &&& fa.len() == oa.len()
    &&& forall|j: int|
        0 <= j < oa.len() && (#[trigger] oa[j]).app_name@ != name ==> fa[j] == oa[j]
    &&& forall|j: int|
        0 <= j < oa.len() && (#[trigger] oa[j]).app_name@ == name ==> {
            &&& fa[j].containers@.len() == oa[j].containers@.len() + 1
            &&& forall|l: int|
                0 <= l < oa[j].containers@.len() ==> fa[j].containers@[l]
                    == oa[j].containers@[l]
            &&& matches_container_of(s, fa[j].containers@.last())
            &&& fa[j].app_name == oa[j].app_name
            &&& fa[j].port == oa[j].port
            &&& fa[j].external == oa[j].external
            &&& fa[j].auth_type == oa[j].auth_type
        }
}

/// The registry after a fresh application entry was seeded from a summary:
/// one entry was appended, built from the summary's labels, holding exactly
/// the summary's container; the existing entries are untouched.
pub open spec fn inserted_shape(
    oa: Seq<AppData>,
    fa: Seq<AppData>,
    s: ContainerSummary,
    cfg: Config,
) -> bool {
    &&& fa.len() == oa.len() + 1
    &&& forall|j: int| 0 <= j < oa.len() ==> fa[j] == oa[j]
    &&& matches_app_of(s, cfg, fa.last())
    &&& fa.last().containers@.len() == 1
    &&& matches_container_of(s, fa.last().containers@[0])
}

/// Owns the registry and applies the snapshot scan and the live events.
#[derive(Debug)]
pub struct Listener {
    pub registry: Registry,
}

impl Listener {
    pub fn new() -> (r: Listener)
        ensures
            r.registry.apps@.len() == 0,
            r.registry.wf(),
    {
        Listener { registry: Registry::new() }
    }

    /// One container of the startup scan: build its descriptors and seed the
    /// registry. Reports whether the registry changed; fails on malformed
    /// mandatory metadata.
    pub fn apply_snapshot(&mut self, summary: &ContainerSummary, cfg: &Config) -> (r: Result<
        bool,
        BuildError,
    >)
        requires
            old(self).registry.wf(),
            spec_app_name(*summary, *cfg) is Some ==> !spec_has_container_id(
                old(self).registry.apps@,
                summary.id@,
            ),
        ensures
            final(self).registry.wf(),
            spec_app_name(*summary, *cfg) is None ==> r == Ok::<bool, BuildError>(false) && *final(self) == *old(self),
            spec_app_name(*summary, *cfg) is Some ==> {
                &&& !spec_builds_ok(*summary, *cfg) ==> r == Err::<bool, BuildError>(
                    spec_build_error(*summary, *cfg),
                ) && *final(self) == *old(self)
                &&& spec_builds_ok(*summary, *cfg) ==> {
                    &&& r == Ok::<bool, BuildError>(true)
                    &&& spec_has_app(old(self).registry.apps@, spec_app_name(*summary, *cfg)->0)
                        ==> attached_shape(
                        old(self).registry.apps@,
                        final(self).registry.apps@,
                        spec_app_name(*summary, *cfg)->0,
                        *summary,
                    )
                    &&& !spec_has_app(old(self).registry.apps@, spec_app_name(*summary, *cfg)->0)
                        ==> inserted_shape(
                        old(self).registry.apps@,
                        final(self).registry.apps@,
                        *summary,
                        *cfg,
                    )
                }
            },
    {
        let ad = match AppData::new_from_container(summary, cfg) {
            Ok(Some(ad)) => ad,
            Ok(None) => {
                return Ok(false);
            },
            Err(e) => {
                return Err(e);
            },
        };
        match AppContainerData::new_from_summary(summary, cfg) {
            Some(adc) => {
                self.registry.upsert_from_snapshot(ad, adc);
                Ok(true)
            },
            None => {
                proof {
                    assert(false);
                }
                Ok(false)
            },
        }
    }

    /// A container create event, with the fresh summary resolved by id: if
    /// the application exists, attach the container; otherwise build the
    /// descriptor and seed a new entry. Reports whether the registry changed.
    pub fn on_create(&mut self, summary: &ContainerSummary, cfg: &Config) -> (r: Result<
        bool,
        BuildError,
    >)
        requires
            old(self).registry.wf(),
            spec_app_name(*summary, *cfg) is Some ==> !spec_has_container_id(
                old(self).registry.apps@,
                summary.id@,
            ),
        ensures
            final(self).registry.wf(),
            spec_app_name(*summary, *cfg) is None ==> r == Ok::<bool, BuildError>(false) && *final(self) == *old(self),
            spec_app_name(*summary, *cfg) matches Some(name) ==> {
                &&& spec_has_app(old(self).registry.apps@, name) ==> {
                    &&& r == Ok::<bool, BuildError>(true)
                    &&& attached_shape(
                        old(self).registry.apps@,
                        final(self).registry.apps@,
                        name,
                        *summary,
                    )
                }
                &&& !spec_has_app(old(self).registry.apps@, name) ==> {
                    &&& !spec_builds_ok(*summary, *cfg) ==> r == Err::<bool, BuildError>(
                        spec_build_error(*summary, *cfg),
                    ) && *final(self) == *old(self)
                    &&& spec_builds_ok(*summary, *cfg) ==> r == Ok::<bool, BuildError>(true)
                        && inserted_shape(
                        old(self).registry.apps@,
                        final(self).registry.apps@,
                        *summary,
                        *cfg,
                    )
                }
            },
    {
        let app_name = match AppData::name_from_summary(summary, cfg) {
            Some(n) => n,
            None => {
                return Ok(false);
            },
        };
        if self.registry.contains_app(app_name.as_str()) {
            match AppContainerData::new_from_summary(summary, cfg) {
                Some(adc) => {
                    self.registry.attach(app_name.as_str(), adc);
                    Ok(true)
                },
                None => {
                    proof {
                        assert(false);
                    }
                    Ok(false)
                },
            }
        } else {
            let ad = match AppData::new_from_container(summary, cfg) {
                Ok(Some(ad)) => ad,
                Ok(None) => {
                    proof {
                        assert(false);
                    }
                    return Ok(false);
                },
                Err(e) => {
                    return Err(e);
                },
            };
            match AppContainerData::new_from_summary(summary, cfg) {
                Some(adc) => {
                    self.registry.upsert_from_snapshot(ad, adc);
                    Ok(true)
                },
                None => {
                    proof {
                        assert(false);
                    }
                    Ok(false)
                },
            }
        }
    }

    /// A container destroy event: detach the container by id from the named
    /// application. Reports whether a matching application was found (which
    /// is what triggers a re-render, even when no container was removed).
    pub fn on_destroy(&mut self, ev: &EventSummary) -> (r: bool)
        requires
            old(self).registry.wf(),
        ensures
            final(self).registry.wf(),
            ev.app_name is None ==> !r && *final(self) == *old(self),
            ev.app_name matches Some(name) ==> {
                &&& r == spec_has_app(old(self).registry.apps@, name@)
                &&& !r ==> *final(self) == *old(self)
                &&& final(self).registry.apps@.len() == old(self).registry.apps@.len()
                &&& forall|j: int|
                    0 <= j < old(self).registry.apps@.len() && (#[trigger] old(
                        self,
                    ).registry.apps@[j]).app_name@ != name@ ==> final(self).registry.apps@[j]
                        == old(self).registry.apps@[j]
                &&& forall|j: int|
                    0 <= j < old(self).registry.apps@.len() && (#[trigger] old(
                        self,
                    ).registry.apps@[j]).app_name@ == name@ ==> {
                        &&& final(self).registry.apps@[j].containers@ == without_id(
                            old(self).registry.apps@[j].containers@,
                            ev.id@,
                        )
                        &&& final(self).registry.apps@[j].app_name == old(
                            self,
                        ).registry.apps@[j].app_name
                        &&& final(self).registry.apps@[j].port == old(self).registry.apps@[j].port
                        &&& final(self).registry.apps@[j].external == old(
                            self,
                        ).registry.apps@[j].external
                        &&& final(self).registry.apps@[j].auth_type == old(
                            self,
                        ).registry.apps@[j].auth_type
                    }
            },
    {
        match &ev.app_name {
            Some(name) => self.registry.detach_by_container_id(name.as_str(), ev.id.as_str()),
            None => false,
        }
    }

    /// A container rename event: rewrite the display name and hostname of
    /// the named application's containers that still show the old name.
    /// Reports whether a matching application was found.
    pub fn on_rename(&mut self, ev: &EventSummary) -> (r: bool)
        requires
            old(self).registry.wf(),
            ev.old_name is Some,
        ensures
            final(self).registry.wf(),
            ev.app_name is None ==> !r && *final(self) == *old(self),
            ev.app_name matches Some(name) ==> {
                &&& r == spec_has_app(old(self).registry.apps@, name@)
                &&& !r ==> *final(self) == *old(self)
                &&& final(self).registry.apps@.len() == old(self).registry.apps@.len()
                &&& forall|j: int|
                    0 <= j < old(self).registry.apps@.len() && (#[trigger] old(
                        self,
                    ).registry.apps@[j]).app_name@ != name@ ==> final(self).registry.apps@[j]
                        == old(self).registry.apps@[j]
                &&& forall|j: int|
                    0 <= j < old(self).registry.apps@.len() && (#[trigger] old(
                        self,
                    ).registry.apps@[j]).app_name@ == name@ ==> {
                        &&& renamed_containers(
                            old(self).registry.apps@[j].containers@,
                            final(self).registry.apps@[j].containers@,
                            ev.old_name->0@,
                            ev.container_name@,
                        )
                        &&& final(self).registry.apps@[j].app_name == old(
                            self,
                        ).registry.apps@[j].app_name
                        &&& final(self).registry.apps@[j].port == old(self).registry.apps@[j].port
                        &&& final(self).registry.apps@[j].external == old(
                            self,
                        ).registry.apps@[j].external
                        &&& final(self).registry.apps@[j].auth_type == old(
                            self,
                        ).registry.apps@[j].auth_type
                    }
            },
    {
        match &ev.app_name {
            Some(name) => {
                match &ev.old_name {
                    Some(old_name) => self.registry.rename(
                        name.as_str(),
                        old_name.as_str(),
                        ev.container_name.as_str(),
                    ),
                    None => {
                        proof {
                            assert(false);
                        }
                        false
                    },
                }
            },
            None => false,
        }
    }
}

} // verus!
