//! The metadata extractor: turns raw runtime records into the two normalized
//! shapes the rest of the system works on — a container summary and an event
//! summary. Raw records mirror exactly the fields the runtime's inspection
//! and event APIs hand back, each optional just as the wire format has it.

use crate::config::Config;
use crate::labels::{spec_get, LabelMap};
use crate::strutil::{strip_slash, strip_slash_prefix};
use vstd::prelude::*;

verus! {

/// The part of an inspection record's `Config` section that matters here.
#[derive(Debug)]
pub struct RawContainerConfig {
    pub labels: Option<LabelMap>,
}

/// A runtime container-inspection record, reduced to the fields read.
#[derive(Debug)]
pub struct RawContainerRecord {
    pub id: Option<String>,
    pub name: Option<String>,
    pub config: Option<RawContainerConfig>,
}

/// The actor of a runtime event.
#[derive(Debug)]
pub struct RawActor {
    pub id: Option<String>,
    pub attributes: Option<LabelMap>,
}

/// A runtime event record, reduced to the fields read.
#[derive(Debug)]
pub struct RawEventRecord {
    pub event_type: Option<String>,
    pub action: Option<String>,
    pub actor: Option<RawActor>,
}

/// A record lacked a field the runtime is trusted to always supply; fatal.
#[derive(PartialEq, Eq, Structural, Clone, Copy, Debug)]
pub enum ExtractError {
    MissingName,
    MissingId,
    MissingConfig,
    MissingActor,
    MissingActorId,
    MissingAttributes,
    MissingEventName,
}

/// A container's identity, display name (runtime prefix stripped) and labels.
#[derive(Debug)]
pub struct ContainerSummary {
    pub id: String,
    pub container_name: String,
    pub labels: Option<LabelMap>,
}

/// A lifecycle event's actor id, derived application name, display name and —
/// for renames — the previous display name.
#[derive(Debug)]
pub struct EventSummary {
    pub id: String,
    pub app_name: Option<String>,
    pub container_name: String,
    pub old_name: Option<String>,
}

/// The label entries behind an optional label set, for stating that two
/// optional label sets agree.
pub open spec fn opt_label_entries(o: Option<LabelMap>) -> Option<Seq<crate::labels::Label>> {
    match o {
        Some(m) => Some(m.entries@),
        None => None,
    }
}

impl ContainerSummary {
    pub fn new_from_inspect(rec: &RawContainerRecord) -> (r: Result<ContainerSummary, ExtractError>)
        ensures
            rec.name is None ==> r == Err::<ContainerSummary, ExtractError>(
                ExtractError::MissingName,
            ),
            rec.name is Some && rec.id is None ==> r == Err::<ContainerSummary, ExtractError>(
                ExtractError::MissingId,
            ),
            rec.name is Some && rec.id is Some && rec.config is None ==> r == Err::<
                ContainerSummary,
                ExtractError,
            >(ExtractError::MissingConfig),
            rec.name is Some && rec.id is Some && rec.config is Some ==> (r matches Ok(s)
                && s.id == rec.id->0 && s.container_name@ == strip_slash(rec.name->0@)
                && opt_label_entries(s.labels) == opt_label_entries(rec.config->0.labels)),
    {
        let name = match &rec.name {
            Some(n) => n,
            None => {
                return Err(ExtractError::MissingName);
            },
        };
        let id = match &rec.id {
            Some(i) => i,
            None => {
                return Err(ExtractError::MissingId);
            },
        };
        let config = match &rec.config {
            Some(c) => c,
            None => {
                return Err(ExtractError::MissingConfig);
            },
        };
        let labels = match &config.labels {
            Some(m) => Some(m.duplicate()),
            None => None,
        };
        Ok(ContainerSummary {
            id: id.clone(),
            container_name: strip_slash_prefix(name.as_str()),
            labels,
        })
    }
}

impl EventSummary {
    pub fn new_from_event(rec: &RawEventRecord, cfg: &Config) -> (r: Result<
        EventSummary,
        ExtractError,
    >)
        ensures
            rec.actor is None ==> r == Err::<EventSummary, ExtractError>(ExtractError::MissingActor),
            rec.actor is Some && rec.actor->0.id is None ==> r == Err::<EventSummary, ExtractError>(
                ExtractError::MissingActorId,
            ),
            rec.actor is Some && rec.actor->0.id is Some && rec.actor->0.attributes is None ==> r
                == Err::<EventSummary, ExtractError>(ExtractError::MissingAttributes),
            rec.actor matches Some(actor) ==> (actor.id is Some ==> (actor.attributes matches Some(
                attrs,
            ) ==> {
                &&& spec_get(attrs.entries@, "name"@) is None ==> r == Err::<
                    EventSummary,
                    ExtractError,
                >(ExtractError::MissingEventName)
                &&& spec_get(attrs.entries@, "name"@) matches Some(nm) ==> (r matches Ok(s) && {
                    &&& s.id == actor.id->0
                    &&& s.container_name@ == strip_slash(nm)
                    &&& (s.app_name is Some <==> spec_get(attrs.entries@, cfg.app_name_label@)
                        is Some)
                    &&& (s.app_name matches Some(a) ==> Some(a@) == spec_get(
                        attrs.entries@,
                        cfg.app_name_label@,
                    ))
                    &&& (s.old_name is Some <==> spec_get(attrs.entries@, "oldName"@) is Some)
                    &&& (s.old_name matches Some(o) ==> spec_get(attrs.entries@, "oldName"@)
                        matches Some(raw) && o@ == strip_slash(raw))
                })
            })),
    {
        let actor = match &rec.actor {
            Some(a) => a,
            None => {
                return Err(ExtractError::MissingActor);
            },
        };
        let id = match &actor.id {
            Some(i) => i,
            None => {
                return Err(ExtractError::MissingActorId);
            },
        };
        let attrs = match &actor.attributes {
            Some(a) => a,
            None => {
                return Err(ExtractError::MissingAttributes);
            },
        };
        let app_name = match attrs.get(cfg.app_name_label.as_str()) {
            Some(v) => Some(v.clone()),
            None => None,
        };
        let container_name = match attrs.get("name") {
            Some(v) => strip_slash_prefix(v.as_str()),
            None => {
                return Err(ExtractError::MissingEventName);
            },
        };
        let old_name = match attrs.get("oldName") {
            Some(v) => Some(strip_slash_prefix(v.as_str())),
            None => None,
        };
        Ok(EventSummary { id: id.clone(), app_name, container_name, old_name })
    }
}

} // verus!
