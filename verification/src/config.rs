//! Configuration of the Linear backend.
//!
//! A missing token is no error here: the schema and the health check work
//! without one, and the calls that need it say so themselves.

use vstd::prelude::*;

use crate::json::{lemma_object_view, text_json, Json, JsonView};
use crate::string_map::{distinct_keys, lemma_lookup, position_of, StringMap};
use crate::subject::SubjectStatus;
use crate::text::{opt_text, same_text};

verus! {

/// Linear's GraphQL endpoint.
pub const DEFAULT_LINEAR_API_URL: &'static str = "https://api.linear.app/graphql";

/// Environment variable with the personal API token.
pub const ENV_API_TOKEN: &'static str = "LINEAR_API_TOKEN";

/// Environment variable with the UUID or key of the team.
pub const ENV_TEAM_ID: &'static str = "LINEAR_TEAM_ID";

/// Environment variable with the UUID of the project that new issues go into.
pub const ENV_PROJECT_ID: &'static str = "LINEAR_PROJECT_ID";

/// Environment variable with another GraphQL endpoint.
pub const ENV_API_URL: &'static str = "LINEAR_API_URL";

/// Environment variable with a JSON object from state names to statuses, which
/// takes precedence over the statuses that the states' types give, as in
///
/// ```text
/// LINEAR_STATUS_MAP='{"Spec":"Ready","Implementation":"InProgress","Shipped":"Done"}'
/// ```
///
/// Unknown statuses are skipped, and what is not a JSON object counts as an
/// empty one.
pub const ENV_STATUS_MAP: &'static str = "LINEAR_STATUS_MAP";

/// The values of the environment variables, `None` for one that is not set.
#[derive(Debug)]
pub struct EnvVars {
    /// [`ENV_API_TOKEN`]
    pub api_token: Option<String>,
    /// [`ENV_API_URL`]
    pub api_url: Option<String>,
    /// [`ENV_TEAM_ID`]
    pub team_id: Option<String>,
    /// [`ENV_PROJECT_ID`]
    pub project_id: Option<String>,
    /// [`ENV_STATUS_MAP`]
    pub status_map: Option<String>,
}

/// Configuration of the Linear backend.
#[derive(Clone, Debug)]
pub struct LinearConfig {
    /// Personal API token, sent as the `Authorization` header.
    pub api_token: Option<String>,
    /// GraphQL endpoint.
    pub api_url: String,
    /// The team that queries are about.
    pub team_id: Option<String>,
    /// The project that new issues go into.
    pub project_id: Option<String>,
    /// Statuses of states by name; see [`ENV_STATUS_MAP`].
    pub status_overrides: StringMap<SubjectStatus>,
}

/// What a [`LinearConfig`] says.
pub struct ConfigView {
    pub api_token: Option<Seq<char>>,
    pub api_url: Seq<char>,
    pub team_id: Option<Seq<char>>,
    pub project_id: Option<Seq<char>>,
    pub status_overrides: Map<Seq<char>, SubjectStatus>,
}

impl View for LinearConfig {
    type V = ConfigView;

    open spec fn view(&self) -> ConfigView {
        ConfigView {
            api_token: opt_text(self.api_token),
            api_url: self.api_url@,
            team_id: opt_text(self.team_id),
            project_id: opt_text(self.project_id),
            status_overrides: self.status_overrides@,
        }
    }
}

/// A value that is set and not empty.
pub open spec fn non_empty(value: Option<Seq<char>>) -> Option<Seq<char>> {
    match value {
        Some(s) if s.len() > 0 => Some(s),
        _ => None,
    }
}

/// The status that a word stands for, as its name or in kebab or snake case.
pub open spec fn status_word(word: Seq<char>) -> Option<SubjectStatus> {
    if word == "Ready"@ || word == "ready"@ {
        Some(SubjectStatus::Ready)
    } else if word == "InProgress"@ || word == "in-progress"@ || word == "in_progress"@ {
        Some(SubjectStatus::InProgress)
    } else if word == "Blocked"@ || word == "blocked"@ {
        Some(SubjectStatus::Blocked)
    } else if word == "Done"@ || word == "done"@ {
        Some(SubjectStatus::Done)
    } else if word == "Cancelled"@ || word == "cancelled"@ || word == "Canceled"@ || word
        == "canceled"@ {
        Some(SubjectStatus::Cancelled)
    } else {
        None
    }
}

/// The status that a JSON value stands for.
pub open spec fn value_status(value: JsonView) -> Option<SubjectStatus> {
    match value {
        JsonView::Text(word) => status_word(word),
        _ => None,
    }
}

/// The overrides in a JSON document: the members of an object whose values
/// stand for statuses.
pub open spec fn document_overrides(document: Option<JsonView>) -> Map<Seq<char>, SubjectStatus> {
    match document {
        Some(JsonView::Object(members)) => Map::new(
            |name: Seq<char>| members.contains_key(name) && value_status(members[name]) is Some,
            |name: Seq<char>| value_status(members[name])->0,
        ),
        _ => Map::empty(),
    }
}

/// The overrides in the value of [`ENV_STATUS_MAP`].
pub open spec fn env_overrides(value: Option<Seq<char>>) -> Map<Seq<char>, SubjectStatus> {
    match non_empty(value) {
        Some(text) => document_overrides(text_json(text)),
        None => Map::empty(),
    }
}

/// The configuration that the environment describes.
pub open spec fn env_config(vars: EnvVars) -> ConfigView {
    ConfigView {
        api_token: non_empty(opt_text(vars.api_token)),
        api_url: match vars.api_url {
            Some(url) => url@,
            None => DEFAULT_LINEAR_API_URL@,
        },
        team_id: non_empty(opt_text(vars.team_id)),
        project_id: non_empty(opt_text(vars.project_id)),
        status_overrides: env_overrides(opt_text(vars.status_map)),
    }
}

/// `value` if it is set and not empty.
fn keep_non_empty(value: Option<String>) -> (kept: Option<String>)
    ensures
        opt_text(kept) == non_empty(opt_text(value)),
{
    match value {
        Some(s) => if s.as_str().is_empty() {
            None
        } else {
            Some(s)
        },
        None => None,
    }
}

impl LinearConfig {
    /// The configuration that the environment describes. Empty values count as
    /// not set, but for the endpoint.
    pub fn from_env(vars: EnvVars) -> (config: Self)
        ensures
            config@ == (ConfigView {
                api_token: non_empty(opt_text(vars.api_token)),
                api_url: match vars.api_url {
                    Some(url) => url@,
                    None => DEFAULT_LINEAR_API_URL@,
                },
                team_id: non_empty(opt_text(vars.team_id)),
                project_id: non_empty(opt_text(vars.project_id)),
                status_overrides: env_overrides(opt_text(vars.status_map)),
            }),
            config@ == env_config(vars),
            distinct_keys(config.status_overrides.pairs()),
    {
        let api_url = match vars.api_url {
            Some(url) => url,
            None => DEFAULT_LINEAR_API_URL.to_owned(),
        };
        let status_overrides = match keep_non_empty(vars.status_map) {
            Some(raw) => parse_status_overrides(raw.as_str()),
            None => StringMap::new(),
        };
        LinearConfig {
            api_token: keep_non_empty(vars.api_token),
            api_url,
            team_id: keep_non_empty(vars.team_id),
            project_id: keep_non_empty(vars.project_id),
            status_overrides,
        }
    }

    /// A configuration with a token, for embedders that do not go through the
    /// environment.
    pub fn new(api_token: &str, api_url: &str, team_id: Option<String>) -> (config: Self)
        ensures
            config@ == (ConfigView {
                api_token: Some(api_token@),
                api_url: api_url@,
                team_id: opt_text(team_id),
                project_id: None,
                status_overrides: Map::empty(),
            }),
    {
        LinearConfig {
            api_token: Some(api_token.to_owned()),
            api_url: api_url.to_owned(),
            team_id,
            project_id: None,
            status_overrides: StringMap::new(),
        }
    }

    /// A configuration without a token, for callers that need none.
    pub fn without_token(api_url: &str, team_id: Option<String>) -> (config: Self)
        ensures
            config@ == (ConfigView {
                api_token: None,
                api_url: api_url@,
                team_id: opt_text(team_id),
                project_id: None,
                status_overrides: Map::empty(),
            }),
    {
        LinearConfig {
            api_token: None,
            api_url: api_url.to_owned(),
            team_id,
            project_id: None,
            status_overrides: StringMap::new(),
        }
    }

    /// This configuration with other overrides.
    pub fn with_status_overrides(self, overrides: StringMap<SubjectStatus>) -> (config: Self)
        ensures
            config@ == (ConfigView { status_overrides: overrides@, ..self@ }),
    {
        let mut config = self;
        config.status_overrides = overrides;
        config
    }
}

/// The overrides in a JSON text. What is not a JSON object gives none, and
/// members whose values stand for no status are left out.
pub fn parse_status_overrides(raw: &str) -> (overrides: StringMap<SubjectStatus>)
    ensures
        overrides@ == document_overrides(text_json(raw@)),
        distinct_keys(overrides.pairs()),
{
    overrides_from_document(Json::parse(raw))
}

/// The overrides in a JSON document, `None` where there was no document.
pub fn overrides_from_document(document: Option<Json>) -> (overrides: StringMap<SubjectStatus>)
    ensures
        overrides@ == document_overrides(
            match document {
                Some(j) => Some(j@),
                None => None,
            },
        ),
        distinct_keys(overrides.pairs()),
{
    let mut overrides: StringMap<SubjectStatus> = StringMap::new();
    match document {
        Some(Json::Object(members)) => {
            let ghost said = Json::Object(members)@->Object_0;
            proof {
                lemma_object_view(members);
            }
            let mut i: usize = 0;
            while i < members.entries.len()
                invariant
                    i <= members.entries.len(),
                    said == members@.map_values(|j: Json| j@),
                    distinct_keys(overrides.pairs()),
                    forall|name: Seq<char>| #[trigger]
                        overrides@.contains_key(name) <==> {
                            &&& said.contains_key(name)
                            &&& value_status(said[name]) is Some
                            &&& exists|j: int|
                                0 <= j < i && (#[trigger] members.pairs()[j]).0 == name
                        },
                    forall|name: Seq<char>| #[trigger]
                        overrides@.contains_key(name) ==> overrides@[name] == value_status(
                            said[name],
                        )->0,
                decreases members.entries.len() - i,
            {
                let name = &members.entries[i].0;
                assert(members.pairs()[i as int].0 == name@);
                proof {
                    lemma_lookup(members.pairs(), name@);
                }
                let ghost before = overrides@;
                if let Some(value) = members.get(name.as_str()) {
                    assert(said[name@] == value@);
                    if let Some(word) = value.as_str() {
                        if let Some(status) = parse_subject_status(word) {
                            overrides.insert(name.clone(), status);
                        }
                    }
                }
                assert forall|key: Seq<char>| #[trigger]
                    overrides@.contains_key(key) <==> {
                        &&& said.contains_key(key)
                        &&& value_status(said[key]) is Some
                        &&& exists|j: int|
                            0 <= j < i + 1 && (#[trigger] members.pairs()[j]).0 == key
                    } by {
                    assert(before.contains_key(key) ==> overrides@.contains_key(key));
                    if key != name@ {
                        assert(overrides@.contains_key(key) == before.contains_key(key));
                    }
                }
                i = i + 1;
            }
            assert(overrides@ =~= document_overrides(Some(JsonView::Object(said)))) by {
                assert forall|name: Seq<char>| said.contains_key(name) implies exists|j: int|
                    0 <= j < i && (#[trigger] members.pairs()[j]).0 == name by {
                    lemma_lookup(members.pairs(), name);
                    let at = position_of(members.pairs(), name)->0;
                    assert(members.pairs()[at].0 == name);
                }
            }
        },
        _ => {},
    }
    overrides
}

/// The status that a word stands for: the variant's name, or its kebab-case
/// or snake-case form.
pub fn parse_subject_status(raw: &str) -> (status: Option<SubjectStatus>)
    ensures
        status == status_word(raw@),
{
    if same_text(raw, "Ready") || same_text(raw, "ready") {
        Some(SubjectStatus::Ready)
    } else if same_text(raw, "InProgress") || same_text(raw, "in-progress") || same_text(
        raw,
        "in_progress",
    ) {
        Some(SubjectStatus::InProgress)
    } else if same_text(raw, "Blocked") || same_text(raw, "blocked") {
        Some(SubjectStatus::Blocked)
    } else if same_text(raw, "Done") || same_text(raw, "done") {
        Some(SubjectStatus::Done)
    } else if same_text(raw, "Cancelled") || same_text(raw, "cancelled") || same_text(
        raw,
        "Canceled",
    ) || same_text(raw, "canceled") {
        Some(SubjectStatus::Cancelled)
    } else {
        None
    }
}

}
