//! The normalized subject schema that a backend answers in.

use vstd::prelude::*;

use crate::json::{array_view, json_view, object_view, Json, JsonView};
use crate::string_map::StringMap;
use crate::text::{opt_text, texts};
use crate::timestamp::Timestamp;

verus! {

/// The statuses that Animus dispatches on.
#[derive(Clone, Copy, Debug, PartialEq, Eq, Structural, Hash)]
pub enum SubjectStatus {
    /// Waiting to be picked up.
    Ready,
    /// Being worked on.
    InProgress,
    /// Waiting for something else.
    Blocked,
    /// Finished.
    Done,
    /// Given up.
    Cancelled,
}

impl SubjectStatus {
    /// The variant's name.
    pub open spec fn spec_name(self) -> Seq<char> {
        match self {
            SubjectStatus::Ready => "Ready"@,
            SubjectStatus::InProgress => "InProgress"@,
            SubjectStatus::Blocked => "Blocked"@,
            SubjectStatus::Done => "Done"@,
            SubjectStatus::Cancelled => "Cancelled"@,
        }
    }

    /// The variant's name.
    pub fn name(self) -> (name: &'static str)
        ensures
            name@ == self.spec_name(),
    {
        match self {
            SubjectStatus::Ready => "Ready",
            SubjectStatus::InProgress => "InProgress",
            SubjectStatus::Blocked => "Blocked",
            SubjectStatus::Done => "Done",
            SubjectStatus::Cancelled => "Cancelled",
        }
    }
}

/// The id of a subject, `<backend>:<native id>`.
#[derive(Debug)]
pub struct SubjectId {
    /// The whole id, backend prefix included.
    pub raw: String,
}

impl View for SubjectId {
    type V = Seq<char>;

    open spec fn view(&self) -> Seq<char> {
        self.raw@
    }
}

impl SubjectId {
    /// The id with this text.
    pub fn new(raw: &str) -> (id: SubjectId)
        ensures
            id@ == raw@,
    {
        SubjectId { raw: raw.to_owned() }
    }

    /// The whole id as text.
    pub fn as_str(&self) -> (raw: &str)
        ensures
            raw@ == self@,
    {
        self.raw.as_str()
    }
}

impl Clone for SubjectId {
    fn clone(&self) -> (copy: Self)
        ensures
            copy@ == self@,
    {
        SubjectId { raw: self.raw.clone() }
    }
}

/// The ids as texts.
pub open spec fn id_texts(ids: Seq<SubjectId>) -> Seq<Seq<char>> {
    ids.map_values(|id: SubjectId| id@)
}

/// Why a backend did not do what it was asked.
#[derive(Debug)]
pub enum BackendError {
    /// There is no such subject.
    NotFound(String),
    /// The request makes no sense, or Linear rejected it.
    InvalidRequest(String),
    /// The credentials do not suffice.
    PermissionDenied(String),
    /// Linear could not be reached, or failed.
    Unavailable(String),
    /// Anything else.
    Other(String),
}

/// What a [`BackendError`] says.
pub enum BackendErrorView {
    /// There is no such subject.
    NotFound(Seq<char>),
    /// The request makes no sense, or Linear rejected it.
    InvalidRequest(Seq<char>),
    /// The credentials do not suffice.
    PermissionDenied(Seq<char>),
    /// Linear could not be reached, or failed.
    Unavailable(Seq<char>),
    /// Anything else.
    Other(Seq<char>),
}

impl View for BackendError {
    type V = BackendErrorView;

    open spec fn view(&self) -> BackendErrorView {
        match self {
            BackendError::NotFound(m) => BackendErrorView::NotFound(m@),
            BackendError::InvalidRequest(m) => BackendErrorView::InvalidRequest(m@),
            BackendError::PermissionDenied(m) => BackendErrorView::PermissionDenied(m@),
            BackendError::Unavailable(m) => BackendErrorView::Unavailable(m@),
            BackendError::Other(m) => BackendErrorView::Other(m@),
        }
    }
}

/// A unit of dispatchable work.
#[derive(Debug)]
pub struct Subject {
    /// Id, `<backend>:<native id>`.
    pub id: SubjectId,
    /// Kind of subject.
    pub kind: String,
    /// Title.
    pub title: String,
    /// Body, if it has one.
    pub description: Option<String>,
    /// Normalized status.
    pub status: SubjectStatus,
    /// Priority from 0 (none) to 4 (critical).
    pub priority: Option<u8>,
    /// Who works on it.
    pub assignee: Option<String>,
    /// Label names.
    pub labels: Vec<String>,
    /// The subject it is part of.
    pub parent: Option<SubjectId>,
    /// The subjects that are part of it.
    pub children: Vec<SubjectId>,
    /// Where it can be looked at.
    pub url: Option<String>,
    /// When it was created.
    pub created_at: Timestamp,
    /// When it was last changed.
    pub updated_at: Timestamp,
    /// Backend-specific fields.
    pub custom: StringMap<Json>,
    /// The backend's own name of the status.
    pub native_status: Option<String>,
    /// Backend-specific detail on the status.
    pub status_metadata: Json,
    /// What is attached to it.
    pub attachments: Vec<Json>,
}

/// What a [`Subject`] says.
pub struct SubjectView {
    pub id: Seq<char>,
    pub kind: Seq<char>,
    pub title: Seq<char>,
    pub description: Option<Seq<char>>,
    pub status: SubjectStatus,
    pub priority: Option<u8>,
    pub assignee: Option<Seq<char>>,
    pub labels: Seq<Seq<char>>,
    pub parent: Option<Seq<char>>,
    pub children: Seq<Seq<char>>,
    pub url: Option<Seq<char>>,
    pub created_at: (i64, u32),
    pub updated_at: (i64, u32),
    pub custom: Map<Seq<char>, JsonView>,
    pub native_status: Option<Seq<char>>,
    pub status_metadata: JsonView,
    pub attachments: Seq<JsonView>,
}

impl View for Subject {
    type V = SubjectView;

    open spec fn view(&self) -> SubjectView {
        SubjectView {
            id: self.id@,
            kind: self.kind@,
            title: self.title@,
            description: opt_text(self.description),
            status: self.status,
            priority: self.priority,
            assignee: opt_text(self.assignee),
            labels: texts(self.labels@),
            parent: match self.parent {
                Some(p) => Some(p@),
                None => None,
            },
            children: id_texts(self.children@),
            url: opt_text(self.url),
            created_at: self.created_at@,
            updated_at: self.updated_at@,
            custom: object_view(self.custom.entries@),
            native_status: opt_text(self.native_status),
            status_metadata: json_view(self.status_metadata),
            attachments: array_view(self.attachments@),
        }
    }
}

/// Which subjects a `list` call wants.
#[derive(Debug)]
pub struct SubjectFilter {
    /// Any of these statuses; empty for all.
    pub status: Vec<SubjectStatus>,
    /// This status by the backend's own name.
    pub native_status: Option<String>,
    /// Any of these assignees; empty for all.
    pub assignee: Vec<String>,
    /// At least one of these labels.
    pub labels_any: Vec<String>,
    /// All of these labels.
    pub labels_all: Vec<String>,
    /// Changed at this instant or later.
    pub updated_since: Option<Timestamp>,
    /// At most this many.
    pub limit: Option<u32>,
    /// Where the page before ended.
    pub cursor: Option<String>,
}

/// What a [`SubjectFilter`] says.
pub struct SubjectFilterView {
    pub status: Seq<SubjectStatus>,
    pub native_status: Option<Seq<char>>,
    pub assignee: Seq<Seq<char>>,
    pub labels_any: Seq<Seq<char>>,
    pub labels_all: Seq<Seq<char>>,
    pub updated_since: Option<(i64, u32)>,
    pub limit: Option<u32>,
    pub cursor: Option<Seq<char>>,
}

impl View for SubjectFilter {
    type V = SubjectFilterView;

    open spec fn view(&self) -> SubjectFilterView {
        SubjectFilterView {
            status: self.status@,
            native_status: opt_text(self.native_status),
            assignee: texts(self.assignee@),
            labels_any: texts(self.labels_any@),
            labels_all: texts(self.labels_all@),
            updated_since: match self.updated_since {
                Some(t) => Some(t@),
                None => None,
            },
            limit: self.limit,
            cursor: opt_text(self.cursor),
        }
    }
}

impl Default for SubjectFilter {
    /// A filter that every subject passes.
    fn default() -> (filter: Self)
        ensures
            filter@ == (SubjectFilterView {
                status: Seq::empty(),
                native_status: None,
                assignee: Seq::empty(),
                labels_any: Seq::empty(),
                labels_all: Seq::empty(),
                updated_since: None,
                limit: None,
                cursor: None,
            }),
    {
        let filter = SubjectFilter {
            status: Vec::new(),
            native_status: None,
            assignee: Vec::new(),
            labels_any: Vec::new(),
            labels_all: Vec::new(),
            updated_since: None,
            limit: None,
            cursor: None,
        };
        assert(filter@.assignee =~= Seq::empty());
        assert(filter@.labels_any =~= Seq::empty());
        assert(filter@.labels_all =~= Seq::empty());
        filter
    }
}

/// What an `update` call changes.
#[derive(Debug)]
pub struct SubjectPatch {
    /// New status.
    pub status: Option<SubjectStatus>,
    /// New assignee; `Some(None)` clears it.
    pub assignee: Option<Option<String>>,
    /// Labels to add.
    pub labels_add: Vec<String>,
    /// Labels to take away.
    pub labels_remove: Vec<String>,
    /// Comment to post alongside the change.
    pub comment: Option<String>,
    /// Backend-specific fields.
    pub custom: StringMap<Json>,
}

/// What a [`SubjectPatch`] says.
pub struct SubjectPatchView {
    pub status: Option<SubjectStatus>,
    pub assignee: Option<Option<Seq<char>>>,
    pub labels_add: Seq<Seq<char>>,
    pub labels_remove: Seq<Seq<char>>,
    pub comment: Option<Seq<char>>,
    pub custom: Map<Seq<char>, JsonView>,
}

impl View for SubjectPatch {
    type V = SubjectPatchView;

    open spec fn view(&self) -> SubjectPatchView {
        SubjectPatchView {
            status: self.status,
            assignee: match self.assignee {
                Some(a) => Some(opt_text(a)),
                None => None,
            },
            labels_add: texts(self.labels_add@),
            labels_remove: texts(self.labels_remove@),
            comment: opt_text(self.comment),
            custom: object_view(self.custom.entries@),
        }
    }
}

impl Default for SubjectPatch {
    /// A patch that changes nothing.
    fn default() -> (patch: Self)
        ensures
            patch@ == (SubjectPatchView {
                status: None,
                assignee: None,
                labels_add: Seq::empty(),
                labels_remove: Seq::empty(),
                comment: None,
                custom: Map::empty(),
            }),
    {
        let patch = SubjectPatch {
            status: None,
            assignee: None,
            labels_add: Vec::new(),
            labels_remove: Vec::new(),
            comment: None,
            custom: StringMap { entries: Vec::new() },
        };
        assert(patch@.labels_add =~= Seq::empty());
        assert(patch@.labels_remove =~= Seq::empty());
        patch
    }
}

/// One page of subjects.
#[derive(Debug)]
pub struct SubjectList {
    /// The subjects.
    pub subjects: Vec<Subject>,
    /// Where the next page starts, if there is one.
    pub next_cursor: Option<String>,
}

/// What subjects say.
pub open spec fn subject_views(subjects: Seq<Subject>) -> Seq<SubjectView> {
    subjects.map_values(|s: Subject| s@)
}

/// What a [`SubjectList`] says.
pub struct SubjectListView {
    pub subjects: Seq<SubjectView>,
    pub next_cursor: Option<Seq<char>>,
}

impl View for SubjectList {
    type V = SubjectListView;

    open spec fn view(&self) -> SubjectListView {
        SubjectListView {
            subjects: subject_views(self.subjects@),
            next_cursor: opt_text(self.next_cursor),
        }
    }
}

/// Whether a backend is fit for work.
#[derive(Clone, Copy, Debug, PartialEq, Eq, Structural)]
pub enum HealthStatus {
    /// It is.
    Healthy,
    /// It is not.
    Unhealthy,
}

/// The answer to a health check.
#[derive(Debug)]
pub struct HealthCheckResult {
    /// The verdict.
    pub status: HealthStatus,
    /// How long the backend has been up.
    pub uptime_ms: Option<u64>,
    /// How much memory it uses.
    pub memory_usage_bytes: Option<u64>,
    /// Why it is not fit for work.
    pub last_error: Option<String>,
}

/// What a [`HealthCheckResult`] says.
pub struct HealthView {
    pub status: HealthStatus,
    pub uptime_ms: Option<u64>,
    pub memory_usage_bytes: Option<u64>,
    pub last_error: Option<Seq<char>>,
}

impl View for HealthCheckResult {
    type V = HealthView;

    open spec fn view(&self) -> HealthView {
        HealthView {
            status: self.status,
            uptime_ms: self.uptime_ms,
            memory_usage_bytes: self.memory_usage_bytes,
            last_error: opt_text(self.last_error),
        }
    }
}

/// The type of a backend-specific field.
#[derive(Clone, Copy, Debug, PartialEq, Eq, Structural)]
pub enum CustomFieldKind {
    /// A string.
    String,
    /// A number.
    Number,
    /// One of a list of strings.
    Enum,
}

/// A backend-specific field.
#[derive(Debug)]
pub struct CustomFieldSpec {
    /// Its key in [`Subject::custom`].
    pub key: String,
    /// Its type.
    pub kind: CustomFieldKind,
    /// The values that an enumerated field takes.
    pub values: Option<Vec<String>>,
}

/// What a [`CustomFieldSpec`] says.
pub struct CustomFieldView {
    pub key: Seq<char>,
    pub kind: CustomFieldKind,
    pub values: Option<Seq<Seq<char>>>,
}

impl View for CustomFieldSpec {
    type V = CustomFieldView;

    open spec fn view(&self) -> CustomFieldView {
        CustomFieldView {
            key: self.key@,
            kind: self.kind,
            values: match self.values {
                Some(v) => Some(texts(v@)),
                None => None,
            },
        }
    }
}

/// What a backend can do and which values it uses.
#[derive(Debug)]
pub struct SubjectSchema {
    /// The kinds of subjects it serves.
    pub kinds: Vec<String>,
    /// The statuses it uses.
    pub status_values: Vec<SubjectStatus>,
    /// Whether it reports changes by itself.
    pub supports_watch: bool,
    /// Whether it creates subjects.
    pub supports_create: bool,
    /// Whether it deletes subjects.
    pub supports_delete: bool,
    /// Whether it lists page by page.
    pub supports_pagination: bool,
    /// Its own names of statuses.
    pub native_status_values: Vec<String>,
    /// Its advice on how to dispatch by status.
    pub status_dispatch_hints: Vec<Json>,
    /// Its backend-specific fields.
    pub custom_fields: Vec<CustomFieldSpec>,
}

/// What a [`SubjectSchema`] says.
pub struct SubjectSchemaView {
    pub kinds: Seq<Seq<char>>,
    pub status_values: Seq<SubjectStatus>,
    pub supports_watch: bool,
    pub supports_create: bool,
    pub supports_delete: bool,
    pub supports_pagination: bool,
    pub native_status_values: Seq<Seq<char>>,
    pub status_dispatch_hints: Seq<JsonView>,
    pub custom_fields: Seq<CustomFieldView>,
}

impl View for SubjectSchema {
    type V = SubjectSchemaView;

    open spec fn view(&self) -> SubjectSchemaView {
        SubjectSchemaView {
            kinds: texts(self.kinds@),
            status_values: self.status_values@,
            supports_watch: self.supports_watch,
            supports_create: self.supports_create,
            supports_delete: self.supports_delete,
            supports_pagination: self.supports_pagination,
            native_status_values: texts(self.native_status_values@),
            status_dispatch_hints: array_view(self.status_dispatch_hints@),
            custom_fields: self.custom_fields@.map_values(|f: CustomFieldSpec| f@),
        }
    }
}

}
