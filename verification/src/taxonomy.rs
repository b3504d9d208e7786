//! The event taxonomy: raw platform event kinds, their normalized
//! `(type, kind, mode)` classification, and the event records that carry
//! them.

use vstd::prelude::*;

verus! {

/// How a file was opened or closed in an access event.
#[derive(Clone, Copy, Debug, PartialEq, Eq, Structural)]
pub enum AccessMode {
    Read,
    Write,
    Execute,
    Other,
    Unknown,
}

/// The sub-kind of an access event.
#[derive(Clone, Copy, Debug, PartialEq, Eq, Structural)]
pub enum AccessKind {
    Read,
    Open(AccessMode),
    Close(AccessMode),
    Other,
    Unknown,
}

/// The sub-kind of a creation event.
#[derive(Clone, Copy, Debug, PartialEq, Eq, Structural)]
pub enum CreateKind {
    File,
    Folder,
    Other,
    Unknown,
}

/// What part of a file's data a modification touched.
#[derive(Clone, Copy, Debug, PartialEq, Eq, Structural)]
pub enum DataChange {
    Size,
    Content,
    Other,
    Unknown,
}

/// What piece of metadata a modification touched.
#[derive(Clone, Copy, Debug, PartialEq, Eq, Structural)]
pub enum MetadataKind {
    AccessTime,
    WriteTime,
    Permissions,
    Ownership,
    Extended,
    Other,
    Unknown,
}

/// Which side of a rename an event reports.
#[derive(Clone, Copy, Debug, PartialEq, Eq, Structural)]
pub enum RenameMode {
    To,
    From,
    Both,
    Other,
    Unknown,
}

/// The sub-kind of a modification event.
#[derive(Clone, Copy, Debug, PartialEq, Eq, Structural)]
pub enum ModifyKind {
    Data(DataChange),
    Metadata(MetadataKind),
    Name(RenameMode),
    Other,
    Unknown,
}

/// The sub-kind of a removal event.
#[derive(Clone, Copy, Debug, PartialEq, Eq, Structural)]
pub enum RemoveKind {
    File,
    Folder,
    Other,
    Unknown,
}

/// A raw, platform-level event kind: a three-level tagged hierarchy as the
/// OS watch primitive reports it.
#[derive(Clone, Copy, Debug, PartialEq, Eq, Structural)]
pub enum PlatformEventKind {
    Access(AccessKind),
    Create(CreateKind),
    Modify(ModifyKind),
    Remove(RemoveKind),
    Other,
    Unknown,
}

/// The top level of the normalized taxonomy.
#[derive(Clone, Copy, Debug, PartialEq, Eq, Structural)]
pub enum EventType {
    Access,
    Create,
    Modify,
    Remove,
    Unknown,
}

/// The middle level of the normalized taxonomy; absent when the raw
/// sub-kind has no named counterpart.
#[derive(Clone, Copy, Debug, PartialEq, Eq, Structural)]
pub enum EventKind {
    Read,
    Open,
    Close,
    File,
    Folder,
    Data,
    Metadata,
    Name,
}

/// The innermost level of the normalized taxonomy; absent when the raw
/// mode has no named counterpart.
#[derive(Clone, Copy, Debug, PartialEq, Eq, Structural)]
pub enum EventMode {
    Execute,
    Read,
    Write,
    Size,
    Content,
    AccessTime,
    WriteTime,
    Permissions,
    Ownership,
    Extended,
    To,
    From,
    Both,
}

/// The normalized type of a raw event kind.
pub open spec fn type_of(k: PlatformEventKind) -> EventType {
    match k {
        PlatformEventKind::Access(_) => EventType::Access,
        PlatformEventKind::Create(_) => EventType::Create,
        PlatformEventKind::Modify(_) => EventType::Modify,
        PlatformEventKind::Remove(_) => EventType::Remove,
        PlatformEventKind::Other => EventType::Unknown,
        PlatformEventKind::Unknown => EventType::Unknown,
    }
}

/// The normalized kind of a raw event kind; `None` for catch-all sub-kinds.
pub open spec fn kind_of(k: PlatformEventKind) -> Option<EventKind> {
    match k {
        PlatformEventKind::Access(AccessKind::Read) => Some(EventKind::Read),
        PlatformEventKind::Access(AccessKind::Open(_)) => Some(EventKind::Open),
        PlatformEventKind::Access(AccessKind::Close(_)) => Some(EventKind::Close),
        PlatformEventKind::Create(CreateKind::File) => Some(EventKind::File),
        PlatformEventKind::Create(CreateKind::Folder) => Some(EventKind::Folder),
        PlatformEventKind::Modify(ModifyKind::Data(_)) => Some(EventKind::Data),
        PlatformEventKind::Modify(ModifyKind::Metadata(_)) => Some(EventKind::Metadata),
        PlatformEventKind::Modify(ModifyKind::Name(_)) => Some(EventKind::Name),
        PlatformEventKind::Remove(RemoveKind::File) => Some(EventKind::File),
        PlatformEventKind::Remove(RemoveKind::Folder) => Some(EventKind::Folder),
        _ => None,
    }
}

/// The normalized mode of an access mode; `None` for catch-all modes.
pub open spec fn access_mode_of(m: AccessMode) -> Option<EventMode> {
    match m {
        AccessMode::Execute => Some(EventMode::Execute),
        AccessMode::Read => Some(EventMode::Read),
        AccessMode::Write => Some(EventMode::Write),
        _ => None,
    }
}

/// The normalized mode of a raw event kind; `None` wherever the taxonomy
/// table names no mode.
pub open spec fn mode_of(k: PlatformEventKind) -> Option<EventMode> {
    match k {
        PlatformEventKind::Access(AccessKind::Open(m)) => access_mode_of(m),
        PlatformEventKind::Access(AccessKind::Close(m)) => access_mode_of(m),
        PlatformEventKind::Modify(ModifyKind::Data(DataChange::Size)) => Some(EventMode::Size),
        PlatformEventKind::Modify(ModifyKind::Data(DataChange::Content)) => Some(
            EventMode::Content,
        ),
        PlatformEventKind::Modify(ModifyKind::Metadata(MetadataKind::AccessTime)) => Some(
            EventMode::AccessTime,
        ),
        PlatformEventKind::Modify(ModifyKind::Metadata(MetadataKind::WriteTime)) => Some(
            EventMode::WriteTime,
        ),
        PlatformEventKind::Modify(ModifyKind::Metadata(MetadataKind::Permissions)) => Some(
            EventMode::Permissions,
        ),
        PlatformEventKind::Modify(ModifyKind::Metadata(MetadataKind::Ownership)) => Some(
            EventMode::Ownership,
        ),
        PlatformEventKind::Modify(ModifyKind::Metadata(MetadataKind::Extended)) => Some(
            EventMode::Extended,
        ),
        PlatformEventKind::Modify(ModifyKind::Name(RenameMode::To)) => Some(EventMode::To),
        PlatformEventKind::Modify(ModifyKind::Name(RenameMode::From)) => Some(EventMode::From),
        PlatformEventKind::Modify(ModifyKind::Name(RenameMode::Both)) => Some(EventMode::Both),
        _ => None,
    }
}

/// A raw change notification: the platform kind, the affected paths in
/// order, and an optional metadata blob.
#[derive(Clone, Debug, PartialEq, Eq)]
pub struct RawEvent {
    pub kind: PlatformEventKind,
    pub paths: Vec<String>,
    pub attrs: Option<String>,
}

/// The mathematical model of a raw event.
#[verifier::ext_equal]
pub struct RawEventModel {
    pub kind: PlatformEventKind,
    pub paths: Seq<Seq<char>>,
    pub attrs: Option<Seq<char>>,
}

impl View for RawEvent {
    type V = RawEventModel;

    open spec fn view(&self) -> RawEventModel {
        RawEventModel {
            kind: self.kind,
            paths: self.paths.deep_view(),
            attrs: self.attrs.deep_view(),
        }
    }
}

impl DeepView for RawEvent {
    type V = RawEventModel;

    open spec fn deep_view(&self) -> RawEventModel {
        self.view()
    }
}

/// The stable record handed to consumers: the normalized taxonomy triple
/// plus the paths and metadata of the raw event.
#[derive(Clone, Debug, PartialEq, Eq)]
pub struct NormalizedEvent {
    pub event_type: EventType,
    pub kind: Option<EventKind>,
    pub mode: Option<EventMode>,
    pub paths: Vec<String>,
    pub attrs: Option<String>,
}

/// The mathematical model of a normalized event.
#[verifier::ext_equal]
pub struct NormalizedEventModel {
    pub event_type: EventType,
    pub kind: Option<EventKind>,
    pub mode: Option<EventMode>,
    pub paths: Seq<Seq<char>>,
    pub attrs: Option<Seq<char>>,
}

impl View for NormalizedEvent {
    type V = NormalizedEventModel;

    open spec fn view(&self) -> NormalizedEventModel {
        NormalizedEventModel {
            event_type: self.event_type,
            kind: self.kind,
            mode: self.mode,
            paths: self.paths.deep_view(),
            attrs: self.attrs.deep_view(),
        }
    }
}

/// What classification yields on a raw event: the taxonomy triple of its
/// kind, with the paths and metadata carried through unchanged.
pub open spec fn classified(e: RawEventModel) -> NormalizedEventModel {
    NormalizedEventModel {
        event_type: type_of(e.kind),
        kind: kind_of(e.kind),
        mode: mode_of(e.kind),
        paths: e.paths,
        attrs: e.attrs,
    }
}

/// The top level of the classification table.
pub fn classify_type(k: PlatformEventKind) -> (r: EventType)
    ensures
        r == type_of(k),
{
    match k {
        PlatformEventKind::Access(_) => EventType::Access,
        PlatformEventKind::Create(_) => EventType::Create,
        PlatformEventKind::Modify(_) => EventType::Modify,
        PlatformEventKind::Remove(_) => EventType::Remove,
        PlatformEventKind::Other => EventType::Unknown,
        PlatformEventKind::Unknown => EventType::Unknown,
    }
}

/// The middle level of the classification table.
pub fn classify_kind(k: PlatformEventKind) -> (r: Option<EventKind>)
    ensures
        r == kind_of(k),
{
    match k {
        PlatformEventKind::Access(AccessKind::Read) => Some(EventKind::Read),
        PlatformEventKind::Access(AccessKind::Open(_)) => Some(EventKind::Open),
        PlatformEventKind::Access(AccessKind::Close(_)) => Some(EventKind::Close),
        PlatformEventKind::Create(CreateKind::File) => Some(EventKind::File),
        PlatformEventKind::Create(CreateKind::Folder) => Some(EventKind::Folder),
        PlatformEventKind::Modify(ModifyKind::Data(_)) => Some(EventKind::Data),
        PlatformEventKind::Modify(ModifyKind::Metadata(_)) => Some(EventKind::Metadata),
        PlatformEventKind::Modify(ModifyKind::Name(_)) => Some(EventKind::Name),
        PlatformEventKind::Remove(RemoveKind::File) => Some(EventKind::File),
        PlatformEventKind::Remove(RemoveKind::Folder) => Some(EventKind::Folder),
        _ => None,
    }
}

/// The innermost level of the classification table.
pub fn classify_mode(k: PlatformEventKind) -> (r: Option<EventMode>)
    ensures
        r == mode_of(k),
{
    match k {
        PlatformEventKind::Access(AccessKind::Open(AccessMode::Execute)) => Some(
            EventMode::Execute,
        ),
        PlatformEventKind::Access(AccessKind::Open(AccessMode::Read)) => Some(EventMode::Read),
        PlatformEventKind::Access(AccessKind::Open(AccessMode::Write)) => Some(EventMode::Write),
        PlatformEventKind::Access(AccessKind::Close(AccessMode::Execute)) => Some(
            EventMode::Execute,
        ),
        PlatformEventKind::Access(AccessKind::Close(AccessMode::Read)) => Some(EventMode::Read),
        PlatformEventKind::Access(AccessKind::Close(AccessMode::Write)) => Some(EventMode::Write),
        PlatformEventKind::Modify(ModifyKind::Data(DataChange::Size)) => Some(EventMode::Size),
        PlatformEventKind::Modify(ModifyKind::Data(DataChange::Content)) => Some(
            EventMode::Content,
        ),
        PlatformEventKind::Modify(ModifyKind::Metadata(MetadataKind::AccessTime)) => Some(
            EventMode::AccessTime,
        ),
        PlatformEventKind::Modify(ModifyKind::Metadata(MetadataKind::WriteTime)) => Some(
            EventMode::WriteTime,
        ),
        PlatformEventKind::Modify(ModifyKind::Metadata(MetadataKind::Permissions)) => Some(
            EventMode::Permissions,
        ),
        PlatformEventKind::Modify(ModifyKind::Metadata(MetadataKind::Ownership)) => Some(
            EventMode::Ownership,
        ),
        PlatformEventKind::Modify(ModifyKind::Metadata(MetadataKind::Extended)) => Some(
            EventMode::Extended,
        ),
        PlatformEventKind::Modify(ModifyKind::Name(RenameMode::To)) => Some(EventMode::To),
        PlatformEventKind::Modify(ModifyKind::Name(RenameMode::From)) => Some(EventMode::From),
        PlatformEventKind::Modify(ModifyKind::Name(RenameMode::Both)) => Some(EventMode::Both),
        _ => None,
    }
}

/// Classification is total and pure: every raw event yields a defined
/// normalized record, and the result is a function of the raw event alone.
pub fn classify(e: RawEvent) -> (r: NormalizedEvent)
    ensures
        r@ == classified(e@),
{
    let kind = e.kind;
    NormalizedEvent {
        event_type: classify_type(kind),
        kind: classify_kind(kind),
        mode: classify_mode(kind),
        paths: e.paths,
        attrs: e.attrs,
    }
}

/// The consumer-facing name of a normalized event type.
pub open spec fn type_label(t: EventType) -> Seq<char> {
    match t {
        EventType::Access => "access"@,
        EventType::Create => "create"@,
        EventType::Modify => "modify"@,
        EventType::Remove => "remove"@,
        EventType::Unknown => "unknown"@,
    }
}

impl EventType {
    /// The consumer-facing name of this event type.
    pub fn label(&self) -> (r: &'static str)
        ensures
            r@ == type_label(*self),
    {
        match self {
            EventType::Access => "access",
            EventType::Create => "create",
            EventType::Modify => "modify",
            EventType::Remove => "remove",
            EventType::Unknown => "unknown",
        }
    }
}

/// The consumer-facing name of a normalized event kind.
pub open spec fn kind_label(k: EventKind) -> Seq<char> {
    match k {
        EventKind::Read => "read"@,
        EventKind::Open => "open"@,
        EventKind::Close => "close"@,
        EventKind::File => "file"@,
        EventKind::Folder => "folder"@,
        EventKind::Data => "data"@,
        EventKind::Metadata => "metadata"@,
        EventKind::Name => "name"@,
    }
}

impl EventKind {
    /// The consumer-facing name of this event kind.
    pub fn label(&self) -> (r: &'static str)
        ensures
            r@ == kind_label(*self),
    {
        match self {
            EventKind::Read => "read",
            EventKind::Open => "open",
            EventKind::Close => "close",
            EventKind::File => "file",
            EventKind::Folder => "folder",
            EventKind::Data => "data",
            EventKind::Metadata => "metadata",
            EventKind::Name => "name",
        }
    }
}

/// The consumer-facing name of a normalized event mode.
pub open spec fn mode_label(m: EventMode) -> Seq<char> {
    match m {
        EventMode::Execute => "execute"@,
        EventMode::Read => "read"@,
        EventMode::Write => "write"@,
        EventMode::Size => "size"@,
        EventMode::Content => "content"@,
        EventMode::AccessTime => "access_time"@,
        EventMode::WriteTime => "write_time"@,
        EventMode::Permissions => "permissions"@,
        EventMode::Ownership => "ownership"@,
        EventMode::Extended => "extended"@,
        EventMode::To => "to"@,
        EventMode::From => "from"@,
        EventMode::Both => "both"@,
    }
}

impl EventMode {
    /// The consumer-facing name of this event mode.
    pub fn label(&self) -> (r: &'static str)
        ensures
            r@ == mode_label(*self),
    {
        match self {
            EventMode::Execute => "execute",
            EventMode::Read => "read",
            EventMode::Write => "write",
            EventMode::Size => "size",
            EventMode::Content => "content",
            EventMode::AccessTime => "access_time",
            EventMode::WriteTime => "write_time",
            EventMode::Permissions => "permissions",
            EventMode::Ownership => "ownership",
            EventMode::Extended => "extended",
            EventMode::To => "to",
            EventMode::From => "from",
            EventMode::Both => "both",
        }
    }
}

/// The taxonomy triple is hierarchical: a named kind appears only under a
/// named type, and a named mode only under a named kind. Catch-all
/// sub-kinds fall out as absent values at their level, never as errors.
pub proof fn lemma_taxonomy_hierarchy(k: PlatformEventKind)
    ensures
        kind_of(k) is Some ==> type_of(k) != EventType::Unknown,
        mode_of(k) is Some ==> kind_of(k) is Some,
{
}

/// Classification is deterministic: equal raw events classify to equal
/// normalized events.
pub proof fn lemma_classify_deterministic(e1: RawEventModel, e2: RawEventModel)
    requires
        e1 == e2,
    ensures
        classified(e1) == classified(e2),
{
}

} // verus!
