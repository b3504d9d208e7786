use notify_core::taxonomy::{
    classify, AccessKind, AccessMode, CreateKind, DataChange, EventKind, EventMode, EventType,
    MetadataKind, ModifyKind, NormalizedEvent, PlatformEventKind, RawEvent, RemoveKind, RenameMode,
};

fn raw(kind: PlatformEventKind, paths: &[&str]) -> RawEvent {
    RawEvent {
        kind,
        paths: paths.iter().map(|p| p.to_string()).collect(),
        attrs: None,
    }
}

fn triple(kind: PlatformEventKind) -> (EventType, Option<EventKind>, Option<EventMode>) {
    let n = classify(raw(kind, &[]));
    (n.event_type, n.kind, n.mode)
}

#[test]
fn classify_access_variants() {
    assert_eq!(
        triple(PlatformEventKind::Access(AccessKind::Read)),
        (EventType::Access, Some(EventKind::Read), None)
    );
    assert_eq!(
        triple(PlatformEventKind::Access(AccessKind::Open(AccessMode::Execute))),
        (EventType::Access, Some(EventKind::Open), Some(EventMode::Execute))
    );
    assert_eq!(
        triple(PlatformEventKind::Access(AccessKind::Open(AccessMode::Read))),
        (EventType::Access, Some(EventKind::Open), Some(EventMode::Read))
    );
    assert_eq!(
        triple(PlatformEventKind::Access(AccessKind::Open(AccessMode::Write))),
        (EventType::Access, Some(EventKind::Open), Some(EventMode::Write))
    );
    assert_eq!(
        triple(PlatformEventKind::Access(AccessKind::Close(AccessMode::Execute))),
        (EventType::Access, Some(EventKind::Close), Some(EventMode::Execute))
    );
    assert_eq!(
        triple(PlatformEventKind::Access(AccessKind::Close(AccessMode::Read))),
        (EventType::Access, Some(EventKind::Close), Some(EventMode::Read))
    );
    assert_eq!(
        triple(PlatformEventKind::Access(AccessKind::Close(AccessMode::Write))),
        (EventType::Access, Some(EventKind::Close), Some(EventMode::Write))
    );
    assert_eq!(
        triple(PlatformEventKind::Access(AccessKind::Open(AccessMode::Other))),
        (EventType::Access, Some(EventKind::Open), None)
    );
    assert_eq!(
        triple(PlatformEventKind::Access(AccessKind::Open(AccessMode::Unknown))),
        (EventType::Access, Some(EventKind::Open), None)
    );
    assert_eq!(
        triple(PlatformEventKind::Access(AccessKind::Close(AccessMode::Other))),
        (EventType::Access, Some(EventKind::Close), None)
    );
    assert_eq!(
        triple(PlatformEventKind::Access(AccessKind::Other)),
        (EventType::Access, None, None)
    );
    assert_eq!(
        triple(PlatformEventKind::Access(AccessKind::Unknown)),
        (EventType::Access, None, None)
    );
}

#[test]
fn classify_create_variants() {
    assert_eq!(
        triple(PlatformEventKind::Create(CreateKind::File)),
        (EventType::Create, Some(EventKind::File), None)
    );
    assert_eq!(
        triple(PlatformEventKind::Create(CreateKind::Folder)),
        (EventType::Create, Some(EventKind::Folder), None)
    );
    assert_eq!(
        triple(PlatformEventKind::Create(CreateKind::Other)),
        (EventType::Create, None, None)
    );
    assert_eq!(
        triple(PlatformEventKind::Create(CreateKind::Unknown)),
        (EventType::Create, None, None)
    );
}

#[test]
fn classify_modify_variants() {
    assert_eq!(
        triple(PlatformEventKind::Modify(ModifyKind::Data(DataChange::Size))),
        (EventType::Modify, Some(EventKind::Data), Some(EventMode::Size))
    );
    assert_eq!(
        triple(PlatformEventKind::Modify(ModifyKind::Data(DataChange::Content))),
        (EventType::Modify, Some(EventKind::Data), Some(EventMode::Content))
    );
    assert_eq!(
        triple(PlatformEventKind::Modify(ModifyKind::Data(DataChange::Other))),
        (EventType::Modify, Some(EventKind::Data), None)
    );
    assert_eq!(
        triple(PlatformEventKind::Modify(ModifyKind::Data(DataChange::Unknown))),
        (EventType::Modify, Some(EventKind::Data), None)
    );
    assert_eq!(
        triple(PlatformEventKind::Modify(ModifyKind::Metadata(MetadataKind::AccessTime))),
        (EventType::Modify, Some(EventKind::Metadata), Some(EventMode::AccessTime))
    );
    assert_eq!(
        triple(PlatformEventKind::Modify(ModifyKind::Metadata(MetadataKind::WriteTime))),
        (EventType::Modify, Some(EventKind::Metadata), Some(EventMode::WriteTime))
    );
    assert_eq!(
        triple(PlatformEventKind::Modify(ModifyKind::Metadata(MetadataKind::Permissions))),
        (EventType::Modify, Some(EventKind::Metadata), Some(EventMode::Permissions))
    );
    assert_eq!(
        triple(PlatformEventKind::Modify(ModifyKind::Metadata(MetadataKind::Ownership))),
        (EventType::Modify, Some(EventKind::Metadata), Some(EventMode::Ownership))
    );
    assert_eq!(
        triple(PlatformEventKind::Modify(ModifyKind::Metadata(MetadataKind::Extended))),
        (EventType::Modify, Some(EventKind::Metadata), Some(EventMode::Extended))
    );
    assert_eq!(
        triple(PlatformEventKind::Modify(ModifyKind::Metadata(MetadataKind::Other))),
        (EventType::Modify, Some(EventKind::Metadata), None)
    );
    assert_eq!(
        triple(PlatformEventKind::Modify(ModifyKind::Metadata(MetadataKind::Unknown))),
        (EventType::Modify, Some(EventKind::Metadata), None)
    );
    assert_eq!(
        triple(PlatformEventKind::Modify(ModifyKind::Name(RenameMode::To))),
        (EventType::Modify, Some(EventKind::Name), Some(EventMode::To))
    );
    assert_eq!(
        triple(PlatformEventKind::Modify(ModifyKind::Name(RenameMode::From))),
        (EventType::Modify, Some(EventKind::Name), Some(EventMode::From))
    );
    assert_eq!(
        triple(PlatformEventKind::Modify(ModifyKind::Name(RenameMode::Both))),
        (EventType::Modify, Some(EventKind::Name), Some(EventMode::Both))
    );
    assert_eq!(
        triple(PlatformEventKind::Modify(ModifyKind::Name(RenameMode::Other))),
        (EventType::Modify, Some(EventKind::Name), None)
    );
    assert_eq!(
        triple(PlatformEventKind::Modify(ModifyKind::Name(RenameMode::Unknown))),
        (EventType::Modify, Some(EventKind::Name), None)
    );
    assert_eq!(
        triple(PlatformEventKind::Modify(ModifyKind::Other)),
        (EventType::Modify, None, None)
    );
    assert_eq!(
        triple(PlatformEventKind::Modify(ModifyKind::Unknown)),
        (EventType::Modify, None, None)
    );
}

#[test]
fn classify_remove_variants() {
    assert_eq!(
        triple(PlatformEventKind::Remove(RemoveKind::File)),
        (EventType::Remove, Some(EventKind::File), None)
    );
    assert_eq!(
        triple(PlatformEventKind::Remove(RemoveKind::Folder)),
        (EventType::Remove, Some(EventKind::Folder), None)
    );
    assert_eq!(
        triple(PlatformEventKind::Remove(RemoveKind::Other)),
        (EventType::Remove, None, None)
    );
    assert_eq!(
        triple(PlatformEventKind::Remove(RemoveKind::Unknown)),
        (EventType::Remove, None, None)
    );
}

#[test]
fn classify_top_level_catch_alls() {
    assert_eq!(triple(PlatformEventKind::Other), (EventType::Unknown, None, None));
    assert_eq!(triple(PlatformEventKind::Unknown), (EventType::Unknown, None, None));
}

#[test]
fn classify_carries_paths_and_attrs() {
    let e = RawEvent {
        kind: PlatformEventKind::Create(CreateKind::File),
        paths: vec!["a.txt".to_string(), "b.txt".to_string()],
        attrs: Some("tracker=7".to_string()),
    };
    let n = classify(e);
    assert_eq!(n.paths, vec!["a.txt".to_string(), "b.txt".to_string()]);
    assert_eq!(n.attrs, Some("tracker=7".to_string()));
}

#[test]
fn classify_is_deterministic() {
    let make = || RawEvent {
        kind: PlatformEventKind::Modify(ModifyKind::Name(RenameMode::Both)),
        paths: vec!["old.txt".to_string(), "new.txt".to_string()],
        attrs: Some("tracker=3".to_string()),
    };
    let first: NormalizedEvent = classify(make());
    let second: NormalizedEvent = classify(make());
    assert_eq!(first, second);
}

#[test]
fn labels_match_consumer_names() {
    assert_eq!(EventType::Modify.label(), "modify");
    assert_eq!(EventType::Unknown.label(), "unknown");
    assert_eq!(EventKind::Data.label(), "data");
    assert_eq!(EventKind::Metadata.label(), "metadata");
    assert_eq!(EventMode::Content.label(), "content");
    assert_eq!(EventMode::AccessTime.label(), "access_time");
}
