use latchnott::domain::Note;
use latchnott::storage::{
    entry_from_formatted, entry_to_note, note_to_entry, temporary_file_name, validate_storage, JsonNoteRepository,
    RepositoryError, StorageEntry, StorageFile,
};
use time::format_description::well_known::Rfc3339;
use time::OffsetDateTime;
use uuid::Uuid;

const PATH: &str = r"C:\Latchnott\data\notes.json";

fn entry(id: &str, text: &str, created_at: &str) -> StorageEntry {
    StorageEntry { id: id.to_owned(), text: text.to_owned(), created_at: created_at.to_owned() }
}

fn now_text() -> String {
    OffsetDateTime::now_utc().format(&Rfc3339).expect("timestamp should format")
}

#[test]
fn creates_empty_storage_when_file_is_missing() {
    let repository =
        JsonNoteRepository::from_loaded(PATH, None).expect("missing storage should start empty");

    assert_eq!(
        repository.storage(),
        &StorageFile { schema_version: 1, entries: Vec::new() }
    );
    assert_eq!(repository.path(), PATH);
}

#[test]
fn saves_note_to_schema_v1_json() {
    let mut repository =
        JsonNoteRepository::from_loaded(PATH, None).expect("missing storage should start empty");

    let created_at = OffsetDateTime::now_utc();
    let note = Note::from_parts(Uuid::now_v7(), "Persisted note".to_owned(), created_at)
        .expect("valid note should be created");

    let pending = repository.prepare_save(&note).expect("saving note should succeed");
    repository.complete_save(pending, Ok(())).expect("saving note should succeed");

    let storage = repository.storage();
    assert_eq!(storage.schema_version, 1);
    assert_eq!(storage.entries.len(), 1);
    assert_eq!(storage.entries[0].id, note.id().to_string());
    assert_eq!(storage.entries[0].text, note.text());
    assert_eq!(
        storage.entries[0].created_at,
        note.created_at()
            .format(&Rfc3339)
            .expect("timestamp should format as RFC3339")
    );
}

#[test]
fn loads_existing_note() {
    let id = Uuid::now_v7();
    let created_at = OffsetDateTime::now_utc();

    let storage = StorageFile {
        schema_version: 1,
        entries: vec![entry(
            &id.to_string(),
            "Existing note",
            &created_at.format(&Rfc3339).expect("timestamp should format as RFC3339"),
        )],
    };

    let repository = JsonNoteRepository::from_loaded(PATH, Some(storage))
        .expect("existing storage should load successfully");

    assert_eq!(repository.storage().entries.len(), 1);

    let restored = entry_to_note(&repository.storage().entries[0])
        .expect("stored entry should convert into a note");

    assert_eq!(restored.id(), id);
    assert_eq!(restored.text(), "Existing note");
    assert_eq!(restored.created_at(), created_at);
}

#[test]
fn rejects_unsupported_schema_version() {
    let storage = StorageFile { schema_version: 99, entries: Vec::new() };

    let result = JsonNoteRepository::from_loaded(PATH, Some(storage));

    assert_eq!(
        result.err().expect("schema 99 is refused").message(),
        "unsupported storage schema version: 99"
    );
}

#[test]
fn rejects_invalid_uuid() {
    let storage = StorageFile {
        schema_version: 1,
        entries: vec![entry("not-a-uuid", "Invalid note", &now_text())],
    };

    let result = JsonNoteRepository::from_loaded(PATH, Some(storage));

    assert!(result.is_err());
    assert!(result.err().unwrap().message().starts_with("invalid note id: "));
}

#[test]
fn rejects_non_v7_uuid() {
    let storage = StorageFile {
        schema_version: 1,
        entries: vec![entry("550e8400-e29b-41d4-a716-446655440000", "Non-v7 note", &now_text())],
    };

    let result = JsonNoteRepository::from_loaded(PATH, Some(storage));

    assert_eq!(
        result.err().expect("version 4 is refused").message(),
        "note id is not UUIDv7: 550e8400-e29b-41d4-a716-446655440000"
    );
}

#[test]
fn rejects_invalid_timestamp() {
    let storage = StorageFile {
        schema_version: 1,
        entries: vec![entry(&Uuid::now_v7().to_string(), "Invalid timestamp", "not-a-timestamp")],
    };

    let result = JsonNoteRepository::from_loaded(PATH, Some(storage));

    assert!(result.is_err());
    assert!(result.err().unwrap().message().starts_with("invalid created_at: "));
}

#[test]
fn rejects_blank_stored_text() {
    let storage = StorageFile {
        schema_version: 1,
        entries: vec![entry(&Uuid::now_v7().to_string(), " \n", &now_text())],
    };

    assert_eq!(
        validate_storage(&storage).expect_err("blank").message(),
        "storage contains an empty or whitespace-only note"
    );
}

#[test]
fn reports_the_first_invalid_entry() {
    let good = entry(&Uuid::now_v7().to_string(), "fine", &now_text());
    let storage = StorageFile {
        schema_version: 1,
        entries: vec![
            good.clone(),
            entry("550e8400-e29b-41d4-a716-446655440000", "v4", "not-a-timestamp"),
            entry("not-a-uuid", "bad", "bad"),
        ],
    };

    assert_eq!(
        validate_storage(&storage).expect_err("invalid").message(),
        "note id is not UUIDv7: 550e8400-e29b-41d4-a716-446655440000"
    );
}

#[test]
fn successful_save_replaces_existing_storage_atomically() {
    let first_note = Note::new("First note".to_owned(), OffsetDateTime::now_utc())
        .expect("first note should be valid");

    let second_note = Note::new("Second note".to_owned(), OffsetDateTime::now_utc())
        .expect("second note should be valid");

    let mut repository =
        JsonNoteRepository::from_loaded(PATH, None).expect("missing storage should start empty");

    let pending = repository.prepare_save(&first_note).expect("first save should succeed");
    repository.complete_save(pending, Ok(())).expect("first save should succeed");

    let pending = repository.prepare_save(&second_note).expect("second save should succeed");
    repository.complete_save(pending, Ok(())).expect("second save should succeed");

    let reloaded = JsonNoteRepository::from_loaded(PATH, Some(repository.storage().clone()))
        .expect("replaced storage should remain valid");

    assert_eq!(reloaded.storage().entries.len(), 2);
    assert_eq!(reloaded.storage().entries[0].id, first_note.id().to_string());
    assert_eq!(reloaded.storage().entries[1].id, second_note.id().to_string());
}

#[test]
fn failed_write_keeps_the_previous_storage() {
    let note = Note::new("Kept out".to_owned(), OffsetDateTime::now_utc()).expect("valid");
    let mut repository = JsonNoteRepository::from_loaded(PATH, None).expect("empty");

    let pending = repository.prepare_save(&note).expect("entry builds");
    assert_eq!(pending.storage().entries.len(), 1);

    let error = repository
        .complete_save(pending, Err(RepositoryError::new("disk full")))
        .expect_err("the write failed");

    assert_eq!(error.message(), "disk full");
    assert!(repository.storage().entries.is_empty());
}

#[test]
fn saved_entry_restores_the_same_note() {
    let note = Note::new("Round trip".to_owned(), OffsetDateTime::now_utc()).expect("valid");

    let stored = note_to_entry(&note).expect("entry builds");
    let restored = entry_to_note(&stored).expect("entry restores");

    assert_eq!(restored, note);
    assert_eq!(stored.id.len(), 36);
    assert_eq!(stored.id, stored.id.to_lowercase());
}

#[test]
fn temporary_file_sits_beside_the_notes_file() {
    assert_eq!(temporary_file_name(Some("notes.json"), "abc"), ".notes.json.abc.tmp");
    assert_eq!(temporary_file_name(None, "abc"), ".latchnott.abc.tmp");
}

#[test]
fn entry_takes_the_formatted_time_or_fails_with_it() {
    let note = Note::new("Formatted".to_owned(), OffsetDateTime::now_utc()).expect("valid");

    let stored = entry_from_formatted(&note, Ok("2024-05-01T10:20:30Z".to_owned()))
        .expect("a formatted time gives an entry");
    assert_eq!(stored.id, note.id().to_string());
    assert_eq!(stored.text, "Formatted");
    assert_eq!(stored.created_at, "2024-05-01T10:20:30Z");

    let offset = time::UtcOffset::from_hms(1, 0, 30).expect("valid offset");
    let refused = OffsetDateTime::now_utc().to_offset(offset).format(&Rfc3339);
    assert!(refused.is_err());
    assert!(entry_from_formatted(&note, refused).is_err());
}

#[test]
fn note_with_an_offset_in_seconds_cannot_be_stored() {
    let offset = time::UtcOffset::from_hms(1, 0, 30).expect("valid offset");
    let note = Note::new("Odd offset".to_owned(), OffsetDateTime::now_utc().to_offset(offset))
        .expect("valid");

    assert!(note_to_entry(&note).is_err());

    let repository = JsonNoteRepository::from_loaded(PATH, None).expect("empty");
    assert!(repository.prepare_save(&note).is_err());
    assert!(repository.storage().entries.is_empty());
}

#[test]
fn pending_file_appends_the_entry_after_the_present_ones() {
    let mut repository = JsonNoteRepository::from_loaded(PATH, None).expect("empty");
    let first = Note::new("first".to_owned(), OffsetDateTime::now_utc()).expect("valid");
    let pending = repository.prepare_save(&first).expect("entry builds");
    repository.complete_save(pending, Ok(())).expect("saved");

    let extra = entry(&Uuid::now_v7().to_string(), "second", &now_text());
    let pending = repository.pending_with_entry(extra.clone());

    assert_eq!(pending.storage().schema_version, 1);
    assert_eq!(pending.storage().entries.len(), 2);
    assert_eq!(pending.storage().entries[0], repository.storage().entries[0]);
    assert_eq!(pending.storage().entries[1], extra);
    assert!(validate_storage(pending.storage()).is_ok());
}
