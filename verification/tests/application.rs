use latchnott::application::{answer_after_save, CreateNote};
use latchnott::domain::Note;
use latchnott::storage::{NoteRepository, RepositoryError};

#[derive(Default)]
struct InMemoryNoteRepository {
    saved_notes: Vec<Note>,
}

impl NoteRepository for InMemoryNoteRepository {
    fn save(&mut self, note: Note) -> Result<(), RepositoryError> {
        self.saved_notes.push(note);
        Ok(())
    }
}

struct FailingRepository;

impl NoteRepository for FailingRepository {
    fn save(&mut self, _note: Note) -> Result<(), RepositoryError> {
        Err(RepositoryError::new("repository failure"))
    }
}

#[test]
fn creates_and_saves_note() {
    let mut repository = InMemoryNoteRepository::default();
    let mut create_note = CreateNote::new(&mut repository);

    let note = create_note
        .execute("Application test".to_owned())
        .expect("repository save should succeed")
        .expect("non-empty text should create a note");

    assert_eq!(note.text(), "Application test");
    assert_eq!(repository.saved_notes, vec![note]);
}

#[test]
fn rejects_whitespace_only_text_without_saving() {
    let mut repository = InMemoryNoteRepository::default();
    let mut create_note = CreateNote::new(&mut repository);

    let result = create_note
        .execute("   \t\n".to_owned())
        .expect("invalid note input should not be a repository error");

    assert!(result.is_none());
    assert!(repository.saved_notes.is_empty());
}

#[test]
fn propagates_repository_error() {
    let mut repository = FailingRepository;
    let mut create_note = CreateNote::new(&mut repository);

    let error = create_note
        .execute("Application test".to_owned())
        .expect_err("repository error should be propagated");

    assert_eq!(error.message(), "repository failure");
}

#[test]
fn saves_each_created_note_once_in_order() {
    let mut repository = InMemoryNoteRepository::default();
    let mut create_note = CreateNote::new(&mut repository);

    let first = create_note.execute("first".to_owned()).unwrap().unwrap();
    let skipped = create_note.execute(" ".to_owned()).unwrap();
    let second = create_note.execute("second".to_owned()).unwrap().unwrap();

    assert!(skipped.is_none());
    assert_eq!(repository.saved_notes, vec![first, second]);
}

#[test]
fn answer_after_save_returns_the_note_or_the_error() {
    let note = Note::new("kept".to_owned(), time::OffsetDateTime::now_utc()).unwrap();

    let answered = answer_after_save(note.clone(), Ok(())).unwrap().unwrap();
    assert_eq!(answered, note);

    let error = answer_after_save(note, Err(RepositoryError::new("disk full"))).unwrap_err();
    assert_eq!(error.message(), "disk full");
}
