use latchnott::domain::Note;
use latchnott::gui::{centered_origin, reaction_to_save, SAVE_FAILED_TEXT};
use latchnott::logging::LogLevel;
use latchnott::storage::RepositoryError;
use time::OffsetDateTime;

#[test]
fn saved_note_clears_and_hides_the_window() {
    let note = Note::new("x".to_owned(), OffsetDateTime::now_utc()).expect("valid");
    let reaction = reaction_to_save(&Ok(Some(note)));

    assert_eq!(reaction.level, LogLevel::Info);
    assert_eq!(reaction.log_message, "note saved successfully");
    assert!(reaction.clear_and_hide);
    assert!(reaction.error_message.is_empty());
}

#[test]
fn blank_input_is_discarded_and_hides_the_window() {
    let reaction = reaction_to_save(&Ok(None));

    assert_eq!(reaction.log_message, "empty note input discarded");
    assert!(reaction.clear_and_hide);
}

#[test]
fn failed_save_keeps_the_text_and_says_so() {
    let reaction = reaction_to_save(&Err(RepositoryError::new("disk full")));

    assert_eq!(reaction.level, LogLevel::Error);
    assert_eq!(reaction.log_message, "failed to save note: disk full");
    assert!(!reaction.clear_and_hide);
    assert_eq!(reaction.error_message, SAVE_FAILED_TEXT);
    assert_eq!(SAVE_FAILED_TEXT, "Failed to save note. The note was not saved.");
}

#[test]
fn window_is_centred_on_its_monitor() {
    assert_eq!(centered_origin(0, 1920, 520), 700);
    assert_eq!(centered_origin(-1920, 1920, 521), -1920 + 699);
    assert_eq!(centered_origin(100, 300, 500), 0);
    assert_eq!(centered_origin(0, 300, 501), -100);
}

#[test]
fn logged_save_messages_never_hold_the_note_text() {
    let note = Note::new("secret words".to_owned(), OffsetDateTime::now_utc()).expect("valid");
    let saved = reaction_to_save(&Ok(Some(note)));
    assert!(!saved.log_message.contains("secret"));

    let failed = reaction_to_save(&Err(RepositoryError::new("disk full")));
    assert_eq!(failed.hide_context, "");
}
