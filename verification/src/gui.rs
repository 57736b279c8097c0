//! The input window's rules: how it reacts to a save, and where it is
//! placed. The window itself is drawn at the application's edge.
use vstd::prelude::*;

use crate::domain::Note;
use crate::logging::LogLevel;
use crate::storage::RepositoryError;
use crate::text::{concat, owned};

verus! {

/// What the window shows when a save failed.
pub const SAVE_FAILED_TEXT: &'static str = "Failed to save note. The note was not saved.";

/// How the window and the log react to the outcome of a save.
pub struct SaveReaction {
    /// The level of the line logged.
    pub level: LogLevel,
    /// The line logged.
    pub log_message: String,
    /// Whether the input is cleared and the window hidden; when not, the
    /// typed text stays.
    pub clear_and_hide: bool,
    /// What the window's error area shows afterwards.
    pub error_message: String,
    /// Where a failure to hide is logged: the situation it names.
    pub hide_context: String,
}

/// The message logged after a save: a fixed text for a saved note and for
/// blank input, and a fixed prefix followed by the repository's message for
/// a failed save.
pub open spec fn save_log_message(result: Result<Option<Note>, RepositoryError>) -> Seq<char> {
    match result {
        Ok(Some(_)) => "note saved successfully"@,
        Ok(None) => "empty note input discarded"@,
        Err(e) => "failed to save note: "@ + e@,
    }
}

/// The reaction to a save: a saved note and blank input both clear and hide
/// the window; a failed save keeps the text, shows that the note was not
/// saved, and logs the repository's message.
pub fn reaction_to_save(result: &Result<Option<Note>, RepositoryError>) -> (r: SaveReaction)
    ensures
        r.log_message@ == save_log_message(*result),
        match result {
            Ok(Some(_)) => r.level == LogLevel::Info && r.log_message@ == "note saved successfully"@
                && r.clear_and_hide && r.error_message@.len() == 0 && r.hide_context@
                == "after save"@,
            Ok(None) => r.level == LogLevel::Info && r.log_message@
                == "empty note input discarded"@ && r.clear_and_hide && r.error_message@.len()
                == 0 && r.hide_context@ == "after empty input"@,
            Err(e) => r.level == LogLevel::Error && r.log_message@ == "failed to save note: "@
                + e@ && !r.clear_and_hide && r.error_message@ == SAVE_FAILED_TEXT@
                && r.hide_context@.len() == 0,
        },
{
    match result {
        Ok(Some(_)) => SaveReaction {
            level: LogLevel::Info,
            log_message: owned("note saved successfully"),
            clear_and_hide: true,
            error_message: String::new(),
            hide_context: owned("after save"),
        },
        Ok(None) => SaveReaction {
            level: LogLevel::Info,
            log_message: owned("empty note input discarded"),
            clear_and_hide: true,
            error_message: String::new(),
            hide_context: owned("after empty input"),
        },
        Err(error) => SaveReaction {
            level: LogLevel::Error,
            log_message: concat("failed to save note: ", error.message()),
            clear_and_hide: false,
            error_message: owned(SAVE_FAILED_TEXT),
            hide_context: String::new(),
        },
    }
}

/// What is logged after a save never holds the note's text: every saved
/// note gives the same message, whatever its text, and otherwise only fixed
/// texts and the repository's own message are logged.
pub proof fn lemma_save_log_never_holds_note_text(a: Note, b: Note, error: RepositoryError)
    ensures
        save_log_message(Ok(Some(a))) == save_log_message(Ok(Some(b))),
        save_log_message(Ok(Some(a))) == "note saved successfully"@,
        save_log_message(Ok(None)) == "empty note input discarded"@,
        save_log_message(Err(error)) == "failed to save note: "@ + error@,
{
}

/// Half of a difference, rounded toward zero as integer division does.
pub open spec fn half_toward_zero(d: int) -> int {
    if d >= 0 {
        d / 2
    } else {
        -((-d) / 2)
    }
}

/// Where a window of `window_size` starts so that it is centred on a
/// monitor of `monitor_size` starting at `monitor_position` (along one
/// axis).
pub open spec fn centred_origin(monitor_position: int, monitor_size: int, window_size: int) -> int {
    monitor_position + half_toward_zero(monitor_size - window_size)
}

/// Computes `centred_origin` in pixels, with the sizes read as `i32` the way
/// an `as` conversion reads them.
pub fn centered_origin(monitor_position: i32, monitor_size: u32, window_size: u32) -> (r: i32)
    requires
        i32::MIN <= (monitor_size as i32) - (window_size as i32) <= i32::MAX,
        i32::MIN <= centred_origin(
            monitor_position as int,
            (monitor_size as i32) as int,
            (window_size as i32) as int,
        ) <= i32::MAX,
    ensures
        r == centred_origin(
            monitor_position as int,
            (monitor_size as i32) as int,
            (window_size as i32) as int,
        ),
{
    let monitor: i32 = monitor_size as i32;
    let window: i32 = window_size as i32;
    let difference: i32 = monitor - window;
    let half: i32 = if difference >= 0 {
        difference / 2
    } else {
        -((-(difference as i64)) / 2) as i32
    };
    monitor_position + half
}

} // verus!
