//! User-session autostart: the command line the `Run` key gets.
use vstd::prelude::*;
use vstd::utf8::encode_utf8;

use super::win32::{win32_failure_message, win32_failure_text};
use crate::text::{chars_of, owned, push_char, utf8_len};

pub use crate::text::wide_string;

verus! {

/// The per-user key whose values Windows starts at sign-in.
pub const RUN_KEY: &'static str = "Software\\Microsoft\\Windows\\CurrentVersion\\Run";

/// The value under `RUN_KEY` that names the application.
pub const VALUE_NAME: &'static str = "Latchnott";

/// The longest command, in bytes, that the `Run` key takes.
pub const MAX_COMMAND_BYTES: usize = 260;

/// An error of autostart registration.
#[derive(Debug, Clone, PartialEq, Eq)]
pub struct AutostartError {
    message: String,
}

impl View for AutostartError {
    type V = Seq<char>;

    closed spec fn view(&self) -> Seq<char> {
        self.message@
    }
}

impl AutostartError {
    /// An error with the given message.
    pub fn new(message: String) -> (r: Self)
        ensures
            r@ == message@,
    {
        AutostartError { message }
    }

    /// The error of a failed Win32 call.
    pub fn win32(operation: &str, error: u32) -> (r: Self)
        ensures
            r@ == win32_failure_text(operation@, error),
    {
        AutostartError { message: win32_failure_message(operation, error) }
    }

    /// The error's message.
    pub fn message(&self) -> (r: &str)
        ensures
            r@ == self@,
    {
        self.message.as_str()
    }

    /// The error's message, as its `Display` would write it.
    pub fn to_string(&self) -> (r: String)
        ensures
            r@ == self@,
    {
        owned(self.message.as_str())
    }
}

/// Registers the application with the user's `Run` key (the registry calls
/// are made at the application's edge).
pub struct Autostart;

/// Every `"` preceded by a backslash.
pub open spec fn escape_quotes(s: Seq<char>) -> Seq<char>
    decreases s.len(),
{
    if s.len() == 0 {
        Seq::empty()
    } else if s.last() == '"' {
        escape_quotes(s.drop_last()) + seq!['\\', '"']
    } else {
        escape_quotes(s.drop_last()).push(s.last())
    }
}

/// An argument in double quotes, its own quotes escaped.
pub open spec fn quoted(s: Seq<char>) -> Seq<char> {
    seq!['"'] + escape_quotes(s) + seq!['"']
}

/// Quotes one Windows command-line argument.
pub fn quote_windows_argument(value: &str) -> (r: String)
    ensures
        r@ == quoted(value@),
{
    let cs = chars_of(value);
    let mut r = String::new();
    push_char(&mut r, '"');
    let mut i: usize = 0;
    while i < cs.len()
        invariant
            cs@ == value@,
            i <= cs@.len(),
            r@ == seq!['"'] + escape_quotes(cs@.take(i as int)),
        decreases cs@.len() - i,
    {
        proof {
            assert(cs@.take(i + 1).drop_last() =~= cs@.take(i as int));
            assert(cs@.take(i + 1).last() == cs@[i as int]);
        }
        if cs[i] == '"' {
            push_char(&mut r, '\\');
            push_char(&mut r, '"');
            proof {
                assert(r@ =~= seq!['"'] + escape_quotes(cs@.take(i + 1)));
            }
        } else {
            push_char(&mut r, cs[i]);
            proof {
                assert(r@ =~= seq!['"'] + escape_quotes(cs@.take(i + 1)));
            }
        }
        i = i + 1;
    }
    push_char(&mut r, '"');
    proof {
        assert(cs@.take(cs@.len() as int) =~= cs@);
        assert(r@ =~= quoted(value@));
    }
    r
}

pub open spec fn too_long_text() -> Seq<char> {
    "autostart command exceeds the Windows Run key command-line limit"@
}

pub open spec fn not_utf8_text() -> Seq<char> {
    "executable path is not valid UTF-8"@
}

/// The `Run` command for an executable given as text: the quoted path,
/// refused when its UTF-8 form is longer than `MAX_COMMAND_BYTES`.
pub fn startup_command_for(executable: &str) -> (r: Result<String, AutostartError>)
    ensures
        encode_utf8(quoted(executable@)).len() <= MAX_COMMAND_BYTES ==> (r matches Ok(c) && c@
            == quoted(executable@)),
        encode_utf8(quoted(executable@)).len() > MAX_COMMAND_BYTES ==> (r matches Err(e) && e@
            == too_long_text()),
{
    let quoted_text = quote_windows_argument(executable);
    if utf8_len(quoted_text.as_str()) > MAX_COMMAND_BYTES as u128 {
        return Err(
            AutostartError::new(
                owned("autostart command exceeds the Windows Run key command-line limit"),
            ),
        );
    }
    Ok(quoted_text)
}

/// The `Run` command for an executable path, given as its UTF-8 text, or
/// `None` where the path is not valid UTF-8, which is refused.
pub fn startup_command(executable: Option<&str>) -> (r: Result<String, AutostartError>)
    ensures
        executable is None ==> (r matches Err(e) && e@ == not_utf8_text()),
        executable matches Some(text) ==> ((encode_utf8(quoted(text@)).len() <= MAX_COMMAND_BYTES
            ==> (r matches Ok(c) && c@ == quoted(text@))) && (encode_utf8(quoted(text@)).len()
            > MAX_COMMAND_BYTES ==> (r matches Err(e) && e@ == too_long_text()))),
{
    match executable {
        Some(text) => startup_command_for(text),
        None => Err(AutostartError::new(owned("executable path is not valid UTF-8"))),
    }
}

/// The verdict on a registry call's status code: zero is success.
pub fn registry_outcome(operation: &str, status: u32) -> (r: Result<(), AutostartError>)
    ensures
        status == 0 ==> r is Ok,
        status != 0 ==> (r matches Err(e) && e@ == win32_failure_text(operation@, status)),
{
    if status != 0 {
        return Err(AutostartError::win32(operation, status));
    }
    Ok(())
}

/// Escaping a text is escaping its parts one after the other.
pub proof fn lemma_escape_quotes_concat(a: Seq<char>, b: Seq<char>)
    ensures
        escape_quotes(a + b) == escape_quotes(a) + escape_quotes(b),
    decreases b.len(),
{
    if b.len() == 0 {
        assert(a + b =~= a);
        assert(escape_quotes(a) + escape_quotes(b) =~= escape_quotes(a));
    } else {
        assert((a + b).drop_last() =~= a + b.drop_last());
        assert((a + b).last() == b.last());
        lemma_escape_quotes_concat(a, b.drop_last());
        if b.last() == '"' {
            assert(escape_quotes(a + b) =~= escape_quotes(a) + escape_quotes(b));
        } else {
            assert(escape_quotes(a + b) =~= escape_quotes(a) + escape_quotes(b));
        }
    }
}

/// Quoting an argument puts a backslash before each of its double quotes
/// and changes nothing else: a text without double quotes is only put
/// between two double quotes, and a text is escaped part by part, each
/// double quote becoming a backslash and a double quote.
pub proof fn lemma_quoting_only_escapes_double_quotes(s: Seq<char>, a: Seq<char>, b: Seq<char>)
    ensures
        (forall|i: int| 0 <= i < s.len() ==> s[i] != '"') ==> quoted(s) == seq!['"'] + s
            + seq!['"'],
        escape_quotes(a + b) == escape_quotes(a) + escape_quotes(b),
        escape_quotes(seq!['"']) == seq!['\\', '"'],
        forall|c: char| c != '"' ==> escape_quotes(seq![c]) == seq![c],
{
    lemma_escape_quotes_concat(a, b);
    if forall|i: int| 0 <= i < s.len() ==> s[i] != '"' {
        lemma_escape_keeps_plain_text(s);
    }
    let quote = seq!['"'];
    assert(quote.drop_last() =~= Seq::<char>::empty());
    assert(quote.last() == '"');
    assert(escape_quotes(Seq::<char>::empty()) == Seq::<char>::empty());
    assert(escape_quotes(quote) == escape_quotes(quote.drop_last()) + seq!['\\', '"']);
    assert(Seq::<char>::empty() + seq!['\\', '"'] =~= seq!['\\', '"']);
    assert forall|c: char| c != '"' implies escape_quotes(seq![c]) == seq![c] by {
        let one = seq![c];
        assert(one.drop_last() =~= Seq::<char>::empty());
        assert(one.last() == c);
        assert(escape_quotes(Seq::<char>::empty()) == Seq::<char>::empty());
        assert(escape_quotes(one) == escape_quotes(one.drop_last()).push(c));
        assert(escape_quotes(one) =~= seq![c]);
    }
}

proof fn lemma_escape_keeps_plain_text(s: Seq<char>)
    requires
        forall|i: int| 0 <= i < s.len() ==> s[i] != '"',
    ensures
        escape_quotes(s) == s,
    decreases s.len(),
{
    if s.len() > 0 {
        assert(s.last() == s[s.len() - 1]);
        lemma_escape_keeps_plain_text(s.drop_last());
        assert(escape_quotes(s) =~= s);
    }
}

} // verus!
