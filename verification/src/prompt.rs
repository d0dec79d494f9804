use vstd::prelude::*;
use crate::install::{executable_path, executable_path_of};

verus! {

/// The number of launches where the answer names none.
pub const DEFAULT_LAUNCHES: u32 = 2;

/// A text without the white space at its two ends.
pub uninterp spec fn trimmed(text: Seq<char>) -> Seq<char>;

/// The number that a text is the decimal notation of, where it is one that
/// fits 32 bits.
pub uninterp spec fn parsed_u32(text: Seq<char>) -> Option<u32>;

/// Calls `str::trim`. The result is what std leaves of the text; nothing more
/// is claimed of it.
#[verifier::external_body]
fn trim<'a>(text: &'a str) -> (r: &'a str)
    ensures
        r@ == trimmed(text@),
{
    text.trim()
}

/// Calls `str::parse` for `u32`. The result is the number that std reads from
/// the text, or nothing where std rejects the text; nothing more is claimed of
/// it.
#[verifier::external_body]
fn parse_u32(text: &str) -> (r: Option<u32>)
    ensures
        r == parsed_u32(text@),
{
    text.parse::<u32>().ok()
}

/// The number of launches that a trimmed answer stands for: the number it
/// reads as, and the default where it is empty or reads as none.
pub fn launch_count_from(answer_is_empty: bool, number: Option<u32>) -> (n: u32)
    ensures
        answer_is_empty ==> n == DEFAULT_LAUNCHES,
        !answer_is_empty && number is Some ==> n == number->Some_0,
        !answer_is_empty && number is None ==> n == DEFAULT_LAUNCHES,
{
    if answer_is_empty {
        DEFAULT_LAUNCHES
    } else {
        match number {
            Some(n) => n,
            None => DEFAULT_LAUNCHES,
        }
    }
}

/// The number of launches that a line of input asks for.
pub open spec fn launch_count_of(line: Seq<char>) -> u32 {
    if trimmed(line).len() == 0 {
        DEFAULT_LAUNCHES
    } else {
        match parsed_u32(trimmed(line)) {
            Some(n) => n,
            None => DEFAULT_LAUNCHES,
        }
    }
}

/// Reads the number of launches from a line of input.
pub fn launch_count(line: &str) -> (n: u32)
    ensures
        n == launch_count_of(line@),
{
    let answer = trim(line);
    let empty: bool = answer.unicode_len() == 0;
    launch_count_from(empty, parse_u32(answer))
}

/// Why an installation directory that was typed in gives no executable.
#[derive(Clone, Copy, Debug, PartialEq, Eq, Structural)]
pub enum PathError {
    /// Nothing was typed in.
    NoPath,
    /// The directory does not exist.
    MissingBase,
    /// The directory holds the executable for neither architecture.
    NoExecutable,
}

/// The text of an error, with the two paths that were tried put in where it
/// names them.
pub fn path_error_message(error: PathError, x86_path: &str, x64_path: &str) -> (message: String)
    ensures
        error is NoPath ==> message@ == "No path provided."@,
        error is MissingBase ==> message@ == "The provided base path does not exist."@,
        error is NoExecutable ==> message@ == "Neither '"@ + x86_path@ + "' nor '"@ + x64_path@
            + "' exist."@,
{
    match error {
        PathError::NoPath => String::from_str("No path provided."),
        PathError::MissingBase => String::from_str("The provided base path does not exist."),
        PathError::NoExecutable => {
            let mut message = String::from_str("Neither '");
            message.append(x86_path);
            message.append("' nor '");
            message.append(x64_path);
            message.append("' exist.");
            message
        },
    }
}

/// What is left of a line that was trimmed down to the path typed in: the
/// path, or an error where nothing is left.
pub fn typed_path_from<'a>(answer: &'a str) -> (r: Result<&'a str, PathError>)
    ensures
        answer@.len() == 0 ==> r == Err::<&str, PathError>(PathError::NoPath),
        answer@.len() > 0 ==> r == Ok::<&str, PathError>(answer),
{
    if answer.unicode_len() == 0 {
        Err(PathError::NoPath)
    } else {
        Ok(answer)
    }
}

/// Trims a line of input down to the path that was typed in. A line of white
/// space alone is an error.
pub fn typed_path<'a>(line: &'a str) -> (r: Result<&'a str, PathError>)
    ensures
        trimmed(line@).len() == 0 ==> r == Err::<&str, PathError>(PathError::NoPath),
        trimmed(line@).len() > 0 ==> r is Ok && r->Ok_0@ == trimmed(line@),
{
    typed_path_from(trim(line))
}

/// Chooses the executable below an installation directory that was typed in,
/// from what exists on disk: the 32-bit one where it exists, else the 64-bit
/// one where that exists.
pub fn choose_installed(base: &str, base_exists: bool, x86_exists: bool, x64_exists: bool) -> (r:
    Result<String, PathError>)
    ensures
        !base_exists ==> r == Err::<String, PathError>(PathError::MissingBase),
        base_exists && x86_exists ==> r is Ok && r->Ok_0@ == executable_path_of(base@, false),
        base_exists && !x86_exists && x64_exists ==> r is Ok && r->Ok_0@ == executable_path_of(
            base@,
            true,
        ),
        base_exists && !x86_exists && !x64_exists ==> r == Err::<String, PathError>(
            PathError::NoExecutable,
        ),
{
    if !base_exists {
        Err(PathError::MissingBase)
    } else if x86_exists {
        Ok(executable_path(base, false))
    } else if x64_exists {
        Ok(executable_path(base, true))
    } else {
        Err(PathError::NoExecutable)
    }
}

} // verus!
