use vstd::prelude::*;

verus! {

/// The lower-case form that Unicode gives to a text.
pub uninterp spec fn lowercased(text: Seq<char>) -> Seq<char>;

/// Whether a character has a meaning of its own in a regular expression.
pub open spec fn is_meta_character(c: char) -> bool {
    c == '\\' || c == '.' || c == '+' || c == '*' || c == '?' || c == '(' || c == ')' || c == '|'
        || c == '[' || c == ']' || c == '{' || c == '}' || c == '^' || c == '$' || c == '#' || c
        == '&' || c == '-' || c == '~'
}

/// A text with a backslash put before each of its characters that has a
/// meaning of its own in a regular expression.
pub open spec fn regex_escaped(text: Seq<char>) -> Seq<char>
    decreases text.len(),
{
    if text.len() == 0 {
        Seq::empty()
    } else if is_meta_character(text.last()) {
        regex_escaped(text.drop_last()).push('\\').push(text.last())
    } else {
        regex_escaped(text.drop_last()).push(text.last())
    }
}

/// Whether a pattern compiles to a regular expression.
pub uninterp spec fn regex_valid(pattern: Seq<char>) -> bool;

/// Whether the regular expression that a pattern compiles to matches somewhere
/// in a text.
pub uninterp spec fn regex_accepts(pattern: Seq<char>, haystack: Seq<char>) -> bool;

/// Calls `str::to_lowercase`. The result is the lower-case form that std gives
/// to the text; nothing more is claimed of it.
#[verifier::external_body]
fn to_lowercase(text: &str) -> (r: String)
    ensures
        r@ == lowercased(text@),
{
    text.to_lowercase()
}

/// Calls `regex::escape`. The result is the text with a backslash before each
/// character of the crate's fixed set of meta characters, and nothing else
/// changed.
#[verifier::external_body]
fn escape(text: &str) -> (r: String)
    ensures
        r@ == regex_escaped(text@),
{
    regex::escape(text)
}

/// Calls `regex::Regex::new` on the pattern and, where that gives a regular
/// expression, `Regex::is_match` of it on the text. There is a result exactly
/// where the pattern compiles, and it is what the match gives; nothing more is
/// claimed of either.
#[verifier::external_body]
fn match_pattern(pattern: &str, haystack: &str) -> (r: Option<bool>)
    ensures
        r is Some <==> regex_valid(pattern@),
        r is Some ==> r == Some(regex_accepts(pattern@, haystack@)),
{
    match regex::Regex::new(pattern) {
        Ok(re) => Some(re.is_match(haystack)),
        Err(_) => None,
    }
}

/// The pattern under which subkey names are matched against a search term:
/// the whole name, whatever its case, is the term in lower case, taken
/// literally.
pub open spec fn key_pattern_of(search_term: Seq<char>) -> Seq<char> {
    whole_match_pattern(regex_escaped(lowercased(search_term)))
}

/// The pattern that matches a whole text, whatever its case, against an
/// escaped literal.
pub open spec fn whole_match_pattern(literal: Seq<char>) -> Seq<char> {
    "(?i)^"@ + literal + "$"@
}

/// Builds the pattern that matches a whole text, whatever its case, against an
/// escaped literal.
pub fn pattern_for_literal(literal: &str) -> (pattern: String)
    ensures
        pattern@ == whole_match_pattern(literal@),
{
    let mut pattern = String::from_str("(?i)^");
    pattern.append(literal);
    pattern.append("$");
    pattern
}

/// Builds the pattern for a search term.
pub fn key_pattern(search_term: &str) -> (pattern: String)
    ensures
        pattern@ == key_pattern_of(search_term@),
{
    let lower = to_lowercase(search_term);
    let literal = escape(lower.as_str());
    pattern_for_literal(literal.as_str())
}

/// Whether a subkey name matches a search term. There is no answer where the
/// term's pattern does not compile.
pub fn key_name_matches(search_term: &str, subkey_name: &str) -> (r: Option<bool>)
    ensures
        r is Some <==> regex_valid(key_pattern_of(search_term@)),
        r is Some ==> r == Some(regex_accepts(key_pattern_of(search_term@), subkey_name@)),
{
    let pattern = key_pattern(search_term);
    match_pattern(pattern.as_str(), subkey_name)
}

/// The path of a subkey: its parent's path, a backslash, and its name.
pub open spec fn subkey_path_of(parent: Seq<char>, name: Seq<char>) -> Seq<char> {
    parent + seq!['\\'] + name
}

/// Builds the path of a subkey.
pub fn subkey_path(parent: &str, name: &str) -> (path: String)
    ensures
        path@ == subkey_path_of(parent@, name@),
{
    proof {
        reveal_strlit("\\");
    }
    let mut path = String::from_str(parent);
    path.append("\\");
    path.append(name);
    assert("\\"@ =~= seq!['\\']);
    path
}

/// The path, below the machine's root key, of the key under which the
/// uninstaller records the installation: the native one, or the one that
/// 32-bit programs are redirected to on a 64-bit system.
pub open spec fn uninstall_key_of(redirected: bool) -> Seq<char> {
    if redirected {
        "SOFTWARE\\WOW6432Node\\Microsoft\\Windows\\CurrentVersion\\Uninstall\\StarCraft"@
    } else {
        "SOFTWARE\\Microsoft\\Windows\\CurrentVersion\\Uninstall\\StarCraft"@
    }
}

/// The key under which the uninstaller records the installation. The native
/// key is tried first, the redirected one where that cannot be opened.
pub fn uninstall_key(redirected: bool) -> (key: &'static str)
    ensures
        key@ == uninstall_key_of(redirected),
{
    if redirected {
        "SOFTWARE\\WOW6432Node\\Microsoft\\Windows\\CurrentVersion\\Uninstall\\StarCraft"
    } else {
        "SOFTWARE\\Microsoft\\Windows\\CurrentVersion\\Uninstall\\StarCraft"
    }
}

/// The name of the value that holds the installation directory.
pub fn install_location_value() -> (name: &'static str)
    ensures
        name@ == "InstallLocation"@,
{
    "InstallLocation"
}

/// The folder of an installation that holds the executable for an architecture.
pub open spec fn architecture_folder(is_64bits: bool) -> Seq<char> {
    if is_64bits {
        "x86_64"@
    } else {
        "x86"@
    }
}

/// A path with one more component: the component stands directly behind an
/// empty path or one that ends with a separator, and behind a backslash
/// otherwise.
pub open spec fn joined(base: Seq<char>, component: Seq<char>) -> Seq<char> {
    if base.len() == 0 || base.last() == '\\' || base.last() == '/' {
        base + component
    } else {
        base + seq!['\\'] + component
    }
}

/// The path of the executable below an installation directory.
pub open spec fn executable_path_of(install_dir: Seq<char>, is_64bits: bool) -> Seq<char> {
    joined(joined(install_dir, architecture_folder(is_64bits)), "StarCraft.exe"@)
}

/// Appends one component to a path.
pub fn join(base: String, component: &str) -> (path: String)
    ensures
        path@ == joined(base@, component@),
{
    proof {
        reveal_strlit("\\");
    }
    assert("\\"@ =~= seq!['\\']);
    let n: usize = base.as_str().unicode_len();
    let mut path = base;
    if n > 0 {
        let last: char = path.as_str().get_char(n - 1);
        if last != '\\' && last != '/' {
            path.append("\\");
        }
    }
    path.append(component);
    path
}

/// Builds the path of the executable below an installation directory.
pub fn executable_path(install_dir: &str, is_64bits: bool) -> (path: String)
    ensures
        path@ == executable_path_of(install_dir@, is_64bits),
{
    let folder: &str = if is_64bits {
        "x86_64"
    } else {
        "x86"
    };
    let with_folder = join(String::from_str(install_dir), folder);
    join(with_folder, "StarCraft.exe")
}

/// Whether the registry is to be searched: where the search was asked for, or
/// where the direct lookup found nothing.
pub fn needs_search(search_requested: bool, direct_found: bool) -> (r: bool)
    ensures
        r == (search_requested || !direct_found),
{
    search_requested || !direct_found
}

/// Chooses the executable's path after a search. The first result of the
/// search decides, by its installation directory; with no result the direct
/// lookup stands; with neither there is no path, and it has to be asked for.
pub fn choose_game_path(
    direct: Option<String>,
    matches: &Vec<(String, String)>,
    is_64bits: bool,
) -> (r: Option<String>)
    ensures
        matches@.len() > 0 ==> r is Some && r->Some_0@ == executable_path_of(
            matches@[0].1@,
            is_64bits,
        ),
        matches@.len() == 0 ==> r == direct,
{
    if matches.len() > 0 {
        Some(executable_path(matches[0].1.as_str(), is_64bits))
    } else {
        direct
    }
}

} // verus!
