//! Turning a plugin's name into the name of the folder it is installed in.
use vstd::prelude::*;
use vstd::string::*;

use crate::text::push_char;

verus! {

/// Whether `pattern` is a regular expression that the `regex` crate accepts.
pub uninterp spec fn regex_compiles(pattern: Seq<char>) -> bool;

/// Whether the regular expression `pattern` matches somewhere in `text`.
pub uninterp spec fn regex_matches(pattern: Seq<char>, text: Seq<char>) -> bool;

/// Compiles `pattern` (`regex::Regex::new`) and, if it compiles, tells whether it matches
/// `text` (`regex::Regex::is_match`). Both results depend on the pattern and the text
/// alone; what they are is what `regex_compiles` and `regex_matches` name.
///
/// For the folder name pattern `^[a-z0-9 \.]*$` the `regex` documentation gives the result:
/// it compiles, and since `^` and `$` match only at the start and end of the text and the
/// class holds the ASCII lower-case letters, the digits, the space and the dot, it matches
/// exactly the texts made of those characters.
#[verifier::external_body]
fn pattern_matches(pattern: &str, text: &str) -> (r: Option<bool>)
    ensures
        r is Some <==> regex_compiles(pattern@),
        r matches Some(b) ==> b == regex_matches(pattern@, text@),
        pattern@ == folder_name_pattern() ==> r == Some(all_folder_chars(text@)),
{
    match regex::Regex::new(pattern) {
        Ok(re) => Some(re.is_match(text)),
        Err(_) => None,
    }
}

/// The pattern a lower-cased plugin name must match to be used as a folder name.
pub open spec fn folder_name_pattern() -> Seq<char> {
    "^[a-z0-9 \\.]*$"@
}

/// Whether `c` may stand in a lower-cased plugin name that becomes a folder name: an ASCII
/// lower-case letter, a digit, a space or a dot.
pub open spec fn folder_name_char(c: char) -> bool {
    ('a' <= c <= 'z') || ('0' <= c <= '9') || c == ' ' || c == '.'
}

/// Whether every character of `text` may stand in a folder name.
pub open spec fn all_folder_chars(text: Seq<char>) -> bool {
    forall|i: int| 0 <= i < text.len() ==> #[trigger] folder_name_char(text[i])
}

/// `c` with ASCII upper-case letters turned into lower-case ones.
pub open spec fn ascii_lower(c: char) -> char {
    if 'A' <= c <= 'Z' {
        ((c as u8) + 32u8) as u8 as char
    } else {
        c
    }
}

/// `s` with ASCII upper-case letters turned into lower-case ones.
pub open spec fn lower_case(s: Seq<char>) -> Seq<char> {
    s.map_values(|c: char| ascii_lower(c))
}

/// The character of a folder name that stands for `c` of a lower-cased plugin name.
pub open spec fn folder_char(c: char) -> char {
    if c == ' ' {
        '_'
    } else if c == '.' {
        '-'
    } else {
        c
    }
}

/// The folder name for a lower-cased plugin name: spaces become `_`, dots become `-`.
pub open spec fn folder_name(lowered: Seq<char>) -> Seq<char> {
    lowered.map_values(|c: char| folder_char(c))
}

/// `name` with ASCII upper-case letters turned into lower-case ones (`str::to_ascii_lowercase`).
pub fn to_ascii_lowercase(name: &str) -> (r: String)
    ensures
        r@ == lower_case(name@),
{
    let n = name.unicode_len();
    let mut r = String::new();
    let mut i: usize = 0;
    while i < n
        invariant
            n == name@.len(),
            i <= n,
            r@ == lower_case(name@.subrange(0, i as int)),
        decreases n - i,
    {
        let c = name.get_char(i);
        let l = if 'A' <= c && c <= 'Z' {
            ((c as u8) + 32u8) as char
        } else {
            c
        };
        push_char(&mut r, l);
        assert(name@.subrange(0, i + 1) =~= name@.subrange(0, i as int).push(c));
        assert(lower_case(name@.subrange(0, i + 1)) =~= lower_case(name@.subrange(0, i as int)).push(l));
        i = i + 1;
    }
    assert(name@.subrange(0, n as int) =~= name@);
    r
}

/// The folder name for the lower-cased name `lowered`, given whether `lowered` matched
/// the folder name pattern: `None` when it did not.
pub fn sanitize_matched_name(lowered: &str, matched: bool) -> (r: Option<String>)
    ensures
        match r {
            Some(s) => matched && s@ == folder_name(lowered@),
            None => !matched,
        },
{
    if !matched {
        return None;
    }
    let n = lowered.unicode_len();
    let mut r = String::new();
    let mut i: usize = 0;
    while i < n
        invariant
            n == lowered@.len(),
            i <= n,
            r@ == folder_name(lowered@.subrange(0, i as int)),
        decreases n - i,
    {
        let c = lowered.get_char(i);
        let f = if c == ' ' {
            '_'
        } else if c == '.' {
            '-'
        } else {
            c
        };
        push_char(&mut r, f);
        assert(lowered@.subrange(0, i + 1) =~= lowered@.subrange(0, i as int).push(c));
        assert(folder_name(lowered@.subrange(0, i + 1)) =~= folder_name(lowered@.subrange(0, i as int)).push(f));
        i = i + 1;
    }
    assert(lowered@.subrange(0, n as int) =~= lowered@);
    Some(r)
}

/// Sanitizes the given name to be used as a folder name.
///
/// This function returns `Some` if the name can be sanitized and
/// and `None` if it can't.
/// If it returns `Some`, this will contain the sanitized name.
///
/// A name can only be sanitized if the it solely consists of
/// ASCII characters.
pub fn sanitize_name(name: &str) -> (r: Option<String>)
    ensures
        match r {
            Some(s) => all_folder_chars(lower_case(name@)) && s@ == folder_name(lower_case(name@)),
            None => !all_folder_chars(lower_case(name@)),
        },
{
    let lowered = to_ascii_lowercase(name);
    let pattern = "^[a-z0-9 \\.]*$";
    proof {
        reveal_strlit("^[a-z0-9 \\.]*$");
    }
    match pattern_matches(pattern, lowered.as_str()) {
        Some(matched) => sanitize_matched_name(lowered.as_str(), matched),
        None => None,
    }
}

/// A folder name made from a plugin's name holds no space, no dot and no ASCII
/// upper-case letter, and has as many characters as the name.
pub proof fn lemma_folder_name_is_plain(name: Seq<char>)
    ensures
        folder_name(lower_case(name)).len() == name.len(),
        forall|i: int| 0 <= i < name.len() ==> {
            let c = #[trigger] folder_name(lower_case(name))[i];
            c != ' ' && c != '.' && !('A' <= c <= 'Z')
        },
{
    assert forall|i: int| 0 <= i < name.len() implies {
        let c = #[trigger] folder_name(lower_case(name))[i];
        c != ' ' && c != '.' && !('A' <= c <= 'Z')
    } by {
        let c = name[i];
        if 'A' <= c <= 'Z' {
            assert(((c as u8) + 32u8) as u8 >= 97u8);
        }
    }
}

} // verus!
