//! Reserved device names: text that some platforms keep for devices.

use vstd::prelude::*;

verus! {

/// The reserved device names, in upper case.
pub const RESERVED_NAMES: [&'static str; 22] = [
    "AUX", "NUL", "PRN", "CON", "COM1", "COM2", "COM3", "COM4", "COM5", "COM6", "COM7", "COM8",
    "COM9", "LPT1", "LPT2", "LPT3", "LPT4", "LPT5", "LPT6", "LPT7", "LPT8", "LPT9",
];

/// The upper-case form of an ASCII lower-case letter; any other character
/// unchanged.
pub open spec fn ascii_upper(c: char) -> char {
    if 'a' <= c && c <= 'z' {
        ((c as u8) - 32) as char
    } else {
        c
    }
}

/// The text with its ASCII lower-case letters in upper case.
pub open spec fn to_ascii_uppercase(text: Seq<char>) -> Seq<char> {
    text.map_values(|c: char| ascii_upper(c))
}

/// Whether the whole text, in upper case, is one of the reserved names.
pub open spec fn is_reserved_text(text: Seq<char>) -> bool {
    exists|i: int| 0 <= i < 22 && #[trigger] RESERVED_NAMES[i]@ == to_ascii_uppercase(text)
}

fn upper(c: char) -> (u: char)
    ensures
        u == ascii_upper(c),
{
    if 'a' <= c && c <= 'z' {
        ((c as u8) - 32) as char
    } else {
        c
    }
}

/// Whether `path`, with its ASCII lower-case letters in upper case, is `name`.
fn is_name(path: &str, name: &str) -> (same: bool)
    ensures
        same == (to_ascii_uppercase(path@) == name@),
{
    let n = name.unicode_len();
    if path.unicode_len() != n {
        return false;
    }
    let mut j: usize = 0;
    while j < n
        invariant
            j <= n,
            n == name@.len(),
            n == path@.len(),
            forall|k: int| 0 <= k < j ==> ascii_upper(path@[k]) == name@[k],
        decreases n - j,
    {
        if upper(path.get_char(j)) != name.get_char(j) {
            return false;
        }
        j += 1;
    }
    assert(to_ascii_uppercase(path@) =~= name@);
    true
}

/// The place of `path` in the table of reserved names, if it is one of them.
fn find_reserved(path: &str) -> (found: Option<usize>)
    ensures
        found is Some <==> is_reserved_text(path@),
        found matches Some(i) ==> i < 22 && RESERVED_NAMES[i as int]@ == to_ascii_uppercase(path@),
{
    let mut i: usize = 0;
    while i < 22
        invariant
            i <= 22,
            forall|k: int| 0 <= k < i ==> RESERVED_NAMES[k]@ != to_ascii_uppercase(path@),
        decreases 22 - i,
    {
        if is_name(path, RESERVED_NAMES[i]) {
            return Some(i);
        }
        i += 1;
    }
    None
}

/// The reserved names that a platform knows.
///
/// Every platform answers the same question, whether a path is a reserved
/// name; a platform without reserved names answers no to every path.
#[derive(Clone, Copy, Debug, PartialEq, Eq, Structural)]
pub enum ReservedNameMatcher {
    /// The platform reserves the names of the DOS devices.
    DosDevices,
    /// The platform reserves no name.
    Inert,
}

impl ReservedNameMatcher {
    /// Whether the whole text is a name that this platform reserves.
    pub open spec fn reserves(self, text: Seq<char>) -> bool {
        self is DosDevices && is_reserved_text(text)
    }

    /// A platform without reserved names reserves no text.
    pub proof fn lemma_inert_reserves_nothing(text: Seq<char>)
        ensures
            !ReservedNameMatcher::Inert.reserves(text),
    {
    }

    /// The reserved name that `path` is, in upper case, if this platform
    /// reserves it.
    ///
    /// Only the whole path counts: a reserved name inside a longer path is
    /// not one.
    pub fn reserved_name(&self, path: &str) -> (name: Option<&'static str>)
        ensures
            name is Some <==> self.reserves(path@),
            name matches Some(n) ==> n@ == to_ascii_uppercase(path@),
    {
        match self {
            ReservedNameMatcher::DosDevices => match find_reserved(path) {
                Some(i) => Some(RESERVED_NAMES[i]),
                None => None,
            },
            ReservedNameMatcher::Inert => None,
        }
    }

    /// Whether the whole of `path` is a name that this platform reserves.
    pub fn matches(&self, path: &str) -> (hit: bool)
        ensures
            hit == self.reserves(path@),
    {
        self.reserved_name(path).is_some()
    }
}

/// Whether the whole of `path`, compared without regard to ASCII case, is a
/// name that the platform of `matcher` reserves.
pub fn is_reserved_path(path: &str, matcher: &ReservedNameMatcher) -> (reserved: bool)
    ensures
        reserved == matcher.reserves(path@),
{
    matcher.matches(path)
}

/// Putting a text in upper case twice is putting it in upper case once.
pub proof fn lemma_upper_case_is_stable(text: Seq<char>)
    ensures
        to_ascii_uppercase(to_ascii_uppercase(text)) == to_ascii_uppercase(text),
{
    assert forall|c: char| ascii_upper(ascii_upper(c)) == ascii_upper(c) by {
        if 'a' <= c && c <= 'z' {
            assert(ascii_upper(c) as u8 == (c as u8) - 32);
        }
    }
    assert(to_ascii_uppercase(to_ascii_uppercase(text)) =~= to_ascii_uppercase(text));
}

/// A text is reserved in whatever case it is written, and its upper-case
/// form is reserved with it.
pub proof fn lemma_reserved_in_any_case(text: Seq<char>)
    ensures
        is_reserved_text(text) == is_reserved_text(to_ascii_uppercase(text)),
{
    lemma_upper_case_is_stable(text);
}

/// A reserved text is three or four characters long and holds no path
/// separator: a reserved name inside a longer path is not reserved text.
pub proof fn lemma_reserved_text_is_one_name(text: Seq<char>)
    requires
        is_reserved_text(text),
    ensures
        text.len() == 3 || text.len() == 4,
        forall|k: int| 0 <= k < text.len() ==> text[k] != '/' && text[k] != '\\',
{
    reveal_strlit("AUX");
    reveal_strlit("NUL");
    reveal_strlit("PRN");
    reveal_strlit("CON");
    reveal_strlit("COM1");
    reveal_strlit("COM2");
    reveal_strlit("COM3");
    reveal_strlit("COM4");
    reveal_strlit("COM5");
    reveal_strlit("COM6");
    reveal_strlit("COM7");
    reveal_strlit("COM8");
    reveal_strlit("COM9");
    reveal_strlit("LPT1");
    reveal_strlit("LPT2");
    reveal_strlit("LPT3");
    reveal_strlit("LPT4");
    reveal_strlit("LPT5");
    reveal_strlit("LPT6");
    reveal_strlit("LPT7");
    reveal_strlit("LPT8");
    reveal_strlit("LPT9");
    let i = choose|i: int| 0 <= i < 22 && #[trigger] RESERVED_NAMES[i]@ == to_ascii_uppercase(text);
    let name = RESERVED_NAMES[i]@;
    assert(name.len() == 3 || name.len() == 4);
    assert forall|k: int| 0 <= k < text.len() implies text[k] != '/' && text[k] != '\\' by {
        assert(name[k] != '/' && name[k] != '\\');
    }
}

} // verus!
