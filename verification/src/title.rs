//! The title of the main window.

use vstd::prelude::*;
use vstd::string::*;

verus! {

/// The product's name, as shown to the user.
pub const PRODUCT_NAME: &'static str = "Zoo Databáze";

/// What stands between the product's name and the rest of the title.
pub const SEPARATOR: &'static str = " | ";

/// The word for "application" in the product's display language.
pub const APPLICATION_WORD: &'static str = "Aplikace";

/// What introduces the version.
pub const VERSION_MARK: &'static str = " v";

/// Everything in the title that comes before the version.
pub open spec fn title_prefix() -> Seq<char> {
    PRODUCT_NAME@ + SEPARATOR@ + APPLICATION_WORD@ + VERSION_MARK@
}

/// The title for a given version: the fixed prefix, then the version as it is.
pub open spec fn title_text(version: Seq<char>) -> Seq<char> {
    title_prefix() + version
}

/// Builds the main window's title for `version`.
///
/// The version is taken as an opaque piece of text: it is not parsed,
/// trimmed or validated, and it ends the title unchanged.
pub fn format_title(version: &str) -> (title: String)
    ensures
        title@ == title_text(version@),
{
    let mut title = String::from_str(PRODUCT_NAME);
    title.append(SEPARATOR);
    title.append(APPLICATION_WORD);
    title.append(VERSION_MARK);
    title.append(version);
    title
}

/// The title is the text `Zoo Databáze | Aplikace v` followed by the version:
/// the four parts of the prefix, put together, read exactly so.
pub proof fn lemma_title_reads(version: Seq<char>)
    ensures
        title_prefix() == "Zoo Databáze | Aplikace v"@,
        title_text(version) == "Zoo Databáze | Aplikace v"@ + version,
        title_prefix().len() == 25,
{
    reveal_strlit("Zoo Databáze");
    reveal_strlit(" | ");
    reveal_strlit("Aplikace");
    reveal_strlit(" v");
    reveal_strlit("Zoo Databáze | Aplikace v");
    assert(title_prefix() =~= "Zoo Databáze | Aplikace v"@);
}

/// The version survives untouched: the title is as long as the prefix and
/// the version together, and what follows the prefix is the version itself,
/// character for character.
pub proof fn lemma_title_keeps_version(version: Seq<char>)
    ensures
        title_text(version).len() == title_prefix().len() + version.len(),
        title_text(version).subrange(0, title_prefix().len() as int) == title_prefix(),
        title_text(version).subrange(
            title_prefix().len() as int,
            title_text(version).len() as int,
        ) == version,
{
    let prefix = title_prefix();
    let title = title_text(version);
    assert(title.subrange(0, prefix.len() as int) =~= prefix);
    assert(title.subrange(prefix.len() as int, title.len() as int) =~= version);
}

/// The title is a function of the version alone, and tells versions apart:
/// two versions give the same title exactly when they are the same version.
pub proof fn lemma_title_determined_by_version(first: Seq<char>, second: Seq<char>)
    ensures
        first == second <==> title_text(first) == title_text(second),
{
    lemma_title_keeps_version(first);
    lemma_title_keeps_version(second);
}

} // verus!
