//! The non-destructive write policy: an output file may be overwritten only
//! when its first line is the autogeneration sentinel, so the tool never
//! clobbers a file a user created or edited by hand.
use vstd::prelude::*;

verus! {

/// The sentinel comment written as the first line of every generated file.
pub const AUTOGEN_JSON: &'static str =
    "// WARNING: autogenerated by cargo-vsc, may be overwritten if this comment remains!";

/// The sentinel as a sequence of characters, for contracts.
pub open spec fn sentinel() -> Seq<char> {
    AUTOGEN_JSON@
}

/// What str::trim returns: the string with leading and trailing whitespace
/// removed.
pub uninterp spec fn trim_of(s: Seq<char>) -> Seq<char>;

/// An ASCII character that is printable and not a space; such a character is
/// never whitespace.
pub open spec fn ascii_graphic(c: char) -> bool {
    0x21 <= c as u32 && c as u32 <= 0x7e
}

/// Relies on str::trim: it removes leading and trailing whitespace and
/// nothing else, so a nonempty string whose first and last characters are
/// ASCII graphic characters is returned unchanged.
#[verifier::external_body]
pub(crate) fn trim_line(s: &str) -> (r: String)
    ensures
        r@ == trim_of(s@),
        (s@.len() > 0 && ascii_graphic(s@[0]) && ascii_graphic(s@[s@.len() - 1])) ==> r@ == s@,
{
    s.trim().to_owned()
}

/// Decides, from an already-trimmed first line, whether the file that begins
/// with it was generated by this tool and may therefore be replaced.
pub fn line_allows_overwrite(trimmed_line: &str) -> (r: bool)
    ensures
        r == (trimmed_line@ == sentinel()),
{
    let sentinel_owned: String = AUTOGEN_JSON.to_owned();
    let line_owned: String = trimmed_line.to_owned();
    line_owned == sentinel_owned
}

/// The errors a run can report.
pub enum GenError {
    /// The external metadata query could not be launched or failed.
    MetadataUnavailable,
    /// The metadata query's output was not text or did not match the schema.
    MalformedMetadata,
    /// The configuration directory or its ignore marker could not be created.
    DirectoryBootstrapFailed,
    /// An output file exists and its first line is not the sentinel.
    UserFileConflict,
    /// Any other failure while writing an output document.
    WriteFailed,
}

/// The write policy on a file whose first line (if the file exists and is
/// nonempty) is given: overwriting is allowed unless that line, trimmed,
/// differs from the sentinel.
pub open spec fn spec_overwrite_allowed(first_line: Option<&String>) -> bool {
    match first_line {
        Option::None => true,
        Option::Some(l) => trim_of(l@) == sentinel(),
    }
}

/// The single safety decision of the writer: given the first line of an
/// existing target file (or nothing, when the file is absent or empty),
/// allow generation or refuse with a conflict. A first line that is exactly
/// the sentinel is always accepted.
pub fn open_decision(first_line: Option<&String>) -> (r: Result<(), GenError>)
    ensures
        r is Ok <==> spec_overwrite_allowed(first_line),
        r is Err ==> r->Err_0 is UserFileConflict,
        (first_line matches Option::Some(l) && l@ == sentinel()) ==> r is Ok,
{
    match first_line {
        Option::None => Ok(()),
        Option::Some(l) => {
            proof {
                reveal_strlit(
                    "// WARNING: autogenerated by cargo-vsc, may be overwritten if this comment remains!",
                );
            }
            let t = trim_line(l.as_str());
            if line_allows_overwrite(t.as_str()) {
                Ok(())
            } else {
                Err(GenError::UserFileConflict)
            }
        },
    }
}

/// How many characters the first line of the text holds, the line break
/// excluded.
pub open spec fn first_line_len(s: Seq<char>) -> int
    decreases s.len(),
{
    if s.len() == 0 {
        0
    } else if s[0] == '\n' {
        0
    } else {
        1 + first_line_len(s.drop_first())
    }
}

/// The first line of the text, without its line break.
pub open spec fn first_line_of(s: Seq<char>) -> Seq<char> {
    s.take(first_line_len(s))
}

/// A text made of one line without line breaks, a line break, and anything
/// after it has that line as its first line.
pub proof fn lemma_first_line_of_concat(line: Seq<char>, rest: Seq<char>)
    requires
        forall|i: int| 0 <= i < line.len() ==> line[i] != '\n',
        rest.len() > 0,
        rest[0] == '\n',
    ensures
        first_line_len(line + rest) == line.len(),
        first_line_of(line + rest) == line,
    decreases line.len(),
{
    if line.len() == 0 {
        assert(line + rest =~= rest);
    } else {
        assert((line + rest).drop_first() =~= line.drop_first() + rest);
        lemma_first_line_of_concat(line.drop_first(), rest);
    }
    assert((line + rest).take(line.len() as int) =~= line);
}

/// The sentinel contains no line break.
pub proof fn lemma_sentinel_has_no_line_break()
    ensures
        forall|i: int| 0 <= i < sentinel().len() ==> sentinel()[i] != '\n',
{
    reveal_strlit(
        "// WARNING: autogenerated by cargo-vsc, may be overwritten if this comment remains!",
    );
}

} // verus!
