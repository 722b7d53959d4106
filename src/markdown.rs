//! Text preparation: Markdown cleaned down to plain text, and the checks on
//! the text to speak.

use vstd::prelude::*;
use crate::error::BiboError;
use crate::text::{blank, is_blank, lower_of, same_text, to_lower, trim, trimmed};

verus! {

/// What `regex_lite` makes of `text` when every match of `pattern` is
/// replaced by `rep` (`None` when the pattern does not compile).
pub uninterp spec fn regex_replaced(pattern: Seq<char>, text: Seq<char>, rep: Seq<char>) -> Option<
    Seq<char>,
>;

/// Relies on `regex_lite::Regex::new` and `regex_lite::Regex::replace_all`:
/// compiling a pattern and replacing all its non-overlapping matches (with
/// `$1` standing for the first group) depends on the three texts alone.
#[verifier::external_body]
fn regex_replace_all(pattern: &str, text: &str, rep: &str) -> (r: Option<String>)
    ensures
        r.deep_view() == regex_replaced(pattern@, text@, rep@),
{
    regex_lite::Regex::new(pattern).ok().map(|re| re.replace_all(text, rep).into_owned())
}

/// `text` with every match of `pattern` replaced by `rep`, or unchanged if
/// the pattern does not compile.
pub open spec fn substituted(pattern: Seq<char>, text: Seq<char>, rep: Seq<char>) -> Seq<char> {
    match regex_replaced(pattern, text, rep) {
        Some(t) => t,
        None => text,
    }
}

fn substitute(pattern: &str, text: &str, rep: &str) -> (r: String)
    ensures
        r@ == substituted(pattern@, text@, rep@),
{
    match regex_replace_all(pattern, text, rep) {
        Some(t) => t,
        None => String::from_str(text),
    }
}

/// Markdown reduced to the text to be spoken: fenced code blocks dropped,
/// inline code, images and links reduced to their text, heading, emphasis
/// and list markers dropped, runs of three or more line breaks collapsed
/// to one blank line, and surrounding white space trimmed.
pub open spec fn cleaned(text: Seq<char>) -> Seq<char> {
    let t = substituted("```[\\s\\S]*?```"@, text, ""@);
    let t = substituted("`([^`]+)`"@, t, "$1"@);
    let t = substituted("!\\[([^\\]]*)\\]\\([^)]+\\)"@, t, "$1"@);
    let t = substituted("\\[([^\\]]+)\\]\\([^)]+\\)"@, t, "$1"@);
    let t = substituted("(?m)^#{1,6}[ \\t]+"@, t, ""@);
    let t = substituted("\\*\\*\\*([^*]+)\\*\\*\\*"@, t, "$1"@);
    let t = substituted("\\*\\*([^*]+)\\*\\*"@, t, "$1"@);
    let t = substituted("\\*([^*]+)\\*"@, t, "$1"@);
    let t = substituted("(?m)^[ \\t]*[-*+][ \\t]+"@, t, ""@);
    let t = substituted("(?m)^[ \\t]*\\d+\\.[ \\t]+"@, t, ""@);
    let t = substituted("\\n{3,}"@, t, "\n\n"@);
    trimmed(t)
}

/// Cleans Markdown for speaking.
pub fn clean_markdown(text: &str) -> (r: String)
    ensures
        r@ == cleaned(text@),
{
    let t = substitute("```[\\s\\S]*?```", text, "");
    let t = substitute("`([^`]+)`", t.as_str(), "$1");
    let t = substitute("!\\[([^\\]]*)\\]\\([^)]+\\)", t.as_str(), "$1");
    let t = substitute("\\[([^\\]]+)\\]\\([^)]+\\)", t.as_str(), "$1");
    let t = substitute("(?m)^#{1,6}[ \\t]+", t.as_str(), "");
    let t = substitute("\\*\\*\\*([^*]+)\\*\\*\\*", t.as_str(), "$1");
    let t = substitute("\\*\\*([^*]+)\\*\\*", t.as_str(), "$1");
    let t = substitute("\\*([^*]+)\\*", t.as_str(), "$1");
    let t = substitute("(?m)^[ \\t]*[-*+][ \\t]+", t.as_str(), "");
    let t = substitute("(?m)^[ \\t]*\\d+\\.[ \\t]+", t.as_str(), "");
    let t = substitute("\\n{3,}", t.as_str(), "\n\n");
    trim(t.as_str())
}

/// How an input file is read.
#[derive(Clone, Copy, Debug, PartialEq, Eq, Structural)]
pub enum TextFormat {
    /// Markdown, cleaned before speaking.
    Markdown,
    /// Plain text, spoken as it is.
    Plain,
}

/// The format an extension stands for, compared in lower case.
pub open spec fn format_is(ext: Seq<char>, r: Result<TextFormat, BiboError>) -> bool {
    let e = lower_of(ext);
    if e == "md"@ || e == "markdown"@ {
        r == Ok::<TextFormat, BiboError>(TextFormat::Markdown)
    } else if e == "txt"@ {
        r == Ok::<TextFormat, BiboError>(TextFormat::Plain)
    } else {
        r matches Err(BiboError::UnsupportedFileType(s)) && s@ == e
    }
}

/// The format of an input file with extension `ext` (empty when the file
/// has none): `.md` and `.markdown` are Markdown, `.txt` plain text, any
/// other extension is refused.
pub fn file_format(ext: &str) -> (r: Result<TextFormat, BiboError>)
    ensures
        format_is(ext@, r),
{
    let e = to_lower(ext);
    if same_text(e.as_str(), "md") || same_text(e.as_str(), "markdown") {
        Ok(TextFormat::Markdown)
    } else if same_text(e.as_str(), "txt") {
        Ok(TextFormat::Plain)
    } else {
        Err(BiboError::UnsupportedFileType(e))
    }
}

/// The text to speak from the contents of file `path`: cleaned if it is
/// Markdown; refused as empty if nothing but white space is left.
pub fn file_text(path: &str, format: TextFormat, content: &str) -> (r: Result<String, BiboError>)
    ensures
        ({
            let t = match format {
                TextFormat::Markdown => cleaned(content@),
                TextFormat::Plain => content@,
            };
            if blank(t) {
                r matches Err(BiboError::EmptyFile(p)) && p@ == path@
            } else {
                r matches Ok(s) && s@ == t
            }
        }),
{
    let t = match format {
        TextFormat::Markdown => clean_markdown(content),
        TextFormat::Plain => String::from_str(content),
    };
    if is_blank(t.as_str()) {
        Err(BiboError::EmptyFile(String::from_str(path)))
    } else {
        Ok(t)
    }
}

/// The text given on the command line: refused when absent or nothing but
/// white space.
pub fn argument_text(text: Option<String>) -> (r: Result<String, BiboError>)
    ensures
        match text {
            Some(t) => if blank(t@) {
                r == Err::<String, BiboError>(BiboError::NoTextProvided)
            } else {
                r matches Ok(s) && s@ == t@
            },
            None => r == Err::<String, BiboError>(BiboError::NoTextProvided),
        },
{
    match text {
        Some(t) => if is_blank(t.as_str()) {
            Err(BiboError::NoTextProvided)
        } else {
            Ok(t)
        },
        None => Err(BiboError::NoTextProvided),
    }
}

} // verus!
