//! Where the tool keeps its files: paths are texts joined with `/`, under a
//! per-user application directory.

use vstd::prelude::*;
use crate::text::{concat, concat3, chars_of};

verus! {

/// `part` appended to `base` with one `/` between them.
pub open spec fn path_join(base: Seq<char>, part: Seq<char>) -> Seq<char> {
    if base.len() == 0 {
        part
    } else if base.last() == '/' {
        base + part
    } else {
        base + seq!['/'] + part
    }
}

/// Appends the relative path `part` to `base`.
pub fn join_path(base: &str, part: &str) -> (r: String)
    ensures
        r@ == path_join(base@, part@),
{
    let b = chars_of(base);
    if b.len() == 0 {
        String::from_str(part)
    } else if b[b.len() - 1] == '/' {
        concat(base, part)
    } else {
        proof {
            reveal_strlit("/");
        }
        concat3(base, "/", part)
    }
}

/// The tool's own directory inside the per-user data directory, or inside
/// the working directory when there is none.
pub open spec fn app_root_in(data_dir: Option<Seq<char>>) -> Seq<char> {
    match data_dir {
        Some(d) => path_join(d, "bibo"@),
        None => path_join("."@, "bibo"@),
    }
}

/// The tool's directory for a given per-user data directory.
pub fn app_root_from(data_dir: Option<String>) -> (r: String)
    ensures
        r@ == app_root_in(data_dir.deep_view()),
{
    match data_dir {
        Some(d) => join_path(d.as_str(), "bibo"),
        None => join_path(".", "bibo"),
    }
}

/// Relies on `dirs::data_dir`: the platform's per-user data directory, if it
/// can be determined (it depends on the environment, so nothing more is said).
#[verifier::external_body]
fn user_data_dir() -> (r: Option<String>) {
    dirs::data_dir().map(|p| p.to_string_lossy().into_owned())
}

/// The tool's directory for the current user.
pub fn app_root() -> (r: String)
    ensures
        exists|d: Option<Seq<char>>| r@ == app_root_in(d),
{
    let d = user_data_dir();
    let ghost w = d.deep_view();
    let r = app_root_from(d);
    assert(r@ == app_root_in(w));
    r
}

} // verus!
