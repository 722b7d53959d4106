//! The native synthesis engine (sherpa-onnx): where it is published, where
//! it is installed, and how its executable is found.

use vstd::prelude::*;
use crate::error::BiboError;
use crate::layout::{join_path, path_join};
use crate::text::{chars_of, concat3, trim, trimmed};

verus! {

/// Version of the engine that is installed.
pub const SHERPA_VERSION: &'static str = "1.12.20";

/// The platforms the engine is published for.
#[derive(Clone, Copy, Debug, PartialEq, Eq, Structural)]
pub enum Platform {
    /// macOS, universal binary (arm64 and x86_64).
    MacOs,
    /// Linux on x86_64.
    LinuxX64,
    /// Linux on aarch64.
    LinuxAarch64,
}

/// The engine's release archive for a platform.
pub open spec fn download_url_of(p: Platform) -> Seq<char> {
    match p {
        Platform::MacOs => "https://github.com/k2-fsa/sherpa-onnx/releases/download/v1.12.20/sherpa-onnx-v1.12.20-osx-universal2-shared.tar.bz2"@,
        Platform::LinuxX64 => "https://github.com/k2-fsa/sherpa-onnx/releases/download/v1.12.20/sherpa-onnx-v1.12.20-linux-x64-shared.tar.bz2"@,
        Platform::LinuxAarch64 => "https://github.com/k2-fsa/sherpa-onnx/releases/download/v1.12.20/sherpa-onnx-v1.12.20-linux-aarch64-shared.tar.bz2"@,
    }
}

/// Where the engine's release archive for `platform` is published.
pub fn sherpa_download_url(platform: Platform) -> (r: &'static str)
    ensures
        r@ == download_url_of(platform),
{
    match platform {
        Platform::MacOs => "https://github.com/k2-fsa/sherpa-onnx/releases/download/v1.12.20/sherpa-onnx-v1.12.20-osx-universal2-shared.tar.bz2",
        Platform::LinuxX64 => "https://github.com/k2-fsa/sherpa-onnx/releases/download/v1.12.20/sherpa-onnx-v1.12.20-linux-x64-shared.tar.bz2",
        Platform::LinuxAarch64 => "https://github.com/k2-fsa/sherpa-onnx/releases/download/v1.12.20/sherpa-onnx-v1.12.20-linux-aarch64-shared.tar.bz2",
    }
}

/// `<root>/sherpa`.
pub open spec fn bin_dir_in(root: Seq<char>) -> Seq<char> {
    path_join(root, "sherpa"@)
}

/// `<root>/sherpa/bin/<name>`.
pub open spec fn executable_in(root: Seq<char>, name: Seq<char>) -> Seq<char> {
    path_join(path_join(bin_dir_in(root), "bin"@), name)
}

/// The engine's directory under the tool's directory `root`.
pub fn sherpa_bin_dir(root: &str) -> (r: String)
    ensures
        r@ == bin_dir_in(root@),
{
    join_path(root, "sherpa")
}

/// The engine's executable that synthesizes and plays.
pub fn sherpa_tts_play_path(root: &str) -> (r: String)
    ensures
        r@ == executable_in(root@, "sherpa-onnx-offline-tts-play"@),
{
    let d = sherpa_bin_dir(root);
    let b = join_path(d.as_str(), "bin");
    join_path(b.as_str(), "sherpa-onnx-offline-tts-play")
}

/// The engine's executable that synthesizes into a file.
pub fn sherpa_tts_path(root: &str) -> (r: String)
    ensures
        r@ == executable_in(root@, "sherpa-onnx-offline-tts"@),
{
    let d = sherpa_bin_dir(root);
    let b = join_path(d.as_str(), "bin");
    join_path(b.as_str(), "sherpa-onnx-offline-tts")
}

/// The engine's shared libraries.
pub fn sherpa_lib_dir(root: &str) -> (r: String)
    ensures
        r@ == path_join(bin_dir_in(root@), "lib"@),
{
    let d = sherpa_bin_dir(root);
    join_path(d.as_str(), "lib")
}

/// The variable through which the platform's loader finds shared libraries.
pub open spec fn library_var_of(p: Platform) -> Seq<char> {
    match p {
        Platform::MacOs => "DYLD_LIBRARY_PATH"@,
        _ => "LD_LIBRARY_PATH"@,
    }
}

/// The variable through which the loader of `platform` finds shared
/// libraries.
pub fn library_var(platform: Platform) -> (r: &'static str)
    ensures
        r@ == library_var_of(platform),
{
    match platform {
        Platform::MacOs => "DYLD_LIBRARY_PATH",
        _ => "LD_LIBRARY_PATH",
    }
}

/// The library search path with `lib_dir` in front of `current`.
pub open spec fn library_path_with(lib_dir: Seq<char>, current: Seq<char>) -> Seq<char> {
    if current.len() == 0 {
        lib_dir
    } else {
        lib_dir + ":"@ + current
    }
}

/// The environment the engine's executables run with: the loader's search
/// path, given its `current` value, with the engine's libraries first.
pub fn sherpa_env(root: &str, platform: Platform, current: &str) -> (r: Vec<(String, String)>)
    ensures
        r.len() == 1,
        r[0].0@ == library_var_of(platform),
        r[0].1@ == library_path_with(path_join(bin_dir_in(root@), "lib"@), current@),
{
    let lib = sherpa_lib_dir(root);
    let var = String::from_str(library_var(platform));
    let cur = chars_of(current);
    let value = if cur.len() == 0 {
        lib
    } else {
        concat3(lib.as_str(), ":", current)
    };
    let mut v: Vec<(String, String)> = Vec::new();
    v.push((var, value));
    v
}

/// Where to look for an engine executable, in order: the path an
/// environment variable names, the paths of a bundled install, the tool's
/// own directory.
pub fn binary_candidates(env_path: Option<String>, bundled: Vec<String>, user_path: String) -> (r:
    Vec<String>)
    ensures
        r.deep_view() == (match env_path.deep_view() {
            Some(p) => seq![p],
            None => Seq::<Seq<char>>::empty(),
        }) + bundled.deep_view() + seq![user_path@],
{
    let mut r: Vec<String> = Vec::new();
    let ghost e = match env_path.deep_view() {
        Some(p) => seq![p],
        None => Seq::<Seq<char>>::empty(),
    };
    match env_path {
        Some(p) => r.push(p),
        None => {},
    }
    assert(r.deep_view() =~= e);
    let mut i: usize = 0;
    while i < bundled.len()
        invariant
            i <= bundled.len(),
            r.deep_view() =~= e + bundled.deep_view().take(i as int),
        decreases bundled.len() - i,
    {
        let ghost before = r.deep_view();
        r.push(bundled[i].clone());
        assert(r.deep_view() =~= before.push(bundled.deep_view()[i as int]));
        assert(bundled.deep_view().take(i + 1) =~= bundled.deep_view().take(i as int).push(
            bundled.deep_view()[i as int],
        ));
        i = i + 1;
    }
    assert(bundled.deep_view().take(bundled.len() as int) =~= bundled.deep_view());
    let ghost before = r.deep_view();
    r.push(user_path);
    assert(r.deep_view() =~= before.push(user_path@));
    r
}

/// The first candidate that is present, else what the system's command
/// search printed (trimmed), else not found.
pub open spec fn located(candidates: Seq<Seq<char>>, present: Seq<bool>, on_path: Option<Seq<char>>) -> Result<Seq<char>, ()>
    decreases candidates.len(),
{
    if candidates.len() > 0 && present.len() > 0 {
        if present[0] {
            Ok(candidates[0])
        } else {
            located(candidates.drop_first(), present.drop_first(), on_path)
        }
    } else {
        match on_path {
            Some(o) => if trimmed(o).len() > 0 {
                Ok(trimmed(o))
            } else {
                Err(())
            },
            None => Err(()),
        }
    }
}

proof fn lemma_located_step(c: Seq<Seq<char>>, p: Seq<bool>, o: Option<Seq<char>>, i: int)
    requires
        0 <= i < c.len(),
        c.len() == p.len(),
        forall|k: int| 0 <= k < i ==> !p[k],
    ensures
        located(c, p, o) == located(c.subrange(i, c.len() as int), p.subrange(i, p.len() as int), o),
    decreases i,
{
    if i == 0 {
        assert(c.subrange(0, c.len() as int) == c);
        assert(p.subrange(0, p.len() as int) == p);
    } else {
        assert(c.drop_first().subrange(i - 1, c.len() - 1) == c.subrange(i, c.len() as int));
        assert(p.drop_first().subrange(i - 1, p.len() - 1) == p.subrange(i, p.len() as int));
        lemma_located_step(c.drop_first(), p.drop_first(), o, i - 1);
    }
}

proof fn lemma_located_none(c: Seq<Seq<char>>, p: Seq<bool>, o: Option<Seq<char>>)
    requires
        c.len() == p.len(),
        forall|k: int| 0 <= k < p.len() ==> !p[k],
    ensures
        located(c, p, o) == located(Seq::empty(), Seq::empty(), o),
    decreases c.len(),
{
    if c.len() > 0 {
        lemma_located_none(c.drop_first(), p.drop_first(), o);
    }
}

/// Finds an engine executable: the first of `candidates` that `present`
/// marks as existing, else the path the system's command search printed
/// (`on_path`, `None` when the search failed), else not found.
pub fn locate_binary(candidates: &Vec<String>, present: &Vec<bool>, on_path: Option<String>) -> (r:
    Result<String, BiboError>)
    requires
        candidates.len() == present.len(),
    ensures
        match located(candidates.deep_view(), present@, on_path.deep_view()) {
            Ok(p) => r matches Ok(s) && s@ == p,
            Err(_) => r == Err::<String, BiboError>(BiboError::SherpaNotFound),
        },
{
    let mut i: usize = 0;
    while i < candidates.len()
        invariant
            candidates.len() == present.len(),
            i <= candidates.len(),
            forall|k: int| 0 <= k < i ==> !present@[k],
        decreases candidates.len() - i,
    {
        if present[i] {
            proof {
                lemma_located_step(candidates.deep_view(), present@, on_path.deep_view(), i as int);
                assert(candidates.deep_view()[i as int] == candidates@[i as int]@);
            }
            return Ok(candidates[i].clone());
        }
        i = i + 1;
    }
    proof {
        lemma_located_none(candidates.deep_view(), present@, on_path.deep_view());
    }
    match on_path {
        Some(o) => {
            let t = trim(o.as_str());
            let tv = chars_of(t.as_str());
            if tv.len() > 0 {
                Ok(t)
            } else {
                Err(BiboError::SherpaNotFound)
            }
        },
        None => Err(BiboError::SherpaNotFound),
    }
}

/// Whether an engine executable can be found, as [`locate_binary`] looks.
pub fn sherpa_available(candidates: &Vec<String>, present: &Vec<bool>, on_path: Option<String>) -> (r: bool)
    requires
        candidates.len() == present.len(),
    ensures
        r == located(candidates.deep_view(), present@, on_path.deep_view()) is Ok,
{
    locate_binary(candidates, present, on_path).is_ok()
}

} // verus!
