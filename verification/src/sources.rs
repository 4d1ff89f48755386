//! Where the sources of the bundled packages are, and how they are staged for a build.

use crate::directives::{rerun_if_changed, rerun_if_changed_line, rustc_env, rustc_env_line};
use crate::paths::{
    display_path, join_path, joined_text, parent_dir, parent_text, path_from_str, path_text,
};
use crate::text::{lemma_split_on_len, split, split_on, starts_with};
use std::path::PathBuf;
use vstd::prelude::*;

verus! {

/// The name of a source directory: the package, a hyphen, the version.
pub open spec fn dir_name(package: Seq<char>, version: Seq<char>) -> Seq<char> {
    package + "-"@ + version
}

/// The name of the directory that holds the sources of `package` at `version`.
pub fn source_dir_name(package: &str, version: &str) -> (name: String)
    ensures
        name@ == dir_name(package@, version@),
{
    let mut name = String::from_str(package);
    name.append("-");
    name.append(version);
    name
}

/// The directory below `var` that holds the sources of `package` at `version`.
pub fn source_dir(var: &str, package: &str, version: &str) -> (dir: PathBuf)
    ensures
        path_text(dir) == joined_text(var@, dir_name(package@, version@)),
{
    let name = source_dir_name(package, version);
    join_path(&path_from_str(var), name.as_str())
}

/// The version of the bundled package inside a full version of the form
/// `<own version>+<bundled version>`: the second of the fields that `+` separates.
pub fn get_version(full_version: &str) -> (version: String)
    requires
        full_version@.contains('+'),
    ensures
        version@ == split_on(full_version@, '+')[1],
{
    proof {
        lemma_split_on_len(full_version@, '+');
    }
    let parts = split(full_version, '+');
    assert(parts.deep_view()[1] == parts[1]@);
    parts[1].clone()
}

/// The version of the bundled package inside `full_version`, or `None` where
/// `full_version` names none because it holds no `+`.
pub fn find_version(full_version: &str) -> (version: Option<String>)
    ensures
        match version {
            Some(found) => full_version@.contains('+') && found@ == split_on(
                full_version@,
                '+',
            )[1],
            None => !full_version@.contains('+'),
        },
{
    proof {
        lemma_split_on_len(full_version@, '+');
    }
    let parts = split(full_version, '+');
    if parts.len() >= 2 {
        assert(parts.deep_view()[1] == parts[1]@);
        Some(parts[1].clone())
    } else {
        None
    }
}

/// The directory that holds the staged sources of libevent, from the value that staging
/// left in `LIBEVENT_SRC`.
pub fn get_libevent_dir(libevent_src: &str) -> (dir: PathBuf)
    ensures
        path_text(dir) == libevent_src@,
{
    path_from_str(libevent_src)
}

/// The directory that holds the staged sources of Tor, from the value that staging left
/// in `TOR_SRC`.
pub fn get_tor_dir(tor_src: &str) -> (dir: PathBuf)
    ensures
        path_text(dir) == tor_src@,
{
    path_from_str(tor_src)
}

/// The places of one source tree that is staged for a build.
pub struct Staging {
    /// The tree as it was shipped, which is left untouched.
    pub shipped: PathBuf,
    /// The directory into which the tree is copied.
    pub root: PathBuf,
    /// The copy itself, which is patched and built.
    pub copy: PathBuf,
}

/// Where the source tree `name`, shipped in `manifest_dir`, is staged under `out_dir`:
/// it is copied into a directory of its own name, so the copy lies two levels down.
pub fn stage(manifest_dir: &str, out_dir: &str, name: &str) -> (staging: Staging)
    ensures
        path_text(staging.shipped) == joined_text(manifest_dir@, name@),
        path_text(staging.root) == joined_text(out_dir@, name@),
        path_text(staging.copy) == joined_text(joined_text(out_dir@, name@), name@),
{
    let shipped = join_path(&path_from_str(manifest_dir), name);
    let root = join_path(&path_from_str(out_dir), name);
    let copy = join_path(&root, name);
    Staging { shipped, root, copy }
}

/// The directory of the patches that are shipped in `manifest_dir`.
pub fn patches_dir(manifest_dir: &str) -> (dir: PathBuf)
    ensures
        path_text(dir) == joined_text(manifest_dir@, "patches"@),
{
    join_path(&path_from_str(manifest_dir), "patches")
}

/// Whether the patch file `file_name` is one for the package whose patches start with
/// `prefix`.
pub fn is_patch_for(file_name: &str, prefix: &str) -> (yes: bool)
    ensures
        yes == prefix@.is_prefix_of(file_name@),
{
    starts_with(file_name, prefix)
}

/// How a helper command ended: well if it reported success, and otherwise with what it
/// wrote to its error stream.
pub fn command_result(success: bool, stderr: String) -> (result: Result<(), String>)
    ensures
        success ==> result is Ok,
        !success ==> result == Err::<(), String>(stderr),
{
    if success {
        Ok(())
    } else {
        Err(stderr)
    }
}

/// What cargo is told once the sources are staged: where they are, and what to watch.
pub open spec fn staged_metadata(libevent: Seq<char>, tor: Seq<char>) -> Seq<Seq<char>> {
    seq![
        rustc_env("LIBEVENT_SRC"@, libevent),
        rustc_env("TOR_SRC"@, tor),
        rerun_if_changed("build.rs"@),
        rerun_if_changed("tor-src"@),
        rerun_if_changed("libevent-src"@),
    ]
}

/// The lines to print for cargo once the sources of libevent and Tor are staged, in order.
pub fn staged_directives(libevent: &PathBuf, tor: &PathBuf) -> (lines: Vec<String>)
    ensures
        lines.deep_view() == staged_metadata(path_text(*libevent), path_text(*tor)),
{
    let mut lines: Vec<String> = Vec::new();
    lines.push(rustc_env_line("LIBEVENT_SRC", display_path(libevent).as_str()));
    lines.push(rustc_env_line("TOR_SRC", display_path(tor).as_str()));
    lines.push(rerun_if_changed_line("build.rs"));
    lines.push(rerun_if_changed_line("tor-src"));
    lines.push(rerun_if_changed_line("libevent-src"));
    proof {
        assert(lines.deep_view() == staged_metadata(path_text(*libevent), path_text(*tor)));
    }
    lines
}

/// The directory of an Android toolchain that holds zlib, from the compiler's answer to
/// `--print-file-name libz.a`: the parent of the path that it names, if it has one.
pub fn sysroot_lib_dir(answer: &str) -> (dir: Option<String>)
    ensures
        match dir {
            Some(text) => parent_text(answer@) == Some(text@),
            None => parent_text(answer@) is None,
        },
{
    match parent_dir(&path_from_str(answer)) {
        Some(parent) => Some(display_path(&parent)),
        None => None,
    }
}

} // verus!
