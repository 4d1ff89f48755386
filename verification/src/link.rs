//! What cargo is told to link, and in which order.
//!
//! Static libraries are resolved in the order in which they are named, so each list here
//! is a sequence: a library stands before the libraries that it needs.

use crate::artifacts::Artifacts;
use crate::configure::TorBuild;
use crate::directives::{
    dynamic_lib, dynamic_lib_line, dynamic_libs, include_dir, include_dir_line, link_search,
    link_search_line, link_searches, push_dynamic_libs, push_link_searches, push_static_libs,
    rerun_if_changed, rerun_if_changed_line, static_lib, static_lib_line, static_libs,
};
use crate::paths::{display_path, join_path, joined_text, path_from_str, path_text};
use crate::text::{contains, has_text, lines, slice_of, split, split_on, starts_with, text_lines};
use std::path::PathBuf;
use vstd::prelude::*;

verus! {

/// The archives of libevent: the core and, except on Windows, its pthreads support.
pub open spec fn libevent_lib_names(target: Seq<char>) -> Seq<Seq<char>> {
    if has_text(target, "windows"@) {
        seq!["event"@]
    } else {
        seq!["event"@, "event_pthreads"@]
    }
}

/// The system libraries that Tor needs on Windows.
pub open spec fn windows_lib_names() -> Seq<Seq<char>> {
    seq!["crypt32"@, "iphlpapi"@, "ws2_32"@, "gdi32"@, "shell32"@, "ssp"@, "shlwapi"@]
}

/// The marker with which a compiler starts the line that lists its library directories.
pub open spec fn libraries_marker() -> Seq<char> {
    "libraries: ="@
}

/// The directories that one line of a compiler's answer names: those that follow the
/// marker, separated by colons; none where the line does not start with the marker.
pub open spec fn dirs_of_line(line: Seq<char>) -> Seq<Seq<char>> {
    if libraries_marker().is_prefix_of(line) {
        split_on(line.skip(libraries_marker().len() as int), ':')
    } else {
        seq![]
    }
}

/// The directories that the given lines name, in order.
pub open spec fn dirs_of_lines(lines: Seq<Seq<char>>) -> Seq<Seq<char>>
    decreases lines.len(),
{
    if lines.len() == 0 {
        seq![]
    } else {
        dirs_of_lines(lines.drop_last()) + dirs_of_line(lines.last())
    }
}

/// The library directories in a compiler's answer to `-print-search-dirs`.
pub open spec fn library_search_dirs(answer: Seq<char>) -> Seq<Seq<char>> {
    dirs_of_lines(text_lines(answer))
}

/// The names of libevent's archives for `target`, in link order.
pub fn libevent_libs(target: &str) -> (libs: Vec<String>)
    ensures
        libs.deep_view() == libevent_lib_names(target@),
{
    let mut libs: Vec<String> = Vec::new();
    libs.push(String::from_str("event"));
    if !contains(target, "windows") {
        libs.push(String::from_str("event_pthreads"));
    }
    proof {
        assert(libs.deep_view() == libevent_lib_names(target@));
    }
    libs
}

/// The directory under the output directory `out_dir` in which libevent is built.
pub fn libevent_root(out_dir: &str) -> (root: PathBuf)
    ensures
        path_text(root) == joined_text(out_dir@, "libevent"@),
{
    join_path(&path_from_str(out_dir), "libevent")
}

/// The artifacts of the libevent that was built for Tor under `root` and installed in
/// `installed`: the archives are in the installation, the headers under the build root.
pub fn libevent_artifacts(target: &str, installed: &PathBuf, root: &PathBuf) -> (found: Artifacts)
    ensures
        path_text(found.lib_dir) == joined_text(path_text(*installed), "lib"@),
        path_text(found.include_dir) == joined_text(path_text(*root), "include"@),
        found.libs.deep_view() == libevent_lib_names(target@),
{
    Artifacts {
        lib_dir: join_path(installed, "lib"),
        include_dir: join_path(root, "include"),
        libs: libevent_libs(target),
    }
}

/// The artifacts of a stand-alone libevent installed in `installed`: archives and headers
/// are both in the installation, and both archives are there.
pub fn libevent_sys_artifacts(installed: &PathBuf) -> (found: Artifacts)
    ensures
        path_text(found.lib_dir) == joined_text(path_text(*installed), "lib"@),
        path_text(found.include_dir) == joined_text(path_text(*installed), "include"@),
        found.libs.deep_view() == seq!["event"@, "event_pthreads"@],
{
    let mut libs: Vec<String> = Vec::new();
    libs.push(String::from_str("event"));
    libs.push(String::from_str("event_pthreads"));
    proof {
        assert(libs.deep_view() == seq!["event"@, "event_pthreads"@]);
    }
    Artifacts {
        lib_dir: join_path(installed, "lib"),
        include_dir: join_path(installed, "include"),
        libs,
    }
}

/// What cargo is told once libevent is built: on Windows the stack protector, which must
/// be linked statically, and then the artifacts.
pub open spec fn libevent_metadata(target: Seq<char>, found: Artifacts) -> Seq<Seq<char>> {
    (if has_text(target, "windows"@) {
        seq![static_lib("ssp"@)]
    } else {
        seq![]
    }) + found.metadata()
}

/// The lines to print for cargo once libevent is built, in order.
pub fn libevent_directives(target: &str, found: &Artifacts) -> (lines: Vec<String>)
    ensures
        lines.deep_view() == libevent_metadata(target@, *found),
{
    let mut lines: Vec<String> = Vec::new();
    if contains(target, "windows") {
        lines.push(static_lib_line("ssp"));
    }
    let ghost head = lines.deep_view();
    let mut rest = found.cargo_metadata();
    let ghost tail = rest.deep_view();
    lines.append(&mut rest);
    proof {
        assert(lines.deep_view() == head + tail);
    }
    lines
}

/// The library directories that a compiler names in its answer to `-print-search-dirs`,
/// in order. A line of the form `libraries: =<dir>:<dir>...` names them.
pub fn search_dirs(answer: &str) -> (dirs: Vec<String>)
    ensures
        dirs.deep_view() == library_search_dirs(answer@),
{
    let found = lines(answer);
    let marker = "libraries: =";
    let skip = marker.unicode_len();
    let mut dirs: Vec<String> = Vec::new();
    let mut i: usize = 0;
    while i < found.len()
        invariant
            i <= found.len(),
            marker@ == libraries_marker(),
            skip == marker@.len(),
            dirs.deep_view() == dirs_of_lines(found.deep_view().take(i as int)),
        decreases found.len() - i,
    {
        let line = found[i].as_str();
        let ghost so_far = dirs.deep_view();
        if starts_with(line, marker) {
            let rest = slice_of(line, skip, line.unicode_len());
            proof {
                assert(rest@ == line@.skip(skip as int));
            }
            let mut fields = split(rest.as_str(), ':');
            let ghost added = fields.deep_view();
            dirs.append(&mut fields);
            proof {
                assert(dirs.deep_view() == so_far + added);
            }
        }
        proof {
            let seen = found.deep_view().take(i + 1);
            assert(seen.drop_last() == found.deep_view().take(i as int));
            assert(seen.last() == line@);
            assert(dirs.deep_view() == so_far + dirs_of_line(line@));
        }
        i += 1;
    }
    proof {
        assert(found.deep_view().take(i as int) == found.deep_view());
    }
    dirs
}

impl TorBuild {
    /// What is linked for the compression libraries and zlib: each compression library
    /// that is there, statically, and the directory to search for zlib.
    pub open spec fn dependency_metadata(&self) -> Seq<Seq<char>> {
        (if self.lzma is Some {
            seq![static_lib("lzma"@)]
        } else {
            seq![]
        }) + (if self.zstd is Some {
            seq![static_lib("zstd"@)]
        } else {
            seq![]
        }) + seq![link_search(self.zlib_lib_dir())]
    }

    /// The directories to search for OpenSSL, where a static one is used, and for Tor,
    /// which was installed in `tor_dir`.
    pub open spec fn search_metadata(&self, tor_dir: Seq<char>) -> Seq<Seq<char>> {
        (match self.openssl_dir {
            Some(dir) => seq![link_search(joined_text(dir@, "lib/"@))],
            None => seq![],
        }) + seq![link_search(joined_text(tor_dir, "build/"@))]
    }

    /// The libraries of Tor in link order: libevent, zlib, Tor itself, then OpenSSL,
    /// static where a root was given and as the system has it otherwise.
    pub open spec fn library_metadata(&self) -> Seq<Seq<char>> {
        static_libs(libevent_lib_names(self.target@)) + seq![
            static_lib("z"@),
            static_lib("tor"@),
        ] + (if self.openssl_dir is Some {
            seq![static_lib("crypto"@), static_lib("ssl"@)]
        } else {
            seq![dynamic_lib("crypto"@), dynamic_lib("ssl"@)]
        })
    }

    /// What a Windows target needs besides: the compiler's own library directories, taken
    /// from its answer to `-print-search-dirs`, and the system libraries.
    pub open spec fn windows_metadata(&self, compiler_dirs: Seq<char>) -> Seq<Seq<char>> {
        if self.for_windows() {
            link_searches(library_search_dirs(compiler_dirs)) + dynamic_libs(
                windows_lib_names(),
            )
        } else {
            seq![]
        }
    }

    /// Everything that cargo is told about a Tor installed in `tor_dir`, in order.
    pub open spec fn metadata(&self, tor_dir: Seq<char>, compiler_dirs: Seq<char>) -> Seq<
        Seq<char>,
    > {
        self.dependency_metadata() + self.search_metadata(tor_dir) + self.library_metadata()
            + self.windows_metadata(compiler_dirs) + seq![
            include_dir(tor_dir + "/include"@),
            rerun_if_changed("build.rs"@),
        ]
    }

    fn push_dependencies(&self, lines: &mut Vec<String>)
        ensures
            final(lines).deep_view() == old(lines).deep_view() + self.dependency_metadata(),
    {
        if self.lzma.is_some() {
            lines.push(static_lib_line("lzma"));
        }
        if self.zstd.is_some() {
            lines.push(static_lib_line("zstd"));
        }
        let zlib = self.zlib_search_dir();
        lines.push(link_search_line(zlib.as_str()));
        proof {
            assert(lines.deep_view() == old(lines).deep_view() + self.dependency_metadata());
        }
    }

    fn push_searches(&self, lines: &mut Vec<String>, tor_dir: &str)
        ensures
            final(lines).deep_view() == old(lines).deep_view() + self.search_metadata(
                tor_dir@,
            ),
    {
        match &self.openssl_dir {
            Some(dir) => {
                let libs_at = display_path(&join_path(&path_from_str(dir.as_str()), "lib/"));
                lines.push(link_search_line(libs_at.as_str()));
            },
            None => {},
        }
        let built_at = display_path(&join_path(&path_from_str(tor_dir), "build/"));
        lines.push(link_search_line(built_at.as_str()));
        proof {
            assert(lines.deep_view() == old(lines).deep_view() + self.search_metadata(
                tor_dir@,
            ));
        }
    }

    fn push_libraries(&self, lines: &mut Vec<String>)
        ensures
            final(lines).deep_view() == old(lines).deep_view() + self.library_metadata(),
    {
        let event = libevent_libs(self.target.as_str());
        push_static_libs(lines, &event);
        let ghost with_event = lines.deep_view();
        lines.push(static_lib_line("z"));
        lines.push(static_lib_line("tor"));
        if self.openssl_dir.is_some() {
            lines.push(static_lib_line("crypto"));
            lines.push(static_lib_line("ssl"));
        } else {
            lines.push(dynamic_lib_line("crypto"));
            lines.push(dynamic_lib_line("ssl"));
        }
        proof {
            assert(lines.deep_view() == with_event + seq![
                static_lib("z"@),
                static_lib("tor"@),
            ] + (if self.openssl_dir is Some {
                seq![static_lib("crypto"@), static_lib("ssl"@)]
            } else {
                seq![dynamic_lib("crypto"@), dynamic_lib("ssl"@)]
            }));
            assert(lines.deep_view() == old(lines).deep_view() + self.library_metadata());
        }
    }

    fn push_windows(&self, lines: &mut Vec<String>, compiler_dirs: &str)
        ensures
            final(lines).deep_view() == old(lines).deep_view() + self.windows_metadata(
                compiler_dirs@,
            ),
    {
        if self.is_for_windows() {
            let dirs = search_dirs(compiler_dirs);
            push_link_searches(lines, &dirs);
            let mut libs: Vec<String> = Vec::new();
            libs.push(String::from_str("crypt32"));
            libs.push(String::from_str("iphlpapi"));
            libs.push(String::from_str("ws2_32"));
            libs.push(String::from_str("gdi32"));
            libs.push(String::from_str("shell32"));
            libs.push(String::from_str("ssp"));
            libs.push(String::from_str("shlwapi"));
            proof {
                assert(libs.deep_view() == windows_lib_names());
            }
            push_dynamic_libs(lines, &libs);
            proof {
                assert(lines.deep_view() == old(lines).deep_view() + self.windows_metadata(
                    compiler_dirs@,
                ));
            }
        } else {
            proof {
                assert(lines.deep_view() == old(lines).deep_view() + self.windows_metadata(
                    compiler_dirs@,
                ));
            }
        }
    }

    /// The lines to print for cargo about a Tor that was installed in `tor_dir`, in
    /// order. `compiler_dirs` is the compiler's answer to `-print-search-dirs`; it is
    /// read for a Windows target only.
    pub fn directives(&self, tor_dir: &str, compiler_dirs: &str) -> (lines: Vec<String>)
        ensures
            lines.deep_view() == self.metadata(tor_dir@, compiler_dirs@),
    {
        let mut lines: Vec<String> = Vec::new();
        proof {
            assert(lines.deep_view() + self.dependency_metadata() == self.dependency_metadata());
        }
        self.push_dependencies(&mut lines);
        self.push_searches(&mut lines, tor_dir);
        self.push_libraries(&mut lines);
        self.push_windows(&mut lines, compiler_dirs);
        let ghost body = lines.deep_view();
        let mut headers = String::from_str(tor_dir);
        headers.append("/include");
        lines.push(include_dir_line(headers.as_str()));
        lines.push(rerun_if_changed_line("build.rs"));
        proof {
            assert(lines.deep_view() == body + seq![
                include_dir(tor_dir@ + "/include"@),
                rerun_if_changed("build.rs"@),
            ]);
        }
        lines
    }
}

} // verus!
