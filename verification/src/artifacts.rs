//! What a finished native build leaves behind.

use crate::directives::{
    include_dir, include_dir_line, lib_dir, lib_dir_line, link_search, link_search_line,
    push_static_libs, static_libs,
};
use crate::paths::{display_path, path_text};
use std::path::PathBuf;
use vstd::prelude::*;

verus! {

/// The directories and libraries of one native package that was built.
pub struct Artifacts {
    /// Where its headers are.
    pub include_dir: PathBuf,
    /// Where its static archives are.
    pub lib_dir: PathBuf,
    /// The names of the archives, in link order, without prefix or extension.
    pub libs: Vec<String>,
}

impl Artifacts {
    /// The lines that announce these artifacts to cargo: the search directory, one line
    /// for each library in order, then the include and library directories.
    pub open spec fn metadata(&self) -> Seq<Seq<char>> {
        seq![link_search(path_text(self.lib_dir))] + static_libs(self.libs.deep_view()) + seq![
            include_dir(path_text(self.include_dir)),
            lib_dir(path_text(self.lib_dir)),
        ]
    }

    /// The lines to print for cargo, in the order in which they are to be printed.
    pub fn cargo_metadata(&self) -> (lines: Vec<String>)
        ensures
            lines.deep_view() == self.metadata(),
    {
        let libs_at = display_path(&self.lib_dir);
        let headers_at = display_path(&self.include_dir);
        let mut lines: Vec<String> = Vec::new();
        lines.push(link_search_line(libs_at.as_str()));
        proof {
            assert(lines.deep_view() == seq![link_search(path_text(self.lib_dir))]);
        }
        push_static_libs(&mut lines, &self.libs);
        let ghost so_far = lines.deep_view();
        lines.push(include_dir_line(headers_at.as_str()));
        lines.push(lib_dir_line(libs_at.as_str()));
        proof {
            assert(lines.deep_view() == so_far + seq![
                include_dir(path_text(self.include_dir)),
                lib_dir(path_text(self.lib_dir)),
            ]);
        }
        lines
    }
}

} // verus!
