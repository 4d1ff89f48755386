//! The lines by which a build script tells cargo how to link.

use vstd::prelude::*;

verus! {

/// The line that adds `dir` to the directories searched for native libraries.
pub open spec fn link_search(dir: Seq<char>) -> Seq<char> {
    "cargo:rustc-link-search=native="@ + dir
}

/// The line that links the static library `name`.
pub open spec fn static_lib(name: Seq<char>) -> Seq<char> {
    "cargo:rustc-link-lib=static="@ + name
}

/// The line that links the library `name` in whatever form the linker finds.
pub open spec fn dynamic_lib(name: Seq<char>) -> Seq<char> {
    "cargo:rustc-link-lib="@ + name
}

/// The line that hands `dir` to dependent packages as the include directory.
pub open spec fn include_dir(dir: Seq<char>) -> Seq<char> {
    "cargo:include="@ + dir
}

/// The line that hands `dir` to dependent packages as the library directory.
pub open spec fn lib_dir(dir: Seq<char>) -> Seq<char> {
    "cargo:lib="@ + dir
}

/// The line that has the script run again when `path` changes.
pub open spec fn rerun_if_changed(path: Seq<char>) -> Seq<char> {
    "cargo:rerun-if-changed="@ + path
}

/// The line that sets the variable `name` to `value` while the package is compiled.
pub open spec fn rustc_env(name: Seq<char>, value: Seq<char>) -> Seq<char> {
    "cargo:rustc-env="@ + name + "="@ + value
}

/// Each library name of `names` as the line that links it statically, in order.
pub open spec fn static_libs(names: Seq<Seq<char>>) -> Seq<Seq<char>> {
    Seq::new(names.len(), |i: int| static_lib(names[i]))
}

/// Each library name of `names` as the line that links it, in order.
pub open spec fn dynamic_libs(names: Seq<Seq<char>>) -> Seq<Seq<char>> {
    Seq::new(names.len(), |i: int| dynamic_lib(names[i]))
}

/// Each directory of `dirs` as the line that adds it to the search path, in order.
pub open spec fn link_searches(dirs: Seq<Seq<char>>) -> Seq<Seq<char>> {
    Seq::new(dirs.len(), |i: int| link_search(dirs[i]))
}

/// `prefix` followed by `text`.
pub fn prefixed(prefix: &str, text: &str) -> (line: String)
    ensures
        line@ == prefix@ + text@,
{
    String::from_str(prefix).concat(text)
}

/// The line that adds `dir` to the directories searched for native libraries.
pub fn link_search_line(dir: &str) -> (line: String)
    ensures
        line@ == link_search(dir@),
{
    prefixed("cargo:rustc-link-search=native=", dir)
}

/// The line that links the static library `name`.
pub fn static_lib_line(name: &str) -> (line: String)
    ensures
        line@ == static_lib(name@),
{
    prefixed("cargo:rustc-link-lib=static=", name)
}

/// The line that links the library `name` in whatever form the linker finds.
pub fn dynamic_lib_line(name: &str) -> (line: String)
    ensures
        line@ == dynamic_lib(name@),
{
    prefixed("cargo:rustc-link-lib=", name)
}

/// The line that hands `dir` to dependent packages as the include directory.
pub fn include_dir_line(dir: &str) -> (line: String)
    ensures
        line@ == include_dir(dir@),
{
    prefixed("cargo:include=", dir)
}

/// The line that hands `dir` to dependent packages as the library directory.
pub fn lib_dir_line(dir: &str) -> (line: String)
    ensures
        line@ == lib_dir(dir@),
{
    prefixed("cargo:lib=", dir)
}

/// The line that has the script run again when `path` changes.
pub fn rerun_if_changed_line(path: &str) -> (line: String)
    ensures
        line@ == rerun_if_changed(path@),
{
    prefixed("cargo:rerun-if-changed=", path)
}

/// The line that sets the variable `name` to `value` while the package is compiled.
pub fn rustc_env_line(name: &str, value: &str) -> (line: String)
    ensures
        line@ == rustc_env(name@, value@),
{
    let mut line = prefixed("cargo:rustc-env=", name);
    line.append("=");
    line.append(value);
    line
}

/// Appends to `lines` the line that links each library of `names` statically.
pub fn push_static_libs(lines: &mut Vec<String>, names: &Vec<String>)
    ensures
        final(lines).deep_view() == old(lines).deep_view() + static_libs(names.deep_view()),
{
    let ghost before = lines.deep_view();
    let mut i: usize = 0;
    while i < names.len()
        invariant
            i <= names.len(),
            lines.deep_view() == before + static_libs(names.deep_view()).take(i as int),
        decreases names.len() - i,
    {
        let ghost so_far = lines.deep_view();
        lines.push(static_lib_line(names[i].as_str()));
        proof {
            assert(lines.deep_view() == so_far.push(static_lib(names[i as int]@)));
            assert(static_libs(names.deep_view()).take(i + 1) == static_libs(
                names.deep_view(),
            ).take(i as int).push(static_lib(names[i as int]@)));
        }
        i += 1;
    }
    proof {
        assert(static_libs(names.deep_view()).take(i as int) == static_libs(names.deep_view()));
    }
}

/// Appends to `lines` the line that links each library of `names`.
pub fn push_dynamic_libs(lines: &mut Vec<String>, names: &Vec<String>)
    ensures
        final(lines).deep_view() == old(lines).deep_view() + dynamic_libs(names.deep_view()),
{
    let ghost before = lines.deep_view();
    let mut i: usize = 0;
    while i < names.len()
        invariant
            i <= names.len(),
            lines.deep_view() == before + dynamic_libs(names.deep_view()).take(i as int),
        decreases names.len() - i,
    {
        let ghost so_far = lines.deep_view();
        lines.push(dynamic_lib_line(names[i].as_str()));
        proof {
            assert(lines.deep_view() == so_far.push(dynamic_lib(names[i as int]@)));
            assert(dynamic_libs(names.deep_view()).take(i + 1) == dynamic_libs(
                names.deep_view(),
            ).take(i as int).push(dynamic_lib(names[i as int]@)));
        }
        i += 1;
    }
    proof {
        assert(dynamic_libs(names.deep_view()).take(i as int) == dynamic_libs(
            names.deep_view(),
        ));
    }
}

/// Appends to `lines` the line that adds each directory of `dirs` to the search path.
pub fn push_link_searches(lines: &mut Vec<String>, dirs: &Vec<String>)
    ensures
        final(lines).deep_view() == old(lines).deep_view() + link_searches(dirs.deep_view()),
{
    let ghost before = lines.deep_view();
    let mut i: usize = 0;
    while i < dirs.len()
        invariant
            i <= dirs.len(),
            lines.deep_view() == before + link_searches(dirs.deep_view()).take(i as int),
        decreases dirs.len() - i,
    {
        let ghost so_far = lines.deep_view();
        lines.push(link_search_line(dirs[i].as_str()));
        proof {
            assert(lines.deep_view() == so_far.push(link_search(dirs[i as int]@)));
            assert(link_searches(dirs.deep_view()).take(i + 1) == link_searches(
                dirs.deep_view(),
            ).take(i as int).push(link_search(dirs[i as int]@)));
        }
        i += 1;
    }
    proof {
        assert(link_searches(dirs.deep_view()).take(i as int) == link_searches(
            dirs.deep_view(),
        ));
    }
}

} // verus!
