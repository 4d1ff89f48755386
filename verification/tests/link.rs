use std::path::PathBuf;
use tor_sys::artifacts::Artifacts;
use tor_sys::configure::{Compression, TorBuild};
use tor_sys::directives::{
    dynamic_lib_line, include_dir_line, lib_dir_line, link_search_line, prefixed,
    push_dynamic_libs, push_link_searches, push_static_libs, rerun_if_changed_line,
    rustc_env_line, static_lib_line,
};
use tor_sys::link::{
    libevent_artifacts, libevent_directives, libevent_libs, libevent_root,
    libevent_sys_artifacts, search_dirs,
};

fn strings(items: &[&str]) -> Vec<String> {
    items.iter().map(|s| s.to_string()).collect()
}

fn shown(path: &PathBuf) -> String {
    format!("{}", path.display())
}

fn linux_build() -> TorBuild {
    TorBuild {
        target: "x86_64-unknown-linux-gnu".to_string(),
        host: "x86_64-unknown-linux-gnu".to_string(),
        libevent_dir: Some("/out/libevent".to_string()),
        compiler_cflags: "-O2 -fPIC".to_string(),
        with_lzma: false,
        with_zstd: false,
        openssl_dir: Some("/deps/openssl".to_string()),
        lzma: None,
        zstd: None,
        zlib_dir: "/deps/zlib".to_string(),
    }
}

#[test]
fn each_directive_has_its_own_form() {
    assert_eq!(prefixed("a=", "b"), "a=b");
    assert_eq!(link_search_line("/x/lib"), "cargo:rustc-link-search=native=/x/lib");
    assert_eq!(static_lib_line("tor"), "cargo:rustc-link-lib=static=tor");
    assert_eq!(dynamic_lib_line("ssl"), "cargo:rustc-link-lib=ssl");
    assert_eq!(include_dir_line("/x/include"), "cargo:include=/x/include");
    assert_eq!(lib_dir_line("/x/lib"), "cargo:lib=/x/lib");
    assert_eq!(rerun_if_changed_line("build.rs"), "cargo:rerun-if-changed=build.rs");
    assert_eq!(rustc_env_line("TOR_SRC", "/x"), "cargo:rustc-env=TOR_SRC=/x");
}

#[test]
fn lists_of_directives_keep_their_order() {
    let mut lines = strings(&["first"]);
    push_static_libs(&mut lines, &strings(&["b", "a"]));
    push_dynamic_libs(&mut lines, &strings(&["d", "c"]));
    push_link_searches(&mut lines, &strings(&["/y", "/x"]));
    push_static_libs(&mut lines, &Vec::new());
    assert_eq!(
        lines,
        strings(&[
            "first",
            "cargo:rustc-link-lib=static=b",
            "cargo:rustc-link-lib=static=a",
            "cargo:rustc-link-lib=d",
            "cargo:rustc-link-lib=c",
            "cargo:rustc-link-search=native=/y",
            "cargo:rustc-link-search=native=/x",
        ])
    );
}

#[test]
fn artifacts_are_announced_in_order() {
    let artifacts = Artifacts {
        include_dir: PathBuf::from("/out/include"),
        lib_dir: PathBuf::from("/out/lib"),
        libs: strings(&["event", "event_pthreads"]),
    };
    assert_eq!(
        artifacts.cargo_metadata(),
        strings(&[
            "cargo:rustc-link-search=native=/out/lib",
            "cargo:rustc-link-lib=static=event",
            "cargo:rustc-link-lib=static=event_pthreads",
            "cargo:include=/out/include",
            "cargo:lib=/out/lib",
        ])
    );
}

#[test]
fn artifacts_without_libraries_announce_their_directories() {
    let artifacts = Artifacts {
        include_dir: PathBuf::from("inc"),
        lib_dir: PathBuf::from("lib"),
        libs: Vec::new(),
    };
    assert_eq!(
        artifacts.cargo_metadata(),
        strings(&["cargo:rustc-link-search=native=lib", "cargo:include=inc", "cargo:lib=lib"])
    );
}

#[test]
fn libevent_has_pthreads_support_except_on_windows() {
    assert_eq!(libevent_libs("x86_64-unknown-linux-gnu"), strings(&["event", "event_pthreads"]));
    assert_eq!(libevent_libs("aarch64-apple-darwin"), strings(&["event", "event_pthreads"]));
    assert_eq!(libevent_libs("x86_64-pc-windows-gnu"), strings(&["event"]));
    assert_eq!(libevent_libs(""), strings(&["event", "event_pthreads"]));
}

#[test]
fn libevent_is_built_in_its_own_directory() {
    assert_eq!(shown(&libevent_root("/target/out")), "/target/out/libevent");
}

#[test]
fn libevent_artifacts_name_both_directories() {
    let found = libevent_artifacts(
        "x86_64-unknown-linux-gnu",
        &PathBuf::from("/installed"),
        &PathBuf::from("/out/libevent"),
    );
    assert_eq!(shown(&found.lib_dir), "/installed/lib");
    assert_eq!(shown(&found.include_dir), "/out/libevent/include");
    assert_eq!(found.libs, strings(&["event", "event_pthreads"]));

    let windows = libevent_artifacts(
        "i686-pc-windows-gnu",
        &PathBuf::from("/installed"),
        &PathBuf::from("/out/libevent"),
    );
    assert_eq!(windows.libs, strings(&["event"]));
}

#[test]
fn a_stand_alone_libevent_keeps_its_headers_in_the_installation() {
    let found = libevent_sys_artifacts(&PathBuf::from("/installed"));
    assert_eq!(shown(&found.lib_dir), "/installed/lib");
    assert_eq!(shown(&found.include_dir), "/installed/include");
    assert_eq!(found.libs, strings(&["event", "event_pthreads"]));
}

#[test]
fn libevent_directives_on_linux_are_the_artifacts() {
    let found = libevent_artifacts(
        "x86_64-unknown-linux-gnu",
        &PathBuf::from("/installed"),
        &PathBuf::from("/out/libevent"),
    );
    assert_eq!(
        libevent_directives("x86_64-unknown-linux-gnu", &found),
        strings(&[
            "cargo:rustc-link-search=native=/installed/lib",
            "cargo:rustc-link-lib=static=event",
            "cargo:rustc-link-lib=static=event_pthreads",
            "cargo:include=/out/libevent/include",
            "cargo:lib=/installed/lib",
        ])
    );
}

#[test]
fn libevent_directives_on_windows_start_with_the_stack_protector() {
    let found = libevent_artifacts(
        "x86_64-pc-windows-gnu",
        &PathBuf::from("/installed"),
        &PathBuf::from("/out/libevent"),
    );
    assert_eq!(
        libevent_directives("x86_64-pc-windows-gnu", &found),
        strings(&[
            "cargo:rustc-link-lib=static=ssp",
            "cargo:rustc-link-search=native=/installed/lib",
            "cargo:rustc-link-lib=static=event",
            "cargo:include=/out/libevent/include",
            "cargo:lib=/installed/lib",
        ])
    );
}

#[test]
fn search_dirs_are_read_from_the_libraries_line() {
    let answer = "install: /usr/lib/gcc/x86_64-w64-mingw32/10/\n\
                  programs: =/usr/lib/gcc/x86_64-w64-mingw32/10/:/usr/bin/\n\
                  libraries: =/usr/lib/gcc/x86_64-w64-mingw32/10/:/usr/x86_64-w64-mingw32/lib/\n";
    assert_eq!(
        search_dirs(answer),
        strings(&["/usr/lib/gcc/x86_64-w64-mingw32/10/", "/usr/x86_64-w64-mingw32/lib/"])
    );
}

#[test]
fn search_dirs_keep_empty_entries_and_every_libraries_line() {
    assert_eq!(search_dirs("libraries: ="), strings(&[""]));
    assert_eq!(search_dirs("libraries: =/a::/b:\r\n"), strings(&["/a", "", "/b", ""]));
    assert_eq!(search_dirs("libraries: =/a\nlibraries: =/b\n"), strings(&["/a", "/b"]));
}

#[test]
fn search_dirs_skip_other_lines() {
    assert_eq!(search_dirs(""), Vec::<String>::new());
    assert_eq!(search_dirs("programs: =/usr/bin\n"), Vec::<String>::new());
    assert_eq!(search_dirs(" libraries: =/a\n"), Vec::<String>::new());
    assert_eq!(search_dirs("libraries: /a\n"), Vec::<String>::new());
}

#[test]
fn search_dirs_strip_the_marker_once() {
    assert_eq!(search_dirs("libraries: =libraries: =/a"), strings(&["libraries", " =/a"]));
}

#[test]
fn tor_on_linux_with_a_static_openssl() {
    assert_eq!(
        linux_build().directives("/out", ""),
        strings(&[
            "cargo:rustc-link-search=native=/deps/zlib/lib",
            "cargo:rustc-link-search=native=/deps/openssl/lib/",
            "cargo:rustc-link-search=native=/out/build/",
            "cargo:rustc-link-lib=static=event",
            "cargo:rustc-link-lib=static=event_pthreads",
            "cargo:rustc-link-lib=static=z",
            "cargo:rustc-link-lib=static=tor",
            "cargo:rustc-link-lib=static=crypto",
            "cargo:rustc-link-lib=static=ssl",
            "cargo:include=/out/include",
            "cargo:rerun-if-changed=build.rs",
        ])
    );
}

#[test]
fn tor_with_the_systems_openssl_links_it_as_found() {
    let build = TorBuild { openssl_dir: None, ..linux_build() };
    assert_eq!(
        build.directives("/out", "libraries: =/ignored\n"),
        strings(&[
            "cargo:rustc-link-search=native=/deps/zlib/lib",
            "cargo:rustc-link-search=native=/out/build/",
            "cargo:rustc-link-lib=static=event",
            "cargo:rustc-link-lib=static=event_pthreads",
            "cargo:rustc-link-lib=static=z",
            "cargo:rustc-link-lib=static=tor",
            "cargo:rustc-link-lib=crypto",
            "cargo:rustc-link-lib=ssl",
            "cargo:include=/out/include",
            "cargo:rerun-if-changed=build.rs",
        ])
    );
}

#[test]
fn tor_with_compression_links_it_first() {
    let build = TorBuild {
        with_lzma: true,
        with_zstd: true,
        lzma: Some(Compression {
            root: "/deps/lzma".to_string(),
            headers: "/deps/lzma/include".to_string(),
        }),
        zstd: Some(Compression {
            root: "/deps/zstd".to_string(),
            headers: "/deps/zstd/include".to_string(),
        }),
        ..linux_build()
    };
    let lines = build.directives("/out", "");
    assert_eq!(
        lines[..3].to_vec(),
        strings(&[
            "cargo:rustc-link-lib=static=lzma",
            "cargo:rustc-link-lib=static=zstd",
            "cargo:rustc-link-search=native=/deps/zlib/lib",
        ])
    );
    assert_eq!(lines.len(), 13);
}

#[test]
fn tor_on_windows_adds_the_compilers_directories_and_system_libraries() {
    let build = TorBuild {
        target: "x86_64-pc-windows-gnu".to_string(),
        openssl_dir: None,
        ..linux_build()
    };
    assert_eq!(
        build.directives("/out", "install: /gcc/\nlibraries: =/gcc/lib:/mingw/lib\n"),
        strings(&[
            "cargo:rustc-link-search=native=/deps/zlib/lib",
            "cargo:rustc-link-search=native=/out/build/",
            "cargo:rustc-link-lib=static=event",
            "cargo:rustc-link-lib=static=z",
            "cargo:rustc-link-lib=static=tor",
            "cargo:rustc-link-lib=crypto",
            "cargo:rustc-link-lib=ssl",
            "cargo:rustc-link-search=native=/gcc/lib",
            "cargo:rustc-link-search=native=/mingw/lib",
            "cargo:rustc-link-lib=crypt32",
            "cargo:rustc-link-lib=iphlpapi",
            "cargo:rustc-link-lib=ws2_32",
            "cargo:rustc-link-lib=gdi32",
            "cargo:rustc-link-lib=shell32",
            "cargo:rustc-link-lib=ssp",
            "cargo:rustc-link-lib=shlwapi",
            "cargo:include=/out/include",
            "cargo:rerun-if-changed=build.rs",
        ])
    );
}

#[test]
fn tor_on_android_searches_the_toolchain_for_zlib() {
    let build = TorBuild {
        target: "aarch64-linux-android".to_string(),
        zlib_dir: "/ndk/sysroot/usr/lib".to_string(),
        ..linux_build()
    };
    let lines = build.directives("/out", "");
    assert_eq!(lines[0], "cargo:rustc-link-search=native=/ndk/sysroot/usr/lib");
    assert_eq!(lines[3], "cargo:rustc-link-lib=static=event");
    assert_eq!(lines[4], "cargo:rustc-link-lib=static=event_pthreads");
}
