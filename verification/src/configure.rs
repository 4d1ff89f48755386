//! The options with which the bundled packages are configured.
//!
//! A build is described by an `autotools::Config`. Making one and running it touch the
//! machine, so callers do both, and they hand it the compiler that they found. What is
//! decided here is which options and variables, in which order, a build of libevent or
//! of Tor gets besides.

use crate::paths::{display_path, join_path, joined_text, path_from_str, path_text};
use crate::text::{contains, has_text};
use autotools::Config;
use std::path::PathBuf;
use vstd::prelude::*;

verus! {

#[verifier::external_type_specification]
#[verifier::external_body]
pub struct ExConfig(Config);

/// The form in which an option reaches the `configure` script.
pub enum OptionKind {
    /// `--enable-<name>`
    Enable,
    /// `--disable-<name>`
    Disable,
    /// `--with-<name>`
    With,
    /// `--<name>`
    Plain,
}

/// One option for the `configure` script, with the value that follows its `=`, if any.
pub struct ConfigureOption {
    pub kind: OptionKind,
    pub name: Seq<char>,
    pub value: Option<Seq<char>>,
}

/// What a `Config` has been told so far.
pub struct Settings {
    /// Whether a shared library is built.
    pub shared: bool,
    /// Whether a static library is built.
    pub archive: bool,
    /// The host triple, if one was set.
    pub host: Option<Seq<char>>,
    /// The text of the output directory, if one was set.
    pub out_dir: Option<Seq<char>>,
    /// The options, in the order in which they were added.
    pub options: Seq<ConfigureOption>,
    /// The environment of the build, as names and values in the order in which they were
    /// added.
    pub env: Seq<(Seq<char>, Seq<char>)>,
}

impl Settings {
    /// These settings with one more option at the end.
    pub open spec fn with_option(self, option: ConfigureOption) -> Settings {
        Settings { options: self.options.push(option), ..self }
    }

    /// These settings with one more variable at the end of the environment.
    pub open spec fn with_env(self, name: Seq<char>, value: Seq<char>) -> Settings {
        Settings { env: self.env.push((name, value)), ..self }
    }
}

/// What `config` holds of the settings that this module makes.
pub uninterp spec fn settings(config: Config) -> Settings;

/// The text of an optional string.
pub open spec fn opt_text(value: Option<&str>) -> Option<Seq<char>> {
    match value {
        Some(v) => Some(v@),
        None => None,
    }
}

/// The text of an optional owned string.
pub open spec fn opt_string_text(value: Option<String>) -> Option<Seq<char>> {
    match value {
        Some(v) => Some(v@),
        None => None,
    }
}

/// `--enable-<name>`
pub open spec fn enable(name: Seq<char>) -> ConfigureOption {
    ConfigureOption { kind: OptionKind::Enable, name, value: None }
}

/// `--disable-<name>`
pub open spec fn disable(name: Seq<char>) -> ConfigureOption {
    ConfigureOption { kind: OptionKind::Disable, name, value: None }
}

/// `--with-<name>`, or `--with-<name>=<value>`
pub open spec fn with(name: Seq<char>, value: Option<Seq<char>>) -> ConfigureOption {
    ConfigureOption { kind: OptionKind::With, name, value }
}

/// `--<name>`, or `--<name>=<value>`
pub open spec fn plain(name: Seq<char>, value: Option<Seq<char>>) -> ConfigureOption {
    ConfigureOption { kind: OptionKind::Plain, name, value }
}

/// `Config::config_option`: appends `--<name>`, with `=<value>` where a value is given,
/// to the options and leaves every other setting as it was.
#[verifier::external_body]
fn add_option(config: &mut Config, name: &str, value: Option<&str>)
    ensures
        settings(*final(config)) == settings(*old(config)).with_option(
            plain(name@, opt_text(value)),
        ),
{
    config.config_option(name, value);
}

/// `Config::enable`: appends `--enable-<name>`, with `=<value>` where a value is given,
/// to the options and leaves every other setting as it was.
#[verifier::external_body]
fn add_enable(config: &mut Config, name: &str, value: Option<&str>)
    ensures
        settings(*final(config)) == settings(*old(config)).with_option(
            ConfigureOption { kind: OptionKind::Enable, name: name@, value: opt_text(value) },
        ),
{
    config.enable(name, value);
}

/// `Config::disable`: appends `--disable-<name>`, with `=<value>` where a value is given,
/// to the options and leaves every other setting as it was.
#[verifier::external_body]
fn add_disable(config: &mut Config, name: &str, value: Option<&str>)
    ensures
        settings(*final(config)) == settings(*old(config)).with_option(
            ConfigureOption { kind: OptionKind::Disable, name: name@, value: opt_text(value) },
        ),
{
    config.disable(name, value);
}

/// `Config::with`: appends `--with-<name>`, with `=<value>` where a value is given, to
/// the options and leaves every other setting as it was.
#[verifier::external_body]
fn add_with(config: &mut Config, name: &str, value: Option<&str>)
    ensures
        settings(*final(config)) == settings(*old(config)).with_option(
            with(name@, opt_text(value)),
        ),
{
    config.with(name, value);
}

/// `Config::env`: appends the variable to the environment of the build and leaves every
/// other setting as it was.
#[verifier::external_body]
fn add_env(config: &mut Config, name: &str, value: &str)
    ensures
        settings(*final(config)) == settings(*old(config)).with_env(name@, value@),
{
    config.env(name, value);
}

/// `Config::enable_static`: a static library is built; nothing else changes.
#[verifier::external_body]
fn set_enable_static(config: &mut Config)
    ensures
        settings(*final(config)) == (Settings { archive: true, ..settings(*old(config)) }),
{
    config.enable_static();
}

/// `Config::disable_shared`: no shared library is built; nothing else changes.
#[verifier::external_body]
fn set_disable_shared(config: &mut Config)
    ensures
        settings(*final(config)) == (Settings { shared: false, ..settings(*old(config)) }),
{
    config.disable_shared();
}

/// `Config::host`: sets the host triple; nothing else changes.
#[verifier::external_body]
fn set_host(config: &mut Config, host: &str)
    ensures
        settings(*final(config)) == (Settings { host: Some(host@), ..settings(*old(config)) }),
{
    config.host(host);
}

/// `Config::out_dir`: sets the output directory to the given path; nothing else changes.
#[verifier::external_body]
fn set_out_dir(config: &mut Config, dir: &PathBuf)
    ensures
        settings(*final(config)) == (Settings {
            out_dir: Some(path_text(*dir)),
            ..settings(*old(config))
        }),
{
    config.out_dir(dir);
}

/// What both builds of libevent switch on and off: position-independent code, and none of
/// the parts that only serve libevent's own development.
pub open spec fn libevent_features() -> Seq<ConfigureOption> {
    seq![
        with("pic"@, None),
        disable("samples"@),
        disable("openssl"@),
        disable("libevent-regress"@),
        disable("debug-mode"@),
        disable("dependency-tracking"@),
    ]
}

/// The settings of a libevent build that goes to `root`, for the autotools host `host`,
/// made from the settings `before`.
pub open spec fn libevent_settings(before: Settings, root: Seq<char>, host: Seq<char>) -> Settings {
    Settings {
        shared: false,
        archive: true,
        out_dir: Some(root),
        options: before.options + seq![plain("host"@, Some(host))] + libevent_features(),
        ..before
    }
}

/// The settings of a stand-alone libevent build for the target triple `target`, made from
/// the settings `before`.
pub open spec fn libevent_sys_settings(before: Settings, target: Seq<char>) -> Settings {
    Settings {
        shared: false,
        archive: true,
        host: Some(target),
        options: before.options + libevent_features(),
        ..before
    }
}

fn add_libevent_features(config: &mut Config)
    ensures
        settings(*final(config)) == (Settings {
            shared: false,
            archive: true,
            options: settings(*old(config)).options + libevent_features(),
            ..settings(*old(config))
        }),
{
    set_enable_static(config);
    set_disable_shared(config);
    add_with(config, "pic", None);
    add_disable(config, "samples", None);
    add_disable(config, "openssl", None);
    add_disable(config, "libevent-regress", None);
    add_disable(config, "debug-mode", None);
    add_disable(config, "dependency-tracking", None);
    proof {
        assert(settings(*config).options == settings(*old(config)).options
            + libevent_features());
    }
}

/// Sets `config` up for the libevent that Tor is linked with: a static library with
/// position-independent code, installed under `root`, with `--host=<host>`.
pub fn configure_libevent(config: &mut Config, root: &PathBuf, host: &str)
    ensures
        settings(*final(config)) == libevent_settings(
            settings(*old(config)),
            path_text(*root),
            host@,
        ),
{
    set_out_dir(config, root);
    add_option(config, "host", Some(host));
    let ghost mid = settings(*config);
    add_libevent_features(config);
    proof {
        assert(mid.options + libevent_features() == settings(*old(config)).options + seq![
            plain("host"@, Some(host@)),
        ] + libevent_features());
    }
}

/// Sets `config` up for a stand-alone libevent: a static library with
/// position-independent code, cross-compiled for `target`.
pub fn configure_libevent_sys(config: &mut Config, target: &str)
    ensures
        settings(*final(config)) == libevent_sys_settings(settings(*old(config)), target@),
{
    set_host(config, target);
    add_libevent_features(config);
}

/// An installed compression library that Tor is to be linked with.
pub struct Compression {
    /// The root of the installation, which holds the static archive.
    pub root: String,
    /// The directory of its headers.
    pub headers: String,
}

/// Everything that decides how Tor is configured and linked.
pub struct TorBuild {
    /// The triple of the machine that Tor will run on.
    pub target: String,
    /// The triple of the machine that builds.
    pub host: String,
    /// Where the libevent built for this Tor was installed.
    pub libevent_dir: Option<String>,
    /// The flags that the C compiler is to get in any case.
    pub compiler_cflags: String,
    /// Whether support for lzma was asked for.
    pub with_lzma: bool,
    /// Whether support for zstd was asked for.
    pub with_zstd: bool,
    /// The root of a static OpenSSL; without one, the system's OpenSSL is linked.
    pub openssl_dir: Option<String>,
    /// The lzma to link statically, if there is one.
    pub lzma: Option<Compression>,
    /// The zstd to link statically, if there is one.
    pub zstd: Option<Compression>,
    /// On an Android target the directory of the toolchain that holds `libz.a`; on every
    /// other target the root of the zlib installation.
    pub zlib_dir: String,
}

/// What every build of Tor switches on and off: position-independent code and static
/// libevent and zlib on; off, what a client embedded in a program has no use for.
pub open spec fn tor_features() -> Seq<ConfigureOption> {
    seq![
        enable("pic"@),
        enable("static-libevent"@),
        enable("static-zlib"@),
        disable("system-torrc"@),
        disable("asciidoc"@),
        disable("systemd"@),
        disable("largefile"@),
        disable("unittests"@),
        disable("tool-name-check"@),
        disable("manpage"@),
        disable("html-manual"@),
        disable("module-dirauth"@),
        disable("module-relay"@),
        disable("module-dircache"@),
        disable("seccomp"@),
        disable("libscrypt"@),
        disable("rust"@),
    ]
}

/// The two variables that point the `configure` script at one compression library:
/// `<prefix>_CFLAGS` with its include directory, `<prefix>_LIBS` with its archive.
pub open spec fn compression_env(
    cflags_name: Seq<char>,
    libs_name: Seq<char>,
    archive: Seq<char>,
    library: Option<Compression>,
) -> Seq<(Seq<char>, Seq<char>)> {
    match library {
        Some(found) => seq![
            (cflags_name, "-I"@ + found.headers@),
            (libs_name, joined_text(found.root@, archive)),
        ],
        None => seq![],
    }
}

impl TorBuild {
    /// Whether the target is a Windows one.
    pub open spec fn for_windows(&self) -> bool {
        has_text(self.target@, "windows"@)
    }

    /// Whether the target is an Android one.
    pub open spec fn for_android(&self) -> bool {
        has_text(self.target@, "android"@)
    }

    /// The directory in which the linker finds zlib.
    pub open spec fn zlib_lib_dir(&self) -> Seq<char> {
        if self.for_android() {
            self.zlib_dir@
        } else {
            joined_text(self.zlib_dir@, "lib"@)
        }
    }

    /// The value of `CFLAGS`: the compiler's own flags, and the include directory of zlib
    /// where zlib is not part of the toolchain.
    pub open spec fn cflags(&self) -> Seq<char> {
        if self.for_android() {
            " "@ + self.compiler_cflags@
        } else {
            " "@ + self.compiler_cflags@ + " -I"@ + joined_text(self.zlib_dir@, "include"@)
        }
    }

    /// The options that turn off the compression libraries that were not asked for.
    pub open spec fn compression_switches(&self) -> Seq<ConfigureOption> {
        (if self.with_lzma {
            seq![]
        } else {
            seq![disable("lzma"@)]
        }) + (if self.with_zstd {
            seq![]
        } else {
            seq![disable("zstd"@)]
        })
    }

    /// The options for OpenSSL: with a root, that root and static linking; none without.
    pub open spec fn openssl_options(&self) -> Seq<ConfigureOption> {
        match self.openssl_dir {
            Some(dir) => seq![with("openssl-dir"@, Some(dir@)), enable("static-openssl"@)],
            None => seq![],
        }
    }

    /// The options for zlib.
    pub open spec fn zlib_options(&self) -> Seq<ConfigureOption> {
        if self.for_android() {
            seq![enable("android"@), with("zlib-dir"@, Some(self.zlib_lib_dir()))]
        } else {
            seq![with("zlib-dir"@, Some(self.zlib_lib_dir()))]
        }
    }

    /// All options of the build, in order.
    pub open spec fn options(&self) -> Seq<ConfigureOption> {
        seq![
            plain("host"@, Some(self.host@)),
            with("libevent-dir"@, opt_string_text(self.libevent_dir)),
        ] + tor_features() + self.compression_switches() + self.openssl_options()
            + self.zlib_options()
    }

    /// The variable that names the libraries that the `configure` script needs on Windows
    /// to find OpenSSL; nothing on other targets.
    pub open spec fn windows_env(&self) -> Seq<(Seq<char>, Seq<char>)> {
        if self.for_windows() {
            seq![("LIBS"@, "-lcrypt32 -liphlpapi -lws2_32 -lgdi32"@)]
        } else {
            seq![]
        }
    }

    /// The variables that the build adds to the environment, in order.
    pub open spec fn env(&self) -> Seq<(Seq<char>, Seq<char>)> {
        self.windows_env() + compression_env("LZMA_CFLAGS"@, "LZMA_LIBS"@, "liblzma.a"@, self.lzma)
            + compression_env("ZSTD_CFLAGS"@, "ZSTD_LIBS"@, "libzstd.a"@, self.zstd) + seq![
            ("CFLAGS"@, self.cflags()),
        ]
    }

    /// The settings of this build, made from the settings `before`.
    pub open spec fn settings(&self, before: Settings) -> Settings {
        Settings {
            options: before.options + self.options(),
            env: before.env + self.env(),
            ..before
        }
    }

    /// Whether the target is a Windows one.
    pub fn is_for_windows(&self) -> (yes: bool)
        ensures
            yes == self.for_windows(),
    {
        contains(self.target.as_str(), "windows")
    }

    /// Whether the target is an Android one.
    pub fn is_for_android(&self) -> (yes: bool)
        ensures
            yes == self.for_android(),
    {
        contains(self.target.as_str(), "android")
    }

    /// The directory to search for zlib, as text.
    pub fn zlib_search_dir(&self) -> (dir: String)
        ensures
            dir@ == self.zlib_lib_dir(),
    {
        if self.is_for_android() {
            self.zlib_dir.clone()
        } else {
            let root = path_from_str(self.zlib_dir.as_str());
            display_path(&join_path(&root, "lib"))
        }
    }

    /// The flags for the C compiler.
    pub fn c_flags(&self) -> (flags: String)
        ensures
            flags@ == self.cflags(),
    {
        let mut flags = String::from_str(" ");
        flags.append(self.compiler_cflags.as_str());
        if !self.is_for_android() {
            let root = path_from_str(self.zlib_dir.as_str());
            let headers = display_path(&join_path(&root, "include"));
            flags.append(" -I");
            flags.append(headers.as_str());
        }
        flags
    }
}

fn add_tor_features(config: &mut Config)
    ensures
        settings(*final(config)) == (Settings {
            options: settings(*old(config)).options + tor_features(),
            ..settings(*old(config))
        }),
{
    add_enable(config, "pic", None);
    add_enable(config, "static-libevent", None);
    add_enable(config, "static-zlib", None);
    add_disable(config, "system-torrc", None);
    add_disable(config, "asciidoc", None);
    add_disable(config, "systemd", None);
    add_disable(config, "largefile", None);
    add_disable(config, "unittests", None);
    add_disable(config, "tool-name-check", None);
    add_disable(config, "manpage", None);
    add_disable(config, "html-manual", None);
    add_disable(config, "module-dirauth", None);
    add_disable(config, "module-relay", None);
    add_disable(config, "module-dircache", None);
    add_disable(config, "seccomp", None);
    add_disable(config, "libscrypt", None);
    add_disable(config, "rust", None);
    proof {
        assert(settings(*config).options == settings(*old(config)).options + tor_features());
    }
}

fn add_compression_env(
    config: &mut Config,
    cflags_name: &str,
    libs_name: &str,
    archive: &str,
    library: &Option<Compression>,
)
    ensures
        settings(*final(config)) == (Settings {
            env: settings(*old(config)).env + compression_env(
                cflags_name@,
                libs_name@,
                archive@,
                *library,
            ),
            ..settings(*old(config))
        }),
{
    match library {
        Some(found) => {
            let mut flag = String::from_str("-I");
            flag.append(found.headers.as_str());
            let root = path_from_str(found.root.as_str());
            let libs = display_path(&join_path(&root, archive));
            add_env(config, cflags_name, flag.as_str());
            add_env(config, libs_name, libs.as_str());
            proof {
                assert(settings(*config).env == settings(*old(config)).env + compression_env(
                    cflags_name@,
                    libs_name@,
                    archive@,
                    *library,
                ));
            }
        },
        None => {
            proof {
                assert(settings(*config).env == settings(*old(config)).env + compression_env(
                    cflags_name@,
                    libs_name@,
                    archive@,
                    *library,
                ));
            }
        },
    }
}

fn add_tor_basics(config: &mut Config, build: &TorBuild)
    ensures
        settings(*final(config)) == (Settings {
            options: settings(*old(config)).options + seq![
                plain("host"@, Some(build.host@)),
                with("libevent-dir"@, opt_string_text(build.libevent_dir)),
            ],
            ..settings(*old(config))
        }),
{
    add_option(config, "host", Some(build.host.as_str()));
    match &build.libevent_dir {
        Some(dir) => add_with(config, "libevent-dir", Some(dir.as_str())),
        None => add_with(config, "libevent-dir", None),
    }
    proof {
        assert(settings(*config).options == settings(*old(config)).options + seq![
            plain("host"@, Some(build.host@)),
            with("libevent-dir"@, opt_string_text(build.libevent_dir)),
        ]);
    }
}

fn add_compression_switches(config: &mut Config, build: &TorBuild)
    ensures
        settings(*final(config)) == (Settings {
            options: settings(*old(config)).options + build.compression_switches(),
            ..settings(*old(config))
        }),
{
    if !build.with_lzma {
        add_disable(config, "lzma", None);
    }
    if !build.with_zstd {
        add_disable(config, "zstd", None);
    }
    proof {
        assert(settings(*config).options == settings(*old(config)).options
            + build.compression_switches());
    }
}

fn add_openssl_options(config: &mut Config, build: &TorBuild)
    ensures
        settings(*final(config)) == (Settings {
            options: settings(*old(config)).options + build.openssl_options(),
            ..settings(*old(config))
        }),
{
    match &build.openssl_dir {
        Some(dir) => {
            add_with(config, "openssl-dir", Some(dir.as_str()));
            add_enable(config, "static-openssl", None);
        },
        None => {},
    }
    proof {
        assert(settings(*config).options == settings(*old(config)).options
            + build.openssl_options());
    }
}

fn add_zlib_options(config: &mut Config, build: &TorBuild)
    ensures
        settings(*final(config)) == (Settings {
            options: settings(*old(config)).options + build.zlib_options(),
            ..settings(*old(config))
        }),
{
    let zlib = build.zlib_search_dir();
    if build.is_for_android() {
        add_enable(config, "android", None);
    }
    add_with(config, "zlib-dir", Some(zlib.as_str()));
    proof {
        assert(settings(*config).options == settings(*old(config)).options
            + build.zlib_options());
    }
}

fn add_windows_libs(config: &mut Config, build: &TorBuild)
    ensures
        settings(*final(config)) == (Settings {
            env: settings(*old(config)).env + build.windows_env(),
            ..settings(*old(config))
        }),
{
    if build.is_for_windows() {
        add_env(config, "LIBS", "-lcrypt32 -liphlpapi -lws2_32 -lgdi32");
    }
    proof {
        assert(settings(*config).env == settings(*old(config)).env + build.windows_env());
    }
}

/// Sets `config` up for the Tor that `build` describes: appends its options and its
/// variables, in order, and changes nothing else.
pub fn configure_tor(config: &mut Config, build: &TorBuild)
    ensures
        settings(*final(config)) == build.settings(settings(*old(config))),
{
    let ghost before = settings(*config);
    add_tor_basics(config, build);
    add_tor_features(config);
    add_compression_switches(config, build);
    add_windows_libs(config, build);
    add_openssl_options(config, build);
    add_compression_env(config, "LZMA_CFLAGS", "LZMA_LIBS", "liblzma.a", &build.lzma);
    add_compression_env(config, "ZSTD_CFLAGS", "ZSTD_LIBS", "libzstd.a", &build.zstd);
    add_zlib_options(config, build);
    let flags = build.c_flags();
    add_env(config, "CFLAGS", flags.as_str());
    proof {
        assert(settings(*config).options == before.options + build.options());
        assert(settings(*config).env == before.env + build.env());
    }
}

} // verus!
