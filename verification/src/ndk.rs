//! Native toolchain resolution.
//!
//! Locates an installed Android NDK and derives the paths of its
//! executables and system library directories for a given target
//! architecture and API level. All decisions are pure: environment
//! variable values arrive in [`NdkEnv`] and [`HostInfo`], and filesystem
//! knowledge arrives in a [`PathSet`]; the caller performs the probing.

use vstd::prelude::*;

use crate::error::AndroidError;
use crate::pathset::PathSet;
use crate::strings::{contains_seq, dec_digits, str_contains, u32_to_dec};

verus! {

/// An operating system the toolchain vendor ships prebuilt binaries for.
#[derive(Clone, Copy, Debug, PartialEq, Eq, Structural)]
pub enum HostOs {
    Linux,
    MacOs,
    Windows,
}

/// Host identification supplied by the caller: the value of the `HOST`
/// environment variable, if set, and the operating system the running
/// program was compiled for, if known.
pub struct HostInfo {
    pub host_env: Option<String>,
    pub build_os: Option<HostOs>,
}

/// A target architecture together with its NDK naming conventions.
#[derive(Clone, Copy, Debug, PartialEq, Eq, Structural)]
pub enum AndroidTarget {
    Armv7LinuxAndroideabi,
    Aarch64LinuxAndroid,
    I686LinuxAndroid,
    X8664LinuxAndroid,
}

/// The triple used in the names of the NDK's LLVM compiler front ends.
pub open spec fn llvm_triple(t: AndroidTarget) -> Seq<char> {
    match t {
        AndroidTarget::Armv7LinuxAndroideabi => "armv7a-linux-androideabi"@,
        AndroidTarget::Aarch64LinuxAndroid => "aarch64-linux-android"@,
        AndroidTarget::I686LinuxAndroid => "i686-linux-android"@,
        AndroidTarget::X8664LinuxAndroid => "x86_64-linux-android"@,
    }
}

/// The triple used in the names of the NDK's binutils-style tools and in
/// sysroot library directory names.
pub open spec fn ndk_triple(t: AndroidTarget) -> Seq<char> {
    match t {
        AndroidTarget::Armv7LinuxAndroideabi => "arm-linux-androideabi"@,
        AndroidTarget::Aarch64LinuxAndroid => "aarch64-linux-android"@,
        AndroidTarget::I686LinuxAndroid => "i686-linux-android"@,
        AndroidTarget::X8664LinuxAndroid => "x86_64-linux-android"@,
    }
}

impl AndroidTarget {
    /// The triple prefix of `<triple><api>-clang`.
    pub fn ndk_llvm_triple(self) -> (r: &'static str)
        ensures
            r@ == llvm_triple(self),
    {
        match self {
            AndroidTarget::Armv7LinuxAndroideabi => "armv7a-linux-androideabi",
            AndroidTarget::Aarch64LinuxAndroid => "aarch64-linux-android",
            AndroidTarget::I686LinuxAndroid => "i686-linux-android",
            AndroidTarget::X8664LinuxAndroid => "x86_64-linux-android",
        }
    }

    /// The triple prefix of `<triple>-<tool>` and of sysroot library
    /// directories.
    pub fn ndk_triple(self) -> (r: &'static str)
        ensures
            r@ == ndk_triple(self),
    {
        match self {
            AndroidTarget::Armv7LinuxAndroideabi => "arm-linux-androideabi",
            AndroidTarget::Aarch64LinuxAndroid => "aarch64-linux-android",
            AndroidTarget::I686LinuxAndroid => "i686-linux-android",
            AndroidTarget::X8664LinuxAndroid => "x86_64-linux-android",
        }
    }
}

/// The vendor's architecture tag for the host, or `None` when neither the
/// `HOST` string nor the compile-time platform identifies a supported one.
///
/// A `HOST` string, when present, takes priority over the compile-time
/// platform and is matched by substring, mirroring common triple spellings.
pub open spec fn host_tag(host: HostInfo) -> Option<Seq<char>> {
    if host.host_env matches Some(h) && contains_seq(h@, "linux"@) {
        Some("linux"@)
    } else if host.host_env matches Some(h) && contains_seq(h@, "macos"@) {
        Some("darwin"@)
    } else if host.host_env matches Some(h) && contains_seq(h@, "windows"@) {
        Some("windows"@)
    } else {
        match host.build_os {
            Some(HostOs::Linux) => Some("linux"@),
            Some(HostOs::MacOs) => Some("darwin"@),
            Some(HostOs::Windows) => Some("windows"@),
            None => None,
        }
    }
}

/// The executables of this host carry this suffix (only Windows has one).
pub open spec fn host_is_windows(host: HostInfo) -> bool {
    host.build_os == Some(HostOs::Windows)
}

/// The outcome of resolving a directory of the toolchain installation.
pub enum Resolution {
    /// The directory was found at this path.
    Dir(Seq<char>),
    /// A `HOST` string was available but unrecognized.
    BadHost(Seq<char>),
    /// No host information was available at all.
    NoHost,
    /// The directory is absent; carries the last path probed.
    Missing(Seq<char>),
}

/// The error value owed for a failed resolution.
pub open spec fn error_for(res: Resolution, e: AndroidError) -> bool {
    match res {
        Resolution::Dir(_) => false,
        Resolution::BadHost(h) => e matches AndroidError::UnsupportedHost(x) && x@ == h,
        Resolution::NoHost => e matches AndroidError::UnsupportedTarget,
        Resolution::Missing(p) => e matches AndroidError::PathNotFound(x) && x@ == p,
    }
}

/// The per-host toolchain directory with the `-x86_64` suffix.
pub open spec fn prebuilt_suffixed(ndk: Seq<char>, tag: Seq<char>) -> Seq<char> {
    ndk + "/toolchains/llvm/prebuilt/"@ + tag + "-x86_64"@
}

/// The per-host toolchain directory without the suffix.
pub open spec fn prebuilt_bare(ndk: Seq<char>, tag: Seq<char>) -> Seq<char> {
    ndk + "/toolchains/llvm/prebuilt/"@ + tag
}

/// How the per-host toolchain directory resolves: the suffixed candidate
/// first, the bare candidate as fallback, the bare path reported missing.
pub open spec fn resolve_toolchain_dir(
    ndk: Seq<char>,
    host: HostInfo,
    fs: Set<Seq<char>>,
) -> Resolution {
    match host_tag(host) {
        Some(tag) => {
            if fs.contains(prebuilt_suffixed(ndk, tag)) {
                Resolution::Dir(prebuilt_suffixed(ndk, tag))
            } else if fs.contains(prebuilt_bare(ndk, tag)) {
                Resolution::Dir(prebuilt_bare(ndk, tag))
            } else {
                Resolution::Missing(prebuilt_bare(ndk, tag))
            }
        },
        None => match host.host_env {
            Some(h) => Resolution::BadHost(h@),
            None => Resolution::NoHost,
        },
    }
}

/// A located NDK installation, identified by its root directory.
#[derive(Debug)]
pub struct AndroidNdk {
    ndk_path: String,
}

/// The environment variables consulted to locate the installation, in
/// priority order.
pub struct NdkEnv {
    pub android_ndk_root: Option<String>,
    pub android_ndk_path: Option<String>,
    pub android_ndk_home: Option<String>,
    pub ndk_home: Option<String>,
}

/// The first toolchain-root variable that is set, in priority order.
pub open spec fn first_ndk_var(env: NdkEnv) -> Option<Seq<char>> {
    match env.android_ndk_root {
        Some(v) => Some(v@),
        None => match env.android_ndk_path {
            Some(v) => Some(v@),
            None => match env.android_ndk_home {
                Some(v) => Some(v@),
                None => match env.ndk_home {
                    Some(v) => Some(v@),
                    None => None,
                },
            },
        },
    }
}

impl AndroidNdk {
    /// The root directory this installation was resolved to.
    pub closed spec fn root_view(&self) -> Seq<char> {
        self.ndk_path@
    }

    /// Locates the installation: the first set variable of `env` wins;
    /// failing that, an `ndk-bundle` directory bundled under the supplied
    /// SDK root is used when it exists; otherwise resolution fails.
    pub fn from_env(env: &NdkEnv, sdk_path: Option<&String>, fs: &PathSet) -> (r: Result<
        AndroidNdk,
        AndroidError,
    >)
        ensures
            match first_ndk_var(*env) {
                Some(v) => r matches Ok(ndk) && ndk.root_view() == v,
                None => match sdk_path {
                    Some(s) => {
                        if fs@.contains(s@ + "/ndk-bundle"@) {
                            r matches Ok(ndk) && ndk.root_view() == s@ + "/ndk-bundle"@
                        } else {
                            r matches Err(AndroidError::AndroidNdkNotFound)
                        }
                    },
                    None => r matches Err(AndroidError::AndroidNdkNotFound),
                },
            },
    {
        let var = if let Some(v) = &env.android_ndk_root {
            Some(v)
        } else if let Some(v) = &env.android_ndk_path {
            Some(v)
        } else if let Some(v) = &env.android_ndk_home {
            Some(v)
        } else if let Some(v) = &env.ndk_home {
            Some(v)
        } else {
            None
        };
        match var {
            Some(v) => Ok(AndroidNdk { ndk_path: v.clone() }),
            None => match sdk_path {
                Some(s) => {
                    let bundle = s.clone().concat("/ndk-bundle");
                    if fs.contains(&bundle) {
                        Ok(AndroidNdk { ndk_path: bundle })
                    } else {
                        Err(AndroidError::AndroidNdkNotFound)
                    }
                },
                None => Err(AndroidError::AndroidNdkNotFound),
            },
        }
    }

    /// The installation root.
    pub fn ndk_path(&self) -> (r: &String)
        ensures
            r@ == self.root_view(),
    {
        &self.ndk_path
    }

    /// Resolves the per-host toolchain directory
    /// `<root>/toolchains/llvm/prebuilt/<tag>[-x86_64]`, preferring the
    /// suffixed spelling and falling back to the bare tag.
    pub fn toolchain_dir(&self, host: &HostInfo, fs: &PathSet) -> (r: Result<
        String,
        AndroidError,
    >)
        ensures
            match resolve_toolchain_dir(self.root_view(), *host, fs@) {
                Resolution::Dir(p) => r matches Ok(d) && d@ == p,
                res => r matches Err(e) && error_for(res, e),
            },
    {
        let tag = if let Some(h) = &host.host_env {
            if str_contains(h.as_str(), "linux") {
                "linux"
            } else if str_contains(h.as_str(), "macos") {
                "darwin"
            } else if str_contains(h.as_str(), "windows") {
                "windows"
            } else {
                match host.build_os {
                    Some(HostOs::Linux) => "linux",
                    Some(HostOs::MacOs) => "darwin",
                    Some(HostOs::Windows) => "windows",
                    None => {
                        return Err(AndroidError::UnsupportedHost(h.clone()));
                    },
                }
            }
        } else {
            match host.build_os {
                Some(HostOs::Linux) => "linux",
                Some(HostOs::MacOs) => "darwin",
                Some(HostOs::Windows) => "windows",
                None => {
                    return Err(AndroidError::UnsupportedTarget);
                },
            }
        };
        let ghost tag_spec = host_tag(*host)->Some_0;
        assert(tag@ == tag_spec);
        let mut bare = self.ndk_path.clone();
        bare.append("/toolchains/llvm/prebuilt/");
        bare.append(tag);
        let suffixed = bare.clone().concat("-x86_64");
        proof {
            assert(bare@ =~= prebuilt_bare(self.root_view(), tag_spec));
            assert(suffixed@ =~= prebuilt_suffixed(self.root_view(), tag_spec));
        }
        if fs.contains(&suffixed) {
            Ok(suffixed)
        } else if fs.contains(&bare) {
            Ok(bare)
        } else {
            Err(AndroidError::PathNotFound(bare))
        }
    }

    /// Resolves the C and C++ compiler front ends
    /// `<toolchain>/bin/<llvm-triple><api>-clang[++][.cmd]` for the given
    /// target and API level, failing with the exact missing path.
    pub fn clang(&self, target: AndroidTarget, platform: u32, host: &HostInfo, fs: &PathSet) -> (r:
        Result<(String, String), AndroidError>)
        ensures
            match resolve_toolchain_dir(self.root_view(), *host, fs@) {
                Resolution::Dir(t) => {
                    let c = clang_path(t, target, platform as nat, host_is_windows(*host), false);
                    let cpp = clang_path(t, target, platform as nat, host_is_windows(*host), true);
                    if !fs@.contains(c) {
                        r matches Err(AndroidError::PathNotFound(p)) && p@ == c
                    } else if !fs@.contains(cpp) {
                        r matches Err(AndroidError::PathNotFound(p)) && p@ == cpp
                    } else {
                        r matches Ok(pair) && pair.0@ == c && pair.1@ == cpp
                    }
                },
                res => r matches Err(e) && error_for(res, e),
            },
    {
        let tdir = match self.toolchain_dir(host, fs) {
            Ok(d) => d,
            Err(e) => {
                return Err(e);
            },
        };
        let windows = matches!(host.build_os, Some(HostOs::Windows));
        let ghost t = tdir@;
        let mut base = tdir;
        base.append("/bin/");
        base.append(target.ndk_llvm_triple());
        let api = u32_to_dec(platform);
        base.append(api.as_str());
        let mut c = base.clone();
        c.append("-clang");
        if windows {
            c.append(".cmd");
        }
        let mut cpp = base;
        cpp.append("-clang++");
        if windows {
            cpp.append(".cmd");
        }
        proof {
            assert(c@ =~= clang_path(t, target, platform as nat, host_is_windows(*host), false));
            assert(cpp@ =~= clang_path(t, target, platform as nat, host_is_windows(*host), true));
        }
        if !fs.contains(&c) {
            return Err(AndroidError::PathNotFound(c));
        }
        if !fs.contains(&cpp) {
            return Err(AndroidError::PathNotFound(cpp));
        }
        Ok((c, cpp))
    }

    /// Resolves the path of an arbitrary named tool
    /// `<toolchain>/bin/<triple>-<name>[.exe]`, failing with the exact
    /// missing path.
    pub fn toolchain_bin(&self, bin: &str, build_target: AndroidTarget, host: &HostInfo,
        fs: &PathSet) -> (r: Result<String, AndroidError>)
        ensures
            match resolve_toolchain_dir(self.root_view(), *host, fs@) {
                Resolution::Dir(t) => {
                    let p = tool_path(t, build_target, bin@, host_is_windows(*host));
                    if fs@.contains(p) {
                        r matches Ok(b) && b@ == p
                    } else {
                        r matches Err(AndroidError::PathNotFound(x)) && x@ == p
                    }
                },
                res => r matches Err(e) && error_for(res, e),
            },
    {
        let tdir = match self.toolchain_dir(host, fs) {
            Ok(d) => d,
            Err(e) => {
                return Err(e);
            },
        };
        let windows = matches!(host.build_os, Some(HostOs::Windows));
        let ghost t = tdir@;
        let mut p = tdir;
        p.append("/bin/");
        p.append(build_target.ndk_triple());
        p.append("-");
        p.append(bin);
        if windows {
            p.append(".exe");
        }
        proof {
            assert(p@ =~= tool_path(t, build_target, bin@, host_is_windows(*host)));
        }
        if !fs.contains(&p) {
            return Err(AndroidError::PathNotFound(p));
        }
        Ok(p)
    }

    /// Resolves the sysroot library directory
    /// `<toolchain>/sysroot/usr/lib/<triple>`, failing with the exact
    /// missing path.
    pub fn sysroot_lib_dir(&self, build_target: AndroidTarget, host: &HostInfo, fs: &PathSet) -> (r:
        Result<String, AndroidError>)
        ensures
            match resolve_sysroot_lib_dir(self.root_view(), build_target, *host, fs@) {
                Resolution::Dir(p) => r matches Ok(d) && d@ == p,
                res => r matches Err(e) && error_for(res, e),
            },
    {
        let tdir = match self.toolchain_dir(host, fs) {
            Ok(d) => d,
            Err(e) => {
                return Err(e);
            },
        };
        let ghost t = tdir@;
        let mut p = tdir;
        p.append("/sysroot/usr/lib/");
        p.append(build_target.ndk_triple());
        proof {
            assert(p@ =~= sysroot_lib_path(t, build_target));
        }
        if !fs.contains(&p) {
            return Err(AndroidError::PathNotFound(p));
        }
        Ok(p)
    }

    /// Resolves the per-API-level system library directory within the
    /// sysroot library directory.
    ///
    /// The scan direction is deterministic by design: first downward from
    /// `min_sdk_version` to API level 1 (nearest level at or below the
    /// requested minimum wins), then upward from `min_sdk_version + 1` to
    /// the fixed ceiling of level 99 (nearest level above wins). When no
    /// level in either range exists, the scan fails with
    /// `PlatformNotFound` carrying the requested minimum.
    #[verifier::loop_isolation(false)]
    pub fn sysroot_platform_lib_dir(&self, build_target: AndroidTarget, min_sdk_version: u32,
        host: &HostInfo, fs: &PathSet) -> (r: Result<String, AndroidError>)
        ensures
            match resolve_sysroot_lib_dir(self.root_view(), build_target, *host, fs@) {
                Resolution::Dir(lib) => match platform_scan(fs@, lib, min_sdk_version as nat) {
                    Some(lvl) => r matches Ok(p) && p@ == platform_dir(lib, lvl),
                    None => r matches Err(AndroidError::PlatformNotFound(m)) && m
                        == min_sdk_version,
                },
                res => r matches Err(e) && error_for(res, e),
            },
    {
        let lib = match self.sysroot_lib_dir(build_target, host, fs) {
            Ok(d) => d,
            Err(e) => {
                return Err(e);
            },
        };
        let ghost lib_spec = lib@;
        let mut lvl: u32 = min_sdk_version;
        while lvl >= 1
            invariant
                lvl <= min_sdk_version,
                scan_down(fs@, lib_spec, min_sdk_version as nat) == scan_down(
                    fs@,
                    lib_spec,
                    lvl as nat,
                ),
            decreases lvl,
        {
            let mut cand = lib.clone();
            cand.append("/");
            let digits = u32_to_dec(lvl);
            cand.append(digits.as_str());
            proof {
                assert(cand@ =~= platform_dir(lib_spec, lvl as nat));
            }
            if fs.contains(&cand) {
                return Ok(cand);
            }
            lvl -= 1;
        }
        if min_sdk_version < 99 {
            let mut up: u32 = min_sdk_version + 1;
            while up < 100
                invariant
                    min_sdk_version + 1 <= up <= 100,
                    scan_down(fs@, lib_spec, min_sdk_version as nat) matches None,
                    scan_up(fs@, lib_spec, (min_sdk_version + 1) as nat) == scan_up(
                        fs@,
                        lib_spec,
                        up as nat,
                    ),
                decreases 100 - up,
            {
                let mut cand = lib.clone();
                cand.append("/");
                let digits = u32_to_dec(up);
                cand.append(digits.as_str());
                proof {
                    assert(cand@ =~= platform_dir(lib_spec, up as nat));
                }
                if fs.contains(&cand) {
                    return Ok(cand);
                }
                up += 1;
            }
        }
        Err(AndroidError::PlatformNotFound(min_sdk_version))
    }
}

/// The compiler front end path `<toolchain>/bin/<llvm-triple><api>-clang`,
/// with `++` for the C++ front end and `.cmd` on a Windows host.
pub open spec fn clang_path(
    tdir: Seq<char>,
    target: AndroidTarget,
    api: nat,
    windows: bool,
    cpp: bool,
) -> Seq<char> {
    tdir + "/bin/"@ + llvm_triple(target) + dec_digits(api) + (if cpp {
        "-clang++"@
    } else {
        "-clang"@
    }) + (if windows {
        ".cmd"@
    } else {
        Seq::empty()
    })
}

/// The named tool path `<toolchain>/bin/<triple>-<name>`, with `.exe` on a
/// Windows host.
pub open spec fn tool_path(
    tdir: Seq<char>,
    target: AndroidTarget,
    name: Seq<char>,
    windows: bool,
) -> Seq<char> {
    tdir + "/bin/"@ + ndk_triple(target) + "-"@ + name + (if windows {
        ".exe"@
    } else {
        Seq::empty()
    })
}

/// The sysroot library directory `<toolchain>/sysroot/usr/lib/<triple>`.
pub open spec fn sysroot_lib_path(tdir: Seq<char>, target: AndroidTarget) -> Seq<char> {
    tdir + "/sysroot/usr/lib/"@ + ndk_triple(target)
}

/// How the sysroot library directory resolves.
pub open spec fn resolve_sysroot_lib_dir(
    ndk: Seq<char>,
    target: AndroidTarget,
    host: HostInfo,
    fs: Set<Seq<char>>,
) -> Resolution {
    match resolve_toolchain_dir(ndk, host, fs) {
        Resolution::Dir(t) => {
            if fs.contains(sysroot_lib_path(t, target)) {
                Resolution::Dir(sysroot_lib_path(t, target))
            } else {
                Resolution::Missing(sysroot_lib_path(t, target))
            }
        },
        res => res,
    }
}

/// The per-API-level directory `<lib>/<level>`.
pub open spec fn platform_dir(lib: Seq<char>, lvl: nat) -> Seq<char> {
    lib + "/"@ + dec_digits(lvl)
}

/// The nearest existing API-level directory at or below `lvl`, scanning
/// down to level 1.
pub open spec fn scan_down(fs: Set<Seq<char>>, lib: Seq<char>, lvl: nat) -> Option<nat>
    decreases lvl,
{
    if lvl == 0 {
        None
    } else if fs.contains(platform_dir(lib, lvl)) {
        Some(lvl)
    } else {
        scan_down(fs, lib, (lvl - 1) as nat)
    }
}

/// The nearest existing API-level directory at or above `lvl`, scanning up
/// to the fixed ceiling of level 99.
pub open spec fn scan_up(fs: Set<Seq<char>>, lib: Seq<char>, lvl: nat) -> Option<nat>
    decreases 100 - lvl,
{
    if lvl >= 100 {
        None
    } else if fs.contains(platform_dir(lib, lvl)) {
        Some(lvl)
    } else {
        scan_up(fs, lib, lvl + 1)
    }
}

/// The API level the two-phase scan settles on: first downward from `min`,
/// then upward from `min + 1`.
pub open spec fn platform_scan(fs: Set<Seq<char>>, lib: Seq<char>, min: nat) -> Option<nat> {
    match scan_down(fs, lib, min) {
        Some(lvl) => Some(lvl),
        None => scan_up(fs, lib, min + 1),
    }
}

/// A level the two-phase scan for `min` would probe.
pub open spec fn scanned_level(min: nat, lvl: nat) -> bool {
    1 <= lvl && (lvl <= min || lvl < 100)
}

proof fn lemma_scan_down_props(fs: Set<Seq<char>>, lib: Seq<char>, lvl: nat)
    ensures
        match scan_down(fs, lib, lvl) {
            Some(l) => 1 <= l <= lvl && fs.contains(platform_dir(lib, l)),
            None => forall|l: nat|
                1 <= l <= lvl ==> !fs.contains(#[trigger] platform_dir(lib, l)),
        },
    decreases lvl,
{
    if lvl != 0 && !fs.contains(platform_dir(lib, lvl)) {
        lemma_scan_down_props(fs, lib, (lvl - 1) as nat);
    }
}

proof fn lemma_scan_up_props(fs: Set<Seq<char>>, lib: Seq<char>, lvl: nat)
    ensures
        match scan_up(fs, lib, lvl) {
            Some(l) => lvl <= l < 100 && fs.contains(platform_dir(lib, l)),
            None => forall|l: nat|
                lvl <= l < 100 ==> !fs.contains(#[trigger] platform_dir(lib, l)),
        },
    decreases 100 - lvl,
{
    if lvl < 100 && !fs.contains(platform_dir(lib, lvl)) {
        lemma_scan_up_props(fs, lib, lvl + 1);
    }
}

/// The platform scan settles only on an API-level directory that exists in
/// the filesystem model, and fails only when no directory for any level it
/// probes exists.
pub proof fn lemma_platform_scan_sound(fs: Set<Seq<char>>, lib: Seq<char>, min: nat)
    ensures
        match platform_scan(fs, lib, min) {
            Some(l) => scanned_level(min, l) && fs.contains(platform_dir(lib, l)),
            None => forall|l: nat|
                scanned_level(min, l) ==> !fs.contains(#[trigger] platform_dir(lib, l)),
        },
{
    lemma_scan_down_props(fs, lib, min);
    lemma_scan_up_props(fs, lib, min + 1);
}

/// When the suffixed per-host directory exists, the toolchain directory
/// resolves to it; when only the bare sibling exists, it resolves to that
/// one instead.
pub proof fn lemma_toolchain_dir_preference(
    ndk: Seq<char>,
    host: HostInfo,
    fs: Set<Seq<char>>,
    tag: Seq<char>,
)
    requires
        host_tag(host) == Some(tag),
    ensures
        fs.contains(prebuilt_suffixed(ndk, tag)) ==> resolve_toolchain_dir(ndk, host, fs)
            == Resolution::Dir(prebuilt_suffixed(ndk, tag)),
        !fs.contains(prebuilt_suffixed(ndk, tag)) && fs.contains(prebuilt_bare(ndk, tag))
            ==> resolve_toolchain_dir(ndk, host, fs) == Resolution::Dir(prebuilt_bare(ndk, tag)),
        !fs.contains(prebuilt_suffixed(ndk, tag)) && !fs.contains(prebuilt_bare(ndk, tag))
            ==> resolve_toolchain_dir(ndk, host, fs) == Resolution::Missing(
            prebuilt_bare(ndk, tag),
        ),
{
}

/// An unrecognized `HOST` string makes resolution fail carrying that exact
/// string; with no host information at all it fails with the
/// target-unsupported error instead.
pub proof fn lemma_toolchain_dir_bad_host(ndk: Seq<char>, host: HostInfo, fs: Set<Seq<char>>)
    requires
        host_tag(host) is None,
    ensures
        host.host_env matches Some(h) ==> resolve_toolchain_dir(ndk, host, fs)
            == Resolution::BadHost(h@),
        host.host_env is None ==> resolve_toolchain_dir(ndk, host, fs) == Resolution::NoHost,
{
}

} // verus!
