//! Toolchain resolution against a modelled filesystem.

use crossbundle_core::error::AndroidError;
use crossbundle_core::ndk::{AndroidNdk, AndroidTarget, HostInfo, HostOs, NdkEnv};
use crossbundle_core::pathset::PathSet;

fn env_with_root(root: &str) -> NdkEnv {
    NdkEnv {
        android_ndk_root: Some(root.to_string()),
        android_ndk_path: None,
        android_ndk_home: None,
        ndk_home: None,
    }
}

fn linux_host() -> HostInfo {
    HostInfo {
        host_env: None,
        build_os: Some(HostOs::Linux),
    }
}

fn ndk_at(root: &str) -> AndroidNdk {
    AndroidNdk::from_env(&env_with_root(root), None, &PathSet::new()).unwrap()
}

#[test]
fn from_env_prefers_first_variable() {
    let env = NdkEnv {
        android_ndk_root: Some("/a".to_string()),
        android_ndk_path: Some("/b".to_string()),
        android_ndk_home: None,
        ndk_home: None,
    };
    let ndk = AndroidNdk::from_env(&env, None, &PathSet::new()).unwrap();
    assert_eq!(ndk.ndk_path(), "/a");
}

#[test]
fn from_env_falls_through_variable_order() {
    let env = NdkEnv {
        android_ndk_root: None,
        android_ndk_path: None,
        android_ndk_home: None,
        ndk_home: Some("/d".to_string()),
    };
    let ndk = AndroidNdk::from_env(&env, None, &PathSet::new()).unwrap();
    assert_eq!(ndk.ndk_path(), "/d");
}

#[test]
fn from_env_uses_bundled_ndk_under_sdk() {
    let env = NdkEnv {
        android_ndk_root: None,
        android_ndk_path: None,
        android_ndk_home: None,
        ndk_home: None,
    };
    let mut fs = PathSet::new();
    fs.insert("/sdk/ndk-bundle".to_string());
    let sdk = "/sdk".to_string();
    let ndk = AndroidNdk::from_env(&env, Some(&sdk), &fs).unwrap();
    assert_eq!(ndk.ndk_path(), "/sdk/ndk-bundle");
}

#[test]
fn from_env_fails_without_any_hint() {
    let env = NdkEnv {
        android_ndk_root: None,
        android_ndk_path: None,
        android_ndk_home: None,
        ndk_home: None,
    };
    let r = AndroidNdk::from_env(&env, None, &PathSet::new());
    assert!(matches!(r, Err(AndroidError::AndroidNdkNotFound)));
}

#[test]
fn toolchain_dir_prefers_suffixed_directory() {
    let ndk = ndk_at("/ndk");
    let mut fs = PathSet::new();
    fs.insert("/ndk/toolchains/llvm/prebuilt/linux-x86_64".to_string());
    fs.insert("/ndk/toolchains/llvm/prebuilt/linux".to_string());
    let dir = ndk.toolchain_dir(&linux_host(), &fs).unwrap();
    assert_eq!(dir, "/ndk/toolchains/llvm/prebuilt/linux-x86_64");
}

#[test]
fn toolchain_dir_falls_back_to_bare_tag() {
    let ndk = ndk_at("/ndk");
    let mut fs = PathSet::new();
    fs.insert("/ndk/toolchains/llvm/prebuilt/linux".to_string());
    let dir = ndk.toolchain_dir(&linux_host(), &fs).unwrap();
    assert_eq!(dir, "/ndk/toolchains/llvm/prebuilt/linux");
}

#[test]
fn toolchain_dir_reports_missing_bare_path() {
    let ndk = ndk_at("/ndk");
    let r = ndk.toolchain_dir(&linux_host(), &PathSet::new());
    match r {
        Err(AndroidError::PathNotFound(p)) => {
            assert_eq!(p, "/ndk/toolchains/llvm/prebuilt/linux");
        }
        other => panic!("expected PathNotFound, got {:?}", other),
    }
}

#[test]
fn toolchain_dir_host_string_beats_build_os() {
    let ndk = ndk_at("/ndk");
    let host = HostInfo {
        host_env: Some("x86_64-apple-macos".to_string()),
        build_os: Some(HostOs::Linux),
    };
    let mut fs = PathSet::new();
    fs.insert("/ndk/toolchains/llvm/prebuilt/darwin-x86_64".to_string());
    let dir = ndk.toolchain_dir(&host, &fs).unwrap();
    assert_eq!(dir, "/ndk/toolchains/llvm/prebuilt/darwin-x86_64");
}

#[test]
fn toolchain_dir_unrecognized_host_string_carried_verbatim() {
    let ndk = ndk_at("/ndk");
    let host = HostInfo {
        host_env: Some("sparc-sun-solaris".to_string()),
        build_os: None,
    };
    let r = ndk.toolchain_dir(&host, &PathSet::new());
    match r {
        Err(AndroidError::UnsupportedHost(h)) => assert_eq!(h, "sparc-sun-solaris"),
        other => panic!("expected UnsupportedHost, got {:?}", other),
    }
}

#[test]
fn toolchain_dir_without_any_host_information() {
    let ndk = ndk_at("/ndk");
    let host = HostInfo {
        host_env: None,
        build_os: None,
    };
    let r = ndk.toolchain_dir(&host, &PathSet::new());
    assert!(matches!(r, Err(AndroidError::UnsupportedTarget)));
}

#[test]
fn clang_resolves_both_front_ends() {
    let ndk = ndk_at("/ndk");
    let tdir = "/ndk/toolchains/llvm/prebuilt/linux-x86_64";
    let mut fs = PathSet::new();
    fs.insert(tdir.to_string());
    fs.insert(format!("{}/bin/aarch64-linux-android30-clang", tdir));
    fs.insert(format!("{}/bin/aarch64-linux-android30-clang++", tdir));
    let (c, cpp) = ndk
        .clang(AndroidTarget::Aarch64LinuxAndroid, 30, &linux_host(), &fs)
        .unwrap();
    assert_eq!(c, format!("{}/bin/aarch64-linux-android30-clang", tdir));
    assert_eq!(cpp, format!("{}/bin/aarch64-linux-android30-clang++", tdir));
}

#[test]
fn clang_missing_c_front_end_names_exact_path() {
    let ndk = ndk_at("/ndk");
    let tdir = "/ndk/toolchains/llvm/prebuilt/linux-x86_64";
    let mut fs = PathSet::new();
    fs.insert(tdir.to_string());
    let r = ndk.clang(AndroidTarget::Armv7LinuxAndroideabi, 21, &linux_host(), &fs);
    match r {
        Err(AndroidError::PathNotFound(p)) => {
            assert_eq!(p, format!("{}/bin/armv7a-linux-androideabi21-clang", tdir));
        }
        other => panic!("expected PathNotFound, got {:?}", other),
    }
}

#[test]
fn clang_missing_cpp_front_end_names_exact_path() {
    let ndk = ndk_at("/ndk");
    let tdir = "/ndk/toolchains/llvm/prebuilt/linux-x86_64";
    let mut fs = PathSet::new();
    fs.insert(tdir.to_string());
    fs.insert(format!("{}/bin/i686-linux-android24-clang", tdir));
    let r = ndk.clang(AndroidTarget::I686LinuxAndroid, 24, &linux_host(), &fs);
    match r {
        Err(AndroidError::PathNotFound(p)) => {
            assert_eq!(p, format!("{}/bin/i686-linux-android24-clang++", tdir));
        }
        other => panic!("expected PathNotFound, got {:?}", other),
    }
}

#[test]
fn clang_on_windows_host_uses_cmd_suffix() {
    let ndk = ndk_at("/ndk");
    let host = HostInfo {
        host_env: None,
        build_os: Some(HostOs::Windows),
    };
    let tdir = "/ndk/toolchains/llvm/prebuilt/windows-x86_64";
    let mut fs = PathSet::new();
    fs.insert(tdir.to_string());
    fs.insert(format!("{}/bin/x86_64-linux-android29-clang.cmd", tdir));
    fs.insert(format!("{}/bin/x86_64-linux-android29-clang++.cmd", tdir));
    let (c, cpp) = ndk
        .clang(AndroidTarget::X8664LinuxAndroid, 29, &host, &fs)
        .unwrap();
    assert_eq!(c, format!("{}/bin/x86_64-linux-android29-clang.cmd", tdir));
    assert_eq!(cpp, format!("{}/bin/x86_64-linux-android29-clang++.cmd", tdir));
}

#[test]
fn toolchain_bin_builds_dashed_tool_name() {
    let ndk = ndk_at("/ndk");
    let tdir = "/ndk/toolchains/llvm/prebuilt/linux-x86_64";
    let mut fs = PathSet::new();
    fs.insert(tdir.to_string());
    fs.insert(format!("{}/bin/arm-linux-androideabi-readelf", tdir));
    let p = ndk
        .toolchain_bin("readelf", AndroidTarget::Armv7LinuxAndroideabi, &linux_host(), &fs)
        .unwrap();
    assert_eq!(p, format!("{}/bin/arm-linux-androideabi-readelf", tdir));
}

#[test]
fn sysroot_lib_dir_uses_ndk_triple() {
    let ndk = ndk_at("/ndk");
    let tdir = "/ndk/toolchains/llvm/prebuilt/linux-x86_64";
    let mut fs = PathSet::new();
    fs.insert(tdir.to_string());
    fs.insert(format!("{}/sysroot/usr/lib/aarch64-linux-android", tdir));
    let p = ndk
        .sysroot_lib_dir(AndroidTarget::Aarch64LinuxAndroid, &linux_host(), &fs)
        .unwrap();
    assert_eq!(p, format!("{}/sysroot/usr/lib/aarch64-linux-android", tdir));
}

#[test]
fn sysroot_platform_lib_dir_takes_exact_minimum() {
    let ndk = ndk_at("/ndk");
    let tdir = "/ndk/toolchains/llvm/prebuilt/linux-x86_64";
    let lib = format!("{}/sysroot/usr/lib/aarch64-linux-android", tdir);
    let mut fs = PathSet::new();
    fs.insert(tdir.to_string());
    fs.insert(lib.clone());
    fs.insert(format!("{}/30", lib));
    let p = ndk
        .sysroot_platform_lib_dir(AndroidTarget::Aarch64LinuxAndroid, 30, &linux_host(), &fs)
        .unwrap();
    assert_eq!(p, format!("{}/30", lib));
}

#[test]
fn sysroot_platform_lib_dir_prefers_nearest_below_minimum() {
    let ndk = ndk_at("/ndk");
    let tdir = "/ndk/toolchains/llvm/prebuilt/linux-x86_64";
    let lib = format!("{}/sysroot/usr/lib/aarch64-linux-android", tdir);
    let mut fs = PathSet::new();
    fs.insert(tdir.to_string());
    fs.insert(lib.clone());
    fs.insert(format!("{}/26", lib));
    fs.insert(format!("{}/24", lib));
    fs.insert(format!("{}/31", lib));
    let p = ndk
        .sysroot_platform_lib_dir(AndroidTarget::Aarch64LinuxAndroid, 30, &linux_host(), &fs)
        .unwrap();
    assert_eq!(p, format!("{}/26", lib));
}

#[test]
fn sysroot_platform_lib_dir_scans_upward_when_nothing_below() {
    let ndk = ndk_at("/ndk");
    let tdir = "/ndk/toolchains/llvm/prebuilt/linux-x86_64";
    let lib = format!("{}/sysroot/usr/lib/arm-linux-androideabi", tdir);
    let mut fs = PathSet::new();
    fs.insert(tdir.to_string());
    fs.insert(lib.clone());
    fs.insert(format!("{}/33", lib));
    let p = ndk
        .sysroot_platform_lib_dir(AndroidTarget::Armv7LinuxAndroideabi, 28, &linux_host(), &fs)
        .unwrap();
    assert_eq!(p, format!("{}/33", lib));
}

#[test]
fn sysroot_platform_lib_dir_fails_with_requested_minimum() {
    let ndk = ndk_at("/ndk");
    let tdir = "/ndk/toolchains/llvm/prebuilt/linux-x86_64";
    let lib = format!("{}/sysroot/usr/lib/x86_64-linux-android", tdir);
    let mut fs = PathSet::new();
    fs.insert(tdir.to_string());
    fs.insert(lib);
    let r = ndk.sysroot_platform_lib_dir(AndroidTarget::X8664LinuxAndroid, 28, &linux_host(), &fs);
    match r {
        Err(AndroidError::PlatformNotFound(m)) => assert_eq!(m, 28),
        other => panic!("expected PlatformNotFound, got {:?}", other),
    }
}

#[test]
fn pathset_records_exactly_what_was_inserted() {
    let mut fs = PathSet::new();
    assert!(!fs.contains(&"/a".to_string()));
    fs.insert("/a".to_string());
    fs.insert("/b/c".to_string());
    assert!(fs.contains(&"/a".to_string()));
    assert!(fs.contains(&"/b/c".to_string()));
    assert!(!fs.contains(&"/b".to_string()));
}

#[test]
fn error_descriptions_are_nonempty() {
    assert!(!AndroidError::AndroidNdkNotFound.describe().is_empty());
    assert!(!AndroidError::UnsupportedTarget.describe().is_empty());
    assert!(!AndroidError::PathNotFound("/x".to_string()).describe().is_empty());
}
