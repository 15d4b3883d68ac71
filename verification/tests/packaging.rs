//! The packaging-tool facade, the daemon session, the execution graph and
//! the manifest-writing step.

use crossbundle_core::aapt2::{Aapt2, SubCommand};
use crossbundle_core::daemon::DaemonSession;
use crossbundle_core::graph::{compose, compose_chain, Shape, UnitSignature};
use crossbundle_core::manifest::{AndroidManifest, GenAndroidManifest};

#[test]
fn compile_arguments_in_order() {
    let inputs = vec!["res/a.xml".to_string(), "res/b.png".to_string()];
    let out = "out/compiled".to_string();
    let cmd = Aapt2.compile(&inputs, &out);
    assert_eq!(
        cmd.arguments(),
        vec!["compile", "res/a.xml", "res/b.png", "-o", "out/compiled"]
    );
}

#[test]
fn link_arguments_in_order() {
    let inputs = vec!["out/a.flat".to_string()];
    let apk = "out/app.apk".to_string();
    let manifest = "out/AndroidManifest.xml".to_string();
    let cmd = Aapt2.link(&inputs, &apk, &manifest);
    assert_eq!(
        cmd.arguments(),
        vec!["link", "out/a.flat", "-o", "out/app.apk", "--manifest", "out/AndroidManifest.xml"]
    );
}

#[test]
fn dump_names_its_facet() {
    let apk = "app.apk".to_string();
    let cmd = Aapt2.dump(SubCommand::Badging, &apk);
    assert_eq!(cmd.arguments(), vec!["dump", "badging", "app.apk"]);
}

#[test]
fn diff_lists_all_packages() {
    let files = vec!["a.apk".to_string(), "b.apk".to_string()];
    let cmd = Aapt2.diff(&files);
    assert_eq!(cmd.arguments(), vec!["diff", "a.apk", "b.apk"]);
}

#[test]
fn optimize_convert_version_arguments() {
    let i = "in.apk".to_string();
    let o = "out.apk".to_string();
    let x = "--enable-sparse-encoding".to_string();
    assert_eq!(
        Aapt2.optimize(&i, &o, &x).arguments(),
        vec!["optimize", "in.apk", "-o", "out.apk", "--enable-sparse-encoding"]
    );
    let p = "app.apk".to_string();
    assert_eq!(Aapt2.convert(&p).arguments(), vec!["convert", "app.apk"]);
    assert_eq!(
        Aapt2.version("2.19".to_string()).arguments(),
        vec!["version", "2.19"]
    );
}

#[test]
fn daemon_descriptor_holds_trace_folder() {
    let folder = "trace/".to_string();
    let cmd = Aapt2.daemon(&folder);
    assert_eq!(cmd.trace_folder, "trace/");
    assert_eq!(cmd.arguments(), vec!["daemon", "trace/"]);
}

#[test]
fn daemon_session_dispatches_one_invocation_per_blank_line() {
    let mut session = DaemonSession::new();
    session.write_arg("compile".to_string());
    session.write_arg("-o".to_string());
    session.write_arg("out/".to_string());
    let wire = session.end_invocation();
    assert_eq!(session.dispatched_count(), 1);
    assert_eq!(wire, "compile\n-o\nout/\n\n");

    // A second blank line with no intervening arguments dispatches a
    // second, empty invocation: the session's literal behaviour.
    let wire2 = session.end_invocation();
    assert_eq!(session.dispatched_count(), 2);
    assert_eq!(wire2, "\n");
}

#[test]
fn compose_accepts_matching_shapes() {
    let first = UnitSignature { deps: Shape::Empty, output: Shape::PathList };
    let second = UnitSignature { deps: Shape::PathList, output: Shape::PathValue };
    let joined = compose(first, second).unwrap();
    assert_eq!(joined, UnitSignature { deps: Shape::Empty, output: Shape::PathValue });
}

#[test]
fn compose_rejects_shape_mismatch_at_assembly() {
    let first = UnitSignature { deps: Shape::Empty, output: Shape::Text };
    let second = UnitSignature { deps: Shape::PathValue, output: Shape::Empty };
    let err = compose(first, second).unwrap_err();
    assert_eq!(err.expected, Shape::PathValue);
    assert_eq!(err.found, Shape::Text);
}

#[test]
fn compose_chain_checks_every_adjacent_pair() {
    let units = vec![
        UnitSignature { deps: Shape::Empty, output: Shape::PathList },
        UnitSignature { deps: Shape::PathList, output: Shape::PathValue },
        UnitSignature { deps: Shape::PathValue, output: Shape::Empty },
    ];
    let joined = compose_chain(&units).unwrap();
    assert_eq!(joined, UnitSignature { deps: Shape::Empty, output: Shape::Empty });

    let broken = vec![
        UnitSignature { deps: Shape::Empty, output: Shape::PathList },
        UnitSignature { deps: Shape::Text, output: Shape::Empty },
    ];
    assert!(compose_chain(&broken).is_err());
}

#[test]
fn manifest_step_computes_path_and_contents() {
    let step = GenAndroidManifest::new(
        "out".to_string(),
        AndroidManifest::new("<manifest/>".to_string()),
    );
    assert_eq!(step.target_path(), "out/AndroidManifest.xml");
    assert_eq!(step.file_contents(), "<manifest/>\n");
    assert_eq!(
        step.signature(),
        UnitSignature { deps: Shape::Empty, output: Shape::Empty }
    );
}

#[test]
fn manifest_step_contents_follow_configuration() {
    // Re-running with different rendered text writes the new text alone:
    // contents are a pure function of the step's configuration.
    let first = GenAndroidManifest::new(
        "out".to_string(),
        AndroidManifest::new("<manifest package=\"a\"/>".to_string()),
    );
    let second = GenAndroidManifest::new(
        "out".to_string(),
        AndroidManifest::new("<manifest package=\"b\"/>".to_string()),
    );
    assert_eq!(first.target_path(), second.target_path());
    assert_eq!(first.file_contents(), "<manifest package=\"a\"/>\n");
    assert_eq!(second.file_contents(), "<manifest package=\"b\"/>\n");
}
