//! The convenience layer: path policies, delegation, and the sink accessors.

use build_instructions::output::{EmitError, Out};
use build_instructions::{raw, Cargo, PathBehavior};

/// A relative path that no test environment is expected to contain.
const MISSING_PATH: &str = "no_such_file_4b1f0c2d9e.txt";

/// Creates a convenience-layer `Cargo` over an in-memory buffer.
fn cargo_buffer() -> Cargo {
    Cargo::from(raw::Cargo::new(Out::Buffer(String::new())))
}

#[test]
fn lib_rerun_if_changed() {}

#[test]
fn rerun_must_exist_missing_path_fails_and_emits_nothing() {
    let mut cargo = cargo_buffer();
    let r = cargo.rerun_if_changed(MISSING_PATH, PathBehavior::MustExist);
    assert_eq!(r, Err(EmitError::NotFound));
    assert_eq!(cargo.captured_text(), "");
}

#[test]
fn rerun_only_if_exists_missing_path_succeeds_and_emits_nothing() {
    let mut cargo = cargo_buffer();
    let r = cargo.rerun_if_changed(MISSING_PATH, PathBehavior::OnlyIfExists);
    assert_eq!(r, Ok(()));
    assert_eq!(cargo.captured_text(), "");
}

#[test]
fn rerun_always_missing_path_still_emits() {
    let mut cargo = cargo_buffer();
    let r = cargo.rerun_if_changed(MISSING_PATH, PathBehavior::Always);
    assert_eq!(r, Ok(()));
    assert_eq!(
        cargo.captured_text(),
        format!("cargo:rerun-if-changed={}\n", MISSING_PATH)
    );
}

#[test]
fn rerun_existing_path_emits_under_every_policy() {
    for behavior in [PathBehavior::Always, PathBehavior::OnlyIfExists, PathBehavior::MustExist] {
        let mut cargo = cargo_buffer();
        let r = cargo.rerun_if_changed(".", behavior);
        assert_eq!(r, Ok(()));
        assert_eq!(cargo.captured_text(), "cargo:rerun-if-changed=.\n");
    }
}

#[test]
fn rerun_given_answer_decides_without_the_filesystem() {
    let mut cargo = cargo_buffer();
    let r = cargo.rerun_if_changed_given(MISSING_PATH, PathBehavior::OnlyIfExists, true);
    assert_eq!(r, Ok(()));
    assert_eq!(
        cargo.captured_text(),
        format!("cargo:rerun-if-changed={}\n", MISSING_PATH)
    );

    let mut cargo = cargo_buffer();
    let r = cargo.rerun_if_changed_given(".", PathBehavior::MustExist, false);
    assert_eq!(r, Err(EmitError::NotFound));
    assert_eq!(cargo.captured_text(), "");
}

#[test]
fn delegates_format_like_the_raw_formatter() {
    let mut cargo = cargo_buffer();
    cargo.rerun_if_env_changed("ASDF").unwrap();
    assert_eq!(cargo.captured_text(), "cargo:rerun-if-env-changed=ASDF\n");

    let mut cargo = cargo_buffer();
    cargo.rustc_link_arg("-static").unwrap();
    assert_eq!(cargo.captured_text(), "cargo:rustc-link-arg=-static\n");

    let mut cargo = cargo_buffer();
    cargo.rustc_link_arg_bin("cli", "-static").unwrap();
    assert_eq!(cargo.captured_text(), "cargo:rustc-link-arg-bin=cli=-static\n");

    let mut cargo = cargo_buffer();
    cargo.rustc_link_arg_bins("-static").unwrap();
    assert_eq!(cargo.captured_text(), "cargo:rustc-link-arg-bins=-static\n");

    let mut cargo = cargo_buffer();
    cargo.rustc_link_arg_tests("-static").unwrap();
    assert_eq!(cargo.captured_text(), "cargo:rustc-link-arg-tests=-static\n");

    let mut cargo = cargo_buffer();
    cargo.rustc_link_arg_examples("-static").unwrap();
    assert_eq!(cargo.captured_text(), "cargo:rustc-link-arg-examples=-static\n");

    let mut cargo = cargo_buffer();
    cargo.rustc_link_arg_benches("-static").unwrap();
    assert_eq!(cargo.captured_text(), "cargo:rustc-link-arg-benches=-static\n");

    let mut cargo = cargo_buffer();
    cargo.rustc_link_lib("mylib").unwrap();
    assert_eq!(cargo.captured_text(), "cargo:rustc-link-lib=mylib\n");

    let mut cargo = cargo_buffer();
    cargo.rustc_link_search(Some("crate"), "mylib").unwrap();
    assert_eq!(cargo.captured_text(), "cargo:rustc-link-search=crate=mylib\n");

    let mut cargo = cargo_buffer();
    cargo.rustc_flags("-Clto").unwrap();
    assert_eq!(cargo.captured_text(), "cargo:rustc-flags=-Clto\n");

    let mut cargo = cargo_buffer();
    cargo.rustc_cfg("asdf", Some("hjkl")).unwrap();
    assert_eq!(cargo.captured_text(), "cargo:rustc-cfg=asdf=hjkl\n");

    let mut cargo = cargo_buffer();
    cargo.rustc_env("EDITOR", "vim").unwrap();
    assert_eq!(cargo.captured_text(), "cargo:rustc-env=EDITOR=vim\n");

    let mut cargo = cargo_buffer();
    cargo.rustc_cdylib_link_arg("-pie").unwrap();
    assert_eq!(cargo.captured_text(), "cargo:rustc-cdylib-link-arg=-pie\n");

    let mut cargo = cargo_buffer();
    cargo.warning("teapot").unwrap();
    assert_eq!(cargo.captured_text(), "cargo:warning=teapot\n");

    let mut cargo = cargo_buffer();
    cargo.metadata("asdf", "hjkl").unwrap();
    assert_eq!(cargo.captured_text(), "cargo:asdf=hjkl\n");
}

#[test]
fn into_inner_keeps_the_captured_text() {
    let mut cargo = cargo_buffer();
    cargo.warning("teapot").unwrap();
    let raw_cargo = cargo.into_inner();
    assert_eq!(raw_cargo.captured_text(), "cargo:warning=teapot\n");
    let prefix = raw_cargo.into_inner();
    assert_eq!(prefix.prefix, "cargo:");
    assert_eq!(prefix.out.captured_text(), "cargo:warning=teapot\n");
}

#[test]
fn raw_mut_reaches_the_underlying_formatter() {
    let mut cargo = cargo_buffer();
    cargo.raw_mut().rerun_if_changed(MISSING_PATH).unwrap();
    assert_eq!(
        cargo.captured_text(),
        format!("cargo:rerun-if-changed={}\n", MISSING_PATH)
    );
}
