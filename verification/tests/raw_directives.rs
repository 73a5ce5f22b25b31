//! Byte-exact expected output for every raw directive kind.

use build_instructions::output::Out;
use build_instructions::raw;

/// Creates a raw formatter that uses an in-memory buffer for output.
fn cargo_buffer() -> raw::Cargo {
    raw::Cargo::new(Out::Buffer(String::new()))
}

/// Grab the buffer as a `String`.
fn buffer_value(cargo: &raw::Cargo) -> String {
    cargo.captured_text()
}

#[test]
fn raw_rerun_if_changed() {
    let mut cargo = cargo_buffer();
    cargo.rerun_if_changed("asdf.txt").unwrap();
    assert_eq!(buffer_value(&cargo), "cargo:rerun-if-changed=asdf.txt\n");
}

#[test]
fn rerun_if_env_changed() {
    let mut cargo = cargo_buffer();
    cargo.rerun_if_env_changed("ASDF").unwrap();
    assert_eq!(buffer_value(&cargo), "cargo:rerun-if-env-changed=ASDF\n");
}

#[test]
fn rustc_link_arg() {
    let mut cargo = cargo_buffer();
    cargo.rustc_link_arg("-static").unwrap();
    assert_eq!(buffer_value(&cargo), "cargo:rustc-link-arg=-static\n");
}

#[test]
fn rustc_link_arg_bin() {
    let mut cargo = cargo_buffer();
    cargo.rustc_link_arg_bin("cli", "-static").unwrap();
    assert_eq!(buffer_value(&cargo), "cargo:rustc-link-arg-bin=cli=-static\n");

    let mut cargo = cargo_buffer();
    cargo.rustc_link_arg_bin("server", "-shared").unwrap();
    assert_eq!(buffer_value(&cargo), "cargo:rustc-link-arg-bin=server=-shared\n");
}

#[test]
fn rustc_link_arg_bins() {
    let mut cargo = cargo_buffer();
    cargo.rustc_link_arg_bins("-static").unwrap();
    assert_eq!(buffer_value(&cargo), "cargo:rustc-link-arg-bins=-static\n");
}

#[test]
fn rustc_link_arg_tests() {
    let mut cargo = cargo_buffer();
    cargo.rustc_link_arg_tests("-static").unwrap();
    assert_eq!(buffer_value(&cargo), "cargo:rustc-link-arg-tests=-static\n");
}

#[test]
fn rustc_link_arg_examples() {
    let mut cargo = cargo_buffer();
    cargo.rustc_link_arg_examples("-static").unwrap();
    assert_eq!(buffer_value(&cargo), "cargo:rustc-link-arg-examples=-static\n");
}

#[test]
fn rustc_link_arg_benches() {
    let mut cargo = cargo_buffer();
    cargo.rustc_link_arg_benches("-static").unwrap();
    assert_eq!(buffer_value(&cargo), "cargo:rustc-link-arg-benches=-static\n");
}

#[test]
fn rustc_link_lib() {
    let mut cargo = cargo_buffer();
    cargo.rustc_link_lib("static:+whole-archive=mylib").unwrap();
    assert_eq!(buffer_value(&cargo), "cargo:rustc-link-lib=static:+whole-archive=mylib\n");
}

#[test]
fn rustc_link_search() {
    let mut cargo = cargo_buffer();
    cargo.rustc_link_search(None, "mylib").unwrap();
    assert_eq!(buffer_value(&cargo), "cargo:rustc-link-search=mylib\n");

    let mut cargo = cargo_buffer();
    cargo.rustc_link_search(Some("crate"), "mylib").unwrap();
    assert_eq!(buffer_value(&cargo), "cargo:rustc-link-search=crate=mylib\n");
}

#[test]
fn rustc_flags() {
    let mut cargo = cargo_buffer();
    cargo.rustc_flags("-Clto").unwrap();
    assert_eq!(buffer_value(&cargo), "cargo:rustc-flags=-Clto\n");
}

#[test]
fn rustc_cfg() {
    let mut cargo = cargo_buffer();
    cargo.rustc_cfg("asdf", Some("hjkl")).unwrap();
    assert_eq!(buffer_value(&cargo), "cargo:rustc-cfg=asdf=hjkl\n");

    let mut cargo = cargo_buffer();
    cargo.rustc_cfg("asdf", None).unwrap();
    assert_eq!(buffer_value(&cargo), "cargo:rustc-cfg=asdf\n");
}

#[test]
fn rustc_env() {
    let mut cargo = cargo_buffer();
    cargo.rustc_env("EDITOR", "vim").unwrap();
    assert_eq!(buffer_value(&cargo), "cargo:rustc-env=EDITOR=vim\n");
}

#[test]
fn rustc_cdylib_link_arg() {
    let mut cargo = cargo_buffer();
    cargo.rustc_cdylib_link_arg("-pie").unwrap();
    assert_eq!(buffer_value(&cargo), "cargo:rustc-cdylib-link-arg=-pie\n");
}

#[test]
fn warning() {
    let mut cargo = cargo_buffer();
    cargo.warning("teapot").unwrap();
    assert_eq!(buffer_value(&cargo), "cargo:warning=teapot\n");
}

#[test]
fn metadata() {
    let mut cargo = cargo_buffer();
    cargo.metadata("asdf", "hjkl").unwrap();
    assert_eq!(buffer_value(&cargo), "cargo:asdf=hjkl\n");
}
