//! Build-tool directives, formatted and emitted one line at a time.
//!
//! A compile-time script talks to the build tool that runs it by printing
//! directive lines to its standard output. Each directive is a typed
//! constructor that renders its arguments into the fixed `key=value` grammar
//! and writes exactly one prefixed, newline-terminated line through an output
//! sink. The sink is either the live standard output or an in-memory capture
//! buffer, so that emitted text can be compared byte for byte.

use vstd::prelude::*;

pub mod output;
pub mod raw;

verus! {

/// Directives for the Cargo build tool, with minor usability enhancements
/// over the raw formatter: a filesystem pre-check for path directives, and a
/// plain delegate for every other directive kind.
pub struct Cargo {
    inner: raw::Cargo,
}

/// How checking a path should behave for a directive about that path.
#[derive(Clone, Copy, Debug, PartialEq, Eq, Structural)]
pub enum PathBehavior {
    /// The directive is emitted only if the path exists, otherwise ignored.
    OnlyIfExists,
    /// The path must exist, or the directive fails and emits nothing.
    MustExist,
    /// The directive is always emitted and the path not checked.
    Always,
}

impl PathBehavior {
    /// Whether a directive about a path is emitted under this policy, given
    /// whether the path exists.
    pub open spec fn emits_for(self, exists: bool) -> bool {
        self is Always || exists
    }
}

/// Relies on std::path::Path::exists: asks the host filesystem whether the
/// path currently names an existing entity. The answer depends on the state
/// of the disk, so nothing is promised of it.
#[verifier::external_body]
fn path_exists(path: &str) -> bool {
    std::path::Path::new(path).exists()
}

impl Cargo {
    /// The raw formatter this convenience layer wraps.
    pub closed spec fn as_raw(self) -> raw::Cargo {
        self.inner
    }

    /// Whether the underlying sink captures emitted text in memory.
    pub open spec fn is_captured(self) -> bool {
        self.as_raw().is_captured()
    }

    /// The text captured so far by an in-memory sink.
    pub open spec fn captured(self) -> Seq<char> {
        self.as_raw().captured()
    }

    /// The full outcome `rerun_if_changed` owes under `behavior` when the
    /// filesystem answered `exists`: emit the directive line, skip with
    /// success, or fail with `NotFound` and emit nothing.
    pub open spec fn rerun_outcome(
        pre: Cargo,
        post: Cargo,
        path: Seq<char>,
        behavior: PathBehavior,
        exists: bool,
        r: Result<(), output::EmitError>,
    ) -> bool {
        &&& behavior.emits_for(exists) ==> {
            &&& raw::Cargo::emits(
                pre.as_raw(),
                post.as_raw(),
                output::with_value("rerun-if-changed"@, path),
            )
            &&& (pre.is_captured() ==> r is Ok)
            &&& (r is Err ==> r->Err_0 == output::EmitError::Io)
        }
        &&& (!behavior.emits_for(exists) && behavior is OnlyIfExists) ==> (r == Ok::<
            (),
            output::EmitError,
        >(()) && post == pre)
        &&& (!behavior.emits_for(exists) && behavior is MustExist) ==> (r == Err::<
            (),
            output::EmitError,
        >(output::EmitError::NotFound) && post == pre)
    }

    /// Turn this layer into the underlying raw formatter.
    pub fn into_inner(self) -> (r: raw::Cargo)
        ensures
            r == self.as_raw(),
    {
        self.inner
    }

    /// A mutable reference to the underlying raw formatter.
    pub fn raw_mut(&mut self) -> (r: &mut raw::Cargo)
        ensures
            *r == old(self).as_raw(),
            final(self).as_raw() == *final(r),
    {
        &mut self.inner
    }

    /// The captured text as a string: empty unless the sink is a buffer.
    pub fn captured_text(&self) -> (r: String)
        ensures
            self.is_captured() ==> r@ == self.captured(),
            !self.is_captured() ==> r@ == Seq::<char>::empty(),
    {
        self.inner.captured_text()
    }

    /// The policy step of `rerun_if_changed`, taking the path-existence
    /// answer as an argument instead of asking the filesystem. Everything
    /// this layer decides is decided here.
    pub fn rerun_if_changed_given(
        &mut self,
        path: &str,
        behavior: PathBehavior,
        exists: bool,
    ) -> (r: Result<(), output::EmitError>)
        ensures
            Self::rerun_outcome(*old(self), *final(self), path@, behavior, exists, r),
            !old(self).is_captured() ==> *final(self) == *old(self),
    {
        match behavior {
            PathBehavior::Always => self.inner.rerun_if_changed(path),
            PathBehavior::OnlyIfExists => if exists {
                self.inner.rerun_if_changed(path)
            } else {
                Ok(())
            },
            PathBehavior::MustExist => if exists {
                self.inner.rerun_if_changed(path)
            } else {
                Err(output::EmitError::NotFound)
            },
        }
    }

    /// Tells Cargo when to re-run the script.
    ///
    /// The path is checked against the host filesystem, and how the
    /// directive is emitted depends on the `PathBehavior` set: whatever the
    /// filesystem answers, the outcome is the one `rerun_outcome` owes for
    /// that answer — under `Always` the directive is emitted regardless.
    pub fn rerun_if_changed(&mut self, path: &str, behavior: PathBehavior) -> (r: Result<
        (),
        output::EmitError,
    >)
        ensures
            exists|on_disk: bool|
                Self::rerun_outcome(*old(self), *final(self), path@, behavior, on_disk, r),
            behavior is Always ==> raw::Cargo::emits(
                old(self).as_raw(),
                final(self).as_raw(),
                output::with_value("rerun-if-changed"@, path@),
            ) && (old(self).is_captured() ==> r is Ok),
            !old(self).is_captured() ==> *final(self) == *old(self),
    {
        let exists = path_exists(path);
        let r = self.rerun_if_changed_given(path, behavior, exists);
        proof {
            assert(Self::rerun_outcome(*old(self), *final(self), path@, behavior, exists, r));
        }
        r
    }

    /// Tells Cargo when to re-run the script.
    pub fn rerun_if_env_changed(&mut self, var: &str) -> (r: Result<(), output::EmitError>)
        ensures
            raw::Cargo::emits(
                old(self).as_raw(),
                final(self).as_raw(),
                output::with_value("rerun-if-env-changed"@, var@),
            ),
            old(self).is_captured() ==> r is Ok,
            !old(self).is_captured() ==> *final(self) == *old(self),
            r is Err ==> r->Err_0 == output::EmitError::Io,
    {
        self.inner.rerun_if_env_changed(var)
    }

    /// Passes custom flags to a linker for benchmarks, binaries, cdylib
    /// crates, examples, and tests.
    pub fn rustc_link_arg(&mut self, flag: &str) -> (r: Result<(), output::EmitError>)
        ensures
            raw::Cargo::emits(
                old(self).as_raw(),
                final(self).as_raw(),
                output::with_value("rustc-link-arg"@, flag@),
            ),
            old(self).is_captured() ==> r is Ok,
            !old(self).is_captured() ==> *final(self) == *old(self),
            r is Err ==> r->Err_0 == output::EmitError::Io,
    {
        self.inner.rustc_link_arg(flag)
    }

    /// Passes custom flags to a linker for the binary `bin`.
    pub fn rustc_link_arg_bin(&mut self, bin: &str, flag: &str) -> (r: Result<
        (),
        output::EmitError,
    >)
        ensures
            raw::Cargo::emits(
                old(self).as_raw(),
                final(self).as_raw(),
                output::with_key_value("rustc-link-arg-bin"@, bin@, flag@),
            ),
            old(self).is_captured() ==> r is Ok,
            !old(self).is_captured() ==> *final(self) == *old(self),
            r is Err ==> r->Err_0 == output::EmitError::Io,
    {
        self.inner.rustc_link_arg_bin(bin, flag)
    }

    /// Passes custom flags to a linker for binaries.
    pub fn rustc_link_arg_bins(&mut self, flag: &str) -> (r: Result<(), output::EmitError>)
        ensures
            raw::Cargo::emits(
                old(self).as_raw(),
                final(self).as_raw(),
                output::with_value("rustc-link-arg-bins"@, flag@),
            ),
            old(self).is_captured() ==> r is Ok,
            !old(self).is_captured() ==> *final(self) == *old(self),
            r is Err ==> r->Err_0 == output::EmitError::Io,
    {
        self.inner.rustc_link_arg_bins(flag)
    }

    /// Passes custom flags to a linker for tests.
    pub fn rustc_link_arg_tests(&mut self, flag: &str) -> (r: Result<(), output::EmitError>)
        ensures
            raw::Cargo::emits(
                old(self).as_raw(),
                final(self).as_raw(),
                output::with_value("rustc-link-arg-tests"@, flag@),
            ),
            old(self).is_captured() ==> r is Ok,
            !old(self).is_captured() ==> *final(self) == *old(self),
            r is Err ==> r->Err_0 == output::EmitError::Io,
    {
        self.inner.rustc_link_arg_tests(flag)
    }

    /// Passes custom flags to a linker for examples.
    pub fn rustc_link_arg_examples(&mut self, flag: &str) -> (r: Result<(), output::EmitError>)
        ensures
            raw::Cargo::emits(
                old(self).as_raw(),
                final(self).as_raw(),
                output::with_value("rustc-link-arg-examples"@, flag@),
            ),
            old(self).is_captured() ==> r is Ok,
            !old(self).is_captured() ==> *final(self) == *old(self),
            r is Err ==> r->Err_0 == output::EmitError::Io,
    {
        self.inner.rustc_link_arg_examples(flag)
    }

    /// Passes custom flags to a linker for benchmarks.
    pub fn rustc_link_arg_benches(&mut self, flag: &str) -> (r: Result<(), output::EmitError>)
        ensures
            raw::Cargo::emits(
                old(self).as_raw(),
                final(self).as_raw(),
                output::with_value("rustc-link-arg-benches"@, flag@),
            ),
            old(self).is_captured() ==> r is Ok,
            !old(self).is_captured() ==> *final(self) == *old(self),
            r is Err ==> r->Err_0 == output::EmitError::Io,
    {
        self.inner.rustc_link_arg_benches(flag)
    }

    /// Adds a library to link.
    pub fn rustc_link_lib(&mut self, lib: &str) -> (r: Result<(), output::EmitError>)
        ensures
            raw::Cargo::emits(
                old(self).as_raw(),
                final(self).as_raw(),
                output::with_value("rustc-link-lib"@, lib@),
            ),
            old(self).is_captured() ==> r is Ok,
            !old(self).is_captured() ==> *final(self) == *old(self),
            r is Err ==> r->Err_0 == output::EmitError::Io,
    {
        self.inner.rustc_link_lib(lib)
    }

    /// Adds to the library search path.
    pub fn rustc_link_search(&mut self, kind: Option<&str>, path: &str) -> (r: Result<
        (),
        output::EmitError,
    >)
        ensures
            kind matches Some(k) ==> raw::Cargo::emits(
                old(self).as_raw(),
                final(self).as_raw(),
                output::with_key_value("rustc-link-search"@, k@, path@),
            ),
            kind is None ==> raw::Cargo::emits(
                old(self).as_raw(),
                final(self).as_raw(),
                output::with_value("rustc-link-search"@, path@),
            ),
            old(self).is_captured() ==> r is Ok,
            !old(self).is_captured() ==> *final(self) == *old(self),
            r is Err ==> r->Err_0 == output::EmitError::Io,
    {
        self.inner.rustc_link_search(kind, path)
    }

    /// Passes certain flags to the compiler.
    pub fn rustc_flags(&mut self, flags: &str) -> (r: Result<(), output::EmitError>)
        ensures
            raw::Cargo::emits(
                old(self).as_raw(),
                final(self).as_raw(),
                output::with_value("rustc-flags"@, flags@),
            ),
            old(self).is_captured() ==> r is Ok,
            !old(self).is_captured() ==> *final(self) == *old(self),
            r is Err ==> r->Err_0 == output::EmitError::Io,
    {
        self.inner.rustc_flags(flags)
    }

    /// Enables compile-time cfg settings.
    pub fn rustc_cfg(&mut self, key: &str, value: Option<&str>) -> (r: Result<
        (),
        output::EmitError,
    >)
        ensures
            value matches Some(v) ==> raw::Cargo::emits(
                old(self).as_raw(),
                final(self).as_raw(),
                output::with_key_value("rustc-cfg"@, key@, v@),
            ),
            value is None ==> raw::Cargo::emits(
                old(self).as_raw(),
                final(self).as_raw(),
                output::with_value("rustc-cfg"@, key@),
            ),
            old(self).is_captured() ==> r is Ok,
            !old(self).is_captured() ==> *final(self) == *old(self),
            r is Err ==> r->Err_0 == output::EmitError::Io,
    {
        self.inner.rustc_cfg(key, value)
    }

    /// Sets an environment variable.
    pub fn rustc_env(&mut self, var: &str, value: &str) -> (r: Result<(), output::EmitError>)
        ensures
            raw::Cargo::emits(
                old(self).as_raw(),
                final(self).as_raw(),
                output::with_key_value("rustc-env"@, var@, value@),
            ),
            old(self).is_captured() ==> r is Ok,
            !old(self).is_captured() ==> *final(self) == *old(self),
            r is Err ==> r->Err_0 == output::EmitError::Io,
    {
        self.inner.rustc_env(var, value)
    }

    /// Passes custom flags to a linker for cdylib crates.
    pub fn rustc_cdylib_link_arg(&mut self, flag: &str) -> (r: Result<(), output::EmitError>)
        ensures
            raw::Cargo::emits(
                old(self).as_raw(),
                final(self).as_raw(),
                output::with_value("rustc-cdylib-link-arg"@, flag@),
            ),
            old(self).is_captured() ==> r is Ok,
            !old(self).is_captured() ==> *final(self) == *old(self),
            r is Err ==> r->Err_0 == output::EmitError::Io,
    {
        self.inner.rustc_cdylib_link_arg(flag)
    }

    /// Displays a warning on the terminal.
    pub fn warning(&mut self, message: &str) -> (r: Result<(), output::EmitError>)
        ensures
            raw::Cargo::emits(
                old(self).as_raw(),
                final(self).as_raw(),
                output::with_value("warning"@, message@),
            ),
            old(self).is_captured() ==> r is Ok,
            !old(self).is_captured() ==> *final(self) == *old(self),
            r is Err ==> r->Err_0 == output::EmitError::Io,
    {
        self.inner.warning(message)
    }

    /// Metadata, used by links scripts.
    pub fn metadata(&mut self, key: &str, value: &str) -> (r: Result<(), output::EmitError>)
        ensures
            raw::Cargo::emits(
                old(self).as_raw(),
                final(self).as_raw(),
                output::with_value(key@, value@),
            ),
            old(self).is_captured() ==> r is Ok,
            !old(self).is_captured() ==> *final(self) == *old(self),
            r is Err ==> r->Err_0 == output::EmitError::Io,
    {
        self.inner.metadata(key, value)
    }
}

impl From<raw::Cargo> for Cargo {
    /// Wrap a raw formatter in the convenience layer.
    fn from(inner: raw::Cargo) -> (r: Self) {
        Cargo { inner }
    }
}

impl vstd::std_specs::convert::FromSpecImpl<raw::Cargo> for Cargo {
    open spec fn obeys_from_spec() -> bool {
        true
    }

    closed spec fn from_spec(inner: raw::Cargo) -> Cargo {
        Cargo { inner }
    }
}

impl Default for Cargo {
    /// The default layer: a raw formatter with the `cargo:` prefix over the
    /// live standard output.
    fn default() -> (r: Self)
        ensures
            r.as_raw().prefix_chars() == "cargo:"@,
            !r.is_captured(),
    {
        Cargo { inner: raw::Cargo::default() }
    }
}

/// Law: wrapping a raw formatter keeps it exactly: the layer built `from` a
/// raw formatter wraps that formatter, and `into_inner` hands it back.
pub proof fn lemma_from_raw_round_trip(inner: raw::Cargo)
    ensures
        <Cargo as vstd::std_specs::convert::FromSpec<raw::Cargo>>::from_spec(inner).as_raw()
            == inner,
{
}

} // verus!
