//! Raw directives that exclusively format and print, without additional
//! checks: one operation per directive kind, each writing exactly one
//! prefixed, terminated line of the fixed grammar.

use vstd::prelude::*;

use crate::output::{line_of, with_key_value, with_value, EmitError, Out, Prefix};

verus! {

/// The directive formatter for the Cargo build tool: every emitted line
/// carries the `cargo:` prefix by default.
pub struct Cargo {
    inner: Prefix,
}

impl Cargo {
    /// The prefix text that starts every line this formatter emits.
    pub closed spec fn prefix_chars(self) -> Seq<char> {
        self.inner.prefix@
    }

    /// Whether the formatter's sink captures emitted text in memory.
    pub closed spec fn is_captured(self) -> bool {
        self.inner.out is Buffer
    }

    /// The text captured so far by an in-memory sink.
    pub closed spec fn captured(self) -> Seq<char> {
        self.inner.out.captured()
    }

    /// What one successful emission does: `post` is `pre` with exactly the
    /// line `prefix + body + "\n"` appended to a capturing sink. The prefix
    /// and the kind of sink never change, and a live sink leaves the
    /// formatter itself untouched.
    pub open spec fn emits(pre: Cargo, post: Cargo, body: Seq<char>) -> bool {
        &&& post.prefix_chars() == pre.prefix_chars()
        &&& post.is_captured() == pre.is_captured()
        &&& pre.is_captured() ==> post.captured() == pre.captured() + line_of(
            pre.prefix_chars(),
            body,
        )
    }

    /// A formatter with the `cargo:` prefix over the given sink.
    pub fn new(out: Out) -> (r: Cargo)
        ensures
            r.prefix_chars() == "cargo:"@,
            r.is_captured() == out.is_captured(),
            out.is_captured() ==> r.captured() == out.captured(),
    {
        Cargo { inner: Prefix { prefix: String::from_str("cargo:"), out: out } }
    }

    /// Turn the formatter back into the prefix context it was wrapping.
    pub fn into_inner(self) -> (r: Prefix)
        ensures
            r.prefix@ == self.prefix_chars(),
            r.out.is_captured() == self.is_captured(),
            self.is_captured() ==> r.out.captured() == self.captured(),
    {
        self.inner
    }

    /// The captured text as a string: empty unless the sink is a buffer.
    pub fn captured_text(&self) -> (r: String)
        ensures
            self.is_captured() ==> r@ == self.captured(),
            !self.is_captured() ==> r@ == Seq::<char>::empty(),
    {
        self.inner.out.captured_text()
    }

    /// Take the sink's scope and write one line's three parts — prefix, body,
    /// terminator — releasing the scope on every exit path.
    fn write_line_parts(&mut self, body: &str) -> (r: Result<(), EmitError>)
        ensures
            old(self).is_captured() ==> r is Ok && Self::emits(
                *old(self),
                *final(self),
                body@,
            ),
            !old(self).is_captured() ==> *final(self) == *old(self),
            r is Err ==> r->Err_0 == EmitError::Io,
    {
        let _guard = self.inner.out.lock();
        let wrote_prefix = self.inner.out.write_str(self.inner.prefix.as_str());
        if wrote_prefix.is_err() {
            return wrote_prefix;
        }
        let wrote_body = self.inner.out.write_str(body);
        if wrote_body.is_err() {
            return wrote_body;
        }
        let wrote_end = self.inner.out.write_str("\n");
        proof {
            assert(old(self).is_captured() ==> self.inner.out.captured() =~= old(
                self,
            ).captured() + line_of(old(self).prefix_chars(), body@));
        }
        wrote_end
    }

    /// Write one directive line as a unit, then flush the sink: the
    /// universal emission step behind every directive operation.
    fn emit(&mut self, body: &str) -> (r: Result<(), EmitError>)
        ensures
            old(self).is_captured() ==> r is Ok,
            Self::emits(*old(self), *final(self), body@),
            !old(self).is_captured() ==> *final(self) == *old(self),
            r is Err ==> r->Err_0 == EmitError::Io,
    {
        let wrote = self.write_line_parts(body);
        if wrote.is_err() {
            return wrote;
        }
        self.inner.out.flush()
    }

    /// Tells Cargo when to re-run the script.
    pub fn rerun_if_changed(&mut self, path: &str) -> (r: Result<(), EmitError>)
        ensures
            Self::emits(*old(self), *final(self), with_value("rerun-if-changed"@, path@)),
            old(self).is_captured() ==> r is Ok,
            !old(self).is_captured() ==> *final(self) == *old(self),
            r is Err ==> r->Err_0 == EmitError::Io,
    {
        let mut body = String::from_str("rerun-if-changed");
        body.append("=");
        body.append(path);
        self.emit(body.as_str())
    }

    /// Tells Cargo when to re-run the script.
    pub fn rerun_if_env_changed(&mut self, var: &str) -> (r: Result<(), EmitError>)
        ensures
            Self::emits(*old(self), *final(self), with_value("rerun-if-env-changed"@, var@)),
            old(self).is_captured() ==> r is Ok,
            !old(self).is_captured() ==> *final(self) == *old(self),
            r is Err ==> r->Err_0 == EmitError::Io,
    {
        let mut body = String::from_str("rerun-if-env-changed");
        body.append("=");
        body.append(var);
        self.emit(body.as_str())
    }

    /// Passes custom flags to a linker for benchmarks, binaries, cdylib
    /// crates, examples, and tests.
    pub fn rustc_link_arg(&mut self, flag: &str) -> (r: Result<(), EmitError>)
        ensures
            Self::emits(*old(self), *final(self), with_value("rustc-link-arg"@, flag@)),
            old(self).is_captured() ==> r is Ok,
            !old(self).is_captured() ==> *final(self) == *old(self),
            r is Err ==> r->Err_0 == EmitError::Io,
    {
        let mut body = String::from_str("rustc-link-arg");
        body.append("=");
        body.append(flag);
        self.emit(body.as_str())
    }

    /// Passes custom flags to a linker for the binary `bin`.
    pub fn rustc_link_arg_bin(&mut self, bin: &str, flag: &str) -> (r: Result<(), EmitError>)
        ensures
            Self::emits(
                *old(self),
                *final(self),
                with_key_value("rustc-link-arg-bin"@, bin@, flag@),
            ),
            old(self).is_captured() ==> r is Ok,
            !old(self).is_captured() ==> *final(self) == *old(self),
            r is Err ==> r->Err_0 == EmitError::Io,
    {
        let mut body = String::from_str("rustc-link-arg-bin");
        body.append("=");
        body.append(bin);
        body.append("=");
        body.append(flag);
        self.emit(body.as_str())
    }

    /// Passes custom flags to a linker for binaries.
    pub fn rustc_link_arg_bins(&mut self, flag: &str) -> (r: Result<(), EmitError>)
        ensures
            Self::emits(*old(self), *final(self), with_value("rustc-link-arg-bins"@, flag@)),
            old(self).is_captured() ==> r is Ok,
            !old(self).is_captured() ==> *final(self) == *old(self),
            r is Err ==> r->Err_0 == EmitError::Io,
    {
        let mut body = String::from_str("rustc-link-arg-bins");
        body.append("=");
        body.append(flag);
        self.emit(body.as_str())
    }

    /// Passes custom flags to a linker for tests.
    pub fn rustc_link_arg_tests(&mut self, flag: &str) -> (r: Result<(), EmitError>)
        ensures
            Self::emits(*old(self), *final(self), with_value("rustc-link-arg-tests"@, flag@)),
            old(self).is_captured() ==> r is Ok,
            !old(self).is_captured() ==> *final(self) == *old(self),
            r is Err ==> r->Err_0 == EmitError::Io,
    {
        let mut body = String::from_str("rustc-link-arg-tests");
        body.append("=");
        body.append(flag);
        self.emit(body.as_str())
    }

    /// Passes custom flags to a linker for examples.
    pub fn rustc_link_arg_examples(&mut self, flag: &str) -> (r: Result<(), EmitError>)
        ensures
            Self::emits(*old(self), *final(self), with_value("rustc-link-arg-examples"@, flag@)),
            old(self).is_captured() ==> r is Ok,
            !old(self).is_captured() ==> *final(self) == *old(self),
            r is Err ==> r->Err_0 == EmitError::Io,
    {
        let mut body = String::from_str("rustc-link-arg-examples");
        body.append("=");
        body.append(flag);
        self.emit(body.as_str())
    }

    /// Passes custom flags to a linker for benchmarks.
    pub fn rustc_link_arg_benches(&mut self, flag: &str) -> (r: Result<(), EmitError>)
        ensures
            Self::emits(*old(self), *final(self), with_value("rustc-link-arg-benches"@, flag@)),
            old(self).is_captured() ==> r is Ok,
            !old(self).is_captured() ==> *final(self) == *old(self),
            r is Err ==> r->Err_0 == EmitError::Io,
    {
        let mut body = String::from_str("rustc-link-arg-benches");
        body.append("=");
        body.append(flag);
        self.emit(body.as_str())
    }

    /// Adds a library to link. The spec is emitted unchanged: any kind or
    /// modifier sub-syntax inside it is the caller's responsibility.
    pub fn rustc_link_lib(&mut self, lib: &str) -> (r: Result<(), EmitError>)
        ensures
            Self::emits(*old(self), *final(self), with_value("rustc-link-lib"@, lib@)),
            old(self).is_captured() ==> r is Ok,
            !old(self).is_captured() ==> *final(self) == *old(self),
            r is Err ==> r->Err_0 == EmitError::Io,
    {
        let mut body = String::from_str("rustc-link-lib");
        body.append("=");
        body.append(lib);
        self.emit(body.as_str())
    }

    /// Adds to the library search path, optionally restricted to a kind of
    /// search: the path alone when `kind` is absent, `kind=path` otherwise.
    pub fn rustc_link_search(&mut self, kind: Option<&str>, path: &str) -> (r: Result<
        (),
        EmitError,
    >)
        ensures
            kind matches Some(k) ==> Self::emits(
                *old(self),
                *final(self),
                with_key_value("rustc-link-search"@, k@, path@),
            ),
            kind is None ==> Self::emits(
                *old(self),
                *final(self),
                with_value("rustc-link-search"@, path@),
            ),
            old(self).is_captured() ==> r is Ok,
            !old(self).is_captured() ==> *final(self) == *old(self),
            r is Err ==> r->Err_0 == EmitError::Io,
    {
        let mut body = String::from_str("rustc-link-search");
        body.append("=");
        match kind {
            Some(k) => {
                body.append(k);
                body.append("=");
                body.append(path);
            },
            None => {
                body.append(path);
            },
        }
        self.emit(body.as_str())
    }

    /// Passes certain flags to the compiler.
    pub fn rustc_flags(&mut self, flags: &str) -> (r: Result<(), EmitError>)
        ensures
            Self::emits(*old(self), *final(self), with_value("rustc-flags"@, flags@)),
            old(self).is_captured() ==> r is Ok,
            !old(self).is_captured() ==> *final(self) == *old(self),
            r is Err ==> r->Err_0 == EmitError::Io,
    {
        let mut body = String::from_str("rustc-flags");
        body.append("=");
        body.append(flags);
        self.emit(body.as_str())
    }

    /// Enables compile-time cfg settings: the key alone when `value` is
    /// absent, `key=value` otherwise.
    pub fn rustc_cfg(&mut self, key: &str, value: Option<&str>) -> (r: Result<(), EmitError>)
        ensures
            value matches Some(v) ==> Self::emits(
                *old(self),
                *final(self),
                with_key_value("rustc-cfg"@, key@, v@),
            ),
            value is None ==> Self::emits(
                *old(self),
                *final(self),
                with_value("rustc-cfg"@, key@),
            ),
            old(self).is_captured() ==> r is Ok,
            !old(self).is_captured() ==> *final(self) == *old(self),
            r is Err ==> r->Err_0 == EmitError::Io,
    {
        let mut body = String::from_str("rustc-cfg");
        body.append("=");
        body.append(key);
        match value {
            Some(v) => {
                body.append("=");
                body.append(v);
            },
            None => {},
        }
        self.emit(body.as_str())
    }

    /// Sets an environment variable.
    pub fn rustc_env(&mut self, var: &str, value: &str) -> (r: Result<(), EmitError>)
        ensures
            Self::emits(*old(self), *final(self), with_key_value("rustc-env"@, var@, value@)),
            old(self).is_captured() ==> r is Ok,
            !old(self).is_captured() ==> *final(self) == *old(self),
            r is Err ==> r->Err_0 == EmitError::Io,
    {
        let mut body = String::from_str("rustc-env");
        body.append("=");
        body.append(var);
        body.append("=");
        body.append(value);
        self.emit(body.as_str())
    }

    /// Passes custom flags to a linker for cdylib crates.
    pub fn rustc_cdylib_link_arg(&mut self, flag: &str) -> (r: Result<(), EmitError>)
        ensures
            Self::emits(*old(self), *final(self), with_value("rustc-cdylib-link-arg"@, flag@)),
            old(self).is_captured() ==> r is Ok,
            !old(self).is_captured() ==> *final(self) == *old(self),
            r is Err ==> r->Err_0 == EmitError::Io,
    {
        let mut body = String::from_str("rustc-cdylib-link-arg");
        body.append("=");
        body.append(flag);
        self.emit(body.as_str())
    }

    /// Displays a warning on the terminal.
    pub fn warning(&mut self, message: &str) -> (r: Result<(), EmitError>)
        ensures
            Self::emits(*old(self), *final(self), with_value("warning"@, message@)),
            old(self).is_captured() ==> r is Ok,
            !old(self).is_captured() ==> *final(self) == *old(self),
            r is Err ==> r->Err_0 == EmitError::Io,
    {
        let mut body = String::from_str("warning");
        body.append("=");
        body.append(message);
        self.emit(body.as_str())
    }

    /// Metadata, used by links scripts: a bare `key=value` body with no
    /// directive-name segment at all.
    pub fn metadata(&mut self, key: &str, value: &str) -> (r: Result<(), EmitError>)
        ensures
            Self::emits(*old(self), *final(self), with_value(key@, value@)),
            old(self).is_captured() ==> r is Ok,
            !old(self).is_captured() ==> *final(self) == *old(self),
            r is Err ==> r->Err_0 == EmitError::Io,
    {
        let mut body = String::from_str(key);
        body.append("=");
        body.append(value);
        self.emit(body.as_str())
    }
}

impl Default for Cargo {
    /// The default formatter: the `cargo:` prefix over the live standard
    /// output.
    fn default() -> (r: Self)
        ensures
            r.prefix_chars() == "cargo:"@,
            !r.is_captured(),
    {
        Cargo::new(Out::default())
    }
}

/// Law: successive directives land in call order — after two emissions on a
/// capturing sink, the captured text is the starting text followed by the
/// first call's line and then the second call's line, with nothing between,
/// reordered, or interleaved.
pub proof fn lemma_lines_in_call_order(
    c0: Cargo,
    c1: Cargo,
    c2: Cargo,
    body1: Seq<char>,
    body2: Seq<char>,
)
    requires
        c0.is_captured(),
        Cargo::emits(c0, c1, body1),
        Cargo::emits(c1, c2, body2),
    ensures
        c2.captured() == c0.captured() + line_of(c0.prefix_chars(), body1) + line_of(
            c0.prefix_chars(),
            body2,
        ),
        c2.prefix_chars() == c0.prefix_chars(),
        c2.is_captured(),
{
}

} // verus!
