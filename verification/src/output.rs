//! Where emitted directives go: the output sink, the exclusive-access guard
//! held while one line is written, and the line grammar that every directive
//! body is rendered into.

use vstd::prelude::*;

verus! {

/// The one failure kind of this layer. Write and flush faults on the live
/// stream surface as `Io`; a path that policy required to exist but that was
/// not found surfaces as `NotFound`.
#[derive(Clone, Copy, Debug, PartialEq, Eq, Structural)]
pub enum EmitError {
    /// Writing to or flushing the live output stream failed.
    Io,
    /// A required filesystem path does not exist.
    NotFound,
}

/// One emitted line: the context's prefix, then the rendered directive body,
/// then the line terminator.
pub open spec fn line_of(prefix: Seq<char>, body: Seq<char>) -> Seq<char> {
    prefix + body + "\n"@
}

/// A directive body with one required value: `name=value`.
pub open spec fn with_value(name: Seq<char>, value: Seq<char>) -> Seq<char> {
    name + "="@ + value
}

/// A directive body with a keyed value: `name=key=value`.
pub open spec fn with_key_value(name: Seq<char>, key: Seq<char>, value: Seq<char>) -> Seq<char> {
    name + "="@ + key + "="@ + value
}

/// Declares std::io::Stdout, the live stream's handle, as an opaque type.
#[verifier::external_type_specification]
#[verifier::external_body]
pub struct ExStdout(std::io::Stdout);

/// Declares std::io::StdoutLock, the live stream's exclusive-write guard, as
/// an opaque type.
#[verifier::external_type_specification]
#[verifier::external_body]
pub struct ExStdoutLock<'a>(std::io::StdoutLock<'a>);

/// Relies on std::io::stdout: returns a handle to the process's standard
/// output stream.
#[verifier::external_body]
pub(crate) fn stdout_handle() -> std::io::Stdout {
    std::io::stdout()
}

/// Relies on std::io::Stdout::lock: takes the stream's exclusive-write scope,
/// held until the returned guard is dropped, so that the bytes of one line
/// cannot interleave with another writer's.
#[verifier::external_body]
fn stdout_lock(handle: &std::io::Stdout) -> std::io::StdoutLock<'static> {
    handle.lock()
}

/// Relies on std::io::Write::write_all on the standard output stream: on
/// success every byte of the argument's UTF-8 form was written; on failure an
/// I/O error is reported and nothing can be assumed about the stream.
#[verifier::external_body]
fn stdout_write_str(handle: &std::io::Stdout, s: &str) -> (r: Result<(), EmitError>)
    ensures
        r is Err ==> r->Err_0 == EmitError::Io,
{
    let mut out = handle;
    std::io::Write::write_all(&mut out, s.as_bytes()).map_err(|_e| EmitError::Io)
}

/// Relies on std::io::Write::flush on the standard output stream: any
/// buffered bytes are handed to the host, or an I/O error is reported.
#[verifier::external_body]
fn stdout_flush(handle: &std::io::Stdout) -> (r: Result<(), EmitError>)
    ensures
        r is Err ==> r->Err_0 == EmitError::Io,
{
    let mut out = handle;
    std::io::Write::flush(&mut out).map_err(|_e| EmitError::Io)
}

/// Destination for emitted directive text.
pub enum Out {
    /// The live standard output of the process — what a build script uses.
    Stdout(std::io::Stdout),
    /// An in-memory buffer, useful for checking emitted text exactly.
    Buffer(String),
}

/// A guard for the exclusive-write scope of a sink, released when dropped.
/// Only the live stream has real contention; for a buffer the guard is empty.
pub struct OutLock {
    guard: Option<std::io::StdoutLock<'static>>,
}

impl OutLock {
    /// Whether this guard holds the live stream's exclusive-write scope.
    pub closed spec fn holds_stream(self) -> bool {
        self.guard is Some
    }
}

impl Out {
    /// Whether this sink captures emitted text in memory.
    pub open spec fn is_captured(self) -> bool {
        self is Buffer
    }

    /// The text captured so far; meaningful only for a capturing sink.
    pub open spec fn captured(self) -> Seq<char> {
        self->Buffer_0@
    }

    /// Lock the output, if applicable: the live stream's exclusive-write
    /// scope is taken, a buffer needs none.
    pub fn lock(&self) -> (r: OutLock)
        ensures
            r.holds_stream() <==> self is Stdout,
    {
        match self {
            Out::Stdout(handle) => OutLock { guard: Some(stdout_lock(handle)) },
            Out::Buffer(_) => OutLock { guard: None },
        }
    }

    /// Write a piece of text to the sink: appended to a buffer, handed to the
    /// live stream otherwise.
    pub fn write_str(&mut self, s: &str) -> (r: Result<(), EmitError>)
        ensures
            *old(self) is Buffer ==> *final(self) is Buffer && r is Ok
                && final(self).captured() == old(self).captured() + s@,
            *old(self) is Stdout ==> *final(self) == *old(self),
            r is Err ==> r->Err_0 == EmitError::Io,
    {
        match self {
            Out::Stdout(handle) => stdout_write_str(handle, s),
            Out::Buffer(buffer) => {
                buffer.append(s);
                Ok(())
            },
        }
    }

    /// Flush the output, if applicable: a real flush of the live stream, a
    /// no-op for a buffer.
    pub fn flush(&mut self) -> (r: Result<(), EmitError>)
        ensures
            *final(self) == *old(self),
            *old(self) is Buffer ==> r is Ok,
            r is Err ==> r->Err_0 == EmitError::Io,
    {
        match &*self {
            Out::Stdout(handle) => stdout_flush(handle),
            Out::Buffer(_) => Ok(()),
        }
    }

    /// The captured text as a string: the buffer's contents for a capturing
    /// sink, empty for the live stream (whose output is not retrievable).
    pub fn captured_text(&self) -> (r: String)
        ensures
            self is Buffer ==> r@ == self.captured(),
            self is Stdout ==> r@ == Seq::<char>::empty(),
    {
        match self {
            Out::Buffer(buffer) => buffer.clone(),
            Out::Stdout(_) => String::new(),
        }
    }
}

impl Default for Out {
    /// The default sink is the live standard output.
    fn default() -> (r: Self)
        ensures
            r is Stdout,
    {
        Out::Stdout(stdout_handle())
    }
}

/// How a tool marks a directive line as its own, and where the line goes.
///
/// Every emitted line is `prefix + body + line terminator`. If the prefix has
/// a delimiter, such as `:` in `cargo:`, the prefix string must already
/// include it: the formatter never inserts one.
pub struct Prefix {
    /// The literal leading text of every emitted line.
    pub prefix: String,
    /// Where this context outputs directives.
    pub out: Out,
}

impl Default for Prefix {
    /// An empty prefix over the live standard output.
    fn default() -> (r: Self)
        ensures
            r.prefix@ == Seq::<char>::empty(),
            r.out is Stdout,
    {
        Prefix { prefix: String::new(), out: Out::Stdout(stdout_handle()) }
    }
}

/// A directive for any prefix, as a value: its name and its value shape.
/// Directives are logical — each is rendered and written immediately, never
/// stored — so this type only names the shape of one.
pub struct Instruction {
    /// The name of the directive, e.g. `rerun-if-changed`. It must not
    /// include a trailing `=` delimiter; rendering inserts the delimiters.
    pub name: String,
    /// The value or keyed value set for this directive.
    pub value: Value,
}

/// The value shapes a directive can carry.
pub enum Value {
    /// A single value: the directive renders as `name=value`.
    Value(String),
    /// A keyed value: the directive renders as `name=key=value`.
    KeyValue(String, String),
}

/// Law: in a single-value body `name=value` each argument occupies exactly
/// its own segment — the name before the separator, the value after it, and
/// nothing else; in particular an empty value leaves no text after the
/// separator.
pub proof fn lemma_value_segments(name: Seq<char>, value: Seq<char>)
    ensures
        with_value(name, value).len() == name.len() + value.len() + 1,
        with_value(name, value).subrange(0, name.len() as int) == name,
        with_value(name, value)[name.len() as int] == '=',
        with_value(name, value).subrange(
            name.len() as int + 1,
            name.len() as int + value.len() as int + 1,
        ) == value,
{
    reveal_strlit("=");
    let s = with_value(name, value);
    assert(s.subrange(0, name.len() as int) =~= name);
    assert(s.subrange(name.len() as int + 1, name.len() as int + value.len() as int + 1)
        =~= value);
}

/// Law: in a keyed body `name=key=value` each argument occupies exactly its
/// own segment — the name before the first separator, the key between the
/// two, the value after the second — so changing one argument changes only
/// its own segment of the body.
pub proof fn lemma_keyed_segments(name: Seq<char>, key: Seq<char>, value: Seq<char>)
    ensures
        with_key_value(name, key, value).len() == name.len() + key.len() + value.len() + 2,
        with_key_value(name, key, value).subrange(0, name.len() as int) == name,
        with_key_value(name, key, value)[name.len() as int] == '=',
        with_key_value(name, key, value).subrange(
            name.len() as int + 1,
            name.len() as int + 1 + key.len() as int,
        ) == key,
        with_key_value(name, key, value)[name.len() as int + 1 + key.len() as int] == '=',
        with_key_value(name, key, value).subrange(
            name.len() as int + key.len() as int + 2,
            name.len() as int + key.len() as int + value.len() as int + 2,
        ) == value,
{
    reveal_strlit("=");
    let s = with_key_value(name, key, value);
    assert(s.subrange(0, name.len() as int) =~= name);
    assert(s.subrange(name.len() as int + 1, name.len() as int + 1 + key.len() as int) =~= key);
    assert(s.subrange(
        name.len() as int + key.len() as int + 2,
        name.len() as int + key.len() as int + value.len() as int + 2,
    ) =~= value);
}

/// Law: when neither the prefix nor the body contains a line terminator, an
/// emitted line is a single terminated line — it is non-empty, its final
/// character is the terminator, and no earlier character is.
pub proof fn lemma_single_terminated_line(prefix: Seq<char>, body: Seq<char>)
    requires
        forall|i: int| 0 <= i < prefix.len() ==> prefix[i] != '\n',
        forall|i: int| 0 <= i < body.len() ==> body[i] != '\n',
    ensures
        line_of(prefix, body).len() == prefix.len() + body.len() + 1,
        line_of(prefix, body).last() == '\n',
        forall|i: int|
            0 <= i < line_of(prefix, body).len() - 1 ==> line_of(prefix, body)[i] != '\n',
{
    reveal_strlit("\n");
}

} // verus!
