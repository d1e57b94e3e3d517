//! Errors of the service, each with the context in which it arose.

use vstd::prelude::*;

verus! {

/// The place or operation in which an error arose, in words.
#[derive(Debug)]
pub struct DCtx(String);

impl Clone for DCtx {
    fn clone(&self) -> (copy: Self)
        ensures
            copy == *self,
    {
        Self(self.0.clone())
    }
}

impl View for DCtx {
    type V = Seq<char>;

    closed spec fn view(&self) -> Seq<char> {
        self.0@
    }
}

impl DCtx {
    pub fn new(inner: String) -> (ctx: Self)
        ensures
            ctx@ == inner@,
    {
        Self(inner)
    }

    /// The context as text.
    pub fn as_str(&self) -> (s: &str)
        ensures
            s@ == self@,
    {
        self.0.as_str()
    }
}

/// What went wrong. Every variant starts with the message given where the
/// error arose; the variants for failures of a collaborator also hold the
/// collaborator's own description of the failure.
#[derive(Debug)]
pub enum DErrorType {
    /// Malformed configuration, menu or environment text.
    GrubParse(String),
    /// Reading, writing or watching a file failed.
    Io(String, String),
    /// The snapshot store failed.
    Sqlx(String, String),
    /// The message bus failed.
    Zbus(String, String),
    /// A payload could not be encoded or decoded.
    Serde(String, String),
}

/// `prefix`, the message, and the cause in parentheses.
pub open spec fn with_cause(prefix: Seq<char>, msg: Seq<char>, cause: Seq<char>) -> Seq<char> {
    prefix + msg + " ("@ + cause + ")"@
}

impl DErrorType {
    /// The text that [`DErrorType::as_string`] renders.
    pub open spec fn text(self) -> Seq<char> {
        match self {
            DErrorType::GrubParse(msg) => "Internal Parse: Failed to parse grub config: "@ + msg@,
            DErrorType::Io(msg, cause) => with_cause("Internal IO error: "@, msg@, cause@),
            DErrorType::Sqlx(msg, cause) => with_cause("Interal database error: "@, msg@, cause@),
            DErrorType::Zbus(msg, cause) => with_cause("Internal zbus error: "@, msg@, cause@),
            DErrorType::Serde(msg, cause) => with_cause("Json handling error: "@, msg@, cause@),
        }
    }

    /// The error in words, for logs and for the payload returned to a caller.
    pub fn as_string(&self) -> (s: String)
        ensures
            s@ == self.text(),
    {
        match self {
            DErrorType::GrubParse(msg) => {
                let mut s = "Internal Parse: Failed to parse grub config: ".to_owned();
                s.append(msg.as_str());
                s
            },
            DErrorType::Io(msg, cause) => render_with_cause("Internal IO error: ", msg, cause),
            DErrorType::Sqlx(msg, cause) => render_with_cause("Interal database error: ", msg, cause),
            DErrorType::Zbus(msg, cause) => render_with_cause("Internal zbus error: ", msg, cause),
            DErrorType::Serde(msg, cause) => render_with_cause("Json handling error: ", msg, cause),
        }
    }
}

fn render_with_cause(prefix: &str, msg: &String, cause: &String) -> (s: String)
    ensures
        s@ == with_cause(prefix@, msg@, cause@),
{
    let mut s = prefix.to_owned();
    s.append(msg.as_str());
    s.append(" (");
    s.append(cause.as_str());
    s.append(")");
    s
}

/// The collaborator whose failure an error reports.
#[derive(Debug, Clone, Copy, PartialEq, Eq, Structural)]
pub enum Collaborator {
    /// The file system.
    Files,
    /// The snapshot store.
    Store,
    /// The message bus.
    Bus,
    /// The encoding of payloads.
    Payload,
}

/// The error for a failure of `collaborator`, with the message of the
/// operation that failed and the collaborator's description of the failure.
pub open spec fn failure_of(collaborator: Collaborator, msg: String, cause: String) -> DErrorType {
    match collaborator {
        Collaborator::Files => DErrorType::Io(msg, cause),
        Collaborator::Store => DErrorType::Sqlx(msg, cause),
        Collaborator::Bus => DErrorType::Zbus(msg, cause),
        Collaborator::Payload => DErrorType::Serde(msg, cause),
    }
}

/// An error together with its context.
#[derive(Debug)]
pub struct DError {
    ctx: DCtx,
    error: DErrorType,
}

pub type DResult<T> = core::result::Result<T, DError>;

impl DError {
    /// The context of this error.
    pub closed spec fn context(self) -> DCtx {
        self.ctx
    }

    /// What went wrong.
    pub closed spec fn kind(self) -> DErrorType {
        self.error
    }

    pub fn new(ctx: DCtx, error: DErrorType) -> (e: Self)
        ensures
            e.context() == ctx,
            e.kind() == error,
    {
        Self { ctx, error }
    }

    /// A failed result that reports malformed text.
    pub fn grub_parse_error(ctx: DCtx, message: String) -> (r: DResult<()>)
        ensures
            r matches Err(e) && e.context() == ctx && e.kind() == DErrorType::GrubParse(message),
    {
        Err(Self::new(ctx, DErrorType::GrubParse(message)))
    }

    pub fn error(&self) -> (kind: &DErrorType)
        ensures
            *kind == self.kind(),
    {
        &self.error
    }

    pub fn ctx(&self) -> (ctx: &DCtx)
        ensures
            *ctx == self.context(),
    {
        &self.ctx
    }
}

/// A result of a collaborator as a result of the service: what succeeded
/// stays, and a failure, given by the collaborator's description of it,
/// becomes an error with the context and the message of the operation.
pub fn with_context<T>(result: Result<T, String>, collaborator: Collaborator, ctx: DCtx, msg: String) -> (r:
    DResult<T>)
    ensures
        match result {
            Ok(value) => r == Ok::<T, DError>(value),
            Err(cause) => r matches Err(e) && e.context() == ctx && e.kind() == failure_of(
                collaborator,
                msg,
                cause,
            ),
        },
{
    match result {
        Ok(value) => Ok(value),
        Err(cause) => {
            let error = match collaborator {
                Collaborator::Files => DErrorType::Io(msg, cause),
                Collaborator::Store => DErrorType::Sqlx(msg, cause),
                Collaborator::Bus => DErrorType::Zbus(msg, cause),
                Collaborator::Payload => DErrorType::Serde(msg, cause),
            };
            Err(DError::new(ctx, error))
        },
    }
}

} // verus!
