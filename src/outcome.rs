//! Outcomes of browser operations and their recovery classes.
use vstd::prelude::*;

verus! {

/// The failure of a browser operation.
///
/// `NoSuchElement`, `EarlyEnd`, `Screenshot`, `MatchURLFail` and
/// `ReCaptchaIssue` are expected: the engine goes on with the next group.
/// `Timeout`, `Unexpected` and `ClientLost` mean that the session is no longer
/// trustworthy and must be restarted.
#[derive(Clone, Debug, PartialEq, Eq)]
pub enum BrowserOutcome {
    NoSuchElement(String),
    EarlyEnd,
    Screenshot(String),
    MatchURLFail(String),
    Timeout,
    Unexpected(String),
    ClientLost,
    ReCaptchaIssue(String),
}

/// A remote command that finished in time but failed.
#[derive(Clone, Debug, PartialEq, Eq)]
pub enum CommandError {
    /// No element matched the query.
    NoSuchElement(String),
    /// Any other failure, with its description.
    Other(String),
}

/// How a remote command raced against its deadline.
#[derive(Debug)]
pub enum Timed<X> {
    Finished(Result<X, CommandError>),
    Elapsed,
}

/// Failures of the session as a whole: launching it, selecting a tab,
/// tearing it down.
#[derive(Clone, Debug, PartialEq, Eq)]
pub enum SessionError {
    Browser(BrowserOutcome),
    TabDoesNotExist,
    Launch(String),
    Teardown(Vec<String>),
}

impl BrowserOutcome {
    /// Whether this outcome calls for a restart of the whole session.
    pub open spec fn restarts(&self) -> bool {
        match self {
            BrowserOutcome::Timeout => true,
            BrowserOutcome::Unexpected(_) => true,
            BrowserOutcome::ClientLost => true,
            _ => false,
        }
    }

    /// Whether this outcome calls for a restart of the whole session.
    pub fn needs_restart(&self) -> (r: bool)
        ensures
            r == self.restarts(),
    {
        match self {
            BrowserOutcome::Timeout => true,
            BrowserOutcome::Unexpected(_) => true,
            BrowserOutcome::ClientLost => true,
            _ => false,
        }
    }

    /// A human-readable description.
    pub fn describe(&self) -> (r: String)
        ensures
            r@ == outcome_text(*self),
    {
        match self {
            BrowserOutcome::NoSuchElement(e) => parenthesized("NoSuchElement error: (", e),
            BrowserOutcome::Timeout => String::from_str("Timeout error: (deadline has elapsed)"),
            BrowserOutcome::Unexpected(e) => parenthesized("Unexpected error: (", e),
            BrowserOutcome::EarlyEnd => String::from_str("Manual end by step"),
            BrowserOutcome::ClientLost => String::from_str("Client lost"),
            BrowserOutcome::Screenshot(n) => parenthesized("Failed to take screenshot: (", n),
            BrowserOutcome::MatchURLFail(n) => parenthesized("Failed to match url: (", n),
            BrowserOutcome::ReCaptchaIssue(i) => parenthesized("ReCaptcha issue: (", i),
        }
    }
}

/// The description of an outcome.
pub open spec fn outcome_text(o: BrowserOutcome) -> Seq<char> {
    match o {
        BrowserOutcome::NoSuchElement(e) => "NoSuchElement error: ("@ + e@ + ")"@,
        BrowserOutcome::Timeout => "Timeout error: (deadline has elapsed)"@,
        BrowserOutcome::Unexpected(e) => "Unexpected error: ("@ + e@ + ")"@,
        BrowserOutcome::EarlyEnd => "Manual end by step"@,
        BrowserOutcome::ClientLost => "Client lost"@,
        BrowserOutcome::Screenshot(n) => "Failed to take screenshot: ("@ + n@ + ")"@,
        BrowserOutcome::MatchURLFail(n) => "Failed to match url: ("@ + n@ + ")"@,
        BrowserOutcome::ReCaptchaIssue(i) => "ReCaptcha issue: ("@ + i@ + ")"@,
    }
}

fn parenthesized(prefix: &str, inner: &String) -> (r: String)
    ensures
        r@ == prefix@ + inner@ + ")"@,
{
    let mut s = String::from_str(prefix);
    s.append(inner.as_str());
    s.append(")");
    s
}

impl SessionError {
    /// A human-readable description.
    pub fn describe(&self) -> (r: String)
        ensures
            r@ == session_error_text(*self),
    {
        match self {
            SessionError::Browser(o) => o.describe(),
            SessionError::TabDoesNotExist => String::from_str("Browser tab does not exist"),
            SessionError::Launch(e) => parenthesized("Browser launch failed: (", e),
            SessionError::Teardown(fails) => {
                let mut s = String::from_str("Browser teardown failed:");
                let mut i: usize = 0;
                while i < fails.len()
                    invariant
                        0 <= i <= fails@.len(),
                        s@ == "Browser teardown failed:"@ + joined(fails@.take(i as int)),
                    decreases fails@.len() - i,
                {
                    s.append(" (");
                    s.append(fails[i].as_str());
                    s.append(")");
                    assert(fails@.take(i + 1).drop_last() =~= fails@.take(i as int));
                    i = i + 1;
                }
                assert(fails@.take(fails@.len() as int) =~= fails@);
                s
            },
        }
    }
}

/// Each message in parentheses, one after the other, each after a space.
pub open spec fn joined(msgs: Seq<String>) -> Seq<char>
    decreases msgs.len(),
{
    if msgs.len() == 0 {
        Seq::empty()
    } else {
        joined(msgs.drop_last()) + " ("@ + msgs.last()@ + ")"@
    }
}

/// The description of a session error.
pub open spec fn session_error_text(e: SessionError) -> Seq<char> {
    match e {
        SessionError::Browser(o) => outcome_text(o),
        SessionError::TabDoesNotExist => "Browser tab does not exist"@,
        SessionError::Launch(m) => "Browser launch failed: ("@ + m@ + ")"@,
        SessionError::Teardown(fails) => "Browser teardown failed:"@ + joined(fails@),
    }
}

/// What a timed remote command amounts to: its value, a missing element, an
/// unexpected failure, or a timeout.
pub open spec fn classify<X>(t: Timed<X>) -> Result<X, BrowserOutcome> {
    match t {
        Timed::Finished(Ok(x)) => Ok(x),
        Timed::Finished(Err(CommandError::NoSuchElement(m))) => Err(BrowserOutcome::NoSuchElement(m)),
        Timed::Finished(Err(CommandError::Other(m))) => Err(BrowserOutcome::Unexpected(m)),
        Timed::Elapsed => Err(BrowserOutcome::Timeout),
    }
}

/// Classifies the result of a remote command that was bounded by a timeout.
pub fn handle_result<X>(t: Timed<X>) -> (r: Result<X, BrowserOutcome>)
    ensures
        r == classify(t),
{
    match t {
        Timed::Finished(Ok(x)) => Ok(x),
        Timed::Finished(Err(CommandError::NoSuchElement(m))) => Err(BrowserOutcome::NoSuchElement(m)),
        Timed::Finished(Err(CommandError::Other(m))) => Err(BrowserOutcome::Unexpected(m)),
        Timed::Elapsed => Err(BrowserOutcome::Timeout),
    }
}

} // verus!
