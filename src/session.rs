//! The parts of a browser session that the engine decides on its own: the
//! connection slot, tab lookup, screenshot naming, process arguments and
//! teardown.
use vstd::prelude::*;
use crate::outcome::{BrowserOutcome, SessionError};
use crate::text::{decimal, render_decimal};

verus! {

/// The program that serves the remote-control protocol.
pub const DRIVER_PROGRAM: &'static str = ".\\geckodriver.exe";

/// The process image of the driver, for forced termination.
pub const DRIVER_IMAGE: &'static str = "geckodriver.exe";

/// The process image of the browser, for forced termination.
pub const BROWSER_IMAGE: &'static str = "Firefox.exe";

/// The address at which the driver accepts sessions.
pub const CONTROL_ENDPOINT: &'static str = "http://localhost:4444";

/// The capability under which the browser's own options are passed.
pub const BROWSER_OPTIONS_KEY: &'static str = "moz:firefoxOptions";

/// A holder for the session's connection that can be vacated for a while.
///
/// An operation that finds the slot empty fails with `ClientLost` rather than
/// waiting for the connection to come back.
pub struct Slot<T> {
    pub content: Option<T>,
}

impl<T> Slot<T> {
    /// A slot holding `t`.
    pub fn new(t: T) -> (r: Slot<T>)
        ensures
            r.content == Some(t),
    {
        Slot { content: Some(t) }
    }

    /// Whether the slot holds a connection.
    pub fn is_present(&self) -> (r: bool)
        ensures
            r == self.content is Some,
    {
        self.content.is_some()
    }

    /// The connection, or `ClientLost` when the slot is empty.
    pub fn get(&self) -> (r: Result<&T, BrowserOutcome>)
        ensures
            self.content is Some ==> r is Ok && *r->Ok_0 == self.content->0,
            self.content is None ==> r == Err::<&T, BrowserOutcome>(BrowserOutcome::ClientLost),
    {
        match &self.content {
            Some(t) => Ok(t),
            None => Err(BrowserOutcome::ClientLost),
        }
    }

    /// Takes the connection out, leaving the slot empty.
    pub fn take(&mut self) -> (r: Result<T, BrowserOutcome>)
        ensures
            final(self).content is None,
            old(self).content is Some ==> r == Ok::<T, BrowserOutcome>(old(self).content->0),
            old(self).content is None ==> r == Err::<T, BrowserOutcome>(BrowserOutcome::ClientLost),
    {
        match self.content.take() {
            Some(t) => Ok(t),
            None => Err(BrowserOutcome::ClientLost),
        }
    }

    /// Puts a connection back.
    pub fn put(&mut self, t: T)
        ensures
            final(self).content == Some(t),
    {
        self.content = Some(t);
    }
}

/// Which of `count` tabs `index` selects, or `TabDoesNotExist`.
pub open spec fn tab_lookup(count: usize, index: usize) -> Result<usize, SessionError> {
    if index < count {
        Ok(index)
    } else {
        Err(SessionError::TabDoesNotExist)
    }
}

/// The position of the tab to switch to among `count` open tabs.
pub fn tab_position(count: usize, index: usize) -> (r: Result<usize, SessionError>)
    ensures
        r == tab_lookup(count, index),
{
    if index < count {
        Ok(index)
    } else {
        Err(SessionError::TabDoesNotExist)
    }
}

/// How many tabs to open besides the one that a new browser has.
pub fn extra_tabs(tab_count: usize) -> (r: usize)
    ensures
        r == if tab_count > 0 { tab_count - 1 } else { 0 },
{
    if tab_count > 0 {
        tab_count - 1
    } else {
        0
    }
}

/// The arguments that bind the driver to the browser's control port.
pub fn driver_args(port: u64) -> (r: Vec<String>)
    ensures
        r@.len() == 2,
        r@[0]@ == "--marionette-port"@,
        r@[1]@ == decimal(port as nat),
{
    let mut r: Vec<String> = Vec::new();
    r.push(String::from_str("--marionette-port"));
    r.push(render_decimal(port));
    r
}

/// The browser arguments that select a profile.
pub fn profile_args(profile: &String) -> (r: Vec<String>)
    ensures
        r@.len() == 2,
        r@[0]@ == "--profile"@,
        r@[1] == *profile,
{
    let mut r: Vec<String> = Vec::new();
    r.push(String::from_str("--profile"));
    r.push(profile.clone());
    r
}

/// The arguments that force the termination of every process of an image.
pub fn kill_args(image: &str) -> (r: Vec<String>)
    ensures
        r@.len() == 3,
        r@[0]@ == "/f"@,
        r@[1]@ == "/im"@,
        r@[2]@ == image@,
{
    let mut r: Vec<String> = Vec::new();
    r.push(String::from_str("/f"));
    r.push(String::from_str("/im"));
    r.push(String::from_str(image));
    r
}

/// The names of the screenshot files of one session: the session's start
/// time and a counter that grows with each saved file.
pub struct ScreenshotNamer {
    pub dir: String,
    pub timestamp: u64,
    pub counter: u64,
}

/// The path of screenshot number `counter` of the session that began at `timestamp`.
pub open spec fn screenshot_path(dir: Seq<char>, timestamp: u64, counter: u64) -> Seq<char> {
    dir + decimal(timestamp as nat) + "-"@ + decimal(counter as nat) + ".png"@
}

impl ScreenshotNamer {
    /// The namer of a session that began at `timestamp`, before any screenshot.
    pub fn new(dir: String, timestamp: u64) -> (r: ScreenshotNamer)
        ensures
            r.dir == dir,
            r.timestamp == timestamp,
            r.counter == 0,
    {
        ScreenshotNamer { dir, timestamp, counter: 0 }
    }

    /// The path of the next screenshot.
    pub fn file_path(&self) -> (r: String)
        ensures
            r@ == screenshot_path(self.dir@, self.timestamp, self.counter),
    {
        let mut p = self.dir.clone();
        let ts = render_decimal(self.timestamp);
        p.append(ts.as_str());
        p.append("-");
        let n = render_decimal(self.counter);
        p.append(n.as_str());
        p.append(".png");
        p
    }

    /// Notes that the next screenshot was saved, so that the following one
    /// gets a new name.
    pub fn saved(&mut self)
        ensures
            final(self).dir == old(self).dir,
            final(self).timestamp == old(self).timestamp,
            final(self).counter == if old(self).counter < u64::MAX {
                old(self).counter + 1
            } else {
                old(self).counter as int
            },
    {
        if self.counter < u64::MAX {
            self.counter = self.counter + 1;
        }
    }
}

/// The outcome of a screenshot that could not be made into a file at `path`,
/// for the given reason.
pub fn screenshot_failure(path: &String, reason: &str) -> (r: BrowserOutcome)
    ensures
        match r {
            BrowserOutcome::Screenshot(m) => m@ == path@ + ", "@ + reason@,
            _ => false,
        },
{
    let mut m = path.clone();
    m.append(", ");
    m.append(reason);
    BrowserOutcome::Screenshot(m)
}

/// The sub-steps of closing a session, in the order they are attempted.
#[derive(Clone, Copy, Debug, PartialEq, Eq)]
pub enum TeardownStep {
    KillBrowser,
    CloseConnection,
    KillDriver,
    Finished,
}

/// The sub-step that follows `s`, whatever `s` gave.
pub open spec fn step_after(s: TeardownStep) -> TeardownStep {
    match s {
        TeardownStep::KillBrowser => TeardownStep::CloseConnection,
        TeardownStep::CloseConnection => TeardownStep::KillDriver,
        _ => TeardownStep::Finished,
    }
}

/// The messages of the failed results among `rs`, in order.
pub open spec fn failure_messages(rs: Seq<Result<(), String>>) -> Seq<String>
    decreases rs.len(),
{
    if rs.len() == 0 {
        Seq::empty()
    } else {
        failure_messages(rs.drop_last()) + match rs.last() {
            Ok(()) => Seq::<String>::empty(),
            Err(m) => seq![m],
        }
    }
}

proof fn lemma_failure_messages_push(rs: Seq<Result<(), String>>, r: Result<(), String>)
    ensures
        failure_messages(seq![r]) == match r {
            Ok(()) => Seq::<String>::empty(),
            Err(m) => seq![m],
        },
        failure_messages(rs.push(r)) == failure_messages(rs) + failure_messages(seq![r]),
{
    assert(seq![r].drop_last() =~= Seq::<Result<(), String>>::empty());
    assert(failure_messages(Seq::<Result<(), String>>::empty()) == Seq::<String>::empty());
    assert(rs.push(r).drop_last() =~= rs);
    assert(failure_messages(seq![r]) =~= failure_messages(Seq::<Result<(), String>>::empty()) + match r {
        Ok(()) => Seq::<String>::empty(),
        Err(m) => seq![m],
    });
}

/// The progress of closing a session. Every sub-step is attempted, whatever
/// the earlier ones gave, and their failures are gathered into one error.
pub struct Teardown {
    pub next: TeardownStep,
    pub failures: Vec<String>,
}

impl Teardown {
    /// A teardown that has attempted nothing yet.
    pub fn new() -> (r: Teardown)
        ensures
            r.next == TeardownStep::KillBrowser,
            r.failures@ == Seq::<String>::empty(),
    {
        Teardown { next: TeardownStep::KillBrowser, failures: Vec::new() }
    }

    /// The sub-step to attempt now.
    pub fn next_step(&self) -> (r: TeardownStep)
        ensures
            r == self.next,
    {
        self.next
    }

    /// Records what the current sub-step gave and moves to the next one.
    pub fn record(&mut self, result: Result<(), String>)
        ensures
            old(self).next != TeardownStep::Finished ==> final(self).next == step_after(old(self).next)
                && final(self).failures@ == old(self).failures@ + failure_messages(seq![result]),
            old(self).next == TeardownStep::Finished ==> final(self).next == old(self).next
                && final(self).failures@ == old(self).failures@,
    {
        proof {
            lemma_failure_messages_push(Seq::empty(), result);
        }
        let next = match self.next {
            TeardownStep::KillBrowser => TeardownStep::CloseConnection,
            TeardownStep::CloseConnection => TeardownStep::KillDriver,
            TeardownStep::KillDriver => TeardownStep::Finished,
            TeardownStep::Finished => {
                return ;
            },
        };
        self.next = next;
        match result {
            Ok(()) => {
                assert(self.failures@ =~= old(self).failures@ + failure_messages(seq![result]));
            },
            Err(m) => {
                self.failures.push(m);
                assert(self.failures@ =~= old(self).failures@ + failure_messages(seq![result]));
            },
        }
    }

    /// What the teardown reports: success when every sub-step succeeded, or
    /// every failure in the order the sub-steps were attempted.
    pub fn finish(self) -> (r: Result<(), SessionError>)
        ensures
            r is Ok <==> self.failures@.len() == 0,
            r is Err ==> r == Err::<(), SessionError>(SessionError::Teardown(self.failures)),
    {
        if self.failures.len() == 0 {
            Ok(())
        } else {
            Err(SessionError::Teardown(self.failures))
        }
    }
}

/// Closing a session attempts all three sub-steps whatever each gives, and
/// reports a failure exactly when one of them failed, naming each failure in
/// the order the sub-steps were attempted.
pub proof fn lemma_teardown_aggregates(
    r1: Result<(), String>,
    r2: Result<(), String>,
    r3: Result<(), String>,
)
    ensures
        step_after(TeardownStep::KillBrowser) == TeardownStep::CloseConnection,
        step_after(TeardownStep::CloseConnection) == TeardownStep::KillDriver,
        step_after(TeardownStep::KillDriver) == TeardownStep::Finished,
        failure_messages(seq![r1]) + failure_messages(seq![r2]) + failure_messages(seq![r3])
            == failure_messages(seq![r1, r2, r3]),
        (failure_messages(seq![r1, r2, r3]).len() == 0) <==> (r1 is Ok && r2 is Ok && r3 is Ok),
        r2 is Err ==> failure_messages(seq![r1, r2, r3]).contains(r2->Err_0),
        r3 is Err ==> failure_messages(seq![r1, r2, r3]).contains(r3->Err_0),
        r1 is Err ==> failure_messages(seq![r1, r2, r3]).contains(r1->Err_0),
{
    let all = seq![r1, r2, r3];
    lemma_failure_messages_push(Seq::empty(), r1);
    lemma_failure_messages_push(seq![r1], r2);
    lemma_failure_messages_push(seq![r1, r2], r3);
    assert(Seq::<Result<(), String>>::empty().push(r1) =~= seq![r1]);
    assert(seq![r1].push(r2) =~= seq![r1, r2]);
    assert(seq![r1, r2].push(r3) =~= all);
    assert(failure_messages(Seq::<Result<(), String>>::empty()) == Seq::<String>::empty());
    let f = failure_messages(all);
    let f1 = failure_messages(seq![r1]);
    let f2 = failure_messages(seq![r2]);
    let f3 = failure_messages(seq![r3]);
    assert(f =~= f1 + f2 + f3);
    if r1 is Err {
        assert(f[0] == r1->Err_0);
    }
    if r2 is Err {
        assert(f[f1.len() as int] == r2->Err_0);
    }
    if r3 is Err {
        assert(f[(f1.len() + f2.len()) as int] == r3->Err_0);
    }
}

} // verus!
