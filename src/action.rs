//! What each step action asks of the browser.
use vstd::prelude::*;
use crate::config::{FindAction, SpecialAction, StepAction};
use crate::outcome::BrowserOutcome;
use crate::text::{chars_of, contains, decimal, find_substring, render_decimal};

verus! {

/// Relies on `rand::random`: an arbitrary value of the requested type.
pub assume_specification<T>[ rand::random::<T> ]() -> (r: T)
    where
        rand::distributions::Standard: rand::distributions::Distribution<T>,
;

/// The element holding the captcha image.
pub const CAPTCHA_IMAGE_SELECTOR: &'static str = "form[action='/errors/validateCaptcha'] img";

/// The attribute of the captcha image that holds its address.
pub const CAPTCHA_IMAGE_ATTRIBUTE: &'static str = "src";

/// The field that receives the solved captcha.
pub const CAPTCHA_INPUT_SELECTOR: &'static str = "#captchacharacters";

/// The button that submits the captcha form.
pub const CAPTCHA_SUBMIT_SELECTOR: &'static str = "form[action='/errors/validateCaptcha'] button[type='submit']";

/// One request to the browser session, as a step action asks for it.
#[derive(Clone, Debug, PartialEq, Eq)]
pub enum BrowserCommand {
    /// Navigate the current tab to the address.
    Goto(String),
    /// Sleep for the given number of milliseconds.
    Pause(u64),
    /// Capture the page into the next screenshot file.
    Screenshot,
    /// Read the current address and check it with `match_url`.
    MatchUrl(String),
    /// Reload the page.
    Refresh,
    /// Leave every frame for the outermost one.
    TopWindow,
    /// Click the element that the selector finds.
    Click(String),
    /// Set the named field of the page's form.
    Insert { selector: String, value: String },
    /// Check that the selector finds an element.
    Find(String),
    /// Enter the frame that the selector finds.
    SwitchFrame(String),
    /// Read the captcha image, solve it outside, then fill and submit the form.
    SolveCaptcha,
}

/// The address to open: `url`, followed by `?` and the nonce when caching is
/// to be defeated.
pub open spec fn navigation_target(url: Seq<char>, anti_cache: bool, nonce: u64) -> Seq<char> {
    if anti_cache {
        url + "?"@ + decimal(nonce as nat)
    } else {
        url
    }
}

/// Whether `r` is the request that `action` makes when `nonce` is the number
/// drawn to defeat caching: a `Navigate` action opens its target address,
/// `End` fails with the early-termination outcome, and every other action
/// maps to the request of the same name with the same arguments.
pub open spec fn plans_as(r: Result<BrowserCommand, BrowserOutcome>, action: StepAction, nonce: u64) -> bool {
    match action {
        StepAction::Navigate { url, anti_cache } => match r {
            Ok(BrowserCommand::Goto(target)) => target@ == navigation_target(url@, anti_cache, nonce),
            _ => false,
        },
        StepAction::Wait(ms) => r == Ok::<BrowserCommand, BrowserOutcome>(BrowserCommand::Pause(ms)),
        StepAction::MatchUrl(u) => r == Ok::<BrowserCommand, BrowserOutcome>(BrowserCommand::MatchUrl(u)),
        StepAction::Screenshot => r == Ok::<BrowserCommand, BrowserOutcome>(BrowserCommand::Screenshot),
        StepAction::TopWindow => r == Ok::<BrowserCommand, BrowserOutcome>(BrowserCommand::TopWindow),
        StepAction::Refresh => r == Ok::<BrowserCommand, BrowserOutcome>(BrowserCommand::Refresh),
        StepAction::End => r == Err::<BrowserCommand, BrowserOutcome>(BrowserOutcome::EarlyEnd),
        StepAction::Find { selector, action } => r == Ok::<BrowserCommand, BrowserOutcome>(
            match action {
                FindAction::Click => BrowserCommand::Click(selector),
                FindAction::Insert(value) => BrowserCommand::Insert { selector, value },
                FindAction::SwitchFrame => BrowserCommand::SwitchFrame(selector),
                FindAction::Exists => BrowserCommand::Find(selector),
            },
        ),
        StepAction::Special(SpecialAction::SolveAmazonReCaptcha) => r == Ok::<
            BrowserCommand,
            BrowserOutcome,
        >(BrowserCommand::SolveCaptcha),
    }
}

/// The address that a `Navigate` action opens.
pub fn navigate_url(url: &String, anti_cache: bool, nonce: u64) -> (r: String)
    ensures
        r@ == navigation_target(url@, anti_cache, nonce),
{
    let mut target = url.clone();
    if anti_cache {
        target.append("?");
        let digits = render_decimal(nonce);
        target.append(digits.as_str());
    }
    target
}

/// The request that a step action makes, when `nonce` is the number drawn to
/// defeat caching.
pub fn plan_with_nonce(action: &StepAction, nonce: u64) -> (r: Result<BrowserCommand, BrowserOutcome>)
    ensures
        plans_as(r, *action, nonce),
{
    match action {
        StepAction::Navigate { url, anti_cache } => {
            let target = navigate_url(url, *anti_cache, nonce);
            Ok(BrowserCommand::Goto(target))
        },
        StepAction::Wait(ms) => Ok(BrowserCommand::Pause(*ms)),
        StepAction::MatchUrl(u) => Ok(BrowserCommand::MatchUrl(u.clone())),
        StepAction::Screenshot => Ok(BrowserCommand::Screenshot),
        StepAction::TopWindow => Ok(BrowserCommand::TopWindow),
        StepAction::Refresh => Ok(BrowserCommand::Refresh),
        StepAction::End => Err(BrowserOutcome::EarlyEnd),
        StepAction::Find { selector, action } => {
            let sel = selector.clone();
            match action {
                FindAction::Click => Ok(BrowserCommand::Click(sel)),
                FindAction::Insert(value) => Ok(
                    BrowserCommand::Insert { selector: sel, value: value.clone() },
                ),
                FindAction::SwitchFrame => Ok(BrowserCommand::SwitchFrame(sel)),
                FindAction::Exists => Ok(BrowserCommand::Find(sel)),
            }
        },
        StepAction::Special(SpecialAction::SolveAmazonReCaptcha) => Ok(BrowserCommand::SolveCaptcha),
    }
}

/// The request that a step action makes. A `Navigate` action that defeats
/// caching draws a fresh random nonce.
pub fn process_action(action: &StepAction) -> (r: Result<BrowserCommand, BrowserOutcome>)
    ensures
        exists|nonce: u64| #[trigger] plans_as(r, *action, nonce),
{
    let nonce: u64 = rand::random::<u64>();
    plan_with_nonce(action, nonce)
}

/// Whether the current address satisfies a `MatchUrl` action: it must contain
/// the expected text.
pub fn match_url(current: &String, expected: &String) -> (r: Result<(), BrowserOutcome>)
    ensures
        contains(current@, expected@) ==> r is Ok,
        !contains(current@, expected@) ==> r == Err::<(), BrowserOutcome>(
            BrowserOutcome::MatchURLFail(*expected),
        ),
{
    let hay = chars_of(current.as_str());
    let needle = chars_of(expected.as_str());
    if find_substring(&hay, &needle) {
        Ok(())
    } else {
        Err(BrowserOutcome::MatchURLFail(expected.clone()))
    }
}

/// The address of the captcha image, read from its attribute.
pub fn captcha_image_url(src: Option<String>) -> (r: Result<String, BrowserOutcome>)
    ensures
        src is Some ==> r == Ok::<String, BrowserOutcome>(src->0),
        src is None ==> (match r {
            Err(BrowserOutcome::ReCaptchaIssue(m)) => m@ == "Missing src attribute on ReCaptcha img tag"@,
            _ => false,
        }),
{
    match src {
        Some(url) => Ok(url),
        None => Err(
            BrowserOutcome::ReCaptchaIssue(
                String::from_str("Missing src attribute on ReCaptcha img tag"),
            ),
        ),
    }
}

/// The solver expression that reads the captcha at `image_url`.
pub fn captcha_script(image_url: &String) -> (r: String)
    ensures
        r@ == "captcha.AmazonCaptcha.fromlink('"@ + image_url@ + "').solve()"@,
{
    let mut s = String::from_str("captcha.AmazonCaptcha.fromlink('");
    s.append(image_url.as_str());
    s.append("').solve()");
    s
}

/// The outcome when the outside solver could not be run.
pub fn solver_failure() -> (r: BrowserOutcome)
    ensures
        match r {
            BrowserOutcome::ReCaptchaIssue(m) => m@ == "Problem with the Python invocation"@,
            _ => false,
        },
{
    BrowserOutcome::ReCaptchaIssue(String::from_str("Problem with the Python invocation"))
}

/// The requests that hand a solved captcha to the page: fill the field, then submit.
pub fn captcha_followup(answer: String) -> (r: Vec<BrowserCommand>)
    ensures
        r@.len() == 2,
        match r@[0] {
            BrowserCommand::Insert { selector, value } => selector@ == CAPTCHA_INPUT_SELECTOR@
                && value == answer,
            _ => false,
        },
        match r@[1] {
            BrowserCommand::Click(selector) => selector@ == CAPTCHA_SUBMIT_SELECTOR@,
            _ => false,
        },
{
    let mut r: Vec<BrowserCommand> = Vec::new();
    r.push(
        BrowserCommand::Insert {
            selector: String::from_str(CAPTCHA_INPUT_SELECTOR),
            value: answer,
        },
    );
    r.push(BrowserCommand::Click(String::from_str(CAPTCHA_SUBMIT_SELECTOR)));
    r
}

} // verus!
