//! The declarative description of groups and steps.
use vstd::prelude::*;

verus! {

/// Whether a step may fail without stopping its group, unless configured.
pub fn default_optional() -> (r: bool)
    ensures
        r == false,
{
    false
}

/// Whether a step reports its outcome, unless configured.
pub fn default_logging() -> (r: bool)
    ensures
        r == true,
{
    true
}

/// Whether navigation defeats caching, unless configured.
pub fn default_anti_cache() -> (r: bool)
    ensures
        r == false,
{
    false
}

/// The value of a name or condition that was not configured.
pub fn default_empty_string() -> (r: String)
    ensures
        r@ == Seq::<char>::empty(),
{
    String::new()
}

/// The retry budget of a step in milliseconds, unless configured.
pub fn default_wait() -> (r: u64)
    ensures
        r == 0,
{
    0
}

/// The pause before each attempt of a step in milliseconds, unless configured.
pub fn default_delay() -> (r: u64)
    ensures
        r == 0,
{
    0
}

/// What a `Find` step does with the element it locates.
#[derive(Clone, Debug, PartialEq, Eq)]
pub enum FindAction {
    Click,
    Insert(String),
    SwitchFrame,
    Exists,
}

/// Actions that are carried out by an outside solver.
#[derive(Clone, Copy, Debug, PartialEq, Eq)]
pub enum SpecialAction {
    SolveAmazonReCaptcha,
}

/// The work of one step.
#[derive(Clone, Debug, PartialEq, Eq)]
pub enum StepAction {
    Navigate { url: String, anti_cache: bool },
    Wait(u64),
    MatchUrl(String),
    Screenshot,
    TopWindow,
    Find { selector: String, action: FindAction },
    Refresh,
    End,
    Special(SpecialAction),
}

/// One declarative unit of work of a group.
///
/// An empty `name` leaves the step untracked; an empty `if_cond` or
/// `if_not_cond` leaves the step ungated by it.
#[derive(Clone, Debug, PartialEq, Eq)]
pub struct Step {
    pub name: String,
    pub action: StepAction,
    pub if_cond: String,
    pub if_not_cond: String,
    pub optional: bool,
    pub logging: bool,
    pub wait_max: u64,
    pub delay: u64,
}

/// An ordered sequence of steps bound to one browser tab.
///
/// `startup` runs before the first regular run of the group and again after
/// each restart of the session.
#[derive(Clone, Debug, PartialEq, Eq)]
pub struct Group {
    pub name: String,
    pub startup: Vec<Step>,
    pub steps: Vec<Step>,
}

/// The whole configuration: the browser settings and the groups, one per tab.
#[derive(Clone, Debug, PartialEq, Eq)]
pub struct Config {
    pub profile: String,
    pub screenshot_path: String,
    pub marionette_port: u64,
    pub timeout: u64,
    pub groups: Vec<Group>,
}

} // verus!
