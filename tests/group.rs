use browser_steps::config::{FindAction, Step, StepAction};
use browser_steps::group::{GroupRun, StepVerdict};
use browser_steps::outcome::BrowserOutcome;

fn step(name: &str, action: StepAction) -> Step {
    Step {
        name: name.to_string(),
        action,
        if_cond: String::new(),
        if_not_cond: String::new(),
        optional: false,
        logging: true,
        wait_max: 0,
        delay: 0,
    }
}

fn click(name: &str) -> Step {
    step(name, StepAction::Find { selector: "#b".to_string(), action: FindAction::Click })
}

/// Runs `steps`, where the step at position `i`, when executed, ends with
/// `results[i]`. Gives the executed positions and how the run ended.
fn run(steps: &Vec<Step>, results: &[Result<(), BrowserOutcome>]) -> (Vec<usize>, Result<(), BrowserOutcome>, Vec<bool>) {
    let mut g = GroupRun::new();
    let mut executed = Vec::new();
    let mut shots = Vec::new();
    while let Some(i) = g.next_step(steps) {
        executed.push(i);
        match g.report(steps, results[i].clone()) {
            StepVerdict::Continue => {}
            StepVerdict::Stop { outcome, screenshot } => {
                shots.push(screenshot);
                return (executed, Err(outcome), shots);
            }
        }
    }
    (executed, Ok(()), shots)
}

fn missing() -> BrowserOutcome {
    BrowserOutcome::NoSuchElement("#b".to_string())
}

#[test]
fn optional_failure_enables_if_not_cond_step() {
    let mut a = click("g");
    a.optional = true;
    let mut b = click("b");
    b.if_not_cond = "g".to_string();
    let steps = vec![a, b];
    let (executed, end, _) = run(&steps, &[Err(missing()), Ok(())]);
    assert_eq!(executed, vec![0, 1]);
    assert_eq!(end, Ok(()));
}

#[test]
fn optional_success_skips_if_not_cond_step() {
    let mut a = click("g");
    a.optional = true;
    let mut b = click("b");
    b.if_not_cond = "g".to_string();
    let steps = vec![a, b];
    let (executed, end, _) = run(&steps, &[Ok(()), Ok(())]);
    assert_eq!(executed, vec![0]);
    assert_eq!(end, Ok(()));
}

#[test]
fn named_success_enables_if_cond_step() {
    let a = click("x");
    let mut c = click("c");
    c.if_cond = "x".to_string();
    let steps = vec![a, c];
    let (executed, _, _) = run(&steps, &[Ok(()), Ok(())]);
    assert_eq!(executed, vec![0, 1]);
}

#[test]
fn failed_or_unreached_name_skips_if_cond_step() {
    let mut a = click("x");
    a.optional = true;
    let mut c = click("c");
    c.if_cond = "x".to_string();
    let steps = vec![a.clone(), c.clone()];
    let (executed, end, _) = run(&steps, &[Err(missing()), Ok(())]);
    assert_eq!(executed, vec![0]);
    assert_eq!(end, Ok(()));

    let mut gate = click("gate");
    gate.if_cond = "never".to_string();
    let mut a2 = a.clone();
    a2.if_cond = "never".to_string();
    let steps = vec![gate, a2, c];
    let (executed, end, _) = run(&steps, &[Ok(()), Ok(()), Ok(())]);
    assert!(executed.is_empty());
    assert_eq!(end, Ok(()));
}

#[test]
fn both_conditions_must_hold() {
    let a = click("x");
    let mut f = click("y");
    f.optional = true;
    let mut both = click("both");
    both.if_cond = "x".to_string();
    both.if_not_cond = "y".to_string();
    let steps = vec![a.clone(), f.clone(), both.clone()];
    let (executed, _, _) = run(&steps, &[Ok(()), Err(missing()), Ok(())]);
    assert_eq!(executed, vec![0, 1, 2]);
    let (executed, _, _) = run(&steps, &[Ok(()), Ok(()), Ok(())]);
    assert_eq!(executed, vec![0, 1]);
}

#[test]
fn end_step_halts_group_wherever_it_stands() {
    for pos in 0..3 {
        let mut steps: Vec<Step> = (0..3).map(|i| click(&format!("s{}", i))).collect();
        steps[pos] = step("end", StepAction::End);
        steps[pos].optional = pos % 2 == 0;
        let results: Vec<Result<(), BrowserOutcome>> = (0..3)
            .map(|i| if i == pos { Err(BrowserOutcome::EarlyEnd) } else { Ok(()) })
            .collect();
        let (executed, end, _) = run(&steps, &results);
        assert_eq!(executed, (0..=pos).collect::<Vec<usize>>());
        assert_eq!(end, Err(BrowserOutcome::EarlyEnd));
    }
}

#[test]
fn required_failure_stops_with_screenshot() {
    let steps = vec![click("a"), click("b")];
    let (executed, end, shots) = run(&steps, &[Err(missing()), Ok(())]);
    assert_eq!(executed, vec![0]);
    assert_eq!(end, Err(missing()));
    assert_eq!(shots, vec![true]);

    let mut quiet = click("a");
    quiet.logging = false;
    let (_, _, shots) = run(&vec![quiet], &[Err(missing())]);
    assert_eq!(shots, vec![false]);
}

#[test]
fn restart_class_failure_stops_even_optional_step() {
    let mut a = click("a");
    a.optional = true;
    let steps = vec![a, click("b")];
    let (executed, end, shots) = run(&steps, &[Err(BrowserOutcome::Timeout), Ok(())]);
    assert_eq!(executed, vec![0]);
    assert_eq!(end, Err(BrowserOutcome::Timeout));
    assert_eq!(shots, vec![false]);
}

#[test]
fn unnamed_steps_record_nothing() {
    let mut a = click("");
    a.optional = true;
    let mut b = click("b");
    b.if_not_cond = "".to_string();
    let mut c = click("c");
    c.if_cond = "".to_string();
    let steps = vec![a, b, c];
    let (executed, end, _) = run(&steps, &[Err(missing()), Ok(()), Ok(())]);
    assert_eq!(executed, vec![0, 1, 2]);
    assert_eq!(end, Ok(()));
}

#[test]
fn empty_group_completes() {
    let (executed, end, _) = run(&vec![], &[]);
    assert!(executed.is_empty());
    assert_eq!(end, Ok(()));
}

#[test]
fn permits_reads_recorded_names() {
    let mut g = GroupRun::new();
    let steps = vec![click("x")];
    let mut c = click("c");
    c.if_cond = "x".to_string();
    assert!(!g.permits(&c));
    assert_eq!(g.next_step(&steps), Some(0));
    assert_eq!(g.report(&steps, Ok(())), StepVerdict::Continue);
    assert!(g.permits(&c));
    assert_eq!(g.next_step(&steps), None);
}
