use browser_steps::config::{
    default_anti_cache, default_delay, default_empty_string, default_logging, default_optional,
    default_wait, Config, FindAction, Group, SpecialAction, Step, StepAction,
};

#[test]
fn defaults_match_unconfigured_fields() {
    assert!(!default_optional());
    assert!(default_logging());
    assert!(!default_anti_cache());
    assert_eq!(default_empty_string(), "");
    assert_eq!(default_wait(), 0);
    assert_eq!(default_delay(), 0);
}

#[test]
fn config_holds_groups_in_order() {
    let step = Step {
        name: default_empty_string(),
        action: StepAction::Find {
            selector: "#go".to_string(),
            action: FindAction::Click,
        },
        if_cond: default_empty_string(),
        if_not_cond: default_empty_string(),
        optional: default_optional(),
        logging: default_logging(),
        wait_max: default_wait(),
        delay: default_delay(),
    };
    let captcha = Step {
        action: StepAction::Special(SpecialAction::SolveAmazonReCaptcha),
        ..step.clone()
    };
    let config = Config {
        profile: "default".to_string(),
        screenshot_path: "shots/".to_string(),
        marionette_port: 2828,
        timeout: 5000,
        groups: vec![
            Group { name: "a".to_string(), startup: vec![], steps: vec![step.clone()] },
            Group { name: "b".to_string(), startup: vec![captcha.clone()], steps: vec![] },
        ],
    };
    assert_eq!(config.groups.len(), 2);
    assert_eq!(config.groups[0].steps[0], step);
    assert_eq!(config.groups[1].startup[0], captcha);
}
