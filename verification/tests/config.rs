use invasion::config::ProgramConfig;

fn args(list: &[&str]) -> Vec<String> {
    list.iter().map(|s| s.to_string()).collect()
}

#[test]
fn no_arguments_leave_debug_off() {
    let cfg = ProgramConfig::build(&[]).unwrap();
    assert!(!cfg.debug);
}

#[test]
fn short_switch_turns_debug_on() {
    let cfg = ProgramConfig::build(&args(&["-d"])).unwrap();
    assert!(cfg.debug);
}

#[test]
fn long_switch_turns_debug_on() {
    let cfg = ProgramConfig::build(&args(&["--debug"])).unwrap();
    assert!(cfg.debug);
}

#[test]
fn repeated_switches_are_accepted() {
    let cfg = ProgramConfig::build(&args(&["-d", "--debug", "-d"])).unwrap();
    assert!(cfg.debug);
}

#[test]
fn unknown_argument_is_refused() {
    let refused = ProgramConfig::build(&args(&["-x"]));
    assert_eq!(refused.err(), Some("unknown argument"));
}

#[test]
fn unknown_argument_after_a_switch_is_refused() {
    let refused = ProgramConfig::build(&args(&["-d", "--verbose"]));
    assert_eq!(refused.err(), Some("unknown argument"));
}

#[test]
fn near_misses_are_refused() {
    for arg in ["-", "-D", "--debu", "--debugg", "d", ""] {
        let refused = ProgramConfig::build(&args(&[arg]));
        assert_eq!(refused.err(), Some("unknown argument"));
    }
}
