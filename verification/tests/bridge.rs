use shell_bridge::get_cli_args;
use shell_bridge::greet;
use shell_bridge::CliArgs;
use shell_bridge::CliArgsState;

#[test]
fn greet_contains_the_name() {
    let r = greet("World");
    assert!(r.contains("World"));
}

#[test]
fn greet_exact_wording() {
    assert_eq!(greet("World"), "Hello, World! You've been greeted from Rust!");
}

#[test]
fn greet_is_deterministic() {
    assert_eq!(greet("Ada"), greet("Ada"));
}

#[test]
fn greet_empty_name() {
    let r = greet("");
    assert_eq!(r, "Hello, ! You've been greeted from Rust!");
    assert!(r.contains(""));
}

#[test]
fn get_cli_args_returns_the_startup_arguments() {
    let args = vec![String::from("app"), String::from("--flag")];
    let state = CliArgsState::new(CliArgs::new(args));
    let got = get_cli_args(&state).unwrap();
    assert_eq!(got.args, vec![String::from("app"), String::from("--flag")]);
}

#[test]
fn get_cli_args_is_idempotent() {
    let args = vec![String::from("app"), String::from("-v"), String::from("file.txt")];
    let state = CliArgsState::new(CliArgs::new(args.clone()));
    let first = get_cli_args(&state).unwrap();
    let second = get_cli_args(&state).unwrap();
    assert_eq!(first.args, second.args);
    assert_eq!(first.args, args);
}

#[test]
fn get_cli_args_empty_argument_list() {
    let state = CliArgsState::new(CliArgs::new(Vec::new()));
    let got = get_cli_args(&state).unwrap();
    assert!(got.args.is_empty());
}

#[test]
fn poisoned_state_yields_state_unavailable() {
    let args = vec![String::from("app")];
    let mut state = CliArgsState::new(CliArgs::new(args));
    state.poison();
    let r = get_cli_args(&state);
    match r {
        Ok(_) => panic!("a poisoned guard must not yield the arguments"),
        Err(msg) => {
            assert_eq!(
                msg,
                "state unavailable: the guard on the startup arguments was poisoned"
            );
        }
    }
}

#[test]
fn poison_keeps_the_stored_arguments() {
    let args = vec![String::from("app"), String::from("--flag")];
    let mut state = CliArgsState::new(CliArgs::new(args.clone()));
    state.poison();
    assert_eq!(state.args.args, args);
}

#[test]
fn cli_args_clone_copies_the_strings() {
    let original = CliArgs::new(vec![String::from("a"), String::from("b")]);
    let copy = original.clone();
    assert_eq!(copy.args, original.args);
}
