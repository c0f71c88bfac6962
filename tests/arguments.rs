use convert_case::Case;
use recase::args::{find_case_in_args, find_vec_input, ArgError, Flags, Input};
use recase::cases::{all_cases, case_name};

fn strings(v: &[&str]) -> Vec<String> {
    v.iter().map(|s| s.to_string()).collect()
}

fn scan(v: &[&str]) -> (Result<Case, ArgError>, Flags) {
    let mut flags = Flags::new();
    let r = find_case_in_args(&strings(v), &mut flags);
    (r, flags)
}

#[test]
fn title_case_by_default() {
    assert_eq!(scan(&[]).0, Ok(Case::Title));
    assert_eq!(scan(&["hello", "world"]).0, Ok(Case::Title));
    assert_eq!(scan(&["-x", "-o", "hello"]).0, Ok(Case::Title));
}

#[test]
fn case_switch_selects_case() {
    assert_eq!(scan(&["-c", "kebab", "my var"]).0, Ok(Case::Kebab));
    assert_eq!(scan(&["--case", "upper-snake"]).0, Ok(Case::UpperSnake));
    assert_eq!(scan(&["foo", "-c", "snake"]).0, Ok(Case::Snake));
}

#[test]
fn case_switch_twice_is_an_error() {
    let (r, _) = scan(&["-c", "snake", "-c", "kebab"]);
    assert_eq!(r, Err(ArgError::DuplicateCase));
    assert_eq!(ArgError::DuplicateCase.exit_code(), 1);
    assert_eq!(scan(&["-c", "-c"]).0, Err(ArgError::DuplicateCase));
    assert_eq!(scan(&["-x", "--case", "title", "-o", "-c", "x"]).0, Err(ArgError::DuplicateCase));
    assert_eq!(
        ArgError::DuplicateCase.message(),
        "-c or --case passed more than once"
    );
}

#[test]
fn input_after_selected_case_stops_scan() {
    assert_eq!(scan(&["-c", "title", "foo", "-c"]).0, Ok(Case::Title));
    let (r, flags) = scan(&["-c", "snake", "foo", "-x"]);
    assert_eq!(r, Ok(Case::Snake));
    assert!(!flags.show_examples);
}

#[test]
fn unknown_case_name_lists_valid_names() {
    let (r, _) = scan(&["-c", "badname"]);
    assert_eq!(r, Err(ArgError::UnknownCase));
    assert_eq!(ArgError::UnknownCase.exit_code(), 1);
    let msg = ArgError::UnknownCase.message();
    assert!(msg.starts_with("Unknown case name. Valid cases: "));
    for c in all_cases() {
        assert!(msg.contains(case_name(c)));
    }
    assert_eq!(
        msg,
        "Unknown case name. Valid cases: title, upper, lower, toggle, snake, upper-snake, \
         pascal, camel, upper-camel, screaming-snake, kebab, cobol, upper-kebab, train, flat, \
         upper-flat, alternating"
    );
}

#[test]
fn help_switch_wins() {
    assert_eq!(scan(&["-h"]).0, Err(ArgError::HelpRequested));
    assert_eq!(scan(&["-x", "-c", "snake", "--help", "text"]).0, Err(ArgError::HelpRequested));
    assert_eq!(scan(&["hello", "-h"]).0, Err(ArgError::HelpRequested));
    assert_eq!(ArgError::HelpRequested.exit_code(), 2);
    assert_eq!(ArgError::HelpRequested.message(), "");
}

#[test]
fn flags_are_recorded() {
    let (_, flags) = scan(&["-o", "--examples", "hello"]);
    assert!(flags.omit_trailing_newline);
    assert!(flags.show_examples);
    let (_, flags) = scan(&["hello"]);
    assert!(!flags.omit_trailing_newline);
    assert!(!flags.show_examples);
    let mut f = Flags::default();
    assert!(f.process("--omit-newline"));
    assert!(f.omit_trailing_newline && !f.show_examples);
    assert!(!f.process("-c"));
}

#[test]
fn literal_input_is_what_remains() {
    assert_eq!(find_vec_input(strings(&["-c", "snake", "my var"])), Some(strings(&["my var"])));
    assert_eq!(find_vec_input(strings(&["-x"])), None);
    assert_eq!(find_vec_input(strings(&[])), None);
    assert_eq!(find_vec_input(strings(&["-c", "snake"])), None);
    assert_eq!(
        find_vec_input(strings(&["foo", "-c", "snake"])),
        Some(strings(&["foo", "-c", "snake"]))
    );
    assert_eq!(find_vec_input(strings(&["-c", "-x", "snake"])), Some(strings(&["snake"])));
    assert_eq!(
        find_vec_input(strings(&["-o", "a", "-x", "b"])),
        Some(strings(&["a", "-x", "b"]))
    );
}

#[test]
fn input_source() {
    assert!(matches!(Input::new(strings(&["-c", "kebab"])), Input::Stdin));
    match Input::new(strings(&["-o", "hello", "world"])) {
        Input::Cli(v) => assert_eq!(v, strings(&["hello", "world"])),
        Input::Stdin => panic!("expected arguments as input"),
    }
}
