use convert_case::Case;
use recase::cases::{all_cases, case_from_name, case_name, convert_all, sorted_cases};
use recase::output::{convert_and_render, render_output};

fn strings(v: &[&str]) -> Vec<String> {
    v.iter().map(|s| s.to_string()).collect()
}

fn convert_one(s: &str, c: Case) -> String {
    convert_all(&strings(&[s]), c).remove(0)
}

#[test]
fn hello_world_in_every_case() {
    let expected = [
        ("title", "Hello World"),
        ("upper", "HELLO WORLD"),
        ("lower", "hello world"),
        ("toggle", "hELLO wORLD"),
        ("snake", "hello_world"),
        ("upper-snake", "HELLO_WORLD"),
        ("pascal", "HelloWorld"),
        ("camel", "helloWorld"),
        ("upper-camel", "HelloWorld"),
        ("screaming-snake", "HELLO_WORLD"),
        ("kebab", "hello-world"),
        ("cobol", "HELLO-WORLD"),
        ("upper-kebab", "HELLO-WORLD"),
        ("train", "Hello-World"),
        ("flat", "helloworld"),
        ("upper-flat", "HELLOWORLD"),
        ("alternating", "hElLo WoRlD"),
    ];
    for (name, want) in expected {
        let c = case_from_name(name).expect("known case name");
        assert_eq!(convert_one("hello world", c), want, "case {}", name);
    }
}

#[test]
fn conversion_changes_the_text() {
    assert_eq!(convert_one("my_var", Case::Pascal), "MyVar");
    assert_eq!(convert_one("MyVar", Case::Snake), "my_var");
}

#[test]
fn kebab_case_is_idempotent() {
    for s in ["hello-world", "my-var-name", "a", "x-1"] {
        let once = convert_one(s, Case::Kebab);
        assert_eq!(once, s);
        assert_eq!(convert_one(&once, Case::Kebab), once);
    }
}

#[test]
fn names_round_trip() {
    for c in all_cases() {
        assert_eq!(case_from_name(case_name(c)), Some(c));
    }
    assert_eq!(case_from_name("badname"), None);
    assert_eq!(case_from_name("Title"), None);
    assert_eq!(case_from_name(""), None);
    assert_eq!(all_cases().len(), 17);
}

#[test]
fn sorted_cases_are_in_name_order() {
    let names: Vec<&str> = sorted_cases().into_iter().map(case_name).collect();
    let mut sorted = names.clone();
    sorted.sort();
    assert_eq!(names, sorted);
    assert_eq!(names.len(), 17);
    assert_eq!(names[0], "alternating");
    assert_eq!(names[16], "upper-snake");
}

#[test]
fn omit_newline_drops_final_newline() {
    let out = convert_and_render(&strings(&["a"]), Case::Title, true);
    assert_eq!(out, "A");
    let out = convert_and_render(&strings(&["a"]), Case::Title, false);
    assert_eq!(out, "A\n");
}

#[test]
fn several_inputs_share_one_line() {
    let out = convert_and_render(&strings(&["hello", "big_world"]), Case::Title, false);
    assert_eq!(out, "Hello Big World\n");
    let out = convert_and_render(&strings(&["my_var", "other_var"]), Case::Camel, false);
    assert_eq!(out, "myVar otherVar\n");
}

#[test]
fn render_output_of_nothing() {
    assert_eq!(render_output(&Vec::new(), false), "\n");
    assert_eq!(render_output(&Vec::new(), true), "");
}

#[test]
fn two_lines_share_one_output_line() {
    let out = convert_and_render(&strings(&["foo", "bar"]), Case::Title, false);
    assert_eq!(out, "Foo Bar\n");
}
