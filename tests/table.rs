use recase::table::{all_examples, example_rows, render_table};
use recase::text::{join_with, push_repeat, same_text};

fn strings(v: &[&str]) -> Vec<String> {
    v.iter().map(|s| s.to_string()).collect()
}

#[test]
fn examples_for_my_var() {
    let table = all_examples(&strings(&["my_var"]));
    let expected_rows = [
        ("alternating", "mY vAr"),
        ("camel", "myVar"),
        ("cobol", "MY-VAR"),
        ("flat", "myvar"),
        ("kebab", "my-var"),
        ("lower", "my var"),
        ("pascal", "MyVar"),
        ("screaming-snake", "MY_VAR"),
        ("snake", "my_var"),
        ("title", "My Var"),
        ("toggle", "mY vAR"),
        ("train", "My-Var"),
        ("upper", "MY VAR"),
        ("upper-camel", "MyVar"),
        ("upper-flat", "MYVAR"),
        ("upper-kebab", "MY-VAR"),
        ("upper-snake", "MY_VAR"),
    ];
    let bar = |n: usize| "─".repeat(n);
    let mut want = format!("┌{}┬{}┐\n", bar(18), bar(7));
    for (i, (name, value)) in expected_rows.iter().enumerate() {
        want.push_str(&format!("│ {:<17}│ {:<6}│\n", name, value));
        if i + 1 == expected_rows.len() {
            want.push_str(&format!("└{}┴{}┘\n", bar(18), bar(7)));
        } else {
            want.push_str(&format!("├{}┼{}┤\n", bar(18), bar(7)));
        }
    }
    assert_eq!(table, want);
    let lines: Vec<&str> = table.lines().collect();
    assert_eq!(lines.len(), 35);
    for line in &lines {
        assert_eq!(line.chars().count(), 28);
        assert!(matches!(line.chars().nth(19), Some('┬' | '┼' | '┴' | '│')));
    }
}

#[test]
fn example_rows_join_inputs() {
    let rows = example_rows(&strings(&["my_var", "x"]));
    assert_eq!(rows.len(), 17);
    assert_eq!(rows[1], ("camel".to_string(), "myVar x".to_string()));
    assert_eq!(rows[16], ("upper-snake".to_string(), "MY_VAR X".to_string()));
}

#[test]
fn table_of_no_rows_is_a_top_rule() {
    assert_eq!(render_table(&Vec::new()), "┌───┬─┐\n");
}

#[test]
fn table_of_one_row() {
    let rows = vec![("ab".to_string(), "xyz".to_string())];
    assert_eq!(
        render_table(&rows),
        "┌─────┬────┐\n│ ab  │ xyz│\n└─────┴────┘\n"
    );
}

#[test]
fn table_pads_short_cells() {
    let rows = vec![
        ("a".to_string(), "long".to_string()),
        ("name".to_string(), "v".to_string()),
    ];
    assert_eq!(
        render_table(&rows),
        "┌───────┬─────┐\n│ a     │ long│\n├───────┼─────┤\n│ name  │ v   │\n└───────┴─────┘\n"
    );
}

#[test]
fn text_helpers() {
    assert!(same_text("abc", "abc"));
    assert!(!same_text("abc", "abd"));
    assert!(!same_text("ab", "abc"));
    assert!(same_text("", ""));
    assert_eq!(join_with(&strings(&["a", "b", "c"]), ", "), "a, b, c");
    assert_eq!(join_with(&strings(&[]), ", "), "");
    assert_eq!(join_with(&strings(&["only"]), "-"), "only");
    let mut s = String::from("x");
    push_repeat(&mut s, "─", 3);
    assert_eq!(s, "x───");
}
