use vstd::prelude::*;
use crate::cases::{
    CASE_COUNT, case_name, cased_all, cases_by_name, convert_all, lemma_cases_sorted_by_name, name_of,
    precedes, sorted_cases,
};
use crate::text::{join, join_with, push_repeat, repeat, texts};

verus! {

/// A table row: a case name and the text in that case.
pub open spec fn rows_view(rows: Seq<(String, String)>) -> Seq<(Seq<char>, Seq<char>)> {
    rows.map_values(|r: (String, String)| (r.0@, r.1@))
}

pub open spec fn left_cells(rows: Seq<(Seq<char>, Seq<char>)>) -> Seq<Seq<char>> {
    rows.map_values(|r: (Seq<char>, Seq<char>)| r.0)
}

pub open spec fn right_cells(rows: Seq<(Seq<char>, Seq<char>)>) -> Seq<Seq<char>> {
    rows.map_values(|r: (Seq<char>, Seq<char>)| r.1)
}

/// The length of the longest text, 0 for none.
pub open spec fn widest(ss: Seq<Seq<char>>) -> nat
    decreases ss.len(),
{
    if ss.len() == 0 {
        0
    } else {
        let w = widest(ss.drop_last());
        if ss.last().len() > w {
            ss.last().len()
        } else {
            w
        }
    }
}

/// A horizontal rule for columns `nw` and `vw` wide, with its newline.
pub open spec fn rule(left: char, mid: char, right: char, nw: nat, vw: nat) -> Seq<char> {
    seq![left] + repeat('─', nw + 3) + seq![mid] + repeat('─', vw + 1) + seq![right, '\n']
}

pub open spec fn top_rule(nw: nat, vw: nat) -> Seq<char> {
    rule('┌', '┬', '┐', nw, vw)
}

pub open spec fn middle_rule(nw: nat, vw: nat) -> Seq<char> {
    rule('├', '┼', '┤', nw, vw)
}

pub open spec fn bottom_rule(nw: nat, vw: nat) -> Seq<char> {
    rule('└', '┴', '┘', nw, vw)
}

/// One row, its cells padded with spaces to the column widths.
pub open spec fn row_line(name: Seq<char>, value: Seq<char>, nw: nat, vw: nat) -> Seq<char> {
    seq!['│', ' '] + name + repeat(' ', (nw - name.len() + 2) as nat) + seq!['│', ' '] + value
        + repeat(' ', (vw - value.len()) as nat) + seq!['│', '\n']
}

/// The first `n` rows, each followed by a middle rule, or by the bottom rule
/// after the last row.
pub open spec fn table_body(rows: Seq<(Seq<char>, Seq<char>)>, n: nat, nw: nat, vw: nat) -> Seq<
    char,
>
    decreases n,
{
    if n == 0 || n > rows.len() {
        Seq::empty()
    } else {
        table_body(rows, (n - 1) as nat, nw, vw) + row_line(rows[n - 1].0, rows[n - 1].1, nw, vw)
            + if n == rows.len() {
            bottom_rule(nw, vw)
        } else {
            middle_rule(nw, vw)
        }
    }
}

/// The whole table: a top rule and the rows, the columns as wide as their
/// longest cells.
pub open spec fn table_text(rows: Seq<(Seq<char>, Seq<char>)>) -> Seq<char> {
    let nw = widest(left_cells(rows));
    let vw = widest(right_cells(rows));
    top_rule(nw, vw) + table_body(rows, rows.len(), nw, vw)
}

/// The comparison rows for some input: every case in name order, with the
/// input texts in that case joined by spaces.
pub open spec fn example_rows_spec(inputs: Seq<Seq<char>>) -> Seq<(Seq<char>, Seq<char>)> {
    cases_by_name().map_values(
        |c: convert_case::Case| (name_of(c), join(cased_all(inputs, c), " "@)),
    )
}

/// No text is longer than the widest.
pub proof fn lemma_widest_bounds(ss: Seq<Seq<char>>)
    ensures
        forall|i: int| 0 <= i < ss.len() ==> (#[trigger] ss[i]).len() <= widest(ss),
    decreases ss.len(),
{
    if ss.len() > 0 {
        lemma_widest_bounds(ss.drop_last());
        assert forall|i: int| 0 <= i < ss.len() implies (#[trigger] ss[i]).len() <= widest(ss) by {
            if i < ss.len() - 1 {
                assert(ss[i] == ss.drop_last()[i]);
            }
        }
    }
}

/// The length of the longest of the texts.
fn widest_of(ss: &Vec<String>) -> (r: usize)
    ensures
        r == widest(texts(ss@)),
{
    let mut w: usize = 0;
    let mut i: usize = 0;
    while i < ss.len()
        invariant
            i <= ss@.len(),
            w == widest(texts(ss@.subrange(0, i as int))),
        decreases ss@.len() - i,
    {
        let ghost before = texts(ss@.subrange(0, i as int));
        let ghost after = texts(ss@.subrange(0, i + 1));
        assert(after.drop_last() == before);
        let n = ss[i].as_str().unicode_len();
        if n > w {
            w = n;
        }
        i = i + 1;
    }
    assert(ss@.subrange(0, ss@.len() as int) == ss@);
    w
}

/// A horizontal rule drawn with the given corner and junction characters.
fn rule_text(left: &str, mid: &str, right: &str, nw: usize, vw: usize) -> (r: String)
    requires
        left@.len() == 1,
        mid@.len() == 1,
        right@.len() == 1,
    ensures
        r@ == rule(left@[0], mid@[0], right@[0], nw as nat, vw as nat),
{
    proof {
        reveal_strlit("─");
        reveal_strlit("\n");
    }
    let mut s = String::from_str(left);
    push_repeat(&mut s, "─", nw);
    push_repeat(&mut s, "─", 3);
    s.append(mid);
    push_repeat(&mut s, "─", vw);
    push_repeat(&mut s, "─", 1);
    s.append(right);
    s.append("\n");
    assert(repeat('─', nw as nat) + repeat('─', 3) == repeat('─', (nw + 3) as nat));
    assert(repeat('─', vw as nat) + repeat('─', 1) == repeat('─', (vw + 1) as nat));
    assert(s@ == rule(left@[0], mid@[0], right@[0], nw as nat, vw as nat));
    s
}

/// One row of the table.
fn row_text(name: &str, value: &str, nw: usize, vw: usize) -> (r: String)
    requires
        name@.len() <= nw,
        value@.len() <= vw,
    ensures
        r@ == row_line(name@, value@, nw as nat, vw as nat),
{
    proof {
        reveal_strlit("│ ");
        reveal_strlit("│\n");
        reveal_strlit(" ");
    }
    let mut s = String::from_str("│ ");
    s.append(name);
    push_repeat(&mut s, " ", nw - name.unicode_len());
    push_repeat(&mut s, " ", 2);
    s.append("│ ");
    s.append(value);
    push_repeat(&mut s, " ", vw - value.unicode_len());
    s.append("│\n");
    assert(repeat(' ', (nw - name@.len()) as nat) + repeat(' ', 2) == repeat(
        ' ',
        (nw - name@.len() + 2) as nat,
    ));
    assert(s@ == row_line(name@, value@, nw as nat, vw as nat));
    s
}

/// Draws the rows as a table with box-drawing characters.
pub fn render_table(rows: &Vec<(String, String)>) -> (r: String)
    ensures
        r@ == table_text(rows_view(rows@)),
{
    let ghost rv = rows_view(rows@);
    let mut names: Vec<String> = Vec::new();
    let mut values: Vec<String> = Vec::new();
    let mut i: usize = 0;
    while i < rows.len()
        invariant
            rv == rows_view(rows@),
            i <= rows@.len(),
            texts(names@) == left_cells(rv).subrange(0, i as int),
            texts(values@) == right_cells(rv).subrange(0, i as int),
        decreases rows@.len() - i,
    {
        let ghost old_names = names@;
        let ghost old_values = values@;
        names.push(rows[i].0.clone());
        values.push(rows[i].1.clone());
        assert(names@ == old_names.push(rows@[i as int].0));
        assert(values@ == old_values.push(rows@[i as int].1));
        assert(left_cells(rv)[i as int] == rows@[i as int].0@);
        assert(right_cells(rv)[i as int] == rows@[i as int].1@);
        assert(texts(names@) =~= texts(old_names).push(rows@[i as int].0@));
        assert(texts(values@) =~= texts(old_values).push(rows@[i as int].1@));
        assert(left_cells(rv).subrange(0, i + 1) =~= left_cells(rv).subrange(0, i as int).push(
            rows@[i as int].0@,
        ));
        assert(right_cells(rv).subrange(0, i + 1) =~= right_cells(rv).subrange(0, i as int).push(
            rows@[i as int].1@,
        ));
        assert(texts(names@) == left_cells(rv).subrange(0, i + 1));
        assert(texts(values@) == right_cells(rv).subrange(0, i + 1));
        i = i + 1;
    }
    assert(left_cells(rv).subrange(0, rows@.len() as int) == left_cells(rv));
    assert(right_cells(rv).subrange(0, rows@.len() as int) == right_cells(rv));
    let nw = widest_of(&names);
    let vw = widest_of(&values);
    proof {
        lemma_widest_bounds(left_cells(rv));
        lemma_widest_bounds(right_cells(rv));
        reveal_strlit("┌");
        reveal_strlit("┬");
        reveal_strlit("┐");
    }
    let mut out = rule_text("┌", "┬", "┐", nw, vw);
    let n = rows.len();
    let mut k: usize = 0;
    while k < n
        invariant
            rv == rows_view(rows@),
            n == rows@.len(),
            k <= n,
            nw == widest(left_cells(rv)),
            vw == widest(right_cells(rv)),
            forall|j: int| 0 <= j < rv.len() ==> (#[trigger] left_cells(rv)[j]).len() <= nw,
            forall|j: int| 0 <= j < rv.len() ==> (#[trigger] right_cells(rv)[j]).len() <= vw,
            out@ == top_rule(nw as nat, vw as nat) + table_body(rv, k as nat, nw as nat, vw as nat),
        decreases n - k,
    {
        assert(left_cells(rv)[k as int] == rows@[k as int].0@);
        assert(right_cells(rv)[k as int] == rows@[k as int].1@);
        proof {
            reveal_strlit("├");
            reveal_strlit("┼");
            reveal_strlit("┤");
            reveal_strlit("└");
            reveal_strlit("┴");
            reveal_strlit("┘");
        }
        let line = row_text(rows[k].0.as_str(), rows[k].1.as_str(), nw, vw);
        out.append(line.as_str());
        let rule = if k + 1 == n {
            rule_text("└", "┴", "┘", nw, vw)
        } else {
            rule_text("├", "┼", "┤", nw, vw)
        };
        out.append(rule.as_str());
        k = k + 1;
    }
    out
}

/// The comparison rows for some input: every case in name order, with the
/// input texts in that case joined by spaces.
pub fn example_rows(inputs: &Vec<String>) -> (r: Vec<(String, String)>)
    ensures
        rows_view(r@) == example_rows_spec(texts(inputs@)),
{
    let ghost want = example_rows_spec(texts(inputs@));
    let cases = sorted_cases();
    let mut rows: Vec<(String, String)> = Vec::new();
    let mut i: usize = 0;
    while i < cases.len()
        invariant
            want == example_rows_spec(texts(inputs@)),
            cases@ == cases_by_name(),
            i <= cases@.len(),
            rows_view(rows@) == want.subrange(0, i as int),
        decreases cases@.len() - i,
    {
        let c = cases[i];
        let converted = convert_all(inputs, c);
        let value = join_with(&converted, " ");
        let ghost before = rows@;
        rows.push((String::from_str(case_name(c)), value));
        assert(rows_view(rows@) =~= rows_view(before).push((name_of(c), value@)));
        assert(want.subrange(0, i + 1) =~= want.subrange(0, i as int).push(want[i as int]));
        i = i + 1;
    }
    assert(want.subrange(0, 17) == want);
    rows
}

/// The table that compares every case on the input texts.
pub fn all_examples(inputs: &Vec<String>) -> (r: String)
    ensures
        r@ == table_text(example_rows_spec(texts(inputs@))),
{
    let rows = example_rows(inputs);
    render_table(&rows)
}

/// Every line of a table has the same length, and the column divider
/// stands at the same place on every line.
pub proof fn lemma_table_aligned(rows: Seq<(Seq<char>, Seq<char>)>)
    ensures
        ({
            let nw = widest(left_cells(rows));
            let vw = widest(right_cells(rows));
            let width = top_rule(nw, vw).len();
            &&& width == nw + vw + 8
            &&& middle_rule(nw, vw).len() == width
            &&& bottom_rule(nw, vw).len() == width
            &&& top_rule(nw, vw)[(nw + 4) as int] == '┬'
            &&& middle_rule(nw, vw)[(nw + 4) as int] == '┼'
            &&& bottom_rule(nw, vw)[(nw + 4) as int] == '┴'
            &&& forall|i: int|
                0 <= i < rows.len() ==> {
                    let line = #[trigger] row_line(rows[i].0, rows[i].1, nw, vw);
                    &&& line.len() == width
                    &&& line[(nw + 4) as int] == '│'
                }
        }),
{
    let nw = widest(left_cells(rows));
    let vw = widest(right_cells(rows));
    lemma_widest_bounds(left_cells(rows));
    lemma_widest_bounds(right_cells(rows));
    assert forall|i: int| 0 <= i < rows.len() implies {
        let line = #[trigger] row_line(rows[i].0, rows[i].1, nw, vw);
        &&& line.len() == top_rule(nw, vw).len()
        &&& line[(nw + 4) as int] == '│'
    } by {
        assert(left_cells(rows)[i] == rows[i].0);
        assert(right_cells(rows)[i] == rows[i].1);
        let name = rows[i].0;
        let pre = seq!['│', ' '] + name + repeat(' ', (nw - name.len() + 2) as nat);
        assert(pre.len() == nw + 4);
    }
}

/// The comparison table has one row per case, in strictly increasing order of
/// case name, each holding the input in that row's case.
pub proof fn lemma_example_rows(inputs: Seq<Seq<char>>)
    ensures
        example_rows_spec(inputs).len() == CASE_COUNT,
        forall|i: int|
            0 <= i < CASE_COUNT ==> (#[trigger] example_rows_spec(inputs)[i]) == (
            name_of(cases_by_name()[i]),
            join(cased_all(inputs, cases_by_name()[i]), " "@),
            ),
        forall|i: int|
            0 <= i < CASE_COUNT - 1 ==> precedes(
                (#[trigger] example_rows_spec(inputs)[i]).0,
                example_rows_spec(inputs)[i + 1].0,
            ),
{
    lemma_cases_sorted_by_name();
    assert forall|i: int| 0 <= i < CASE_COUNT - 1 implies precedes(
        (#[trigger] example_rows_spec(inputs)[i]).0,
        example_rows_spec(inputs)[i + 1].0,
    ) by {
        assert(precedes(name_of(cases_by_name()[i]), name_of(cases_by_name()[i + 1])));
    }
}

} // verus!
