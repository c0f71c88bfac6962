use vstd::prelude::*;
use convert_case::Case;
use crate::text::{join, join_with, same_text, texts};

verus! {

/// The naming conventions come from `convert_case`; Verus sees its variants.
#[verifier::external_type_specification]
pub struct ExCase(convert_case::Case);

/// The number of cases the tool offers.
pub const CASE_COUNT: usize = 17;

/// The command-line name of a case.
pub open spec fn name_of(c: Case) -> Seq<char> {
    match c {
        Case::Title => "title"@,
        Case::Upper => "upper"@,
        Case::Lower => "lower"@,
        Case::Toggle => "toggle"@,
        Case::Snake => "snake"@,
        Case::UpperSnake => "upper-snake"@,
        Case::Pascal => "pascal"@,
        Case::Camel => "camel"@,
        Case::UpperCamel => "upper-camel"@,
        Case::ScreamingSnake => "screaming-snake"@,
        Case::Kebab => "kebab"@,
        Case::Cobol => "cobol"@,
        Case::UpperKebab => "upper-kebab"@,
        Case::Train => "train"@,
        Case::Flat => "flat"@,
        Case::UpperFlat => "upper-flat"@,
        Case::Alternating => "alternating"@,
    }
}

/// The case that a command-line name selects, if any.
pub open spec fn case_named(s: Seq<char>) -> Option<Case> {
    if s == "title"@ { Some(Case::Title) }
    else if s == "upper"@ { Some(Case::Upper) }
    else if s == "lower"@ { Some(Case::Lower) }
    else if s == "toggle"@ { Some(Case::Toggle) }
    else if s == "snake"@ { Some(Case::Snake) }
    else if s == "upper-snake"@ { Some(Case::UpperSnake) }
    else if s == "pascal"@ { Some(Case::Pascal) }
    else if s == "camel"@ { Some(Case::Camel) }
    else if s == "upper-camel"@ { Some(Case::UpperCamel) }
    else if s == "screaming-snake"@ { Some(Case::ScreamingSnake) }
    else if s == "kebab"@ { Some(Case::Kebab) }
    else if s == "cobol"@ { Some(Case::Cobol) }
    else if s == "upper-kebab"@ { Some(Case::UpperKebab) }
    else if s == "train"@ { Some(Case::Train) }
    else if s == "flat"@ { Some(Case::Flat) }
    else if s == "upper-flat"@ { Some(Case::UpperFlat) }
    else if s == "alternating"@ { Some(Case::Alternating) }
    else { None }
}

/// Every case, in the order in which help and error messages list them.
pub open spec fn listed_cases() -> Seq<Case> {
    seq![
        Case::Title, Case::Upper, Case::Lower, Case::Toggle, Case::Snake,
        Case::UpperSnake, Case::Pascal, Case::Camel, Case::UpperCamel,
        Case::ScreamingSnake, Case::Kebab, Case::Cobol, Case::UpperKebab,
        Case::Train, Case::Flat, Case::UpperFlat, Case::Alternating,
    ]
}

/// Every case, ordered by name.
pub open spec fn cases_by_name() -> Seq<Case> {
    seq![
        Case::Alternating, Case::Camel, Case::Cobol, Case::Flat, Case::Kebab,
        Case::Lower, Case::Pascal, Case::ScreamingSnake, Case::Snake,
        Case::Title, Case::Toggle, Case::Train, Case::Upper, Case::UpperCamel,
        Case::UpperFlat, Case::UpperKebab, Case::UpperSnake,
    ]
}

/// The names of some cases.
pub open spec fn names_of(cs: Seq<Case>) -> Seq<Seq<char>> {
    cs.map_values(|c: Case| name_of(c))
}

/// The error text for a name that selects no case.
pub open spec fn unknown_case_text() -> Seq<char> {
    "Unknown case name. Valid cases: "@ + join(names_of(listed_cases()), ", "@)
}

/// What `convert_case` makes of a text in a given case.
pub uninterp spec fn cased(s: Seq<char>, c: Case) -> Seq<char>;

/// Each text in the given case.
pub open spec fn cased_all(ss: Seq<Seq<char>>, c: Case) -> Seq<Seq<char>> {
    ss.map_values(|s: Seq<char>| cased(s, c))
}

/// Relies on `convert_case::Casing::to_case`, whose result depends only on
/// the text and the case.
#[verifier::external_body]
pub(crate) fn to_case(s: &str, c: Case) -> (r: String)
    ensures
        r@ == cased(s@, c),
{
    convert_case::Casing::to_case(&s, c)
}

/// The command-line name of a case.
pub fn case_name(c: Case) -> (r: &'static str)
    ensures
        r@ == name_of(c),
{
    match c {
        Case::Title => "title",
        Case::Upper => "upper",
        Case::Lower => "lower",
        Case::Toggle => "toggle",
        Case::Snake => "snake",
        Case::UpperSnake => "upper-snake",
        Case::Pascal => "pascal",
        Case::Camel => "camel",
        Case::UpperCamel => "upper-camel",
        Case::ScreamingSnake => "screaming-snake",
        Case::Kebab => "kebab",
        Case::Cobol => "cobol",
        Case::UpperKebab => "upper-kebab",
        Case::Train => "train",
        Case::Flat => "flat",
        Case::UpperFlat => "upper-flat",
        Case::Alternating => "alternating",
    }
}

/// The case that a command-line name selects, if any.
pub fn case_from_name(s: &str) -> (r: Option<Case>)
    ensures
        r == case_named(s@),
{
    if same_text(s, "title") { Some(Case::Title) }
    else if same_text(s, "upper") { Some(Case::Upper) }
    else if same_text(s, "lower") { Some(Case::Lower) }
    else if same_text(s, "toggle") { Some(Case::Toggle) }
    else if same_text(s, "snake") { Some(Case::Snake) }
    else if same_text(s, "upper-snake") { Some(Case::UpperSnake) }
    else if same_text(s, "pascal") { Some(Case::Pascal) }
    else if same_text(s, "camel") { Some(Case::Camel) }
    else if same_text(s, "upper-camel") { Some(Case::UpperCamel) }
    else if same_text(s, "screaming-snake") { Some(Case::ScreamingSnake) }
    else if same_text(s, "kebab") { Some(Case::Kebab) }
    else if same_text(s, "cobol") { Some(Case::Cobol) }
    else if same_text(s, "upper-kebab") { Some(Case::UpperKebab) }
    else if same_text(s, "train") { Some(Case::Train) }
    else if same_text(s, "flat") { Some(Case::Flat) }
    else if same_text(s, "upper-flat") { Some(Case::UpperFlat) }
    else if same_text(s, "alternating") { Some(Case::Alternating) }
    else { None }
}

/// Every case, in the order in which help and error messages list them.
pub fn all_cases() -> (r: Vec<Case>)
    ensures
        r@ == listed_cases(),
{
    let r = vec![
        Case::Title, Case::Upper, Case::Lower, Case::Toggle, Case::Snake,
        Case::UpperSnake, Case::Pascal, Case::Camel, Case::UpperCamel,
        Case::ScreamingSnake, Case::Kebab, Case::Cobol, Case::UpperKebab,
        Case::Train, Case::Flat, Case::UpperFlat, Case::Alternating,
    ];
    assert(r@ == listed_cases());
    r
}

/// Every case, ordered by name.
pub fn sorted_cases() -> (r: Vec<Case>)
    ensures
        r@ == cases_by_name(),
{
    let r = vec![
        Case::Alternating, Case::Camel, Case::Cobol, Case::Flat, Case::Kebab,
        Case::Lower, Case::Pascal, Case::ScreamingSnake, Case::Snake,
        Case::Title, Case::Toggle, Case::Train, Case::Upper, Case::UpperCamel,
        Case::UpperFlat, Case::UpperKebab, Case::UpperSnake,
    ];
    assert(r@ == cases_by_name());
    r
}

/// The names of the given cases.
pub fn case_names(cs: &Vec<Case>) -> (r: Vec<String>)
    ensures
        texts(r@) == names_of(cs@),
{
    let mut r: Vec<String> = Vec::new();
    let mut i: usize = 0;
    while i < cs.len()
        invariant
            i <= cs@.len(),
            texts(r@) == names_of(cs@.subrange(0, i as int)),
        decreases cs@.len() - i,
    {
        r.push(String::from_str(case_name(cs[i])));
        assert(names_of(cs@.subrange(0, i + 1)) == names_of(cs@.subrange(0, i as int)).push(
            name_of(cs@[i as int]),
        ));
        i = i + 1;
    }
    assert(cs@.subrange(0, cs@.len() as int) == cs@);
    r
}

/// The error text for a name that selects no case: it lists every valid name.
pub fn unknown_case_message() -> (r: String)
    ensures
        r@ == unknown_case_text(),
{
    let names = case_names(&all_cases());
    let list = join_with(&names, ", ");
    String::from_str("Unknown case name. Valid cases: ").concat(list.as_str())
}

/// Converts each text to the given case.
pub fn convert_all(inputs: &Vec<String>, c: Case) -> (r: Vec<String>)
    ensures
        texts(r@) == cased_all(texts(inputs@), c),
{
    let mut r: Vec<String> = Vec::new();
    let mut i: usize = 0;
    while i < inputs.len()
        invariant
            i <= inputs@.len(),
            r@.len() == i,
            forall|k: int| 0 <= k < i ==> r@[k]@ == cased(#[trigger] inputs@[k]@, c),
        decreases inputs@.len() - i,
    {
        r.push(to_case(inputs[i].as_str(), c));
        i = i + 1;
    }
    assert(texts(r@) == cased_all(texts(inputs@), c));
    r
}

/// Whether `a` comes before `b` in dictionary order.
pub open spec fn precedes(a: Seq<char>, b: Seq<char>) -> bool
    decreases a.len(),
{
    if a.len() == 0 {
        b.len() > 0
    } else if b.len() == 0 {
        false
    } else if a[0] != b[0] {
        (a[0] as u32) < (b[0] as u32)
    } else {
        precedes(a.drop_first(), b.drop_first())
    }
}

/// The name of a case selects that case again.
pub proof fn lemma_name_selects_case(c: Case)
    ensures
        case_named(name_of(c)) == Some(c),
{
    match c {
        Case::Title => {
            reveal_strlit("title");
        },
        Case::Upper => {
            reveal_strlit("upper");
            reveal_strlit("title");
            assert("upper"@[0] != "title"@[0]);
        },
        Case::Lower => {
            reveal_strlit("lower");
            reveal_strlit("title");
            assert("lower"@[0] != "title"@[0]);
            reveal_strlit("upper");
            assert("lower"@[0] != "upper"@[0]);
        },
        Case::Toggle => {
            reveal_strlit("toggle");
            reveal_strlit("title");
            assert("toggle"@.len() != "title"@.len());
            reveal_strlit("upper");
            assert("toggle"@.len() != "upper"@.len());
            reveal_strlit("lower");
            assert("toggle"@.len() != "lower"@.len());
        },
        Case::Snake => {
            reveal_strlit("snake");
            reveal_strlit("title");
            assert("snake"@[0] != "title"@[0]);
            reveal_strlit("upper");
            assert("snake"@[0] != "upper"@[0]);
            reveal_strlit("lower");
            assert("snake"@[0] != "lower"@[0]);
            reveal_strlit("toggle");
            assert("snake"@.len() != "toggle"@.len());
        },
        Case::UpperSnake => {
            reveal_strlit("upper-snake");
            reveal_strlit("title");
            assert("upper-snake"@.len() != "title"@.len());
            reveal_strlit("upper");
            assert("upper-snake"@.len() != "upper"@.len());
            reveal_strlit("lower");
            assert("upper-snake"@.len() != "lower"@.len());
            reveal_strlit("toggle");
            assert("upper-snake"@.len() != "toggle"@.len());
            reveal_strlit("snake");
            assert("upper-snake"@.len() != "snake"@.len());
        },
        Case::Pascal => {
            reveal_strlit("pascal");
            reveal_strlit("title");
            assert("pascal"@.len() != "title"@.len());
            reveal_strlit("upper");
            assert("pascal"@.len() != "upper"@.len());
            reveal_strlit("lower");
            assert("pascal"@.len() != "lower"@.len());
            reveal_strlit("toggle");
            assert("pascal"@[0] != "toggle"@[0]);
            reveal_strlit("snake");
            assert("pascal"@.len() != "snake"@.len());
            reveal_strlit("upper-snake");
            assert("pascal"@.len() != "upper-snake"@.len());
        },
        Case::Camel => {
            reveal_strlit("camel");
            reveal_strlit("title");
            assert("camel"@[0] != "title"@[0]);
            reveal_strlit("upper");
            assert("camel"@[0] != "upper"@[0]);
            reveal_strlit("lower");
            assert("camel"@[0] != "lower"@[0]);
            reveal_strlit("toggle");
            assert("camel"@.len() != "toggle"@.len());
            reveal_strlit("snake");
            assert("camel"@[0] != "snake"@[0]);
            reveal_strlit("upper-snake");
            assert("camel"@.len() != "upper-snake"@.len());
            reveal_strlit("pascal");
            assert("camel"@.len() != "pascal"@.len());
        },
        Case::UpperCamel => {
            reveal_strlit("upper-camel");
            reveal_strlit("title");
            assert("upper-camel"@.len() != "title"@.len());
            reveal_strlit("upper");
            assert("upper-camel"@.len() != "upper"@.len());
            reveal_strlit("lower");
            assert("upper-camel"@.len() != "lower"@.len());
            reveal_strlit("toggle");
            assert("upper-camel"@.len() != "toggle"@.len());
            reveal_strlit("snake");
            assert("upper-camel"@.len() != "snake"@.len());
            reveal_strlit("upper-snake");
            assert("upper-camel"@[6] != "upper-snake"@[6]);
            reveal_strlit("pascal");
            assert("upper-camel"@.len() != "pascal"@.len());
            reveal_strlit("camel");
            assert("upper-camel"@.len() != "camel"@.len());
        },
        Case::ScreamingSnake => {
            reveal_strlit("screaming-snake");
            reveal_strlit("title");
            assert("screaming-snake"@.len() != "title"@.len());
            reveal_strlit("upper");
            assert("screaming-snake"@.len() != "upper"@.len());
            reveal_strlit("lower");
            assert("screaming-snake"@.len() != "lower"@.len());
            reveal_strlit("toggle");
            assert("screaming-snake"@.len() != "toggle"@.len());
            reveal_strlit("snake");
            assert("screaming-snake"@.len() != "snake"@.len());
            reveal_strlit("upper-snake");
            assert("screaming-snake"@.len() != "upper-snake"@.len());
            reveal_strlit("pascal");
            assert("screaming-snake"@.len() != "pascal"@.len());
            reveal_strlit("camel");
            assert("screaming-snake"@.len() != "camel"@.len());
            reveal_strlit("upper-camel");
            assert("screaming-snake"@.len() != "upper-camel"@.len());
        },
        Case::Kebab => {
            reveal_strlit("kebab");
            reveal_strlit("title");
            assert("kebab"@[0] != "title"@[0]);
            reveal_strlit("upper");
            assert("kebab"@[0] != "upper"@[0]);
            reveal_strlit("lower");
            assert("kebab"@[0] != "lower"@[0]);
            reveal_strlit("toggle");
            assert("kebab"@.len() != "toggle"@.len());
            reveal_strlit("snake");
            assert("kebab"@[0] != "snake"@[0]);
            reveal_strlit("upper-snake");
            assert("kebab"@.len() != "upper-snake"@.len());
            reveal_strlit("pascal");
            assert("kebab"@.len() != "pascal"@.len());
            reveal_strlit("camel");
            assert("kebab"@[0] != "camel"@[0]);
            reveal_strlit("upper-camel");
            assert("kebab"@.len() != "upper-camel"@.len());
            reveal_strlit("screaming-snake");
            assert("kebab"@.len() != "screaming-snake"@.len());
        },
        Case::Cobol => {
            reveal_strlit("cobol");
            reveal_strlit("title");
            assert("cobol"@[0] != "title"@[0]);
            reveal_strlit("upper");
            assert("cobol"@[0] != "upper"@[0]);
            reveal_strlit("lower");
            assert("cobol"@[0] != "lower"@[0]);
            reveal_strlit("toggle");
            assert("cobol"@.len() != "toggle"@.len());
            reveal_strlit("snake");
            assert("cobol"@[0] != "snake"@[0]);
            reveal_strlit("upper-snake");
            assert("cobol"@.len() != "upper-snake"@.len());
            reveal_strlit("pascal");
            assert("cobol"@.len() != "pascal"@.len());
            reveal_strlit("camel");
            assert("cobol"@[1] != "camel"@[1]);
            reveal_strlit("upper-camel");
            assert("cobol"@.len() != "upper-camel"@.len());
            reveal_strlit("screaming-snake");
            assert("cobol"@.len() != "screaming-snake"@.len());
            reveal_strlit("kebab");
            assert("cobol"@[0] != "kebab"@[0]);
        },
        Case::UpperKebab => {
            reveal_strlit("upper-kebab");
            reveal_strlit("title");
            assert("upper-kebab"@.len() != "title"@.len());
            reveal_strlit("upper");
            assert("upper-kebab"@.len() != "upper"@.len());
            reveal_strlit("lower");
            assert("upper-kebab"@.len() != "lower"@.len());
            reveal_strlit("toggle");
            assert("upper-kebab"@.len() != "toggle"@.len());
            reveal_strlit("snake");
            assert("upper-kebab"@.len() != "snake"@.len());
            reveal_strlit("upper-snake");
            assert("upper-kebab"@[6] != "upper-snake"@[6]);
            reveal_strlit("pascal");
            assert("upper-kebab"@.len() != "pascal"@.len());
            reveal_strlit("camel");
            assert("upper-kebab"@.len() != "camel"@.len());
            reveal_strlit("upper-camel");
            assert("upper-kebab"@[6] != "upper-camel"@[6]);
            reveal_strlit("screaming-snake");
            assert("upper-kebab"@.len() != "screaming-snake"@.len());
            reveal_strlit("kebab");
            assert("upper-kebab"@.len() != "kebab"@.len());
            reveal_strlit("cobol");
            assert("upper-kebab"@.len() != "cobol"@.len());
        },
        Case::Train => {
            reveal_strlit("train");
            reveal_strlit("title");
            assert("train"@[1] != "title"@[1]);
            reveal_strlit("upper");
            assert("train"@[0] != "upper"@[0]);
            reveal_strlit("lower");
            assert("train"@[0] != "lower"@[0]);
            reveal_strlit("toggle");
            assert("train"@.len() != "toggle"@.len());
            reveal_strlit("snake");
            assert("train"@[0] != "snake"@[0]);
            reveal_strlit("upper-snake");
            assert("train"@.len() != "upper-snake"@.len());
            reveal_strlit("pascal");
            assert("train"@.len() != "pascal"@.len());
            reveal_strlit("camel");
            assert("train"@[0] != "camel"@[0]);
            reveal_strlit("upper-camel");
            assert("train"@.len() != "upper-camel"@.len());
            reveal_strlit("screaming-snake");
            assert("train"@.len() != "screaming-snake"@.len());
            reveal_strlit("kebab");
            assert("train"@[0] != "kebab"@[0]);
            reveal_strlit("cobol");
            assert("train"@[0] != "cobol"@[0]);
            reveal_strlit("upper-kebab");
            assert("train"@.len() != "upper-kebab"@.len());
        },
        Case::Flat => {
            reveal_strlit("flat");
            reveal_strlit("title");
            assert("flat"@.len() != "title"@.len());
            reveal_strlit("upper");
            assert("flat"@.len() != "upper"@.len());
            reveal_strlit("lower");
            assert("flat"@.len() != "lower"@.len());
            reveal_strlit("toggle");
            assert("flat"@.len() != "toggle"@.len());
            reveal_strlit("snake");
            assert("flat"@.len() != "snake"@.len());
            reveal_strlit("upper-snake");
            assert("flat"@.len() != "upper-snake"@.len());
            reveal_strlit("pascal");
            assert("flat"@.len() != "pascal"@.len());
            reveal_strlit("camel");
            assert("flat"@.len() != "camel"@.len());
            reveal_strlit("upper-camel");
            assert("flat"@.len() != "upper-camel"@.len());
            reveal_strlit("screaming-snake");
            assert("flat"@.len() != "screaming-snake"@.len());
            reveal_strlit("kebab");
            assert("flat"@.len() != "kebab"@.len());
            reveal_strlit("cobol");
            assert("flat"@.len() != "cobol"@.len());
            reveal_strlit("upper-kebab");
            assert("flat"@.len() != "upper-kebab"@.len());
            reveal_strlit("train");
            assert("flat"@.len() != "train"@.len());
        },
        Case::UpperFlat => {
            reveal_strlit("upper-flat");
            reveal_strlit("title");
            assert("upper-flat"@.len() != "title"@.len());
            reveal_strlit("upper");
            assert("upper-flat"@.len() != "upper"@.len());
            reveal_strlit("lower");
            assert("upper-flat"@.len() != "lower"@.len());
            reveal_strlit("toggle");
            assert("upper-flat"@.len() != "toggle"@.len());
            reveal_strlit("snake");
            assert("upper-flat"@.len() != "snake"@.len());
            reveal_strlit("upper-snake");
            assert("upper-flat"@.len() != "upper-snake"@.len());
            reveal_strlit("pascal");
            assert("upper-flat"@.len() != "pascal"@.len());
            reveal_strlit("camel");
            assert("upper-flat"@.len() != "camel"@.len());
            reveal_strlit("upper-camel");
            assert("upper-flat"@.len() != "upper-camel"@.len());
            reveal_strlit("screaming-snake");
            assert("upper-flat"@.len() != "screaming-snake"@.len());
            reveal_strlit("kebab");
            assert("upper-flat"@.len() != "kebab"@.len());
            reveal_strlit("cobol");
            assert("upper-flat"@.len() != "cobol"@.len());
            reveal_strlit("upper-kebab");
            assert("upper-flat"@.len() != "upper-kebab"@.len());
            reveal_strlit("train");
            assert("upper-flat"@.len() != "train"@.len());
            reveal_strlit("flat");
            assert("upper-flat"@.len() != "flat"@.len());
        },
        Case::Alternating => {
            reveal_strlit("alternating");
            reveal_strlit("title");
            assert("alternating"@.len() != "title"@.len());
            reveal_strlit("upper");
            assert("alternating"@.len() != "upper"@.len());
            reveal_strlit("lower");
            assert("alternating"@.len() != "lower"@.len());
            reveal_strlit("toggle");
            assert("alternating"@.len() != "toggle"@.len());
            reveal_strlit("snake");
            assert("alternating"@.len() != "snake"@.len());
            reveal_strlit("upper-snake");
            assert("alternating"@[0] != "upper-snake"@[0]);
            reveal_strlit("pascal");
            assert("alternating"@.len() != "pascal"@.len());
            reveal_strlit("camel");
            assert("alternating"@.len() != "camel"@.len());
            reveal_strlit("upper-camel");
            assert("alternating"@[0] != "upper-camel"@[0]);
            reveal_strlit("screaming-snake");
            assert("alternating"@.len() != "screaming-snake"@.len());
            reveal_strlit("kebab");
            assert("alternating"@.len() != "kebab"@.len());
            reveal_strlit("cobol");
            assert("alternating"@.len() != "cobol"@.len());
            reveal_strlit("upper-kebab");
            assert("alternating"@[0] != "upper-kebab"@[0]);
            reveal_strlit("train");
            assert("alternating"@.len() != "train"@.len());
            reveal_strlit("flat");
            assert("alternating"@.len() != "flat"@.len());
            reveal_strlit("upper-flat");
            assert("alternating"@.len() != "upper-flat"@.len());
        },
    }
}

/// Both lists hold all seventeen cases.
pub proof fn lemma_every_case_listed(c: Case)
    ensures
        listed_cases().len() == CASE_COUNT,
        cases_by_name().len() == CASE_COUNT,
        listed_cases().contains(c),
        cases_by_name().contains(c),
{
    match c {
        Case::Title => {
            assert(listed_cases()[0] == c);
            assert(cases_by_name()[9] == c);
        },
        Case::Upper => {
            assert(listed_cases()[1] == c);
            assert(cases_by_name()[12] == c);
        },
        Case::Lower => {
            assert(listed_cases()[2] == c);
            assert(cases_by_name()[5] == c);
        },
        Case::Toggle => {
            assert(listed_cases()[3] == c);
            assert(cases_by_name()[10] == c);
        },
        Case::Snake => {
            assert(listed_cases()[4] == c);
            assert(cases_by_name()[8] == c);
        },
        Case::UpperSnake => {
            assert(listed_cases()[5] == c);
            assert(cases_by_name()[16] == c);
        },
        Case::Pascal => {
            assert(listed_cases()[6] == c);
            assert(cases_by_name()[6] == c);
        },
        Case::Camel => {
            assert(listed_cases()[7] == c);
            assert(cases_by_name()[1] == c);
        },
        Case::UpperCamel => {
            assert(listed_cases()[8] == c);
            assert(cases_by_name()[13] == c);
        },
        Case::ScreamingSnake => {
            assert(listed_cases()[9] == c);
            assert(cases_by_name()[7] == c);
        },
        Case::Kebab => {
            assert(listed_cases()[10] == c);
            assert(cases_by_name()[4] == c);
        },
        Case::Cobol => {
            assert(listed_cases()[11] == c);
            assert(cases_by_name()[2] == c);
        },
        Case::UpperKebab => {
            assert(listed_cases()[12] == c);
            assert(cases_by_name()[15] == c);
        },
        Case::Train => {
            assert(listed_cases()[13] == c);
            assert(cases_by_name()[11] == c);
        },
        Case::Flat => {
            assert(listed_cases()[14] == c);
            assert(cases_by_name()[3] == c);
        },
        Case::UpperFlat => {
            assert(listed_cases()[15] == c);
            assert(cases_by_name()[14] == c);
        },
        Case::Alternating => {
            assert(listed_cases()[16] == c);
            assert(cases_by_name()[0] == c);
        },
    }
}

/// The cases ordered by name are in strictly increasing dictionary order.
pub proof fn lemma_cases_sorted_by_name()
    ensures
        forall|i: int|
            0 <= i < CASE_COUNT - 1 ==> precedes(
                name_of(#[trigger] cases_by_name()[i]),
                name_of(cases_by_name()[i + 1]),
            ),
{
    reveal_strlit("title");
    reveal_strlit("upper");
    reveal_strlit("lower");
    reveal_strlit("toggle");
    reveal_strlit("snake");
    reveal_strlit("upper-snake");
    reveal_strlit("pascal");
    reveal_strlit("camel");
    reveal_strlit("upper-camel");
    reveal_strlit("screaming-snake");
    reveal_strlit("kebab");
    reveal_strlit("cobol");
    reveal_strlit("upper-kebab");
    reveal_strlit("train");
    reveal_strlit("flat");
    reveal_strlit("upper-flat");
    reveal_strlit("alternating");
    reveal_with_fuel(precedes, 8);
    assert forall|i: int|
        0 <= i < CASE_COUNT - 1 implies precedes(
        name_of(#[trigger] cases_by_name()[i]),
        name_of(cases_by_name()[i + 1]),
    ) by {
        if i == 0 {
            assert(precedes("alternating"@, "camel"@));
        }
        if i == 1 {
            assert(precedes("camel"@, "cobol"@));
        }
        if i == 2 {
            assert(precedes("cobol"@, "flat"@));
        }
        if i == 3 {
            assert(precedes("flat"@, "kebab"@));
        }
        if i == 4 {
            assert(precedes("kebab"@, "lower"@));
        }
        if i == 5 {
            assert(precedes("lower"@, "pascal"@));
        }
        if i == 6 {
            assert(precedes("pascal"@, "screaming-snake"@));
        }
        if i == 7 {
            assert(precedes("screaming-snake"@, "snake"@));
        }
        if i == 8 {
            assert(precedes("snake"@, "title"@));
        }
        if i == 9 {
            assert(precedes("title"@, "toggle"@));
        }
        if i == 10 {
            assert(precedes("toggle"@, "train"@));
        }
        if i == 11 {
            assert(precedes("train"@, "upper"@));
        }
        if i == 12 {
            assert(precedes("upper"@, "upper-camel"@));
        }
        if i == 13 {
            assert(precedes("upper-camel"@, "upper-flat"@));
        }
        if i == 14 {
            assert(precedes("upper-flat"@, "upper-kebab"@));
        }
        if i == 15 {
            assert(precedes("upper-kebab"@, "upper-snake"@));
        }
    }
}

} // verus!
