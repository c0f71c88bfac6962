use vstd::prelude::*;
use convert_case::Case;
use crate::cases::{case_from_name, case_named, unknown_case_message, unknown_case_text};
use crate::text::{same_text, texts};

verus! {

pub open spec fn is_case_switch(s: Seq<char>) -> bool {
    s == "-c"@ || s == "--case"@
}

pub open spec fn is_help_switch(s: Seq<char>) -> bool {
    s == "-h"@ || s == "--help"@
}

pub open spec fn is_examples_switch(s: Seq<char>) -> bool {
    s == "-x"@ || s == "--examples"@
}

pub open spec fn is_omit_newline_switch(s: Seq<char>) -> bool {
    s == "-o"@ || s == "--omit-newline"@
}

/// A switch that only sets a flag.
pub open spec fn is_flag(s: Seq<char>) -> bool {
    is_examples_switch(s) || is_omit_newline_switch(s)
}

/// The switches that turn on the comparison table and drop the final newline.
#[derive(Clone, Copy, Debug, PartialEq, Eq, Structural)]
pub struct Flags {
    pub omit_trailing_newline: bool,
    pub show_examples: bool,
}

/// The flags after one more argument has been seen.
pub open spec fn flags_after(f: Flags, s: Seq<char>) -> Flags {
    if is_examples_switch(s) {
        Flags { show_examples: true, ..f }
    } else if is_omit_newline_switch(s) {
        Flags { omit_trailing_newline: true, ..f }
    } else {
        f
    }
}

impl Flags {
    /// Both flags off.
    pub fn new() -> (r: Flags)
        ensures
            !r.omit_trailing_newline,
            !r.show_examples,
    {
        Flags { omit_trailing_newline: false, show_examples: false }
    }

    /// Sets the flag that `st` names, if it names one, and tells whether it did.
    pub fn process(&mut self, st: &str) -> (r: bool)
        ensures
            r == is_flag(st@),
            *final(self) == flags_after(*old(self), st@),
    {
        if same_text(st, "-x") || same_text(st, "--examples") {
            self.show_examples = true;
            true
        } else if same_text(st, "-o") || same_text(st, "--omit-newline") {
            self.omit_trailing_newline = true;
            true
        } else {
            false
        }
    }
}

impl Default for Flags {
    fn default() -> (r: Flags)
        ensures
            !r.omit_trailing_newline,
            !r.show_examples,
    {
        Flags::new()
    }
}

/// Why the scan of the arguments stopped without selecting a case.
#[derive(Clone, Copy, Debug, PartialEq, Eq, Structural)]
pub enum ArgError {
    /// A help switch was given.
    HelpRequested,
    /// The case switch came a second time.
    DuplicateCase,
    /// The case switch was followed by a name that selects no case.
    UnknownCase,
}

pub open spec fn exit_code_of(e: ArgError) -> int {
    match e {
        ArgError::HelpRequested => 2,
        _ => 1,
    }
}

impl ArgError {
    /// The status the process ends with.
    pub fn exit_code(&self) -> (r: i32)
        ensures
            r == exit_code_of(*self),
    {
        match self {
            ArgError::HelpRequested => 2,
            _ => 1,
        }
    }

    /// The text reported for a usage error; empty for a help request, whose
    /// text is the help itself.
    pub fn message(&self) -> (r: String)
        ensures
            *self == ArgError::HelpRequested ==> r@ == Seq::<char>::empty(),
            *self == ArgError::DuplicateCase ==> r@ == "-c or --case passed more than once"@,
            *self == ArgError::UnknownCase ==> r@ == unknown_case_text(),
    {
        match self {
            ArgError::HelpRequested => String::new(),
            ArgError::DuplicateCase => String::from_str("-c or --case passed more than once"),
            ArgError::UnknownCase => unknown_case_message(),
        }
    }
}

/// Where the scan of the arguments stands.
#[derive(Clone, Copy, Debug)]
pub enum ScanState {
    /// Still reading: whether a case switch has been seen, and the case
    /// selected so far.
    Running { expecting_case: bool, selected: Option<Case> },
    /// Done reading: the rest of the arguments are left alone.
    Stopped { outcome: Result<Case, ArgError> },
}

/// The scan state after one more argument. Flags are tracked apart.
pub open spec fn step(st: ScanState, s: Seq<char>) -> ScanState {
    match st {
        ScanState::Stopped { .. } => st,
        ScanState::Running { expecting_case, selected } => {
            if is_case_switch(s) {
                if expecting_case {
                    ScanState::Stopped { outcome: Err(ArgError::DuplicateCase) }
                } else {
                    ScanState::Running { expecting_case: true, selected }
                }
            } else if is_help_switch(s) {
                ScanState::Stopped { outcome: Err(ArgError::HelpRequested) }
            } else if is_flag(s) {
                st
            } else if selected is Some {
                // Once a case is selected, the first other argument starts the input.
                ScanState::Stopped { outcome: Ok(selected->Some_0) }
            } else if expecting_case {
                match case_named(s) {
                    Some(c) => ScanState::Running { expecting_case, selected: Some(c) },
                    None => ScanState::Stopped { outcome: Err(ArgError::UnknownCase) },
                }
            } else {
                st
            }
        }
    }
}

pub open spec fn initial_scan() -> ScanState {
    ScanState::Running { expecting_case: false, selected: None }
}

/// The scan state after the first `n` arguments.
pub open spec fn scan_upto(args: Seq<Seq<char>>, n: nat) -> ScanState
    decreases n,
{
    if n == 0 || n > args.len() {
        initial_scan()
    } else {
        step(scan_upto(args, (n - 1) as nat), args[n - 1])
    }
}

/// The flags after the first `n` arguments, counting only those the scan read.
pub open spec fn flags_upto(args: Seq<Seq<char>>, n: nat, f: Flags) -> Flags
    decreases n,
{
    if n == 0 || n > args.len() {
        f
    } else {
        let prev = flags_upto(args, (n - 1) as nat, f);
        if scan_upto(args, (n - 1) as nat) is Running {
            flags_after(prev, args[n - 1])
        } else {
            prev
        }
    }
}

/// What a finished scan yields: the selected case, title case by default.
pub open spec fn outcome_of(st: ScanState) -> Result<Case, ArgError> {
    match st {
        ScanState::Stopped { outcome } => outcome,
        ScanState::Running { selected, .. } => match selected {
            Some(c) => Ok(c),
            None => Ok(Case::Title),
        },
    }
}

/// What scanning all the arguments yields.
pub open spec fn scan_outcome(args: Seq<Seq<char>>) -> Result<Case, ArgError> {
    outcome_of(scan_upto(args, args.len()))
}

impl ScanState {
    /// The state before any argument.
    pub fn new() -> (r: ScanState)
        ensures
            r == initial_scan(),
    {
        ScanState::Running { expecting_case: false, selected: None }
    }

    /// The state after one more argument.
    pub fn next(self, s: &str) -> (r: ScanState)
        ensures
            r == step(self, s@),
    {
        match self {
            ScanState::Stopped { .. } => self,
            ScanState::Running { expecting_case, selected } => {
                if same_text(s, "-c") || same_text(s, "--case") {
                    if expecting_case {
                        ScanState::Stopped { outcome: Err(ArgError::DuplicateCase) }
                    } else {
                        ScanState::Running { expecting_case: true, selected }
                    }
                } else if same_text(s, "-h") || same_text(s, "--help") {
                    ScanState::Stopped { outcome: Err(ArgError::HelpRequested) }
                } else if same_text(s, "-x") || same_text(s, "--examples") || same_text(s, "-o")
                    || same_text(s, "--omit-newline") {
                    self
                } else if let Some(c) = selected {
                    ScanState::Stopped { outcome: Ok(c) }
                } else if expecting_case {
                    match case_from_name(s) {
                        Some(c) => ScanState::Running { expecting_case, selected: Some(c) },
                        None => ScanState::Stopped { outcome: Err(ArgError::UnknownCase) },
                    }
                } else {
                    self
                }
            }
        }
    }

    /// What the scan yields if it ends here.
    pub fn outcome(&self) -> (r: Result<Case, ArgError>)
        ensures
            r == outcome_of(*self),
    {
        match self {
            ScanState::Stopped { outcome } => *outcome,
            ScanState::Running { selected, .. } => match selected {
                Some(c) => Ok(*c),
                None => Ok(Case::Title),
            },
        }
    }
}

/// Reads the case selection and the flags from the arguments. The case
/// switch takes the next argument as a case name; title case is the default.
/// Scanning stops at a help switch, at an error, or at the first argument
/// that is neither a switch nor the case name once a case is selected.
pub fn find_case_in_args(args: &[String], flags: &mut Flags) -> (r: Result<Case, ArgError>)
    ensures
        r == scan_outcome(texts(args@)),
        *final(flags) == flags_upto(texts(args@), args@.len() as nat, *old(flags)),
{
    let ghost a = texts(args@);
    let mut st = ScanState::new();
    let mut i: usize = 0;
    while i < args.len()
        invariant
            a == texts(args@),
            i <= args@.len(),
            st == scan_upto(a, i as nat),
            *flags == flags_upto(a, i as nat, *old(flags)),
        decreases args@.len() - i,
    {
        let s = args[i].as_str();
        if let ScanState::Running { .. } = st {
            flags.process(s);
        }
        st = st.next(s);
        i = i + 1;
    }
    st.outcome()
}

/// Which arguments are left as input so far, and whether the next one is
/// the case name to skip.
pub open spec fn literal_step(st: (Seq<Seq<char>>, bool), s: Seq<char>) -> (Seq<Seq<char>>, bool) {
    let (kept, expecting_case) = st;
    if is_case_switch(s) && kept.len() == 0 {
        (kept, true)
    } else if !is_case_switch(s) && expecting_case {
        (kept, false)
    } else if !is_case_switch(s) && kept.len() == 0 && is_flag(s) {
        (kept, expecting_case)
    } else {
        (kept.push(s), expecting_case)
    }
}

pub open spec fn literal_upto(args: Seq<Seq<char>>, n: nat) -> (Seq<Seq<char>>, bool)
    decreases n,
{
    if n == 0 || n > args.len() {
        (Seq::empty(), false)
    } else {
        literal_step(literal_upto(args, (n - 1) as nat), args[n - 1])
    }
}

/// The arguments that are input text: before the first of them, the case
/// switch, the argument after it and the flags are left out; from the first
/// of them on, every argument is kept.
pub open spec fn literal_input(args: Seq<Seq<char>>) -> Seq<Seq<char>> {
    literal_upto(args, args.len()).0
}

/// The arguments that are input text, if there are any.
pub fn find_vec_input(args: Vec<String>) -> (r: Option<Vec<String>>)
    ensures
        r is None <==> literal_input(texts(args@)).len() == 0,
        r matches Some(v) ==> texts(v@) == literal_input(texts(args@)),
{
    let ghost a = texts(args@);
    let mut result: Vec<String> = Vec::new();
    let mut expecting_case = false;
    let mut i: usize = 0;
    while i < args.len()
        invariant
            a == texts(args@),
            i <= args@.len(),
            (texts(result@), expecting_case) == literal_upto(a, i as nat),
        decreases args@.len() - i,
    {
        let s = args[i].as_str();
        let is_switch = same_text(s, "-c") || same_text(s, "--case");
        let ghost kept = texts(result@);
        if is_switch && result.len() == 0 {
            expecting_case = true;
        } else if !is_switch && expecting_case {
            expecting_case = false;
        } else if !is_switch && result.len() == 0 && Flags::new().process(s) {
        } else {
            result.push(args[i].clone());
            assert(texts(result@) == kept.push(s@));
        }
        i = i + 1;
    }
    if result.len() > 0 {
        Some(result)
    } else {
        None
    }
}

/// Where the text to convert comes from.
#[derive(Debug)]
pub enum Input {
    /// Standard input, one text per line.
    Stdin,
    /// Arguments from the command line.
    Cli(Vec<String>),
}

impl Input {
    /// Input from the arguments that are input text, or from standard input
    /// where there are none.
    pub fn new(args: Vec<String>) -> (r: Input)
        ensures
            r is Stdin <==> literal_input(texts(args@)).len() == 0,
            r matches Input::Cli(v) ==> texts(v@) == literal_input(texts(args@)),
    {
        match find_vec_input(args) {
            Some(v) => Input::Cli(v),
            None => Input::Stdin,
        }
    }
}

/// Once stopped, the scan stays stopped with the same outcome.
proof fn lemma_stopped_stays(args: Seq<Seq<char>>, m: nat, n: nat)
    requires
        m <= n <= args.len(),
        scan_upto(args, m) is Stopped,
    ensures
        scan_upto(args, n) == scan_upto(args, m),
    decreases n - m,
{
    if m < n {
        lemma_stopped_stays(args, m, (n - 1) as nat);
    }
}

/// Once a case switch is read, the scan expects a case for as long as it runs.
proof fn lemma_expecting_stays(args: Seq<Seq<char>>, m: nat, n: nat)
    requires
        m <= n <= args.len(),
        scan_upto(args, m) matches ScanState::Running { expecting_case, .. } && expecting_case,
        scan_upto(args, n) is Running,
    ensures
        scan_upto(args, n) matches ScanState::Running { expecting_case, .. } && expecting_case,
    decreases n - m,
{
    if m < n {
        if scan_upto(args, (n - 1) as nat) is Stopped {
            lemma_stopped_stays(args, (n - 1) as nat, n);
        }
        lemma_expecting_stays(args, m, (n - 1) as nat);
    }
}

/// Where no argument is a case switch or a help switch, title case is selected.
pub proof fn lemma_default_case_is_title(args: Seq<Seq<char>>)
    requires
        forall|i: int| 0 <= i < args.len() ==> !is_case_switch(#[trigger] args[i]) && !is_help_switch(
            args[i],
        ),
    ensures
        scan_outcome(args) == Ok::<Case, ArgError>(Case::Title),
{
    assert forall|n: nat| n <= args.len() implies scan_upto(args, n) == initial_scan() by {
        lemma_scan_idle(args, n);
    }
}

proof fn lemma_scan_idle(args: Seq<Seq<char>>, n: nat)
    requires
        n <= args.len(),
        forall|i: int| 0 <= i < args.len() ==> !is_case_switch(#[trigger] args[i]) && !is_help_switch(
            args[i],
        ),
    ensures
        scan_upto(args, n) == initial_scan(),
    decreases n,
{
    if n > 0 {
        lemma_scan_idle(args, (n - 1) as nat);
        assert(!is_case_switch(args[n - 1]) && !is_help_switch(args[n - 1]));
    }
}

/// A case switch given a second time is a usage error (status 1), whatever
/// else is given, as long as the scan has not stopped before reaching it.
pub proof fn lemma_second_case_switch(args: Seq<Seq<char>>, i: nat, j: nat)
    requires
        i < j < args.len(),
        is_case_switch(args[i as int]),
        is_case_switch(args[j as int]),
        scan_upto(args, j) is Running,
    ensures
        scan_outcome(args) == Err::<Case, ArgError>(ArgError::DuplicateCase),
        exit_code_of(ArgError::DuplicateCase) == 1,
{
    if scan_upto(args, i) is Stopped {
        lemma_stopped_stays(args, i, j);
    }
    if scan_upto(args, i + 1) is Stopped {
        lemma_stopped_stays(args, i + 1, j);
    }
    lemma_expecting_stays(args, i + 1, j);
    lemma_stopped_stays(args, j + 1, args.len());
}

/// The case switch followed by a name that selects no case is a usage error
/// (status 1); its message lists every valid name.
pub proof fn lemma_unknown_case_name(bad: Seq<char>)
    requires
        case_named(bad) is None,
        !is_case_switch(bad),
        !is_help_switch(bad),
        !is_flag(bad),
    ensures
        scan_outcome(seq!["-c"@, bad]) == Err::<Case, ArgError>(ArgError::UnknownCase),
        exit_code_of(ArgError::UnknownCase) == 1,
{
    let args = seq!["-c"@, bad];
    assert(scan_upto(args, 0) == initial_scan());
    assert(scan_upto(args, 1) == step(initial_scan(), "-c"@));
    assert(scan_upto(args, 2) == step(scan_upto(args, 1), bad));
}

/// A help switch that the scan reaches ends it with status 2, whatever else
/// is given.
pub proof fn lemma_help_stops(args: Seq<Seq<char>>, j: nat)
    requires
        j < args.len(),
        is_help_switch(args[j as int]),
        scan_upto(args, j) is Running,
    ensures
        scan_outcome(args) == Err::<Case, ArgError>(ArgError::HelpRequested),
        exit_code_of(ArgError::HelpRequested) == 2,
{
    assert(!is_case_switch(args[j as int])) by {
        reveal_strlit("-c");
        reveal_strlit("--case");
        reveal_strlit("-h");
        reveal_strlit("--help");
        assert("-h"@[1] != "-c"@[1]);
        assert("--help"@[2] != "--case"@[2]);
    }
    lemma_stopped_stays(args, j + 1, args.len());
}

} // verus!
