//! Classifying a command line into the directive it stands for.
//!
//! The first word of a line names the command; `ADD`, `SUBTRACT` and `POWER`
//! take exactly one operand word, `SHOW` takes none.  A recognized command
//! with the wrong number of words is dropped silently, an unrecognized first
//! word earns an `Unknown command` reply, and an empty line is skipped.
//! `classify` decides all of this and is proved equal to `spec_classify`.

use vstd::prelude::*;

use crate::words::{spec_words, split_words, views_of};

verus! {

/// The three commands that mutate the shared value.
#[derive(Clone, Copy, Debug, PartialEq, Eq, Structural)]
pub enum Op {
    Add,
    Subtract,
    Power,
}

/// The four recognized command names.
#[derive(Clone, Copy, Debug, PartialEq, Eq, Structural)]
pub enum Verb {
    Add,
    Subtract,
    Power,
    Show,
}

/// The bytes of the command name `ADD`.
pub open spec fn add_keyword() -> Seq<u8> {
    seq![65u8, 68u8, 68u8]
}

/// The bytes of the command name `SUBTRACT`.
pub open spec fn subtract_keyword() -> Seq<u8> {
    seq![83u8, 85u8, 66u8, 84u8, 82u8, 65u8, 67u8, 84u8]
}

/// The bytes of the command name `POWER`.
pub open spec fn power_keyword() -> Seq<u8> {
    seq![80u8, 79u8, 87u8, 69u8, 82u8]
}

/// The bytes of the command name `SHOW`.
pub open spec fn show_keyword() -> Seq<u8> {
    seq![83u8, 72u8, 79u8, 87u8]
}

/// The bytes of the command name that `v` stands for.
pub open spec fn keyword_of(v: Verb) -> Seq<u8> {
    match v {
        Verb::Add => add_keyword(),
        Verb::Subtract => subtract_keyword(),
        Verb::Power => power_keyword(),
        Verb::Show => show_keyword(),
    }
}

/// What a single line directs the session to do, with word payloads as
/// byte vectors.  Its view is the `OutcomeModel` the contracts speak of.
#[derive(Debug)]
pub enum LineOutcome {
    /// The line is empty or whitespace-only: no reply, nothing happens.
    Skip,
    /// A recognized command came with the wrong number of words: the line is
    /// dropped with a local diagnostic only, and no reply is sent.
    WrongArgCount(Verb),
    /// The first word is not a recognized command: reply `Unknown command`.
    Unknown(Vec<u8>),
    /// An arithmetic command with its operand word, still unparsed.
    Apply(Op, Vec<u8>),
    /// The `SHOW` command: read the shared value, mutate nothing.
    ShowCurrent,
}

/// The mathematical form of a `LineOutcome`, with words as byte sequences.
pub enum OutcomeModel {
    Skip,
    WrongArgCount(Verb),
    Unknown(Seq<u8>),
    Apply(Op, Seq<u8>),
    ShowCurrent,
}

impl View for LineOutcome {
    type V = OutcomeModel;

    open spec fn view(&self) -> OutcomeModel {
        match self {
            LineOutcome::Skip => OutcomeModel::Skip,
            LineOutcome::WrongArgCount(v) => OutcomeModel::WrongArgCount(*v),
            LineOutcome::Unknown(t) => OutcomeModel::Unknown(t@),
            LineOutcome::Apply(op, t) => OutcomeModel::Apply(*op, t@),
            LineOutcome::ShowCurrent => OutcomeModel::ShowCurrent,
        }
    }
}

/// What the line `s` directs the session to do, per the command table: the
/// first word picks the command, the word count must match its arity, and
/// anything unrecognized is reported back verbatim.
pub open spec fn spec_classify(s: Seq<u8>) -> OutcomeModel {
    let toks = spec_words(s);
    if toks.len() == 0 {
        OutcomeModel::Skip
    } else if toks[0] == add_keyword() {
        if toks.len() == 2 {
            OutcomeModel::Apply(Op::Add, toks[1])
        } else {
            OutcomeModel::WrongArgCount(Verb::Add)
        }
    } else if toks[0] == subtract_keyword() {
        if toks.len() == 2 {
            OutcomeModel::Apply(Op::Subtract, toks[1])
        } else {
            OutcomeModel::WrongArgCount(Verb::Subtract)
        }
    } else if toks[0] == power_keyword() {
        if toks.len() == 2 {
            OutcomeModel::Apply(Op::Power, toks[1])
        } else {
            OutcomeModel::WrongArgCount(Verb::Power)
        }
    } else if toks[0] == show_keyword() {
        if toks.len() == 1 {
            OutcomeModel::ShowCurrent
        } else {
            OutcomeModel::WrongArgCount(Verb::Show)
        }
    } else {
        OutcomeModel::Unknown(toks[0])
    }
}

/// Whether two byte vectors hold the same bytes.
pub fn bytes_eq(a: &Vec<u8>, b: &Vec<u8>) -> (r: bool)
    ensures
        r == (a@ == b@),
{
    if a.len() != b.len() {
        return false;
    }
    let mut i: usize = 0;
    while i < a.len()
        invariant
            i <= a@.len(),
            a@.len() == b@.len(),
            forall|k: int| 0 <= k < i ==> a@[k] == b@[k],
        decreases a@.len() - i,
    {
        if a[i] != b[i] {
            proof {
                assert(a@[i as int] != b@[i as int]);
            }
            return false;
        }
        i = i + 1;
    }
    proof {
        assert(a@ =~= b@);
    }
    true
}

/// The bytes of the command name that `v` stands for.
pub fn verb_keyword(v: Verb) -> (r: Vec<u8>)
    ensures
        r@ == keyword_of(v),
{
    let mut r: Vec<u8> = Vec::new();
    match v {
        Verb::Add => {
            r.push(65);
            r.push(68);
            r.push(68);
        },
        Verb::Subtract => {
            r.push(83);
            r.push(85);
            r.push(66);
            r.push(84);
            r.push(82);
            r.push(65);
            r.push(67);
            r.push(84);
        },
        Verb::Power => {
            r.push(80);
            r.push(79);
            r.push(87);
            r.push(69);
            r.push(82);
        },
        Verb::Show => {
            r.push(83);
            r.push(72);
            r.push(79);
            r.push(87);
        },
    }
    proof {
        assert(r@ =~= keyword_of(v));
    }
    r
}

/// Classifies one command line into the directive it stands for.
pub fn classify(line: &Vec<u8>) -> (r: LineOutcome)
    ensures
        r@ == spec_classify(line@),
{
    let mut toks = split_words(line);
    proof {
        assert(views_of(toks@).len() == toks@.len());
    }
    if toks.len() == 0 {
        return LineOutcome::Skip;
    }
    proof {
        assert(spec_words(line@)[0] == toks@[0]@);
        if toks@.len() >= 2 {
            assert(spec_words(line@)[1] == toks@[1]@);
        }
    }
    let kw_add = verb_keyword(Verb::Add);
    let kw_subtract = verb_keyword(Verb::Subtract);
    let kw_power = verb_keyword(Verb::Power);
    let kw_show = verb_keyword(Verb::Show);
    if bytes_eq(&toks[0], &kw_add) {
        if toks.len() == 2 {
            let operand = toks.remove(1);
            LineOutcome::Apply(Op::Add, operand)
        } else {
            LineOutcome::WrongArgCount(Verb::Add)
        }
    } else if bytes_eq(&toks[0], &kw_subtract) {
        if toks.len() == 2 {
            let operand = toks.remove(1);
            LineOutcome::Apply(Op::Subtract, operand)
        } else {
            LineOutcome::WrongArgCount(Verb::Subtract)
        }
    } else if bytes_eq(&toks[0], &kw_power) {
        if toks.len() == 2 {
            let operand = toks.remove(1);
            LineOutcome::Apply(Op::Power, operand)
        } else {
            LineOutcome::WrongArgCount(Verb::Power)
        }
    } else if bytes_eq(&toks[0], &kw_show) {
        if toks.len() == 1 {
            LineOutcome::ShowCurrent
        } else {
            LineOutcome::WrongArgCount(Verb::Show)
        }
    } else {
        let first = toks.remove(0);
        LineOutcome::Unknown(first)
    }
}

/// No two of the four command names are the same word.
pub proof fn lemma_keywords_distinct()
    ensures
        forall|v: Verb, w: Verb| keyword_of(v) == keyword_of(w) ==> v == w,
{
    assert forall|v: Verb, w: Verb| keyword_of(v) == keyword_of(w) implies v == w by {
        assert(add_keyword().len() == 3);
        assert(subtract_keyword().len() == 8);
        assert(power_keyword().len() == 5);
        assert(show_keyword().len() == 4);
    }
}

/// `SHOW` never mutates: a line whose first word is the `SHOW` keyword never
/// classifies as an arithmetic operation, so handling it, however many times,
/// asks nothing of the shared value but a read.
pub proof fn lemma_show_requests_no_operation(line: Seq<u8>)
    requires
        spec_words(line).len() > 0,
        spec_words(line)[0] == show_keyword(),
    ensures
        !(spec_classify(line) is Apply),
        spec_words(line).len() == 1 ==> spec_classify(line) is ShowCurrent,
        spec_words(line).len() != 1 ==> spec_classify(line) is WrongArgCount,
{
    lemma_keywords_distinct();
}

/// A recognized command with the wrong number of words classifies as
/// `WrongArgCount`: the directive that carries no operation and directs no
/// reply, so the session goes on with the shared value untouched.
pub proof fn lemma_wrong_arg_count_is_silent(line: Seq<u8>, v: Verb)
    requires
        spec_words(line).len() > 0,
        spec_words(line)[0] == keyword_of(v),
        spec_words(line).len() != if v is Show {
            1int
        } else {
            2int
        },
    ensures
        spec_classify(line) == OutcomeModel::WrongArgCount(v),
{
    lemma_keywords_distinct();
}

} // verus!
