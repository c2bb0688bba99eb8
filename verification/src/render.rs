//! Rendering every byte the service writes: the greeting, the reply to each
//! command, and the local diagnostic for a wrong argument count.
//!
//! Numeric texts reach this module already rendered, as byte vectors: the
//! surrounding program turns the shared value and each parsed operand into
//! text, and these functions are proved to frame that text exactly.

use vstd::prelude::*;

use crate::protocol::{keyword_of, verb_keyword, Op, Verb};

verus! {

/// The line terminator of every reply: carriage return, line feed.
pub open spec fn crlf() -> Seq<u8> {
    seq![13u8, 10u8]
}

/// The operator byte shown in the reply to `op`: `+`, `-` or `^`.
pub open spec fn op_symbol(op: Op) -> u8 {
    match op {
        Op::Add => 43u8,
        Op::Subtract => 45u8,
        Op::Power => 94u8,
    }
}

/// The reply to an arithmetic command: `X <op>= <operand> = <result>` and a
/// line terminator, with the operand and result texts as handed in.
pub open spec fn spec_op_reply(op: Op, operand: Seq<u8>, result: Seq<u8>) -> Seq<u8> {
    seq![88u8, 32u8, op_symbol(op), 61u8, 32u8] + operand + seq![32u8, 61u8, 32u8] + result
        + crlf()
}

/// The reply to `SHOW`: `X = <result>` and a line terminator.
pub open spec fn spec_show_reply(result: Seq<u8>) -> Seq<u8> {
    seq![88u8, 32u8, 61u8, 32u8] + result + crlf()
}

/// The bytes of `Unknown command: `.
pub open spec fn unknown_prefix() -> Seq<u8> {
    seq![
        85u8,
        110u8,
        107u8,
        110u8,
        111u8,
        119u8,
        110u8,
        32u8,
        99u8,
        111u8,
        109u8,
        109u8,
        97u8,
        110u8,
        100u8,
        58u8,
        32u8,
    ]
}

/// The reply to an unrecognized command: `Unknown command: <word>` and a
/// line terminator, with the offending first word verbatim.
pub open spec fn spec_unknown_reply(word: Seq<u8>) -> Seq<u8> {
    unknown_prefix() + word + crlf()
}

/// The bytes of ` 1.23/`, the sample operand and separator of the greeting.
pub open spec fn greeting_sample() -> Seq<u8> {
    seq![32u8, 49u8, 46u8, 50u8, 51u8, 47u8]
}

/// The greeting sent once when a session opens, listing every command with a
/// sample operand: `ADD 1.23/SUBTRACT 1.23/POWER 1.23/SHOW` and a terminator.
pub open spec fn spec_greeting() -> Seq<u8> {
    keyword_of(Verb::Add) + greeting_sample() + keyword_of(Verb::Subtract) + greeting_sample()
        + keyword_of(Verb::Power) + greeting_sample() + keyword_of(Verb::Show) + crlf()
}

/// The bytes of ` command requires exactly `.
pub open spec fn diagnostic_middle() -> Seq<u8> {
    seq![
        32u8,
        99u8,
        111u8,
        109u8,
        109u8,
        97u8,
        110u8,
        100u8,
        32u8,
        114u8,
        101u8,
        113u8,
        117u8,
        105u8,
        114u8,
        101u8,
        115u8,
        32u8,
        101u8,
        120u8,
        97u8,
        99u8,
        116u8,
        108u8,
        121u8,
        32u8,
    ]
}

/// The bytes of `one argument.`.
pub open spec fn one_argument_tail() -> Seq<u8> {
    seq![111u8, 110u8, 101u8, 32u8, 97u8, 114u8, 103u8, 117u8, 109u8, 101u8, 110u8, 116u8, 46u8]
}

/// The bytes of `zero arguments.`.
pub open spec fn zero_arguments_tail() -> Seq<u8> {
    seq![
        122u8,
        101u8,
        114u8,
        111u8,
        32u8,
        97u8,
        114u8,
        103u8,
        117u8,
        109u8,
        101u8,
        110u8,
        116u8,
        115u8,
        46u8,
    ]
}

/// The local diagnostic for a recognized command with the wrong number of
/// words: `<NAME> command requires exactly one argument.`, or `zero
/// arguments.` for `SHOW`.  It is printed at the server, never sent.
pub open spec fn spec_arg_count_diagnostic(v: Verb) -> Seq<u8> {
    keyword_of(v) + diagnostic_middle() + if v is Show {
        zero_arguments_tail()
    } else {
        one_argument_tail()
    }
}

/// Appends the bytes of `src` to `dst`.
pub fn append_bytes(dst: &mut Vec<u8>, src: &Vec<u8>)
    ensures
        final(dst)@ == old(dst)@ + src@,
{
    let mut i: usize = 0;
    while i < src.len()
        invariant
            i <= src@.len(),
            dst@ == old(dst)@ + src@.subrange(0, i as int),
        decreases src@.len() - i,
    {
        dst.push(src[i]);
        i = i + 1;
        proof {
            assert(dst@ =~= old(dst)@ + src@.subrange(0, i as int));
        }
    }
    proof {
        assert(dst@ =~= old(dst)@ + src@);
    }
}

/// Renders the reply to an arithmetic command from the rendered operand and
/// result texts.
pub fn op_reply(op: Op, operand: &Vec<u8>, result: &Vec<u8>) -> (r: Vec<u8>)
    ensures
        r@ == spec_op_reply(op, operand@, result@),
{
    let mut r: Vec<u8> = Vec::new();
    r.push(88);
    r.push(32);
    match op {
        Op::Add => r.push(43),
        Op::Subtract => r.push(45),
        Op::Power => r.push(94),
    }
    r.push(61);
    r.push(32);
    append_bytes(&mut r, operand);
    r.push(32);
    r.push(61);
    r.push(32);
    append_bytes(&mut r, result);
    r.push(13);
    r.push(10);
    proof {
        assert(r@ =~= spec_op_reply(op, operand@, result@));
    }
    r
}

/// Renders the reply to `SHOW` from the rendered value text.
pub fn show_reply(result: &Vec<u8>) -> (r: Vec<u8>)
    ensures
        r@ == spec_show_reply(result@),
{
    let mut r: Vec<u8> = Vec::new();
    r.push(88);
    r.push(32);
    r.push(61);
    r.push(32);
    append_bytes(&mut r, result);
    r.push(13);
    r.push(10);
    proof {
        assert(r@ =~= spec_show_reply(result@));
    }
    r
}

/// Renders the reply to an unrecognized command from its first word.
pub fn unknown_reply(word: &Vec<u8>) -> (r: Vec<u8>)
    ensures
        r@ == spec_unknown_reply(word@),
{
    let mut r: Vec<u8> = Vec::new();
    r.push(85);
    r.push(110);
    r.push(107);
    r.push(110);
    r.push(111);
    r.push(119);
    r.push(110);
    r.push(32);
    r.push(99);
    r.push(111);
    r.push(109);
    r.push(109);
    r.push(97);
    r.push(110);
    r.push(100);
    r.push(58);
    r.push(32);
    proof {
        assert(r@ =~= unknown_prefix());
    }
    append_bytes(&mut r, word);
    r.push(13);
    r.push(10);
    proof {
        assert(r@ =~= spec_unknown_reply(word@));
    }
    r
}

/// Appends ` 1.23/` to `dst`.
fn push_greeting_sample(dst: &mut Vec<u8>)
    ensures
        final(dst)@ == old(dst)@ + greeting_sample(),
{
    dst.push(32);
    dst.push(49);
    dst.push(46);
    dst.push(50);
    dst.push(51);
    dst.push(47);
    proof {
        assert(dst@ =~= old(dst)@ + greeting_sample());
    }
}

/// Renders the greeting sent once when a session opens.
pub fn greeting() -> (r: Vec<u8>)
    ensures
        r@ == spec_greeting(),
{
    let mut r: Vec<u8> = Vec::new();
    let kw_add = verb_keyword(Verb::Add);
    append_bytes(&mut r, &kw_add);
    push_greeting_sample(&mut r);
    let kw_subtract = verb_keyword(Verb::Subtract);
    append_bytes(&mut r, &kw_subtract);
    push_greeting_sample(&mut r);
    let kw_power = verb_keyword(Verb::Power);
    append_bytes(&mut r, &kw_power);
    push_greeting_sample(&mut r);
    let kw_show = verb_keyword(Verb::Show);
    append_bytes(&mut r, &kw_show);
    r.push(13);
    r.push(10);
    proof {
        assert(r@ =~= spec_greeting());
    }
    r
}

/// Renders the local diagnostic for a wrong argument count.
pub fn arg_count_diagnostic(v: Verb) -> (r: Vec<u8>)
    ensures
        r@ == spec_arg_count_diagnostic(v),
{
    let mut r: Vec<u8> = verb_keyword(v);
    r.push(32);
    r.push(99);
    r.push(111);
    r.push(109);
    r.push(109);
    r.push(97);
    r.push(110);
    r.push(100);
    r.push(32);
    r.push(114);
    r.push(101);
    r.push(113);
    r.push(117);
    r.push(105);
    r.push(114);
    r.push(101);
    r.push(115);
    r.push(32);
    r.push(101);
    r.push(120);
    r.push(97);
    r.push(99);
    r.push(116);
    r.push(108);
    r.push(121);
    r.push(32);
    proof {
        assert(r@ =~= keyword_of(v) + diagnostic_middle());
    }
    match v {
        Verb::Show => {
            r.push(122);
            r.push(101);
            r.push(114);
            r.push(111);
            r.push(32);
            r.push(97);
            r.push(114);
            r.push(103);
            r.push(117);
            r.push(109);
            r.push(101);
            r.push(110);
            r.push(116);
            r.push(115);
            r.push(46);
        },
        _ => {
            r.push(111);
            r.push(110);
            r.push(101);
            r.push(32);
            r.push(97);
            r.push(114);
            r.push(103);
            r.push(117);
            r.push(109);
            r.push(101);
            r.push(110);
            r.push(116);
            r.push(46);
        },
    }
    proof {
        assert(r@ =~= spec_arg_count_diagnostic(v));
    }
    r
}

} // verus!
