//! External commands: the sub-commands of a configured command line, what
//! each of them runs, and how a failed run is reported.

use vstd::prelude::*;
use vstd::utf8::{decode_utf8, valid_utf8};

use crate::text::{
    chars_of, push_signed_decimal, push_str, signed_decimal, split, split_on, string_of,
    texts_of, trim, trimmed, views_of,
};

verus! {

/// The error of `shell_words::split`.
#[verifier::external_type_specification]
#[verifier::external_body]
pub struct ExParseError(shell_words::ParseError);

/// What `shell_words::split` makes of the line `line`: the words, or `None`
/// where it fails.
pub uninterp spec fn shell_words_of(line: Seq<char>) -> Option<Seq<Seq<char>>>;

/// Splits a line into words with `shell_words::split`, as a Unix shell
/// would, quotes and escapes removed. The outcome is that function's, named
/// `shell_words_of`: the words on success, its error where it gives one.
#[verifier::external_body]
fn split_words(line: &str) -> (r: Result<Vec<String>, shell_words::ParseError>)
    ensures
        match r {
            Ok(words) => shell_words_of(line@) == Some(texts_of(words@)),
            Err(_) => shell_words_of(line@) is None,
        },
{
    shell_words::split(line)
}

/// Reads bytes as UTF-8 with `String::from_utf8`: the text they encode, or
/// `None` if they are not valid UTF-8.
#[verifier::external_body]
fn text_of_utf8(bytes: Vec<u8>) -> (text: Option<String>)
    ensures
        match text {
            Some(s) => valid_utf8(bytes@) && s@ == decode_utf8(bytes@),
            None => !valid_utf8(bytes@),
        },
{
    String::from_utf8(bytes).ok()
}

/// A sub-command has a quote that is never closed.
#[derive(Clone, Copy, Debug, PartialEq, Eq, Structural)]
pub struct MissingClosingQuote;

/// A program to run and the arguments to hand it.
#[derive(Debug)]
pub struct Invocation {
    pub program: String,
    pub arguments: Vec<String>,
}

/// `Invocation` with its texts as character sequences.
pub struct InvocationView {
    pub program: Seq<char>,
    pub arguments: Seq<Seq<char>>,
}

impl View for Invocation {
    type V = InvocationView;

    open spec fn view(&self) -> InvocationView {
        InvocationView { program: self.program@, arguments: texts_of(self.arguments@) }
    }
}

/// One sub-command of a command line: its text, and what it runs. Nothing
/// is run where the text holds no word.
#[derive(Debug)]
pub struct Subcommand {
    pub text: String,
    pub invocation: Result<Option<Invocation>, MissingClosingQuote>,
}

/// What is run for the given words: the first is the program, the others
/// are its arguments; nothing without words; an error where there are none
/// because a quote was left open.
pub open spec fn plan_of(words: Option<Seq<Seq<char>>>) -> Result<
    Option<InvocationView>,
    MissingClosingQuote,
> {
    match words {
        Some(words) => if words.len() == 0 {
            Ok(None)
        } else {
            Ok(Some(InvocationView { program: words[0], arguments: words.drop_first() }))
        },
        None => Err(MissingClosingQuote),
    }
}

/// An optional invocation with its texts as character sequences.
pub open spec fn planned(invocation: Result<Option<Invocation>, MissingClosingQuote>) -> Result<
    Option<InvocationView>,
    MissingClosingQuote,
> {
    match invocation {
        Ok(Some(run)) => Ok(Some(run@)),
        Ok(None) => Ok(None),
        Err(e) => Err(e),
    }
}

/// The pieces in order, each without the white space around it, those left
/// out that hold nothing but white space.
pub open spec fn nonempty_trimmed(pieces: Seq<Seq<char>>) -> Seq<Seq<char>>
    decreases pieces.len(),
{
    if pieces.len() == 0 {
        Seq::empty()
    } else {
        let before = nonempty_trimmed(pieces.drop_last());
        let piece = trim(pieces.last());
        if piece.len() == 0 {
            before
        } else {
            before.push(piece)
        }
    }
}

/// The sub-commands of a command line: what stands between semicolons,
/// trimmed, empty pieces left out.
pub open spec fn subcommands(command: Seq<char>) -> Seq<Seq<char>> {
    nonempty_trimmed(split_on(command, ';'))
}

/// The texts of the sub-commands, in order.
pub open spec fn subcommand_texts(plan: Seq<Subcommand>) -> Seq<Seq<char>> {
    Seq::new(plan.len(), |i: int| plan[i].text@)
}

/// What is run for the words of a sub-command. With words, the first is the
/// program and the rest are its arguments; without, nothing is run; where
/// splitting failed, the failure is handed on.
pub fn invocation_of(words: Result<Vec<String>, MissingClosingQuote>) -> (invocation: Result<
    Option<Invocation>,
    MissingClosingQuote,
>)
    ensures
        planned(invocation) == plan_of(
            match words {
                Ok(list) => Some(texts_of(list@)),
                Err(_) => None,
            },
        ),
{
    match words {
        Ok(list) => {
            let mut arguments = list;
            if arguments.len() == 0 {
                Ok(None)
            } else {
                let ghost all = texts_of(arguments@);
                let program = arguments.remove(0);
                assert(texts_of(arguments@) =~= all.drop_first());
                Ok(Some(Invocation { program, arguments }))
            }
        },
        Err(e) => Err(e),
    }
}

/// What a sub-command runs: its text is split into words as a shell would,
/// the first word is the program, the others are its arguments.
pub fn parse_subcommand(text: &str) -> (invocation: Result<
    Option<Invocation>,
    MissingClosingQuote,
>)
    ensures
        planned(invocation) == plan_of(shell_words_of(text@)),
{
    let words = match split_words(text) {
        Ok(list) => Ok(list),
        Err(_) => Err(MissingClosingQuote),
    };
    invocation_of(words)
}

/// The sub-commands of a command line, in order, each with what it runs.
/// Sub-commands are separated by semicolons; white space around them is
/// dropped, and so are empty ones. One that cannot be split into words is
/// listed with its error and does not stop the others.
pub fn run_command(execute_command: &str) -> (plan: Vec<Subcommand>)
    ensures
        subcommand_texts(plan@) == subcommands(execute_command@),
        forall|i: int|
            0 <= i < plan.len() ==> planned((#[trigger] plan[i]).invocation) == plan_of(
                shell_words_of(plan[i].text@),
            ),
{
    let pieces = split(&chars_of(execute_command), ';');
    let mut plan: Vec<Subcommand> = Vec::new();
    let mut i: usize = 0;
    while i < pieces.len()
        invariant
            i <= pieces.len(),
            subcommand_texts(plan@) == nonempty_trimmed(views_of(pieces@).take(i as int)),
            forall|k: int|
                0 <= k < plan.len() ==> planned((#[trigger] plan[k]).invocation) == plan_of(
                    shell_words_of(plan[k].text@),
                ),
        decreases pieces.len() - i,
    {
        assert(views_of(pieces@).take(i + 1).drop_last() =~= views_of(pieces@).take(i as int));
        let piece = trimmed(&pieces[i]);
        if piece.len() > 0 {
            let text = string_of(&piece);
            let invocation = parse_subcommand(text.as_str());
            plan.push(Subcommand { text, invocation });
        }
        i += 1;
    }
    assert(views_of(pieces@).take(i as int) =~= views_of(pieces@));
    plan
}

/// How a run ended, as text: the exit status, or that a signal ended it.
pub open spec fn exit_text(code: Option<i32>) -> Seq<char> {
    match code {
        Some(status) => "Exited with status "@ + signed_decimal(status as int) + "\n"@,
        None => "Exited because of a signal\n"@,
    }
}

/// What a run wrote to one of its streams, as text; `label` names the
/// stream at the start of a sentence and `name` within one.
pub open spec fn stream_text(label: Seq<char>, name: Seq<char>, bytes: Seq<u8>) -> Seq<char> {
    if bytes.len() == 0 {
        "No "@ + name + "\n"@
    } else if valid_utf8(bytes) {
        label + " = ["@ + decode_utf8(bytes) + "]\n"@
    } else {
        label + " was not UTF-8"@
    }
}

/// The report of a failed run: how it ended, what it wrote to standard
/// output, and what it wrote to standard error, with a space between them.
pub open spec fn failure_text(code: Option<i32>, stdout: Seq<u8>, stderr: Seq<u8>) -> Seq<char> {
    exit_text(code) + " "@ + stream_text("Stdout"@, "stdout"@, stdout) + " "@ + stream_text(
        "Stderr"@,
        "stderr"@,
        stderr,
    )
}

/// Appends what a run wrote to one of its streams.
fn push_stream(out: &mut Vec<char>, label: &str, name: &str, bytes: Vec<u8>)
    ensures
        final(out)@ == old(out)@ + stream_text(label@, name@, bytes@),
{
    if bytes.len() == 0 {
        push_str(out, "No ");
        push_str(out, name);
        push_str(out, "\n");
    } else {
        match text_of_utf8(bytes) {
            Some(text) => {
                push_str(out, label);
                push_str(out, " = [");
                push_str(out, text.as_str());
                push_str(out, "]\n");
            },
            None => {
                push_str(out, label);
                push_str(out, " was not UTF-8");
            },
        }
    }
}

/// The outcome of a run of an external command: nothing to report if it
/// succeeded; else the report of the failure, made of its exit status, or
/// the note that a signal ended it, and of what it wrote.
pub fn command_result(success: bool, code: Option<i32>, stdout: Vec<u8>, stderr: Vec<u8>) -> (r:
    Result<(), String>)
    ensures
        success ==> r is Ok,
        !success ==> (r matches Err(report) && report@ == failure_text(code, stdout@, stderr@)),
{
    if success {
        return Ok(());
    }
    let mut out: Vec<char> = Vec::new();
    match code {
        Some(status) => {
            push_str(&mut out, "Exited with status ");
            push_signed_decimal(&mut out, status);
            push_str(&mut out, "\n");
        },
        None => {
            push_str(&mut out, "Exited because of a signal\n");
        },
    }
    push_str(&mut out, " ");
    push_stream(&mut out, "Stdout", "stdout", stdout);
    push_str(&mut out, " ");
    push_stream(&mut out, "Stderr", "stderr", stderr);
    Err(string_of(&out))
}

} // verus!
