//! The deny-list check: an argument vector passes unless one of its arguments
//! is, exactly, a forbidden token.

use crate::text::{is_listed, texts_of, token_set};
use vstd::prelude::*;
use vstd::string::*;

verus! {

/// Options of `find` that run commands or delete files.
pub const FIND_DANGEROUS_OPTIONS: [&'static str; 5] = [
    "-exec",
    "-execdir",
    "-ok",
    "-okdir",
    "-delete",
];

/// Options of `fd` that run commands.
pub const FD_DANGEROUS_OPTIONS: [&'static str; 6] = [
    "-x",
    "--exec",
    "-X",
    "--exec-batch",
    "-l",
    "--list-details",
];

/// No argument is a forbidden token.
pub open spec fn all_allowed(args: Seq<Seq<char>>, forbidden: Set<Seq<char>>) -> bool {
    forall|k: int| 0 <= k < args.len() ==> !forbidden.contains(#[trigger] args[k])
}

/// `i` is the position of the first argument that is a forbidden token.
pub open spec fn is_first_forbidden(
    args: Seq<Seq<char>>,
    forbidden: Set<Seq<char>>,
    i: int,
) -> bool {
    &&& 0 <= i < args.len()
    &&& forbidden.contains(args[i])
    &&& forall|k: int| 0 <= k < i ==> !forbidden.contains(#[trigger] args[k])
}

/// The position of the first forbidden argument, where there is one.
pub open spec fn first_forbidden(args: Seq<Seq<char>>, forbidden: Set<Seq<char>>) -> int {
    choose|i: int| is_first_forbidden(args, forbidden, i)
}

/// The message that reports `token` as rejected.
pub open spec fn rejection_message(token: Seq<char>) -> Seq<char> {
    "Error: Dangerous option '"@ + token + "' is not allowed for security reasons"@
}

/// What the check answers: acceptance, or the message for the first
/// forbidden argument.
pub open spec fn verdict(args: Seq<Seq<char>>, forbidden: Set<Seq<char>>) -> Result<
    (),
    Seq<char>,
> {
    if all_allowed(args, forbidden) {
        Ok(())
    } else {
        Err(rejection_message(args[first_forbidden(args, forbidden)]))
    }
}

/// An answer of the check, with its message as text.
pub open spec fn answer_text(answer: Result<(), String>) -> Result<(), Seq<char>> {
    match answer {
        Ok(()) => Ok(()),
        Err(message) => Err(message@),
    }
}

/// At most one position is the first forbidden one.
pub proof fn lemma_first_forbidden_unique(
    args: Seq<Seq<char>>,
    forbidden: Set<Seq<char>>,
    i: int,
    j: int,
)
    requires
        is_first_forbidden(args, forbidden, i),
        is_first_forbidden(args, forbidden, j),
    ensures
        i == j,
{
    if i < j {
        assert(!forbidden.contains(args[i]));
    }
    if j < i {
        assert(!forbidden.contains(args[j]));
    }
}

/// Arguments that hold no forbidden token are accepted.
pub proof fn lemma_clean_arguments_accepted(args: Seq<Seq<char>>, forbidden: Set<Seq<char>>)
    requires
        all_allowed(args, forbidden),
    ensures
        verdict(args, forbidden) == Ok::<(), Seq<char>>(()),
{
}

/// Arguments that hold a forbidden token, at `i` or anywhere else, are
/// rejected, and the message names the forbidden token that comes first in
/// argument order.
pub proof fn lemma_first_forbidden_reported(
    args: Seq<Seq<char>>,
    forbidden: Set<Seq<char>>,
    i: int,
)
    requires
        0 <= i < args.len(),
        forbidden.contains(args[i]),
    ensures
        is_first_forbidden(args, forbidden, first_forbidden(args, forbidden)),
        first_forbidden(args, forbidden) <= i,
        verdict(args, forbidden) == Err::<(), Seq<char>>(
            rejection_message(args[first_forbidden(args, forbidden)]),
        ),
{
    let first = lemma_some_position_is_first(args, forbidden, i);
    assert(is_first_forbidden(args, forbidden, first));
}

/// Below or at a forbidden position `i` lies the first forbidden one.
proof fn lemma_some_position_is_first(
    args: Seq<Seq<char>>,
    forbidden: Set<Seq<char>>,
    i: int,
) -> (first: int)
    requires
        0 <= i < args.len(),
        forbidden.contains(args[i]),
    ensures
        is_first_forbidden(args, forbidden, first),
        first <= i,
    decreases i,
{
    if exists|k: int| 0 <= k < i && forbidden.contains(#[trigger] args[k]) {
        let k = choose|k: int| 0 <= k < i && forbidden.contains(#[trigger] args[k]);
        lemma_some_position_is_first(args, forbidden, k)
    } else {
        i
    }
}

/// Only a whole argument counts: an argument that merely contains a forbidden
/// token, with more text before or after it, is accepted unless the whole of
/// it is itself a forbidden token.
pub proof fn lemma_embedded_token_accepted(
    forbidden: Set<Seq<char>>,
    before: Seq<char>,
    token: Seq<char>,
    after: Seq<char>,
)
    requires
        forbidden.contains(token),
        !forbidden.contains(before + token + after),
    ensures
        verdict(seq![before + token + after], forbidden) == Ok::<(), Seq<char>>(()),
{
}

/// The message tells which token was rejected: two tokens with the same
/// message are the same token.
pub proof fn lemma_message_names_token(a: Seq<char>, b: Seq<char>)
    requires
        rejection_message(a) == rejection_message(b),
    ensures
        a == b,
{
    let head = "Error: Dangerous option '"@;
    let tail = "' is not allowed for security reasons"@;
    let ma = rejection_message(a);
    let mb = rejection_message(b);
    assert(ma.len() == head.len() + a.len() + tail.len());
    assert(mb.len() == head.len() + b.len() + tail.len());
    assert forall|k: int| 0 <= k < a.len() implies a[k] == b[k] by {
        assert(ma[head.len() + k] == a[k]);
        assert(mb[head.len() + k] == b[k]);
    }
    assert(a =~= b);
}

/// Two runs of the check on the same arguments and the same forbidden tokens
/// give the same answer.
pub proof fn lemma_check_repeatable(
    args: Seq<Seq<char>>,
    forbidden: Set<Seq<char>>,
    first_run: Result<(), String>,
    second_run: Result<(), String>,
)
    requires
        answer_text(first_run) == verdict(args, forbidden),
        answer_text(second_run) == verdict(args, forbidden),
    ensures
        answer_text(first_run) == answer_text(second_run),
        first_run is Ok <==> second_run is Ok,
{
}

/// Builds the message that reports `token` as rejected.
pub fn format_rejection(token: &str) -> (message: String)
    ensures
        message@ == rejection_message(token@),
{
    let mut message = String::from_str("Error: Dangerous option '");
    message.append(token);
    message.append("' is not allowed for security reasons");
    message
}

/// Scans `args` in order for the first one that is, exactly, one of
/// `dangerous_options`, and gives its position.
pub fn first_dangerous_option(args: &[String], dangerous_options: &[&str]) -> (found: Option<
    usize,
>)
    ensures
        found is None <==> all_allowed(texts_of(args@), token_set(dangerous_options@)),
        found is Some ==> is_first_forbidden(
            texts_of(args@),
            token_set(dangerous_options@),
            found->Some_0 as int,
        ),
{
    let ghost texts = texts_of(args@);
    let ghost forbidden = token_set(dangerous_options@);
    let mut i: usize = 0;
    while i < args.len()
        invariant
            i <= args.len(),
            texts == texts_of(args@),
            forbidden == token_set(dangerous_options@),
            forall|k: int| 0 <= k < i ==> !forbidden.contains(#[trigger] texts[k]),
        decreases args.len() - i,
    {
        assert(texts[i as int] == args@[i as int]@);
        if is_listed(args[i].as_str(), dangerous_options) {
            return Some(i);
        }
        i += 1;
    }
    None
}

/// Accepts `args` unless one of them is, exactly, one of `dangerous_options`;
/// the error is the message for the first such argument.
pub fn check_dangerous_options(args: &[String], dangerous_options: &[&str]) -> (answer: Result<
    (),
    String,
>)
    ensures
        answer_text(answer) == verdict(texts_of(args@), token_set(dangerous_options@)),
        answer is Ok <==> all_allowed(texts_of(args@), token_set(dangerous_options@)),
{
    match first_dangerous_option(args, dangerous_options) {
        None => Ok(()),
        Some(i) => {
            proof {
                let texts = texts_of(args@);
                let forbidden = token_set(dangerous_options@);
                assert(texts[i as int] == args@[i as int]@);
                lemma_first_forbidden_unique(
                    texts,
                    forbidden,
                    i as int,
                    first_forbidden(texts, forbidden),
                );
            }
            Err(format_rejection(args[i].as_str()))
        },
    }
}

} // verus!
