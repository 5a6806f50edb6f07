//! Command arguments, split by serenity's `Args`.
use vstd::prelude::*;
use serenity::framework::standard::Args;
use serenity::framework::standard::Delimiter;

verus! {

#[verifier::external_type_specification]
#[verifier::external_body]
pub struct ExArgs(Args);

/// What `Args::new` splits a message into when its only delimiter is the
/// given character: the text of each argument, in order (empty arguments are
/// dropped, a quoted argument keeps its quotes).
pub uninterp spec fn split_arguments(message: Seq<char>, delimiter: char) -> Seq<Seq<char>>;

/// The texts that `Args::current` yields at each position of an `Args` value.
pub uninterp spec fn arguments(args: Args) -> Seq<Seq<char>>;

/// The position (offset) of an `Args` value among its arguments.
pub uninterp spec fn position(args: Args) -> nat;

/// Trusted: `Args::new(message, &[Delimiter::Single(delimiter)])` from serenity.
/// The arguments are named `split_arguments` of the message and the delimiter,
/// and a new value stands at position 0 (its source sets `offset: 0` and applies
/// no trimming or unquoting).
#[verifier::external_body]
pub(crate) fn new_args(message: &str, delimiter: char) -> (a: Args)
    ensures
        arguments(a) == split_arguments(message@, delimiter),
        position(a) == 0,
{
    Args::new(message, &[Delimiter::Single(delimiter)])
}

/// Trusted: `Args::len` from serenity, the number of arguments.
#[verifier::external_body]
pub(crate) fn args_len(a: &Args) -> (n: usize)
    ensures
        n == arguments(*a).len(),
{
    a.len()
}

/// Trusted: `Args::is_empty` from serenity: no argument is left at the position.
#[verifier::external_body]
pub(crate) fn args_is_empty(a: &Args) -> (r: bool)
    ensures
        r == (position(*a) >= arguments(*a).len()),
{
    a.is_empty()
}

/// Trusted: `Args::advance` from serenity: moves to the next argument, and does
/// nothing when none is left.
#[verifier::external_body]
pub(crate) fn args_advance(a: &mut Args)
    ensures
        arguments(*final(a)) == arguments(*old(a)),
        position(*final(a)) == if position(*old(a)) >= arguments(*old(a)).len() {
            position(*old(a))
        } else {
            position(*old(a)) + 1
        },
{
    a.advance();
}

/// Trusted: `Args::current` from serenity, copied into a `String`: the argument
/// at the position, or `None` when none is left.
#[verifier::external_body]
pub(crate) fn args_current(a: &Args) -> (r: Option<String>)
    ensures
        r is Some == (position(*a) < arguments(*a).len()),
        r is Some ==> r->0@ == arguments(*a)[position(*a) as int],
{
    a.current().map(str::to_string)
}

/// Trusted: `Args::single::<String>` from serenity. Parsing into a `String`
/// cannot fail, so it gives the argument at the position and advances, or,
/// when none is left, the end-of-string error (its `Display` text is given)
/// and leaves the position as it was.
#[verifier::external_body]
pub(crate) fn args_single_string(a: &mut Args) -> (r: Result<String, String>)
    ensures
        arguments(*final(a)) == arguments(*old(a)),
        r is Ok == (position(*old(a)) < arguments(*old(a)).len()),
        r is Ok ==> r->Ok_0@ == arguments(*old(a))[position(*old(a)) as int],
        r is Err ==> r->Err_0@ == "ArgError(\"end of string\")"@,
        position(*final(a)) == if r is Ok { position(*old(a)) + 1 } else { position(*old(a)) },
{
    match a.single::<String>() {
        Ok(s) => Ok(s),
        Err(e) => Err(format!("{}", e)),
    }
}

} // verus!
