//! Programs that a command runs on the host, as plain values.
use vstd::prelude::*;

verus! {

/// A command that replies, then starts a program; the program failing to start
/// stops the bot with the failure text.
pub struct ProcessPlan {
    pub reply: String,
    pub program: String,
    pub program_args: Vec<String>,
    pub failure: String,
}

/// The strings hold these texts, in order.
pub open spec fn texts_are(v: Vec<String>, texts: Seq<Seq<char>>) -> bool {
    &&& v@.len() == texts.len()
    &&& forall|i: int| 0 <= i < texts.len() ==> #[trigger] v@[i]@ == texts[i]
}

/// The plan has these texts.
pub open spec fn is_plan(
    p: ProcessPlan,
    reply: Seq<char>,
    program: Seq<char>,
    program_args: Seq<Seq<char>>,
    failure: Seq<char>,
) -> bool {
    &&& p.reply@ == reply
    &&& p.program@ == program
    &&& texts_are(p.program_args, program_args)
    &&& p.failure@ == failure
}

/// The strings of two texts.
pub(crate) fn two_texts(a: &str, b: &str) -> (v: Vec<String>)
    ensures
        texts_are(v, seq![a@, b@]),
{
    let mut v: Vec<String> = Vec::new();
    v.push(String::from_str(a));
    v.push(String::from_str(b));
    v
}

/// The strings of one text.
pub(crate) fn one_text(a: &str) -> (v: Vec<String>)
    ensures
        texts_are(v, seq![a@]),
{
    let mut v: Vec<String> = Vec::new();
    v.push(String::from_str(a));
    v
}

/// A plan from its texts.
pub(crate) fn plan(reply: &str, program: &str, program_args: Vec<String>, failure: &str) -> (p: ProcessPlan)
    ensures
        p.reply@ == reply@,
        p.program@ == program@,
        p.program_args == program_args,
        p.failure@ == failure@,
{
    ProcessPlan {
        reply: String::from_str(reply),
        program: String::from_str(program),
        program_args,
        failure: String::from_str(failure),
    }
}

} // verus!
