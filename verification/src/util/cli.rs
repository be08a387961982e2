//! Answers to yes/no questions on the command line.
use vstd::prelude::*;
use vstd::string::StrSliceExecFns;

use crate::util::text::{lowercase, spec_trim, starts_with, to_lowercase, trim};

verus! {

/// Whether `s` is one of the short answers that mean yes.
pub open spec fn short_yes(s: Seq<char>) -> bool {
    s == "y"@ || s == "ye"@ || s == "t"@ || s == "1"@
}

/// Whether `s` is one of the short answers that mean no.
pub open spec fn short_no(s: Seq<char>) -> bool {
    s == "n"@ || s == "f"@ || s == "0"@
}

/// The boolean a trimmed, lowercased answer gives: a short answer (`y`, `ye`, `t`, `1`;
/// `n`, `f`, `0`) or one that starts with `yes`, `true`, `no` or `false`.
pub open spec fn spec_answer_bool(s: Seq<char>) -> Option<bool> {
    if short_yes(s) {
        Some(true)
    } else if short_no(s) {
        Some(false)
    } else if "yes"@.is_prefix_of(s) || "true"@.is_prefix_of(s) {
        Some(true)
    } else if "no"@.is_prefix_of(s) || "false"@.is_prefix_of(s) {
        Some(false)
    } else {
        None
    }
}

/// The boolean an answer gives, judged on its trimmed, lowercased text.
pub open spec fn spec_derive_bool(input: Seq<char>) -> Option<bool> {
    spec_answer_bool(lowercase(spec_trim(input)))
}

/// Whether a string equals a literal.
fn is(s: &String, lit: &str) -> (res: bool)
    ensures
        res == (s@ == lit@),
{
    *s == String::from_str(lit)
}

/// Derive a boolean from an answer that is already trimmed and lowercased.
pub fn answer_bool(input: &str) -> (res: Option<bool>)
    ensures
        res == spec_answer_bool(input@),
{
    let input = String::from_str(input);
    if is(&input, "y") || is(&input, "ye") || is(&input, "t") || is(&input, "1") {
        return Some(true);
    }
    if is(&input, "n") || is(&input, "f") || is(&input, "0") {
        return Some(false);
    }
    if starts_with(input.as_str(), "yes") || starts_with(input.as_str(), "true") {
        return Some(true);
    }
    if starts_with(input.as_str(), "no") || starts_with(input.as_str(), "false") {
        return Some(false);
    }
    None
}

/// Try to derive true or false (yes or no) from the given input.
/// None is returned if no boolean could be derived accurately.
pub fn derive_bool(input: &str) -> (res: Option<bool>)
    ensures
        res == spec_derive_bool(input@),
{
    let input = to_lowercase(trim(input));
    answer_bool(input.as_str())
}

/// The options shown after a yes/no question: `[y/n]`, with the default in capitals.
pub open spec fn spec_prompt_options(def: Option<bool>) -> Seq<char> {
    "["@ + (if def == Some(true) {
        "Y"@
    } else {
        "y"@
    }) + "/"@ + (if def == Some(false) {
        "N"@
    } else {
        "n"@
    }) + "]"@
}

/// The options shown after a yes/no question, with the default answer in capitals.
pub fn prompt_options(def: Option<bool>) -> (res: String)
    ensures
        res@ == spec_prompt_options(def),
{
    let mut options = String::from_str("[");
    if def == Some(true) {
        options.append("Y");
    } else {
        options.append("y");
    }
    options.append("/");
    if def == Some(false) {
        options.append("N");
    } else {
        options.append("n");
    }
    options.append("]");
    options
}

/// The answer a reply to a yes/no question gives, if any: the default for an empty reply
/// when there is one, else the boolean derived from the reply.
pub open spec fn spec_prompt_answer(answer: Seq<char>, def: Option<bool>) -> Option<bool> {
    if answer.len() == 0 && def is Some {
        def
    } else {
        spec_derive_bool(answer)
    }
}

/// Take a reply to a yes/no question, as typed and trimmed.
///
/// Returns the answer, or `None` if the question is to be asked again.
pub fn prompt_answer(answer: &str, def: Option<bool>) -> (res: Option<bool>)
    ensures
        res == spec_prompt_answer(answer@, def),
{
    if answer.unicode_len() == 0 {
        if let Some(def) = def {
            return Some(def);
        }
    }
    derive_bool(answer)
}

} // verus!
