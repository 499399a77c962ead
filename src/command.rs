//! The configured command line, split on whitespace into a program and its
//! arguments. No quoting: an argument cannot hold a space.

use vstd::prelude::*;

verus! {

/// The words of `s`: its maximal runs of non-whitespace characters, in order.
pub uninterp spec fn whitespace_words(s: Seq<char>) -> Seq<Seq<char>>;

/// The character sequences that a list of strings holds.
pub open spec fn texts(v: Seq<String>) -> Seq<Seq<char>> {
    v.map_values(|w: String| w@)
}

/// Relies on `str::split_whitespace`: the words of `s`, each copied into a
/// `String`; an empty string has none.
#[verifier::external_body]
fn split_words(s: &str) -> (r: Vec<String>)
    ensures
        texts(r@) == whitespace_words(s@),
        s@.len() == 0 ==> r@.len() == 0,
{
    s.split_whitespace().map(|w| w.to_string()).collect()
}

/// The first word is the program, the others its arguments, in order;
/// `None` where there is no word.
pub fn program_and_args(words: Vec<String>) -> (r: Option<(String, Vec<String>)>)
    ensures
        words@.len() == 0 <==> r is None,
        r matches Some((program, args)) ==> program == words@[0] && args@ == words@.drop_first(),
{
    if words.len() == 0 {
        None
    } else {
        let mut args = words;
        let program = args.remove(0);
        Some((program, args))
    }
}

/// Splits a command line into its program and arguments at whitespace;
/// `None` where it holds no word.
pub fn split_command(command: &str) -> (r: Option<(String, Vec<String>)>)
    ensures
        whitespace_words(command@).len() == 0 <==> r is None,
        r matches Some((program, args)) ==> {
            &&& program@ == whitespace_words(command@)[0]
            &&& texts(args@) == whitespace_words(command@).drop_first()
        },
{
    let words = split_words(command);
    let r = program_and_args(words);
    proof {
        if r is Some {
            assert(texts(r.unwrap().1@) =~= texts(words@).drop_first());
        }
    }
    r
}

} // verus!
