//! Small helpers for chat programs built on this library.
use vstd::prelude::*;
use crate::client::{decimal, lemma_decimal_len_bound, lemma_decimal_small};
use crate::strings::{lemma_split_once_char, split_once, split_once_char};

verus! {

/// The command word of a chat line and the rest: the line split at its first space,
/// or the whole line and nothing where it has no space.
pub open spec fn args_of(s: Seq<char>) -> (Seq<char>, Seq<char>) {
    match split_once_char(s, ' ') {
        Some((a, b)) => (a, b),
        None => (s, Seq::<char>::empty()),
    }
}

/// Splits a chat line into its command word and the rest.
pub fn split_args(s: &str) -> (r: (&str, &str))
    ensures
        (r.0@, r.1@) == args_of(s@),
{
    match split_once(s, ' ') {
        Some((a, b)) => (a, b),
        None => {
            let e = "";
            proof {
                reveal_strlit("");
            }
            (s, e)
        },
    }
}

/// The number of decimal digits of `v`.
pub fn num_digits(v: usize) -> (r: usize)
    ensures
        r == decimal(v as nat).len(),
{
    proof {
        lemma_decimal_small(v as nat);
    }
    let mut n = v;
    let mut count: usize = 1;
    while n >= 10
        invariant
            1 <= count,
            n <= v,
            decimal(v as nat).len() <= 20,
            decimal(v as nat).len() == decimal(n as nat).len() + count - 1,
        decreases n,
    {
        proof {
            lemma_decimal_len_bound(n as nat);
            lemma_decimal_len_bound((n / 10) as nat);
        }
        n = n / 10;
        count = count + 1;
    }
    proof {
        lemma_decimal_len_bound(n as nat);
    }
    count
}

/// A chat line splits at its first space: a word without a space, a space and the rest
/// give that word and that rest; a line without a space is all command word.
pub proof fn lemma_args_of(word: Seq<char>, rest: Seq<char>)
    requires
        forall|k: int| 0 <= k < word.len() ==> word[k] != ' ',
    ensures
        args_of(word + seq![' '] + rest) == (word, rest),
        args_of(word) == (word, Seq::<char>::empty()),
{
    lemma_split_once_char(word, ' ', rest);
}

} // verus!
