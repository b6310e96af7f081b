//! Splitting a launch command into an executable and its arguments.
//!
//! A command is a whitespace-delimited string: it is split on single space
//! characters, the first token names the executable and the remaining
//! tokens are its arguments. An empty command names nothing and must not
//! lead to a spawn attempt.

use vstd::prelude::*;

verus! {

/// The tokens of `s` split on single spaces, exactly as `&str::split(" ")`
/// yields them: consecutive separators produce empty tokens, and the empty
/// string produces one empty token.
pub open spec fn split_on_spaces(s: Seq<char>) -> Seq<Seq<char>>
    decreases s.len(),
{
    if s.len() == 0 {
        seq![Seq::<char>::empty()]
    } else if s.last() == ' ' {
        split_on_spaces(s.drop_last()).push(Seq::<char>::empty())
    } else {
        let p = split_on_spaces(s.drop_last());
        p.update(p.len() - 1, p.last().push(s.last()))
    }
}

pub proof fn lemma_split_on_spaces_len(s: Seq<char>)
    ensures
        split_on_spaces(s).len() >= 1,
    decreases s.len(),
{
    if s.len() > 0 {
        lemma_split_on_spaces_len(s.drop_last());
    }
}

fn split_all(s: &str) -> (toks: Vec<String>)
    ensures
        toks@.len() == split_on_spaces(s@).len(),
        forall|i: int| 0 <= i < toks@.len() ==> toks@[i]@ == split_on_spaces(s@)[i],
{
    let n = s.unicode_len();
    let mut done: Vec<String> = Vec::new();
    let mut start: usize = 0;
    let mut i: usize = 0;
    proof {
        assert(s@.take(0).len() == 0);
        assert(split_on_spaces(s@.take(0)).last() =~= s@.subrange(0, 0));
    }
    while i < n
        invariant
            start <= i <= n,
            n == s@.len(),
            done@.len() + 1 == split_on_spaces(s@.take(i as int)).len(),
            forall|j: int|
                0 <= j < done@.len() ==> done@[j]@ == split_on_spaces(s@.take(i as int))[j],
            split_on_spaces(s@.take(i as int)).last() == s@.subrange(start as int, i as int),
        decreases n - i,
    {
        proof {
            assert(s@.take(i as int + 1).drop_last() =~= s@.take(i as int));
            assert(s@.take(i as int + 1).last() == s@[i as int]);
        }
        let c = s.get_char(i);
        if c == ' ' {
            let tok = String::from_str(s.substring_char(start, i));
            done.push(tok);
            start = i + 1;
            proof {
                assert(s@.subrange(start as int, i as int + 1) =~= Seq::<char>::empty());
            }
        } else {
            proof {
                assert(s@.subrange(start as int, i as int).push(s@[i as int]) =~= s@.subrange(
                    start as int,
                    i as int + 1,
                ));
            }
        }
        i += 1;
    }
    proof {
        assert(s@.take(n as int) =~= s@);
    }
    let last = String::from_str(s.substring_char(start, n));
    done.push(last);
    done
}

/// Split a launch command into the executable and its argument list.
///
/// An empty command yields `None`; anything else yields the first
/// space-delimited token and the remaining tokens in order.
pub fn split_command(s: &str) -> (r: Option<(String, Vec<String>)>)
    ensures
        (r is None) <==> s@.len() == 0,
        r matches Some(parts) ==> ({
            let p = split_on_spaces(s@);
            &&& parts.0@ == p[0]
            &&& parts.1@.len() + 1 == p.len()
            &&& forall|j: int| 0 <= j < parts.1@.len() ==> parts.1@[j]@ == p[j + 1]
        }),
{
    let n = s.unicode_len();
    if n == 0 {
        return None;
    }
    let toks = split_all(s);
    proof {
        lemma_split_on_spaces_len(s@);
    }
    let exe = toks[0].clone();
    let mut args: Vec<String> = Vec::new();
    let mut j: usize = 1;
    while j < toks.len()
        invariant
            1 <= j <= toks@.len(),
            toks@.len() == split_on_spaces(s@).len(),
            forall|i: int| 0 <= i < toks@.len() ==> toks@[i]@ == split_on_spaces(s@)[i],
            args@.len() + 1 == j,
            forall|i: int| 0 <= i < args@.len() ==> args@[i]@ == split_on_spaces(s@)[i + 1],
        decreases toks@.len() - j,
    {
        args.push(toks[j].clone());
        j += 1;
    }
    Some((exe, args))
}

} // verus!
