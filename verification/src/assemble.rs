//! The command assembler: the invocation tokens are re-joined with single
//! spaces, and everything after the first occurrence of the program's own
//! token followed by a space is the command line to execute. The split is
//! textual, so multi-word or piped commands pass through verbatim.

use vstd::prelude::*;

verus! {

/// The invocation tokens re-joined with single spaces.
pub open spec fn spec_join(ts: Seq<String>) -> Seq<char>
    decreases ts.len(),
{
    if ts.len() == 0 {
        Seq::empty()
    } else if ts.len() == 1 {
        ts[0]@
    } else {
        spec_join(ts.drop_last()) + " "@ + ts.last()@
    }
}

/// Everything after the first occurrence of `pat` in `hay`, or `None` when
/// `pat` does not occur.
pub open spec fn spec_split_after_first(hay: Seq<char>, pat: Seq<char>) -> Option<Seq<char>>
    decreases hay.len(),
{
    if pat.len() == 0 {
        Some(hay)
    } else if hay.len() < pat.len() {
        None
    } else if hay.subrange(0, pat.len() as int) == pat {
        Some(hay.subrange(pat.len() as int, hay.len() as int))
    } else {
        spec_split_after_first(hay.subrange(1, hay.len() as int), pat)
    }
}

/// The assembled command line: what follows the first occurrence of the
/// program's own token and a space in the re-joined invocation text, or
/// `None` when the caller supplied no command to wrap.
pub open spec fn spec_assembled(ts: Seq<String>) -> Option<Seq<char>> {
    if ts.len() == 0 {
        None
    } else {
        spec_split_after_first(spec_join(ts), ts[0]@ + " "@)
    }
}

/// Joining at least two tokens starts with the first token and a space.
proof fn lemma_join_head(ts: Seq<String>)
    requires
        ts.len() >= 2,
    ensures
        spec_join(ts) == ts[0]@ + " "@ + spec_join(ts.subrange(1, ts.len() as int)),
    decreases ts.len(),
{
    if ts.len() == 2 {
        assert(ts.drop_last().len() == 1);
        assert(ts.subrange(1, 2)[0] == ts[1]);
        assert(spec_join(ts.subrange(1, 2)) == ts[1]@);
        assert(spec_join(ts.drop_last()) == ts[0]@);
    } else {
        lemma_join_head(ts.drop_last());
        let tail = ts.subrange(1, ts.len() as int);
        assert(ts.drop_last().subrange(1, ts.len() - 1) =~= tail.drop_last());
        assert(ts.drop_last()[0] == ts[0]);
        assert(tail.last() == ts.last());
        assert(ts[0]@ + " "@ + spec_join(tail.drop_last()) + " "@ + tail.last()@ =~= ts[0]@ + " "@
            + (spec_join(tail.drop_last()) + " "@ + tail.last()@));
    }
}

/// Law: whenever a command is supplied (at least one token follows the
/// program's own), the textual split succeeds and yields exactly the tokens
/// after the program's own, re-joined with single spaces.
pub proof fn lemma_assembled_is_tail_join(ts: Seq<String>)
    requires
        ts.len() >= 2,
    ensures
        spec_assembled(ts) == Some(spec_join(ts.subrange(1, ts.len() as int))),
{
    reveal_strlit(" ");
    let pat = ts[0]@ + " "@;
    let rest = spec_join(ts.subrange(1, ts.len() as int));
    lemma_join_head(ts);
    let hay = spec_join(ts);
    assert(hay.len() >= pat.len());
    assert(hay.subrange(0, pat.len() as int) =~= pat);
    assert(hay.subrange(pat.len() as int, hay.len() as int) =~= rest);
}

/// Join the tokens after the program's own token with single spaces.
fn join_rest(tokens: &Vec<String>) -> (s: String)
    requires
        tokens@.len() >= 2,
    ensures
        s@ == spec_join(tokens@.subrange(1, tokens@.len() as int)),
{
    let mut s = tokens[1].clone();
    proof {
        assert(tokens@.subrange(1, 2)[0] == tokens@[1]);
    }
    let mut i: usize = 2;
    while i < tokens.len()
        invariant
            2 <= i <= tokens@.len(),
            tokens@.len() >= 2,
            s@ == spec_join(tokens@.subrange(1, i as int)),
        decreases tokens@.len() - i,
    {
        s.append(" ");
        s.append(tokens[i].as_str());
        proof {
            let sub = tokens@.subrange(1, i + 1);
            assert(sub.drop_last() =~= tokens@.subrange(1, i as int));
            assert(sub.last() == tokens@[i as int]);
        }
        i = i + 1;
    }
    proof {
        assert(tokens@.subrange(1, i as int) =~= tokens@.subrange(1, tokens@.len() as int));
    }
    s
}

/// Assemble the command line to execute from the full invocation token list.
/// Yields `None` exactly when the re-joined text holds no occurrence of the
/// program's own token followed by a space, i.e. no command was supplied.
pub fn assemble_command(tokens: &Vec<String>) -> (r: Option<String>)
    ensures
        r is Some <==> spec_assembled(tokens@) is Some,
        r matches Some(s) ==> Some(s@) == spec_assembled(tokens@),
{
    proof {
        reveal_strlit(" ");
    }
    if tokens.len() < 2 {
        proof {
            if tokens@.len() == 1 {
                let pat = tokens@[0]@ + " "@;
                assert(spec_join(tokens@) == tokens@[0]@);
                assert(spec_join(tokens@).len() < pat.len());
            }
        }
        None
    } else {
        let joined = join_rest(tokens);
        proof {
            lemma_assembled_is_tail_join(tokens@);
        }
        Some(joined)
    }
}

} // verus!
