use vstd::prelude::*;
use vstd::string::*;

verus! {

/// The text made of the lines `ls`, each one ended by a newline.
pub open spec fn join_lines(ls: Seq<Seq<char>>) -> Seq<char>
    decreases ls.len(),
{
    if ls.len() == 0 {
        Seq::empty()
    } else {
        join_lines(ls.drop_last()) + ls.last() + "\n"@
    }
}

pub proof fn lemma_join_push(ls: Seq<Seq<char>>, l: Seq<char>)
    ensures
        join_lines(ls.push(l)) == join_lines(ls) + l + "\n"@,
{
    assert(ls.push(l).drop_last() =~= ls);
}

/// Appends the line `l` and its newline to `out`.
pub fn emit_line(out: &mut String, Ghost(ls): Ghost<Seq<Seq<char>>>, l: &str)
    requires
        old(out)@ == join_lines(ls),
    ensures
        final(out)@ == join_lines(ls.push(l@)),
{
    out.append(l);
    out.append("\n");
    proof {
        lemma_join_push(ls, l@);
    }
}

/// Appends the line `pre name post` and its newline to `out`.
pub fn emit_named_line(
    out: &mut String,
    Ghost(ls): Ghost<Seq<Seq<char>>>,
    pre: &str,
    name: &str,
    post: &str,
)
    requires
        old(out)@ == join_lines(ls),
    ensures
        final(out)@ == join_lines(ls.push(pre@ + name@ + post@)),
{
    out.append(pre);
    out.append(name);
    out.append(post);
    out.append("\n");
    proof {
        lemma_join_push(ls, pre@ + name@ + post@);
        assert(out@ =~= join_lines(ls.push(pre@ + name@ + post@)));
    }
}

} // verus!
