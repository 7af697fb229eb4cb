use vstd::prelude::*;

verus! {

/// The path of entry `name` inside directory `dir`.
pub open spec fn join(dir: Seq<char>, name: Seq<char>) -> Seq<char> {
    dir + "/"@ + name
}

/// Whether `path` names something inside directory `dir`.
pub open spec fn is_under(path: Seq<char>, dir: Seq<char>) -> bool {
    exists|rest: Seq<char>| path == join(dir, rest)
}

/// Joining twice stays inside the first directory.
pub proof fn lemma_join_under(dir: Seq<char>, a: Seq<char>, b: Seq<char>)
    ensures
        join(join(dir, a), b) == join(dir, join(a, b)),
        is_under(join(join(dir, a), b), dir),
        is_under(join(dir, a), dir),
{
    assert(join(join(dir, a), b) =~= join(dir, join(a, b)));
}

/// The path of entry `name` inside directory `dir`.
pub fn join_path(dir: &str, name: &str) -> (r: String)
    ensures
        r@ == join(dir@, name@),
{
    let mut out = dir.to_owned();
    out.append("/");
    out.append(name);
    out
}

} // verus!
