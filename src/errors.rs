use vstd::prelude::*;

verus! {

/// The report of an error and its chain of causes: the message on a line of its
/// own, then each cause, outermost first.
pub open spec fn error_chain(message: Seq<char>, causes: Seq<Seq<char>>) -> Seq<char>
    decreases causes.len(),
{
    if causes.len() == 0 {
        message + "\n"@
    } else {
        error_chain(message, causes.drop_last()) + "Caused by:\n\t"@ + causes.last() + "\n"@
    }
}

/// Writes an error report: the message, then one "Caused by:" entry per cause.
pub fn error_chain_fmt(message: &str, causes: &Vec<String>) -> (r: String)
    ensures
        r@ == error_chain(message@, causes@.map_values(|c: String| c@)),
{
    let mut r = String::from_str(message);
    r.append("\n");
    let mut i: usize = 0;
    while i < causes.len()
        invariant
            i <= causes@.len(),
            r@ == error_chain(message@, causes@.map_values(|c: String| c@).take(i as int)),
        decreases causes@.len() - i,
    {
        r.append("Caused by:\n\t");
        r.append(causes[i].as_str());
        r.append("\n");
        proof {
            let all = causes@.map_values(|c: String| c@);
            assert(all.take(i + 1).drop_last() =~= all.take(i as int));
        }
        i = i + 1;
    }
    proof {
        let all = causes@.map_values(|c: String| c@);
        assert(all.take(causes@.len() as int) =~= all);
    }
    r
}

} // verus!
