//! Splitting the supervisor's command line into the target and the arguments
//! forwarded to it.
use vstd::prelude::*;

verus! {

/// What a supervisor is asked to run: the target executable and the
/// arguments handed to it verbatim.
pub struct Invocation {
    pub program: String,
    pub forwarded: Vec<String>,
}

/// Splits a full command line into the target (its second element) and the
/// arguments after it; `None` when no target is named.
pub fn parse_invocation(args: &Vec<String>) -> (r: Option<Invocation>)
    ensures
        r is None <==> args@.len() < 2,
        r matches Some(inv) ==> ({
            &&& inv.program@ == args@[1]@
            &&& inv.forwarded@.len() == args@.len() - 2
            &&& forall|k: int|
                0 <= k < inv.forwarded@.len() ==> #[trigger] inv.forwarded@[k]@ == args@[k + 2]@
        }),
{
    let n = args.len();
    if n < 2 {
        return None;
    }
    let program = args[1].clone();
    let mut forwarded: Vec<String> = Vec::new();
    let mut i: usize = 2;
    while i < n
        invariant
            n == args@.len(),
            2 <= i <= n,
            forwarded@.len() == i - 2,
            forall|k: int| 0 <= k < i - 2 ==> #[trigger] forwarded@[k]@ == args@[k + 2]@,
        decreases n - i,
    {
        let a = args[i].clone();
        forwarded.push(a);
        i = i + 1;
    }
    Some(Invocation { program, forwarded })
}

} // verus!
