//! Round-robin pairing: every assignee gets a target, cycling the targets.
use vstd::prelude::*;
use crate::error::SeedError;

verus! {

/// The target of each of `n` assignees: position `i` gets `targets[i mod m]`.
pub open spec fn cycled<B>(n: nat, targets: Seq<B>) -> Seq<B>
    recommends
        targets.len() > 0,
{
    Seq::new(n, |i: int| targets[i % (targets.len() as int)])
}

/// Each assignee paired with its cycled target, in the assignees' order.
pub open spec fn paired<A, B>(assignees: Seq<A>, targets: Seq<B>) -> Seq<(A, B)>
    recommends
        targets.len() > 0,
{
    Seq::new(assignees.len(), |i: int| (assignees[i], targets[i % (targets.len() as int)]))
}

/// The target of each of `n` assignees, cycling `targets` when it is the
/// shorter list. Fails with `Exhausted` when there is no target at all.
pub fn cycle_targets<B: Copy>(n: usize, targets: &Vec<B>) -> (r: Result<Vec<B>, SeedError>)
    ensures
        targets@.len() == 0 <==> r is Err,
        r is Err ==> r == Err::<Vec<B>, SeedError>(SeedError::Exhausted),
        r matches Ok(v) ==> v@ == cycled(n as nat, targets@),
{
    let m: usize = targets.len();
    if m == 0 {
        return Err(SeedError::Exhausted);
    }
    let mut out: Vec<B> = Vec::new();
    let mut i: usize = 0;
    while i < n
        invariant
            m == targets@.len(),
            m > 0,
            0 <= i <= n,
            out@ =~= cycled(i as nat, targets@),
        decreases n - i,
    {
        out.push(targets[i % m]);
        i = i + 1;
    }
    Ok(out)
}

/// Pairs each assignee with a target, in the assignees' order: assignee `i`
/// gets `targets[i mod m]`. Fails with `Exhausted`, and pairs nothing, when
/// `targets` is empty.
pub fn round_robin<A: Copy, B: Copy>(assignees: &Vec<A>, targets: &Vec<B>) -> (r: Result<
    Vec<(A, B)>,
    SeedError,
>)
    ensures
        targets@.len() == 0 <==> r is Err,
        r is Err ==> r == Err::<Vec<(A, B)>, SeedError>(SeedError::Exhausted),
        r matches Ok(v) ==> v@ == paired(assignees@, targets@),
{
    let wired = cycle_targets(assignees.len(), targets);
    match wired {
        Err(e) => Err(e),
        Ok(ts) => {
            let mut out: Vec<(A, B)> = Vec::new();
            let mut i: usize = 0;
            while i < assignees.len()
                invariant
                    targets@.len() > 0,
                    ts@ == cycled(assignees@.len(), targets@),
                    0 <= i <= assignees@.len(),
                    out@ =~= paired(assignees@.take(i as int), targets@),
                decreases assignees@.len() - i,
            {
                out.push((assignees[i], ts[i]));
                i = i + 1;
            }
            assert(assignees@.take(assignees@.len() as int) =~= assignees@);
            Ok(out)
        },
    }
}

} // verus!
