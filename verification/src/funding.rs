//! The block that a channel's funding transaction is in, as its node sees it.

use vstd::prelude::*;
use crate::failure::Failure;

verus! {

/// The block that a confirmation count implies at a height: one confirmation
/// is the block at that height itself.
pub open spec fn block_of(height: u64, confirmations: u64) -> int {
    height - confirmations + 1
}

/// The funding block that a sample of a height and a confirmation count gives,
/// or why it gives none.
pub open spec fn funding_of(height: u64, confirmations: Option<u64>) -> Result<
    u64,
    Failure<Seq<char>>,
> {
    match confirmations {
        None => Err(Failure::NoConfirmations),
        Some(confirmations) => if confirmations == 0 {
            Err(Failure::Unconfirmed)
        } else {
            Ok(block_of(height, confirmations) as u64)
        },
    }
}

/// Whether a node at a height can have counted this many confirmations above
/// its first block.
pub open spec fn plausible(height: u64, confirmations: Option<u64>) -> bool {
    match confirmations {
        None => true,
        Some(confirmations) => confirmations <= height,
    }
}

/// The funding block that a sample of a height and a confirmation count gives.
pub fn funding_block(height: u64, confirmations: Option<u64>) -> (block: Result<
    u64,
    Failure<String>,
>)
    requires
        plausible(height, confirmations),
    ensures
        match block {
            Ok(block) => funding_of(height, confirmations) == Ok::<u64, Failure<Seq<char>>>(block),
            Err(failure) => funding_of(height, confirmations) == Err::<u64, Failure<Seq<char>>>(
                failure@,
            ),
        },
        match confirmations {
            None => block matches Err(Failure::NoConfirmations),
            Some(confirmations) => {
                &&& confirmations == 0 ==> (block matches Err(Failure::Unconfirmed))
                &&& confirmations > 0 ==> (block matches Ok(block) && block + confirmations
                    == height + 1)
            },
        },
{
    match confirmations {
        None => Err(Failure::NoConfirmations),
        Some(confirmations) => {
            if confirmations == 0 {
                return Err(Failure::Unconfirmed);
            }
            Ok(height - confirmations + 1)
        },
    }
}

/// The funding block does not depend on how far behind the chain the node is:
/// at every height from the funding block on, the count that a node has then
/// gives that block.
pub proof fn law_funding_block_ignores_lag(block: u64, height: u64, confirmations: u64)
    requires
        1 <= block <= height,
        confirmations == height - block + 1,
    ensures
        plausible(height, Some(confirmations)),
        funding_of(height, Some(confirmations)) == Ok::<u64, Failure<Seq<char>>>(block),
{
}

/// Two samples give one block exactly where the count is continuous: it grew by
/// as much as the height did. A count that restarts is therefore seen.
pub proof fn law_same_block_iff_count_continuous(
    first_height: u64,
    first_count: u64,
    second_height: u64,
    second_count: u64,
)
    requires
        plausible(first_height, Some(first_count)),
        plausible(second_height, Some(second_count)),
        0 < first_count,
        0 < second_count,
    ensures
        funding_of(first_height, Some(first_count)) == funding_of(second_height, Some(second_count))
            <==> second_count - first_count == second_height - first_height,
{
}

/// Every count from one up to the height gives a block, with as many blocks from
/// it to the height as the count says. A count of zero and a missing one give
/// none, and only a count above the height is left out.
pub proof fn law_count_reaches_back(height: u64, count: u64)
    ensures
        1 <= count <= height ==> (funding_of(height, Some(count)) matches Ok(block) && block + count
            == height + 1),
        funding_of(height, Some(0)) == Err::<u64, Failure<Seq<char>>>(Failure::Unconfirmed),
        funding_of(height, None) == Err::<u64, Failure<Seq<char>>>(Failure::NoConfirmations),
        plausible(height, None),
        plausible(height, Some(count)) <==> count <= height,
{
}

} // verus!
