//! Ranking the entries of the leaderboard.

use vstd::prelude::*;

verus! {

/// Number of entries that the board shows.
pub const BOARD_SIZE: usize = 10;

/// One entry of the leaderboard.
#[derive(Debug, PartialEq, Eq)]
pub struct HighScoreData {
    pub name: String,
    pub score: u32,
}

/// The entries of the leaderboard, in the order in which they came.
#[derive(Debug, PartialEq, Eq)]
pub struct HighScores(pub Vec<HighScoreData>);

/// The scores of `entries`, in order.
pub open spec fn scores_of(entries: Seq<HighScoreData>) -> Seq<u32> {
    Seq::new(entries.len(), |i: int| entries[i].score)
}

/// Whether entry `i` stands above entry `j` on the board: it has the higher
/// score, or the same score and came first.
pub open spec fn outranks(scores: Seq<u32>, i: int, j: int) -> bool {
    scores[i] > scores[j] || (scores[i] == scores[j] && i < j)
}

/// Whether entry `j` is among the entries that `order` lists.
pub open spec fn listed(order: Seq<usize>, j: int) -> bool {
    exists|a: int| 0 <= a < order.len() && #[trigger] order[a] == j
}

/// Whether entry `j` stands below entry `under`; every entry does where
/// there is no `under`.
pub open spec fn below(scores: Seq<u32>, under: Option<usize>, j: int) -> bool {
    match under {
        Some(u) => outranks(scores, u as int, j),
        None => true,
    }
}

/// Whether `order` is the board for `scores`: it lists entries by their
/// index, each above the next, and every entry that it leaves out stands
/// below all that it lists; it lists as many as the board shows, or all.
pub open spec fn is_board(scores: Seq<u32>, order: Seq<usize>) -> bool {
    &&& order.len() <= BOARD_SIZE
    &&& forall|a: int| 0 <= a < order.len() ==> (#[trigger] order[a]) < scores.len()
    &&& forall|a: int, b: int|
        0 <= a < b < order.len() ==> outranks(
            scores,
            #[trigger] order[a] as int,
            #[trigger] order[b] as int,
        )
    &&& forall|a: int, j: int|
        0 <= a < order.len() && 0 <= j < scores.len() && !#[trigger] listed(order, j) ==> outranks(
            scores,
            #[trigger] order[a] as int,
            j,
        )
    &&& order.len() == BOARD_SIZE || forall|j: int|
        0 <= j < scores.len() ==> #[trigger] listed(order, j)
}

/// The board is unique: two boards for the same scores list the same
/// entries in the same order, as far as both go.
pub proof fn board_is_unique(scores: Seq<u32>, first: Seq<usize>, second: Seq<usize>, a: int)
    requires
        is_board(scores, first),
        is_board(scores, second),
        0 <= a < first.len(),
        a < second.len(),
    ensures
        first[a] == second[a],
    decreases a,
{
    // Every entry listed before place `a` is the same on both boards.
    assert forall|b: int| 0 <= b < a implies first[b] == second[b] by {
        board_is_unique(scores, first, second, b);
    }
    let x = first[a] as int;
    let y = second[a] as int;
    if x != y {
        // Each of the two stands above the other, which cannot be.
        assert(outranks(scores, y, x)) by {
            if listed(second, x) {
                let c = choose|c: int| 0 <= c < second.len() && #[trigger] second[c] == x;
                if c < a {
                    assert(first[c] == second[c]);
                    assert(outranks(scores, first[c] as int, first[a] as int));
                }
                assert(c > a);
                assert(outranks(scores, second[a] as int, second[c] as int));
            }
        }
        assert(outranks(scores, x, y)) by {
            if listed(first, y) {
                let c = choose|c: int| 0 <= c < first.len() && #[trigger] first[c] == y;
                if c < a {
                    assert(first[c] == second[c]);
                    assert(outranks(scores, second[c] as int, second[a] as int));
                }
                assert(c > a);
                assert(outranks(scores, first[a] as int, first[c] as int));
            }
        }
    }
}

/// Finds the entry that stands highest among those below entry `under`, or
/// among all entries where there is no `under`.
fn best_below(scores: &Vec<u32>, under: Option<usize>) -> (best: Option<usize>)
    requires
        under matches Some(u) ==> u < scores.len(),
    ensures
        match best {
            Some(b) => {
                &&& b < scores.len()
                &&& below(scores@, under, b as int)
                &&& forall|j: int|
                    0 <= j < scores.len() && j != b && #[trigger] below(scores@, under, j)
                        ==> outranks(scores@, b as int, j)
            },
            None => forall|j: int| 0 <= j < scores.len() ==> !#[trigger] below(scores@, under, j),
        },
{
    let mut best: Option<usize> = None;
    let mut j: usize = 0;
    while j < scores.len()
        invariant
            j <= scores.len(),
            under matches Some(u) ==> u < scores.len(),
            match best {
                Some(b) => {
                    &&& b < j
                    &&& below(scores@, under, b as int)
                    &&& forall|i: int|
                        0 <= i < j && i != b && #[trigger] below(scores@, under, i) ==> outranks(
                            scores@,
                            b as int,
                            i,
                        )
                },
                None => forall|i: int| 0 <= i < j ==> !#[trigger] below(scores@, under, i),
            },
        decreases scores.len() - j,
    {
        let below = match under {
            Some(u) => scores[u] > scores[j] || (scores[u] == scores[j] && u < j),
            None => true,
        };
        if below {
            let better = match best {
                Some(b) => scores[j] > scores[b],
                None => true,
            };
            if better {
                best = Some(j);
            }
        }
        j += 1;
    }
    best
}

/// Ranks the entries with the given scores for the board: the ten best,
/// best first, entries with the same score in the order in which they came.
pub fn rank(scores: &Vec<u32>) -> (order: Vec<usize>)
    ensures
        is_board(scores@, order@),
{
    let mut order: Vec<usize> = Vec::new();
    let mut last: Option<usize> = None;
    let mut complete = false;
    while order.len() < BOARD_SIZE && !complete
        invariant
            order.len() <= BOARD_SIZE,
            last is None <==> order.len() == 0,
            last matches Some(l) ==> order@.last() == l,
            forall|a: int| 0 <= a < order.len() ==> (#[trigger] order@[a]) < scores.len(),
            forall|a: int, b: int|
                0 <= a < b < order.len() ==> outranks(
                    scores@,
                    #[trigger] order@[a] as int,
                    #[trigger] order@[b] as int,
                ),
            forall|a: int, j: int|
                0 <= a < order.len() && 0 <= j < scores.len() && !#[trigger] listed(order@, j)
                    ==> outranks(scores@, #[trigger] order@[a] as int, j),
            complete ==> forall|j: int| 0 <= j < scores.len() ==> #[trigger] listed(order@, j),
        decreases BOARD_SIZE - order.len() + (if complete { 0int } else { 1int }),
    {
        let ghost before = order@;
        let ghost last_before = last;
        match best_below(scores, last) {
            Some(b) => {
                order.push(b);
                last = Some(b);
                proof {
                    let after = order@;
                    assert(after[before.len() as int] == b);
                    assert forall|j: int| listed(before, j) implies listed(after, j) by {
                        let a = choose|a: int| 0 <= a < before.len() && #[trigger] before[a] == j;
                        assert(after[a] == j);
                    }
                    assert(!listed(before, b as int)) by {
                        if listed(before, b as int) {
                            let a = choose|a: int|
                                0 <= a < before.len() && #[trigger] before[a] == b as int;
                            assert(before[a] == before.last() || outranks(
                                scores@,
                                before[a] as int,
                                before.last() as int,
                            ));
                        }
                    }
                    assert forall|a: int, c: int| 0 <= a < c < after.len() implies outranks(
                        scores@,
                        #[trigger] after[a] as int,
                        #[trigger] after[c] as int,
                    ) by {
                        if c == before.len() {
                            assert(after[a] == before[a]);
                        } else {
                            assert(after[a] == before[a] && after[c] == before[c]);
                        }
                    }
                    assert forall|a: int, j: int|
                        0 <= a < after.len() && 0 <= j < scores.len() && !#[trigger] listed(
                            after,
                            j,
                        ) implies outranks(scores@, #[trigger] after[a] as int, j) by {
                        assert(!listed(before, j));
                        assert(j != b);
                        if before.len() > 0 {
                            assert(outranks(scores@, before[before.len() - 1] as int, j));
                        }
                        assert(below(scores@, last_before, j));
                        if a < before.len() {
                            assert(after[a] == before[a]);
                        }
                    }
                }
            },
            None => {
                complete = true;
                proof {
                    assert forall|j: int| 0 <= j < scores.len() implies #[trigger] listed(
                        order@,
                        j,
                    ) by {
                        if !listed(order@, j) {
                            if order.len() > 0 {
                                assert(outranks(scores@, order@[order.len() - 1] as int, j));
                            }
                            assert(below(scores@, last, j));
                        }
                    }
                }
            },
        }
    }
    order
}

/// Tells which entries the board shows, by their place among the entries:
/// the ten best, best first.
pub fn update_high_scoreboard(high_scores: &HighScores) -> (order: Vec<usize>)
    ensures
        is_board(scores_of(high_scores.0@), order@),
{
    let mut scores: Vec<u32> = Vec::new();
    let mut i: usize = 0;
    while i < high_scores.0.len()
        invariant
            i <= high_scores.0.len(),
            scores@ == scores_of(high_scores.0@.take(i as int)),
        decreases high_scores.0.len() - i,
    {
        scores.push(high_scores.0[i].score);
        assert(scores@ =~= scores_of(high_scores.0@.take(i + 1)));
        i += 1;
    }
    assert(high_scores.0@.take(high_scores.0.len() as int) =~= high_scores.0@);
    rank(&scores)
}

} // verus!
