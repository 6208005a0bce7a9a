//! The mempool poller: diffs each snapshot of the node's mempool against the
//! previous one and decides which new transactions are announced on the bus.

use crate::origin::OriginTracker;
use vstd::hash_set::StringHashSet;
use vstd::prelude::*;

verus! {

/// The texts of a list of strings.
pub open spec fn texts(list: Seq<String>) -> Seq<Seq<char>> {
    Seq::new(list.len(), |i: int| list[i]@)
}

/// The transaction ids of a snapshot that are to be announced: those that
/// were not known before and did not arrive from the bus, each once, in the
/// order of their first appearance in the snapshot.
pub open spec fn announce_list(
    snapshot: Seq<Seq<char>>,
    known: Set<Seq<char>>,
    remote: Set<Seq<char>>,
) -> Seq<Seq<char>>
    decreases snapshot.len(),
{
    if snapshot.len() == 0 {
        Seq::empty()
    } else {
        let earlier = snapshot.drop_last();
        let txid = snapshot.last();
        let rest = announce_list(earlier, known, remote);
        if !known.contains(txid) && !earlier.contains(txid) && !remote.contains(txid) {
            rest.push(txid)
        } else {
            rest
        }
    }
}

/// The transaction ids of a snapshot that are new to the poller but arrived
/// from the bus, so that announcing them would be an echo; each once, in
/// the order of their first appearance.
pub open spec fn echo_list(
    snapshot: Seq<Seq<char>>,
    known: Set<Seq<char>>,
    remote: Set<Seq<char>>,
) -> Seq<Seq<char>>
    decreases snapshot.len(),
{
    if snapshot.len() == 0 {
        Seq::empty()
    } else {
        let earlier = snapshot.drop_last();
        let txid = snapshot.last();
        let rest = echo_list(earlier, known, remote);
        if !known.contains(txid) && !earlier.contains(txid) && remote.contains(txid) {
            rest.push(txid)
        } else {
            rest
        }
    }
}

/// What one tick of the poller decided.
pub struct TickPlan {
    /// Transaction ids to fetch from the node and announce on the bus.
    pub to_publish: Vec<String>,
    /// New transaction ids that are not announced because they came from
    /// the bus.
    pub skipped_echo: Vec<String>,
}

/// The poller's memory: the transaction ids of the last snapshot it saw.
pub struct MempoolPoller {
    known: StringHashSet,
}

impl View for MempoolPoller {
    type V = Set<Seq<char>>;

    closed spec fn view(&self) -> Set<Seq<char>> {
        self.known@
    }
}

fn snapshot_set(snapshot: &Vec<String>) -> (set: StringHashSet)
    ensures
        set@ == texts(snapshot@).to_set(),
{
    let mut set = StringHashSet::new();
    let mut i: usize = 0;
    while i < snapshot.len()
        invariant
            i <= snapshot.len(),
            forall|t: Seq<char>| set@.contains(t) <==> texts(snapshot@).take(i as int).contains(t),
        decreases snapshot.len() - i,
    {
        let ghost before = texts(snapshot@).take(i as int);
        let ghost after = texts(snapshot@).take(i + 1);
        let _ = set.insert(snapshot[i].clone());
        proof {
            assert(after.drop_last() =~= before);
            assert(after.last() == snapshot@[i as int]@);
            assert forall|t: Seq<char>| set@.contains(t) <==> after.contains(t) by {
                if after.contains(t) {
                    let j = choose|j: int| 0 <= j < after.len() && after[j] == t;
                    if j < i {
                        assert(before[j] == t);
                    }
                }
                if before.contains(t) {
                    let j = choose|j: int| 0 <= j < before.len() && before[j] == t;
                    assert(after[j] == t);
                }
                assert(after[i as int] == snapshot@[i as int]@);
            }
        }
        i = i + 1;
    }
    proof {
        assert(texts(snapshot@).take(i as int) =~= texts(snapshot@));
        assert(set@ =~= texts(snapshot@).to_set());
    }
    set
}

impl MempoolPoller {
    /// A poller that starts from the mempool as it stands: the transactions
    /// of the first snapshot count as known and are never announced. Where
    /// the first snapshot could not be had, nothing is known.
    pub fn new(first_snapshot: Option<&Vec<String>>) -> (poller: MempoolPoller)
        ensures
            poller@ == match first_snapshot {
                Some(snapshot) => texts(snapshot@).to_set(),
                None => Set::<Seq<char>>::empty(),
            },
    {
        match first_snapshot {
            Some(snapshot) => MempoolPoller { known: snapshot_set(snapshot) },
            None => MempoolPoller { known: StringHashSet::new() },
        }
    }

    /// Whether the transaction was in the last snapshot.
    pub fn is_known(&self, txid: &str) -> (known: bool)
        ensures
            known == self@.contains(txid@),
    {
        self.known.contains(txid)
    }

    /// One tick on a fresh snapshot of the mempool. Every transaction that
    /// is new since the last snapshot is announced unless it came from the
    /// bus; afterwards exactly the snapshot is known.
    pub fn tick(&mut self, current: &Vec<String>, origins: &OriginTracker) -> (plan: TickPlan)
        ensures
            texts(plan.to_publish@) == announce_list(texts(current@), old(self)@, origins@),
            texts(plan.skipped_echo@) == echo_list(texts(current@), old(self)@, origins@),
            final(self)@ == texts(current@).to_set(),
    {
        let mut to_publish: Vec<String> = Vec::new();
        let mut skipped_echo: Vec<String> = Vec::new();
        let mut seen = StringHashSet::new();
        let mut i: usize = 0;
        while i < current.len()
            invariant
                i <= current.len(),
                self@ == old(self)@,
                forall|t: Seq<char>|
                    seen@.contains(t) <==> texts(current@).take(i as int).contains(t),
                texts(to_publish@) == announce_list(
                    texts(current@).take(i as int),
                    self@,
                    origins@,
                ),
                texts(skipped_echo@) == echo_list(
                    texts(current@).take(i as int),
                    self@,
                    origins@,
                ),
            decreases current.len() - i,
        {
            let ghost before = texts(current@).take(i as int);
            let ghost after = texts(current@).take(i + 1);
            let ghost published = texts(to_publish@);
            let ghost skipped = texts(skipped_echo@);
            let txid = &current[i];
            proof {
                assert(after.drop_last() =~= before);
                assert(after.last() == txid@);
            }
            if !self.known.contains(txid.as_str()) && !seen.contains(txid.as_str()) {
                if origins.is_remote(txid.as_str()) {
                    skipped_echo.push(txid.clone());
                    proof {
                        assert(texts(skipped_echo@) =~= skipped.push(txid@));
                    }
                } else {
                    to_publish.push(txid.clone());
                    proof {
                        assert(texts(to_publish@) =~= published.push(txid@));
                    }
                }
            }
            let _ = seen.insert(txid.clone());
            proof {
                assert forall|t: Seq<char>| seen@.contains(t) <==> after.contains(t) by {
                    if after.contains(t) {
                        let j = choose|j: int| 0 <= j < after.len() && after[j] == t;
                        if j < i {
                            assert(before[j] == t);
                        }
                    }
                    if before.contains(t) {
                        let j = choose|j: int| 0 <= j < before.len() && before[j] == t;
                        assert(after[j] == t);
                    }
                    assert(after[i as int] == txid@);
                }
            }
            i = i + 1;
        }
        proof {
            assert(texts(current@).take(i as int) =~= texts(current@));
            assert(seen@ =~= texts(current@).to_set());
        }
        self.known = seen;
        TickPlan { to_publish, skipped_echo }
    }
}

/// How often a transaction id stands in a list.
pub open spec fn occurrences(list: Seq<Seq<char>>, txid: Seq<char>) -> nat
    decreases list.len(),
{
    if list.len() == 0 {
        0
    } else {
        occurrences(list.drop_last(), txid) + if list.last() == txid {
            1nat
        } else {
            0nat
        }
    }
}

proof fn occurrences_of_push(list: Seq<Seq<char>>, last: Seq<char>, txid: Seq<char>)
    ensures
        occurrences(list.push(last), txid) == occurrences(list, txid) + if last == txid {
            1nat
        } else {
            0nat
        },
{
    assert(list.push(last).drop_last() =~= list);
}

/// Occurrences add up over a concatenation.
pub proof fn occurrences_of_concat(left: Seq<Seq<char>>, right: Seq<Seq<char>>, txid: Seq<char>)
    ensures
        occurrences(left + right, txid) == occurrences(left, txid) + occurrences(right, txid),
    decreases right.len(),
{
    if right.len() == 0 {
        assert(left + right =~= left);
    } else {
        occurrences_of_concat(left, right.drop_last(), txid);
        assert((left + right).drop_last() =~= left + right.drop_last());
    }
}

/// One tick announces a transaction id once where it is in the snapshot,
/// was not known before and did not come from the bus, and not at all
/// otherwise.
pub proof fn tick_announces_new_local_once(
    snapshot: Seq<Seq<char>>,
    known: Set<Seq<char>>,
    remote: Set<Seq<char>>,
    txid: Seq<char>,
)
    ensures
        occurrences(announce_list(snapshot, known, remote), txid) == if snapshot.contains(txid)
            && !known.contains(txid) && !remote.contains(txid) {
            1nat
        } else {
            0nat
        },
    decreases snapshot.len(),
{
    if snapshot.len() > 0 {
        let earlier = snapshot.drop_last();
        let last = snapshot.last();
        tick_announces_new_local_once(earlier, known, remote, txid);
        occurrences_of_push(announce_list(earlier, known, remote), last, txid);
        assert(snapshot =~= earlier.push(last));
        if earlier.contains(txid) {
            let j = choose|j: int| 0 <= j < earlier.len() && earlier[j] == txid;
            assert(snapshot[j] == txid);
        }
        if snapshot.contains(txid) && last != txid {
            let j = choose|j: int| 0 <= j < snapshot.len() && snapshot[j] == txid;
            assert(earlier[j] == txid);
        }
        if last == txid {
            assert(snapshot[snapshot.len() - 1] == txid);
        }
    }
}

/// A transaction id is in the announcements of a tick exactly where it is
/// in the snapshot, was not known before and did not come from the bus.
pub proof fn announced_iff_new_and_local(
    snapshot: Seq<Seq<char>>,
    known: Set<Seq<char>>,
    remote: Set<Seq<char>>,
    txid: Seq<char>,
)
    ensures
        announce_list(snapshot, known, remote).contains(txid) <==> (snapshot.contains(txid)
            && !known.contains(txid) && !remote.contains(txid)),
    decreases snapshot.len(),
{
    if snapshot.len() > 0 {
        let earlier = snapshot.drop_last();
        let last = snapshot.last();
        let rest = announce_list(earlier, known, remote);
        announced_iff_new_and_local(earlier, known, remote, txid);
        assert(snapshot =~= earlier.push(last));
        if earlier.contains(txid) {
            let j = choose|j: int| 0 <= j < earlier.len() && earlier[j] == txid;
            assert(snapshot[j] == txid);
        }
        if snapshot.contains(txid) && last != txid {
            let j = choose|j: int| 0 <= j < snapshot.len() && snapshot[j] == txid;
            assert(earlier[j] == txid);
        }
        if last == txid {
            assert(snapshot[snapshot.len() - 1] == txid);
        }
        if rest.contains(txid) {
            let j = choose|j: int| 0 <= j < rest.len() && rest[j] == txid;
            assert(rest.push(last)[j] == txid);
        }
        if rest.push(last).contains(txid) && last != txid {
            let j = choose|j: int| 0 <= j < rest.push(last).len() && rest.push(last)[j] == txid;
            assert(rest[j] == txid);
        }
        assert(rest.push(last)[rest.len() as int] == last);
    }
}

/// A transaction that came from the bus is never announced, whatever the
/// snapshot holds and whatever was known.
pub proof fn remote_is_never_announced(
    snapshot: Seq<Seq<char>>,
    known: Set<Seq<char>>,
    remote: Set<Seq<char>>,
    txid: Seq<char>,
)
    requires
        remote.contains(txid),
    ensures
        !announce_list(snapshot, known, remote).contains(txid),
        occurrences(announce_list(snapshot, known, remote), txid) == 0,
{
    announced_iff_new_and_local(snapshot, known, remote, txid);
    tick_announces_new_local_once(snapshot, known, remote, txid);
}

/// What a tick announces is not announced again by the next tick: it is
/// known by then.
pub proof fn next_tick_is_silent_on_known(
    first: Seq<Seq<char>>,
    second: Seq<Seq<char>>,
    remote: Set<Seq<char>>,
    txid: Seq<char>,
)
    requires
        first.contains(txid),
    ensures
        !announce_list(second, first.to_set(), remote).contains(txid),
{
    announced_iff_new_and_local(second, first.to_set(), remote, txid);
}

/// After a tick the poller knows exactly the snapshot: a transaction that
/// has left the mempool is forgotten within that tick, and one that is in
/// it is known.
pub proof fn known_is_last_snapshot(snapshot: Seq<Seq<char>>, txid: Seq<char>)
    ensures
        snapshot.to_set().contains(txid) <==> snapshot.contains(txid),
{
}

/// A transaction id is among the skipped echoes of a tick exactly where it
/// is in the snapshot, was not known before and came from the bus. So every
/// new transaction is either announced or skipped, and none is both.
pub proof fn skipped_iff_new_and_remote(
    snapshot: Seq<Seq<char>>,
    known: Set<Seq<char>>,
    remote: Set<Seq<char>>,
    txid: Seq<char>,
)
    ensures
        echo_list(snapshot, known, remote).contains(txid) <==> (snapshot.contains(txid)
            && !known.contains(txid) && remote.contains(txid)),
    decreases snapshot.len(),
{
    if snapshot.len() > 0 {
        let earlier = snapshot.drop_last();
        let last = snapshot.last();
        let rest = echo_list(earlier, known, remote);
        skipped_iff_new_and_remote(earlier, known, remote, txid);
        assert(snapshot =~= earlier.push(last));
        if earlier.contains(txid) {
            let j = choose|j: int| 0 <= j < earlier.len() && earlier[j] == txid;
            assert(snapshot[j] == txid);
        }
        if snapshot.contains(txid) && last != txid {
            let j = choose|j: int| 0 <= j < snapshot.len() && snapshot[j] == txid;
            assert(earlier[j] == txid);
        }
        if last == txid {
            assert(snapshot[snapshot.len() - 1] == txid);
        }
        if rest.contains(txid) {
            let j = choose|j: int| 0 <= j < rest.len() && rest[j] == txid;
            assert(rest.push(last)[j] == txid);
        }
        if rest.push(last).contains(txid) && last != txid {
            let j = choose|j: int| 0 <= j < rest.push(last).len() && rest.push(last)[j] == txid;
            assert(rest[j] == txid);
        }
        assert(rest.push(last)[rest.len() as int] == last);
    }
}

} // verus!
