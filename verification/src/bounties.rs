//! Bounties and their claims: slots, deadlines, and the release of
//! claims. A claim is live up to and at its deadline; past the deadline it
//! is void from the moment it is looked at, and nothing sweeps such claims
//! away.

use vstd::prelude::*;
use crate::proposals::proposal_added;
use crate::proposals::ProposalInput;
use crate::proposals::ProposalKind;
use crate::types::DaoError;
use crate::types::Env;
use crate::types::KindLabel;
use crate::Contract;
use crate::ContractData;

verus! {

/// A unit of work that the organization pays for.
pub struct Bounty {
    pub id: u64,
    pub description: String,
    /// Token of the payout; empty for the base token.
    pub token: String,
    /// Amount paid for each completion.
    pub amount: u128,
    /// Number of claims that may be live at a time.
    pub times: u32,
    /// Time a claimer has from the claim to the deadline.
    pub max_deadline_duration: u64,
}

/// Mathematical content of a [`Bounty`].
pub struct BountyView {
    pub id: u64,
    pub description: Seq<char>,
    pub token: Seq<char>,
    pub amount: u128,
    pub times: u32,
    pub max_deadline_duration: u64,
}

impl View for Bounty {
    type V = BountyView;

    open spec fn view(&self) -> BountyView {
        BountyView {
            id: self.id,
            description: self.description@,
            token: self.token@,
            amount: self.amount,
            times: self.times,
            max_deadline_duration: self.max_deadline_duration,
        }
    }
}

/// A slot of a bounty held by a claimer from `start_time` until
/// `deadline`.
pub struct BountyClaim {
    pub bounty_id: u64,
    pub claimer: String,
    pub start_time: u64,
    pub deadline: u64,
}

/// What a claimer gets back for a claim: the bounty and the times between
/// which the slot is held.
#[derive(Clone, Copy, Debug, PartialEq, Eq, Structural)]
pub struct ClaimHandle {
    pub bounty_id: u64,
    pub start_time: u64,
    pub deadline: u64,
}

/// The bounties, each at the position of its id, and the claims on them
/// in the order in which they were made.
pub struct BountyBoard {
    pub bounties: Vec<Bounty>,
    pub claims: Vec<BountyClaim>,
}

/// Number of the claims of which `p` holds.
pub open spec fn count(claims: Seq<BountyClaim>, p: spec_fn(BountyClaim) -> bool) -> nat
    decreases claims.len(),
{
    if claims.len() == 0 {
        0
    } else {
        count(claims.drop_last(), p) + if p(claims.last()) {
            1nat
        } else {
            0nat
        }
    }
}

/// The claims on the bounty that are live at `now`: not yet past their
/// deadline.
pub open spec fn live_on(bounty_id: u64, now: u64) -> spec_fn(BountyClaim) -> bool {
    |c: BountyClaim| c.bounty_id == bounty_id && now <= c.deadline
}

/// The claims of the claimer, on any bounty, that are live at `now`.
pub open spec fn live_of(claimer: Seq<char>, now: u64) -> spec_fn(BountyClaim) -> bool {
    |c: BountyClaim| c.claimer@ == claimer && now <= c.deadline
}

/// The claims on the bounty that hold a slot at the time `t`: made by
/// then and not yet past their deadline.
pub open spec fn holding(bounty_id: u64, t: u64) -> spec_fn(BountyClaim) -> bool {
    |c: BountyClaim| c.bounty_id == bounty_id && c.start_time <= t <= c.deadline
}

/// The claims of the claimer on the bounty that are live at `now`.
pub open spec fn live_claim_of(claimer: Seq<char>, bounty_id: u64, now: u64) -> spec_fn(
    BountyClaim,
) -> bool {
    |c: BountyClaim| c.bounty_id == bounty_id && c.claimer@ == claimer && now <= c.deadline
}

/// Position of the first claim from `from` on of which `p` holds, or the
/// number of claims where there is none.
pub open spec fn first_claim(claims: Seq<BountyClaim>, p: spec_fn(BountyClaim) -> bool, from: int) -> int
    decreases claims.len() - from,
{
    if from < 0 || from >= claims.len() {
        claims.len() as int
    } else if p(claims[from]) {
        from
    } else {
        first_claim(claims, p, from + 1)
    }
}

/// Position of the last of the first `n` claims of which `p` holds, or -1
/// where there is none.
pub open spec fn last_claim(claims: Seq<BountyClaim>, p: spec_fn(BountyClaim) -> bool, n: int) -> int
    decreases n,
{
    if n <= 0 {
        -1
    } else if p(claims[n - 1]) {
        n - 1
    } else {
        last_claim(claims, p, n - 1)
    }
}

/// One more claim adds one to the count if the predicate holds of it.
pub proof fn lemma_count_push(claims: Seq<BountyClaim>, c: BountyClaim, p: spec_fn(BountyClaim) -> bool)
    ensures
        count(claims.push(c), p) == count(claims, p) + if p(c) {
            1nat
        } else {
            0nat
        },
{
    assert(claims.push(c).drop_last() == claims);
}

/// A claim taken out takes one from the count if the predicate holds of
/// it.
pub proof fn lemma_count_remove(claims: Seq<BountyClaim>, i: int, p: spec_fn(BountyClaim) -> bool)
    requires
        0 <= i < claims.len(),
    ensures
        count(claims.remove(i), p) + (if p(claims[i]) {
            1nat
        } else {
            0nat
        }) == count(claims, p),
    decreases claims.len(),
{
    if i == claims.len() - 1 {
        assert(claims.remove(i) == claims.drop_last());
    } else {
        assert(claims.remove(i).drop_last() == claims.drop_last().remove(i));
        assert(claims.remove(i).last() == claims.last());
        lemma_count_remove(claims.drop_last(), i, p);
    }
}

/// A predicate that holds of no more claims than another counts no more.
pub proof fn lemma_count_le(
    claims: Seq<BountyClaim>,
    p: spec_fn(BountyClaim) -> bool,
    q: spec_fn(BountyClaim) -> bool,
)
    requires
        forall|i: int| 0 <= i < claims.len() ==> (p(#[trigger] claims[i]) ==> q(claims[i])),
    ensures
        count(claims, p) <= count(claims, q),
    decreases claims.len(),
{
    if claims.len() > 0 {
        assert forall|i: int| 0 <= i < claims.drop_last().len() && p(
            #[trigger] claims.drop_last()[i],
        ) implies q(claims.drop_last()[i]) by {
            assert(claims.drop_last()[i] == claims[i]);
        }
        lemma_count_le(claims.drop_last(), p, q);
    }
}

/// A predicate that holds of nothing counts nothing.
pub proof fn lemma_count_none(claims: Seq<BountyClaim>)
    ensures
        count(claims, |c: BountyClaim| false) == 0,
    decreases claims.len(),
{
    if claims.len() > 0 {
        lemma_count_none(claims.drop_last());
    }
}

/// The position of `last_claim` is that of a claim of which `p` holds,
/// and no later one among the first `n` has it.
pub proof fn lemma_last_claim(claims: Seq<BountyClaim>, p: spec_fn(BountyClaim) -> bool, n: int)
    requires
        0 <= n <= claims.len(),
    ensures
        -1 <= last_claim(claims, p, n) < n,
        last_claim(claims, p, n) >= 0 ==> p(claims[last_claim(claims, p, n)]),
        forall|k: int| last_claim(claims, p, n) < k < n ==> !p(#[trigger] claims[k]),
    decreases n,
{
    if n > 0 && !p(claims[n - 1]) {
        lemma_last_claim(claims, p, n - 1);
    }
}

/// Giving up undoes the claim just made: where an actor claims a slot
/// and gives it up at the same time, the claims are as they were before,
/// so that every count of live claims is as before and any claim is
/// refused or not as it would have been.
pub proof fn lemma_unclaim_undoes_claim(claims: Seq<BountyClaim>, made: BountyClaim, now: u64)
    requires
        made.start_time == now,
        now <= made.deadline,
    ensures
        last_claim(
            claims.push(made),
            live_claim_of(made.claimer@, made.bounty_id, now),
            claims.len() as int + 1,
        ) == claims.len(),
        claims.push(made).remove(claims.len() as int) == claims,
{
}

/// What a claim hands back to its claimer.
pub open spec fn handle_of(c: BountyClaim) -> ClaimHandle {
    ClaimHandle { bounty_id: c.bounty_id, start_time: c.start_time, deadline: c.deadline }
}

/// The bounty as it is stored under the id.
pub open spec fn with_id(b: BountyView, id: u64) -> BountyView {
    BountyView {
        id,
        description: b.description,
        token: b.token,
        amount: b.amount,
        times: b.times,
        max_deadline_duration: b.max_deadline_duration,
    }
}

/// At a time that no claim on the board was made after, a bounty has no
/// more live claims than it has slots.
pub proof fn lemma_live_within_slots(board: BountyBoard, bounty_id: u64, now: u64)
    requires
        board.wf(),
        bounty_id < board.bounties.len(),
        forall|j: int| 0 <= j < board.claims.len() ==> (#[trigger] board.claims@[j]).start_time <= now,
    ensures
        count(board.claims@, live_on(bounty_id, now)) <= board.bounties@[bounty_id as int].times,
{
    lemma_count_le(board.claims@, live_on(bounty_id, now), holding(bounty_id, now));
    assert(count(board.claims@, holding(bounty_id, now)) <= board.bounties@[bounty_id as int].times);
}

/// Among the first `n` claims, the position of one that holds a slot of
/// the bounty at `t` and was made last of those, or -1 where none of them
/// holds a slot.
pub open spec fn latest_holder(claims: Seq<BountyClaim>, bounty_id: u64, t: u64, n: int) -> int
    decreases n,
{
    if n <= 0 {
        -1
    } else {
        let before = latest_holder(claims, bounty_id, t, n - 1);
        if holding(bounty_id, t)(claims[n - 1]) && (before < 0 || claims[n - 1].start_time
            >= claims[before].start_time) {
            n - 1
        } else {
            before
        }
    }
}

/// The latest holder holds a slot, and no holder among the first `n`
/// claims was made after it.
pub proof fn lemma_latest_holder(claims: Seq<BountyClaim>, bounty_id: u64, t: u64, n: int)
    requires
        0 <= n <= claims.len(),
    ensures
        -1 <= latest_holder(claims, bounty_id, t, n) < n,
        latest_holder(claims, bounty_id, t, n) >= 0 ==> holding(bounty_id, t)(
            claims[latest_holder(claims, bounty_id, t, n)],
        ),
        forall|k: int|
            0 <= k < n && holding(bounty_id, t)(#[trigger] claims[k]) ==> latest_holder(
                claims,
                bounty_id,
                t,
                n,
            ) >= 0 && claims[k].start_time <= claims[latest_holder(
                claims,
                bounty_id,
                t,
                n,
            )].start_time,
    decreases n,
{
    if n > 0 {
        lemma_latest_holder(claims, bounty_id, t, n - 1);
    }
}

/// The slots of a bounty are never more in use than at the moment one of
/// the claims on it is made: where the slots suffice at the start of
/// every claim, they suffice at every time.
pub proof fn lemma_peak_at_a_start(claims: Seq<BountyClaim>, bounty_id: u64, t: u64, times: u32)
    requires
        forall|j: int|
            0 <= j < claims.len() && (#[trigger] claims[j]).bounty_id == bounty_id ==> count(
                claims,
                holding(bounty_id, claims[j].start_time),
            ) <= times,
    ensures
        count(claims, holding(bounty_id, t)) <= times,
{
    let n = claims.len() as int;
    lemma_latest_holder(claims, bounty_id, t, n);
    let j = latest_holder(claims, bounty_id, t, n);
    if j < 0 {
        lemma_count_le(claims, holding(bounty_id, t), |c: BountyClaim| false);
        lemma_count_none(claims);
    } else {
        assert(claims[j].bounty_id == bounty_id);
        lemma_count_le(claims, holding(bounty_id, t), holding(bounty_id, claims[j].start_time));
    }
}

impl BountyBoard {
    /// The board is in order: each bounty stands at the position of its
    /// id, each claim is on a bounty of the board, and at no time does a
    /// bounty have more slots held than it has.
    pub open spec fn wf(&self) -> bool {
        &&& self.bounties.len() <= u64::MAX
        &&& forall|i: int| 0 <= i < self.bounties.len() ==> (#[trigger] self.bounties@[i]).id == i
        &&& forall|j: int|
            0 <= j < self.claims.len() ==> (#[trigger] self.claims@[j]).bounty_id
                < self.bounties.len()
        &&& forall|b: u64, t: u64|
            b < self.bounties.len() ==> #[trigger] count(self.claims@, holding(b, t))
                <= self.bounties@[b as int].times
    }

    /// Slots of the bounty that are free at `now`.
    pub open spec fn free_slots(&self, bounty_id: u64, now: u64) -> nat {
        let live = count(self.claims@, live_on(bounty_id, now));
        let times = self.bounties@[bounty_id as int].times as nat;
        if live >= times {
            0
        } else {
            (times - live) as nat
        }
    }

    /// Why a claim of the actor on the bounty at `now` is refused, if it
    /// is: the bounty is missing; the actor holds as many live claims as
    /// one actor may; every slot is held by a live claim; the deadline
    /// would lie beyond the end of time.
    pub open spec fn claim_refusal(&self, actor: Seq<char>, bounty_id: u64, now: u64, max_claims: u32) -> Option<
        DaoError,
    > {
        if bounty_id >= self.bounties.len() {
            Some(DaoError::BountyNotFound)
        } else if count(self.claims@, live_of(actor, now)) >= max_claims {
            Some(DaoError::AlreadyMaxClaims)
        } else if count(self.claims@, live_on(bounty_id, now))
            >= self.bounties@[bounty_id as int].times {
            Some(DaoError::NoSlotsAvailable)
        } else if now + self.bounties@[bounty_id as int].max_deadline_duration > u64::MAX {
            Some(DaoError::AccountingCorruption)
        } else {
            None
        }
    }

    /// A board without bounties.
    pub fn new() -> (board: BountyBoard)
        ensures
            board.wf(),
            board.bounties@.len() == 0,
            board.claims@.len() == 0,
    {
        BountyBoard { bounties: Vec::new(), claims: Vec::new() }
    }

    /// Number of claims on the bounty that are live at `now`.
    pub fn live_claims(&self, bounty_id: u64, now: u64) -> (n: usize)
        ensures
            n == count(self.claims@, live_on(bounty_id, now)),
    {
        let mut n: usize = 0;
        let mut i: usize = 0;
        while i < self.claims.len()
            invariant
                i <= self.claims.len(),
                n <= i,
                n == count(self.claims@.take(i as int), live_on(bounty_id, now)),
            decreases self.claims.len() - i,
        {
            assert(self.claims@.take(i + 1).drop_last() == self.claims@.take(i as int));
            if self.claims[i].bounty_id == bounty_id && now <= self.claims[i].deadline {
                n = n + 1;
            }
            i = i + 1;
        }
        assert(self.claims@.take(self.claims.len() as int) == self.claims@);
        n
    }

    /// Number of claims of the actor, on any bounty, that are live at
    /// `now`.
    pub fn live_claims_of(&self, actor: &String, now: u64) -> (n: usize)
        ensures
            n == count(self.claims@, live_of(actor@, now)),
    {
        let mut n: usize = 0;
        let mut i: usize = 0;
        while i < self.claims.len()
            invariant
                i <= self.claims.len(),
                n <= i,
                n == count(self.claims@.take(i as int), live_of(actor@, now)),
            decreases self.claims.len() - i,
        {
            assert(self.claims@.take(i + 1).drop_last() == self.claims@.take(i as int));
            if self.claims[i].claimer == *actor && now <= self.claims[i].deadline {
                n = n + 1;
            }
            i = i + 1;
        }
        assert(self.claims@.take(self.claims.len() as int) == self.claims@);
        n
    }
}

impl Bounty {
    /// A bounty of its own with the same content.
    pub fn duplicate(&self) -> (b: Bounty)
        ensures
            b@ == self@,
    {
        Bounty {
            id: self.id,
            description: self.description.clone(),
            token: self.token.clone(),
            amount: self.amount,
            times: self.times,
            max_deadline_duration: self.max_deadline_duration,
        }
    }
}

impl BountyBoard {
    /// Position of the actor's last claim on the bounty that is live at
    /// `now`, or `None` where there is none.
    pub fn find_last_live_claim(&self, actor: &String, bounty_id: u64, now: u64) -> (r: Option<usize>)
        ensures
            match r {
                Some(i) => i == last_claim(
                    self.claims@,
                    live_claim_of(actor@, bounty_id, now),
                    self.claims.len() as int,
                ) && i < self.claims.len(),
                None => last_claim(
                    self.claims@,
                    live_claim_of(actor@, bounty_id, now),
                    self.claims.len() as int,
                ) == -1,
            },
    {
        let mut n: usize = self.claims.len();
        while n > 0
            invariant
                n <= self.claims.len(),
                last_claim(
                    self.claims@,
                    live_claim_of(actor@, bounty_id, now),
                    self.claims.len() as int,
                ) == last_claim(self.claims@, live_claim_of(actor@, bounty_id, now), n as int),
            decreases n,
        {
            let c: &BountyClaim = &self.claims[n - 1];
            if c.bounty_id == bounty_id && c.claimer == *actor && now <= c.deadline {
                return Some(n - 1);
            }
            n = n - 1;
        }
        None
    }

    /// Position of the actor's first claim on the bounty that is live at
    /// `now`, or the number of claims where there is none.
    pub fn find_live_claim(&self, actor: &String, bounty_id: u64, now: u64) -> (i: usize)
        ensures
            i == first_claim(self.claims@, live_claim_of(actor@, bounty_id, now), 0),
            i <= self.claims.len(),
    {
        let mut i: usize = 0;
        while i < self.claims.len()
            invariant
                i <= self.claims.len(),
                first_claim(self.claims@, live_claim_of(actor@, bounty_id, now), 0) == first_claim(
                    self.claims@,
                    live_claim_of(actor@, bounty_id, now),
                    i as int,
                ),
            decreases self.claims.len() - i,
        {
            if self.claims[i].bounty_id == bounty_id && self.claims[i].claimer == *actor && now
                <= self.claims[i].deadline {
                return i;
            }
            i = i + 1;
        }
        i
    }

    /// Slots of the bounty that are free at `now`; `None` where there is
    /// no such bounty. Claims past their deadline hold no slot.
    pub fn slots_left(&self, bounty_id: u64, now: u64) -> (r: Option<u32>)
        requires
            self.wf(),
        ensures
            match r {
                Some(n) => bounty_id < self.bounties.len() && n == self.free_slots(bounty_id, now),
                None => bounty_id >= self.bounties.len(),
            },
    {
        if bounty_id >= self.bounties.len() as u64 {
            return None;
        }
        let times: u32 = self.bounties[bounty_id as usize].times;
        let live: usize = self.live_claims(bounty_id, now);
        if live >= times as usize {
            Some(0)
        } else {
            Some(times - live as u32)
        }
    }

    /// Claims a slot of the bounty for the actor at `now`, with the
    /// bounty's duration from `now` as the deadline. The claim is refused,
    /// and the board left as it is, exactly where `claim_refusal` says so.
    pub fn claim(&mut self, actor: String, bounty_id: u64, now: u64, max_claims: u32) -> (r: Result<
        ClaimHandle,
        DaoError,
    >)
        requires
            old(self).wf(),
        ensures
            final(self).wf(),
            final(self).bounties == old(self).bounties,
            match r {
                Ok(h) => {
                    &&& old(self).claim_refusal(actor@, bounty_id, now, max_claims).is_none()
                    &&& h.bounty_id == bounty_id
                    &&& h.start_time == now
                    &&& h.deadline == now + old(self).bounties@[bounty_id as int].max_deadline_duration
                    &&& final(self).claims@ == old(self).claims@.push(
                        BountyClaim {
                            bounty_id,
                            claimer: actor,
                            start_time: now,
                            deadline: h.deadline,
                        },
                    )
                },
                Err(e) => {
                    &&& old(self).claim_refusal(actor@, bounty_id, now, max_claims) == Some(e)
                    &&& *final(self) == *old(self)
                },
            },
    {
        if bounty_id >= self.bounties.len() as u64 {
            return Err(DaoError::BountyNotFound);
        }
        if self.live_claims_of(&actor, now) >= max_claims as usize {
            return Err(DaoError::AlreadyMaxClaims);
        }
        let times: u32 = self.bounties[bounty_id as usize].times;
        if self.live_claims(bounty_id, now) >= times as usize {
            return Err(DaoError::NoSlotsAvailable);
        }
        let deadline: u64 = match now.checked_add(self.bounties[bounty_id as usize].max_deadline_duration) {
            Some(d) => d,
            None => {
                return Err(DaoError::AccountingCorruption);
            },
        };
        let claim: BountyClaim = BountyClaim { bounty_id, claimer: actor, start_time: now, deadline };
        let ghost before = self.claims@;
        self.claims.push(claim);
        proof {
            assert forall|b: u64, t: u64| b < self.bounties.len() implies #[trigger] count(
                self.claims@,
                holding(b, t),
            ) <= self.bounties@[b as int].times by {
                lemma_count_push(before, claim, holding(b, t));
                assert(count(before, holding(b, t)) <= self.bounties@[b as int].times);
                if holding(b, t)(claim) {
                    lemma_count_le(before, holding(b, t), live_on(bounty_id, now));
                }
            }
        }
        Ok(ClaimHandle { bounty_id, start_time: now, deadline })
    }

    /// Gives up the actor's claim on the bounty that is live at `now`,
    /// the one made last where there are several, and frees its slot at
    /// once: the bounty and the actor each have one live claim less, so
    /// that an actor with one live claim on the bounty has none left.
    /// Fails with `ClaimNotFound` exactly where the actor has no live
    /// claim on the bounty.
    pub fn unclaim(&mut self, actor: &String, bounty_id: u64, now: u64) -> (r: Result<ClaimHandle, DaoError>)
        requires
            old(self).wf(),
        ensures
            final(self).wf(),
            final(self).bounties == old(self).bounties,
            match r {
                Ok(h) => {
                    let i = last_claim(
                        old(self).claims@,
                        live_claim_of(actor@, bounty_id, now),
                        old(self).claims.len() as int,
                    );
                    &&& 0 <= i < old(self).claims.len()
                    &&& h == handle_of(old(self).claims@[i])
                    &&& final(self).claims@ == old(self).claims@.remove(i)
                    &&& count(final(self).claims@, live_on(bounty_id, now)) + 1 == count(
                        old(self).claims@,
                        live_on(bounty_id, now),
                    )
                    &&& count(final(self).claims@, live_of(actor@, now)) + 1 == count(
                        old(self).claims@,
                        live_of(actor@, now),
                    )
                    &&& count(final(self).claims@, live_claim_of(actor@, bounty_id, now)) + 1
                        == count(old(self).claims@, live_claim_of(actor@, bounty_id, now))
                },
                Err(e) => {
                    &&& e == DaoError::ClaimNotFound
                    &&& last_claim(
                        old(self).claims@,
                        live_claim_of(actor@, bounty_id, now),
                        old(self).claims.len() as int,
                    ) == -1
                    &&& *final(self) == *old(self)
                },
            },
    {
        let i: usize = match self.find_last_live_claim(actor, bounty_id, now) {
            Some(i) => i,
            None => {
                return Err(DaoError::ClaimNotFound);
            },
        };
        proof {
            lemma_last_claim(self.claims@, live_claim_of(actor@, bounty_id, now), self.claims.len() as int);
            lemma_count_remove(self.claims@, i as int, live_on(bounty_id, now));
            lemma_count_remove(self.claims@, i as int, live_of(actor@, now));
            lemma_count_remove(self.claims@, i as int, live_claim_of(actor@, bounty_id, now));
        }
        Ok(self.release(i))
    }

    /// Takes the actor's first claim on the bounty that is live at `now`
    /// off the board, for its work to be handed in. Fails with
    /// `ClaimNotFound` exactly where the actor has no live claim on the
    /// bounty.
    pub fn take_live_claim(&mut self, actor: &String, bounty_id: u64, now: u64) -> (r: Result<
        ClaimHandle,
        DaoError,
    >)
        requires
            old(self).wf(),
        ensures
            final(self).wf(),
            final(self).bounties == old(self).bounties,
            match r {
                Ok(h) => {
                    let i = first_claim(old(self).claims@, live_claim_of(actor@, bounty_id, now), 0);
                    &&& i < old(self).claims.len()
                    &&& h == handle_of(old(self).claims@[i])
                    &&& final(self).claims@ == old(self).claims@.remove(i)
                },
                Err(e) => {
                    &&& e == DaoError::ClaimNotFound
                    &&& first_claim(old(self).claims@, live_claim_of(actor@, bounty_id, now), 0)
                        == old(self).claims.len()
                    &&& *final(self) == *old(self)
                },
            },
    {
        let i: usize = self.find_live_claim(actor, bounty_id, now);
        if i >= self.claims.len() {
            return Err(DaoError::ClaimNotFound);
        }
        Ok(self.release(i))
    }

    /// Takes the claim at position `i` off the board.
    pub(crate) fn release(&mut self, i: usize) -> (h: ClaimHandle)
        requires
            old(self).wf(),
            i < old(self).claims.len(),
        ensures
            final(self).wf(),
            final(self).bounties == old(self).bounties,
            h == handle_of(old(self).claims@[i as int]),
            final(self).claims@ == old(self).claims@.remove(i as int),
    {
        let ghost before = self.claims@;
        let gone: BountyClaim = self.claims.remove(i);
        proof {
            assert forall|b: u64, t: u64| b < self.bounties.len() implies #[trigger] count(
                self.claims@,
                holding(b, t),
            ) <= self.bounties@[b as int].times by {
                lemma_count_remove(before, i as int, holding(b, t));
                assert(count(before, holding(b, t)) <= self.bounties@[b as int].times);
            }
        }
        ClaimHandle { bounty_id: gone.bounty_id, start_time: gone.start_time, deadline: gone.deadline }
    }

    /// Opens a bounty under the next free id and returns the id. Fails
    /// with `AccountingCorruption` only where the ids have run out.
    pub fn add_bounty(&mut self, bounty: Bounty) -> (r: Result<u64, DaoError>)
        requires
            old(self).wf(),
        ensures
            final(self).wf(),
            final(self).claims == old(self).claims,
            match r {
                Ok(id) => {
                    &&& id == old(self).bounties.len()
                    &&& final(self).bounties@.len() == old(self).bounties.len() + 1
                    &&& final(self).bounties@.drop_last() == old(self).bounties@
                    &&& final(self).bounties@.last()@ == with_id(bounty@, id)
                },
                Err(e) => {
                    &&& e == DaoError::AccountingCorruption
                    &&& old(self).bounties.len() >= u64::MAX
                    &&& *final(self) == *old(self)
                },
            },
    {
        if self.bounties.len() as u64 >= u64::MAX {
            return Err(DaoError::AccountingCorruption);
        }
        let id: u64 = self.bounties.len() as u64;
        let Bounty { id: _, description, token, amount, times, max_deadline_duration } = bounty;
        let ghost before = self.bounties@;
        self.bounties.push(Bounty { id, description, token, amount, times, max_deadline_duration });
        proof {
            assert(self.bounties@.drop_last() == before);
            assert forall|b: u64, t: u64| b < self.bounties.len() implies #[trigger] count(
                self.claims@,
                holding(b, t),
            ) <= self.bounties@[b as int].times by {
                if b < before.len() {
                    assert(count(self.claims@, holding(b, t)) <= before[b as int].times);
                } else {
                    lemma_count_le(self.claims@, holding(b, t), |c: BountyClaim| false);
                    lemma_count_none(self.claims@);
                }
            }
        }
        Ok(id)
    }

    /// Number of claims that hold a slot of the bounty at the time `t`.
    pub fn holders(&self, bounty_id: u64, t: u64) -> (n: usize)
        ensures
            n == count(self.claims@, holding(bounty_id, t)),
    {
        let mut n: usize = 0;
        let mut i: usize = 0;
        while i < self.claims.len()
            invariant
                i <= self.claims.len(),
                n <= i,
                n == count(self.claims@.take(i as int), holding(bounty_id, t)),
            decreases self.claims.len() - i,
        {
            assert(self.claims@.take(i + 1).drop_last() == self.claims@.take(i as int));
            let c: &BountyClaim = &self.claims[i];
            if c.bounty_id == bounty_id && c.start_time <= t && t <= c.deadline {
                n = n + 1;
            }
            i = i + 1;
        }
        assert(self.claims@.take(self.claims.len() as int) == self.claims@);
        n
    }

    /// Whether the board is in order.
    pub fn check(&self) -> (ok: bool)
        ensures
            ok == self.wf(),
    {
        let mut i: usize = 0;
        while i < self.bounties.len()
            invariant
                i <= self.bounties.len(),
                forall|k: int| 0 <= k < i ==> (#[trigger] self.bounties@[k]).id == k,
            decreases self.bounties.len() - i,
        {
            if self.bounties[i].id != i as u64 {
                return false;
            }
            i = i + 1;
        }
        let mut j: usize = 0;
        while j < self.claims.len()
            invariant
                j <= self.claims.len(),
                self.bounties.len() <= u64::MAX,
                forall|k: int| 0 <= k < self.bounties.len() ==> (#[trigger] self.bounties@[k]).id == k,
                forall|k: int|
                    0 <= k < j ==> (#[trigger] self.claims@[k]).bounty_id < self.bounties.len(),
                forall|k: int|
                    0 <= k < j ==> count(
                        self.claims@,
                        holding((#[trigger] self.claims@[k]).bounty_id, self.claims@[k].start_time),
                    ) <= self.bounties@[self.claims@[k].bounty_id as int].times,
            decreases self.claims.len() - j,
        {
            let bounty_id: u64 = self.claims[j].bounty_id;
            if bounty_id >= self.bounties.len() as u64 {
                return false;
            }
            let start: u64 = self.claims[j].start_time;
            if self.holders(bounty_id, start) > self.bounties[bounty_id as usize].times as usize {
                assert(count(self.claims@, holding(bounty_id, start)) > self.bounties@[bounty_id as int].times);
                return false;
            }
            j = j + 1;
        }
        proof {
            assert forall|b: u64, t: u64| b < self.bounties.len() implies #[trigger] count(
                self.claims@,
                holding(b, t),
            ) <= self.bounties@[b as int].times by {
                lemma_peak_at_a_start(self.claims@, b, t, self.bounties@[b as int].times);
            }
        }
        true
    }
}

/// Whether the two states differ in nothing but the board.
pub open spec fn same_but_board(a: ContractData, b: ContractData) -> bool {
    &&& a.config == b.config
    &&& a.policy == b.policy
    &&& a.proposals == b.proposals
    &&& a.blobs == b.blobs
    &&& a.locked_amount == b.locked_amount
}

/// Why handing in the work on a bounty is refused, if it is: the caller
/// has no live claim on the bounty, or the proposal for the payout is
/// refused.
pub open spec fn complete_refusal(state: ContractData, env: Env, bounty_id: u64) -> Option<DaoError> {
    if first_claim(state.board.claims@, live_claim_of(env.actor@, bounty_id, env.now), 0)
        >= state.board.claims.len() {
        Some(DaoError::ClaimNotFound)
    } else {
        state.submit_refusal(env, KindLabel::BountyDone)
    }
}

impl Contract {
    /// Claims a slot of the bounty for the caller, with the bounty's
    /// duration from now as the deadline. Claims past their deadline
    /// count neither against the bounty's slots nor against the caller's
    /// limit. Refused, with the state left as it is, exactly where
    /// `claim_refusal` says so.
    pub fn claim_bounty(&mut self, env: &Env, bounty_id: u64) -> (r: Result<ClaimHandle, DaoError>)
        requires
            old(self).wf(),
        ensures
            final(self).wf(),
            same_but_board(old(self).state(), final(self).state()),
            final(self).state().board.bounties == old(self).state().board.bounties,
            match r {
                Ok(h) => {
                    let board = old(self).state().board;
                    &&& board.claim_refusal(
                        env.actor@,
                        bounty_id,
                        env.now,
                        old(self).state().config.max_claims_per_actor,
                    ).is_none()
                    &&& h.bounty_id == bounty_id
                    &&& h.start_time == env.now
                    &&& h.deadline == env.now + board.bounties@[bounty_id as int].max_deadline_duration
                    &&& final(self).state().board.claims@ == board.claims@.push(
                        BountyClaim {
                            bounty_id,
                            claimer: env.actor,
                            start_time: env.now,
                            deadline: h.deadline,
                        },
                    )
                },
                Err(e) => {
                    &&& old(self).state().board.claim_refusal(
                        env.actor@,
                        bounty_id,
                        env.now,
                        old(self).state().config.max_claims_per_actor,
                    ) == Some(e)
                    &&& *final(self) == *old(self)
                },
            },
    {
        let data: &mut ContractData = self.data_mut();
        let max_claims: u32 = data.config.max_claims_per_actor;
        data.board.claim(env.actor.clone(), bounty_id, env.now, max_claims)
    }

    /// Gives up the caller's claim on the bounty that is live now, the
    /// one made last where there are several, and frees its slot at once:
    /// the bounty and the caller each have one live claim less, so that
    /// a caller with one live claim on the bounty has none left. Fails
    /// with `ClaimNotFound`, with the state left as it is, exactly where
    /// the caller has no live claim on the bounty.
    pub fn unclaim_bounty(&mut self, env: &Env, bounty_id: u64) -> (r: Result<ClaimHandle, DaoError>)
        requires
            old(self).wf(),
        ensures
            final(self).wf(),
            same_but_board(old(self).state(), final(self).state()),
            final(self).state().board.bounties == old(self).state().board.bounties,
            match r {
                Ok(h) => {
                    let claims = old(self).state().board.claims@;
                    let i = last_claim(
                        claims,
                        live_claim_of(env.actor@, bounty_id, env.now),
                        claims.len() as int,
                    );
                    &&& 0 <= i < claims.len()
                    &&& h == handle_of(claims[i])
                    &&& final(self).state().board.claims@ == claims.remove(i)
                    &&& count(final(self).state().board.claims@, live_on(bounty_id, env.now)) + 1
                        == count(claims, live_on(bounty_id, env.now))
                    &&& count(final(self).state().board.claims@, live_of(env.actor@, env.now)) + 1
                        == count(claims, live_of(env.actor@, env.now))
                    &&& count(
                        final(self).state().board.claims@,
                        live_claim_of(env.actor@, bounty_id, env.now),
                    ) + 1 == count(claims, live_claim_of(env.actor@, bounty_id, env.now))
                },
                Err(e) => {
                    let claims = old(self).state().board.claims@;
                    &&& e == DaoError::ClaimNotFound
                    &&& last_claim(
                        claims,
                        live_claim_of(env.actor@, bounty_id, env.now),
                        claims.len() as int,
                    ) == -1
                    &&& *final(self) == *old(self)
                },
            },
    {
        let data: &mut ContractData = self.data_mut();
        data.board.unclaim(&env.actor, bounty_id, env.now)
    }

    /// Hands in the caller's work on the bounty: the caller's first live
    /// claim on it comes off the board, and a `BountyDone` proposal for
    /// the payout to the caller is submitted, whose id is returned.
    /// Refused, with the state left as it is, exactly where
    /// `complete_refusal` says so.
    pub fn complete_bounty(&mut self, env: &Env, bounty_id: u64, description: String) -> (r: Result<
        u64,
        DaoError,
    >)
        requires
            old(self).wf(),
        ensures
            final(self).wf(),
            match r {
                Ok(id) => {
                    let before = old(self).state();
                    let i = first_claim(
                        before.board.claims@,
                        live_claim_of(env.actor@, bounty_id, env.now),
                        0,
                    );
                    &&& complete_refusal(before, *env, bounty_id).is_none()
                    &&& id == before.proposals.len()
                    &&& proposal_added(
                        before,
                        *env,
                        ProposalInput {
                            description,
                            kind: ProposalKind::BountyDone { bounty_id, receiver_id: env.actor },
                        },
                        final(self).state(),
                    )
                    &&& final(self).state().board.bounties == before.board.bounties
                    &&& final(self).state().board.claims@ == before.board.claims@.remove(i)
                },
                Err(e) => {
                    &&& complete_refusal(old(self).state(), *env, bounty_id) == Some(e)
                    &&& *final(self) == *old(self)
                },
            },
    {
        let data: &mut ContractData = self.data_mut();
        let i: usize = data.board.find_live_claim(&env.actor, bounty_id, env.now);
        if i >= data.board.claims.len() {
            return Err(DaoError::ClaimNotFound);
        }
        match data.check_submission(env, KindLabel::BountyDone) {
            Ok(_) => {},
            Err(e) => {
                return Err(e);
            },
        }
        data.board.release(i);
        let input: ProposalInput = ProposalInput {
            description,
            kind: ProposalKind::BountyDone { bounty_id, receiver_id: env.actor.clone() },
        };
        Ok(data.push_proposal(env, input))
    }
}

} // verus!
