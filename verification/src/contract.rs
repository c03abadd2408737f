//! The on-chain voting state machine.  An election is created once with
//! a description, an immutable list of country-code options, a deadline
//! and the verification service's public key.  A vote is accepted only
//! from an account, only until the deadline, only for a listed option,
//! and only together with an attestation signature that verifies over
//! the canonical message binding the sender to that option; it then
//! upserts the sender's single ballot entry.  Any failure leaves the
//! state untouched.

use vstd::prelude::*;
use crate::base::{AccountAddress, Address, PublicKeyEd25519, SignatureEd25519, Timestamp};
use crate::crypto::{sig_valid, verify_signature};
use crate::message::{message_bytes, SignatureMessageData};

verus! {

/// A voting option, i.e. a country code.
pub type VotingOption = String;

/// The position of a voting option in the options list.
pub type VoteIndex = u32;

/// A number of votes.
pub type VoteCount = u32;

/// A vote: the country voted on, and the verification service's
/// signature over the canonical message binding the sender to it.
pub struct VoteParameter {
    /// The country voted on.
    pub country_code: String,
    /// The attestation signature issued by the verification service.
    pub signature: SignatureEd25519,
}

/// Everything an election is created with.
pub struct InitParameter {
    /// The description of the election.
    pub description: String,
    /// All voting options, in order.
    pub options: Vec<VotingOption>,
    /// The last point in time at which an account can vote.
    pub end_time: Timestamp,
    /// The public key of the verification service.
    pub verifier_public_key: PublicKeyEd25519,
}

/// The read-only summary of an election: its description, its deadline
/// and the tally of votes per option name.
pub struct VotingView {
    /// The description of the election.
    pub description: String,
    /// The last point in time at which an account can vote.
    pub end_time: Timestamp,
    /// One entry per voted-on option name, with its current number of
    /// votes.
    pub tally: Vec<(VotingOption, VoteCount)>,
}

/// The reasons a vote is rejected.
#[derive(Clone, Copy, PartialEq, Eq, Structural, Debug)]
pub enum VotingError {
    /// The parameter could not be decoded.
    ParsingFailed,
    /// The vote was placed after the election ended.
    VotingFinished,
    /// The option voted for does not exist.
    InvalidVotingOption,
    /// A program, not an account, tried to vote.
    ContractVoter,
    /// The attestation signature does not verify.
    InvalidSignature,
}

/// The `Result` type of the state machine's transitions.
pub type VotingResult<T> = Result<T, VotingError>;

/// The election state.
pub struct State {
    /// The description of the election.
    pub description: String,
    /// The public key of the verification service.
    pub verifier_public_key: PublicKeyEd25519,
    /// One ballot entry per voter: the account and the index of its
    /// current choice.
    pub ballots: Vec<(AccountAddress, VoteIndex)>,
    /// The last point in time at which an account can vote.
    pub end_time: Timestamp,
    /// All voting options, in order; immutable after creation.
    pub options: Vec<VotingOption>,
}

/// The ballot store as a mathematical map from address bytes to the
/// stored vote index; a later entry for the same address wins.
pub open spec fn ballots_to_map(b: Seq<(AccountAddress, u32)>) -> Map<Seq<u8>, u32>
    decreases b.len(),
{
    if b.len() == 0 {
        Map::empty()
    } else {
        ballots_to_map(b.drop_last()).insert(b.last().0@, b.last().1)
    }
}

/// The position of the first option equal to `cc`, or `-1` when none is.
pub open spec fn first_option_index(options: Seq<String>, cc: Seq<char>) -> int
    decreases options.len(),
{
    if options.len() == 0 {
        -1
    } else if options[0]@ == cc {
        0
    } else if first_option_index(options.drop_first(), cc) == -1 {
        -1
    } else {
        first_option_index(options.drop_first(), cc) + 1
    }
}

/// Whether `cc` is one of the options.
pub open spec fn contains_option(options: Seq<String>, cc: Seq<char>) -> bool {
    first_option_index(options, cc) >= 0
}

/// A found first index lies in range and names an option equal to `cc`.
pub proof fn lemma_first_index_props(options: Seq<String>, cc: Seq<char>)
    requires
        contains_option(options, cc),
    ensures
        0 <= first_option_index(options, cc) < options.len(),
        options[first_option_index(options, cc)]@ == cc,
    decreases options.len(),
{
    if options.len() > 0 && options[0]@ != cc {
        lemma_first_index_props(options.drop_first(), cc);
    }
}

proof fn lemma_first_index_found(options: Seq<String>, cc: Seq<char>, i: int)
    requires
        0 <= i < options.len(),
        options[i]@ == cc,
        forall|j: int| 0 <= j < i ==> options[j]@ != cc,
    ensures
        first_option_index(options, cc) == i,
    decreases i,
{
    if i > 0 {
        lemma_first_index_found(options.drop_first(), cc, i - 1);
    }
}

proof fn lemma_first_index_absent(options: Seq<String>, cc: Seq<char>)
    requires
        forall|j: int| 0 <= j < options.len() ==> options[j]@ != cc,
    ensures
        first_option_index(options, cc) == -1,
    decreases options.len(),
{
    if options.len() > 0 {
        lemma_first_index_absent(options.drop_first(), cc);
    }
}

proof fn lemma_ballots_map_push(b: Seq<(AccountAddress, u32)>, a: AccountAddress, v: u32)
    ensures
        ballots_to_map(b.push((a, v))) == ballots_to_map(b).insert(a@, v),
{
    assert(b.push((a, v)).drop_last() =~= b);
}

proof fn lemma_ballots_map_update(b: Seq<(AccountAddress, u32)>, k: int, a: AccountAddress, v: u32)
    requires
        0 <= k < b.len(),
        a@ == b[k].0@,
        forall|i: int, j: int| 0 <= i < j < b.len() ==> b[i].0@ != b[j].0@,
    ensures
        ballots_to_map(b.update(k, (a, v))) == ballots_to_map(b).insert(a@, v),
    decreases b.len(),
{
    let b2 = b.update(k, (a, v));
    if k == b.len() - 1 {
        assert(b2.drop_last() =~= b.drop_last());
        assert(ballots_to_map(b2) =~= ballots_to_map(b).insert(a@, v));
    } else {
        lemma_ballots_map_update(b.drop_last(), k, a, v);
        assert(b2.drop_last() =~= b.drop_last().update(k, (a, v)));
        assert(b.last().0@ != a@);
        assert(ballots_to_map(b2) =~= ballots_to_map(b).insert(a@, v));
    }
}

/// How many ballots currently name the option called `cc`.
pub open spec fn count_votes(
    ballots: Seq<(AccountAddress, u32)>,
    options: Seq<String>,
    cc: Seq<char>,
) -> nat
    decreases ballots.len(),
{
    if ballots.len() == 0 {
        0
    } else {
        count_votes(ballots.drop_last(), options, cc) + (if options[ballots.last().1 as int]@
            == cc {
            1nat
        } else {
            0nat
        })
    }
}

proof fn lemma_count_le_len(ballots: Seq<(AccountAddress, u32)>, options: Seq<String>, cc: Seq<char>)
    ensures
        count_votes(ballots, options, cc) <= ballots.len(),
    decreases ballots.len(),
{
    if ballots.len() > 0 {
        lemma_count_le_len(ballots.drop_last(), options, cc);
    }
}

proof fn lemma_count_zero(ballots: Seq<(AccountAddress, u32)>, options: Seq<String>, cc: Seq<char>)
    requires
        forall|i: int| 0 <= i < ballots.len() ==> options[ballots[i].1 as int]@ != cc,
    ensures
        count_votes(ballots, options, cc) == 0,
    decreases ballots.len(),
{
    if ballots.len() > 0 {
        lemma_count_zero(ballots.drop_last(), options, cc);
    }
}

/// What a correct tally is: distinct option names, each entry counting
/// exactly the ballots that name it, no entry without a vote, and an
/// entry for every ballot.
pub open spec fn is_tally(
    t: Seq<(String, u32)>,
    ballots: Seq<(AccountAddress, u32)>,
    options: Seq<String>,
) -> bool {
    &&& forall|j: int, k: int| 0 <= j < k < t.len() ==> t[j].0@ != t[k].0@
    &&& forall|j: int| 0 <= j < t.len() ==> t[j].1 == count_votes(ballots, options, t[j].0@)
        && t[j].1 >= 1
    &&& forall|i: int|
        #![trigger ballots[i]]
        0 <= i < ballots.len() ==> exists|j: int|
            #![trigger t[j]]
            0 <= j < t.len() && t[j].0@ == options[ballots[i].1 as int]@
}

/// The full transition relation of `vote`: what each outcome means and
/// what the state looks like afterwards.
pub open spec fn vote_transition(
    pre: State,
    post: State,
    sender: Address,
    now: Timestamp,
    param: VoteParameter,
    r: Result<(), VotingError>,
) -> bool {
    match r {
        Result::Ok(_) => {
            &&& now.millis <= pre.end_time.millis
            &&& sender matches Address::Account(acc) && {
                &&& contains_option(pre.options@, param.country_code@)
                &&& sig_valid(
                    pre.verifier_public_key@,
                    message_bytes(acc@, param.country_code@),
                    param.signature@,
                )
                &&& post.ballots_map() == pre.ballots_map().insert(
                    acc@,
                    first_option_index(pre.options@, param.country_code@) as u32,
                )
            }
            &&& post.description == pre.description
            &&& post.verifier_public_key == pre.verifier_public_key
            &&& post.end_time == pre.end_time
            &&& post.options == pre.options
        },
        Result::Err(e) => {
            &&& post == pre
            &&& match e {
                VotingError::VotingFinished => now.millis > pre.end_time.millis,
                VotingError::ContractVoter => now.millis <= pre.end_time.millis
                    && sender is Contract,
                VotingError::InvalidVotingOption => now.millis <= pre.end_time.millis
                    && sender is Account && !contains_option(pre.options@, param.country_code@),
                VotingError::InvalidSignature => now.millis <= pre.end_time.millis && (
                sender matches Address::Account(acc) && contains_option(
                    pre.options@,
                    param.country_code@,
                ) && !sig_valid(
                    pre.verifier_public_key@,
                    message_bytes(acc@, param.country_code@),
                    param.signature@,
                )),
                VotingError::ParsingFailed => false,
            }
        },
    }
}

impl State {
    /// The state invariant: no two ballot entries for one address, every
    /// stored index inside the options list, and an options list whose
    /// positions fit the vote-index type.
    pub open spec fn wf(&self) -> bool {
        &&& self.options@.len() <= u32::MAX
        &&& forall|i: int, j: int| 0 <= i < j < self.ballots@.len()
            ==> self.ballots@[i].0@ != self.ballots@[j].0@
        &&& forall|i: int| 0 <= i < self.ballots@.len() ==> (self.ballots@[i].1 as int)
            < self.options@.len()
    }

    /// The ballot store, viewed as a map from address bytes to indices.
    pub open spec fn ballots_map(&self) -> Map<Seq<u8>, u32> {
        ballots_to_map(self.ballots@)
    }
}

/// Create the election. The ballot store starts empty; the options, the
/// deadline and the key are taken as given — in particular an empty
/// options list is not rejected.
pub fn init(param: InitParameter) -> (state: State)
    requires
        param.options@.len() <= u32::MAX,
    ensures
        state.wf(),
        state.description == param.description,
        state.verifier_public_key == param.verifier_public_key,
        state.end_time == param.end_time,
        state.options == param.options,
        state.ballots@.len() == 0,
        state.ballots_map() == Map::<Seq<u8>, u32>::empty(),
{
    State {
        description: param.description,
        verifier_public_key: param.verifier_public_key,
        ballots: Vec::new(),
        end_time: param.end_time,
        options: param.options,
    }
}

/// Find the first option equal to `cc`.
fn find_option(options: &Vec<String>, cc: &String) -> (r: Option<u32>)
    requires
        options@.len() <= u32::MAX,
    ensures
        match r {
            Some(k) => first_option_index(options@, cc@) == k as int && (k as int)
                < options@.len(),
            None => first_option_index(options@, cc@) == -1,
        },
{
    let mut i: usize = 0;
    while i < options.len()
        invariant
            i <= options@.len(),
            options@.len() <= u32::MAX,
            forall|j: int| 0 <= j < i ==> options@[j]@ != cc@,
        decreases options@.len() - i,
    {
        if options[i].eq(cc) {
            proof {
                lemma_first_index_found(options@, cc@, i as int);
            }
            return Some(i as u32);
        }
        i += 1;
    }
    proof {
        lemma_first_index_absent(options@, cc@);
    }
    None
}

/// Insert or replace the single ballot entry for `acc`.
fn upsert_ballot(ballots: &mut Vec<(AccountAddress, u32)>, acc: AccountAddress, idx: u32)
    requires
        forall|i: int, j: int| 0 <= i < j < old(ballots)@.len() ==> old(ballots)@[i].0@ != old(
            ballots,
        )@[j].0@,
    ensures
        forall|i: int, j: int| 0 <= i < j < final(ballots)@.len() ==> final(ballots)@[i].0@
            != final(ballots)@[j].0@,
        ballots_to_map(final(ballots)@) == ballots_to_map(old(ballots)@).insert(acc@, idx),
        final(ballots)@.len() <= old(ballots)@.len() + 1,
        forall|i: int| 0 <= i < final(ballots)@.len() ==> final(ballots)@[i].1 == idx || (
        exists|j: int| 0 <= j < old(ballots)@.len() && final(ballots)@[i] == old(ballots)@[j]),
{
    let ghost b0 = ballots@;
    let mut i: usize = 0;
    while i < ballots.len()
        invariant
            i <= ballots@.len(),
            ballots@ == b0,
            forall|ii: int, jj: int| 0 <= ii < jj < b0.len() ==> b0[ii].0@ != b0[jj].0@,
            forall|j: int| 0 <= j < i ==> ballots@[j].0@ != acc@,
        decreases ballots@.len() - i,
    {
        if ballots[i].0.matches(&acc) {
            ballots[i] = (acc, idx);
            proof {
                lemma_ballots_map_update(b0, i as int, acc, idx);
            }
            return;
        }
        i += 1;
    }
    ballots.push((acc, idx));
    proof {
        lemma_ballots_map_push(b0, acc, idx);
    }
}

impl State {
    /// Place or change a vote.  Checks, in order: the deadline, that the
    /// sender is an account, that the option exists, and that the
    /// attestation signature verifies over the canonical message; only
    /// then is the sender's ballot entry upserted.  Every failure leaves
    /// the state unchanged.
    pub fn vote(&mut self, sender: &Address, now: Timestamp, param: &VoteParameter) -> (r: Result<
        (),
        VotingError,
    >)
        requires
            old(self).wf(),
        ensures
            final(self).wf(),
            final(self).ballots@.len() <= old(self).ballots@.len() + 1,
            vote_transition(*old(self), *final(self), *sender, now, *param, r),
    {
        if now.millis > self.end_time.millis {
            return Err(VotingError::VotingFinished);
        }
        let acc: AccountAddress = match sender {
            Address::Account(acc) => *acc,
            Address::Contract(_) => {
                return Err(VotingError::ContractVoter);
            },
        };
        let new_vote_index: u32 = match find_option(&self.options, &param.country_code) {
            Some(k) => k,
            None => {
                return Err(VotingError::InvalidVotingOption);
            },
        };
        let data = SignatureMessageData {
            account_address: acc,
            country_code: param.country_code.clone(),
        };
        let message = data.to_bytes();
        if !verify_signature(&self.verifier_public_key, message.as_slice(), &param.signature) {
            return Err(VotingError::InvalidSignature);
        }
        upsert_ballot(&mut self.ballots, acc, new_vote_index);
        Ok(())
    }
}

/// Find the entry for `name` in the tally built so far.
fn find_tally_pos(tally: &Vec<(String, u32)>, name: &String) -> (r: Option<usize>)
    ensures
        match r {
            Some(j) => (j as int) < tally@.len() && tally@[j as int].0@ == name@,
            None => forall|j: int| 0 <= j < tally@.len() ==> tally@[j].0@ != name@,
        },
{
    let mut j: usize = 0;
    while j < tally.len()
        invariant
            j <= tally@.len(),
            forall|k: int| 0 <= k < j ==> tally@[k].0@ != name@,
        decreases tally@.len() - j,
    {
        if tally[j].0.eq(name) {
            return Some(j);
        }
        j += 1;
    }
    None
}

impl State {
    /// The election information: description, deadline, and the tally of
    /// all ballots, counted per option name.
    pub fn view(&self) -> (v: VotingView)
        requires
            self.wf(),
            self.ballots@.len() <= u32::MAX,
        ensures
            v.description == self.description,
            v.end_time == self.end_time,
            is_tally(v.tally@, self.ballots@, self.options@),
    {
        let description = self.description.clone();
        let end_time = self.end_time;
        let mut tally: Vec<(String, u32)> = Vec::new();
        let mut i: usize = 0;
        while i < self.ballots.len()
            invariant
                self.wf(),
                self.ballots@.len() <= u32::MAX,
                i <= self.ballots@.len(),
                is_tally(tally@, self.ballots@.subrange(0, i as int), self.options@),
            decreases self.ballots@.len() - i,
        {
            let ghost prefix = self.ballots@.subrange(0, i as int);
            let ghost next = self.ballots@.subrange(0, i as int + 1);
            let ghost opts = self.options@;
            proof {
                assert(next.drop_last() =~= prefix);
            }
            let idx = self.ballots[i].1;
            let name: &String = &self.options[idx as usize];
            let ghost t0 = tally@;
            let ghost ncc = name@;
            proof {
                assert(next.last() == self.ballots@[i as int]);
                assert(opts[next.last().1 as int]@ == ncc);
            }
            match find_tally_pos(&tally, name) {
                Some(j) => {
                    proof {
                        lemma_count_le_len(prefix, opts, ncc);
                    }
                    let kept = tally[j].0.clone();
                    let count = tally[j].1;
                    tally[j] = (kept, count + 1);
                    proof {
                        assert(tally@ =~= t0.update(j as int, (t0[j as int].0, (count + 1) as u32)));
                        assert forall|k: int| 0 <= k < tally@.len() implies tally@[k].0
                            == t0[k].0 by {
                            if k != j as int {
                                assert(tally@[k] == t0[k]);
                            }
                        }
                        assert forall|k: int| 0 <= k < tally@.len() implies tally@[k].1
                            == count_votes(next, opts, tally@[k].0@) && tally@[k].1 >= 1 by {
                            if k == j as int {
                                assert(count_votes(next, opts, ncc) == count_votes(
                                    prefix,
                                    opts,
                                    ncc,
                                ) + 1);
                            } else {
                                assert(tally@[k] == t0[k]);
                                assert(t0[j as int].0@ == ncc);
                                assert(tally@[k].0@ != ncc);
                                assert(count_votes(next, opts, tally@[k].0@) == count_votes(
                                    prefix,
                                    opts,
                                    tally@[k].0@,
                                ));
                            }
                        }
                        assert forall|ii: int|
                            #![trigger next[ii]]
                            0 <= ii < next.len() implies exists|jj: int|
                            #![trigger tally@[jj]]
                            0 <= jj < tally@.len() && tally@[jj].0@ == opts[next[ii].1 as int]@ by {
                            if ii < i as int {
                                assert(next[ii] == prefix[ii]);
                                let jj = choose|jj: int|
                                    0 <= jj < t0.len() && t0[jj].0@ == opts[prefix[ii].1 as int]@;
                                assert(tally@[jj].0@ == t0[jj].0@);
                                assert(tally@[jj].0@ == opts[next[ii].1 as int]@);
                            } else {
                                assert(next[ii] == next.last());
                                assert(tally@[j as int].0@ == opts[next[ii].1 as int]@);
                            }
                        }
                    }
                },
                None => {
                    proof {
                        assert forall|ii: int|
                            #![trigger prefix[ii]]
                            0 <= ii < prefix.len() implies opts[prefix[ii].1 as int]@ != ncc by {
                            if opts[prefix[ii].1 as int]@ == ncc {
                                let jj = choose|jj: int|
                                    0 <= jj < t0.len() && t0[jj].0@ == opts[prefix[ii].1 as int]@;
                                assert(t0[jj].0@ != ncc);
                            }
                        }
                        lemma_count_zero(prefix, opts, ncc);
                    }
                    let fresh = name.clone();
                    tally.push((fresh, 1));
                    proof {
                        assert(tally@ =~= t0.push((tally@[t0.len() as int].0, 1u32)));
                        assert(tally@[t0.len() as int].0@ == ncc);
                        assert forall|k: int| 0 <= k < tally@.len() implies tally@[k].1
                            == count_votes(next, opts, tally@[k].0@) && tally@[k].1 >= 1 by {
                            if k < t0.len() {
                                assert(tally@[k] == t0[k]);
                                assert(tally@[k].0@ != ncc);
                                assert(count_votes(next, opts, tally@[k].0@) == count_votes(
                                    prefix,
                                    opts,
                                    tally@[k].0@,
                                ));
                            } else {
                                assert(count_votes(next, opts, ncc) == count_votes(
                                    prefix,
                                    opts,
                                    ncc,
                                ) + 1);
                            }
                        }
                        assert forall|ii: int|
                            #![trigger next[ii]]
                            0 <= ii < next.len() implies exists|jj: int|
                            #![trigger tally@[jj]]
                            0 <= jj < tally@.len() && tally@[jj].0@ == opts[next[ii].1 as int]@ by {
                            if ii < i as int {
                                assert(next[ii] == prefix[ii]);
                                let jj = choose|jj: int|
                                    0 <= jj < t0.len() && t0[jj].0@ == opts[prefix[ii].1 as int]@;
                                assert(tally@[jj].0@ == t0[jj].0@);
                                assert(tally@[jj].0@ == opts[next[ii].1 as int]@);
                            } else {
                                assert(next[ii] == next.last());
                                assert(tally@[t0.len() as int].0@ == opts[next[ii].1 as int]@);
                            }
                        }
                    }
                },
            }
            i += 1;
        }
        proof {
            assert(self.ballots@.subrange(0, self.ballots@.len() as int) =~= self.ballots@);
        }
        VotingView { description, end_time, tally }
    }
}

/// Law: while the election is active, an account's vote for a listed
/// option, carrying an attestation that verifies under the election's
/// key, succeeds and records exactly that option's index for exactly
/// that account.
pub proof fn lemma_valid_vote_is_recorded(
    pre: State,
    post: State,
    acc: AccountAddress,
    now: Timestamp,
    param: VoteParameter,
    r: Result<(), VotingError>,
)
    requires
        vote_transition(pre, post, Address::Account(acc), now, param, r),
        now.millis <= pre.end_time.millis,
        contains_option(pre.options@, param.country_code@),
        sig_valid(
            pre.verifier_public_key@,
            message_bytes(acc@, param.country_code@),
            param.signature@,
        ),
    ensures
        r is Ok,
        post.ballots_map() == pre.ballots_map().insert(
            acc@,
            first_option_index(pre.options@, param.country_code@) as u32,
        ),
        post.ballots_map()[acc@] == first_option_index(pre.options@, param.country_code@) as u32,
        pre.options@[first_option_index(pre.options@, param.country_code@)]@
            == param.country_code@,
{
    lemma_first_index_props(pre.options@, param.country_code@);
}

/// Law: after the end time every vote fails with `VotingFinished` and
/// leaves the state unchanged.
pub proof fn lemma_vote_after_end_rejected(
    pre: State,
    post: State,
    sender: Address,
    now: Timestamp,
    param: VoteParameter,
    r: Result<(), VotingError>,
)
    requires
        vote_transition(pre, post, sender, now, param, r),
        now.millis > pre.end_time.millis,
    ensures
        r == Result::<(), VotingError>::Err(VotingError::VotingFinished),
        post == pre,
{
}

/// Law: while the election is active, an account's vote for a country
/// code outside the options list fails with `InvalidVotingOption` and
/// leaves the state unchanged.  (After the deadline the time check fires
/// first and `VotingFinished` is returned instead.)
pub proof fn lemma_unknown_option_rejected(
    pre: State,
    post: State,
    acc: AccountAddress,
    now: Timestamp,
    param: VoteParameter,
    r: Result<(), VotingError>,
)
    requires
        vote_transition(pre, post, Address::Account(acc), now, param, r),
        now.millis <= pre.end_time.millis,
        !contains_option(pre.options@, param.country_code@),
    ensures
        r == Result::<(), VotingError>::Err(VotingError::InvalidVotingOption),
        post == pre,
{
}

/// Law: re-voting replaces the voter's single ballot entry.  After two
/// successful votes by the same account, that account holds exactly the
/// second option's index, the set of voters has grown by at most that
/// one account, and no other account's entry changed.
pub proof fn lemma_revote_replaces(
    s0: State,
    s1: State,
    s2: State,
    acc: AccountAddress,
    now1: Timestamp,
    now2: Timestamp,
    p1: VoteParameter,
    p2: VoteParameter,
)
    requires
        vote_transition(s0, s1, Address::Account(acc), now1, p1, Result::Ok(())),
        vote_transition(s1, s2, Address::Account(acc), now2, p2, Result::Ok(())),
    ensures
        s2.ballots_map()[acc@] == first_option_index(s0.options@, p2.country_code@) as u32,
        s2.ballots_map().dom() =~= s0.ballots_map().dom().insert(acc@),
        forall|a: Seq<u8>| s0.ballots_map().dom().contains(a) && a != acc@
            ==> s2.ballots_map()[a] == s0.ballots_map()[a],
{
    assert(s1.options == s0.options);
}

} // verus!
