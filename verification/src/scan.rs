//! The walk over the storage of a contract that lists its tokens.
//!
//! The contract keeps, from a starting key on, one word per token, or two
//! where each token is followed by its owner. The walk reads word after
//! word until it meets the zero words of a key never written. Storage
//! itself lives outside this crate: the cursor tells which keys to read, and
//! is told what was read.

use vstd::prelude::*;
use crate::bytes::{be_bytes, be_value, lemma_be_value_of_bytes, lemma_pow256_32, zeros};
use crate::hash::{H160, H256};
use crate::uint::{pow2_256, U256};

verus! {

/// The position of a walk: a 256-bit counter over storage keys, and
/// whether each token is followed by the word of its owner.
#[derive(Clone, Copy, Debug, PartialEq, Eq)]
pub struct MigrationCursor {
    pub position: U256,
    pub check_for_owner: bool,
}

/// The keys that one round of a walk reads.
#[derive(Clone, Copy, Debug, PartialEq, Eq)]
pub struct ScanKeys {
    /// The key of the token identifier.
    pub token: H256,
    /// The key of the owner, where tokens are followed by their owners.
    pub owner: Option<H256>,
}

/// What one round of a walk found.
#[derive(Clone, Copy, Debug, PartialEq, Eq)]
pub enum ScanStep {
    /// The end of the list: nothing is to be reconciled.
    Stop,
    /// A token, with the address of its owner where the list holds it; the
    /// walk goes on at `next`.
    Token { token_id: H256, owner: Option<H160>, next: MigrationCursor },
    /// A token at the very end of the key space, after which the counter
    /// cannot advance.
    Exhausted,
}

/// What one round of a walk found, over plain values.
pub enum Step {
    Stop,
    Token { token_id: Seq<u8>, owner: Option<Seq<u8>>, next: nat },
    Exhausted,
}

impl View for ScanStep {
    type V = Step;

    open spec fn view(&self) -> Step {
        match self {
            ScanStep::Stop => Step::Stop,
            ScanStep::Token { token_id, owner, next } => Step::Token {
                token_id: token_id@,
                owner: match owner {
                    Some(address) => Some(address@),
                    None => None,
                },
                next: next.position@,
            },
            ScanStep::Exhausted => Step::Exhausted,
        }
    }
}

/// How many keys one round reads, and by how much it advances the counter.
pub open spec fn stride(check_for_owner: bool) -> nat {
    if check_for_owner {
        2
    } else {
        1
    }
}

/// The word of the owner as a round sees it: the zero word where the list
/// holds no owners.
pub open spec fn owner_seen(check_for_owner: bool, owner_word: Seq<u8>) -> Seq<u8> {
    if check_for_owner {
        owner_word
    } else {
        zeros(32)
    }
}

/// Tells whether the words mark the end of the list: both are zero.
pub open spec fn is_end(token_word: Seq<u8>, owner_word: Seq<u8>) -> bool {
    token_word == zeros(32) && owner_word == zeros(32)
}

/// What a round at `position` finds in the words read.
pub open spec fn step(
    position: nat,
    check_for_owner: bool,
    token_word: Seq<u8>,
    owner_word: Seq<u8>,
) -> Step {
    if is_end(token_word, owner_seen(check_for_owner, owner_word)) {
        Step::Stop
    } else if position + stride(check_for_owner) >= pow2_256() {
        Step::Exhausted
    } else {
        Step::Token {
            token_id: token_word,
            owner: if check_for_owner {
                Some(owner_word.subrange(12, 32))
            } else {
                None
            },
            next: position + stride(check_for_owner),
        }
    }
}

impl MigrationCursor {
    /// The cursor of a walk that starts at `starting_key`.
    pub fn start(starting_key: &H256, check_for_owner: bool) -> (r: MigrationCursor)
        ensures
            r.position@ == be_value(starting_key@),
            r.check_for_owner == check_for_owner,
    {
        MigrationCursor { position: U256::from_big_endian(starting_key), check_for_owner }
    }

    /// The keys to read in this round, or nothing where the key of the
    /// owner lies beyond the last key.
    pub fn keys(&self) -> (r: Option<ScanKeys>)
        ensures
            self.check_for_owner && self.position@ + 1 >= pow2_256() ==> r is None,
            !(self.check_for_owner && self.position@ + 1 >= pow2_256()) ==> {
                &&& r matches Some(keys)
                &&& keys.token@ == be_bytes(self.position@, 32)
                &&& self.check_for_owner ==> (keys.owner matches Some(key) && key@ == be_bytes(
                    self.position@ + 1,
                    32,
                ))
                &&& !self.check_for_owner ==> keys.owner is None
            },
    {
        let token = self.position.to_big_endian();
        if self.check_for_owner {
            match self.position.checked_add(U256::one()) {
                Some(following) => Some(
                    ScanKeys { token, owner: Some(following.to_big_endian()) },
                ),
                None => None,
            }
        } else {
            Some(ScanKeys { token, owner: None })
        }
    }

    /// Ends the round: `token_word` and `owner_word` are the words read at
    /// the keys of this round. Where the list holds no owners, `owner_word`
    /// is not looked at.
    pub fn advance(&self, token_word: H256, owner_word: H256) -> (r: ScanStep)
        ensures
            r@ == step(self.position@, self.check_for_owner, token_word@, owner_word@),
            r matches ScanStep::Token { next, .. } ==> next.check_for_owner
                == self.check_for_owner,
    {
        let at_end = if self.check_for_owner {
            token_word.is_zero() && owner_word.is_zero()
        } else {
            token_word.is_zero()
        };
        if at_end {
            return ScanStep::Stop;
        }
        let by = if self.check_for_owner {
            U256::from_u64(2)
        } else {
            U256::one()
        };
        match self.position.checked_add(by) {
            None => ScanStep::Exhausted,
            Some(position) => {
                let owner = if self.check_for_owner {
                    Some(owner_word.to_address())
                } else {
                    None
                };
                ScanStep::Token {
                    token_id: token_word,
                    owner,
                    next: MigrationCursor { position, check_for_owner: self.check_for_owner },
                }
            },
        }
    }
}

/// How a walk stands.
pub enum Standing {
    /// It has rounds to go.
    Running,
    /// It met the end of the list.
    Stopped,
    /// It ran out of keys.
    Exhausted,
}

/// What a walk has done: the positions it read, the tokens it handed on
/// for reconciliation, each with the address of its owner where the list
/// holds it, where it stands, and how.
pub struct Trace {
    pub reads: Seq<nat>,
    pub tokens: Seq<(Seq<u8>, Option<Seq<u8>>)>,
    pub position: nat,
    pub standing: Standing,
}

/// The word that `storage` holds at the key that spells `position`.
pub open spec fn word_at(storage: spec_fn(Seq<u8>) -> Seq<u8>, position: nat) -> Seq<u8> {
    storage(be_bytes(position, 32))
}

/// The positions that a round at `position` reads.
pub open spec fn round_reads(position: nat, check_for_owner: bool) -> Seq<nat> {
    if check_for_owner {
        seq![position, position + 1]
    } else {
        seq![position]
    }
}

/// The walk of at most `rounds` rounds over `storage` from `position`.
pub open spec fn walk(
    storage: spec_fn(Seq<u8>) -> Seq<u8>,
    position: nat,
    check_for_owner: bool,
    rounds: nat,
) -> Trace
    decreases rounds,
{
    if rounds == 0 {
        Trace { reads: Seq::empty(), tokens: Seq::empty(), position, standing: Standing::Running }
    } else if check_for_owner && position + 1 >= pow2_256() {
        Trace {
            reads: Seq::empty(),
            tokens: Seq::empty(),
            position,
            standing: Standing::Exhausted,
        }
    } else {
        let reads = round_reads(position, check_for_owner);
        match step(
            position,
            check_for_owner,
            word_at(storage, position),
            word_at(storage, position + 1),
        ) {
            Step::Stop => Trace {
                reads,
                tokens: Seq::empty(),
                position,
                standing: Standing::Stopped,
            },
            Step::Exhausted => Trace {
                reads,
                tokens: Seq::empty(),
                position,
                standing: Standing::Exhausted,
            },
            Step::Token { token_id, owner, next } => {
                let rest = walk(storage, next, check_for_owner, (rounds - 1) as nat);
                Trace {
                    reads: reads + rest.reads,
                    tokens: seq![(token_id, owner)] + rest.tokens,
                    position: rest.position,
                    standing: rest.standing,
                }
            },
        }
    }
}

/// The position of the round with the given number, counted from zero, in
/// a walk that starts at `start`.
pub open spec fn round_position(start: nat, check_for_owner: bool, round: nat) -> nat {
    if check_for_owner {
        start + 2 * round
    } else {
        start + round
    }
}

/// Tells whether the round at `position` meets the end of the list.
pub open spec fn ends_at(
    storage: spec_fn(Seq<u8>) -> Seq<u8>,
    position: nat,
    check_for_owner: bool,
) -> bool {
    is_end(
        word_at(storage, position),
        owner_seen(check_for_owner, word_at(storage, position + 1)),
    )
}

/// Different positions are read at different keys: what a walk reads at
/// one position, it reads nowhere else.
pub proof fn lemma_positions_have_their_own_keys(first: nat, second: nat)
    requires
        first < pow2_256(),
        second < pow2_256(),
        be_bytes(first, 32) == be_bytes(second, 32),
    ensures
        first == second,
{
    lemma_pow256_32();
    lemma_be_value_of_bytes(first, 32);
    lemma_be_value_of_bytes(second, 32);
}

/// A walk stops at the first round that meets the end of the list: it
/// stands at the position of that round however many more rounds it is
/// given, it has read no key beyond the keys of that round, and it has
/// handed on the tokens of the rounds before, and nothing for the round
/// that met the end.
pub proof fn lemma_walk_stops_at_first_end(
    storage: spec_fn(Seq<u8>) -> Seq<u8>,
    start: nat,
    check_for_owner: bool,
    last: nat,
    rounds: nat,
)
    requires
        round_position(start, check_for_owner, last) + stride(check_for_owner) <= pow2_256(),
        forall|i: nat|
            i < last ==> !#[trigger] ends_at(
                storage,
                round_position(start, check_for_owner, i),
                check_for_owner,
            ),
        ends_at(storage, round_position(start, check_for_owner, last), check_for_owner),
        rounds > last,
    ensures
        ({
            let trace = walk(storage, start, check_for_owner, rounds);
            &&& trace.standing is Stopped
            &&& trace.position == round_position(start, check_for_owner, last)
            &&& trace.tokens.len() == last
            &&& forall|i: int|
                0 <= i < last ==> (#[trigger] trace.tokens[i]).0 == word_at(
                    storage,
                    round_position(start, check_for_owner, i as nat),
                )
            &&& trace.reads.len() == stride(check_for_owner) * (last + 1)
            &&& forall|k: int|
                0 <= k < trace.reads.len() ==> #[trigger] trace.reads[k] < round_position(
                    start,
                    check_for_owner,
                    last,
                ) + stride(check_for_owner)
        }),
    decreases last,
{
    if last > 0 {
        assert(!ends_at(storage, round_position(start, check_for_owner, 0), check_for_owner));
        let next = start + stride(check_for_owner);
        assert forall|i: nat| i < last - 1 implies !#[trigger] ends_at(
            storage,
            round_position(next, check_for_owner, i),
            check_for_owner,
        ) by {
            assert(round_position(next, check_for_owner, i) == round_position(
                start,
                check_for_owner,
                i + 1,
            ));
        }
        lemma_walk_stops_at_first_end(
            storage,
            next,
            check_for_owner,
            (last - 1) as nat,
            (rounds - 1) as nat,
        );
        let trace = walk(storage, start, check_for_owner, rounds);
        let rest = walk(storage, next, check_for_owner, (rounds - 1) as nat);
        assert forall|i: int| 0 <= i < last implies (#[trigger] trace.tokens[i]).0 == word_at(
            storage,
            round_position(start, check_for_owner, i as nat),
        ) by {
            if i > 0 {
                assert(trace.tokens[i] == rest.tokens[i - 1]);
            }
        }
        assert forall|k: int| 0 <= k < trace.reads.len() implies #[trigger] trace.reads[k]
            < round_position(start, check_for_owner, last) + stride(check_for_owner) by {
            let first = round_reads(start, check_for_owner);
            if k >= first.len() {
                assert(trace.reads[k] == rest.reads[k - first.len()]);
            }
        }
    }
}

} // verus!
