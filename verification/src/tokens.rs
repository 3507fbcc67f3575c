//! The token ledger: issuance, viewer-to-channel transfer, balance
//! computation, and the reads the token routes serve. The ledger owns the
//! `tokens`, `channels_tokens`, and `token_transactions` tables; nothing else
//! mutates them.

use vstd::prelude::*;

use crate::models::{
    ChannelToken, ChannelTokenWithUser, Token, TokenTransaction, TransactionType, UserType,
};
use crate::query::{first_match, lemma_first_match_at, lemma_first_match_none,
    lemma_first_match_props};
use crate::store::{get_safe_user_fields, safe_user_matches, user_with_id, Store};
use crate::{MAX_ROWS, TOKEN_VALIDITY_SECS};

verus! {

/// Why a token transfer was refused.
#[derive(Clone, Copy, PartialEq, Eq, Structural, Debug)]
pub enum TransferError {
    /// The source user holds no unused token.
    NoTokensAvailable,
    /// The target user does not exist or is not a channel.
    TargetNotChannel,
    /// The pair already has an unexpired channel token.
    AlreadyActive,
}

/// Request to transfer a token to a channel.
#[derive(Clone, Copy, Debug)]
pub struct TransferInfo {
    pub channel_user_id: i32,
}

/// Request asking whether the caller holds an active token for a channel.
#[derive(Clone, Copy, Debug)]
pub struct HasActiveTokenInfo {
    pub channel_id: i32,
}

/// A channel's balance together with its not yet converted token count.
#[derive(Clone, Copy, Debug)]
pub struct GetMyBalanceResponse {
    pub balance: i64,
    pub unconverted_tokens: u64,
}

/// Predicate picking an unused token owned by `user`.
pub open spec fn unused_token_of(user: i32) -> spec_fn(Token) -> bool {
    |t: Token| t.user_id == user && t.date_used is None
}

/// Predicate picking a token row by id.
pub open spec fn token_with_id(id: i32) -> spec_fn(Token) -> bool {
    |t: Token| t.id == id
}

/// Predicate picking the ledger entries of one channel.
pub open spec fn transaction_of(channel: i32) -> spec_fn(TokenTransaction) -> bool {
    |t: TokenTransaction| t.channel_user_id == channel
}

/// Predicate picking the tokens owned by one user.
pub open spec fn token_of(user: i32) -> spec_fn(Token) -> bool {
    |t: Token| t.user_id == user
}

/// How many unused tokens `user` holds.
pub open spec fn spec_unused_count(tokens: Seq<Token>, user: i32) -> nat {
    tokens.filter(unused_token_of(user)).len()
}

/// A channel token keeps the pair (`source`, `channel`) subscribed at `now`:
/// it targets `channel`, has not expired, and the token it consumed belongs
/// to `source`.
pub open spec fn active_pair(
    tokens: Seq<Token>,
    ct: ChannelToken,
    source: i32,
    channel: i32,
    now: u64,
) -> bool {
    let ti = first_match(tokens, token_with_id(ct.token_id));
    &&& ct.channel_user_id == channel
    &&& ct.expires >= now
    &&& ti >= 0
    &&& tokens[ti].user_id == source
}

/// Whether some channel token keeps (`source`, `channel`) subscribed at `now`.
pub open spec fn spec_has_active_token(s: Store, source: i32, channel: i32, now: u64) -> bool {
    exists|j: int|
        0 <= j < s.channels_tokens@.len() && active_pair(
            s.tokens@,
            #[trigger] s.channels_tokens@[j],
            source,
            channel,
            now,
        )
}

/// The target of a transfer is acceptable: the user exists and is a channel.
pub open spec fn spec_is_channel(users: Seq<crate::models::User>, id: i32) -> bool {
    let i = first_match(users, user_with_id(id));
    i >= 0 && users[i].user_type == UserType::Channel
}

/// The refusal a transfer meets, checked in the order the ledger checks them,
/// or `None` when the transfer is owed success.
pub open spec fn spec_transfer_error(s: Store, source: i32, channel: i32, now: u64) -> Option<
    TransferError,
> {
    if spec_unused_count(s.tokens@, source) == 0 {
        Some(TransferError::NoTokensAvailable)
    } else if !spec_is_channel(s.users@, channel) {
        Some(TransferError::TargetNotChannel)
    } else if spec_has_active_token(s, source, channel, now) {
        Some(TransferError::AlreadyActive)
    } else {
        None
    }
}

/// Signed sum of one channel's ledger: deposits count positive, withdrawals
/// negative, rows of other channels not at all.
pub open spec fn spec_balance(ts: Seq<TokenTransaction>, channel: i32) -> int
    decreases ts.len(),
{
    if ts.len() == 0 {
        0
    } else {
        let rest = spec_balance(ts.drop_last(), channel);
        let t = ts.last();
        if t.channel_user_id == channel {
            if t.transaction_type == TransactionType::Deposit {
                rest + t.amount
            } else {
                rest - t.amount
            }
        } else {
            rest
        }
    }
}

/// A channel's balance never exceeds one maximal entry per row.
pub proof fn lemma_balance_bounded(ts: Seq<TokenTransaction>, channel: i32)
    ensures
        -(ts.len() * 0xffff_ffff) <= spec_balance(ts, channel) <= ts.len() * 0xffff_ffff,
    decreases ts.len(),
{
    if ts.len() > 0 {
        lemma_balance_bounded(ts.drop_last(), channel);
    }
}

/// Predicate picking the channel tokens held against one channel.
pub open spec fn channel_token_of(channel: i32) -> spec_fn(ChannelToken) -> bool {
    |ct: ChannelToken| ct.channel_user_id == channel
}

/// How many channel tokens a channel holds: its subscriber count.
pub open spec fn spec_channel_token_count(cts: Seq<ChannelToken>, channel: i32) -> nat {
    cts.filter(channel_token_of(channel)).len()
}

/// A channel token the active-subscriptions view of `user` lists at `now`:
/// unexpired, consuming a token of `user`, and naming an existing channel.
pub open spec fn active_grant_of(s: Store, user: i32, now: u64) -> spec_fn(ChannelToken) -> bool {
    |ct: ChannelToken|
        {
            let ti = first_match(s.tokens@, token_with_id(ct.token_id));
            let ui = first_match(s.users@, user_with_id(ct.channel_user_id));
            &&& ct.expires >= now
            &&& ti >= 0
            &&& s.tokens@[ti].user_id == user
            &&& ui >= 0
        }
}

/// What each row of the active-subscriptions view must carry, relative to
/// the channel token it came from.
pub open spec fn channel_token_with_user_matches(
    rec: ChannelTokenWithUser,
    ct: ChannelToken,
    s: Store,
) -> bool {
    let ui = first_match(s.users@, user_with_id(ct.channel_user_id));
    &&& rec.id == ct.id
    &&& rec.token_id == ct.token_id
    &&& rec.channel_user_id == ct.channel_user_id
    &&& rec.expires == ct.expires
    &&& safe_user_matches(
        rec.user,
        s.users@[ui],
        spec_channel_token_count(s.channels_tokens@, ct.channel_user_id) as u64,
    )
}

/// A user holds zero unused tokens exactly when no row of theirs is unused.
pub proof fn lemma_unused_count_zero_iff(tokens: Seq<Token>, user: i32)
    ensures
        (spec_unused_count(tokens, user) == 0) <==> (first_match(tokens, unused_token_of(user))
            < 0),
{
    let p = unused_token_of(user);
    lemma_first_match_props(tokens, p);
    if first_match(tokens, p) < 0 {
        tokens.lemma_all_neg_filter_empty(p);
    } else {
        let i = first_match(tokens, p);
        tokens.lemma_filter_contains(p, i);
    }
}

impl Store {
    /// Index of the first token row with this id, if any.
    pub(crate) fn token_index(&self, id: i32) -> (r: Option<usize>)
        ensures
            match r {
                Some(i) => {
                    &&& i < self.tokens@.len()
                    &&& i == first_match(self.tokens@, token_with_id(id))
                    &&& self.tokens@[i as int].id == id
                },
                None => first_match(self.tokens@, token_with_id(id)) < 0,
            },
    {
        let n: usize = self.tokens.len();
        let mut i: usize = 0;
        while i < n
            invariant
                i <= n,
                n == self.tokens@.len(),
                forall|j: int| 0 <= j < i ==> !(token_with_id(id)(#[trigger] self.tokens@[j])),
            decreases n - i,
        {
            if self.tokens[i].id == id {
                proof {
                    lemma_first_match_at(self.tokens@, token_with_id(id), i as int);
                }
                return Some(i);
            }
            i = i + 1;
        }
        proof {
            lemma_first_match_none(self.tokens@, token_with_id(id));
        }
        None
    }

    /// Whether a channel token of `source_user_id` for `target_channel_user_id`
    /// is still active at `now`.
    pub fn user_has_active_token(
        &self,
        source_user_id: i32,
        target_channel_user_id: i32,
        now: u64,
    ) -> (r: bool)
        ensures
            r == spec_has_active_token(*self, source_user_id, target_channel_user_id, now),
    {
        let n: usize = self.channels_tokens.len();
        let mut j: usize = 0;
        while j < n
            invariant
                j <= n,
                n == self.channels_tokens@.len(),
                forall|k: int|
                    0 <= k < j ==> !active_pair(
                        self.tokens@,
                        #[trigger] self.channels_tokens@[k],
                        source_user_id,
                        target_channel_user_id,
                        now,
                    ),
            decreases n - j,
        {
            let ct = &self.channels_tokens[j];
            if ct.channel_user_id == target_channel_user_id && ct.expires >= now {
                match self.token_index(ct.token_id) {
                    Some(ti) => {
                        if self.tokens[ti].user_id == source_user_id {
                            return true;
                        }
                    },
                    None => {},
                }
            }
            j = j + 1;
        }
        false
    }

    /// Mints `amount` fresh unused tokens for `target_user_id`, dated `now`.
    /// Touches nothing else.
    pub fn add_tokens(&mut self, target_user_id: i32, amount: u32, now: u64)
        requires
            old(self).wf(),
            old(self).next_id + amount <= i32::MAX,
        ensures
            final(self).wf(),
            final(self).next_id == old(self).next_id + amount,
            final(self).tokens@ == old(self).tokens@ + Seq::new(
                amount as nat,
                |k: int|
                    (Token {
                        id: (old(self).next_id + k) as i32,
                        user_id: target_user_id,
                        used: false,
                        date_granted: now,
                        date_used: None,
                    }),
            ),
            final(self).users == old(self).users,
            final(self).channels_tokens == old(self).channels_tokens,
            final(self).token_transactions == old(self).token_transactions,
            final(self).videos == old(self).videos,
            final(self).tags == old(self).tags,
            final(self).videos_tags == old(self).videos_tags,
            final(self).video_plays == old(self).video_plays,
            final(self).comments == old(self).comments,
            final(self).comment_upvotes == old(self).comment_upvotes,
            final(self).video_upvotes == old(self).video_upvotes,
    {
        let ghost orig = *self;
        let ghost fresh = |k: int|
            (Token {
                id: (orig.next_id + k) as i32,
                user_id: target_user_id,
                used: false,
                date_granted: now,
                date_used: None,
            });
        let mut made: u32 = 0;
        while made < amount
            invariant
                made <= amount,
                orig.wf(),
                orig.next_id + amount <= i32::MAX,
                self.wf(),
                self.next_id == orig.next_id + made,
                self.tokens@ == orig.tokens@ + Seq::new(made as nat, fresh),
                self.users == orig.users,
                self.channels_tokens == orig.channels_tokens,
                self.token_transactions == orig.token_transactions,
                self.videos == orig.videos,
                self.tags == orig.tags,
                self.videos_tags == orig.videos_tags,
                self.video_plays == orig.video_plays,
                self.comments == orig.comments,
                self.comment_upvotes == orig.comment_upvotes,
                self.video_upvotes == orig.video_upvotes,
                fresh == (|k: int|
                    (Token {
                        id: (orig.next_id + k) as i32,
                        user_id: target_user_id,
                        used: false,
                        date_granted: now,
                        date_used: None,
                    })),
            decreases amount - made,
        {
            let new_token = Token {
                id: self.next_id,
                user_id: target_user_id,
                used: false,
                date_granted: now,
                date_used: None,
            };
            self.tokens.push(new_token);
            self.next_id = self.next_id + 1;
            made = made + 1;
            proof {
                assert(new_token == fresh(made - 1));
                assert(self.tokens@ =~= orig.tokens@ + Seq::new(made as nat, fresh));
            }
        }
        proof {
            assert(self.tokens@ =~= orig.tokens@ + Seq::new(amount as nat, fresh));
        }
    }

    /// Index of the first unused token of `user`, if any.
    pub(crate) fn unused_token_index(&self, user: i32) -> (r: Option<usize>)
        ensures
            match r {
                Some(i) => {
                    &&& i < self.tokens@.len()
                    &&& i == first_match(self.tokens@, unused_token_of(user))
                    &&& self.tokens@[i as int].user_id == user
                    &&& self.tokens@[i as int].date_used is None
                },
                None => first_match(self.tokens@, unused_token_of(user)) < 0,
            },
    {
        let n: usize = self.tokens.len();
        let mut i: usize = 0;
        while i < n
            invariant
                i <= n,
                n == self.tokens@.len(),
                forall|j: int| 0 <= j < i ==> !(unused_token_of(user)(#[trigger] self.tokens@[j])),
            decreases n - i,
        {
            if self.tokens[i].user_id == user && self.tokens[i].date_used.is_none() {
                proof {
                    lemma_first_match_at(self.tokens@, unused_token_of(user), i as int);
                }
                return Some(i);
            }
            i = i + 1;
        }
        proof {
            lemma_first_match_none(self.tokens@, unused_token_of(user));
        }
        None
    }

    /// Consumes one token of `source_user_id` in favour of `channel_id`,
    /// atomically: either every check passes and exactly one token flips to
    /// used while one channel token appears, or the store is untouched and
    /// the first failing check is reported. The token picked is the oldest
    /// unused one in table order.
    pub fn transfer_token(&mut self, source_user_id: i32, channel_id: i32, now: u64) -> (r: Result<
        u64,
        TransferError,
    >)
        requires
            old(self).wf(),
            old(self).next_id < i32::MAX,
            old(self).channels_tokens@.len() < MAX_ROWS,
            now + TOKEN_VALIDITY_SECS <= u64::MAX,
        ensures
            final(self).wf(),
            match r {
                Err(e) => {
                    &&& *final(self) == *old(self)
                    &&& spec_transfer_error(*old(self), source_user_id, channel_id, now) == Some(e)
                },
                Ok(used_at) => ({
                    let ti = first_match(old(self).tokens@, unused_token_of(source_user_id));
                    let consumed = old(self).tokens@[ti];
                    &&& spec_transfer_error(*old(self), source_user_id, channel_id, now) is None
                    &&& used_at == now
                    &&& 0 <= ti < old(self).tokens@.len()
                    &&& final(self).tokens@ == old(self).tokens@.update(
                        ti,
                        (Token {
                            id: consumed.id,
                            user_id: consumed.user_id,
                            used: true,
                            date_granted: consumed.date_granted,
                            date_used: Some(now),
                        }),
                    )
                    &&& final(self).channels_tokens@ == old(self).channels_tokens@.push(
                        (ChannelToken {
                            id: old(self).next_id,
                            token_id: consumed.id,
                            channel_user_id: channel_id,
                            expires: (now + TOKEN_VALIDITY_SECS) as u64,
                            converted: false,
                        }),
                    )
                    &&& final(self).next_id == old(self).next_id + 1
                    &&& final(self).users == old(self).users
                    &&& final(self).token_transactions == old(self).token_transactions
                    &&& final(self).videos == old(self).videos
                    &&& final(self).tags == old(self).tags
                    &&& final(self).videos_tags == old(self).videos_tags
                    &&& final(self).video_plays == old(self).video_plays
                    &&& final(self).comments == old(self).comments
                    &&& final(self).comment_upvotes == old(self).comment_upvotes
                    &&& final(self).video_upvotes == old(self).video_upvotes
                }),
            },
    {
        proof {
            lemma_unused_count_zero_iff(self.tokens@, source_user_id);
        }
        let ti = match self.unused_token_index(source_user_id) {
            Some(i) => i,
            None => {
                return Err(TransferError::NoTokensAvailable);
            },
        };

        let is_channel = match self.user_index(channel_id) {
            Some(ui) => self.users[ui].user_type == UserType::Channel,
            None => false,
        };
        if !is_channel {
            return Err(TransferError::TargetNotChannel);
        }

        if self.user_has_active_token(source_user_id, channel_id, now) {
            return Err(TransferError::AlreadyActive);
        }

        let consumed_id = self.tokens[ti].id;
        let new_channel_token = ChannelToken {
            id: self.next_id,
            token_id: consumed_id,
            channel_user_id: channel_id,
            expires: now + TOKEN_VALIDITY_SECS,
            converted: false,
        };
        self.channels_tokens.push(new_channel_token);
        self.next_id = self.next_id + 1;

        let updated = Token {
            id: consumed_id,
            user_id: self.tokens[ti].user_id,
            used: true,
            date_granted: self.tokens[ti].date_granted,
            date_used: Some(now),
        };
        self.tokens[ti] = updated;
        Ok(now)
    }

    /// All ledger entries of `target_user_id`, in table order.
    pub fn get_user_transactions(&self, target_user_id: i32) -> (r: Vec<TokenTransaction>)
        ensures
            r@ == self.token_transactions@.filter(transaction_of(target_user_id)),
    {
        broadcast use Seq::lemma_take_succ_push, Seq::lemma_filter_push;

        let n: usize = self.token_transactions.len();
        let mut r: Vec<TokenTransaction> = Vec::new();
        let mut i: usize = 0;
        proof {
            assert(self.token_transactions@.take(0) =~= Seq::<TokenTransaction>::empty());
            assert(Seq::<TokenTransaction>::empty().filter(transaction_of(target_user_id))
                =~= Seq::<TokenTransaction>::empty()) by {
                reveal(Seq::filter);
            }
        }
        while i < n
            invariant
                i <= n,
                n == self.token_transactions@.len(),
                r@ == self.token_transactions@.take(i as int).filter(
                    transaction_of(target_user_id),
                ),
            decreases n - i,
        {
            let t = self.token_transactions[i];
            proof {
                let pred = transaction_of(target_user_id);
                let pre = self.token_transactions@.take(i as int);
                let x = self.token_transactions@[i as int];
                assert(self.token_transactions@.take(i + 1) == pre.push(x));
                pre.lemma_filter_push(x, pred);
            }
            if t.channel_user_id == target_user_id {
                r.push(t);
            }
            i = i + 1;
        }
        proof {
            assert(self.token_transactions@.take(n as int) =~= self.token_transactions@);
        }
        r
    }

    /// All tokens `user_id` owns, used or not, in table order.
    pub fn get_my_tokens(&self, user_id: i32) -> (r: Vec<Token>)
        ensures
            r@ == self.tokens@.filter(token_of(user_id)),
    {
        let n: usize = self.tokens.len();
        let mut r: Vec<Token> = Vec::new();
        let mut i: usize = 0;
        proof {
            assert(self.tokens@.take(0) =~= Seq::<Token>::empty());
            assert(Seq::<Token>::empty().filter(token_of(user_id)) =~= Seq::<Token>::empty()) by {
                reveal(Seq::filter);
            }
        }
        while i < n
            invariant
                i <= n,
                n == self.tokens@.len(),
                r@ == self.tokens@.take(i as int).filter(token_of(user_id)),
            decreases n - i,
        {
            proof {
                let pre = self.tokens@.take(i as int);
                let x = self.tokens@[i as int];
                assert(self.tokens@.take(i + 1) == pre.push(x));
                pre.lemma_filter_push(x, token_of(user_id));
            }
            let t = self.tokens[i];
            if t.user_id == user_id {
                r.push(t);
            }
            i = i + 1;
        }
        proof {
            assert(self.tokens@.take(n as int) =~= self.tokens@);
        }
        r
    }

    /// Whether the caller may see the channel's subscriber-only state: a
    /// channel viewing its own page always may, anyone else needs an active
    /// token.
    pub fn has_active_token(&self, user_id: i32, channel_id: i32, now: u64) -> (r: bool)
        ensures
            r == (user_id == channel_id || spec_has_active_token(*self, user_id, channel_id, now)),
    {
        if user_id == channel_id {
            return true;
        }
        self.user_has_active_token(user_id, channel_id, now)
    }

    /// How many channel tokens are held against `channel`: the subscriber
    /// count shown on its public profile.
    pub fn count_channel_tokens(&self, channel: i32) -> (r: u64)
        ensures
            r == spec_channel_token_count(self.channels_tokens@, channel),
    {
        let n: usize = self.channels_tokens.len();
        let mut count: u64 = 0;
        let mut i: usize = 0;
        proof {
            assert(self.channels_tokens@.take(0) =~= Seq::<ChannelToken>::empty());
            assert(Seq::<ChannelToken>::empty().filter(channel_token_of(channel)) =~= Seq::<
                ChannelToken,
            >::empty()) by {
                reveal(Seq::filter);
            }
        }
        while i < n
            invariant
                i <= n,
                n == self.channels_tokens@.len(),
                count == self.channels_tokens@.take(i as int).filter(
                    channel_token_of(channel),
                ).len(),
                count <= i,
            decreases n - i,
        {
            proof {
                let pre = self.channels_tokens@.take(i as int);
                let x = self.channels_tokens@[i as int];
                assert(self.channels_tokens@.take(i + 1) == pre.push(x));
                pre.lemma_filter_push(x, channel_token_of(channel));
            }
            if self.channels_tokens[i].channel_user_id == channel {
                count = count + 1;
            }
            i = i + 1;
        }
        proof {
            assert(self.channels_tokens@.take(n as int) =~= self.channels_tokens@);
        }
        count
    }

    /// The caller's active subscriptions: every unexpired channel token that
    /// consumed one of their tokens, joined with the channel it subscribes
    /// to.
    pub fn get_active_tokens(&self, user_id: i32, now: u64) -> (r: Vec<ChannelTokenWithUser>)
        ensures
            ({
                let picked = self.channels_tokens@.filter(active_grant_of(*self, user_id, now));
                &&& r@.len() == picked.len()
                &&& forall|k: int|
                    0 <= k < picked.len() ==> channel_token_with_user_matches(
                        #[trigger] r@[k],
                        picked[k],
                        *self,
                    )
            }),
    {
        let pred_arg = Ghost(active_grant_of(*self, user_id, now));
        let n: usize = self.channels_tokens.len();
        let mut r: Vec<ChannelTokenWithUser> = Vec::new();
        let mut i: usize = 0;
        proof {
            assert(self.channels_tokens@.take(0) =~= Seq::<ChannelToken>::empty());
            assert(Seq::<ChannelToken>::empty().filter(pred_arg@) =~= Seq::<
                ChannelToken,
            >::empty()) by {
                reveal(Seq::filter);
            }
        }
        while i < n
            invariant
                i <= n,
                n == self.channels_tokens@.len(),
                pred_arg@ == active_grant_of(*self, user_id, now),
                r@.len() == self.channels_tokens@.take(i as int).filter(pred_arg@).len(),
                forall|k: int|
                    0 <= k < r@.len() ==> channel_token_with_user_matches(
                        #[trigger] r@[k],
                        self.channels_tokens@.take(i as int).filter(pred_arg@)[k],
                        *self,
                    ),
            decreases n - i,
        {
            proof {
                let pre = self.channels_tokens@.take(i as int);
                let x = self.channels_tokens@[i as int];
                assert(self.channels_tokens@.take(i + 1) == pre.push(x));
                pre.lemma_filter_push(x, pred_arg@);
            }
            let ct = self.channels_tokens[i];
            if ct.expires >= now {
                let owner_ok = match self.token_index(ct.token_id) {
                    Some(ti) => self.tokens[ti].user_id == user_id,
                    None => false,
                };
                if owner_ok {
                    match self.user_index(ct.channel_user_id) {
                        Some(ui) => {
                            let subscribers = self.count_channel_tokens(ct.channel_user_id);
                            let safe = get_safe_user_fields(&self.users[ui], subscribers);
                            let rec = ChannelTokenWithUser {
                                id: ct.id,
                                token_id: ct.token_id,
                                channel_user_id: ct.channel_user_id,
                                user: safe,
                                expires: ct.expires,
                            };
                            r.push(rec);
                        },
                        None => {},
                    }
                }
            }
            i = i + 1;
        }
        proof {
            assert(self.channels_tokens@.take(n as int) =~= self.channels_tokens@);
        }
        r
    }

    /// The balance view of a channel: its ledger sum and how many of its
    /// channel tokens still await conversion.
    pub fn get_my_balance(&self, user_id: i32) -> (r: GetMyBalanceResponse)
        requires
            self.wf(),
        ensures
            r.balance == spec_balance(self.token_transactions@, user_id),
            r.unconverted_tokens == crate::jobs::spec_unconverted_count(
                self.channels_tokens@,
                user_id,
            ),
    {
        let balance = self.get_user_balance(user_id);
        let unconverted_tokens = self.count_unconverted_tokens(user_id);
        GetMyBalanceResponse { balance, unconverted_tokens }
    }

    /// A channel's balance: deposits minus withdrawals over its whole ledger.
    pub fn get_user_balance(&self, target_user_id: i32) -> (r: i64)
        requires
            self.wf(),
        ensures
            r == spec_balance(self.token_transactions@, target_user_id),
    {
        let ts = &self.token_transactions;
        let n: usize = ts.len();
        let mut balance: i64 = 0;
        let mut i: usize = 0;
        proof {
            assert(ts@.take(0) =~= Seq::<TokenTransaction>::empty());
        }
        while i < n
            invariant
                i <= n,
                n == ts@.len() <= MAX_ROWS,
                ts == self.token_transactions,
                balance == spec_balance(ts@.take(i as int), target_user_id),
            decreases n - i,
        {
            proof {
                lemma_balance_bounded(ts@.take(i as int), target_user_id);
                assert(ts@.take(i + 1).drop_last() =~= ts@.take(i as int));
                assert(ts@.take(i + 1).last() == ts@[i as int]);
            }
            let t = &ts[i];
            if t.channel_user_id == target_user_id {
                match t.transaction_type {
                    TransactionType::Deposit => {
                        balance = balance + t.amount as i64;
                    },
                    TransactionType::Withdrawal => {
                        balance = balance - t.amount as i64;
                    },
                }
            }
            i = i + 1;
        }
        proof {
            assert(ts@.take(n as int) =~= ts@);
        }
        balance
    }
}

/// Two transfers race for the same pair with exactly one available token:
/// after the transfer that won consumed it, the losing attempt finds no
/// unused token and is refused without touching the store, whatever time it
/// runs at — and exactly one token moved to used.
pub proof fn lemma_transfer_race(
    s0: Store,
    s1: Store,
    source: i32,
    channel: i32,
    now: u64,
    now2: u64,
)
    requires
        spec_unused_count(s0.tokens@, source) == 1,
        spec_transfer_error(s0, source, channel, now) is None,
        ({
            let ti = first_match(s0.tokens@, unused_token_of(source));
            let consumed = s0.tokens@[ti];
            s1.tokens@ == s0.tokens@.update(
                ti,
                (Token {
                    id: consumed.id,
                    user_id: consumed.user_id,
                    used: true,
                    date_granted: consumed.date_granted,
                    date_used: Some(now),
                }),
            )
        }),
    ensures
        spec_unused_count(s1.tokens@, source) == 0,
        spec_transfer_error(s1, source, channel, now2) == Some(TransferError::NoTokensAvailable),
        ({
            let ti = first_match(s0.tokens@, unused_token_of(source));
            &&& 0 <= ti < s0.tokens@.len()
            &&& s1.tokens@[ti].used
            &&& forall|j: int|
                0 <= j < s0.tokens@.len() && j != ti ==> s1.tokens@[j] == #[trigger] s0.tokens@[j]
        }),
{
    let p = unused_token_of(source);
    lemma_unused_count_zero_iff(s0.tokens@, source);
    lemma_first_match_props(s0.tokens@, p);
    let ti = first_match(s0.tokens@, p);
    let used = (Token {
        id: s0.tokens@[ti].id,
        user_id: s0.tokens@[ti].user_id,
        used: true,
        date_granted: s0.tokens@[ti].date_granted,
        date_used: Some(now),
    });
    crate::query::lemma_filter_update_unmatch(s0.tokens@, ti, used, p);
}

} // verus!
