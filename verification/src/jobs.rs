//! The two scheduled batches: the subscriber grant (every
//! subscription-enabled user receives a fixed number of fresh tokens) and the
//! monthly conversion (unconverted channel tokens become one deposit per
//! channel). Both are plain store transitions here; the scheduler that fires
//! them lives outside the library.

use vstd::prelude::*;

use crate::models::{ChannelToken, Token, TokenTransaction, TransactionType, User};
use crate::store::Store;
use crate::{MAX_ROWS, SUBSCRIBER_GRANT_COUNT, TOKEN_VALUE};

verus! {

/// The tokens the grant batch appends while it still has to process
/// `users[i..]`, numbering fresh rows from `next`.
pub open spec fn spec_grants(users: Seq<User>, i: int, next: int, now: u64) -> Seq<Token>
    decreases users.len() - i,
    when 0 <= i <= users.len()
{
    if i >= users.len() {
        Seq::empty()
    } else {
        let head = if users[i].subscriptions_enabled {
            Seq::new(
                SUBSCRIBER_GRANT_COUNT as nat,
                |k: int|
                    (Token {
                        id: (next + k) as i32,
                        user_id: users[i].id,
                        used: false,
                        date_granted: now,
                        date_used: None,
                    }),
            )
        } else {
            Seq::empty()
        };
        head + spec_grants(users, i + 1, next + head.len(), now)
    }
}

/// Predicate picking a channel token not yet folded into a deposit.
pub open spec fn unconverted_row() -> spec_fn(ChannelToken) -> bool {
    |ct: ChannelToken| !ct.converted
}

/// Predicate picking the unconverted channel tokens of one channel.
pub open spec fn unconverted_of(channel: i32) -> spec_fn(ChannelToken) -> bool {
    |ct: ChannelToken| !ct.converted && ct.channel_user_id == channel
}

/// How many unconverted channel tokens `channel` holds.
pub open spec fn spec_unconverted_count(cts: Seq<ChannelToken>, channel: i32) -> nat {
    cts.filter(unconverted_of(channel)).len()
}

/// The channels holding at least one unconverted token, in order of first
/// appearance: the grouping the conversion batch deposits for.
pub open spec fn spec_channels(cts: Seq<ChannelToken>) -> Seq<i32>
    decreases cts.len(),
{
    if cts.len() == 0 {
        Seq::empty()
    } else {
        let pre = spec_channels(cts.drop_last());
        let ct = cts.last();
        if !ct.converted && !pre.contains(ct.channel_user_id) {
            pre.push(ct.channel_user_id)
        } else {
            pre
        }
    }
}

/// The channel token table after the batch: every row converted, all other
/// fields kept.
pub open spec fn spec_mark_converted(cts: Seq<ChannelToken>) -> Seq<ChannelToken> {
    cts.map_values(
        |ct: ChannelToken|
            (ChannelToken {
                id: ct.id,
                token_id: ct.token_id,
                channel_user_id: ct.channel_user_id,
                expires: ct.expires,
                converted: true,
            }),
    )
}

/// The ledger entries one batch run appends: per channel with unconverted
/// tokens, one deposit of its token count times [`TOKEN_VALUE`], ids numbered
/// from `next`.
pub open spec fn spec_deposits(cts: Seq<ChannelToken>, next: int, now: u64) -> Seq<
    TokenTransaction,
> {
    Seq::new(
        spec_channels(cts).len(),
        |k: int|
            (TokenTransaction {
                id: (next + k) as i32,
                channel_user_id: spec_channels(cts)[k],
                transaction_type: TransactionType::Deposit,
                amount: (spec_unconverted_count(cts, spec_channels(cts)[k]) * TOKEN_VALUE) as u32,
                date: now,
            }),
    )
}

/// A channel is grouped exactly when it has an unconverted token.
pub proof fn lemma_channels_contains(cts: Seq<ChannelToken>, channel: i32)
    ensures
        spec_channels(cts).contains(channel) <==> exists|j: int|
            0 <= j < cts.len() && !(#[trigger] cts[j]).converted && cts[j].channel_user_id
                == channel,
    decreases cts.len(),
{
    if cts.len() > 0 {
        lemma_channels_contains(cts.drop_last(), channel);
        let pre = spec_channels(cts.drop_last());
        let ct = cts.last();
        if !ct.converted && !pre.contains(ct.channel_user_id) {
            assert forall|c: i32| pre.contains(c) implies pre.push(ct.channel_user_id).contains(
                c,
            ) by {
                let j = choose|j: int| 0 <= j < pre.len() && pre[j] == c;
                assert(pre.push(ct.channel_user_id)[j] == c);
            }
            assert(pre.push(ct.channel_user_id)[pre.len() as int] == ct.channel_user_id);
        }
        if exists|j: int|
            0 <= j < cts.len() && !(#[trigger] cts[j]).converted && cts[j].channel_user_id
                == channel {
            let j = choose|j: int|
                0 <= j < cts.len() && !(#[trigger] cts[j]).converted && cts[j].channel_user_id
                    == channel;
            if j < cts.len() - 1 {
                assert(cts.drop_last()[j] == cts[j]);
            }
        }
    }
}

/// No more groups than rows.
pub proof fn lemma_channels_len(cts: Seq<ChannelToken>)
    ensures
        spec_channels(cts).len() <= cts.len(),
    decreases cts.len(),
{
    if cts.len() > 0 {
        lemma_channels_len(cts.drop_last());
    }
}

/// Group order is stable under extension: the groups of a prefix are a
/// prefix of the groups.
pub proof fn lemma_channels_take(cts: Seq<ChannelToken>, j: int)
    requires
        0 <= j <= cts.len(),
    ensures
        spec_channels(cts.take(j)).len() <= spec_channels(cts).len(),
        forall|k: int|
            0 <= k < spec_channels(cts.take(j)).len() ==> #[trigger] spec_channels(cts)[k]
                == spec_channels(cts.take(j))[k],
    decreases cts.len() - j,
{
    if j == cts.len() {
        assert(cts.take(j) =~= cts);
    } else {
        lemma_channels_take(cts, j + 1);
        assert(cts.take(j + 1).drop_last() =~= cts.take(j));
        assert(cts.take(j + 1).last() == cts[j]);
    }
}

/// A table whose rows are all converted yields no group, so a batch run on
/// it deposits nothing. With [`Store::convert_tokens`]'s postcondition this
/// says: run twice in succession, the second run credits no channel.
pub proof fn lemma_convert_again_deposits_nothing(cts: Seq<ChannelToken>, next: int, now: u64)
    ensures
        spec_channels(spec_mark_converted(cts)).len() == 0,
        spec_deposits(spec_mark_converted(cts), next, now) =~= Seq::<TokenTransaction>::empty(),
    decreases cts.len(),
{
    let marked = spec_mark_converted(cts);
    if cts.len() > 0 {
        lemma_convert_again_deposits_nothing(cts.drop_last(), next, now);
        assert(spec_mark_converted(cts.drop_last()) =~= marked.drop_last());
    }
}

impl Store {
    /// The subscriber grant batch: every user with subscriptions enabled
    /// receives [`SUBSCRIBER_GRANT_COUNT`] fresh unused tokens, in user table
    /// order; nothing else changes.
    pub fn assign_tokens(&mut self, now: u64)
        requires
            old(self).wf(),
            old(self).next_id + (SUBSCRIBER_GRANT_COUNT as int) * old(self).users@.len()
                <= i32::MAX,
        ensures
            final(self).wf(),
            final(self).tokens@ == old(self).tokens@ + spec_grants(
                old(self).users@,
                0,
                old(self).next_id as int,
                now,
            ),
            final(self).next_id == old(self).next_id + spec_grants(
                old(self).users@,
                0,
                old(self).next_id as int,
                now,
            ).len(),
            final(self).users == old(self).users,
            final(self).channels_tokens == old(self).channels_tokens,
            final(self).token_transactions == old(self).token_transactions,
            final(self).videos == old(self).videos,
            final(self).tags == old(self).tags,
            final(self).videos_tags == old(self).videos_tags,
            final(self).video_plays == old(self).video_plays,
            final(self).comments == old(self).comments,
            final(self).comment_upvotes == old(self).comment_upvotes,
            final(self).video_upvotes == old(self).video_upvotes,
    {
        let ghost orig = *self;
        let n: usize = self.users.len();
        let mut i: usize = 0;
        while i < n
            invariant
                i <= n,
                n == orig.users@.len(),
                orig.wf(),
                orig.next_id + (SUBSCRIBER_GRANT_COUNT as int) * orig.users@.len() <= i32::MAX,
                self.wf(),
                self.next_id <= orig.next_id + (SUBSCRIBER_GRANT_COUNT as int) * i,
                orig.next_id <= self.next_id,
                orig.tokens@ + spec_grants(orig.users@, 0, orig.next_id as int, now)
                    == self.tokens@ + spec_grants(orig.users@, i as int, self.next_id as int, now),
                self.tokens@.len() + spec_grants(orig.users@, i as int, self.next_id as int, now).len()
                    == orig.tokens@.len() + spec_grants(orig.users@, 0, orig.next_id as int, now).len(),
                self.next_id == orig.next_id + self.tokens@.len() - orig.tokens@.len(),
                orig.tokens@.len() <= self.tokens@.len(),
                self.users == orig.users,
                self.channels_tokens == orig.channels_tokens,
                self.token_transactions == orig.token_transactions,
                self.videos == orig.videos,
                self.tags == orig.tags,
                self.videos_tags == orig.videos_tags,
                self.video_plays == orig.video_plays,
                self.comments == orig.comments,
                self.comment_upvotes == orig.comment_upvotes,
                self.video_upvotes == orig.video_upvotes,
            decreases n - i,
        {
            let subscriber_id = self.users[i].id;
            let enabled = self.users[i].subscriptions_enabled;
            let ghost pre = *self;
            if enabled {
                self.add_tokens(subscriber_id, SUBSCRIBER_GRANT_COUNT, now);
                proof {
                    let fresh = Seq::new(
                        SUBSCRIBER_GRANT_COUNT as nat,
                        |k: int|
                            (Token {
                                id: (pre.next_id + k) as i32,
                                user_id: orig.users@[i as int].id,
                                used: false,
                                date_granted: now,
                                date_used: None,
                            }),
                    );
                    assert(self.tokens@ =~= pre.tokens@ + fresh);
                    assert(spec_grants(orig.users@, i as int, pre.next_id as int, now)
                        =~= fresh + spec_grants(
                        orig.users@,
                        i + 1,
                        pre.next_id + SUBSCRIBER_GRANT_COUNT as int,
                        now,
                    ));
                    assert(pre.tokens@ + (fresh + spec_grants(
                        orig.users@,
                        i + 1,
                        self.next_id as int,
                        now,
                    )) =~= (pre.tokens@ + fresh) + spec_grants(
                        orig.users@,
                        i + 1,
                        self.next_id as int,
                        now,
                    ));
                }
            } else {
                proof {
                    assert(spec_grants(orig.users@, i as int, self.next_id as int, now)
                        == spec_grants(orig.users@, i + 1, self.next_id as int, now));
                }
            }
            i = i + 1;
        }
        proof {
            assert(spec_grants(orig.users@, n as int, self.next_id as int, now) =~= Seq::empty());
            assert(self.tokens@ =~= orig.tokens@ + spec_grants(
                orig.users@,
                0,
                orig.next_id as int,
                now,
            ));
        }
    }

    /// How many channel tokens of `channel` are still unconverted.
    pub fn count_unconverted_tokens(&self, channel: i32) -> (r: u64)
        ensures
            r == spec_unconverted_count(self.channels_tokens@, channel),
    {
        let n: usize = self.channels_tokens.len();
        let mut count: u64 = 0;
        let mut i: usize = 0;
        proof {
            assert(self.channels_tokens@.take(0) =~= Seq::<ChannelToken>::empty());
            assert(Seq::<ChannelToken>::empty().filter(unconverted_of(channel)) =~= Seq::<
                ChannelToken,
            >::empty()) by {
                reveal(Seq::filter);
            }
        }
        while i < n
            invariant
                i <= n,
                n == self.channels_tokens@.len(),
                count == self.channels_tokens@.take(i as int).filter(unconverted_of(channel)).len(),
                count <= i,
            decreases n - i,
        {
            proof {
                let pre = self.channels_tokens@.take(i as int);
                let x = self.channels_tokens@[i as int];
                assert(self.channels_tokens@.take(i + 1) == pre.push(x));
                pre.lemma_filter_push(x, unconverted_of(channel));
            }
            let ct = &self.channels_tokens[i];
            if !ct.converted && ct.channel_user_id == channel {
                count = count + 1;
            }
            i = i + 1;
        }
        proof {
            assert(self.channels_tokens@.take(n as int) =~= self.channels_tokens@);
        }
        count
    }

    /// The monthly conversion batch: for every channel holding unconverted
    /// channel tokens, append one deposit of their count times
    /// [`TOKEN_VALUE`], then mark exactly the counted rows converted. Rows
    /// already converted are never counted or credited again.
    pub fn convert_tokens(&mut self, now: u64)
        requires
            old(self).wf(),
            old(self).next_id + old(self).channels_tokens@.len() <= i32::MAX,
            old(self).token_transactions@.len() + old(self).channels_tokens@.len() <= MAX_ROWS,
        ensures
            final(self).wf(),
            final(self).token_transactions@ == old(self).token_transactions@ + spec_deposits(
                old(self).channels_tokens@,
                old(self).next_id as int,
                now,
            ),
            final(self).channels_tokens@ == spec_mark_converted(old(self).channels_tokens@),
            final(self).next_id == old(self).next_id + spec_channels(
                old(self).channels_tokens@,
            ).len(),
            final(self).tokens == old(self).tokens,
            final(self).users == old(self).users,
            final(self).videos == old(self).videos,
            final(self).tags == old(self).tags,
            final(self).videos_tags == old(self).videos_tags,
            final(self).video_plays == old(self).video_plays,
            final(self).comments == old(self).comments,
            final(self).comment_upvotes == old(self).comment_upvotes,
            final(self).video_upvotes == old(self).video_upvotes,
    {
        let ghost orig = *self;
        let ghost all_deposits = spec_deposits(orig.channels_tokens@, orig.next_id as int, now);
        let ncts: usize = self.channels_tokens.len();
        proof {
            assert(orig.channels_tokens@.take(0) =~= Seq::<ChannelToken>::empty());
            assert(self.token_transactions@ =~= orig.token_transactions@ + all_deposits.take(0));
        }
        let mut j: usize = 0;
        while j < ncts
            invariant
                j <= ncts,
                ncts == orig.channels_tokens@.len(),
                orig.wf(),
                orig.next_id + orig.channels_tokens@.len() <= i32::MAX,
                orig.token_transactions@.len() + orig.channels_tokens@.len() <= MAX_ROWS,
                all_deposits == spec_deposits(orig.channels_tokens@, orig.next_id as int, now),
                self.wf(),
                self.next_id == orig.next_id + spec_channels(
                    orig.channels_tokens@.take(j as int),
                ).len(),
                self.token_transactions@ == orig.token_transactions@ + all_deposits.take(
                    spec_channels(orig.channels_tokens@.take(j as int)).len() as int,
                ),
                self.channels_tokens == orig.channels_tokens,
                self.tokens == orig.tokens,
                self.users == orig.users,
                self.videos == orig.videos,
                self.tags == orig.tags,
                self.videos_tags == orig.videos_tags,
                self.video_plays == orig.video_plays,
                self.comments == orig.comments,
                self.comment_upvotes == orig.comment_upvotes,
                self.video_upvotes == orig.video_upvotes,
            decreases ncts - j,
        {
            let ghost pre_groups = spec_channels(orig.channels_tokens@.take(j as int));
            proof {
                lemma_channels_take(orig.channels_tokens@, j as int);
                lemma_channels_len(orig.channels_tokens@);
                lemma_channels_len(orig.channels_tokens@.take(j as int));
                assert(orig.channels_tokens@.take(j + 1).drop_last() =~= orig.channels_tokens@.take(
                    j as int,
                ));
                assert(orig.channels_tokens@.take(j + 1).last() == orig.channels_tokens@[j as int]);
            }
            let row_converted = self.channels_tokens[j].converted;
            let ch = self.channels_tokens[j].channel_user_id;
            if !row_converted {
                let mut seen = false;
                let mut k: usize = 0;
                while k < j
                    invariant
                        k <= j,
                        j < ncts,
                        ncts == self.channels_tokens@.len(),
                        ch == self.channels_tokens@[j as int].channel_user_id,
                        seen == exists|t: int|
                            0 <= t < k && !(#[trigger] self.channels_tokens@[t]).converted
                                && self.channels_tokens@[t].channel_user_id == ch,
                    decreases j - k,
                {
                    if !self.channels_tokens[k].converted && self.channels_tokens[k].channel_user_id
                        == ch {
                        seen = true;
                        proof {
                            assert(!self.channels_tokens@[k as int].converted
                                && self.channels_tokens@[k as int].channel_user_id == ch);
                        }
                    }
                    k = k + 1;
                }
                proof {
                    lemma_channels_contains(orig.channels_tokens@.take(j as int), ch);
                    let cts_pre = orig.channels_tokens@.take(j as int);
                    if seen {
                        let t = choose|t: int|
                            0 <= t < j && !(#[trigger] self.channels_tokens@[t]).converted
                                && self.channels_tokens@[t].channel_user_id == ch;
                        assert(cts_pre[t] == self.channels_tokens@[t]);
                        assert(pre_groups.contains(ch));
                    } else if pre_groups.contains(ch) {
                        let t = choose|t: int|
                            0 <= t < cts_pre.len() && !(#[trigger] cts_pre[t]).converted
                                && cts_pre[t].channel_user_id == ch;
                        assert(self.channels_tokens@[t] == cts_pre[t]);
                        assert(false);
                    }
                }
                if !seen {
                    proof {
                        assert(!pre_groups.contains(ch));
                        assert(spec_channels(orig.channels_tokens@.take(j + 1)) == pre_groups.push(
                            ch,
                        ));
                        lemma_channels_take(orig.channels_tokens@, j + 1);
                        orig.channels_tokens@.lemma_filter_len(unconverted_of(ch));
                    }
                    let count = self.count_unconverted_tokens(ch);
                    proof {
                        assert(count <= self.channels_tokens@.len());
                        assert(self.channels_tokens@.len() <= MAX_ROWS);
                        assert(count <= 0x100_0000u64);
                        assert(count * (TOKEN_VALUE as u64) < 0x1_0000_0000u64) by (
                        nonlinear_arith)
                            requires
                                count <= 0x100_0000u64,
                        ;
                    }
                    let amount = (count * (TOKEN_VALUE as u64)) as u32;
                    let deposit = TokenTransaction {
                        id: self.next_id,
                        channel_user_id: ch,
                        transaction_type: TransactionType::Deposit,
                        amount,
                        date: now,
                    };
                    self.token_transactions.push(deposit);
                    self.next_id = self.next_id + 1;
                    proof {
                        let m = pre_groups.len() as int;
                        assert(all_deposits[m] == deposit);
                        assert(all_deposits.take(m + 1) =~= all_deposits.take(m).push(
                            all_deposits[m],
                        ));
                        assert(self.token_transactions@ =~= orig.token_transactions@
                            + all_deposits.take(m + 1));
                    }
                } else {
                    proof {
                        assert(pre_groups.contains(ch));
                        assert(spec_channels(orig.channels_tokens@.take(j + 1)) == pre_groups);
                    }
                }
            } else {
                proof {
                    assert(spec_channels(orig.channels_tokens@.take(j + 1)) == pre_groups);
                }
            }
            j = j + 1;
        }
        proof {
            assert(orig.channels_tokens@.take(ncts as int) =~= orig.channels_tokens@);
            lemma_channels_len(orig.channels_tokens@);
            assert(all_deposits.take(spec_channels(orig.channels_tokens@).len() as int)
                =~= all_deposits);
        }
        // mark exactly the rows that existed when the counts were taken
        let mut k: usize = 0;
        let ghost mid = *self;
        while k < ncts
            invariant
                k <= ncts,
                ncts == self.channels_tokens@.len(),
                self.channels_tokens@.len() == orig.channels_tokens@.len(),
                orig.wf(),
                mid.wf(),
                self.next_id == mid.next_id,
                forall|t: int|
                    0 <= t < k ==> #[trigger] self.channels_tokens@[t] == spec_mark_converted(
                        orig.channels_tokens@,
                    )[t],
                forall|t: int|
                    k <= t < ncts ==> #[trigger] self.channels_tokens@[t]
                        == orig.channels_tokens@[t],
                self.tokens == mid.tokens,
                self.users == mid.users,
                self.token_transactions == mid.token_transactions,
                self.videos == mid.videos,
                self.tags == mid.tags,
                self.videos_tags == mid.videos_tags,
                self.video_plays == mid.video_plays,
                self.comments == mid.comments,
                self.comment_upvotes == mid.comment_upvotes,
                self.video_upvotes == mid.video_upvotes,
                self.wf(),
            decreases ncts - k,
        {
            if !self.channels_tokens[k].converted {
                let marked = ChannelToken {
                    id: self.channels_tokens[k].id,
                    token_id: self.channels_tokens[k].token_id,
                    channel_user_id: self.channels_tokens[k].channel_user_id,
                    expires: self.channels_tokens[k].expires,
                    converted: true,
                };
                self.channels_tokens[k] = marked;
            }
            k = k + 1;
        }
        proof {
            assert(self.channels_tokens@ =~= spec_mark_converted(orig.channels_tokens@));
        }
    }
}

} // verus!
