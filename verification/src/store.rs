use vstd::prelude::*;

use std::collections::HashMap;
use std::collections::HashSet;

use crate::commands::{apply_cmd, CacheCmd, CacheKey, KeyKind};
use crate::model::{empty_state, EngState};

verus! {

broadcast use vstd::std_specs::hash::group_hash_axioms;

/// One post's cached engagement slots: the two reaction sets and the three
/// counters. Counters are independent of the sets here, as they are in the
/// remote store; the toggle discipline keeps them consistent.
pub struct PostCache {
    pub likers: HashSet<i64>,
    pub haters: HashSet<i64>,
    pub like_count: i64,
    pub hate_count: i64,
    pub comment_count: i64,
}

impl PostCache {
    /// The model state this entry holds.
    pub open spec fn state(self) -> EngState {
        EngState {
            likes: self.likers@,
            dislikes: self.haters@,
            like_count: self.like_count as int,
            dislike_count: self.hate_count as int,
            comment_count: self.comment_count as int,
        }
    }

    /// A fresh entry: everything empty or zero.
    pub fn empty() -> (e: Self)
        ensures
            e.state() == empty_state(),
    {
        PostCache {
            likers: HashSet::new(),
            haters: HashSet::new(),
            like_count: 0,
            hate_count: 0,
            comment_count: 0,
        }
    }
}

/// The engagement cache store: per-post sets and counters, addressed by
/// [`CacheKey`]s. An executable stand-in for the remote set/counter service,
/// giving each primitive of that service its exact meaning; a post the store
/// has never seen reads as all-zero, as an evicted entry does remotely.
pub struct CacheStore {
    pub entries: HashMap<i64, PostCache>,
}

impl CacheStore {
    /// The state cached for post `p`; absent reads as zero.
    pub open spec fn entry_state(self, p: i64) -> EngState {
        if self.entries@.contains_key(p) {
            self.entries@[p].state()
        } else {
            empty_state()
        }
    }

    /// The set of users who like post `p`.
    pub open spec fn like_set(self, p: i64) -> Set<i64> {
        self.entry_state(p).likes
    }

    /// The set of users who dislike post `p`.
    pub open spec fn dislike_set(self, p: i64) -> Set<i64> {
        self.entry_state(p).dislikes
    }

    /// The cached like cardinality of post `p`.
    pub open spec fn like_count(self, p: i64) -> int {
        self.entry_state(p).like_count
    }

    /// The cached dislike cardinality of post `p`.
    pub open spec fn dislike_count(self, p: i64) -> int {
        self.entry_state(p).dislike_count
    }

    /// The comment counter of post `p`.
    pub open spec fn comment_count(self, p: i64) -> int {
        self.entry_state(p).comment_count
    }

    /// The counter a counter-key addresses.
    pub open spec fn counter_value(self, key: CacheKey) -> int {
        match key.kind {
            KeyKind::LikeCount => self.entry_state(key.post_id).like_count,
            KeyKind::HateCount => self.entry_state(key.post_id).dislike_count,
            KeyKind::CommentsCount => self.entry_state(key.post_id).comment_count,
            _ => 0,
        }
    }

    /// The command may be applied: its key addresses a slot of the right
    /// shape, and a counter step stays within the machine's range.
    pub open spec fn cmd_ok(self, cmd: CacheCmd) -> bool {
        match cmd {
            CacheCmd::SetAdd(k, _) => k.kind is Likes || k.kind is Hates,
            CacheCmd::SetRem(k, _) => k.kind is Likes || k.kind is Hates,
            CacheCmd::Incr(k) => (k.kind is LikeCount || k.kind is HateCount
                || k.kind is CommentsCount) && self.counter_value(k) < i64::MAX,
            CacheCmd::Decr(k) => (k.kind is LikeCount || k.kind is HateCount
                || k.kind is CommentsCount) && self.counter_value(k) > i64::MIN,
            CacheCmd::Del(_) => true,
        }
    }

    pub fn new() -> (s: Self)
        ensures
            forall|p: i64| #[trigger] s.entry_state(p) == empty_state(),
    {
        CacheStore { entries: HashMap::new() }
    }

    /// Takes post `p`'s entry out for mutation, materializing a zero entry on
    /// a miss.
    fn take_entry(&mut self, post_id: i64) -> (e: PostCache)
        ensures
            e.state() == old(self).entry_state(post_id),
            final(self).entries@ == old(self).entries@.remove(post_id),
    {
        match self.entries.remove(&post_id) {
            Some(e) => e,
            None => PostCache::empty(),
        }
    }

    /// Set-add: puts `member` into the reaction set the key names.
    pub fn set_add(&mut self, key: &CacheKey, member: i64)
        requires
            key.kind is Likes || key.kind is Hates,
        ensures
            final(self).entry_state(key.post_id) == apply_cmd(
                old(self).entry_state(key.post_id),
                CacheCmd::SetAdd(*key, member),
                key.post_id,
            ),
            forall|q: i64|
                q != key.post_id ==> #[trigger] final(self).entry_state(q) == old(
                    self,
                ).entry_state(q),
    {
        let mut e = self.take_entry(key.post_id);
        match key.kind {
            KeyKind::Likes => {
                e.likers.insert(member);
            },
            KeyKind::Hates => {
                e.haters.insert(member);
            },
            _ => {
            },
        }
        self.entries.insert(key.post_id, e);
    }

    /// Set-remove: takes `member` out of the reaction set the key names.
    pub fn set_remove(&mut self, key: &CacheKey, member: i64)
        requires
            key.kind is Likes || key.kind is Hates,
        ensures
            final(self).entry_state(key.post_id) == apply_cmd(
                old(self).entry_state(key.post_id),
                CacheCmd::SetRem(*key, member),
                key.post_id,
            ),
            forall|q: i64|
                q != key.post_id ==> #[trigger] final(self).entry_state(q) == old(
                    self,
                ).entry_state(q),
    {
        let mut e = self.take_entry(key.post_id);
        match key.kind {
            KeyKind::Likes => {
                e.likers.remove(&member);
            },
            KeyKind::Hates => {
                e.haters.remove(&member);
            },
            _ => {
            },
        }
        self.entries.insert(key.post_id, e);
    }

    /// Set-membership test on the reaction set the key names.
    pub fn set_contains(&self, key: &CacheKey, member: i64) -> (b: bool)
        requires
            key.kind is Likes || key.kind is Hates,
        ensures
            key.kind is Likes ==> b == self.like_set(key.post_id).contains(member),
            key.kind is Hates ==> b == self.dislike_set(key.post_id).contains(member),
    {
        match self.entries.get(&key.post_id) {
            Some(e) => match key.kind {
                KeyKind::Likes => e.likers.contains(&member),
                KeyKind::Hates => e.haters.contains(&member),
                _ => false,
            },
            None => false,
        }
    }

    /// Steps the counter the key names up by one and returns the new value.
    pub fn counter_incr(&mut self, key: &CacheKey) -> (v: i64)
        requires
            key.kind is LikeCount || key.kind is HateCount || key.kind is CommentsCount,
            old(self).counter_value(*key) < i64::MAX,
        ensures
            final(self).entry_state(key.post_id) == apply_cmd(
                old(self).entry_state(key.post_id),
                CacheCmd::Incr(*key),
                key.post_id,
            ),
            forall|q: i64|
                q != key.post_id ==> #[trigger] final(self).entry_state(q) == old(
                    self,
                ).entry_state(q),
            v as int == old(self).counter_value(*key) + 1,
    {
        let mut e = self.take_entry(key.post_id);
        let v: i64;
        match key.kind {
            KeyKind::LikeCount => {
                e.like_count = e.like_count + 1;
                v = e.like_count;
            },
            KeyKind::HateCount => {
                e.hate_count = e.hate_count + 1;
                v = e.hate_count;
            },
            KeyKind::CommentsCount => {
                e.comment_count = e.comment_count + 1;
                v = e.comment_count;
            },
            _ => {
                v = 0;
            },
        }
        self.entries.insert(key.post_id, e);
        v
    }

    /// Steps the counter the key names down by one and returns the new value.
    pub fn counter_decr(&mut self, key: &CacheKey) -> (v: i64)
        requires
            key.kind is LikeCount || key.kind is HateCount || key.kind is CommentsCount,
            old(self).counter_value(*key) > i64::MIN,
        ensures
            final(self).entry_state(key.post_id) == apply_cmd(
                old(self).entry_state(key.post_id),
                CacheCmd::Decr(*key),
                key.post_id,
            ),
            forall|q: i64|
                q != key.post_id ==> #[trigger] final(self).entry_state(q) == old(
                    self,
                ).entry_state(q),
            v as int == old(self).counter_value(*key) - 1,
    {
        let mut e = self.take_entry(key.post_id);
        let v: i64;
        match key.kind {
            KeyKind::LikeCount => {
                e.like_count = e.like_count - 1;
                v = e.like_count;
            },
            KeyKind::HateCount => {
                e.hate_count = e.hate_count - 1;
                v = e.hate_count;
            },
            KeyKind::CommentsCount => {
                e.comment_count = e.comment_count - 1;
                v = e.comment_count;
            },
            _ => {
                v = 0;
            },
        }
        self.entries.insert(key.post_id, e);
        v
    }

    /// Reads the counter the key names.
    pub fn counter_get(&self, key: &CacheKey) -> (v: i64)
        requires
            key.kind is LikeCount || key.kind is HateCount || key.kind is CommentsCount,
        ensures
            v as int == self.counter_value(*key),
    {
        match self.entries.get(&key.post_id) {
            Some(e) => match key.kind {
                KeyKind::LikeCount => e.like_count,
                KeyKind::HateCount => e.hate_count,
                KeyKind::CommentsCount => e.comment_count,
                _ => 0,
            },
            None => 0,
        }
    }

    /// Drops the slot the key names; it then reads as empty or zero.
    pub fn del(&mut self, key: &CacheKey)
        ensures
            final(self).entry_state(key.post_id) == apply_cmd(
                old(self).entry_state(key.post_id),
                CacheCmd::Del(*key),
                key.post_id,
            ),
            forall|q: i64|
                q != key.post_id ==> #[trigger] final(self).entry_state(q) == old(
                    self,
                ).entry_state(q),
    {
        let mut e = self.take_entry(key.post_id);
        match key.kind {
            KeyKind::Likes => {
                e.likers = HashSet::new();
            },
            KeyKind::LikeCount => {
                e.like_count = 0;
            },
            KeyKind::Hates => {
                e.haters = HashSet::new();
            },
            KeyKind::HateCount => {
                e.hate_count = 0;
            },
            KeyKind::CommentsCount => {
                e.comment_count = 0;
            },
        }
        self.entries.insert(key.post_id, e);
    }

    /// Applies one primitive command: the executable meaning of the command
    /// language, one network round trip in the remote store.
    pub fn apply(&mut self, cmd: &CacheCmd)
        requires
            old(self).cmd_ok(*cmd),
        ensures
            forall|q: i64| #[trigger] final(self).entry_state(q) == apply_cmd(
                old(self).entry_state(q),
                *cmd,
                q,
            ),
    {
        match cmd {
            CacheCmd::SetAdd(k, u) => {
                self.set_add(k, *u);
            },
            CacheCmd::SetRem(k, u) => {
                self.set_remove(k, *u);
            },
            CacheCmd::Incr(k) => {
                self.counter_incr(k);
            },
            CacheCmd::Decr(k) => {
                self.counter_decr(k);
            },
            CacheCmd::Del(k) => {
                self.del(k);
            },
        }
    }
}

} // verus!
