//! The client façade: owns the entity caches and answers entity reads.
//!
//! The client performs no remote calls.  A read (`get_*`) answers from the
//! cache when the entry is fresh and otherwise returns [`Freshness::Stale`],
//! asking the caller to perform the remote fetch and hand the result back
//! through the matching `commit_*` method.  Selector handles built by the
//! `friend`, `group`, ... constructors drive the same methods per key.

use vstd::prelude::*;
use std::sync::Arc;

use crate::cache::{Cached, CachedMap, CacheEntry, Freshness, committed};
use crate::entity::{
    AccountInfo, Friend, FriendGroup, FriendList, FriendListData, Group, GroupInfo, GroupMember,
    GroupMemberInfo, GroupMemberList, arc_map_matches, friends_map_of, friend_groups_map_of,
    members_map_of,
};
use crate::selector::{
    AccountInfoSelector, AllGroupSelector, FriendGroupSelector, FriendListSelector, FriendSelector,
    GroupMemberListSelector, GroupMemberSelector, GroupSelector, MultiGroupSelector,
};
use crate::share;

verus! {

/// Default time-to-live of the friend list cache, in seconds.
pub const FRIEND_LIST_CACHE_TIME: u64 = 3600;

/// Default time-to-live of the group cache, in seconds.
pub const GROUP_CACHE_TIME: u64 = 3600;

/// Default time-to-live of the group member list cache, in seconds.
pub const GROUP_MEMBER_LIST_CACHE_TIME: u64 = 3600;

/// The sequence of `(code, group)` pairs that a sequence of raw group
/// records denotes.
pub open spec fn group_pairs_of(s: Seq<GroupInfo>, r: Seq<(i64, Arc<Group>)>) -> bool {
    r.len() == s.len() && forall|i: int|
        0 <= i < s.len() ==> (#[trigger] r[i]).0 == s[i].code && r[i].1 == Group::of_info(s[i])
}

/// The client.
pub struct Client {
    uin: i64,
    online: bool,
    account: Option<Arc<AccountInfo>>,
    friend_list: Cached<FriendList>,
    groups: CachedMap<Group>,
    group_member_lists: CachedMap<GroupMemberList>,
}

impl Client {
    /// Account number of the logged-in user.
    pub closed spec fn uin_spec(&self) -> i64 {
        self.uin
    }

    /// Whether the connection currently counts as online.
    pub closed spec fn online_spec(&self) -> bool {
        self.online
    }

    /// Account metadata, once the session has recorded it.
    pub closed spec fn account_spec(&self) -> Option<Arc<AccountInfo>> {
        self.account
    }

    /// The friend list cache.
    pub closed spec fn friend_list_cache(&self) -> Cached<FriendList> {
        self.friend_list
    }

    /// The group cache.
    pub closed spec fn groups_cache(&self) -> CachedMap<Group> {
        self.groups
    }

    /// The group member list cache.
    pub closed spec fn member_lists_cache(&self) -> CachedMap<GroupMemberList> {
        self.group_member_lists
    }

    /// The fresh friend list at `now`, to be read only when the cache is fresh.
    pub open spec fn friend_list_value(&self) -> Arc<FriendList> {
        self.friend_list_cache().entry()->Some_0.0
    }

    /// Creates a client for the given account with empty caches and the
    /// default cache times.
    pub fn new(uin: i64) -> (r: Self)
        ensures
            r.uin_spec() == uin,
            !r.online_spec(),
            r.account_spec() is None,
            r.friend_list_cache().entry() is None,
            r.friend_list_cache().ttl() == FRIEND_LIST_CACHE_TIME,
            r.groups_cache().entries() == Map::<i64, CacheEntry<Group>>::empty(),
            r.groups_cache().ttl() == GROUP_CACHE_TIME,
            r.member_lists_cache().entries() == Map::<i64, CacheEntry<GroupMemberList>>::empty(),
            r.member_lists_cache().ttl() == GROUP_MEMBER_LIST_CACHE_TIME,
    {
        Client {
            uin,
            online: false,
            account: None,
            friend_list: Cached::new(FRIEND_LIST_CACHE_TIME),
            groups: CachedMap::new(GROUP_CACHE_TIME),
            group_member_lists: CachedMap::new(GROUP_MEMBER_LIST_CACHE_TIME),
        }
    }

    /// Account number of the logged-in user.
    pub fn uin(&self) -> (r: i64)
        ensures
            r == self.uin_spec(),
    {
        self.uin
    }

    /// Whether the connection currently counts as online.
    pub fn is_online(&self) -> (r: bool)
        ensures
            r == self.online_spec(),
    {
        self.online
    }

    /// Records the connection state reported by the session.
    pub fn set_online(&mut self, online: bool)
        ensures
            final(self).online_spec() == online,
            final(self).uin_spec() == old(self).uin_spec(),
            final(self).account_spec() == old(self).account_spec(),
            final(self).friend_list_cache() == old(self).friend_list_cache(),
            final(self).groups_cache() == old(self).groups_cache(),
            final(self).member_lists_cache() == old(self).member_lists_cache(),
    {
        self.online = online;
    }

    /// Records the account metadata reported by the protocol layer.
    pub fn set_account_info(&mut self, info: AccountInfo)
        ensures
            final(self).account_spec() is Some,
            final(self).account_spec()->Some_0 == info,
            final(self).uin_spec() == old(self).uin_spec(),
            final(self).online_spec() == old(self).online_spec(),
            final(self).friend_list_cache() == old(self).friend_list_cache(),
            final(self).groups_cache() == old(self).groups_cache(),
            final(self).member_lists_cache() == old(self).member_lists_cache(),
    {
        self.account = Some(Arc::new(info));
    }

    /// Builds the account info selector.
    pub fn account_info(&self) -> (r: AccountInfoSelector)
        ensures
            r == AccountInfoSelector,
    {
        AccountInfoSelector
    }

    /// The recorded account metadata, if the session has recorded any.
    pub fn get_account_info(&self) -> (r: Option<Arc<AccountInfo>>)
        ensures
            r == self.account_spec(),
    {
        match &self.account {
            Some(a) => Some(share(a)),
            None => None,
        }
    }

    /// Sets the TTL used by subsequent friend list reads.
    pub fn set_friend_list_cache_time(&mut self, time: u64)
        ensures
            final(self).friend_list_cache().ttl() == time,
            final(self).friend_list_cache().entry() == old(self).friend_list_cache().entry(),
            final(self).uin_spec() == old(self).uin_spec(),
            final(self).online_spec() == old(self).online_spec(),
            final(self).account_spec() == old(self).account_spec(),
            final(self).groups_cache() == old(self).groups_cache(),
            final(self).member_lists_cache() == old(self).member_lists_cache(),
    {
        self.friend_list.set_cache_time(time);
    }

    /// Sets the TTL used by subsequent group reads.
    pub fn set_group_cache_time(&mut self, time: u64)
        ensures
            final(self).groups_cache().ttl() == time,
            final(self).groups_cache().entries() == old(self).groups_cache().entries(),
            final(self).uin_spec() == old(self).uin_spec(),
            final(self).online_spec() == old(self).online_spec(),
            final(self).account_spec() == old(self).account_spec(),
            final(self).friend_list_cache() == old(self).friend_list_cache(),
            final(self).member_lists_cache() == old(self).member_lists_cache(),
    {
        self.groups.set_cache_time(time);
    }

    /// Sets the TTL used by subsequent group member list reads.
    pub fn set_group_member_list_cache_time(&mut self, time: u64)
        ensures
            final(self).member_lists_cache().ttl() == time,
            final(self).member_lists_cache().entries() == old(self).member_lists_cache().entries(),
            final(self).uin_spec() == old(self).uin_spec(),
            final(self).online_spec() == old(self).online_spec(),
            final(self).account_spec() == old(self).account_spec(),
            final(self).friend_list_cache() == old(self).friend_list_cache(),
            final(self).groups_cache() == old(self).groups_cache(),
    {
        self.group_member_lists.set_cache_time(time);
    }

    /// Builds the friend list selector.
    pub fn friend_list(&self) -> (r: FriendListSelector)
        ensures
            r == FriendListSelector,
    {
        FriendListSelector
    }

    /// Answers the friend list from the cache when it is fresh at `now`;
    /// otherwise the caller must fetch it remotely and commit the result.
    pub fn get_friend_list(&self, now: u64) -> (r: Freshness<Arc<FriendList>>)
        ensures
            r == if self.friend_list_cache().fresh(now) {
                Freshness::Fresh(self.friend_list_value())
            } else {
                Freshness::<Arc<FriendList>>::Stale
            },
    {
        self.friend_list.lookup(now)
    }

    /// Stores a remotely fetched friend list, stamped `now`, and hands the
    /// stored list back.
    pub fn commit_friend_list(&mut self, data: FriendListData, now: u64) -> (r: Arc<FriendList>)
        ensures
            final(self).friend_list_cache().entry() == Some((r, now)),
            final(self).friend_list_cache().ttl() == old(self).friend_list_cache().ttl(),
            arc_map_matches(r.friends_spec(), friends_map_of(data.friends@)),
            arc_map_matches(r.friend_groups_spec(), friend_groups_map_of(data.friend_groups@)),
            r.total_count_spec() == data.total_count,
            r.online_count_spec() == data.online_friend_count,
            final(self).uin_spec() == old(self).uin_spec(),
            final(self).online_spec() == old(self).online_spec(),
            final(self).account_spec() == old(self).account_spec(),
            final(self).groups_cache() == old(self).groups_cache(),
            final(self).member_lists_cache() == old(self).member_lists_cache(),
    {
        let list = Arc::new(FriendList::new(data));
        self.friend_list.commit(list, now)
    }

    /// Marks the friend list cache stale; the next read must fetch.
    pub fn flush_friend_list(&mut self)
        ensures
            final(self).friend_list_cache().entry() is None,
            final(self).friend_list_cache().ttl() == old(self).friend_list_cache().ttl(),
            final(self).uin_spec() == old(self).uin_spec(),
            final(self).online_spec() == old(self).online_spec(),
            final(self).account_spec() == old(self).account_spec(),
            final(self).groups_cache() == old(self).groups_cache(),
            final(self).member_lists_cache() == old(self).member_lists_cache(),
    {
        self.friend_list.make_dirty();
    }

    /// Builds a friend selector.
    pub fn friend(&self, uin: i64) -> (r: FriendSelector)
        ensures
            r.uin == uin,
    {
        FriendSelector { uin }
    }

    /// Answers a friend from the cached friend list when that list is fresh
    /// at `now`.  `Fresh(None)` means the fresh list knows no such friend.
    pub fn get_friend(&self, uin: i64, now: u64) -> (r: Freshness<Option<Arc<Friend>>>)
        ensures
            !self.friend_list_cache().fresh(now) ==> r is Stale,
            self.friend_list_cache().fresh(now) ==> r == Freshness::Fresh(
                if self.friend_list_value().friends_spec().contains_key(uin) {
                    Some(self.friend_list_value().friends_spec()[uin])
                } else {
                    Option::<Arc<Friend>>::None
                },
            ),
    {
        match self.friend_list.lookup(now) {
            Freshness::Fresh(list) => Freshness::Fresh(list.friend(uin)),
            Freshness::Stale => Freshness::Stale,
        }
    }

    /// Builds a friend group selector.
    pub fn friend_group(&self, id: u8) -> (r: FriendGroupSelector)
        ensures
            r.id == id,
    {
        FriendGroupSelector { id }
    }

    /// Answers a friend group from the cached friend list when that list is
    /// fresh at `now`.
    pub fn get_friend_group(&self, id: u8, now: u64) -> (r: Freshness<Option<Arc<FriendGroup>>>)
        ensures
            !self.friend_list_cache().fresh(now) ==> r is Stale,
            self.friend_list_cache().fresh(now) ==> r == Freshness::Fresh(
                if self.friend_list_value().friend_groups_spec().contains_key(id) {
                    Some(self.friend_list_value().friend_groups_spec()[id])
                } else {
                    Option::<Arc<FriendGroup>>::None
                },
            ),
    {
        match self.friend_list.lookup(now) {
            Freshness::Fresh(list) => Freshness::Fresh(list.friend_group(id)),
            Freshness::Stale => Freshness::Stale,
        }
    }

    /// Builds a group selector.
    pub fn group(&self, code: i64) -> (r: GroupSelector)
        ensures
            r.code == code,
    {
        GroupSelector { code }
    }

    /// Answers a group from the cache when its entry is fresh at `now`.
    /// `Fresh(None)` repeats a remembered "no such group" answer.
    pub fn get_group(&self, code: i64, now: u64) -> (r: Freshness<Option<Arc<Group>>>)
        ensures
            r == if self.groups_cache().fresh_entry(code, now) {
                Freshness::Fresh(self.groups_cache().entries()[code].val)
            } else {
                Freshness::<Option<Arc<Group>>>::Stale
            },
    {
        self.groups.lookup(code, now)
    }

    /// Stores the outcome of one remote group fetch, stamped `now`; `None`
    /// remembers that the group does not exist.  Hands the stored value back.
    pub fn commit_group(&mut self, code: i64, fetched: Option<GroupInfo>, now: u64) -> (r: Option<
        Arc<Group>,
    >)
        ensures
            final(self).groups_cache().ttl() == old(self).groups_cache().ttl(),
            match fetched {
                Some(info) => r is Some && r->Some_0 == Group::of_info(info) && final(self).groups_cache().entries() == old(self).groups_cache().entries().insert(
                    code,
                    (CacheEntry { val: Some(r->Some_0), at: now }),
                ),
                None => r is None && final(self).groups_cache().entries() == old(self).groups_cache().entries().insert(
                    code,
                    (CacheEntry::<Group> { val: None, at: now }),
                ),
            },
            final(self).uin_spec() == old(self).uin_spec(),
            final(self).online_spec() == old(self).online_spec(),
            final(self).account_spec() == old(self).account_spec(),
            final(self).friend_list_cache() == old(self).friend_list_cache(),
            final(self).member_lists_cache() == old(self).member_lists_cache(),
    {
        match fetched {
            Some(info) => self.groups.commit(code, Some(Arc::new(Group::new(info))), now),
            None => self.groups.commit(code, None, now),
        }
    }

    /// Builds a selector for several groups at once.
    pub fn groups(&self, codes: Vec<i64>) -> (r: MultiGroupSelector)
        ensures
            r.codes == codes,
    {
        MultiGroupSelector { codes }
    }

    /// Partitions the requested group codes at `now` into pairs answerable
    /// from the cache and codes that one batched remote call must cover.
    pub fn get_groups(&self, codes: &Vec<i64>, now: u64) -> (r: (
        Vec<(i64, Arc<Group>)>,
        Vec<i64>,
    ))
        ensures
            r.0@ == self.groups_cache().fresh_pairs_of(codes@, now),
            r.1@ == self.groups_cache().stale_keys_of(codes@, now),
    {
        self.groups.plan_batch(codes, now)
    }

    /// Stores the outcome of one batched remote group fetch, stamped `now`.
    /// Hands back the stored `(code, group)` pairs, in fetch order.
    pub fn commit_groups(&mut self, fetched: Vec<GroupInfo>, now: u64) -> (r: Vec<
        (i64, Arc<Group>),
    >)
        ensures
            group_pairs_of(fetched@, r@),
            final(self).groups_cache().entries() == committed(
                old(self).groups_cache().entries(),
                r@,
                now,
            ),
            final(self).groups_cache().ttl() == old(self).groups_cache().ttl(),
            final(self).uin_spec() == old(self).uin_spec(),
            final(self).online_spec() == old(self).online_spec(),
            final(self).account_spec() == old(self).account_spec(),
            final(self).friend_list_cache() == old(self).friend_list_cache(),
            final(self).member_lists_cache() == old(self).member_lists_cache(),
    {
        let pairs = group_pairs(fetched);
        self.groups.commit_batch(&pairs, now);
        pairs
    }

    /// Reads back every requested group that is fresh and present at `now`;
    /// used to assemble the merged answer of a batched get.
    pub fn collect_groups(&self, codes: &Vec<i64>, now: u64) -> (r: Vec<(i64, Arc<Group>)>)
        ensures
            r@ == self.groups_cache().fresh_pairs_of(codes@, now),
    {
        self.groups.collect_fresh(codes, now)
    }

    /// Builds the all-groups selector.
    pub fn all_groups(&self) -> (r: AllGroupSelector)
        ensures
            r == AllGroupSelector,
    {
        AllGroupSelector
    }

    /// Replaces the whole group cache with the outcome of a fetch-all remote
    /// call, stamped `now`: remote truth is the full set, and groups absent
    /// from it are dropped.  Hands back the stored pairs, in fetch order.
    pub fn get_all_groups(&mut self, fetched: Vec<GroupInfo>, now: u64) -> (r: Vec<
        (i64, Arc<Group>),
    >)
        ensures
            group_pairs_of(fetched@, r@),
            final(self).groups_cache().entries() == committed(
                Map::<i64, CacheEntry<Group>>::empty(),
                r@,
                now,
            ),
            final(self).groups_cache().ttl() == old(self).groups_cache().ttl(),
            final(self).uin_spec() == old(self).uin_spec(),
            final(self).online_spec() == old(self).online_spec(),
            final(self).account_spec() == old(self).account_spec(),
            final(self).friend_list_cache() == old(self).friend_list_cache(),
            final(self).member_lists_cache() == old(self).member_lists_cache(),
    {
        let pairs = group_pairs(fetched);
        self.groups.commit_all(&pairs, now);
        pairs
    }

    /// Builds a group member selector.
    pub fn group_member(&self, group_code: i64, uin: i64) -> (r: GroupMemberSelector)
        ensures
            r.group_code == group_code,
            r.uin == uin,
    {
        GroupMemberSelector { group_code, uin }
    }

    /// Answers a group member from the cached roster of the group when that
    /// roster is fresh at `now`.  `Fresh(None)` means the fresh roster knows
    /// no such member, or remembers that the group does not exist.
    pub fn get_group_member(&self, group_code: i64, uin: i64, now: u64) -> (r: Freshness<
        Option<Arc<GroupMember>>,
    >)
        ensures
            !self.member_lists_cache().fresh_entry(group_code, now) ==> r is Stale,
            self.member_lists_cache().fresh_entry(group_code, now) ==> r == Freshness::Fresh(
                {
                    let entry = self.member_lists_cache().entries()[group_code].val;
                    if entry is Some && entry->Some_0.members_spec().contains_key(uin) {
                        Some(entry->Some_0.members_spec()[uin])
                    } else {
                        Option::<Arc<GroupMember>>::None
                    }
                },
            ),
    {
        match self.group_member_lists.lookup(group_code, now) {
            Freshness::Fresh(Some(list)) => Freshness::Fresh(list.member(uin)),
            Freshness::Fresh(None) => Freshness::Fresh(None),
            Freshness::Stale => Freshness::Stale,
        }
    }

    /// Builds a group member list selector.
    pub fn group_member_list(&self, group_code: i64) -> (r: GroupMemberListSelector)
        ensures
            r.group_code == group_code,
    {
        GroupMemberListSelector { group_code }
    }

    /// Answers a group's member roster from the cache when its entry is
    /// fresh at `now`.  `Fresh(None)` repeats a remembered "no such group".
    pub fn get_group_member_list(&self, group_code: i64, now: u64) -> (r: Freshness<
        Option<Arc<GroupMemberList>>,
    >)
        ensures
            r == if self.member_lists_cache().fresh_entry(group_code, now) {
                Freshness::Fresh(self.member_lists_cache().entries()[group_code].val)
            } else {
                Freshness::<Option<Arc<GroupMemberList>>>::Stale
            },
    {
        self.group_member_lists.lookup(group_code, now)
    }

    /// Stores the outcome of one remote roster fetch for `group_code`,
    /// stamped `now`; `None` remembers that the group does not exist.
    pub fn commit_group_member_list(
        &mut self,
        group_code: i64,
        fetched: Option<Vec<GroupMemberInfo>>,
        now: u64,
    ) -> (r: Option<Arc<GroupMemberList>>)
        ensures
            final(self).member_lists_cache().ttl() == old(self).member_lists_cache().ttl(),
            match fetched {
                Some(data) => {
                    &&& r is Some
                    &&& r->Some_0.group_code_spec() == group_code
                    &&& arc_map_matches(r->Some_0.members_spec(), members_map_of(data@))
                    &&& r->Some_0.total_count_spec() == data@.len() as i16
                    &&& final(self).member_lists_cache().entries() == old(self).member_lists_cache().entries().insert(
                        group_code,
                        (CacheEntry { val: Some(r->Some_0), at: now }),
                    )
                },
                None => r is None && final(self).member_lists_cache().entries() == old(self).member_lists_cache().entries().insert(
                    group_code,
                    (CacheEntry::<GroupMemberList> { val: None, at: now }),
                ),
            },
            final(self).uin_spec() == old(self).uin_spec(),
            final(self).online_spec() == old(self).online_spec(),
            final(self).account_spec() == old(self).account_spec(),
            final(self).friend_list_cache() == old(self).friend_list_cache(),
            final(self).groups_cache() == old(self).groups_cache(),
    {
        match fetched {
            Some(data) => self.group_member_lists.commit(
                group_code,
                Some(Arc::new(GroupMemberList::new(group_code, data))),
                now,
            ),
            None => self.group_member_lists.commit(group_code, None, now),
        }
    }

    /// Marks one group's cache entry stale.
    pub fn flush_group(&mut self, code: i64)
        ensures
            final(self).groups_cache().entries() == old(self).groups_cache().entries().remove(
                code,
            ),
            final(self).groups_cache().ttl() == old(self).groups_cache().ttl(),
            final(self).uin_spec() == old(self).uin_spec(),
            final(self).online_spec() == old(self).online_spec(),
            final(self).account_spec() == old(self).account_spec(),
            final(self).friend_list_cache() == old(self).friend_list_cache(),
            final(self).member_lists_cache() == old(self).member_lists_cache(),
    {
        self.groups.make_dirty(code);
    }

    /// Marks several groups' cache entries stale.
    pub fn flush_groups(&mut self, codes: &Vec<i64>)
        ensures
            final(self).groups_cache().entries() == old(self).groups_cache().entries().remove_keys(codes@.to_set()),
            final(self).groups_cache().ttl() == old(self).groups_cache().ttl(),
            final(self).uin_spec() == old(self).uin_spec(),
            final(self).online_spec() == old(self).online_spec(),
            final(self).account_spec() == old(self).account_spec(),
            final(self).friend_list_cache() == old(self).friend_list_cache(),
            final(self).member_lists_cache() == old(self).member_lists_cache(),
    {
        self.groups.make_dirty_batch(codes);
    }

    /// Marks every group's cache entry stale.
    pub fn flush_all_groups(&mut self)
        ensures
            final(self).groups_cache().entries() == Map::<i64, CacheEntry<Group>>::empty(),
            final(self).groups_cache().ttl() == old(self).groups_cache().ttl(),
            final(self).uin_spec() == old(self).uin_spec(),
            final(self).online_spec() == old(self).online_spec(),
            final(self).account_spec() == old(self).account_spec(),
            final(self).friend_list_cache() == old(self).friend_list_cache(),
            final(self).member_lists_cache() == old(self).member_lists_cache(),
    {
        self.groups.make_dirty_all();
    }

    /// Marks one group's member roster cache entry stale.
    pub fn flush_group_member_list(&mut self, group_code: i64)
        ensures
            final(self).member_lists_cache().entries() == old(self).member_lists_cache().entries().remove(group_code),
            final(self).member_lists_cache().ttl() == old(self).member_lists_cache().ttl(),
            final(self).uin_spec() == old(self).uin_spec(),
            final(self).online_spec() == old(self).online_spec(),
            final(self).account_spec() == old(self).account_spec(),
            final(self).friend_list_cache() == old(self).friend_list_cache(),
            final(self).groups_cache() == old(self).groups_cache(),
    {
        self.group_member_lists.make_dirty(group_code);
    }
}

/// Turns raw group records into the `(code, group)` pairs the cache stores.
fn group_pairs(fetched: Vec<GroupInfo>) -> (r: Vec<(i64, Arc<Group>)>)
    ensures
        group_pairs_of(fetched@, r@),
{
    let mut fetched = fetched;
    let ghost all = fetched@;
    let mut out: Vec<(i64, Arc<Group>)> = Vec::new();
    let mut consumed: usize = 0;
    let len: usize = fetched.len();
    let ghost n = len as nat;
    while fetched.len() > 0
        invariant
            n <= usize::MAX,
            all.len() == n,
            consumed + fetched@.len() == n,
            fetched@ == all.skip(consumed as int),
            out@.len() == consumed,
            forall|i: int|
                0 <= i < consumed ==> (#[trigger] out@[i]).0 == all[i].code && out@[i].1
                    == Group::of_info(all[i]),
        decreases fetched.len(),
    {
        let info = fetched.remove(0);
        proof {
            assert(all.skip(consumed as int).drop_first() =~= all.skip(consumed + 1 as int));
            assert(all.skip(consumed as int)[0] == all[consumed as int]);
        }
        let code = info.code;
        out.push((code, Arc::new(Group::new(info))));
        consumed = consumed + 1;
    }
    proof {
        assert(all.skip(consumed as int) =~= all.skip(n as int));
    }
    out
}

} // verus!
