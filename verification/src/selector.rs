//! Selector handles for remote entities.
//!
//! A selector carries no data: it is a re-creatable capability naming a
//! remote entity (or entity collection) by key.  Its operations delegate to
//! the client's caches: `fetch` answers from the cache or demands a remote
//! fetch, `flush` marks the backing entry stale, and `flush_and_fetch` takes
//! the result of the forced remote round trip and commits it before
//! answering.  Selectors for members of a parent collection (a friend, a
//! roster member) flush through the parent collection's cache key, because
//! the remote source only offers fetching the whole collection.

use vstd::prelude::*;
use std::sync::Arc;

use crate::cache::{CacheEntry, Freshness, committed};
use crate::client::Client;
use crate::entity::{
    AccountInfo, Friend, FriendGroup, FriendList, FriendListData, Group, GroupInfo, GroupMember,
    GroupMemberInfo, GroupMemberList, arc_map_matches, friends_map_of, friend_groups_map_of,
    members_map_of,
};
use crate::client::group_pairs_of;

verus! {

/// A handle on a remote entity whose cached copy can be invalidated.
pub trait Selector {
    /// Marks this selector's backing cache entry (or entries) stale, so the
    /// next fetch hits the remote source.
    fn flush(&self, client: &mut Client);
}

/// A selector whose entity always exists once fetched.
pub trait SingleSelector: Selector {
    type Target;

    /// Answers from the cache when fresh at `now`; otherwise the caller must
    /// fetch remotely and commit.
    fn fetch(&self, client: &Client, now: u64) -> Freshness<Self::Target>;
}

/// A selector whose entity may not exist remotely.
pub trait OptionSelector: Selector {
    type Target;

    /// Answers from the cache when fresh at `now`; `Fresh(None)` means the
    /// fresh cache knows no such entity.
    fn fetch(&self, client: &Client, now: u64) -> Freshness<Option<Self::Target>>;
}

/// A selector naming several keyed entities at once.
pub trait MultiSelector: Selector {
    type Key;

    type Target;

    /// Partitions this selector's keys at `now` into pairs answerable from
    /// the cache and keys that one batched remote call must cover.
    fn fetch(&self, client: &Client, now: u64) -> (Vec<(Self::Key, Self::Target)>, Vec<Self::Key>);
}

/// Selector for the account metadata of the logged-in user.
pub struct AccountInfoSelector;

impl AccountInfoSelector {
    /// The recorded account metadata, if the session has recorded any.
    pub fn fetch(&self, client: &Client) -> (r: Option<Arc<AccountInfo>>)
        ensures
            r == client.account_spec(),
    {
        client.get_account_info()
    }
}

impl Selector for AccountInfoSelector {
    /// Account metadata is read from session state, not cached: nothing to flush.
    fn flush(&self, client: &mut Client)
        ensures
            *final(client) == *old(client),
    {
    }
}

/// Selector for the friend list.
pub struct FriendListSelector;

impl Selector for FriendListSelector {
    fn flush(&self, client: &mut Client)
        ensures
            final(client).friend_list_cache().entry() is None,
            final(client).friend_list_cache().ttl() == old(client).friend_list_cache().ttl(),
            final(client).uin_spec() == old(client).uin_spec(),
            final(client).online_spec() == old(client).online_spec(),
            final(client).account_spec() == old(client).account_spec(),
            final(client).groups_cache() == old(client).groups_cache(),
            final(client).member_lists_cache() == old(client).member_lists_cache(),
    {
        client.flush_friend_list();
    }
}

impl SingleSelector for FriendListSelector {
    type Target = Arc<FriendList>;

    fn fetch(&self, client: &Client, now: u64) -> (r: Freshness<Arc<FriendList>>)
        ensures
            r == if client.friend_list_cache().fresh(now) {
                Freshness::Fresh(client.friend_list_value())
            } else {
                Freshness::<Arc<FriendList>>::Stale
            },
    {
        client.get_friend_list(now)
    }
}

impl FriendListSelector {
    /// Forces a remote round trip: drops the cached list, commits the newly
    /// fetched one, and answers with it.
    pub fn flush_and_fetch(&self, client: &mut Client, data: FriendListData, now: u64) -> (r: Arc<
        FriendList,
    >)
        ensures
            final(client).friend_list_cache().entry() == Some((r, now)),
            final(client).friend_list_cache().ttl() == old(client).friend_list_cache().ttl(),
            arc_map_matches(r.friends_spec(), friends_map_of(data.friends@)),
            arc_map_matches(r.friend_groups_spec(), friend_groups_map_of(data.friend_groups@)),
            r.total_count_spec() == data.total_count,
            r.online_count_spec() == data.online_friend_count,
    {
        client.flush_friend_list();
        client.commit_friend_list(data, now)
    }
}

/// Selector for one friend, by account number.
pub struct FriendSelector {
    /// Account number of the friend.
    pub uin: i64,
}

impl Selector for FriendSelector {
    /// A friend lives in the friend list's cache, so flushing one friend
    /// flushes the whole list.
    fn flush(&self, client: &mut Client)
        ensures
            final(client).friend_list_cache().entry() is None,
            final(client).friend_list_cache().ttl() == old(client).friend_list_cache().ttl(),
            final(client).uin_spec() == old(client).uin_spec(),
            final(client).online_spec() == old(client).online_spec(),
            final(client).account_spec() == old(client).account_spec(),
            final(client).groups_cache() == old(client).groups_cache(),
            final(client).member_lists_cache() == old(client).member_lists_cache(),
    {
        client.flush_friend_list();
    }
}

impl OptionSelector for FriendSelector {
    type Target = Arc<Friend>;

    fn fetch(&self, client: &Client, now: u64) -> (r: Freshness<Option<Arc<Friend>>>)
        ensures
            !client.friend_list_cache().fresh(now) ==> r is Stale,
            client.friend_list_cache().fresh(now) ==> r == Freshness::Fresh(
                if client.friend_list_value().friends_spec().contains_key(self.uin) {
                    Some(client.friend_list_value().friends_spec()[self.uin])
                } else {
                    Option::<Arc<Friend>>::None
                },
            ),
    {
        client.get_friend(self.uin, now)
    }
}

impl FriendSelector {
    /// Forces a remote round trip: drops the cached friend list, commits the
    /// newly fetched one, and answers with this friend from it.
    pub fn flush_and_fetch(&self, client: &mut Client, data: FriendListData, now: u64) -> (r:
        Option<Arc<Friend>>)
        ensures
            final(client).friend_list_cache().entry() is Some,
            final(client).friend_list_cache().entry()->Some_0.1 == now,
            r is Some <==> friends_map_of(data.friends@).contains_key(self.uin),
            r is Some ==> r->Some_0 == friends_map_of(data.friends@)[self.uin],
    {
        client.flush_friend_list();
        let list = client.commit_friend_list(data, now);
        list.friend(self.uin)
    }
}

impl Friend {
    /// The selector of the friend group this friend belongs to.
    pub fn friend_group(&self) -> (r: FriendGroupSelector)
        ensures
            r.id == self.group_id,
    {
        FriendGroupSelector { id: self.group_id }
    }
}

/// Selector for one friend group, by id.
pub struct FriendGroupSelector {
    /// Friend group id.
    pub id: u8,
}

impl Selector for FriendGroupSelector {
    /// A friend group lives in the friend list's cache, so flushing one
    /// group flushes the whole list.
    fn flush(&self, client: &mut Client)
        ensures
            final(client).friend_list_cache().entry() is None,
            final(client).friend_list_cache().ttl() == old(client).friend_list_cache().ttl(),
            final(client).uin_spec() == old(client).uin_spec(),
            final(client).online_spec() == old(client).online_spec(),
            final(client).account_spec() == old(client).account_spec(),
            final(client).groups_cache() == old(client).groups_cache(),
            final(client).member_lists_cache() == old(client).member_lists_cache(),
    {
        client.flush_friend_list();
    }
}

impl OptionSelector for FriendGroupSelector {
    type Target = Arc<FriendGroup>;

    fn fetch(&self, client: &Client, now: u64) -> (r: Freshness<Option<Arc<FriendGroup>>>)
        ensures
            !client.friend_list_cache().fresh(now) ==> r is Stale,
            client.friend_list_cache().fresh(now) ==> r == Freshness::Fresh(
                if client.friend_list_value().friend_groups_spec().contains_key(self.id) {
                    Some(client.friend_list_value().friend_groups_spec()[self.id])
                } else {
                    Option::<Arc<FriendGroup>>::None
                },
            ),
    {
        client.get_friend_group(self.id, now)
    }
}

/// Selector for one group, by group code.
pub struct GroupSelector {
    /// Group code.
    pub code: i64,
}

impl GroupSelector {
    /// The selector of this group's member roster.
    pub fn member_list(&self) -> (r: GroupMemberListSelector)
        ensures
            r.group_code == self.code,
    {
        GroupMemberListSelector { group_code: self.code }
    }

    /// The selector of one member of this group.
    pub fn member(&self, uin: i64) -> (r: GroupMemberSelector)
        ensures
            r.group_code == self.code,
            r.uin == uin,
    {
        GroupMemberSelector { group_code: self.code, uin }
    }

    /// Forces a remote round trip: drops this group's cache entry, commits
    /// the newly fetched outcome, and answers with it.
    pub fn flush_and_fetch(
        &self,
        client: &mut Client,
        fetched: Option<GroupInfo>,
        now: u64,
    ) -> (r: Option<Arc<Group>>)
        ensures
            final(client).groups_cache().ttl() == old(client).groups_cache().ttl(),
            match fetched {
                Some(info) => r is Some && r->Some_0 == Group::of_info(info) && final(client).groups_cache().entries() == old(client).groups_cache().entries().remove(
                    self.code,
                ).insert(self.code, (CacheEntry { val: Some(r->Some_0), at: now })),
                None => r is None && final(client).groups_cache().entries() == old(client).groups_cache().entries().remove(self.code).insert(
                    self.code,
                    (CacheEntry::<Group> { val: None, at: now }),
                ),
            },
    {
        client.flush_group(self.code);
        client.commit_group(self.code, fetched, now)
    }
}

impl Selector for GroupSelector {
    fn flush(&self, client: &mut Client)
        ensures
            final(client).groups_cache().entries() == old(client).groups_cache().entries().remove(self.code),
            final(client).groups_cache().ttl() == old(client).groups_cache().ttl(),
            final(client).uin_spec() == old(client).uin_spec(),
            final(client).online_spec() == old(client).online_spec(),
            final(client).account_spec() == old(client).account_spec(),
            final(client).friend_list_cache() == old(client).friend_list_cache(),
            final(client).member_lists_cache() == old(client).member_lists_cache(),
    {
        client.flush_group(self.code);
    }
}

impl OptionSelector for GroupSelector {
    type Target = Arc<Group>;

    fn fetch(&self, client: &Client, now: u64) -> (r: Freshness<Option<Arc<Group>>>)
        ensures
            r == if client.groups_cache().fresh_entry(self.code, now) {
                Freshness::Fresh(client.groups_cache().entries()[self.code].val)
            } else {
                Freshness::<Option<Arc<Group>>>::Stale
            },
    {
        client.get_group(self.code, now)
    }
}

/// Selector for several groups at once, by group code.
pub struct MultiGroupSelector {
    /// Group codes.
    pub codes: Vec<i64>,
}

impl MultiGroupSelector {
    /// The group codes this selector names.
    pub fn codes(&self) -> (r: &Vec<i64>)
        ensures
            r == &self.codes,
    {
        &self.codes
    }

    /// Forces a remote round trip for every named code: drops their cache
    /// entries, commits the batch, and answers with the stored pairs.
    pub fn flush_and_fetch(
        &self,
        client: &mut Client,
        fetched: Vec<GroupInfo>,
        now: u64,
    ) -> (r: Vec<(i64, Arc<Group>)>)
        ensures
            group_pairs_of(fetched@, r@),
            final(client).groups_cache().entries() == committed(
                old(client).groups_cache().entries().remove_keys(self.codes@.to_set()),
                r@,
                now,
            ),
    {
        client.flush_groups(&self.codes);
        client.commit_groups(fetched, now)
    }
}

impl Selector for MultiGroupSelector {
    fn flush(&self, client: &mut Client)
        ensures
            final(client).groups_cache().entries() == old(client).groups_cache().entries().remove_keys(self.codes@.to_set()),
            final(client).groups_cache().ttl() == old(client).groups_cache().ttl(),
            final(client).uin_spec() == old(client).uin_spec(),
            final(client).online_spec() == old(client).online_spec(),
            final(client).account_spec() == old(client).account_spec(),
            final(client).friend_list_cache() == old(client).friend_list_cache(),
            final(client).member_lists_cache() == old(client).member_lists_cache(),
    {
        client.flush_groups(&self.codes);
    }
}

impl MultiSelector for MultiGroupSelector {
    type Key = i64;

    type Target = Arc<Group>;

    fn fetch(&self, client: &Client, now: u64) -> (r: (Vec<(i64, Arc<Group>)>, Vec<i64>))
        ensures
            r.0@ == client.groups_cache().fresh_pairs_of(self.codes@, now),
            r.1@ == client.groups_cache().stale_keys_of(self.codes@, now),
    {
        client.get_groups(&self.codes, now)
    }
}

/// Selector for the full set of groups.
pub struct AllGroupSelector;

impl AllGroupSelector {
    /// A fetch through this selector is always a remote round trip that
    /// replaces the whole group cache; it takes the fetched full set and
    /// answers with the stored pairs.
    pub fn fetch(&self, client: &mut Client, fetched: Vec<GroupInfo>, now: u64) -> (r: Vec<
        (i64, Arc<Group>),
    >)
        ensures
            group_pairs_of(fetched@, r@),
            final(client).groups_cache().entries() == committed(
                Map::<i64, CacheEntry<Group>>::empty(),
                r@,
                now,
            ),
    {
        client.get_all_groups(fetched, now)
    }
}

impl Selector for AllGroupSelector {
    fn flush(&self, client: &mut Client)
        ensures
            final(client).groups_cache().entries() == Map::<i64, CacheEntry<Group>>::empty(),
            final(client).groups_cache().ttl() == old(client).groups_cache().ttl(),
            final(client).uin_spec() == old(client).uin_spec(),
            final(client).online_spec() == old(client).online_spec(),
            final(client).account_spec() == old(client).account_spec(),
            final(client).friend_list_cache() == old(client).friend_list_cache(),
            final(client).member_lists_cache() == old(client).member_lists_cache(),
    {
        client.flush_all_groups();
    }
}

/// Selector for one group member, by group code and account number.
pub struct GroupMemberSelector {
    /// Group code.
    pub group_code: i64,
    /// Account number of the member.
    pub uin: i64,
}

impl Selector for GroupMemberSelector {
    /// A member lives in its group's roster cache, so flushing one member
    /// flushes the whole roster.
    fn flush(&self, client: &mut Client)
        ensures
            final(client).member_lists_cache().entries() == old(client).member_lists_cache().entries().remove(self.group_code),
            final(client).member_lists_cache().ttl() == old(client).member_lists_cache().ttl(),
            final(client).uin_spec() == old(client).uin_spec(),
            final(client).online_spec() == old(client).online_spec(),
            final(client).account_spec() == old(client).account_spec(),
            final(client).friend_list_cache() == old(client).friend_list_cache(),
            final(client).groups_cache() == old(client).groups_cache(),
    {
        client.flush_group_member_list(self.group_code);
    }
}

impl OptionSelector for GroupMemberSelector {
    type Target = Arc<GroupMember>;

    fn fetch(&self, client: &Client, now: u64) -> (r: Freshness<Option<Arc<GroupMember>>>)
        ensures
            !client.member_lists_cache().fresh_entry(self.group_code, now) ==> r is Stale,
            client.member_lists_cache().fresh_entry(self.group_code, now) ==> r == Freshness::Fresh(
                {
                    let entry = client.member_lists_cache().entries()[self.group_code].val;
                    if entry is Some && entry->Some_0.members_spec().contains_key(self.uin) {
                        Some(entry->Some_0.members_spec()[self.uin])
                    } else {
                        Option::<Arc<GroupMember>>::None
                    }
                },
            ),
    {
        client.get_group_member(self.group_code, self.uin, now)
    }
}

/// Selector for one group's member roster, by group code.
pub struct GroupMemberListSelector {
    /// Group code.
    pub group_code: i64,
}

impl GroupMemberListSelector {
    /// Forces a remote round trip: drops this roster's cache entry, commits
    /// the newly fetched outcome, and answers with it.
    pub fn flush_and_fetch(
        &self,
        client: &mut Client,
        fetched: Option<Vec<GroupMemberInfo>>,
        now: u64,
    ) -> (r: Option<Arc<GroupMemberList>>)
        ensures
            match fetched {
                Some(data) => {
                    &&& r is Some
                    &&& r->Some_0.group_code_spec() == self.group_code
                    &&& arc_map_matches(r->Some_0.members_spec(), members_map_of(data@))
                    &&& r->Some_0.total_count_spec() == data@.len() as i16
                },
                None => r is None,
            },
    {
        client.flush_group_member_list(self.group_code);
        client.commit_group_member_list(self.group_code, fetched, now)
    }
}

impl Selector for GroupMemberListSelector {
    fn flush(&self, client: &mut Client)
        ensures
            final(client).member_lists_cache().entries() == old(client).member_lists_cache().entries().remove(self.group_code),
            final(client).member_lists_cache().ttl() == old(client).member_lists_cache().ttl(),
            final(client).uin_spec() == old(client).uin_spec(),
            final(client).online_spec() == old(client).online_spec(),
            final(client).account_spec() == old(client).account_spec(),
            final(client).friend_list_cache() == old(client).friend_list_cache(),
            final(client).groups_cache() == old(client).groups_cache(),
    {
        client.flush_group_member_list(self.group_code);
    }
}

impl OptionSelector for GroupMemberListSelector {
    type Target = Arc<GroupMemberList>;

    fn fetch(&self, client: &Client, now: u64) -> (r: Freshness<Option<Arc<GroupMemberList>>>)
        ensures
            r == if client.member_lists_cache().fresh_entry(self.group_code, now) {
                Freshness::Fresh(client.member_lists_cache().entries()[self.group_code].val)
            } else {
                Freshness::<Option<Arc<GroupMemberList>>>::Stale
            },
    {
        client.get_group_member_list(self.group_code, now)
    }
}

} // verus!
