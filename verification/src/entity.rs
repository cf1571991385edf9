//! Remote entities and their local records.
//!
//! The protocol layer hands the session raw records (`FriendInfo`,
//! `GroupInfo`, ...); the constructors here turn them into the entity values
//! that the caches store and callers read.  Entities carrying a whole
//! collection (`FriendList`, `GroupMemberList`) key their members by id and
//! share each member through a reference-counted handle, so one fetched
//! collection serves many readers.

use vstd::prelude::*;
use std::collections::HashMap;
use std::sync::Arc;

use crate::share;

verus! {

broadcast use vstd::std_specs::hash::group_hash_axioms;

/// A map of shared handles holds exactly the entries of the model map `n`.
pub open spec fn arc_map_matches<K, V>(m: Map<K, Arc<V>>, n: Map<K, V>) -> bool {
    m.dom() == n.dom() && forall|k: K| #[trigger] m.dom().contains(k) ==> m[k] == n[k]
}

/// Account metadata of the logged-in user.
#[derive(Debug, Clone)]
pub struct AccountInfo {
    /// Nickname.
    pub nickname: String,
    /// Age.
    pub age: u8,
    /// Gender code.
    pub gender: u8,
}

/// Raw friend record as the protocol layer reports it.
#[derive(Debug, Clone)]
pub struct FriendInfo {
    pub uin: i64,
    pub nick: String,
    pub remark: String,
    pub face_id: i16,
    pub group_id: u8,
}

/// A friend.
#[derive(Debug, Clone)]
pub struct Friend {
    /// Account number.
    pub uin: i64,
    /// Nickname.
    pub nickname: String,
    /// Remark set by the user.
    pub remark: String,
    /// Avatar id.
    pub face_id: i16,
    /// Id of the friend group this friend belongs to.
    pub group_id: u8,
}

impl Friend {
    /// The friend record a raw protocol record denotes.
    pub open spec fn of_info(info: FriendInfo) -> Friend {
        Friend {
            uin: info.uin,
            nickname: info.nick,
            remark: info.remark,
            face_id: info.face_id,
            group_id: info.group_id,
        }
    }

    pub fn new(info: FriendInfo) -> (r: Self)
        ensures
            r == Self::of_info(info),
    {
        Friend {
            uin: info.uin,
            nickname: info.nick,
            remark: info.remark,
            face_id: info.face_id,
            group_id: info.group_id,
        }
    }
}

/// Raw friend-group record as the protocol layer reports it.
#[derive(Debug, Clone)]
pub struct FriendGroupInfo {
    pub group_id: u8,
    pub group_name: String,
    pub friend_count: i32,
    pub online_friend_count: i32,
    pub seq_id: u8,
}

/// A friend group (a named folder of friends).
#[derive(Debug, Clone)]
pub struct FriendGroup {
    /// Group id.
    pub id: u8,
    /// Group name.
    pub name: String,
    /// Number of friends in the group.
    pub friend_count: i32,
    /// Number of those friends that are online.
    pub online_count: i32,
    /// Sort order.
    pub seq_id: u8,
}

impl FriendGroup {
    /// The friend-group record a raw protocol record denotes.
    pub open spec fn of_info(info: FriendGroupInfo) -> FriendGroup {
        FriendGroup {
            id: info.group_id,
            name: info.group_name,
            friend_count: info.friend_count,
            online_count: info.online_friend_count,
            seq_id: info.seq_id,
        }
    }

    pub fn new(info: FriendGroupInfo) -> (r: Self)
        ensures
            r == Self::of_info(info),
    {
        FriendGroup {
            id: info.group_id,
            name: info.group_name,
            friend_count: info.friend_count,
            online_count: info.online_friend_count,
            seq_id: info.seq_id,
        }
    }
}

/// Raw friend-list response as the protocol layer reports it.
#[derive(Debug, Clone)]
pub struct FriendListData {
    pub friends: Vec<FriendInfo>,
    pub friend_groups: Vec<FriendGroupInfo>,
    pub total_count: i16,
    pub online_friend_count: i16,
}

/// The friend list: every friend and friend group, keyed by id.
#[derive(Debug)]
pub struct FriendList {
    friends: HashMap<i64, Arc<Friend>>,
    friend_groups: HashMap<u8, Arc<FriendGroup>>,
    total_count: i16,
    online_count: i16,
}

/// The friend map that a sequence of raw records denotes; a later record
/// for the same uin wins.
pub open spec fn friends_map_of(s: Seq<FriendInfo>) -> Map<i64, Friend>
    decreases s.len(),
{
    if s.len() == 0 {
        Map::empty()
    } else {
        friends_map_of(s.drop_last()).insert(s.last().uin, Friend::of_info(s.last()))
    }
}

/// The friend-group map that a sequence of raw records denotes; a later
/// record for the same id wins.
pub open spec fn friend_groups_map_of(s: Seq<FriendGroupInfo>) -> Map<u8, FriendGroup>
    decreases s.len(),
{
    if s.len() == 0 {
        Map::empty()
    } else {
        friend_groups_map_of(s.drop_last()).insert(
            s.last().group_id,
            FriendGroup::of_info(s.last()),
        )
    }
}

impl FriendList {
    /// The friends keyed by uin, as a model map.
    pub closed spec fn friends_spec(&self) -> Map<i64, Arc<Friend>> {
        self.friends@
    }

    /// The friend groups keyed by id, as a model map.
    pub closed spec fn friend_groups_spec(&self) -> Map<u8, Arc<FriendGroup>> {
        self.friend_groups@
    }

    /// Number of friends, as the remote source counted them.
    pub closed spec fn total_count_spec(&self) -> i16 {
        self.total_count
    }

    /// Number of friends online, as the remote source counted them.
    pub closed spec fn online_count_spec(&self) -> i16 {
        self.online_count
    }

    /// Number of friends.
    pub fn total_count(&self) -> (r: i16)
        ensures
            r == self.total_count_spec(),
    {
        self.total_count
    }

    /// Number of friends online.
    pub fn online_count(&self) -> (r: i16)
        ensures
            r == self.online_count_spec(),
    {
        self.online_count
    }

    /// Builds the friend list from one raw response.
    pub fn new(data: FriendListData) -> (r: Self)
        ensures
            arc_map_matches(r.friends_spec(), friends_map_of(data.friends@)),
            arc_map_matches(r.friend_groups_spec(), friend_groups_map_of(data.friend_groups@)),
            r.total_count_spec() == data.total_count,
            r.online_count_spec() == data.online_friend_count,
    {
        let FriendListData { mut friends, mut friend_groups, total_count, online_friend_count } =
            data;
        let ghost friends_all = friends@;
        let ghost groups_all = friend_groups@;
        let mut fmap: HashMap<i64, Arc<Friend>> = HashMap::new();
        let mut consumed: usize = 0;
        let friends_len: usize = friends.len();
        let ghost n = friends_len as nat;
        while friends.len() > 0
            invariant
                n <= usize::MAX,
                friends_all.len() == n,
                consumed + friends@.len() == n,
                friends@ == friends_all.skip(consumed as int),
                arc_map_matches(fmap@, friends_map_of(friends_all.take(consumed as int))),
            decreases friends.len(),
        {
            let info = friends.remove(0);
            proof {
                assert(friends_all.take(consumed + 1 as int).drop_last() =~= friends_all.take(
                    consumed as int,
                ));
                assert(friends_all.take(consumed + 1 as int).last() == friends_all[
                    consumed as int]);
                assert(friends_all.skip(consumed as int).drop_first() =~= friends_all.skip(
                    consumed + 1 as int,
                ));
            }
            let uin = info.uin;
            fmap.insert(uin, Arc::new(Friend::new(info)));
            consumed = consumed + 1;
        }
        proof {
            assert(friends_all.take(consumed as int) =~= friends_all);
        }
        let mut gmap: HashMap<u8, Arc<FriendGroup>> = HashMap::new();
        let mut gconsumed: usize = 0;
        let groups_len: usize = friend_groups.len();
        let ghost gn = groups_len as nat;
        while friend_groups.len() > 0
            invariant
                gn <= usize::MAX,
                groups_all.len() == gn,
                gconsumed + friend_groups@.len() == gn,
                friend_groups@ == groups_all.skip(gconsumed as int),
                arc_map_matches(gmap@, friend_groups_map_of(groups_all.take(gconsumed as int))),
            decreases friend_groups.len(),
        {
            let info = friend_groups.remove(0);
            proof {
                assert(groups_all.take(gconsumed + 1 as int).drop_last() =~= groups_all.take(
                    gconsumed as int,
                ));
                assert(groups_all.take(gconsumed + 1 as int).last() == groups_all[
                    gconsumed as int]);
                assert(groups_all.skip(gconsumed as int).drop_first() =~= groups_all.skip(
                    gconsumed + 1 as int,
                ));
            }
            let id = info.group_id;
            gmap.insert(id, Arc::new(FriendGroup::new(info)));
            gconsumed = gconsumed + 1;
        }
        proof {
            assert(groups_all.take(gconsumed as int) =~= groups_all);
        }
        FriendList {
            friends: fmap,
            friend_groups: gmap,
            total_count,
            online_count: online_friend_count,
        }
    }

    /// All friends, keyed by uin.
    pub fn friends(&self) -> (r: &HashMap<i64, Arc<Friend>>)
        ensures
            r@ == self.friends_spec(),
    {
        &self.friends
    }

    /// All friend groups, keyed by id.
    pub fn friend_groups(&self) -> (r: &HashMap<u8, Arc<FriendGroup>>)
        ensures
            r@ == self.friend_groups_spec(),
    {
        &self.friend_groups
    }

    /// The friend with the given uin, if the list knows one.
    pub fn friend(&self, uin: i64) -> (r: Option<Arc<Friend>>)
        ensures
            r == if self.friends_spec().contains_key(uin) {
                Some(self.friends_spec()[uin])
            } else {
                Option::<Arc<Friend>>::None
            },
    {
        match self.friends.get(&uin) {
            Some(a) => Some(share(a)),
            None => None,
        }
    }

    /// The friend group with the given id, if the list knows one.
    pub fn friend_group(&self, id: u8) -> (r: Option<Arc<FriendGroup>>)
        ensures
            r == if self.friend_groups_spec().contains_key(id) {
                Some(self.friend_groups_spec()[id])
            } else {
                Option::<Arc<FriendGroup>>::None
            },
    {
        match self.friend_groups.get(&id) {
            Some(a) => Some(share(a)),
            None => None,
        }
    }
}

/// Raw group record as the protocol layer reports it.
#[derive(Debug, Clone)]
pub struct GroupInfo {
    pub uin: i64,
    pub code: i64,
    pub name: String,
    pub memo: String,
    pub owner_uin: i64,
    pub group_create_time: u32,
    pub group_level: u32,
    pub member_count: u16,
    pub max_member_count: u16,
    pub shut_up_timestamp: i64,
    pub my_shut_up_timestamp: i64,
    pub last_msg_seq: i64,
}

/// A group chat.
#[derive(Debug, Clone)]
pub struct Group {
    /// Protocol-internal uin of the group.
    pub uin: i64,
    /// Group code (the public group number).
    pub code: i64,
    /// Group name.
    pub name: String,
    /// Group memo / announcement.
    pub memo: String,
    /// Owner account number.
    pub owner_uin: i64,
    /// Creation time.
    pub group_create_time: u32,
    /// Group level.
    pub group_level: u32,
    /// Number of members.
    pub member_count: u16,
    /// Maximum number of members.
    pub max_member_count: u16,
    /// Until when the whole group is muted.
    pub shut_up_timestamp: i64,
    /// Until when the current account is muted.
    pub my_shut_up_timestamp: i64,
    /// Sequence number of the last message, when the source reported one.
    pub last_msg_seq: Option<i64>,
}

impl Group {
    /// The group record a raw protocol record denotes.
    pub open spec fn of_info(info: GroupInfo) -> Group {
        Group {
            uin: info.uin,
            code: info.code,
            name: info.name,
            memo: info.memo,
            owner_uin: info.owner_uin,
            group_create_time: info.group_create_time,
            group_level: info.group_level,
            member_count: info.member_count,
            max_member_count: info.max_member_count,
            shut_up_timestamp: info.shut_up_timestamp,
            my_shut_up_timestamp: info.my_shut_up_timestamp,
            last_msg_seq: Some(info.last_msg_seq),
        }
    }

    pub fn new(info: GroupInfo) -> (r: Self)
        ensures
            r == Self::of_info(info),
    {
        Group {
            uin: info.uin,
            code: info.code,
            name: info.name,
            memo: info.memo,
            owner_uin: info.owner_uin,
            group_create_time: info.group_create_time,
            group_level: info.group_level,
            member_count: info.member_count,
            max_member_count: info.max_member_count,
            shut_up_timestamp: info.shut_up_timestamp,
            my_shut_up_timestamp: info.my_shut_up_timestamp,
            last_msg_seq: Some(info.last_msg_seq),
        }
    }

    /// As [`Group::new`], for sources that report no last message sequence.
    pub fn new_without_last_seq(info: GroupInfo) -> (r: Self)
        ensures
            r == (Group { last_msg_seq: None, ..Self::of_info(info) }),
    {
        Group {
            uin: info.uin,
            code: info.code,
            name: info.name,
            memo: info.memo,
            owner_uin: info.owner_uin,
            group_create_time: info.group_create_time,
            group_level: info.group_level,
            member_count: info.member_count,
            max_member_count: info.max_member_count,
            shut_up_timestamp: info.shut_up_timestamp,
            my_shut_up_timestamp: info.my_shut_up_timestamp,
            last_msg_seq: None,
        }
    }
}

/// Permission of a member within a group.
#[derive(Debug, Clone, PartialEq, Eq, Structural)]
pub enum GroupMemberPermission {
    Owner,
    Administrator,
    Member,
}

/// Raw group-member record as the protocol layer reports it.
#[derive(Debug, Clone)]
pub struct GroupMemberInfo {
    pub group_code: i64,
    pub uin: i64,
    pub gender: u8,
    pub nickname: String,
    pub card_name: String,
    pub level: u16,
    pub join_time: i64,
    pub last_speak_time: i64,
    pub special_title: String,
    pub special_title_expire_time: i64,
    pub shut_up_timestamp: i64,
    pub permission: GroupMemberPermission,
}

/// A member of a group.
#[derive(Debug, Clone)]
pub struct GroupMember {
    /// Group code.
    pub group_code: i64,
    /// Account number.
    pub uin: i64,
    /// Gender code.
    pub gender: u8,
    /// Nickname.
    pub nickname: String,
    /// Name card within the group.
    pub card_name: String,
    /// Member level.
    pub level: u16,
    /// When the member joined.
    pub join_time: i64,
    /// When the member last spoke.
    pub last_speak_time: i64,
    /// Special title.
    pub special_title: String,
    /// When the special title expires.
    pub special_title_expire_time: i64,
    /// Until when the member is muted.
    pub shut_up_timestamp: i64,
    /// Permission within the group.
    pub permission: GroupMemberPermission,
}

impl GroupMember {
    /// The member record a raw protocol record denotes.
    pub open spec fn of_info(info: GroupMemberInfo) -> GroupMember {
        GroupMember {
            group_code: info.group_code,
            uin: info.uin,
            gender: info.gender,
            nickname: info.nickname,
            card_name: info.card_name,
            level: info.level,
            join_time: info.join_time,
            last_speak_time: info.last_speak_time,
            special_title: info.special_title,
            special_title_expire_time: info.special_title_expire_time,
            shut_up_timestamp: info.shut_up_timestamp,
            permission: info.permission,
        }
    }

    pub fn new(info: GroupMemberInfo) -> (r: Self)
        ensures
            r == Self::of_info(info),
    {
        GroupMember {
            group_code: info.group_code,
            uin: info.uin,
            gender: info.gender,
            nickname: info.nickname,
            card_name: info.card_name,
            level: info.level,
            join_time: info.join_time,
            last_speak_time: info.last_speak_time,
            special_title: info.special_title,
            special_title_expire_time: info.special_title_expire_time,
            shut_up_timestamp: info.shut_up_timestamp,
            permission: info.permission,
        }
    }
}

/// The member map that a sequence of raw records denotes; a later record
/// for the same uin wins.
pub open spec fn members_map_of(s: Seq<GroupMemberInfo>) -> Map<i64, GroupMember>
    decreases s.len(),
{
    if s.len() == 0 {
        Map::empty()
    } else {
        members_map_of(s.drop_last()).insert(s.last().uin, GroupMember::of_info(s.last()))
    }
}

/// The member roster of one group, keyed by member uin.
#[derive(Debug)]
pub struct GroupMemberList {
    group_code: i64,
    members: HashMap<i64, Arc<GroupMember>>,
    total_count: i16,
}

impl GroupMemberList {
    /// The members keyed by uin, as a model map.
    pub closed spec fn members_spec(&self) -> Map<i64, Arc<GroupMember>> {
        self.members@
    }

    /// The code of the group this roster belongs to.
    pub closed spec fn group_code_spec(&self) -> i64 {
        self.group_code
    }

    /// Number of members in the fetched roster.
    pub closed spec fn total_count_spec(&self) -> i16 {
        self.total_count
    }

    /// The code of the group this roster belongs to.
    pub fn group_code(&self) -> (r: i64)
        ensures
            r == self.group_code_spec(),
    {
        self.group_code
    }

    /// Number of members in the fetched roster.
    pub fn total_count(&self) -> (r: i16)
        ensures
            r == self.total_count_spec(),
    {
        self.total_count
    }

    /// Builds the roster of `group_code` from one raw response.
    pub fn new(group_code: i64, data: Vec<GroupMemberInfo>) -> (r: Self)
        ensures
            r.group_code_spec() == group_code,
            arc_map_matches(r.members_spec(), members_map_of(data@)),
            r.total_count_spec() == data@.len() as i16,
    {
        let mut data = data;
        let total_count: i16 = #[verifier::truncate] (data.len() as i16);
        let ghost all = data@;
        let mut mmap: HashMap<i64, Arc<GroupMember>> = HashMap::new();
        let mut consumed: usize = 0;
        let data_len: usize = data.len();
        let ghost n = data_len as nat;
        while data.len() > 0
            invariant
                n <= usize::MAX,
                all.len() == n,
                consumed + data@.len() == n,
                data@ == all.skip(consumed as int),
                arc_map_matches(mmap@, members_map_of(all.take(consumed as int))),
            decreases data.len(),
        {
            let info = data.remove(0);
            proof {
                assert(all.take(consumed + 1 as int).drop_last() =~= all.take(consumed as int));
                assert(all.take(consumed + 1 as int).last() == all[consumed as int]);
                assert(all.skip(consumed as int).drop_first() =~= all.skip(consumed + 1 as int));
            }
            let uin = info.uin;
            mmap.insert(uin, Arc::new(GroupMember::new(info)));
            consumed = consumed + 1;
        }
        proof {
            assert(all.take(consumed as int) =~= all);
        }
        GroupMemberList { group_code, members: mmap, total_count }
    }

    /// All members, keyed by uin.
    pub fn members(&self) -> (r: &HashMap<i64, Arc<GroupMember>>)
        ensures
            r@ == self.members_spec(),
    {
        &self.members
    }

    /// The member with the given uin, if the roster knows one.
    pub fn member(&self, uin: i64) -> (r: Option<Arc<GroupMember>>)
        ensures
            r == if self.members_spec().contains_key(uin) {
                Some(self.members_spec()[uin])
            } else {
                Option::<Arc<GroupMember>>::None
            },
    {
        match self.members.get(&uin) {
            Some(a) => Some(share(a)),
            None => None,
        }
    }
}

} // verus!
