use awr::cache::Freshness;
use awr::client::Client;
use awr::entity::{
    AccountInfo, FriendGroupInfo, FriendInfo, FriendListData, GroupInfo, GroupMemberInfo,
    GroupMemberPermission,
};
use awr::selector::{MultiSelector, OptionSelector, Selector, SingleSelector};

fn group_info(code: i64, name: &str) -> GroupInfo {
    GroupInfo {
        uin: code + 1000,
        code,
        name: name.to_string(),
        memo: String::new(),
        owner_uin: 99,
        group_create_time: 1,
        group_level: 1,
        member_count: 2,
        max_member_count: 200,
        shut_up_timestamp: 0,
        my_shut_up_timestamp: 0,
        last_msg_seq: 7,
    }
}

fn member_info(group_code: i64, uin: i64, nickname: &str) -> GroupMemberInfo {
    GroupMemberInfo {
        group_code,
        uin,
        gender: 0,
        nickname: nickname.to_string(),
        card_name: String::new(),
        level: 1,
        join_time: 0,
        last_speak_time: 0,
        special_title: String::new(),
        special_title_expire_time: 0,
        shut_up_timestamp: 0,
        permission: GroupMemberPermission::Member,
    }
}

fn friend_list_data() -> FriendListData {
    FriendListData {
        friends: vec![
            FriendInfo {
                uin: 11,
                nick: "alpha".to_string(),
                remark: "a".to_string(),
                face_id: 0,
                group_id: 1,
            },
            FriendInfo {
                uin: 12,
                nick: "beta".to_string(),
                remark: "b".to_string(),
                face_id: 0,
                group_id: 2,
            },
        ],
        friend_groups: vec![FriendGroupInfo {
            group_id: 1,
            group_name: "buddies".to_string(),
            friend_count: 1,
            online_friend_count: 1,
            seq_id: 0,
        }],
        total_count: 2,
        online_friend_count: 1,
    }
}

#[test]
fn client_basics() {
    let mut c = Client::new(123);
    assert_eq!(c.uin(), 123);
    assert!(!c.is_online());
    c.set_online(true);
    assert!(c.is_online());
    assert!(c.get_account_info().is_none());
    c.set_account_info(AccountInfo {
        nickname: "me".to_string(),
        age: 20,
        gender: 1,
    });
    let info = c.account_info().fetch(&c).expect("recorded account info must be served");
    assert_eq!(info.nickname, "me");
}

#[test]
fn friend_list_serves_friends_and_groups() {
    let mut c = Client::new(1);
    assert!(matches!(c.get_friend_list(0), Freshness::Stale));
    let list = c.commit_friend_list(friend_list_data(), 10);
    assert_eq!(list.total_count(), 2);
    assert_eq!(list.online_count(), 1);
    match c.get_friend(11, 20) {
        Freshness::Fresh(Some(f)) => {
            assert_eq!(f.nickname, "alpha");
            assert_eq!(f.group_id, 1);
            let sel = f.friend_group();
            assert_eq!(sel.id, 1);
        }
        _ => panic!("a fresh friend list must serve its members"),
    }
    assert!(matches!(c.get_friend(999, 20), Freshness::Fresh(None)));
    match c.get_friend_group(1, 20) {
        Freshness::Fresh(Some(g)) => assert_eq!(g.name, "buddies"),
        _ => panic!("a fresh friend list must serve its groups"),
    }
    // one member selector flushes the whole parent list
    c.friend(11).flush(&mut c);
    assert!(matches!(c.get_friend(11, 20), Freshness::Stale));
}

#[test]
fn friend_list_selector_round() {
    let mut c = Client::new(1);
    let sel = c.friend_list();
    assert!(matches!(sel.fetch(&c, 0), Freshness::Stale));
    let list = sel.flush_and_fetch(&mut c, friend_list_data(), 5);
    assert_eq!(list.friends().len(), 2);
    assert_eq!(list.friend_groups().len(), 1);
    match sel.fetch(&c, 6) {
        Freshness::Fresh(l) => assert_eq!(l.total_count(), 2),
        Freshness::Stale => panic!("a just-committed list must be fresh"),
    }
    sel.flush(&mut c);
    assert!(matches!(sel.fetch(&c, 6), Freshness::Stale));
}

#[test]
fn group_get_after_refresh_is_served_from_cache() {
    let mut c = Client::new(1);
    assert!(matches!(c.get_group(5, 0), Freshness::Stale));
    let stored = c.commit_group(5, Some(group_info(5, "five")), 100);
    let stored = stored.expect("a fetched group is handed back");
    assert_eq!(stored.name, "five");
    match c.get_group(5, 150) {
        Freshness::Fresh(Some(g)) => {
            assert_eq!(g.name, "five");
            assert_eq!(g.last_msg_seq, Some(7));
        }
        _ => panic!("a group fetched within the TTL window must be served from the cache"),
    }
    // an absent group is remembered as absent
    assert!(c.commit_group(6, None, 100).is_none());
    assert!(matches!(c.get_group(6, 150), Freshness::Fresh(None)));
}

#[test]
fn group_dirty_forces_exactly_one_fetch() {
    let mut c = Client::new(1);
    c.commit_group(5, Some(group_info(5, "five")), 0);
    c.group(5).flush(&mut c);
    assert!(matches!(c.get_group(5, 1), Freshness::Stale));
    c.commit_group(5, Some(group_info(5, "five again")), 2);
    match c.get_group(5, 3) {
        Freshness::Fresh(Some(g)) => assert_eq!(g.name, "five again"),
        _ => panic!("one commit after a flush must refresh the group"),
    }
}

#[test]
fn batched_group_get_merges_fresh_and_fetched() {
    let mut c = Client::new(1);
    c.commit_group(1, Some(group_info(1, "one")), 0);
    c.commit_group(2, Some(group_info(2, "two")), 0);
    let sel = c.groups(vec![1, 2, 3, 4]);
    assert_eq!(sel.codes(), &vec![1, 2, 3, 4]);
    let (fresh, stale) = sel.fetch(&c, 50);
    assert_eq!(fresh.len(), 2);
    assert_eq!(stale, vec![3, 4]);
    // the remote answers the stale half; group 4 does not exist remotely
    c.commit_groups(vec![group_info(3, "three")], 50);
    let merged = c.collect_groups(&vec![1, 2, 3, 4], 50);
    let names: Vec<(i64, String)> = merged.iter().map(|p| (p.0, p.1.name.clone())).collect();
    assert_eq!(
        names,
        vec![
            (1, "one".to_string()),
            (2, "two".to_string()),
            (3, "three".to_string())
        ]
    );
}

#[test]
fn refresh_all_drops_groups_absent_from_the_new_truth() {
    let mut c = Client::new(1);
    c.commit_group(1, Some(group_info(1, "one")), 0);
    assert!(matches!(c.get_group(1, 1), Freshness::Fresh(Some(_))));
    let sel = c.all_groups();
    let all = sel.fetch(&mut c, vec![group_info(2, "two")], 1);
    assert_eq!(all.len(), 1);
    assert_eq!(all[0].0, 2);
    // group 1 was present and fresh before, absent from the new full set
    assert!(matches!(c.get_group(1, 1), Freshness::Stale));
    assert!(matches!(c.get_group(2, 1), Freshness::Fresh(Some(_))));
}

#[test]
fn member_roster_serves_members() {
    let mut c = Client::new(1);
    assert!(matches!(c.get_group_member_list(5, 0), Freshness::Stale));
    let roster = c
        .commit_group_member_list(5, Some(vec![member_info(5, 21, "m one"), member_info(5, 22, "m two")]), 10)
        .expect("a fetched roster is handed back");
    assert_eq!(roster.total_count(), 2);
    assert_eq!(roster.group_code(), 5);
    match c.get_group_member(5, 21, 20) {
        Freshness::Fresh(Some(m)) => assert_eq!(m.nickname, "m one"),
        _ => panic!("a fresh roster must serve its members"),
    }
    assert!(matches!(c.get_group_member(5, 999, 20), Freshness::Fresh(None)));
    // a roster remembered as absent serves no member but needs no fetch
    c.commit_group_member_list(6, None, 10);
    assert!(matches!(c.get_group_member(6, 21, 20), Freshness::Fresh(None)));
    // one member selector flushes the whole roster
    let sel = c.group(5).member(21);
    assert_eq!(sel.group_code, 5);
    assert_eq!(sel.uin, 21);
    sel.flush(&mut c);
    assert!(matches!(c.get_group_member(5, 21, 20), Freshness::Stale));
    assert!(matches!(c.get_group_member_list(5, 20), Freshness::Stale));
}

#[test]
fn cache_times_apply_to_later_reads() {
    let mut c = Client::new(1);
    c.commit_group(1, Some(group_info(1, "one")), 0);
    assert!(matches!(c.get_group(1, 3000), Freshness::Fresh(Some(_))));
    c.set_group_cache_time(100);
    assert!(matches!(c.get_group(1, 3000), Freshness::Stale));
    assert!(matches!(c.get_group(1, 50), Freshness::Fresh(Some(_))));

    c.commit_friend_list(friend_list_data(), 0);
    c.set_friend_list_cache_time(10);
    assert!(matches!(c.get_friend_list(50), Freshness::Stale));
    assert!(matches!(c.get_friend_list(5), Freshness::Fresh(_)));

    c.commit_group_member_list(5, Some(vec![]), 0);
    c.set_group_member_list_cache_time(10);
    assert!(matches!(c.get_group_member_list(5, 50), Freshness::Stale));
    assert!(matches!(c.get_group_member_list(5, 5), Freshness::Fresh(_)));
}

#[test]
fn group_selector_flush_and_fetch_bypasses_freshness() {
    let mut c = Client::new(1);
    c.commit_group(5, Some(group_info(5, "old")), 0);
    let sel = c.group(5);
    let got = sel.flush_and_fetch(&mut c, Some(group_info(5, "new")), 1);
    assert_eq!(got.expect("the forced fetch answered").name, "new");
    match sel.fetch(&c, 2) {
        Freshness::Fresh(Some(g)) => assert_eq!(g.name, "new"),
        _ => panic!("the forced round trip must commit its result"),
    }
    // empty friend list data still builds an empty list
    let list = c.commit_friend_list(
        FriendListData {
            friends: vec![],
            friend_groups: vec![],
            total_count: 0,
            online_friend_count: 0,
        },
        0,
    );
    assert_eq!(list.friends().len(), 0);
    assert_eq!(list.total_count(), 0);
}
