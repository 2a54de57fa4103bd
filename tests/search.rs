use sidebar_search::entry::{EntryKind, ResultEntry};
use sidebar_search::result_list::ResultList;
use sidebar_search::search::{
    Phase, RemoteFailure, ResetAction, Search, SearchAction, ViewState, CHAT_SEARCH_LIMIT,
    RESULT_BUDGET,
};

fn failure() -> RemoteFailure {
    RemoteFailure { code: 500, message: "Request aborted".to_string() }
}

fn entries(s: &Search) -> Vec<ResultEntry> {
    let mut v = Vec::new();
    for i in 0..s.size() {
        v.push(s.entry_at(i as u32).unwrap());
    }
    v
}

fn start(s: &mut Search, query: &str) -> u64 {
    let action = s.search(query.to_string());
    let g = s.generation();
    assert_eq!(
        action,
        SearchAction::SearchChats { generation: g, query: query.to_string(), limit: CHAT_SEARCH_LIMIT }
    );
    assert_eq!(s.view_state(), ViewState::Results);
    assert_eq!(s.phase(), Phase::AwaitingChats);
    g
}

#[test]
fn scenario_ann_merges_and_drops_aliased_user() {
    let mut s = Search::new();
    let g = start(&mut s, "ann");
    let next = s.on_chats(g, Ok(vec![101, 102]));
    assert_eq!(
        next,
        SearchAction::SearchContacts { generation: g, query: "ann".to_string(), limit: 48 }
    );
    s.on_contacts(g, Ok(vec![101, 205]));
    assert_eq!(
        entries(&s),
        vec![ResultEntry::Chat(101), ResultEntry::Chat(102), ResultEntry::User(205)]
    );
    assert_eq!(s.view_state(), ViewState::Results);
    assert_eq!(s.phase(), Phase::Idle);
}

#[test]
fn scenario_empty_query_no_chats_shows_empty_page() {
    let mut s = Search::new();
    let g = start(&mut s, "");
    let next = s.on_chats(g, Ok(vec![]));
    assert_eq!(next, SearchAction::Finished);
    assert_eq!(s.view_state(), ViewState::Empty);
    assert_eq!(s.size(), 0);
    assert_eq!(s.phase(), Phase::Idle);
}

#[test]
fn merged_size_is_chats_plus_new_contacts() {
    let mut s = Search::new();
    let g = start(&mut s, "a");
    s.on_chats(g, Ok(vec![1, 2, 3]));
    s.on_contacts(g, Ok(vec![3, 4, 5, 2]));
    // 3 chats + 4 contacts - 2 overlapping
    assert_eq!(s.size(), 5);
    assert_eq!(
        entries(&s),
        vec![
            ResultEntry::Chat(1),
            ResultEntry::Chat(2),
            ResultEntry::Chat(3),
            ResultEntry::User(4),
            ResultEntry::User(5),
        ]
    );
}

#[test]
fn empty_query_never_asks_for_contacts() {
    let mut s = Search::new();
    let g = start(&mut s, "");
    assert_eq!(s.on_chats(g, Ok(vec![7, 8])), SearchAction::Finished);
    s.on_contacts(g, Ok(vec![9]));
    assert_eq!(entries(&s), vec![ResultEntry::Chat(7), ResultEntry::Chat(8)]);
    assert_eq!(s.view_state(), ViewState::Results);
}

#[test]
fn contact_limit_is_what_chats_leave_of_the_budget() {
    let mut s = Search::new();
    let g = start(&mut s, "b");
    let ids: Vec<i64> = (1..=10).collect();
    assert_eq!(
        s.on_chats(g, Ok(ids)),
        SearchAction::SearchContacts { generation: g, query: "b".to_string(), limit: 40 }
    );
}

#[test]
fn contact_limit_never_below_zero() {
    let mut s = Search::new();
    let g = start(&mut s, "b");
    let ids: Vec<i64> = (1..=60).collect();
    assert_eq!(
        s.on_chats(g, Ok(ids)),
        SearchAction::SearchContacts { generation: g, query: "b".to_string(), limit: 0 }
    );
    let mut s = Search::new();
    let g = start(&mut s, "b");
    let ids: Vec<i64> = (1..=50).collect();
    assert_eq!(
        s.on_chats(g, Ok(ids)),
        SearchAction::SearchContacts { generation: g, query: "b".to_string(), limit: 0 }
    );
}

#[test]
fn failed_chat_search_still_asks_for_contacts_with_full_budget() {
    let mut s = Search::new();
    let g = start(&mut s, "zoe");
    let next = s.on_chats(g, Err(failure()));
    assert_eq!(
        next,
        SearchAction::SearchContacts { generation: g, query: "zoe".to_string(), limit: RESULT_BUDGET }
    );
    assert_eq!(s.view_state(), ViewState::Empty);
    s.on_contacts(g, Ok(vec![12]));
    assert_eq!(entries(&s), vec![ResultEntry::User(12)]);
    assert_eq!(s.view_state(), ViewState::Results);
}

#[test]
fn failed_contact_search_keeps_chats() {
    let mut s = Search::new();
    let g = start(&mut s, "q");
    s.on_chats(g, Ok(vec![4]));
    s.on_contacts(g, Err(failure()));
    assert_eq!(entries(&s), vec![ResultEntry::Chat(4)]);
    assert_eq!(s.view_state(), ViewState::Results);
    assert_eq!(s.phase(), Phase::Idle);
}

#[test]
fn no_results_at_all_shows_empty_page() {
    let mut s = Search::new();
    let g = start(&mut s, "q");
    s.on_chats(g, Ok(vec![]));
    assert_eq!(s.view_state(), ViewState::Empty);
    s.on_contacts(g, Ok(vec![]));
    assert_eq!(s.view_state(), ViewState::Empty);
    assert_eq!(s.size(), 0);
}

#[test]
fn stale_outcomes_are_discarded() {
    let mut s = Search::new();
    let old = start(&mut s, "first");
    let g = start(&mut s, "second");
    assert_ne!(old, g);
    assert_eq!(s.on_chats(old, Ok(vec![1, 2])), SearchAction::Finished);
    assert_eq!(s.size(), 0);
    assert_eq!(s.phase(), Phase::AwaitingChats);
    s.on_chats(g, Ok(vec![3]));
    s.on_contacts(old, Ok(vec![9]));
    assert_eq!(entries(&s), vec![ResultEntry::Chat(3)]);
    assert_eq!(s.phase(), Phase::AwaitingContacts);
    assert_eq!(s.query(), "second");
}

#[test]
fn outcome_not_awaited_is_ignored() {
    let mut s = Search::new();
    assert_eq!(s.on_chats(0, Ok(vec![1])), SearchAction::Finished);
    let g = start(&mut s, "x");
    s.on_contacts(g, Ok(vec![5]));
    assert_eq!(s.size(), 0);
    s.on_chats(g, Ok(vec![1]));
    assert_eq!(s.on_chats(g, Ok(vec![2])), SearchAction::Finished);
    assert_eq!(entries(&s), vec![ResultEntry::Chat(1)]);
}

#[test]
fn new_search_replaces_previous_results() {
    let mut s = Search::new();
    let g = start(&mut s, "x");
    s.on_chats(g, Ok(vec![1, 2]));
    s.on_contacts(g, Ok(vec![3]));
    assert_eq!(s.size(), 3);
    let g2 = start(&mut s, "y");
    assert_eq!(g2, g + 1);
    assert_eq!(s.size(), 0);
}

#[test]
fn repeated_ids_are_listed_once() {
    let mut s = Search::new();
    let g = start(&mut s, "r");
    s.on_chats(g, Ok(vec![1, 1, 2]));
    s.on_contacts(g, Ok(vec![5, 5, 1]));
    assert_eq!(
        entries(&s),
        vec![ResultEntry::Chat(1), ResultEntry::Chat(2), ResultEntry::User(5)]
    );
}

#[test]
fn new_search_starts_idle_and_empty() {
    let s = Search::new();
    assert_eq!(s.generation(), 0);
    assert_eq!(s.phase(), Phase::Idle);
    assert_eq!(s.view_state(), ViewState::Empty);
    assert_eq!(s.size(), 0);
    assert_eq!(s.entry_at(0), None);
    assert_eq!(s.query(), "");
    assert!(!s.compact());
}

#[test]
fn entry_at_out_of_range_is_none() {
    let mut s = Search::new();
    let g = start(&mut s, "x");
    s.on_chats(g, Ok(vec![8]));
    assert_eq!(s.entry_at(0), Some(ResultEntry::Chat(8)));
    assert_eq!(s.entry_at(1), None);
    assert_eq!(s.entry_at(u32::MAX), None);
}

#[test]
fn compact_notifies_only_on_change() {
    let mut s = Search::new();
    assert!(s.set_compact(true));
    assert!(s.compact());
    assert!(!s.set_compact(true));
    assert!(s.set_compact(false));
    assert!(!s.compact());
}

#[test]
fn reset_refreshes_or_clears() {
    assert_eq!(Search::reset(""), ResetAction::Refresh);
    assert_eq!(Search::reset("ann"), ResetAction::ClearText);
}

#[test]
fn result_list_append_notifies_new_size() {
    let mut list = ResultList::new();
    assert_eq!(list.append(&vec![1, 2], EntryKind::Chat), Some(2));
    assert_eq!(list.append(&vec![2, 1], EntryKind::User), None);
    assert_eq!(list.append(&vec![3], EntryKind::User), Some(3));
    assert!(list.contains_id(3));
    assert!(!list.contains_id(4));
    assert_eq!(list.get(2), Some(ResultEntry::User(3)));
    list.clear();
    assert_eq!(list.size(), 0);
    assert_eq!(list.get(0), None);
}

#[test]
fn entry_ids_and_kinds() {
    assert_eq!(ResultEntry::Chat(-4).id(), -4);
    assert_eq!(ResultEntry::User(77).id(), 77);
    assert_eq!(EntryKind::User.entry(3), ResultEntry::User(3));
    assert_eq!(EntryKind::Chat.entry(3), ResultEntry::Chat(3));
}
