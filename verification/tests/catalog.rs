use lms::api::{
    admin_add, admin_add_instance, admin_alter, admin_remove, admin_remove_instance, book_info,
    book_instance, book_instance_info, book_search,
};
use lms::ledger::Ledger;
use lms::model::{
    RequestBookAdd, RequestBookAddInstance, RequestBookAlter, RequestBookInfo,
    RequestBookInstance, RequestBookInstanceInfo, RequestBookRemove, RequestBookRemoveInstance,
    RequestBookSearch,
};

fn add_book(ledger: &mut Ledger, title: &str, author: &str, info: &str) -> u64 {
    let resp = admin_add(
        ledger,
        RequestBookAdd {
            title: title.to_string(),
            author: author.to_string(),
            info: info.to_string(),
        },
    );
    assert!(resp.success);
    resp.bid
}

#[test]
fn add_generates_consecutive_bids() {
    let mut ledger = Ledger::new();
    assert_eq!(add_book(&mut ledger, "Dune", "Herbert", "sci-fi"), 1);
    assert_eq!(add_book(&mut ledger, "Emma", "Austen", "novel"), 2);
}

#[test]
fn book_info_round_trip() {
    let mut ledger = Ledger::new();
    add_book(&mut ledger, "Dune", "Herbert", "sci-fi");
    let info = book_info(&ledger, RequestBookInfo { bid: 1 });
    assert!(info.success);
    assert_eq!(info.title, "Dune");
    assert_eq!(info.author, "Herbert");
    assert_eq!(info.info, "sci-fi");
}

#[test]
fn book_info_unknown_bid_fails() {
    let ledger = Ledger::new();
    let info = book_info(&ledger, RequestBookInfo { bid: 3 });
    assert!(!info.success);
    assert_eq!(info.message, "not found");
    assert_eq!(info.title, "");
}

#[test]
fn alter_book_overwrites_fields() {
    let mut ledger = Ledger::new();
    add_book(&mut ledger, "Dune", "Herbert", "sci-fi");
    let altered = admin_alter(
        &mut ledger,
        RequestBookAlter {
            bid: 1,
            title: "Dune Messiah".to_string(),
            author: "Frank Herbert".to_string(),
            info: "sequel".to_string(),
        },
    );
    assert!(altered.success);
    let info = book_info(&ledger, RequestBookInfo { bid: 1 });
    assert_eq!(info.title, "Dune Messiah");
    assert_eq!(info.author, "Frank Herbert");
    assert_eq!(info.info, "sequel");
}

#[test]
fn remove_book_then_info_fails() {
    let mut ledger = Ledger::new();
    add_book(&mut ledger, "Dune", "Herbert", "sci-fi");
    let removed = admin_remove(&mut ledger, RequestBookRemove { bid: 1 });
    assert!(removed.success);
    let info = book_info(&ledger, RequestBookInfo { bid: 1 });
    assert!(!info.success);
}

#[test]
fn remove_book_keeps_its_instances() {
    // Deletion does not cascade: the copy stays, referencing a book that
    // no longer resolves, so listing by the gone book fails not-found
    // while the copy itself still answers.
    let mut ledger = Ledger::new();
    add_book(&mut ledger, "Dune", "Herbert", "sci-fi");
    admin_add_instance(&mut ledger, RequestBookAddInstance { bid: 1, status: 0 });
    admin_remove(&mut ledger, RequestBookRemove { bid: 1 });
    let list = book_instance(&ledger, RequestBookInstance { bid: 1 });
    assert!(!list.success);
    assert_eq!(list.message, "not found");
    let info = book_instance_info(&ledger, RequestBookInstanceInfo { iid: 1 });
    assert!(info.success);
    assert_eq!(info.bid, 1);
    assert_eq!(info.status, 0);
}

#[test]
fn instance_list_unknown_bid_fails() {
    let ledger = Ledger::new();
    let list = book_instance(&ledger, RequestBookInstance { bid: 5 });
    assert!(!list.success);
    assert_eq!(list.message, "not found");
    assert_eq!(list.iid_list, "");
}

#[test]
fn add_instance_then_info_returns_bid_and_status() {
    // AddInstance(bid, status) followed by InstanceInfo(iid) hands both
    // values back unchanged.
    let mut ledger = Ledger::new();
    add_book(&mut ledger, "Dune", "Herbert", "sci-fi");
    let added = admin_add_instance(
        &mut ledger,
        RequestBookAddInstance { bid: 1, status: 7 },
    );
    assert!(added.success);
    assert_eq!(added.iid, 1);
    let info = book_instance_info(&ledger, RequestBookInstanceInfo { iid: 1 });
    assert!(info.success);
    assert_eq!(info.bid, 1);
    assert_eq!(info.status, 7);
}

#[test]
fn add_instance_does_not_check_bid() {
    let mut ledger = Ledger::new();
    let added = admin_add_instance(
        &mut ledger,
        RequestBookAddInstance { bid: 42, status: 0 },
    );
    assert!(added.success);
    assert_eq!(added.iid, 1);
}

#[test]
fn instance_info_unknown_iid_fails() {
    let ledger = Ledger::new();
    let info = book_instance_info(&ledger, RequestBookInstanceInfo { iid: 9 });
    assert!(!info.success);
    assert_eq!(info.message, "not found");
    assert_eq!(info.bid, 0);
    assert_eq!(info.status, 0);
}

#[test]
fn remove_instance_then_info_fails() {
    let mut ledger = Ledger::new();
    add_book(&mut ledger, "Dune", "Herbert", "sci-fi");
    admin_add_instance(&mut ledger, RequestBookAddInstance { bid: 1, status: 0 });
    let removed = admin_remove_instance(&mut ledger, RequestBookRemoveInstance { iid: 1 });
    assert!(removed.success);
    let info = book_instance_info(&ledger, RequestBookInstanceInfo { iid: 1 });
    assert!(!info.success);
}

#[test]
fn instance_list_projects_copies_of_one_book() {
    let mut ledger = Ledger::new();
    add_book(&mut ledger, "Dune", "Herbert", "sci-fi");
    add_book(&mut ledger, "Emma", "Austen", "novel");
    admin_add_instance(&mut ledger, RequestBookAddInstance { bid: 1, status: 0 });
    admin_add_instance(&mut ledger, RequestBookAddInstance { bid: 2, status: 0 });
    admin_add_instance(&mut ledger, RequestBookAddInstance { bid: 1, status: 0 });
    let list = book_instance(&ledger, RequestBookInstance { bid: 1 });
    assert_eq!(list.iid_list, "1,3");
    let list = book_instance(&ledger, RequestBookInstance { bid: 2 });
    assert_eq!(list.iid_list, "2");
}

#[test]
fn search_matches_substring_of_any_field() {
    let mut ledger = Ledger::new();
    add_book(&mut ledger, "Dune", "Herbert", "sci-fi");
    add_book(&mut ledger, "Emma", "Austen", "novel");
    add_book(&mut ledger, "Dune Messiah", "Herbert", "sequel");

    let by_title = book_search(&ledger, RequestBookSearch { phrase: "Dune".to_string() });
    assert!(by_title.success);
    assert_eq!(by_title.bid_list, "1,3");

    let by_author = book_search(&ledger, RequestBookSearch { phrase: "Austen".to_string() });
    assert_eq!(by_author.bid_list, "2");

    let by_info = book_search(&ledger, RequestBookSearch { phrase: "quel".to_string() });
    assert_eq!(by_info.bid_list, "3");
}

#[test]
fn search_is_case_sensitive_and_can_miss() {
    let mut ledger = Ledger::new();
    add_book(&mut ledger, "Dune", "Herbert", "sci-fi");
    let miss = book_search(&ledger, RequestBookSearch { phrase: "dune".to_string() });
    assert!(miss.success);
    assert_eq!(miss.bid_list, "");
}

#[test]
fn search_empty_phrase_matches_every_book() {
    let mut ledger = Ledger::new();
    add_book(&mut ledger, "Dune", "Herbert", "sci-fi");
    add_book(&mut ledger, "Emma", "Austen", "novel");
    let all = book_search(&ledger, RequestBookSearch { phrase: "".to_string() });
    assert_eq!(all.bid_list, "1,2");
}
