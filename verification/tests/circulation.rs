use lms::api::{
    admin_add, admin_add_instance, user_borrow, user_borrowed, user_register, user_reserve,
    user_reserved, user_return,
};
use lms::ledger::Ledger;
use lms::model::{
    RequestBookAdd, RequestBookAddInstance, RequestBookBorrow, RequestBookReserve,
    RequestBookReturn, RequestUserBorrowed, RequestUserRegister, RequestUserReserved,
};

fn catalog_with_copies(copies: u64) -> Ledger {
    let mut ledger = Ledger::new();
    user_register(
        &mut ledger,
        RequestUserRegister {
            username: "alice_01".to_string(),
            email: "a@b.com".to_string(),
            info: "student".to_string(),
        },
    );
    let added = admin_add(
        &mut ledger,
        RequestBookAdd {
            title: "Dune".to_string(),
            author: "Herbert".to_string(),
            info: "sci-fi".to_string(),
        },
    );
    assert!(added.success);
    assert_eq!(added.bid, 1);
    let mut n: u64 = 0;
    while n < copies {
        let inst = admin_add_instance(
            &mut ledger,
            RequestBookAddInstance { bid: 1, status: 0 },
        );
        assert!(inst.success);
        n += 1;
    }
    ledger
}

#[test]
fn borrow_then_list_then_return() {
    // AddBook → bid 1, AddInstance(1, 0) → iid 1, Borrow(1, 1) succeeds,
    // BorrowedList(1) is "1", Return(1) succeeds, BorrowedList(1) is
    // empty again.
    let mut ledger = catalog_with_copies(1);
    let borrowed = user_borrow(&mut ledger, RequestBookBorrow { uid: 1, iid: 1 });
    assert!(borrowed.success);
    assert_eq!(borrowed.message, "success");

    let list = user_borrowed(&ledger, RequestUserBorrowed { uid: 1 });
    assert!(list.success);
    assert_eq!(list.iid_list, "1");

    let returned = user_return(&mut ledger, RequestBookReturn { iid: 1 });
    assert!(returned.success);
    assert_eq!(returned.message, "success");

    let list = user_borrowed(&ledger, RequestUserBorrowed { uid: 1 });
    assert!(list.success);
    assert_eq!(list.iid_list, "");
}

#[test]
fn borrow_conflict_is_rejected() {
    // A second borrow of a still-occupied instance is a conflict, not a
    // second silent success.
    let mut ledger = catalog_with_copies(1);
    let first = user_borrow(&mut ledger, RequestBookBorrow { uid: 1, iid: 1 });
    assert!(first.success);
    let second = user_borrow(&mut ledger, RequestBookBorrow { uid: 2, iid: 1 });
    assert!(!second.success);
    assert_eq!(second.message, "instance is occupied");
}

#[test]
fn reserve_blocks_borrow_and_vice_versa() {
    let mut ledger = catalog_with_copies(2);
    let reserved = user_reserve(&mut ledger, RequestBookReserve { uid: 1, iid: 1 });
    assert!(reserved.success);
    let borrow_reserved = user_borrow(&mut ledger, RequestBookBorrow { uid: 1, iid: 1 });
    assert!(!borrow_reserved.success);
    assert_eq!(borrow_reserved.message, "instance is occupied");

    let borrowed = user_borrow(&mut ledger, RequestBookBorrow { uid: 1, iid: 2 });
    assert!(borrowed.success);
    let reserve_borrowed = user_reserve(&mut ledger, RequestBookReserve { uid: 1, iid: 2 });
    assert!(!reserve_borrowed.success);
}

#[test]
fn borrowed_and_reserved_lists_are_separate() {
    let mut ledger = catalog_with_copies(2);
    user_borrow(&mut ledger, RequestBookBorrow { uid: 1, iid: 1 });
    user_reserve(&mut ledger, RequestBookReserve { uid: 1, iid: 2 });

    let borrowed = user_borrowed(&ledger, RequestUserBorrowed { uid: 1 });
    assert_eq!(borrowed.iid_list, "1");
    let reserved = user_reserved(&ledger, RequestUserReserved { uid: 1 });
    assert_eq!(reserved.iid_list, "2");
}

#[test]
fn borrowed_list_is_per_user_in_insertion_order() {
    let mut ledger = catalog_with_copies(3);
    user_borrow(&mut ledger, RequestBookBorrow { uid: 1, iid: 2 });
    user_borrow(&mut ledger, RequestBookBorrow { uid: 2, iid: 3 });
    user_borrow(&mut ledger, RequestBookBorrow { uid: 1, iid: 1 });

    let first = user_borrowed(&ledger, RequestUserBorrowed { uid: 1 });
    assert_eq!(first.iid_list, "2,1");
    let second = user_borrowed(&ledger, RequestUserBorrowed { uid: 2 });
    assert_eq!(second.iid_list, "3");
}

#[test]
fn return_releases_regardless_of_holder() {
    // Return matches on the instance alone: any caller releases it.
    let mut ledger = catalog_with_copies(1);
    user_borrow(&mut ledger, RequestBookBorrow { uid: 1, iid: 1 });
    let returned = user_return(&mut ledger, RequestBookReturn { iid: 1 });
    assert!(returned.success);
    let again = user_borrow(&mut ledger, RequestBookBorrow { uid: 2, iid: 1 });
    assert!(again.success);
}

#[test]
fn return_of_unoccupied_instance_is_noop_success() {
    let mut ledger = catalog_with_copies(1);
    let returned = user_return(&mut ledger, RequestBookReturn { iid: 1 });
    assert!(returned.success);
    assert_eq!(returned.message, "success");
}

#[test]
fn multi_digit_identifiers_join_with_commas() {
    let mut ledger = catalog_with_copies(12);
    let mut iid: u64 = 9;
    while iid <= 12 {
        let resp = user_borrow(&mut ledger, RequestBookBorrow { uid: 1, iid });
        assert!(resp.success);
        iid += 1;
    }
    let list = user_borrowed(&ledger, RequestUserBorrowed { uid: 1 });
    assert_eq!(list.iid_list, "9,10,11,12");
}
