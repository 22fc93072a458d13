//! The domain operations.  Each takes the ledger explicitly — whoever
//! owns it, or a lock around it, serializes access — together with one
//! request value, and returns the matching response.  Validation runs
//! before any store access, so an invalid input never changes the ledger.
//!
//! Every operation preserves `Ledger::wf` and pins the response and the
//! new ledger contents exactly, via the find/transition functions of
//! `crate::ledger`.

use vstd::prelude::*;
use vstd::string::StrSliceExecFns;

use crate::ledger::{
    books_altered, books_without, find_book, find_instance, find_occupation, find_user_by_email,
    find_user_by_name, find_user_by_uid, instance_iids, instances_without,
    lemma_find_occupation_props, lemma_find_user_by_uid_props, occupations_without, occupied,
    occupied_iids, users_altered, users_without, BookRow, InstanceRow, Ledger, OccupationRow,
    UserRow, KIND_BORROWED, KIND_RESERVED,
};
use crate::model::{
    RequestBookAdd, RequestBookAddInstance, RequestBookAlter, RequestBookBorrow, RequestBookInfo,
    RequestBookInstance, RequestBookInstanceInfo, RequestBookRemove, RequestBookRemoveInstance,
    RequestBookReserve, RequestBookReturn, RequestBookSearch, RequestUserAlter,
    RequestUserBorrowed, RequestUserInfo, RequestUserLookup, RequestUserRegister,
    RequestUserReserved, RequestUserUnregister, ResponseBookAdd, ResponseBookAddInstance,
    ResponseBookAlter, ResponseBookBorrow, ResponseBookInfo, ResponseBookInstance,
    ResponseBookInstanceInfo, ResponseBookRemove, ResponseBookRemoveInstance, ResponseBookReserve,
    ResponseBookReturn, ResponseBookSearch, ResponseUserAlter, ResponseUserBorrowed,
    ResponseUserInfo, ResponseUserLookup, ResponseUserRegister, ResponseUserReserved,
    ResponseUserUnregister,
};
use crate::text::{contains_seq, join_dec, join_ids, str_contains};
use crate::utils::{email_ok, is_email_legit, is_username_legit, username_ok};

verus! {

/// Index of the first user row whose username equals `name`, if any.
fn find_user_idx_by_name(users: &Vec<UserRow>, name: &String) -> (r: Option<usize>)
    ensures
        match r {
            Some(i) => i < users@.len() && find_user_by_name(users@, name@) == i,
            None => find_user_by_name(users@, name@) == -1,
        },
{
    let mut found: Option<usize> = None;
    let mut i: usize = 0;
    proof {
        assert(users@.take(0) =~= Seq::<UserRow>::empty());
    }
    while i < users.len()
        invariant
            i <= users@.len(),
            match found {
                Some(f) => f < i && find_user_by_name(users@.take(i as int), name@) == f,
                None => find_user_by_name(users@.take(i as int), name@) == -1,
            },
        decreases users@.len() - i,
    {
        proof {
            assert(users@.take(i as int + 1).drop_last() =~= users@.take(i as int));
            assert(users@.take(i as int + 1).last() == users@[i as int]);
        }
        if found.is_none() && users[i].username == *name {
            found = Some(i);
        }
        i += 1;
    }
    proof {
        assert(users@.take(users@.len() as int) =~= users@);
    }
    found
}

/// Index of the first user row whose email equals `email`, if any.
fn find_user_idx_by_email(users: &Vec<UserRow>, email: &String) -> (r: Option<usize>)
    ensures
        match r {
            Some(i) => i < users@.len() && find_user_by_email(users@, email@) == i,
            None => find_user_by_email(users@, email@) == -1,
        },
{
    let mut found: Option<usize> = None;
    let mut i: usize = 0;
    proof {
        assert(users@.take(0) =~= Seq::<UserRow>::empty());
    }
    while i < users.len()
        invariant
            i <= users@.len(),
            match found {
                Some(f) => f < i && find_user_by_email(users@.take(i as int), email@) == f,
                None => find_user_by_email(users@.take(i as int), email@) == -1,
            },
        decreases users@.len() - i,
    {
        proof {
            assert(users@.take(i as int + 1).drop_last() =~= users@.take(i as int));
            assert(users@.take(i as int + 1).last() == users@[i as int]);
        }
        if found.is_none() && users[i].email == *email {
            found = Some(i);
        }
        i += 1;
    }
    proof {
        assert(users@.take(users@.len() as int) =~= users@);
    }
    found
}

/// Index of the first user row with identifier `uid`, if any.
fn find_user_idx_by_uid(users: &Vec<UserRow>, uid: u64) -> (r: Option<usize>)
    ensures
        match r {
            Some(i) => i < users@.len() && find_user_by_uid(users@, uid) == i,
            None => find_user_by_uid(users@, uid) == -1,
        },
{
    let mut found: Option<usize> = None;
    let mut i: usize = 0;
    proof {
        assert(users@.take(0) =~= Seq::<UserRow>::empty());
    }
    while i < users.len()
        invariant
            i <= users@.len(),
            match found {
                Some(f) => f < i && find_user_by_uid(users@.take(i as int), uid) == f,
                None => find_user_by_uid(users@.take(i as int), uid) == -1,
            },
        decreases users@.len() - i,
    {
        proof {
            assert(users@.take(i as int + 1).drop_last() =~= users@.take(i as int));
            assert(users@.take(i as int + 1).last() == users@[i as int]);
        }
        if found.is_none() && users[i].uid == uid {
            found = Some(i);
        }
        i += 1;
    }
    proof {
        assert(users@.take(users@.len() as int) =~= users@);
    }
    found
}

/// Index of the first book row with identifier `bid`, if any.
fn find_book_idx(books: &Vec<BookRow>, bid: u64) -> (r: Option<usize>)
    ensures
        match r {
            Some(i) => i < books@.len() && find_book(books@, bid) == i,
            None => find_book(books@, bid) == -1,
        },
{
    let mut found: Option<usize> = None;
    let mut i: usize = 0;
    proof {
        assert(books@.take(0) =~= Seq::<BookRow>::empty());
    }
    while i < books.len()
        invariant
            i <= books@.len(),
            match found {
                Some(f) => f < i && find_book(books@.take(i as int), bid) == f,
                None => find_book(books@.take(i as int), bid) == -1,
            },
        decreases books@.len() - i,
    {
        proof {
            assert(books@.take(i as int + 1).drop_last() =~= books@.take(i as int));
            assert(books@.take(i as int + 1).last() == books@[i as int]);
        }
        if found.is_none() && books[i].bid == bid {
            found = Some(i);
        }
        i += 1;
    }
    proof {
        assert(books@.take(books@.len() as int) =~= books@);
    }
    found
}

/// Index of the first instance row with identifier `iid`, if any.
fn find_instance_idx(instances: &Vec<InstanceRow>, iid: u64) -> (r: Option<usize>)
    ensures
        match r {
            Some(i) => i < instances@.len() && find_instance(instances@, iid) == i,
            None => find_instance(instances@, iid) == -1,
        },
{
    let mut found: Option<usize> = None;
    let mut i: usize = 0;
    proof {
        assert(instances@.take(0) =~= Seq::<InstanceRow>::empty());
    }
    while i < instances.len()
        invariant
            i <= instances@.len(),
            match found {
                Some(f) => f < i && find_instance(instances@.take(i as int), iid) == f,
                None => find_instance(instances@.take(i as int), iid) == -1,
            },
        decreases instances@.len() - i,
    {
        proof {
            assert(instances@.take(i as int + 1).drop_last() =~= instances@.take(i as int));
            assert(instances@.take(i as int + 1).last() == instances@[i as int]);
        }
        if found.is_none() && instances[i].iid == iid {
            found = Some(i);
        }
        i += 1;
    }
    proof {
        assert(instances@.take(instances@.len() as int) =~= instances@);
    }
    found
}

/// Index of the first occupation row referencing instance `iid`, if any.
fn find_occupation_idx(occupations: &Vec<OccupationRow>, iid: u64) -> (r: Option<usize>)
    ensures
        match r {
            Some(i) => i < occupations@.len() && find_occupation(occupations@, iid) == i,
            None => find_occupation(occupations@, iid) == -1,
        },
{
    let mut found: Option<usize> = None;
    let mut i: usize = 0;
    proof {
        assert(occupations@.take(0) =~= Seq::<OccupationRow>::empty());
    }
    while i < occupations.len()
        invariant
            i <= occupations@.len(),
            match found {
                Some(f) => f < i && find_occupation(occupations@.take(i as int), iid) == f,
                None => find_occupation(occupations@.take(i as int), iid) == -1,
            },
        decreases occupations@.len() - i,
    {
        proof {
            assert(occupations@.take(i as int + 1).drop_last() =~= occupations@.take(i as int));
            assert(occupations@.take(i as int + 1).last() == occupations@[i as int]);
        }
        if found.is_none() && occupations[i].iid == iid {
            found = Some(i);
        }
        i += 1;
    }
    proof {
        assert(occupations@.take(occupations@.len() as int) =~= occupations@);
    }
    found
}

/// Registers a new user.  The username and email are validated first; on
/// failure nothing is stored.  On success the new row takes the next
/// generated identifier, which is returned.
pub fn user_register(ledger: &mut Ledger, req: RequestUserRegister) -> (resp: ResponseUserRegister)
    requires
        old(ledger).wf(),
    ensures
        final(ledger).wf(),
        !username_ok(req.username@) ==> *final(ledger) == *old(ledger) && !resp.success
            && resp.uid == 0 && resp.message@ == "username is not legit"@,
        username_ok(req.username@) && !email_ok(req.email@) ==> *final(ledger) == *old(ledger)
            && !resp.success && resp.uid == 0 && resp.message@ == "email is not legit"@,
        username_ok(req.username@) && email_ok(req.email@) && old(ledger).next_uid == u64::MAX
            ==> *final(ledger) == *old(ledger) && !resp.success && resp.uid == 0 && resp.message@
            == "id space exhausted"@,
        username_ok(req.username@) && email_ok(req.email@) && old(ledger).next_uid < u64::MAX ==> {
            &&& resp.success
            &&& resp.uid == old(ledger).next_uid
            &&& resp.message@ == "success"@
            &&& final(ledger).users@ == old(ledger).users@.push(
                UserRow {
                    uid: old(ledger).next_uid,
                    username: req.username,
                    email: req.email,
                    info: req.info,
                },
            )
            &&& final(ledger).next_uid == old(ledger).next_uid + 1
            &&& final(ledger).books == old(ledger).books
            &&& final(ledger).instances == old(ledger).instances
            &&& final(ledger).occupations == old(ledger).occupations
            &&& final(ledger).next_bid == old(ledger).next_bid
            &&& final(ledger).next_iid == old(ledger).next_iid
            &&& final(ledger).today == old(ledger).today
        },
{
    if !is_username_legit(req.username.as_str()) {
        return ResponseUserRegister {
            success: false,
            uid: 0,
            message: "username is not legit".to_owned(),
        };
    }
    if !is_email_legit(req.email.as_str()) {
        return ResponseUserRegister {
            success: false,
            uid: 0,
            message: "email is not legit".to_owned(),
        };
    }
    if ledger.next_uid == u64::MAX {
        return ResponseUserRegister {
            success: false,
            uid: 0,
            message: "id space exhausted".to_owned(),
        };
    }
    let uid = ledger.next_uid;
    ledger.next_uid = uid + 1;
    ledger.users.push(
        UserRow { uid, username: req.username, email: req.email, info: req.info },
    );
    ResponseUserRegister { success: true, uid, message: "success".to_owned() }
}

/// The row a lookup phrase asks for: a phrase beginning with `:` searches
/// by the email after the colon, any other phrase searches by username.
pub open spec fn lookup_index(users: Seq<UserRow>, phrase: Seq<char>) -> int {
    if phrase.len() > 0 && phrase[0] == ':' {
        find_user_by_email(users, phrase.subrange(1, phrase.len() as int))
    } else {
        find_user_by_name(users, phrase)
    }
}

/// Looks a user up by username, or by email when the phrase starts with
/// `:`.  Returns the first matching row's identifier.
pub fn user_lookup(ledger: &Ledger, req: RequestUserLookup) -> (resp: ResponseUserLookup)
    ensures
        ({
            let idx = lookup_index(ledger.users@, req.phrase@);
            if idx >= 0 {
                resp.success && resp.uid == ledger.users@[idx].uid && resp.message@ == "success"@
            } else {
                !resp.success && resp.uid == 0 && resp.message@ == "not found"@
            }
        }),
{
    let len = req.phrase.unicode_len();
    let found: Option<usize> = if len > 0 && req.phrase.as_str().get_char(0) == ':' {
        let email = req.phrase.as_str().substring_char(1, len).to_owned();
        find_user_idx_by_email(&ledger.users, &email)
    } else {
        find_user_idx_by_name(&ledger.users, &req.phrase)
    };
    match found {
        Some(i) => ResponseUserLookup {
            success: true,
            uid: ledger.users[i].uid,
            message: "success".to_owned(),
        },
        None => ResponseUserLookup { success: false, uid: 0, message: "not found".to_owned() },
    }
}

/// Reports a user's username, email and info, or a not-found failure.
pub fn user_info(ledger: &Ledger, req: RequestUserInfo) -> (resp: ResponseUserInfo)
    ensures
        ({
            let idx = find_user_by_uid(ledger.users@, req.uid);
            if idx >= 0 {
                &&& resp.success
                &&& resp.message@ == "success"@
                &&& resp.username@ == ledger.users@[idx].username@
                &&& resp.email@ == ledger.users@[idx].email@
                &&& resp.info@ == ledger.users@[idx].info@
            } else {
                &&& !resp.success
                &&& resp.message@ == "not found"@
                &&& resp.username@ == Seq::<char>::empty()
                &&& resp.email@ == Seq::<char>::empty()
                &&& resp.info@ == Seq::<char>::empty()
            }
        }),
{
    match find_user_idx_by_uid(&ledger.users, req.uid) {
        Some(i) => ResponseUserInfo {
            success: true,
            message: "success".to_owned(),
            username: ledger.users[i].username.clone(),
            email: ledger.users[i].email.clone(),
            info: ledger.users[i].info.clone(),
        },
        None => ResponseUserInfo {
            success: false,
            message: "not found".to_owned(),
            username: String::new(),
            email: String::new(),
            info: String::new(),
        },
    }
}

/// Overwrites a user's username, email and info.  The username is
/// re-validated first.  A `uid` that matches no row is a no-op success, as
/// the store reports only how many rows changed.
pub fn user_alter(ledger: &mut Ledger, req: RequestUserAlter) -> (resp: ResponseUserAlter)
    requires
        old(ledger).wf(),
    ensures
        final(ledger).wf(),
        !username_ok(req.username@) ==> *final(ledger) == *old(ledger) && !resp.success
            && resp.message@ == "username is not legit"@,
        username_ok(req.username@) ==> {
            &&& resp.success
            &&& resp.message@ == "success"@
            &&& final(ledger).users@ == users_altered(
                old(ledger).users@,
                req.uid,
                req.username,
                req.email,
                req.info,
            )
            &&& final(ledger).books == old(ledger).books
            &&& final(ledger).instances == old(ledger).instances
            &&& final(ledger).occupations == old(ledger).occupations
            &&& final(ledger).next_uid == old(ledger).next_uid
            &&& final(ledger).next_bid == old(ledger).next_bid
            &&& final(ledger).next_iid == old(ledger).next_iid
            &&& final(ledger).today == old(ledger).today
        },
{
    if !is_username_legit(req.username.as_str()) {
        return ResponseUserAlter { success: false, message: "username is not legit".to_owned() };
    }
    match find_user_idx_by_uid(&ledger.users, req.uid) {
        Some(i) => {
            proof {
                lemma_find_user_by_uid_props(ledger.users@, req.uid);
            }
            ledger.users.set(
                i,
                UserRow {
                    uid: req.uid,
                    username: req.username,
                    email: req.email,
                    info: req.info,
                },
            );
        },
        None => {},
    }
    ResponseUserAlter { success: true, message: "success".to_owned() }
}

/// Deletes a user's row.  Occupation rows referencing the user are left
/// as they are; a `uid` that matches no row is a no-op success.
pub fn user_unregister(ledger: &mut Ledger, req: RequestUserUnregister) -> (resp:
    ResponseUserUnregister)
    requires
        old(ledger).wf(),
    ensures
        final(ledger).wf(),
        resp.success,
        resp.message@ == "success"@,
        final(ledger).users@ == users_without(old(ledger).users@, req.uid),
        final(ledger).books == old(ledger).books,
        final(ledger).instances == old(ledger).instances,
        final(ledger).occupations == old(ledger).occupations,
        final(ledger).next_uid == old(ledger).next_uid,
        final(ledger).next_bid == old(ledger).next_bid,
        final(ledger).next_iid == old(ledger).next_iid,
        final(ledger).today == old(ledger).today,
{
    match find_user_idx_by_uid(&ledger.users, req.uid) {
        Some(i) => {
            ledger.users.remove(i);
        },
        None => {},
    }
    ResponseUserUnregister { success: true, message: "success".to_owned() }
}

/// Records that `uid` borrows instance `iid`, stamped with the ledger's
/// current day.  Refused when any user already holds or reserves the
/// instance: one physical copy cannot be occupied twice.
pub fn user_borrow(ledger: &mut Ledger, req: RequestBookBorrow) -> (resp: ResponseBookBorrow)
    requires
        old(ledger).wf(),
    ensures
        final(ledger).wf(),
        occupied(old(ledger).occupations@, req.iid) ==> *final(ledger) == *old(ledger)
            && !resp.success && resp.message@ == "instance is occupied"@,
        !occupied(old(ledger).occupations@, req.iid) ==> {
            &&& resp.success
            &&& resp.message@ == "success"@
            &&& final(ledger).occupations@ == old(ledger).occupations@.push(
                OccupationRow {
                    uid: req.uid,
                    iid: req.iid,
                    date: old(ledger).today,
                    kind: KIND_BORROWED,
                },
            )
            &&& final(ledger).users == old(ledger).users
            &&& final(ledger).books == old(ledger).books
            &&& final(ledger).instances == old(ledger).instances
            &&& final(ledger).next_uid == old(ledger).next_uid
            &&& final(ledger).next_bid == old(ledger).next_bid
            &&& final(ledger).next_iid == old(ledger).next_iid
            &&& final(ledger).today == old(ledger).today
        },
{
    match find_occupation_idx(&ledger.occupations, req.iid) {
        Some(_) => ResponseBookBorrow {
            success: false,
            message: "instance is occupied".to_owned(),
        },
        None => {
            proof {
                lemma_find_occupation_props(ledger.occupations@, req.iid);
            }
            ledger.occupations.push(
                OccupationRow {
                    uid: req.uid,
                    iid: req.iid,
                    date: ledger.today,
                    kind: KIND_BORROWED,
                },
            );
            ResponseBookBorrow { success: true, message: "success".to_owned() }
        },
    }
}

/// Records that `uid` reserves instance `iid`; otherwise exactly as
/// `user_borrow`.
pub fn user_reserve(ledger: &mut Ledger, req: RequestBookReserve) -> (resp: ResponseBookReserve)
    requires
        old(ledger).wf(),
    ensures
        final(ledger).wf(),
        occupied(old(ledger).occupations@, req.iid) ==> *final(ledger) == *old(ledger)
            && !resp.success && resp.message@ == "instance is occupied"@,
        !occupied(old(ledger).occupations@, req.iid) ==> {
            &&& resp.success
            &&& resp.message@ == "success"@
            &&& final(ledger).occupations@ == old(ledger).occupations@.push(
                OccupationRow {
                    uid: req.uid,
                    iid: req.iid,
                    date: old(ledger).today,
                    kind: KIND_RESERVED,
                },
            )
            &&& final(ledger).users == old(ledger).users
            &&& final(ledger).books == old(ledger).books
            &&& final(ledger).instances == old(ledger).instances
            &&& final(ledger).next_uid == old(ledger).next_uid
            &&& final(ledger).next_bid == old(ledger).next_bid
            &&& final(ledger).next_iid == old(ledger).next_iid
            &&& final(ledger).today == old(ledger).today
        },
{
    match find_occupation_idx(&ledger.occupations, req.iid) {
        Some(_) => ResponseBookReserve {
            success: false,
            message: "instance is occupied".to_owned(),
        },
        None => {
            proof {
                lemma_find_occupation_props(ledger.occupations@, req.iid);
            }
            ledger.occupations.push(
                OccupationRow {
                    uid: req.uid,
                    iid: req.iid,
                    date: ledger.today,
                    kind: KIND_RESERVED,
                },
            );
            ResponseBookReserve { success: true, message: "success".to_owned() }
        },
    }
}

/// Releases instance `iid`: the occupation row referencing it is deleted,
/// whoever holds it and whatever its kind.  An unoccupied instance is a
/// no-op success.
pub fn user_return(ledger: &mut Ledger, req: RequestBookReturn) -> (resp: ResponseBookReturn)
    requires
        old(ledger).wf(),
    ensures
        final(ledger).wf(),
        resp.success,
        resp.message@ == "success"@,
        final(ledger).occupations@ == occupations_without(old(ledger).occupations@, req.iid),
        final(ledger).users == old(ledger).users,
        final(ledger).books == old(ledger).books,
        final(ledger).instances == old(ledger).instances,
        final(ledger).next_uid == old(ledger).next_uid,
        final(ledger).next_bid == old(ledger).next_bid,
        final(ledger).next_iid == old(ledger).next_iid,
        final(ledger).today == old(ledger).today,
{
    match find_occupation_idx(&ledger.occupations, req.iid) {
        Some(i) => {
            ledger.occupations.remove(i);
        },
        None => {},
    }
    ResponseBookReturn { success: true, message: "success".to_owned() }
}

/// The instance identifiers occupied by `uid` with the given kind, in
/// insertion order.
fn collect_occupied_iids(occupations: &Vec<OccupationRow>, uid: u64, kind: u64) -> (r: Vec<u64>)
    ensures
        r@ == occupied_iids(occupations@, uid, kind),
{
    let mut out: Vec<u64> = Vec::new();
    let mut i: usize = 0;
    proof {
        assert(occupations@.take(0) =~= Seq::<OccupationRow>::empty());
    }
    while i < occupations.len()
        invariant
            i <= occupations@.len(),
            out@ == occupied_iids(occupations@.take(i as int), uid, kind),
        decreases occupations@.len() - i,
    {
        proof {
            assert(occupations@.take(i as int + 1).drop_last() =~= occupations@.take(i as int));
            assert(occupations@.take(i as int + 1).last() == occupations@[i as int]);
        }
        if occupations[i].uid == uid && occupations[i].kind == kind {
            out.push(occupations[i].iid);
        }
        i += 1;
    }
    proof {
        assert(occupations@.take(occupations@.len() as int) =~= occupations@);
    }
    out
}

/// Lists the instances `uid` has borrowed, as a comma-joined identifier
/// list in insertion order.
pub fn user_borrowed(ledger: &Ledger, req: RequestUserBorrowed) -> (resp: ResponseUserBorrowed)
    ensures
        resp.success,
        resp.message@ == "success"@,
        resp.iid_list@ == join_dec(occupied_iids(ledger.occupations@, req.uid, KIND_BORROWED)),
{
    let iids = collect_occupied_iids(&ledger.occupations, req.uid, KIND_BORROWED);
    ResponseUserBorrowed {
        success: true,
        message: "success".to_owned(),
        iid_list: join_ids(&iids),
    }
}

/// Lists the instances `uid` has reserved, as a comma-joined identifier
/// list in insertion order.
pub fn user_reserved(ledger: &Ledger, req: RequestUserReserved) -> (resp: ResponseUserReserved)
    ensures
        resp.success,
        resp.message@ == "success"@,
        resp.iid_list@ == join_dec(occupied_iids(ledger.occupations@, req.uid, KIND_RESERVED)),
{
    let iids = collect_occupied_iids(&ledger.occupations, req.uid, KIND_RESERVED);
    ResponseUserReserved {
        success: true,
        message: "success".to_owned(),
        iid_list: join_ids(&iids),
    }
}

/// Adds a book to the catalog and returns its generated identifier.
pub fn admin_add(ledger: &mut Ledger, req: RequestBookAdd) -> (resp: ResponseBookAdd)
    requires
        old(ledger).wf(),
    ensures
        final(ledger).wf(),
        old(ledger).next_bid == u64::MAX ==> *final(ledger) == *old(ledger) && !resp.success
            && resp.bid == 0 && resp.message@ == "id space exhausted"@,
        old(ledger).next_bid < u64::MAX ==> {
            &&& resp.success
            &&& resp.bid == old(ledger).next_bid
            &&& resp.message@ == "success"@
            &&& final(ledger).books@ == old(ledger).books@.push(
                BookRow {
                    bid: old(ledger).next_bid,
                    title: req.title,
                    author: req.author,
                    info: req.info,
                },
            )
            &&& final(ledger).next_bid == old(ledger).next_bid + 1
            &&& final(ledger).users == old(ledger).users
            &&& final(ledger).instances == old(ledger).instances
            &&& final(ledger).occupations == old(ledger).occupations
            &&& final(ledger).next_uid == old(ledger).next_uid
            &&& final(ledger).next_iid == old(ledger).next_iid
            &&& final(ledger).today == old(ledger).today
        },
{
    if ledger.next_bid == u64::MAX {
        return ResponseBookAdd {
            success: false,
            message: "id space exhausted".to_owned(),
            bid: 0,
        };
    }
    let bid = ledger.next_bid;
    ledger.next_bid = bid + 1;
    ledger.books.push(BookRow { bid, title: req.title, author: req.author, info: req.info });
    ResponseBookAdd { success: true, message: "success".to_owned(), bid }
}

/// Deletes a book's catalog row.  Its instances are not removed with it;
/// a `bid` that matches no row is a no-op success.
pub fn admin_remove(ledger: &mut Ledger, req: RequestBookRemove) -> (resp: ResponseBookRemove)
    requires
        old(ledger).wf(),
    ensures
        final(ledger).wf(),
        resp.success,
        resp.message@ == "success"@,
        final(ledger).books@ == books_without(old(ledger).books@, req.bid),
        final(ledger).users == old(ledger).users,
        final(ledger).instances == old(ledger).instances,
        final(ledger).occupations == old(ledger).occupations,
        final(ledger).next_uid == old(ledger).next_uid,
        final(ledger).next_bid == old(ledger).next_bid,
        final(ledger).next_iid == old(ledger).next_iid,
        final(ledger).today == old(ledger).today,
{
    match find_book_idx(&ledger.books, req.bid) {
        Some(i) => {
            ledger.books.remove(i);
        },
        None => {},
    }
    ResponseBookRemove { success: true, message: "success".to_owned() }
}

/// Overwrites a book's title, author and info.  A `bid` that matches no
/// row is a no-op success.
pub fn admin_alter(ledger: &mut Ledger, req: RequestBookAlter) -> (resp: ResponseBookAlter)
    requires
        old(ledger).wf(),
    ensures
        final(ledger).wf(),
        resp.success,
        resp.message@ == "success"@,
        final(ledger).books@ == books_altered(
            old(ledger).books@,
            req.bid,
            req.title,
            req.author,
            req.info,
        ),
        final(ledger).users == old(ledger).users,
        final(ledger).instances == old(ledger).instances,
        final(ledger).occupations == old(ledger).occupations,
        final(ledger).next_uid == old(ledger).next_uid,
        final(ledger).next_bid == old(ledger).next_bid,
        final(ledger).next_iid == old(ledger).next_iid,
        final(ledger).today == old(ledger).today,
{
    match find_book_idx(&ledger.books, req.bid) {
        Some(i) => {
            proof {
                crate::ledger::lemma_find_book_props(ledger.books@, req.bid);
            }
            ledger.books.set(
                i,
                BookRow { bid: req.bid, title: req.title, author: req.author, info: req.info },
            );
        },
        None => {},
    }
    ResponseBookAlter { success: true, message: "success".to_owned() }
}

/// Adds a physical copy of book `bid` with a caller-supplied status code,
/// and returns the copy's generated identifier.  Whether `bid` resolves
/// to a catalog row is not checked.
pub fn admin_add_instance(ledger: &mut Ledger, req: RequestBookAddInstance) -> (resp:
    ResponseBookAddInstance)
    requires
        old(ledger).wf(),
    ensures
        final(ledger).wf(),
        old(ledger).next_iid == u64::MAX ==> *final(ledger) == *old(ledger) && !resp.success
            && resp.iid == 0 && resp.message@ == "id space exhausted"@,
        old(ledger).next_iid < u64::MAX ==> {
            &&& resp.success
            &&& resp.iid == old(ledger).next_iid
            &&& resp.message@ == "success"@
            &&& final(ledger).instances@ == old(ledger).instances@.push(
                InstanceRow { iid: old(ledger).next_iid, bid: req.bid, status: req.status },
            )
            &&& final(ledger).next_iid == old(ledger).next_iid + 1
            &&& final(ledger).users == old(ledger).users
            &&& final(ledger).books == old(ledger).books
            &&& final(ledger).occupations == old(ledger).occupations
            &&& final(ledger).next_uid == old(ledger).next_uid
            &&& final(ledger).next_bid == old(ledger).next_bid
            &&& final(ledger).today == old(ledger).today
        },
{
    if ledger.next_iid == u64::MAX {
        return ResponseBookAddInstance {
            success: false,
            message: "id space exhausted".to_owned(),
            iid: 0,
        };
    }
    let iid = ledger.next_iid;
    ledger.next_iid = iid + 1;
    ledger.instances.push(InstanceRow { iid, bid: req.bid, status: req.status });
    ResponseBookAddInstance { success: true, message: "success".to_owned(), iid }
}

/// Deletes an instance row.  Occupation rows referencing it are left as
/// they are; an `iid` that matches no row is a no-op success.
pub fn admin_remove_instance(ledger: &mut Ledger, req: RequestBookRemoveInstance) -> (resp:
    ResponseBookRemoveInstance)
    requires
        old(ledger).wf(),
    ensures
        final(ledger).wf(),
        resp.success,
        resp.message@ == "success"@,
        final(ledger).instances@ == instances_without(old(ledger).instances@, req.iid),
        final(ledger).users == old(ledger).users,
        final(ledger).books == old(ledger).books,
        final(ledger).occupations == old(ledger).occupations,
        final(ledger).next_uid == old(ledger).next_uid,
        final(ledger).next_bid == old(ledger).next_bid,
        final(ledger).next_iid == old(ledger).next_iid,
        final(ledger).today == old(ledger).today,
{
    match find_instance_idx(&ledger.instances, req.iid) {
        Some(i) => {
            ledger.instances.remove(i);
        },
        None => {},
    }
    ResponseBookRemoveInstance { success: true, message: "success".to_owned() }
}

/// The identifiers of the books whose title, author or info contains the
/// phrase, in catalog order.
pub open spec fn matching_bids(books: Seq<BookRow>, phrase: Seq<char>) -> Seq<u64>
    decreases books.len(),
{
    if books.len() == 0 {
        Seq::empty()
    } else {
        let rest = matching_bids(books.drop_last(), phrase);
        let b = books.last();
        if contains_seq(b.title@, phrase) || contains_seq(b.author@, phrase) || contains_seq(
            b.info@,
            phrase,
        ) {
            rest.push(b.bid)
        } else {
            rest
        }
    }
}

/// The matching book identifiers, in catalog order.
fn collect_matching_bids(books: &Vec<BookRow>, phrase: &String) -> (r: Vec<u64>)
    ensures
        r@ == matching_bids(books@, phrase@),
{
    let mut out: Vec<u64> = Vec::new();
    let mut i: usize = 0;
    proof {
        assert(books@.take(0) =~= Seq::<BookRow>::empty());
    }
    while i < books.len()
        invariant
            i <= books@.len(),
            out@ == matching_bids(books@.take(i as int), phrase@),
        decreases books@.len() - i,
    {
        proof {
            assert(books@.take(i as int + 1).drop_last() =~= books@.take(i as int));
            assert(books@.take(i as int + 1).last() == books@[i as int]);
        }
        let hit = str_contains(books[i].title.as_str(), phrase.as_str()) || str_contains(
            books[i].author.as_str(),
            phrase.as_str(),
        ) || str_contains(books[i].info.as_str(), phrase.as_str());
        if hit {
            out.push(books[i].bid);
        }
        i += 1;
    }
    proof {
        assert(books@.take(books@.len() as int) =~= books@);
    }
    out
}

/// Searches the catalog: a book matches when its title, author or info
/// contains the phrase as a substring.  The matching identifiers come
/// back comma-joined, in catalog order; an empty phrase matches every
/// book.
pub fn book_search(ledger: &Ledger, req: RequestBookSearch) -> (resp: ResponseBookSearch)
    ensures
        resp.success,
        resp.message@ == "success"@,
        resp.bid_list@ == join_dec(matching_bids(ledger.books@, req.phrase@)),
{
    let bids = collect_matching_bids(&ledger.books, &req.phrase);
    ResponseBookSearch {
        success: true,
        message: "success".to_owned(),
        bid_list: join_ids(&bids),
    }
}

/// Reports a book's title, author and info, or a not-found failure.
pub fn book_info(ledger: &Ledger, req: RequestBookInfo) -> (resp: ResponseBookInfo)
    ensures
        ({
            let idx = find_book(ledger.books@, req.bid);
            if idx >= 0 {
                &&& resp.success
                &&& resp.message@ == "success"@
                &&& resp.title@ == ledger.books@[idx].title@
                &&& resp.author@ == ledger.books@[idx].author@
                &&& resp.info@ == ledger.books@[idx].info@
            } else {
                &&& !resp.success
                &&& resp.message@ == "not found"@
                &&& resp.title@ == Seq::<char>::empty()
                &&& resp.author@ == Seq::<char>::empty()
                &&& resp.info@ == Seq::<char>::empty()
            }
        }),
{
    match find_book_idx(&ledger.books, req.bid) {
        Some(i) => ResponseBookInfo {
            success: true,
            message: "success".to_owned(),
            title: ledger.books[i].title.clone(),
            author: ledger.books[i].author.clone(),
            info: ledger.books[i].info.clone(),
        },
        None => ResponseBookInfo {
            success: false,
            message: "not found".to_owned(),
            title: String::new(),
            author: String::new(),
            info: String::new(),
        },
    }
}

/// The instance identifiers of the copies of book `bid`, in insertion
/// order.
fn collect_instance_iids(instances: &Vec<InstanceRow>, bid: u64) -> (r: Vec<u64>)
    ensures
        r@ == instance_iids(instances@, bid),
{
    let mut out: Vec<u64> = Vec::new();
    let mut i: usize = 0;
    proof {
        assert(instances@.take(0) =~= Seq::<InstanceRow>::empty());
    }
    while i < instances.len()
        invariant
            i <= instances@.len(),
            out@ == instance_iids(instances@.take(i as int), bid),
        decreases instances@.len() - i,
    {
        proof {
            assert(instances@.take(i as int + 1).drop_last() =~= instances@.take(i as int));
            assert(instances@.take(i as int + 1).last() == instances@[i as int]);
        }
        if instances[i].bid == bid {
            out.push(instances[i].iid);
        }
        i += 1;
    }
    proof {
        assert(instances@.take(instances@.len() as int) =~= instances@);
    }
    out
}

/// Lists the copies of book `bid`, as a comma-joined identifier list in
/// insertion order, or fails with not-found when `bid` resolves to no
/// catalog row.
pub fn book_instance(ledger: &Ledger, req: RequestBookInstance) -> (resp: ResponseBookInstance)
    ensures
        ({
            let idx = find_book(ledger.books@, req.bid);
            if idx >= 0 {
                &&& resp.success
                &&& resp.message@ == "success"@
                &&& resp.iid_list@ == join_dec(instance_iids(ledger.instances@, req.bid))
            } else {
                &&& !resp.success
                &&& resp.message@ == "not found"@
                &&& resp.iid_list@ == Seq::<char>::empty()
            }
        }),
{
    if find_book_idx(&ledger.books, req.bid).is_none() {
        return ResponseBookInstance {
            success: false,
            message: "not found".to_owned(),
            iid_list: String::new(),
        };
    }
    let iids = collect_instance_iids(&ledger.instances, req.bid);
    ResponseBookInstance {
        success: true,
        message: "success".to_owned(),
        iid_list: join_ids(&iids),
    }
}

/// Reports which book an instance copies and its status code, or a
/// not-found failure.
pub fn book_instance_info(ledger: &Ledger, req: RequestBookInstanceInfo) -> (resp:
    ResponseBookInstanceInfo)
    ensures
        ({
            let idx = find_instance(ledger.instances@, req.iid);
            if idx >= 0 {
                &&& resp.success
                &&& resp.message@ == "success"@
                &&& resp.bid == ledger.instances@[idx].bid
                &&& resp.status == ledger.instances@[idx].status
            } else {
                &&& !resp.success
                &&& resp.message@ == "not found"@
                &&& resp.bid == 0
                &&& resp.status == 0
            }
        }),
{
    match find_instance_idx(&ledger.instances, req.iid) {
        Some(i) => ResponseBookInstanceInfo {
            success: true,
            message: "success".to_owned(),
            bid: ledger.instances[i].bid,
            status: ledger.instances[i].status,
        },
        None => ResponseBookInstanceInfo {
            success: false,
            message: "not found".to_owned(),
            bid: 0,
            status: 0,
        },
    }
}

} // verus!
