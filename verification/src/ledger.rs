//! The circulation ledger: the store the domain operations run against.
//!
//! Four tables — users, books, instances, occupations — each a vector of
//! rows in insertion order, plus the next generated identifier for the
//! three row kinds that get one.  Identifiers start at 1 and are unique
//! within their table; an occupation's `kind` is one of the three codes
//! below; and, because borrow and reserve refuse an instance that is
//! already occupied, at most one occupation row exists per instance.
//!
//! Deleting a user, book or instance does not cascade: occupation or
//! instance rows that reference it are left dangling, as the data model
//! tolerates.

use vstd::prelude::*;

verus! {

/// Occupation kind: the user has borrowed the instance.
pub const KIND_BORROWED: u64 = 0;

/// Occupation kind: the user has reserved the instance.
pub const KIND_RESERVED: u64 = 1;

/// Occupation kind: the instance is recorded as lost.  Terminal; present
/// as a code only, no public operation creates it.
pub const KIND_LOST: u64 = 2;

/// One membership row.
pub struct UserRow {
    pub uid: u64,
    pub username: String,
    pub email: String,
    pub info: String,
}

/// One catalog row.
pub struct BookRow {
    pub bid: u64,
    pub title: String,
    pub author: String,
    pub info: String,
}

/// One physical copy of a cataloged book.  `status` is a caller-supplied
/// condition code, independent of circulation state.
pub struct InstanceRow {
    pub iid: u64,
    pub bid: u64,
    pub status: u64,
}

/// One circulation event: user `uid` holds or reserves instance `iid`.
pub struct OccupationRow {
    pub uid: u64,
    pub iid: u64,
    pub date: u64,
    pub kind: u64,
}

/// The shared store.  All domain operations take it explicitly; whoever
/// owns it (or a lock around it) is the access serializer.
pub struct Ledger {
    pub users: Vec<UserRow>,
    pub books: Vec<BookRow>,
    pub instances: Vec<InstanceRow>,
    pub occupations: Vec<OccupationRow>,
    pub next_uid: u64,
    pub next_bid: u64,
    pub next_iid: u64,
    /// The calendar day recorded on new occupation rows, as a day number.
    pub today: u64,
}

impl Ledger {
    /// Well-formedness: generated identifiers are at least 1, below their
    /// counter, and unique within their table; occupation kinds are among
    /// the three codes; and no instance is occupied twice.
    pub open spec fn wf(&self) -> bool {
        &&& 1 <= self.next_uid
        &&& 1 <= self.next_bid
        &&& 1 <= self.next_iid
        &&& forall|i: int|
            0 <= i < self.users@.len() ==> 1 <= (#[trigger] self.users@[i]).uid < self.next_uid
        &&& forall|i: int, j: int|
            0 <= i < j < self.users@.len() ==> (#[trigger] self.users@[i]).uid
                != (#[trigger] self.users@[j]).uid
        &&& forall|i: int|
            0 <= i < self.books@.len() ==> 1 <= (#[trigger] self.books@[i]).bid < self.next_bid
        &&& forall|i: int, j: int|
            0 <= i < j < self.books@.len() ==> (#[trigger] self.books@[i]).bid
                != (#[trigger] self.books@[j]).bid
        &&& forall|i: int|
            0 <= i < self.instances@.len() ==> 1 <= (#[trigger] self.instances@[i]).iid
                < self.next_iid
        &&& forall|i: int, j: int|
            0 <= i < j < self.instances@.len() ==> (#[trigger] self.instances@[i]).iid
                != (#[trigger] self.instances@[j]).iid
        &&& forall|i: int|
            0 <= i < self.occupations@.len() ==> (#[trigger] self.occupations@[i]).kind
                <= KIND_LOST
        &&& forall|i: int, j: int|
            0 <= i < j < self.occupations@.len() ==> (#[trigger] self.occupations@[i]).iid
                != (#[trigger] self.occupations@[j]).iid
    }

    /// A fresh, empty ledger.
    pub fn new() -> (l: Ledger)
        ensures
            l.wf(),
            l.users@.len() == 0,
            l.books@.len() == 0,
            l.instances@.len() == 0,
            l.occupations@.len() == 0,
            l.next_uid == 1,
            l.next_bid == 1,
            l.next_iid == 1,
            l.today == 0,
    {
        Ledger {
            users: Vec::new(),
            books: Vec::new(),
            instances: Vec::new(),
            occupations: Vec::new(),
            next_uid: 1,
            next_bid: 1,
            next_iid: 1,
            today: 0,
        }
    }

    /// Sets the day number stamped on occupation rows created from now on.
    pub fn set_today(&mut self, day: u64)
        requires
            old(self).wf(),
        ensures
            final(self).wf(),
            final(self).today == day,
            final(self).users == old(self).users,
            final(self).books == old(self).books,
            final(self).instances == old(self).instances,
            final(self).occupations == old(self).occupations,
            final(self).next_uid == old(self).next_uid,
            final(self).next_bid == old(self).next_bid,
            final(self).next_iid == old(self).next_iid,
    {
        self.today = day;
    }
}

/// Index of the first user row whose username equals `name`, or -1.
pub open spec fn find_user_by_name(users: Seq<UserRow>, name: Seq<char>) -> int
    decreases users.len(),
{
    if users.len() == 0 {
        -1
    } else {
        let r = find_user_by_name(users.drop_last(), name);
        if r != -1 {
            r
        } else if users.last().username@ == name {
            users.len() - 1
        } else {
            -1
        }
    }
}

/// Index of the first user row whose email equals `email`, or -1.
pub open spec fn find_user_by_email(users: Seq<UserRow>, email: Seq<char>) -> int
    decreases users.len(),
{
    if users.len() == 0 {
        -1
    } else {
        let r = find_user_by_email(users.drop_last(), email);
        if r != -1 {
            r
        } else if users.last().email@ == email {
            users.len() - 1
        } else {
            -1
        }
    }
}

/// Index of the first user row with identifier `uid`, or -1.  Under
/// `Ledger::wf` there is at most one.
pub open spec fn find_user_by_uid(users: Seq<UserRow>, uid: u64) -> int
    decreases users.len(),
{
    if users.len() == 0 {
        -1
    } else {
        let r = find_user_by_uid(users.drop_last(), uid);
        if r != -1 {
            r
        } else if users.last().uid == uid {
            users.len() - 1
        } else {
            -1
        }
    }
}

/// Index of the first book row with identifier `bid`, or -1.
pub open spec fn find_book(books: Seq<BookRow>, bid: u64) -> int
    decreases books.len(),
{
    if books.len() == 0 {
        -1
    } else {
        let r = find_book(books.drop_last(), bid);
        if r != -1 {
            r
        } else if books.last().bid == bid {
            books.len() - 1
        } else {
            -1
        }
    }
}

/// Index of the first instance row with identifier `iid`, or -1.
pub open spec fn find_instance(instances: Seq<InstanceRow>, iid: u64) -> int
    decreases instances.len(),
{
    if instances.len() == 0 {
        -1
    } else {
        let r = find_instance(instances.drop_last(), iid);
        if r != -1 {
            r
        } else if instances.last().iid == iid {
            instances.len() - 1
        } else {
            -1
        }
    }
}

/// Index of the first occupation row referencing instance `iid`, or -1.
/// Under `Ledger::wf` there is at most one.
pub open spec fn find_occupation(occupations: Seq<OccupationRow>, iid: u64) -> int
    decreases occupations.len(),
{
    if occupations.len() == 0 {
        -1
    } else {
        let r = find_occupation(occupations.drop_last(), iid);
        if r != -1 {
            r
        } else if occupations.last().iid == iid {
            occupations.len() - 1
        } else {
            -1
        }
    }
}

/// Some occupation row references instance `iid`.
pub open spec fn occupied(occupations: Seq<OccupationRow>, iid: u64) -> bool {
    find_occupation(occupations, iid) != -1
}

/// The user table after an unregister of `uid`: the row with that
/// identifier (under `Ledger::wf` at most one exists) is deleted; absent
/// rows are no error.
pub open spec fn users_without(users: Seq<UserRow>, uid: u64) -> Seq<UserRow> {
    let r = find_user_by_uid(users, uid);
    if r == -1 {
        users
    } else {
        users.remove(r)
    }
}

/// The book table after a remove of `bid`: its instances are not removed
/// with it.
pub open spec fn books_without(books: Seq<BookRow>, bid: u64) -> Seq<BookRow> {
    let r = find_book(books, bid);
    if r == -1 {
        books
    } else {
        books.remove(r)
    }
}

/// The instance table after a remove of `iid`: occupation rows that
/// reference it are not removed with it.
pub open spec fn instances_without(instances: Seq<InstanceRow>, iid: u64) -> Seq<InstanceRow> {
    let r = find_instance(instances, iid);
    if r == -1 {
        instances
    } else {
        instances.remove(r)
    }
}

/// The occupation table after a return of instance `iid`: the row
/// referencing it is deleted, whoever holds it and whatever its kind.
pub open spec fn occupations_without(
    occupations: Seq<OccupationRow>,
    iid: u64,
) -> Seq<OccupationRow> {
    let r = find_occupation(occupations, iid);
    if r == -1 {
        occupations
    } else {
        occupations.remove(r)
    }
}

/// The user table after an alter of `uid`: the row with that identifier
/// (under `Ledger::wf` at most one exists) takes the new username, email
/// and info; when no row matches, nothing changes and that is no error.
pub open spec fn users_altered(
    users: Seq<UserRow>,
    uid: u64,
    username: String,
    email: String,
    info: String,
) -> Seq<UserRow> {
    let r = find_user_by_uid(users, uid);
    if r == -1 {
        users
    } else {
        users.update(r, UserRow { uid, username, email, info })
    }
}

/// The book table after an alter of `bid`.
pub open spec fn books_altered(
    books: Seq<BookRow>,
    bid: u64,
    title: String,
    author: String,
    info: String,
) -> Seq<BookRow> {
    let r = find_book(books, bid);
    if r == -1 {
        books
    } else {
        books.update(r, BookRow { bid, title, author, info })
    }
}

/// What `find_user_by_name` returns: -1 exactly when no row matches, and
/// otherwise the first matching index.
pub proof fn lemma_find_user_by_name_props(users: Seq<UserRow>, name: Seq<char>)
    ensures
        ({
            let r = find_user_by_name(users, name);
            &&& (r == -1 <==> forall|j: int|
                0 <= j < users.len() ==> (#[trigger] users[j]).username@ != name)
            &&& (r != -1 ==> 0 <= r < users.len() && users[r].username@ == name && forall|j: int|
                0 <= j < r ==> (#[trigger] users[j]).username@ != name)
        }),
    decreases users.len(),
{
    if users.len() > 0 {
        lemma_find_user_by_name_props(users.drop_last(), name);
        assert(forall|j: int|
            0 <= j < users.len() - 1 ==> users.drop_last()[j] == #[trigger] users[j]);
    }
}

/// What `find_user_by_email` returns.
pub proof fn lemma_find_user_by_email_props(users: Seq<UserRow>, email: Seq<char>)
    ensures
        ({
            let r = find_user_by_email(users, email);
            &&& (r == -1 <==> forall|j: int|
                0 <= j < users.len() ==> (#[trigger] users[j]).email@ != email)
            &&& (r != -1 ==> 0 <= r < users.len() && users[r].email@ == email && forall|j: int|
                0 <= j < r ==> (#[trigger] users[j]).email@ != email)
        }),
    decreases users.len(),
{
    if users.len() > 0 {
        lemma_find_user_by_email_props(users.drop_last(), email);
        assert(forall|j: int|
            0 <= j < users.len() - 1 ==> users.drop_last()[j] == #[trigger] users[j]);
    }
}

/// What `find_user_by_uid` returns.
pub proof fn lemma_find_user_by_uid_props(users: Seq<UserRow>, uid: u64)
    ensures
        ({
            let r = find_user_by_uid(users, uid);
            &&& (r == -1 <==> forall|j: int| 0 <= j < users.len() ==> (#[trigger] users[j]).uid
                != uid)
            &&& (r != -1 ==> 0 <= r < users.len() && users[r].uid == uid && forall|j: int|
                0 <= j < r ==> (#[trigger] users[j]).uid != uid)
        }),
    decreases users.len(),
{
    if users.len() > 0 {
        lemma_find_user_by_uid_props(users.drop_last(), uid);
        assert(forall|j: int|
            0 <= j < users.len() - 1 ==> users.drop_last()[j] == #[trigger] users[j]);
    }
}

/// What `find_book` returns.
pub proof fn lemma_find_book_props(books: Seq<BookRow>, bid: u64)
    ensures
        ({
            let r = find_book(books, bid);
            &&& (r == -1 <==> forall|j: int| 0 <= j < books.len() ==> (#[trigger] books[j]).bid
                != bid)
            &&& (r != -1 ==> 0 <= r < books.len() && books[r].bid == bid && forall|j: int|
                0 <= j < r ==> (#[trigger] books[j]).bid != bid)
        }),
    decreases books.len(),
{
    if books.len() > 0 {
        lemma_find_book_props(books.drop_last(), bid);
        assert(forall|j: int|
            0 <= j < books.len() - 1 ==> books.drop_last()[j] == #[trigger] books[j]);
    }
}

/// What `find_instance` returns.
pub proof fn lemma_find_instance_props(instances: Seq<InstanceRow>, iid: u64)
    ensures
        ({
            let r = find_instance(instances, iid);
            &&& (r == -1 <==> forall|j: int|
                0 <= j < instances.len() ==> (#[trigger] instances[j]).iid != iid)
            &&& (r != -1 ==> 0 <= r < instances.len() && instances[r].iid == iid && forall|
                j: int,
            |
                0 <= j < r ==> (#[trigger] instances[j]).iid != iid)
        }),
    decreases instances.len(),
{
    if instances.len() > 0 {
        lemma_find_instance_props(instances.drop_last(), iid);
        assert(forall|j: int|
            0 <= j < instances.len() - 1 ==> instances.drop_last()[j] == #[trigger] instances[j]);
    }
}

/// What `find_occupation` returns.
pub proof fn lemma_find_occupation_props(occupations: Seq<OccupationRow>, iid: u64)
    ensures
        ({
            let r = find_occupation(occupations, iid);
            &&& (r == -1 <==> forall|j: int|
                0 <= j < occupations.len() ==> (#[trigger] occupations[j]).iid != iid)
            &&& (r != -1 ==> 0 <= r < occupations.len() && occupations[r].iid == iid && forall|
                j: int,
            |
                0 <= j < r ==> (#[trigger] occupations[j]).iid != iid)
        }),
    decreases occupations.len(),
{
    if occupations.len() > 0 {
        lemma_find_occupation_props(occupations.drop_last(), iid);
        assert(forall|j: int|
            0 <= j < occupations.len() - 1 ==> occupations.drop_last()[j]
                == #[trigger] occupations[j]);
    }
}

/// The instance identifiers occupied by `uid` with the given kind, in
/// insertion order.
pub open spec fn occupied_iids(occupations: Seq<OccupationRow>, uid: u64, kind: u64) -> Seq<u64>
    decreases occupations.len(),
{
    if occupations.len() == 0 {
        Seq::empty()
    } else {
        let rest = occupied_iids(occupations.drop_last(), uid, kind);
        if occupations.last().uid == uid && occupations.last().kind == kind {
            rest.push(occupations.last().iid)
        } else {
            rest
        }
    }
}

/// The instance identifiers of the copies of book `bid`, in insertion
/// order.
pub open spec fn instance_iids(instances: Seq<InstanceRow>, bid: u64) -> Seq<u64>
    decreases instances.len(),
{
    if instances.len() == 0 {
        Seq::empty()
    } else {
        let rest = instance_iids(instances.drop_last(), bid);
        if instances.last().bid == bid {
            rest.push(instances.last().iid)
        } else {
            rest
        }
    }
}

} // verus!
