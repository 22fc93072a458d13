//! The laws the ledger obeys across operations, each stated over the same
//! find/transition functions the operations' contracts use, so that what
//! one operation promises is provably what the next one sees.

use vstd::prelude::*;

use crate::api::lookup_index;
use crate::ledger::{
    find_instance, find_user_by_email, find_user_by_name, find_user_by_uid,
    lemma_find_instance_props, lemma_find_occupation_props, lemma_find_user_by_email_props,
    lemma_find_user_by_name_props, lemma_find_user_by_uid_props, occupations_without, occupied,
    occupied_iids, users_altered, users_without, InstanceRow, Ledger, OccupationRow, UserRow,
    KIND_BORROWED,
};
use crate::utils::{email_ok, is_space_char, username_ok};

verus! {

/// A username shorter than four characters, or containing whitespace, is
/// not legitimate: a register request carrying it fails validation and,
/// by `user_register`'s contract, leaves the ledger untouched.
pub proof fn lemma_short_or_spaced_username_rejected(s: Seq<char>)
    requires
        s.len() < 4 || exists|i: int| 0 <= i < s.len() && is_space_char(#[trigger] s[i]),
    ensures
        !username_ok(s),
{
}

/// Registering a valid user and then looking its username up finds the
/// row the registration created, with the identifier the registration
/// returned.  Requires the username to be new — an earlier row with the
/// same name would be found first, as the store returns the first match —
/// and not to begin with `:`, which a lookup phrase reserves for email
/// search.
pub proof fn lemma_register_then_lookup(l: Ledger, username: String, email: String, info: String)
    requires
        l.wf(),
        l.next_uid < u64::MAX,
        username_ok(username@),
        email_ok(email@),
        username@[0] != ':',
        forall|j: int| 0 <= j < l.users@.len() ==> (#[trigger] l.users@[j]).username@ != username@,
    ensures
        ({
            let users2 = l.users@.push(
                UserRow { uid: l.next_uid, username, email, info },
            );
            let idx = lookup_index(users2, username@);
            idx >= 0 && users2[idx].uid == l.next_uid
        }),
{
    let users2 = l.users@.push(UserRow { uid: l.next_uid, username, email, info });
    lemma_find_user_by_name_props(users2, username@);
    let r = find_user_by_name(users2, username@);
    assert(users2[users2.len() - 1].username@ == username@);
    if r == -1 {
        assert(users2[users2.len() - 1].username@ != username@);
    }
    if r < users2.len() - 1 {
        assert(users2[r] == l.users@[r]);
    }
}

/// Registering a valid user and then looking it up by `:` followed by its
/// email finds the row the registration created.  Requires the email to
/// be new, as the store returns the first match.
pub proof fn lemma_register_then_lookup_by_email(
    l: Ledger,
    username: String,
    email: String,
    info: String,
)
    requires
        l.wf(),
        l.next_uid < u64::MAX,
        username_ok(username@),
        email_ok(email@),
        forall|j: int| 0 <= j < l.users@.len() ==> (#[trigger] l.users@[j]).email@ != email@,
    ensures
        ({
            let users2 = l.users@.push(
                UserRow { uid: l.next_uid, username, email, info },
            );
            let phrase = seq![':'] + email@;
            let idx = lookup_index(users2, phrase);
            idx >= 0 && users2[idx].uid == l.next_uid
        }),
{
    let users2 = l.users@.push(UserRow { uid: l.next_uid, username, email, info });
    let phrase = seq![':'] + email@;
    assert(phrase[0] == ':');
    assert(phrase.subrange(1, phrase.len() as int) =~= email@);
    lemma_find_user_by_email_props(users2, email@);
    let r = find_user_by_email(users2, email@);
    assert(users2[users2.len() - 1].email@ == email@);
    if r == -1 {
        assert(users2[users2.len() - 1].email@ != email@);
    }
    if r < users2.len() - 1 {
        assert(users2[r] == l.users@[r]);
    }
}

/// Altering an existing user and then asking for its info reports exactly
/// the new username, email and info.
pub proof fn lemma_alter_then_info(l: Ledger, uid: u64, username: String, email: String, info: String)
    requires
        l.wf(),
        find_user_by_uid(l.users@, uid) != -1,
    ensures
        ({
            let users2 = users_altered(l.users@, uid, username, email, info);
            let idx = find_user_by_uid(users2, uid);
            &&& idx >= 0
            &&& users2[idx].username == username
            &&& users2[idx].email == email
            &&& users2[idx].info == info
        }),
{
    lemma_find_user_by_uid_props(l.users@, uid);
    let r = find_user_by_uid(l.users@, uid);
    let users2 = users_altered(l.users@, uid, username, email, info);
    lemma_find_user_by_uid_props(users2, uid);
    let r2 = find_user_by_uid(users2, uid);
    assert(users2[r].uid == uid);
    if r2 == -1 {
        assert(users2[r].uid != uid);
    }
    if r2 < r {
        assert(users2[r2] == l.users@[r2]);
    }
    if r2 > r {
        assert(users2[r].uid != uid);
    }
}

/// Unregistering a user and then asking for its info is a not-found
/// failure: no row with that identifier remains.
pub proof fn lemma_unregister_then_info(l: Ledger, uid: u64)
    requires
        l.wf(),
    ensures
        find_user_by_uid(users_without(l.users@, uid), uid) == -1,
{
    lemma_find_user_by_uid_props(l.users@, uid);
    let r = find_user_by_uid(l.users@, uid);
    if r != -1 {
        let users2 = l.users@.remove(r);
        assert(forall|j: int|
            0 <= j < users2.len() ==> (#[trigger] users2[j]).uid != uid) by {
            assert(forall|j: int| 0 <= j < r ==> users2[j] == #[trigger] l.users@[j]);
            assert(forall|j: int|
                r <= j < users2.len() ==> users2[j] == #[trigger] l.users@[j + 1]);
        }
        lemma_find_user_by_uid_props(users2, uid);
    }
}

/// Adding an instance and then asking for its info reports exactly the
/// book identifier and status the instance was created with.
pub proof fn lemma_add_instance_then_info(l: Ledger, bid: u64, status: u64)
    requires
        l.wf(),
        l.next_iid < u64::MAX,
    ensures
        ({
            let instances2 = l.instances@.push(
                InstanceRow { iid: l.next_iid, bid, status },
            );
            let idx = find_instance(instances2, l.next_iid);
            &&& idx >= 0
            &&& instances2[idx].bid == bid
            &&& instances2[idx].status == status
        }),
{
    let instances2 = l.instances@.push(InstanceRow { iid: l.next_iid, bid, status });
    lemma_find_instance_props(instances2, l.next_iid);
    let r = find_instance(instances2, l.next_iid);
    assert(instances2[instances2.len() - 1].iid == l.next_iid);
    if r == -1 {
        assert(instances2[instances2.len() - 1].iid != l.next_iid);
    }
    if r < instances2.len() - 1 {
        assert(instances2[r] == l.instances@[r]);
    }
}

/// Borrowing an unoccupied instance puts it on the borrower's list.
pub proof fn lemma_borrow_then_borrowed(l: Ledger, uid: u64, iid: u64)
    requires
        l.wf(),
        !occupied(l.occupations@, iid),
    ensures
        occupied_iids(
            l.occupations@.push(
                OccupationRow { uid, iid, date: l.today, kind: KIND_BORROWED },
            ),
            uid,
            KIND_BORROWED,
        ).contains(iid),
{
    let occs2 = l.occupations@.push(OccupationRow { uid, iid, date: l.today, kind: KIND_BORROWED });
    assert(occs2.drop_last() =~= l.occupations@);
    let listed = occupied_iids(occs2, uid, KIND_BORROWED);
    assert(listed == occupied_iids(l.occupations@, uid, KIND_BORROWED).push(iid));
    assert(listed[listed.len() - 1] == iid);
}

/// No occupation row references `iid`, so no borrowed list contains it.
proof fn lemma_occupied_iids_absent(occs: Seq<OccupationRow>, uid: u64, kind: u64, iid: u64)
    requires
        forall|j: int| 0 <= j < occs.len() ==> (#[trigger] occs[j]).iid != iid,
    ensures
        !occupied_iids(occs, uid, kind).contains(iid),
    decreases occs.len(),
{
    if occs.len() > 0 {
        assert(forall|j: int|
            0 <= j < occs.len() - 1 ==> occs.drop_last()[j] == #[trigger] occs[j]);
        lemma_occupied_iids_absent(occs.drop_last(), uid, kind, iid);
        let rest = occupied_iids(occs.drop_last(), uid, kind);
        let whole = occupied_iids(occs, uid, kind);
        if occs.last().uid == uid && occs.last().kind == kind {
            assert(whole == rest.push(occs.last().iid));
            assert forall|i: int| 0 <= i < whole.len() implies whole[i] != iid by {
                if i < rest.len() {
                    assert(whole[i] == rest[i]);
                    assert(!rest.contains(iid));
                }
            }
        } else {
            assert(whole == rest);
        }
    }
}

/// Returning an instance takes it off every borrowed list: after the
/// return, no user's list contains it.
pub proof fn lemma_return_then_borrowed(l: Ledger, uid: u64, iid: u64)
    requires
        l.wf(),
    ensures
        !occupied_iids(occupations_without(l.occupations@, iid), uid, KIND_BORROWED).contains(iid),
{
    lemma_find_occupation_props(l.occupations@, iid);
    let r = crate::ledger::find_occupation(l.occupations@, iid);
    let occs2 = occupations_without(l.occupations@, iid);
    if r == -1 {
        lemma_occupied_iids_absent(occs2, uid, KIND_BORROWED, iid);
    } else {
        assert(forall|j: int|
            0 <= j < occs2.len() ==> (#[trigger] occs2[j]).iid != iid) by {
            assert(forall|j: int| 0 <= j < r ==> occs2[j] == #[trigger] l.occupations@[j]);
            assert(forall|j: int|
                r <= j < occs2.len() ==> occs2[j] == #[trigger] l.occupations@[j + 1]);
        }
        lemma_occupied_iids_absent(occs2, uid, KIND_BORROWED, iid);
    }
}

} // verus!
