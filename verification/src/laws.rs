//! What holds of whole requests, one after another, against the store of the model.

use crate::credential::token_text;
use crate::db::{
    app_key, user_key, Failure, OutcomeModel, ReportModel, APP_ADDRESS_KEY, APP_ID_KEY,
    APP_TOKEN_KEY, USER_ID_KEY,
};
use crate::ip_request::{address_message, NO_APPLICATION};
use crate::model::{
    apply_write, apply_writes, counter_value, issue, joined, lemma_joined_empty, query, report, run, start, start_from,
    Entry, StoreModel,
};
use crate::startup::StartupStepModel;
use crate::text::{
    decimal, find_from, first_number, is_digit, lemma_decimal_reads_back, lemma_find_from,
    unsigned_body, unsigned_value,
};
use crate::token_request::registration;
use vstd::prelude::*;

verus! {

/// A user whose set of applications the store does not hold is told that no
/// application is registered. That is an answer, not a failure, and the store stays
/// as it was.
pub proof fn lemma_query_without_application(store: StoreModel, id: u64)
    requires
        !store.has(user_key(id)),
    ensures
        query(store, id) == (OutcomeModel::Reply(NO_APPLICATION@), store),
{
    reveal_with_fuel(run, 3);
}

/// A report whose credential names an application that the store does not hold fails,
/// whatever follows the id in the credential, and the store stays as it was.
pub proof fn lemma_report_unknown_application(store: StoreModel, presented: ReportModel)
    requires
        !store.has(app_key(presented.id)),
    ensures
        report(store, presented).0 is Failed,
        presented.addr.spec_is_ipv4() ==> report(store, presented).0 == OutcomeModel::Failed(
            Failure::UnknownApplication,
        ),
        report(store, presented).1 == store,
{
    reveal_with_fuel(run, 4);
}

/// A report whose credential is not, character for character, the one that the store
/// holds for its application fails, and the store stays as it was. Where the
/// application has a credential and the address is IPv4, the failure is the mismatch.
pub proof fn lemma_report_mismatch(store: StoreModel, presented: ReportModel)
    requires
        store.field(app_key(presented.id), APP_TOKEN_KEY@) != Some(presented.token),
    ensures
        report(store, presented).0 is Failed,
        store.field(app_key(presented.id), APP_TOKEN_KEY@) is Some
            && presented.addr.spec_is_ipv4() ==> report(store, presented).0
            == OutcomeModel::Failed(Failure::CredentialMismatch),
        report(store, presented).1 == store,
{
    reveal_with_fuel(run, 4);
}

/// A report succeeds only with the credential that the store holds for its
/// application, and then the store holds the reported address for it, and nothing
/// else has changed.
pub proof fn lemma_report_taken(store: StoreModel, presented: ReportModel)
    requires
        report(store, presented).0 is Reply,
    ensures
        store.field(app_key(presented.id), APP_TOKEN_KEY@) == Some(presented.token),
        presented.addr.spec_text() is Some,
        report(store, presented).1.field(app_key(presented.id), APP_ADDRESS_KEY@)
            == presented.addr.spec_text(),
        forall|key: Seq<char>|
            key != app_key(presented.id) ==> report(store, presented).1.has(key) == store.has(key)
                && report(store, presented).1.entries[key] == store.entries[key],
{
    reveal_with_fuel(run, 4);
}

/// After a report that succeeded, the user whose first application is the reporting
/// one is answered with the message that holds the reported address, word for word.
pub proof fn lemma_report_then_query(store: StoreModel, presented: ReportModel, id: u64)
    requires
        report(store, presented).0 is Reply,
        store.members(user_key(id)).len() > 0,
        store.members(user_key(id))[0] == app_key(presented.id),
    ensures
        presented.addr.spec_text() is Some,
        query(report(store, presented).1, id).0 == OutcomeModel::Reply(
            address_message(presented.addr.spec_text()->0),
        ),
{
    reveal_with_fuel(run, 4);
    lemma_report_taken(store, presented);
}

/// The key of an application holds the application's id: it is the first of its
/// pieces that reads as a number.
pub proof fn lemma_app_key_names_its_application(app_id: u32)
    ensures
        first_number(app_key(app_id as u64), 0, u32::MAX as nat) == Some(app_id as nat),
{
    reveal_strlit("app:");
    let key = app_key(app_id as u64);
    let id = decimal(app_id as nat);
    lemma_decimal_reads_back(app_id as nat);
    assert(key.len() == 4 + id.len());
    assert(key[0] == 'a' && key[1] == 'p' && key[2] == 'p' && key[3] == ':');
    assert forall|j: int| 4 <= j < key.len() implies key[j] != ':' by {
        assert(key[j] == id[j - 4]);
        assert(is_digit(id[j - 4]));
    }
    reveal_with_fuel(find_from, 5);
    assert(find_from(key, ':', 0) == 3);
    let head = key.subrange(0, 3);
    assert(head[0] == 'a');
    assert(!is_digit(unsigned_body(head)[0]));
    assert(unsigned_value(head, u32::MAX as nat) is None);
    lemma_find_from(key, ':', 4);
    assert(find_from(key, ':', 4) == key.len());
    assert(key.subrange(4, key.len() as int) =~= id);
    reveal_with_fuel(first_number, 3);
}

/// What a credential request comes to once the application's key and id are known:
/// the credential that the store holds under the key, or else a new one, registered
/// if the store takes the batch.
pub open spec fn issue_under(store: StoreModel, id: u64, key: Seq<char>, app_id: u32, millis: u128) -> (
    OutcomeModel,
    StoreModel,
) {
    match store.field(key, APP_TOKEN_KEY@) {
        Some(token) => (OutcomeModel::Reply(token), store),
        None => {
            let token = token_text(app_id, id, millis);
            match apply_writes(store, registration(key, token, id)) {
                Some(after) => (OutcomeModel::Reply(token), after),
                None => (OutcomeModel::Unrecorded(token), store),
            }
        },
    }
}

/// What a credential request comes to, said in one piece.
pub open spec fn issue_outright(store: StoreModel, id: u64, millis: u128) -> (
    OutcomeModel,
    StoreModel,
) {
    let set = user_key(id);
    if store.has(set) && !(store.entries[set] is Members) {
        (OutcomeModel::Failed(Failure::StoreFailure), store)
    } else if store.members(set).len() > 0 {
        let key = store.members(set)[0];
        match first_number(key, 0, u32::MAX as nat) {
            Some(app_id) => issue_under(store, id, key, app_id as u32, millis),
            None => (OutcomeModel::Failed(Failure::CorruptApplicationKey), store),
        }
    } else if !store.has(USER_ID_KEY@) {
        (OutcomeModel::Failed(Failure::CounterUnreadable), store)
    } else {
        match store.entries[USER_ID_KEY@] {
            Entry::Text(text) => match unsigned_value(text, u32::MAX as nat) {
                Some(app_id) => issue_under(
                    store,
                    id,
                    app_key(app_id as u64),
                    app_id as u32,
                    millis,
                ),
                None => (OutcomeModel::Failed(Failure::CounterUnreadable), store),
            },
            _ => (OutcomeModel::Failed(Failure::StoreFailure), store),
        }
    }
}

/// The steps of a credential request against the store come to what `issue_outright`
/// says.
pub proof fn lemma_issue_outright(store: StoreModel, id: u64, millis: u128)
    ensures
        issue(store, id, millis) == issue_outright(store, id, millis),
{
    reveal_with_fuel(run, 5);
}

/// A registration that the store took: the application's key holds the credential,
/// and the owner's set lists what it listed before if the application was among it,
/// and else has the application join.
pub proof fn lemma_registration_taken(
    store: StoreModel,
    key: Seq<char>,
    token: Seq<char>,
    id: u64,
)
    requires
        apply_writes(store, registration(key, token, id)) is Some,
    ensures
        ({
            let after = apply_writes(store, registration(key, token, id))->0;
            let before = store.members(user_key(id));
            &&& after.field(key, APP_TOKEN_KEY@) == Some(token)
            &&& after.has(user_key(id))
            &&& after.entries[user_key(id)] is Members
            &&& after.members(user_key(id)) == if before.contains(key) {
                before
            } else if before.len() == 0 {
                seq![key]
            } else {
                joined(before, key)
            }
        }),
{
    reveal_with_fuel(apply_writes, 5);
    reveal_strlit("id");
    reveal_strlit("token");
    assert(APP_ID_KEY@ != APP_TOKEN_KEY@) by {
        assert(APP_ID_KEY@.len() == 2);
        assert(APP_TOKEN_KEY@.len() == 5);
    }
    let writes = registration(key, token, id);
    let first = apply_write(store, writes[0])->0;
    let second = apply_write(first, writes[1])->0;
    let third = apply_write(second, writes[2])->0;
    assert(writes.drop_first()[0] == writes[1]);
    assert(writes.drop_first().drop_first()[0] == writes[2]);
    assert(writes.drop_first().drop_first().drop_first()[0] == writes[3]);
    assert(first.entries[key] is Hash);
    assert(second.entries[key] is Hash);
    assert(key != USER_ID_KEY@);
    assert(third.entries[key] is Hash);
    assert(key != user_key(id));
    assert(USER_ID_KEY@ != user_key(id));
    assert(store.members(user_key(id)) =~= third.members(user_key(id)));
    if store.members(user_key(id)).len() == 0 {
        assert(store.members(user_key(id)) =~= Seq::<Seq<char>>::empty());
        lemma_joined_empty(key);
    }
}

/// Asking for a credential again gives the same answer, whatever the time of either
/// request, and leaves the store as the first request left it. The one exception is a
/// first request that made a credential which the store did not record.
pub proof fn lemma_issue_twice(store: StoreModel, id: u64, first: u128, second: u128)
    requires
        !(issue(store, id, first).0 is Unrecorded),
    ensures
        issue(issue(store, id, first).1, id, second) == issue(store, id, first),
{
    lemma_issue_outright(store, id, first);
    let (outcome, after) = issue_outright(store, id, first);
    lemma_issue_outright(after, id, second);
    let set = user_key(id);
    let before = store.members(set);
    if store.has(set) && !(store.entries[set] is Members) {
    } else if before.len() > 0 {
        let key = before[0];
        if let Some(number) = first_number(key, 0, u32::MAX as nat) {
            let app_id = number as u32;
            if store.field(key, APP_TOKEN_KEY@) is None {
                let token = token_text(app_id, id, first);
                lemma_registration_taken(store, key, token, id);
                assert(before.contains(key));
            }
        }
    } else if store.has(USER_ID_KEY@) {
        if let Entry::Text(text) = store.entries[USER_ID_KEY@] {
            if let Some(number) = unsigned_value(text, u32::MAX as nat) {
                let app_id = number as u32;
                let key = app_key(app_id as u64);
                if store.field(key, APP_TOKEN_KEY@) is None {
                    let token = token_text(app_id, id, first);
                    lemma_registration_taken(store, key, token, id);
                    lemma_app_key_names_its_application(app_id);
                }
            }
        }
    }
}

/// An address request reads only: the store stays as it was, however the request ends.
pub proof fn lemma_query_reads_only(store: StoreModel, id: u64)
    ensures
        query(store, id).1 == store,
{
    reveal_with_fuel(run, 3);
}

/// A report that fails leaves the store as it was.
pub proof fn lemma_failed_report_changes_nothing(store: StoreModel, presented: ReportModel)
    requires
        report(store, presented).0 is Failed,
    ensures
        report(store, presented).1 == store,
{
    reveal_with_fuel(run, 4);
}

/// A credential request that fails, or whose credential the store did not record,
/// leaves the store as it was.
pub proof fn lemma_unrecorded_issue_changes_nothing(store: StoreModel, id: u64, millis: u128)
    requires
        !(issue(store, id, millis).0 is Reply),
    ensures
        issue(store, id, millis).1 == store,
{
    lemma_issue_outright(store, id, millis);
}

/// A credential request sets no address: under every key, the address that the store
/// holds after the request is the one that it held before.
pub proof fn lemma_issue_sets_no_address(store: StoreModel, id: u64, millis: u128, key: Seq<char>)
    ensures
        issue(store, id, millis).1.field(key, APP_ADDRESS_KEY@) == store.field(
            key,
            APP_ADDRESS_KEY@,
        ),
{
    lemma_issue_outright(store, id, millis);
    reveal_with_fuel(apply_writes, 5);
    reveal_strlit("id");
    reveal_strlit("token");
    reveal_strlit("address");
    assert(APP_ADDRESS_KEY@ != APP_TOKEN_KEY@) by {
        assert(APP_ADDRESS_KEY@.len() == 7);
        assert(APP_TOKEN_KEY@.len() == 5);
    }
    assert(APP_ADDRESS_KEY@ != APP_ID_KEY@) by {
        assert(APP_ADDRESS_KEY@.len() == 7);
        assert(APP_ID_KEY@.len() == 2);
    }
}

/// The start of the worker leaves a counter that is there alone, and sets a missing
/// one to the seed. Against the store of the model it always ends ready, with the
/// counter in place.
pub proof fn lemma_start_seeds_once(store: StoreModel, seed: u32)
    ensures
        start(store, seed).0 == StartupStepModel::Ready,
        start(store, seed).1.has(USER_ID_KEY@),
        store.has(USER_ID_KEY@) ==> start(store, seed).1 == store,
        !store.has(USER_ID_KEY@) ==> start(store, seed).1 == store.with(
            USER_ID_KEY@,
            Entry::Text(decimal(seed as nat)),
        ),
{
    reveal_with_fuel(start_from, 3);
}

/// The counter, a user's set and an application's hash never share a key.
pub proof fn lemma_keys_differ(user: u64, app: u64)
    ensures
        user_key(user) != USER_ID_KEY@,
        app_key(app) != USER_ID_KEY@,
        app_key(app) != user_key(user),
{
    reveal_strlit("user:");
    reveal_strlit("app:");
    reveal_strlit("user:id");
    lemma_decimal_reads_back(user as nat);
    let digits = decimal(user as nat);
    assert(user_key(user)[5] == digits[0]);
    assert(is_digit(digits[0]));
    assert(USER_ID_KEY@[5] == 'i');
    assert(app_key(app)[0] == 'a');
    assert(USER_ID_KEY@[0] == 'u');
    assert(user_key(user)[0] == 'u');
}

/// On a store that holds neither the counter nor anything of the user or of the
/// application that the seed names, the start and then the user's first request come
/// to this: the credential is the one made for the application of the seed's number,
/// the store holds it with its owner and without an address, the user's set lists
/// that application alone, and the counter stands one above the seed.
pub proof fn lemma_first_credential(store: StoreModel, seed: u32, id: u64, millis: u128)
    requires
        !store.has(USER_ID_KEY@),
        !store.has(user_key(id)),
        !store.has(app_key(seed as u64)),
    ensures
        ({
            let started = start(store, seed).1;
            let (outcome, after) = issue(started, id, millis);
            let token = token_text(seed, id, millis);
            let key = app_key(seed as u64);
            &&& outcome == OutcomeModel::Reply(token)
            &&& after.field(key, APP_TOKEN_KEY@) == Some(token)
            &&& after.field(key, APP_ID_KEY@) == Some(decimal(id as nat))
            &&& after.field(key, APP_ADDRESS_KEY@) is None
            &&& after.members(user_key(id)) == seq![key]
            &&& after.has(USER_ID_KEY@)
            &&& after.entries[USER_ID_KEY@] == Entry::Text(decimal(seed as nat + 1))
        }),
{
    lemma_start_seeds_once(store, seed);
    let started = start(store, seed).1;
    lemma_issue_outright(started, id, millis);
    lemma_keys_differ(id, seed as u64);
    lemma_decimal_reads_back(seed as nat);
    let key = app_key(seed as u64);
    let token = token_text(seed, id, millis);
    assert(unsigned_value(decimal(seed as nat), u32::MAX as nat) == Some(seed as nat));
    assert(started.field(key, APP_TOKEN_KEY@) is None);
    reveal_with_fuel(apply_writes, 5);
    reveal_strlit("id");
    reveal_strlit("token");
    reveal_strlit("address");
    assert(APP_ID_KEY@.len() == 2 && APP_TOKEN_KEY@.len() == 5 && APP_ADDRESS_KEY@.len() == 7);
    let writes = registration(key, token, id);
    assert(writes.drop_first()[0] == writes[1]);
    assert(writes.drop_first().drop_first()[0] == writes[2]);
    assert(writes.drop_first().drop_first().drop_first()[0] == writes[3]);
    assert(counter_value(decimal(seed as nat)) == Some(seed as nat));
    let after = issue(started, id, millis).1;
    assert(after.members(user_key(id)) =~= seq![key]);
}

/// The decimal texts of two different numbers differ, and so do the keys of two
/// different users.
pub proof fn lemma_user_keys_differ(one: u64, other: u64)
    requires
        one != other,
    ensures
        user_key(one) != user_key(other),
{
    reveal_strlit("user:");
    lemma_decimal_reads_back(one as nat);
    lemma_decimal_reads_back(other as nat);
    let left = user_key(one);
    let right = user_key(other);
    if left == right {
        assert(left.subrange(5, left.len() as int) =~= decimal(one as nat));
        assert(right.subrange(5, right.len() as int) =~= decimal(other as nat));
    }
}

/// A credential request never gives a user a second application: a set that lists at
/// most one application before the request lists at most one after it, whoever the
/// set belongs to.
pub proof fn lemma_issue_keeps_one_application(
    store: StoreModel,
    id: u64,
    millis: u128,
    owner: u64,
)
    requires
        store.members(user_key(owner)).len() <= 1,
    ensures
        issue(store, id, millis).1.members(user_key(owner)).len() <= 1,
{
    lemma_issue_outright(store, id, millis);
    let after = issue(store, id, millis).1;
    if after != store {
        let before = store.members(user_key(id));
        let key = if before.len() > 0 {
            before[0]
        } else {
            app_key(unsigned_value(store.entries[USER_ID_KEY@]->Text_0, u32::MAX as nat)->0 as u64)
        };
        let app_id: u32 = if before.len() > 0 {
            first_number(key, 0, u32::MAX as nat)->0 as u32
        } else {
            unsigned_value(store.entries[USER_ID_KEY@]->Text_0, u32::MAX as nat)->0 as u32
        };
        let token = token_text(app_id, id, millis);
        assert(after == apply_writes(store, registration(key, token, id))->0);
        lemma_registration_taken(store, key, token, id);
        if owner == id {
            if before.len() > 0 {
                assert(before.contains(key));
            }
        } else {
            lemma_user_keys_differ(id, owner);
            lemma_keys_differ(owner, 0);
            reveal_with_fuel(apply_writes, 5);
            let writes = registration(key, token, id);
            assert(writes.drop_first()[0] == writes[1]);
            assert(writes.drop_first().drop_first()[0] == writes[2]);
            assert(writes.drop_first().drop_first().drop_first()[0] == writes[3]);
        }
    }
}

} // verus!
