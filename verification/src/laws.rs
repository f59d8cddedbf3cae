//! What holds of the service across its operations.

use vstd::prelude::*;
use crate::db::{has_file, has_link, link_at, unexpired_at, Database, UploadView};
use crate::dtos::RetrieveFileDto;
use crate::error::ServiceError;
use crate::file_controller::{names_place, retrieve_spec};
use crate::ident::{parse_spec, ObjectId};
use crate::models::Share;
use crate::password::matches_hash;
use crate::seqs::lemma_filter_member;
use crate::share::{access_spec, revoke_spec, share_created};

verus! {

/// An access is refused as unauthorized whenever the requester is not the
/// recipient of the share link, and whenever the stored hash does not accept
/// the password supplied.
pub proof fn lemma_access_denied(
    shares: Seq<Share>,
    share_id: ObjectId,
    requester: ObjectId,
    password: Seq<char>,
    i: int,
)
    requires
        link_at(shares, share_id, i),
        shares[i].link.reciepents_user_id != requester || !matches_hash(
            password,
            shares[i].link.password@,
        ),
    ensures
        access_spec(shares, share_id, requester, password, i) == Err::<int, ServiceError>(
            ServiceError::Unauthorized,
        ),
{
}

/// A share link that was created with a password is opened by its recipient
/// with that password, by nobody else with any password, and by the recipient
/// with no password that its hash does not accept.
pub proof fn lemma_created_share_access(
    before: Seq<Share>,
    after: Seq<Share>,
    share_id: ObjectId,
    upload: UploadView,
    recipient: ObjectId,
    password: Seq<char>,
    expiry: i64,
    owner: ObjectId,
    now: i64,
    requester: ObjectId,
    supplied: Seq<char>,
)
    requires
        share_created(before, after, share_id, upload, recipient, password, expiry, owner, now),
    ensures
        link_at(after, share_id, after.len() - 1),
        access_spec(after, share_id, recipient, password, after.len() - 1) == Ok::<
            int,
            ServiceError,
        >(after.len() - 1),
        requester != recipient ==> access_spec(
            after,
            share_id,
            requester,
            supplied,
            after.len() - 1,
        ) == Err::<int, ServiceError>(ServiceError::Unauthorized),
        !matches_hash(supplied, after.last().link.password@) ==> access_spec(
            after,
            share_id,
            requester,
            supplied,
            after.len() - 1,
        ) == Err::<int, ServiceError>(ServiceError::Unauthorized),
{
    assert(link_at(after, share_id, after.len() - 1));
}

/// A revocation succeeds if and only if the caller is the uploader of the
/// file; every other caller is refused as forbidden.
pub proof fn lemma_revoke_authorization(shares: Seq<Share>, caller: ObjectId, i: int)
    requires
        0 <= i < shares.len(),
    ensures
        revoke_spec(shares, caller, i) is Ok <==> caller == shares[i].file.user_id,
        caller != shares[i].file.user_id ==> revoke_spec(shares, caller, i) == Err::<
            Seq<Share>,
            ServiceError,
        >(ServiceError::Forbidden),
        caller == shares[i].file.user_id ==> revoke_spec(shares, caller, i) == Ok::<
            Seq<Share>,
            ServiceError,
        >(shares.remove(i)),
{
}

/// After a sweep at `now` no share link that had expired by then is left, the
/// file of each such link is gone with it, and every entry that had not
/// expired is still there, as it was; nothing is there that was not there
/// before.
pub proof fn lemma_sweep(before: Database, after: Database, now: i64)
    requires
        before.wf(),
        after.shares() == before.shares().filter(unexpired_at(now)),
    ensures
        forall|k: int|
            0 <= k < after.shares().len() ==> (#[trigger] after.shares()[k]).link.expires_at > now,
        forall|i: int|
            0 <= i < before.shares().len() && (#[trigger] before.shares()[i]).link.expires_at
                <= now ==> !has_link(after.shares(), before.shares()[i].link._id) && !has_file(
                after.shares(),
                before.shares()[i].file._id,
            ),
        forall|i: int|
            0 <= i < before.shares().len() && (#[trigger] before.shares()[i]).link.expires_at
                > now ==> after.shares().contains(before.shares()[i]),
        forall|k: int|
            0 <= k < after.shares().len() ==> before.shares().contains(
                #[trigger] after.shares()[k],
            ),
{
    let old_shares = before.shares();
    let new_shares = after.shares();
    let keep = unexpired_at(now);
    assert forall|k: int| 0 <= k < new_shares.len() implies (#[trigger] new_shares[k]).link.expires_at
        > now && old_shares.contains(new_shares[k]) by {
        lemma_filter_member(old_shares, keep, k);
    }
    assert forall|i: int|
        0 <= i < old_shares.len() && (#[trigger] old_shares[i]).link.expires_at
            <= now implies !has_link(new_shares, old_shares[i].link._id) && !has_file(
        new_shares,
        old_shares[i].file._id,
    ) by {
        assert forall|k: int| 0 <= k < new_shares.len() implies (#[trigger] new_shares[k]).link._id
            != old_shares[i].link._id && new_shares[k].file._id != old_shares[i].file._id by {
            lemma_filter_member(old_shares, keep, k);
            let m = choose|m: int|
                0 <= m < old_shares.len() && #[trigger] old_shares[m] == new_shares[k] && keep(
                    old_shares[m],
                );
            if m < i {
                assert(old_shares[m].link._id != old_shares[i].link._id);
                assert(old_shares[m].file._id != old_shares[i].file._id);
            } else if i < m {
                assert(old_shares[i].link._id != old_shares[m].link._id);
                assert(old_shares[i].file._id != old_shares[m].file._id);
            }
        }
    }
    assert forall|i: int|
        0 <= i < old_shares.len() && (#[trigger] old_shares[i]).link.expires_at
            > now implies new_shares.contains(old_shares[i]) by {
        old_shares.lemma_filter_contains(keep, i);
    }
}

/// A retrieval consumes nothing: two retrievals with the same request on the
/// same store and the same private keys return the same, be it the same
/// bytes or the same failure.
pub proof fn lemma_retrieve_idempotent(
    shares: Seq<Share>,
    held: Option<Seq<char>>,
    user_id: Option<ObjectId>,
    body: RetrieveFileDto,
    first: Result<Seq<u8>, ServiceError>,
    second: Result<Seq<u8>, ServiceError>,
)
    requires
        forall|i: int|
            names_place(shares, body.shared_id@, i) ==> first == #[trigger] retrieve_spec(
                shares,
                held,
                user_id,
                body,
                i,
            ),
        forall|i: int|
            names_place(shares, body.shared_id@, i) ==> second == #[trigger] retrieve_spec(
                shares,
                held,
                user_id,
                body,
                i,
            ),
    ensures
        first == second,
{
    match parse_spec(body.shared_id@) {
        Some(id) => {
            if has_link(shares, id) {
                let i = choose|i: int| 0 <= i < shares.len() && (#[trigger] shares[i]).link._id == id;
                assert(names_place(shares, body.shared_id@, i));
                assert(first == retrieve_spec(shares, held, user_id, body, i));
                assert(second == retrieve_spec(shares, held, user_id, body, i));
            } else {
                assert(names_place(shares, body.shared_id@, 0));
                assert(first == retrieve_spec(shares, held, user_id, body, 0));
                assert(second == retrieve_spec(shares, held, user_id, body, 0));
            }
        },
        None => {
            assert(names_place(shares, body.shared_id@, 0));
            assert(first == retrieve_spec(shares, held, user_id, body, 0));
            assert(second == retrieve_spec(shares, held, user_id, body, 0));
        },
    }
}

/// Once the sweep has run past the expiry of a share link, a retrieval
/// through that link finds nothing, whoever asks with whatever password.
pub proof fn lemma_retrieve_after_sweep(
    before: Database,
    after: Database,
    now: i64,
    held: Option<Seq<char>>,
    caller: ObjectId,
    body: RetrieveFileDto,
    i: int,
    at: int,
)
    requires
        before.wf(),
        after.shares() == before.shares().filter(unexpired_at(now)),
        parse_spec(body.shared_id@) is Some,
        link_at(before.shares(), parse_spec(body.shared_id@).unwrap(), i),
        before.shares()[i].link.expires_at <= now,
    ensures
        retrieve_spec(after.shares(), held, Some(caller), body, at) == Err::<
            Seq<u8>,
            ServiceError,
        >(ServiceError::NotFound),
{
    lemma_sweep(before, after, now);
}

} // verus!
