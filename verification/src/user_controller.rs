//! A user's own record, and the search for other users.

use vstd::prelude::*;
use crate::db::{email_holds, has_user, Database};
use crate::dtos::{
    FilterSearchUserDto, FilterUserDto, SearchUserQuery, SearchUserResponseDto, UserData,
    UserResponseDto,
};
use crate::error::ServiceError;
use crate::ident::ObjectId;
use crate::models::User;

verus! {

/// Whether `f` shows the user `u`: the identity in hexadecimal digits, the
/// name, the email address and the stored public key.
pub open spec fn shows_user(f: FilterUserDto, u: User) -> bool {
    &&& f.id@ == u._id.hex()
    &&& f.name@ == u.username@
    &&& f.email@ == u.email@
    &&& f.public_key@ == u.public_key@
}

/// Whether `f` shows the user `u` as a search does: the identity in
/// hexadecimal digits, the name and the email address.
pub open spec fn shows_found(f: FilterSearchUserDto, u: User) -> bool {
    &&& f.id@ == u._id.hex()
    &&& f.name@ == u.username@
    &&& f.email@ == u.email@
}

/// Shows the caller's own record. A call without a caller, and a caller whom
/// the store does not know, are refused as unauthorized.
pub fn get_user(db: &Database, user_id: Option<ObjectId>) -> (r: Result<
    UserResponseDto,
    ServiceError,
>)
    ensures
        match r {
            Ok(response) => response.status@ == "200"@ && user_id is Some && exists|j: int|
                0 <= j < db.users().len() && (#[trigger] db.users()[j])._id == user_id->0
                    && shows_user(response.data.user, db.users()[j]),
            Err(e) => e == ServiceError::Unauthorized && (user_id matches Some(uid) ==> !has_user(
                db.users(),
                uid,
            )),
        },
{
    let uid = match user_id {
        Some(u) => u,
        None => {
            return Err(ServiceError::Unauthorized);
        },
    };
    let user = match db.get_user_by_id(uid) {
        Ok(u) => u,
        Err(_) => {
            return Err(ServiceError::Unauthorized);
        },
    };
    Ok(
        UserResponseDto {
            status: "200".to_owned(),
            data: UserData { user: FilterUserDto::filter_user(user) },
        },
    )
}

/// Shows the users whose email address holds the text of the query, compared
/// byte for byte with the ASCII letters folded, oldest first.
pub fn search_users(db: &Database, query: &SearchUserQuery) -> (r: Result<
    SearchUserResponseDto,
    ServiceError,
>)
    ensures
        match r {
            Ok(response) => {
                let found = db.users().filter(email_holds(query.email_text@));
                &&& response.status@ == "200"@
                &&& response.users@.len() == found.len()
                &&& forall|k: int|
                    0 <= k < found.len() ==> shows_found(#[trigger] response.users@[k], found[k])
            },
            Err(_) => false,
        },
{
    let users = match db.search_user(query.email_text.as_str()) {
        Ok(v) => v,
        Err(e) => {
            return Err(e);
        },
    };
    let ghost found = db.users().filter(email_holds(query.email_text@));
    let mut filtered_users: Vec<FilterSearchUserDto> = Vec::new();
    let mut k: usize = 0;
    while k < users.len()
        invariant
            k <= users@.len(),
            users@.len() == found.len(),
            forall|n: int| 0 <= n < users@.len() ==> *(#[trigger] users@[n]) == found[n],
            filtered_users@.len() == k,
            forall|n: int| 0 <= n < k ==> shows_found(#[trigger] filtered_users@[n], found[n]),
        decreases users@.len() - k,
    {
        let shown = FilterSearchUserDto::filter_user(users[k]);
        filtered_users.push(shown);
        k += 1;
    }
    Ok(SearchUserResponseDto { status: "200".to_owned(), users: filtered_users })
}

} // verus!
