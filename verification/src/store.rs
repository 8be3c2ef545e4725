//! Where a pending record lies.
//!
//! A record is kept under a key made of the identifier and the token
//! together, so that nobody finds it, or learns whether it is there, without
//! both.

use vstd::prelude::*;
use vstd::string::StringExecFns;
use crate::structs::TokenView;

verus! {

/// What parts the directory of the records from the name of a record.
pub const PATH_SEPARATOR: &'static str = "/";

/// What parts the identifier from the token in the name of a record.
pub const KEY_SEPARATOR: &'static str = "_";

/// What ends the name of a record.
pub const RECORD_SUFFIX: &'static str = ".pgp_message";

/// The name of the record of `id` and `token` within its directory.
pub open spec fn record_name(id: Seq<char>, token: Seq<char>) -> Seq<char> {
    id + KEY_SEPARATOR@ + token + RECORD_SUFFIX@
}

/// The path of the record of `id` and `token` in the directory `storage`.
pub open spec fn record_path(storage: Seq<char>, id: Seq<char>, token: Seq<char>) -> Seq<char> {
    storage + PATH_SEPARATOR@ + record_name(id, token)
}

/// The path of the record of `id` and `token` in the directory `storage`.
pub fn record_path_of(storage: &str, id: &str, token: &str) -> (path: String)
    ensures
        path@ == record_path(storage@, id@, token@),
{
    let path = String::from_str(storage).concat(PATH_SEPARATOR).concat(id).concat(
        KEY_SEPARATOR,
    ).concat(token).concat(RECORD_SUFFIX);
    assert(path@ =~= record_path(storage@, id@, token@));
    path
}

/// The name of the record of a valid confirmation holds no path separator:
/// the record lies in the directory of the records itself.
pub proof fn lemma_record_name_is_plain(claim: TokenView)
    requires
        claim.valid(),
    ensures
        forall|i: int|
            0 <= i < record_name(claim.msg_id, claim.token).len() ==> #[trigger] record_name(
                claim.msg_id,
                claim.token,
            )[i] != '/',
{
    reveal_strlit("_");
    reveal_strlit(".pgp_message");
    let name = record_name(claim.msg_id, claim.token);
    assert forall|i: int| 0 <= i < name.len() implies #[trigger] name[i] != '/' by {
        if i < 36 {
            assert(name[i] == claim.msg_id[i]);
        } else if i == 36 {
        } else if i < 67 {
            assert(name[i] == claim.token[i - 37]);
        } else {
            assert(name[i] == RECORD_SUFFIX@[i - 67]);
        }
    }
}

/// Two valid confirmations whose records have the same path are the same
/// confirmation: a path answers to one identifier and one token.
pub proof fn lemma_path_tells_identifier_and_token(
    storage: Seq<char>,
    one: TokenView,
    other: TokenView,
)
    requires
        one.valid(),
        other.valid(),
        record_path(storage, one.msg_id, one.token) == record_path(
            storage,
            other.msg_id,
            other.token,
        ),
    ensures
        one == other,
{
    reveal_strlit("/");
    reveal_strlit("_");
    let a = record_path(storage, one.msg_id, one.token);
    let b = record_path(storage, other.msg_id, other.token);
    let start: int = storage.len() as int + 1;
    assert(one.msg_id =~= a.subrange(start, start + 36));
    assert(other.msg_id =~= b.subrange(start, start + 36));
    assert(one.token =~= a.subrange(start + 37, start + 67));
    assert(other.token =~= b.subrange(start + 37, start + 67));
}

} // verus!
