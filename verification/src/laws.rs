//! The store-wide laws that relate several operations, stated once and
//! proved from the operations' contracts alone.
//!
//! Laws about a single operation stand in that operation's `ensures`:
//! seal gating and unseal correctness on the store's operations and
//! `unlock`, authorization on `view_secret` and `delete_secret`, and
//! username uniqueness on `create_user`.

use vstd::prelude::*;

verus! {

use crate::access::{authorized, Role, VaultOp};
use crate::errors::DatabaseError;
use crate::kv::InMemoryDatabase;
use crate::vault::{find_sec, stores_value, SecretV};

/// Round trip: on an unsealed store whose entry under `name` is a
/// `create` of `value` — which is exactly what `create_secret` ensures —
/// any result that `view_secret`'s contract admits for an adequate role
/// is `Ok(value)`, the plaintext exactly.
pub proof fn law_round_trip(
    db: InMemoryDatabase,
    role: Role,
    name: Seq<char>,
    value: Seq<char>,
    r: Result<Seq<char>, DatabaseError>,
)
    requires
        !db.sealed(),
        authorized(role, VaultOp::ReadSecret),
        stores_value(db.enc_key(), db.secrets(), name, value),
        InMemoryDatabase::view_outcome(db, role, name, r),
    ensures
        r == Ok::<Seq<char>, DatabaseError>(value),
{
}

/// Independent creates: a second create under a different name keeps
/// the first secret stored and retrievable, so any number of creates on
/// distinct names leave every one of them readable afterwards.
pub proof fn law_distinct_creates_preserved(
    key: Seq<u8>,
    pre: Seq<SecretV>,
    post: Seq<SecretV>,
    n1: Seq<char>,
    v1: Seq<char>,
    n2: Seq<char>,
    v2: Seq<char>,
)
    requires
        n1 != n2,
        stores_value(key, pre, n1, v1),
        stores_value(key, post, n2, v2),
        forall|other: Seq<char>| other != n2 ==> #[trigger] find_sec(post, other) == find_sec(
            pre,
            other,
        ),
    ensures
        stores_value(key, post, n1, v1),
        stores_value(key, post, n2, v2),
{
    assert(find_sec(post, n1) == find_sec(pre, n1));
}

} // verus!
