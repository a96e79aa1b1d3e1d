use vstd::prelude::*;

use crate::request::LogicalRequest;

verus! {

/// The storage key actually used for the upload: namespaced under the caller
/// identity when one is present, the object key unchanged otherwise.
pub open spec fn spec_effective_key(caller: Option<Seq<char>>, object_key: Seq<char>) -> Seq<
    char,
> {
    match caller {
        Some(c) => "users/"@ + c + "/recordings/"@ + object_key,
        None => object_key,
    }
}

/// Computes the effective storage key for a request. Pure and total: the
/// result is a function of the request's caller identity and object key
/// alone, so equal requests always derive equal keys.
pub fn derive_key(req: &LogicalRequest) -> (r: String)
    ensures
        r@ == spec_effective_key(req.caller_view(), req.object_key@),
{
    match &req.caller_id {
        Some(c) => {
            let mut s = "users/".to_owned();
            s.append(c.as_str());
            s.append("/recordings/");
            s.append(req.object_key.as_str());
            s
        },
        None => req.object_key.clone(),
    }
}

/// Key derivation is deterministic: the same caller identity and object key
/// always yield the same effective key.
pub proof fn lemma_derive_key_deterministic(
    caller1: Option<Seq<char>>,
    key1: Seq<char>,
    caller2: Option<Seq<char>>,
    key2: Seq<char>,
)
    requires
        caller1 == caller2,
        key1 == key2,
    ensures
        spec_effective_key(caller1, key1) == spec_effective_key(caller2, key2),
{
}

/// Namespacing invariant: with a caller identity present, the effective key
/// is exactly the prefix `users/{caller}/recordings/` followed by the object
/// key — in particular it starts with that prefix.
pub proof fn lemma_namespaced_key_prefix(caller: Seq<char>, object_key: Seq<char>)
    ensures
        ({
            let prefix = "users/"@ + caller + "/recordings/"@;
            let key = spec_effective_key(Some(caller), object_key);
            &&& key == prefix + object_key
            &&& key.len() == prefix.len() + object_key.len()
            &&& key.subrange(0, prefix.len() as int) == prefix
        }),
{
    let prefix = "users/"@ + caller + "/recordings/"@;
    let key = spec_effective_key(Some(caller), object_key);
    assert(key =~= prefix + object_key);
    assert(key.subrange(0, prefix.len() as int) =~= prefix);
}

/// Identity invariant: with no caller identity, the effective key is the
/// object key, unchanged.
pub proof fn lemma_identity_key(object_key: Seq<char>)
    ensures
        spec_effective_key(None, object_key) == object_key,
{
}

} // verus!
