//! What a bucket keeps, as far as a listing and an upload can tell.
//!
//! The store is not part of this library. To say what the façade's functions
//! amount to when they are used against one, a bucket is taken here as the
//! set of keys under which it holds an object: a put adds its key or replaces
//! the object already under it, and a page that lists the whole bucket names
//! each of its keys once.

use crate::listing::{
    lemma_keys_keep_their_count,
    listed_keys,
    times_listed,
    times_reported,
    ListedObject,
};
use crate::upload::{object_key, upload_plan, PutRequestView};
use vstd::prelude::*;

verus! {

/// A page that lists all of a bucket: every key that the bucket holds is
/// listed once, and no other key is listed. A bucket too large for one page
/// has no such page.
pub open spec fn lists_whole_bucket(objects: Seq<ListedObject>, stored: Set<Seq<char>>) -> bool {
    forall|key: Seq<char>| #[trigger]
        times_listed(objects, key) == if stored.contains(key) {
            1nat
        } else {
            0nat
        }
}

/// The keys of a bucket after a put: the key of the request is among them,
/// once, whether or not an object was stored under it before.
pub open spec fn keys_after_put(stored: Set<Seq<char>>, request: PutRequestView) -> Set<
    Seq<char>,
> {
    stored.insert(request.key)
}

proof fn lemma_absent_key_is_not_reported(keys: Seq<Seq<char>>, key: Seq<char>)
    requires
        !keys.contains(key),
    ensures
        times_reported(keys, key) == 0,
    decreases keys.len(),
{
    reveal(Seq::filter);
    if keys.len() > 0 {
        let rest = keys.drop_last();
        assert forall|i: int| 0 <= i < rest.len() implies rest[i] != key by {
            assert(rest[i] == keys[i]);
        }
        lemma_absent_key_is_not_reported(rest, key);
        assert(keys[keys.len() - 1] != key);
    }
}

proof fn lemma_present_key_is_reported(keys: Seq<Seq<char>>, key: Seq<char>, i: int)
    requires
        0 <= i < keys.len(),
        keys[i] == key,
    ensures
        times_reported(keys, key) >= 1,
    decreases keys.len(),
{
    reveal(Seq::filter);
    let rest = keys.drop_last();
    if i < keys.len() - 1 {
        assert(rest[i] == keys[i]);
        lemma_present_key_is_reported(rest, key, i);
    }
}

proof fn lemma_repeated_key_is_reported_twice(keys: Seq<Seq<char>>, key: Seq<char>, i: int, j: int)
    requires
        0 <= i < j < keys.len(),
        keys[i] == key,
        keys[j] == key,
    ensures
        times_reported(keys, key) >= 2,
    decreases keys.len(),
{
    reveal(Seq::filter);
    let rest = keys.drop_last();
    assert(rest[i] == keys[i]);
    if j < keys.len() - 1 {
        assert(rest[j] == keys[j]);
        lemma_repeated_key_is_reported_twice(rest, key, i, j);
    } else {
        lemma_present_key_is_reported(rest, key, i);
    }
}

/// Listing a whole bucket gives exactly its keys: every key of the bucket
/// comes out, no other key does, and none comes out twice.
pub proof fn lemma_whole_listing_gives_stored_keys(
    objects: Seq<ListedObject>,
    stored: Set<Seq<char>>,
)
    requires
        lists_whole_bucket(objects, stored),
    ensures
        listed_keys(objects).to_set() == stored,
        listed_keys(objects).no_duplicates(),
{
    let keys = listed_keys(objects);
    assert forall|key: Seq<char>| keys.contains(key) <==> stored.contains(key) by {
        lemma_keys_keep_their_count(objects, key);
        assert(times_listed(objects, key) == if stored.contains(key) {
            1nat
        } else {
            0nat
        });
        if keys.contains(key) {
            let j = choose|j: int| 0 <= j < keys.len() && keys[j] == key;
            lemma_present_key_is_reported(keys, key, j);
        } else {
            lemma_absent_key_is_not_reported(keys, key);
        }
    }
    assert(keys.to_set() =~= stored);
    assert forall|i: int, j: int| 0 <= i < keys.len() && 0 <= j < keys.len() && i != j implies keys[i]
        != keys[j] by {
        if keys[i] == keys[j] {
            let key = keys[i];
            lemma_keys_keep_their_count(objects, key);
            assert(times_listed(objects, key) <= 1);
            if i < j {
                lemma_repeated_key_is_reported_twice(keys, key, i, j);
            } else {
                lemma_repeated_key_is_reported_twice(keys, key, j, i);
            }
        }
    }
}

/// Listing an empty bucket gives no keys at all.
pub proof fn lemma_empty_bucket_gives_no_keys(objects: Seq<ListedObject>)
    requires
        lists_whole_bucket(objects, Set::empty()),
    ensures
        listed_keys(objects) == Seq::<Seq<char>>::empty(),
{
    lemma_whole_listing_gives_stored_keys(objects, Set::empty());
    let keys = listed_keys(objects);
    if keys.len() > 0 {
        assert(keys.contains(keys[0]));
        assert(keys.to_set().contains(keys[0]));
    }
    assert(keys =~= Seq::<Seq<char>>::empty());
}

/// Uploading a file a second time replaces the object and adds none: the
/// bucket holds the same keys after the second put as after the first, and a
/// listing of the whole bucket made afterwards reports the file's key exactly
/// once.
pub proof fn lemma_second_upload_adds_no_key(
    stored: Set<Seq<char>>,
    bucket: Seq<char>,
    local_path: Seq<char>,
    objects: Seq<ListedObject>,
)
    requires
        upload_plan(bucket, local_path, true) matches Ok(request) && lists_whole_bucket(
            objects,
            keys_after_put(keys_after_put(stored, request), request),
        ),
    ensures
        upload_plan(bucket, local_path, true) matches Ok(request) && keys_after_put(
            keys_after_put(stored, request),
            request,
        ) == keys_after_put(stored, request),
        times_reported(listed_keys(objects), object_key(local_path)) == 1,
{
    let request = upload_plan(bucket, local_path, true)->Ok_0;
    let once = keys_after_put(stored, request);
    let twice = keys_after_put(once, request);
    assert(twice =~= once);
    assert(twice.contains(object_key(local_path)));
    assert(times_listed(objects, object_key(local_path)) == 1);
    lemma_keys_keep_their_count(objects, object_key(local_path));
}

} // verus!
