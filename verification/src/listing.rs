//! Listing the keys of a bucket.
//!
//! A listing is one request and one reply. `list_request` says what is asked
//! of the store; `list_keys` reads the keys out of what came back.

use crate::error::{Operation, StoreError, StoreErrorView};
use vstd::prelude::*;
use vstd::string::*;

verus! {

/// One listing call: every key of `bucket` that starts with `prefix`.
#[derive(Clone, Debug, PartialEq, Eq)]
pub struct ListRequest {
    pub bucket: String,
    pub prefix: String,
}

/// What a `ListRequest` holds, as plain text.
pub ghost struct ListRequestView {
    pub bucket: Seq<char>,
    pub prefix: Seq<char>,
}

impl View for ListRequest {
    type V = ListRequestView;

    open spec fn view(&self) -> ListRequestView {
        ListRequestView { bucket: self.bucket@, prefix: self.prefix@ }
    }
}

/// What the façade reads of one listed object: its key, which the store may
/// leave out.
#[derive(Clone, Debug, PartialEq, Eq)]
pub struct ListedObject {
    pub key: Option<String>,
}

/// The first page of a listing. The store leaves `contents` out altogether
/// where the bucket holds nothing.
#[derive(Clone, Debug, PartialEq, Eq)]
pub struct ListPage {
    pub contents: Option<Vec<ListedObject>>,
}

/// The key of a listed object as text, where it has one.
pub open spec fn key_text(object: ListedObject) -> Option<Seq<char>> {
    object.key.deep_view()
}

/// The objects of a page, none where the page has no contents.
pub open spec fn page_objects(page: ListPage) -> Seq<ListedObject> {
    match page.contents {
        Some(objects) => objects@,
        None => Seq::empty(),
    }
}

/// The keys of the listed objects, in the order of the listing; an object
/// without a key contributes nothing.
pub open spec fn listed_keys(objects: Seq<ListedObject>) -> Seq<Seq<char>> {
    objects.filter_map(|object: ListedObject| key_text(object))
}

/// How often `key` occurs among the keys of the listed objects.
pub open spec fn times_listed(objects: Seq<ListedObject>, key: Seq<char>) -> nat {
    objects.filter(|object: ListedObject| key_text(object) == Some(key)).len()
}

/// How often `key` occurs in a sequence of keys.
pub open spec fn times_reported(keys: Seq<Seq<char>>, key: Seq<char>) -> nat {
    keys.filter(|other: Seq<char>| other == key).len()
}

/// The request for the keys of a whole bucket: the empty prefix leaves no key
/// out.
pub fn list_request(bucket: &str) -> (request: ListRequest)
    ensures
        request@ == (ListRequestView { bucket: bucket@, prefix: Seq::empty() }),
{
    ListRequest { bucket: String::from_str(bucket), prefix: String::new() }
}

/// Reads the keys out of listed objects, keeping their order and passing
/// over the objects that have no key.
pub fn collect_keys(objects: &Vec<ListedObject>) -> (keys: Vec<String>)
    ensures
        keys.deep_view() == listed_keys(objects@),
{
    let mut keys: Vec<String> = Vec::new();
    let mut index: usize = 0;
    while index < objects.len()
        invariant
            index <= objects.len(),
            keys.deep_view() == listed_keys(objects@.take(index as int)),
        decreases objects.len() - index,
    {
        let ghost seen = objects@.take(index as int);
        let ghost before = keys.deep_view();
        proof {
            let next = objects@.take(index + 1);
            assert(next.drop_last() =~= seen);
            assert(next.last() == objects@[index as int]);
        }
        match &objects[index].key {
            Some(key) => {
                keys.push(key.clone());
                assert(keys.deep_view() =~= before + seq![key@]);
            },
            None => {},
        }
        index += 1;
    }
    assert(objects@.take(index as int) =~= objects@);
    keys
}

/// Turns the outcome of a listing call into the keys of the bucket.
///
/// A page gives its keys in the order in which the store sent them, and none
/// where the bucket is empty; only this one page is read. A call that failed
/// gives a `StoreError` that names the bucket and carries the reason.
pub fn list_keys(request: &ListRequest, outcome: Result<ListPage, String>) -> (keys: Result<
    Vec<String>,
    StoreError,
>)
    ensures
        match outcome {
            Ok(page) => keys matches Ok(found) && found.deep_view() == listed_keys(
                page_objects(page),
            ),
            Err(reason) => keys matches Err(error) && error@ == (StoreErrorView {
                operation: Operation::ListObjects,
                bucket: request@.bucket,
                key: None,
                reason: reason@,
            }),
        },
{
    match outcome {
        Ok(page) => {
            match &page.contents {
                Some(objects) => Ok(collect_keys(objects)),
                None => {
                    let found: Vec<String> = Vec::new();
                    assert(found.deep_view() =~= listed_keys(Seq::empty()));
                    Ok(found)
                },
            }
        },
        Err(reason) => Err(StoreError::listing(request.bucket.as_str(), reason)),
    }
}

/// A listing without objects has no keys.
pub proof fn lemma_empty_listing_has_no_keys()
    ensures
        listed_keys(Seq::empty()) == Seq::<Seq<char>>::empty(),
{
}

/// One more listed object adds its key at the end, or nothing where it has
/// none.
pub proof fn lemma_listed_keys_push(objects: Seq<ListedObject>, object: ListedObject)
    ensures
        listed_keys(objects.push(object)) == match key_text(object) {
            Some(key) => listed_keys(objects).push(key),
            None => listed_keys(objects),
        },
{
    let longer = objects.push(object);
    assert(longer.drop_last() =~= objects);
    assert(longer.last() == object);
    match key_text(object) {
        Some(key) => {
            assert(listed_keys(objects) + seq![key] =~= listed_keys(objects).push(key));
        },
        None => {},
    }
}

/// The keys that come out are exactly the keys that the listing holds: a key
/// is reported if and only if some listed object has it.
pub proof fn lemma_keys_are_those_listed(objects: Seq<ListedObject>, key: Seq<char>)
    ensures
        listed_keys(objects).contains(key) <==> exists|i: int|
            0 <= i < objects.len() && key_text(#[trigger] objects[i]) == Some(key),
    decreases objects.len(),
{
    if objects.len() > 0 {
        let rest = objects.drop_last();
        let last = objects.last();
        lemma_keys_are_those_listed(rest, key);
        assert(objects =~= rest.push(last));
        lemma_listed_keys_push(rest, last);
        let keys = listed_keys(objects);
        let rest_keys = listed_keys(rest);
        if keys.contains(key) {
            let j = choose|j: int| 0 <= j < keys.len() && keys[j] == key;
            if key_text(last) == Some(key) {
                assert(key_text(objects[objects.len() - 1]) == Some(key));
            } else {
                assert(0 <= j < rest_keys.len() && rest_keys[j] == key);
                assert(rest_keys.contains(key));
                let i = choose|i: int|
                    0 <= i < rest.len() && key_text(#[trigger] rest[i]) == Some(key);
                assert(key_text(objects[i]) == Some(key));
            }
        }
        if exists|i: int| 0 <= i < objects.len() && key_text(#[trigger] objects[i]) == Some(key) {
            let i = choose|i: int|
                0 <= i < objects.len() && key_text(#[trigger] objects[i]) == Some(key);
            if i == objects.len() - 1 {
                assert(keys[keys.len() - 1] == key);
            } else {
                assert(key_text(rest[i]) == Some(key));
                assert(rest_keys.contains(key));
                let j = choose|j: int| 0 <= j < rest_keys.len() && rest_keys[j] == key;
                assert(keys[j] == key);
            }
        }
    }
}

/// A key is reported as often as the listing holds it: nothing is dropped
/// and nothing is reported twice. In particular a key that the store lists
/// once comes out exactly once.
pub proof fn lemma_keys_keep_their_count(objects: Seq<ListedObject>, key: Seq<char>)
    ensures
        times_reported(listed_keys(objects), key) == times_listed(objects, key),
    decreases objects.len(),
{
    reveal(Seq::filter);
    if objects.len() > 0 {
        let rest = objects.drop_last();
        let last = objects.last();
        lemma_keys_keep_their_count(rest, key);
        assert(objects =~= rest.push(last));
        lemma_listed_keys_push(rest, last);
        match key_text(last) {
            Some(found) => {
                let keys = listed_keys(rest).push(found);
                assert(keys.drop_last() =~= listed_keys(rest));
                assert(keys.last() == found);
            },
            None => {},
        }
    }
}

} // verus!
