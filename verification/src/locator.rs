//! Where the entries of a bucket live: the URL of the collection and the URL
//! of one member of it.

use crate::entity::Entity;
use crate::escape::{
    is_segment_char, percent_decoded, percent_encode, percent_encoded, percent_encoded_is_safe,
    percent_round_trip,
};
use vstd::prelude::*;
use vstd::string::StringExecFns;
use vstd::utf8::decode_utf8;

verus! {

/// The URL of the entries of a bucket: `{base}/b/{bucket}/acl`, the bucket's
/// name percent-encoded.
pub open spec fn collection_url(base: Seq<char>, bucket: Seq<char>) -> Seq<char> {
    base + seq!['/', 'b', '/'] + percent_encoded(bucket) + seq!['/', 'a', 'c', 'l']
}

/// The URL of one entry: the collection's URL, `/`, and the entity's
/// canonical text percent-encoded.
pub open spec fn member_url(collection: Seq<char>, entity: Entity) -> Seq<char> {
    collection.push('/') + percent_encoded(entity.canonical())
}

/// What follows the last `/` of a URL (the whole of it, if it has none).
pub open spec fn final_segment(url: Seq<char>) -> Seq<char>
    decreases url.len(),
{
    if url.len() == 0 || url.last() == '/' {
        Seq::empty()
    } else {
        final_segment(url.drop_last()).push(url.last())
    }
}

/// How many `/` a URL holds.
pub open spec fn slash_count(url: Seq<char>) -> nat
    decreases url.len(),
{
    if url.len() == 0 {
        0
    } else if url.last() == '/' {
        slash_count(url.drop_last()) + 1
    } else {
        slash_count(url.drop_last())
    }
}

/// Whether a text holds no `/`.
pub open spec fn slash_free(text: Seq<char>) -> bool {
    forall|i: int| 0 <= i < text.len() ==> #[trigger] text[i] != '/'
}

/// A text without `/` that follows a `/` is the final segment, and adds no
/// `/` of its own.
pub proof fn lemma_append_segment(prefix: Seq<char>, segment: Seq<char>)
    requires
        slash_free(segment),
    ensures
        final_segment(prefix.push('/') + segment) == segment,
        slash_count(prefix.push('/') + segment) == slash_count(prefix) + 1,
    decreases segment.len(),
{
    let url = prefix.push('/') + segment;
    if segment.len() == 0 {
        assert(url =~= prefix.push('/'));
        assert(url.drop_last() =~= prefix);
    } else {
        let shorter = segment.drop_last();
        lemma_append_segment(prefix, shorter);
        assert(url.last() == segment.last());
        assert(url.drop_last() =~= prefix.push('/') + shorter);
        assert(shorter.push(segment.last()) =~= segment);
    }
}

/// A percent-encoded text holds no `/`.
pub proof fn lemma_percent_encoded_slash_free(text: Seq<char>)
    ensures
        slash_free(percent_encoded(text)),
{
    percent_encoded_is_safe(text);
    assert forall|i: int| 0 <= i < percent_encoded(text).len() implies #[trigger] percent_encoded(
        text,
    )[i] != '/' by {
        assert(is_segment_char(percent_encoded(text)[i]));
    }
}

/// The final path segment of a member's URL, percent-decoded, is the
/// entity's canonical text, whatever the collection's URL and the entity.
pub proof fn member_url_round_trip(collection: Seq<char>, entity: Entity)
    ensures
        final_segment(member_url(collection, entity)) == percent_encoded(entity.canonical()),
        decode_utf8(percent_decoded(final_segment(member_url(collection, entity))))
            == entity.canonical(),
{
    lemma_percent_encoded_slash_free(entity.canonical());
    lemma_append_segment(collection, percent_encoded(entity.canonical()));
    percent_round_trip(entity.canonical());
}

/// A member's URL has exactly one `/` more than the collection's: the one
/// that separates the two. Whatever the entity holds, escaping adds none.
pub proof fn member_url_single_segment(collection: Seq<char>, entity: Entity)
    ensures
        slash_count(member_url(collection, entity)) == slash_count(collection) + 1,
        slash_free(final_segment(member_url(collection, entity))),
{
    lemma_percent_encoded_slash_free(entity.canonical());
    lemma_append_segment(collection, percent_encoded(entity.canonical()));
}

/// Builds the URL of the entries of a bucket.
pub fn locate_collection(base: &str, bucket: &str) -> (url: String)
    ensures
        url@ == collection_url(base@, bucket@),
{
    let mut url = String::from_str(base);
    let segment = percent_encode(bucket);
    proof {
        reveal_strlit("/b/");
        reveal_strlit("/acl");
        assert("/b/"@ =~= seq!['/', 'b', '/']);
        assert("/acl"@ =~= seq!['/', 'a', 'c', 'l']);
    }
    url.append("/b/");
    url.append(segment.as_str());
    url.append("/acl");
    url
}

/// Builds the URL of the entry of one entity under a collection.
pub fn locate_member(collection: &str, entity: &Entity) -> (url: String)
    ensures
        url@ == member_url(collection@, *entity),
{
    let mut url = String::from_str(collection);
    let text = entity.to_string();
    let segment = percent_encode(text.as_str());
    proof {
        reveal_strlit("/");
        assert("/"@ =~= seq!['/']);
        assert(collection@ + seq!['/'] =~= collection@.push('/'));
    }
    url.append("/");
    url.append(segment.as_str());
    url
}

} // verus!
