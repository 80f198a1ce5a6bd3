//! Reading subscriptions out of a response body.
//!
//! A body is accepted when it is a JSON text whose document is an array of
//! objects, each with the six members of a subscription: unsigned integers
//! under `id` and `feed_id`, strings under the other four. Members beyond
//! these are passed over.

use crate::error::{DecodeError, Field, ShapeError};
use crate::json::{json_of, json_text, member, parse, Json};
use crate::subscription::{views, Subscription, SubscriptionView};
use vstd::prelude::*;

verus! {

/// The member of `item` that `field` names, where `item` is an object that
/// has one.
pub open spec fn member_of(item: Json, field: Field) -> Option<Json> {
    match item {
        Json::Object(members) if members.dom().contains(field.key()) => Some(members[field.key()]),
        _ => None,
    }
}

/// The unsigned integer that `item` holds under `field`.
pub open spec fn integer_of(item: Json, field: Field) -> Option<u64> {
    match member_of(item, field) {
        Some(Json::Number(n)) => n,
        _ => None,
    }
}

/// The string that `item` holds under `field`.
pub open spec fn text_of(item: Json, field: Field) -> Option<Seq<char>> {
    match member_of(item, field) {
        Some(Json::Text(chars)) => Some(chars),
        _ => None,
    }
}

/// Whether `item` has the member `field` with a value of the field's kind.
pub open spec fn has_field(item: Json, field: Field) -> bool {
    if field.is_integer() {
        integer_of(item, field) is Some
    } else {
        text_of(item, field) is Some
    }
}

/// The first field, in the order of their declaration, that `item` lacks.
pub open spec fn first_missing(item: Json) -> Option<Field> {
    if !has_field(item, Field::Id) {
        Some(Field::Id)
    } else if !has_field(item, Field::CreatedAt) {
        Some(Field::CreatedAt)
    } else if !has_field(item, Field::FeedId) {
        Some(Field::FeedId)
    } else if !has_field(item, Field::Title) {
        Some(Field::Title)
    } else if !has_field(item, Field::FeedUrl) {
        Some(Field::FeedUrl)
    } else if !has_field(item, Field::SiteUrl) {
        Some(Field::SiteUrl)
    } else {
        None
    }
}

/// The subscription that `item` describes. Meaningful where
/// `first_missing(item)` is `None`.
pub open spec fn record_of(item: Json) -> SubscriptionView {
    SubscriptionView {
        id: integer_of(item, Field::Id).unwrap(),
        created_at: text_of(item, Field::CreatedAt).unwrap(),
        feed_id: integer_of(item, Field::FeedId).unwrap(),
        title: text_of(item, Field::Title).unwrap(),
        feed_url: text_of(item, Field::FeedUrl).unwrap(),
        site_url: text_of(item, Field::SiteUrl).unwrap(),
    }
}

/// Whether `index` is the position of the first element of `items` that is
/// not a subscription.
pub open spec fn is_first_bad(items: Seq<Json>, index: int) -> bool {
    &&& 0 <= index < items.len()
    &&& first_missing(items[index]) is Some
    &&& forall|j: int| 0 <= j < index ==> first_missing(#[trigger] items[j]) is None
}

/// The subscriptions that the elements describe, in order; or, where some
/// element is not a subscription, the position of the first such element and
/// the first field that it lacks.
pub open spec fn records_of(items: Seq<Json>) -> Result<Seq<SubscriptionView>, ShapeError> {
    if exists|k: int| is_first_bad(items, k) {
        let k = choose|k: int| is_first_bad(items, k);
        Err(ShapeError::BadField { index: k as usize, field: first_missing(items[k]).unwrap() })
    } else {
        Ok(items.map_values(|item: Json| record_of(item)))
    }
}

/// The subscriptions that a document lists.
pub open spec fn subscriptions_in(document: Json) -> Result<Seq<SubscriptionView>, ShapeError> {
    match document {
        Json::Array(items) => records_of(items),
        _ => Err(ShapeError::NotAnArray),
    }
}

/// At most one position is the first bad one.
pub proof fn lemma_first_bad_is_unique(items: Seq<Json>, a: int, b: int)
    requires
        is_first_bad(items, a),
        is_first_bad(items, b),
    ensures
        a == b,
{
    if a < b {
        assert(first_missing(items[a]) is None);
    } else if b < a {
        assert(first_missing(items[b]) is None);
    }
}

/// Where some element is not a subscription, one of them is the first.
pub proof fn lemma_some_bad_has_first(items: Seq<Json>, index: int)
    requires
        0 <= index < items.len(),
        first_missing(items[index]) is Some,
    ensures
        exists|k: int| is_first_bad(items, k),
    decreases index,
{
    if exists|j: int| 0 <= j < index && first_missing(items[j]) is Some {
        let j = choose|j: int| 0 <= j < index && first_missing(items[j]) is Some;
        lemma_some_bad_has_first(items, j);
    } else {
        assert(is_first_bad(items, index));
    }
}

/// Reading fails at the first element that is not a subscription, with the
/// first field that this element lacks.
pub proof fn lemma_reading_stops_at_first_bad(items: Seq<Json>, index: int)
    requires
        is_first_bad(items, index),
    ensures
        records_of(items) == Err::<Seq<SubscriptionView>, ShapeError>(
            ShapeError::BadField {
                index: index as usize,
                field: first_missing(items[index]).unwrap(),
            },
        ),
{
    lemma_first_bad_is_unique(items, index, choose|k: int| is_first_bad(items, k));
}

/// Reading succeeds exactly where every element is a subscription, and then
/// gives one record for each element, in the order of the elements.
pub proof fn lemma_reading_succeeds_iff_all_good(items: Seq<Json>)
    ensures
        records_of(items) is Ok <==> forall|i: int|
            0 <= i < items.len() ==> first_missing(#[trigger] items[i]) is None,
        records_of(items) matches Ok(records) ==> records.len() == items.len() && forall|i: int|
            0 <= i < items.len() ==> #[trigger] records[i] == record_of(items[i]),
{
    if records_of(items) is Ok {
        assert forall|i: int| 0 <= i < items.len() implies first_missing(
            #[trigger] items[i],
        ) is None by {
            if first_missing(items[i]) is Some {
                lemma_some_bad_has_first(items, i);
            }
        }
    }
}

/// A member under any other name changes nothing: neither which field an
/// object lacks, nor the subscription that it describes.
pub proof fn lemma_other_members_are_passed_over(
    members: Map<Seq<char>, Json>,
    name: Seq<char>,
    value: Json,
)
    requires
        forall|field: Field| name != #[trigger] field.key(),
    ensures
        first_missing(Json::Object(members.insert(name, value))) == first_missing(
            Json::Object(members),
        ),
        record_of(Json::Object(members.insert(name, value))) == record_of(Json::Object(members)),
{
    let before = Json::Object(members);
    let after = Json::Object(members.insert(name, value));
    assert forall|field: Field| member_of(after, field) == member_of(before, field) by {
        assert(name != field.key());
    }
}

fn integer_field(item: &serde_json::Value, field: Field) -> (r: Option<u64>)
    ensures
        r == integer_of(json_of(*item), field),
{
    match member(item, field.name()) {
        Some(found) => found.as_u64(),
        None => None,
    }
}

fn text_field(item: &serde_json::Value, field: Field) -> (r: Option<String>)
    ensures
        match text_of(json_of(*item), field) {
            Some(chars) => r matches Some(s) && s@ == chars,
            None => r is None,
        },
{
    match member(item, field.name()) {
        Some(found) => match found.as_str() {
            Some(s) => Some(s.to_owned()),
            None => None,
        },
        None => None,
    }
}

/// Reads one subscription from a JSON value: the record that the value
/// describes, or the first field that it lacks.
pub fn subscription_from_json(item: &serde_json::Value) -> (r: Result<Subscription, Field>)
    ensures
        match first_missing(json_of(*item)) {
            Some(field) => r == Err::<Subscription, Field>(field),
            None => r matches Ok(s) && s@ == record_of(json_of(*item)),
        },
{
    let id = match integer_field(item, Field::Id) {
        Some(n) => n,
        None => return Err(Field::Id),
    };
    let created_at = match text_field(item, Field::CreatedAt) {
        Some(s) => s,
        None => return Err(Field::CreatedAt),
    };
    let feed_id = match integer_field(item, Field::FeedId) {
        Some(n) => n,
        None => return Err(Field::FeedId),
    };
    let title = match text_field(item, Field::Title) {
        Some(s) => s,
        None => return Err(Field::Title),
    };
    let feed_url = match text_field(item, Field::FeedUrl) {
        Some(s) => s,
        None => return Err(Field::FeedUrl),
    };
    let site_url = match text_field(item, Field::SiteUrl) {
        Some(s) => s,
        None => return Err(Field::SiteUrl),
    };
    Ok(Subscription { id, created_at, feed_id, title, feed_url, site_url })
}

/// Reads the subscriptions that a parsed document lists.
pub fn subscriptions_from_json(document: &serde_json::Value) -> (r: Result<
    Vec<Subscription>,
    ShapeError,
>)
    ensures
        match subscriptions_in(json_of(*document)) {
            Ok(records) => r matches Ok(list) && views(list@) == records,
            Err(e) => r == Err::<Vec<Subscription>, ShapeError>(e),
        },
{
    let list = match document.as_array() {
        Some(list) => list,
        None => return Err(ShapeError::NotAnArray),
    };
    let ghost items = json_of(*document)->Array_0;
    let mut out: Vec<Subscription> = Vec::new();
    let mut i: usize = 0;
    while i < list.len()
        invariant
            i <= list.len(),
            json_of(*document) == Json::Array(items),
            list@.len() == items.len(),
            forall|k: int| 0 <= k < items.len() ==> json_of(#[trigger] list@[k]) == items[k],
            out@.len() == i,
            forall|j: int| 0 <= j < i ==> first_missing(#[trigger] items[j]) is None,
            forall|j: int| 0 <= j < i ==> (#[trigger] out@[j])@ == record_of(items[j]),
        decreases list.len() - i,
    {
        match subscription_from_json(&list[i]) {
            Ok(s) => {
                out.push(s);
            },
            Err(field) => {
                proof {
                    assert(is_first_bad(items, i as int));
                    lemma_first_bad_is_unique(
                        items,
                        i as int,
                        choose|k: int| is_first_bad(items, k),
                    );
                }
                return Err(ShapeError::BadField { index: i, field });
            },
        }
        i += 1;
    }
    proof {
        assert(!exists|k: int| is_first_bad(items, k));
        assert(views(out@) =~= items.map_values(|item: Json| record_of(item)));
    }
    Ok(out)
}

/// Reads the subscriptions that a response body lists.
///
/// Fails with `Syntax` exactly where the body is not a JSON text, and with
/// `Shape` exactly where it is one that does not list subscriptions.
pub fn decode_subscriptions(body: &[u8]) -> (r: Result<Vec<Subscription>, DecodeError>)
    ensures
        match json_text(body@) {
            None => r matches Err(DecodeError::Syntax(_)),
            Some(document) => match subscriptions_in(document) {
                Ok(records) => r matches Ok(list) && views(list@) == records,
                Err(e) => r == Err::<Vec<Subscription>, DecodeError>(DecodeError::Shape(e)),
            },
        },
{
    match parse(body) {
        Err(e) => Err(DecodeError::Syntax(e)),
        Ok(document) => match subscriptions_from_json(&document) {
            Ok(list) => Ok(list),
            Err(e) => Err(DecodeError::Shape(e)),
        },
    }
}

} // verus!
