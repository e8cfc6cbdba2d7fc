//! The record codec: a wishlist to and from the key-value store's attribute
//! map. Each field is one attribute; `items` is a list of string attributes.
use vstd::prelude::*;

use crate::error::AppError;
use crate::response::records;
use crate::wishlist::{texts, Wishlist, WishlistView};

verus! {

/// The part of a store attribute value that the codec reads: a string, a
/// list of attribute values, or a value of any other kind.
#[derive(Debug)]
pub enum AttrValue {
    S(String),
    L(Vec<AttrValue>),
    Other,
}

/// A stored item: attribute names with their values.
pub type AttributeMap = Vec<(String, AttrValue)>;

/// The value of the first entry named `key`, if any.
pub open spec fn lookup(m: Seq<(String, AttrValue)>, key: Seq<char>) -> Option<AttrValue>
    decreases m.len(),
{
    if m.len() == 0 {
        None
    } else if m[0].0@ == key {
        Some(m[0].1)
    } else {
        lookup(m.drop_first(), key)
    }
}

/// The text of a string attribute.
pub open spec fn text_of(a: Option<AttrValue>) -> Option<Seq<char>> {
    match a {
        Some(AttrValue::S(s)) => Some(s@),
        _ => None,
    }
}

/// The texts of the string attributes of a list, in order; others are skipped.
pub open spec fn strings_in(l: Seq<AttrValue>) -> Seq<Seq<char>>
    decreases l.len(),
{
    if l.len() == 0 {
        Seq::empty()
    } else {
        let rest = strings_in(l.drop_last());
        match l.last() {
            AttrValue::S(s) => rest.push(s@),
            _ => rest,
        }
    }
}

/// The items of a record: the strings of a list attribute; none where the
/// attribute is absent or not a list.
pub open spec fn items_of(a: Option<AttrValue>) -> Seq<Seq<char>> {
    match a {
        Some(AttrValue::L(l)) => strings_in(l@),
        _ => Seq::empty(),
    }
}

pub open spec fn missing_id_message() -> Seq<char> {
    "ID not found or not a string"@
}

pub open spec fn missing_name_message() -> Seq<char> {
    "Name not found or not a string"@
}

pub open spec fn missing_owner_message() -> Seq<char> {
    "Owner not found or not a string"@
}

/// What an attribute map decodes to: the record, or the message naming the
/// first of `id`, `name`, `owner` that is absent or not a string.
pub open spec fn decode(m: Seq<(String, AttrValue)>) -> Result<WishlistView, Seq<char>> {
    let id = text_of(lookup(m, "id"@));
    let name = text_of(lookup(m, "name"@));
    let owner = text_of(lookup(m, "owner"@));
    if id is None {
        Err(missing_id_message())
    } else if name is None {
        Err(missing_name_message())
    } else if owner is None {
        Err(missing_owner_message())
    } else {
        Ok(
            WishlistView {
                id: id.unwrap(),
                name: name.unwrap(),
                owner: owner.unwrap(),
                items: items_of(lookup(m, "items"@)),
            },
        )
    }
}

/// `m` is the encoding of `w`: `id`, `name`, `owner` as strings, then
/// `items` as a list of strings in order.
pub open spec fn encodes(m: Seq<(String, AttrValue)>, w: WishlistView) -> bool {
    &&& m.len() == 4
    &&& m[0].0@ == "id"@ && text_of(Some(m[0].1)) == Some(w.id)
    &&& m[1].0@ == "name"@ && text_of(Some(m[1].1)) == Some(w.name)
    &&& m[2].0@ == "owner"@ && text_of(Some(m[2].1)) == Some(w.owner)
    &&& m[3].0@ == "items"@
    &&& match m[3].1 {
        AttrValue::L(l) => {
            &&& l@.len() == w.items.len()
            &&& forall|i: int| 0 <= i < l@.len() ==> text_of(Some(#[trigger] l@[i])) == Some(w.items[i])
        },
        _ => false,
    }
}

proof fn lemma_lookup_skip(m: Seq<(String, AttrValue)>, key: Seq<char>, i: int)
    requires
        0 <= i <= m.len(),
        forall|j: int| 0 <= j < i ==> m[j].0@ != key,
    ensures
        lookup(m, key) == lookup(m.subrange(i, m.len() as int), key),
    decreases i,
{
    if i == 0 {
        assert(m.subrange(0, m.len() as int) =~= m);
    } else {
        lemma_lookup_skip(m.drop_first(), key, i - 1);
        assert(m.drop_first().subrange(i - 1, m.len() - 1) =~= m.subrange(i, m.len() as int));
    }
}

proof fn lemma_strings_all(l: Seq<AttrValue>)
    requires
        forall|i: int| 0 <= i < l.len() ==> l[i] is S,
    ensures
        strings_in(l).len() == l.len(),
        forall|i: int| 0 <= i < l.len() ==> Some(#[trigger] strings_in(l)[i]) == text_of(Some(l[i])),
    decreases l.len(),
{
    if l.len() > 0 {
        lemma_strings_all(l.drop_last());
    }
}

/// Decoding the encoding of a record gives the record back.
pub proof fn lemma_decode_encoding(m: Seq<(String, AttrValue)>, w: WishlistView)
    requires
        encodes(m, w),
    ensures
        decode(m) == Ok::<WishlistView, Seq<char>>(w),
{
    reveal_strlit("id");
    reveal_strlit("name");
    reveal_strlit("owner");
    reveal_strlit("items");
    let m1 = m.drop_first();
    let m2 = m1.drop_first();
    let m3 = m2.drop_first();
    assert(m1[0] == m[1] && m2[0] == m[2] && m3[0] == m[3]);
    assert(lookup(m, "id"@) == Some(m[0].1));
    assert("id"@.len() == 2 && "name"@.len() == 4 && "owner"@.len() == 5 && "items"@.len() == 5);
    assert("owner"@[0] != "items"@[0]);
    assert(lookup(m1, "name"@) == Some(m[1].1));
    assert(lookup(m, "name"@) == Some(m[1].1));
    assert(lookup(m2, "owner"@) == Some(m[2].1));
    assert(lookup(m1, "owner"@) == Some(m[2].1));
    assert(lookup(m, "owner"@) == Some(m[2].1));
    assert(lookup(m3, "items"@) == Some(m[3].1));
    assert(lookup(m2, "items"@) == Some(m[3].1));
    assert(lookup(m1, "items"@) == Some(m[3].1));
    assert(lookup(m, "items"@) == Some(m[3].1));
    if let AttrValue::L(l) = m[3].1 {
        lemma_strings_all(l@);
        assert(strings_in(l@) =~= w.items);
    }
}

/// The index of the first entry named `key`.
fn find_attr(m: &AttributeMap, key: &str) -> (r: Option<usize>)
    ensures
        match r {
            Some(i) => i < m@.len() && lookup(m@, key@) == Some(m@[i as int].1),
            None => lookup(m@, key@) is None,
        },
{
    let k = key.to_string();
    let mut i: usize = 0;
    while i < m.len()
        invariant
            i <= m@.len(),
            k@ == key@,
            forall|j: int| 0 <= j < i ==> m@[j].0@ != key@,
        decreases m.len() - i,
    {
        if m[i].0 == k {
            proof {
                lemma_lookup_skip(m@, key@, i as int);
            }
            return Some(i);
        }
        i = i + 1;
    }
    proof {
        lemma_lookup_skip(m@, key@, i as int);
    }
    None
}

/// The text of the string attribute named `key`.
fn text_attr(m: &AttributeMap, key: &str) -> (r: Option<String>)
    ensures
        match r {
            Some(s) => text_of(lookup(m@, key@)) == Some(s@),
            None => text_of(lookup(m@, key@)) is None,
        },
{
    match find_attr(m, key) {
        Some(i) => match &m[i].1 {
            AttrValue::S(s) => Some(s.clone()),
            _ => None,
        },
        None => None,
    }
}

/// The texts of the string attributes of a list, in order.
fn strings_of_list(l: &Vec<AttrValue>) -> (r: Vec<String>)
    ensures
        texts(r@) == strings_in(l@),
{
    let mut r: Vec<String> = Vec::new();
    let mut i: usize = 0;
    while i < l.len()
        invariant
            i <= l@.len(),
            texts(r@) == strings_in(l@.take(i as int)),
        decreases l.len() - i,
    {
        assert(l@.take(i + 1).drop_last() =~= l@.take(i as int));
        match &l[i] {
            AttrValue::S(s) => {
                r.push(s.clone());
                assert(texts(r@) =~= strings_in(l@.take(i as int)).push(s@));
            },
            _ => {},
        }
        i = i + 1;
    }
    assert(l@.take(l.len() as int) =~= l@);
    r
}

/// The encoding of a record as a store attribute map.
pub fn to_attributes(w: &Wishlist) -> (r: AttributeMap)
    ensures
        encodes(r@, w@),
        decode(r@) == Ok::<WishlistView, Seq<char>>(w@),
{
    let mut items: Vec<AttrValue> = Vec::new();
    let mut i: usize = 0;
    while i < w.items.len()
        invariant
            i <= w.items@.len(),
            items@.len() == i,
            forall|j: int| 0 <= j < i ==> text_of(Some(#[trigger] items@[j])) == Some(w.items@[j]@),
        decreases w.items.len() - i,
    {
        items.push(AttrValue::S(w.items[i].clone()));
        i = i + 1;
    }
    let mut r: AttributeMap = Vec::new();
    r.push(("id".to_string(), AttrValue::S(w.id.clone())));
    r.push(("name".to_string(), AttrValue::S(w.name.clone())));
    r.push(("owner".to_string(), AttrValue::S(w.owner.clone())));
    r.push(("items".to_string(), AttrValue::L(items)));
    proof {
        lemma_decode_encoding(r@, w@);
    }
    r
}

/// Decodes a stored attribute map into a record. An absent or non-list
/// `items` attribute decodes to no items.
pub fn from_attributes(m: &AttributeMap) -> (r: Result<Wishlist, String>)
    ensures
        match r {
            Ok(w) => decode(m@) == Ok::<WishlistView, Seq<char>>(w@),
            Err(e) => decode(m@) == Err::<WishlistView, Seq<char>>(e@),
        },
{
    let id = match text_attr(m, "id") {
        Some(s) => s,
        None => return Err("ID not found or not a string".to_string()),
    };
    let name = match text_attr(m, "name") {
        Some(s) => s,
        None => return Err("Name not found or not a string".to_string()),
    };
    let owner = match text_attr(m, "owner") {
        Some(s) => s,
        None => return Err("Owner not found or not a string".to_string()),
    };
    let items = match find_attr(m, "items") {
        Some(i) => match &m[i].1 {
            AttrValue::L(l) => strings_of_list(l),
            _ => Vec::new(),
        },
        None => Vec::new(),
    };
    let r = Wishlist { id, name, owner, items };
    assert(r@.items == items_of(lookup(m@, "items"@)));
    assert(r@.id == text_of(lookup(m@, "id"@)).unwrap());
    assert(decode(m@) == Ok::<WishlistView, Seq<char>>(r@));
    Ok(r)
}

/// The records that a list of stored items holds: each item that decodes,
/// in order; the others are skipped.
pub open spec fn decoded_all(items: Seq<AttributeMap>) -> Seq<WishlistView>
    decreases items.len(),
{
    if items.len() == 0 {
        Seq::empty()
    } else {
        let rest = decoded_all(items.drop_last());
        match decode(items.last()@) {
            Ok(w) => rest.push(w),
            Err(_) => rest,
        }
    }
}

/// The result of reading one stored item: none where the store has no item
/// with the key, the record where it decodes, and otherwise an error with the
/// decoding message.
pub fn decode_item(item: Option<AttributeMap>) -> (r: Result<Option<Wishlist>, AppError>)
    ensures
        match item {
            None => r matches Ok(None),
            Some(m) => match decode(m@) {
                Ok(w) => r matches Ok(Some(x)) && x@ == w,
                Err(e) => r matches Err(AppError::Generic(t)) && t@ == e,
            },
        },
{
    match item {
        None => Ok(None),
        Some(m) => match from_attributes(&m) {
            Ok(w) => Ok(Some(w)),
            Err(e) => Err(AppError::Generic(e)),
        },
    }
}

/// The records of a scan: the stored items that decode, in order.
pub fn decode_all(items: Vec<AttributeMap>) -> (r: Vec<Wishlist>)
    ensures
        records(r@) == decoded_all(items@),
{
    let mut r: Vec<Wishlist> = Vec::new();
    let mut i: usize = 0;
    while i < items.len()
        invariant
            i <= items@.len(),
            records(r@) == decoded_all(items@.take(i as int)),
        decreases items.len() - i,
    {
        assert(items@.take(i + 1).drop_last() =~= items@.take(i as int));
        match from_attributes(&items[i]) {
            Ok(w) => {
                r.push(w);
                assert(records(r@) =~= decoded_all(items@.take(i as int)).push(w@));
            },
            Err(_) => {},
        }
        i = i + 1;
    }
    assert(items@.take(items.len() as int) =~= items@);
    r
}

} // verus!
