//! The wishlist record and its abstract value.
use vstd::prelude::*;

verus! {

/// The abstract value of a wishlist record.
pub struct WishlistView {
    pub id: Seq<char>,
    pub name: Seq<char>,
    pub owner: Seq<char>,
    pub items: Seq<Seq<char>>,
}

/// A wishlist: an identifier, a display name, its owner and an ordered list
/// of free-form items (duplicates allowed).
#[derive(Debug, Clone)]
pub struct Wishlist {
    pub id: String,
    pub name: String,
    pub owner: String,
    pub items: Vec<String>,
}

/// The characters of each string of a sequence, in order.
pub open spec fn texts(v: Seq<String>) -> Seq<Seq<char>> {
    v.map_values(|s: String| s@)
}

impl View for Wishlist {
    type V = WishlistView;

    open spec fn view(&self) -> WishlistView {
        WishlistView {
            id: self.id@,
            name: self.name@,
            owner: self.owner@,
            items: texts(self.items@),
        }
    }
}

/// A copy of a list of strings, element by element.
pub fn copy_texts(v: &Vec<String>) -> (r: Vec<String>)
    ensures
        texts(r@) == texts(v@),
{
    let mut r: Vec<String> = Vec::new();
    let mut i: usize = 0;
    while i < v.len()
        invariant
            i <= v.len(),
            texts(r@) == texts(v@.take(i as int)),
        decreases v.len() - i,
    {
        r.push(v[i].clone());
        assert(texts(v@.take(i + 1)) =~= texts(v@.take(i as int)).push(v@[i as int]@));
        assert(texts(r@) =~= texts(v@.take(i as int)).push(v@[i as int]@));
        i = i + 1;
    }
    assert(v@.take(v.len() as int) =~= v@);
    r
}

impl Wishlist {
    /// A record with the same value as this one.
    pub fn duplicate(&self) -> (r: Wishlist)
        ensures
            r@ == self@,
    {
        Wishlist {
            id: self.id.clone(),
            name: self.name.clone(),
            owner: self.owner.clone(),
            items: copy_texts(&self.items),
        }
    }
}

} // verus!
