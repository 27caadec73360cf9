//! The records that the shopping bot keeps, and how a record is added.

use vstd::prelude::*;
use crate::text::texts;

verus! {

/// A category of goods.
#[derive(Clone, Debug, PartialEq, Eq)]
pub struct Category {
    pub name: String,
    pub icon: char,
}

/// The items of the shopping list.
pub type Items = Vec<String>;

/// The categories.
pub type Categories = Vec<Category>;

/// What makes a category: its name as text, and its icon.
pub open spec fn category_key(category: Category) -> (Seq<char>, char) {
    (category.name@, category.icon)
}

/// The names and icons of a list of categories.
pub open spec fn category_keys(categories: Seq<Category>) -> Seq<(Seq<char>, char)> {
    categories.map_values(|category: Category| category_key(category))
}

/// Puts `item` at the end of the list unless the list holds it already.
pub fn add_item(items: &mut Vec<String>, item: String)
    ensures
        texts(old(items)@).contains(item@) ==> texts(final(items)@) == texts(
            old(items)@,
        ),
        !texts(old(items)@).contains(item@) ==> texts(final(items)@) == texts(
            old(items)@,
        ).push(item@),
{
    let mut i: usize = 0;
    while i < items.len()
        invariant
            i <= items.len(),
            *items == *old(items),
            forall|k: int| 0 <= k < i ==> texts(items@)[k] != item@,
        decreases items.len() - i,
    {
        if items[i] == item {
            assert(texts(items@)[i as int] == item@);
            return ;
        }
        i += 1;
    }
    items.push(item);
    assert(texts(items@) =~= texts(old(items)@).push(item@));
}

/// Puts `category` at the end of the list unless the list already holds one
/// with the same name and icon.
pub fn add_category(categories: &mut Vec<Category>, category: Category)
    ensures
        category_keys(old(categories)@).contains(category_key(category)) ==> category_keys(
            final(categories)@,
        ) == category_keys(old(categories)@),
        !category_keys(old(categories)@).contains(category_key(category)) ==> category_keys(
            final(categories)@,
        ) == category_keys(old(categories)@).push(category_key(category)),
{
    let mut i: usize = 0;
    while i < categories.len()
        invariant
            i <= categories.len(),
            *categories == *old(categories),
            forall|k: int| 0 <= k < i ==> category_keys(categories@)[k] != category_key(category),
        decreases categories.len() - i,
    {
        if categories[i].name == category.name && categories[i].icon == category.icon {
            assert(category_keys(categories@)[i as int] == category_key(category));
            return ;
        }
        i += 1;
    }
    categories.push(category);
    assert(category_keys(categories@) =~= category_keys(old(categories)@).push(
        category_key(category),
    ));
}

} // verus!
