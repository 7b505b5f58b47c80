//! The tags of a file: what the tag library holds, and what reading and
//! writing an item does to it.
//!
//! A tag is an ordered list of items, each a key with a value. Looking a key
//! up finds the first item with it; setting a key removes every item with it
//! and adds the new one at the end, if the format of the tag has a place for
//! the key at all.

use crate::trusted::{retain_supported, tag_items, tag_picture_count, tag_takes};
use lofty::tag::{ItemKey, Tag};
use vstd::prelude::*;

verus! {

/// An item as the contracts see it: its key, and its text if its value is
/// text.
pub type Item = (ItemKey, Option<Seq<char>>);

/// The name of an unknown key.
pub open spec fn unknown_name(key: ItemKey) -> Option<Seq<char>> {
    match key {
        ItemKey::Unknown(name) => Some(name@),
        _ => None,
    }
}

/// Whether two keys are the same key: the same known key, or unknown keys
/// of the same name.
pub open spec fn same_key(a: ItemKey, b: ItemKey) -> bool {
    match (unknown_name(a), unknown_name(b)) {
        (Some(x), Some(y)) => x == y,
        (None, None) => a == b,
        _ => false,
    }
}

/// The text of the first item with the key `key`, if that item is text.
pub open spec fn text_of(items: Seq<Item>, key: ItemKey) -> Option<Seq<char>>
    decreases items.len(),
{
    if items.len() == 0 {
        None
    } else if same_key(items[0].0, key) {
        items[0].1
    } else {
        text_of(items.drop_first(), key)
    }
}

/// The items without those that have the key `key`.
pub open spec fn without_key(items: Seq<Item>, key: ItemKey) -> Seq<Item>
    decreases items.len(),
{
    if items.len() == 0 {
        items
    } else if same_key(items[0].0, key) {
        without_key(items.drop_first(), key)
    } else {
        seq![items[0]] + without_key(items.drop_first(), key)
    }
}

/// The items after `key` has been set to `text`: no other item has the key,
/// and the new item is the last.
pub open spec fn inserted(items: Seq<Item>, key: ItemKey, text: Seq<char>) -> Seq<Item> {
    without_key(items, key).push((key, Some(text)))
}

/// The key that must not be handed on: the tag library cannot write it.
pub open spec fn is_unsupported(key: ItemKey) -> bool {
    unknown_name(key) == Some("ASIN"@)
}

/// The items without those that must not be handed on.
pub open spec fn supported_only(items: Seq<Item>) -> Seq<Item>
    decreases items.len(),
{
    if items.len() == 0 {
        items
    } else if is_unsupported(items[0].0) {
        supported_only(items.drop_first())
    } else {
        seq![items[0]] + supported_only(items.drop_first())
    }
}

/// Whether no item must be kept back from the tag library.
pub open spec fn all_supported(items: Seq<Item>) -> bool {
    forall|i: int| 0 <= i < items.len() ==> !is_unsupported((#[trigger] items[i]).0)
}

/// Setting a key is seen by a lookup of that key and by no other lookup.
pub proof fn lemma_text_of_inserted(items: Seq<Item>, key: ItemKey, text: Seq<char>, other: ItemKey)
    ensures
        text_of(inserted(items, key, text), other) == if same_key(other, key) {
            Some(text)
        } else {
            text_of(items, other)
        },
    decreases items.len(),
{
    let all = inserted(items, key, text);
    if items.len() == 0 {
        assert(text_of(all.drop_first(), other) is None);
    } else {
        let rest = items.drop_first();
        lemma_text_of_inserted(rest, key, text, other);
        if !same_key(items[0].0, key) {
            assert(all.drop_first() =~= inserted(rest, key, text));
        }
    }
}

/// What is left after the unsupported items are dropped holds none of them,
/// and every other key is found as before.
pub proof fn lemma_supported_only(items: Seq<Item>, key: ItemKey)
    ensures
        all_supported(supported_only(items)),
        text_of(supported_only(items), key) == if is_unsupported(key) {
            None
        } else {
            text_of(items, key)
        },
    decreases items.len(),
{
    if items.len() > 0 {
        let rest = items.drop_first();
        lemma_supported_only(rest, key);
        if !is_unsupported(items[0].0) {
            let kept = seq![items[0]] + supported_only(rest);
            assert(kept.drop_first() =~= supported_only(rest));
            assert forall|i: int| 0 <= i < kept.len() implies !is_unsupported(
                (#[trigger] kept[i]).0,
            ) by {
                if i > 0 {
                    assert(kept[i] == supported_only(rest)[i - 1]);
                }
            }
        }
    }
}

/// Setting a key that is supported brings no unsupported item into a list
/// that has none.
pub proof fn lemma_inserted_stays_supported(items: Seq<Item>, key: ItemKey, text: Seq<char>)
    requires
        !is_unsupported(key),
        all_supported(items),
    ensures
        all_supported(inserted(items, key, text)),
{
    lemma_without_keeps_supported(items, key);
}

/// Removing a key brings no unsupported item into a list that has none.
pub proof fn lemma_without_keeps_supported(items: Seq<Item>, key: ItemKey)
    requires
        all_supported(items),
    ensures
        all_supported(without_key(items, key)),
    decreases items.len(),
{
    if items.len() > 0 {
        let rest = items.drop_first();
        assert forall|i: int| 0 <= i < rest.len() implies !is_unsupported(
            (#[trigger] rest[i]).0,
        ) by {
            assert(rest[i] == items[i + 1]);
        }
        lemma_without_keeps_supported(rest, key);
        if !same_key(items[0].0, key) {
            let kept = seq![items[0]] + without_key(rest, key);
            assert forall|i: int| 0 <= i < kept.len() implies !is_unsupported(
                (#[trigger] kept[i]).0,
            ) by {
                if i > 0 {
                    assert(kept[i] == without_key(rest, key)[i - 1]);
                }
            }
        }
    }
}

/// Whether two tags are alike in all but their items: they take the same
/// keys and hold as many pictures.
pub open spec fn same_format(a: Tag, b: Tag) -> bool {
    &&& forall|key: ItemKey| tag_takes(a, key) == tag_takes(b, key)
    &&& tag_picture_count(a) == tag_picture_count(b)
}

/// Whether an item with this key may be handed on to the tag library. The
/// one key that may not is the unknown key `ASIN`.
pub fn is_supported(key: &ItemKey) -> (b: bool)
    ensures
        b == !is_unsupported(*key),
{
    match key {
        ItemKey::Unknown(name) => {
            let asin = String::from_str("ASIN");
            !(*name == asin)
        },
        _ => true,
    }
}

/// Drops the items that must not be handed on to the tag library and keeps
/// every other item, in the order they had.
pub fn drop_unsupported(tag: &mut Tag)
    ensures
        tag_items(*final(tag)) == supported_only(tag_items(*old(tag))),
        same_format(*final(tag), *old(tag)),
{
    retain_supported(tag);
}

} // verus!
