//! The calls into other crates and into parts of `std` that have no
//! specification. Nothing here is proved: each contract states what the
//! called function does according to its documentation and its source, and
//! the rest of the library is verified against these contracts.

use crate::interface::tag::{inserted, is_supported, supported_only, text_of};
use crate::text::edit_distance;
use vstd::prelude::*;

verus! {

/// The tag of a file, as `lofty` holds it.
#[verifier::external_type_specification]
#[verifier::external_body]
pub struct ExTag(lofty::tag::Tag);

/// The key of an item of a tag. It is declared with its variants, all of
/// them public, because the library names the keys that it reads and writes.
#[verifier::external_type_specification]
pub struct ExItemKey(lofty::tag::ItemKey);

/// Why an address could not be parsed.
#[verifier::external_type_specification]
#[verifier::external_body]
pub struct ExParseError(url::ParseError);

/// The items of a tag in their order, each with its key and, where its
/// value is text, with that text.
pub uninterp spec fn tag_items(tag: lofty::tag::Tag) -> Seq<(lofty::tag::ItemKey, Option<Seq<char>>)>;

/// Whether the format of a tag has a place for items with the key `key`,
/// which is what `lofty` asks before it inserts one.
pub uninterp spec fn tag_takes(tag: lofty::tag::Tag, key: lofty::tag::ItemKey) -> bool;

/// The number of pictures that a tag holds, as `Tag::picture_count` counts
/// them.
pub uninterp spec fn tag_picture_count(tag: lofty::tag::Tag) -> nat;

/// The upper-case form of a string, as `str::to_uppercase` computes it.
pub uninterp spec fn uppercase(s: Seq<char>) -> Seq<char>;

/// The lower-case form of a string, as `str::to_lowercase` computes it.
pub uninterp spec fn lowercase(s: Seq<char>) -> Seq<char>;

/// A file name as `sanitize_filename::sanitize` cleans it, with the options
/// that the crate was built with.
pub uninterp spec fn sanitized(name: Seq<char>) -> Seq<char>;

/// The address that `url::Url::parse_with_params` makes of `base` and the
/// query parameters `params`, or `None` where it takes `base` for no
/// absolute address.
pub uninterp spec fn url_with_params(base: Seq<char>, params: Seq<(Seq<char>, Seq<char>)>) -> Option<
    Seq<char>,
>;

/// `Tag::get_string` finds the first item with the key and hands out its
/// value if that is text.
pub assume_specification<'a>[ lofty::tag::Tag::get_string ](
    tag: &'a lofty::tag::Tag,
    item_key: &lofty::tag::ItemKey,
) -> (r: Option<&'a str>)
    ensures
        match r {
            Some(t) => text_of(tag_items(*tag), *item_key) == Some(t@),
            None => text_of(tag_items(*tag), *item_key) is None,
        },
;

/// `Tag::picture_count` counts the pictures of the tag. The contract only
/// names the count.
pub assume_specification[ lofty::tag::Tag::picture_count ](tag: &lofty::tag::Tag) -> (r: u32)
    ensures
        r == tag_picture_count(*tag),
;

/// `Tag::insert_text` asks whether the format of the tag has a place for the
/// key. If it has, every item with the key is removed, an item with the key
/// and the text is added at the end, and the answer is `true`; if not,
/// nothing changes and the answer is `false`. The format and the pictures
/// stay what they were.
pub assume_specification[ lofty::tag::Tag::insert_text ](
    tag: &mut lofty::tag::Tag,
    item_key: lofty::tag::ItemKey,
    value: String,
) -> (r: bool)
    ensures
        r == tag_takes(*old(tag), item_key),
        tag_items(*final(tag)) == if r {
            inserted(tag_items(*old(tag)), item_key, value@)
        } else {
            tag_items(*old(tag))
        },
        forall|key: lofty::tag::ItemKey|
            tag_takes(*final(tag), key) == tag_takes(*old(tag), key),
        tag_picture_count(*final(tag)) == tag_picture_count(*old(tag)),
;

/// Calls `Tag::retain`, which keeps the items that the closure says yes to,
/// in their order, and drops the others. The closure asks `is_supported` of
/// the key of each item. The format of the tag and its pictures stay what
/// they were.
#[verifier::external_body]
pub(crate) fn retain_supported(tag: &mut lofty::tag::Tag)
    ensures
        tag_items(*final(tag)) == supported_only(tag_items(*old(tag))),
        forall|key: lofty::tag::ItemKey|
            tag_takes(*final(tag), key) == tag_takes(*old(tag), key),
        tag_picture_count(*final(tag)) == tag_picture_count(*old(tag)),
{
    tag.retain(|item| is_supported(item.key()));
}

/// Calls `str::to_uppercase`. The result depends on the characters of `s`
/// alone; the contract only names it.
#[verifier::external_body]
pub(crate) fn to_uppercase(s: &str) -> (r: String)
    ensures
        r@ == uppercase(s@),
{
    s.to_uppercase()
}

/// Calls `str::to_lowercase`. The result depends on the characters of `s`
/// alone; the contract only names it.
#[verifier::external_body]
pub(crate) fn to_lowercase(s: &str) -> (r: String)
    ensures
        r@ == lowercase(s@),
{
    s.to_lowercase()
}

/// Calls `strsim::levenshtein`, which gives the least number of insertions,
/// deletions and substitutions of characters that turn `a` into `b`.
#[verifier::external_body]
pub(crate) fn levenshtein(a: &str, b: &str) -> (d: usize)
    ensures
        d == edit_distance(a@, b@),
{
    strsim::levenshtein(a, b)
}

/// Whether `sanitize_filename::sanitize` deletes the character wherever it
/// stands: one of `/ ? < > \ : * | "`, or a control character (`U+0000` to
/// `U+001F` and `U+0080` to `U+009F`).
pub open spec fn deleted_from_names(c: char) -> bool {
    ||| c == '/'
    ||| c == '?'
    ||| c == '<'
    ||| c == '>'
    ||| c == '\\'
    ||| c == ':'
    ||| c == '*'
    ||| c == '|'
    ||| c == '"'
    ||| (c as u32) <= 0x1f
    ||| 0x80 <= (c as u32) <= 0x9f
}

/// Calls `sanitize_filename::sanitize`, which deletes the characters
/// `/ ? < > \ : * | "` and the control characters, empties what is then made
/// of dots only, and cuts what is longer than 255 bytes to at most 255 bytes;
/// built for Windows it also empties the names that are reserved there and
/// deletes dots and spaces at the end. The contract names the result. Since
/// the function only ever deletes, the result holds none of the characters
/// that it deletes, so neither `/` nor `\`, and is no longer than 255
/// characters; and since a name of dots only is emptied, and a cut leaves far
/// more than two characters, the result is neither `.` nor `..`.
#[verifier::external_body]
pub(crate) fn sanitize(name: &str) -> (r: String)
    ensures
        r@ == sanitized(name@),
        forall|i: int| 0 <= i < r@.len() ==> !deleted_from_names(#[trigger] r@[i]),
        !r@.contains('/'),
        !r@.contains('\\'),
        r@.len() <= 255,
        r@ != seq!['.'],
        r@ != seq!['.', '.'],
{
    sanitize_filename::sanitize(name)
}

/// Calls `url::Url::parse_with_params` and writes the address out. The
/// function parses `base` as an absolute address and adds each pair of
/// `params` to its query, in order and escaped. The contract only names the
/// address, and says that an error comes exactly where there is none.
#[verifier::external_body]
pub(crate) fn parse_with_params(base: &str, params: &Vec<(String, String)>) -> (r: Result<
    String,
    url::ParseError,
>)
    ensures
        match r {
            Ok(address) => url_with_params(base@, params.deep_view()) == Some(address@),
            Err(_) => url_with_params(base@, params.deep_view()) is None,
        },
{
    url::Url::parse_with_params(base, params.iter()).map(String::from)
}

} // verus!
