//! Avatar addresses on the Discord content network.

use crate::snowflake::{decimal_text, write_decimal};
use crate::text::optional_text;
use vstd::prelude::*;
use vstd::std_specs::iter::IteratorSpec;
use vstd::string::StringExecFns;

verus! {

/// Whether an avatar hash names an animated image: it starts with `a_`.
pub open spec fn is_animated(hash: Seq<char>) -> bool {
    hash.len() >= 2 && hash[0] == 'a' && hash[1] == '_'
}

/// Which of the five stock avatars a user without one of their own gets.
pub open spec fn default_avatar_index(id: u64) -> nat {
    ((id >> 22) % 5) as nat
}

/// The address of a user's avatar.
///
/// With a hash it is the user's own image, a GIF if the hash names an
/// animated one and a PNG otherwise; without, one of the stock avatars.
pub open spec fn avatar_url(hash: Option<Seq<char>>, id: u64) -> Seq<char> {
    match hash {
        Some(hash) => "https://cdn.discordapp.com/avatars/"@ + decimal_text(id as nat) + "/"@
            + hash + (if is_animated(hash) {
            ".gif?size=1024"@
        } else {
            ".png?size=1024"@
        }),
        None => "https://cdn.discordapp.com/embed/avatars/"@ + decimal_text(
            default_avatar_index(id),
        ) + ".png"@,
    }
}

/// Reads an optional text off the wire, where an empty text stands for none.
pub fn optional_string(text: Option<String>) -> (kept: Option<String>)
    ensures
        kept == match text {
            Some(s) => if s@.len() == 0 {
                None
            } else {
                Some(s)
            },
            None => None,
        },
{
    match text {
        Some(s) => if s.as_str().is_empty() {
            None
        } else {
            Some(s)
        },
        None => None,
    }
}

/// Whether `hash` starts with `a_`.
fn starts_animated(hash: &str) -> (animated: bool)
    ensures
        animated == is_animated(hash@),
{
    broadcast use vstd::string::group_string_axioms;

    let mut chars = hash.chars();
    assert(chars.remaining() == hash@);
    match chars.next() {
        Some('a') => {
            assert(chars.remaining() == hash@.drop_first());
            match chars.next() {
                Some('_') => true,
                _ => false,
            }
        },
        _ => false,
    }
}

/// Builds the address of a user's avatar from the hash on record and the
/// user's identifier.
pub fn get_avatar(hash: &Option<String>, id: u64) -> (url: String)
    ensures
        url@ == avatar_url(optional_text(*hash), id),
{
    match hash {
        Some(hash) => {
            let mut url = String::from_str("https://cdn.discordapp.com/avatars/");
            write_decimal(&mut url, id);
            url.append("/");
            url.append(hash.as_str());
            if starts_animated(hash.as_str()) {
                url.append(".gif?size=1024");
            } else {
                url.append(".png?size=1024");
            }
            url
        },
        None => {
            let mut url = String::from_str("https://cdn.discordapp.com/embed/avatars/");
            write_decimal(&mut url, (id >> 22) % 5);
            url.append(".png");
            url
        },
    }
}

} // verus!
