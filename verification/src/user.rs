//! The user records that the listing service hands out.

use crate::text::optional_text;
use crate::util::{avatar_url, get_avatar};
use vstd::prelude::*;

verus! {

/// A user's social links.
#[derive(Clone, Debug)]
pub struct Socials {
    /// A URL to this user's GitHub account.
    pub github: Option<String>,
    /// A URL to this user's Instagram account.
    pub instagram: Option<String>,
    /// A URL to this user's Reddit account.
    pub reddit: Option<String>,
    /// A URL to this user's Twitter account.
    pub twitter: Option<String>,
    /// A URL to this user's YouTube channel.
    pub youtube: Option<String>,
}

/// A user logged into Top.gg.
#[derive(Clone)]
pub struct User {
    /// The Discord ID of this user.
    pub id: u64,
    /// The username of this user.
    pub username: String,
    /// The four digits that used to follow a username; no longer in use.
    pub discriminator: String,
    /// The user's bio.
    pub bio: Option<String>,
    /// A URL to this user's profile banner image.
    pub banner: Option<String>,
    /// This user's social links.
    pub socials: Option<Socials>,
    /// Whether this user is a Top.gg supporter.
    pub is_supporter: bool,
    /// Whether this user is a Top.gg certified developer.
    pub is_certified_dev: bool,
    /// Whether this user is a Top.gg moderator.
    pub is_moderator: bool,
    /// Whether this user is a Top.gg website moderator.
    pub is_web_moderator: bool,
    /// Whether this user is a Top.gg website administrator.
    pub is_admin: bool,
    /// The hash of this user's avatar, if one is set; [`User::avatar`] gives
    /// its address.
    pub avatar: Option<String>,
}

/// A user who has voted on a Discord bot listed on Top.gg.
#[derive(Clone, Debug)]
pub struct Voter {
    /// The Discord ID of this user.
    pub id: u64,
    /// The username of this user.
    pub username: String,
    /// The hash of this user's avatar, if one is set; [`Voter::avatar`] gives
    /// its address.
    pub avatar: Option<String>,
}

impl User {
    /// Retrieves the Discord avatar URL of this user.
    ///
    /// Its format is PNG, or GIF if the avatar is animated.
    pub fn avatar(&self) -> (url: String)
        ensures
            url@ == avatar_url(optional_text(self.avatar), self.id),
    {
        get_avatar(&self.avatar, self.id)
    }
}

impl Voter {
    /// Retrieves the Discord avatar URL of this user.
    ///
    /// Its format is PNG, or GIF if the avatar is animated.
    #[must_use]
    pub fn avatar(&self) -> (url: String)
        ensures
            url@ == avatar_url(optional_text(self.avatar), self.id),
    {
        get_avatar(&self.avatar, self.id)
    }
}

} // verus!
