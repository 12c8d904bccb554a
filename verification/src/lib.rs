//! Client-side building blocks for the Top.gg listing service: typed
//! snowflake identifiers, the user records that carry them, and the
//! authenticate, decode and dispatch pipeline behind the vote webhook.

pub mod error;
mod private;
pub mod snowflake;
pub mod text;
pub mod user;
pub mod util;
pub mod vote;
pub mod webhook;

pub use error::ErrorKind;
pub use snowflake::SnowflakeLike;
pub use user::{Socials, User, Voter};
pub use vote::Vote;
pub use webhook::{webhook, VoteHandler, WebhookState};
