use vstd::prelude::*;

pub mod crates_io;
pub mod embed;
pub mod extra;
pub mod formats;
pub mod fun;
pub mod github;
pub mod guild_info;
pub mod info;
pub mod lastfm;
pub mod moderation;
pub mod order;
pub mod parse;
pub mod profile;
pub mod reddit;
pub mod spotify;
pub mod text;
pub mod tmdb;
pub mod twitter;
pub mod user_info;
pub mod utilities;
pub mod voice;
pub mod weather;

verus! {

} // verus!
