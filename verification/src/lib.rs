//! Verified core of a movie-group site: the turn-taking "system" by which a
//! group picks a movie, group membership, the movie search request and the
//! shaping of its answer, password hashing and token claims, the decisions
//! of the site's pages, and the text list format that stores names.
use vstd::prelude::*;

pub mod add_movies;
pub mod auth;
pub mod auth_flow;
pub mod errors;
pub mod front_error;
pub mod group_types;
pub mod images;
pub mod imdb_types;
pub mod keyed;
pub mod list_text;
pub mod membership;
pub mod omdb;
pub mod pages;
pub mod register;
pub mod results;
pub mod search;
pub mod setlike;
pub mod shared_types;
pub mod system;
pub mod text;

verus! {
} // verus!
