//! The OMDb movie-details request: the key read from the key file, and the
//! request address.
use vstd::prelude::*;
use crate::text::{concat, trim, trim_str};

verus! {

/// The address of the OMDb service.
pub open spec fn omdb_url() -> Seq<char> {
    "http://www.omdbapi.com/"@
}

/// The request for the full plot of the movie `id`, with the key `api_key`.
pub open spec fn omdb_query(id: Seq<char>, api_key: Seq<char>) -> Seq<char> {
    omdb_url() + "?i="@ + id + "&plot=full&apikey="@ + api_key
}

/// The key as the key file holds it, without surrounding white space.
pub fn api_key_from_file(file_text: &str) -> (res: String)
    ensures
        res@ == trim(file_text@),
{
    trim_str(file_text).to_owned()
}

/// The request address for the full plot of the movie `id`.
pub fn query_url(id: &str, api_key: &str) -> (res: String)
    ensures
        res@ == omdb_query(id@, api_key@),
{
    let a = concat("http://www.omdbapi.com/", "?i=");
    let b = concat(a.as_str(), id);
    let c = concat(b.as_str(), "&plot=full&apikey=");
    concat(c.as_str(), api_key)
}

} // verus!
