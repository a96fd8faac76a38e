//! How the pages show a movie's picture: the picture's URL with the resizing
//! suffix that the picture service understands.
use vstd::prelude::*;
use crate::imdb_types::ImageData;
use crate::text::{concat, substring};

verus! {

/// Whether the URL ends in `.jpg`.
pub open spec fn ends_in_jpg(url: Seq<char>) -> bool {
    url.len() >= 4 && url.subrange(url.len() - 4, url.len() as int) == ".jpg"@
}

/// A picture's URL resized to a 50 by 74 pixel thumbnail: the `.jpg`
/// replaced by the service's resizing suffix.
pub open spec fn small_picture_url(url: Seq<char>) -> Seq<char> {
    url.subrange(0, url.len() - 4) + "._V1_QL75_UY74_CR30,0,50,74_.jpg"@
}

/// The text shown where a suggestion has no picture.
pub open spec fn no_picture_text() -> Seq<char> {
    "need to get a decent no pic available pic"@
}

/// The thumbnail URL of the picture, or a placeholder text where there is no
/// picture. A picture's URL must end in `.jpg`.
pub fn image_processing(image: Option<&ImageData>) -> (res: String)
    requires
        image matches Some(i) ==> ends_in_jpg(i.url@),
    ensures
        match image {
            Some(i) => res@ == small_picture_url(i.url@),
            None => res@ == no_picture_text(),
        },
{
    match image {
        Some(image) => {
            let n = image.url.as_str().unicode_len();
            let stem = substring(image.url.as_str(), 0, n - 4);
            concat(stem.as_str(), "._V1_QL75_UY74_CR30,0,50,74_.jpg")
        },
        None => "need to get a decent no pic available pic".to_owned(),
    }
}

} // verus!
