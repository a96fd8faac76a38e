//! Movies as the site shows them, and the phases a group's pick goes through.
use vstd::prelude::*;
use crate::errors::{debug_quoted, debug_text};
use crate::imdb_types::{ImageData, ImageDataView};
use crate::text::{concat, decimal, decimal_string};

verus! {

/// The phase of a group's pick: members add movies, then take turns
/// striking them out, until one is left.
#[derive(Debug, Clone, Copy, PartialEq, Eq, Structural)]
pub enum SystemState {
    AddingMovies,
    SystemStarted,
    Finished,
}

/// A movie found by the search.
#[derive(Debug)]
pub struct MovieDisplay {
    pub movie_id: String,
    pub movie_title: String,
    pub movie_year: u32,
    pub movie_images: ImageData,
    pub movie_stars: String,
}

/// What a `MovieDisplay` holds, as plain values.
pub ghost struct MovieDisplayView {
    pub movie_id: Seq<char>,
    pub movie_title: Seq<char>,
    pub movie_year: u32,
    pub movie_images: ImageDataView,
    pub movie_stars: Seq<char>,
}

impl View for MovieDisplay {
    type V = MovieDisplayView;

    open spec fn view(&self) -> MovieDisplayView {
        MovieDisplayView {
            movie_id: self.movie_id@,
            movie_title: self.movie_title@,
            movie_year: self.movie_year,
            movie_images: self.movie_images@,
            movie_stars: self.movie_stars@,
        }
    }
}

impl Clone for MovieDisplay {
    fn clone(&self) -> (res: Self)
        ensures
            res == *self,
    {
        MovieDisplay {
            movie_id: self.movie_id.clone(),
            movie_title: self.movie_title.clone(),
            movie_year: self.movie_year,
            movie_images: self.movie_images.clone(),
            movie_stars: self.movie_stars.clone(),
        }
    }
}

/// A movie that a member has put forward for the group.
#[derive(Debug)]
pub struct YewMovieDisplay {
    pub movie_id: String,
    pub movie_title: String,
    pub movie_year: u32,
    pub movie_images: ImageData,
    pub movie_stars: String,
    pub added_by: String,
}

/// What a `YewMovieDisplay` holds, as plain values.
pub ghost struct YewMovieDisplayView {
    pub movie_id: Seq<char>,
    pub movie_title: Seq<char>,
    pub movie_year: u32,
    pub movie_images: ImageDataView,
    pub movie_stars: Seq<char>,
    pub added_by: Seq<char>,
}

impl View for YewMovieDisplay {
    type V = YewMovieDisplayView;

    open spec fn view(&self) -> YewMovieDisplayView {
        YewMovieDisplayView {
            movie_id: self.movie_id@,
            movie_title: self.movie_title@,
            movie_year: self.movie_year,
            movie_images: self.movie_images@,
            movie_stars: self.movie_stars@,
            added_by: self.added_by@,
        }
    }
}

impl Clone for YewMovieDisplay {
    fn clone(&self) -> (res: Self)
        ensures
            res == *self,
    {
        YewMovieDisplay {
            movie_id: self.movie_id.clone(),
            movie_title: self.movie_title.clone(),
            movie_year: self.movie_year,
            movie_images: self.movie_images.clone(),
            movie_stars: self.movie_stars.clone(),
            added_by: self.added_by.clone(),
        }
    }
}

/// The movie `m` as put forward by `added_by`.
pub open spec fn yew_view_of(m: MovieDisplayView, added_by: Seq<char>) -> YewMovieDisplayView {
    YewMovieDisplayView {
        movie_id: m.movie_id,
        movie_title: m.movie_title,
        movie_year: m.movie_year,
        movie_images: m.movie_images,
        movie_stars: m.movie_stars,
        added_by,
    }
}

impl MovieDisplay {
    /// This movie, as put forward by `added_by`.
    pub fn into_yew_display(self, added_by: String) -> (res: YewMovieDisplay)
        ensures
            res@ == yew_view_of(self@, added_by@),
    {
        YewMovieDisplay {
            movie_id: self.movie_id,
            movie_title: self.movie_title,
            movie_year: self.movie_year,
            movie_images: self.movie_images,
            movie_stars: self.movie_stars,
            added_by,
        }
    }
}

/// How a picture prints with `{:?}`.
pub open spec fn image_debug_text(i: ImageDataView) -> Seq<char> {
    "ImageData { url: "@ + debug_quoted(i.url) + ", width: "@ + decimal(i.width as nat)
        + ", height: "@ + decimal(i.height as nat) + " }"@
}

/// How a found movie is printed: its title and year and picture as `{:?}`
/// prints them, separated by commas.
pub open spec fn movie_display_text(m: MovieDisplayView) -> Seq<char> {
    debug_quoted(m.movie_title) + ", "@ + decimal(m.movie_year as nat) + ", "@ + image_debug_text(
        m.movie_images,
    )
}

impl MovieDisplay {
    /// The printed form of the movie.
    pub fn display_string(&self) -> (res: String)
        ensures
            res@ == movie_display_text(self@),
    {
        let title = debug_text(self.movie_title.as_str());
        let year = decimal_string(self.movie_year as u64);
        let url = debug_text(self.movie_images.url.as_str());
        let width = decimal_string(self.movie_images.width as u64);
        let height = decimal_string(self.movie_images.height as u64);
        let a = concat("ImageData { url: ", url.as_str());
        let b = concat(a.as_str(), ", width: ");
        let c = concat(b.as_str(), width.as_str());
        let d = concat(c.as_str(), ", height: ");
        let e = concat(d.as_str(), height.as_str());
        let image = concat(e.as_str(), " }");
        let f = concat(title.as_str(), ", ");
        let g = concat(f.as_str(), year.as_str());
        let h = concat(g.as_str(), ", ");
        concat(h.as_str(), image.as_str())
    }
}

/// Whether two texts are equal.
pub fn same_string(a: &String, b: &String) -> (res: bool)
    ensures
        res == (a@ == b@),
{
    *a == *b
}

/// Whether two pictures are the same.
pub fn same_image(a: &ImageData, b: &ImageData) -> (res: bool)
    ensures
        res == (a@ == b@),
{
    same_string(&a.url, &b.url) && a.width == b.width && a.height == b.height
}

/// Whether two found movies are the same.
pub fn same_movie(a: &MovieDisplay, b: &MovieDisplay) -> (res: bool)
    ensures
        res == (a@ == b@),
{
    same_string(&a.movie_id, &b.movie_id) && same_string(&a.movie_title, &b.movie_title)
        && a.movie_year == b.movie_year && same_image(&a.movie_images, &b.movie_images)
        && same_string(&a.movie_stars, &b.movie_stars)
}

/// Whether two movies put forward are the same.
pub fn same_yew_movie(a: &YewMovieDisplay, b: &YewMovieDisplay) -> (res: bool)
    ensures
        res == (a@ == b@),
{
    same_string(&a.movie_id, &b.movie_id) && same_string(&a.movie_title, &b.movie_title)
        && a.movie_year == b.movie_year && same_image(&a.movie_images, &b.movie_images)
        && same_string(&a.movie_stars, &b.movie_stars) && same_string(&a.added_by, &b.added_by)
}

} // verus!
