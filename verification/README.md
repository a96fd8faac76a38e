# movie_rating_site

A site on which a group of friends picks a movie to watch. Members search for
movies, put some forward, say when they are ready, and then take turns
striking movies out until one is left.

`src/` is the verified library, written in Verus:

- `system`: the group's pick as a state machine (ready flags, the rotation of
  turns, striking out, the end of the pick), with its laws.
- `membership`, `group_types`, `setlike`: users and groups, joining and
  leaving, and the records made when a user registers or a group is created.
- `search`, `results`, `imdb_types`, `images`, `omdb`: the movie search
  request, the shaping of the suggestion service's answer, and picture URLs.
- `auth`, `auth_flow`: password hashing and checking, token claims, and the
  token flow that pages follow when a request needs a token.
- `register`, `pages`, `add_movies`, `keyed`, `front_error`: the decisions of
  the site's pages.
- `list_text`, `text`, `errors`: the stored list format, text helpers, and
  the server's refusals.

`app/` is the server (warp routes over SQLite, tokens, the search request)
and the browser pages (yew components) around the library. `tests/` holds the
tests.
