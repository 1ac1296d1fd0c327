//! The rules of the HTTP edge: which handler a request goes to, and how a
//! failure is answered.

use vstd::prelude::*;
use vstd::string::*;
use crate::error::RequestError;
use crate::text::{chars_of, pieces, split, split_ranges, spells};

pub mod discord;
pub mod hello;
pub mod team;
pub mod ws;

verus! {

/// Where a request goes.
#[derive(Debug, Clone, Copy, PartialEq, Eq, Structural)]
pub enum Route {
    Hello,
    TeamInfo,
    Ws,
    Login,
    Auth,
    User,
    NotFound,
    /// The request names no path at all.
    Nowhere,
}

/// An answer whose body is text.
#[derive(Debug, Clone, PartialEq, Eq)]
pub struct Answer {
    pub status: u16,
    pub body: String,
}

/// The value of the `Access-Control-Allow-Origin` header of every answer.
pub const ALLOW_ORIGIN: &'static str = "*";

/// The status of an answer for a path that no handler serves.
pub const NOT_FOUND: u16 = 404;

/// The body that answers a request without a path.
pub const NOWHERE: &'static str = "how the hell did we get here?";

/// `parts` without the `api` segments that it starts with.
pub open spec fn without_api(parts: Seq<Seq<char>>) -> Seq<Seq<char>>
    decreases parts.len(),
{
    if parts.len() > 0 && parts.first() == "api"@ {
        without_api(parts.drop_first())
    } else {
        parts
    }
}

/// The segments of `path` that name a route: the pieces between its
/// slashes, without the empty piece before a leading slash and without the
/// `api` segments at the front.
pub open spec fn segments(path: Seq<char>) -> Seq<Seq<char>> {
    let parts = split(path, seq!['/']);
    without_api(
        if path.len() > 0 && path[0] == '/' {
            parts.skip(1)
        } else {
            parts
        },
    )
}

/// Where a request for `path` goes. Only `GET` requests are served, and
/// only for the segments that name a handler.
pub open spec fn routed(get: bool, path: Seq<char>) -> Route {
    let parts = segments(path);
    if !get {
        Route::NotFound
    } else if parts.len() == 1 {
        if parts[0] == "hello"@ {
            Route::Hello
        } else if parts[0] == "team_info"@ {
            Route::TeamInfo
        } else if parts[0] == "ws"@ {
            Route::Ws
        } else {
            Route::NotFound
        }
    } else if parts.len() == 2 && parts[0] == "discord"@ {
        if parts[1] == "login"@ {
            Route::Login
        } else if parts[1] == "auth"@ {
            Route::Auth
        } else if parts[1] == "user"@ {
            Route::User
        } else {
            Route::NotFound
        }
    } else {
        Route::NotFound
    }
}

/// Says where a request for `path` goes. `get` says whether its method is
/// `GET`.
pub fn route(get: bool, path: &str) -> (to: Route)
    ensures
        to == routed(get, path@),
{
    proof {
        reveal_strlit("/");
    }
    let chars = chars_of(path);
    let slash = chars_of("/");
    assert(slash@ =~= seq!['/']);
    let ranges = split_ranges(&chars, &slash);
    let ghost parts = split(path@, seq!['/']);
    let ghost first = if path@.len() > 0 && path@[0] == '/' {
        1int
    } else {
        0int
    };
    let mut start: usize = if chars.len() > 0 && chars[0] == '/' {
        1
    } else {
        0
    };
    assert(parts.skip(0) =~= parts);
    while start < ranges.len() && spells(&chars, ranges[start].0, ranges[start].1, "api")
        invariant
            parts == pieces(chars@, ranges@),
            start <= ranges@.len(),
            forall|k: int|
                0 <= k < ranges@.len() ==> (#[trigger] ranges@[k]).0 <= ranges@[k].1
                    <= chars@.len(),
            without_api(parts.skip(first)) == without_api(parts.skip(start as int)),
        decreases ranges@.len() - start,
    {
        assert(parts.skip(start as int).first() == parts[start as int]);
        assert(parts.skip(start as int).drop_first() =~= parts.skip(start + 1));
        start += 1;
    }
    proof {
        let rest = parts.skip(start as int);
        if start < ranges@.len() {
            assert(rest.first() == parts[start as int]);
        }
        assert(segments(path@) == rest);
        assert(forall|k: int| 0 <= k < rest.len() ==> rest[k] == parts[start + k]);
    }
    let left = ranges.len() - start;
    if !get {
        Route::NotFound
    } else if left == 1 {
        let (from, to) = ranges[start];
        if spells(&chars, from, to, "hello") {
            Route::Hello
        } else if spells(&chars, from, to, "team_info") {
            Route::TeamInfo
        } else if spells(&chars, from, to, "ws") {
            Route::Ws
        } else {
            Route::NotFound
        }
    } else if left == 2 && spells(&chars, ranges[start].0, ranges[start].1, "discord") {
        let (from, to) = ranges[start + 1];
        if spells(&chars, from, to, "login") {
            Route::Login
        } else if spells(&chars, from, to, "auth") {
            Route::Auth
        } else if spells(&chars, from, to, "user") {
            Route::User
        } else {
            Route::NotFound
        }
    } else {
        Route::NotFound
    }
}

/// Says where a request goes. `path` is the path of its target, where it
/// has one.
pub fn handle_request(get: bool, path: Option<&str>) -> (to: Route)
    ensures
        to == match path {
            Some(p) => routed(get, p@),
            None => Route::Nowhere,
        },
{
    match path {
        Some(p) => route(get, p),
        None => Route::Nowhere,
    }
}

/// The answer to a request that failed: the failure's status and its text.
pub fn failure(e: &RequestError) -> (answer: Answer)
    ensures
        answer.status == e.status(),
        answer.body@ == e.text(),
{
    Answer { status: e.get_status(), body: e.describe() }
}

/// The answer to a request without a path.
pub fn nowhere() -> (answer: Answer)
    ensures
        answer.status == 200,
        answer.body@ == NOWHERE@,
{
    Answer { status: 200, body: String::from_str(NOWHERE) }
}

/// The answer to a request for a path that no handler serves: not found,
/// with an empty body.
pub fn not_found() -> (answer: Answer)
    ensures
        answer.status == NOT_FOUND,
        answer.body@ == Seq::<char>::empty(),
{
    Answer { status: NOT_FOUND, body: String::new() }
}

} // verus!
