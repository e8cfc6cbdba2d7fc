//! Request routing: the deployment-stage prefix is stripped from the path,
//! then the method and the cleaned path select a handler.
use vstd::prelude::*;

verus! {

/// The handler that serves a request.
#[derive(Debug, PartialEq, Eq, Structural)]
pub enum Route {
    /// Any `GET`; the handler dispatches on the path.
    Get,
    /// `POST /wishlists`.
    Post,
    /// `PUT /wishlists`.
    Put,
    /// `DELETE /wishlists`.
    Delete,
    /// A served method on a path that it does not serve.
    NotFound,
    /// A method that the service does not serve.
    MethodNotAllowed,
}

/// `s` without every leading repetition of `p`.
pub open spec fn strip_prefixes(s: Seq<char>, p: Seq<char>) -> Seq<char>
    decreases s.len(),
{
    if 0 < p.len() <= s.len() && s.take(p.len() as int) == p {
        strip_prefixes(s.skip(p.len() as int), p)
    } else {
        s
    }
}

/// `s` without every trailing `c`.
pub open spec fn strip_suffix_char(s: Seq<char>, c: char) -> Seq<char>
    decreases s.len(),
{
    if s.len() > 0 && s.last() == c {
        strip_suffix_char(s.drop_last(), c)
    } else {
        s
    }
}

/// The deployment-stage prefix that the hosting gateway may put in front of
/// a path.
pub open spec fn stage_prefix() -> Seq<char> {
    "/prod"@
}

/// A path without its deployment-stage prefix.
pub open spec fn clean_path(path: Seq<char>) -> Seq<char> {
    strip_prefixes(path, stage_prefix())
}

/// The handler for a method and a raw path.
pub open spec fn route_of(method: Seq<char>, path: Seq<char>) -> Route {
    let p = clean_path(path);
    if method == "GET"@ {
        Route::Get
    } else if method == "POST"@ || method == "PUT"@ || method == "DELETE"@ {
        if p != "/wishlists"@ {
            Route::NotFound
        } else if method == "POST"@ {
            Route::Post
        } else if method == "PUT"@ {
            Route::Put
        } else {
            Route::Delete
        }
    } else {
        Route::MethodNotAllowed
    }
}

/// Whether two texts are equal.
pub fn same_text(a: &str, b: &str) -> (r: bool)
    ensures
        r == (a@ == b@),
{
    a.to_string() == b.to_string()
}

/// Whether `s` begins with `p`.
pub fn has_prefix(s: &str, p: &str) -> (r: bool)
    ensures
        r == (p@.len() <= s@.len() && s@.take(p@.len() as int) == p@),
{
    let n = s.unicode_len();
    let k = p.unicode_len();
    if k > n {
        false
    } else {
        let head = s.substring_char(0, k);
        assert(head@ =~= s@.take(k as int));
        same_text(head, p)
    }
}

/// `s` without every leading repetition of `p`.
pub fn trim_start_matches(s: &str, p: &str) -> (r: String)
    ensures
        r@ == strip_prefixes(s@, p@),
{
    let n = s.unicode_len();
    let k = p.unicode_len();
    let pat = p.to_string();
    let mut i: usize = 0;
    let mut done = k == 0;
    assert(s@.skip(0) =~= s@);
    while !done
        invariant
            i <= n,
            n == s@.len(),
            k == p@.len(),
            pat@ == p@,
            strip_prefixes(s@, p@) == strip_prefixes(s@.skip(i as int), p@),
            done ==> strip_prefixes(s@.skip(i as int), p@) == s@.skip(i as int),
            !done ==> k > 0,
        decreases n - i + (if done { 0int } else { 1int }),
    {
        if k > n - i {
            done = true;
        } else {
            let head = s.substring_char(i, i + k).to_string();
            let t = Ghost(s@.skip(i as int));
            assert(t@.take(k as int) =~= head@);
            if head != pat {
                done = true;
            } else {
                assert(t@.skip(k as int) =~= s@.skip(i + k));
                i = i + k;
            }
        }
    }
    let r = s.substring_char(i, n).to_string();
    assert(r@ =~= s@.skip(i as int));
    r
}

/// `s` without every trailing `c`.
pub fn trim_end_char(s: &str, c: char) -> (r: String)
    ensures
        r@ == strip_suffix_char(s@, c),
{
    let n = s.unicode_len();
    let mut j: usize = n;
    assert(s@.take(n as int) =~= s@);
    while j > 0 && s.get_char(j - 1) == c
        invariant
            j <= n,
            n == s@.len(),
            strip_suffix_char(s@, c) == strip_suffix_char(s@.take(j as int), c),
        decreases j,
    {
        assert(s@.take(j as int).drop_last() =~= s@.take(j - 1));
        j = j - 1;
    }
    let r = s.substring_char(0, j).to_string();
    assert(r@ =~= s@.take(j as int));
    r
}

/// A path without its deployment-stage prefix.
pub fn strip_stage(path: &str) -> (r: String)
    ensures
        r@ == clean_path(path@),
{
    trim_start_matches(path, "/prod")
}

/// Selects the handler for a method and a raw path. `GET` goes to the read
/// handler whatever the path; `POST`, `PUT` and `DELETE` are served on
/// `/wishlists` only; other methods are refused.
pub fn route(method: &str, path: &str) -> (r: Route)
    ensures
        r == route_of(method@, path@),
{
    let p = strip_stage(path);
    if same_text(method, "GET") {
        Route::Get
    } else if same_text(method, "POST") || same_text(method, "PUT") || same_text(method, "DELETE") {
        if !same_text(p.as_str(), "/wishlists") {
            Route::NotFound
        } else if same_text(method, "POST") {
            Route::Post
        } else if same_text(method, "PUT") {
            Route::Put
        } else {
            Route::Delete
        }
    } else {
        Route::MethodNotAllowed
    }
}

} // verus!
