//! The API gateway: which backend a request goes to, how it is forwarded,
//! and how static assets are named and typed.

use vstd::prelude::*;
use crate::text::{is_prefix_of, lemma_trim_leading_shape, starts_with, str_eq, string_append, strip_prefix, to_owned_string, trim_leading, trim_start_char};

verus! {

/// Where a request is served.
#[derive(Debug, Clone, Copy, PartialEq, Eq, Structural)]
pub enum Route {
    AuthBackend,
    FilesBackend,
    StaticAssets,
}

/// `/api/auth/…` and any other `/api/…` go to the authentication backend,
/// `/api/files/…` to the file backend, everything else to the static assets.
pub open spec fn route_of(path: Seq<char>) -> Route {
    if is_prefix_of("/api/auth/"@, path) {
        Route::AuthBackend
    } else if is_prefix_of("/api/files/"@, path) {
        Route::FilesBackend
    } else if is_prefix_of("/api/"@, path) {
        Route::AuthBackend
    } else {
        Route::StaticAssets
    }
}

pub fn route_for(path: &str) -> (r: Route)
    ensures
        r == route_of(path@),
{
    if starts_with(path, "/api/auth/") {
        Route::AuthBackend
    } else if starts_with(path, "/api/files/") {
        Route::FilesBackend
    } else if starts_with(path, "/api/") {
        Route::AuthBackend
    } else {
        Route::StaticAssets
    }
}

/// The path forwarded upstream: without its `/api` prefix.
pub open spec fn upstream_path(path: Seq<char>) -> Seq<char> {
    if is_prefix_of("/api"@, path) {
        path.skip(4)
    } else {
        path
    }
}

/// The URL a request is forwarded to: the backend, the path without `/api`,
/// and the query string if there is one.
pub fn upstream_url(backend: &str, path: &str, query: Option<&str>) -> (r: String)
    ensures
        r@ == backend@ + upstream_path(path@) + (match query {
            Some(q) => "?"@ + q@,
            None => Seq::<char>::empty(),
        }),
{
    proof {
        reveal_strlit("/api");
    }
    let mut r = to_owned_string(backend);
    match strip_prefix(path, "/api") {
        Some(rest) => string_append(&mut r, rest.as_str()),
        None => string_append(&mut r, path),
    }
    match query {
        Some(q) => {
            string_append(&mut r, "?");
            string_append(&mut r, q);
            proof {
                assert(r@ =~= backend@ + upstream_path(path@) + ("?"@ + q@));
            }
        },
        None => {
            proof {
                assert(r@ =~= backend@ + upstream_path(path@) + Seq::<char>::empty());
            }
        },
    }
    r
}

/// Response headers copied back to the client: all but `host` and
/// `transfer-encoding`.
pub fn forwards_response_header(name: &str) -> (r: bool)
    ensures
        r == (name@ != "host"@ && name@ != "transfer-encoding"@),
{
    !str_eq(name, "host") && !str_eq(name, "transfer-encoding")
}

/// The asset a path names: `index.html` for the root, else the path without
/// its leading slashes.
pub open spec fn asset_of(path: Seq<char>) -> Seq<char> {
    if path == "/"@ {
        "index.html"@
    } else {
        trim_leading(path, '/')
    }
}

pub fn asset_path(path: &str) -> (r: String)
    ensures
        r@ == asset_of(path@),
{
    if str_eq(path, "/") {
        to_owned_string("index.html")
    } else {
        trim_start_char(path, '/')
    }
}

/// The MIME type `mime_guess` gives a path (from its extension), with
/// `application/octet-stream` when it knows none.
pub uninterp spec fn mime_type_of(path: Seq<char>) -> Seq<char>;

/// `mime_guess::from_path(path).first_or_octet_stream()`, as text.
#[verifier::external_body]
fn guess_mime(path: &str) -> (r: String)
    ensures
        r@ == mime_type_of(path@),
{
    mime_guess::from_path(path).first_or_octet_stream().to_string()
}

/// The asset a request path asks for, with its `Content-Type`.
#[derive(Debug)]
pub struct StaticAsset {
    pub path: String,
    pub content_type: String,
}

pub fn static_asset(request_path: &str) -> (a: StaticAsset)
    ensures
        a.path@ == asset_of(request_path@),
        a.content_type@ == mime_type_of(asset_of(request_path@)),
{
    let path = asset_path(request_path);
    let content_type = guess_mime(path.as_str());
    StaticAsset { path, content_type }
}

/// How a static request is answered.
#[derive(Debug, Clone, Copy, PartialEq, Eq, Structural)]
pub enum AssetAnswer {
    /// The asset asked for.
    Asset,
    /// `index.html`, for frontend routes that are no asset.
    Index,
    /// Nothing: 404.
    NotFound,
}

/// The asset when it exists, else `index.html` when that exists, else 404.
pub fn asset_answer(asset_found: bool, index_found: bool) -> (a: AssetAnswer)
    ensures
        a == (if asset_found {
            AssetAnswer::Asset
        } else if index_found {
            AssetAnswer::Index
        } else {
            AssetAnswer::NotFound
        }),
{
    if asset_found {
        AssetAnswer::Asset
    } else if index_found {
        AssetAnswer::Index
    } else {
        AssetAnswer::NotFound
    }
}

/// Every `/api/files/…` path goes to the file backend; every other `/api/…`
/// path to the authentication backend; everything else to the static assets.
pub proof fn law_routes_by_prefix(path: Seq<char>)
    ensures
        is_prefix_of("/api/files/"@, path) ==> route_of(path) == Route::FilesBackend,
        is_prefix_of("/api/"@, path) && !is_prefix_of("/api/files/"@, path) ==> route_of(path) == Route::AuthBackend,
        !is_prefix_of("/api/"@, path) ==> route_of(path) == Route::StaticAssets,
{
    reveal_strlit("/api/files/");
    reveal_strlit("/api/auth/");
    reveal_strlit("/api/");
    if is_prefix_of("/api/files/"@, path) {
        assert(path.take(11)[5] == 'f');
        assert(path[5] == 'f');
        if is_prefix_of("/api/auth/"@, path) {
            assert(path.take(10)[5] == 'a');
        }
    }
    if is_prefix_of("/api/auth/"@, path) {
        assert(path.take(5) =~= path.take(10).take(5));
        assert(path.take(5) =~= "/api/"@);
    }
    if is_prefix_of("/api/files/"@, path) {
        assert(path.take(5) =~= path.take(11).take(5));
        assert(path.take(5) =~= "/api/"@);
    }
}

/// For any path but `/`, the asset is the path itself without its leading
/// slashes, every other character kept as it is: the path is some slashes
/// followed by the asset, and the asset does not begin with a slash.
pub proof fn law_asset_is_path_without_leading_slashes(path: Seq<char>)
    requires
        path != "/"@,
    ensures
        asset_of(path).len() <= path.len(),
        path =~= Seq::new((path.len() - asset_of(path).len()) as nat, |i: int| '/') + asset_of(path),
        asset_of(path).len() > 0 ==> asset_of(path)[0] != '/',
{
    lemma_trim_leading_shape(path, '/');
}

} // verus!
