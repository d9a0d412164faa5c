//! The headers the static site is served with: the security headers the
//! site relies on (the CSP here is why the Astro config sets
//! `build.inlineStylesheets: "never"`) and its cache rules.

use vstd::prelude::*;

use crate::text::{starts_with, starts_with_spec};

verus! {

pub const STRICT_TRANSPORT_SECURITY: &'static str = "max-age=315360000; includeSubdomains; preload";
pub const CONTENT_SECURITY_POLICY: &'static str = "default-src 'none'; script-src 'self'; style-src 'self'; manifest-src 'self'; \
     connect-src 'self'; img-src 'self'; font-src 'self'; base-uri 'none'; \
     form-action 'none'; frame-ancestors 'none'";
/// microphone=(self) is required by the audio-reactive /visuals/ page.
pub const PERMISSIONS_POLICY: &'static str = "accelerometer=(), ambient-light-sensor=(), autoplay=(), battery=(), camera=(), \
     display-capture=(), encrypted-media=(), fullscreen=(), geolocation=(), gyroscope=(), \
     magnetometer=(), microphone=(self), midi=(), payment=(), picture-in-picture=(), \
     publickey-credentials-get=(), screen-wake-lock=(), serial=(), usb=(), web-share=(), \
     xr-spatial-tracking=()";
pub const X_FRAME_OPTIONS: &'static str = "DENY";
pub const X_CONTENT_TYPE_OPTIONS: &'static str = "nosniff";
pub const X_PERMITTED_CROSS_DOMAIN_POLICIES: &'static str = "none";
pub const REFERRER_POLICY: &'static str = "no-referrer";
/// Astro content-hashes everything under /_astro/, so those files can be
/// cached forever; documents and other unhashed files revalidate quickly.
pub const CACHE_IMMUTABLE: &'static str = "public, max-age=31536000, immutable";
pub const CACHE_SHORT: &'static str = "public, max-age=300, must-revalidate";
/// The path prefix of Astro's content-hashed assets.
pub const HASHED_ASSET_PREFIX: &'static str = "/_astro/";

/// A response header to set (replacing any earlier value).
#[derive(Debug)]
pub struct Header {
    pub name: &'static str,
    pub value: &'static str,
}

pub open spec fn headers_view(headers: Seq<Header>) -> Seq<(Seq<char>, Seq<char>)> {
    headers.map_values(|h: Header| (h.name@, h.value@))
}

/// The bytes of `text/html`.
pub open spec fn text_html() -> Seq<u8> {
    seq![116u8, 101u8, 120u8, 116u8, 47u8, 104u8, 116u8, 109u8, 108u8]
}

/// A content type marks an HTML document when it begins with `text/html`.
pub open spec fn is_html_type(content_type: Option<Seq<u8>>) -> bool {
    content_type matches Some(bytes) && bytes.len() >= 9 && bytes.subrange(0, 9) == text_html()
}

/// The security headers every static response carries.
pub open spec fn security_plan() -> Seq<(Seq<char>, Seq<char>)> {
    seq![
        ("strict-transport-security"@, STRICT_TRANSPORT_SECURITY@),
        ("x-frame-options"@, X_FRAME_OPTIONS@),
        ("x-content-type-options"@, X_CONTENT_TYPE_OPTIONS@),
        ("x-permitted-cross-domain-policies"@, X_PERMITTED_CROSS_DOMAIN_POLICIES@),
        ("referrer-policy"@, REFERRER_POLICY@),
        ("permissions-policy"@, PERMISSIONS_POLICY@),
    ]
}

/// The headers of a static-site response for a request path and the
/// response's content type: the security headers, the CSP on HTML
/// documents, and a cache rule that is immutable for hashed assets only.
pub open spec fn site_plan(path: Seq<char>, content_type: Option<Seq<u8>>) -> Seq<
    (Seq<char>, Seq<char>),
> {
    let with_csp = if is_html_type(content_type) {
        security_plan().push(("content-security-policy"@, CONTENT_SECURITY_POLICY@))
    } else {
        security_plan()
    };
    with_csp.push(
        (
            "cache-control"@,
            if starts_with_spec(path, HASHED_ASSET_PREFIX@) {
                CACHE_IMMUTABLE@
            } else {
                CACHE_SHORT@
            },
        ),
    )
}

/// The headers of uploaded media, which only ever has content-addressed
/// (random) names: security headers plus an immutable cache.
pub open spec fn media_plan() -> Seq<(Seq<char>, Seq<char>)> {
    seq![
        ("strict-transport-security"@, STRICT_TRANSPORT_SECURITY@),
        ("x-frame-options"@, X_FRAME_OPTIONS@),
        ("x-content-type-options"@, X_CONTENT_TYPE_OPTIONS@),
        ("referrer-policy"@, REFERRER_POLICY@),
        ("cache-control"@, CACHE_IMMUTABLE@),
    ]
}

fn is_html(content_type: Option<&[u8]>) -> (r: bool)
    ensures
        r == is_html_type(
            match content_type {
                Some(b) => Some(b@),
                None => None,
            },
        ),
{
    let bytes = match content_type {
        Some(bytes) => bytes,
        None => return false,
    };
    if bytes.len() < 9 {
        return false;
    }
    let html: [u8; 9] = [116, 101, 120, 116, 47, 104, 116, 109, 108];
    assert(html@ =~= text_html());
    let mut i: usize = 0;
    while i < 9
        invariant
            content_type == Some(bytes),
            bytes@.len() >= 9,
            html@ == text_html(),
            i <= 9,
            forall|j: int| 0 <= j < i ==> bytes@[j] == text_html()[j],
        decreases 9 - i,
    {
        if bytes[i] != html[i] {
            assert(bytes@.subrange(0, 9)[i as int] != text_html()[i as int]);
            return false;
        }
        i = i + 1;
    }
    assert(bytes@.subrange(0, 9) =~= text_html());
    true
}

fn push_header(headers: &mut Vec<Header>, name: &'static str, value: &'static str)
    ensures
        headers_view(final(headers)@) == headers_view(old(headers)@).push((name@, value@)),
{
    let ghost before = headers@;
    headers.push(Header { name, value });
    assert(headers_view(headers@) =~= headers_view(before).push((name@, value@)));
}

pub fn site_headers(path: &str, content_type: Option<&[u8]>) -> (r: Vec<Header>)
    ensures
        headers_view(r@) == site_plan(
            path@,
            match content_type {
                Some(b) => Some(b@),
                None => None,
            },
        ),
{
    let hashed = starts_with(path, HASHED_ASSET_PREFIX);
    let html = is_html(content_type);
    let mut headers: Vec<Header> = Vec::new();
    assert(headers_view(headers@) =~= Seq::empty());
    push_header(&mut headers, "strict-transport-security", STRICT_TRANSPORT_SECURITY);
    push_header(&mut headers, "x-frame-options", X_FRAME_OPTIONS);
    push_header(&mut headers, "x-content-type-options", X_CONTENT_TYPE_OPTIONS);
    push_header(
        &mut headers,
        "x-permitted-cross-domain-policies",
        X_PERMITTED_CROSS_DOMAIN_POLICIES,
    );
    push_header(&mut headers, "referrer-policy", REFERRER_POLICY);
    push_header(&mut headers, "permissions-policy", PERMISSIONS_POLICY);
    assert(headers_view(headers@) =~= security_plan());
    if html {
        push_header(&mut headers, "content-security-policy", CONTENT_SECURITY_POLICY);
    }
    if hashed {
        push_header(&mut headers, "cache-control", CACHE_IMMUTABLE);
    } else {
        push_header(&mut headers, "cache-control", CACHE_SHORT);
    }
    headers
}

pub fn media_headers() -> (r: Vec<Header>)
    ensures
        headers_view(r@) == media_plan(),
{
    let mut headers: Vec<Header> = Vec::new();
    assert(headers_view(headers@) =~= Seq::empty());
    push_header(&mut headers, "strict-transport-security", STRICT_TRANSPORT_SECURITY);
    push_header(&mut headers, "x-frame-options", X_FRAME_OPTIONS);
    push_header(&mut headers, "x-content-type-options", X_CONTENT_TYPE_OPTIONS);
    push_header(&mut headers, "referrer-policy", REFERRER_POLICY);
    push_header(&mut headers, "cache-control", CACHE_IMMUTABLE);
    assert(headers_view(headers@) =~= media_plan());
    headers
}

/// The cache rule of the static site depends on the request path alone:
/// every response carries exactly one `cache-control` header, last, which
/// caches for a year exactly when the path lies under `/_astro/` (where
/// file names are content hashes) and asks for revalidation after five
/// minutes otherwise, whatever the content type.
pub proof fn lemma_cache_rule_follows_the_path(
    path: Seq<char>,
    content_type: Option<Seq<u8>>,
    other_type: Option<Seq<u8>>,
)
    ensures
        site_plan(path, content_type).len() > 0,
        site_plan(path, content_type).last() == (
            "cache-control"@,
            if starts_with_spec(path, "/_astro/"@) {
                "public, max-age=31536000, immutable"@
            } else {
                "public, max-age=300, must-revalidate"@
            },
        ),
        forall|i: int|
            0 <= i < site_plan(path, content_type).len() - 1 ==> (#[trigger] site_plan(
                path,
                content_type,
            )[i]).0 != "cache-control"@,
        site_plan(path, content_type).last() == site_plan(path, other_type).last(),
{
    reveal_strlit("cache-control");
    reveal_strlit("strict-transport-security");
    reveal_strlit("x-frame-options");
    reveal_strlit("x-content-type-options");
    reveal_strlit("x-permitted-cross-domain-policies");
    reveal_strlit("referrer-policy");
    reveal_strlit("permissions-policy");
    reveal_strlit("content-security-policy");
    let plan = site_plan(path, content_type);
    assert forall|i: int| 0 <= i < plan.len() - 1 implies (#[trigger] plan[i]).0
        != "cache-control"@ by {
        assert(plan[i].0.len() != "cache-control"@.len());
    }
}


/// Every static response carries the security headers, and an HTML
/// document (and only an HTML document) also carries the content security
/// policy.
pub proof fn lemma_csp_on_html_only(path: Seq<char>, content_type: Option<Seq<u8>>)
    ensures
        site_plan(path, content_type).subrange(0, 6) == seq![
            ("strict-transport-security"@, "max-age=315360000; includeSubdomains; preload"@),
            ("x-frame-options"@, "DENY"@),
            ("x-content-type-options"@, "nosniff"@),
            ("x-permitted-cross-domain-policies"@, "none"@),
            ("referrer-policy"@, "no-referrer"@),
            ("permissions-policy"@, PERMISSIONS_POLICY@),
        ],
        (content_type matches Some(bytes) && bytes.len() >= 9 && bytes.subrange(0, 9) == seq![
            116u8, 101u8, 120u8, 116u8, 47u8, 104u8, 116u8, 109u8, 108u8,
        ]) <==> site_plan(path, content_type).len() == 8,
        site_plan(path, content_type).len() == 8 ==> site_plan(path, content_type)[6] == (
            "content-security-policy"@,
            CONTENT_SECURITY_POLICY@,
        ),
{
    assert(site_plan(path, content_type).subrange(0, 6) =~= security_plan());
}

/// Uploaded media carries the basic security headers and is cached for a
/// year: its names are random, so a name never changes its content.
pub proof fn lemma_media_is_cached_forever()
    ensures
        media_plan().len() == 5,
        media_plan().last() == ("cache-control"@, "public, max-age=31536000, immutable"@),
        media_plan()[0] == ("strict-transport-security"@,
            "max-age=315360000; includeSubdomains; preload"@),
{
}

} // verus!
