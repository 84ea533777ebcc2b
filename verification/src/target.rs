//! Where a launch lands: always within Tobira.

use crate::form::optional_str;
use crate::http::{is_header_text, is_header_value, BaseUrl};
use crate::text::{chars_of, concat};
use vstd::prelude::*;

verus! {

/// The ASCII control characters.
pub open spec fn is_ascii_control(c: char) -> bool {
    (c as u32) < 0x20 || c as u32 == 0x7f
}

/// Whether `target` is a page of Tobira that a browser can be sent to: `base`
/// followed by a path that is none of the LTI endpoints and holds no control
/// characters.
pub open spec fn is_landing_page(target: Seq<char>, base: Seq<char>) -> bool {
    let path = target.skip(base.len() as int);
    &&& base.is_prefix_of(target)
    &&& path.len() > 0 && path[0] == '/'
    &&& !("/~lti/"@.is_prefix_of(path))
    &&& forall|i: int| 0 <= i < path.len() ==> !is_ascii_control(#[trigger] path[i])
}

/// `target` if a browser can be sent there, else the start page.
pub open spec fn resolved_target(target: Seq<char>, base: Seq<char>) -> Seq<char> {
    if is_landing_page(target, base) {
        target
    } else {
        base
    }
}

/// The page of the series with this Opencast ID.
pub open spec fn series_url(base: Seq<char>, opencast_series_id: Seq<char>) -> Seq<char> {
    base + "/!s/:"@ + opencast_series_id
}

/// The page of the series that the placement names, or else the platform's
/// target.
pub open spec fn launch_target(
    series: Option<Seq<char>>,
    target_link_uri: Seq<char>,
    base: Seq<char>,
) -> Seq<char> {
    match series {
        Some(series) => series_url(base, series),
        None => resolved_target(target_link_uri, base),
    }
}

/// Where a launch redirects to: a target that cannot stand in a header gives
/// way to the start page.
pub open spec fn location_of_launch(
    series: Option<Seq<char>>,
    target_link_uri: Seq<char>,
    base: Seq<char>,
) -> Seq<char> {
    let target = launch_target(series, target_link_uri, base);
    if is_header_text(target) {
        target
    } else {
        base
    }
}

/// Whether `chars` has `prefix` at `start`.
fn has_at(chars: &Vec<char>, start: usize, prefix: &Vec<char>) -> (res: bool)
    requires
        start <= chars@.len(),
    ensures
        res == prefix@.is_prefix_of(chars@.skip(start as int)),
{
    if chars.len() - start < prefix.len() {
        return false;
    }
    let mut i: usize = 0;
    while i < prefix.len()
        invariant
            i <= prefix@.len(),
            start + prefix@.len() <= chars.len(),
            forall|j: int| 0 <= j < i ==> prefix@[j] == chars@[start + j],
        decreases prefix@.len() - i,
    {
        if prefix[i] != chars[start + i] {
            assert(chars@.skip(start as int)[i as int] == chars@[start + i]);
            return false;
        }
        i += 1;
    }
    assert(prefix@ =~= chars@.skip(start as int).take(prefix@.len() as int));
    true
}

/// Picks a safe target for a launch, defaulting to `base`, the start page. It
/// guards against three things:
///
/// - Open redirects: the target must be `base` followed by a path that starts
///   with `/`. A common prefix alone is not enough, as
///   `https://<base>.evil.com/` has it too.
/// - Bouncing into the tool's own endpoints: platforms commonly default the
///   target to the tool's URL, below `/~lti/`, which a browser cannot just
///   visit. Such targets become the start page.
/// - Header injection: a path with control characters is refused.
pub fn resolve_target(target: &str, base: &str) -> (res: String)
    ensures
        res@ == resolved_target(target@, base@),
{
    let chars = chars_of(target);
    let start = chars_of(base);
    let endpoints = chars_of("/~lti/");
    assert(chars@.skip(0) =~= chars@);
    if !has_at(&chars, 0, &start) {
        return base.to_owned();
    }
    let from: usize = start.len();
    let ghost path = target@.skip(from as int);
    if chars.len() == from || chars[from] != '/' || has_at(&chars, from, &endpoints) {
        assert(chars@.len() > from ==> path[0] == chars@[from as int]);
        return base.to_owned();
    }
    assert(path[0] == '/');
    let mut i: usize = from;
    while i < chars.len()
        invariant
            from <= i <= chars@.len(),
            from == base@.len(),
            chars@ == target@,
            path == target@.skip(from as int),
            forall|j: int| 0 <= j < i - from ==> !is_ascii_control(path[j]),
        decreases chars@.len() - i,
    {
        let code: u32 = chars[i] as u32;
        assert(path[i - from] == chars@[i as int]);
        if code < 0x20 || code == 0x7f {
            return base.to_owned();
        }
        i += 1;
    }
    target.to_owned()
}

/// Returns `target` if it points within our own Tobira instance, otherwise
/// the base URL. Prevents the launch from being abused as an open redirect.
pub fn safe_target(target: &str, base: &BaseUrl) -> (res: String)
    ensures
        res@ == resolved_target(target@, base@),
        is_header_text(res@),
{
    let res = resolve_target(target, base.as_str());
    proof {
        resolved_target_is_header_text(target@, base@);
    }
    res
}

/// Builds the URL of a series page from an Opencast series ID, using the
/// direct series route.
pub fn series_landing(base: &str, opencast_series_id: &str) -> (res: String)
    ensures
        res@ == series_url(base@, opencast_series_id@),
{
    let mut res = concat(base, "/!s/:");
    res.append(opencast_series_id);
    res
}

/// Decides where a launch lands: on a series page if the placement names a
/// series, otherwise on the platform's target. What cannot be the value of a
/// header becomes the start page.
pub fn launch_location(series: Option<&str>, target_link_uri: &str, base: &BaseUrl) -> (res: String)
    ensures
        res@ == location_of_launch(optional_str(series), target_link_uri@, base@),
{
    let target = match series {
        Some(series) => series_landing(base.as_str(), series),
        None => safe_target(target_link_uri, base),
    };
    if is_header_value(target.as_str()) {
        target
    } else {
        base.as_str().to_owned()
    }
}

/// Whether `location` is the start page or a path below it.
pub open spec fn is_within(location: Seq<char>, base: Seq<char>) -> bool {
    &&& base.is_prefix_of(location)
    &&& location.len() > base.len() ==> location[base.len() as int] == '/'
}

/// No open redirect: whatever the platform asks for, the result is the start
/// page or a path below it, and never an LTI endpoint.
pub proof fn resolved_target_stays_within(target: Seq<char>, base: Seq<char>)
    ensures
        is_within(resolved_target(target, base), base),
        !((base + "/~lti/"@).is_prefix_of(resolved_target(target, base))),
{
    reveal_strlit("/~lti/");
    let res = resolved_target(target, base);
    if is_landing_page(target, base) {
        let path = target.skip(base.len() as int);
        assert(path[0] == target[base.len() as int]);
        if (base + "/~lti/"@).is_prefix_of(target) {
            assert("/~lti/"@ =~= path.take("/~lti/"@.len() as int)) by {
                assert forall|i: int| 0 <= i < "/~lti/"@.len() implies "/~lti/"@[i] == path[i] by {
                    assert((base + "/~lti/"@)[base.len() + i] == target[base.len() + i]);
                }
            }
        }
    } else {
        assert(base =~= base.take(base.len() as int));
    }
}

/// The result is always a valid value of a `Location` header.
pub proof fn resolved_target_is_header_text(target: Seq<char>, base: Seq<char>)
    requires
        is_header_text(base),
    ensures
        is_header_text(resolved_target(target, base)),
{
    if is_landing_page(target, base) {
        let path = target.skip(base.len() as int);
        assert forall|i: int| 0 <= i < target.len() implies crate::http::is_header_char(
            #[trigger] target[i],
        ) by {
            if i < base.len() {
                assert(base[i] == target[i]);
            } else {
                assert(path[i - base.len()] == target[i]);
            }
        }
    }
}

/// A target that was resolved once is kept as it is.
pub proof fn resolving_is_idempotent(target: Seq<char>, base: Seq<char>)
    ensures
        resolved_target(resolved_target(target, base), base) == resolved_target(target, base),
{
}

/// A launch never leaves Tobira: the location is the start page or a path
/// below it, and a valid value of a header, whatever series the placement
/// names and whatever target the platform asks for.
pub proof fn launch_stays_within(
    series: Option<Seq<char>>,
    target_link_uri: Seq<char>,
    base: Seq<char>,
)
    requires
        is_header_text(base),
    ensures
        is_within(location_of_launch(series, target_link_uri, base), base),
        is_header_text(location_of_launch(series, target_link_uri, base)),
{
    resolved_target_stays_within(target_link_uri, base);
    resolved_target_is_header_text(target_link_uri, base);
    assert(base =~= base.take(base.len() as int));
    if let Some(id) = series {
        reveal_strlit("/!s/:");
        let url = series_url(base, id);
        assert(base =~= url.take(base.len() as int));
        assert(url[base.len() as int] == '/');
    }
}

/// A page of Tobira is kept: the base followed by a path that starts with `/`,
/// is none of the LTI endpoints and holds no control characters.
pub proof fn page_of_tobira_is_kept(base: Seq<char>, path: Seq<char>)
    requires
        path.len() > 0,
        path[0] == '/',
        !("/~lti/"@.is_prefix_of(path)),
        forall|i: int|
            0 <= i < path.len() ==> (#[trigger] path[i]) as u32 >= 0x20 && path[i] as u32 != 0x7f,
    ensures
        resolved_target(base + path, base) == base + path,
{
    let target = base + path;
    assert(target.skip(base.len() as int) =~= path);
    assert(base =~= target.take(base.len() as int));
    assert forall|i: int| 0 <= i < path.len() implies !is_ascii_control(#[trigger] path[i]) by {
        assert(path[i] as u32 >= 0x20 && path[i] as u32 != 0x7f);
    }
}

/// Anything else becomes the start page: what does not start with the base,
/// has no path after it, is an LTI endpoint or holds a control character.
pub proof fn other_targets_become_the_start_page(target: Seq<char>, base: Seq<char>, i: int)
    requires
        ({
            let path = target.skip(base.len() as int);
            ||| !base.is_prefix_of(target)
            ||| target.len() == base.len()
            ||| path[0] != '/'
            ||| "/~lti/"@.is_prefix_of(path)
            ||| base.len() <= i < target.len() && ((target[i] as u32) < 0x20 || target[i] as u32
                == 0x7f)
        }),
    ensures
        resolved_target(target, base) == base,
{
    let path = target.skip(base.len() as int);
    if base.len() <= i < target.len() {
        assert(path[i - base.len()] == target[i]);
    }
}

/// The series of the placement decides where a launch lands, for every target:
/// on the page of the series, or on the start page if the ID cannot stand in a
/// header. Two launches with the same series land on the same page.
pub proof fn series_decides_where_a_launch_lands(
    id: Seq<char>,
    target: Seq<char>,
    other_target: Seq<char>,
    base: Seq<char>,
)
    requires
        is_header_text(base),
    ensures
        is_header_text(id) ==> location_of_launch(Some(id), target, base) == base + "/!s/:"@ + id,
        !is_header_text(id) ==> location_of_launch(Some(id), target, base) == base,
        location_of_launch(Some(id), target, base) == location_of_launch(
            Some(id),
            other_target,
            base,
        ),
{
    reveal_strlit("/!s/:");
    let url = base + "/!s/:"@ + id;
    let start = base.len() + "/!s/:"@.len();
    if is_header_text(id) {
        assert forall|i: int| 0 <= i < url.len() implies crate::http::is_header_char(
            #[trigger] url[i],
        ) by {
            if i < base.len() {
                assert(url[i] == base[i]);
            } else if i >= start {
                assert(url[i] == id[i - start]);
            }
        }
    } else {
        let i = choose|i: int|
            0 <= i < id.len() && !crate::http::is_header_char(#[trigger] id[i]);
        assert(url[start + i] == id[i]);
    }
}

/// Without a series, a launch lands on its target where that is kept.
pub proof fn launch_without_series_lands_on_its_target(target: Seq<char>, base: Seq<char>)
    requires
        is_header_text(base),
    ensures
        location_of_launch(None, target, base) == resolved_target(target, base),
{
    resolved_target_is_header_text(target, base);
}

/// Each series has its own page.
pub proof fn series_have_different_pages(base: Seq<char>, a: Seq<char>, b: Seq<char>)
    requires
        series_url(base, a) == series_url(base, b),
    ensures
        a == b,
{
    let front = base + "/!s/:"@;
    assert(series_url(base, a).skip(front.len() as int) =~= a);
    assert(series_url(base, b).skip(front.len() as int) =~= b);
}

/// The page of a series is the base, the direct route, and the ID as it is.
pub proof fn series_page_is_its_direct_route(base: Seq<char>, id: Seq<char>)
    ensures
        series_url(base, id) == base + "/!s/:"@ + id,
{
}

} // verus!
