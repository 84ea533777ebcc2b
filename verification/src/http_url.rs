//! URLs of the web: absolute, with the scheme `http` or `https`.

use crate::form::{encoded_byte, encoded_bytes, form_text, pair_text, pair_texts};
use crate::http::is_header_text;
use crate::text::{optional_text, same_text};
use url::{Position, Url};
use vstd::prelude::*;
use vstd::utf8::encode_utf8;

verus! {

/// A parsed URL: what stands before the query, the query and the fragment.
pub struct UrlModel {
    pub scheme: Seq<char>,
    pub front: Seq<char>,
    pub query: Option<Seq<char>>,
    pub fragment: Option<Seq<char>>,
}

impl UrlModel {
    /// The URL up to its fragment.
    pub open spec fn before_fragment(self) -> Seq<char> {
        match self.query {
            Some(query) => self.front + seq!['?'] + query,
            None => self.front,
        }
    }

    /// The whole URL.
    pub open spec fn text(self) -> Seq<char> {
        match self.fragment {
            Some(fragment) => self.before_fragment() + seq!['#'] + fragment,
            None => self.before_fragment(),
        }
    }

    /// Whether the scheme is `http` or `https`.
    pub open spec fn is_web(self) -> bool {
        self.scheme == "http"@ || self.scheme == "https"@
    }

    /// The URL with `pairs` added to its query.
    pub open spec fn with_pairs(self, pairs: Seq<(Seq<char>, Seq<char>)>) -> UrlModel {
        let query = match self.query {
            Some(query) if query.len() > 0 && pairs.len() > 0 => query + seq!['&'] + form_text(
                pairs,
            ),
            Some(query) if query.len() > 0 => query,
            _ => form_text(pairs),
        };
        UrlModel { query: Some(query), ..self }
    }
}

/// Whether `pairs` can be added to the URL. The places where its query and its
/// fragment start are kept in 32 bits.
pub open spec fn has_room_for(url: UrlModel, pairs: Seq<(Seq<char>, Seq<char>)>) -> bool {
    &&& url.query is None ==> encode_utf8(url.front).len() <= u32::MAX
    &&& url.fragment is Some ==> {
        &&& encode_utf8(url.before_fragment()).len() < u32::MAX
        &&& encode_utf8(url.with_pairs(pairs).before_fragment()).len() <= u32::MAX
    }
}

/// What `url::Url::parse` makes of a text.
pub uninterp spec fn url_model(input: Seq<char>) -> Option<UrlModel>;

/// How many bytes a text may have to be read as a URL. The places of the parts
/// of a URL are kept in 32 bits; up to this size they fit, however much the
/// text grows when it is brought into its normal form.
pub const MAX_URL_INPUT: usize = 0x1000_0000;

/// What a text is as a URL of the web.
pub open spec fn web_url(input: Seq<char>) -> Option<UrlModel> {
    match url_model(input) {
        Some(url) if encode_utf8(input).len() <= MAX_URL_INPUT && url.is_web() => Some(url),
        _ => None,
    }
}

/// The model of an optional URL.
pub open spec fn optional_url(url: Option<HttpUrl>) -> Option<UrlModel> {
    match url {
        Some(url) => Some(url@),
        None => None,
    }
}

/// The parts of a parsed URL.
struct UrlParts {
    scheme: String,
    front: String,
    query: Option<String>,
    fragment: Option<String>,
}

impl UrlParts {
    spec fn model(self) -> UrlModel {
        UrlModel {
            scheme: self.scheme@,
            front: self.front@,
            query: optional_text(self.query),
            fragment: optional_text(self.fragment),
        }
    }
}

/// Calls `url::Url::parse` and takes the URL apart. Claimed: whether it
/// succeeds, and the parts of the URL, depend on the text alone; a URL of the
/// web is serialised without control characters. Longer texts are left out:
/// with gigabytes of text the calls would overflow.
#[verifier::external_body]
fn parse_url(input: &str) -> (res: Option<UrlParts>)
    requires
        encode_utf8(input@).len() <= MAX_URL_INPUT,
    ensures
        res is Some <==> url_model(input@) is Some,
        res matches Some(parts) ==> {
            &&& url_model(input@) == Some(parts.model())
            &&& parts.model().is_web() ==> is_header_text(parts.model().text())
        },
{
    let url = Url::parse(input).ok()?;
    Some(UrlParts {
        scheme: url.scheme().to_owned(),
        front: url[..Position::AfterPath].to_owned(),
        query: url.query().map(str::to_owned),
        fragment: url.fragment().map(str::to_owned),
    })
}

/// Calls `url::Url::query_pairs_mut` and `extend_pairs` on the URL that
/// `input` is parsed to. Claimed: the pairs follow what the query held before,
/// in the syntax of forms, and everything else stays. A URL whose query or
/// fragment would start beyond four gigabytes is left out: there the call would
/// panic.
#[verifier::external_body]
fn extend_query(input: &str, pairs: &Vec<(String, String)>) -> (res: String)
    requires
        encode_utf8(input@).len() <= MAX_URL_INPUT,
        url_model(input@) is Some,
        has_room_for(url_model(input@)->0, pair_texts(pairs@)),
    ensures
        res@ == url_model(input@)->0.with_pairs(pair_texts(pairs@)).text(),
{
    let mut url = Url::parse(input).expect("the input was parsed before");
    url.query_pairs_mut().extend_pairs(pairs);
    url.into()
}

/// An absolute URL with the scheme `http` or `https`.
pub struct HttpUrl {
    source: String,
    parts: UrlParts,
}

impl View for HttpUrl {
    type V = UrlModel;

    closed spec fn view(&self) -> UrlModel {
        self.parts.model()
    }
}

impl HttpUrl {
    #[verifier::type_invariant]
    spec fn was_parsed(&self) -> bool {
        &&& encode_utf8(self.source@).len() <= MAX_URL_INPUT
        &&& url_model(self.source@) == Some(self.parts.model())
        &&& self.parts.model().is_web()
        &&& is_header_text(self.parts.model().text())
    }

    /// Reads a URL: it has to be absolute, with the scheme `http` or `https`,
    /// and not longer than [`MAX_URL_INPUT`].
    pub fn parse(input: &str) -> (res: Option<HttpUrl>)
        ensures
            optional_url(res) == web_url(input@),
    {
        if input.as_bytes().len() > MAX_URL_INPUT {
            return None;
        }
        match parse_url(input) {
            Some(parts) => {
                if same_text(parts.scheme.as_str(), "http") || same_text(
                    parts.scheme.as_str(),
                    "https",
                ) {
                    Some(HttpUrl { source: input.to_owned(), parts })
                } else {
                    None
                }
            },
            None => None,
        }
    }

    /// The URL as text.
    pub fn text(&self) -> (res: String)
        ensures
            res@ == self@.text(),
            is_header_text(res@),
    {
        proof {
            use_type_invariant(self);
        }
        let mut res = self.parts.front.clone();
        match &self.parts.query {
            Some(query) => {
                res.append("?");
                res.append(query.as_str());
            },
            None => {},
        }
        match &self.parts.fragment {
            Some(fragment) => {
                res.append("#");
                res.append(fragment.as_str());
            },
            None => {},
        }
        proof {
            reveal_strlit("?");
            reveal_strlit("#");
            assert("?"@ =~= seq!['?']);
            assert("#"@ =~= seq!['#']);
        }
        res
    }

    /// Whether the URL is reached through TLS and names no part of a page.
    pub fn is_secure_without_fragment(&self) -> (res: bool)
        ensures
            res == (self@.scheme == "https"@ && self@.fragment is None),
    {
        same_text(self.parts.scheme.as_str(), "https") && self.parts.fragment.is_none()
    }

    /// Whether `pairs` can be added to the query of the URL.
    pub fn has_room(&self, pairs: &Vec<(String, String)>) -> (res: bool)
        ensures
            res == has_room_for(self@, pair_texts(pairs@)),
    {
        let limit: u128 = 0xffff_ffff;
        let front: u128 = self.parts.front.as_str().as_bytes().len() as u128;
        if self.parts.query.is_none() && front > limit {
            return false;
        }
        if self.parts.fragment.is_none() {
            return true;
        }
        let ghost all = pair_texts(pairs@);
        let ghost added = self@.with_pairs(all);
        let mut size: u128 = front + 1;
        let mut joins: bool = false;
        match &self.parts.query {
            Some(query) => {
                let len: u128 = query.as_str().as_bytes().len() as u128;
                proof {
                    size_of_query(self@.front, query@);
                }
                if front + 1 + len >= limit {
                    return false;
                }
                if !query.as_str().is_empty() {
                    joins = pairs.len() > 0;
                    size += len;
                }
            },
            None => {
                if front >= limit {
                    return false;
                }
            },
        }
        if joins {
            size += 1;
        }
        proof {
            size_with_pairs(self@, all);
            assert(all.take(0) =~= seq![]);
        }
        let mut i: usize = 0;
        while i < pairs.len()
            invariant
                i <= pairs@.len(),
                limit == u32::MAX,
                all == pair_texts(pairs@),
                added == self@.with_pairs(all),
                size <= limit + 1,
                self@.fragment is Some,
                encode_utf8(added.before_fragment()).len() == size - form_text(
                    all.take(i as int),
                ).len() + form_text(all).len(),
            decreases pairs@.len() - i,
        {
            let name: u128 = encoded_size(pairs[i].0.as_str());
            let value: u128 = encoded_size(pairs[i].1.as_str());
            let ghost front = all.take(i as int + 1);
            assert(front.drop_last() =~= all.take(i as int));
            assert(front.last() == (pairs@[i as int].0@, pairs@[i as int].1@));
            size += name + value + 1;
            if i > 0 {
                size += 1;
            }
            i += 1;
            if size > limit {
                proof {
                    forms_grow(all, i as int);
                }
                return false;
            }
        }
        assert(all.take(i as int) =~= all);
        size <= limit
    }

    /// The URL with `pairs` added to its query.
    pub fn with_query_pairs(&self, pairs: &Vec<(String, String)>) -> (res: String)
        requires
            has_room_for(self@, pair_texts(pairs@)),
        ensures
            res@ == self@.with_pairs(pair_texts(pairs@)).text(),
            is_header_text(res@),
    {
        proof {
            use_type_invariant(self);
            added_pairs_are_header_text(self@, pair_texts(pairs@));
        }
        extend_query(self.source.as_str(), pairs)
    }
}

impl Clone for HttpUrl {
    fn clone(&self) -> (res: HttpUrl)
        ensures
            res@ == self@,
    {
        proof {
            use_type_invariant(self);
        }
        HttpUrl {
            source: self.source.clone(),
            parts: UrlParts {
                scheme: self.parts.scheme.clone(),
                front: self.parts.front.clone(),
                query: self.parts.query.clone(),
                fragment: self.parts.fragment.clone(),
            },
        }
    }
}

/// How many bytes a name or a value takes up in a form.
fn encoded_size(s: &str) -> (res: u128)
    ensures
        res == encoded_bytes(encode_utf8(s@)).len(),
        res <= 3 * usize::MAX,
{
    let bytes = s.as_bytes();
    let mut size: u128 = 0;
    let mut i: usize = 0;
    assert(bytes@.take(0) =~= seq![]);
    while i < bytes.len()
        invariant
            i <= bytes.len(),
            bytes@ == encode_utf8(s@),
            size == encoded_bytes(bytes@.take(i as int)).len(),
            size <= 3 * i,
        decreases bytes@.len() - i,
    {
        assert(bytes@.take(i as int + 1).drop_last() =~= bytes@.take(i as int));
        let byte: u8 = bytes[i];
        // Letters, digits, `*`, `-`, `.`, `_`, and the space.
        let alone = (65 <= byte && byte <= 90) || (97 <= byte && byte <= 122) || (48 <= byte && byte
            <= 57) || byte == 42 || byte == 45 || byte == 46 || byte == 95 || byte == 32;
        size += if alone {
            1
        } else {
            3
        };
        i += 1;
    }
    assert(bytes@.take(i as int) =~= bytes@);
    size
}

proof fn bytes_of_concat(a: Seq<char>, b: Seq<char>)
    ensures
        encode_utf8(a + b) == encode_utf8(a) + encode_utf8(b),
    decreases a.len(),
{
    if a.len() == 0 {
        assert(a + b =~= b);
        assert(encode_utf8(a) =~= seq![]);
    } else {
        assert((a + b).drop_first() =~= a.drop_first() + b);
        bytes_of_concat(a.drop_first(), b);
        assert(encode_utf8(a + b) =~= encode_utf8(a) + encode_utf8(b));
    }
}

/// A text without characters beyond ASCII.
spec fn is_ascii(s: Seq<char>) -> bool {
    forall|i: int| 0 <= i < s.len() ==> (#[trigger] s[i] as u32) < 0x80
}

proof fn ascii_has_one_byte_each(s: Seq<char>)
    requires
        is_ascii(s),
    ensures
        encode_utf8(s).len() == s.len(),
    decreases s.len(),
{
    if s.len() > 0 {
        let rest = s.drop_first();
        assert forall|i: int| 0 <= i < rest.len() implies (#[trigger] rest[i] as u32) < 0x80 by {
            assert(rest[i] == s[i + 1]);
        }
        ascii_has_one_byte_each(rest);
        assert((s[0] as u32) < 0x80);
    }
}

proof fn encoded_bytes_are_ascii(bytes: Seq<u8>)
    ensures
        is_ascii(encoded_bytes(bytes)),
    decreases bytes.len(),
{
    if bytes.len() > 0 {
        encoded_bytes_are_ascii(bytes.drop_last());
        assert(is_ascii(encoded_byte(bytes.last())));
    }
}

proof fn form_text_is_ascii(pairs: Seq<(Seq<char>, Seq<char>)>)
    ensures
        is_ascii(form_text(pairs)),
    decreases pairs.len(),
{
    if pairs.len() > 0 {
        let last = pairs.last();
        encoded_bytes_are_ascii(encode_utf8(last.0));
        encoded_bytes_are_ascii(encode_utf8(last.1));
        assert(is_ascii(pair_text(last)));
        form_text_is_ascii(pairs.drop_last());
    }
}

proof fn size_of_query(front: Seq<char>, query: Seq<char>)
    ensures
        encode_utf8(front + seq!['?'] + query).len() == encode_utf8(front).len() + 1
            + encode_utf8(query).len(),
{
    bytes_of_concat(front, seq!['?']);
    bytes_of_concat(front + seq!['?'], query);
    ascii_has_one_byte_each(seq!['?']);
}

proof fn size_with_pairs(url: UrlModel, pairs: Seq<(Seq<char>, Seq<char>)>)
    ensures
        encode_utf8(url.with_pairs(pairs).before_fragment()).len() == encode_utf8(url.front).len()
            + 1 + form_text(pairs).len() + (match url.query {
            Some(query) if query.len() > 0 => encode_utf8(query).len() + (if pairs.len() > 0 {
                1int
            } else {
                0
            }),
            _ => 0,
        }),
{
    let form = form_text(pairs);
    form_text_is_ascii(pairs);
    ascii_has_one_byte_each(form);
    ascii_has_one_byte_each(seq!['&']);
    size_of_query(url.front, url.with_pairs(pairs).query->0);
    if let Some(query) = url.query {
        bytes_of_concat(query, seq!['&']);
        bytes_of_concat(query + seq!['&'], form);
    }
}

proof fn forms_grow(pairs: Seq<(Seq<char>, Seq<char>)>, i: int)
    requires
        0 <= i <= pairs.len(),
    ensures
        form_text(pairs.take(i)).len() <= form_text(pairs).len(),
    decreases pairs.len() - i,
{
    if i < pairs.len() {
        assert(pairs.take(i + 1).drop_last() =~= pairs.take(i));
        forms_grow(pairs, i + 1);
    } else {
        assert(pairs.take(i) =~= pairs);
    }
}

proof fn encoded_bytes_are_header_text(bytes: Seq<u8>)
    ensures
        is_header_text(encoded_bytes(bytes)),
    decreases bytes.len(),
{
    if bytes.len() > 0 {
        encoded_bytes_are_header_text(bytes.drop_last());
        assert(is_header_text(encoded_byte(bytes.last())));
    }
}

proof fn form_text_is_header_text(pairs: Seq<(Seq<char>, Seq<char>)>)
    ensures
        is_header_text(form_text(pairs)),
    decreases pairs.len(),
{
    if pairs.len() > 0 {
        let last = pairs.last();
        encoded_bytes_are_header_text(encode_utf8(last.0));
        encoded_bytes_are_header_text(encode_utf8(last.1));
        assert(is_header_text(pair_text(last)));
        form_text_is_header_text(pairs.drop_last());
    }
}

/// A URL that can stand in a header still can after pairs were added to its
/// query, whatever the pairs hold.
pub proof fn added_pairs_are_header_text(url: UrlModel, pairs: Seq<(Seq<char>, Seq<char>)>)
    requires
        is_header_text(url.text()),
    ensures
        is_header_text(url.with_pairs(pairs).text()),
{
    form_text_is_header_text(pairs);
    let text = url.text();
    let before = url.before_fragment();
    assert forall|i: int| 0 <= i < before.len() implies crate::http::is_header_char(
        #[trigger] before[i],
    ) by {
        assert(text[i] == before[i]);
    }
    assert(is_header_text(before));
    assert forall|i: int| 0 <= i < url.front.len() implies crate::http::is_header_char(
        #[trigger] url.front[i],
    ) by {
        assert(before[i] == url.front[i]);
    }
    if let Some(query) = url.query {
        assert forall|i: int| 0 <= i < query.len() implies crate::http::is_header_char(
            #[trigger] query[i],
        ) by {
            assert(before[url.front.len() + 1 + i] == query[i]);
        }
    }
    if let Some(fragment) = url.fragment {
        assert forall|i: int| 0 <= i < fragment.len() implies crate::http::is_header_char(
            #[trigger] fragment[i],
        ) by {
            assert(text[before.len() + 1 + i] == fragment[i]);
        }
    }
}

/// The text of a URL is what stands before the query, then `?` and the query,
/// then `#` and the fragment, each where there is one.
pub proof fn text_holds_the_parts(url: UrlModel)
    ensures
        ({
            let text = url.text();
            let front = url.front.len() as int;
            let end = front + (match url.query {
                Some(query) => 1 + query.len(),
                None => 0,
            });
            &&& text.take(front) == url.front
            &&& url.query matches Some(query) ==> text[front] == '?' && text.subrange(
                front + 1,
                end,
            ) == query
            &&& url.fragment matches Some(fragment) ==> text[end] == '#' && text.skip(end + 1)
                == fragment
            &&& url.fragment is None ==> text.len() == end
        }),
{
    let text = url.text();
    let front = url.front.len() as int;
    assert(text.take(front) =~= url.front);
    if let Some(query) = url.query {
        assert(text.subrange(front + 1, front + 1 + query.len()) =~= query);
    }
    if let Some(fragment) = url.fragment {
        assert(text.skip(url.before_fragment().len() as int + 1) =~= fragment);
    }
}

/// Adding pairs changes the query alone: the query keeps what it held, and the
/// form of the pairs follows.
pub proof fn added_pairs_follow_the_query(url: UrlModel, pairs: Seq<(Seq<char>, Seq<char>)>)
    ensures
        ({
            let added = url.with_pairs(pairs);
            let form = form_text(pairs);
            &&& added.scheme == url.scheme
            &&& added.front == url.front
            &&& added.fragment == url.fragment
            &&& added.query is Some
            &&& form.len() <= added.query->0.len()
            &&& added.query->0.skip(added.query->0.len() - form.len()) == form || pairs.len() == 0
            &&& url.query matches Some(query) ==> query.is_prefix_of(added.query->0)
            &&& (url.query is None || url.query->0.len() == 0) ==> added.query->0 == form
        }),
{
    let added = url.with_pairs(pairs);
    let form = form_text(pairs);
    assert(added.query->0.skip(added.query->0.len() - form.len()) =~= form || pairs.len() == 0);
    if let Some(query) = url.query {
        assert(query =~= added.query->0.take(query.len() as int));
    }
}

/// A text is a URL of the web just if it can be read as a URL, its scheme is
/// `http` or `https`, and it is not too long.
pub proof fn web_urls_have_the_scheme_http_or_https(input: Seq<char>)
    ensures
        web_url(input) is Some <==> {
            &&& url_model(input) is Some
            &&& url_model(input)->0.scheme == "http"@ || url_model(input)->0.scheme == "https"@
            &&& encode_utf8(input).len() <= 0x1000_0000
        },
        web_url(input) is Some ==> web_url(input) == url_model(input),
{
}

/// Every URL that stays below four gigabytes with the pairs has room for them.
pub proof fn urls_below_four_gigabytes_have_room(
    url: UrlModel,
    pairs: Seq<(Seq<char>, Seq<char>)>,
)
    requires
        encode_utf8(url.with_pairs(pairs).text()).len() <= u32::MAX,
    ensures
        has_room_for(url, pairs),
{
    let added = url.with_pairs(pairs);
    let query = added.query->0;
    size_of_query(url.front, query);
    size_with_pairs(url, pairs);
    if let Some(fragment) = url.fragment {
        bytes_of_concat(added.before_fragment(), seq!['#']);
        bytes_of_concat(added.before_fragment() + seq!['#'], fragment);
        ascii_has_one_byte_each(seq!['#']);
    }
    if let Some(query) = url.query {
        size_of_query(url.front, query);
        if query.len() == 0 {
            assert(encode_utf8(query) =~= seq![]);
        }
    }
}

} // verus!
