//! What the tool answers to a browser.

use crate::text::optional_text;
use hyper::header::HeaderValue;
use vstd::prelude::*;

verus! {

/// A tab, or anything that is not an ASCII control character.
pub open spec fn is_header_char(c: char) -> bool {
    c == '\t' || (c as u32 >= 0x20 && c as u32 != 0x7f)
}

/// Whether `s` can be the value of a header.
pub open spec fn is_header_text(s: Seq<char>) -> bool {
    forall|i: int| 0 <= i < s.len() ==> is_header_char(#[trigger] s[i])
}

/// Calls `hyper::header::HeaderValue::from_str`. Claimed: it accepts a text
/// just if all its bytes are tabs, or at least 32 and not 127; these are the
/// texts without ASCII control characters other than tabs.
#[verifier::external_body]
pub(crate) fn is_header_value(s: &str) -> (res: bool)
    ensures
        res == is_header_text(s@),
{
    HeaderValue::from_str(s).is_ok()
}

/// The answer to a request.
pub enum Reply {
    /// 404.
    NotFound,
    /// 400, with a message for the user.
    BadRequest(String),
    /// 500.
    InternalServerError,
    /// 302 to `location`, with a `Set-Cookie` header where there is one to set.
    Found { location: String, set_cookie: Option<String> },
    /// 200 with a JSON document.
    Json(String),
}

/// [`Reply`] with texts in place of strings.
pub enum ReplyModel {
    NotFound,
    BadRequest(Seq<char>),
    InternalServerError,
    Found { location: Seq<char>, set_cookie: Option<Seq<char>> },
    Json(Seq<char>),
}

impl View for Reply {
    type V = ReplyModel;

    open spec fn view(&self) -> ReplyModel {
        match self {
            Reply::NotFound => ReplyModel::NotFound,
            Reply::BadRequest(message) => ReplyModel::BadRequest(message@),
            Reply::InternalServerError => ReplyModel::InternalServerError,
            Reply::Found { location, set_cookie } => ReplyModel::Found {
                location: location@,
                set_cookie: optional_text(*set_cookie),
            },
            Reply::Json(document) => ReplyModel::Json(document@),
        }
    }
}

/// Refuses a request with a message.
pub fn bad_request(message: &str) -> (res: Reply)
    ensures
        res@ == ReplyModel::BadRequest(message@),
{
    Reply::BadRequest(message.to_owned())
}

/// The URL under which Tobira is reached: where its paths are appended to.
pub struct BaseUrl {
    text: String,
}

impl View for BaseUrl {
    type V = Seq<char>;

    closed spec fn view(&self) -> Seq<char> {
        self.text@
    }
}

impl BaseUrl {
    #[verifier::type_invariant]
    spec fn can_be_a_location(&self) -> bool {
        is_header_text(self.text@)
    }

    /// A base URL has to be a possible value of a `Location` header.
    pub fn new(text: &str) -> (res: Option<BaseUrl>)
        ensures
            res is Some <==> is_header_text(text@),
            res matches Some(base) ==> base@ == text@,
    {
        if is_header_value(text) {
            Some(BaseUrl { text: text.to_owned() })
        } else {
            None
        }
    }

    /// The URL itself.
    pub fn as_str(&self) -> (res: &str)
        ensures
            res@ == self@,
            is_header_text(self@),
    {
        proof {
            use_type_invariant(self);
        }
        self.text.as_str()
    }
}

/// The model of an answer is the same answer, with the same texts.
pub proof fn model_of_a_reply_is_the_reply(text: String, cookie: Option<String>)
    ensures
        Reply::NotFound@ == ReplyModel::NotFound,
        Reply::InternalServerError@ == ReplyModel::InternalServerError,
        Reply::BadRequest(text)@ == ReplyModel::BadRequest(text@),
        Reply::Json(text)@ == ReplyModel::Json(text@),
        (Reply::Found { location: text, set_cookie: cookie })@ is Found,
        (Reply::Found { location: text, set_cookie: cookie })@->location == text@,
        cookie is None ==> (Reply::Found { location: text, set_cookie: cookie })@->set_cookie
            is None,
        cookie is Some ==> (Reply::Found { location: text, set_cookie: cookie })@->set_cookie
            == Some(cookie->0@),
{
}

} // verus!
