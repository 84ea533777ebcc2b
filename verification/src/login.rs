//! The OIDC third-party-initiated login that begins an LTI 1.3 launch.
//!
//! The platform sends `iss`, `login_hint` and `target_link_uri` (and usually
//! `client_id` and `lti_message_hint`). The tool issues a `state` and a
//! `nonce`, remembers them for the launch, and redirects the browser to the
//! authorization endpoint of the platform.

use crate::config::{
    first_platform, found_platform_is_configured, unconfigured_platform_is_not_found, LtiConfig,
    PlatformModel,
};
use crate::form::{field_of, form_pairs, form_text, pair_texts, FormParams};
use crate::http::{bad_request, is_header_text, BaseUrl, Reply, ReplyModel};
use crate::http_url::{has_room_for, urls_below_four_gigabytes_have_room, web_url};
use crate::registration::{
    optional_row, resolution, resolve_platform, RegistrationRow, ResolvedModel, ResolvedPlatform,
    RowModel,
};
use crate::store::Store;
use crate::text::{concat, optional_text, same_text};
use crate::token::{is_token, random_token, RandomnessUnavailable};
use vstd::prelude::*;
use vstd::utf8::encode_utf8;

verus! {

/// What is remembered of a login until its launch.
pub struct PendingLogin {
    pub nonce: String,
    pub target_link_uri: String,
    pub issuer: String,
    pub client_id: String,
}

/// [`PendingLogin`] with texts in place of strings.
pub struct LoginModel {
    pub nonce: Seq<char>,
    pub target_link_uri: Seq<char>,
    pub issuer: Seq<char>,
    pub client_id: Seq<char>,
}

impl View for PendingLogin {
    type V = LoginModel;

    open spec fn view(&self) -> LoginModel {
        LoginModel {
            nonce: self.nonce@,
            target_link_uri: self.target_link_uri@,
            issuer: self.issuer@,
            client_id: self.client_id@,
        }
    }
}

/// The logins that wait for their launch, each under its `state`.
pub type LoginCache = Store<PendingLogin>;

/// Refuses every request while LTI is not enabled.
pub fn check_enabled(config: &LtiConfig) -> (res: Result<(), Reply>)
    ensures
        res is Ok <==> config.enabled,
        res matches Err(reply) ==> reply@ == ReplyModel::NotFound,
{
    if config.enabled {
        Ok(())
    } else {
        Err(Reply::NotFound)
    }
}

/// Where the parameters of a request are.
pub enum RawParams {
    /// In the body, which has to be read first.
    Body,
    /// In the query.
    Query(Vec<u8>),
}

/// Looks for request parameters in the form-encoded body (POST) or in the
/// query string (anything else): a login may be initiated either way.
pub fn locate_raw_params(method: &str, query: Option<&str>) -> (res: RawParams)
    ensures
        res is Body <==> method@ == "POST"@,
        res matches RawParams::Query(raw) ==> raw@ == (match query {
            Some(query) => encode_utf8(query@),
            None => seq![],
        }),
{
    if same_text(method, "POST") {
        RawParams::Body
    } else {
        match query {
            Some(query) => RawParams::Query(query.as_bytes_vec()),
            None => RawParams::Query(Vec::new()),
        }
    }
}

/// The body of a request, or the refusal if it could not be read.
pub fn received_body(body: Option<Vec<u8>>) -> (res: Result<Vec<u8>, Reply>)
    ensures
        match (body, res) {
            (Some(body), Ok(raw)) => raw@ == body@,
            (None, Err(reply)) => reply@ == ReplyModel::BadRequest("could not read request body"@),
            _ => false,
        },
{
    match body {
        Some(body) => Ok(body),
        None => Err(bad_request("could not read request body")),
    }
}

/// A valid request for a login.
pub struct LoginRequest {
    pub platform: ResolvedPlatform,
    pub login_hint: String,
    pub target_link_uri: String,
    pub lti_message_hint: Option<String>,
}

/// [`LoginRequest`] with texts in place of strings.
pub struct LoginRequestModel {
    pub platform: ResolvedModel,
    pub login_hint: Seq<char>,
    pub target_link_uri: Seq<char>,
    pub lti_message_hint: Option<Seq<char>>,
}

impl View for LoginRequest {
    type V = LoginRequestModel;

    open spec fn view(&self) -> LoginRequestModel {
        LoginRequestModel {
            platform: self.platform@,
            login_hint: self.login_hint@,
            target_link_uri: self.target_link_uri@,
            lti_message_hint: optional_text(self.lti_message_hint),
        }
    }
}

/// The login that the parameters `pairs` ask for, or the answer that refuses
/// it, where `row` is the registration of the issuer. The platform is looked
/// up by issuer and client, or by the issuer alone where the request names no
/// client.
pub open spec fn requested_login(
    platforms: Seq<PlatformModel>,
    pairs: Seq<(Seq<char>, Seq<char>)>,
    row: Option<RowModel>,
) -> Result<LoginRequestModel, ReplyModel> {
    match (
        field_of(pairs, "iss"@),
        field_of(pairs, "login_hint"@),
        field_of(pairs, "target_link_uri"@),
    ) {
        (Some(iss), Some(login_hint), Some(target_link_uri)) => match resolution(
            platforms,
            iss,
            field_of(pairs, "client_id"@),
            row,
        ) {
            Some(platform) => Ok(
                LoginRequestModel {
                    platform,
                    login_hint,
                    target_link_uri,
                    lti_message_hint: field_of(pairs, "lti_message_hint"@),
                },
            ),
            None => Err(ReplyModel::BadRequest("LTI login: unknown platform"@)),
        },
        _ => Err(
            ReplyModel::BadRequest("LTI login: missing 'iss', 'login_hint' or 'target_link_uri'"@),
        ),
    }
}

impl LoginRequestModel {
    /// What is remembered of the login.
    pub open spec fn pending(self, nonce: Seq<char>) -> LoginModel {
        LoginModel {
            nonce,
            target_link_uri: self.target_link_uri,
            issuer: self.platform.issuer,
            client_id: self.platform.client_id,
        }
    }

    /// The authentication request to the platform: the implicit `id_token`
    /// flow, answered by a form that is posted to the launch endpoint.
    pub open spec fn auth_pairs(
        self,
        base: Seq<char>,
        state: Seq<char>,
        nonce: Seq<char>,
    ) -> Seq<(Seq<char>, Seq<char>)> {
        let pairs = seq![
            ("scope"@, "openid"@),
            ("response_type"@, "id_token"@),
            ("response_mode"@, "form_post"@),
            ("prompt"@, "none"@),
            ("client_id"@, self.platform.client_id),
            ("redirect_uri"@, base + "/~lti/launch"@),
            ("login_hint"@, self.login_hint),
            ("state"@, state),
            ("nonce"@, nonce),
        ];
        match self.lti_message_hint {
            Some(hint) => pairs.push(("lti_message_hint"@, hint)),
            None => pairs,
        }
    }

    /// Whether the authorization URL has room for the request.
    pub open spec fn fits(self, base: Seq<char>, state: Seq<char>, nonce: Seq<char>) -> bool {
        has_room_for(self.platform.auth_login_url, self.auth_pairs(base, state, nonce))
    }

    /// The redirect to the authorization endpoint of the platform.
    pub open spec fn redirect(
        self,
        base: Seq<char>,
        state: Seq<char>,
        nonce: Seq<char>,
    ) -> ReplyModel {
        ReplyModel::Found {
            location: self.platform.auth_login_url.with_pairs(
                self.auth_pairs(base, state, nonce),
            ).text(),
            set_cookie: None,
        }
    }
}

/// The issuer whose registration a request for a login needs: none if the
/// request is incomplete, or if a configured platform fits.
pub open spec fn needed_registration(
    platforms: Seq<PlatformModel>,
    pairs: Seq<(Seq<char>, Seq<char>)>,
) -> Option<Seq<char>> {
    match (
        field_of(pairs, "iss"@),
        field_of(pairs, "login_hint"@),
        field_of(pairs, "target_link_uri"@),
    ) {
        (Some(iss), Some(_), Some(_)) if first_platform(
            platforms,
            iss,
            field_of(pairs, "client_id"@),
        ) is None => Some(iss),
        _ => None,
    }
}

/// Finds the issuer whose registration a request for a login needs.
pub fn registration_needed(config: &LtiConfig, raw: &[u8]) -> (res: Option<String>)
    ensures
        optional_text(res) == needed_registration(config.platform_models(), form_pairs(raw@)),
{
    let params = FormParams::parse(raw);
    match (params.get("iss"), params.get("login_hint"), params.get("target_link_uri")) {
        (Some(iss), Some(_), Some(_)) => match config.lookup(iss, params.get("client_id")) {
            Some(_) => None,
            None => Some(iss.to_owned()),
        },
        _ => None,
    }
}

/// Reads a request for a login from its raw parameters.
pub fn read_login_request(config: &LtiConfig, raw: &[u8], row: Option<RegistrationRow>) -> (res:
    Result<LoginRequest, Reply>)
    ensures
        match (res, requested_login(
            config.platform_models(),
            form_pairs(raw@),
            optional_row(row),
        )) {
            (Ok(request), Ok(model)) => request@ == model,
            (Err(reply), Err(model)) => reply@ == model,
            _ => false,
        },
{
    login_request_of(config, &FormParams::parse(raw), row)
}

/// Reads a request for a login from its parameters.
pub fn login_request_of(
    config: &LtiConfig,
    params: &FormParams,
    row: Option<RegistrationRow>,
) -> (res: Result<LoginRequest, Reply>)
    ensures
        match (res, requested_login(config.platform_models(), params@, optional_row(row))) {
            (Ok(request), Ok(model)) => request@ == model,
            (Err(reply), Err(model)) => reply@ == model,
            _ => false,
        },
{
    let (iss, login_hint, target_link_uri) = match (
        params.get("iss"),
        params.get("login_hint"),
        params.get("target_link_uri"),
    ) {
        (Some(iss), Some(login_hint), Some(target_link_uri)) => (iss, login_hint, target_link_uri),
        _ => {
            return Err(
                bad_request("LTI login: missing 'iss', 'login_hint' or 'target_link_uri'"),
            );
        },
    };
    match resolve_platform(config, iss, params.get("client_id"), row) {
        Some(platform) => Ok(
            LoginRequest {
                platform,
                login_hint: login_hint.to_owned(),
                target_link_uri: target_link_uri.to_owned(),
                lti_message_hint: match params.get("lti_message_hint") {
                    Some(hint) => Some(hint.to_owned()),
                    None => None,
                },
            },
        ),
        None => Err(bad_request("LTI login: unknown platform")),
    }
}

/// What a login comes to: an entry for the launch to find, and an answer to
/// the browser.
pub struct IssuedLogin {
    pub login: PendingLogin,
    pub reply: Reply,
}

/// One pair of strings.
fn pair(name: &str, value: &str) -> (res: (String, String))
    ensures
        res.0@ == name@,
        res.1@ == value@,
{
    (name.to_owned(), value.to_owned())
}

impl LoginRequest {
    /// Issues the login with the given `state` and `nonce`. Returns `None` if
    /// the authorization URL would exceed the size that URLs can have.
    pub fn issue_with(&self, base: &BaseUrl, state: &str, nonce: &str) -> (res: Option<IssuedLogin>)
        ensures
            res is Some <==> self@.fits(base@, state@, nonce@),
            res matches Some(issued) ==> {
                &&& issued.login@ == self@.pending(nonce@)
                &&& issued.reply@ == self@.redirect(base@, state@, nonce@)
                &&& issued.reply matches Reply::Found { location, .. } && is_header_text(location@)
            },
    {
        let redirect_uri = concat(base.as_str(), "/~lti/launch");
        let mut pairs: Vec<(String, String)> = Vec::new();
        pairs.push(pair("scope", "openid"));
        pairs.push(pair("response_type", "id_token"));
        pairs.push(pair("response_mode", "form_post"));
        pairs.push(pair("prompt", "none"));
        pairs.push(pair("client_id", self.platform.client_id.as_str()));
        pairs.push(pair("redirect_uri", redirect_uri.as_str()));
        pairs.push(pair("login_hint", self.login_hint.as_str()));
        pairs.push(pair("state", state));
        pairs.push(pair("nonce", nonce));
        match &self.lti_message_hint {
            Some(hint) => pairs.push(pair("lti_message_hint", hint.as_str())),
            None => {},
        }
        assert(pair_texts(pairs@) =~= self@.auth_pairs(base@, state@, nonce@));
        if !self.platform.auth_login_url.has_room(&pairs) {
            return None;
        }
        let location = self.platform.auth_login_url.with_query_pairs(&pairs);
        Some(
            IssuedLogin {
                login: PendingLogin {
                    nonce: nonce.to_owned(),
                    target_link_uri: self.target_link_uri.clone(),
                    issuer: self.platform.issuer.clone(),
                    client_id: self.platform.client_id.clone(),
                },
                reply: Reply::Found { location, set_cookie: None },
            },
        )
    }
}

/// Why a login could not be issued, although the request is valid.
#[derive(Clone, Copy, Debug, PartialEq, Eq, Structural)]
pub enum LoginFailure {
    /// There are no random bytes for `state` and `nonce`.
    RandomnessUnavailable,
    /// The authorization URL would exceed the size that URLs can have.
    UrlTooLong,
}

/// Whether a login was issued: with new tokens, remembered and redirected.
pub open spec fn login_issued(
    request: LoginRequestModel,
    base: Seq<char>,
    state: Seq<char>,
    nonce: Seq<char>,
    before: Map<Seq<char>, PendingLogin>,
    after: Map<Seq<char>, PendingLogin>,
    reply: ReplyModel,
) -> bool {
    &&& is_token(state)
    &&& is_token(nonce)
    &&& request.fits(base, state, nonce)
    &&& reply == request.redirect(base, state, nonce)
    &&& exists|login: PendingLogin|
        login@ == request.pending(nonce) && after == #[trigger] before.insert(state, login)
}

/// Issues a login with what came of the attempts to get a `state` and a
/// `nonce`: remembers it for the launch to verify, and redirects to the
/// platform.
pub fn issue_login_with(
    request: &LoginRequest,
    base: &BaseUrl,
    state: Result<String, RandomnessUnavailable>,
    nonce: Result<String, RandomnessUnavailable>,
    logins: &mut LoginCache,
) -> (res: Result<Reply, LoginFailure>)
    ensures
        match (state, nonce) {
            (Ok(state), Ok(nonce)) if request@.fits(base@, state@, nonce@) => {
                &&& res matches Ok(reply) && reply@ == request@.redirect(base@, state@, nonce@)
                &&& res matches Ok(Reply::Found { location, .. }) && is_header_text(location@)
                &&& exists|login: PendingLogin|
                    login@ == request@.pending(nonce@) && final(logins)@ == #[trigger] old(
                        logins,
                    )@.insert(state@, login)
            },
            (Ok(_), Ok(_)) => {
                &&& res == Err::<Reply, LoginFailure>(LoginFailure::UrlTooLong)
                &&& final(logins)@ == old(logins)@
            },
            _ => {
                &&& res == Err::<Reply, LoginFailure>(LoginFailure::RandomnessUnavailable)
                &&& final(logins)@ == old(logins)@
            },
        },
{
    let (state, nonce) = match (state, nonce) {
        (Ok(state), Ok(nonce)) => (state, nonce),
        _ => return Err(LoginFailure::RandomnessUnavailable),
    };
    match request.issue_with(base, state.as_str(), nonce.as_str()) {
        Some(issued) => {
            let ghost key = state@;
            let ghost login = issued.login;
            logins.insert(state, issued.login);
            assert(logins@ == old(logins)@.insert(key, login));
            Ok(issued.reply)
        },
        None => Err(LoginFailure::UrlTooLong),
    }
}

/// Handles a request for a login, once its raw parameters have been read and
/// `row` is the registration of its issuer: resolves the platform, issues
/// `state` and `nonce`, remembers them for the launch to verify, and redirects
/// to the platform. Whether there are random bytes for the two is up to the
/// machine: [`issue_login_with`] says what comes of each outcome.
pub fn handle_login(
    config: &LtiConfig,
    base: &BaseUrl,
    raw: &[u8],
    row: Option<RegistrationRow>,
    logins: &mut LoginCache,
) -> (res: Result<Reply, LoginFailure>)
    ensures
        !config.enabled ==> {
            &&& res matches Ok(reply) && reply@ == ReplyModel::NotFound
            &&& final(logins)@ == old(logins)@
        },
        config.enabled ==> match requested_login(
            config.platform_models(),
            form_pairs(raw@),
            optional_row(row),
        ) {
            Err(refusal) => {
                &&& res matches Ok(reply) && reply@ == refusal
                &&& final(logins)@ == old(logins)@
            },
            Ok(request) => match res {
                Ok(reply) => exists|state: Seq<char>, nonce: Seq<char>|
                    #[trigger] login_issued(
                        request,
                        base@,
                        state,
                        nonce,
                        old(logins)@,
                        final(logins)@,
                        reply@,
                    ),
                Err(LoginFailure::RandomnessUnavailable) => final(logins)@ == old(logins)@,
                Err(LoginFailure::UrlTooLong) => final(logins)@ == old(logins)@ && exists|
                    state: Seq<char>,
                    nonce: Seq<char>,
                |
                    is_token(state) && is_token(nonce) && !#[trigger] request.fits(
                        base@,
                        state,
                        nonce,
                    ),
            },
        },
{
    match check_enabled(config) {
        Ok(()) => {},
        Err(refusal) => return Ok(refusal),
    }
    let request = match read_login_request(config, raw, row) {
        Ok(request) => request,
        Err(refusal) => return Ok(refusal),
    };
    let state = random_token();
    let nonce = random_token();
    let ghost tokens = (state, nonce);
    let res = issue_login_with(&request, base, state, nonce, logins);
    proof {
        if let (Ok(state), Ok(nonce)) = tokens {
            assert(request@.fits(base@, state@, nonce@) ==> login_issued(
                request@,
                base@,
                state@,
                nonce@,
                old(logins)@,
                logins@,
                res->Ok_0@,
            ));
        }
    }
    res
}

/// The platform is sent the very `state` and `nonce` that the launch will be
/// held to, and is asked to post the launch to the tool.
pub proof fn redirect_carries_what_is_remembered(
    request: LoginRequestModel,
    base: Seq<char>,
    state: Seq<char>,
    nonce: Seq<char>,
)
    ensures
        request.auth_pairs(base, state, nonce).contains(("state"@, state)),
        request.auth_pairs(base, state, nonce).contains(("nonce"@, request.pending(nonce).nonce)),
        request.auth_pairs(base, state, nonce).contains(
            ("client_id"@, request.pending(nonce).client_id),
        ),
        request.auth_pairs(base, state, nonce).contains(
            ("redirect_uri"@, base + "/~lti/launch"@),
        ),
{
    let pairs = request.auth_pairs(base, state, nonce);
    assert(pairs[4] == ("client_id"@, request.platform.client_id));
    assert(pairs[5] == ("redirect_uri"@, base + "/~lti/launch"@));
    assert(pairs[7] == ("state"@, state));
    assert(pairs[8] == ("nonce"@, nonce));
}

/// A `state` is good for one launch: what was remembered under it is handed
/// out once, unchanged, and no other login is touched.
pub proof fn state_is_good_for_one_launch(
    logins: Map<Seq<char>, PendingLogin>,
    state: Seq<char>,
    login: PendingLogin,
)
    ensures
        logins.insert(state, login).dom().contains(state),
        logins.insert(state, login)[state] == login,
        !logins.insert(state, login).remove(state).dom().contains(state),
        forall|other: Seq<char>|
            other != state && logins.dom().contains(other) ==> {
                &&& #[trigger] logins.insert(state, login).remove(state).dom().contains(other)
                &&& logins.insert(state, login).remove(state)[other] == logins[other]
            },
{
}

/// A platform that is neither configured nor registered cannot log in: so it
/// is for an issuer whose registration was removed.
pub proof fn unknown_platform_cannot_log_in(
    platforms: Seq<PlatformModel>,
    pairs: Seq<(Seq<char>, Seq<char>)>,
)
    requires
        field_of(pairs, "iss"@) is Some,
        field_of(pairs, "login_hint"@) is Some,
        field_of(pairs, "target_link_uri"@) is Some,
        first_platform(
            platforms,
            field_of(pairs, "iss"@)->0,
            field_of(pairs, "client_id"@),
        ) is None,
    ensures
        requested_login(platforms, pairs, None) == Err::<LoginRequestModel, ReplyModel>(
            ReplyModel::BadRequest("LTI login: unknown platform"@),
        ),
{
}

/// A registered platform can log in: where no configured platform fits, the
/// login is issued for the client of the registration, at its authorization
/// endpoint.
pub proof fn registered_platform_can_log_in(
    platforms: Seq<PlatformModel>,
    pairs: Seq<(Seq<char>, Seq<char>)>,
    row: RowModel,
)
    requires
        field_of(pairs, "iss"@) is Some,
        field_of(pairs, "login_hint"@) is Some,
        field_of(pairs, "target_link_uri"@) is Some,
        first_platform(
            platforms,
            field_of(pairs, "iss"@)->0,
            field_of(pairs, "client_id"@),
        ) is None,
        field_of(pairs, "client_id"@) is Some ==> field_of(pairs, "client_id"@)->0
            == row.client_id,
        web_url(row.auth_login_url) is Some,
        web_url(row.keyset_url) is Some,
    ensures
        requested_login(platforms, pairs, Some(row)) is Ok,
        ({
            let platform = requested_login(platforms, pairs, Some(row))->Ok_0.platform;
            &&& platform.issuer == field_of(pairs, "iss"@)->0
            &&& platform.client_id == row.client_id
            &&& platform.auth_login_url == web_url(row.auth_login_url)->0
            &&& platform.keyset_url == web_url(row.keyset_url)->0
        }),
{
}

/// Where a request for a login needs no registration, none makes a difference.
pub proof fn registration_matters_only_where_needed(
    platforms: Seq<PlatformModel>,
    pairs: Seq<(Seq<char>, Seq<char>)>,
    row: Option<RowModel>,
)
    requires
        needed_registration(platforms, pairs) is None,
    ensures
        requested_login(platforms, pairs, row) == requested_login(platforms, pairs, None),
{
}

/// A request for a login is accepted just if it has an issuer, a login hint and
/// a target, and the issuer and the client lead to a platform. What is accepted
/// is what the request says.
pub proof fn login_request_says_who_and_where(
    platforms: Seq<PlatformModel>,
    pairs: Seq<(Seq<char>, Seq<char>)>,
    row: Option<RowModel>,
)
    ensures
        ({
            let iss = field_of(pairs, "iss"@);
            let hint = field_of(pairs, "login_hint"@);
            let target = field_of(pairs, "target_link_uri"@);
            let complete = iss is Some && hint is Some && target is Some;
            let platform = resolution(platforms, iss->0, field_of(pairs, "client_id"@), row);
            let res = requested_login(platforms, pairs, row);
            &&& !complete ==> res == Err::<LoginRequestModel, ReplyModel>(
                ReplyModel::BadRequest(
                    "LTI login: missing 'iss', 'login_hint' or 'target_link_uri'"@,
                ),
            )
            &&& complete && platform is None ==> res == Err::<LoginRequestModel, ReplyModel>(
                ReplyModel::BadRequest("LTI login: unknown platform"@),
            )
            &&& complete && platform is Some ==> {
                &&& res is Ok
                &&& Some(res->Ok_0.platform) == platform
                &&& Some(res->Ok_0.login_hint) == hint
                &&& Some(res->Ok_0.target_link_uri) == target
                &&& res->Ok_0.lti_message_hint == field_of(pairs, "lti_message_hint"@)
            }
        }),
{
}

/// The authentication request of every accepted login asks for the implicit
/// flow, answered by a form, without a prompt; it names the client, where to
/// post the launch, the `state` and the `nonce`; and it sends back the hints
/// that the platform gave. It says nothing else.
pub proof fn authentication_request_is_complete(
    platforms: Seq<PlatformModel>,
    asked: Seq<(Seq<char>, Seq<char>)>,
    row: Option<RowModel>,
    base: Seq<char>,
    state: Seq<char>,
    nonce: Seq<char>,
)
    requires
        requested_login(platforms, asked, row) is Ok,
    ensures
        ({
            let request = requested_login(platforms, asked, row)->Ok_0;
            let pairs = request.auth_pairs(base, state, nonce);
            let hint = field_of(asked, "lti_message_hint"@);
            &&& field_of(asked, "login_hint"@) is Some
            &&& pairs.contains(("login_hint"@, field_of(asked, "login_hint"@)->0))
            &&& pairs.contains(("scope"@, "openid"@))
            &&& pairs.contains(("response_type"@, "id_token"@))
            &&& pairs.contains(("response_mode"@, "form_post"@))
            &&& pairs.contains(("prompt"@, "none"@))
            &&& pairs.contains(("client_id"@, request.platform.client_id))
            &&& pairs.contains(("redirect_uri"@, base + "/~lti/launch"@))
            &&& pairs.contains(("state"@, state))
            &&& pairs.contains(("nonce"@, nonce))
            &&& hint is Some ==> pairs.contains(("lti_message_hint"@, hint->0))
            &&& hint is Some <==> exists|i: int|
                0 <= i < pairs.len() && (#[trigger] pairs[i]).0 == "lti_message_hint"@
            &&& pairs.len() == (if hint is Some {
                10int
            } else {
                9
            })
        }),
{
    let request = requested_login(platforms, asked, row)->Ok_0;
    let pairs = request.auth_pairs(base, state, nonce);
    assert(pairs[0] == ("scope"@, "openid"@));
    assert(pairs[1] == ("response_type"@, "id_token"@));
    assert(pairs[2] == ("response_mode"@, "form_post"@));
    assert(pairs[3] == ("prompt"@, "none"@));
    assert(pairs[4] == ("client_id"@, request.platform.client_id));
    assert(pairs[5] == ("redirect_uri"@, base + "/~lti/launch"@));
    assert(pairs[6] == ("login_hint"@, request.login_hint));
    assert(pairs[7] == ("state"@, state));
    assert(pairs[8] == ("nonce"@, nonce));
    names_of_the_request_differ();
    if let Some(hint) = request.lti_message_hint {
        assert(pairs[9] == ("lti_message_hint"@, hint));
    } else {
        assert forall|i: int| 0 <= i < pairs.len() implies (#[trigger] pairs[i]).0
            != "lti_message_hint"@ by {}
    }
}

proof fn names_of_the_request_differ()
    ensures
        "lti_message_hint"@ != "scope"@,
        "lti_message_hint"@ != "response_type"@,
        "lti_message_hint"@ != "response_mode"@,
        "lti_message_hint"@ != "prompt"@,
        "lti_message_hint"@ != "client_id"@,
        "lti_message_hint"@ != "redirect_uri"@,
        "lti_message_hint"@ != "login_hint"@,
        "lti_message_hint"@ != "state"@,
        "lti_message_hint"@ != "nonce"@,
{
    reveal_strlit("lti_message_hint");
    reveal_strlit("scope");
    reveal_strlit("response_type");
    reveal_strlit("response_mode");
    reveal_strlit("prompt");
    reveal_strlit("client_id");
    reveal_strlit("redirect_uri");
    reveal_strlit("login_hint");
    reveal_strlit("state");
    reveal_strlit("nonce");
    assert("lti_message_hint"@.len() == 16);
}

/// What is remembered of a login is what its launch is held to: the `nonce`,
/// the target, and the platform by its issuer and client.
pub proof fn login_remembers_what_the_launch_needs(request: LoginRequestModel, nonce: Seq<char>)
    ensures
        request.pending(nonce).nonce == nonce,
        request.pending(nonce).target_link_uri == request.target_link_uri,
        request.pending(nonce).issuer == request.platform.issuer,
        request.pending(nonce).client_id == request.platform.client_id,
{
}

/// The browser is sent to the authorization endpoint of the platform, with the
/// authentication request in the query and what the endpoint already had; no
/// cookie is set. Whether the login is issued depends on the size of that URL
/// alone: it is, if the URL stays below four gigabytes.
pub proof fn login_leads_to_the_authorization_endpoint(
    request: LoginRequestModel,
    base: Seq<char>,
    state: Seq<char>,
    nonce: Seq<char>,
)
    ensures
        request.redirect(base, state, nonce) is Found,
        request.redirect(base, state, nonce)->set_cookie is None,
        ({
            let location = request.redirect(base, state, nonce)->location;
            let url = request.platform.auth_login_url;
            let form = form_text(request.auth_pairs(base, state, nonce));
            let old = match url.query {
                Some(query) if query.len() > 0 => query + seq!['&'],
                _ => seq![],
            };
            let end = match url.fragment {
                Some(fragment) => seq!['#'] + fragment,
                None => seq![],
            };
            &&& location == url.front + seq!['?'] + old + form + end
            &&& encode_utf8(location).len() <= u32::MAX ==> request.fits(base, state, nonce)
        }),
{
    let pairs = request.auth_pairs(base, state, nonce);
    let url = request.platform.auth_login_url;
    let location = request.redirect(base, state, nonce)->location;
    let old = match url.query {
        Some(query) if query.len() > 0 => query + seq!['&'],
        _ => seq![],
    };
    let end = match url.fragment {
        Some(fragment) => seq!['#'] + fragment,
        None => seq![],
    };
    assert(pairs.len() > 0);
    assert(location =~= url.front + seq!['?'] + old + form_text(pairs) + end);
    if encode_utf8(location).len() <= u32::MAX {
        urls_below_four_gigabytes_have_room(url, pairs);
    }
}

/// An issued login is found under its `state`, and no other login is touched.
pub proof fn issued_login_is_kept_under_its_state(
    request: LoginRequestModel,
    base: Seq<char>,
    state: Seq<char>,
    nonce: Seq<char>,
    before: Map<Seq<char>, PendingLogin>,
    after: Map<Seq<char>, PendingLogin>,
    reply: ReplyModel,
    other: Seq<char>,
)
    requires
        login_issued(request, base, state, nonce, before, after, reply),
    ensures
        is_token(state),
        is_token(nonce),
        after.dom().contains(state),
        after[state]@.nonce == nonce,
        after[state]@.target_link_uri == request.target_link_uri,
        after[state]@.issuer == request.platform.issuer,
        after[state]@.client_id == request.platform.client_id,
        other != state ==> after.dom().contains(other) == before.dom().contains(other),
        other != state && before.dom().contains(other) ==> after[other] == before[other],
        reply == request.redirect(base, state, nonce),
{
}

/// The registration of the issuer is asked for where the request is complete
/// and no configured platform has its issuer and, where it names one, its
/// client.
pub proof fn registration_is_needed_for_unconfigured_platforms(
    platforms: Seq<PlatformModel>,
    pairs: Seq<(Seq<char>, Seq<char>)>,
)
    requires
        field_of(pairs, "iss"@) is Some,
        field_of(pairs, "login_hint"@) is Some,
        field_of(pairs, "target_link_uri"@) is Some,
        forall|i: int|
            0 <= i < platforms.len() ==> (#[trigger] platforms[i]).issuer != field_of(
                pairs,
                "iss"@,
            )->0 || (field_of(pairs, "client_id"@) is Some && platforms[i].client_id != field_of(
                pairs,
                "client_id"@,
            )->0),
    ensures
        needed_registration(platforms, pairs) == field_of(pairs, "iss"@),
{
    unconfigured_platform_is_not_found(
        platforms,
        field_of(pairs, "iss"@)->0,
        field_of(pairs, "client_id"@),
    );
}

/// The models of a login and of a request for one hold each field as it is.
pub proof fn model_of_a_login_holds_each_field(login: PendingLogin, request: LoginRequest)
    ensures
        login@.nonce == login.nonce@,
        login@.target_link_uri == login.target_link_uri@,
        login@.issuer == login.issuer@,
        login@.client_id == login.client_id@,
        request@.platform == request.platform@,
        request@.login_hint == request.login_hint@,
        request@.target_link_uri == request.target_link_uri@,
        request@.lti_message_hint == optional_text(request.lti_message_hint),
{
}

/// No registration is asked for by a request that is incomplete, nor by one that
/// a configured platform fits.
pub proof fn registration_is_not_needed_otherwise(
    platforms: Seq<PlatformModel>,
    pairs: Seq<(Seq<char>, Seq<char>)>,
    i: int,
)
    requires
        ({
            ||| field_of(pairs, "iss"@) is None
            ||| field_of(pairs, "login_hint"@) is None
            ||| field_of(pairs, "target_link_uri"@) is None
            ||| {
                &&& 0 <= i < platforms.len()
                &&& platforms[i].issuer == field_of(pairs, "iss"@)->0
                &&& field_of(pairs, "client_id"@) is Some ==> platforms[i].client_id == field_of(
                    pairs,
                    "client_id"@,
                )->0
            }
        }),
    ensures
        needed_registration(platforms, pairs) is None,
{
    if field_of(pairs, "iss"@) is Some {
        found_platform_is_configured(
            platforms,
            field_of(pairs, "iss"@)->0,
            field_of(pairs, "client_id"@),
        );
    }
}

} // verus!
