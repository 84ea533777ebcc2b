//! LTI Deep Linking 2.0: a teacher launched from the platform picks a video,
//! a series or a playlist, which the platform then links to.
//!
//! The launch usually happens in an iframe, where the browser drops the
//! session cookie. The launch therefore stores its state under a one-time
//! token and redirects to the selection page. From there, a popup window
//! acquires the session cookie again, once, with the token.

use crate::claims::LtiClaims;
use crate::config::LtiConfig;
use crate::form::{form_pairs, value_of, FormParams};
use crate::http::{bad_request, is_header_char, is_header_text, Reply, ReplyModel};
use crate::http_url::{optional_url, web_url, HttpUrl, UrlModel};
use crate::login::check_enabled;
use crate::registration::{ResolvedModel, ResolvedPlatform};
use crate::store::Store;
use crate::text::{concat, contains_text, copy_optional, optional_text, texts};
use crate::token::{is_token, random_token, token_is_url_safe, RandomnessUnavailable};
use vstd::prelude::*;
use vstd::utf8::encode_utf8;

verus! {

/// The subset of the `deep_linking_settings` claim that is used. Sent by the
/// platform inside the launch token.
pub struct DeepLinkingSettingsClaim {
    /// Where the signed response must be POSTed.
    pub deep_link_return_url: String,
    /// Content item types the platform accepts.
    pub accept_types: Vec<String>,
    /// Opaque platform value; must be echoed verbatim in the response.
    pub data: Option<String>,
}

/// [`DeepLinkingSettingsClaim`] with texts in place of strings.
pub struct SettingsModel {
    pub deep_link_return_url: Seq<char>,
    pub accept_types: Seq<Seq<char>>,
    pub data: Option<Seq<char>>,
}

impl View for DeepLinkingSettingsClaim {
    type V = SettingsModel;

    open spec fn view(&self) -> SettingsModel {
        SettingsModel {
            deep_link_return_url: self.deep_link_return_url@,
            accept_types: texts(self.accept_types@),
            data: optional_text(self.data),
        }
    }
}

/// The model of optional settings.
pub open spec fn optional_settings(settings: Option<DeepLinkingSettingsClaim>) -> Option<
    SettingsModel,
> {
    match settings {
        Some(settings) => Some(settings@),
        None => None,
    }
}

/// Whether a URL may receive the response: it gets a form POST from the
/// user's browser, so it has to be `https`, and it has no fragment.
pub open spec fn is_return_url(url: Option<UrlModel>) -> bool {
    url matches Some(url) && url.scheme == "https"@ && url.fragment is None
}

/// Why settings with this return URL cannot be used, if so.
pub open spec fn settings_fault(settings: SettingsModel, return_url: Option<UrlModel>) -> Option<
    ReplyModel,
> {
    if !is_return_url(return_url) {
        Some(ReplyModel::BadRequest("LTI deep linking: bad return URL"@))
    } else if !settings.accept_types.contains("ltiResourceLink"@) {
        Some(
            ReplyModel::BadRequest("LTI deep linking: platform accepts no LTI resource links"@),
        )
    } else {
        None
    }
}

/// Why a Deep Linking launch with these settings is refused, if so.
pub open spec fn deep_linking_fault(settings: Option<SettingsModel>) -> Option<ReplyModel> {
    match settings {
        Some(settings) => settings_fault(settings, web_url(settings.deep_link_return_url)),
        None => Some(ReplyModel::BadRequest("LTI deep linking: settings missing"@)),
    }
}

/// Checks settings whose return URL has been parsed.
pub fn check_settings(settings: &DeepLinkingSettingsClaim, return_url: &Option<HttpUrl>) -> (res:
    Result<(), Reply>)
    ensures
        match (res, settings_fault(settings@, optional_url(*return_url))) {
            (Ok(_), None) => true,
            (Err(reply), Some(fault)) => reply@ == fault,
            _ => false,
        },
{
    let url_ok = match return_url {
        Some(url) => url.is_secure_without_fragment(),
        None => false,
    };
    if !url_ok {
        return Err(bad_request("LTI deep linking: bad return URL"));
    }
    if !contains_text(settings.accept_types.as_slice(), "ltiResourceLink") {
        return Err(bad_request("LTI deep linking: platform accepts no LTI resource links"));
    }
    Ok(())
}

/// Checks the settings of a Deep Linking launch. Returns the answer to send if
/// they are missing or unusable.
pub fn validated_settings(claims: &LtiClaims) -> (res: Result<&DeepLinkingSettingsClaim, Reply>)
    ensures
        match (res, deep_linking_fault(claims@.deep_linking_settings)) {
            (Ok(settings), None) => claims@.deep_linking_settings == Some(settings@)
                && claims.deep_linking_settings == Some(*settings),
            (Err(reply), Some(fault)) => reply@ == fault,
            _ => false,
        },
{
    match &claims.deep_linking_settings {
        Some(settings) => {
            let return_url = HttpUrl::parse(settings.deep_link_return_url.as_str());
            match check_settings(settings, &return_url) {
                Ok(()) => Ok(settings),
                Err(reply) => Err(reply),
            }
        },
        None => Err(bad_request("LTI deep linking: settings missing")),
    }
}

/// The cookie of a new session.
pub struct SessionCookie {
    /// What the cookie holds: the ID of the session.
    pub value: String,
    /// The value of the `Set-Cookie` header.
    pub set_cookie: String,
}

/// A selection in progress.
pub struct DeepLinkState {
    pub return_url: String,
    pub data: Option<String>,
    pub issuer: String,
    pub client_id: String,
    pub deployment_id: String,
    /// The ID of the session that the launch created.
    pub session_id: String,
    /// The `Set-Cookie` header for that session.
    pub set_cookie: String,
}

/// [`DeepLinkState`] with texts in place of strings.
pub struct DeepLinkModel {
    pub return_url: Seq<char>,
    pub data: Option<Seq<char>>,
    pub issuer: Seq<char>,
    pub client_id: Seq<char>,
    pub deployment_id: Seq<char>,
    pub session_id: Seq<char>,
    pub set_cookie: Seq<char>,
}

impl View for DeepLinkState {
    type V = DeepLinkModel;

    open spec fn view(&self) -> DeepLinkModel {
        DeepLinkModel {
            return_url: self.return_url@,
            data: optional_text(self.data),
            issuer: self.issuer@,
            client_id: self.client_id@,
            deployment_id: self.deployment_id@,
            session_id: self.session_id@,
            set_cookie: self.set_cookie@,
        }
    }
}

/// A selection in progress, and whether its session cookie was handed to a
/// window yet.
pub struct DeepLinkEntry {
    pub state: DeepLinkState,
    pub handed_off: bool,
}

/// The selections in progress, each under its one-time token.
pub struct DeepLinkCache {
    entries: Store<DeepLinkEntry>,
}

impl View for DeepLinkCache {
    type V = Map<Seq<char>, DeepLinkEntry>;

    closed spec fn view(&self) -> Map<Seq<char>, DeepLinkEntry> {
        self.entries@
    }
}

/// The cookie that a token still gives access to.
pub open spec fn available_handoff(
    selections: Map<Seq<char>, DeepLinkEntry>,
    token: Seq<char>,
) -> Option<Seq<char>> {
    if selections.dom().contains(token) && !selections[token].handed_off {
        Some(selections[token].state.set_cookie@)
    } else {
        None
    }
}

/// The selections after the cookie under `token` was handed to a window.
pub open spec fn after_handoff(
    selections: Map<Seq<char>, DeepLinkEntry>,
    token: Seq<char>,
) -> Map<Seq<char>, DeepLinkEntry> {
    if available_handoff(selections, token) is Some {
        selections.insert(token, (DeepLinkEntry { handed_off: true, ..selections[token] }))
    } else {
        selections
    }
}

impl DeepLinkCache {
    #[verifier::type_invariant]
    spec fn keys_are_tokens(&self) -> bool {
        forall|token: Seq<char>| #[trigger] self.entries@.dom().contains(token) ==> is_token(token)
    }

    /// Without selections.
    pub fn new() -> (res: DeepLinkCache)
        ensures
            res@ == Map::<Seq<char>, DeepLinkEntry>::empty(),
    {
        DeepLinkCache { entries: Store::new() }
    }

    /// Stores a new selection.
    pub fn insert(&mut self, token: String, state: DeepLinkState)
        requires
            is_token(token@),
        ensures
            final(self)@ == old(self)@.insert(
                token@,
                (DeepLinkEntry { state, handed_off: false }),
            ),
    {
        proof {
            use_type_invariant(&*self);
        }
        let mut entries: Store<DeepLinkEntry> = Store::new();
        std::mem::swap(&mut entries, &mut self.entries);
        entries.insert(token, DeepLinkEntry { state, handed_off: false });
        self.entries = entries;
    }

    /// Drops a selection that is over or has expired.
    pub fn forget(&mut self, token: &str)
        ensures
            final(self)@ == old(self)@.remove(token@),
    {
        proof {
            use_type_invariant(&*self);
        }
        let mut entries: Store<DeepLinkEntry> = Store::new();
        std::mem::swap(&mut entries, &mut self.entries);
        let _ = entries.take(token);
        self.entries = entries;
    }

    /// Hands out the `Set-Cookie` header of the session that belongs to a
    /// selection, at most once.
    pub fn redeem_handoff(&mut self, token: &str) -> (res: Option<String>)
        ensures
            optional_text(res) == available_handoff(old(self)@, token@),
            final(self)@ == after_handoff(old(self)@, token@),
            res is Some ==> is_token(token@),
    {
        proof {
            use_type_invariant(&*self);
        }
        let mut entries: Store<DeepLinkEntry> = Store::new();
        std::mem::swap(&mut entries, &mut self.entries);
        let ghost before = entries@;
        let res = match entries.take(token) {
            Some(entry) => {
                let res = if entry.handed_off {
                    None
                } else {
                    Some(entry.state.set_cookie.clone())
                };
                entries.insert(
                    token.to_owned(),
                    DeepLinkEntry { state: entry.state, handed_off: true },
                );
                assert(entries@ =~= before.insert(
                    token@,
                    (DeepLinkEntry { state: entry.state, handed_off: true }),
                ));
                assert(entry.handed_off ==> entries@ =~= before);
                res
            },
            None => {
                assert(entries@ =~= before);
                None
            },
        };
        assert(entries@ == after_handoff(before, token@));
        self.entries = entries;
        res
    }
}

/// Where a selection takes place.
pub open spec fn selection_url(token: Seq<char>) -> Seq<char> {
    "/~lti/select?s="@ + token
}

/// The state of a selection that starts from the given deployment.
pub open spec fn started_selection(
    settings: SettingsModel,
    platform: ResolvedModel,
    deployment_id: Seq<char>,
    cookie: SessionCookie,
) -> DeepLinkModel {
    DeepLinkModel {
        return_url: settings.deep_link_return_url,
        data: settings.data,
        issuer: platform.issuer,
        client_id: platform.client_id,
        deployment_id,
        session_id: cookie.value@,
        set_cookie: cookie.set_cookie@,
    }
}

/// The redirect to a selection. It sets the session cookie, too: a browser
/// drops it in an iframe, but not in a window.
pub open spec fn selection_redirect(token: Seq<char>, set_cookie: Seq<char>) -> ReplyModel {
    ReplyModel::Found { location: selection_url(token), set_cookie: Some(set_cookie) }
}

/// The redirect to the selection under `token`.
fn redirect_to_selection(token: &str, set_cookie: String) -> (res: Reply)
    ensures
        res@ == selection_redirect(token@, set_cookie@),
        is_token(token@) ==> is_header_text(selection_url(token@)),
{
    proof {
        if is_token(token@) {
            selection_url_is_header_text(token@);
        }
    }
    Reply::Found { location: concat("/~lti/select?s=", token), set_cookie: Some(set_cookie) }
}

/// The state of a selection that starts from the given deployment.
pub fn selection_state(
    settings: &DeepLinkingSettingsClaim,
    platform: &ResolvedPlatform,
    deployment_id: &str,
    session_cookie: &SessionCookie,
) -> (res: DeepLinkState)
    ensures
        res@ == started_selection(settings@, platform@, deployment_id@, *session_cookie),
{
    DeepLinkState {
        return_url: settings.deep_link_return_url.clone(),
        data: copy_optional(&settings.data),
        issuer: platform.issuer.clone(),
        client_id: platform.client_id.clone(),
        deployment_id: deployment_id.to_owned(),
        session_id: session_cookie.value.clone(),
        set_cookie: session_cookie.set_cookie.clone(),
    }
}

/// Whether a selection was started: under a new token, with a redirect to it.
pub open spec fn selection_started(
    state: DeepLinkModel,
    token: Seq<char>,
    before: Map<Seq<char>, DeepLinkEntry>,
    after: Map<Seq<char>, DeepLinkEntry>,
    reply: ReplyModel,
) -> bool {
    &&& is_token(token)
    &&& reply == selection_redirect(token, state.set_cookie)
    &&& exists|entry: DeepLinkEntry|
        {
            &&& entry.state@ == state
            &&& !entry.handed_off
            &&& after == #[trigger] before.insert(token, entry)
        }
}

/// Starts the selection under the given token.
pub fn start_selection_under(
    token: String,
    state: DeepLinkState,
    selections: &mut DeepLinkCache,
) -> (res: Reply)
    requires
        is_token(token@),
    ensures
        selection_started(state@, token@, old(selections)@, final(selections)@, res@),
        res matches Reply::Found { location, .. } && is_header_text(location@),
{
    let reply = redirect_to_selection(token.as_str(), state.set_cookie.clone());
    let ghost entry = DeepLinkEntry { state, handed_off: false };
    let ghost key = token@;
    selections.insert(token, state);
    assert(selections@ == old(selections)@.insert(key, entry));
    reply
}

/// Starts the selection with what came of the attempt to get a token: it
/// starts just if there is one.
pub fn start_selection_with(
    token: Result<String, RandomnessUnavailable>,
    settings: &DeepLinkingSettingsClaim,
    platform: &ResolvedPlatform,
    deployment_id: &str,
    session_cookie: &SessionCookie,
    selections: &mut DeepLinkCache,
) -> (res: Result<Reply, RandomnessUnavailable>)
    requires
        token matches Ok(token) ==> is_token(token@),
    ensures
        match token {
            Ok(token) => {
                &&& res matches Ok(reply) && selection_started(
                    started_selection(settings@, platform@, deployment_id@, *session_cookie),
                    token@,
                    old(selections)@,
                    final(selections)@,
                    reply@,
                )
                &&& res matches Ok(Reply::Found { location, .. }) && is_header_text(location@)
            },
            Err(_) => res is Err && final(selections)@ == old(selections)@,
        },
{
    match token {
        Ok(token) => {
            let state = selection_state(settings, platform, deployment_id, session_cookie);
            Ok(start_selection_under(token, state, selections))
        },
        Err(unavailable) => Err(unavailable),
    }
}

/// Continues a verified Deep Linking launch into the selection flow: stores
/// the state under a one-time token and redirects to the selection page.
/// Whether there is a token is up to the machine: [`start_selection_with`]
/// says what comes of each outcome.
pub fn start_selection(
    settings: &DeepLinkingSettingsClaim,
    platform: &ResolvedPlatform,
    deployment_id: &str,
    session_cookie: &SessionCookie,
    selections: &mut DeepLinkCache,
) -> (res: Result<Reply, RandomnessUnavailable>)
    ensures
        match res {
            Ok(reply) => exists|token: Seq<char>|
                #[trigger] selection_started(
                    started_selection(settings@, platform@, deployment_id@, *session_cookie),
                    token,
                    old(selections)@,
                    final(selections)@,
                    reply@,
                ),
            Err(_) => final(selections)@ == old(selections)@,
        },
        res matches Ok(reply) ==> (reply matches Reply::Found { location, .. } && is_header_text(
            location@,
        )),
{
    start_selection_with(
        random_token(),
        settings,
        platform,
        deployment_id,
        session_cookie,
        selections,
    )
}

/// The token in the query of a window.
pub open spec fn window_token(pairs: Seq<(Seq<char>, Seq<char>)>) -> Option<Seq<char>> {
    match value_of(pairs, "s"@) {
        Some(token) if token.len() > 0 => Some(token),
        _ => None,
    }
}

/// The answer to a window, given the selections in progress.
pub open spec fn window_reply(
    pairs: Seq<(Seq<char>, Seq<char>)>,
    selections: Map<Seq<char>, DeepLinkEntry>,
) -> ReplyModel {
    match window_token(pairs) {
        Some(token) => match available_handoff(selections, token) {
            Some(set_cookie) => selection_redirect(token, set_cookie),
            None => ReplyModel::BadRequest(
                "LTI deep linking: selection expired — please reopen it from your course"@,
            ),
        },
        None => ReplyModel::BadRequest("LTI deep linking: missing token"@),
    }
}

/// The selections after a window was answered.
pub open spec fn after_window(
    pairs: Seq<(Seq<char>, Seq<char>)>,
    selections: Map<Seq<char>, DeepLinkEntry>,
) -> Map<Seq<char>, DeepLinkEntry> {
    match window_token(pairs) {
        Some(token) => after_handoff(selections, token),
        None => selections,
    }
}

/// The bytes of a query, none if there is no query.
pub open spec fn query_bytes(query: Option<&str>) -> Seq<u8> {
    match query {
        Some(query) => encode_utf8(query@),
        None => seq![],
    }
}

/// Answers a window whose parameters have been read.
pub fn answer_window(params: &FormParams, selections: &mut DeepLinkCache) -> (res: Reply)
    ensures
        res@ == window_reply(params@, old(selections)@),
        final(selections)@ == after_window(params@, old(selections)@),
        res matches Reply::Found { location, .. } ==> is_header_text(location@),
{
    let token = match params.value("s") {
        Some(token) => token,
        None => return bad_request("LTI deep linking: missing token"),
    };
    if token.is_empty() {
        return bad_request("LTI deep linking: missing token");
    }
    match selections.redeem_handoff(token) {
        Some(set_cookie) => redirect_to_selection(token, set_cookie),
        None => bad_request(
            "LTI deep linking: selection expired — please reopen it from your course",
        ),
    }
}

/// Handles the one-time handoff that lets the selection popup acquire the
/// session cookie that the iframed launch could not store. Only hands out the
/// very session the launch itself created, at most once per selection.
pub fn handle_select_window(
    config: &LtiConfig,
    query: Option<&str>,
    selections: &mut DeepLinkCache,
) -> (res: Reply)
    ensures
        !config.enabled ==> {
            &&& res@ == ReplyModel::NotFound
            &&& final(selections)@ == old(selections)@
        },
        config.enabled ==> {
            &&& res@ == window_reply(form_pairs(query_bytes(query)), old(selections)@)
            &&& final(selections)@ == after_window(
                form_pairs(query_bytes(query)),
                old(selections)@,
            )
        },
        res matches Reply::Found { location, .. } ==> is_header_text(location@),
{
    match check_enabled(config) {
        Ok(()) => {},
        Err(refusal) => return refusal,
    }
    let raw: Vec<u8> = match query {
        Some(query) => query.as_bytes_vec(),
        None => Vec::new(),
    };
    let params = FormParams::parse(raw.as_slice());
    answer_window(&params, selections)
}

proof fn selection_url_is_header_text(token: Seq<char>)
    requires
        is_token(token),
    ensures
        is_header_text(selection_url(token)),
{
    reveal_strlit("/~lti/select?s=");
    token_is_url_safe(token);
    let url = selection_url(token);
    assert forall|i: int| 0 <= i < url.len() implies is_header_char(#[trigger] url[i]) by {
        if i >= "/~lti/select?s="@.len() {
            assert(url[i] == token[i - "/~lti/select?s="@.len()]);
        }
    }
}

/// The settings of a Deep Linking launch that is not refused name an `https`
/// URL without fragment, and a platform that accepts LTI resource links.
pub proof fn accepted_settings_are_usable(settings: Option<SettingsModel>)
    requires
        deep_linking_fault(settings) is None,
    ensures
        settings is Some,
        web_url(settings->0.deep_link_return_url) is Some,
        web_url(settings->0.deep_link_return_url)->0.scheme == "https"@,
        web_url(settings->0.deep_link_return_url)->0.fragment is None,
        settings->0.accept_types.contains("ltiResourceLink"@),
{
}

/// A window is handed the very cookie of the session that the launch created,
/// and is sent to the same selection as the launch.
pub proof fn window_gets_the_session_of_the_launch(
    state: DeepLinkModel,
    token: Seq<char>,
    before: Map<Seq<char>, DeepLinkEntry>,
    after: Map<Seq<char>, DeepLinkEntry>,
    reply: ReplyModel,
    pairs: Seq<(Seq<char>, Seq<char>)>,
)
    requires
        selection_started(state, token, before, after, reply),
        window_token(pairs) == Some(token),
    ensures
        window_reply(pairs, after) == reply,
        reply == selection_redirect(token, state.set_cookie),
{
}

/// A cookie is handed out at most once: a second window with the same token
/// is refused.
pub proof fn handoff_happens_once(
    pairs: Seq<(Seq<char>, Seq<char>)>,
    selections: Map<Seq<char>, DeepLinkEntry>,
)
    ensures
        window_reply(pairs, after_window(pairs, selections)) is BadRequest,
        after_window(pairs, after_window(pairs, selections)) == after_window(pairs, selections),
{
}

/// Usable settings are never refused: those whose return URL is a URL of the
/// web with the scheme `https` and without fragment, and that accept LTI
/// resource links, whatever else they hold.
pub proof fn usable_settings_are_accepted(settings: SettingsModel, i: int)
    requires
        web_url(settings.deep_link_return_url) is Some,
        web_url(settings.deep_link_return_url)->0.scheme == "https"@,
        web_url(settings.deep_link_return_url)->0.fragment is None,
        0 <= i < settings.accept_types.len(),
        settings.accept_types[i] == "ltiResourceLink"@,
    ensures
        deep_linking_fault(Some(settings)) is None,
{
}

/// Settings are refused for what is wrong with them: first for being absent,
/// next for their return URL, last for what they accept.
pub proof fn unusable_settings_are_refused_for_their_fault(settings: SettingsModel)
    ensures
        deep_linking_fault(None) == Some(
            ReplyModel::BadRequest("LTI deep linking: settings missing"@),
        ),
        ({
            let url = web_url(settings.deep_link_return_url);
            let usable = url is Some && url->0.scheme == "https"@ && url->0.fragment is None;
            let accepts = exists|i: int|
                0 <= i < settings.accept_types.len() && #[trigger] settings.accept_types[i]
                    == "ltiResourceLink"@;
            &&& !usable ==> deep_linking_fault(Some(settings)) == Some(
                ReplyModel::BadRequest("LTI deep linking: bad return URL"@),
            )
            &&& usable && !accepts ==> deep_linking_fault(Some(settings)) == Some(
                ReplyModel::BadRequest(
                    "LTI deep linking: platform accepts no LTI resource links"@,
                ),
            )
        }),
{
}

/// Settings with the same return URL and the same types have the same fate:
/// the platform's own data does not matter.
pub proof fn platform_data_does_not_matter(a: SettingsModel, b: SettingsModel)
    requires
        a.deep_link_return_url == b.deep_link_return_url,
        a.accept_types == b.accept_types,
    ensures
        deep_linking_fault(Some(a)) == deep_linking_fault(Some(b)),
{
}

/// A selection keeps what the response to the platform will need, unchanged:
/// where it goes, the platform's own data, who asked from which deployment, and
/// the session of the launch.
pub proof fn selection_keeps_what_the_response_needs(
    settings: SettingsModel,
    platform: ResolvedModel,
    deployment_id: Seq<char>,
    cookie: SessionCookie,
)
    ensures
        ({
            let state = started_selection(settings, platform, deployment_id, cookie);
            &&& state.return_url == settings.deep_link_return_url
            &&& state.data == settings.data
            &&& state.issuer == platform.issuer
            &&& state.client_id == platform.client_id
            &&& state.deployment_id == deployment_id
            &&& state.session_id == cookie.value@
            &&& state.set_cookie == cookie.set_cookie@
        }),
{
}

/// A selection that was started is found under its token, not handed off yet,
/// and no other selection is touched. The browser is sent to it with the cookie
/// of the session.
pub proof fn started_selection_is_kept_under_its_token(
    state: DeepLinkModel,
    token: Seq<char>,
    before: Map<Seq<char>, DeepLinkEntry>,
    after: Map<Seq<char>, DeepLinkEntry>,
    reply: ReplyModel,
    other: Seq<char>,
)
    requires
        selection_started(state, token, before, after, reply),
    ensures
        is_token(token),
        after.dom().contains(token),
        after[token].state@ == state,
        !after[token].handed_off,
        other != token ==> after.dom().contains(other) == before.dom().contains(other),
        other != token && before.dom().contains(other) ==> after[other] == before[other],
        reply == (ReplyModel::Found {
            location: "/~lti/select?s="@ + token,
            set_cookie: Some(state.set_cookie),
        }),
{
}

/// A window is answered by its token alone: with the redirect to the selection
/// and its cookie if there is a selection under the token whose cookie was not
/// handed out yet, with a refusal otherwise.
pub proof fn window_is_answered_by_its_token(
    pairs: Seq<(Seq<char>, Seq<char>)>,
    selections: Map<Seq<char>, DeepLinkEntry>,
)
    ensures
        ({
            let token = value_of(pairs, "s"@);
            let reply = window_reply(pairs, selections);
            let given = token is Some && token->0.len() > 0;
            let open = given && selections.dom().contains(token->0)
                && !selections[token->0].handed_off;
            &&& !given ==> reply == ReplyModel::BadRequest("LTI deep linking: missing token"@)
            &&& given && !open ==> reply == ReplyModel::BadRequest(
                "LTI deep linking: selection expired — please reopen it from your course"@,
            )
            &&& open ==> reply == (ReplyModel::Found {
                location: "/~lti/select?s="@ + token->0,
                set_cookie: Some(selections[token->0].state.set_cookie@),
            })
        }),
{
}

/// A window changes one selection at most, and of that one only whether its
/// cookie was handed out.
pub proof fn window_touches_its_own_selection_alone(
    pairs: Seq<(Seq<char>, Seq<char>)>,
    selections: Map<Seq<char>, DeepLinkEntry>,
    token: Seq<char>,
)
    ensures
        ({
            let after = after_window(pairs, selections);
            &&& after.dom().contains(token) == selections.dom().contains(token)
            &&& selections.dom().contains(token) ==> after[token].state == selections[token].state
            &&& selections.dom().contains(token) && selections[token].handed_off
                ==> after[token].handed_off
            &&& selections.dom().contains(token) && value_of(pairs, "s"@) == Some(token)
                && token.len() > 0 ==> after[token].handed_off
            &&& selections.dom().contains(token) && value_of(pairs, "s"@) != Some(token)
                ==> after[token] == selections[token]
        }),
{
}

/// With the return URL given, settings are refused just for that URL or for the
/// types they accept.
pub proof fn url_and_types_decide_on_settings(settings: SettingsModel, url: Option<UrlModel>)
    ensures
        settings_fault(settings, url) is None <==> {
            &&& url is Some
            &&& url->0.scheme == "https"@
            &&& url->0.fragment is None
            &&& exists|i: int|
                0 <= i < settings.accept_types.len() && #[trigger] settings.accept_types[i]
                    == "ltiResourceLink"@
        },
{
}

/// The query of a window is read as it is, and none as an empty one.
pub proof fn query_is_read_as_it_is(query: &str)
    ensures
        query_bytes(Some(query)) == encode_utf8(query@),
        query_bytes(None) == Seq::<u8>::empty(),
{
}

/// The models of settings and of a selection hold each field as it is.
pub proof fn model_of_a_selection_holds_each_field(
    settings: DeepLinkingSettingsClaim,
    state: DeepLinkState,
)
    ensures
        settings@.deep_link_return_url == settings.deep_link_return_url@,
        settings@.accept_types == texts(settings.accept_types@),
        settings@.data == optional_text(settings.data),
        state@.return_url == state.return_url@,
        state@.data == optional_text(state.data),
        state@.issuer == state.issuer@,
        state@.client_id == state.client_id@,
        state@.deployment_id == state.deployment_id@,
        state@.session_id == state.session_id@,
        state@.set_cookie == state.set_cookie@,
{
}

} // verus!
