//! The LTI 1.3 launch itself.
//!
//! The platform posts the signed `id_token` and the `state` of the login. The
//! login is consumed, the token is verified against the keys of the platform,
//! its claims are checked, and a session is created for the user. Each type of
//! this module stands for a launch that waits for something from outside; it
//! is told what came back, and yields the next one or the refusal.

use crate::claims::{
    launch_kind, message_type_alone_decides_the_kind, resolve_username, ClaimsModel, LaunchKind,
    LtiClaims, LtiLaunchValidator,
};
use crate::config::{
    first_platform, found_platform_is_configured, unconfigured_platform_is_not_found, LtiConfig,
    PlatformModel,
};
use crate::deeplink::{
    deep_linking_fault, optional_settings, selection_started, start_selection, started_selection,
    validated_settings, DeepLinkCache, DeepLinkingSettingsClaim, SessionCookie, SettingsModel,
};
use crate::form::{field_of, form_pairs, optional_str, FormParams};
use crate::http::{bad_request, is_header_text, BaseUrl, Reply, ReplyModel};
use crate::http_url::HttpUrl;
use crate::login::{
    check_enabled, login_issued, received_body, requested_login, LoginCache, LoginModel,
    PendingLogin,
};
use crate::registration::{
    deployment_accepted, first_used_in, is_same_registration, optional_row,
    remembered_deployment_is_known, resolution, resolve_platform,
    resolved_platform_fits_the_request, resolved_platform_is_resolved_again, PolicyModel,
    RegistrationRow, ResolvedModel, ResolvedPlatform, RowModel,
};
use crate::target::{launch_location, launch_stays_within, location_of_launch};
use crate::text::{copy_optional, copy_texts, optional_text, same_text, texts};
use crate::token::RandomnessUnavailable;
use vstd::prelude::*;

verus! {

/// How far the clocks of the platform and the tool may be apart, in seconds.
pub const ALLOWED_CLOCK_SKEW: u32 = 10;

/// The parameters of a launch.
pub struct LaunchForm {
    pub id_token: String,
    pub state: String,
}

/// [`LaunchForm`] with texts in place of strings.
pub struct LaunchFields {
    pub id_token: Seq<char>,
    pub state: Seq<char>,
}

/// The `id_token` and the `state` among the parameters `pairs`.
pub open spec fn launch_fields(pairs: Seq<(Seq<char>, Seq<char>)>) -> Option<LaunchFields> {
    match (field_of(pairs, "id_token"@), field_of(pairs, "state"@)) {
        (Some(id_token), Some(state)) => Some(LaunchFields { id_token, state }),
        _ => None,
    }
}

/// The answer to a launch without `id_token` or `state`.
pub open spec fn missing_fields() -> ReplyModel {
    ReplyModel::BadRequest("LTI launch: missing 'id_token' or 'state'"@)
}

/// Finds the `id_token` and the `state` among the parameters of a launch.
pub fn launch_form_of(params: &FormParams) -> (res: Result<LaunchForm, Reply>)
    ensures
        match (res, launch_fields(params@)) {
            (Ok(form), Some(fields)) => form.id_token@ == fields.id_token && form.state@
                == fields.state,
            (Err(reply), None) => reply@ == missing_fields(),
            _ => false,
        },
{
    match (params.get("id_token"), params.get("state")) {
        (Some(id_token), Some(state)) => Ok(
            LaunchForm { id_token: id_token.to_owned(), state: state.to_owned() },
        ),
        _ => Err(bad_request("LTI launch: missing 'id_token' or 'state'")),
    }
}

/// What is kept under `state`.
pub open spec fn login_under(
    logins: Map<Seq<char>, PendingLogin>,
    state: Seq<char>,
) -> Option<LoginModel> {
    if logins.dom().contains(state) {
        Some(logins[state]@)
    } else {
        None
    }
}

/// A launch that waits for the registration of its issuer.
pub struct BegunLaunch {
    id_token: String,
    login: PendingLogin,
}

/// [`BegunLaunch`] with texts in place of strings.
pub struct BegunModel {
    pub id_token: Seq<char>,
    pub login: LoginModel,
}

impl View for BegunLaunch {
    type V = BegunModel;

    closed spec fn view(&self) -> BegunModel {
        BegunModel { id_token: self.id_token@, login: self.login@ }
    }
}

/// The launch that the parameters `pairs` begin, or the answer that refuses
/// it: the `state` has to lead to a login.
pub open spec fn begun_launch(
    pairs: Seq<(Seq<char>, Seq<char>)>,
    logins: Map<Seq<char>, PendingLogin>,
) -> Result<BegunModel, ReplyModel> {
    match launch_fields(pairs) {
        None => Err(missing_fields()),
        Some(LaunchFields { id_token, state }) => match login_under(logins, state) {
            Some(login) => Ok(BegunModel { id_token, login }),
            None => Err(ReplyModel::BadRequest("LTI launch: invalid or expired 'state'"@)),
        },
    }
}

/// The logins after a launch began: its own is consumed.
pub open spec fn remaining_logins(
    pairs: Seq<(Seq<char>, Seq<char>)>,
    logins: Map<Seq<char>, PendingLogin>,
) -> Map<Seq<char>, PendingLogin> {
    match launch_fields(pairs) {
        Some(fields) => logins.remove(fields.state),
        None => logins,
    }
}

/// Whether `res` is the launch or the refusal that `expected` is.
pub open spec fn is_begun(
    res: Result<BegunLaunch, Reply>,
    expected: Result<BegunModel, ReplyModel>,
) -> bool {
    match (res, expected) {
        (Ok(launch), Ok(model)) => launch@ == model,
        (Err(reply), Err(refusal)) => reply@ == refusal,
        _ => false,
    }
}

/// Begins a launch with its parameters: consumes the login that the `state`
/// leads to, whatever comes of the launch.
pub fn begin_launch_with(params: &FormParams, logins: &mut LoginCache) -> (res: Result<
    BegunLaunch,
    Reply,
>)
    ensures
        is_begun(res, begun_launch(params@, old(logins)@)),
        final(logins)@ == remaining_logins(params@, old(logins)@),
{
    let form = match launch_form_of(params) {
        Ok(form) => form,
        Err(refusal) => return Err(refusal),
    };
    match logins.take(form.state.as_str()) {
        Some(login) => Ok(BegunLaunch { id_token: form.id_token, login }),
        None => Err(bad_request("LTI launch: invalid or expired 'state'")),
    }
}

/// Begins a launch with the body of the request, or with `None` if the body
/// could not be read.
pub fn begin_launch(config: &LtiConfig, body: Option<Vec<u8>>, logins: &mut LoginCache) -> (res:
    Result<BegunLaunch, Reply>)
    ensures
        match body {
            _ if !config.enabled => {
                &&& is_begun(res, Err(ReplyModel::NotFound))
                &&& final(logins)@ == old(logins)@
            },
            None => {
                &&& is_begun(res, Err(ReplyModel::BadRequest("could not read request body"@)))
                &&& final(logins)@ == old(logins)@
            },
            Some(body) => {
                &&& is_begun(res, begun_launch(form_pairs(body@), old(logins)@))
                &&& final(logins)@ == remaining_logins(form_pairs(body@), old(logins)@)
            },
        },
{
    match check_enabled(config) {
        Ok(()) => {},
        Err(refusal) => return Err(refusal),
    }
    let raw = match received_body(body) {
        Ok(raw) => raw,
        Err(refusal) => return Err(refusal),
    };
    begin_launch_with(&FormParams::parse(raw.as_slice()), logins)
}

/// A launch that waits for the keys of its platform.
pub struct OpenLaunch {
    id_token: String,
    login: PendingLogin,
    platform: ResolvedPlatform,
}

/// What is known of a launch before its token is verified.
pub struct LaunchModel {
    pub id_token: Seq<char>,
    pub login: LoginModel,
    pub platform: ResolvedModel,
}

impl View for OpenLaunch {
    type V = LaunchModel;

    closed spec fn view(&self) -> LaunchModel {
        LaunchModel { id_token: self.id_token@, login: self.login@, platform: self.platform@ }
    }
}

impl BegunModel {
    /// The issuer whose registration the launch needs: none if a configured
    /// platform fits.
    pub open spec fn needed_registration(self, platforms: Seq<PlatformModel>) -> Option<
        Seq<char>,
    > {
        if first_platform(platforms, self.login.issuer, Some(self.login.client_id)) is None {
            Some(self.login.issuer)
        } else {
            None
        }
    }
}

/// The launch with the platform of its login, where `row` is the registration
/// of the issuer.
pub open spec fn opened_launch(
    launch: BegunModel,
    platforms: Seq<PlatformModel>,
    row: Option<RowModel>,
) -> Result<LaunchModel, ReplyModel> {
    match resolution(platforms, launch.login.issuer, Some(launch.login.client_id), row) {
        Some(platform) => Ok(
            LaunchModel { id_token: launch.id_token, login: launch.login, platform },
        ),
        // The platform was reconfigured away, or its registration removed,
        // between login and launch.
        None => Err(ReplyModel::InternalServerError),
    }
}

impl BegunLaunch {
    /// The issuer whose registration the launch needs: none if a configured
    /// platform fits.
    pub fn registration_needed(&self, config: &LtiConfig) -> (res: Option<&str>)
        ensures
            optional_str(res) == self@.needed_registration(config.platform_models()),
    {
        match config.find_platform(self.login.issuer.as_str(), self.login.client_id.as_str()) {
            Some(_) => None,
            None => Some(self.login.issuer.as_str()),
        }
    }

    /// Goes on with the registration of the issuer, if there is one.
    pub fn open(self, config: &LtiConfig, row: Option<RegistrationRow>) -> (res: Result<
        OpenLaunch,
        Reply,
    >)
        ensures
            match (res, opened_launch(self@, config.platform_models(), optional_row(row))) {
                (Ok(launch), Ok(model)) => launch@ == model,
                (Err(reply), Err(refusal)) => reply@ == refusal,
                _ => false,
            },
    {
        match resolve_platform(
            config,
            self.login.issuer.as_str(),
            Some(self.login.client_id.as_str()),
            row,
        ) {
            Some(platform) => Ok(
                OpenLaunch { id_token: self.id_token, login: self.login, platform },
            ),
            None => Err(Reply::InternalServerError),
        }
    }
}

/// How many dots a text has.
pub open spec fn dots(s: Seq<char>) -> nat
    decreases s.len(),
{
    if s.len() == 0 {
        0
    } else {
        dots(s.drop_last()) + (if s.last() == '.' {
            1nat
        } else {
            0
        })
    }
}

/// Whether a token has the surface of a JWT: three parts, with dots between.
pub fn is_raw_jwt(token: &str) -> (res: bool)
    ensures
        res == (dots(token@) == 2),
{
    let mut count: usize = 0;
    let chars = crate::text::chars_of(token);
    let mut i: usize = 0;
    while i < chars.len()
        invariant
            i <= chars@.len(),
            chars@ == token@,
            count <= i,
            count == dots(token@.take(i as int)),
        decreases chars@.len() - i,
    {
        assert(token@.take(i as int + 1).drop_last() =~= token@.take(i as int));
        if chars[i] == '.' {
            count += 1;
        }
        i += 1;
    }
    assert(token@.take(i as int) =~= token@);
    count == 2
}

/// Why the token of a launch is not even looked into, if so.
pub open spec fn token_fault(id_token: Seq<char>, keys_fetched: bool) -> Option<ReplyModel> {
    if !keys_fetched {
        Some(ReplyModel::BadRequest("LTI launch: could not fetch platform keys"@))
    } else if dots(id_token) != 2 {
        Some(ReplyModel::BadRequest("LTI launch: malformed 'id_token'"@))
    } else {
        None
    }
}

impl OpenLaunch {
    /// Where the platform publishes its keys.
    pub fn keyset_url(&self) -> (res: &HttpUrl)
        ensures
            res@ == self@.platform.keyset_url,
    {
        &self.platform.keyset_url
    }

    /// Goes on when the keys of the platform were fetched, or could not be.
    pub fn keys_fetched(self, fetched: bool) -> (res: Result<UnverifiedLaunch, Reply>)
        ensures
            match (res, token_fault(self@.id_token, fetched)) {
                (Ok(launch), None) => launch@ == self@,
                (Err(reply), Some(refusal)) => reply@ == refusal,
                _ => false,
            },
    {
        if !fetched {
            return Err(bad_request("LTI launch: could not fetch platform keys"));
        }
        if !is_raw_jwt(self.id_token.as_str()) {
            return Err(bad_request("LTI launch: malformed 'id_token'"));
        }
        Ok(
            UnverifiedLaunch {
                id_token: self.id_token,
                login: self.login,
                platform: self.platform,
            },
        )
    }
}

/// A launch whose token waits for its signature and its lifetime to be
/// verified.
pub struct UnverifiedLaunch {
    id_token: String,
    login: PendingLogin,
    platform: ResolvedPlatform,
}

impl View for UnverifiedLaunch {
    type V = LaunchModel;

    closed spec fn view(&self) -> LaunchModel {
        LaunchModel { id_token: self.id_token@, login: self.login@, platform: self.platform@ }
    }
}

/// What a launch is admitted with.
pub struct Admission {
    /// The settings of a Deep Linking launch.
    pub settings: Option<SettingsModel>,
    pub username: Seq<char>,
}

/// Whether a launch is admitted, given the claims of its token, or `None` if
/// the token could not be verified. The `nonce` binds the launch to the login,
/// the `deployment_id` has to be accepted, the message type has to be known, Deep Linking needs usable settings, and there has to be a
/// username.
pub open spec fn admission(launch: LaunchModel, claims: Option<ClaimsModel>) -> Result<
    Admission,
    ReplyModel,
> {
    match claims {
        None => Err(ReplyModel::BadRequest("LTI launch: token verification failed"@)),
        Some(claims) => if claims.mismatch(
            launch.platform.issuer,
            launch.platform.client_id,
        ) is Some {
            Err(ReplyModel::BadRequest("LTI launch: token verification failed"@))
        } else if claims.nonce != Some(launch.login.nonce) {
            Err(ReplyModel::BadRequest("LTI launch: nonce mismatch"@))
        } else if !deployment_accepted(launch.platform.deployments, claims.deployment_id) {
            Err(ReplyModel::BadRequest("LTI launch: deployment_id mismatch"@))
        } else {
            match claims.kind() {
                None => Err(ReplyModel::BadRequest("LTI launch: unsupported message type"@)),
                Some(LaunchKind::ResourceLink) => admission_of_user(launch, claims, None),
                Some(LaunchKind::DeepLinking) => match deep_linking_fault(
                    claims.deep_linking_settings,
                ) {
                    Some(refusal) => Err(refusal),
                    None => admission_of_user(launch, claims, claims.deep_linking_settings),
                },
            }
        },
    }
}

/// The last step of [`admission`]: the user needs a name.
pub open spec fn admission_of_user(
    launch: LaunchModel,
    claims: ClaimsModel,
    settings: Option<SettingsModel>,
) -> Result<Admission, ReplyModel> {
    match claims.username(launch.platform.username_source) {
        Some(username) => Ok(Admission { settings, username }),
        None => Err(ReplyModel::BadRequest("LTI launch: no username provided by platform"@)),
    }
}

/// The model of optional claims.
pub open spec fn optional_claims(claims: Option<LtiClaims>) -> Option<ClaimsModel> {
    match claims {
        Some(claims) => Some(claims@),
        None => None,
    }
}

impl UnverifiedLaunch {
    /// The token to verify.
    pub fn id_token(&self) -> (res: &str)
        ensures
            res@ == self@.id_token,
    {
        self.id_token.as_str()
    }

    /// What the core claims of the token have to fit.
    pub fn validator(&self) -> (res: LtiLaunchValidator<'_>)
        ensures
            res.issuer@ == self@.platform.issuer,
            res.client_id@ == self@.platform.client_id,
    {
        LtiLaunchValidator {
            issuer: self.platform.issuer.as_str(),
            client_id: self.platform.client_id.as_str(),
        }
    }

    /// Goes on with the claims of the token, or with `None` if its signature
    /// or its lifetime could not be verified.
    pub fn verified(self, claims: Option<LtiClaims>) -> (res: Result<AdmittedLaunch, Reply>)
        ensures
            match (res, admission(self@, optional_claims(claims))) {
                (Ok(admitted), Ok(admission)) => {
                    &&& admitted@.launch == self@
                    &&& Some(admitted@.claims) == optional_claims(claims)
                    &&& admitted@.admission == admission
                },
                (Err(reply), Err(refusal)) => reply@ == refusal,
                _ => false,
            },
    {
        let claims = match claims {
            Some(claims) => claims,
            None => return Err(bad_request("LTI launch: token verification failed")),
        };
        match self.validator().validate(&claims) {
            Ok(()) => {},
            Err(_) => return Err(bad_request("LTI launch: token verification failed")),
        }
        let nonce_matches = match &claims.nonce {
            Some(nonce) => same_text(nonce.as_str(), self.login.nonce.as_str()),
            None => false,
        };
        if !nonce_matches {
            return Err(bad_request("LTI launch: nonce mismatch"));
        }
        if !self.platform.deployments.accepts(claims.deployment_id.as_str()) {
            return Err(bad_request("LTI launch: deployment_id mismatch"));
        }
        let settings = match launch_kind(&claims) {
            None => return Err(bad_request("LTI launch: unsupported message type")),
            Some(LaunchKind::ResourceLink) => None,
            Some(LaunchKind::DeepLinking) => match validated_settings(&claims) {
                Ok(settings) => Some(
                    DeepLinkingSettingsClaim {
                        deep_link_return_url: settings.deep_link_return_url.clone(),
                        accept_types: copy_texts(&settings.accept_types),
                        data: copy_optional(&settings.data),
                    },
                ),
                Err(refusal) => return Err(refusal),
            },
        };
        let username = match resolve_username(&claims, self.platform.username_source) {
            Some(username) => username,
            None => {
                return Err(bad_request("LTI launch: no username provided by platform"));
            },
        };
        Ok(
            AdmittedLaunch {
                id_token: self.id_token,
                login: self.login,
                platform: self.platform,
                claims,
                settings,
                username,
            },
        )
    }
}

/// An admitted launch, which waits for what Opencast knows of its user.
pub struct AdmittedLaunch {
    id_token: String,
    login: PendingLogin,
    platform: ResolvedPlatform,
    claims: LtiClaims,
    settings: Option<DeepLinkingSettingsClaim>,
    username: String,
}

/// What is known of an admitted launch.
pub struct AdmittedModel {
    pub launch: LaunchModel,
    pub claims: ClaimsModel,
    pub admission: Admission,
}

impl View for AdmittedLaunch {
    type V = AdmittedModel;

    closed spec fn view(&self) -> AdmittedModel {
        AdmittedModel {
            launch: LaunchModel {
                id_token: self.id_token@,
                login: self.login@,
                platform: self.platform@,
            },
            claims: self.claims@,
            admission: Admission {
                settings: optional_settings(self.settings),
                username: self.username@,
            },
        }
    }
}

/// A user as Opencast knows them.
pub struct OpencastUser {
    pub user_role: String,
    pub roles: Vec<String>,
}

/// What Opencast says of a username.
pub enum OpencastAnswer {
    Known(OpencastUser),
    Unknown,
    /// There was no answer.
    Failed,
}

/// A user of Tobira.
pub struct User {
    pub username: String,
    pub display_name: String,
    pub email: Option<String>,
    pub user_role: String,
    pub roles: Vec<String>,
    pub user_realm_handle: Option<String>,
}

/// [`User`] with texts in place of strings.
pub struct UserModel {
    pub username: Seq<char>,
    pub display_name: Seq<char>,
    pub email: Option<Seq<char>>,
    pub user_role: Seq<char>,
    pub roles: Seq<Seq<char>>,
    pub user_realm_handle: Option<Seq<char>>,
}

impl View for User {
    type V = UserModel;

    open spec fn view(&self) -> UserModel {
        UserModel {
            username: self.username@,
            display_name: self.display_name@,
            email: optional_text(self.email),
            user_role: self.user_role@,
            roles: texts(self.roles@),
            user_realm_handle: optional_text(self.user_realm_handle),
        }
    }
}

impl AdmittedModel {
    /// The user that the session is for. Roles come from Opencast alone, the
    /// rest from the launch.
    pub open spec fn user(self, answer: OpencastAnswer) -> Result<UserModel, ReplyModel> {
        match answer {
            OpencastAnswer::Known(known) => Ok(
                UserModel {
                    username: self.admission.username,
                    display_name: match self.claims.name {
                        Some(name) => name,
                        None => self.admission.username,
                    },
                    email: self.claims.email,
                    user_role: known.user_role@,
                    roles: texts(known.roles@),
                    user_realm_handle: None,
                },
            ),
            OpencastAnswer::Unknown => Err(
                ReplyModel::BadRequest("LTI launch: user unknown to Opencast"@),
            ),
            OpencastAnswer::Failed => Err(ReplyModel::InternalServerError),
        }
    }

    /// The registration and the deployment to add to it, if the launch is the
    /// first one from that deployment.
    pub open spec fn deployment_to_remember(self) -> Option<(i64, Seq<char>)> {
        match first_used_in(self.launch.platform.deployments, self.claims.deployment_id) {
            Some(registration_id) => Some((registration_id, self.claims.deployment_id)),
            None => None,
        }
    }

    /// Where the launch goes on once there is a session.
    pub open spec fn landing(self) -> LandingModel {
        LandingModel {
            settings: self.admission.settings,
            platform: self.launch.platform,
            deployment_id: self.claims.deployment_id,
            series: self.claims.custom_text("series"@),
            target_link_uri: self.launch.login.target_link_uri,
        }
    }
}

impl AdmittedLaunch {
    #[verifier::type_invariant]
    spec fn was_admitted(&self) -> bool {
        admission(self@.launch, Some(self@.claims)) == Ok::<Admission, ReplyModel>(self@.admission)
    }

    /// The name of the user. Every admitted launch has passed all checks of
    /// its claims.
    pub fn username(&self) -> (res: &str)
        ensures
            res@ == self@.admission.username,
            admission(self@.launch, Some(self@.claims)) == Ok::<Admission, ReplyModel>(
                self@.admission,
            ),
    {
        proof {
            use_type_invariant(self);
        }
        self.username.as_str()
    }

    /// The registration, and the deployment that has to be added to those
    /// known of it, if the launch is the first one from that deployment.
    pub fn deployment_to_remember(&self) -> (res: Option<(i64, &str)>)
        ensures
            match (res, self@.deployment_to_remember()) {
                (Some((registration_id, id)), Some((expected_registration, expected))) => {
                    registration_id == expected_registration && id@ == expected
                },
                (None, None) => true,
                _ => false,
            },
    {
        let id = self.claims.deployment_id.as_str();
        match self.platform.deployments.first_use(id) {
            Some(registration_id) => Some((registration_id, id)),
            None => None,
        }
    }

    /// Goes on with what Opencast says of the user: with the user to create a
    /// session for, and with where to go then.
    pub fn looked_up(self, answer: OpencastAnswer) -> (res: Result<(User, Landing), Reply>)
        ensures
            match (res, self@.user(answer)) {
                (Ok((user, landing)), Ok(model)) => user@ == model && landing@ == self@.landing(),
                (Err(reply), Err(refusal)) => reply@ == refusal,
                _ => false,
            },
    {
        let known = match answer {
            OpencastAnswer::Known(known) => known,
            OpencastAnswer::Unknown => {
                return Err(bad_request("LTI launch: user unknown to Opencast"));
            },
            OpencastAnswer::Failed => return Err(Reply::InternalServerError),
        };
        let display_name = match &self.claims.name {
            Some(name) => name.clone(),
            None => self.username.clone(),
        };
        let series = match self.claims.custom_text("series") {
            Some(series) => Some(series.to_owned()),
            None => None,
        };
        let email = copy_optional(&self.claims.email);
        let landing = Landing {
            settings: self.settings,
            platform: self.platform,
            deployment_id: self.claims.deployment_id,
            series,
            target_link_uri: self.login.target_link_uri,
        };
        let user = User {
            username: self.username,
            display_name,
            email,
            user_role: known.user_role,
            roles: known.roles,
            user_realm_handle: None,
        };
        Ok((user, landing))
    }
}

/// A launch that waits for the session of its user.
pub struct Landing {
    settings: Option<DeepLinkingSettingsClaim>,
    platform: ResolvedPlatform,
    deployment_id: String,
    series: Option<String>,
    target_link_uri: String,
}

/// [`Landing`] with texts in place of strings.
pub struct LandingModel {
    pub settings: Option<SettingsModel>,
    pub platform: ResolvedModel,
    pub deployment_id: Seq<char>,
    pub series: Option<Seq<char>>,
    pub target_link_uri: Seq<char>,
}

impl View for Landing {
    type V = LandingModel;

    closed spec fn view(&self) -> LandingModel {
        LandingModel {
            settings: optional_settings(self.settings),
            platform: self.platform@,
            deployment_id: self.deployment_id@,
            series: optional_text(self.series),
            target_link_uri: self.target_link_uri@,
        }
    }
}

impl Landing {
    /// Ends the launch when its session was created, or with the answer that
    /// the attempt came to. A Deep Linking launch continues into the selection
    /// flow; any other lands on a page of Tobira.
    pub fn session_created(
        self,
        session: Result<SessionCookie, Reply>,
        base: &BaseUrl,
        selections: &mut DeepLinkCache,
    ) -> (res: Result<Reply, RandomnessUnavailable>)
        ensures
            match (session, self@.settings) {
                (Err(refusal), _) => {
                    &&& res matches Ok(reply) && reply@ == refusal@
                    &&& final(selections)@ == old(selections)@
                },
                (Ok(cookie), None) => {
                    &&& res matches Ok(reply) && reply@ == (ReplyModel::Found {
                        location: location_of_launch(
                            self@.series,
                            self@.target_link_uri,
                            base@,
                        ),
                        set_cookie: Some(cookie.set_cookie@),
                    })
                    &&& final(selections)@ == old(selections)@
                },
                (Ok(cookie), Some(settings)) => match res {
                    Ok(reply) => exists|token: Seq<char>|
                        #[trigger] selection_started(
                            started_selection(
                                settings,
                                self@.platform,
                                self@.deployment_id,
                                cookie,
                            ),
                            token,
                            old(selections)@,
                            final(selections)@,
                            reply@,
                        ),
                    Err(_) => final(selections)@ == old(selections)@,
                },
            },
            session is Ok && res is Ok ==> (res->Ok_0 matches Reply::Found { location, .. }
                && is_header_text(location@)),
    {
        let cookie = match session {
            Ok(cookie) => cookie,
            Err(refusal) => return Ok(refusal),
        };
        match &self.settings {
            Some(settings) => start_selection(
                settings,
                &self.platform,
                self.deployment_id.as_str(),
                &cookie,
                selections,
            ),
            None => {
                let series = match &self.series {
                    Some(series) => Some(series.as_str()),
                    None => None,
                };
                let location = launch_location(series, self.target_link_uri.as_str(), base);
                let start_page = base.as_str();
                proof {
                    launch_stays_within(self@.series, self@.target_link_uri, start_page@);
                }
                Ok(Reply::Found { location, set_cookie: Some(cookie.set_cookie) })
            },
        }
    }
}

/// Everything that the outcome of a launch depends on: the configuration, the
/// request, the logins that wait for their launch, and what came back from
/// outside.
pub struct Circumstances {
    pub platforms: Seq<PlatformModel>,
    pub pairs: Seq<(Seq<char>, Seq<char>)>,
    pub logins: Map<Seq<char>, PendingLogin>,
    /// The registration of the issuer of the login.
    pub row: Option<RowModel>,
    pub keys_fetched: bool,
    /// The claims of the token, if its signature and its lifetime are valid.
    pub claims: Option<ClaimsModel>,
    pub opencast: OpencastAnswer,
}

/// The launch that is admitted, or the answer that refuses it: all steps of
/// the launch that go before the user is looked up, one after the other.
pub open spec fn admitted_launch(c: Circumstances) -> Result<AdmittedModel, ReplyModel> {
    match begun_launch(c.pairs, c.logins) {
        Err(refusal) => Err(refusal),
        Ok(begun) => match opened_launch(begun, c.platforms, c.row) {
            Err(refusal) => Err(refusal),
            Ok(launch) => match token_fault(launch.id_token, c.keys_fetched) {
                Some(refusal) => Err(refusal),
                None => match admission(launch, c.claims) {
                    Err(refusal) => Err(refusal),
                    Ok(admission) => Ok(AdmittedModel { launch, claims: c.claims->0, admission }),
                },
            },
        },
    }
}

/// The user that a launch creates a session for, or the answer that refuses
/// the launch.
pub open spec fn launched_user(c: Circumstances) -> Result<UserModel, ReplyModel> {
    match admitted_launch(c) {
        Ok(admitted) => admitted.user(c.opencast),
        Err(refusal) => Err(refusal),
    }
}

/// Where a launch that is not refused goes on.
pub open spec fn launched_landing(c: Circumstances) -> LandingModel {
    admitted_launch(c)->Ok_0.landing()
}

/// Runs a launch for which everything from outside is known beforehand: what
/// its steps come to, one after the other.
pub fn run_launch(
    config: &LtiConfig,
    params: &FormParams,
    logins: &mut LoginCache,
    row: Option<RegistrationRow>,
    keys_fetched: bool,
    claims: Option<LtiClaims>,
    opencast: OpencastAnswer,
) -> (res: Result<(User, Landing), Reply>)
    ensures
        ({
            let c = Circumstances {
                platforms: config.platform_models(),
                pairs: params@,
                logins: old(logins)@,
                row: optional_row(row),
                keys_fetched,
                claims: optional_claims(claims),
                opencast,
            };
            match (res, launched_user(c)) {
                (Ok((user, landing)), Ok(model)) => user@ == model && landing@
                    == launched_landing(c),
                (Err(reply), Err(refusal)) => reply@ == refusal,
                _ => false,
            }
        }),
        final(logins)@ == remaining_logins(params@, old(logins)@),
{
    let launch = match begin_launch_with(params, logins) {
        Ok(launch) => launch,
        Err(refusal) => return Err(refusal),
    };
    let launch = match launch.open(config, row) {
        Ok(launch) => launch,
        Err(refusal) => return Err(refusal),
    };
    let launch = match launch.keys_fetched(keys_fetched) {
        Ok(launch) => launch,
        Err(refusal) => return Err(refusal),
    };
    let launch = match launch.verified(claims) {
        Ok(launch) => launch,
        Err(refusal) => return Err(refusal),
    };
    launch.looked_up(opencast)
}

/// A session is created only if the launch brings back the `state` of a login,
/// the platform of that login is still configured or registered, its keys
/// could be fetched and the token verified, the token was issued by that
/// platform for this tool, in reply to that very login and from an accepted
/// deployment, the kind of message is known and usable, and Opencast knows the
/// user. The session is for the user that the platform's claim names, with the
/// roles that Opencast gives them.
pub proof fn session_needs_every_check(c: Circumstances)
    requires
        launched_user(c) is Ok,
    ensures
        launch_fields(c.pairs) is Some,
        c.logins.dom().contains(launch_fields(c.pairs)->0.state),
        c.keys_fetched,
        c.claims is Some,
        c.opencast is Known,
        ({
            let user = launched_user(c)->Ok_0;
            let login = c.logins[launch_fields(c.pairs)->0.state]@;
            let resolved = resolution(c.platforms, login.issuer, Some(login.client_id), c.row);
            let platform = resolved->0;
            let claims = c.claims->0;
            let known = c.opencast->Known_0;
            &&& resolved is Some
            &&& platform.issuer == login.issuer
            &&& platform.client_id == login.client_id
            &&& claims.iss == platform.issuer
            &&& claims.aud.contains(platform.client_id)
            &&& claims.azp is Some ==> claims.azp->0 == platform.client_id
            &&& claims.nonce == Some(login.nonce)
            &&& deployment_accepted(platform.deployments, claims.deployment_id)
            &&& claims.kind() is Some
            &&& claims.kind() == Some(LaunchKind::DeepLinking) ==> deep_linking_fault(
                claims.deep_linking_settings,
            ) is None
            &&& claims.username(platform.username_source) == Some(user.username)
            &&& user.user_role == known.user_role@
            &&& user.roles == texts(known.roles@)
        }),
{
    let login = c.logins[launch_fields(c.pairs)->0.state]@;
    resolved_platform_fits_the_request(
        c.platforms,
        login.issuer,
        Some(login.client_id),
        c.row,
    );
}

/// A launch that answers a login succeeds, of a configured platform and of a
/// registered one: if it brings back the `state`, and the token was issued by
/// the platform for this tool, with the `nonce` of the login and from an
/// accepted deployment, a session is created for the user that the token
/// names, with the roles that Opencast gives them. The launch goes on with what
/// the login asked for. Between the two, deployments may be added to the
/// registration.
pub proof fn launch_that_answers_a_login_succeeds(
    asked: Seq<(Seq<char>, Seq<char>)>,
    row: Option<RowModel>,
    base: Seq<char>,
    state: Seq<char>,
    nonce: Seq<char>,
    before: Map<Seq<char>, PendingLogin>,
    redirect: ReplyModel,
    c: Circumstances,
)
    requires
        requested_login(c.platforms, asked, row) is Ok,
        is_same_registration(row, c.row),
        login_issued(
            requested_login(c.platforms, asked, row)->Ok_0,
            base,
            state,
            nonce,
            before,
            c.logins,
            redirect,
        ),
        launch_fields(c.pairs) is Some,
        launch_fields(c.pairs)->0.state == state,
        dots(launch_fields(c.pairs)->0.id_token) == 2,
        c.keys_fetched,
        c.claims is Some,
        c.opencast is Known,
        ({
            let platform = requested_login(c.platforms, asked, row)->Ok_0.platform;
            let claims = c.claims->0;
            &&& claims.iss == platform.issuer
            &&& claims.aud.contains(platform.client_id)
            &&& claims.azp is Some ==> claims.azp->0 == platform.client_id
            &&& claims.nonce == Some(nonce)
            &&& deployment_accepted(platform.deployments, claims.deployment_id)
            &&& claims.kind() is Some
            &&& claims.kind() == Some(LaunchKind::DeepLinking) ==> deep_linking_fault(
                claims.deep_linking_settings,
            ) is None
            &&& claims.username(platform.username_source) is Some
        }),
    ensures
        ({
            let request = requested_login(c.platforms, asked, row)->Ok_0;
            let platform = request.platform;
            let claims = c.claims->0;
            let known = c.opencast->Known_0;
            let username = claims.username(platform.username_source)->0;
            let landing = launched_landing(c);
            &&& launched_user(c) == Ok::<UserModel, ReplyModel>(
                UserModel {
                    username,
                    display_name: match claims.name {
                        Some(name) => name,
                        None => username,
                    },
                    email: claims.email,
                    user_role: known.user_role@,
                    roles: texts(known.roles@),
                    user_realm_handle: None,
                },
            )
            &&& landing == (LandingModel {
                settings: if claims.kind() == Some(LaunchKind::DeepLinking) {
                    claims.deep_linking_settings
                } else {
                    None
                },
                platform: ResolvedModel {
                    deployments: landing.platform.deployments,
                    ..platform
                },
                deployment_id: claims.deployment_id,
                series: claims.custom_text("series"@),
                target_link_uri: request.target_link_uri,
            })
        }),
{
    let issuer = field_of(asked, "iss"@)->0;
    let client_id = field_of(asked, "client_id"@);
    resolved_platform_is_resolved_again(c.platforms, issuer, client_id, row, c.row);
}

/// A launch from a deployment that is new to its registration is accepted as
/// any other, and the deployment is to be remembered. From then on it is not
/// remembered again.
pub proof fn new_deployment_is_accepted_and_remembered(c: Circumstances, row: RowModel)
    requires
        admitted_launch(c) is Ok,
        c.row == Some(row),
        first_platform(
            c.platforms,
            admitted_launch(c)->Ok_0.launch.platform.issuer,
            Some(admitted_launch(c)->Ok_0.launch.platform.client_id),
        ) is None,
    ensures
        ({
            let admitted = admitted_launch(c)->Ok_0;
            let id = admitted.claims.deployment_id;
            let remembered = RowModel { deployment_ids: row.deployment_ids.push(id), ..row };
            let next = Circumstances { row: Some(remembered), ..c };
            &&& admitted.deployment_to_remember() == (if row.deployment_ids.contains(id) {
                None
            } else {
                Some((row.id, id))
            })
            &&& admitted_launch(next) is Ok
            &&& admitted_launch(next)->Ok_0.admission == admitted.admission
            &&& admitted_launch(next)->Ok_0.deployment_to_remember() is None
        }),
{
    let login = begun_launch(c.pairs, c.logins)->Ok_0.login;
    let id = admitted_launch(c)->Ok_0.claims.deployment_id;
    resolved_platform_fits_the_request(
        c.platforms,
        login.issuer,
        Some(login.client_id),
        c.row,
    );
    remembered_deployment_is_known(row, login.issuer, Some(login.client_id), id);
}

/// Without a registration, a platform that is not configured cannot launch
/// anyone: removing a registration ends its launches, also those that have
/// begun with a login.
pub proof fn removed_registration_ends_launches(c: Circumstances)
    requires
        c.row is None,
        begun_launch(c.pairs, c.logins) matches Ok(launch) ==> first_platform(
            c.platforms,
            launch.login.issuer,
            Some(launch.login.client_id),
        ) is None,
    ensures
        launched_user(c) is Err,
{
}

/// A launch cannot be replayed: its `state` was consumed, so every other
/// request that brings it is refused from then on, whatever else it holds and
/// whatever comes back from outside.
pub proof fn launch_cannot_be_replayed(state: Seq<char>, c: Circumstances)
    requires
        launch_fields(c.pairs) is Some,
        launch_fields(c.pairs)->0.state == state,
        !c.logins.dom().contains(state),
    ensures
        launched_user(c) == Err::<UserModel, ReplyModel>(
            ReplyModel::BadRequest("LTI launch: invalid or expired 'state'"@),
        ),
{
}

/// The token of one login is no good for another: a launch is refused if its
/// token holds another `nonce` than the one that was issued with its `state`.
pub proof fn nonce_binds_launch_to_login(c: Circumstances, state: Seq<char>)
    requires
        launch_fields(c.pairs) is Some,
        launch_fields(c.pairs)->0.state == state,
        c.logins.dom().contains(state),
        c.claims is Some,
        c.claims->0.nonce != Some(c.logins[state]@.nonce),
    ensures
        launched_user(c) is Err,
{
}

/// Dots are counted one by one.
pub proof fn dots_are_counted(a: Seq<char>, b: Seq<char>, c: char)
    ensures
        dots(seq![]) == 0,
        dots(seq!['.']) == 1,
        c != '.' ==> dots(seq![c]) == 0,
        dots(a + b) == dots(a) + dots(b),
    decreases b.len(),
{
    reveal_with_fuel(dots, 2);
    if b.len() == 0 {
        assert(a + b =~= a);
    } else {
        assert((a + b).drop_last() =~= a + b.drop_last());
        dots_are_counted(a, b.drop_last(), c);
    }
}

/// A launch begins just if it has an `id_token` and a `state` that a login is
/// kept under, and it begins with these. That login is consumed, and no other.
pub proof fn launch_consumes_its_login_alone(
    pairs: Seq<(Seq<char>, Seq<char>)>,
    logins: Map<Seq<char>, PendingLogin>,
    other: Seq<char>,
)
    ensures
        ({
            let id_token = field_of(pairs, "id_token"@);
            let state = field_of(pairs, "state"@);
            let complete = id_token is Some && state is Some;
            let res = begun_launch(pairs, logins);
            let after = remaining_logins(pairs, logins);
            &&& !complete ==> res == Err::<BegunModel, ReplyModel>(
                ReplyModel::BadRequest("LTI launch: missing 'id_token' or 'state'"@),
            )
            &&& complete && !logins.dom().contains(state->0) ==> res == Err::<
                BegunModel,
                ReplyModel,
            >(ReplyModel::BadRequest("LTI launch: invalid or expired 'state'"@))
            &&& complete && logins.dom().contains(state->0) ==> {
                &&& res is Ok
                &&& Some(res->Ok_0.id_token) == id_token
                &&& res->Ok_0.login == logins[state->0]@
            }
            &&& complete ==> !after.dom().contains(state->0)
            &&& !complete || other != state->0 ==> after.dom().contains(other)
                == logins.dom().contains(other)
            &&& (!complete || other != state->0) && logins.dom().contains(other) ==> after[other]
                == logins[other]
        }),
{
}

/// A launch is resolved by the issuer and the client of its login, and goes on
/// with what it has.
pub proof fn launch_is_resolved_by_its_login(
    launch: BegunModel,
    platforms: Seq<PlatformModel>,
    row: Option<RowModel>,
)
    ensures
        ({
            let platform = resolution(
                platforms,
                launch.login.issuer,
                Some(launch.login.client_id),
                row,
            );
            let res = opened_launch(launch, platforms, row);
            &&& platform is None ==> res == Err::<LaunchModel, ReplyModel>(
                ReplyModel::InternalServerError,
            )
            &&& platform is Some ==> {
                &&& res is Ok
                &&& Some(res->Ok_0.platform) == platform
                &&& res->Ok_0.id_token == launch.id_token
                &&& res->Ok_0.login == launch.login
            }
        }),
{
}

/// A launch needs the registration of the issuer of its login just if no
/// configured platform has that issuer and the client of the login. Where it
/// needs none, none makes a difference.
pub proof fn launch_needs_a_registration_of_unconfigured_platforms(
    launch: BegunModel,
    platforms: Seq<PlatformModel>,
    row: Option<RowModel>,
)
    ensures
        (forall|i: int|
            0 <= i < platforms.len() ==> (#[trigger] platforms[i]).issuer != launch.login.issuer
                || platforms[i].client_id != launch.login.client_id)
            ==> launch.needed_registration(platforms) == Some(launch.login.issuer),
        launch.needed_registration(platforms) is None ==> opened_launch(launch, platforms, row)
            == opened_launch(launch, platforms, None),
{
    if forall|i: int|
        0 <= i < platforms.len() ==> (#[trigger] platforms[i]).issuer != launch.login.issuer
            || platforms[i].client_id != launch.login.client_id {
        unconfigured_platform_is_not_found(
            platforms,
            launch.login.issuer,
            Some(launch.login.client_id),
        );
    }
}

/// A token is looked into just if the keys of the platform were fetched and it
/// has two dots.
pub proof fn token_needs_keys_and_two_dots(id_token: Seq<char>, keys_fetched: bool)
    ensures
        token_fault(id_token, keys_fetched) is None <==> keys_fetched && dots(id_token) == 2,
        !keys_fetched ==> token_fault(id_token, keys_fetched) == Some(
            ReplyModel::BadRequest("LTI launch: could not fetch platform keys"@),
        ),
        keys_fetched && dots(id_token) != 2 ==> token_fault(id_token, keys_fetched) == Some(
            ReplyModel::BadRequest("LTI launch: malformed 'id_token'"@),
        ),
{
}

/// Claims are refused for the first fault that they have: the token, the
/// `nonce`, the deployment, the kind of message, the settings of Deep Linking,
/// the username.
pub proof fn claims_are_refused_for_their_first_fault(launch: LaunchModel, claims: ClaimsModel)
    ensures
        admission(launch, None) == Err::<Admission, ReplyModel>(
            ReplyModel::BadRequest("LTI launch: token verification failed"@),
        ),
        ({
            let platform = launch.platform;
            let res = admission(launch, Some(claims));
            let core = {
                &&& claims.iss == platform.issuer
                &&& claims.aud.contains(platform.client_id)
                &&& claims.azp is None || claims.azp == Some(platform.client_id)
            };
            let nonce = claims.nonce == Some(launch.login.nonce);
            let deployed = match platform.deployments {
                PolicyModel::Fixed(pinned) => claims.deployment_id == pinned,
                PolicyModel::TrustOnFirstUse { .. } => true,
            };
            let content = claims.message_type is None || claims.message_type == Some(
                "LtiResourceLinkRequest"@,
            );
            let selection = claims.message_type == Some("LtiDeepLinkingRequest"@);
            &&& !core ==> res == Err::<Admission, ReplyModel>(
                ReplyModel::BadRequest("LTI launch: token verification failed"@),
            )
            &&& core && !nonce ==> res == Err::<Admission, ReplyModel>(
                ReplyModel::BadRequest("LTI launch: nonce mismatch"@),
            )
            &&& core && nonce && !deployed ==> res == Err::<Admission, ReplyModel>(
                ReplyModel::BadRequest("LTI launch: deployment_id mismatch"@),
            )
            &&& core && nonce && deployed && !content && !selection ==> res == Err::<
                Admission,
                ReplyModel,
            >(ReplyModel::BadRequest("LTI launch: unsupported message type"@))
        }),
{
    message_type_alone_decides_the_kind(claims);
}

/// Claims without such a fault are admitted just if they name a user and, for
/// Deep Linking, have usable settings. A content launch is admitted without
/// settings, whatever the claims hold; a selection with those of the claims.
pub proof fn faultless_claims_are_admitted(launch: LaunchModel, claims: ClaimsModel)
    requires
        claims.iss == launch.platform.issuer,
        claims.aud.contains(launch.platform.client_id),
        claims.azp is None || claims.azp == Some(launch.platform.client_id),
        claims.nonce == Some(launch.login.nonce),
        launch.platform.deployments is Fixed ==> claims.deployment_id
            == launch.platform.deployments->Fixed_0,
    ensures
        ({
            let res = admission(launch, Some(claims));
            let username = claims.username(launch.platform.username_source);
            let settings = claims.deep_linking_settings;
            let content = claims.message_type is None || claims.message_type == Some(
                "LtiResourceLinkRequest"@,
            );
            let selection = claims.message_type == Some("LtiDeepLinkingRequest"@);
            let nameless = Err::<Admission, ReplyModel>(
                ReplyModel::BadRequest("LTI launch: no username provided by platform"@),
            );
            &&& content && username is None ==> res == nameless
            &&& content && username is Some ==> {
                &&& res is Ok
                &&& res->Ok_0.settings is None
                &&& Some(res->Ok_0.username) == username
            }
            &&& selection && deep_linking_fault(settings) is Some ==> res == Err::<
                Admission,
                ReplyModel,
            >(deep_linking_fault(settings)->0)
            &&& selection && deep_linking_fault(settings) is None && username is None ==> res
                == nameless
            &&& selection && deep_linking_fault(settings) is None && username is Some ==> {
                &&& res is Ok
                &&& res->Ok_0.settings == settings
                &&& Some(res->Ok_0.username) == username
            }
        }),
{
    message_type_alone_decides_the_kind(claims);
}

/// The user of a launch has their name and address from the claims, their name
/// being the username where the claims have none, and their roles from Opencast
/// alone. A user that Opencast does not know gets no session.
pub proof fn user_has_roles_from_opencast_alone(launch: AdmittedModel, answer: OpencastAnswer)
    ensures
        answer is Unknown ==> launch.user(answer) == Err::<UserModel, ReplyModel>(
            ReplyModel::BadRequest("LTI launch: user unknown to Opencast"@),
        ),
        answer is Failed ==> launch.user(answer) == Err::<UserModel, ReplyModel>(
            ReplyModel::InternalServerError,
        ),
        answer matches OpencastAnswer::Known(known) ==> {
            let user = launch.user(answer)->Ok_0;
            &&& launch.user(answer) is Ok
            &&& user.username == launch.admission.username
            &&& launch.claims.name is Some ==> Some(user.display_name) == launch.claims.name
            &&& launch.claims.name is None ==> user.display_name == launch.admission.username
            &&& user.email == launch.claims.email
            &&& user.user_role == known.user_role@
            &&& user.roles.len() == known.roles@.len()
            &&& forall|i: int|
                0 <= i < known.roles@.len() ==> #[trigger] user.roles[i] == known.roles@[i]@
            &&& user.user_realm_handle is None
        },
{
}

/// A launch goes on with the settings it was admitted with, the deployment and
/// the series of its claims, and the target of its login.
pub proof fn launch_goes_on_with_what_it_brought(launch: AdmittedModel)
    ensures
        launch.landing().settings == launch.admission.settings,
        launch.landing().platform == launch.launch.platform,
        launch.landing().deployment_id == launch.claims.deployment_id,
        launch.landing().series == launch.claims.custom_text("series"@),
        launch.landing().target_link_uri == launch.launch.login.target_link_uri,
{
}

/// The deployment of a launch is to be remembered just if the platform is a
/// registered one that does not know it, and then for that registration.
pub proof fn deployment_is_remembered_where_it_is_new(launch: AdmittedModel)
    ensures
        ({
            let id = launch.claims.deployment_id;
            match launch.launch.platform.deployments {
                PolicyModel::Fixed(_) => launch.deployment_to_remember() is None,
                PolicyModel::TrustOnFirstUse { registration_id, known } => {
                    &&& known.contains(id) ==> launch.deployment_to_remember() is None
                    &&& !known.contains(id) ==> launch.deployment_to_remember() == Some(
                        (registration_id, id),
                    )
                },
            }
        }),
{
}

/// A launch that is refused at one of its steps is answered so, and a launch
/// that passes all of them is for the user, and goes on where, the last two
/// steps say.
pub proof fn launch_takes_its_steps_in_order(c: Circumstances)
    ensures
        ({
            let begun = begun_launch(c.pairs, c.logins);
            let opened = opened_launch(begun->Ok_0, c.platforms, c.row);
            let fault = token_fault(opened->Ok_0.id_token, c.keys_fetched);
            let admitted = admission(opened->Ok_0, c.claims);
            let user = launched_user(c);
            &&& begun is Err ==> user == Err::<UserModel, ReplyModel>(begun->Err_0)
            &&& begun is Ok && opened is Err ==> user == Err::<UserModel, ReplyModel>(
                opened->Err_0,
            )
            &&& begun is Ok && opened is Ok && fault is Some ==> user == Err::<
                UserModel,
                ReplyModel,
            >(fault->0)
            &&& begun is Ok && opened is Ok && fault is None && admitted is Err ==> user == Err::<
                UserModel,
                ReplyModel,
            >(admitted->Err_0)
            &&& begun is Ok && opened is Ok && fault is None && admitted is Ok ==> {
                let launch = AdmittedModel {
                    launch: opened->Ok_0,
                    claims: c.claims->0,
                    admission: admitted->Ok_0,
                };
                user == launch.user(c.opencast) && launched_landing(c) == launch.landing()
            }
        }),
{
}

/// The clocks of the platform and the tool may be ten seconds apart.
pub proof fn clocks_may_be_ten_seconds_apart()
    ensures
        ALLOWED_CLOCK_SKEW == 10,
{
}

/// The outcome of beginning a launch is the expected launch, or the expected
/// refusal.
pub proof fn outcome_is_the_expected_one(
    res: Result<BegunLaunch, Reply>,
    expected: Result<BegunModel, ReplyModel>,
)
    requires
        is_begun(res, expected),
    ensures
        res is Ok <==> expected is Ok,
        res is Ok ==> res->Ok_0@ == expected->Ok_0,
        res is Err ==> res->Err_0@ == expected->Err_0,
{
}

/// A launch needs no registration where a configured platform has the issuer and
/// the client of its login.
pub proof fn configured_launch_needs_no_registration(
    launch: BegunModel,
    platforms: Seq<PlatformModel>,
    i: int,
)
    requires
        0 <= i < platforms.len(),
        platforms[i].issuer == launch.login.issuer,
        platforms[i].client_id == launch.login.client_id,
    ensures
        launch.needed_registration(platforms) is None,
{
    found_platform_is_configured(
        platforms,
        launch.login.issuer,
        Some(launch.login.client_id),
    );
}

/// The model of a user holds each field as it is.
pub proof fn model_of_a_user_holds_each_field(user: User)
    ensures
        user@.username == user.username@,
        user@.display_name == user.display_name@,
        user@.email == optional_text(user.email),
        user@.user_role == user.user_role@,
        user@.roles == texts(user.roles@),
        user@.user_realm_handle == optional_text(user.user_realm_handle),
{
}

} // verus!
