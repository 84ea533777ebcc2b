//! The claims of a launch token, and what is read from them.

use crate::config::LtiUsernameSource;
use crate::deeplink::{optional_settings, DeepLinkingSettingsClaim, SettingsModel};
use crate::form::{absent_parameter_has_no_value, last_value_counts, optional_str, value_of};
use crate::text::{contains_text, copy_optional, optional_text, same_text, texts};
use vstd::prelude::*;

verus! {

/// Specifies `std::slice::from_ref`: the slice whose one element is the
/// referenced value.
pub assume_specification<T>[ std::slice::from_ref::<T> ](s: &T) -> (res: &[T])
    ensures
        res@ == seq![*s],
;

/// A JSON value that may be a single item or an array of them (e.g. `aud`).
pub enum MaybeArray<T> {
    Single(T),
    Array(Vec<T>),
}

impl<T> View for MaybeArray<T> {
    type V = Seq<T>;

    open spec fn view(&self) -> Seq<T> {
        match self {
            MaybeArray::Single(single) => seq![*single],
            MaybeArray::Array(items) => items@,
        }
    }
}

impl<T> MaybeArray<T> {
    /// The items.
    pub fn as_slice(&self) -> (res: &[T])
        ensures
            res@ == self@,
    {
        match self {
            MaybeArray::Single(single) => std::slice::from_ref(single),
            MaybeArray::Array(items) => items.as_slice(),
        }
    }
}

/// The subset of LTI 1.3 launch claims that is read.
pub struct LtiClaims {
    pub iss: String,
    pub aud: MaybeArray<String>,
    pub azp: Option<String>,
    pub sub: String,
    pub nonce: Option<String>,
    /// The full name of the user.
    pub name: Option<String>,
    pub preferred_username: Option<String>,
    pub email: Option<String>,
    /// What kind of message this launch is (resource link, deep linking, ...).
    pub message_type: Option<String>,
    /// Settings of a Deep Linking request; only present on those.
    pub deep_linking_settings: Option<DeepLinkingSettingsClaim>,
    pub deployment_id: String,
    /// Custom parameters configured for this placement in the platform: each
    /// name with its value, or with `None` where the value is not a string.
    pub custom: Option<Vec<(String, Option<String>)>>,
}

/// [`LtiClaims`] with texts in place of strings.
pub struct ClaimsModel {
    pub iss: Seq<char>,
    pub aud: Seq<Seq<char>>,
    pub azp: Option<Seq<char>>,
    pub sub: Seq<char>,
    pub nonce: Option<Seq<char>>,
    pub name: Option<Seq<char>>,
    pub preferred_username: Option<Seq<char>>,
    pub email: Option<Seq<char>>,
    pub message_type: Option<Seq<char>>,
    pub deep_linking_settings: Option<SettingsModel>,
    pub deployment_id: Seq<char>,
    pub custom: Option<Seq<(Seq<char>, Option<Seq<char>>)>>,
}

/// The texts of a list of custom parameters.
pub open spec fn custom_texts(params: Seq<(String, Option<String>)>) -> Seq<
    (Seq<char>, Option<Seq<char>>),
> {
    Seq::new(params.len(), |i: int| (params[i].0@, optional_text(params[i].1)))
}

impl View for LtiClaims {
    type V = ClaimsModel;

    open spec fn view(&self) -> ClaimsModel {
        ClaimsModel {
            iss: self.iss@,
            aud: texts(self.aud@),
            azp: optional_text(self.azp),
            sub: self.sub@,
            nonce: optional_text(self.nonce),
            name: optional_text(self.name),
            preferred_username: optional_text(self.preferred_username),
            email: optional_text(self.email),
            message_type: optional_text(self.message_type),
            deep_linking_settings: optional_settings(self.deep_linking_settings),
            deployment_id: self.deployment_id@,
            custom: match self.custom {
                Some(params) => Some(custom_texts(params@)),
                None => None,
            },
        }
    }
}

impl ClaimsModel {
    /// The custom parameter `name`, if there is one and it is a string.
    pub open spec fn custom_text(self, name: Seq<char>) -> Option<Seq<char>> {
        match self.custom {
            Some(params) => match value_of(params, name) {
                Some(value) => value,
                None => None,
            },
            None => None,
        }
    }

    /// What kind of message the launch carries. A launch without a message
    /// type counts as a resource link.
    pub open spec fn kind(self) -> Option<LaunchKind> {
        match self.message_type {
            None => Some(LaunchKind::ResourceLink),
            Some(ty) => if ty == "LtiResourceLinkRequest"@ {
                Some(LaunchKind::ResourceLink)
            } else if ty == "LtiDeepLinkingRequest"@ {
                Some(LaunchKind::DeepLinking)
            } else {
                None
            },
        }
    }

    /// The Opencast username, read from the claim that `source` names and
    /// from no other.
    pub open spec fn username(self, source: LtiUsernameSource) -> Option<Seq<char>> {
        match source {
            LtiUsernameSource::PreferredUsername => self.preferred_username,
            LtiUsernameSource::Sub => Some(self.sub),
            LtiUsernameSource::Custom => match self.custom_text("username"@) {
                Some(username) if username.len() > 0 => Some(username),
                _ => None,
            },
        }
    }

    /// The first core claim that does not fit the registration of the
    /// platform.
    pub open spec fn mismatch(self, issuer: Seq<char>, client_id: Seq<char>) -> Option<
        ClaimMismatch,
    > {
        if self.iss != issuer {
            Some(ClaimMismatch::Issuer)
        } else if !self.aud.contains(client_id) {
            Some(ClaimMismatch::Audience)
        } else if self.azp is Some && self.azp->0 != client_id {
            Some(ClaimMismatch::AuthorizedParty)
        } else {
            None
        }
    }
}

impl LtiClaims {
    /// The custom parameter `name`, if there is one and it is a string.
    pub fn custom_text(&self, name: &str) -> (res: Option<&str>)
        ensures
            optional_str(res) == self@.custom_text(name@),
    {
        let params = match &self.custom {
            Some(params) => params,
            None => return None,
        };
        let ghost all = custom_texts(params@);
        let mut i: usize = params.len();
        assert(all.take(i as int) =~= all);
        while i > 0
            invariant
                i <= params@.len(),
                all == custom_texts(params@),
                self@.custom == Some(all),
                value_of(all, name@) == value_of(all.take(i as int), name@),
            decreases i,
        {
            i -= 1;
            let ghost front = all.take(i as int + 1);
            assert(front.drop_last() =~= all.take(i as int));
            assert(front.last() == (params@[i as int].0@, optional_text(params@[i as int].1)));
            if same_text(params[i].0.as_str(), name) {
                return match &params[i].1 {
                    Some(value) => Some(value.as_str()),
                    None => None,
                };
            }
        }
        None
    }
}

/// The kind of LTI message a launch carries.
#[derive(Clone, Copy, Debug, PartialEq, Eq, Structural)]
pub enum LaunchKind {
    /// A regular content launch (`LtiResourceLinkRequest`).
    ResourceLink,
    /// A Deep Linking content selection request (`LtiDeepLinkingRequest`).
    DeepLinking,
}

/// Classifies the launch by its `message_type` claim. An absent claim is
/// treated as a resource link: the standard requires the claim, but being
/// lenient here keeps working platform configurations working. Unknown types
/// yield `None` and must be rejected.
pub fn launch_kind(claims: &LtiClaims) -> (res: Option<LaunchKind>)
    ensures
        res == claims@.kind(),
{
    match &claims.message_type {
        None => Some(LaunchKind::ResourceLink),
        Some(ty) => if same_text(ty.as_str(), "LtiResourceLinkRequest") {
            Some(LaunchKind::ResourceLink)
        } else if same_text(ty.as_str(), "LtiDeepLinkingRequest") {
            Some(LaunchKind::DeepLinking)
        } else {
            None
        },
    }
}

/// Determines the Opencast username from the launch claims, using the source
/// the platform is configured with. Returns `None` if that claim is absent, so
/// the caller can reject the launch instead of guessing an identity.
pub fn resolve_username(claims: &LtiClaims, source: LtiUsernameSource) -> (res: Option<String>)
    ensures
        optional_text(res) == claims@.username(source),
{
    match source {
        LtiUsernameSource::PreferredUsername => copy_optional(&claims.preferred_username),
        LtiUsernameSource::Sub => Some(claims.sub.clone()),
        LtiUsernameSource::Custom => match claims.custom_text("username") {
            Some(username) => if username.is_empty() {
                None
            } else {
                Some(username.to_owned())
            },
            None => None,
        },
    }
}

/// A core claim that does not fit the registration of the platform.
#[derive(Clone, Copy, Debug, PartialEq, Eq, Structural)]
pub enum ClaimMismatch {
    Issuer,
    Audience,
    AuthorizedParty,
}

impl ClaimMismatch {
    /// The mismatch in words.
    pub open spec fn text(self) -> Seq<char> {
        match self {
            ClaimMismatch::Issuer => "'iss' does not match platform"@,
            ClaimMismatch::Audience => "'aud' does not contain client ID"@,
            ClaimMismatch::AuthorizedParty => "'azp' does not match client ID"@,
        }
    }

    /// The mismatch in words.
    pub fn message(&self) -> (res: &'static str)
        ensures
            res@ == self.text(),
    {
        match self {
            ClaimMismatch::Issuer => "'iss' does not match platform",
            ClaimMismatch::Audience => "'aud' does not contain client ID",
            ClaimMismatch::AuthorizedParty => "'azp' does not match client ID",
        }
    }
}

/// Verifies the core claims of a launch token, after its signature: `iss`,
/// `aud` and `azp` have to fit the registration of the platform.
pub struct LtiLaunchValidator<'a> {
    pub issuer: &'a str,
    pub client_id: &'a str,
}

impl<'a> LtiLaunchValidator<'a> {
    /// Checks the claims, in the order `iss`, `aud`, `azp`.
    pub fn validate(&self, claims: &LtiClaims) -> (res: Result<(), ClaimMismatch>)
        ensures
            match claims@.mismatch(self.issuer@, self.client_id@) {
                Some(mismatch) => res == Err::<(), ClaimMismatch>(mismatch),
                None => res == Ok::<(), ClaimMismatch>(()),
            },
    {
        if !same_text(claims.iss.as_str(), self.issuer) {
            return Err(ClaimMismatch::Issuer);
        }
        if !contains_text(claims.aud.as_slice(), self.client_id) {
            return Err(ClaimMismatch::Audience);
        }
        match &claims.azp {
            Some(azp) => if !same_text(azp.as_str(), self.client_id) {
                return Err(ClaimMismatch::AuthorizedParty);
            },
            None => {},
        }
        Ok(())
    }
}

/// A custom parameter is what stands last under its name: a string, or nothing
/// that counts.
pub proof fn custom_parameter_is_the_last_of_its_name(
    claims: ClaimsModel,
    name: Seq<char>,
    i: int,
)
    requires
        claims.custom is Some,
        0 <= i < claims.custom->0.len(),
        claims.custom->0[i].0 == name,
        forall|j: int|
            i < j < claims.custom->0.len() ==> (#[trigger] claims.custom->0[j]).0 != name,
    ensures
        claims.custom_text(name) == claims.custom->0[i].1,
{
    last_value_counts(claims.custom->0, name, i);
}

/// Without a parameter of that name there is no custom parameter, whatever the
/// other claims hold.
pub proof fn absent_custom_parameter_is_none(claims: ClaimsModel, name: Seq<char>)
    requires
        claims.custom is Some ==> forall|i: int|
            0 <= i < claims.custom->0.len() ==> (#[trigger] claims.custom->0[i]).0 != name,
    ensures
        claims.custom_text(name) is None,
{
    if claims.custom is Some {
        absent_parameter_has_no_value(claims.custom->0, name);
    }
}

/// The username depends on the claim that the source names and on no other:
/// two sets of claims that agree in it give the same username.
pub proof fn username_depends_on_its_claim_alone(a: ClaimsModel, b: ClaimsModel)
    ensures
        a.preferred_username == b.preferred_username ==> a.username(
            LtiUsernameSource::PreferredUsername,
        ) == b.username(LtiUsernameSource::PreferredUsername),
        a.sub == b.sub ==> a.username(LtiUsernameSource::Sub) == b.username(
            LtiUsernameSource::Sub,
        ),
        a.custom == b.custom ==> a.username(LtiUsernameSource::Custom) == b.username(
            LtiUsernameSource::Custom,
        ),
{
}

/// The username is what the claim holds that the source names. There is none
/// where the claim is absent, and none where the custom parameter `username` is
/// absent, empty or not a string.
pub proof fn username_is_what_its_claim_holds(claims: ClaimsModel)
    ensures
        claims.username(LtiUsernameSource::PreferredUsername) == claims.preferred_username,
        claims.username(LtiUsernameSource::Sub) == Some(claims.sub),
        claims.custom_text("username"@) is None ==> claims.username(
            LtiUsernameSource::Custom,
        ) is None,
        claims.custom_text("username"@) == Some(Seq::<char>::empty()) ==> claims.username(
            LtiUsernameSource::Custom,
        ) is None,
        claims.custom_text("username"@) is Some && claims.custom_text("username"@)->0.len() > 0
            ==> claims.username(LtiUsernameSource::Custom) == claims.custom_text("username"@),
        claims.custom is None ==> claims.username(LtiUsernameSource::Custom) is None,
{
}

/// The custom parameter `username`, where it is a string that is not empty, is
/// the username of the source `Custom`, whatever stands in other claims.
pub proof fn custom_username_is_the_parameter(claims: ClaimsModel, i: int)
    requires
        claims.custom is Some,
        0 <= i < claims.custom->0.len(),
        claims.custom->0[i].0 == "username"@,
        forall|j: int|
            i < j < claims.custom->0.len() ==> (#[trigger] claims.custom->0[j]).0
                != "username"@,
    ensures
        claims.username(LtiUsernameSource::Custom) == (match claims.custom->0[i].1 {
            Some(username) if username.len() > 0 => Some(username),
            _ => None,
        }),
{
    custom_parameter_is_the_last_of_its_name(claims, "username"@, i);
}

/// A launch is for content if it says so or says nothing, a request for a
/// selection if it says so, and of no known kind if it says anything else.
pub proof fn message_type_alone_decides_the_kind(claims: ClaimsModel)
    ensures
        claims.kind() == Some(LaunchKind::ResourceLink) <==> (claims.message_type is None
            || claims.message_type == Some("LtiResourceLinkRequest"@)),
        claims.kind() == Some(LaunchKind::DeepLinking) <==> claims.message_type == Some(
            "LtiDeepLinkingRequest"@,
        ),
{
    reveal_strlit("LtiResourceLinkRequest");
    reveal_strlit("LtiDeepLinkingRequest");
    assert("LtiResourceLinkRequest"@.len() == 22);
    assert("LtiDeepLinkingRequest"@.len() == 21);
}

/// The core claims fit just if the issuer is the platform's, the client is
/// among those the token is for, and no other party is authorized. Otherwise
/// the first claim that does not fit is named.
pub proof fn core_claims_fit_just_if_all_do(
    claims: ClaimsModel,
    issuer: Seq<char>,
    client_id: Seq<char>,
)
    ensures
        claims.mismatch(issuer, client_id) is None <==> {
            &&& claims.iss == issuer
            &&& exists|i: int| 0 <= i < claims.aud.len() && #[trigger] claims.aud[i] == client_id
            &&& claims.azp is None || claims.azp == Some(client_id)
        },
        claims.mismatch(issuer, client_id) == Some(ClaimMismatch::Issuer) <==> claims.iss
            != issuer,
        claims.mismatch(issuer, client_id) == Some(ClaimMismatch::Audience) <==> claims.iss
            == issuer && forall|i: int|
            0 <= i < claims.aud.len() ==> #[trigger] claims.aud[i] != client_id,
{
}

/// The model of claims holds each claim as it is.
pub proof fn model_of_claims_holds_each_claim(claims: LtiClaims, i: int)
    ensures
        claims@.iss == claims.iss@,
        claims@.sub == claims.sub@,
        claims@.deployment_id == claims.deployment_id@,
        claims@.azp == optional_text(claims.azp),
        claims@.nonce == optional_text(claims.nonce),
        claims@.name == optional_text(claims.name),
        claims@.preferred_username == optional_text(claims.preferred_username),
        claims@.email == optional_text(claims.email),
        claims@.message_type == optional_text(claims.message_type),
        claims.aud matches MaybeArray::Single(single) ==> claims@.aud =~= seq![single@],
        claims.aud matches MaybeArray::Array(items) ==> claims@.aud.len() == items@.len() && (0
            <= i < items@.len() ==> claims@.aud[i] == items@[i]@),
        claims.custom is None ==> claims@.custom is None,
        claims.custom matches Some(params) ==> {
            &&& claims@.custom is Some
            &&& claims@.custom->0.len() == params@.len()
            &&& 0 <= i < params@.len() ==> claims@.custom->0[i].0 == params@[i].0@
                && claims@.custom->0[i].1 == optional_text(params@[i].1)
        },
        claims.deep_linking_settings is None ==> claims@.deep_linking_settings is None,
        claims.deep_linking_settings matches Some(settings) ==> {
            let model = claims@.deep_linking_settings;
            &&& model is Some
            &&& model->0.deep_link_return_url == settings.deep_link_return_url@
            &&& model->0.data == optional_text(settings.data)
            &&& model->0.accept_types.len() == settings.accept_types@.len()
            &&& 0 <= i < settings.accept_types@.len() ==> model->0.accept_types[i]
                == settings.accept_types@[i]@
        },
{
}

} // verus!
