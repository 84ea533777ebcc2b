//! Platforms that registered themselves at runtime (Dynamic Registration),
//! the counterpart to the configured ones.

use crate::config::{
    first_fitting_platform_is_found, first_platform, found_platform_is_configured,
    found_platform_is_found_again, is_platform, stored_source, unconfigured_platform_is_not_found,
    username_sources_have_one_name_each, LtiConfig, LtiPlatform, LtiUsernameSource, PlatformModel,
};
use crate::form::optional_str;
use crate::http_url::{optional_url, web_url, HttpUrl, UrlModel};
use crate::text::{contains_text, same_text, texts};
use vstd::prelude::*;

verus! {

/// How deployment IDs are checked for a platform.
pub enum DeploymentPolicy {
    /// Configured platforms pin exactly one deployment ID.
    Fixed(String),
    /// Registrations cover the whole platform: deployment IDs not seen before
    /// are accepted on first use and remembered. The platform was registered
    /// as a whole; authenticity rests on the signature of the token and on the
    /// checks of its claims either way.
    TrustOnFirstUse { registration_id: i64, known: Vec<String> },
}

/// [`DeploymentPolicy`] with texts in place of strings.
pub enum PolicyModel {
    Fixed(Seq<char>),
    TrustOnFirstUse { registration_id: i64, known: Seq<Seq<char>> },
}

impl View for DeploymentPolicy {
    type V = PolicyModel;

    open spec fn view(&self) -> PolicyModel {
        match self {
            DeploymentPolicy::Fixed(id) => PolicyModel::Fixed(id@),
            DeploymentPolicy::TrustOnFirstUse { registration_id, known } => {
                PolicyModel::TrustOnFirstUse {
                    registration_id: *registration_id,
                    known: texts(known@),
                }
            },
        }
    }
}

/// Whether a launch from the deployment `id` is accepted: a pinned deployment
/// is the only one, and a registration covers them all.
pub open spec fn deployment_accepted(policy: PolicyModel, id: Seq<char>) -> bool {
    policy matches PolicyModel::Fixed(pinned) ==> id == pinned
}

/// The registration whose known deployments the deployment `id` has to be
/// added to, if it is accepted for the first time.
pub open spec fn first_used_in(policy: PolicyModel, id: Seq<char>) -> Option<i64> {
    match policy {
        PolicyModel::TrustOnFirstUse { registration_id, known } if !known.contains(id) => Some(
            registration_id,
        ),
        _ => None,
    }
}

impl DeploymentPolicy {
    /// Whether a launch from the deployment `id` is accepted.
    pub fn accepts(&self, id: &str) -> (res: bool)
        ensures
            res == deployment_accepted(self@, id@),
    {
        match self {
            DeploymentPolicy::Fixed(pinned) => same_text(id, pinned.as_str()),
            DeploymentPolicy::TrustOnFirstUse { .. } => true,
        }
    }

    /// The registration that has to remember the deployment `id`, if it is
    /// accepted for the first time.
    pub fn first_use(&self, id: &str) -> (res: Option<i64>)
        ensures
            res == first_used_in(self@, id@),
    {
        match self {
            DeploymentPolicy::Fixed(_) => None,
            DeploymentPolicy::TrustOnFirstUse { registration_id, known } => if contains_text(
                known.as_slice(),
                id,
            ) {
                None
            } else {
                Some(*registration_id)
            },
        }
    }
}

/// The platform that a login or launch resolved to: a configured one or a
/// registered one.
pub struct ResolvedPlatform {
    pub issuer: String,
    pub client_id: String,
    pub auth_login_url: HttpUrl,
    pub keyset_url: HttpUrl,
    pub username_source: LtiUsernameSource,
    pub deployments: DeploymentPolicy,
}

/// [`ResolvedPlatform`] with texts in place of strings.
pub struct ResolvedModel {
    pub issuer: Seq<char>,
    pub client_id: Seq<char>,
    pub auth_login_url: UrlModel,
    pub keyset_url: UrlModel,
    pub username_source: LtiUsernameSource,
    pub deployments: PolicyModel,
}

impl View for ResolvedPlatform {
    type V = ResolvedModel;

    open spec fn view(&self) -> ResolvedModel {
        ResolvedModel {
            issuer: self.issuer@,
            client_id: self.client_id@,
            auth_login_url: self.auth_login_url@,
            keyset_url: self.keyset_url@,
            username_source: self.username_source,
            deployments: self.deployments@,
        }
    }
}

/// The model of an optional resolution.
pub open spec fn optional_resolved(platform: Option<ResolvedPlatform>) -> Option<ResolvedModel> {
    match platform {
        Some(platform) => Some(platform@),
        None => None,
    }
}

/// A registration as the database holds it.
pub struct RegistrationRow {
    pub id: i64,
    pub client_id: String,
    pub auth_login_url: String,
    pub keyset_url: String,
    pub deployment_ids: Vec<String>,
    pub username_source: String,
}

/// [`RegistrationRow`] with texts in place of strings.
pub struct RowModel {
    pub id: i64,
    pub client_id: Seq<char>,
    pub auth_login_url: Seq<char>,
    pub keyset_url: Seq<char>,
    pub deployment_ids: Seq<Seq<char>>,
    pub username_source: Seq<char>,
}

impl View for RegistrationRow {
    type V = RowModel;

    open spec fn view(&self) -> RowModel {
        RowModel {
            id: self.id,
            client_id: self.client_id@,
            auth_login_url: self.auth_login_url@,
            keyset_url: self.keyset_url@,
            deployment_ids: texts(self.deployment_ids@),
            username_source: self.username_source@,
        }
    }
}

/// The model of an optional row.
pub open spec fn optional_row(row: Option<RegistrationRow>) -> Option<RowModel> {
    match row {
        Some(row) => Some(row@),
        None => None,
    }
}

impl PlatformModel {
    /// A configured platform, with its one deployment.
    pub open spec fn resolved(self) -> ResolvedModel {
        ResolvedModel {
            issuer: self.issuer,
            client_id: self.client_id,
            auth_login_url: self.auth_login_url,
            keyset_url: self.keyset_url,
            username_source: self.username_source,
            deployments: PolicyModel::Fixed(self.deployment_id),
        }
    }
}

impl RowModel {
    /// The registered platform, given what its two URLs are parsed to. A
    /// username source that is not understood counts as the default.
    pub open spec fn with_urls(
        self,
        issuer: Seq<char>,
        auth_login_url: Option<UrlModel>,
        keyset_url: Option<UrlModel>,
    ) -> Option<ResolvedModel> {
        match (auth_login_url, keyset_url) {
            (Some(auth_login_url), Some(keyset_url)) => Some(
                ResolvedModel {
                    issuer,
                    client_id: self.client_id,
                    auth_login_url,
                    keyset_url,
                    username_source: match stored_source(self.username_source) {
                        Some(source) => source,
                        None => LtiUsernameSource::PreferredUsername,
                    },
                    deployments: PolicyModel::TrustOnFirstUse {
                        registration_id: self.id,
                        known: self.deployment_ids,
                    },
                },
            ),
            _ => None,
        }
    }

    /// The registered platform. There is none if the request names another
    /// client, or if the URLs are not usable.
    pub open spec fn resolved(self, issuer: Seq<char>, client_id: Option<Seq<char>>) -> Option<
        ResolvedModel,
    > {
        if client_id is Some && client_id->0 != self.client_id {
            None
        } else {
            self.with_urls(issuer, web_url(self.auth_login_url), web_url(self.keyset_url))
        }
    }
}

/// The platform for an issuer and perhaps a client: the configuration wins,
/// then comes the registration of the issuer.
pub open spec fn resolution(
    platforms: Seq<PlatformModel>,
    issuer: Seq<char>,
    client_id: Option<Seq<char>>,
    row: Option<RowModel>,
) -> Option<ResolvedModel> {
    match first_platform(platforms, issuer, client_id) {
        Some(platform) => Some(platform.resolved()),
        None => match row {
            Some(row) => row.resolved(issuer, client_id),
            None => None,
        },
    }
}

impl ResolvedPlatform {
    /// A configured platform.
    pub fn from_config(platform: &LtiPlatform) -> (res: ResolvedPlatform)
        ensures
            res@ == platform@.resolved(),
    {
        ResolvedPlatform {
            issuer: platform.issuer.clone(),
            client_id: platform.client_id.clone(),
            auth_login_url: platform.auth_login_url.clone(),
            keyset_url: platform.keyset_url.clone(),
            username_source: platform.username_source,
            deployments: DeploymentPolicy::Fixed(platform.deployment_id.clone()),
        }
    }
}

/// Looks up the platform among the configured ones.
pub fn resolve_configured(config: &LtiConfig, issuer: &str, client_id: Option<&str>) -> (res:
    Option<ResolvedPlatform>)
    ensures
        match first_platform(config.platform_models(), issuer@, optional_str(client_id)) {
            Some(platform) => res matches Some(resolved) && resolved@ == platform.resolved(),
            None => res is None,
        },
{
    match config.lookup(issuer, client_id) {
        Some(platform) => Some(ResolvedPlatform::from_config(platform)),
        None => None,
    }
}

/// A registered platform whose URLs have been parsed.
pub fn registered_platform(
    issuer: &str,
    row: RegistrationRow,
    auth_login_url: Option<HttpUrl>,
    keyset_url: Option<HttpUrl>,
) -> (res: Option<ResolvedPlatform>)
    ensures
        optional_resolved(res) == row@.with_urls(
            issuer@,
            optional_url(auth_login_url),
            optional_url(keyset_url),
        ),
{
    let auth_login_url = match auth_login_url {
        Some(url) => url,
        None => return None,
    };
    let keyset_url = match keyset_url {
        Some(url) => url,
        None => return None,
    };
    let username_source = match LtiUsernameSource::from_db_value(row.username_source.as_str()) {
        Some(source) => source,
        None => LtiUsernameSource::default(),
    };
    Some(
        ResolvedPlatform {
            issuer: issuer.to_owned(),
            client_id: row.client_id,
            auth_login_url,
            keyset_url,
            username_source,
            deployments: DeploymentPolicy::TrustOnFirstUse {
                registration_id: row.id,
                known: row.deployment_ids,
            },
        },
    )
}

/// Looks up the platform in the registration of its issuer.
pub fn resolve_registered(issuer: &str, client_id: Option<&str>, row: RegistrationRow) -> (res:
    Option<ResolvedPlatform>)
    ensures
        optional_resolved(res) == row@.resolved(issuer@, optional_str(client_id)),
{
    match client_id {
        Some(given) => if !same_text(given, row.client_id.as_str()) {
            return None;
        },
        None => {},
    }
    let auth_login_url = HttpUrl::parse(row.auth_login_url.as_str());
    let keyset_url = HttpUrl::parse(row.keyset_url.as_str());
    registered_platform(issuer, row, auth_login_url, keyset_url)
}

/// Looks up the platform for `issuer` and, if given, `client_id`, where `row`
/// is the registration of that issuer. `None` means that the platform is
/// unknown and must be rejected.
pub fn resolve_platform(
    config: &LtiConfig,
    issuer: &str,
    client_id: Option<&str>,
    row: Option<RegistrationRow>,
) -> (res: Option<ResolvedPlatform>)
    ensures
        optional_resolved(res) == resolution(
            config.platform_models(),
            issuer@,
            optional_str(client_id),
            optional_row(row),
        ),
{
    match resolve_configured(config, issuer, client_id) {
        Some(platform) => Some(platform),
        None => match row {
            Some(row) => resolve_registered(issuer, client_id, row),
            None => None,
        },
    }
}

/// The configuration wins: with a configured platform that fits, no
/// registration changes anything.
pub proof fn configuration_wins(
    platforms: Seq<PlatformModel>,
    issuer: Seq<char>,
    client_id: Option<Seq<char>>,
    row: Option<RowModel>,
)
    requires
        first_platform(platforms, issuer, client_id) is Some,
    ensures
        resolution(platforms, issuer, client_id, row) == Some(
            first_platform(platforms, issuer, client_id)->0.resolved(),
        ),
{
}

/// A platform that is resolved has the issuer that was asked for and, where
/// one was asked for, the client.
pub proof fn resolved_platform_fits_the_request(
    platforms: Seq<PlatformModel>,
    issuer: Seq<char>,
    client_id: Option<Seq<char>>,
    row: Option<RowModel>,
)
    requires
        resolution(platforms, issuer, client_id, row) is Some,
    ensures
        resolution(platforms, issuer, client_id, row)->0.issuer == issuer,
        client_id is Some ==> resolution(platforms, issuer, client_id, row)->0.client_id
            == client_id->0,
{
    found_platform_is_configured(platforms, issuer, client_id);
}

/// Whether a registration is still the same, although deployments may have
/// been added to it.
pub open spec fn is_same_registration(before: Option<RowModel>, after: Option<RowModel>) -> bool {
    match (before, after) {
        (Some(before), Some(after)) => after == (RowModel {
            deployment_ids: after.deployment_ids,
            ..before
        }),
        (None, None) => true,
        _ => false,
    }
}

/// A platform that a login resolved to, perhaps by its issuer alone, is
/// resolved again by its issuer and its client. Deployments that were added
/// meanwhile change nothing but what is known of them.
pub proof fn resolved_platform_is_resolved_again(
    platforms: Seq<PlatformModel>,
    issuer: Seq<char>,
    client_id: Option<Seq<char>>,
    before: Option<RowModel>,
    after: Option<RowModel>,
)
    requires
        resolution(platforms, issuer, client_id, before) is Some,
        is_same_registration(before, after),
    ensures
        ({
            let first = resolution(platforms, issuer, client_id, before)->0;
            let again = resolution(platforms, first.issuer, Some(first.client_id), after);
            &&& again is Some
            &&& again->0 == (ResolvedModel { deployments: again->0.deployments, ..first })
            &&& forall|id: Seq<char>|
                deployment_accepted(first.deployments, id) == #[trigger] deployment_accepted(
                    again->0.deployments,
                    id,
                )
        }),
{
    let first = resolution(platforms, issuer, client_id, before)->0;
    found_platform_is_configured(platforms, issuer, client_id);
    if first_platform(platforms, issuer, client_id) is Some {
        found_platform_is_found_again(platforms, issuer, client_id);
    } else {
        found_platform_is_configured(platforms, issuer, Some(first.client_id));
        if let Some(found) = first_platform(platforms, issuer, Some(first.client_id)) {
            let i = choose|i: int| 0 <= i < platforms.len() && platforms[i] == found;
            assert(!is_platform(platforms[i], issuer, client_id));
        }
    }
}

/// A deployment that was remembered is known from then on: it is accepted
/// without being remembered again, and the other ones are as they were.
pub proof fn remembered_deployment_is_known(
    row: RowModel,
    issuer: Seq<char>,
    client_id: Option<Seq<char>>,
    id: Seq<char>,
)
    requires
        row.resolved(issuer, client_id) is Some,
    ensures
        ({
            let remembered = RowModel { deployment_ids: row.deployment_ids.push(id), ..row };
            let before = row.resolved(issuer, client_id)->0.deployments;
            let after = remembered.resolved(issuer, client_id)->0.deployments;
            &&& remembered.resolved(issuer, client_id) is Some
            &&& deployment_accepted(before, id)
            &&& deployment_accepted(after, id)
            &&& first_used_in(after, id) is None
            &&& forall|other: Seq<char>|
                other != id ==> #[trigger] first_used_in(after, other) == first_used_in(
                    before,
                    other,
                )
        }),
{
    let known = row.deployment_ids;
    let more = known.push(id);
    assert(more.last() == id);
    assert forall|other: Seq<char>| other != id implies more.contains(other) == known.contains(
        other,
    ) by {
        if known.contains(other) {
            let i = choose|i: int| 0 <= i < known.len() && known[i] == other;
            assert(more[i] == other);
        }
        if more.contains(other) {
            let i = choose|i: int| 0 <= i < more.len() && more[i] == other;
            assert(known[i] == other);
        }
    }
}

/// Configured platforms pin one deployment; only registrations are trusted on
/// first use, and they start from the deployments that are on record.
pub proof fn only_registrations_are_trusted_on_first_use(
    platforms: Seq<PlatformModel>,
    issuer: Seq<char>,
    client_id: Option<Seq<char>>,
    row: Option<RowModel>,
)
    requires
        resolution(platforms, issuer, client_id, row) is Some,
    ensures
        match resolution(platforms, issuer, client_id, row)->0.deployments {
            PolicyModel::Fixed(id) => exists|platform: PlatformModel| #[trigger]
                platforms.contains(platform) && platform.issuer == issuer
                    && platform.deployment_id == id,
            PolicyModel::TrustOnFirstUse { registration_id, known } => {
                &&& first_platform(platforms, issuer, client_id) is None
                &&& row matches Some(row) && row.id == registration_id && row.deployment_ids
                    == known
            },
        },
{
    found_platform_is_configured(platforms, issuer, client_id);
    if let Some(platform) = first_platform(platforms, issuer, client_id) {
        assert(platforms.contains(platform));
    }
}

/// A pinned deployment is the only one that is accepted, and it is never
/// remembered. A registration accepts every deployment, and has to remember
/// just those that it does not know.
pub proof fn policy_decides_on_deployments(
    pinned: Seq<char>,
    registration_id: i64,
    known: Seq<Seq<char>>,
    id: Seq<char>,
)
    ensures
        deployment_accepted(PolicyModel::Fixed(pinned), id) <==> id == pinned,
        first_used_in(PolicyModel::Fixed(pinned), id) is None,
        deployment_accepted(PolicyModel::TrustOnFirstUse { registration_id, known }, id),
        first_used_in(PolicyModel::TrustOnFirstUse { registration_id, known }, id) is None
            <==> exists|i: int| 0 <= i < known.len() && #[trigger] known[i] == id,
        first_used_in(PolicyModel::TrustOnFirstUse { registration_id, known }, id) is Some
            ==> first_used_in(PolicyModel::TrustOnFirstUse { registration_id, known }, id)
            == Some(registration_id),
{
}

/// The first configured platform that fits is resolved as it is configured: its
/// issuer, its client, both its URLs, its username source, and its one
/// deployment.
pub proof fn configured_platform_is_resolved_as_it_is(
    platforms: Seq<PlatformModel>,
    issuer: Seq<char>,
    client_id: Option<Seq<char>>,
    row: Option<RowModel>,
    i: int,
)
    requires
        0 <= i < platforms.len(),
        platforms[i].issuer == issuer,
        client_id is Some ==> platforms[i].client_id == client_id->0,
        forall|j: int|
            0 <= j < i ==> (#[trigger] platforms[j]).issuer != issuer || (client_id is Some
                && platforms[j].client_id != client_id->0),
    ensures
        ({
            let resolved = resolution(platforms, issuer, client_id, row);
            &&& resolved is Some
            &&& resolved->0.issuer == platforms[i].issuer
            &&& resolved->0.client_id == platforms[i].client_id
            &&& resolved->0.auth_login_url == platforms[i].auth_login_url
            &&& resolved->0.keyset_url == platforms[i].keyset_url
            &&& resolved->0.username_source == platforms[i].username_source
            &&& resolved->0.deployments == PolicyModel::Fixed(platforms[i].deployment_id)
        }),
{
    first_fitting_platform_is_found(platforms, issuer, client_id, i);
}

/// Where no configured platform fits, a registration of the same client with
/// two usable URLs is resolved as its row has it: both URLs, the username source
/// that the row names, or else the default, and its deployments. Any other
/// registration does not resolve, nor does none.
pub proof fn registered_platform_is_resolved_as_its_row(
    platforms: Seq<PlatformModel>,
    issuer: Seq<char>,
    client_id: Option<Seq<char>>,
    row: RowModel,
)
    requires
        forall|i: int|
            0 <= i < platforms.len() ==> (#[trigger] platforms[i]).issuer != issuer || (client_id
                is Some && platforms[i].client_id != client_id->0),
    ensures
        resolution(platforms, issuer, client_id, None) is None,
        ({
            let resolved = resolution(platforms, issuer, client_id, Some(row));
            &&& resolved is Some <==> {
                &&& client_id is None || client_id == Some(row.client_id)
                &&& web_url(row.auth_login_url) is Some
                &&& web_url(row.keyset_url) is Some
            }
            &&& resolved is Some ==> {
                &&& resolved->0.issuer == issuer
                &&& resolved->0.client_id == row.client_id
                &&& Some(resolved->0.auth_login_url) == web_url(row.auth_login_url)
                &&& Some(resolved->0.keyset_url) == web_url(row.keyset_url)
                &&& row.username_source == "sub"@ <==> resolved->0.username_source
                    == LtiUsernameSource::Sub
                &&& row.username_source == "custom"@ <==> resolved->0.username_source
                    == LtiUsernameSource::Custom
                &&& resolved->0.deployments == (PolicyModel::TrustOnFirstUse {
                    registration_id: row.id,
                    known: row.deployment_ids,
                })
            }
        }),
{
    unconfigured_platform_is_not_found(platforms, issuer, client_id);
    username_sources_have_one_name_each(row.username_source);
}

/// A registered platform with its URLs given takes everything else from its row;
/// without one of them there is none.
pub proof fn row_and_urls_make_a_platform(
    row: RowModel,
    issuer: Seq<char>,
    auth_login_url: UrlModel,
    keyset_url: UrlModel,
)
    ensures
        row.with_urls(issuer, None, Some(keyset_url)) is None,
        row.with_urls(issuer, Some(auth_login_url), None) is None,
        row.with_urls(issuer, None, None) is None,
        ({
            let res = row.with_urls(issuer, Some(auth_login_url), Some(keyset_url));
            &&& res is Some
            &&& res->0.issuer == issuer
            &&& res->0.client_id == row.client_id
            &&& res->0.auth_login_url == auth_login_url
            &&& res->0.keyset_url == keyset_url
            &&& row.username_source == "sub"@ <==> res->0.username_source
                == LtiUsernameSource::Sub
            &&& row.username_source == "custom"@ <==> res->0.username_source
                == LtiUsernameSource::Custom
            &&& res->0.deployments == (PolicyModel::TrustOnFirstUse {
                registration_id: row.id,
                known: row.deployment_ids,
            })
        }),
{
    username_sources_have_one_name_each(row.username_source);
}

/// The models of a row and of a resolved platform hold each field as it is.
pub proof fn model_of_a_registration_holds_each_field(
    row: RegistrationRow,
    platform: ResolvedPlatform,
)
    ensures
        row@.id == row.id,
        row@.client_id == row.client_id@,
        row@.auth_login_url == row.auth_login_url@,
        row@.keyset_url == row.keyset_url@,
        row@.deployment_ids == texts(row.deployment_ids@),
        row@.username_source == row.username_source@,
        platform@.issuer == platform.issuer@,
        platform@.client_id == platform.client_id@,
        platform@.auth_login_url == platform.auth_login_url@,
        platform@.keyset_url == platform.keyset_url@,
        platform@.username_source == platform.username_source,
        platform.deployments matches DeploymentPolicy::Fixed(id) ==> platform@.deployments
            == PolicyModel::Fixed(id@),
        platform.deployments matches DeploymentPolicy::TrustOnFirstUse { registration_id, known }
            ==> platform@.deployments == (PolicyModel::TrustOnFirstUse {
            registration_id,
            known: texts(known@),
        }),
{
}

} // verus!
