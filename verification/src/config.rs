//! The platforms that may launch users into Tobira, as they are configured.

use crate::form::optional_str;
use crate::http_url::{HttpUrl, UrlModel};
use crate::text::same_text;
use vstd::prelude::*;

verus! {

/// Which claim of a launch holds the Opencast username. This is a decision
/// per platform: Canvas sends a trustworthy `preferred_username`, while Moodle
/// sends none and needs a custom parameter. `Custom` trusts whoever configures
/// the launch.
#[derive(Clone, Copy, Debug, PartialEq, Eq, Structural)]
pub enum LtiUsernameSource {
    /// The standard claim `preferred_username`, the safe default.
    PreferredUsername,
    /// The claim `sub`.
    Sub,
    /// The custom parameter `username`.
    Custom,
}

impl Default for LtiUsernameSource {
    fn default() -> (res: LtiUsernameSource)
        ensures
            res == LtiUsernameSource::PreferredUsername,
    {
        LtiUsernameSource::PreferredUsername
    }
}

/// The username source that a column of the database names.
pub open spec fn stored_source(value: Seq<char>) -> Option<LtiUsernameSource> {
    if value == "preferred_username"@ {
        Some(LtiUsernameSource::PreferredUsername)
    } else if value == "sub"@ {
        Some(LtiUsernameSource::Sub)
    } else if value == "custom"@ {
        Some(LtiUsernameSource::Custom)
    } else {
        None
    }
}

impl LtiUsernameSource {
    /// Reads a username source from its form in the database.
    pub fn from_db_value(value: &str) -> (res: Option<LtiUsernameSource>)
        ensures
            res == stored_source(value@),
    {
        if same_text(value, "preferred_username") {
            Some(LtiUsernameSource::PreferredUsername)
        } else if same_text(value, "sub") {
            Some(LtiUsernameSource::Sub)
        } else if same_text(value, "custom") {
            Some(LtiUsernameSource::Custom)
        } else {
            None
        }
    }
}

/// A configured platform.
pub struct LtiPlatform {
    pub issuer: String,
    pub client_id: String,
    pub deployment_id: String,
    pub auth_login_url: HttpUrl,
    pub keyset_url: HttpUrl,
    pub username_source: LtiUsernameSource,
}

/// [`LtiPlatform`] with texts in place of strings.
pub struct PlatformModel {
    pub issuer: Seq<char>,
    pub client_id: Seq<char>,
    pub deployment_id: Seq<char>,
    pub auth_login_url: UrlModel,
    pub keyset_url: UrlModel,
    pub username_source: LtiUsernameSource,
}

impl View for LtiPlatform {
    type V = PlatformModel;

    open spec fn view(&self) -> PlatformModel {
        PlatformModel {
            issuer: self.issuer@,
            client_id: self.client_id@,
            deployment_id: self.deployment_id@,
            auth_login_url: self.auth_login_url@,
            keyset_url: self.keyset_url@,
            username_source: self.username_source,
        }
    }
}

/// Whether a platform has this issuer and, where one is given, this client.
pub open spec fn is_platform(
    platform: PlatformModel,
    issuer: Seq<char>,
    client_id: Option<Seq<char>>,
) -> bool {
    platform.issuer == issuer && (client_id matches Some(id) ==> platform.client_id == id)
}

/// The first platform with this issuer and, where one is given, this client.
pub open spec fn first_platform(
    platforms: Seq<PlatformModel>,
    issuer: Seq<char>,
    client_id: Option<Seq<char>>,
) -> Option<PlatformModel>
    decreases platforms.len(),
{
    if platforms.len() == 0 {
        None
    } else if is_platform(platforms.first(), issuer, client_id) {
        Some(platforms.first())
    } else {
        first_platform(platforms.drop_first(), issuer, client_id)
    }
}

/// The configuration of LTI.
pub struct LtiConfig {
    /// Whether Tobira acts as an LTI tool at all.
    pub enabled: bool,
    pub platforms: Vec<LtiPlatform>,
    /// The file with the private key of the tool. Without one, each process
    /// generates its own.
    pub tool_key: Option<String>,
}

impl LtiConfig {
    /// The configured platforms.
    pub open spec fn platform_models(self) -> Seq<PlatformModel> {
        Seq::new(self.platforms@.len(), |i: int| self.platforms@[i]@)
    }

    /// The platform with this issuer and client.
    pub fn find_platform(&self, issuer: &str, client_id: &str) -> (res: Option<&LtiPlatform>)
        ensures
            optional_platform(res) == first_platform(
                self.platform_models(),
                issuer@,
                Some(client_id@),
            ),
    {
        self.lookup(issuer, Some(client_id))
    }

    /// The first platform with this issuer.
    pub fn find_platform_by_issuer(&self, issuer: &str) -> (res: Option<&LtiPlatform>)
        ensures
            optional_platform(res) == first_platform(self.platform_models(), issuer@, None),
    {
        self.lookup(issuer, None)
    }

    /// The platform that a request names by its issuer and perhaps a client.
    pub fn lookup(&self, issuer: &str, client_id: Option<&str>) -> (res: Option<&LtiPlatform>)
        ensures
            optional_platform(res) == first_platform(
                self.platform_models(),
                issuer@,
                optional_str(client_id),
            ),
    {
        let ghost all = self.platform_models();
        let mut i: usize = 0;
        assert(all.skip(0) =~= all);
        while i < self.platforms.len()
            invariant
                i <= self.platforms@.len(),
                all == self.platform_models(),
                first_platform(all, issuer@, optional_str(client_id)) == first_platform(
                    all.skip(i as int),
                    issuer@,
                    optional_str(client_id),
                ),
            decreases self.platforms@.len() - i,
        {
            let platform = &self.platforms[i];
            assert(all.skip(i as int).first() == platform@);
            assert(all.skip(i as int).drop_first() =~= all.skip(i as int + 1));
            let client_fits = match client_id {
                Some(client_id) => same_text(platform.client_id.as_str(), client_id),
                None => true,
            };
            if client_fits && same_text(platform.issuer.as_str(), issuer) {
                return Some(platform);
            }
            i += 1;
        }
        None
    }
}

/// The model of an optional platform.
pub open spec fn optional_platform(platform: Option<&LtiPlatform>) -> Option<PlatformModel> {
    match platform {
        Some(platform) => Some(platform@),
        None => None,
    }
}

/// A platform that is found is a configured one, and has the issuer and the
/// client that were asked for.
pub proof fn found_platform_is_configured(
    platforms: Seq<PlatformModel>,
    issuer: Seq<char>,
    client_id: Option<Seq<char>>,
)
    ensures
        first_platform(platforms, issuer, client_id) matches Some(found) ==> platforms.contains(
            found,
        ) && is_platform(found, issuer, client_id),
        first_platform(platforms, issuer, client_id) is None ==> forall|i: int|
            0 <= i < platforms.len() ==> !is_platform(#[trigger] platforms[i], issuer, client_id),
    decreases platforms.len(),
{
    if platforms.len() > 0 && !is_platform(platforms.first(), issuer, client_id) {
        let rest = platforms.drop_first();
        found_platform_is_configured(rest, issuer, client_id);
        match first_platform(platforms, issuer, client_id) {
            Some(found) => {
                let i = choose|i: int| 0 <= i < rest.len() && rest[i] == found;
                assert(platforms[i + 1] == found);
            },
            None => {
                assert forall|i: int| 0 <= i < platforms.len() implies !is_platform(
                    #[trigger] platforms[i],
                    issuer,
                    client_id,
                ) by {
                    if i > 0 {
                        assert(rest[i - 1] == platforms[i]);
                    }
                }
            },
        }
    } else if platforms.len() > 0 {
        assert(platforms[0] == platforms.first());
    }
}

/// A platform that was found, perhaps by its issuer alone, is found again by
/// its issuer and its client.
pub proof fn found_platform_is_found_again(
    platforms: Seq<PlatformModel>,
    issuer: Seq<char>,
    client_id: Option<Seq<char>>,
)
    requires
        first_platform(platforms, issuer, client_id) is Some,
    ensures
        ({
            let found = first_platform(platforms, issuer, client_id)->0;
            first_platform(platforms, found.issuer, Some(found.client_id)) == Some(found)
        }),
    decreases platforms.len(),
{
    if !is_platform(platforms.first(), issuer, client_id) {
        let rest = platforms.drop_first();
        found_platform_is_found_again(rest, issuer, client_id);
        found_platform_is_configured(rest, issuer, client_id);
    }
}

/// The platform that is found is the first in the configuration that has the
/// issuer and, where one was asked for, the client.
pub proof fn first_fitting_platform_is_found(
    platforms: Seq<PlatformModel>,
    issuer: Seq<char>,
    client_id: Option<Seq<char>>,
    i: int,
)
    requires
        0 <= i < platforms.len(),
        platforms[i].issuer == issuer,
        client_id is Some ==> platforms[i].client_id == client_id->0,
        forall|j: int|
            0 <= j < i ==> (#[trigger] platforms[j]).issuer != issuer || (client_id is Some
                && platforms[j].client_id != client_id->0),
    ensures
        first_platform(platforms, issuer, client_id) == Some(platforms[i]),
    decreases platforms.len(),
{
    if i > 0 {
        assert(platforms[0].issuer != issuer || (client_id is Some && platforms[0].client_id
            != client_id->0));
        let rest = platforms.drop_first();
        assert forall|j: int| 0 <= j < i - 1 implies (#[trigger] rest[j]).issuer != issuer || (
        client_id is Some && rest[j].client_id != client_id->0) by {
            assert(rest[j] == platforms[j + 1]);
        }
        first_fitting_platform_is_found(rest, issuer, client_id, i - 1);
    }
}

/// Where no platform has the issuer and, where one was asked for, the client,
/// none is found.
pub proof fn unconfigured_platform_is_not_found(
    platforms: Seq<PlatformModel>,
    issuer: Seq<char>,
    client_id: Option<Seq<char>>,
)
    requires
        forall|i: int|
            0 <= i < platforms.len() ==> (#[trigger] platforms[i]).issuer != issuer || (client_id
                is Some && platforms[i].client_id != client_id->0),
    ensures
        first_platform(platforms, issuer, client_id) is None,
    decreases platforms.len(),
{
    if platforms.len() > 0 {
        assert(platforms[0].issuer != issuer || (client_id is Some && platforms[0].client_id
            != client_id->0));
        let rest = platforms.drop_first();
        assert forall|j: int| 0 <= j < rest.len() implies (#[trigger] rest[j]).issuer != issuer
            || (client_id is Some && rest[j].client_id != client_id->0) by {
            assert(rest[j] == platforms[j + 1]);
        }
        unconfigured_platform_is_not_found(rest, issuer, client_id);
    }
}

/// Each username source has one name in the database, and no other text names
/// one.
pub proof fn username_sources_have_one_name_each(value: Seq<char>)
    ensures
        stored_source(value) == Some(LtiUsernameSource::PreferredUsername) <==> value
            == "preferred_username"@,
        stored_source(value) == Some(LtiUsernameSource::Sub) <==> value == "sub"@,
        stored_source(value) == Some(LtiUsernameSource::Custom) <==> value == "custom"@,
{
    reveal_strlit("preferred_username");
    reveal_strlit("sub");
    reveal_strlit("custom");
    assert("sub"@.len() == 3);
    assert("custom"@.len() == 6);
    assert("preferred_username"@.len() == 18);
}

/// The model of a configured platform holds each field as it is, and the model
/// of the configuration its platforms in their order.
pub proof fn model_of_a_platform_holds_each_field(config: LtiConfig, i: int)
    requires
        0 <= i < config.platforms@.len(),
    ensures
        config.platform_models().len() == config.platforms@.len(),
        ({
            let platform = config.platforms@[i];
            let model = config.platform_models()[i];
            &&& model.issuer == platform.issuer@
            &&& model.client_id == platform.client_id@
            &&& model.deployment_id == platform.deployment_id@
            &&& model.auth_login_url == platform.auth_login_url@
            &&& model.keyset_url == platform.keyset_url@
            &&& model.username_source == platform.username_source
        }),
{
}

} // verus!
