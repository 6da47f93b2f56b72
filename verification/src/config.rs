//! The credential record and the resolver chain that produces it.
//!
//! A credential record is produced by exactly one resolver call,
//! immutable once constructed, and replaced wholesale when refreshed.
//! Each resolver is a pure function of what was read from its origin;
//! reading the origin (environment, files) happens outside the library
//! and the outcomes are handed in as plain values.

use vstd::prelude::*;
use vstd::string::StringExecFns;

use crate::clock::{datetime_seconds, now_seconds, parse_datetime_seconds};
use crate::error::{ErrorView, PlatzClientError};
use crate::urls::{is_normalized_url, parse_url, url_normalized};

verus! {

/// How a resolved credential is rendered as an HTTP header pair.
#[derive(Clone, Copy, Debug, PartialEq, Eq, Structural)]
pub enum AuthScheme {
    /// `authorization: Bearer <secret>`.
    Bearer,
    /// The fixed custom header name with the raw secret as its value.
    XPlatzToken,
}

/// A resolved credential record: where the server lives and how to
/// authenticate against it.
#[derive(Debug, Clone)]
pub struct PlatzClientConfig {
    /// Normalized absolute base address of the server.
    pub server_url: String,
    /// Which header the secret material is rendered into.
    pub scheme: AuthScheme,
    /// The secret material itself; never empty in a well-formed record.
    pub contents: String,
    /// Expiry instant in whole seconds since the Unix epoch, for
    /// sources that rotate their credentials.
    pub expires_at: Option<i64>,
}

/// The mathematical image of a credential record.
pub struct ConfigView {
    pub server_url: Seq<char>,
    pub scheme: AuthScheme,
    pub contents: Seq<char>,
    pub expires_at: Option<int>,
}

impl DeepView for PlatzClientConfig {
    type V = ConfigView;

    open spec fn deep_view(&self) -> ConfigView {
        ConfigView {
            server_url: self.server_url@,
            scheme: self.scheme,
            contents: self.contents@,
            expires_at: match self.expires_at {
                Some(t) => Some(t as int),
                None => None,
            },
        }
    }
}

impl ConfigView {
    /// Every resolver establishes this: the secret is non-empty and the
    /// base address is the serialization of a parsed URL.
    pub open spec fn wf(&self) -> bool {
        &&& self.contents.len() > 0
        &&& is_normalized_url(self.server_url)
    }

    /// Whether the record is stale at the instant `now`: it carries an
    /// expiry and that expiry is not in the future.
    pub open spec fn is_expired_at(&self, now: int) -> bool {
        match self.expires_at {
            Some(e) => e <= now,
            None => false,
        }
    }

    /// The header pair the record renders to: `authorization` with a
    /// `Bearer `-prefixed secret, or the fixed custom header with the
    /// secret verbatim.
    pub open spec fn authorization_header(&self) -> (Seq<char>, Seq<char>) {
        match self.scheme {
            AuthScheme::Bearer => ("authorization"@, "Bearer "@ + self.contents),
            AuthScheme::XPlatzToken => ("x-platz-token"@, self.contents),
        }
    }
}

/// The outcome of reading one environment variable at the process
/// edge, handed to the resolver as a plain value.
#[derive(Debug, Clone)]
pub enum VarRead {
    /// The variable is not set.
    Missing,
    /// The variable is set and its value reads as text.
    Value(String),
    /// The variable is set but its value is not readable as text.
    Unreadable,
}

/// The mathematical image of a `VarRead`.
pub enum VarReadView {
    Missing,
    Value(Seq<char>),
    Unreadable,
}

impl DeepView for VarRead {
    type V = VarReadView;

    open spec fn deep_view(&self) -> VarReadView {
        match self {
            VarRead::Missing => VarReadView::Missing,
            VarRead::Value(s) => VarReadView::Value(s@),
            VarRead::Unreadable => VarReadView::Unreadable,
        }
    }
}

/// The image of one resolver call's result: a record, "not applicable"
/// (inputs entirely absent), or a hard error.
pub open spec fn view_resolution(r: Result<Option<PlatzClientConfig>, PlatzClientError>) -> Result<
    Option<ConfigView>,
    ErrorView,
> {
    match r {
        Ok(Some(c)) => Ok(Some(c.deep_view())),
        Ok(None) => Ok(None),
        Err(e) => Err(e.deep_view()),
    }
}

/// What the environment resolver produces once the server address is
/// settled: no record when the address or the token is absent, a hard
/// error when the token is present but empty, and otherwise a record
/// with the normalized address, the chosen scheme and no expiry.
pub open spec fn spec_env_combine(
    url_var: VarReadView,
    scheme: AuthScheme,
    token: Seq<char>,
    token_var: Seq<char>,
) -> Result<Option<ConfigView>, ErrorView> {
    match url_var {
        VarReadView::Value(s) => if token.len() == 0 {
            Err(ErrorView::EnvVarParseError(token_var))
        } else {
            match url_normalized(s) {
                Some(u) => Ok(
                    Some(
                        ConfigView {
                            server_url: u,
                            scheme: scheme,
                            contents: token,
                            expires_at: None,
                        },
                    ),
                ),
                None => Err(ErrorView::EnvVarParseError("PLATZ_URL"@)),
            }
        },
        _ => Ok(None),
    }
}

/// The whole decision of the environment resolver. The server-address
/// variable is examined first: an unreadable or unparsable address is a
/// hard error even when no token follows. A set generic API-token
/// variable selects the custom-header scheme; otherwise a set
/// user-token variable selects the bearer scheme. A record is produced
/// exactly when both an address and a token are present and usable;
/// when either is simply absent the resolver is not applicable.
pub open spec fn spec_env_resolve(
    url_var: VarReadView,
    api_token: VarReadView,
    user_token: VarReadView,
) -> Result<Option<ConfigView>, ErrorView> {
    if url_var is Unreadable {
        Err(ErrorView::EnvVarParseError("PLATZ_URL"@))
    } else if url_var matches VarReadView::Value(s) && url_normalized(s) is None {
        Err(ErrorView::EnvVarParseError("PLATZ_URL"@))
    } else {
        match api_token {
            VarReadView::Unreadable => Err(ErrorView::EnvVarParseError("PLATZ_API_TOKEN"@)),
            VarReadView::Value(t) => spec_env_combine(
                url_var,
                AuthScheme::XPlatzToken,
                t,
                "PLATZ_API_TOKEN"@,
            ),
            VarReadView::Missing => match user_token {
                VarReadView::Unreadable => Err(
                    ErrorView::EnvVarParseError("PLATZ_USER_TOKEN"@),
                ),
                VarReadView::Value(t) => spec_env_combine(
                    url_var,
                    AuthScheme::Bearer,
                    t,
                    "PLATZ_USER_TOKEN"@,
                ),
                VarReadView::Missing => Ok(None),
            },
        }
    }
}

/// The outcome of reading one file at the process edge, handed to a
/// resolver as a plain value.
#[derive(Debug, Clone)]
pub enum FileRead {
    /// The file was read; carries its text.
    Content(String),
    /// The file (or a directory on its path) does not exist.
    Missing,
    /// Reading failed for another reason; carries a description.
    Failed(String),
}

/// The mathematical image of a `FileRead`.
pub enum FileReadView {
    Content(Seq<char>),
    Missing,
    Failed(Seq<char>),
}

impl DeepView for FileRead {
    type V = FileReadView;

    open spec fn deep_view(&self) -> FileReadView {
        match self {
            FileRead::Content(s) => FileReadView::Content(s@),
            FileRead::Missing => FileReadView::Missing,
            FileRead::Failed(s) => FileReadView::Failed(s@),
        }
    }
}

/// The whole decision of the mounted-secret resolver over the three
/// file reads. A failed read (other than absence) of any file is a
/// hard error, checked in file order; otherwise any absent file makes
/// the resolver not applicable; otherwise the address must parse, then
/// the expiry must parse, then the token must be non-empty, and the
/// record is a bearer record carrying the parsed expiry.
pub open spec fn spec_secret_resolve(
    access_token: FileReadView,
    server_url: FileReadView,
    expires_at: FileReadView,
) -> Result<Option<ConfigView>, ErrorView> {
    if access_token is Failed {
        Err(ErrorView::ConfigReadError(access_token->Failed_0))
    } else if server_url is Failed {
        Err(ErrorView::ConfigReadError(server_url->Failed_0))
    } else if expires_at is Failed {
        Err(ErrorView::ConfigReadError(expires_at->Failed_0))
    } else {
        match (access_token, server_url, expires_at) {
            (
                FileReadView::Content(tok),
                FileReadView::Content(url),
                FileReadView::Content(exp),
            ) => {
                if url_normalized(url) is None {
                    Err(ErrorView::MountedUrlParseError)
                } else if datetime_seconds(exp) is None {
                    Err(ErrorView::MountedExpiryParseError)
                } else if tok.len() == 0 {
                    Err(ErrorView::ConfigReadError("mounted access token is empty"@))
                } else {
                    Ok(
                        Some(
                            ConfigView {
                                server_url: url_normalized(url)->Some_0,
                                scheme: AuthScheme::Bearer,
                                contents: tok,
                                expires_at: Some(datetime_seconds(exp)->Some_0),
                            },
                        ),
                    )
                }
            },
            _ => Ok(None),
        }
    }
}

/// One named profile's credential variant in the profile file: a
/// bearer-style token with an optional expiry, or a user token.
#[derive(Debug, Clone)]
pub enum Credentials {
    AccessToken { access_token: String, expired_at: Option<i64> },
    UserToken { user_token: String },
}

/// The mathematical image of a `Credentials`.
pub enum CredentialsView {
    AccessToken { access_token: Seq<char>, expired_at: Option<int> },
    UserToken { user_token: Seq<char> },
}

impl DeepView for Credentials {
    type V = CredentialsView;

    open spec fn deep_view(&self) -> CredentialsView {
        match self {
            Credentials::AccessToken { access_token, expired_at } => CredentialsView::AccessToken {
                access_token: access_token@,
                expired_at: match expired_at {
                    Some(t) => Some(*t as int),
                    None => None,
                },
            },
            Credentials::UserToken { user_token } => CredentialsView::UserToken {
                user_token: user_token@,
            },
        }
    }
}

/// One named profile in the profile file.
#[derive(Debug, Clone)]
pub struct ProfileInfo {
    /// The server address this profile points at.
    pub url: String,
    /// The profile's credential variant.
    pub credentials: Credentials,
    /// Whether the profile is flagged as the default one.
    pub default_profile: bool,
}

/// The mathematical image of a `ProfileInfo`.
pub struct ProfileInfoView {
    pub url: Seq<char>,
    pub credentials: CredentialsView,
    pub default_profile: bool,
}

impl DeepView for ProfileInfo {
    type V = ProfileInfoView;

    open spec fn deep_view(&self) -> ProfileInfoView {
        ProfileInfoView {
            url: self.url@,
            credentials: self.credentials.deep_view(),
            default_profile: self.default_profile,
        }
    }
}

/// The parsed profile document: the named profiles, in file order.
/// Names are unique (the document is a table keyed by name).
#[derive(Debug, Clone)]
pub struct TomlConfig {
    pub profile: Vec<(String, ProfileInfo)>,
}

impl DeepView for TomlConfig {
    type V = Seq<(Seq<char>, ProfileInfoView)>;

    open spec fn deep_view(&self) -> Seq<(Seq<char>, ProfileInfoView)> {
        self.profile.deep_view()
    }
}

/// The image of a result that carries a whole record on success.
pub open spec fn view_config_result(r: Result<PlatzClientConfig, PlatzClientError>) -> Result<
    ConfigView,
    ErrorView,
> {
    match r {
        Ok(c) => Ok(c.deep_view()),
        Err(e) => Err(e.deep_view()),
    }
}

/// How one profile becomes a credential record: its address must
/// parse, its token must be non-empty; a bearer-style token keeps its
/// expiry, a user token selects the custom-header scheme and never
/// expires.
pub open spec fn spec_to_client(p: ProfileInfoView) -> Result<ConfigView, ErrorView> {
    match url_normalized(p.url) {
        None => Err(ErrorView::MountedUrlParseError),
        Some(u) => match p.credentials {
            CredentialsView::AccessToken { access_token, expired_at } => if access_token.len()
                == 0 {
                Err(ErrorView::ConfigTomlError("profile access token is empty"@))
            } else {
                Ok(
                    ConfigView {
                        server_url: u,
                        scheme: AuthScheme::Bearer,
                        contents: access_token,
                        expires_at: expired_at,
                    },
                )
            },
            CredentialsView::UserToken { user_token } => if user_token.len() == 0 {
                Err(ErrorView::ConfigTomlError("profile user token is empty"@))
            } else {
                Ok(
                    ConfigView {
                        server_url: u,
                        scheme: AuthScheme::XPlatzToken,
                        contents: user_token,
                        expires_at: None,
                    },
                )
            },
        },
    }
}

impl ProfileInfo {
    /// Turns this profile into a credential record, or a hard error
    /// when its address does not parse or its token is empty.
    pub fn to_client(&self) -> (r: Result<PlatzClientConfig, PlatzClientError>)
        ensures
            view_config_result(r) == spec_to_client(self.deep_view()),
            r matches Ok(c) ==> c.deep_view().wf(),
    {
        let server_url = match parse_url(self.url.as_str()) {
            Some(u) => u,
            None => {
                return Err(PlatzClientError::MountedUrlParseError);
            },
        };
        proof {
            assert(url_normalized(self.url@) == Some(server_url@));
            assert(is_normalized_url(server_url@));
        }
        match &self.credentials {
            Credentials::AccessToken { access_token, expired_at } => {
                if access_token.as_str().is_empty() {
                    Err(PlatzClientError::ConfigTomlError("profile access token is empty".to_owned()))
                } else {
                    Ok(
                        PlatzClientConfig {
                            server_url,
                            scheme: AuthScheme::Bearer,
                            contents: access_token.clone(),
                            expires_at: *expired_at,
                        },
                    )
                }
            },
            Credentials::UserToken { user_token } => {
                if user_token.as_str().is_empty() {
                    Err(PlatzClientError::ConfigTomlError("profile user token is empty".to_owned()))
                } else {
                    Ok(
                        PlatzClientConfig {
                            server_url,
                            scheme: AuthScheme::XPlatzToken,
                            contents: user_token.clone(),
                            expires_at: None,
                        },
                    )
                }
            },
        }
    }
}

/// How many profiles of the document are flagged default.
pub open spec fn spec_default_count(s: Seq<(Seq<char>, ProfileInfoView)>) -> nat
    decreases s.len(),
{
    if s.len() == 0 {
        0
    } else {
        spec_default_count(s.drop_last()) + if s.last().1.default_profile {
            1nat
        } else {
            0nat
        }
    }
}

/// The first profile of the document flagged default, if any.
pub open spec fn spec_first_default(s: Seq<(Seq<char>, ProfileInfoView)>) -> Option<
    ProfileInfoView,
>
    decreases s.len(),
{
    if s.len() == 0 {
        None
    } else if spec_first_default(s.drop_last()) is Some {
        spec_first_default(s.drop_last())
    } else if s.last().1.default_profile {
        Some(s.last().1)
    } else {
        None
    }
}

/// The first profile carrying the given name, if any.
pub open spec fn spec_lookup(s: Seq<(Seq<char>, ProfileInfoView)>, name: Seq<char>) -> Option<
    ProfileInfoView,
>
    decreases s.len(),
{
    if s.len() == 0 {
        None
    } else if s.first().0 == name {
        Some(s.first().1)
    } else {
        spec_lookup(s.drop_first(), name)
    }
}

proof fn lemma_default_count_take_le(s: Seq<(Seq<char>, ProfileInfoView)>, k: int)
    requires
        0 <= k <= s.len(),
    ensures
        spec_default_count(s.take(k)) <= spec_default_count(s),
    decreases s.len() - k,
{
    if k == s.len() {
        assert(s.take(k) =~= s);
    } else {
        assert(s.take(k + 1).drop_last() =~= s.take(k));
        lemma_default_count_take_le(s, k + 1);
    }
}

proof fn lemma_no_default_iff_count_zero(s: Seq<(Seq<char>, ProfileInfoView)>)
    ensures
        (spec_default_count(s) == 0) <==> (spec_first_default(s) is None),
    decreases s.len(),
{
    if s.len() > 0 {
        lemma_no_default_iff_count_zero(s.drop_last());
    }
}

impl TomlConfig {
    /// Finds the profile flagged default. At most one profile may be
    /// flagged: none yields `Ok(None)`, exactly one yields its index,
    /// several are a hard configuration error.
    pub fn get_default_profile(&self) -> (r: Result<Option<usize>, PlatzClientError>)
        ensures
            match r {
                Ok(None) => spec_default_count(self.deep_view()) == 0,
                Ok(Some(i)) => {
                    &&& spec_default_count(self.deep_view()) == 1
                    &&& i < self.profile.len()
                    &&& self.deep_view()[i as int].1.default_profile
                    &&& spec_first_default(self.deep_view()) == Some(
                        self.deep_view()[i as int].1,
                    )
                },
                Err(e) => {
                    &&& spec_default_count(self.deep_view()) >= 2
                    &&& e.deep_view() == ErrorView::ConfigTomlError("Multiple default profiles"@)
                },
            },
    {
        let ghost v = self.deep_view();
        let mut found: Option<usize> = None;
        let mut i: usize = 0;
        while i < self.profile.len()
            invariant
                0 <= i <= self.profile.len(),
                v == self.deep_view(),
                v.len() == self.profile.len(),
                match found {
                    None => {
                        &&& spec_default_count(v.take(i as int)) == 0
                        &&& spec_first_default(v.take(i as int)) is None
                    },
                    Some(j) => {
                        &&& j < i
                        &&& v[j as int].1.default_profile
                        &&& spec_default_count(v.take(i as int)) == 1
                        &&& spec_first_default(v.take(i as int)) == Some(v[j as int].1)
                    },
                },
            decreases self.profile.len() - i,
        {
            proof {
                assert(v.take(i + 1).drop_last() =~= v.take(i as int));
                assert(v.take(i + 1).last() == v[i as int]);
            }
            if self.profile[i].1.default_profile {
                if found.is_some() {
                    proof {
                        lemma_default_count_take_le(v, i + 1);
                    }
                    return Err(
                        PlatzClientError::ConfigTomlError("Multiple default profiles".to_owned()),
                    );
                }
                found = Some(i);
            }
            i = i + 1;
        }
        proof {
            assert(v.take(self.profile.len() as int) =~= v);
        }
        Ok(found)
    }

    /// Finds the profile carrying the given name, scanning in file
    /// order.
    pub fn profile_index(&self, name: &String) -> (r: Option<usize>)
        ensures
            match r {
                Some(i) => {
                    &&& i < self.profile.len()
                    &&& self.deep_view()[i as int].0 == name@
                    &&& spec_lookup(self.deep_view(), name@) == Some(
                        self.deep_view()[i as int].1,
                    )
                },
                None => spec_lookup(self.deep_view(), name@) is None,
            },
    {
        let ghost v = self.deep_view();
        proof {
            assert(v.subrange(0, v.len() as int) =~= v);
        }
        let mut i: usize = 0;
        while i < self.profile.len()
            invariant
                0 <= i <= self.profile.len(),
                v == self.deep_view(),
                v.len() == self.profile.len(),
                spec_lookup(v, name@) == spec_lookup(v.subrange(i as int, v.len() as int), name@),
            decreases self.profile.len() - i,
        {
            proof {
                let rest = v.subrange(i as int, v.len() as int);
                assert(rest.first() == v[i as int]);
                assert(rest.drop_first() =~= v.subrange(i + 1, v.len() as int));
            }
            if self.profile[i].0 == *name {
                return Some(i);
            }
            i = i + 1;
        }
        proof {
            assert(v.subrange(v.len() as int, v.len() as int) =~= Seq::<
                (Seq<char>, ProfileInfoView),
            >::empty());
        }
        None
    }
}

/// The outcome of locating, reading and parsing the profile document
/// in one configuration directory, handed in as a plain value.
#[derive(Debug, Clone)]
pub enum ProfileFileRead {
    /// The directory or the file does not exist.
    Missing,
    /// Reading failed for another reason; carries a description.
    ReadFailed(String),
    /// The file was read but does not parse as a profile document;
    /// carries the parser's message.
    ParseFailed(String),
    /// The parsed document.
    Parsed(TomlConfig),
}

/// The mathematical image of a `ProfileFileRead`.
pub enum ProfileFileReadView {
    Missing,
    ReadFailed(Seq<char>),
    ParseFailed(Seq<char>),
    Parsed(Seq<(Seq<char>, ProfileInfoView)>),
}

impl DeepView for ProfileFileRead {
    type V = ProfileFileReadView;

    open spec fn deep_view(&self) -> ProfileFileReadView {
        match self {
            ProfileFileRead::Missing => ProfileFileReadView::Missing,
            ProfileFileRead::ReadFailed(s) => ProfileFileReadView::ReadFailed(s@),
            ProfileFileRead::ParseFailed(s) => ProfileFileReadView::ParseFailed(s@),
            ProfileFileRead::Parsed(c) => ProfileFileReadView::Parsed(c.deep_view()),
        }
    }
}

/// Lifts "one record or an error" into a resolver result.
pub open spec fn lift_client(r: Result<ConfigView, ErrorView>) -> Result<
    Option<ConfigView>,
    ErrorView,
> {
    match r {
        Ok(c) => Ok(Some(c)),
        Err(e) => Err(e),
    }
}

/// Which profile name is asked for: an explicit parameter wins;
/// otherwise the profile-override environment variable is consulted,
/// and an unreadable override is a hard error.
pub open spec fn spec_requested_name(
    requested: Option<Seq<char>>,
    profile_var: VarReadView,
) -> Result<Option<Seq<char>>, ErrorView> {
    if requested is Some {
        Ok(requested)
    } else {
        match profile_var {
            VarReadView::Unreadable => Err(ErrorView::EnvVarParseError("PLATZ_PROFILE"@)),
            VarReadView::Value(s) => Ok(Some(s)),
            VarReadView::Missing => Ok(None),
        }
    }
}

/// The whole decision over one profile document. An absent file makes
/// the resolver not applicable; any other read failure or a parse
/// failure is a hard error. A requested profile must exist; with no
/// request, exactly one profile must be flagged default.
pub open spec fn spec_profile_resolve(
    doc: ProfileFileReadView,
    requested: Option<Seq<char>>,
    profile_var: VarReadView,
) -> Result<Option<ConfigView>, ErrorView> {
    match doc {
        ProfileFileReadView::Missing => Ok(None),
        ProfileFileReadView::ReadFailed(m) => Err(ErrorView::ConfigReadError(m)),
        ProfileFileReadView::ParseFailed(m) => Err(ErrorView::ConfigDeserializationError(m)),
        ProfileFileReadView::Parsed(profiles) => match spec_requested_name(
            requested,
            profile_var,
        ) {
            Err(e) => Err(e),
            Ok(Some(name)) => match spec_lookup(profiles, name) {
                None => Err(
                    ErrorView::ConfigTomlError("Requested profile does not exist in configuration"@),
                ),
                Some(p) => lift_client(spec_to_client(p)),
            },
            Ok(None) => if spec_default_count(profiles) >= 2 {
                Err(ErrorView::ConfigTomlError("Multiple default profiles"@))
            } else {
                match spec_first_default(profiles) {
                    Some(p) => lift_client(spec_to_client(p)),
                    None => Err(ErrorView::ConfigTomlError("Not default profile configured"@)),
                }
            },
        },
    }
}

/// Trying the primary configuration directory first and the platform
/// default second: the second document is consulted only when the
/// first is absent (or names no applicable profile source at all).
pub open spec fn spec_configuration_resolve(
    primary: ProfileFileReadView,
    fallback: ProfileFileReadView,
    requested: Option<Seq<char>>,
    profile_var: VarReadView,
) -> Result<Option<ConfigView>, ErrorView> {
    match spec_profile_resolve(primary, requested, profile_var) {
        Ok(None) => spec_profile_resolve(fallback, requested, profile_var),
        other => other,
    }
}

/// What was read from the process environment for one resolution
/// attempt: the three credential variables and the profile override.
#[derive(Debug, Clone)]
pub struct EnvSource {
    pub url: VarRead,
    pub api_token: VarRead,
    pub user_token: VarRead,
    pub profile: VarRead,
}

/// The mathematical image of an `EnvSource`.
pub struct EnvSourceView {
    pub url: VarReadView,
    pub api_token: VarReadView,
    pub user_token: VarReadView,
    pub profile: VarReadView,
}

impl DeepView for EnvSource {
    type V = EnvSourceView;

    open spec fn deep_view(&self) -> EnvSourceView {
        EnvSourceView {
            url: self.url.deep_view(),
            api_token: self.api_token.deep_view(),
            user_token: self.user_token.deep_view(),
            profile: self.profile.deep_view(),
        }
    }
}

/// The profile documents of the two well-known configuration
/// directories, primary first.
#[derive(Debug, Clone)]
pub struct ProfileFileSource {
    pub primary: ProfileFileRead,
    pub fallback: ProfileFileRead,
}

/// The mathematical image of a `ProfileFileSource`.
pub struct ProfileFileSourceView {
    pub primary: ProfileFileReadView,
    pub fallback: ProfileFileReadView,
}

impl DeepView for ProfileFileSource {
    type V = ProfileFileSourceView;

    open spec fn deep_view(&self) -> ProfileFileSourceView {
        ProfileFileSourceView {
            primary: self.primary.deep_view(),
            fallback: self.fallback.deep_view(),
        }
    }
}

/// The three co-located mounted-secret files.
#[derive(Debug, Clone)]
pub struct SecretSource {
    pub access_token: FileRead,
    pub server_url: FileRead,
    pub expires_at: FileRead,
}

/// The mathematical image of a `SecretSource`.
pub struct SecretSourceView {
    pub access_token: FileReadView,
    pub server_url: FileReadView,
    pub expires_at: FileReadView,
}

impl DeepView for SecretSource {
    type V = SecretSourceView;

    open spec fn deep_view(&self) -> SecretSourceView {
        SecretSourceView {
            access_token: self.access_token.deep_view(),
            server_url: self.server_url.deep_view(),
            expires_at: self.expires_at.deep_view(),
        }
    }
}

/// One resolver call's three-way result: a record, "not applicable"
/// (its inputs were entirely absent), or a hard error. "Absent" and
/// "present but broken" are never conflated.
pub enum ResolverOutcome {
    Found(PlatzClientConfig),
    NotApplicable,
    HardError(PlatzClientError),
}

/// The mathematical image of a `ResolverOutcome`.
pub enum ResolverOutcomeView {
    Found(ConfigView),
    NotApplicable,
    HardError(ErrorView),
}

impl DeepView for ResolverOutcome {
    type V = ResolverOutcomeView;

    open spec fn deep_view(&self) -> ResolverOutcomeView {
        match self {
            ResolverOutcome::Found(c) => ResolverOutcomeView::Found(c.deep_view()),
            ResolverOutcome::NotApplicable => ResolverOutcomeView::NotApplicable,
            ResolverOutcome::HardError(e) => ResolverOutcomeView::HardError(e.deep_view()),
        }
    }
}

/// The three-way image of one resolver's result.
pub open spec fn spec_outcome(r: Result<Option<ConfigView>, ErrorView>) -> ResolverOutcomeView {
    match r {
        Ok(Some(c)) => ResolverOutcomeView::Found(c),
        Ok(None) => ResolverOutcomeView::NotApplicable,
        Err(e) => ResolverOutcomeView::HardError(e),
    }
}

/// Walking an ordered sequence of resolver outcomes: the first record
/// wins, a hard error aborts, and an exhausted chain means no
/// configuration was found.
pub open spec fn spec_chain(s: Seq<ResolverOutcomeView>) -> Result<ConfigView, ErrorView>
    decreases s.len(),
{
    if s.len() == 0 {
        Err(ErrorView::NoConfigFound)
    } else {
        match s.first() {
            ResolverOutcomeView::Found(c) => Ok(c),
            ResolverOutcomeView::HardError(e) => Err(e),
            ResolverOutcomeView::NotApplicable => spec_chain(s.drop_first()),
        }
    }
}

/// Walks resolver outcomes in precedence order and reduces them to a
/// single record or error, exactly as `spec_chain` describes.
pub fn chain_outcomes(outcomes: Vec<ResolverOutcome>) -> (r: Result<
    PlatzClientConfig,
    PlatzClientError,
>)
    ensures
        view_config_result(r) == spec_chain(outcomes.deep_view()),
{
    let mut rest = outcomes;
    loop
        invariant
            spec_chain(outcomes.deep_view()) == spec_chain(rest.deep_view()),
        decreases rest.len(),
    {
        if rest.len() == 0 {
            return Err(PlatzClientError::NoConfigFound);
        }
        let ghost prev = rest.deep_view();
        let first = rest.remove(0);
        proof {
            assert(rest.deep_view() =~= prev.drop_first());
            assert(first.deep_view() == prev.first());
        }
        match first {
            ResolverOutcome::Found(c) => {
                return Ok(c);
            },
            ResolverOutcome::HardError(e) => {
                return Err(e);
            },
            ResolverOutcome::NotApplicable => {},
        }
    }
}

/// Law of precedence determinism: in any ordering of resolver
/// outcomes, when every resolver before position `i` is not applicable
/// and the resolver at `i` produced a record, the chain resolves to
/// exactly that record — whatever stands behind it.
pub proof fn lemma_first_found_wins(s: Seq<ResolverOutcomeView>, i: int)
    requires
        0 <= i < s.len(),
        s[i] is Found,
        forall|j: int| 0 <= j < i ==> s[j] is NotApplicable,
    ensures
        spec_chain(s) == Ok::<ConfigView, ErrorView>(s[i]->Found_0),
    decreases i,
{
    if i > 0 {
        lemma_first_found_wins(s.drop_first(), i - 1);
    }
}

/// Law of hard stops: when every resolver before position `i` is not
/// applicable and the resolver at `i` failed hard, the chain aborts
/// with exactly that error; later resolvers are never consulted.
pub proof fn lemma_hard_error_aborts(s: Seq<ResolverOutcomeView>, i: int)
    requires
        0 <= i < s.len(),
        s[i] is HardError,
        forall|j: int| 0 <= j < i ==> s[j] is NotApplicable,
    ensures
        spec_chain(s) == Err::<ConfigView, ErrorView>(s[i]->HardError_0),
    decreases i,
{
    if i > 0 {
        lemma_hard_error_aborts(s.drop_first(), i - 1);
    }
}

/// Resolution overall: the environment resolver, then the profile
/// file, then the mounted secret, with first-record-wins and
/// hard-errors-abort semantics.
pub open spec fn spec_resolve(
    env: EnvSourceView,
    files: ProfileFileSourceView,
    secret: SecretSourceView,
) -> Result<ConfigView, ErrorView> {
    match spec_env_resolve(env.url, env.api_token, env.user_token) {
        Err(e) => Err(e),
        Ok(Some(c)) => Ok(c),
        Ok(None) => match spec_configuration_resolve(
            files.primary,
            files.fallback,
            None,
            env.profile,
        ) {
            Err(e) => Err(e),
            Ok(Some(c)) => Ok(c),
            Ok(None) => match spec_secret_resolve(
                secret.access_token,
                secret.server_url,
                secret.expires_at,
            ) {
                Err(e) => Err(e),
                Ok(Some(c)) => Ok(c),
                Ok(None) => Err(ErrorView::NoConfigFound),
            },
        },
    }
}

/// The fixed resolution order is one instance of the general chain:
/// its result equals walking the three resolver outcomes in order.
pub proof fn lemma_resolve_is_chain(
    env: EnvSourceView,
    files: ProfileFileSourceView,
    secret: SecretSourceView,
)
    ensures
        spec_resolve(env, files, secret) == spec_chain(
            seq![
                spec_outcome(spec_env_resolve(env.url, env.api_token, env.user_token)),
                spec_outcome(
                    spec_configuration_resolve(files.primary, files.fallback, None, env.profile),
                ),
                spec_outcome(
                    spec_secret_resolve(secret.access_token, secret.server_url, secret.expires_at),
                ),
            ],
        ),
{
    let o1 = spec_outcome(spec_env_resolve(env.url, env.api_token, env.user_token));
    let o2 = spec_outcome(
        spec_configuration_resolve(files.primary, files.fallback, None, env.profile),
    );
    let o3 = spec_outcome(
        spec_secret_resolve(secret.access_token, secret.server_url, secret.expires_at),
    );
    let s = seq![o1, o2, o3];
    assert(s.first() == o1);
    assert(s.drop_first() =~= seq![o2, o3]);
    assert(seq![o2, o3].first() == o2);
    assert(seq![o2, o3].drop_first() =~= seq![o3]);
    assert(seq![o3].first() == o3);
    assert(seq![o3].drop_first() =~= Seq::<ResolverOutcomeView>::empty());
    assert(spec_chain(Seq::<ResolverOutcomeView>::empty()) == Err::<ConfigView, ErrorView>(
        ErrorView::NoConfigFound,
    ));
    match o3 {
        ResolverOutcomeView::Found(c) => {
            assert(spec_chain(seq![o3]) == Ok::<ConfigView, ErrorView>(c));
        },
        ResolverOutcomeView::HardError(e) => {
            assert(spec_chain(seq![o3]) == Err::<ConfigView, ErrorView>(e));
        },
        ResolverOutcomeView::NotApplicable => {
            assert(spec_chain(seq![o3]) == spec_chain(Seq::<ResolverOutcomeView>::empty()));
        },
    }
    match o2 {
        ResolverOutcomeView::Found(c) => {
            assert(spec_chain(seq![o2, o3]) == Ok::<ConfigView, ErrorView>(c));
        },
        ResolverOutcomeView::HardError(e) => {
            assert(spec_chain(seq![o2, o3]) == Err::<ConfigView, ErrorView>(e));
        },
        ResolverOutcomeView::NotApplicable => {
            assert(spec_chain(seq![o2, o3]) == spec_chain(seq![o3]));
        },
    }
    match o1 {
        ResolverOutcomeView::Found(c) => {
            assert(spec_chain(s) == Ok::<ConfigView, ErrorView>(c));
        },
        ResolverOutcomeView::HardError(e) => {
            assert(spec_chain(s) == Err::<ConfigView, ErrorView>(e));
        },
        ResolverOutcomeView::NotApplicable => {
            assert(spec_chain(s) == spec_chain(seq![o2, o3]));
        },
    }
}

/// Law of immediate failure: a hard error from the environment
/// resolver is the result of the whole resolution, whatever the
/// profile file or the mounted secret hold.
/// Law of the generic API token: whenever the server-address variable
/// holds a parsable URL and the generic API-token variable holds a
/// non-empty value, the environment resolver yields a record with the
/// custom-header scheme, the token verbatim (never prefixed) and no
/// expiry — whatever the user-token variable holds, it is ignored —
/// and the record renders to the fixed custom header name with the
/// raw token as its value.
pub proof fn lemma_api_token_selects_custom_header(
    url: Seq<char>,
    token: Seq<char>,
    user_token: VarReadView,
)
    requires
        url_normalized(url) is Some,
        token.len() > 0,
    ensures
        spec_env_resolve(VarReadView::Value(url), VarReadView::Value(token), user_token) == Ok::<
            Option<ConfigView>,
            ErrorView,
        >(
            Some(
                ConfigView {
                    server_url: url_normalized(url)->Some_0,
                    scheme: AuthScheme::XPlatzToken,
                    contents: token,
                    expires_at: None,
                },
            ),
        ),
        (ConfigView {
            server_url: url_normalized(url)->Some_0,
            scheme: AuthScheme::XPlatzToken,
            contents: token,
            expires_at: None,
        }).authorization_header() == ("x-platz-token"@, token),
{
}

pub proof fn lemma_env_hard_error_resolves_to_it(
    env: EnvSourceView,
    files: ProfileFileSourceView,
    secret: SecretSourceView,
    e: ErrorView,
)
    requires
        spec_env_resolve(env.url, env.api_token, env.user_token) == Err::<
            Option<ConfigView>,
            ErrorView,
        >(e),
    ensures
        spec_resolve(env, files, secret) == Err::<ConfigView, ErrorView>(e),
{
}

/// Law of default-profile selection: when no profile is requested —
/// neither explicitly nor through the override variable — and exactly
/// one profile is flagged default, the document resolves to that
/// profile's record (or to its hard error when its address or token
/// is unusable), never to any other profile.
pub proof fn lemma_single_default_is_chosen(profiles: Seq<(Seq<char>, ProfileInfoView)>)
    requires
        spec_default_count(profiles) == 1,
    ensures
        spec_first_default(profiles) is Some,
        spec_profile_resolve(ProfileFileReadView::Parsed(profiles), None, VarReadView::Missing)
            == lift_client(spec_to_client(spec_first_default(profiles)->Some_0)),
{
    lemma_no_default_iff_count_zero(profiles);
}

/// Law of ambiguous defaults: when no profile is requested and more
/// than one profile is flagged default, resolution fails with the
/// configuration error — no profile is ever picked arbitrarily.
pub proof fn lemma_multiple_defaults_never_resolve(profiles: Seq<(Seq<char>, ProfileInfoView)>)
    requires
        spec_default_count(profiles) >= 2,
    ensures
        spec_profile_resolve(ProfileFileReadView::Parsed(profiles), None, VarReadView::Missing)
            == Err::<Option<ConfigView>, ErrorView>(
            ErrorView::ConfigTomlError("Multiple default profiles"@),
        ),
{
}

impl PlatzClientConfig {
    /// The decision over one profile document: picks the requested or
    /// the default profile and turns it into a credential record.
    pub fn from_config_toml(
        doc: &ProfileFileRead,
        profile_name: &Option<String>,
        profile_var: &VarRead,
    ) -> (r: Result<Option<PlatzClientConfig>, PlatzClientError>)
        ensures
            view_resolution(r) == spec_profile_resolve(
                doc.deep_view(),
                profile_name.deep_view(),
                profile_var.deep_view(),
            ),
            r matches Ok(Some(c)) ==> c.deep_view().wf(),
    {
        let conf = match doc {
            ProfileFileRead::Missing => {
                return Ok(None);
            },
            ProfileFileRead::ReadFailed(m) => {
                return Err(PlatzClientError::ConfigReadError(m.clone()));
            },
            ProfileFileRead::ParseFailed(m) => {
                return Err(PlatzClientError::ConfigDeserializationError(m.clone()));
            },
            ProfileFileRead::Parsed(conf) => conf,
        };
        let requested: Option<&String> = match profile_name {
            Some(n) => Some(n),
            None => match profile_var {
                VarRead::Unreadable => {
                    return Err(PlatzClientError::EnvVarParseError("PLATZ_PROFILE".to_owned()));
                },
                VarRead::Value(s) => Some(s),
                VarRead::Missing => None,
            },
        };
        match requested {
            Some(name) => match conf.profile_index(name) {
                None => Err(
                    PlatzClientError::ConfigTomlError(
                        "Requested profile does not exist in configuration".to_owned(),
                    ),
                ),
                Some(i) => match conf.profile[i].1.to_client() {
                    Ok(c) => Ok(Some(c)),
                    Err(e) => Err(e),
                },
            },
            None => match conf.get_default_profile() {
                Err(e) => Err(e),
                Ok(Some(i)) => match conf.profile[i].1.to_client() {
                    Ok(c) => Ok(Some(c)),
                    Err(e) => Err(e),
                },
                Ok(None) => {
                    proof {
                        lemma_no_default_iff_count_zero(conf.deep_view());
                    }
                    Err(PlatzClientError::ConfigTomlError("Not default profile configured".to_owned()))
                },
            },
        }
    }

    /// The profile-file resolver: tries the profile document of the
    /// primary per-user configuration directory, then of the platform
    /// default directory when the first is absent.
    pub fn new_from_configuration(
        primary: &ProfileFileRead,
        fallback: &ProfileFileRead,
        server_name: &Option<String>,
        profile_var: &VarRead,
    ) -> (r: Result<Option<PlatzClientConfig>, PlatzClientError>)
        ensures
            view_resolution(r) == spec_configuration_resolve(
                primary.deep_view(),
                fallback.deep_view(),
                server_name.deep_view(),
                profile_var.deep_view(),
            ),
            r matches Ok(Some(c)) ==> c.deep_view().wf(),
    {
        match Self::from_config_toml(primary, server_name, profile_var) {
            Ok(None) => Self::from_config_toml(fallback, server_name, profile_var),
            other => other,
        }
    }

    /// The environment resolver: builds a record from the outcomes of
    /// reading the server-address variable and the two token variables.
    /// Hard errors (a variable present but unreadable, an unparsable
    /// address, an empty token) abort resolution; absent inputs make
    /// the resolver not applicable.
    pub fn new_from_env(url_var: &VarRead, api_token: &VarRead, user_token: &VarRead) -> (r:
        Result<Option<PlatzClientConfig>, PlatzClientError>)
        ensures
            view_resolution(r) == spec_env_resolve(
                url_var.deep_view(),
                api_token.deep_view(),
                user_token.deep_view(),
            ),
            r matches Ok(Some(c)) ==> c.deep_view().wf(),
    {
        let server_url: Option<String> = match url_var {
            VarRead::Unreadable => {
                return Err(PlatzClientError::EnvVarParseError("PLATZ_URL".to_owned()));
            },
            VarRead::Value(s) => match parse_url(s.as_str()) {
                Some(u) => Some(u),
                None => {
                    return Err(PlatzClientError::EnvVarParseError("PLATZ_URL".to_owned()));
                },
            },
            VarRead::Missing => None,
        };
        let picked: (AuthScheme, Option<&String>, &str) = match api_token {
            VarRead::Unreadable => {
                return Err(PlatzClientError::EnvVarParseError("PLATZ_API_TOKEN".to_owned()));
            },
            VarRead::Value(t) => (AuthScheme::XPlatzToken, Some(t), "PLATZ_API_TOKEN"),
            VarRead::Missing => match user_token {
                VarRead::Unreadable => {
                    return Err(PlatzClientError::EnvVarParseError("PLATZ_USER_TOKEN".to_owned()));
                },
                VarRead::Value(t) => (AuthScheme::Bearer, Some(t), "PLATZ_USER_TOKEN"),
                VarRead::Missing => (AuthScheme::Bearer, None, "PLATZ_USER_TOKEN"),
            },
        };
        match (server_url, picked.1) {
            (Some(u), Some(t)) => {
                if t.as_str().is_empty() {
                    Err(PlatzClientError::EnvVarParseError(picked.2.to_owned()))
                } else {
                    let c = PlatzClientConfig {
                        server_url: u,
                        scheme: picked.0,
                        contents: t.clone(),
                        expires_at: None,
                    };
                    proof {
                        assert(url_normalized(url_var->Value_0@) == Some(c.server_url@));
                        assert(is_normalized_url(c.server_url@));
                    }
                    Ok(Some(c))
                }
            },
            _ => Ok(None),
        }
    }

    /// The mounted-secret resolver: builds a record from the outcomes
    /// of reading the three co-located secret files that the platform
    /// rotates in place. Absent files make the resolver not applicable;
    /// any other read failure, an unparsable address or timestamp, or
    /// an empty token is a hard error.
    pub fn new_from_secret(access_token: &FileRead, server_url: &FileRead, expires_at: &FileRead)
        -> (r: Result<Option<PlatzClientConfig>, PlatzClientError>)
        ensures
            view_resolution(r) == spec_secret_resolve(
                access_token.deep_view(),
                server_url.deep_view(),
                expires_at.deep_view(),
            ),
            r matches Ok(Some(c)) ==> c.deep_view().wf(),
    {
        if let FileRead::Failed(m) = access_token {
            return Err(PlatzClientError::ConfigReadError(m.clone()));
        }
        if let FileRead::Failed(m) = server_url {
            return Err(PlatzClientError::ConfigReadError(m.clone()));
        }
        if let FileRead::Failed(m) = expires_at {
            return Err(PlatzClientError::ConfigReadError(m.clone()));
        }
        match (access_token, server_url, expires_at) {
            (FileRead::Content(tok), FileRead::Content(url), FileRead::Content(exp)) => {
                let parsed_url = match parse_url(url.as_str()) {
                    Some(u) => u,
                    None => {
                        return Err(PlatzClientError::MountedUrlParseError);
                    },
                };
                let parsed_exp = match parse_datetime_seconds(exp.as_str()) {
                    Some(t) => t,
                    None => {
                        return Err(PlatzClientError::MountedExpiryParseError);
                    },
                };
                if tok.as_str().is_empty() {
                    return Err(
                        PlatzClientError::ConfigReadError(
                            "mounted access token is empty".to_owned(),
                        ),
                    );
                }
                let c = PlatzClientConfig {
                    server_url: parsed_url,
                    scheme: AuthScheme::Bearer,
                    contents: tok.clone(),
                    expires_at: Some(parsed_exp),
                };
                proof {
                    assert(url_normalized(url@) == Some(c.server_url@));
                    assert(is_normalized_url(c.server_url@));
                }
                Ok(Some(c))
            },
            _ => Ok(None),
        }
    }

    /// Resolution overall, in the fixed precedence order: environment,
    /// then profile file (primary directory, then platform default),
    /// then mounted secret. The first record produced wins; a hard
    /// error from any resolver aborts immediately without consulting
    /// later resolvers; when every resolver is not applicable, no
    /// configuration was found.
    pub fn new(env: &EnvSource, files: &ProfileFileSource, secret: &SecretSource) -> (r: Result<
        PlatzClientConfig,
        PlatzClientError,
    >)
        ensures
            view_config_result(r) == spec_resolve(
                env.deep_view(),
                files.deep_view(),
                secret.deep_view(),
            ),
            r matches Ok(c) ==> c.deep_view().wf(),
    {
        if let Some(config) = Self::new_from_env(&env.url, &env.api_token, &env.user_token)? {
            Ok(config)
        } else if let Some(config) = Self::new_from_configuration(
            &files.primary,
            &files.fallback,
            &None,
            &env.profile,
        )? {
            Ok(config)
        } else if let Some(config) = Self::new_from_secret(
            &secret.access_token,
            &secret.server_url,
            &secret.expires_at,
        )? {
            Ok(config)
        } else {
            Err(PlatzClientError::NoConfigFound)
        }
    }

    /// Whether the credentials are stale at the instant `now`, given in
    /// whole seconds since the Unix epoch. A record without an expiry
    /// never goes stale.
    pub fn expired_at_seconds(&self, now: i64) -> (b: bool)
        ensures
            b == self.deep_view().is_expired_at(now as int),
    {
        match self.expires_at {
            Some(e) => e <= now,
            None => false,
        }
    }

    /// Checks the credentials against the system clock. Whatever the
    /// clock returns, a record without an expiry is never stale.
    pub fn expired(&self) -> (b: bool)
        ensures
            self.expires_at is None ==> !b,
            b ==> self.expires_at is Some,
    {
        let now = now_seconds();
        self.expired_at_seconds(now)
    }

    /// Renders the record's auth scheme into a header name/value pair.
    /// Always succeeds: both schemes render to plain text.
    pub fn get_authorization(&self) -> (r: Result<(String, String), PlatzClientError>)
        ensures
            r matches Ok(h) && (h.0@, h.1@) == self.deep_view().authorization_header(),
    {
        Ok(self.authorization_pair())
    }

    /// The header pair itself; rendering plain text never fails.
    pub fn authorization_pair(&self) -> (h: (String, String))
        ensures
            (h.0@, h.1@) == self.deep_view().authorization_header(),
    {
        match self.scheme {
            AuthScheme::Bearer => (
                "authorization".to_owned(),
                String::from_str("Bearer ").concat(self.contents.as_str()),
            ),
            AuthScheme::XPlatzToken => ("x-platz-token".to_owned(), self.contents.clone()),
        }
    }
}

} // verus!
