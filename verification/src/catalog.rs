//! The providers a project can be backed up to, as the picker shows them.
use vstd::prelude::*;

use crate::path::{file_name, join_path, joined_path, name_of, Platform};
use crate::text::{after_prefix, copy_optional, optional_view, starts, starts_with};

verus! {

/// Where the provider list comes from.
#[derive(Clone, Copy, Debug, PartialEq, Eq, Structural)]
pub enum CatalogState {
    /// The published list is being fetched; no providers are shown yet.
    Loading,
    Live,
    /// The list could not be reached. There is nothing more to wait for.
    Unreachable,
    /// Supplied by `--providers-file`.
    FromFile,
}

impl CatalogState {
    pub open spec fn label_text(self) -> Seq<char> {
        match self {
            CatalogState::Loading => "CHECKING FOR PROVIDERS…"@,
            CatalogState::Live => "FIRST-PARTY LIST"@,
            CatalogState::Unreachable => "COULD NOT REACH THE PROVIDER LIST"@,
            CatalogState::FromFile => "PROVIDER LIST FROM FILE"@,
        }
    }

    pub fn label(self) -> (r: &'static str)
        ensures
            r@ == self.label_text(),
    {
        match self {
            CatalogState::Loading => "CHECKING FOR PROVIDERS…",
            CatalogState::Live => "FIRST-PARTY LIST",
            CatalogState::Unreachable => "COULD NOT REACH THE PROVIDER LIST",
            CatalogState::FromFile => "PROVIDER LIST FROM FILE",
        }
    }
}

/// How a provider stands to this machine.
#[derive(Clone, Copy, Debug, PartialEq, Eq, Structural)]
pub enum ProviderAvailability {
    Connected,
    OnYourNetwork,
    Recommended,
    Available,
}

impl Default for ProviderAvailability {
    fn default() -> (r: Self)
        ensures
            r is Available,
    {
        ProviderAvailability::Available
    }
}

impl ProviderAvailability {
    pub open spec fn label_text(self) -> Seq<char> {
        match self {
            ProviderAvailability::Connected => "CONNECTED"@,
            ProviderAvailability::OnYourNetwork => "ON YOUR NETWORK"@,
            ProviderAvailability::Recommended => "RECOMMENDED"@,
            ProviderAvailability::Available => "AVAILABLE"@,
        }
    }

    pub fn label(self) -> (r: &'static str)
        ensures
            r@ == self.label_text(),
    {
        match self {
            ProviderAvailability::Connected => "CONNECTED",
            ProviderAvailability::OnYourNetwork => "ON YOUR NETWORK",
            ProviderAvailability::Recommended => "RECOMMENDED",
            ProviderAvailability::Available => "AVAILABLE",
        }
    }
}

/// How a provider lets a person in.
#[derive(Clone, Copy, Debug, PartialEq, Eq, Structural)]
pub enum AuthMethod {
    OAuthAuthorizationCodePkce,
    OAuthDeviceCode,
    Pat,
    NoAuth,
}

/// What a provider can do beyond holding versions.
#[derive(Clone, Copy, Debug, PartialEq, Eq, Structural)]
pub struct Capabilities {
    pub project_listing: bool,
    pub history_retention: bool,
}

impl Default for Capabilities {
    fn default() -> (r: Self)
        ensures
            !r.project_listing,
            !r.history_retention,
    {
        Capabilities { project_listing: false, history_retention: false }
    }
}

/// What a registry says of a provider's availability. It has no word for being
/// connected.
#[derive(Clone, Copy, Debug, PartialEq, Eq, Structural)]
pub enum RegistryAvailability {
    Recommended,
    OnYourNetwork,
    Available,
}

/// A provider as a registry describes it.
#[derive(Debug)]
pub struct RegistryEntry {
    pub id: String,
    pub name: String,
    pub endpoint: String,
    pub capabilities: Capabilities,
    pub auth_methods: Vec<AuthMethod>,
    pub icon_url: Option<String>,
    pub description: String,
    pub detail: String,
    pub recommended: bool,
    pub availability: RegistryAvailability,
}

/// Whether two entries say the same.
pub open spec fn same_entry(a: RegistryEntry, b: RegistryEntry) -> bool {
    &&& a.id@ == b.id@
    &&& a.name@ == b.name@
    &&& a.endpoint@ == b.endpoint@
    &&& a.capabilities == b.capabilities
    &&& a.auth_methods@ == b.auth_methods@
    &&& optional_view(a.icon_url) == optional_view(b.icon_url)
    &&& a.description@ == b.description@
    &&& a.detail@ == b.detail@
    &&& a.recommended == b.recommended
    &&& a.availability == b.availability
}

impl Clone for RegistryEntry {
    fn clone(&self) -> (r: Self)
        ensures
            same_entry(r, *self),
    {
        let auth_methods = self.auth_methods.clone();
        assert(auth_methods@ =~= self.auth_methods@);
        RegistryEntry {
            id: self.id.clone(),
            name: self.name.clone(),
            endpoint: self.endpoint.clone(),
            capabilities: self.capabilities,
            auth_methods,
            icon_url: copy_optional(&self.icon_url),
            description: self.description.clone(),
            detail: self.detail.clone(),
            recommended: self.recommended,
            availability: self.availability,
        }
    }
}

/// What signing in to a provider will involve.
#[derive(Clone, Copy, Debug, PartialEq, Eq)]
pub struct AuthHint {
    /// One line for the provider row.
    pub summary: &'static str,
    /// What actually happens next, for the connect screen.
    pub detail: &'static str,
    /// Compact standards label shown above the connect screen.
    pub eyebrow: &'static str,
    /// Call-to-action shown on the connect button.
    pub action: &'static str,
    /// Whether the connect screen needs a credential input.
    pub accepts_credential: bool,
}

impl AuthHint {
    /// Whether a hint is the one for a method.
    pub open spec fn is_for(self, method: AuthMethod) -> bool {
        match method {
            AuthMethod::OAuthAuthorizationCodePkce => {
                &&& self.summary@ == "Sign in with your browser"@
                &&& self.detail@
                    == "Auru opens your provider's sign-in page in your browser and waits for its secure loopback callback. Your password is never typed into this app or stored here."@
                &&& self.eyebrow@ == "OAUTH + PKCE"@
                &&& self.action@ == "SIGN IN WITH BROWSER →"@
                &&& !self.accepts_credential
            },
            AuthMethod::OAuthDeviceCode => {
                &&& self.summary@ == "Sign in with your browser"@
                &&& self.detail@
                    == "Auru shows you a short code and opens your browser. Your password is never typed into this app or stored here."@
                &&& self.eyebrow@ == "OAUTH DEVICE CODE"@
                &&& self.action@ == "BEGIN PROVIDER SIGN-IN →"@
                &&& !self.accepts_credential
            },
            AuthMethod::Pat => {
                &&& self.summary@ == "Needs an access token"@
                &&& self.detail@
                    == "Create an access token in your provider's account settings and paste it here. It is kept in your operating system's keychain, not in Auru's own files."@
                &&& self.eyebrow@ == "PERSONAL ACCESS TOKEN"@
                &&& self.action@ == "CONNECT SECURELY →"@
                &&& self.accepts_credential
            },
            AuthMethod::NoAuth => {
                &&& self.summary@ == "No sign-in needed"@
                &&& self.detail@
                    == "This provider is on your own machine or network, so there is nothing to sign in to."@
                &&& self.eyebrow@ == "NO AUTHENTICATION"@
                &&& self.action@ == "CONNECT →"@
                &&& !self.accepts_credential
            },
        }
    }

    pub fn for_method(method: &AuthMethod) -> (r: Self)
        ensures
            r.is_for(*method),
    {
        match method {
            AuthMethod::OAuthAuthorizationCodePkce => AuthHint {
                summary: "Sign in with your browser",
                detail:
                    "Auru opens your provider's sign-in page in your browser and waits for its secure loopback callback. Your password is never typed into this app or stored here.",
                eyebrow: "OAUTH + PKCE",
                action: "SIGN IN WITH BROWSER →",
                accepts_credential: false,
            },
            AuthMethod::OAuthDeviceCode => AuthHint {
                summary: "Sign in with your browser",
                detail:
                    "Auru shows you a short code and opens your browser. Your password is never typed into this app or stored here.",
                eyebrow: "OAUTH DEVICE CODE",
                action: "BEGIN PROVIDER SIGN-IN →",
                accepts_credential: false,
            },
            AuthMethod::Pat => AuthHint {
                summary: "Needs an access token",
                detail:
                    "Create an access token in your provider's account settings and paste it here. It is kept in your operating system's keychain, not in Auru's own files.",
                eyebrow: "PERSONAL ACCESS TOKEN",
                action: "CONNECT SECURELY →",
                accepts_credential: true,
            },
            AuthMethod::NoAuth => AuthHint {
                summary: "No sign-in needed",
                detail:
                    "This provider is on your own machine or network, so there is nothing to sign in to.",
                eyebrow: "NO AUTHENTICATION",
                action: "CONNECT →",
                accepts_credential: false,
            },
        }
    }
}

/// A provider as the picker shows it.
#[derive(Debug)]
pub struct ProviderListing {
    pub entry: RegistryEntry,
    pub detail: String,
    pub availability: ProviderAvailability,
}

/// Whether two listings are of one provider, and say the same of it.
pub open spec fn same_listing(a: ProviderListing, b: ProviderListing) -> bool {
    &&& same_entry(a.entry, b.entry)
    &&& a.detail@ == b.detail@
    &&& a.availability == b.availability
}

impl Clone for ProviderListing {
    fn clone(&self) -> (r: Self)
        ensures
            same_listing(r, *self),
    {
        ProviderListing {
            entry: self.entry.clone(),
            detail: self.detail.clone(),
            availability: self.availability,
        }
    }
}

/// The line under a provider's name: the first thing the registry said of it.
pub open spec fn listing_detail(entry: RegistryEntry) -> Seq<char> {
    if entry.detail@.len() > 0 {
        entry.detail@
    } else if entry.description@.len() > 0 {
        entry.description@
    } else {
        entry.endpoint@
    }
}

/// What the registry asked for, falling back to the older `recommended` flag.
pub open spec fn listing_availability(entry: RegistryEntry) -> ProviderAvailability {
    match entry.availability {
        RegistryAvailability::Recommended => ProviderAvailability::Recommended,
        RegistryAvailability::OnYourNetwork => ProviderAvailability::OnYourNetwork,
        RegistryAvailability::Available => if entry.recommended {
            ProviderAvailability::Recommended
        } else {
            ProviderAvailability::Available
        },
    }
}

/// Whether a listing presents a registry entry.
pub open spec fn presents(listing: ProviderListing, entry: RegistryEntry) -> bool {
    listing.entry == entry && listing.detail@ == listing_detail(entry) && listing.availability
        == listing_availability(entry)
}

/// Whether listings present registry entries, one for one.
pub open spec fn present_all(listings: Seq<ProviderListing>, entries: Seq<RegistryEntry>) -> bool {
    listings.len() == entries.len() && forall|i: int|
        0 <= i < entries.len() ==> presents(#[trigger] listings[i], entries[i])
}

/// The first method that asks for something; none where no method does.
pub open spec fn preferred_method(methods: Seq<AuthMethod>) -> AuthMethod
    decreases methods.len(),
{
    if methods.len() == 0 {
        AuthMethod::NoAuth
    } else if methods[0] != AuthMethod::NoAuth {
        methods[0]
    } else {
        preferred_method(methods.drop_first())
    }
}

/// Prefix marking a provider that is a folder rather than a server.
pub const LOCAL_ID_PREFIX: &'static str = "local:";

/// What a file that should hold a registry was found to be.
#[derive(Debug)]
pub enum RegistryRead {
    Unreadable(String),
    Malformed(String),
    Parsed(Vec<RegistryEntry>),
}

/// Present registry entries, in their order.
fn present(entries: Vec<RegistryEntry>) -> (r: Vec<ProviderListing>)
    ensures
        present_all(r@, entries@),
{
    let ghost all = entries@;
    let mut rest = entries;
    let mut out: Vec<ProviderListing> = Vec::new();
    while rest.len() > 0
        invariant
            out@.len() + rest@.len() == all.len(),
            rest@ == all.skip(out@.len() as int),
            forall|i: int| 0 <= i < out@.len() ==> presents(#[trigger] out@[i], all[i]),
        decreases rest@.len(),
    {
        let entry = rest.remove(0);
        assert(entry == all[out@.len() as int]);
        out.push(ProviderListing::from_registry(entry));
        assert(rest@ == all.skip(out@.len() as int));
    }
    out
}

/// Read a provider list, from wherever it came. A list of none is an error,
/// not an empty picker.
pub fn parse_provider_list(document: Result<Vec<RegistryEntry>, String>, source: &str) -> (r:
    Result<Vec<ProviderListing>, String>)
    ensures
        match document {
            Err(error) => r matches Err(message) && message@ == source@
                + " isn't a valid provider list: "@ + error@,
            Ok(entries) => if entries@.len() == 0 {
                r matches Err(message) && message@ == source@ + " lists no providers"@
            } else {
                r matches Ok(listings) && present_all(listings@, entries@)
            },
        },
{
    match document {
        Err(error) => {
            let mut message = source.to_owned();
            message.append(" isn't a valid provider list: ");
            message.append(error.as_str());
            Err(message)
        },
        Ok(entries) => {
            if entries.len() == 0 {
                let mut message = source.to_owned();
                message.append(" lists no providers");
                Err(message)
            } else {
                Ok(present(entries))
            }
        },
    }
}

/// Read a registry from a file.
pub fn load_provider_file(path: &str, read: RegistryRead) -> (r: Result<
    Vec<ProviderListing>,
    String,
>)
    ensures
        match read {
            RegistryRead::Unreadable(error) => r matches Err(message) && message@
                == "couldn't read "@ + path@ + ": "@ + error@,
            RegistryRead::Malformed(error) => r matches Err(message) && message@ == path@
                + " isn't a valid provider list: "@ + error@,
            RegistryRead::Parsed(entries) => if entries@.len() == 0 {
                r matches Err(message) && message@ == path@ + " lists no providers"@
            } else {
                r matches Ok(listings) && present_all(listings@, entries@)
            },
        },
{
    match read {
        RegistryRead::Unreadable(error) => {
            let mut message = "couldn't read ".to_owned();
            message.append(path);
            message.append(": ");
            message.append(error.as_str());
            Err(message)
        },
        RegistryRead::Malformed(error) => parse_provider_list(Err(error), path),
        RegistryRead::Parsed(entries) => parse_provider_list(Ok(entries), path),
    }
}

/// Present the published registry, which was fetched from `source`.
pub fn fetch_first_party_catalog(fetched: Result<Vec<RegistryEntry>, String>, source: &str) -> (r:
    Result<Vec<ProviderListing>, String>)
    ensures
        match fetched {
            Err(error) => r matches Err(message) && message@ == error@,
            Ok(entries) => if entries@.len() == 0 {
                r matches Err(message) && message@ == source@ + " lists no providers"@
            } else {
                r matches Ok(listings) && present_all(listings@, entries@)
            },
        },
{
    match fetched {
        Err(error) => Err(error),
        Ok(entries) => parse_provider_list(Ok(entries), source),
    }
}

/// Whether a listing is that of a folder, whether it is connected or not.
pub open spec fn is_local_listing(on: Platform, listing: ProviderListing, path: Seq<char>) -> bool {
    &&& listing.entry.id@ == "local:"@ + path
    &&& listing.entry.name@ == (match name_of(on, path) {
        Some(name) => name,
        None => "Local folder"@,
    })
    &&& listing.entry.endpoint@ == "file://"@ + path
    &&& listing.entry.capabilities == (Capabilities {
        project_listing: false,
        history_retention: false,
    })
    &&& listing.entry.auth_methods@ == seq![AuthMethod::NoAuth]
    &&& listing.entry.icon_url is None
    &&& listing.entry.description@ == path
    &&& listing.entry.detail@ == path
    &&& !listing.entry.recommended
    &&& listing.entry.availability is OnYourNetwork
    &&& listing.detail@ == path
}

/// A destination that is just a folder: an external drive, or a NAS share
/// mounted on this machine. Its identity is its path, so the same folder is
/// always the same provider.
pub fn local_provider(on: Platform, path: &str) -> (r: ProviderListing)
    ensures
        is_local_listing(on, r, path@),
        r.availability is OnYourNetwork,
{
    let name = match file_name(on, path) {
        Some(name) => name,
        None => "Local folder".to_owned(),
    };
    let mut id = "local:".to_owned();
    id.append(path);
    let mut endpoint = "file://".to_owned();
    endpoint.append(path);
    let mut auth_methods: Vec<AuthMethod> = Vec::new();
    auth_methods.push(AuthMethod::NoAuth);
    ProviderListing {
        entry: RegistryEntry {
            id,
            name,
            endpoint,
            capabilities: Capabilities::default(),
            auth_methods,
            icon_url: None,
            description: path.to_owned(),
            detail: path.to_owned(),
            recommended: false,
            availability: RegistryAvailability::OnYourNetwork,
        },
        detail: path.to_owned(),
        availability: ProviderAvailability::OnYourNetwork,
    }
}

impl ProviderListing {
    /// Present a registry entry in the picker. Being connected is a fact about
    /// this machine that no registry can claim.
    pub fn from_registry(entry: RegistryEntry) -> (r: Self)
        ensures
            presents(r, entry),
            !(r.availability is Connected),
    {
        let detail = if !entry.detail.as_str().is_empty() {
            entry.detail.clone()
        } else if !entry.description.as_str().is_empty() {
            entry.description.clone()
        } else {
            entry.endpoint.clone()
        };
        let availability = match entry.availability {
            RegistryAvailability::Recommended => ProviderAvailability::Recommended,
            RegistryAvailability::OnYourNetwork => ProviderAvailability::OnYourNetwork,
            RegistryAvailability::Available => {
                if entry.recommended {
                    ProviderAvailability::Recommended
                } else {
                    ProviderAvailability::Available
                }
            },
        };
        ProviderListing { entry, detail, availability }
    }

    pub fn requires_authentication(&self) -> (r: bool)
        ensures
            r == (exists|i: int|
                0 <= i < self.entry.auth_methods@.len() && #[trigger] self.entry.auth_methods@[i]
                    != AuthMethod::NoAuth),
    {
        let method = self.preferred_auth_method();
        proof {
            preferred_method_is_found(self.entry.auth_methods@);
        }
        method != AuthMethod::NoAuth
    }

    pub fn preferred_auth_method(&self) -> (r: AuthMethod)
        ensures
            r == preferred_method(self.entry.auth_methods@),
    {
        let methods = &self.entry.auth_methods;
        let mut i: usize = 0;
        assert(methods@.skip(0) == methods@);
        while i < methods.len()
            invariant
                i <= methods@.len(),
                methods@ == self.entry.auth_methods@,
                preferred_method(methods@) == preferred_method(methods@.skip(i as int)),
            decreases methods@.len() - i,
        {
            assert(methods@.skip(i as int).drop_first() == methods@.skip(i + 1));
            if methods[i] != AuthMethod::NoAuth {
                return methods[i];
            }
            i = i + 1;
        }
        AuthMethod::NoAuth
    }

    pub fn mark_connected(&mut self)
        ensures
            *final(self) == (ProviderListing {
                availability: ProviderAvailability::Connected,
                ..*old(self)
            }),
    {
        self.availability = ProviderAvailability::Connected;
    }

    pub fn is_connected(&self) -> (r: bool)
        ensures
            r == (self.availability is Connected),
    {
        self.availability == ProviderAvailability::Connected
    }

    /// What signing in to this provider will involve.
    pub fn auth_hint(&self) -> (r: AuthHint)
        ensures
            r.is_for(preferred_method(self.entry.auth_methods@)),
    {
        let method = self.preferred_auth_method();
        AuthHint::for_method(&method)
    }

    /// Whether this destination is a folder on this machine or network.
    pub fn is_local(&self) -> (r: bool)
        ensures
            r == starts(self.entry.id@, "local:"@),
    {
        starts_with(self.entry.id.as_str(), LOCAL_ID_PREFIX)
    }

    /// The folder behind a local destination.
    pub fn local_path(&self) -> (r: Option<String>)
        ensures
            r is Some == starts(self.entry.id@, "local:"@),
            r matches Some(path) ==> path@ == self.entry.id@.skip("local:"@.len() as int),
    {
        after_prefix(self.entry.id.as_str(), LOCAL_ID_PREFIX)
    }

    /// The folder that a local destination keeps its projects in.
    pub fn projects_root(&self, on: Platform) -> (r: Option<String>)
        ensures
            r is Some == starts(self.entry.id@, "local:"@),
            r matches Some(root) ==> root@ == store_root(
                on,
                self.entry.id@.skip("local:"@.len() as int),
            ),
    {
        match self.local_path() {
            Some(path) => Some(
                join_path(on, join_path(on, path.as_str(), ".auru-pm").as_str(), "projects"),
            ),
            None => None,
        }
    }

    /// The folder that a local destination keeps a project in.
    pub fn project_root(&self, on: Platform, handle: &str) -> (r: Option<String>)
        ensures
            r is Some == starts(self.entry.id@, "local:"@),
            r matches Some(root) ==> root@ == joined_path(
                on,
                store_root(on, self.entry.id@.skip("local:"@.len() as int)),
                handle@,
            ),
    {
        match self.projects_root(on) {
            Some(root) => Some(join_path(on, root.as_str(), handle)),
            None => None,
        }
    }
}

/// The folder beneath a local destination that holds its projects.
pub open spec fn store_root(on: Platform, folder: Seq<char>) -> Seq<char> {
    joined_path(on, joined_path(on, folder, ".auru-pm"@), "projects"@)
}

proof fn preferred_method_is_found(methods: Seq<AuthMethod>)
    ensures
        (preferred_method(methods) != AuthMethod::NoAuth) == (exists|i: int|
            0 <= i < methods.len() && #[trigger] methods[i] != AuthMethod::NoAuth),
    decreases methods.len(),
{
    if methods.len() > 0 {
        let rest = methods.drop_first();
        preferred_method_is_found(rest);
        if methods[0] == AuthMethod::NoAuth {
            if exists|i: int| 0 <= i < methods.len() && #[trigger] methods[i] != AuthMethod::NoAuth {
                let i = choose|i: int|
                    0 <= i < methods.len() && #[trigger] methods[i] != AuthMethod::NoAuth;
                assert(rest[i - 1] == methods[i]);
            }
            if exists|i: int| 0 <= i < rest.len() && #[trigger] rest[i] != AuthMethod::NoAuth {
                let i = choose|i: int| 0 <= i < rest.len() && #[trigger] rest[i] != AuthMethod::NoAuth;
                assert(methods[i + 1] == rest[i]);
            }
        }
    }
}

/// The path of a folder is what its provider leads back to, so that two
/// folders are one provider only if their paths are one text.
pub proof fn local_identity_is_the_path(id: Seq<char>, path: Seq<char>)
    requires
        id == "local:"@ + path,
    ensures
        starts(id, "local:"@),
        id.skip("local:"@.len() as int) == path,
{
    assert(id.subrange(0, "local:"@.len() as int) =~= "local:"@);
    assert(id.skip("local:"@.len() as int) =~= path);
}

/// The place of the first connected provider; the length where there is none.
pub open spec fn first_connected(list: Seq<ProviderListing>) -> int
    decreases list.len(),
{
    if list.len() == 0 {
        0
    } else {
        let before = first_connected(list.drop_last());
        if before < list.len() - 1 || list.last().availability is Connected {
            before
        } else {
            list.len() as int
        }
    }
}

/// The place of the first provider with an id; the length where there is none.
pub open spec fn provider_index(list: Seq<ProviderListing>, id: Seq<char>) -> int
    decreases list.len(),
{
    if list.len() == 0 {
        0
    } else {
        let before = provider_index(list.drop_last(), id);
        if before < list.len() - 1 || list.last().entry.id@ == id {
            before
        } else {
            list.len() as int
        }
    }
}

/// The place of the first provider with an id.
pub fn find_provider(list: &Vec<ProviderListing>, id: &str) -> (r: Option<usize>)
    ensures
        r is None == (provider_index(list@, id@) == list@.len()),
        r matches Some(at) ==> at == provider_index(list@, id@) && at < list@.len()
            && list@[at as int].entry.id@ == id@,
{
    let mut i: usize = 0;
    let mut found: Option<usize> = None;
    assert(list@.take(0).len() == 0);
    while i < list.len()
        invariant
            i <= list@.len(),
            found is None ==> provider_index(list@.take(i as int), id@) == i,
            found matches Some(at) ==> at < i && at == provider_index(list@.take(i as int), id@)
                && list@[at as int].entry.id@ == id@,
        decreases list@.len() - i,
    {
        assert(list@.take(i + 1).drop_last() == list@.take(i as int));
        if found.is_none() && crate::text::same(list[i].entry.id.as_str(), id) {
            found = Some(i);
        }
        i = i + 1;
    }
    assert(list@.take(i as int) == list@);
    found
}

/// The first connected provider: where a project without a destination of its
/// own is backed up.
pub fn default_listing(providers: &Vec<ProviderListing>) -> (r: Option<usize>)
    ensures
        r is None == (first_connected(providers@) == providers@.len()),
        r matches Some(at) ==> at == first_connected(providers@) && at < providers@.len()
            && providers@[at as int].availability is Connected,
{
    let mut i: usize = 0;
    let mut found: Option<usize> = None;
    assert(providers@.take(0).len() == 0);
    while i < providers.len()
        invariant
            i <= providers@.len(),
            found is None ==> first_connected(providers@.take(i as int)) == i,
            found matches Some(at) ==> at < i && at == first_connected(providers@.take(i as int))
                && providers@[at as int].availability is Connected,
        decreases providers@.len() - i,
    {
        assert(providers@.take(i + 1).drop_last() == providers@.take(i as int));
        if found.is_none() && providers[i].is_connected() {
            found = Some(i);
        }
        i = i + 1;
    }
    assert(providers@.take(i as int) == providers@);
    found
}

/// The provider a project's sidecar names as its own, where it is listed.
pub fn primary_listing(providers: &Vec<ProviderListing>, primary: &Option<String>) -> (r: Option<
    usize,
>)
    ensures
        match *primary {
            None => r is None,
            Some(id) => {
                &&& r is None == (provider_index(providers@, id@) == providers@.len())
                &&& r matches Some(at) ==> at == provider_index(providers@, id@)
            },
        },
{
    match primary {
        None => None,
        Some(id) => find_provider(providers, id.as_str()),
    }
}

} // verus!
