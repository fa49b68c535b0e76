//! The person: their name, the introduction, and signing in to providers.
use vstd::prelude::*;

use crate::appearance::Appearance;
use crate::catalog::{preferred_method, AuthMethod, ProviderAvailability, ProviderListing};
use crate::manager::{Effects, ProjectManager};
use crate::navigation::{AuthPhase, OnboardingStep, Overlay, OverlayHost, OverlayState, Route};
use crate::notice::{joined2, joined3, notice_view, says, Notice, NoticeLevel};
use crate::retention::VersionRetention;
use crate::state::AppState;
use crate::text::{blank, holds_text, is_blank, optional_view, same, trim, trimmed, views};

verus! {

/// Nothing but a message.
fn only(notice: Notice) -> (r: Effects)
    ensures
        notice_view(r.notice) == Some(notice@),
        !r.save,
        r.refresh@.len() == 0,
{
    Effects { notice: Some(notice), save: false, refresh: Vec::new() }
}

// ---------------------------------------------------------------------------
// Settings
// ---------------------------------------------------------------------------

impl ProjectManager {
    /// Switch the whole app's appearance, and remember it.
    pub fn apply_appearance(&mut self, appearance: Appearance)
        ensures
            *final(self) == (ProjectManager {
                appearance,
                state: final(self).state,
                ..*old(self)
            }),
            final(self).state == (AppState {
                appearance: final(self).state.appearance,
                ..old(self).state
            }),
            final(self).state.appearance@ == appearance.key_text(),
    {
        self.appearance = appearance;
        self.state.appearance = appearance.key().to_owned();
    }

    /// Turn automatic backups on or off, and remember it.
    pub fn set_automatic_backups(&mut self, on: bool)
        ensures
            *final(self) == (ProjectManager {
                automatic_backups: on,
                state: AppState { automatic_backups: on, ..old(self).state },
                ..*old(self)
            }),
    {
        self.automatic_backups = on;
        self.state.automatic_backups = on;
    }

    /// Turn the verification of uploads on or off, and remember it.
    pub fn set_verify_uploads(&mut self, on: bool)
        ensures
            *final(self) == (ProjectManager {
                verify_uploads: on,
                state: AppState { verify_uploads: on, ..old(self).state },
                ..*old(self)
            }),
    {
        self.verify_uploads = on;
        self.state.verify_uploads = on;
    }

    /// Choose how much history is kept, by its key, and remember it.
    pub fn set_version_retention(&mut self, key: &str)
        ensures
            *final(self) == (ProjectManager {
                version_retention: VersionRetention::of_key(key@),
                state: final(self).state,
                ..*old(self)
            }),
            final(self).state == (AppState {
                version_retention: final(self).state.version_retention,
                ..old(self).state
            }),
            final(self).state.version_retention@ == VersionRetention::of_key(key@).key_text(),
    {
        self.version_retention = VersionRetention::from_key(key);
        self.state.version_retention = self.version_retention.key().to_owned();
    }

    /// Whether what was typed is another name.
    pub open spec fn is_new_name(self, typed: Seq<char>) -> bool {
        !is_blank(typed) && trimmed(typed) != self.display_name@
    }

    /// Take over the typed name, if it says anything: a blank one would make
    /// past work look anonymous. Says whether there is a new name to save.
    pub fn commit_display_name(&mut self, typed: &str) -> (r: bool)
        ensures
            r == old(self).is_new_name(typed@),
            !r ==> *final(self) == *old(self),
            r ==> {
                &&& *final(self) == (ProjectManager {
                    display_name: final(self).display_name,
                    state: final(self).state,
                    ..*old(self)
                })
                &&& final(self).display_name@ == trimmed(typed@)
                &&& final(self).state == (AppState {
                    display_name: final(self).state.display_name,
                    ..old(self).state
                })
                &&& final(self).state.display_name@ == trimmed(typed@)
            },
    {
        let typed_name = trim(typed);
        if blank(typed) || same(typed_name.as_str(), self.display_name.as_str()) {
            return false;
        }
        self.state.display_name = typed_name.clone();
        self.display_name = typed_name;
        true
    }

    /// Save the typed name, and say which name versions get.
    pub fn save_display_name(&mut self, typed: &str) -> (r: Effects)
        ensures
            r.save == old(self).is_new_name(typed@),
            !r.save ==> *final(self) == *old(self),
            r.save ==> {
                &&& *final(self) == (ProjectManager {
                    display_name: final(self).display_name,
                    state: final(self).state,
                    ..*old(self)
                })
                &&& final(self).display_name@ == trimmed(typed@)
                &&& final(self).state == (AppState {
                    display_name: final(self).state.display_name,
                    ..old(self).state
                })
                &&& final(self).state.display_name@ == trimmed(typed@)
            },
            notice_view(r.notice) == Some(
                says(
                    NoticeLevel::Success,
                    "Name updated"@,
                    "New versions will be saved as "@ + final(self).display_name@ + "."@,
                ),
            ),
            r.refresh@.len() == 0,
    {
        let save = self.commit_display_name(typed);
        let message = joined3("New versions will be saved as ", self.display_name.as_str(), ".");
        Effects {
            notice: Some(Notice::success("Name updated", message.as_str())),
            save,
            refresh: Vec::new(),
        }
    }
}

// ---------------------------------------------------------------------------
// The introduction
// ---------------------------------------------------------------------------

impl ProjectManager {
    /// Whether `after` and `effects` are what the introduction goes on with.
    pub open spec fn advances(
        self,
        typed: Seq<char>,
        after: ProjectManager,
        effects: Effects,
    ) -> bool {
        &&& match self.onboarding_step {
            OnboardingStep::Profile => if is_blank(typed) {
                &&& after == self
                &&& !effects.save
                &&& notice_view(effects.notice) == Some(
                    says(
                        NoticeLevel::Warning,
                        "Display name needed"@,
                        "Add the name you want shown on project history."@,
                    ),
                )
            } else {
                &&& after == (ProjectManager {
                    onboarding_step: OnboardingStep::Provider,
                    display_name: after.display_name,
                    state: after.state,
                    ..self
                })
                &&& after.display_name@ == trimmed(typed)
                &&& after.state == (AppState {
                    display_name: after.state.display_name,
                    ..self.state
                })
                &&& after.state.display_name@ == trimmed(typed)
                &&& effects.save
                &&& effects.notice is None
            },
            OnboardingStep::Provider => {
                &&& after == (ProjectManager {
                    onboarding_step: OnboardingStep::Music,
                    ..self
                })
                &&& !effects.save
                &&& effects.notice is None
            },
            OnboardingStep::Music => {
                &&& after == (ProjectManager {
                    route: Route::Library,
                    state: AppState { onboarding_complete: true, ..self.state },
                    ..self
                })
                &&& effects.save
                &&& notice_view(effects.notice) == Some(
                    says(
                        NoticeLevel::Success,
                        "Welcome to Auru PM"@,
                        "Your profile, backup destination, and project folders are ready."@,
                    ),
                )
            },
        }
        &&& effects.refresh@.len() == 0
    }

    /// Go on in the introduction. Without a name it does not go on; after the
    /// last step the library opens.
    pub fn advance_onboarding(&mut self, typed: &str) -> (r: Effects)
        ensures
            old(self).advances(typed@, *final(self), r),
    {
        match self.onboarding_step {
            OnboardingStep::Profile => {
                if blank(typed) {
                    return only(
                        Notice::warning(
                            "Display name needed",
                            "Add the name you want shown on project history.",
                        ),
                    );
                }
                let name = trim(typed);
                self.state.display_name = name.clone();
                self.display_name = name;
                self.onboarding_step = OnboardingStep::Provider;
                Effects { notice: None, save: true, refresh: Vec::new() }
            },
            OnboardingStep::Provider => {
                self.onboarding_step = OnboardingStep::Music;
                Effects { notice: None, save: false, refresh: Vec::new() }
            },
            OnboardingStep::Music => {
                self.state.onboarding_complete = true;
                self.route = Route::Library;
                Effects {
                    notice: Some(
                        Notice::success(
                            "Welcome to Auru PM",
                            "Your profile, backup destination, and project folders are ready.",
                        ),
                    ),
                    save: true,
                    refresh: Vec::new(),
                }
            },
        }
    }

    /// Go back in the introduction; before its first step lies the library.
    pub fn previous_onboarding_step(&mut self)
        ensures
            match old(self).onboarding_step.before() {
                Some(previous) => *final(self) == (ProjectManager {
                    onboarding_step: previous,
                    ..*old(self)
                }),
                None => *final(self) == (ProjectManager { route: Route::Library, ..*old(self) }),
            },
    {
        match self.onboarding_step.previous() {
            Some(previous) => {
                self.onboarding_step = previous;
            },
            None => {
                self.route = Route::Library;
            },
        }
    }
}

// ---------------------------------------------------------------------------
// Providers
// ---------------------------------------------------------------------------

/// Whether `after` is a state that remembers a provider as connected.
pub open spec fn remembers_provider(before: AppState, after: AppState, id: Seq<char>) -> bool {
    &&& views(after.connected_providers@) == (if holds_text(before.connected_providers@, id) {
        views(before.connected_providers@)
    } else {
        views(before.connected_providers@).push(id)
    })
    &&& optional_view(after.primary_provider) == (match before.primary_provider {
        Some(known) => Some(known@),
        None => Some(id),
    })
    &&& after == (AppState {
        connected_providers: after.connected_providers,
        primary_provider: after.primary_provider,
        ..before
    })
}

/// Whether a provider has a method that asks for something.
pub open spec fn asks_for_sign_in(listing: ProviderListing) -> bool {
    exists|i: int|
        0 <= i < listing.entry.auth_methods@.len() && #[trigger] listing.entry.auth_methods@[i]
            != AuthMethod::NoAuth
}

impl ProjectManager {
    /// Whether `after` is the manager with a provider connected.
    pub open spec fn connects(self, index: int, after: ProjectManager) -> bool {
        &&& after == (ProjectManager { providers: after.providers, state: after.state, ..self })
        &&& after.providers@ == self.providers@.update(
            index,
            ProviderListing {
                availability: ProviderAvailability::Connected,
                ..self.providers@[index]
            },
        )
        &&& remembers_provider(self.state, after.state, self.providers@[index].entry.id@)
    }

    /// Mark a provider as connected, and remember it. Gives its name.
    pub fn mark_provider_connected(&mut self, index: usize) -> (r: Option<String>)
        ensures
            index >= old(self).providers@.len() ==> r is None && *final(self) == *old(self),
            index < old(self).providers@.len() ==> {
                &&& optional_view(r) == Some(old(self).providers@[index as int].entry.name@)
                &&& old(self).connects(index as int, *final(self))
            },
    {
        if index >= self.providers.len() {
            return None;
        }
        self.providers[index].mark_connected();
        let id = self.providers[index].entry.id.clone();
        let name = self.providers[index].entry.name.clone();
        self.state.connect_provider(id.as_str());
        Some(name)
    }

    /// Take a provider from the list: sign in where it asks for that, and
    /// connect it at once where it does not. Says whether to empty the field
    /// for the credential.
    pub fn select_provider(&mut self, index: usize, host: OverlayHost) -> (r: (Effects, bool))
        ensures
            r.0.refresh@.len() == 0,
            index >= old(self).providers@.len() ==> {
                &&& *final(self) == *old(self)
                &&& r.0.notice is None
                &&& !r.0.save
                &&& !r.1
            },
            index < old(self).providers@.len() ==> {
                let listing = old(self).providers@[index as int];
                if asks_for_sign_in(listing) {
                    &&& *final(self) == (ProjectManager {
                        auth_phase: AuthPhase::Ready,
                        overlay: OverlayState {
                            host,
                            overlay: Overlay::Authenticate { provider_index: index },
                        },
                        ..*old(self)
                    })
                    &&& r.0.notice is None
                    &&& !r.0.save
                    &&& r.1
                } else {
                    &&& (ProjectManager {
                        overlay: OverlayState { overlay: Overlay::Hidden, ..old(self).overlay },
                        ..*old(self)
                    }).connects(index as int, *final(self))
                    &&& notice_view(r.0.notice) == Some(
                        says(
                            NoticeLevel::Success,
                            listing.entry.name@ + " connected"@,
                            "No sign-in was requested by this provider."@,
                        ),
                    )
                    &&& r.0.save
                    &&& !r.1
                }
            },
    {
        if index >= self.providers.len() {
            return (Effects { notice: None, save: false, refresh: Vec::new() }, false);
        }
        if self.providers[index].requires_authentication() {
            self.auth_phase = AuthPhase::Ready;
            self.overlay.show(host, Overlay::Authenticate { provider_index: index });
            return (Effects { notice: None, save: false, refresh: Vec::new() }, true);
        }
        let title = joined2(self.providers[index].entry.name.as_str(), " connected");
        self.overlay.clear();
        let _ = self.mark_provider_connected(index);
        (
            Effects {
                notice: Some(
                    Notice::success(title.as_str(), "No sign-in was requested by this provider."),
                ),
                save: true,
                refresh: Vec::new(),
            },
            false,
        )
    }
}

// ---------------------------------------------------------------------------
// Signing in
// ---------------------------------------------------------------------------

/// What to do to sign in.
#[derive(Debug)]
pub enum AuthStep {
    Nothing,
    Say(Notice),
    /// Store a token that was typed.
    StoreToken { provider_id: String, token: String },
    /// Ask the provider how it signs people in.
    Probe { provider_id: String, endpoint: String, method: AuthMethod },
    /// The provider asks for nothing; save the state.
    Connected,
}

/// How a browser sign-in goes.
#[derive(Clone, Copy, Debug, PartialEq, Eq, Structural)]
pub enum SignInFlow {
    /// As the provider configured it.
    Standard,
    /// The older device-code endpoints.
    Device,
}

/// What a sign-in under way reports.
#[derive(Debug)]
pub enum SignInProgress {
    AuthorizationUrl(String),
    DeviceCode { user_code: String, verification_uri: String, complete_uri: Option<String> },
    Pending,
    /// A token was issued.
    Token,
    /// A credential was issued.
    Credential,
    Expired,
    AccessDenied,
    Error(String),
    /// Nothing to report yet.
    Empty,
    Disconnected,
}

/// What to do next in a sign-in.
#[derive(Debug, PartialEq, Eq)]
pub enum SignInStep {
    /// Ask for the next report at once.
    Continue,
    /// Ask again after a while.
    Wait,
    OpenUrl(String),
    StoreToken,
    StoreCredential,
    End,
}

/// Whether a phase is a failure that says so.
pub open spec fn fails_saying(phase: AuthPhase, message: Seq<char>) -> bool {
    phase matches AuthPhase::Failed(said) && said@ == message
}

/// Whether a phase is complete, with a detail.
pub open spec fn completes_saying(phase: AuthPhase, message: Seq<char>) -> bool {
    phase matches AuthPhase::Complete { detail } && detail@ == message
}

impl ProjectManager {
    /// Whether only the phase of signing in differs.
    pub open spec fn same_but_phase(self, after: ProjectManager) -> bool {
        after == (ProjectManager { auth_phase: after.auth_phase, ..self })
    }

    /// Whether `after` and `step` are how signing in to a provider begins.
    pub open spec fn begins_auth(
        self,
        index: int,
        credential: Seq<char>,
        after: ProjectManager,
        step: AuthStep,
    ) -> bool {
        &&& index >= self.providers@.len() ==> step is Nothing && after == self
        &&& index < self.providers@.len() ==> {
            let listing = self.providers@[index];
            match preferred_method(listing.entry.auth_methods@) {
                AuthMethod::Pat => if is_blank(credential) {
                    &&& after == self
                    &&& step matches AuthStep::Say(notice)
                    &&& notice@ == says(
                        NoticeLevel::Warning,
                        "Credential needed"@,
                        "Enter the token issued by this provider."@,
                    )
                } else {
                    &&& after == self
                    &&& step matches AuthStep::StoreToken { provider_id, token }
                    &&& provider_id@ == listing.entry.id@
                    &&& token@ == trimmed(credential)
                },
                AuthMethod::NoAuth => {
                    &&& step is Connected
                    &&& (ProjectManager {
                        auth_phase: after.auth_phase,
                        ..self
                    }).connects(index, after)
                    &&& completes_saying(
                        after.auth_phase,
                        "This provider does not require sign-in."@,
                    )
                },
                method => {
                    &&& after == (ProjectManager {
                        auth_phase: AuthPhase::Waiting,
                        ..self
                    })
                    &&& step matches AuthStep::Probe { provider_id, endpoint, method: asked }
                    &&& provider_id@ == listing.entry.id@
                    &&& endpoint@ == listing.entry.endpoint@
                    &&& asked == method
                },
            }
        }
    }

    /// Begin to sign in to a provider by the method it prefers. A token has to
    /// be typed first.
    pub fn begin_provider_auth(&mut self, index: usize, credential: &str) -> (r: AuthStep)
        ensures
            old(self).begins_auth(index as int, credential@, *final(self), r),
    {
        if index >= self.providers.len() {
            return AuthStep::Nothing;
        }
        let method = self.providers[index].preferred_auth_method();
        let provider_id = self.providers[index].entry.id.clone();
        let endpoint = self.providers[index].entry.endpoint.clone();
        match method {
            AuthMethod::Pat => {
                if blank(credential) {
                    return AuthStep::Say(
                        Notice::warning(
                            "Credential needed",
                            "Enter the token issued by this provider.",
                        ),
                    );
                }
                AuthStep::StoreToken { provider_id, token: trim(credential) }
            },
            AuthMethod::NoAuth => {
                let _ = self.mark_provider_connected(index);
                self.auth_phase = AuthPhase::Complete {
                    detail: "This provider does not require sign-in.".to_owned(),
                };
                AuthStep::Connected
            },
            method => {
                self.auth_phase = AuthPhase::Waiting;
                AuthStep::Probe { provider_id, endpoint, method }
            },
        }
    }

    /// Go on once a typed token was stored, or was not.
    pub fn typed_token_stored(&mut self, stored: Result<(), String>)
        ensures
            old(self).same_but_phase(*final(self)),
            match stored {
                Ok(_) => completes_saying(
                    final(self).auth_phase,
                    "The token is stored securely and will be checked on the first project request."@,
                ),
                Err(error) => fails_saying(
                    final(self).auth_phase,
                    "Couldn't store the token: "@ + error@,
                ),
            },
    {
        self.auth_phase = match stored {
            Ok(()) => AuthPhase::Complete {
                detail:
                    "The token is stored securely and will be checked on the first project request.".to_owned(),
            },
            Err(error) => AuthPhase::Failed(joined2("Couldn't store the token: ", error.as_str())),
        };
    }

    /// Go on once a provider said how it signs people in, or did not. `probed`
    /// says whether it published a configuration.
    #[verifier::rlimit(40)]
    pub fn sign_in_probed(&mut self, method: AuthMethod, probed: Result<bool, String>) -> (r: Option<
        SignInFlow,
    >)
        ensures
            old(self).same_but_phase(*final(self)),
            match probed {
                Err(error) => r is None && fails_saying(
                    final(self).auth_phase,
                    "Couldn't read the provider's sign-in configuration: "@ + error@,
                ),
                Ok(true) => r == Some(SignInFlow::Standard) && *final(self) == *old(self),
                Ok(false) => if method is OAuthDeviceCode {
                    r == Some(SignInFlow::Device) && *final(self) == *old(self)
                } else {
                    r is None && fails_saying(
                        final(self).auth_phase,
                        "The provider did not publish its OAuth configuration."@,
                    )
                },
            },
    {
        match probed {
            Err(error) => {
                self.auth_phase = AuthPhase::Failed(
                    joined2(
                        "Couldn't read the provider's sign-in configuration: ",
                        error.as_str(),
                    ),
                );
                None
            },
            Ok(true) => Some(SignInFlow::Standard),
            Ok(false) => {
                let device = matches!(method, AuthMethod::OAuthDeviceCode);
                if device {
                    return Some(SignInFlow::Device);
                }
                self.auth_phase = AuthPhase::Failed(
                    "The provider did not publish its OAuth configuration.".to_owned(),
                );
                None
            },
        }
    }

    /// Take over a report of a sign-in under way.
    pub fn sign_in_reported(&mut self, progress: SignInProgress) -> (r: SignInStep)
        ensures
            old(self).same_but_phase(*final(self)),
            match progress {
                SignInProgress::AuthorizationUrl(url) => {
                    &&& *final(self) == *old(self)
                    &&& r == SignInStep::OpenUrl(url)
                },
                SignInProgress::DeviceCode { user_code, verification_uri, complete_uri } => {
                    &&& r is Continue
                    &&& final(self).auth_phase == (AuthPhase::DeviceCode {
                        user_code,
                        verification_uri: match complete_uri {
                            Some(uri) => uri,
                            None => verification_uri,
                        },
                    })
                },
                SignInProgress::Pending => *final(self) == *old(self) && r is Continue,
                SignInProgress::Token => *final(self) == *old(self) && r is StoreToken,
                SignInProgress::Credential => *final(self) == *old(self) && r is StoreCredential,
                SignInProgress::Expired => r is End && fails_saying(
                    final(self).auth_phase,
                    "The sign-in code expired. Start again for a new one."@,
                ),
                SignInProgress::AccessDenied => r is End && fails_saying(
                    final(self).auth_phase,
                    "The provider declined this sign-in."@,
                ),
                SignInProgress::Error(error) => r is End && final(self).auth_phase
                    == AuthPhase::Failed(error),
                SignInProgress::Empty => *final(self) == *old(self) && r is Wait,
                SignInProgress::Disconnected => r is End && fails_saying(
                    final(self).auth_phase,
                    "The provider ended sign-in unexpectedly."@,
                ),
            },
    {
        match progress {
            SignInProgress::AuthorizationUrl(url) => SignInStep::OpenUrl(url),
            SignInProgress::DeviceCode { user_code, verification_uri, complete_uri } => {
                self.auth_phase = AuthPhase::DeviceCode {
                    user_code,
                    verification_uri: match complete_uri {
                        Some(uri) => uri,
                        None => verification_uri,
                    },
                };
                SignInStep::Continue
            },
            SignInProgress::Pending => SignInStep::Continue,
            SignInProgress::Token => SignInStep::StoreToken,
            SignInProgress::Credential => SignInStep::StoreCredential,
            SignInProgress::Expired => {
                self.auth_phase = AuthPhase::Failed(
                    "The sign-in code expired. Start again for a new one.".to_owned(),
                );
                SignInStep::End
            },
            SignInProgress::AccessDenied => {
                self.auth_phase = AuthPhase::Failed(
                    "The provider declined this sign-in.".to_owned(),
                );
                SignInStep::End
            },
            SignInProgress::Error(error) => {
                self.auth_phase = AuthPhase::Failed(error);
                SignInStep::End
            },
            SignInProgress::Empty => SignInStep::Wait,
            SignInProgress::Disconnected => {
                self.auth_phase = AuthPhase::Failed(
                    "The provider ended sign-in unexpectedly.".to_owned(),
                );
                SignInStep::End
            },
        }
    }

    /// Go on once an issued token was stored, or was not.
    pub fn issued_token_stored(&mut self, stored: Result<(), String>)
        ensures
            old(self).same_but_phase(*final(self)),
            match stored {
                Ok(_) => completes_saying(
                    final(self).auth_phase,
                    "The provider confirmed this device."@,
                ),
                Err(error) => fails_saying(
                    final(self).auth_phase,
                    "Signed in, but couldn't store the token: "@ + error@,
                ),
            },
    {
        self.auth_phase = match stored {
            Ok(()) => AuthPhase::Complete { detail: "The provider confirmed this device.".to_owned() },
            Err(error) => AuthPhase::Failed(
                joined2("Signed in, but couldn't store the token: ", error.as_str()),
            ),
        };
    }

    /// Go on once an issued credential was stored, or was not.
    pub fn issued_credential_stored(&mut self, stored: Result<(), String>)
        ensures
            old(self).same_but_phase(*final(self)),
            match stored {
                Ok(_) => completes_saying(
                    final(self).auth_phase,
                    "The provider confirmed this browser sign-in."@,
                ),
                Err(error) => fails_saying(
                    final(self).auth_phase,
                    "Signed in, but couldn't store the credential: "@ + error@,
                ),
            },
    {
        self.auth_phase = match stored {
            Ok(()) => AuthPhase::Complete {
                detail: "The provider confirmed this browser sign-in.".to_owned(),
            },
            Err(error) => AuthPhase::Failed(
                joined2("Signed in, but couldn't store the credential: ", error.as_str()),
            ),
        };
    }

    /// What is said of a provider that was signed in to.
    pub open spec fn signed_in_text(self) -> Seq<char> {
        match self.auth_phase {
            AuthPhase::Complete { detail } => detail@,
            _ => "The provider is configured on this device."@,
        }
    }

    /// Whether `after` and `effects` are what follows once signing in has ended.
    pub open spec fn ends_auth(
        self,
        index: int,
        after: ProjectManager,
        effects: Effects,
    ) -> bool {
        &&& index >= self.providers@.len() ==> {
            &&& after == self
            &&& effects.notice is None
            &&& !effects.save
            &&& effects.refresh@.len() == 0
        }
        &&& index < self.providers@.len() ==> {
            let left = ProjectManager {
                auth_phase: AuthPhase::Ready,
                overlay: OverlayState { overlay: Overlay::Hidden, ..self.overlay },
                ..self
            };
            let connected = ProjectManager {
                providers: after.providers,
                state: after.state,
                ..left
            };
            &&& left.connects(index, connected)
            &&& connected.refreshes(after, effects.refresh@)
            &&& effects.save
            &&& notice_view(effects.notice) == Some(
                says(
                    NoticeLevel::Success,
                    self.providers@[index].entry.name@ + " configured"@,
                    self.signed_in_text(),
                ),
            )
        }
    }

    /// Leave the sign-in: the provider is connected and its projects are read.
    pub fn finish_provider_auth(&mut self, index: usize) -> (r: Effects)
        ensures
            old(self).ends_auth(index as int, *final(self), r),
    {
        if index >= self.providers.len() {
            return Effects { notice: None, save: false, refresh: Vec::new() };
        }
        let detail = match &self.auth_phase {
            AuthPhase::Complete { detail } => detail.clone(),
            _ => "The provider is configured on this device.".to_owned(),
        };
        let title = joined2(self.providers[index].entry.name.as_str(), " configured");
        self.overlay.clear();
        self.auth_phase = AuthPhase::Ready;
        let _ = self.mark_provider_connected(index);
        let refresh = self.refresh_remote_projects();
        Effects {
            notice: Some(Notice::success(title.as_str(), detail.as_str())),
            save: true,
            refresh,
        }
    }

    /// Leave the sign-in for the list of providers.
    pub fn cancel_provider_auth(&mut self)
        ensures
            *final(self) == (ProjectManager {
                auth_phase: AuthPhase::Ready,
                overlay: OverlayState { overlay: Overlay::ProviderPicker, ..old(self).overlay },
                ..*old(self)
            }),
    {
        self.auth_phase = AuthPhase::Ready;
        self.overlay.replace(Overlay::ProviderPicker);
    }

    /// Start a failed sign-in over.
    pub fn retry_provider_auth(&mut self)
        ensures
            *final(self) == (ProjectManager { auth_phase: AuthPhase::Ready, ..*old(self) }),
    {
        self.auth_phase = AuthPhase::Ready;
    }
}

} // verus!
