//! Where a person is in the app: the screen, the step of the introduction and
//! what lies over a window.
use vstd::prelude::*;

use crate::inspection::Surface;

verus! {

/// The main screens.
#[derive(Clone, Copy, Debug, PartialEq, Eq, Structural)]
pub enum Route {
    Library,
    Onboarding,
}

impl Route {
    pub open spec fn surface(self) -> Surface {
        match self {
            Route::Library => Surface::Library,
            Route::Onboarding => Surface::Onboarding,
        }
    }

    /// The screen as inspection names it.
    pub fn inspection_surface(self) -> (r: Surface)
        ensures
            r == self.surface(),
    {
        match self {
            Route::Library => Surface::Library,
            Route::Onboarding => Surface::Onboarding,
        }
    }
}

/// The steps of the introduction.
#[derive(Clone, Copy, Debug, PartialEq, Eq, Structural)]
pub enum OnboardingStep {
    Profile,
    Provider,
    Music,
}

/// How many steps the introduction has.
pub const ONBOARDING_STEPS: usize = 3;

impl OnboardingStep {
    /// The place of a step, from 1.
    pub open spec fn place(self) -> nat {
        match self {
            OnboardingStep::Profile => 1,
            OnboardingStep::Provider => 2,
            OnboardingStep::Music => 3,
        }
    }

    /// Which step this is, and of how many.
    pub fn position(self) -> (r: (usize, usize))
        ensures
            r.0 == self.place(),
            r.1 == ONBOARDING_STEPS,
    {
        let place: usize = match self {
            OnboardingStep::Profile => 1,
            OnboardingStep::Provider => 2,
            OnboardingStep::Music => 3,
        };
        (place, ONBOARDING_STEPS)
    }

    pub open spec fn after(self) -> Option<OnboardingStep> {
        match self {
            OnboardingStep::Profile => Some(OnboardingStep::Provider),
            OnboardingStep::Provider => Some(OnboardingStep::Music),
            OnboardingStep::Music => None,
        }
    }

    pub fn next(self) -> (r: Option<OnboardingStep>)
        ensures
            r == self.after(),
    {
        match self {
            OnboardingStep::Profile => Some(OnboardingStep::Provider),
            OnboardingStep::Provider => Some(OnboardingStep::Music),
            OnboardingStep::Music => None,
        }
    }

    pub open spec fn before(self) -> Option<OnboardingStep> {
        match self {
            OnboardingStep::Profile => None,
            OnboardingStep::Provider => Some(OnboardingStep::Profile),
            OnboardingStep::Music => Some(OnboardingStep::Provider),
        }
    }

    pub fn previous(self) -> (r: Option<OnboardingStep>)
        ensures
            r == self.before(),
    {
        match self {
            OnboardingStep::Profile => None,
            OnboardingStep::Provider => Some(OnboardingStep::Profile),
            OnboardingStep::Music => Some(OnboardingStep::Provider),
        }
    }
}

/// Going on and going back undo each other, and each step forward is the next
/// in number up to the last.
pub proof fn steps_are_walked_both_ways(step: OnboardingStep)
    ensures
        step.after() matches Some(next) ==> next.before() == Some(step) && next.place()
            == step.place() + 1,
        step.before() matches Some(previous) ==> previous.after() == Some(step),
        step.after() is None <==> step.place() == ONBOARDING_STEPS,
        step.before() is None <==> step.place() == 1,
{
}

/// What can lie over a window.
#[derive(Clone, Copy, Debug, PartialEq, Eq, Structural)]
pub enum Overlay {
    /// Nothing does.
    Hidden,
    ProviderPicker,
    Authenticate { provider_index: usize },
    ConflictResolver,
}

/// The windows something can lie over.
#[derive(Clone, Copy, Debug, PartialEq, Eq, Structural)]
pub enum OverlayHost {
    Main,
    Settings,
}

/// What lies over which window: over one at a time.
#[derive(Clone, Copy, Debug, PartialEq, Eq, Structural)]
pub struct OverlayState {
    pub host: OverlayHost,
    pub overlay: Overlay,
}

impl Default for OverlayState {
    fn default() -> (r: Self)
        ensures
            r == (OverlayState { host: OverlayHost::Main, overlay: Overlay::Hidden }),
    {
        OverlayState { host: OverlayHost::Main, overlay: Overlay::Hidden }
    }
}

impl OverlayState {
    /// Put something over a window.
    pub fn show(&mut self, host: OverlayHost, overlay: Overlay)
        requires
            !(overlay is Hidden),
        ensures
            *final(self) == (OverlayState { host, overlay }),
    {
        self.host = host;
        self.overlay = overlay;
    }

    /// Put something in the place of what is there, over the same window.
    pub fn replace(&mut self, overlay: Overlay)
        ensures
            *final(self) == (OverlayState { overlay, ..*old(self) }),
    {
        self.overlay = overlay;
    }

    pub fn clear(&mut self)
        ensures
            *final(self) == (OverlayState { overlay: Overlay::Hidden, ..*old(self) }),
    {
        self.overlay = Overlay::Hidden;
    }

    /// What lies over a window.
    pub open spec fn shown(self, host: OverlayHost) -> Option<Overlay> {
        if self.host == host && !(self.overlay is Hidden) {
            Some(self.overlay)
        } else {
            None
        }
    }

    /// What lies over a window.
    pub fn visible_for(self, host: OverlayHost) -> (r: Option<Overlay>)
        ensures
            r == self.shown(host),
    {
        let hidden = matches!(self.overlay, Overlay::Hidden);
        if self.host == host && !hidden {
            Some(self.overlay)
        } else {
            None
        }
    }
}

/// Nothing ever lies over both windows.
pub proof fn overlays_have_one_window(state: OverlayState)
    ensures
        state.shown(OverlayHost::Main) is None || state.shown(OverlayHost::Settings) is None,
{
}

/// What replaces an overlay stays with the window that it was opened from.
pub proof fn replacements_keep_their_window(state: OverlayState, overlay: Overlay, host: OverlayHost)
    requires
        state.shown(host) is Some,
        !(overlay is Hidden),
    ensures
        (OverlayState { overlay, ..state }).shown(host) == Some(overlay),
{
}

/// How far signing in to a provider is.
#[derive(Debug, PartialEq, Eq)]
pub enum AuthPhase {
    Ready,
    Waiting,
    DeviceCode { user_code: String, verification_uri: String },
    Complete { detail: String },
    Failed(String),
}

impl AuthPhase {
    pub open spec fn inspection_text(self) -> Seq<char> {
        match self {
            AuthPhase::Ready => "ready"@,
            AuthPhase::Waiting => "waiting"@,
            AuthPhase::DeviceCode { .. } => "device_code"@,
            AuthPhase::Complete { .. } => "complete"@,
            AuthPhase::Failed(_) => "failed"@,
        }
    }

    /// The phase as inspection names it.
    pub fn inspection_value(&self) -> (r: &'static str)
        ensures
            r@ == self.inspection_text(),
    {
        match self {
            AuthPhase::Ready => "ready",
            AuthPhase::Waiting => "waiting",
            AuthPhase::DeviceCode { .. } => "device_code",
            AuthPhase::Complete { .. } => "complete",
            AuthPhase::Failed(_) => "failed",
        }
    }
}

} // verus!
