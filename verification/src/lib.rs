//! A number-theoretic point set rendered as GPU-instanced geometry.
//!
//! The library holds the verified core: the dataset of primes, its binary
//! codec, the asset-loading adapter, the per-frame snapshot and uniform
//! state handed to the render stage, the specialized pipeline descriptor,
//! and the draw-submission decisions. The host program around it owns the
//! windowing, the GPU device, and the floating-point smoothing of the
//! simulation clock.

pub mod assets;
pub mod codec;
pub mod draw;
pub mod game;
pub mod instanced;
pub mod pipeline;
pub mod primes;
pub mod splash_screen;

use vstd::prelude::*;

verus! {

/// How the process was asked to run: interactively, or rendering a single
/// frame to an image file.
pub enum Args {
    Run,
    Screenshot {
        width: u32,
        height: u32,
        /// Simulation time to render at, in milliseconds.
        game_time_millis: u64,
        /// Zoom exponent to render at.
        game_zoom_exp: i32,
    },
}

/// The screen the application is on.
#[derive(Debug, Clone, Copy, PartialEq, Eq, Structural)]
pub enum AppState {
    SplashScreen,
    Loading,
    Game,
}

/// Where the one-time asset load stands.
#[derive(Debug, Clone, Copy, PartialEq, Eq, Structural)]
pub enum AssetsState {
    Loading,
    Loaded,
    Error,
}

/// The documented events that move the lifecycle forward.
#[derive(Debug, Clone, Copy, PartialEq, Eq, Structural)]
pub enum LifecycleEvent {
    /// The asset system finished loading the dataset.
    AssetsLoadSucceeded,
    /// The asset system gave up on the dataset: a storage failure or a
    /// malformed blob.
    AssetsLoadFailed,
    /// The splash screen ran out or was clicked away while assets were
    /// ready.
    SplashDismissed,
    /// The loading screen finished preparing the scene.
    LoadingFinished,
}

/// The application lifecycle as one explicit state machine: the product of
/// the screen and the asset load, advanced only by the documented events.
#[derive(Debug, Clone, Copy, PartialEq, Eq, Structural)]
pub struct AppLifecycle {
    pub app: AppState,
    pub assets: AssetsState,
}

/// The transition relation: load completion settles the assets state once,
/// the splash screen hands over to loading only when assets are ready, and
/// loading hands over to the scene. Any other pairing of state and event
/// changes nothing.
pub open spec fn lifecycle_step_spec(s: AppLifecycle, event: LifecycleEvent) -> AppLifecycle {
    match event {
        LifecycleEvent::AssetsLoadSucceeded => if s.assets is Loading {
            AppLifecycle { app: s.app, assets: AssetsState::Loaded }
        } else {
            s
        },
        LifecycleEvent::AssetsLoadFailed => if s.assets is Loading {
            AppLifecycle { app: s.app, assets: AssetsState::Error }
        } else {
            s
        },
        LifecycleEvent::SplashDismissed => if s.app is SplashScreen && s.assets is Loaded {
            AppLifecycle { app: AppState::Loading, assets: s.assets }
        } else {
            s
        },
        LifecycleEvent::LoadingFinished => if s.app is Loading {
            AppLifecycle { app: AppState::Game, assets: s.assets }
        } else {
            s
        },
    }
}

/// The readiness signal settles: once the load has completed, in success
/// or in error, no event moves it again; and the screen only ever moves
/// forward, from the splash screen to loading to the scene.
pub proof fn lemma_lifecycle_progress(s: AppLifecycle, event: LifecycleEvent)
    ensures
        !(s.assets is Loading) ==> lifecycle_step_spec(s, event).assets == s.assets,
        lifecycle_step_spec(s, event).app == s.app || (s.app is SplashScreen
            && lifecycle_step_spec(s, event).app is Loading) || (s.app is Loading
            && lifecycle_step_spec(s, event).app is Game),
{
}

impl AppLifecycle {
    /// The process starts on the splash screen with the load in flight.
    pub fn new() -> (r: Self)
        ensures
            r.app is SplashScreen,
            r.assets is Loading,
    {
        AppLifecycle { app: AppState::SplashScreen, assets: AssetsState::Loading }
    }

    /// Advances the lifecycle by one event, exactly as the transition
    /// relation says.
    pub fn step(&mut self, event: LifecycleEvent)
        ensures
            *final(self) == lifecycle_step_spec(*old(self), event),
    {
        match event {
            LifecycleEvent::AssetsLoadSucceeded => {
                if matches!(self.assets, AssetsState::Loading) {
                    self.assets = AssetsState::Loaded;
                }
            },
            LifecycleEvent::AssetsLoadFailed => {
                if matches!(self.assets, AssetsState::Loading) {
                    self.assets = AssetsState::Error;
                }
            },
            LifecycleEvent::SplashDismissed => {
                if matches!(self.app, AppState::SplashScreen) && matches!(
                    self.assets,
                    AssetsState::Loaded,
                ) {
                    self.app = AppState::Loading;
                }
            },
            LifecycleEvent::LoadingFinished => {
                if matches!(self.app, AppState::Loading) {
                    self.app = AppState::Game;
                }
            },
        }
    }
}

} // verus!
