//! The splash screen's dismissal rule: it leaves for the loading screen
//! once its timer has run out or it was clicked away, but never before the
//! assets are ready.

use crate::AppState;
use crate::AssetsState;
use vstd::prelude::*;

verus! {

/// The splash screen's own state: what remains of its display timer, and
/// whether a dismissing click or key was seen.
pub struct SplashScreen {
    pub timer_remaining_millis: u64,
    pub clicked: bool,
}

impl Default for SplashScreen {
    /// A fresh splash screen: no dismissal seen, and a timer that is
    /// already over, so the screen leaves as soon as the assets are ready.
    fn default() -> (r: Self)
        ensures
            r.timer_remaining_millis == 0,
            !r.clicked,
    {
        SplashScreen { timer_remaining_millis: 0, clicked: false }
    }
}

/// One tick of the splash screen: the timer runs down by the frame delta,
/// a space press or a left click is latched, and once the assets are
/// loaded and the timer is over or a dismissal was latched, the screen
/// hands over to loading. While assets are still loading (or failed),
/// nothing leaves the splash screen here.
pub fn splash_screen(
    splash: &mut SplashScreen,
    delta_millis: u64,
    space_just_pressed: bool,
    left_click_just_pressed: bool,
    assets_state: AssetsState,
) -> (transition: Option<AppState>)
    ensures
        final(splash).timer_remaining_millis == if old(splash).timer_remaining_millis
            >= delta_millis {
            old(splash).timer_remaining_millis - delta_millis
        } else {
            0
        },
        final(splash).clicked == (old(splash).clicked || space_just_pressed
            || left_click_just_pressed),
        transition == if assets_state is Loaded && (final(splash).timer_remaining_millis == 0
            || final(splash).clicked) {
            Some(AppState::Loading)
        } else {
            None::<AppState>
        },
{
    splash.timer_remaining_millis = splash.timer_remaining_millis.saturating_sub(delta_millis);
    splash.clicked = splash.clicked || space_just_pressed || left_click_just_pressed;
    if matches!(assets_state, AssetsState::Loaded) && (splash.timer_remaining_millis == 0
        || splash.clicked) {
        Some(AppState::Loading)
    } else {
        None
    }
}

} // verus!
