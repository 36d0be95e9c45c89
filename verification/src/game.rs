//! The simulation-stage decisions behind the per-frame state: which speed
//! multiplier and zoom exponent the inputs select, how the clock branch
//! resolves, and when a captured frame is complete.
//!
//! The exponential smoothing of the speed and zoom values toward these
//! targets is floating-point arithmetic and belongs to the host; the
//! discrete choices it smooths toward are decided here.

use crate::Args;
use vstd::prelude::*;

verus! {

/// The highest zoom exponent the arrow keys can select.
pub const ZOOM_EXP_MAX: i32 = 10;

/// The lowest zoom exponent the arrow keys can select.
pub const ZOOM_EXP_MIN: i32 = -6;

pub fn mode_is_run(args: &Args) -> (r: bool)
    ensures
        r == (args is Run),
{
    match args {
        Args::Run => true,
        Args::Screenshot { .. } => false,
    }
}

pub fn mode_is_screenshot(args: &Args) -> (r: bool)
    ensures
        r == (args is Screenshot),
{
    match args {
        Args::Run => false,
        Args::Screenshot { .. } => true,
    }
}

/// The speed multiplier the held modifier keys select: 16 with the left
/// shift key, else 4 with the left control key, else 1.
pub fn speed_target(shift_left_held: bool, control_left_held: bool) -> (r: u32)
    ensures
        r == if shift_left_held {
            16u32
        } else if control_left_held {
            4u32
        } else {
            1u32
        },
{
    if shift_left_held {
        16
    } else if control_left_held {
        4
    } else {
        1
    }
}

/// The clock branch of one simulation tick: the reset key zeroes the
/// elapsed clock; otherwise the clock advances by the speed-scaled frame
/// delta the host computed, saturating at the clock's range instead of
/// aborting.
pub fn game_time_step(elapsed_millis: u64, reset_held: bool, advance_millis: u64) -> (r: u64)
    ensures
        reset_held ==> r == 0,
        !reset_held ==> r == if elapsed_millis + advance_millis <= u64::MAX {
            elapsed_millis + advance_millis
        } else {
            u64::MAX as int
        },
{
    if reset_held {
        0
    } else {
        elapsed_millis.saturating_add(advance_millis)
    }
}

/// The zoom target one tick's key events select from the fixed palette of
/// discrete exponents: space returns to 0, arrow up and down step by one
/// within the palette's bounds, and without an event the target stands.
pub fn zoom_target_step(
    target_exp: i32,
    space_just_pressed: bool,
    up_just_pressed: bool,
    down_just_pressed: bool,
) -> (r: i32)
    requires
        ZOOM_EXP_MIN <= target_exp <= ZOOM_EXP_MAX,
    ensures
        r == if space_just_pressed {
            0
        } else if up_just_pressed {
            if target_exp + 1 <= ZOOM_EXP_MAX {
                target_exp + 1
            } else {
                ZOOM_EXP_MAX as int
            }
        } else if down_just_pressed {
            if target_exp - 1 >= ZOOM_EXP_MIN {
                target_exp - 1
            } else {
                ZOOM_EXP_MIN as int
            }
        } else {
            target_exp as int
        },
        ZOOM_EXP_MIN <= r <= ZOOM_EXP_MAX,
{
    if space_just_pressed {
        0
    } else if up_just_pressed {
        if target_exp < ZOOM_EXP_MAX {
            target_exp + 1
        } else {
            ZOOM_EXP_MAX
        }
    } else if down_just_pressed {
        if target_exp > ZOOM_EXP_MIN {
            target_exp - 1
        } else {
            ZOOM_EXP_MIN
        }
    } else {
        target_exp
    }
}

/// Whether the headless capture of a frame is complete: the destination
/// image must hold exactly four bytes per pixel of the requested size.
pub fn screenshot_image_ready(data_len: usize, width: u32, height: u32) -> (r: bool)
    ensures
        r <==> data_len == 4 * width * height,
{
    proof {
        assert(4 * (width as int) * (height as int) < 0x100000000000000000000000000000000)
            by (nonlinear_arith)
            requires
                width <= 0xFFFF_FFFFu32,
                height <= 0xFFFF_FFFFu32,
        ;
    }
    let expected: u128 = 4 * (width as u128) * (height as u128);
    (data_len as u128) == expected
}

} // verus!
