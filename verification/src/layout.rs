//! Banner geometry: where the banner strip and the label text go.

use vstd::prelude::*;

verus! {

/// How the label size and the banner margins are chosen.
#[derive(Clone, Copy, Debug, PartialEq, Eq, Structural)]
pub enum SizePolicy {
    /// Label size is `image_height / 20`, margins are a fifth of that.
    Proportional,
    /// Label size and margins are the given fixed pixel counts.
    Fixed { size: u32, margin: u32 },
}

/// The banner rectangle and the text origin, in pixel coordinates.
///
/// The rectangle spans the full image width and the rows
/// `top .. top + height`; the text baseline origin is `(text_x, text_y)`.
#[derive(Clone, Copy, Debug, PartialEq, Eq, Structural)]
pub struct BannerLayout {
    pub top: u32,
    pub height: u32,
    pub width: u32,
    pub text_x: u32,
    pub text_y: u32,
    pub label_size: u32,
}

/// The label size under `policy` for an image of height `h`.
pub open spec fn spec_label_size(h: int, policy: SizePolicy) -> int {
    match policy {
        SizePolicy::Proportional => h / 20,
        SizePolicy::Fixed { size, .. } => size as int,
    }
}

/// The banner margin under `policy` for an image of height `h`.
pub open spec fn spec_margin(h: int, policy: SizePolicy) -> int {
    match policy {
        SizePolicy::Proportional => (h / 20) / 5,
        SizePolicy::Fixed { margin, .. } => margin as int,
    }
}

/// The vertical position the label is drawn at: a twentieth of the height.
pub open spec fn spec_y_position(h: int) -> int {
    h / 20
}

/// The banner's top row: the label position minus the margin, clamped to 0
/// so that a short image cannot push the banner above the canvas.
pub open spec fn spec_top(h: int, policy: SizePolicy) -> int {
    if spec_y_position(h) >= spec_margin(h, policy) {
        spec_y_position(h) - spec_margin(h, policy)
    } else {
        0
    }
}

/// The banner's height: the label size plus a margin above and below,
/// clamped so that the banner never reaches past the bottom of the image.
pub open spec fn spec_banner_height(h: int, policy: SizePolicy) -> int {
    let raw = spec_label_size(h, policy) + 2 * spec_margin(h, policy);
    let avail = h - spec_top(h, policy);
    if raw <= avail {
        raw
    } else {
        avail
    }
}

/// The whole layout of the banner for a `w` by `h` image.
pub open spec fn spec_layout(w: int, h: int, policy: SizePolicy) -> BannerLayout {
    BannerLayout {
        top: spec_top(h, policy) as u32,
        height: spec_banner_height(h, policy) as u32,
        width: w as u32,
        text_x: spec_margin(h, policy) as u32,
        text_y: spec_y_position(h) as u32,
        label_size: spec_label_size(h, policy) as u32,
    }
}

/// The banner's vertical span always lies within the image: its top row is
/// at least 0 and its rows end at or before `h`.
pub proof fn lemma_banner_within_bounds(h: int, policy: SizePolicy)
    requires
        h >= 0,
    ensures
        0 <= spec_top(h, policy),
        spec_top(h, policy) + spec_banner_height(h, policy) <= h,
        spec_banner_height(h, policy) > 0 ==> spec_top(h, policy) < h,
{
}

/// Compute the banner rectangle and the text origin for a `w` by `h` image.
///
/// The result is exactly [`spec_layout`]; in particular the banner's rows
/// `top .. top + height` always lie within `0 .. h`, whatever the policy,
/// and a height too short for the margins clamps rather than wraps.
pub fn compute_layout(w: u32, h: u32, policy: SizePolicy) -> (l: BannerLayout)
    ensures
        l == spec_layout(w as int, h as int, policy),
        l.top + l.height <= h,
        l.width == w,
{
    let y: u32 = h / 20;
    let (size, margin): (u32, u32) = match policy {
        SizePolicy::Proportional => (y, y / 5),
        SizePolicy::Fixed { size, margin } => (size, margin),
    };
    let top: u32 = if y >= margin {
        y - margin
    } else {
        0
    };
    proof {
        lemma_banner_within_bounds(h as int, policy);
    }
    let raw: u64 = size as u64 + 2 * (margin as u64);
    let avail: u64 = (h - top) as u64;
    let height: u32 = if raw <= avail {
        raw as u32
    } else {
        avail as u32
    };
    BannerLayout { top, height, width: w, text_x: margin, text_y: y, label_size: size }
}

} // verus!
