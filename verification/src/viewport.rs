//! The viewport scale resolver: how many world units one pixel shows, and
//! the half-extents of the arena that results.
//!
//! A scale is kept as an exact fraction, so that a window of the virtual
//! resolution's own shape shows the virtual resolution to the sub-unit.

use crate::fixed::representable;
use vstd::prelude::*;

verus! {

pub const DEFAULT_VIEWPORT_WIDTH: i32 = 1_920_000;

pub const DEFAULT_VIEWPORT_HEIGHT: i32 = 1_080_000;

pub const DEFAULT_VIRTUAL_WIDTH: i32 = 1_280_000;

pub const DEFAULT_VIRTUAL_HEIGHT: i32 = 720_000;

/// The extent of the world, in sub-units, that the window is meant to show
/// whatever its size in pixels.
#[derive(Clone, Copy, Debug, PartialEq, Eq)]
pub struct VirtualResolution {
    pub width: i32,
    pub height: i32,
}

impl Default for VirtualResolution {
    fn default() -> (r: Self)
        ensures
            r.width == DEFAULT_VIRTUAL_WIDTH,
            r.height == DEFAULT_VIRTUAL_HEIGHT,
    {
        VirtualResolution { width: DEFAULT_VIRTUAL_WIDTH, height: DEFAULT_VIRTUAL_HEIGHT }
    }
}

/// How the virtual resolution is mapped to the window.
#[derive(Clone, Copy, Debug, PartialEq, Eq)]
pub enum ScalingStrategy {
    /// The window's height shows the virtual height.
    FixedVertical,
    /// The window's width shows the virtual width.
    FixedHorizontal,
    /// The smaller of the two scales above.
    AutoMin,
    /// The larger of the two scales above.
    AutoMax,
}

impl Default for ScalingStrategy {
    fn default() -> (r: Self)
        ensures
            r == ScalingStrategy::FixedVertical,
    {
        ScalingStrategy::FixedVertical
    }
}

/// The size of the window, in sub-units of a pixel.
#[derive(Clone, Copy, Debug, PartialEq, Eq)]
pub struct WindowSize {
    pub width: i32,
    pub height: i32,
}

impl WindowSize {
    /// Both sides are strictly positive.
    pub open spec fn positive(self) -> bool {
        self.width > 0 && self.height > 0
    }
}

/// World units per pixel, as the fraction `numerator / denominator`.
#[derive(Clone, Copy, Debug, PartialEq, Eq)]
pub struct Scale {
    pub numerator: i32,
    pub denominator: i32,
}

impl Scale {
    /// A scale is a positive fraction.
    pub open spec fn valid(self) -> bool {
        self.numerator > 0 && self.denominator > 0
    }

    /// The scale is exactly one world unit per pixel.
    pub open spec fn is_one(self) -> bool {
        self.numerator == self.denominator
    }

    /// `self <= other` as fractions with positive denominators.
    pub open spec fn at_most(self, other: Scale) -> bool {
        self.numerator * other.denominator <= other.numerator * self.denominator
    }

    /// Tells whether the scale is exactly one world unit per pixel.
    pub fn is_unit(&self) -> (b: bool)
        ensures
            b == self.is_one(),
    {
        self.numerator == self.denominator
    }

    /// Compares two scales as fractions.
    pub fn le(&self, other: &Scale) -> (b: bool)
        ensures
            b == self.at_most(*other),
    {
        let left: i64 = product(self.numerator, other.denominator);
        let right: i64 = product(other.numerator, self.denominator);
        left <= right
    }
}

/// Half of what `pixels` pixels show at `scale`, rounded down.
pub open spec fn half_extent(pixels: int, scale: Scale) -> int {
    (pixels * scale.numerator) / (2 * scale.denominator)
}

/// The cached viewport: the window's size, the scale in force and the
/// half-extents of the arena in world sub-units.
#[derive(Clone, Copy, Debug, PartialEq, Eq)]
pub struct WindowViewport {
    pub half_width: i32,
    pub half_height: i32,
    pub pixel_width: i32,
    pub pixel_height: i32,
    pub scale: Scale,
}

impl WindowViewport {
    /// The window has a positive size, the scale is a positive fraction, the
    /// half-extents are what this window shows at this scale, and neither
    /// of them is zero.
    pub open spec fn wf(self) -> bool {
        &&& self.pixel_width > 0
        &&& self.pixel_height > 0
        &&& self.scale.valid()
        &&& self.half_width == half_extent(self.pixel_width as int, self.scale)
        &&& self.half_height == half_extent(self.pixel_height as int, self.scale)
        &&& self.has_arena()
    }

    /// Both half-extents of the arena are strictly positive.
    pub open spec fn has_arena(self) -> bool {
        self.half_width > 0 && self.half_height > 0
    }

    /// The size of the window that this viewport was computed for.
    pub open spec fn size(self) -> WindowSize {
        WindowSize { width: self.pixel_width, height: self.pixel_height }
    }

    /// Tells whether the viewport is well formed.
    pub fn check(&self) -> (b: bool)
        ensures
            b == self.wf(),
    {
        if self.pixel_width <= 0 || self.pixel_height <= 0 || self.scale.numerator <= 0
            || self.scale.denominator <= 0 {
            return false;
        }
        let half_width: i64 = half_of_shown(self.pixel_width, &self.scale);
        let half_height: i64 = half_of_shown(self.pixel_height, &self.scale);
        self.half_width > 0 && self.half_height > 0 && self.half_width as i64 == half_width
            && self.half_height as i64 == half_height
    }
}

impl Default for WindowViewport {
    fn default() -> (r: Self)
        ensures
            r.wf(),
            r.pixel_width == DEFAULT_VIEWPORT_WIDTH,
            r.pixel_height == DEFAULT_VIEWPORT_HEIGHT,
            r.scale == (Scale { numerator: 1, denominator: 1 }),
            r.half_width == DEFAULT_VIEWPORT_WIDTH / 2,
            r.half_height == DEFAULT_VIEWPORT_HEIGHT / 2,
    {
        WindowViewport {
            half_width: DEFAULT_VIEWPORT_WIDTH / 2,
            half_height: DEFAULT_VIEWPORT_HEIGHT / 2,
            pixel_width: DEFAULT_VIEWPORT_WIDTH,
            pixel_height: DEFAULT_VIEWPORT_HEIGHT,
            scale: Scale { numerator: 1, denominator: 1 },
        }
    }
}

/// Why a viewport could not be computed.
#[derive(Clone, Copy, Debug, PartialEq, Eq)]
pub enum ViewportError {
    /// A side of the window is zero or negative.
    NonPositiveWindowSize,
    /// A side of the virtual resolution is zero or negative.
    NonPositiveVirtualResolution,
    /// A half-extent of the arena is less than one sub-unit, or too large to
    /// be stored.
    ExtentOutOfRange,
}

/// The scale at which the window's width shows the virtual width.
pub open spec fn width_scale(resolution: VirtualResolution, size: WindowSize) -> Scale {
    Scale { numerator: resolution.width, denominator: size.width }
}

/// The scale at which the window's height shows the virtual height.
pub open spec fn height_scale(resolution: VirtualResolution, size: WindowSize) -> Scale {
    Scale { numerator: resolution.height, denominator: size.height }
}

/// The scale that a strategy picks. Where the two candidates are equal as
/// fractions, both automatic strategies pick the horizontal one.
pub open spec fn chosen_scale(
    resolution: VirtualResolution,
    size: WindowSize,
    strategy: ScalingStrategy,
) -> Scale {
    let horizontal = width_scale(resolution, size);
    let vertical = height_scale(resolution, size);
    match strategy {
        ScalingStrategy::FixedVertical => vertical,
        ScalingStrategy::FixedHorizontal => horizontal,
        ScalingStrategy::AutoMin => if horizontal.at_most(vertical) {
            horizontal
        } else {
            vertical
        },
        ScalingStrategy::AutoMax => if vertical.at_most(horizontal) {
            horizontal
        } else {
            vertical
        },
    }
}

/// A half-extent that an arena can have: at least one sub-unit, and not
/// more than can be stored.
pub open spec fn is_extent(half: int) -> bool {
    0 < half && representable(half)
}

/// What stands in the way of showing a window of `size` at `scale`, if
/// anything does.
pub open spec fn rescale_failure(size: WindowSize, scale: Scale) -> Option<ViewportError> {
    if !size.positive() {
        Some(ViewportError::NonPositiveWindowSize)
    } else if !is_extent(half_extent(size.width as int, scale)) || !is_extent(
        half_extent(size.height as int, scale),
    ) {
        Some(ViewportError::ExtentOutOfRange)
    } else {
        None
    }
}

/// What stands in the way of resolving a viewport, if anything does. A bad
/// window size is reported before a bad virtual resolution.
pub open spec fn resolve_failure(
    resolution: VirtualResolution,
    size: WindowSize,
    strategy: ScalingStrategy,
) -> Option<ViewportError> {
    if !size.positive() {
        Some(ViewportError::NonPositiveWindowSize)
    } else if resolution.width <= 0 || resolution.height <= 0 {
        Some(ViewportError::NonPositiveVirtualResolution)
    } else {
        rescale_failure(size, chosen_scale(resolution, size, strategy))
    }
}

/// `viewport` is the one that `resolve` computes from these inputs.
pub open spec fn is_resolution_of(
    viewport: WindowViewport,
    resolution: VirtualResolution,
    size: WindowSize,
    strategy: ScalingStrategy,
) -> bool {
    &&& viewport.wf()
    &&& viewport.size() == size
    &&& viewport.scale == chosen_scale(resolution, size, strategy)
}

/// `viewport` shows a window of `size` at `scale`.
pub open spec fn is_view_of(viewport: WindowViewport, size: WindowSize, scale: Scale) -> bool {
    &&& viewport.wf()
    &&& viewport.size() == size
    &&& viewport.scale == scale
}

/// Product of two 32-bit numbers.
fn product(a: i32, b: i32) -> (p: i64)
    ensures
        p == a * b,
{
    assert(-0x8000_0000 * 0x8000_0000 <= a * b <= 0x8000_0000 * 0x8000_0000)
        by (nonlinear_arith)
        requires
            -0x8000_0000 <= a <= 0x7fff_ffff,
            -0x8000_0000 <= b <= 0x7fff_ffff,
    ;
    (a as i64) * (b as i64)
}

/// Half of what `pixels` pixels show at `scale`.
fn half_of_shown(pixels: i32, scale: &Scale) -> (half: i64)
    requires
        pixels > 0,
        scale.valid(),
    ensures
        half == half_extent(pixels as int, *scale),
        half >= 0,
{
    let shown: i64 = product(pixels, scale.numerator);
    assert(shown >= 0) by (nonlinear_arith)
        requires
            shown == pixels * scale.numerator,
            pixels > 0,
            scale.numerator > 0,
    ;
    let divisor: i64 = 2 * (scale.denominator as i64);
    shown / divisor
}

/// Shows a window of `size` at `scale`.
fn view_at(size: WindowSize, scale: Scale) -> (r: Result<WindowViewport, ViewportError>)
    requires
        scale.valid(),
    ensures
        match r {
            Ok(viewport) => rescale_failure(size, scale) is None && is_view_of(
                viewport,
                size,
                scale,
            ),
            Err(e) => rescale_failure(size, scale) == Some(e),
        },
{
    if size.width <= 0 || size.height <= 0 {
        return Err(ViewportError::NonPositiveWindowSize);
    }
    let half_width: i64 = half_of_shown(size.width, &scale);
    let half_height: i64 = half_of_shown(size.height, &scale);
    if half_width == 0 || half_height == 0 || half_width > i32::MAX as i64 || half_height
        > i32::MAX as i64 {
        return Err(ViewportError::ExtentOutOfRange);
    }
    Ok(
        WindowViewport {
            half_width: half_width as i32,
            half_height: half_height as i32,
            pixel_width: size.width,
            pixel_height: size.height,
            scale,
        },
    )
}

/// Picks the scale of a strategy.
fn choose_scale(resolution: &VirtualResolution, size: WindowSize, strategy: ScalingStrategy) -> (s:
    Scale)
    ensures
        s == chosen_scale(*resolution, size, strategy),
{
    let horizontal = Scale { numerator: resolution.width, denominator: size.width };
    let vertical = Scale { numerator: resolution.height, denominator: size.height };
    match strategy {
        ScalingStrategy::FixedVertical => vertical,
        ScalingStrategy::FixedHorizontal => horizontal,
        ScalingStrategy::AutoMin => if horizontal.le(&vertical) {
            horizontal
        } else {
            vertical
        },
        ScalingStrategy::AutoMax => if vertical.le(&horizontal) {
            horizontal
        } else {
            vertical
        },
    }
}

/// Computes the scale and the arena's half-extents for a window of `size`.
///
/// The horizontal candidate is `resolution.width / size.width`, the vertical
/// one `resolution.height / size.height`; the strategy picks between them,
/// and each half-extent is half of what the window's side shows at the
/// scale picked. A window or a virtual resolution with a side that is not
/// positive is refused, and so is an arena of which a half-extent is less
/// than one sub-unit or too large to be stored.
pub fn resolve(resolution: &VirtualResolution, size: WindowSize, strategy: ScalingStrategy) -> (r:
    Result<WindowViewport, ViewportError>)
    ensures
        match r {
            Ok(viewport) => resolve_failure(*resolution, size, strategy) is None
                && is_resolution_of(viewport, *resolution, size, strategy),
            Err(e) => resolve_failure(*resolution, size, strategy) == Some(e),
        },
{
    if size.width <= 0 || size.height <= 0 {
        return Err(ViewportError::NonPositiveWindowSize);
    }
    if resolution.width <= 0 || resolution.height <= 0 {
        return Err(ViewportError::NonPositiveVirtualResolution);
    }
    let scale = choose_scale(resolution, size, strategy);
    view_at(size, scale)
}

/// Takes over the size of the primary window, if there is one, keeping the
/// scale that the viewport has. On an error the viewport is left as it was.
pub fn set_initial_window_viewport(viewport: &mut WindowViewport, window: Option<WindowSize>) -> (r:
    Result<(), ViewportError>)
    requires
        old(viewport).scale.valid(),
    ensures
        old(viewport).wf() ==> final(viewport).wf(),
        match window {
            None => r is Ok && *final(viewport) == *old(viewport),
            Some(size) => match rescale_failure(size, old(viewport).scale) {
                None => r is Ok && is_view_of(*final(viewport), size, old(viewport).scale),
                Some(e) => r == Err::<(), ViewportError>(e) && *final(viewport) == *old(viewport),
            },
        },
{
    match window {
        None => Ok(()),
        Some(size) => {
            let scale = viewport.scale;
            match view_at(size, scale) {
                Ok(resized) => {
                    *viewport = resized;
                    Ok(())
                },
                Err(e) => Err(e),
            }
        },
    }
}

/// Takes over the size of the primary window where it has changed, keeping
/// the scale that the viewport has. On an error the viewport is left as it
/// was.
pub fn maybe_update_window_viewport(viewport: &mut WindowViewport, changed: Option<WindowSize>) -> (r:
    Result<(), ViewportError>)
    requires
        old(viewport).scale.valid(),
    ensures
        old(viewport).wf() ==> final(viewport).wf(),
        match changed {
            None => r is Ok && *final(viewport) == *old(viewport),
            Some(size) => match rescale_failure(size, old(viewport).scale) {
                None => r is Ok && is_view_of(*final(viewport), size, old(viewport).scale),
                Some(e) => r == Err::<(), ViewportError>(e) && *final(viewport) == *old(viewport),
            },
        },
{
    set_initial_window_viewport(viewport, changed)
}

/// Recomputes the scale for a window that has changed and caches the
/// resulting viewport. Returns the scale that every camera is to be given,
/// or `None` where no window has changed. On an error the viewport is left
/// as it was.
pub fn update_camera_on_resize(
    virtual_resolution: &VirtualResolution,
    strat: ScalingStrategy,
    viewport: &mut WindowViewport,
    changed: Option<WindowSize>,
) -> (r: Result<Option<Scale>, ViewportError>)
    ensures
        match changed {
            None => r == Ok::<Option<Scale>, ViewportError>(None) && *final(viewport) == *old(
                viewport,
            ),
            Some(size) => match resolve_failure(*virtual_resolution, size, strat) {
                None => r == Ok::<Option<Scale>, ViewportError>(
                    Some(chosen_scale(*virtual_resolution, size, strat)),
                ) && is_resolution_of(*final(viewport), *virtual_resolution, size, strat),
                Some(e) => r == Err::<Option<Scale>, ViewportError>(e) && *final(viewport) == *old(
                    viewport,
                ),
            },
        },
{
    match changed {
        None => Ok(None),
        Some(size) => match resolve(virtual_resolution, size, strat) {
            Ok(resolved) => {
                *viewport = resolved;
                Ok(Some(resolved.scale))
            },
            Err(e) => Err(e),
        },
    }
}

/// Cancelling a common positive factor leaves a rounded-down half unchanged.
proof fn lemma_half_of_multiple(x: int, k: int)
    by (nonlinear_arith)
    requires
        k > 0,
    ensures
        (x * k) / (2 * k) == x / 2,
        (k * x) / (2 * k) == x / 2,
{
}

/// Rounded-down halves keep the order of what is halved.
proof fn lemma_half_is_monotonic(a: int, b: int, k: int)
    by (nonlinear_arith)
    requires
        k > 0,
        a <= b,
    ensures
        a / (2 * k) <= b / (2 * k),
{
}

/// A window that has exactly the virtual resolution is shown at one world
/// unit per pixel under every strategy, and the arena is then the virtual
/// resolution itself. Nothing stands in the way of resolving it unless a
/// side of the resolution is a single sub-unit, of which half is none.
pub proof fn lemma_matching_window_has_unit_scale(
    resolution: VirtualResolution,
    strategy: ScalingStrategy,
)
    requires
        resolution.width > 0,
        resolution.height > 0,
    ensures
        ({
            let size = WindowSize { width: resolution.width, height: resolution.height };
            let scale = chosen_scale(resolution, size, strategy);
            &&& scale.is_one()
            &&& half_extent(size.width as int, scale) == resolution.width / 2
            &&& half_extent(size.height as int, scale) == resolution.height / 2
            &&& resolve_failure(resolution, size, strategy) is None <==> resolution.width >= 2
                && resolution.height >= 2
        }),
{
    let size = WindowSize { width: resolution.width, height: resolution.height };
    let scale = chosen_scale(resolution, size, strategy);
    lemma_half_of_multiple(resolution.width as int, scale.numerator as int);
    lemma_half_of_multiple(resolution.height as int, scale.numerator as int);
}

/// For the same resolution and window the scale of `AutoMin` is never larger
/// than the scale of `AutoMax`.
pub proof fn lemma_auto_min_at_most_auto_max(resolution: VirtualResolution, size: WindowSize)
    ensures
        chosen_scale(resolution, size, ScalingStrategy::AutoMin).at_most(
            chosen_scale(resolution, size, ScalingStrategy::AutoMax),
        ),
{
}

/// Where both automatic strategies resolve the same resolution and window,
/// the viewport of `AutoMin` has the smaller scale and the smaller arena:
/// neither its scale nor either of its half-extents exceeds that of
/// `AutoMax`.
pub proof fn lemma_auto_min_viewport_within_auto_max(
    least: WindowViewport,
    most: WindowViewport,
    resolution: VirtualResolution,
    size: WindowSize,
)
    requires
        is_resolution_of(least, resolution, size, ScalingStrategy::AutoMin),
        is_resolution_of(most, resolution, size, ScalingStrategy::AutoMax),
    ensures
        least.scale.at_most(most.scale),
        least.half_width <= most.half_width,
        least.half_height <= most.half_height,
{
    lemma_auto_min_at_most_auto_max(resolution, size);
    lemma_auto_extents_bracket_resolution(resolution, size);
}

/// A fixed strategy shows its own axis of the virtual resolution exactly.
pub proof fn lemma_fixed_axis_is_exact(resolution: VirtualResolution, size: WindowSize)
    requires
        size.positive(),
    ensures
        half_extent(
            size.width as int,
            chosen_scale(resolution, size, ScalingStrategy::FixedHorizontal),
        ) == resolution.width / 2,
        half_extent(
            size.height as int,
            chosen_scale(resolution, size, ScalingStrategy::FixedVertical),
        ) == resolution.height / 2,
{
    lemma_half_of_multiple(resolution.width as int, size.width as int);
    lemma_half_of_multiple(resolution.height as int, size.height as int);
}

/// The smaller scale never shows more than the virtual resolution on either
/// axis, and the larger scale never shows less.
pub proof fn lemma_auto_extents_bracket_resolution(resolution: VirtualResolution, size: WindowSize)
    requires
        size.positive(),
    ensures
        ({
            let least = chosen_scale(resolution, size, ScalingStrategy::AutoMin);
            let most = chosen_scale(resolution, size, ScalingStrategy::AutoMax);
            &&& half_extent(size.width as int, least) <= resolution.width / 2
            &&& half_extent(size.height as int, least) <= resolution.height / 2
            &&& half_extent(size.width as int, most) >= resolution.width / 2
            &&& half_extent(size.height as int, most) >= resolution.height / 2
        }),
{
    let w = resolution.width as int;
    let h = resolution.height as int;
    let pw = size.width as int;
    let ph = size.height as int;
    lemma_half_of_multiple(w, pw);
    lemma_half_of_multiple(h, ph);
    lemma_half_of_multiple(w, ph);
    lemma_half_of_multiple(h, pw);
    assert(ph * w == w * ph && pw * h == h * pw) by (nonlinear_arith);
    if w * ph <= h * pw {
        lemma_half_is_monotonic(ph * w, h * pw, pw);
        lemma_half_is_monotonic(w * ph, pw * h, ph);
    }
    if h * pw <= w * ph {
        lemma_half_is_monotonic(h * pw, ph * w, pw);
        lemma_half_is_monotonic(pw * h, w * ph, ph);
    }
}

} // verus!
