//! Timed interpolation between two values of a property.
//!
//! A [`Progress`] is the fraction of a duration that has elapsed, held as an
//! exact ratio. Each property type blends two of its values at a progress
//! ([`PropertyTransition`]). A [`Transition`] owns a target value and a timer;
//! at each tick it advances the timer and writes the blended value into the
//! live property.

use vstd::prelude::*;
use vstd::arithmetic::div_mod::lemma_fundamental_div_mod_converse;
use crate::property::{Color, ColoredElement, CornersRoundness, FontSize, Position, Scalar, Size};
use crate::state::ComponentState;

verus! {

/// A fraction between zero and one: `numerator / denominator`.
#[derive(Debug, Clone, Copy, PartialEq, Eq, Structural)]
pub struct Progress {
    pub numerator: u64,
    pub denominator: u64,
}

impl Progress {
    /// The fraction is defined and does not exceed one.
    pub open spec fn wf(self) -> bool {
        0 < self.denominator && self.numerator <= self.denominator
    }

    /// The fraction is zero.
    pub open spec fn is_start(self) -> bool {
        self.numerator == 0
    }

    /// The fraction is one.
    pub open spec fn is_complete(self) -> bool {
        self.numerator == self.denominator
    }

    /// The part of `duration` that `elapsed` makes up, and one where `elapsed`
    /// reaches or exceeds `duration`. A duration of zero is complete at once.
    pub open spec fn spec_new(elapsed: u64, duration: u64) -> Progress {
        if elapsed >= duration {
            Progress { numerator: 1, denominator: 1 }
        } else {
            Progress { numerator: elapsed, denominator: duration }
        }
    }

    /// The part of `duration` that `elapsed` makes up, at most one.
    pub fn new(elapsed: u64, duration: u64) -> (progress: Progress)
        ensures
            progress == Progress::spec_new(elapsed, duration),
            progress.wf(),
            progress.is_complete() <==> elapsed >= duration,
    {
        if elapsed >= duration {
            Progress { numerator: 1, denominator: 1 }
        } else {
            Progress { numerator: elapsed, denominator: duration }
        }
    }

    /// Nothing has elapsed.
    pub fn start() -> (progress: Progress)
        ensures
            progress == (Progress { numerator: 0, denominator: 1 }),
            progress.wf(),
            progress.is_start(),
    {
        Progress { numerator: 0, denominator: 1 }
    }

    /// Everything has elapsed.
    pub fn complete() -> (progress: Progress)
        ensures
            progress == (Progress { numerator: 1, denominator: 1 }),
            progress.wf(),
            progress.is_complete(),
    {
        Progress { numerator: 1, denominator: 1 }
    }

    /// Whether the fraction is one.
    pub fn finished(&self) -> (finished: bool)
        ensures
            finished == self.is_complete(),
    {
        self.numerator == self.denominator
    }
}

/// The point between `from` and `to` at `progress`, rounded down to a whole
/// number: `from + (to - from) * progress`.
pub open spec fn spec_lerp(progress: Progress, from: int, to: int) -> int {
    (from * (progress.denominator - progress.numerator) + to * progress.numerator)
        / (progress.denominator as int)
}

/// The point between `from` and `to` at `progress`, rounded to the nearest
/// whole number, halves upwards.
pub open spec fn spec_lerp_rounded(progress: Progress, from: int, to: int) -> int {
    (2 * (from * (progress.denominator - progress.numerator) + to * progress.numerator)
        + progress.denominator) / (2 * progress.denominator)
}

/// A blend of two numbers lies between them, and is one of them at either end.
pub proof fn lemma_lerp(progress: Progress, from: int, to: int)
    requires
        progress.wf(),
    ensures
        from <= to ==> from <= spec_lerp(progress, from, to) <= to,
        to <= from ==> to <= spec_lerp(progress, from, to) <= from,
        progress.is_start() ==> spec_lerp(progress, from, to) == from,
        progress.is_complete() ==> spec_lerp(progress, from, to) == to,
{
    let den = progress.denominator as int;
    let num = progress.numerator as int;
    let sum = from * (den - num) + to * num;
    let low = if from <= to { from } else { to };
    let high = if from <= to { to } else { from };
    assert(low * den <= sum <= high * den) by (nonlinear_arith)
        requires
            0 <= num <= den,
            sum == from * (den - num) + to * num,
            low <= from <= high,
            low <= to <= high,
    ;
    assert(low <= sum / den <= high) by (nonlinear_arith)
        requires
            0 < den,
            low * den <= sum <= high * den,
    ;
    if progress.is_start() {
        assert(sum == from * den) by (nonlinear_arith)
            requires
                num == 0,
                sum == from * (den - num) + to * num,
        ;
        lemma_fundamental_div_mod_converse(sum, den, from, 0);
    }
    if progress.is_complete() {
        assert(sum == to * den) by (nonlinear_arith)
            requires
                num == den,
                sum == from * (den - num) + to * num,
        ;
        lemma_fundamental_div_mod_converse(sum, den, to, 0);
    }
}

/// A rounded blend of two numbers lies between them, and is one of them at
/// either end.
pub proof fn lemma_lerp_rounded(progress: Progress, from: int, to: int)
    requires
        progress.wf(),
    ensures
        from <= to ==> from <= spec_lerp_rounded(progress, from, to) <= to,
        to <= from ==> to <= spec_lerp_rounded(progress, from, to) <= from,
        progress.is_start() ==> spec_lerp_rounded(progress, from, to) == from,
        progress.is_complete() ==> spec_lerp_rounded(progress, from, to) == to,
{
    let den = progress.denominator as int;
    let num = progress.numerator as int;
    let sum = from * (den - num) + to * num;
    let low = if from <= to { from } else { to };
    let high = if from <= to { to } else { from };
    assert(low * den <= sum <= high * den) by (nonlinear_arith)
        requires
            0 <= num <= den,
            sum == from * (den - num) + to * num,
            low <= from <= high,
            low <= to <= high,
    ;
    assert(low <= (2 * sum + den) / (2 * den) <= high) by (nonlinear_arith)
        requires
            0 < den,
            low * den <= sum <= high * den,
    ;
    if progress.is_start() {
        assert(2 * sum + den == from * (2 * den) + den) by (nonlinear_arith)
            requires
                num == 0,
                sum == from * (den - num) + to * num,
        ;
        lemma_fundamental_div_mod_converse(2 * sum + den, 2 * den, from, den);
    }
    if progress.is_complete() {
        assert(2 * sum + den == to * (2 * den) + den) by (nonlinear_arith)
            requires
                num == den,
                sum == from * (den - num) + to * num,
        ;
        lemma_fundamental_div_mod_converse(2 * sum + den, 2 * den, to, den);
    }
}

/// Blends two numbers at `progress`, rounding down.
pub fn lerp(progress: Progress, from: u32, to: u32) -> (value: u32)
    requires
        progress.wf(),
    ensures
        value == spec_lerp(progress, from as int, to as int),
{
    let den: u128 = progress.denominator as u128;
    let num: u128 = progress.numerator as u128;
    let rest: u128 = den - num;
    proof {
        lemma_lerp(progress, from as int, to as int);
        assert((from as u128) * rest <= 0xffff_ffff * 0xffff_ffff_ffff_ffff) by (nonlinear_arith)
            requires
                from <= 0xffff_ffff,
                rest <= 0xffff_ffff_ffff_ffff,
        ;
        assert((to as u128) * num <= 0xffff_ffff * 0xffff_ffff_ffff_ffff) by (nonlinear_arith)
            requires
                to <= 0xffff_ffff,
                num <= 0xffff_ffff_ffff_ffff,
        ;
    }
    let sum: u128 = (from as u128) * rest + (to as u128) * num;
    let value: u128 = sum / den;
    value as u32
}

/// Blends two numbers at `progress`, rounding to the nearest whole number.
pub fn lerp_rounded(progress: Progress, from: u32, to: u32) -> (value: u32)
    requires
        progress.wf(),
    ensures
        value == spec_lerp_rounded(progress, from as int, to as int),
{
    let den: u128 = progress.denominator as u128;
    let num: u128 = progress.numerator as u128;
    let rest: u128 = den - num;
    proof {
        lemma_lerp_rounded(progress, from as int, to as int);
        assert((from as u128) * rest <= 0xffff_ffff * 0xffff_ffff_ffff_ffff) by (nonlinear_arith)
            requires
                from <= 0xffff_ffff,
                rest <= 0xffff_ffff_ffff_ffff,
        ;
        assert((to as u128) * num <= 0xffff_ffff * 0xffff_ffff_ffff_ffff) by (nonlinear_arith)
            requires
                to <= 0xffff_ffff,
                num <= 0xffff_ffff_ffff_ffff,
        ;
    }
    let sum: u128 = (from as u128) * rest + (to as u128) * num;
    let value: u128 = (2 * sum + den) / (2 * den);
    value as u32
}

/// The blend of two scalars.
pub open spec fn spec_lerp_scalar(progress: Progress, from: Scalar, to: Scalar) -> Scalar {
    Scalar {
        millionths: spec_lerp(progress, from.millionths as int, to.millionths as int) as u32,
    }
}

/// Blends two scalars at `progress`.
pub fn lerp_scalar(progress: Progress, from: Scalar, to: Scalar) -> (value: Scalar)
    requires
        progress.wf(),
    ensures
        value == spec_lerp_scalar(progress, from, to),
{
    Scalar { millionths: lerp(progress, from.millionths, to.millionths) }
}

/// How a property type blends two of its values.
pub trait PropertyTransition<T> {
    /// The value at `progress` on the way from `from` to `to`.
    spec fn spec_transition(progress: Progress, from: T, to: T) -> T;

    /// The value at `progress` on the way from `from` to `to`.
    fn transition(progress: Progress, from: &T, to: &T) -> (value: T)
        requires
            progress.wf(),
        ensures
            value == Self::spec_transition(progress, *from, *to),
    ;

    /// A transition starts at `from` and ends at `to`.
    proof fn lemma_endpoints(progress: Progress, from: T, to: T)
        requires
            progress.wf(),
        ensures
            progress.is_start() ==> Self::spec_transition(progress, from, to) == from,
            progress.is_complete() ==> Self::spec_transition(progress, from, to) == to,
    ;
}

impl PropertyTransition<Position> for Position {
    /// Each coordinate is blended by itself and rounded down to a whole pixel.
    open spec fn spec_transition(progress: Progress, from: Position, to: Position) -> Position {
        Position {
            x: spec_lerp(progress, from.x as int, to.x as int) as u32,
            y: spec_lerp(progress, from.y as int, to.y as int) as u32,
        }
    }

    fn transition(progress: Progress, from: &Position, to: &Position) -> (value: Position) {
        Position { x: lerp(progress, from.x, to.x), y: lerp(progress, from.y, to.y) }
    }

    proof fn lemma_endpoints(progress: Progress, from: Position, to: Position) {
        lemma_lerp(progress, from.x as int, to.x as int);
        lemma_lerp(progress, from.y as int, to.y as int);
    }
}

impl PropertyTransition<Size> for Size {
    /// Each extent is blended by itself and rounded down to a whole pixel.
    open spec fn spec_transition(progress: Progress, from: Size, to: Size) -> Size {
        Size {
            width: spec_lerp(progress, from.width as int, to.width as int) as u32,
            height: spec_lerp(progress, from.height as int, to.height as int) as u32,
        }
    }

    fn transition(progress: Progress, from: &Size, to: &Size) -> (value: Size) {
        Size {
            width: lerp(progress, from.width, to.width),
            height: lerp(progress, from.height, to.height),
        }
    }

    proof fn lemma_endpoints(progress: Progress, from: Size, to: Size) {
        lemma_lerp(progress, from.width as int, to.width as int);
        lemma_lerp(progress, from.height as int, to.height as int);
    }
}

impl PropertyTransition<ColoredElement> for ColoredElement {
    /// Each of the four channels is blended by itself.
    open spec fn spec_transition(
        progress: Progress,
        from: ColoredElement,
        to: ColoredElement,
    ) -> ColoredElement {
        ColoredElement {
            color: Color {
                red: spec_lerp_scalar(progress, from.color.red, to.color.red),
                green: spec_lerp_scalar(progress, from.color.green, to.color.green),
                blue: spec_lerp_scalar(progress, from.color.blue, to.color.blue),
                alpha: spec_lerp_scalar(progress, from.color.alpha, to.color.alpha),
            },
        }
    }

    fn transition(progress: Progress, from: &ColoredElement, to: &ColoredElement) -> (value:
        ColoredElement) {
        ColoredElement {
            color: Color {
                red: lerp_scalar(progress, from.color.red, to.color.red),
                green: lerp_scalar(progress, from.color.green, to.color.green),
                blue: lerp_scalar(progress, from.color.blue, to.color.blue),
                alpha: lerp_scalar(progress, from.color.alpha, to.color.alpha),
            },
        }
    }

    proof fn lemma_endpoints(progress: Progress, from: ColoredElement, to: ColoredElement) {
        lemma_lerp(progress, from.color.red.millionths as int, to.color.red.millionths as int);
        lemma_lerp(progress, from.color.green.millionths as int, to.color.green.millionths as int);
        lemma_lerp(progress, from.color.blue.millionths as int, to.color.blue.millionths as int);
        lemma_lerp(progress, from.color.alpha.millionths as int, to.color.alpha.millionths as int);
    }
}

impl PropertyTransition<CornersRoundness> for CornersRoundness {
    /// Each of the four corners is blended by itself.
    open spec fn spec_transition(
        progress: Progress,
        from: CornersRoundness,
        to: CornersRoundness,
    ) -> CornersRoundness {
        CornersRoundness {
            top_left_scalar: spec_lerp_scalar(progress, from.top_left_scalar, to.top_left_scalar),
            top_right_scalar: spec_lerp_scalar(
                progress,
                from.top_right_scalar,
                to.top_right_scalar,
            ),
            bottom_left_scalar: spec_lerp_scalar(
                progress,
                from.bottom_left_scalar,
                to.bottom_left_scalar,
            ),
            bottom_right_scalar: spec_lerp_scalar(
                progress,
                from.bottom_right_scalar,
                to.bottom_right_scalar,
            ),
        }
    }

    fn transition(progress: Progress, from: &CornersRoundness, to: &CornersRoundness) -> (value:
        CornersRoundness) {
        CornersRoundness {
            top_left_scalar: lerp_scalar(progress, from.top_left_scalar, to.top_left_scalar),
            top_right_scalar: lerp_scalar(progress, from.top_right_scalar, to.top_right_scalar),
            bottom_left_scalar: lerp_scalar(
                progress,
                from.bottom_left_scalar,
                to.bottom_left_scalar,
            ),
            bottom_right_scalar: lerp_scalar(
                progress,
                from.bottom_right_scalar,
                to.bottom_right_scalar,
            ),
        }
    }

    proof fn lemma_endpoints(progress: Progress, from: CornersRoundness, to: CornersRoundness) {
        lemma_lerp(
            progress,
            from.top_left_scalar.millionths as int,
            to.top_left_scalar.millionths as int,
        );
        lemma_lerp(
            progress,
            from.top_right_scalar.millionths as int,
            to.top_right_scalar.millionths as int,
        );
        lemma_lerp(
            progress,
            from.bottom_left_scalar.millionths as int,
            to.bottom_left_scalar.millionths as int,
        );
        lemma_lerp(
            progress,
            from.bottom_right_scalar.millionths as int,
            to.bottom_right_scalar.millionths as int,
        );
    }
}

impl PropertyTransition<FontSize> for FontSize {
    /// The size is blended and rounded to the nearest whole pixel.
    open spec fn spec_transition(progress: Progress, from: FontSize, to: FontSize) -> FontSize {
        FontSize(spec_lerp_rounded(progress, from.0 as int, to.0 as int) as u32)
    }

    fn transition(progress: Progress, from: &FontSize, to: &FontSize) -> (value: FontSize) {
        FontSize(lerp_rounded(progress, from.0, to.0))
    }

    proof fn lemma_endpoints(progress: Progress, from: FontSize, to: FontSize) {
        lemma_lerp_rounded(progress, from.0 as int, to.0 as int);
    }
}

impl<T: PropertyTransition<T>> PropertyTransition<ComponentState<T>> for ComponentState<T> {
    /// The values are blended as their type blends them. The two states are
    /// states of one aspect, and the result is a state of that aspect; should
    /// the aspects differ, the result keeps the aspect of `from` until the
    /// transition is complete.
    open spec fn spec_transition(
        progress: Progress,
        from: ComponentState<T>,
        to: ComponentState<T>,
    ) -> ComponentState<T> {
        ComponentState {
            value: T::spec_transition(progress, from.value, to.value),
            aspect: if progress.is_complete() {
                to.aspect
            } else {
                from.aspect
            },
        }
    }

    fn transition(progress: Progress, from: &ComponentState<T>, to: &ComponentState<T>) -> (value:
        ComponentState<T>) {
        let aspect = if progress.finished() {
            to.aspect
        } else {
            from.aspect
        };
        ComponentState { value: T::transition(progress, &from.value, &to.value), aspect }
    }

    proof fn lemma_endpoints(progress: Progress, from: ComponentState<T>, to: ComponentState<T>) {
        T::lemma_endpoints(progress, from.value, to.value);
    }
}

/// Where a [`Transition`] stands.
#[derive(Debug, Clone, Copy, PartialEq, Eq, Structural)]
pub enum TransitionState {
    /// No tick has run yet: the value to start from is not captured.
    Uninitialized,
    /// At least one tick has run, and the duration has not elapsed.
    Running,
    /// The duration has elapsed: the live property holds the target value.
    Complete,
}

/// A timed interpolation of a property toward a target value.
///
/// The value to start from is captured at the first tick from the live
/// property, so that a transition which takes over from another one goes on
/// from what is shown at that moment.
#[derive(Debug, Clone)]
pub struct Transition<T> {
    pub from: Option<T>,
    pub to: T,
    pub elapsed: u64,
    pub duration: u64,
}

impl<T: PropertyTransition<T>> Transition<T> {
    /// Where the transition stands.
    pub open spec fn spec_state(&self) -> TransitionState {
        if self.from.is_none() {
            TransitionState::Uninitialized
        } else if self.elapsed < self.duration {
            TransitionState::Running
        } else {
            TransitionState::Complete
        }
    }

    /// The time elapsed after a further `delta`: it stops at the duration.
    pub open spec fn spec_advance(&self, delta: u64) -> u64 {
        if self.elapsed >= self.duration || delta >= self.duration - self.elapsed {
            self.duration
        } else {
            (self.elapsed + delta) as u64
        }
    }

    /// The progress after a further `delta`.
    pub open spec fn spec_progress_after(&self, delta: u64) -> Progress {
        Progress::spec_new(self.spec_advance(delta), self.duration)
    }

    /// The value to start from once a tick has run on the live value `live`.
    pub open spec fn spec_from_after(&self, live: T) -> T {
        match self.from {
            Some(from) => from,
            None => live,
        }
    }

    /// The value that a tick of `delta` writes over the live value `live`.
    pub open spec fn spec_written(&self, delta: u64, live: T) -> T {
        T::spec_transition(self.spec_progress_after(delta), self.spec_from_after(live), self.to)
    }

    /// A transition toward `to` that takes `duration` and has not ticked yet.
    pub open spec fn spec_new(to: T, duration: u64) -> Transition<T> {
        Transition { from: None, to, elapsed: 0, duration }
    }

    /// A transition toward `to` that takes `duration`. No time has elapsed,
    /// and the value to start from is not captured yet.
    pub fn new(to: T, duration: u64) -> (transition: Transition<T>)
        ensures
            transition == Self::spec_new(to, duration),
            transition.from.is_none(),
            transition.to == to,
            transition.elapsed == 0,
            transition.duration == duration,
            transition.spec_state() == TransitionState::Uninitialized,
    {
        Transition { from: None, to, elapsed: 0, duration }
    }

    /// The transition after a tick of `delta` on the live value `live`.
    pub open spec fn spec_tick(&self, delta: u64, live: T) -> Transition<T> {
        Transition {
            from: Some(self.spec_from_after(live)),
            to: self.to,
            elapsed: self.spec_advance(delta),
            duration: self.duration,
        }
    }

    /// Where the transition stands.
    pub fn state(&self) -> (state: TransitionState)
        ensures
            state == self.spec_state(),
    {
        if self.from.is_none() {
            TransitionState::Uninitialized
        } else if self.elapsed < self.duration {
            TransitionState::Running
        } else {
            TransitionState::Complete
        }
    }

    /// The part of the duration that has elapsed.
    pub fn progress(&self) -> (progress: Progress)
        ensures
            progress == Progress::spec_new(self.elapsed, self.duration),
            progress.wf(),
    {
        Progress::new(self.elapsed, self.duration)
    }

    /// Advances the transition by `delta` and writes the blended value into
    /// `property`. The first tick captures the value to start from out of
    /// `property`; later ticks keep it. Returns whether the transition is
    /// complete; if it is, the property holds the target value, and every
    /// later tick finds the transition complete again.
    pub fn tick(&mut self, delta: u64, property: &mut T) -> (complete: bool)
        ensures
            *final(self) == old(self).spec_tick(delta, *old(property)),
            *final(property) == old(self).spec_written(delta, *old(property)),
            complete == (final(self).elapsed >= final(self).duration),
            complete == (final(self).spec_state() == TransitionState::Complete),
            complete ==> *final(property) == old(self).to,
            old(self).elapsed >= old(self).duration ==> complete,
            old(self).from.is_some() ==> final(self).from == old(self).from,
            final(self).spec_state() != TransitionState::Uninitialized,
            old(self).spec_state() == TransitionState::Complete ==> final(self).spec_state()
                == TransitionState::Complete,
            final(self).elapsed <= final(self).duration,
            old(self).elapsed <= old(self).duration ==> old(self).elapsed <= final(self).elapsed,
    {
        if self.elapsed >= self.duration || delta >= self.duration - self.elapsed {
            self.elapsed = self.duration;
        } else {
            self.elapsed = self.elapsed + delta;
        }
        let progress = Progress::new(self.elapsed, self.duration);
        let captured = self.from.take();
        match captured {
            Some(from) => {
                let mut value = T::transition(progress, &from, &self.to);
                core::mem::swap(property, &mut value);
                self.from = Some(from);
            },
            None => {
                let mut value = T::transition(progress, property, &self.to);
                core::mem::swap(property, &mut value);
                self.from = Some(value);
            },
        }
        proof {
            T::lemma_endpoints(progress, old(self).spec_from_after(*old(property)), self.to);
        }
        progress.finished()
    }
}

/// The live value after one tick of the transition in `slot`, if there is
/// one, on the live value `live`.
pub open spec fn spec_transition_system_value<T: PropertyTransition<T>>(
    slot: Option<Transition<T>>,
    delta: u64,
    live: T,
) -> T {
    match slot {
        Some(transition) => transition.spec_written(delta, live),
        None => live,
    }
}

/// The slot after one tick: a transition that is complete has left it.
pub open spec fn spec_transition_system_slot<T: PropertyTransition<T>>(
    slot: Option<Transition<T>>,
    delta: u64,
    live: T,
) -> Option<Transition<T>> {
    match slot {
        Some(transition) => if transition.spec_advance(delta) >= transition.duration {
            None
        } else {
            Some(transition.spec_tick(delta, live))
        },
        None => None,
    }
}

/// Whether a transition is still under way after one tick.
pub open spec fn spec_transition_system_redraw<T: PropertyTransition<T>>(
    slot: Option<Transition<T>>,
    delta: u64,
) -> bool {
    match slot {
        Some(transition) => transition.spec_advance(delta) < transition.duration,
        None => false,
    }
}

/// Runs one tick of the transition in `slot`, if there is one, on the live
/// value `property`. A transition that completes leaves the slot, and the
/// property then holds its target value. Returns whether a redraw is needed:
/// that is, whether a transition is still under way.
pub fn transition_system<T: PropertyTransition<T>>(
    slot: &mut Option<Transition<T>>,
    delta: u64,
    property: &mut T,
) -> (redraw: bool)
    ensures
        *final(property) == spec_transition_system_value(*old(slot), delta, *old(property)),
        *final(slot) == spec_transition_system_slot(*old(slot), delta, *old(property)),
        redraw == spec_transition_system_redraw(*old(slot), delta),
        old(slot).is_some() && !redraw ==> *final(property) == old(slot).unwrap().to,
{
    match slot.take() {
        None => false,
        Some(transition) => {
            let mut transition = transition;
            let complete = transition.tick(delta, property);
            if complete {
                false
            } else {
                *slot = Some(transition);
                true
            }
        },
    }
}

/// Continuity. A transition that has not ticked yet starts from whatever the
/// live property holds at its first tick, be it a base value or the value
/// that an interrupted transition wrote last; and where that first tick comes
/// before any time has elapsed, it leaves the live value as it is.
pub proof fn law_continuity<T: PropertyTransition<T>>(transition: Transition<T>, delta: u64, live: T)
    requires
        transition.from.is_none(),
    ensures
        transition.spec_from_after(live) == live,
        transition.spec_written(delta, live) == T::spec_transition(
            transition.spec_progress_after(delta),
            live,
            transition.to,
        ),
        transition.elapsed == 0 && delta == 0 && transition.duration > 0
            ==> transition.spec_written(delta, live) == live,
{
    if transition.elapsed == 0 && delta == 0 && transition.duration > 0 {
        T::lemma_endpoints(transition.spec_progress_after(delta), live, transition.to);
    }
}

/// Interpolation endpoints. At progress zero a transition yields the value it
/// starts from, at progress one the value it goes to.
pub proof fn law_interpolation_endpoints<T: PropertyTransition<T>>(from: T, to: T)
    ensures
        T::spec_transition(Progress { numerator: 0, denominator: 1 }, from, to) == from,
        T::spec_transition(Progress { numerator: 1, denominator: 1 }, from, to) == to,
{
    T::lemma_endpoints(Progress { numerator: 0, denominator: 1 }, from, to);
    T::lemma_endpoints(Progress { numerator: 1, denominator: 1 }, from, to);
}

} // verus!
