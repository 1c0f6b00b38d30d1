use epui::auto_remove::{remove_system, AutoRemove};
use epui::property::{
    Color, ColoredElement, CornersRoundness, FontSize, Position, Scalar, Size,
};
use epui::state::ComponentState;
use epui::transition::{
    lerp, lerp_rounded, lerp_scalar, transition_system, Progress, PropertyTransition, Transition,
    TransitionState,
};

fn gray(level: u32) -> ColoredElement {
    let channel = Scalar::from_millionths(level);
    ColoredElement::new(Color::rgba(channel, channel, channel, Scalar::one()))
}

#[test]
fn progress_is_the_elapsed_part() {
    assert_eq!(Progress::new(50, 100), Progress { numerator: 50, denominator: 100 });
    assert_eq!(Progress::new(100, 100), Progress::complete());
    assert_eq!(Progress::new(250, 100), Progress::complete());
    assert!(Progress::new(100, 100).finished());
    assert!(!Progress::new(99, 100).finished());
    assert!(!Progress::start().finished());
}

#[test]
fn zero_duration_is_complete_at_once() {
    assert!(Progress::new(0, 0).finished());
    let mut live = Position::new(3, 4);
    let mut transition = Transition::new(Position::new(30, 40), 0);
    assert!(transition.tick(0, &mut live));
    assert_eq!(live, Position::new(30, 40));
}

#[test]
fn lerp_exact_values() {
    let half = Progress::new(1, 2);
    let third = Progress::new(1, 3);
    assert_eq!(lerp(half, 0, 10), 5);
    assert_eq!(lerp(third, 0, 10), 3);
    assert_eq!(lerp(third, 10, 0), 6);
    assert_eq!(lerp(third, 0, 20), 6);
    assert_eq!(lerp(half, u32::MAX, u32::MAX), u32::MAX);
    assert_eq!(lerp(Progress::new(u64::MAX - 1, u64::MAX), 0, u32::MAX), u32::MAX - 1);
    assert_eq!(lerp_rounded(half, 10, 11), 11);
    assert_eq!(lerp_rounded(Progress::new(1, 4), 16, 24), 18);
    assert_eq!(lerp_rounded(third, 0, 10), 3);
    assert_eq!(lerp_rounded(third, 10, 0), 7);
    assert_eq!(
        lerp_scalar(half, Scalar::from_millionths(500_000), Scalar::from_millionths(250_000)),
        Scalar::from_millionths(375_000)
    );
}

#[test]
fn endpoints_of_every_property() {
    let start = Progress::start();
    let end = Progress::complete();

    let (from, to) = (Position::new(3, 900), Position::new(100, 7));
    assert_eq!(Position::transition(start, &from, &to), from);
    assert_eq!(Position::transition(end, &from, &to), to);

    let (from, to) = (Size::new(50, 50), Size::new(0, u32::MAX));
    assert_eq!(Size::transition(start, &from, &to), from);
    assert_eq!(Size::transition(end, &from, &to), to);

    let (from, to) = (gray(500_000), gray(250_000));
    assert_eq!(ColoredElement::transition(start, &from, &to), from);
    assert_eq!(ColoredElement::transition(end, &from, &to), to);

    let from = CornersRoundness::from_scalar(Scalar::zero());
    let to = CornersRoundness::from_scalar(Scalar::one());
    assert_eq!(CornersRoundness::transition(start, &from, &to), from);
    assert_eq!(CornersRoundness::transition(end, &from, &to), to);

    let (from, to) = (FontSize(16), FontSize(31));
    assert_eq!(FontSize::transition(start, &from, &to), from);
    assert_eq!(FontSize::transition(end, &from, &to), to);

    let from = ComponentState::new(1, Position::new(0, 0));
    let to = ComponentState::new(1, Position::new(8, 8));
    let at_start = ComponentState::transition(start, &from, &to);
    let at_end = ComponentState::transition(end, &from, &to);
    assert_eq!((at_start.aspect, at_start.value), (1, Position::new(0, 0)));
    assert_eq!((at_end.aspect, at_end.value), (1, Position::new(8, 8)));
}

#[test]
fn blends_of_every_property() {
    let quarter = Progress::new(25, 100);
    assert_eq!(
        Position::transition(quarter, &Position::new(0, 100), &Position::new(100, 0)),
        Position::new(25, 75)
    );
    assert_eq!(
        Size::transition(quarter, &Size::new(10, 10), &Size::new(13, 30)),
        Size::new(10, 15)
    );
    assert_eq!(ColoredElement::transition(quarter, &gray(0), &gray(1_000_000)), gray(250_000));
    let corners = CornersRoundness::transition(
        quarter,
        &CornersRoundness::from_scalar(Scalar::one()),
        &CornersRoundness::from_scalar(Scalar::zero()),
    );
    assert_eq!(corners, CornersRoundness::from_scalar(Scalar::from_millionths(750_000)));
    assert_eq!(FontSize::transition(quarter, &FontSize(10), &FontSize(16)), FontSize(12));
    let state = ComponentState::transition(
        quarter,
        &ComponentState::new(4, FontSize(10)),
        &ComponentState::new(4, FontSize(16)),
    );
    assert_eq!((state.aspect, state.value), (4, FontSize(12)));
}

#[test]
fn first_tick_captures_the_live_value() {
    let mut live = Position::new(10, 10);
    let mut transition = Transition::new(Position::new(110, 10), 100);
    assert_eq!(transition.from, None);
    assert!(!transition.tick(30, &mut live));
    assert_eq!(transition.from, Some(Position::new(10, 10)));
    assert_eq!(live, Position::new(40, 10));
    assert!(!transition.tick(30, &mut live));
    assert_eq!(transition.from, Some(Position::new(10, 10)));
    assert_eq!(live, Position::new(70, 10));
    assert!(transition.tick(1000, &mut live));
    assert_eq!(transition.elapsed, 100);
    assert_eq!(live, Position::new(110, 10));
    assert!(transition.tick(5, &mut live));
    assert_eq!(live, Position::new(110, 10));
}

#[test]
fn a_new_transition_goes_on_from_what_is_shown() {
    let mut live = Position::new(0, 0);
    let mut first = Transition::new(Position::new(100, 0), 100);
    first.tick(60, &mut live);
    assert_eq!(live, Position::new(60, 0));

    let mut second = Transition::new(Position::new(0, 0), 50);
    assert!(!second.tick(0, &mut live));
    assert_eq!(second.from, Some(Position::new(60, 0)));
    assert_eq!(live, Position::new(60, 0));
    assert!(!second.tick(25, &mut live));
    assert_eq!(live, Position::new(30, 0));
    assert!(second.tick(25, &mut live));
    assert_eq!(live, Position::new(0, 0));
}

#[test]
fn a_complete_transition_leaves_its_slot() {
    let mut live = FontSize(10);
    let mut slot = Some(Transition::new(FontSize(20), 10));
    assert!(transition_system(&mut slot, 5, &mut live));
    assert_eq!(live, FontSize(15));
    assert!(slot.is_some());
    assert!(!transition_system(&mut slot, 5, &mut live));
    assert_eq!(live, FontSize(20));
    assert!(slot.is_none());
    assert!(!transition_system(&mut slot, 5, &mut live));
    assert_eq!(live, FontSize(20));
}

#[test]
fn a_timer_runs_out_after_its_duration() {
    let mut timer = AutoRemove::new(100);
    assert!(!timer.tick(100));
    assert!(timer.tick(1));
    assert_eq!(timer.elapsed, 101);
    let mut long = AutoRemove::new(u64::MAX);
    assert!(!long.tick(u64::MAX));
    assert!(!long.tick(u64::MAX));
    assert_eq!(long.elapsed, u64::MAX);
}

#[test]
fn remove_system_decides_for_one_override() {
    let mut none: Option<AutoRemove> = None;
    assert!(!remove_system(&mut none, true, 10));
    assert_eq!(none, None);

    let mut orphan = Some(AutoRemove::new(100));
    assert!(!remove_system(&mut orphan, false, 10));
    assert_eq!(orphan, None);

    let mut slot = Some(AutoRemove::new(100));
    assert!(!remove_system(&mut slot, true, 100));
    assert_eq!(slot, Some(AutoRemove { elapsed: 100, duration: 100 }));
    assert!(remove_system(&mut slot, true, 1));
    assert_eq!(slot, None);
}

#[test]
fn a_transition_starts_once_and_ends_for_good() {
    let mut live = Size::new(10, 10);
    let mut transition = Transition::new(Size::new(20, 30), 4);
    assert_eq!(transition.state(), TransitionState::Uninitialized);
    assert_eq!(transition.progress(), Progress { numerator: 0, denominator: 4 });
    transition.tick(1, &mut live);
    assert_eq!(transition.state(), TransitionState::Running);
    assert_eq!(transition.progress(), Progress { numerator: 1, denominator: 4 });
    assert_eq!(live, Size::new(12, 15));
    transition.tick(u64::MAX, &mut live);
    assert_eq!(transition.state(), TransitionState::Complete);
    assert_eq!(transition.progress(), Progress::complete());
    transition.tick(1, &mut live);
    assert_eq!(transition.state(), TransitionState::Complete);
    assert_eq!(transition.from, Some(Size::new(10, 10)));
    assert_eq!(live, Size::new(20, 30));
}
