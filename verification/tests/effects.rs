use epui::auto_remove::AutoRemove;
use epui::click::{
    click_effect_clear_system, click_effect_system, click_effect_transition_in_system,
    click_effect_transition_out_system, ClickEffect, ClickEffectTransition, ClickState,
    CLICK_ASPECT,
};
use epui::effect::effect_tick_system;
use epui::collision::{BoxCollisionFunction, Collision, Point};
use epui::event::{on_mouse_move, Element, HoverChange, HoverEnterEvent, HoverExitEvent};
use epui::hover::{
    hover_effect_clear_system, hover_effect_system, hover_effect_transition_in_system,
    hover_effect_transition_out_system, HoverEffect, HoverEffectTransition, HoverState,
    HOVER_ASPECT,
};
use epui::property::{Color, ColoredElement, CornersRoundness, Position, Scalar, Size};
use epui::state::{Active, ComponentStates};
use epui::transition::Transition;
use epui::UiPlugin;

fn gray(level: u32) -> ColoredElement {
    let channel = Scalar::from_millionths(level);
    ColoredElement::new(Color::rgba(channel, channel, channel, Scalar::one()))
}

fn registry() -> ComponentStates {
    let mut registry = ComponentStates::new();
    UiPlugin.build(&mut registry);
    registry
}

#[test]
fn aspects_have_their_numbers() {
    assert_eq!(HoverState::aspect(), HOVER_ASPECT);
    assert_eq!(ClickState::aspect(), CLICK_ASPECT);
    assert_ne!(HOVER_ASPECT, CLICK_ASPECT);
}

#[test]
fn hover_takes_effect_at_once() {
    let registry = registry();
    let base = gray(500_000);
    let mut active = Active::new();
    let effect = HoverEffect::new(gray(250_000));
    assert!(hover_effect_system(&registry, &effect, &mut active));
    assert_eq!(*active.active(&base), gray(250_000));
    assert!(hover_effect_clear_system(&registry, &mut active));
    assert_eq!(*active.active(&base), base);
    assert!(!hover_effect_clear_system(&registry, &mut active));
    assert_eq!(*active.active(&base), base);
    assert_eq!(active.states_len(), 1);
}

#[test]
fn click_covers_hover() {
    let registry = registry();
    let base = gray(500_000);
    let mut active = Active::new();
    click_effect_system(&registry, &ClickEffect::new(gray(100_000)), &mut active);
    hover_effect_system(&registry, &HoverEffect::new(gray(250_000)), &mut active);
    assert_eq!(*active.active(&base), gray(100_000));
    click_effect_clear_system(&registry, &mut active);
    assert_eq!(*active.active(&base), gray(250_000));
}

#[test]
fn hover_fades_in_and_out_without_a_jump() {
    let registry = registry();
    let base = gray(500_000);
    let hover = gray(250_000);
    let effect = HoverEffectTransition::new(hover, 100, 200);
    let mut active = Active::new();
    let mut transition: Option<Transition<ColoredElement>> = None;
    let mut auto_remove: Option<AutoRemove> = None;
    let mut hovered = None;
    let button = Element {
        element: 7,
        position: Position::new(50, 50),
        size: Size::new(200, 60),
        collision: Collision::RoundedBox(BoxCollisionFunction::new(CornersRoundness::from_scalar(
            Scalar::one(),
        ))),
        visible_region: None,
    };

    assert_eq!(on_mouse_move(&button, &mut hovered, Point::new(51, 51)), HoverChange::Unchanged);
    assert_eq!(
        on_mouse_move(&button, &mut hovered, Point::new(150, 80)),
        HoverChange::Entered(HoverEnterEvent { element: 7 })
    );
    hover_effect_transition_in_system(
        &registry,
        &effect,
        &base,
        &mut active,
        &mut transition,
        &mut auto_remove,
    );
    assert_eq!(*active.active(&base), base);
    assert!(active.is_active_state(HOVER_ASPECT));
    assert_eq!(transition.as_ref().unwrap().to, hover);
    assert_eq!(transition.as_ref().unwrap().duration, 100);
    assert_eq!(auto_remove, None);

    assert!(effect_tick_system(
        &registry,
        HOVER_ASPECT,
        &mut active,
        &mut transition,
        &mut auto_remove,
        50
    ));
    let blended = gray(375_000);
    assert_eq!(*active.active(&base), blended);

    assert_eq!(
        on_mouse_move(&button, &mut hovered, Point::new(150, 111)),
        HoverChange::Exited(HoverExitEvent { element: 7 })
    );
    hover_effect_transition_out_system(
        &registry,
        &effect,
        &base,
        &mut active,
        &mut transition,
        &mut auto_remove,
    );
    assert_eq!(*active.active(&base), blended);
    assert_eq!(transition.as_ref().unwrap().from, None);
    assert_eq!(transition.as_ref().unwrap().to, base);
    assert_eq!(transition.as_ref().unwrap().duration, 200);
    assert_eq!(auto_remove, Some(AutoRemove { elapsed: 0, duration: 200 }));

    assert!(effect_tick_system(
        &registry,
        HOVER_ASPECT,
        &mut active,
        &mut transition,
        &mut auto_remove,
        0
    ));
    assert_eq!(transition.as_ref().unwrap().from, Some(blended));
    assert_eq!(*active.active(&base), blended);

    assert!(effect_tick_system(
        &registry,
        HOVER_ASPECT,
        &mut active,
        &mut transition,
        &mut auto_remove,
        100
    ));
    assert_eq!(*active.active(&base), gray(437_500));

    assert!(!effect_tick_system(
        &registry,
        HOVER_ASPECT,
        &mut active,
        &mut transition,
        &mut auto_remove,
        100
    ));
    assert_eq!(*active.active(&base), base);
    assert!(transition.is_none());
    assert!(active.is_active_state(HOVER_ASPECT));

    assert!(effect_tick_system(
        &registry,
        HOVER_ASPECT,
        &mut active,
        &mut transition,
        &mut auto_remove,
        1
    ));
    assert_eq!(active.states_len(), 1);
    assert_eq!(auto_remove, None);
    assert_eq!(*active.active(&base), base);

    assert!(!effect_tick_system(
        &registry,
        HOVER_ASPECT,
        &mut active,
        &mut transition,
        &mut auto_remove,
        1
    ));
}

#[test]
fn entering_again_while_fading_out_keeps_the_override() {
    let registry = registry();
    let base = gray(500_000);
    let effect = HoverEffectTransition::new(gray(250_000), 100, 100);
    let mut active = Active::new();
    let mut transition = None;
    let mut auto_remove = None;
    hover_effect_transition_in_system(
        &registry, &effect, &base, &mut active, &mut transition, &mut auto_remove,
    );
    effect_tick_system(&registry, HOVER_ASPECT, &mut active, &mut transition, &mut auto_remove, 100);
    assert_eq!(*active.active(&base), gray(250_000));
    hover_effect_transition_out_system(
        &registry, &effect, &base, &mut active, &mut transition, &mut auto_remove,
    );
    effect_tick_system(&registry, HOVER_ASPECT, &mut active, &mut transition, &mut auto_remove, 40);
    assert_eq!(*active.active(&base), gray(350_000));
    hover_effect_transition_in_system(
        &registry, &effect, &base, &mut active, &mut transition, &mut auto_remove,
    );
    assert_eq!(auto_remove, None);
    assert_eq!(*active.active(&base), gray(350_000));
    effect_tick_system(&registry, HOVER_ASPECT, &mut active, &mut transition, &mut auto_remove, 50);
    assert_eq!(*active.active(&base), gray(300_000));
    effect_tick_system(&registry, HOVER_ASPECT, &mut active, &mut transition, &mut auto_remove, 500);
    assert_eq!(*active.active(&base), gray(250_000));
    assert_eq!(active.states_len(), 2);
}

#[test]
fn a_covered_override_leaves_at_once() {
    let registry = registry();
    let base = gray(500_000);
    let hover = HoverEffectTransition::new(gray(250_000), 100, 100);
    let click = ClickEffectTransition::new(gray(100_000), 10, 10);
    let mut active = Active::new();
    let (mut hover_transition, mut hover_remove) = (None, None);
    let (mut click_transition, mut click_remove) = (None, None);

    hover_effect_transition_in_system(
        &registry, &hover, &base, &mut active, &mut hover_transition, &mut hover_remove,
    );
    effect_tick_system(
        &registry, HOVER_ASPECT, &mut active, &mut hover_transition, &mut hover_remove, 100,
    );
    click_effect_transition_in_system(
        &registry, &click, &base, &mut active, &mut click_transition, &mut click_remove,
    );
    assert_eq!(*active.active(&base), gray(250_000));
    effect_tick_system(
        &registry, CLICK_ASPECT, &mut active, &mut click_transition, &mut click_remove, 10,
    );
    assert_eq!(*active.active(&base), gray(100_000));

    assert!(hover_effect_transition_out_system(
        &registry, &hover, &base, &mut active, &mut hover_transition, &mut hover_remove,
    ));
    assert_eq!(active.states_len(), 2);
    assert!(!hover_effect_transition_out_system(
        &registry, &hover, &base, &mut active, &mut hover_transition, &mut hover_remove,
    ));
    assert!(hover_transition.is_none());
    assert_eq!(hover_remove, None);
    assert_eq!(*active.active(&base), gray(100_000));

    click_effect_transition_out_system(
        &registry, &click, &base, &mut active, &mut click_transition, &mut click_remove,
    );
    assert_eq!(click_transition.as_ref().unwrap().to, base);
    effect_tick_system(
        &registry, CLICK_ASPECT, &mut active, &mut click_transition, &mut click_remove, 5,
    );
    assert_eq!(*active.active(&base), gray(300_000));
}
