use auravibe::reaction::{invalidation_decision, observe, Activity, Reaction, RedrawRequest, ShellReport};

fn quiet() -> Reaction {
    Reaction::default()
}

fn report(redraw: RedrawRequest) -> ShellReport {
    ShellReport {
        redraw,
        captured: false,
        layout_invalid: false,
        widgets_invalid: false,
        published: false,
    }
}

#[test]
fn a_quiet_frame_does_not_invalidate() {
    assert_eq!(invalidation_decision(quiet(), false), (false, false));
}

#[test]
fn a_reaction_invalidates_and_arms_the_trailing_frame() {
    let reaction = Reaction {
        reacted: true,
        ..quiet()
    };
    assert_eq!(invalidation_decision(reaction, false), (true, true));
    // The next quiet frame re-records once more, then stops.
    assert_eq!(invalidation_decision(quiet(), true), (true, false));
    assert_eq!(invalidation_decision(quiet(), false), (false, false));
}

#[test]
fn deadline_and_interaction_changes_count_as_activity() {
    for reaction in [
        Reaction {
            deadline_reached: true,
            ..quiet()
        },
        Reaction {
            redraw_due: true,
            ..quiet()
        },
        Reaction {
            interaction_changed: true,
            ..quiet()
        },
    ] {
        assert!(invalidation_decision(reaction, false).0);
    }
}

#[test]
fn a_future_deadline_is_stored_and_fires_when_due() {
    let mut activity = Activity::default();
    let now = 1_000_u64;
    let later = now + 50_000_000;

    assert!(!observe(report(RedrawRequest::At(later)), Some(now), false, &mut activity));
    assert_eq!(activity.deadline, Some(later));

    assert!(
        observe(report(RedrawRequest::Wait), Some(later), false, &mut activity),
        "the stored deadline fires on the frame that reaches it"
    );
    assert_eq!(activity.deadline, None);
}

#[test]
fn the_earliest_pending_deadline_is_kept() {
    let mut activity = Activity::default();
    assert!(!observe(report(RedrawRequest::At(90)), Some(10), false, &mut activity));
    assert!(!observe(report(RedrawRequest::At(50)), Some(20), false, &mut activity));
    assert!(!observe(report(RedrawRequest::At(70)), None, false, &mut activity));
    assert_eq!(activity.deadline, Some(50));
}

#[test]
fn a_next_frame_request_invalidates_then_trails_once() {
    let mut activity = Activity::default();
    assert!(observe(report(RedrawRequest::NextFrame), None, false, &mut activity));
    assert!(activity.was_active);
    assert!(observe(report(RedrawRequest::Wait), None, false, &mut activity));
    assert!(!activity.was_active);
    assert!(!observe(report(RedrawRequest::Wait), None, false, &mut activity));
}

#[test]
fn captured_and_published_events_count_as_reactions() {
    let mut activity = Activity::default();
    let captured = ShellReport {
        captured: true,
        ..report(RedrawRequest::Wait)
    };
    assert!(observe(captured, None, false, &mut activity));
    let mut fresh = Activity::default();
    let published = ShellReport {
        published: true,
        ..report(RedrawRequest::Wait)
    };
    assert!(observe(published, None, false, &mut fresh));
    let mut moved = Activity::default();
    assert!(observe(report(RedrawRequest::Wait), None, true, &mut moved));
}

#[test]
fn a_due_redraw_request_is_not_stored() {
    let mut activity = Activity::default();
    assert!(observe(report(RedrawRequest::At(5)), Some(5), false, &mut activity));
    assert_eq!(activity.deadline, None);
}
