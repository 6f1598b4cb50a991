//! How a cached subtree decides it must be re-recorded.
//!
//! The content runs against a private shell; the host reads back what it
//! recorded as a [`ShellReport`] and hands it to [`observe`]. Points in time
//! are nanoseconds on one monotonic clock.

use vstd::prelude::*;

verus! {

/// What the content's local shell reported for one event.
#[derive(Debug, Clone, Copy, PartialEq, Eq, Default)]
pub struct Reaction {
    /// Requested the next frame, captured the event, invalidated layout or
    /// widgets, or published a message.
    pub reacted: bool,
    /// Requested a redraw at a time that is already due.
    pub redraw_due: bool,
    /// A stored deadline was reached on this redraw.
    pub deadline_reached: bool,
    /// The child's mouse interaction differs from the previous frame.
    pub interaction_changed: bool,
}

/// The redraw a shell asked for.
#[derive(Debug, Clone, Copy, PartialEq, Eq)]
pub enum RedrawRequest {
    /// Redraw on the next frame.
    NextFrame,
    /// Redraw at this point in time.
    At(u64),
    /// No redraw asked for.
    Wait,
}

/// What a content's local shell recorded for one event, as plain values.
#[derive(Debug, Clone, Copy, PartialEq, Eq)]
pub struct ShellReport {
    /// The redraw the content asked for.
    pub redraw: RedrawRequest,
    /// The content captured the event.
    pub captured: bool,
    /// The content invalidated the layout.
    pub layout_invalid: bool,
    /// The content invalidated the widget tree.
    pub widgets_invalid: bool,
    /// The content published at least one message.
    pub published: bool,
}

/// Per-subtree bookkeeping the observer updates.
#[derive(Debug, Clone, Copy, PartialEq, Eq, Default)]
pub struct Activity {
    /// Whether the content reacted or was still animating on the previous
    /// frame. Drives a single trailing re-record on the falling edge.
    pub was_active: bool,
    /// Earliest redraw time the content asked for that has not yet been
    /// honoured.
    pub deadline: Option<u64>,
}

/// Whether any kind of activity happened.
pub open spec fn is_active(r: Reaction) -> bool {
    r.reacted || r.redraw_due || r.deadline_reached || r.interaction_changed
}

/// Pure decision: `(invalidate now, new was_active)`. The trailing frame
/// (`was_active` without activity) gives one final re-record so the texture
/// holds the content's resting pose.
pub fn invalidation_decision(reaction: Reaction, was_active: bool) -> (decision: (bool, bool))
    ensures
        decision == decide(reaction, was_active),
{
    let active = reaction.reacted || reaction.redraw_due || reaction.deadline_reached
        || reaction.interaction_changed;
    (active || was_active, active)
}

/// Whether the report counts as a reaction.
pub open spec fn reacted(report: ShellReport) -> bool {
    report.redraw == RedrawRequest::NextFrame || report.captured || report.layout_invalid
        || report.widgets_invalid || report.published
}

/// Whether the stored deadline is reached on a redraw at `now`.
pub open spec fn deadline_reached(now: Option<u64>, deadline: Option<u64>) -> bool {
    match (now, deadline) {
        (Some(n), Some(d)) => n >= d,
        _ => false,
    }
}

/// Whether the redraw the report asks for is already due at `now`.
pub open spec fn redraw_due(report: ShellReport, now: Option<u64>) -> bool {
    match (report.redraw, now) {
        (RedrawRequest::At(t), Some(n)) => t <= n,
        _ => false,
    }
}

/// The deadline kept after the observation: a reached deadline is cleared,
/// then a future redraw request is folded in as the earliest pending time.
pub open spec fn next_deadline(report: ShellReport, now: Option<u64>, deadline: Option<u64>) -> Option<
    u64,
> {
    let kept = if deadline_reached(now, deadline) { None } else { deadline };
    match report.redraw {
        RedrawRequest::At(t) => if redraw_due(report, now) {
            kept
        } else {
            match kept {
                Some(d) => Some(if d <= t { d } else { t }),
                None => Some(t),
            }
        },
        _ => kept,
    }
}

/// Reads what the content recorded for one event, folds it into `activity`,
/// and returns whether the subtree must be re-recorded. `redraw_now` is the
/// time of the redraw this event is, if it is one.
pub fn observe(report: ShellReport, redraw_now: Option<u64>, interaction_changed: bool, activity: &mut Activity) -> (invalidate: bool)
    ensures
        // Anything the content did counts as activity and re-records the
        // subtree: a next-frame request, a captured event, an invalidated
        // layout or widget tree, a published message, a changed mouse
        // interaction.
        report.redraw == RedrawRequest::NextFrame || report.captured || report.layout_invalid
            || report.widgets_invalid || report.published || interaction_changed ==> invalidate
            && final(activity).was_active,
        // A redraw that is due, or a stored deadline that is reached, counts
        // as activity too.
        (report.redraw matches RedrawRequest::At(t) && redraw_now matches Some(n) && t <= n) || (
        old(activity).deadline matches Some(d) && redraw_now matches Some(n) && n >= d)
            ==> invalidate && final(activity).was_active,
        // The frame after activity re-records once more.
        old(activity).was_active ==> invalidate,
        // A quiet frame after a quiet frame re-records nothing: no request,
        // no capture, no invalidation, no message, no deadline reached.
        !old(activity).was_active && report.redraw != RedrawRequest::NextFrame && !report.captured
            && !report.layout_invalid && !report.widgets_invalid && !report.published
            && !interaction_changed && !(report.redraw matches RedrawRequest::At(t) && redraw_now
            matches Some(n) && t <= n) && !(old(activity).deadline matches Some(d) && redraw_now
            matches Some(n) && n >= d) ==> !invalidate && !final(activity).was_active,
        ({
            let reaction = Reaction {
                reacted: reacted(report),
                redraw_due: redraw_due(report, redraw_now),
                deadline_reached: deadline_reached(redraw_now, old(activity).deadline),
                interaction_changed,
            };
            &&& invalidate == (is_active(reaction) || old(activity).was_active)
            &&& final(activity).was_active == is_active(reaction)
            &&& final(activity).deadline == next_deadline(
                report,
                redraw_now,
                old(activity).deadline,
            )
        }),
{
    let reacted = match report.redraw {
        RedrawRequest::NextFrame => true,
        _ => false,
    } || report.captured || report.layout_invalid || report.widgets_invalid || report.published;

    let deadline_reached = match (redraw_now, activity.deadline) {
        (Some(now), Some(deadline)) => now >= deadline,
        _ => false,
    };

    if deadline_reached {
        activity.deadline = None;
    }

    let mut redraw_due = false;
    if let RedrawRequest::At(t) = report.redraw {
        match redraw_now {
            Some(now) if t <= now => redraw_due = true,
            _ => {
                activity.deadline = Some(
                    match activity.deadline {
                        Some(d) => if d <= t { d } else { t },
                        None => t,
                    },
                );
            },
        }
    }

    let (invalidate, was_active) = invalidation_decision(
        Reaction { reacted, redraw_due, deadline_reached, interaction_changed },
        activity.was_active,
    );

    activity.was_active = was_active;
    invalidate
}

/// The frame with no activity of any kind.
pub open spec fn quiet() -> Reaction {
    Reaction { reacted: false, redraw_due: false, deadline_reached: false, interaction_changed: false }
}

/// The decision `invalidation_decision` makes.
pub open spec fn decide(reaction: Reaction, was_active: bool) -> (bool, bool) {
    (is_active(reaction) || was_active, is_active(reaction))
}

/// Activity invalidates; the first quiet frame after it re-records once
/// more (the trailing frame); the quiet frame after that does not.
pub proof fn law_trailing_frame_happens_once(reaction: Reaction, was_active: bool)
    requires
        is_active(reaction),
    ensures
        decide(reaction, was_active) == (true, true),
        decide(quiet(), true) == (true, false),
        decide(quiet(), false) == (false, false),
{
}

/// A stored deadline only ever moves earlier until it is reached: a new
/// future redraw request can bring it forward, never push it back.
pub proof fn law_deadlines_only_move_earlier(report: ShellReport, now: Option<u64>, deadline: u64)
    requires
        !deadline_reached(now, Some(deadline)),
    ensures
        next_deadline(report, now, Some(deadline)) matches Some(next) && next <= deadline,
{
}

} // verus!
