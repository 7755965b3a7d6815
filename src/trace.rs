use vstd::prelude::*;

verus! {

/// The color a light path ends on, before the attenuations gathered along the
/// way are applied to it.
#[derive(Debug, Clone, Copy, PartialEq, Eq, Structural)]
pub enum PathEnd {
    /// No light: the bounce budget ran out, or a material absorbed the ray.
    Black,
    /// The ray left the scene: the sky gradient seen along its direction.
    Sky,
}

/// What became of the current ray when it was traced through the scene.
#[derive(Debug, Clone, Copy, PartialEq, Eq, Structural)]
pub enum PathEvent {
    /// The ray hit nothing.
    Missed,
    /// The ray hit a surface whose material absorbed it.
    Absorbed,
    /// The ray hit a surface whose material sent out a new ray, with an
    /// attenuation to apply.
    Scattered,
}

/// What a path tracer does next.
#[derive(Debug, Clone, Copy, PartialEq, Eq, Structural)]
pub enum PathAction {
    /// Trace the current ray through the scene, with `depth` bounces left.
    Trace { depth: usize },
    /// Stop: the path ends on this color.
    Finish(PathEnd),
}

/// The action that starts a path with a budget of `depth` bounces.
pub open spec fn start_spec(depth: usize) -> PathAction {
    if depth == 0 {
        PathAction::Finish(PathEnd::Black)
    } else {
        PathAction::Trace { depth }
    }
}

/// The action that follows `event` on a ray traced with `depth` bounces left.
pub open spec fn step_spec(depth: usize, event: PathEvent) -> PathAction {
    match event {
        PathEvent::Missed => PathAction::Finish(PathEnd::Sky),
        PathEvent::Absorbed => PathAction::Finish(PathEnd::Black),
        PathEvent::Scattered => start_spec((depth - 1) as usize),
    }
}

/// Starts a path with a budget of `depth` bounces: with no budget left the
/// path is black at once and the scene is never queried.
pub fn begin_path(depth: usize) -> (r: PathAction)
    ensures
        r == start_spec(depth),
        depth == 0 ==> r == PathAction::Finish(PathEnd::Black),
{
    if depth == 0 {
        PathAction::Finish(PathEnd::Black)
    } else {
        PathAction::Trace { depth }
    }
}

/// Decides what follows `event` on a ray traced with `depth` bounces left: a
/// miss ends on the sky, an absorption ends black, and a scattered ray is
/// traced in turn with one bounce fewer.
pub fn next_action(depth: usize, event: PathEvent) -> (r: PathAction)
    requires
        depth > 0,
    ensures
        r == step_spec(depth, event),
        r matches PathAction::Trace { depth: d } ==> d == depth - 1,
{
    match event {
        PathEvent::Missed => PathAction::Finish(PathEnd::Sky),
        PathEvent::Absorbed => PathAction::Finish(PathEnd::Black),
        PathEvent::Scattered => begin_path(depth - 1),
    }
}

/// The recursive light-transport rule: how a path with `depth` bounces left
/// ends when its rays meet `events` in turn, with the number of attenuations
/// multiplied into its color; `None` when the events run out before the path
/// ends.
pub open spec fn path_outcome(depth: nat, events: Seq<PathEvent>) -> Option<(PathEnd, nat)>
    decreases depth,
{
    if depth == 0 {
        Some((PathEnd::Black, 0))
    } else if events.len() == 0 {
        None
    } else {
        match events[0] {
            PathEvent::Missed => Some((PathEnd::Sky, 0)),
            PathEvent::Absorbed => Some((PathEnd::Black, 0)),
            PathEvent::Scattered => match path_outcome((depth - 1) as nat, events.drop_first()) {
                Some((end, n)) => Some((end, n + 1)),
                None => None,
            },
        }
    }
}

/// How the state machine ends from `action` when the traced rays meet
/// `events` in turn, with the number of scattered rays it passed through.
pub open spec fn run_machine(action: PathAction, events: Seq<PathEvent>) -> Option<(PathEnd, nat)>
    decreases events.len(),
{
    match action {
        PathAction::Finish(end) => Some((end, 0)),
        PathAction::Trace { depth } => {
            if events.len() == 0 {
                None
            } else {
                match run_machine(step_spec(depth, events[0]), events.drop_first()) {
                    Some((end, n)) => Some(
                        (end, if events[0] == PathEvent::Scattered { n + 1 } else { n }),
                    ),
                    None => None,
                }
            }
        },
    }
}

/// Driving the state machine from `begin_path` with `next_action` ends every
/// path exactly as the recursive light-transport rule does, with the same
/// number of attenuations.
pub proof fn lemma_machine_matches_recursion(depth: usize, events: Seq<PathEvent>)
    ensures
        run_machine(start_spec(depth), events) == path_outcome(depth as nat, events),
    decreases depth,
{
    if depth > 0 && events.len() > 0 {
        let rest = events.drop_first();
        lemma_machine_matches_recursion((depth - 1) as usize, rest);
        let next = step_spec(depth, events[0]);
        match events[0] {
            PathEvent::Missed => assert(run_machine(next, rest) == Some((PathEnd::Sky, 0nat))),
            PathEvent::Absorbed => assert(run_machine(next, rest) == Some((PathEnd::Black, 0nat))),
            PathEvent::Scattered => assert(next == start_spec((depth - 1) as usize)),
        }
    }
}

/// A path with no bounces left is black, whatever its ray and the scene, and
/// no attenuation is applied to it.
pub proof fn lemma_depth_zero_is_black(events: Seq<PathEvent>)
    ensures
        path_outcome(0, events) == Some((PathEnd::Black, 0nat)),
        run_machine(start_spec(0), events) == Some((PathEnd::Black, 0nat)),
{
}

/// A path never multiplies in more attenuations than its bounce budget.
pub proof fn lemma_bounces_within_budget(depth: nat, events: Seq<PathEvent>)
    ensures
        path_outcome(depth, events) matches Some((_, n)) ==> n <= depth,
    decreases depth,
{
    if depth > 0 && events.len() > 0 {
        lemma_bounces_within_budget((depth - 1) as nat, events.drop_first());
    }
}

} // verus!
