//! The `Canvas` component, and how its hit regions answer pointer events: which region a press
//! arms, and which callbacks a press, a release, a move or a scroll runs.

use vstd::prelude::*;
use crate::registry::{
    constructor_table, kinds, method_table, ArgumentDescriptor, ArgumentSchema, ComponentDescriptor,
    ComponentKind, ComponentRegistry, ConstructorDescriptor, ConstructorRow, MethodDescriptor,
    MethodRow,
};
use crate::rules::{ConstructorRule, MethodRule};

verus! {

/// A pointer event as a hit region sees it.
#[derive(Clone, Copy, Debug, PartialEq, Eq, Structural)]
pub enum PointerEvent {
    /// A mouse button went down.
    Down,
    /// A mouse button came up.
    Up,
    /// The wheel or the touchpad scrolled.
    Scroll,
}

/// The managed callback tokens of a hit region, each present when the region
/// declared that callback.
#[derive(Clone, Copy, Debug, PartialEq, Eq, Structural)]
pub struct RegionTokens {
    pub press: Option<u64>,
    pub release: Option<u64>,
    pub click: Option<u64>,
    pub hover_enter: Option<u64>,
    pub hover_exit: Option<u64>,
    pub on_move: Option<u64>,
    pub scroll: Option<u64>,
}

/// What the host does for a hit region in answer to an event.
#[derive(Clone, Copy, Debug, PartialEq, Eq, Structural)]
pub enum RegionAction {
    /// Invokes the managed callback with the region's id as its text.
    Invoke(u64),
    /// Invokes the managed callback with the region's id, the pointer's x and
    /// its y, separated by tabs.
    InvokeAtPointer(u64),
    /// Invokes the managed callback with the region's id and the scroll
    /// delta's x and y, separated by tabs.
    InvokeWithDelta(u64),
    /// Reports a click with this token to the host's click callback.
    Click(u64),
    /// Asks the host to render again.
    Invalidate,
}

/// The action of an optional token: none when the region declared no such
/// callback.
pub open spec fn token_actions(token: Option<u64>, make: spec_fn(u64) -> RegionAction) -> Seq<
    RegionAction,
> {
    match token {
        Some(t) => seq![make(t)],
        None => seq![],
    }
}

/// How a hit region answers a pointer event: the region armed for a click
/// afterwards, and the actions, in order.
///
/// `armed` is the region that the latest mouse-down armed, if any; `region`
/// is this region and `over_region` whether the pointer is over it. A
/// mouse-down over the region arms it and runs its press callback. A mouse-up
/// while this region is armed disarms it; over the region it runs the release
/// callback, then reports the click, then asks for a render. A scroll over
/// the region runs its scroll callback. Anything else changes nothing.
pub open spec fn pointer_step(
    armed: Option<u64>,
    event: PointerEvent,
    over_region: bool,
    region: u64,
    spec: RegionTokens,
) -> (Option<u64>, Seq<RegionAction>) {
    match event {
        PointerEvent::Down => if over_region {
            (Some(region), token_actions(spec.press, |t: u64| RegionAction::Invoke(t)))
        } else {
            (armed, seq![])
        },
        PointerEvent::Up => if armed != Some(region) {
            (armed, seq![])
        } else if !over_region {
            (None, seq![])
        } else {
            (
                None,
                token_actions(spec.release, |t: u64| RegionAction::Invoke(t)) + token_actions(
                    spec.click,
                    |t: u64| RegionAction::Click(t),
                ) + seq![RegionAction::Invalidate],
            )
        },
        PointerEvent::Scroll => if over_region {
            (armed, token_actions(spec.scroll, |t: u64| RegionAction::InvokeWithDelta(t)))
        } else {
            (armed, seq![])
        },
    }
}

fn push_token(actions: &mut Vec<RegionAction>, token: Option<u64>, action: Option<RegionAction>)
    requires
        token is Some <==> action is Some,
    ensures
        final(actions)@ == old(actions)@ + match action {
            Some(a) => seq![a],
            None => Seq::<RegionAction>::empty(),
        },
{
    if let Some(a) = action {
        actions.push(a);
    }
}

/// Answers a pointer event on a hit region: the region armed for a click
/// afterwards, and the actions for the host to perform, in order.
pub fn region_pointer_step(
    armed: Option<u64>,
    event: PointerEvent,
    over_region: bool,
    region: u64,
    spec: RegionTokens,
) -> (step: (Option<u64>, Vec<RegionAction>))
    ensures
        step.0 == pointer_step(armed, event, over_region, region, spec).0,
        step.1@ == pointer_step(armed, event, over_region, region, spec).1,
{
    let mut actions: Vec<RegionAction> = Vec::new();
    match event {
        PointerEvent::Down => {
            if !over_region {
                return (armed, actions);
            }
            push_token(&mut actions, spec.press, map_invoke(spec.press));
            proof {
                assert(actions@ =~= pointer_step(armed, event, over_region, region, spec).1);
            }
            (Some(region), actions)
        },
        PointerEvent::Up => {
            let armed_here = match armed {
                Some(a) => a == region,
                None => false,
            };
            if !armed_here {
                return (armed, actions);
            }
            if !over_region {
                return (None, actions);
            }
            push_token(&mut actions, spec.release, map_invoke(spec.release));
            push_token(&mut actions, spec.click, map_click(spec.click));
            actions.push(RegionAction::Invalidate);
            proof {
                assert(actions@ =~= pointer_step(armed, event, over_region, region, spec).1);
            }
            (None, actions)
        },
        PointerEvent::Scroll => {
            if over_region {
                push_token(&mut actions, spec.scroll, map_delta(spec.scroll));
                proof {
                    assert(actions@ =~= pointer_step(armed, event, over_region, region, spec).1);
                }
            }
            (armed, actions)
        },
    }
}

fn map_invoke(token: Option<u64>) -> (a: Option<RegionAction>)
    ensures
        match token {
            Some(t) => a == Some(RegionAction::Invoke(t)),
            None => a is None,
        },
{
    match token {
        Some(t) => Some(RegionAction::Invoke(t)),
        None => None,
    }
}

fn map_click(token: Option<u64>) -> (a: Option<RegionAction>)
    ensures
        match token {
            Some(t) => a == Some(RegionAction::Click(t)),
            None => a is None,
        },
{
    match token {
        Some(t) => Some(RegionAction::Click(t)),
        None => None,
    }
}

fn map_delta(token: Option<u64>) -> (a: Option<RegionAction>)
    ensures
        match token {
            Some(t) => a == Some(RegionAction::InvokeWithDelta(t)),
            None => a is None,
        },
{
    match token {
        Some(t) => Some(RegionAction::InvokeWithDelta(t)),
        None => None,
    }
}

/// A mouse-up reports a click for a region exactly when the latest mouse-down
/// armed that region and the pointer is over it, and the region declared a
/// click; the mouse-up leaves the region disarmed; the release callback runs
/// before the click, and the render request comes last.
pub proof fn lemma_click_law(armed: Option<u64>, over_region: bool, region: u64, spec: RegionTokens)
    ensures
        ({
            let (after, actions) = pointer_step(armed, PointerEvent::Up, over_region, region, spec);
            &&& forall|t: u64| #[trigger]
                actions.contains(RegionAction::Click(t)) <==> (armed == Some(region) && over_region
                    && spec.click == Some(t))
            &&& after != Some(region)
            &&& armed == Some(region) ==> after is None
            &&& armed != Some(region) ==> after == armed
            &&& forall|i: int, j: int|
                0 <= i < actions.len() && 0 <= j < actions.len() && actions[i] is Invoke
                    && actions[j] is Click ==> i < j
            &&& actions.len() > 0 ==> actions.last() == RegionAction::Invalidate
        }),
{
    let (after, actions) = pointer_step(armed, PointerEvent::Up, over_region, region, spec);
    if armed == Some(region) && over_region {
        let r = token_actions(spec.release, |t: u64| RegionAction::Invoke(t));
        let c = token_actions(spec.click, |t: u64| RegionAction::Click(t));
        assert(actions == r + c + seq![RegionAction::Invalidate]);
        assert forall|t: u64| #[trigger]
            actions.contains(RegionAction::Click(t)) implies spec.click == Some(t) by {
            let k = choose|k: int| 0 <= k < actions.len() && actions[k] == RegionAction::Click(t);
            if k < r.len() {
                assert(r[k] is Invoke);
            } else if k < r.len() + c.len() {
                assert(c[k - r.len()] == RegionAction::Click(t));
            }
        }
        if let Some(t) = spec.click {
            assert(actions[r.len() as int] == RegionAction::Click(t));
        }
    }
}

/// A mouse-down over a region followed by a mouse-up over it reports that
/// region's click, whatever was armed before.
pub proof fn lemma_press_then_release_clicks(armed: Option<u64>, region: u64, spec: RegionTokens)
    requires
        spec.click is Some,
    ensures
        ({
            let (after_down, _) = pointer_step(armed, PointerEvent::Down, true, region, spec);
            let (after_up, actions) = pointer_step(after_down, PointerEvent::Up, true, region, spec);
            &&& actions.contains(RegionAction::Click(spec.click->0))
            &&& after_up is None
        }),
{
    lemma_click_law(Some(region), true, region, spec);
}

/// How a hit region answers a pointer move: whether it counts as hovered
/// afterwards, and the actions, in order.
///
/// A region with none of the hover or move callbacks does not follow the
/// pointer. Otherwise the pointer entering it runs the enter callback, the
/// pointer leaving it runs the exit callback, and while the pointer is over
/// it the move callback runs after those.
pub open spec fn hover_step(was_hovered: bool, over_region: bool, spec: RegionTokens) -> (
    bool,
    Seq<RegionAction>,
) {
    if spec.hover_enter is None && spec.hover_exit is None && spec.on_move is None {
        (was_hovered, seq![])
    } else {
        let crossing = if over_region && !was_hovered {
            token_actions(spec.hover_enter, |t: u64| RegionAction::Invoke(t))
        } else if !over_region && was_hovered {
            token_actions(spec.hover_exit, |t: u64| RegionAction::Invoke(t))
        } else {
            seq![]
        };
        let moving = if over_region {
            token_actions(spec.on_move, |t: u64| RegionAction::InvokeAtPointer(t))
        } else {
            seq![]
        };
        (over_region, crossing + moving)
    }
}

/// Answers a pointer move on a hit region: whether it counts as hovered
/// afterwards, and the actions for the host to perform, in order.
pub fn region_hover_step(was_hovered: bool, over_region: bool, spec: RegionTokens) -> (step: (
    bool,
    Vec<RegionAction>,
))
    ensures
        step.0 == hover_step(was_hovered, over_region, spec).0,
        step.1@ == hover_step(was_hovered, over_region, spec).1,
{
    let mut actions: Vec<RegionAction> = Vec::new();
    if spec.hover_enter.is_none() && spec.hover_exit.is_none() && spec.on_move.is_none() {
        return (was_hovered, actions);
    }
    if over_region && !was_hovered {
        push_token(&mut actions, spec.hover_enter, map_invoke(spec.hover_enter));
    } else if !over_region && was_hovered {
        push_token(&mut actions, spec.hover_exit, map_invoke(spec.hover_exit));
    }
    if over_region {
        let a = match spec.on_move {
            Some(t) => Some(RegionAction::InvokeAtPointer(t)),
            None => None,
        };
        push_token(&mut actions, spec.on_move, a);
    }
    proof {
        assert(actions@ =~= hover_step(was_hovered, over_region, spec).1);
    }
    (over_region, actions)
}

/// Entering a region and then leaving it runs its enter callback and then its
/// exit callback, and leaves it not hovered.
pub proof fn lemma_enter_then_leave(spec: RegionTokens)
    requires
        spec.hover_enter is Some,
        spec.hover_exit is Some,
    ensures
        ({
            let (in_after, entering) = hover_step(false, true, spec);
            let (out_after, leaving) = hover_step(in_after, false, spec);
            &&& entering[0] == RegionAction::Invoke(spec.hover_enter->0)
            &&& leaving == seq![RegionAction::Invoke(spec.hover_exit->0)]
            &&& in_after && !out_after
        }),
{
    let (in_after, entering) = hover_step(false, true, spec);
    assert(entering[0] == RegionAction::Invoke(spec.hover_enter->0));
    let (out_after, leaving) = hover_step(in_after, false, spec);
    assert(leaving =~= seq![RegionAction::Invoke(spec.hover_exit->0)]);
}

/// The move callback runs only while the pointer is over the region: a move
/// with the pointer elsewhere runs it for no token, and a move over a region
/// that follows the pointer runs its move callback, after any enter callback.
pub proof fn lemma_move_callback_only_over_region(
    was_hovered: bool,
    over_region: bool,
    spec: RegionTokens,
)
    ensures
        !over_region ==> forall|t: u64|
            !#[trigger] hover_step(was_hovered, over_region, spec).1.contains(
                RegionAction::InvokeAtPointer(t),
            ),
        over_region && spec.on_move is Some ==> hover_step(was_hovered, over_region, spec).1.last()
            == RegionAction::InvokeAtPointer(spec.on_move->0),
        !over_region ==> !hover_step(was_hovered, over_region, spec).0 || (
        spec.hover_enter is None && spec.hover_exit is None && spec.on_move is None),
{
    let (after, actions) = hover_step(was_hovered, over_region, spec);
    if !over_region {
        assert forall|t: u64| !#[trigger] actions.contains(RegionAction::InvokeAtPointer(t)) by {
            if actions.contains(RegionAction::InvokeAtPointer(t)) {
                let k = choose|k: int|
                    0 <= k < actions.len() && actions[k] == RegionAction::InvokeAtPointer(t);
                assert(actions[k] is Invoke);
            }
        }
    }
}

/// The pointer entering a region runs its enter callback first, leaving it
/// runs its exit callback alone, and a move that neither enters nor leaves
/// runs neither; the region counts as hovered afterwards exactly when the
/// pointer is over it (for a region that follows the pointer).
pub proof fn lemma_hover_crossings(was_hovered: bool, over_region: bool, spec: RegionTokens)
    requires
        spec.hover_enter is Some || spec.hover_exit is Some || spec.on_move is Some,
    ensures
        hover_step(was_hovered, over_region, spec).0 == over_region,
        over_region && !was_hovered && spec.hover_enter is Some ==> hover_step(
            was_hovered,
            over_region,
            spec,
        ).1[0] == RegionAction::Invoke(spec.hover_enter->0),
        !over_region && was_hovered ==> hover_step(was_hovered, over_region, spec).1
            == token_actions(spec.hover_exit, |t: u64| RegionAction::Invoke(t)),
        over_region == was_hovered ==> forall|t: u64|
            !#[trigger] hover_step(was_hovered, over_region, spec).1.contains(
                RegionAction::Invoke(t),
            ),
{
    let (after, actions) = hover_step(was_hovered, over_region, spec);
    if over_region == was_hovered {
        assert forall|t: u64| !#[trigger] actions.contains(RegionAction::Invoke(t)) by {
            if actions.contains(RegionAction::Invoke(t)) {
                let k = choose|k: int| 0 <= k < actions.len() && actions[k] == RegionAction::Invoke(t);
                assert(actions[k] is InvokeAtPointer);
            }
        }
    }
    if !over_region && was_hovered {
        assert(actions =~= token_actions(spec.hover_exit, |t: u64| RegionAction::Invoke(t)));
    }
}

/// A press over a region arms that region and runs its press callback; a
/// press elsewhere changes nothing for it; a scroll never changes what is
/// armed and runs the scroll callback only over the region.
pub proof fn lemma_press_and_scroll(armed: Option<u64>, over_region: bool, region: u64, spec: RegionTokens)
    ensures
        over_region ==> pointer_step(armed, PointerEvent::Down, over_region, region, spec) == (
            Some(region),
            token_actions(spec.press, |t: u64| RegionAction::Invoke(t)),
        ),
        !over_region ==> pointer_step(armed, PointerEvent::Down, over_region, region, spec) == (
            armed,
            Seq::<RegionAction>::empty(),
        ),
        pointer_step(armed, PointerEvent::Scroll, over_region, region, spec).0 == armed,
        pointer_step(armed, PointerEvent::Scroll, over_region, region, spec).1 == (if over_region {
            token_actions(spec.scroll, |t: u64| RegionAction::InvokeWithDelta(t))
        } else {
            Seq::<RegionAction>::empty()
        }),
{
}

/// The constructors of `Canvas`: export name, argument slots and rule.
#[verifier::opaque]
pub open spec fn canvas_constructors() -> Seq<ConstructorRow> {
    seq![
        (
            "Canvas"@,
            seq![("id"@, ArgumentSchema::String)],
            ConstructorRule::NonBlankOnly { error: "Canvas expects a non-empty id" },
        ),
    ]
}

/// The methods of `Canvas`: name, argument slots, rule and documentation.
#[verifier::opaque]
pub open spec fn canvas_methods() -> Seq<MethodRow> {
    seq![
        ("clip"@, seq![], MethodRule::Unit, "Clips painting to the canvas bounds."@),
        (
            "prepaint"@,
            seq![("callback"@, ArgumentSchema::Callback)],
            MethodRule::Callback { error: "Canvas.prepaint(callback) expects a callback" },
            "Runs each prepaint with the canvas bounds and returns paint commands and hit regions."@,
        ),
        (
            "measure"@,
            seq![("callback"@, ArgumentSchema::Callback)],
            MethodRule::Callback { error: "Canvas.measure(callback) expects a callback" },
            "Measures the canvas at layout time; the callback returns a `Text` node whose data is `width\\theight`."@,
        ),
    ]
}

/// Whether `d` is the `Canvas` descriptor: its constructors, methods and documentation.
pub open spec fn is_canvas_descriptor(d: ComponentDescriptor) -> bool {
    &&& d.kind == ComponentKind::Canvas
    &&& d.documentation@ == "A self-painted surface. Its children are paint primitives and hit regions, painted in declaration order against the canvas bounds."@
    &&& constructor_table(d.constructors@) == canvas_constructors()
    &&& method_table(d.methods@) == canvas_methods()
}

fn canvas_descriptor() -> (d: ComponentDescriptor)
    ensures
        is_canvas_descriptor(d),
{
    let d = ComponentDescriptor::new(ComponentKind::Canvas)
        .with_constructors(
            vec![
                ConstructorDescriptor::new(
                    "Canvas",
                    vec![ArgumentDescriptor::new("id", ArgumentSchema::String)],
                    ConstructorRule::NonBlankOnly { error: "Canvas expects a non-empty id" },
                ),
            ],
        )
        .with_methods(
            vec![
                MethodDescriptor::new(
                    "clip",
                    Vec::new(),
                    MethodRule::Unit,
                ).with_documentation("Clips painting to the canvas bounds."),
                MethodDescriptor::new(
                    "prepaint",
                    vec![ArgumentDescriptor::new("callback", ArgumentSchema::Callback)],
                    MethodRule::Callback { error: "Canvas.prepaint(callback) expects a callback" },
                ).with_documentation(
                    "Runs each prepaint with the canvas bounds and returns paint commands and hit regions.",
                ),
                MethodDescriptor::new(
                    "measure",
                    vec![ArgumentDescriptor::new("callback", ArgumentSchema::Callback)],
                    MethodRule::Callback { error: "Canvas.measure(callback) expects a callback" },
                ).with_documentation(
                    "Measures the canvas at layout time; the callback returns a `Text` node whose data is `width\\theight`.",
                ),
            ],
        )
        .with_documentation(
            "A self-painted surface. Its children are paint primitives and hit regions, painted in declaration order against the canvas bounds.",
        );
    proof {
        reveal(canvas_constructors);
        assert(constructor_table(d.constructors@) =~~= canvas_constructors());
        reveal(canvas_methods);
        assert(method_table(d.methods@) =~~= canvas_methods());
    }
    d
}

/// Registers `Canvas` after the components already registered.
pub fn register(registry: &mut ComponentRegistry)
    requires
        !kinds(old(registry)@).contains(ComponentKind::Canvas),
    ensures
        final(registry)@.len() == old(registry)@.len() + 1,
        final(registry)@.take(old(registry)@.len() as int) == old(registry)@,
        is_canvas_descriptor(final(registry)@[old(registry)@.len() as int]),
{
    let ghost start = registry@;
    let canvas = canvas_descriptor();
    let canvas_registered = registry.register(canvas);
    proof {
        assert(canvas_registered is Ok);
    }
    proof {
        assert(registry@.take(start.len() as int) =~= start);
    }
}

} // verus!
