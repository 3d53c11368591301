//! What holds of the list and of the registry in every state.

use vstd::prelude::*;
use crate::component::Component;
use crate::components::list::{
    clamped, is_scrollable, max_step_of, step_ahead, step_behind, List, ListModel,
};
use crate::event::{Event, KeyCode, KeyEvent};
use crate::msg::MsgView;
use crate::props::PropsView;
use crate::registry::{blur_focused, event_reply, event_routed, focus_moved, RegistryModel};

verus! {

/// One thing that can happen to a list.
pub enum ListStep {
    /// An input event arrives.
    On(Event),
    /// The properties are replaced.
    Update(PropsView),
    /// The list is told that it has the focus.
    Active,
    /// The list is told that it lost the focus.
    Blur,
}

/// The state of a list after one step.
pub open spec fn list_step(m: ListModel, step: ListStep) -> ListModel {
    match step {
        ListStep::On(ev) => m.handled(ev),
        ListStep::Update(props) => m.updated(props),
        ListStep::Active => m.activated(),
        ListStep::Blur => m.blurred(),
    }
}

/// The state of a list after a sequence of steps.
pub open spec fn list_run(m: ListModel, steps: Seq<ListStep>) -> ListModel
    decreases steps.len(),
{
    if steps.len() == 0 {
        m
    } else {
        list_step(list_run(m, steps.drop_last()), steps.last())
    }
}

/// A step keeps the state of a list fitting: the length is the number of
/// rows, and the selected index names a row or is 0 in an empty list.
pub proof fn lemma_list_step_keeps_inv(m: ListModel, step: ListStep)
    requires
        m.inv(),
    ensures
        list_step(m, step).inv(),
{
}

/// Every state that a list reaches from a new one fits: the selected index is
/// 0 in an empty list and names a row in any other.
pub proof fn lemma_list_reachable_inv(props: PropsView, steps: Seq<ListStep>)
    ensures
        list_run(ListModel::initial(props), steps).inv(),
        ({
            let m = list_run(ListModel::initial(props), steps);
            &&& 0 <= m.index
            &&& m.len == 0 ==> m.index == 0
            &&& m.len > 0 ==> m.index < m.len
        }),
    decreases steps.len(),
{
    if steps.len() > 0 {
        lemma_list_reachable_inv(props, steps.drop_last());
        lemma_list_step_keeps_inv(
            list_run(ListModel::initial(props), steps.drop_last()),
            steps.last(),
        );
    }
}

/// A property push fits the state to the new properties whatever the state
/// was before.
pub proof fn lemma_list_update_fits(m: ListModel, props: PropsView)
    ensures
        m.updated(props).inv(),
        m.updated(props).index == clamped(m.index, m.updated(props).len),
{
}

/// After a blur the list has no focus, and a second blur changes nothing.
pub proof fn lemma_list_blur_idempotent(m: ListModel)
    ensures
        !m.blurred().focus,
        m.blurred().blurred() == m.blurred(),
{
}

/// Giving the focus to a list that is not scrollable changes nothing: it
/// never sets the focus.
pub proof fn lemma_list_active_needs_scrollable(m: ListModel)
    requires
        !is_scrollable(m.props),
    ensures
        m.activated() == m,
        !m.focus ==> !m.activated().focus,
{
}

/// A list that was never scrollable never has the focus, whatever else
/// happens to it: events, focus notifications, or property pushes that leave
/// it not scrollable.
pub proof fn lemma_list_never_focused(props: PropsView, steps: Seq<ListStep>)
    requires
        !is_scrollable(props),
        forall|i: int|
            0 <= i < steps.len() ==> match #[trigger] steps[i] {
                ListStep::Update(p) => !is_scrollable(p),
                _ => true,
            },
    ensures
        !list_run(ListModel::initial(props), steps).focus,
        !is_scrollable(list_run(ListModel::initial(props), steps).props),
    decreases steps.len(),
{
    if steps.len() > 0 {
        let before = steps.drop_last();
        assert forall|i: int| 0 <= i < before.len() implies match #[trigger] before[i] {
            ListStep::Update(p) => !is_scrollable(p),
            _ => true,
        } by {
            assert(before[i] == steps[i]);
        }
        lemma_list_never_focused(props, before);
        assert(steps.last() == steps[steps.len() - 1]);
    }
}

/// Pushing to a list the properties that it has changes nothing: not its
/// state, and so not what it draws.
pub proof fn lemma_list_update_round_trip(m: ListModel)
    requires
        m.inv(),
    ensures
        m.updated(List::props_of(m)) == m,
        List::drawing(List::updated(m, List::props_of(m))) == List::drawing(m),
{
}

/// Pushing to a mounted component, through the registry, the properties
/// that the registry reports for it leaves what every component draws as it
/// is.
pub proof fn lemma_registry_update_round_trip<C: Component>(
    m: RegistryModel<C::V>,
    id: Seq<char>,
    other: Seq<char>,
)
    requires
        m.has(id),
        m.has(other),
        C::fits(m.components[id]),
    ensures
        ({
            let pushed = m.components.insert(
                id,
                C::updated(m.components[id], C::props_of(m.components[id])),
            );
            C::drawing(pushed[other]) == C::drawing(m.components[other])
        }),
{
    C::lemma_update_round_trip(m.components[id]);
}

/// At the first row Up changes nothing, at the last row Down changes
/// nothing, and End in an empty list selects index 0.
pub proof fn lemma_list_boundaries(m: ListModel, key: KeyEvent)
    requires
        m.inv(),
    ensures
        key.code == KeyCode::Up && m.index == 0 ==> m.handled(Event::Key(key)) == m,
        key.code == KeyCode::Down && m.index + 1 == m.len ==> m.handled(Event::Key(key)) == m,
        key.code == KeyCode::End && m.len == 0 ==> m.handled(Event::Key(key)).index == 0,
        key.code == KeyCode::End && m.len == 0 ==> m.handled(Event::Key(key)) == m,
{
}

/// Where the list takes navigation keys, each key moves the selection by
/// its formula; the list is not empty here.
pub proof fn lemma_list_moves(m: ListModel)
    requires
        m.inv(),
        m.len > 0,
    ensures
        m.moved(KeyCode::Down) == vstd::math::min(m.index as int + 1, m.len - 1),
        m.moved(KeyCode::Up) == vstd::math::max(m.index - 1, 0),
        m.moved(KeyCode::PageDown) == m.index + vstd::math::min(
            max_step_of(m.props) as int,
            m.len - 1 - m.index,
        ),
        m.moved(KeyCode::PageUp) == m.index - vstd::math::min(
            max_step_of(m.props) as int,
            m.index as int,
        ),
        m.moved(KeyCode::Home) == 0,
        m.moved(KeyCode::End) == m.len - 1,
{
}

/// A list that does not take navigation keys (it is not scrollable, or it
/// has no focus) keeps its state at every event, and every key is echoed,
/// moved or not.
pub proof fn lemma_list_ignores_without_focus(m: ListModel, ev: Event)
    ensures
        !m.navigable() ==> m.handled(ev) == m,
        match ev {
            Event::Key(key) => List::reply(m, ev) == MsgView::OnKey(key),
            _ => List::reply(m, ev) == MsgView::NoOp && m.handled(ev) == m,
        },
{
}

/// The registry after the component under `id` has been unmounted.
pub open spec fn unmounted<M>(m: RegistryModel<M>, id: Seq<char>) -> RegistryModel<M> {
    RegistryModel {
        components: m.components.remove(id),
        focus: if m.focus == Some(id) {
            None
        } else {
            m.focus
        },
    }
}

/// Once the component that had the focus is unmounted, no component has it:
/// an event changes nothing, and the answer is that nothing happened.
pub proof fn lemma_unmount_focused_silences<C: Component>(
    m: RegistryModel<C::V>,
    id: Seq<char>,
    ev: Event,
)
    requires
        m.focus == Some(id),
    ensures
        unmounted(m, id).focus is None,
        event_routed::<C>(unmounted(m, id), ev) == unmounted(m, id),
        event_reply::<C>(unmounted(m, id), ev) == MsgView::NoOp,
{
}

/// Mounting, unmounting and moving the focus keep the focus, if any, on a
/// mounted component.
pub proof fn lemma_registry_focus_is_mounted<C: Component>(
    m: RegistryModel<C::V>,
    id: Seq<char>,
    c: C::V,
    ev: Event,
)
    requires
        m.inv(),
    ensures
        (RegistryModel { components: m.components.insert(id, c), ..m }).inv(),
        unmounted(m, id).inv(),
        m.has(id) ==> focus_moved::<C>(m, id).inv() && focus_moved::<C>(m, id).focus == Some(id),
        event_routed::<C>(m, ev).inv(),
{
}

/// Whether every mounted component is in a state that fits its properties.
pub open spec fn all_fit<C: Component>(m: RegistryModel<C::V>) -> bool {
    forall|id: Seq<char>| m.has(id) ==> C::fits(#[trigger] m.components[id])
}

/// In a registry whose components were mounted in fitting states, every
/// component stays in a fitting state whatever the registry is asked to do:
/// route an event, move the focus, push properties, mount a fitting
/// component or unmount one.
pub proof fn lemma_registry_keeps_fitting<C: Component>(
    m: RegistryModel<C::V>,
    id: Seq<char>,
    ev: Event,
    props: PropsView,
    c: C::V,
)
    requires
        all_fit::<C>(m),
    ensures
        all_fit::<C>(event_routed::<C>(m, ev)),
        m.has(id) ==> all_fit::<C>(focus_moved::<C>(m, id)),
        m.has(id) ==> all_fit::<C>(
            RegistryModel {
                components: m.components.insert(id, C::updated(m.components[id], props)),
                ..m
            },
        ),
        C::fits(c) ==> all_fit::<C>(RegistryModel { components: m.components.insert(id, c), ..m }),
        all_fit::<C>(unmounted(m, id)),
{
    match m.focused() {
        Some(f) => {
            C::lemma_fits_kept(m.components[f], ev, props);
        },
        None => {},
    }
    if m.has(id) {
        C::lemma_fits_kept(m.components[id], ev, props);
        let blurred = blur_focused::<C>(m);
        C::lemma_fits_kept(blurred[id], ev, props);
        let moved = focus_moved::<C>(m, id);
        assert forall|k: Seq<char>| moved.has(k) implies C::fits(#[trigger] moved.components[k]) by {
            if k != id {
                assert(m.has(k));
                assert(C::fits(m.components[k]));
            }
        }
    }
    let after = unmounted(m, id);
    assert forall|k: Seq<char>| after.has(k) implies C::fits(#[trigger] after.components[k]) by {
        assert(m.has(k));
    }
    let routed = event_routed::<C>(m, ev);
    assert forall|k: Seq<char>| routed.has(k) implies C::fits(#[trigger] routed.components[k]) by {
        assert(m.has(k));
        assert(C::fits(m.components[k]));
    }
}

/// Moving the focus tells no component but the one that had it and the one
/// that gets it: every other component stays as it is.
pub proof fn lemma_focus_moves_once<C: Component>(
    m: RegistryModel<C::V>,
    id: Seq<char>,
    other: Seq<char>,
)
    requires
        m.has(id),
        m.has(other),
        other != id,
        m.focus != Some(other),
    ensures
        focus_moved::<C>(m, id).components[other] == m.components[other],
        focus_moved::<C>(m, id).components.dom() == m.components.dom(),
{
    assert(focus_moved::<C>(m, id).components.dom() =~= m.components.dom());
}

} // verus!
