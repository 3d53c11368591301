//! The registry: the owner of the mounted components and of the focus.

use vstd::prelude::*;
use crate::component::Component;
use crate::event::Event;
use crate::frame::{DrawView, Frame, Rect};
use crate::msg::{Msg, MsgView, Payload};
use crate::named_map::{first_place, lemma_first_place_exists, NamedMap};
use crate::props::{PropPayload, PropPayloadView, Props, PropsView};

verus! {

/// Why the registry could not do what it was asked.
#[derive(Clone, Copy, Debug, PartialEq, Eq, Structural)]
pub enum RegistryError {
    /// No component is mounted under the identifier.
    NoSuchComponent,
}

/// The model of a [`Registry`]: the state of each mounted component by its
/// identifier, and the identifier that has the focus, if any.
pub struct RegistryModel<M> {
    pub components: Map<Seq<char>, M>,
    pub focus: Option<Seq<char>>,
}

impl<M> RegistryModel<M> {
    /// Whether a component is mounted under `id`.
    pub open spec fn has(self, id: Seq<char>) -> bool {
        self.components.dom().contains(id)
    }

    /// The identifier of the mounted component that has the focus, if any.
    pub open spec fn focused(self) -> Option<Seq<char>> {
        match self.focus {
            Some(id) => if self.has(id) {
                Some(id)
            } else {
                None
            },
            None => None,
        }
    }

    /// The focus, if any, is on a mounted component.
    pub open spec fn inv(self) -> bool {
        self.focus is Some ==> self.has(self.focus.unwrap())
    }
}

/// The components after the one that has the focus, if any, has been told
/// that it lost it.
pub open spec fn blur_focused<C: Component>(m: RegistryModel<C::V>) -> Map<Seq<char>, C::V> {
    match m.focused() {
        Some(id) => m.components.insert(id, C::blurred(m.components[id])),
        None => m.components,
    }
}

/// The registry after the focus has gone to the mounted component `id`: the
/// component that had it is told so, then `id` is told that it has it.
pub open spec fn focus_moved<C: Component>(m: RegistryModel<C::V>, id: Seq<char>) -> RegistryModel<
    C::V,
> {
    let blurred = blur_focused::<C>(m);
    RegistryModel { components: blurred.insert(id, C::activated(blurred[id])), focus: Some(id) }
}

/// The registry after the event `ev`: it goes to the component that has the
/// focus; without one nothing changes.
pub open spec fn event_routed<C: Component>(m: RegistryModel<C::V>, ev: Event) -> RegistryModel<
    C::V,
> {
    match m.focused() {
        Some(id) => RegistryModel {
            components: m.components.insert(id, C::handled(m.components[id], ev)),
            ..m
        },
        None => m,
    }
}

/// The message that answers the event `ev`: that of the component that has
/// the focus; without one, that nothing happened.
pub open spec fn event_reply<C: Component>(m: RegistryModel<C::V>, ev: Event) -> MsgView {
    match m.focused() {
        Some(id) => C::reply(m.components[id], ev),
        None => MsgView::NoOp,
    }
}

/// The properties `props` with `value` under `name` in the payload map.
pub open spec fn with_attr(props: PropsView, name: Seq<char>, value: PropPayloadView) -> PropsView {
    PropsView { own: props.own.insert(name, value), ..props }
}

/// Owns the mounted components, each under its identifier, and knows which
/// one has the focus. At most one has it.
pub struct Registry<C: Component> {
    components: NamedMap<C>,
    focus: Option<String>,
}

impl<C: Component> View for Registry<C> {
    type V = RegistryModel<C::V>;

    closed spec fn view(&self) -> RegistryModel<C::V> {
        RegistryModel {
            components: self.components@,
            focus: match self.focus {
                Some(id) => Some(id@),
                None => None,
            },
        }
    }
}

impl<C: Component> Registry<C> {
    /// The identifiers of the mounted components, in the order in which they
    /// were first mounted.
    pub closed spec fn ids(&self) -> Seq<Seq<char>> {
        self.components.names()
    }

    /// No identifier is mounted twice, and the focus, if any, is on a
    /// mounted component.
    pub closed spec fn inv(&self) -> bool {
        &&& self.components.wf()
        &&& self@.inv()
    }

    /// What `inv` says of the model.
    pub proof fn lemma_inv(&self)
        requires
            self.inv(),
        ensures
            self@.inv(),
            self.ids().no_duplicates(),
            forall|id: Seq<char>| #[trigger] self@.has(id) <==> self.ids().contains(id),
    {
        self.components.lemma_dom();
    }

    /// A registry without components and without focus.
    pub fn new() -> (r: Self)
        ensures
            r@.components == Map::<Seq<char>, C::V>::empty(),
            r@.focus is None,
            r.ids() == Seq::<Seq<char>>::empty(),
            r.inv(),
    {
        let r = Registry { components: NamedMap::new(), focus: None };
        assert(r.ids() =~= Seq::<Seq<char>>::empty());
        r
    }

    /// The number of mounted components.
    pub fn len(&self) -> (n: usize)
        ensures
            n == self.ids().len(),
    {
        self.components.len()
    }

    /// The identifier at place `i` of the order in which the components were
    /// first mounted, if there are that many.
    pub fn id_at(&self, i: usize) -> (r: Option<&str>)
        ensures
            match r {
                Some(id) => i < self.ids().len() && id@ == self.ids()[i as int],
                None => i >= self.ids().len(),
            },
    {
        if i < self.components.len() {
            Some(self.components.name_at(i).as_str())
        } else {
            None
        }
    }

    /// Whether a component is mounted under `id`.
    pub fn contains(&self, id: &str) -> (r: bool)
        ensures
            r == self@.has(id@),
    {
        self.components.contains_key(id)
    }

    /// The identifier that has the focus, if any.
    pub fn focus(&self) -> (r: Option<&str>)
        ensures
            match r {
                Some(id) => Some(id@),
                None => None,
            } == self@.focus,
    {
        match &self.focus {
            Some(id) => Some(id.as_str()),
            None => None,
        }
    }

    /// Mounts `component` under `id`. A component that was mounted under
    /// `id` is discarded; the focus stays where it is.
    pub fn mount(&mut self, id: &str, component: C)
        ensures
            final(self)@.components == old(self)@.components.insert(id@, component@),
            final(self)@.focus == old(self)@.focus,
            final(self).ids() == if old(self)@.has(id@) {
                old(self).ids()
            } else {
                old(self).ids().push(id@)
            },
            old(self).inv() ==> final(self).inv(),
    {
        proof {
            self.components.lemma_dom();
        }
        self.components.insert(id, component);
        proof {
            assert(!old(self)@.has(id@) ==> self.ids() =~= old(self).ids().push(id@));
        }
    }

    /// Unmounts the component under `id`, if there is one. If it had the
    /// focus, no component has it afterwards.
    pub fn unmount(&mut self, id: &str)
        ensures
            final(self)@.components == old(self)@.components.remove(id@),
            final(self)@.focus == if old(self)@.focus == Some(id@) {
                None
            } else {
                old(self)@.focus
            },
            old(self).inv() ==> final(self).inv(),
            old(self).inv() ==> final(self).ids() == if old(self)@.has(id@) {
                old(self).ids().remove(first_place(old(self).ids(), id@))
            } else {
                old(self).ids()
            },
    {
        proof {
            self.components.lemma_dom();
        }
        self.components.remove(id);
        proof {
            if old(self).inv() && old(self)@.has(id@) {
                lemma_first_place_exists(old(self).ids(), id@);
                assert(self.ids() =~= old(self).ids().remove(first_place(old(self).ids(), id@)));
            }
        }
        let had_focus = match &self.focus {
            Some(f) => *f == id.to_owned(),
            None => false,
        };
        if had_focus {
            self.focus = None;
        }
    }

    /// The place of the component that has the focus, if one has it.
    fn focused_place(&self) -> (r: Option<usize>)
        ensures
            match r {
                Some(i) => self@.focused() is Some && i < self.components.pairs().len()
                    && self.components.names()[i as int] == self@.focused().unwrap() && first_place(
                    self.components.names(),
                    self@.focused().unwrap(),
                ) == i,
                None => self@.focused() is None,
            },
    {
        proof {
            self.components.lemma_dom();
        }
        match &self.focus {
            Some(f) => {
                let r = self.components.position(f.as_str());
                proof {
                    if r is Some {
                        lemma_first_place_exists(self.components.names(), f@);
                    }
                }
                r
            },
            None => None,
        }
    }

    /// The place of the component under `id`, if one is mounted there.
    fn place_of(&self, id: &str) -> (r: Option<usize>)
        ensures
            match r {
                Some(i) => self@.has(id@) && i < self.components.pairs().len()
                    && self.components.names()[i as int] == id@ && first_place(
                    self.components.names(),
                    id@,
                ) == i && self.components.items()[i as int]@ == self@.components[id@],
                None => !self@.has(id@),
            },
    {
        proof {
            self.components.lemma_dom();
        }
        let r = self.components.position(id);
        proof {
            if r is Some {
                lemma_first_place_exists(self.components.names(), id@);
                self.components.lemma_view_at(r.unwrap() as int);
            }
        }
        r
    }

    /// Takes the focus away from the component that has it, if any, and
    /// tells it so.
    pub fn blur(&mut self)
        ensures
            final(self)@.components == blur_focused::<C>(old(self)@),
            final(self)@.focus is None,
            final(self).ids() == old(self).ids(),
            old(self).inv() ==> final(self).inv(),
    {
        match self.focused_place() {
            Some(i) => {
                proof {
                    self.components.lemma_view_at(i as int);
                }
                let c = self.components.value_at_mut(i);
                c.blur();
            },
            None => {},
        }
        self.focus = None;
    }

    /// Gives the focus to the component under `id`: the component that had
    /// it is told that it lost it, then the one under `id` is told that it
    /// has it. Fails, and changes nothing, where no component is mounted
    /// under `id`.
    pub fn active(&mut self, id: &str) -> (r: Result<(), RegistryError>)
        ensures
            old(self)@.has(id@) ==> r is Ok && final(self)@ == focus_moved::<C>(old(self)@, id@),
            !old(self)@.has(id@) ==> r == Err::<(), RegistryError>(RegistryError::NoSuchComponent)
                && final(self)@ == old(self)@,
            final(self).ids() == old(self).ids(),
            old(self).inv() ==> final(self).inv(),
    {
        match self.place_of(id) {
            None => Err(RegistryError::NoSuchComponent),
            Some(i) => {
                match self.focused_place() {
                    Some(j) => {
                        proof {
                            self.components.lemma_view_at(j as int);
                        }
                        let c = self.components.value_at_mut(j);
                        c.blur();
                    },
                    None => {},
                }
                proof {
                    self.components.lemma_view_at(i as int);
                    assert(self.components@ == blur_focused::<C>(old(self)@));
                }
                let c = self.components.value_at_mut(i);
                c.active();
                self.focus = Some(id.to_owned());
                proof {
                    self.components.lemma_dom();
                }
                Ok(())
            },
        }
    }

    /// Hands the event `ev` to the component that has the focus and returns
    /// its answer. Without such a component nothing changes, and the answer
    /// is that nothing happened.
    pub fn on(&mut self, ev: Event) -> (msg: Msg)
        ensures
            final(self)@ == event_routed::<C>(old(self)@, ev),
            msg@ == event_reply::<C>(old(self)@, ev),
            final(self).ids() == old(self).ids(),
            old(self).inv() ==> final(self).inv(),
    {
        match self.focused_place() {
            Some(i) => {
                proof {
                    self.components.lemma_view_at(i as int);
                }
                let c = self.components.value_at_mut(i);
                let msg = c.on(ev);
                proof {
                    self.components.lemma_dom();
                }
                msg
            },
            None => Msg::NoOp,
        }
    }

    /// Replaces the properties of the component under `id` by `props` and
    /// returns its answer. Fails, and changes nothing, where no component is
    /// mounted under `id`.
    pub fn update(&mut self, id: &str, props: Props) -> (r: Result<Msg, RegistryError>)
        ensures
            match r {
                Ok(msg) => old(self)@.has(id@) && msg@ == MsgView::NoOp && final(self)@ == (
                RegistryModel {
                    components: old(self)@.components.insert(
                        id@,
                        C::updated(old(self)@.components[id@], props@),
                    ),
                    ..old(self)@
                }),
                Err(e) => !old(self)@.has(id@) && e == RegistryError::NoSuchComponent && final(self)@ == old(self)@,
            },
            final(self).ids() == old(self).ids(),
            old(self).inv() ==> final(self).inv(),
    {
        match self.place_of(id) {
            None => Err(RegistryError::NoSuchComponent),
            Some(i) => {
                let c = self.components.value_at_mut(i);
                let msg = c.update(props);
                proof {
                    self.components.lemma_dom();
                }
                Ok(msg)
            },
        }
    }

    /// A copy of the properties of the component under `id`. Fails where no
    /// component is mounted under `id`.
    pub fn get_props(&self, id: &str) -> (r: Result<Props, RegistryError>)
        ensures
            match r {
                Ok(props) => self@.has(id@) && props@ == C::props_of(self@.components[id@]),
                Err(e) => !self@.has(id@) && e == RegistryError::NoSuchComponent,
            },
    {
        match self.components.get(id) {
            Some(c) => Ok(c.get_props()),
            None => Err(RegistryError::NoSuchComponent),
        }
    }

    /// The value of the component under `id`, if one is mounted there.
    pub fn get_state(&self, id: &str) -> (r: Option<Payload>)
        ensures
            match r {
                Some(payload) => self@.has(id@) && payload@ == C::state_of(self@.components[id@]),
                None => !self@.has(id@),
            },
    {
        match self.components.get(id) {
            Some(c) => Some(c.get_state()),
            None => None,
        }
    }

    /// Puts `value` under `name` in the payload map of the component under
    /// `id` and leaves its other properties as they are. Fails, and changes
    /// nothing, where no component is mounted under `id`.
    pub fn attr(&mut self, id: &str, name: &str, value: PropPayload) -> (r: Result<
        (),
        RegistryError,
    >)
        ensures
            old(self)@.has(id@) ==> r is Ok && final(self)@ == (RegistryModel {
                components: old(self)@.components.insert(
                    id@,
                    C::updated(
                        old(self)@.components[id@],
                        with_attr(C::props_of(old(self)@.components[id@]), name@, value@),
                    ),
                ),
                ..old(self)@
            }),
            !old(self)@.has(id@) ==> r == Err::<(), RegistryError>(RegistryError::NoSuchComponent)
                && final(self)@ == old(self)@,
            final(self).ids() == old(self).ids(),
            old(self).inv() ==> final(self).inv(),
    {
        match self.place_of(id) {
            None => Err(RegistryError::NoSuchComponent),
            Some(i) => {
                let c = self.components.value_at_mut(i);
                let mut props = c.get_props();
                props.own.insert(name, value);
                c.update(props);
                proof {
                    self.components.lemma_dom();
                }
                Ok(())
            },
        }
    }

    /// Draws the component under `id` into `area`. Draws nothing where no
    /// component is mounted under `id`.
    pub fn render(&self, id: &str, frame: &mut Frame, area: Rect)
        ensures
            final(frame)@ == if self@.has(id@) {
                match C::drawing(self@.components[id@]) {
                    Some(widget) => old(frame)@.push(DrawView { area, widget }),
                    None => old(frame)@,
                }
            } else {
                old(frame)@
            },
    {
        match self.components.get(id) {
            Some(c) => {
                c.render(frame, area);
            },
            None => {},
        }
    }
}

} // verus!
