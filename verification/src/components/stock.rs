//! Any one of the stock components, for a registry that holds several kinds.

use vstd::prelude::*;
use crate::component::Component;
use crate::components::label::Label;
use crate::components::list::{List, ListModel};
use crate::event::Event;
use crate::frame::{Frame, Rect, WidgetView};
use crate::msg::{Msg, MsgView, Payload, PayloadView};
use crate::props::{Props, PropsView};

verus! {

/// A label or a list.
pub enum StockComponent {
    Label(Label),
    List(List),
}

/// The model of a [`StockComponent`]: the model of the component it holds.
pub enum StockModel {
    Label(PropsView),
    List(ListModel),
}

impl View for StockComponent {
    type V = StockModel;

    open spec fn view(&self) -> StockModel {
        match self {
            StockComponent::Label(c) => StockModel::Label(c@),
            StockComponent::List(c) => StockModel::List(c@),
        }
    }
}

impl Component for StockComponent {
    open spec fn props_of(m: StockModel) -> PropsView {
        match m {
            StockModel::Label(c) => Label::props_of(c),
            StockModel::List(c) => List::props_of(c),
        }
    }

    open spec fn updated(m: StockModel, props: PropsView) -> StockModel {
        match m {
            StockModel::Label(c) => StockModel::Label(Label::updated(c, props)),
            StockModel::List(c) => StockModel::List(List::updated(c, props)),
        }
    }

    open spec fn handled(m: StockModel, ev: Event) -> StockModel {
        match m {
            StockModel::Label(c) => StockModel::Label(Label::handled(c, ev)),
            StockModel::List(c) => StockModel::List(List::handled(c, ev)),
        }
    }

    open spec fn reply(m: StockModel, ev: Event) -> MsgView {
        match m {
            StockModel::Label(c) => Label::reply(c, ev),
            StockModel::List(c) => List::reply(c, ev),
        }
    }

    open spec fn state_of(m: StockModel) -> PayloadView {
        match m {
            StockModel::Label(c) => Label::state_of(c),
            StockModel::List(c) => List::state_of(c),
        }
    }

    open spec fn activated(m: StockModel) -> StockModel {
        match m {
            StockModel::Label(c) => StockModel::Label(Label::activated(c)),
            StockModel::List(c) => StockModel::List(List::activated(c)),
        }
    }

    open spec fn blurred(m: StockModel) -> StockModel {
        match m {
            StockModel::Label(c) => StockModel::Label(Label::blurred(c)),
            StockModel::List(c) => StockModel::List(List::blurred(c)),
        }
    }

    open spec fn drawing(m: StockModel) -> Option<WidgetView> {
        match m {
            StockModel::Label(c) => Label::drawing(c),
            StockModel::List(c) => List::drawing(c),
        }
    }

    open spec fn fits(m: StockModel) -> bool {
        match m {
            StockModel::Label(c) => Label::fits(c),
            StockModel::List(c) => List::fits(c),
        }
    }

    proof fn lemma_fits_kept(m: StockModel, ev: Event, props: PropsView) {
        match m {
            StockModel::Label(c) => Label::lemma_fits_kept(c, ev, props),
            StockModel::List(c) => List::lemma_fits_kept(c, ev, props),
        }
    }

    proof fn lemma_update_round_trip(m: StockModel) {
        match m {
            StockModel::Label(c) => Label::lemma_update_round_trip(c),
            StockModel::List(c) => List::lemma_update_round_trip(c),
        }
    }

    fn render(&self, frame: &mut Frame, area: Rect) {
        match self {
            StockComponent::Label(c) => c.render(frame, area),
            StockComponent::List(c) => c.render(frame, area),
        }
    }

    fn update(&mut self, props: Props) -> (msg: Msg) {
        match self {
            StockComponent::Label(c) => c.update(props),
            StockComponent::List(c) => c.update(props),
        }
    }

    fn get_props(&self) -> (props: Props) {
        match self {
            StockComponent::Label(c) => c.get_props(),
            StockComponent::List(c) => c.get_props(),
        }
    }

    fn on(&mut self, ev: Event) -> (msg: Msg) {
        match self {
            StockComponent::Label(c) => c.on(ev),
            StockComponent::List(c) => c.on(ev),
        }
    }

    fn get_state(&self) -> (payload: Payload) {
        match self {
            StockComponent::Label(c) => c.get_state(),
            StockComponent::List(c) => c.get_state(),
        }
    }

    fn blur(&mut self) {
        match self {
            StockComponent::Label(c) => c.blur(),
            StockComponent::List(c) => c.blur(),
        }
    }

    fn active(&mut self) {
        match self {
            StockComponent::Label(c) => c.active(),
            StockComponent::List(c) => c.active(),
        }
    }
}

} // verus!
