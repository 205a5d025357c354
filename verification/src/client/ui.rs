//! The state of the transient parts of the interface.

use crate::client::state::{Model, ModelView, Orders, Outcome, OrdersView};
use vstd::prelude::*;

verus! {

/// The possible UI update events.
#[derive(Clone, Copy, Debug, PartialEq, Eq, Structural)]
pub enum UIStateEvent {
    ToggleNavbar,
}

/// The state of various UI components.
#[derive(Clone, Copy, Debug, PartialEq, Eq, Structural)]
pub struct UIState {
    pub is_navbar_burger_active: bool,
}

impl Default for UIState {
    fn default() -> (ui: Self)
        ensures
            ui == (UIState { is_navbar_burger_active: false }),
    {
        Self { is_navbar_burger_active: false }
    }
}

/// What a UI event makes of the model: the navigation menu opens or closes.
pub open spec fn ui_step(event: UIStateEvent, model: ModelView, orders: OrdersView) -> Outcome {
    Outcome {
        model: ModelView {
            ui: UIState { is_navbar_burger_active: !model.ui.is_navbar_burger_active },
            ..model
        },
        orders,
    }
}

impl UIStateEvent {
    /// The reducer for this state model.
    pub fn reducer(event: Self, model: &mut Model, orders: &mut Orders)
        ensures
            final(model)@ == ui_step(event, old(model)@, old(orders)@).model,
            final(orders)@ == ui_step(event, old(model)@, old(orders)@).orders,
    {
        match event {
            UIStateEvent::ToggleNavbar => {
                model.ui.is_navbar_burger_active = !model.ui.is_navbar_burger_active;
            },
        }
    }
}

impl UIState {
    /// Revert this model back to a pristine state.
    pub fn pristine(&mut self)
        ensures
            *final(self) == (UIState { is_navbar_burger_active: false }),
    {
        self.is_navbar_burger_active = false;
    }
}

} // verus!
