//! The card that shows one GIF.

use crate::client::containers::favorites::{FavoritesEvent, FavoritesEventView};
use crate::client::state::{ModelEvent, ModelEventView};
use crate::common::records::{GiphyGif, GiphyGifView};
use vstd::prelude::*;

verus! {

/// What a card shows of a GIF, and the events that its controls send.
#[derive(Debug)]
pub struct GifCard {
    pub id: String,
    pub title: String,
    pub url: String,
    /// Whether the star is filled.
    pub is_saved: bool,
    /// The text of the category field.
    pub category_val: String,
    /// Whether the category field is disabled.
    pub is_category_disabled: bool,
    /// The event that a click on the star sends.
    pub on_save: ModelEvent,
    /// The event that leaving the category field sends.
    pub on_categorize: ModelEvent,
}

/// What a [`GifCard`] holds.
pub struct GifCardView {
    pub id: Seq<char>,
    pub title: Seq<char>,
    pub url: Seq<char>,
    pub is_saved: bool,
    pub category_val: Seq<char>,
    pub is_category_disabled: bool,
    pub on_save: ModelEventView,
    pub on_categorize: ModelEventView,
}

impl View for GifCard {
    type V = GifCardView;

    open spec fn view(&self) -> GifCardView {
        GifCardView {
            id: self.id@,
            title: self.title@,
            url: self.url@,
            is_saved: self.is_saved,
            category_val: self.category_val@,
            is_category_disabled: self.is_category_disabled,
            on_save: self.on_save@,
            on_categorize: self.on_categorize@,
        }
    }
}

impl DeepView for GifCard {
    type V = GifCardView;

    open spec fn deep_view(&self) -> GifCardView {
        self@
    }
}

/// The card of `gif`. The category field shows the pending edit, else the
/// category of the GIF, else nothing, and it is open only for a saved GIF.
pub open spec fn card_of(gif: GiphyGifView, catg_input: Option<Seq<char>>, on_save: ModelEventView)
    -> GifCardView {
    GifCardView {
        id: gif.id,
        title: gif.title,
        url: gif.url,
        is_saved: gif.is_saved,
        category_val: match catg_input {
            Some(text) => text,
            None => match gif.category {
                Some(category) => category,
                None => Seq::empty(),
            },
        },
        is_category_disabled: !gif.is_saved,
        on_save,
        on_categorize: ModelEventView::Favorites(FavoritesEventView::Categorize(gif.id)),
    }
}

/// A card displaying information on a Giphy GIF.
pub fn gifcard(gif: &GiphyGif, catg_input: Option<&String>, on_save: ModelEvent) -> (card: GifCard)
    ensures
        card@ == card_of(gif@, catg_input.deep_view(), on_save@),
{
    let category_val = match catg_input {
        Some(text) => text.clone(),
        None => match &gif.category {
            Some(category) => category.clone(),
            None => String::new(),
        },
    };
    GifCard {
        id: gif.id.clone(),
        title: gif.title.clone(),
        url: gif.url.clone(),
        is_saved: gif.is_saved,
        category_val,
        is_category_disabled: !gif.is_saved,
        on_save,
        on_categorize: ModelEvent::Favorites(FavoritesEvent::Categorize(gif.id.clone())),
    }
}

} // verus!
