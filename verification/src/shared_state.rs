//! The values the server holds for its badges: the latest text and the
//! latest interval of the light. A request handler sets them; every server
//! session reads them. Reading takes nothing away: a value read twice with
//! no write in between is the same both times.

use vstd::prelude::*;
use crate::message::text_view;
use crate::text::badge_text;
use crate::text::format_text_for_badge;
use crate::text::is_badge_text;

verus! {

/// The latest values, each unset until it is first written.
pub struct SharedState {
    text: Option<String>,
    freq: Option<u32>,
}

/// The latest values as mathematical values.
pub struct Snapshot {
    /// The characters of the text, if one is set.
    pub text: Option<Seq<char>>,
    /// The interval in milliseconds, if one is set.
    pub freq: Option<u32>,
}

impl View for SharedState {
    type V = Snapshot;

    closed spec fn view(&self) -> Snapshot {
        Snapshot { text: text_view(self.text), freq: self.freq }
    }
}

impl SharedState {
    /// The text that is stored is always one that a badge can show.
    #[verifier::type_invariant]
    spec fn shows(self) -> bool {
        self.text matches Some(t) ==> is_badge_text(t@)
    }

    /// A store in which nothing is set yet.
    pub fn new() -> (state: Self)
        ensures
            state@ == (Snapshot { text: None, freq: None }),
    {
        SharedState { text: None, freq: None }
    }
}

/// Sets the interval of the light. The text stays as it is.
pub fn set_frequency(state: &mut SharedState, freq: u32)
    ensures
        final(state)@ == (Snapshot { text: old(state)@.text, freq: Some(freq) }),
{
    proof {
        use_type_invariant(&*state);
    }
    state.freq = Some(freq);
}

/// The interval of the light, if one was set.
pub fn get_frequency(state: &SharedState) -> (freq: Option<u32>)
    ensures
        freq == state@.freq,
{
    state.freq
}

/// Sets the text to what a badge can show of `text`. The interval stays as
/// it is.
pub fn set_text(state: &mut SharedState, text: &str)
    ensures
        final(state)@ == (Snapshot { text: Some(badge_text(text@)), freq: old(state)@.freq }),
{
    let shown = format_text_for_badge(text);
    state.text = Some(shown);
}

/// The text, if one was set. It is always one that a badge can show.
pub fn get_text(state: &SharedState) -> (text: Option<String>)
    ensures
        text_view(text) == state@.text,
        text matches Some(t) ==> is_badge_text(t@),
{
    proof {
        use_type_invariant(state);
    }
    match &state.text {
        Some(t) => Some(t.clone()),
        None => None,
    }
}

} // verus!
