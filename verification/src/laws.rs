use vstd::prelude::*;
use crate::app::{
    AppView, ComposeFocus, ComposeMode, MessageTableMode, Mode, body_loaded_step, clamp_selection,
    lemma_first_index_of_id_none, messages_loaded_step, next_index, previous_index, select_next,
    select_previous, send_message_step, sent_mode, tab_focus,
};
use crate::message::MessageView;
use crate::textbuffer::empty_text;

verus! {

/// Law: on a non-empty list, stepping the selection index forward and then
/// backward (or backward and then forward) from any index in range returns
/// to that index: the wrap-around stepping is a bijection on the rows.
pub proof fn lemma_next_previous_roundtrip(i: int, len: int)
    requires
        0 <= i < len,
    ensures
        previous_index(next_index(i, len), len) == i,
        next_index(previous_index(i, len), len) == i,
{
}

/// Law: the same round trip at the level of the controller state: in any
/// valid state with a selected row, moving the selection forward then
/// backward (or backward then forward) restores it.
pub proof fn lemma_select_roundtrip(s: AppView)
    requires
        s.wf(),
        s.table_selected is Some,
    ensures
        select_previous(select_next(s)).table_selected == s.table_selected,
        select_next(select_previous(s)).table_selected == s.table_selected,
{
}

/// Law: in a valid state with an empty list no row is selected, and moving
/// the selection in either direction is a no-op on it: it stays absent, and
/// nothing is there to index out of range.
pub proof fn lemma_empty_list_no_op(s: AppView)
    requires
        s.wf(),
        s.loaded.len() == 0,
    ensures
        s.table_selected is None,
        select_next(s).table_selected is None,
        select_previous(s).table_selected is None,
{
}

/// Law: on a list of `len` rows, both selection index steps always land
/// inside `[0, len)` whenever the index starts inside it.
pub proof fn lemma_index_in_range(i: int, len: int)
    requires
        len > 0,
        0 <= i < len,
    ensures
        0 <= next_index(i, len) < len,
        0 <= previous_index(i, len) < len,
{
}

/// Law: the same at the state level: in any valid state with a non-empty
/// list, moving the selection leaves a selected row inside the list.
pub proof fn lemma_selection_in_range(s: AppView)
    requires
        s.wf(),
        0 < s.loaded.len(),
    ensures
        match select_next(s).table_selected {
            Some(j) => (j as int) < s.loaded.len(),
            None => false,
        },
        match select_previous(s).table_selected {
            Some(j) => (j as int) < s.loaded.len(),
            None => false,
        },
{
}

/// Law: replacing the message list keeps the selection cursor clamped: it
/// is absent exactly when the new list is empty, and otherwise names a row
/// of the new list.
pub proof fn lemma_loaded_selection_clamped(s: AppView, msgs: Seq<MessageView>)
    ensures
        msgs.len() == 0 ==> messages_loaded_step(s, msgs).table_selected is None,
        msgs.len() > 0 ==> match messages_loaded_step(s, msgs).table_selected {
            Some(j) => (j as int) < msgs.len(),
            None => false,
        },
{
    assert(messages_loaded_step(s, msgs).table_selected == clamp_selection(
        s.table_selected,
        msgs.len() as int,
    ));
}

/// Law: a fetched body whose id matches no loaded message and not the cached
/// one leaves the cached message unchanged, yet still switches to the detail
/// mode when a table row is selected, and leaves the mode alone when none is.
pub proof fn lemma_body_unknown_id_noop(s: AppView, id: u64, body: Seq<char>)
    requires
        id != s.current_message.id,
        forall|j: int| 0 <= j < s.loaded.len() ==> s.loaded[j].id != id,
    ensures
        body_loaded_step(s, id, body).current_message == s.current_message,
        s.table_selected matches Some(t) ==> body_loaded_step(s, id, body).mode == Mode::Message(
            t,
        ),
        s.table_selected is None ==> body_loaded_step(s, id, body).mode == s.mode,
{
    lemma_first_index_of_id_none(s.loaded, id);
}

/// Law: a send outcome arriving while the controller is not showing the
/// message table is dropped: the mode does not change.
pub proof fn lemma_sent_outside_table_dropped(mode: Mode, outcome: Option<String>)
    requires
        !(mode matches Mode::MessageTable(_)),
    ensures
        sent_mode(mode, outcome) == mode,
{
}

/// Law: submitting the draft clears all three compose buffers and returns to
/// the plain table at once, whatever the send outcome later turns out to be.
pub proof fn lemma_send_clears_buffers(s: AppView)
    ensures
        send_message_step(s).compose_to == empty_text(),
        send_message_step(s).compose_subject == empty_text(),
        send_message_step(s).compose_body == empty_text(),
        send_message_step(s).mode == Mode::MessageTable(MessageTableMode::Normal),
{
}

/// Law: advancing the compose focus with `Tab` is cyclic: three steps from
/// any navigating field return to it.
pub proof fn lemma_tab_focus_cycle(f: ComposeFocus)
    requires
        f == ComposeFocus::To(ComposeMode::Normal) || f == ComposeFocus::Subject(
            ComposeMode::Normal,
        ) || f == ComposeFocus::Message(ComposeMode::Normal),
    ensures
        tab_focus(tab_focus(tab_focus(f))) == f,
{
}

} // verus!
