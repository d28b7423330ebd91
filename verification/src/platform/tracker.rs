//! The raw-key tracker that both platforms keep beside the composition
//! buffer, and the decision it hands back to the event loop.
use vstd::prelude::*;
use crate::de::methods::{run, IncrementalBuffer};
use crate::text::{pop_last, string_clear, string_pop};

verus! {

broadcast use vstd::string::group_string_axioms;

/// What the event loop does with the event that was just handled.
pub enum KeyOutcome {
    /// Let the event through unchanged.
    Pass,
    /// Swallow the event.
    Block,
    /// Swallow the event and switch the engine on or off.
    ToggleEngine,
    /// Swallow the key event, erase `delete_count` characters before the
    /// cursor and type `text` in their place.
    Replace { delete_count: usize, text: String },
}

/// Feeds every character of `input` to `buffer`, takes the composed text and
/// empties the buffer again.
pub fn handle_transform(buffer: &mut IncrementalBuffer, input: &str) -> (result: String)
    ensures
        result@ == run(old(buffer).rules(), old(buffer).history(), old(buffer).output(), input@).1,
        final(buffer).rules() == old(buffer).rules(),
        final(buffer).history() == Seq::<char>::empty(),
        final(buffer).output() == Seq::<char>::empty(),
{
    let ghost rules = buffer.rules();
    let ghost h0 = buffer.history();
    let ghost o0 = buffer.output();
    for c in it: input.chars()
        invariant
            buffer.rules() == rules,
            it.seq() == input@,
            (buffer.history(), buffer.output()) == run(rules, h0, o0, input@.take(it.index())),
    {
        proof {
            assert(input@.take(it.index() + 1).drop_last() =~= input@.take(it.index()));
        }
        buffer.push(c);
    }
    proof {
        assert(input@.take(input@.len() as int) =~= input@);
    }
    let result = buffer.view().to_string();
    buffer.clear();
    result
}

/// Forgets every tracked key.
pub fn clear_tracker(tracker: &mut String)
    ensures
        final(tracker)@ == Seq::<char>::empty(),
{
    string_clear(tracker);
}

/// Forgets the most recently tracked key, as a backspace erases it.
pub fn handle_backspace(tracker: &mut String)
    ensures
        final(tracker)@ == pop_last(old(tracker)@),
{
    string_pop(tracker);
}

} // verus!
