use vstd::prelude::*;

verus! {

// The thread that owns the clipboard selection must stay alive until another
// one takes its place (on Linux the selection is served by its owner). The
// slot below remembers the current owner; whatever leaves the slot is handed
// back to the caller, which lets it go.

/// The holder that leaves the slot, if any, as a sequence.
pub open spec fn handed_back<T>(h: Option<T>) -> Seq<T> {
    match h {
        Some(t) => seq![t],
        None => seq![],
    }
}

/// The slot after storing `holder`, and the holder handed back.
pub open spec fn after_replace<T>(slot: Option<T>, holder: T) -> (Option<T>, Option<T>) {
    (Some(holder), slot)
}

/// The slot after releasing its holder, and the holder handed back.
pub open spec fn after_release<T>(slot: Option<T>) -> (Option<T>, Option<T>) {
    (None, slot)
}

/// Releases the current holder of the clipboard: the slot is left empty and
/// the holder that was in it, if any, is handed back to be let go.
pub fn release_clipboard_thread<T>(slot: &mut Option<T>) -> (released: Option<T>)
    ensures
        (*final(slot), released) == after_release(*old(slot)),
        *final(slot) == None::<T>,
        released == *old(slot),
{
    slot.take()
}

/// Puts `holder` in the slot and hands back the holder it replaces, if any,
/// to be let go.
pub fn replace_clipboard_thread<T>(slot: &mut Option<T>, holder: T) -> (replaced: Option<T>)
    ensures
        (*final(slot), replaced) == after_replace(*old(slot), holder),
        *final(slot) == Some(holder),
        replaced == *old(slot),
{
    let replaced = slot.take();
    *slot = Some(holder);
    replaced
}

/// The slot after storing each of `holders` in turn, starting from `slot`,
/// and the holders handed back on the way, in order.
pub open spec fn store_all<T>(slot: Option<T>, holders: Seq<T>) -> (Option<T>, Seq<T>)
    decreases holders.len(),
{
    if holders.len() == 0 {
        (slot, seq![])
    } else {
        let first = after_replace(slot, holders[0]);
        let rest = store_all(first.0, holders.drop_first());
        (rest.0, handed_back(first.1) + rest.1)
    }
}

/// No holder is lost and none is let go twice: storing holders one after the
/// other and then releasing the last one hands back the holder that was in
/// the slot first, then every stored holder, each once and in order.
pub proof fn every_holder_is_handed_back_once<T>(slot: Option<T>, holders: Seq<T>)
    ensures
        store_all(slot, holders).1 + handed_back(after_release(store_all(slot, holders).0).1)
            == handed_back(slot) + holders,
        after_release(store_all(slot, holders).0).0 == None::<T>,
    decreases holders.len(),
{
    if holders.len() == 0 {
        assert(handed_back(slot) + holders =~= handed_back(slot));
        assert(Seq::<T>::empty() + handed_back(slot) =~= handed_back(slot));
    } else {
        every_holder_is_handed_back_once(Some(holders[0]), holders.drop_first());
        let rest = store_all(Some(holders[0]), holders.drop_first());
        assert(handed_back(Some(holders[0])) + holders.drop_first() =~= holders);
        assert(handed_back(slot) + rest.1 + handed_back(rest.0) =~= handed_back(slot) + (rest.1
            + handed_back(rest.0)));
    }
}

} // verus!
