use vstd::prelude::*;
use crate::paths::{file_name_of, joined};
use crate::queue::clamped_index;
use crate::session::{SessionView, UndoOutcome};

verus! {

/// The files on disk, as a set of paths, once `from` was renamed to `to`.
pub open spec fn after_rename(files: Set<Seq<char>>, from: Seq<char>, to: Seq<char>) -> Set<
    Seq<char>,
> {
    files.remove(from).insert(to)
}

/// Removing the current image keeps the index in range: it stays where it
/// was, or moves to the new last image where it was the last one; a queue of
/// one image becomes empty.
pub proof fn removal_keeps_index_in_range(images: Seq<Seq<char>>, index: nat)
    requires
        index < images.len(),
    ensures
        images.len() == 1 ==> images.remove(index as int).len() == 0,
        images.len() >= 2 ==> clamped_index(index, (images.len() - 1) as nat) < images.len() - 1,
        images.len() >= 2 && index + 1 < images.len() ==> clamped_index(
            index,
            (images.len() - 1) as nat,
        ) == index,
        images.len() >= 2 && index + 1 == images.len() ==> clamped_index(
            index,
            (images.len() - 1) as nat,
        ) == images.len() - 2,
{
}

/// After a successful move into `folder`, the file stands in `folder` under
/// its own name and no longer at its old path; the queue has one image less
/// and the undo stack one record more.
pub proof fn move_relocates_file(s: SessionView, folder: Seq<char>, files: Set<Seq<char>>)
    requires
        s.wf(),
        s.move_plan(folder) is Some,
        files.contains(s.move_plan(folder)->Some_0.0),
        s.move_plan(folder)->Some_0.0 != s.move_plan(folder)->Some_0.1,
    ensures
        ({
            let (from, to) = s.move_plan(folder)->Some_0;
            let t = s.moved(from, to);
            &&& file_name_of(from) is Some
            &&& to == joined(folder, file_name_of(from)->Some_0)
            &&& after_rename(files, from, to).contains(to)
            &&& !after_rename(files, from, to).contains(from)
            &&& t.wf()
            &&& t.images.len() == s.images.len() - 1
            &&& t.undo.len() == s.undo.len() + 1
        }),
{
}

/// Undoing right after a successful move brings the file back to its old
/// path, puts the image back at the end of the queue, selected, and leaves
/// the undo stack as it was before the move.
pub proof fn undo_reverses_move(s: SessionView, folder: Seq<char>, files: Set<Seq<char>>)
    requires
        s.wf(),
        s.move_plan(folder) is Some,
        files.contains(s.move_plan(folder)->Some_0.0),
        !files.contains(s.move_plan(folder)->Some_0.1),
    ensures
        ({
            let (from, to) = s.move_plan(folder)->Some_0;
            let t = s.moved(from, to);
            let u = t.undone(UndoOutcome::Restored);
            &&& t.undo_plan() == Some((to, from))
            &&& after_rename(after_rename(files, from, to), to, from) == files
            &&& u.wf()
            &&& u.images.len() == s.images.len()
            &&& u.images.last() == from
            &&& u.current == Some(from)
            &&& u.undo == s.undo
            &&& u.undo.len() == t.undo.len() - 1
        }),
{
    let (from, to) = s.move_plan(folder)->Some_0;
    let t = s.moved(from, to);
    assert(t.undo.drop_last() =~= s.undo);
    assert(after_rename(after_rename(files, from, to), to, from) =~= files);
}

/// Deleting moves the current image to the trash exactly as a move into the
/// trash folder does, after creating that folder where it does not exist.
pub proof fn delete_is_move_to_trash(s: SessionView, trash: Seq<char>, trash_exists: bool)
    ensures
        s.delete_plan(trash, trash_exists) is Some <==> s.move_plan(trash) is Some,
        s.delete_plan(trash, trash_exists) matches Some(d) ==> d.0 == !trash_exists && d.1
            == s.move_plan(trash)->Some_0,
{
}

/// With an empty queue there is no selection, so neither a move nor a delete
/// plans any rename.
pub proof fn empty_queue_plans_nothing(
    s: SessionView,
    folder: Seq<char>,
    trash_exists: bool,
)
    requires
        s.wf(),
        s.images.len() == 0,
    ensures
        s.move_plan(folder) is None,
        s.delete_plan(folder, trash_exists) is None,
{
}

/// With an empty undo stack, undo plans nothing and changes nothing, however
/// often it is repeated.
pub proof fn undo_on_empty_stack_is_noop(s: SessionView, a: UndoOutcome, b: UndoOutcome)
    requires
        s.undo.len() == 0,
    ensures
        s.undo_plan() is None,
        s.undone(a) == s,
        s.undone(a).undone(b) == s,
{
}

} // verus!
