use vstd::prelude::*;
use crate::paths::{file_name, file_name_of, join, joined};
use crate::queue::{clamped_index, ImageQueue};

verus! {

/// A rename that the caller is to perform on disk: `from` becomes `to`.
pub struct Rename {
    pub from: String,
    pub to: String,
}

/// What reverses one move: the path the file went to, and the one it came
/// from.
pub struct UndoRecord {
    pub after: String,
    pub before: String,
}

/// What moving the current image to the trash takes: whether the trash folder
/// must first be created, and the rename.
pub struct DeletePlan {
    pub create_trash: bool,
    pub rename: Rename,
}

/// How the rename that reverses the newest undo record went.
pub enum UndoOutcome {
    /// The file was renamed back to where it came from.
    Restored,
    /// The file was no longer where the move had put it: the record is dropped.
    SourceMissing,
    /// The rename back failed: nothing changes.
    Failed,
}

/// The queue of pending images, the current selection and the undo stack.
pub struct TriageSession {
    pub queue: ImageQueue,
    pub current: Option<String>,
    pub undo: Vec<UndoRecord>,
}

/// A session as mathematical values.
pub struct SessionView {
    pub images: Seq<Seq<char>>,
    pub index: nat,
    pub current: Option<Seq<char>>,
    pub undo: Seq<(Seq<char>, Seq<char>)>,
}

impl View for Rename {
    type V = (Seq<char>, Seq<char>);

    open spec fn view(&self) -> (Seq<char>, Seq<char>) {
        (self.from@, self.to@)
    }
}

impl View for UndoRecord {
    type V = (Seq<char>, Seq<char>);

    open spec fn view(&self) -> (Seq<char>, Seq<char>) {
        (self.after@, self.before@)
    }
}

pub open spec fn opt_view(o: Option<String>) -> Option<Seq<char>> {
    match o {
        Some(s) => Some(s@),
        None => None,
    }
}

impl View for TriageSession {
    type V = SessionView;

    open spec fn view(&self) -> SessionView {
        SessionView {
            images: self.queue.images@.map_values(|s: String| s@),
            index: self.queue.index as nat,
            current: opt_view(self.current),
            undo: self.undo@.map_values(|r: UndoRecord| r@),
        }
    }
}

impl SessionView {
    /// The index points at an image whenever there is one, and a selection
    /// is the image at the index.
    pub open spec fn wf(self) -> bool {
        &&& (self.images.len() == 0 || self.index < self.images.len())
        &&& (self.current matches Some(c) ==> self.images.len() > 0 && c
            == self.images[self.index as int])
    }

    /// The rename that moves the current image into `folder` under its own
    /// file name; none without a current image that has a file name.
    pub open spec fn move_plan(self, folder: Seq<char>) -> Option<(Seq<char>, Seq<char>)> {
        match self.current {
            None => None,
            Some(c) => match file_name_of(c) {
                None => None,
                Some(n) => Some((c, joined(folder, n))),
            },
        }
    }

    /// The session once the current image `from` went to `to`: the record is
    /// pushed, the image leaves the queue and the selection is cleared.
    pub open spec fn moved(self, from: Seq<char>, to: Seq<char>) -> SessionView {
        let images = self.images.remove(self.index as int);
        SessionView {
            images,
            index: clamped_index(self.index, images.len()),
            current: None,
            undo: self.undo.push((to, from)),
        }
    }

    /// What moving the current image to `trash` takes, where `trash_exists`
    /// tells whether that folder is on disk.
    pub open spec fn delete_plan(self, trash: Seq<char>, trash_exists: bool) -> Option<
        (bool, (Seq<char>, Seq<char>)),
    > {
        match self.move_plan(trash) {
            None => None,
            Some(p) => Some((!trash_exists, p)),
        }
    }

    /// The newest undo record, if any.
    pub open spec fn undo_plan(self) -> Option<(Seq<char>, Seq<char>)> {
        if self.undo.len() == 0 {
            None
        } else {
            Some(self.undo.last())
        }
    }

    /// The session after the rename that reverses the newest record went as
    /// `outcome` says.
    pub open spec fn undone(self, outcome: UndoOutcome) -> SessionView {
        if self.undo.len() == 0 {
            self
        } else {
            let before = self.undo.last().1;
            match outcome {
                UndoOutcome::Restored => SessionView {
                    images: self.images.push(before),
                    index: self.images.len(),
                    current: Some(before),
                    undo: self.undo.drop_last(),
                },
                UndoOutcome::SourceMissing => SessionView { undo: self.undo.drop_last(), ..self },
                UndoOutcome::Failed => self,
            }
        }
    }
}

impl TriageSession {
    pub open spec fn wf(&self) -> bool {
        self@.wf()
    }

    /// A session over `images`, with the first one at the index, nothing
    /// selected and an empty undo stack.
    pub fn new(images: Vec<String>) -> (r: TriageSession)
        ensures
            r.wf(),
            r@.images == images@.map_values(|s: String| s@),
            r@.index == 0,
            r@.current is None,
            r@.undo.len() == 0,
    {
        TriageSession { queue: ImageQueue::new(images), current: None, undo: Vec::new() }
    }

    /// Selects the image at the index, if the queue holds any, and returns its
    /// path for the caller to decode.
    pub fn select_current(&mut self) -> (r: Option<String>)
        requires
            old(self).wf(),
        ensures
            final(self).wf(),
            final(self)@ == (SessionView { current: opt_view(r), ..old(self)@ }),
            old(self)@.images.len() == 0 ==> r is None,
            old(self)@.images.len() > 0 ==> opt_view(r) == Some(
                old(self)@.images[old(self)@.index as int],
            ),
    {
        let r = self.queue.current();
        self.current = match &r {
            Some(p) => Some(p.clone()),
            None => None,
        };
        r
    }

    /// Drops the selection, keeping the queue and the undo stack.
    pub fn clear_selection(&mut self)
        requires
            old(self).wf(),
        ensures
            final(self).wf(),
            final(self)@ == (SessionView { current: None, ..old(self)@ }),
    {
        self.current = None;
    }

    /// The rename that moves the current image into `folder`, or `None`
    /// where nothing is selected or the selection has no file name.
    pub fn plan_move(&self, folder: &str) -> (r: Option<Rename>)
        ensures
            match r {
                Some(p) => self@.move_plan(folder@) == Some(p@),
                None => self@.move_plan(folder@) is None,
            },
    {
        match &self.current {
            None => None,
            Some(c) => match file_name(c.as_str()) {
                None => None,
                Some(n) => {
                    let to = join(folder, n.as_str());
                    Some(Rename { from: c.clone(), to })
                },
            },
        }
    }

    /// What moving the current image to `trash` takes: the rename of
    /// `plan_move(trash)`, and the creation of the trash folder where it does
    /// not exist.
    pub fn plan_delete(&self, trash: &str, trash_exists: bool) -> (r: Option<DeletePlan>)
        ensures
            match r {
                Some(d) => self@.delete_plan(trash@, trash_exists) == Some(
                    (d.create_trash, d.rename@),
                ),
                None => self@.delete_plan(trash@, trash_exists) is None,
            },
    {
        match self.plan_move(trash) {
            None => None,
            Some(rename) => Some(DeletePlan { create_trash: !trash_exists, rename }),
        }
    }

    /// Records how the rename of `plan`, planned for the current image, went.
    /// Where it succeeded the record is pushed, the image leaves the queue
    /// and the selection is cleared; where it failed nothing changes.
    pub fn finish_move(&mut self, plan: Rename, renamed: bool)
        requires
            old(self).wf(),
            old(self)@.current == Some(plan.from@),
        ensures
            final(self).wf(),
            renamed ==> final(self)@ == old(self)@.moved(plan.from@, plan.to@),
            !renamed ==> final(self)@ == old(self)@,
    {
        if renamed {
            let ghost s = self@;
            let Rename { from, to } = plan;
            self.undo.push(UndoRecord { after: to, before: from });
            self.queue.remove_current();
            self.current = None;
            proof {
                assert(self@.images =~= s.moved(from@, to@).images);
                assert(self@.undo =~= s.moved(from@, to@).undo);
            }
        }
    }

    /// The newest undo record, for the caller to reverse on disk: where its
    /// `after` path exists, rename it back to `before`.
    pub fn plan_undo(&self) -> (r: Option<UndoRecord>)
        ensures
            match r {
                Some(u) => self@.undo_plan() == Some(u@),
                None => self@.undo_plan() is None,
            },
    {
        let n = self.undo.len();
        if n == 0 {
            None
        } else {
            let u = &self.undo[n - 1];
            Some(UndoRecord { after: u.after.clone(), before: u.before.clone() })
        }
    }

    /// Records how reversing the newest undo record went. Restored: the record
    /// is popped and its `before` path is appended to the queue and selected.
    /// Source missing: the record is popped and nothing else changes. Failed,
    /// or no record: nothing changes.
    pub fn finish_undo(&mut self, outcome: UndoOutcome)
        requires
            old(self).wf(),
        ensures
            final(self).wf(),
            final(self)@ == old(self)@.undone(outcome),
    {
        let ghost s = self@;
        if self.undo.len() == 0 {
            return;
        }
        match outcome {
            UndoOutcome::Restored => {
                let u = self.undo.pop().unwrap();
                let before = u.before;
                self.queue.reinsert(before.clone());
                self.current = Some(before);
                proof {
                    assert(self@.images =~= s.undone(outcome).images);
                    assert(self@.undo =~= s.undone(outcome).undo);
                }
            },
            UndoOutcome::SourceMissing => {
                self.undo.pop();
                proof {
                    assert(self@.undo =~= s.undone(outcome).undo);
                }
            },
            UndoOutcome::Failed => {},
        }
    }
}

} // verus!
