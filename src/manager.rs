use vstd::prelude::*;
use crate::config::Config;
use crate::paths::{image_paths, scan, views};
use crate::queue::ImageQueue;
use crate::session::{DeletePlan, SessionView, TriageSession};

verus! {

/// Which screen the application shows.
pub enum Mode {
    /// Folders are being chosen.
    Configuring,
    /// Images are being sorted.
    Triaging,
}

/// The whole application state: the configuration, the triage session and
/// the mode.
pub struct ImageManager {
    pub config: Config,
    pub session: TriageSession,
    pub mode: Mode,
}

impl ImageManager {
    pub open spec fn wf(&self) -> bool {
        self.session.wf()
    }

    /// Starts in the configuration screen, with the queue scanned from the
    /// listing of the input folder (`None` where it does not exist).
    pub fn new(config: Config, listing: Option<Vec<String>>) -> (r: ImageManager)
        ensures
            r.wf(),
            r.mode is Configuring,
            r.config == config,
            listing is None ==> r.session@.images.len() == 0,
            listing matches Some(v) ==> r.session@.images == image_paths(views(v@)),
            r.session@.index == 0,
            r.session@.current is None,
            r.session@.undo.len() == 0,
    {
        let images = scan(listing);
        let session = TriageSession::new(images);
        proof {
            assert(session@.images =~= views(images@));
        }
        ImageManager { config, session, mode: Mode::Configuring }
    }

    /// Enters the triage screen with a fresh queue scanned from the listing
    /// of the input folder: the first image is at the index, nothing is
    /// selected, and the undo stack is kept.
    pub fn start_triage(&mut self, listing: Option<Vec<String>>)
        requires
            old(self).wf(),
        ensures
            final(self).wf(),
            final(self).mode is Triaging,
            final(self).config == old(self).config,
            listing is None ==> final(self).session@.images.len() == 0,
            listing matches Some(v) ==> final(self).session@.images == image_paths(views(v@)),
            final(self).session@.index == 0,
            final(self).session@.current is None,
            final(self).session@.undo == old(self).session@.undo,
    {
        let images = scan(listing);
        self.session.queue = ImageQueue::new(images);
        self.session.current = None;
        self.mode = Mode::Triaging;
        proof {
            assert(self.session@.images =~= views(images@));
        }
    }

    /// Returns to the configuration screen, discarding the selection and the
    /// current index; the queue and the undo stack are kept.
    pub fn back_to_config(&mut self)
        requires
            old(self).wf(),
        ensures
            final(self).wf(),
            final(self).mode is Configuring,
            final(self).config == old(self).config,
            final(self).session@ == (SessionView {
                current: None,
                index: 0,
                ..old(self).session@
            }),
    {
        self.session.clear_selection();
        self.session.queue.index = 0;
        self.mode = Mode::Configuring;
    }

    /// While triaging with no image shown and images left, selects the image
    /// at the index and returns its path to be decoded and shown; otherwise
    /// changes nothing and returns `None`.
    pub fn image_to_show(&mut self, showing: bool) -> (r: Option<String>)
        requires
            old(self).wf(),
        ensures
            final(self).wf(),
            final(self).config == old(self).config,
            (final(self).mode is Triaging) == (old(self).mode is Triaging),
            ({
                let s = old(self).session@;
                if old(self).mode is Triaging && !showing && s.images.len() > 0 {
                    &&& r is Some
                    &&& r->Some_0@ == s.images[s.index as int]
                    &&& final(self).session@ == (SessionView { current: Some(r->Some_0@), ..s })
                } else {
                    r is None && final(self).session@ == s
                }
            }),
    {
        match self.mode {
            Mode::Triaging => {
                if !showing && !self.session.queue.is_empty() {
                    self.session.select_current()
                } else {
                    None
                }
            },
            Mode::Configuring => None,
        }
    }

    /// What deleting the current image takes, with the configured trash
    /// folder; `trash_exists` tells whether that folder is on disk.
    pub fn plan_delete(&self, trash_exists: bool) -> (r: Option<DeletePlan>)
        ensures
            match r {
                Some(d) => self.session@.delete_plan(self.config.trash_folder@, trash_exists)
                    == Some((d.create_trash, d.rename@)),
                None => self.session@.delete_plan(self.config.trash_folder@, trash_exists) is None,
            },
    {
        self.session.plan_delete(self.config.trash_folder.as_str(), trash_exists)
    }
}

} // verus!
