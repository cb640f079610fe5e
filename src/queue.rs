use vstd::prelude::*;

verus! {

/// The ordered queue of image paths still waiting to be triaged, with the
/// index of the current one.
pub struct ImageQueue {
    pub images: Vec<String>,
    pub index: usize,
}

/// The index that is current after the image at `index` has been removed from
/// a queue that then holds `new_len` images: the same position, or the new
/// last one where that position fell off the end.
pub open spec fn clamped_index(index: nat, new_len: nat) -> nat {
    if index >= new_len && new_len > 0 {
        (new_len - 1) as nat
    } else {
        index
    }
}

impl ImageQueue {
    /// Whenever the queue holds an image, the index points at one.
    pub open spec fn wf(&self) -> bool {
        self.images.len() == 0 || self.index < self.images.len()
    }

    /// A queue over the given paths, with the first one current.
    pub fn new(images: Vec<String>) -> (r: ImageQueue)
        ensures
            r.wf(),
            r.images@ == images@,
            r.index == 0,
    {
        ImageQueue { images, index: 0 }
    }

    pub fn len(&self) -> (r: usize)
        ensures
            r == self.images.len(),
    {
        self.images.len()
    }

    pub fn is_empty(&self) -> (r: bool)
        ensures
            r == (self.images.len() == 0),
    {
        self.images.len() == 0
    }

    /// The path at the current index, if the queue holds any.
    pub fn current(&self) -> (r: Option<String>)
        requires
            self.wf(),
        ensures
            self.images.len() == 0 ==> r is None,
            self.images.len() > 0 ==> r is Some && r->Some_0@ == self.images@[self.index as int]@,
    {
        if self.images.len() == 0 {
            None
        } else {
            Some(self.images[self.index].clone())
        }
    }

    /// Removes the current image. The index stays where it was, unless that
    /// position is now past the end: then the new last image is current.
    pub fn remove_current(&mut self) -> (r: String)
        requires
            old(self).wf(),
            old(self).images.len() > 0,
        ensures
            final(self).wf(),
            final(self).images@ == old(self).images@.remove(old(self).index as int),
            r == old(self).images@[old(self).index as int],
            final(self).index == clamped_index(old(self).index as nat, final(self).images.len() as nat),
            old(self).images.len() >= 2 ==> final(self).index == if old(self).index + 2
                <= old(self).images.len() {
                old(self).index as int
            } else {
                old(self).images.len() - 2
            },
    {
        let r = self.images.remove(self.index);
        if self.index >= self.images.len() && self.images.len() > 0 {
            self.index = self.images.len() - 1;
        }
        r
    }

    /// Appends `path` at the end of the queue and makes it current.
    pub fn reinsert(&mut self, path: String)
        ensures
            final(self).wf(),
            final(self).images@ == old(self).images@.push(path),
            final(self).index == old(self).images.len(),
    {
        self.images.push(path);
        self.index = self.images.len() - 1;
    }
}

} // verus!
