use vstd::prelude::*;

verus! {

/// The folders that triage works with: where images come from, where they
/// may go (in display order, duplicates kept), and the trash.
pub struct Config {
    pub input_folder: String,
    pub destination_folders: Vec<String>,
    pub trash_folder: String,
}

/// Some entry of `idx` is `k`.
pub open spec fn listed(idx: Seq<usize>, k: int) -> bool {
    exists|a: int| 0 <= a < idx.len() && idx[a] as int == k
}

/// The elements of `s` whose index is not listed in `idx`, in their order.
pub open spec fn without_indices<A>(s: Seq<A>, idx: Seq<usize>) -> Seq<A>
    decreases s.len(),
{
    if s.len() == 0 {
        s
    } else {
        let rest = without_indices(s.drop_last(), idx);
        if listed(idx, s.len() - 1) {
            rest
        } else {
            rest.push(s.last())
        }
    }
}

fn is_listed(idx: &Vec<usize>, k: usize) -> (r: bool)
    ensures
        r == listed(idx@, k as int),
{
    let mut a: usize = 0;
    while a < idx.len()
        invariant
            0 <= a <= idx.len(),
            forall|b: int| 0 <= b < a ==> idx@[b] != k,
        decreases idx.len() - a,
    {
        if idx[a] == k {
            return true;
        }
        a = a + 1;
    }
    false
}

impl Config {
    pub open spec fn destinations(&self) -> Seq<Seq<char>> {
        self.destination_folders@.map_values(|s: String| s@)
    }

    /// The configuration with no folder set, used where none was stored.
    pub fn empty() -> (r: Config)
        ensures
            r.input_folder@.len() == 0,
            r.destination_folders@.len() == 0,
            r.trash_folder@.len() == 0,
    {
        Config {
            input_folder: String::new(),
            destination_folders: Vec::new(),
            trash_folder: String::new(),
        }
    }

    /// Appends `folder` to the destinations.
    pub fn add_destination(&mut self, folder: String)
        ensures
            final(self).destination_folders@ == old(self).destination_folders@.push(folder),
            final(self).input_folder == old(self).input_folder,
            final(self).trash_folder == old(self).trash_folder,
    {
        self.destination_folders.push(folder);
    }

    /// Appends the typed path `text` to the destinations unless it is empty;
    /// tells whether it did.
    pub fn add_typed_destination(&mut self, text: &str) -> (r: bool)
        ensures
            r == (text@.len() > 0),
            r ==> final(self).destinations() == old(self).destinations().push(text@),
            !r ==> final(self).destination_folders@ == old(self).destination_folders@,
            final(self).input_folder == old(self).input_folder,
            final(self).trash_folder == old(self).trash_folder,
    {
        if text.unicode_len() == 0 {
            return false;
        }
        let ghost d = self.destinations();
        self.destination_folders.push(text.to_string());
        assert(self.destinations() =~= d.push(text@));
        true
    }

    /// Removes the destinations whose indices are listed in `idx`, keeping
    /// the others in their order; indices past the end name nothing. Tells
    /// whether `idx` listed any index.
    pub fn remove_destinations(&mut self, idx: &Vec<usize>) -> (r: bool)
        ensures
            r == (idx@.len() > 0),
            final(self).destination_folders@ == without_indices(
                old(self).destination_folders@,
                idx@,
            ),
            final(self).input_folder == old(self).input_folder,
            final(self).trash_folder == old(self).trash_folder,
    {
        let n = self.destination_folders.len();
        let mut kept: Vec<String> = Vec::new();
        let mut i: usize = 0;
        while i < n
            invariant
                n == self.destination_folders.len(),
                0 <= i <= n,
                kept@ == without_indices(self.destination_folders@.take(i as int), idx@),
            decreases n - i,
        {
            let keep = !is_listed(idx, i);
            proof {
                let t = self.destination_folders@.take(i as int + 1);
                assert(t.drop_last() =~= self.destination_folders@.take(i as int));
                assert(t.last() == self.destination_folders@[i as int]);
            }
            if keep {
                kept.push(self.destination_folders[i].clone());
            }
            i = i + 1;
        }
        assert(self.destination_folders@.take(n as int) =~= self.destination_folders@);
        self.destination_folders = kept;
        idx.len() > 0
    }
}

} // verus!
