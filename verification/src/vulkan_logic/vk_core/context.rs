use vstd::prelude::*;

verus! {

/// Why no queue families could be chosen for the device.
#[derive(Clone, Copy, Debug, PartialEq, Eq, Structural)]
pub enum QueueFamilyError {
    /// No family with graphics support was seen.
    NoGraphicsQueue,
    /// No family that can present to the surface was seen.
    NoPresentQueue,
}

/// What one queue family offers: graphics support and presentation support
/// for the window surface.
#[derive(Clone, Copy, Debug, PartialEq, Eq, Structural)]
pub struct QueueFamilyInfo {
    pub graphics: bool,
    pub present: bool,
}

/// The search state after some families were seen.
#[derive(Clone, Copy, Debug, PartialEq, Eq, Structural)]
pub struct QueueFamilySearch {
    pub graphics: Option<u32>,
    pub present: Option<u32>,
}

/// The state after seeing family `index`: each capability it offers now
/// points at it.
pub open spec fn observe_spec(s: QueueFamilySearch, index: u32, info: QueueFamilyInfo) -> QueueFamilySearch {
    QueueFamilySearch {
        graphics: if info.graphics { Some(index) } else { s.graphics },
        present: if info.present { Some(index) } else { s.present },
    }
}

/// Both capabilities were found.
pub open spec fn search_done(s: QueueFamilySearch) -> bool {
    s.graphics is Some && s.present is Some
}

/// The state after seeing the families `infos[0..n]` with indices `0..n`.
pub open spec fn search_after(infos: Seq<QueueFamilyInfo>, n: nat) -> QueueFamilySearch
    decreases n,
{
    if n == 0 {
        QueueFamilySearch { graphics: None, present: None }
    } else {
        observe_spec(search_after(infos, (n - 1) as nat), (n - 1) as u32, infos[n - 1])
    }
}

/// The outcome of a search in state `s`.
pub open spec fn finish_spec(s: QueueFamilySearch) -> Result<(u32, u32), QueueFamilyError> {
    match (s.graphics, s.present) {
        (Some(g), Some(p)) => Ok((g, p)),
        (None, _) => Err(QueueFamilyError::NoGraphicsQueue),
        (Some(_), None) => Err(QueueFamilyError::NoPresentQueue),
    }
}

impl QueueFamilySearch {
    /// Nothing seen yet.
    pub fn new() -> (r: Self)
        ensures
            r == search_after(Seq::empty(), 0),
    {
        QueueFamilySearch { graphics: None, present: None }
    }

    /// Records family `index` and says whether the search may stop: a later
    /// family with the same capability replaces an earlier one, and the search
    /// stops as soon as both capabilities were found.
    pub fn observe(&mut self, index: u32, info: QueueFamilyInfo) -> (done: bool)
        ensures
            *final(self) == observe_spec(*old(self), index, info),
            done == search_done(*final(self)),
    {
        if info.graphics {
            self.graphics = Some(index);
        }
        if info.present {
            self.present = Some(index);
        }
        self.graphics.is_some() && self.present.is_some()
    }

    /// The graphics and present family indices, or the first missing one
    /// (graphics is checked first).
    pub fn finish(&self) -> (r: Result<(u32, u32), QueueFamilyError>)
        ensures
            r == finish_spec(*self),
    {
        match self.graphics {
            None => Err(QueueFamilyError::NoGraphicsQueue),
            Some(g) => match self.present {
                None => Err(QueueFamilyError::NoPresentQueue),
                Some(p) => Ok((g, p)),
            },
        }
    }
}

/// The queue families to create queues for: the graphics family, and the
/// present family too when it is another one.
pub fn queue_family_list(graphics: u32, present: u32) -> (r: Vec<u32>)
    ensures
        r@ == if graphics == present { seq![graphics] } else { seq![graphics, present] },
{
    let mut families: Vec<u32> = Vec::new();
    families.push(graphics);
    if graphics != present {
        families.push(present);
    }
    families
}

/// A chosen family really has the capability it was chosen for: after the
/// families `0..n` were seen, a graphics (present) choice names one of them
/// whose info offers graphics (presentation), and a missing choice means none
/// of them offers it.
pub proof fn lemma_search_sound(infos: Seq<QueueFamilyInfo>, n: nat)
    requires
        n <= infos.len(),
        n <= u32::MAX + 1,
    ensures
        search_after(infos, n).graphics matches Some(g) ==> g < n && infos[g as int].graphics,
        search_after(infos, n).present matches Some(p) ==> p < n && infos[p as int].present,
        search_after(infos, n).graphics is None ==> forall|i: int| 0 <= i < n ==> !infos[i].graphics,
        search_after(infos, n).present is None ==> forall|i: int| 0 <= i < n ==> !infos[i].present,
    decreases n,
{
    if n > 0 {
        lemma_search_sound(infos, (n - 1) as nat);
    }
}

/// The chosen graphics family is the last graphics-capable one seen, and the
/// chosen present family the last present-capable one.
pub proof fn lemma_search_picks_last(infos: Seq<QueueFamilyInfo>, n: nat)
    requires
        n <= infos.len(),
        n <= u32::MAX + 1,
    ensures
        search_after(infos, n).graphics matches Some(g) ==> forall|i: int| g < i < n ==> !infos[i].graphics,
        search_after(infos, n).present matches Some(p) ==> forall|i: int| p < i < n ==> !infos[i].present,
    decreases n,
{
    if n > 0 {
        lemma_search_picks_last(infos, (n - 1) as nat);
        lemma_search_sound(infos, (n - 1) as nat);
    }
}

/// The family list names each chosen family exactly once.
pub proof fn lemma_family_list_unique(graphics: u32, present: u32, r: Seq<u32>)
    requires
        r == if graphics == present { seq![graphics] } else { seq![graphics, present] },
    ensures
        r.contains(graphics),
        r.contains(present),
        forall|i: int, j: int| 0 <= i < j < r.len() ==> r[i] != r[j],
{
    assert(r[0] == graphics);
    if graphics != present {
        assert(r[1] == present);
    }
}


/// The search's outcome, stated on the state: once both capabilities were
/// found it returns exactly those two families (whatever their indices, 0
/// included); it fails only for a capability that was never found, graphics
/// first.
pub proof fn lemma_finish_outcome(s: QueueFamilySearch, g: u32, p: u32)
    ensures
        (s.graphics == Some(g) && s.present == Some(p)) ==> finish_spec(s) == Ok::<(u32, u32), QueueFamilyError>((g, p)),
        s.graphics is None ==> finish_spec(s) == Err::<(u32, u32), QueueFamilyError>(QueueFamilyError::NoGraphicsQueue),
        (s.graphics is Some && s.present is None) ==> finish_spec(s) == Err::<(u32, u32), QueueFamilyError>(QueueFamilyError::NoPresentQueue),
        finish_spec(s) is Ok <==> (s.graphics is Some && s.present is Some),
{
}

/// A family offering both capabilities completes the search on it: from any
/// state, observing such a family `i` stops the search with `(i, i)`; a
/// family offering one capability takes that one over and keeps the other.
pub proof fn lemma_observe_outcome(s: QueueFamilySearch, i: u32, graphics: bool, present: bool)
    ensures
        ({
            let t = observe_spec(s, i, QueueFamilyInfo { graphics: true, present: true });
            &&& search_done(t)
            &&& finish_spec(t) == Ok::<(u32, u32), QueueFamilyError>((i, i))
        }),
        ({
            let t = observe_spec(s, i, QueueFamilyInfo { graphics, present });
            &&& t.graphics == (if graphics { Some(i) } else { s.graphics })
            &&& t.present == (if present { Some(i) } else { s.present })
        }),
        search_after(Seq::empty(), 0).graphics is None,
        search_after(Seq::empty(), 0).present is None,
{
}

} // verus!
