use vstd::prelude::*;
use crate::catalog::{Wallpaper, display_name};

verus! {

/// A move of the cursor.
#[derive(Debug, Clone, Copy, PartialEq, Eq, Structural)]
pub enum Nav {
    Next,
    Previous,
    First,
    Last,
}

/// A selection is sound for a catalog of `len` items: nothing is selected
/// exactly when the catalog is empty, and a selected index lies in it.
pub open spec fn sound(sel: Option<usize>, len: nat) -> bool {
    match sel {
        Some(i) => i < len,
        None => len == 0,
    }
}

/// Where the cursor goes on `nav` in a catalog of `len` items. Moves clamp at
/// both ends; an empty catalog keeps nothing selected.
pub open spec fn step(sel: Option<usize>, len: nat, nav: Nav) -> Option<usize> {
    if len == 0 {
        None
    } else {
        let i: int = match sel {
            Some(i) => i as int,
            None => 0,
        };
        match nav {
            Nav::Next => if i + 1 < len { Some((i + 1) as usize) } else { Some((len - 1) as usize) },
            Nav::Previous => if i > 0 { Some((i - 1) as usize) } else { Some(0) },
            Nav::First => Some(0),
            Nav::Last => Some((len - 1) as usize),
        }
    }
}

/// The cursor after the moves of `navs`, in order.
pub open spec fn walk(sel: Option<usize>, len: nat, navs: Seq<Nav>) -> Option<usize>
    decreases navs.len(),
{
    if navs.len() == 0 {
        sel
    } else {
        step(walk(sel, len, navs.drop_last()), len, navs.last())
    }
}

/// Any sequence of moves keeps a sound selection sound; in a catalog that is
/// not empty the cursor then always rests on an item.
pub proof fn lemma_walk_stays_in_range(sel: Option<usize>, len: nat, navs: Seq<Nav>)
    requires
        sound(sel, len),
        len <= usize::MAX,
    ensures
        sound(walk(sel, len, navs), len),
        len > 0 ==> (walk(sel, len, navs) matches Some(i) && i < len),
    decreases navs.len(),
{
    if navs.len() > 0 {
        lemma_walk_stays_in_range(sel, len, navs.drop_last());
    }
}

/// Going to the first item and then back any number of times stays on the
/// first item.
pub proof fn lemma_previous_from_first(sel: Option<usize>, len: nat, n: nat)
    requires
        0 < len <= usize::MAX,
    ensures
        walk(step(sel, len, Nav::First), len, Seq::new(n, |k: int| Nav::Previous)) == Some(0usize),
    decreases n,
{
    if n > 0 {
        let navs = Seq::new(n, |k: int| Nav::Previous);
        assert(navs.drop_last() == Seq::new((n - 1) as nat, |k: int| Nav::Previous));
        lemma_previous_from_first(sel, len, (n - 1) as nat);
    }
}

/// Going to the last item and then forward any number of times stays on the
/// last item.
pub proof fn lemma_next_from_last(sel: Option<usize>, len: nat, n: nat)
    requires
        0 < len <= usize::MAX,
    ensures
        walk(step(sel, len, Nav::Last), len, Seq::new(n, |k: int| Nav::Next)) == Some(
            (len - 1) as usize,
        ),
    decreases n,
{
    if n > 0 {
        let navs = Seq::new(n, |k: int| Nav::Next);
        assert(navs.drop_last() == Seq::new((n - 1) as nat, |k: int| Nav::Next));
        lemma_next_from_last(sel, len, (n - 1) as nat);
    }
}

/// The catalog of images and the cursor over it.
#[derive(Debug)]
pub struct Wallpapers {
    items: Vec<Wallpaper>,
    selected: Option<usize>,
}

impl Wallpapers {
    /// The paths of the items, in catalog order.
    pub closed spec fn paths(&self) -> Seq<Seq<char>> {
        self.items@.map_values(|w: Wallpaper| w.path_view())
    }

    /// The names shown for the items, in catalog order.
    pub closed spec fn names(&self) -> Seq<Seq<char>> {
        self.items@.map_values(|w: Wallpaper| w.name_view())
    }

    /// The index under the cursor.
    pub closed spec fn selection(&self) -> Option<usize> {
        self.selected
    }

    /// Every name is the display name of its path, and the cursor is sound.
    #[verifier::type_invariant]
    closed spec fn wf(&self) -> bool {
        &&& sound(self.selected, self.items@.len())
        &&& forall|k: int|
            0 <= k < self.items@.len() ==> #[trigger] self.items@[k].name_view() == display_name(
                self.items@[k].path_view(),
            )
    }

    /// A catalog of the images at `paths`, in that order, with the first one
    /// selected when there is one.
    pub fn new(paths: Vec<String>) -> (r: Wallpapers)
        ensures
            r.paths() == paths@.map_values(|p: String| p@),
            r.names().len() == r.paths().len(),
            forall|k: int| 0 <= k < r.names().len() ==> #[trigger] r.names()[k] == display_name(r.paths()[k]),
            r.selection() == (if paths.len() == 0 { None } else { Some(0usize) }),
    {
        let mut items: Vec<Wallpaper> = Vec::new();
        let n = paths.len();
        let mut i: usize = 0;
        while i < n
            invariant
                n == paths@.len(),
                i <= n,
                items@.len() == i,
                forall|k: int|
                    0 <= k < i ==> (#[trigger] items@[k]).path_view() == paths@[k]@
                        && items@[k].name_view() == display_name(paths@[k]@),
            decreases n - i,
        {
            items.push(Wallpaper::new(paths[i].clone()));
            i = i + 1;
        }
        let selected = if n == 0 { None } else { Some(0usize) };
        let r = Wallpapers { items, selected };
        assert(r.paths() == paths@.map_values(|p: String| p@));
        r
    }

    /// The number of items.
    pub fn len(&self) -> (r: usize)
        ensures
            r == self.paths().len(),
    {
        self.items.len()
    }

    /// The index under the cursor.
    pub fn selected(&self) -> (r: Option<usize>)
        ensures
            r == self.selection(),
            sound(r, self.paths().len()),
    {
        proof {
            use_type_invariant(self);
        }
        self.selected
    }

    /// The item at `i`.
    pub fn get(&self, i: usize) -> (r: &Wallpaper)
        requires
            i < self.paths().len(),
        ensures
            r.path_view() == self.paths()[i as int],
            r.name_view() == self.names()[i as int],
            r.name_view() == display_name(r.path_view()),
    {
        proof {
            use_type_invariant(self);
        }
        &self.items[i]
    }

    /// Moves the cursor as `nav` says.
    pub fn navigate(&mut self, nav: Nav)
        ensures
            final(self).paths() == old(self).paths(),
            final(self).names() == old(self).names(),
            final(self).selection() == step(old(self).selection(), old(self).paths().len(), nav),
    {
        proof {
            use_type_invariant(&*self);
        }
        let len = self.items.len();
        if len == 0 {
            return;
        }
        let i: usize = match self.selected {
            Some(i) => i,
            None => 0,
        };
        let j: usize = match nav {
            Nav::Next => if i + 1 < len { i + 1 } else { len - 1 },
            Nav::Previous => if i > 0 { i - 1 } else { 0 },
            Nav::First => 0,
            Nav::Last => len - 1,
        };
        self.selected = Some(j);
    }

    /// Moves the cursor one item forward, staying on the last item.
    pub fn select_next(&mut self)
        ensures
            final(self).paths() == old(self).paths(),
            final(self).names() == old(self).names(),
            final(self).selection() == step(old(self).selection(), old(self).paths().len(), Nav::Next),
    {
        self.navigate(Nav::Next)
    }

    /// Moves the cursor one item back, staying on the first item.
    pub fn select_previous(&mut self)
        ensures
            final(self).paths() == old(self).paths(),
            final(self).names() == old(self).names(),
            final(self).selection() == step(old(self).selection(), old(self).paths().len(), Nav::Previous),
    {
        self.navigate(Nav::Previous)
    }

    /// Moves the cursor to the first item.
    pub fn select_first(&mut self)
        ensures
            final(self).paths() == old(self).paths(),
            final(self).names() == old(self).names(),
            final(self).selection() == step(old(self).selection(), old(self).paths().len(), Nav::First),
    {
        self.navigate(Nav::First)
    }

    /// Moves the cursor to the last item.
    pub fn select_last(&mut self)
        ensures
            final(self).paths() == old(self).paths(),
            final(self).names() == old(self).names(),
            final(self).selection() == step(old(self).selection(), old(self).paths().len(), Nav::Last),
    {
        self.navigate(Nav::Last)
    }

    /// Puts the cursor on item `i`.
    pub fn select(&mut self, i: usize)
        requires
            i < old(self).paths().len(),
        ensures
            final(self).paths() == old(self).paths(),
            final(self).names() == old(self).names(),
            final(self).selection() == Some(i),
    {
        proof {
            use_type_invariant(&*self);
        }
        self.selected = Some(i);
    }
}

} // verus!
