use vstd::prelude::*;
use crate::catalog::display_name;
use crate::selection::{Nav, Wallpapers, step};
use crate::setters::{Platform, SetterCommand, WallpaperError, applies, random_index, set_wallpaper};

verus! {

/// A key as the picker sees it.
#[derive(Debug, Clone, Copy, PartialEq, Eq, Structural)]
pub enum Key {
    Char(char),
    Up,
    Down,
    Enter,
    Esc,
    Other,
}

/// What a key asks of the picker.
#[derive(Debug, Clone, Copy, PartialEq, Eq, Structural)]
pub enum Action {
    Quit,
    Move(Nav),
    Random,
    Commit,
}

/// What the caller has to do after a key: nothing, start a setter process,
/// or report an error.
#[derive(Debug)]
pub enum Outcome {
    Idle,
    Apply(SetterCommand),
    Failed(WallpaperError),
}

/// `out` starts the setter for the image at `path` on `platform`.
pub open spec fn applies_outcome(out: Outcome, path: Seq<char>, platform: Platform) -> bool {
    out matches Outcome::Apply(cmd) && applies(cmd, path, platform)
}

/// The key bindings: q or Esc quits, j/Down and k/Up move, g and G jump to the
/// ends, r applies a random image and Enter applies the selected one.
pub open spec fn action_of(key: Key) -> Option<Action> {
    match key {
        Key::Char('q') | Key::Esc => Some(Action::Quit),
        Key::Char('j') | Key::Down => Some(Action::Move(Nav::Next)),
        Key::Char('k') | Key::Up => Some(Action::Move(Nav::Previous)),
        Key::Char('g') => Some(Action::Move(Nav::First)),
        Key::Char('G') => Some(Action::Move(Nav::Last)),
        Key::Char('r') => Some(Action::Random),
        Key::Enter => Some(Action::Commit),
        _ => None,
    }
}

/// The action bound to `key`, if any.
pub fn key_action(key: Key) -> (r: Option<Action>)
    ensures
        r == action_of(key),
{
    match key {
        Key::Char('q') | Key::Esc => Some(Action::Quit),
        Key::Char('j') | Key::Down => Some(Action::Move(Nav::Next)),
        Key::Char('k') | Key::Up => Some(Action::Move(Nav::Previous)),
        Key::Char('g') => Some(Action::Move(Nav::First)),
        Key::Char('G') => Some(Action::Move(Nav::Last)),
        Key::Char('r') => Some(Action::Random),
        Key::Enter => Some(Action::Commit),
        _ => None,
    }
}

/// The state of a picking session.
#[derive(Debug)]
pub struct App {
    platform: Platform,
    wallpapers: Wallpapers,
    should_exit: bool,
}

impl App {
    pub closed spec fn paths(&self) -> Seq<Seq<char>> {
        self.wallpapers.paths()
    }

    pub closed spec fn names(&self) -> Seq<Seq<char>> {
        self.wallpapers.names()
    }

    pub closed spec fn selection(&self) -> Option<usize> {
        self.wallpapers.selection()
    }

    pub closed spec fn platform_view(&self) -> Platform {
        self.platform
    }

    /// The session has ended.
    pub closed spec fn exited(&self) -> bool {
        self.should_exit
    }

    /// `self` and `other` hold the same catalog on the same platform.
    pub open spec fn same_catalog(&self, other: App) -> bool {
        &&& self.paths() == other.paths()
        &&& self.names() == other.names()
        &&& self.platform_view() == other.platform_view()
    }

    /// A running session over the images at `paths`, the first one selected.
    pub fn new(paths: Vec<String>, platform: Platform) -> (r: App)
        ensures
            r.paths() == paths@.map_values(|p: String| p@),
            r.names().len() == r.paths().len(),
            forall|k: int| 0 <= k < r.names().len() ==> #[trigger] r.names()[k] == display_name(r.paths()[k]),
            r.selection() == (if paths.len() == 0 { None } else { Some(0usize) }),
            r.platform_view() == platform,
            !r.exited(),
    {
        App { platform, wallpapers: Wallpapers::new(paths), should_exit: false }
    }

    /// The catalog and its cursor.
    pub fn wallpapers(&self) -> (r: &Wallpapers)
        ensures
            r.paths() == self.paths(),
            r.names() == self.names(),
            r.selection() == self.selection(),
    {
        &self.wallpapers
    }

    /// The platform whose setter is used.
    pub fn platform(&self) -> (r: Platform)
        ensures
            r == self.platform_view(),
    {
        self.platform
    }

    /// Whether the session has ended.
    pub fn should_exit(&self) -> (r: bool)
        ensures
            r == self.exited(),
    {
        self.should_exit
    }

    /// The command that applies the selected image; none when nothing is
    /// selected.
    pub fn set_wallpaper(&self) -> (r: Option<SetterCommand>)
        ensures
            self.selection() is None <==> r is None,
            self.selection() matches Some(i) ==> applies(
                r->Some_0,
                self.paths()[i as int],
                self.platform_view(),
            ),
    {
        match self.wallpapers.selected() {
            Some(i) => Some(set_wallpaper(self.wallpapers.get(i).path(), self.platform)),
            None => None,
        }
    }

    /// Selects item `i` and gives the command that applies it.
    pub fn select_and_set(&mut self, i: usize) -> (r: SetterCommand)
        requires
            i < old(self).paths().len(),
        ensures
            final(self).same_catalog(*old(self)),
            final(self).exited() == old(self).exited(),
            final(self).selection() == Some(i),
            applies(r, old(self).paths()[i as int], old(self).platform_view()),
    {
        self.wallpapers.select(i);
        set_wallpaper(self.wallpapers.get(i).path(), self.platform)
    }

    /// Selects an image drawn at random and gives the command that applies
    /// it; with no image it fails with `EmptyCatalog` and changes nothing.
    pub fn select_and_set_random(&mut self) -> (r: Result<SetterCommand, WallpaperError>)
        ensures
            final(self).same_catalog(*old(self)),
            final(self).exited() == old(self).exited(),
            old(self).paths().len() == 0 <==> r is Err,
            r is Err ==> r->Err_0 == WallpaperError::EmptyCatalog && final(self).selection()
                == old(self).selection(),
            r is Ok ==> (final(self).selection() matches Some(i) && i < old(self).paths().len()
                && applies(r->Ok_0, old(self).paths()[i as int], old(self).platform_view())),
    {
        let len = self.wallpapers.len();
        if len == 0 {
            return Err(WallpaperError::EmptyCatalog);
        }
        let i = random_index(len);
        Ok(self.select_and_set(i))
    }

    /// Applies one key event. Only presses count; a release or a repeat
    /// leaves everything as it was.
    pub fn handle_key(&mut self, key: Key, pressed: bool) -> (r: Outcome)
        ensures
            final(self).same_catalog(*old(self)),
            !pressed || action_of(key) is None ==> *final(self) == *old(self) && r is Idle,
            pressed ==> match action_of(key) {
                Some(Action::Quit) => final(self).exited() && final(self).selection()
                    == old(self).selection() && r is Idle,
                Some(Action::Move(nav)) => final(self).exited() == old(self).exited()
                    && final(self).selection() == step(
                    old(self).selection(),
                    old(self).paths().len(),
                    nav,
                ) && r is Idle,
                Some(Action::Commit) => final(self).exited() == old(self).exited()
                    && final(self).selection() == old(self).selection() && match old(
                    self,
                ).selection() {
                    Some(i) => applies_outcome(r, old(self).paths()[i as int], old(self).platform_view()),
                    None => r is Idle,
                },
                Some(Action::Random) => final(self).exited() == old(self).exited() && if old(
                    self,
                ).paths().len() == 0 {
                    final(self).selection() == old(self).selection() && r
                        == Outcome::Failed(WallpaperError::EmptyCatalog)
                } else {
                    (final(self).selection() matches Some(i) && i < old(self).paths().len()
                        && applies_outcome(r, old(self).paths()[i as int], old(self).platform_view()))
                },
                None => true,
            },
    {
        if !pressed {
            return Outcome::Idle;
        }
        match key_action(key) {
            Some(Action::Quit) => {
                self.should_exit = true;
                Outcome::Idle
            },
            Some(Action::Move(nav)) => {
                self.wallpapers.navigate(nav);
                Outcome::Idle
            },
            Some(Action::Commit) => match self.set_wallpaper() {
                Some(cmd) => Outcome::Apply(cmd),
                None => Outcome::Idle,
            },
            Some(Action::Random) => match self.select_and_set_random() {
                Ok(cmd) => Outcome::Apply(cmd),
                Err(e) => Outcome::Failed(e),
            },
            None => Outcome::Idle,
        }
    }
}

} // verus!
