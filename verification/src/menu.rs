use vstd::prelude::*;

verus! {

/// Number of selectable menu entries.
pub const OPTION_LEN: usize = 3;

/// The entries of the start menu. `Unselected` is the sentinel for "no
/// selection yet"; it is never hovered.
#[derive(Clone, Copy, Debug, PartialEq, Eq, Structural)]
pub enum Options {
    Unselected,
    New,
    Scores,
    Quit,
}

impl Options {
    /// The label of each entry.
    pub open spec fn label(self) -> Seq<char> {
        match self {
            Options::Unselected => "NONE"@,
            Options::New => "New Game"@,
            Options::Scores => "Scores (WIP)"@,
            Options::Quit => "Quit"@,
        }
    }

    pub fn as_str(&self) -> (r: &'static str)
        ensures
            r@ == self.label(),
    {
        match self {
            Options::Unselected => "NONE",
            Options::New => "New Game",
            Options::Scores => "Scores (WIP)",
            Options::Quit => "Quit",
        }
    }
}

/// The entry hovered after one step down: stops at the last entry.
pub open spec fn next_down(o: Options) -> Options {
    match o {
        Options::New => Options::Scores,
        Options::Scores => Options::Quit,
        Options::Quit => Options::Quit,
        Options::Unselected => Options::Unselected,
    }
}

/// The entry hovered after one step up: stops at the first entry.
pub open spec fn next_up(o: Options) -> Options {
    match o {
        Options::New => Options::New,
        Options::Scores => Options::New,
        Options::Quit => Options::Scores,
        Options::Unselected => Options::Unselected,
    }
}

/// What leaving a screen selects: backing out of the score screen clears
/// the selection, backing out anywhere else quits.
pub open spec fn back_target(o: Options) -> Options {
    match o {
        Options::Scores => Options::Unselected,
        _ => Options::Quit,
    }
}

/// The start menu: a fixed list of entries, the hovered entry, and the
/// committed selection.
pub struct Menu {
    options: [Options; OPTION_LEN],
    hovered: Options,
    selected: Options,
}

impl Menu {
    pub closed spec fn spec_hovered(&self) -> Options {
        self.hovered
    }

    pub closed spec fn spec_selected(&self) -> Options {
        self.selected
    }

    pub closed spec fn spec_options(&self) -> Seq<Options> {
        self.options@
    }

    /// The hovered entry is always a real entry, and the entry list is
    /// fixed.
    pub open spec fn wf(&self) -> bool {
        &&& self.spec_hovered() != Options::Unselected
        &&& self.spec_options() == seq![Options::New, Options::Scores, Options::Quit]
    }

    /// A fresh menu: hovering the first entry, nothing selected.
    pub fn new() -> (m: Menu)
        ensures
            m.wf(),
            m.spec_hovered() == Options::New,
            m.spec_selected() == Options::Unselected,
    {
        let m = Menu {
            hovered: Options::New,
            selected: Options::Unselected,
            options: [Options::New, Options::Scores, Options::Quit],
        };
        proof {
            assert(m.spec_options() =~= seq![Options::New, Options::Scores, Options::Quit]);
        }
        m
    }

    /// Hover one entry down; a no-op on the last entry.
    pub fn move_down(&mut self)
        requires
            old(self).wf(),
        ensures
            final(self).wf(),
            final(self).spec_hovered() == next_down(old(self).spec_hovered()),
            final(self).spec_selected() == old(self).spec_selected(),
    {
        match self.hovered {
            Options::New => self.hovered = Options::Scores,
            Options::Scores => self.hovered = Options::Quit,
            Options::Quit => {},
            Options::Unselected => {
                proof {
                    assert(false);
                }
            },
        };
    }

    /// Hover one entry up; a no-op on the first entry.
    pub fn move_up(&mut self)
        requires
            old(self).wf(),
        ensures
            final(self).wf(),
            final(self).spec_hovered() == next_up(old(self).spec_hovered()),
            final(self).spec_selected() == old(self).spec_selected(),
    {
        match self.hovered {
            Options::New => {},
            Options::Scores => self.hovered = Options::New,
            Options::Quit => self.hovered = Options::Scores,
            Options::Unselected => {
                proof {
                    assert(false);
                }
            },
        };
    }

    /// Commit the hovered entry as the selection.
    pub fn select(&mut self)
        requires
            old(self).wf(),
        ensures
            final(self).wf(),
            final(self).spec_selected() == old(self).spec_hovered(),
            final(self).spec_hovered() == old(self).spec_hovered(),
    {
        self.selected = self.hovered;
    }

    /// Leave the current screen: backing out of the score screen clears the
    /// selection, backing out anywhere else selects quitting.
    pub fn back(&mut self)
        requires
            old(self).wf(),
        ensures
            final(self).wf(),
            final(self).spec_selected() == back_target(old(self).spec_selected()),
            final(self).spec_hovered() == old(self).spec_hovered(),
    {
        match self.selected {
            Options::Scores => self.selected = Options::Unselected,
            _ => self.selected = Options::Quit,
        }
    }

    pub fn selected(&self) -> (r: Options)
        ensures
            r == self.spec_selected(),
    {
        self.selected
    }

    pub fn options(&self) -> (r: [Options; OPTION_LEN])
        ensures
            r@ == self.spec_options(),
    {
        self.options
    }

    pub fn hovered(&self) -> (r: Options)
        ensures
            r == self.spec_hovered(),
    {
        self.hovered
    }
}

} // verus!
