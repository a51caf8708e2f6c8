//! The two tabs of the launcher (programs and music) and the switch
//! between them, as the tab strip keeps it: each tab's label carries an
//! "active" style class, and a `current-tab` property holds a number.
use vstd::prelude::*;

verus! {

/// A tab of the launcher.
#[derive(PartialEq, Eq, Structural, Clone, Copy, Debug)]
pub enum CrabTab {
    Programs,
    Music,
}

/// The number that stands for a tab in the `current-tab` property.
pub open spec fn tab_value(t: CrabTab) -> i32 {
    match t {
        CrabTab::Programs => 0,
        CrabTab::Music => 1,
    }
}

/// The tab that a `current-tab` number selects: 1 is music, every other
/// number is programs.
pub open spec fn tab_of_value(v: i32) -> CrabTab {
    if v == 1 {
        CrabTab::Music
    } else {
        CrabTab::Programs
    }
}

/// The other tab.
pub open spec fn other_tab(t: CrabTab) -> CrabTab {
    match t {
        CrabTab::Programs => CrabTab::Music,
        CrabTab::Music => CrabTab::Programs,
    }
}

impl Default for CrabTab {
    fn default() -> (t: Self)
        ensures
            t == CrabTab::Programs,
    {
        CrabTab::Programs
    }
}

impl CrabTab {
    /// The number that stands for the tab.
    pub fn to_value(&self) -> (v: i32)
        ensures
            v == tab_value(*self),
    {
        match self {
            CrabTab::Programs => 0,
            CrabTab::Music => 1,
        }
    }

    /// The tab that a number selects.
    pub fn from_value(v: i32) -> (t: CrabTab)
        ensures
            t == tab_of_value(v),
    {
        if v == 1 {
            CrabTab::Music
        } else {
            CrabTab::Programs
        }
    }
}

/// A tab's number selects that tab again.
pub proof fn lemma_tab_value_round_trip(t: CrabTab)
    ensures
        tab_of_value(tab_value(t)) == t,
        0 <= tab_value(t) <= 1,
{
}

/// The state of the tab strip.
#[derive(Debug)]
pub struct CrabTabs {
    /// The programs label carries the "active" class.
    pub programs_active: bool,
    /// The music label carries the "active" class.
    pub music_active: bool,
    /// The value stored behind the `current-tab` property.
    pub current_tab: CrabTab,
}

impl CrabTabs {
    /// Exactly one label is active, and it is the current tab's.
    pub open spec fn well_formed(&self) -> bool {
        self.programs_active != self.music_active && self.programs_active == (self.current_tab
            == CrabTab::Programs)
    }

    /// The tab that the labels show as active: programs when its label is
    /// active, else music when its label is, else programs.
    pub open spec fn shown_tab(&self) -> CrabTab {
        if self.programs_active {
            CrabTab::Programs
        } else if self.music_active {
            CrabTab::Music
        } else {
            CrabTab::Programs
        }
    }

    /// The strip as it is built: programs active.
    pub fn new() -> (t: CrabTabs)
        ensures
            t.programs_active,
            !t.music_active,
            t.current_tab == CrabTab::Programs,
            t.well_formed(),
    {
        CrabTabs { programs_active: true, music_active: false, current_tab: CrabTab::Programs }
    }

    /// The tab that the labels show as active.
    pub fn get_current_tab(&self) -> (t: CrabTab)
        ensures
            t == self.shown_tab(),
    {
        if self.programs_active {
            CrabTab::Programs
        } else if self.music_active {
            CrabTab::Music
        } else {
            CrabTab::Programs
        }
    }

    fn activate(&mut self, tab: CrabTab)
        ensures
            final(self).programs_active == (tab == CrabTab::Programs),
            final(self).music_active == (tab == CrabTab::Music),
            final(self).current_tab == tab,
    {
        match tab {
            CrabTab::Programs => {
                self.music_active = false;
                self.programs_active = true;
            },
            CrabTab::Music => {
                self.programs_active = false;
                self.music_active = true;
            },
        }
        self.current_tab = tab;
    }

    /// Switches to `tab`, or, without one, to the tab other than the one
    /// the labels show.
    pub fn change_tab(&mut self, tab: Option<CrabTab>)
        ensures
            final(self).well_formed(),
            final(self).current_tab == match tab {
                Some(t) => t,
                None => other_tab(old(self).shown_tab()),
            },
            final(self).shown_tab() == final(self).current_tab,
    {
        match tab {
            Some(t) => self.activate(t),
            None => {
                let next = match self.get_current_tab() {
                    CrabTab::Programs => CrabTab::Music,
                    CrabTab::Music => CrabTab::Programs,
                };
                self.activate(next);
            },
        }
    }

    /// Sets the `current-tab` property from a number.
    pub fn set_current_tab_property(&mut self, v: i32)
        ensures
            final(self).current_tab == tab_of_value(v),
            final(self).programs_active == old(self).programs_active,
            final(self).music_active == old(self).music_active,
    {
        self.current_tab = CrabTab::from_value(v);
    }

    /// Reads the `current-tab` property. The stored value is taken out of
    /// its cell as it is read, which leaves the default tab (programs)
    /// behind.
    pub fn take_current_tab_property(&mut self) -> (v: i32)
        ensures
            v == tab_value(old(self).current_tab),
            final(self).current_tab == CrabTab::Programs,
            final(self).programs_active == old(self).programs_active,
            final(self).music_active == old(self).music_active,
    {
        let v = self.current_tab.to_value();
        self.current_tab = CrabTab::Programs;
        v
    }
}

/// Switching without naming a tab, twice, comes back to the tab shown
/// before; each switch lands on the other tab.
pub proof fn lemma_toggle_twice(before: CrabTabs, middle: CrabTabs, after: CrabTabs)
    requires
        before.well_formed(),
        middle.well_formed(),
        middle.current_tab == other_tab(before.shown_tab()),
        after.current_tab == other_tab(middle.shown_tab()),
    ensures
        middle.current_tab != before.current_tab,
        after.current_tab == before.current_tab,
{
}

} // verus!
