//! The top-level views of the dashboard and their fixed key bindings.

use vstd::prelude::*;

verus! {

/// Number of entries in the menu bar.
pub const TAB_COUNT: usize = 9;

/// One of the mutually exclusive top-level views.  Exactly one is active at
/// a time; the selection starts at `Home` and changes only on a recognized
/// tab key.
#[derive(Clone, Copy, Debug, PartialEq, Eq, Structural)]
pub enum Tab {
    Home,
    Cpu,
    Memory,
    Network,
    Process,
    Disk,
    Temperature,
    Battery,
    Quit,
}

impl Tab {
    /// Position of this tab in the menu bar; the renderer highlights the
    /// entry at this index.
    pub open spec fn index_spec(self) -> int {
        match self {
            Tab::Home => 0,
            Tab::Cpu => 1,
            Tab::Memory => 2,
            Tab::Network => 3,
            Tab::Process => 4,
            Tab::Disk => 5,
            Tab::Temperature => 6,
            Tab::Battery => 7,
            Tab::Quit => 8,
        }
    }

    /// Position of this tab in the menu bar.
    pub fn index(self) -> (i: usize)
        ensures
            i == self.index_spec(),
            i < TAB_COUNT,
    {
        match self {
            Tab::Home => 0,
            Tab::Cpu => 1,
            Tab::Memory => 2,
            Tab::Network => 3,
            Tab::Process => 4,
            Tab::Disk => 5,
            Tab::Temperature => 6,
            Tab::Battery => 7,
            Tab::Quit => 8,
        }
    }

    /// Menu title of this tab.
    pub open spec fn title_spec(self) -> Seq<char> {
        match self {
            Tab::Home => "Home"@,
            Tab::Cpu => "CPU"@,
            Tab::Memory => "Memory"@,
            Tab::Network => "Network"@,
            Tab::Process => "Process"@,
            Tab::Disk => "Disk"@,
            Tab::Temperature => "Temperature"@,
            Tab::Battery => "Battery"@,
            Tab::Quit => "Quit"@,
        }
    }

    /// Menu title of this tab.
    pub fn title(self) -> (t: &'static str)
        ensures
            t@ == self.title_spec(),
    {
        match self {
            Tab::Home => "Home",
            Tab::Cpu => "CPU",
            Tab::Memory => "Memory",
            Tab::Network => "Network",
            Tab::Process => "Process",
            Tab::Disk => "Disk",
            Tab::Temperature => "Temperature",
            Tab::Battery => "Battery",
            Tab::Quit => "Quit",
        }
    }

    /// Whether this tab's body is a list whose length varies per snapshot,
    /// so that it scrolls and re-clamps the cursor on every render.  The
    /// other tabs render a fixed shape and never consult the cursor.
    pub open spec fn scrollable_spec(self) -> bool {
        match self {
            Tab::Network | Tab::Process | Tab::Temperature => true,
            _ => false,
        }
    }

    /// Whether this tab's body scrolls (see `scrollable_spec`).
    pub fn scrollable(self) -> (b: bool)
        ensures
            b == self.scrollable_spec(),
    {
        match self {
            Tab::Network | Tab::Process | Tab::Temperature => true,
            _ => false,
        }
    }

    /// The tab a character key selects, if it is one of the fixed tab
    /// bindings (h, c, m, n, p, d, t, b).  The quit key is not a tab
    /// binding: it ends the session instead of selecting the Quit entry.
    pub open spec fn for_key_spec(c: char) -> Option<Tab> {
        match c {
            'h' => Some(Tab::Home),
            'c' => Some(Tab::Cpu),
            'm' => Some(Tab::Memory),
            'n' => Some(Tab::Network),
            'p' => Some(Tab::Process),
            'd' => Some(Tab::Disk),
            't' => Some(Tab::Temperature),
            'b' => Some(Tab::Battery),
            _ => None,
        }
    }

    /// The tab a character key selects, if any (see `for_key_spec`).
    pub fn for_key(c: char) -> (r: Option<Tab>)
        ensures
            r == Tab::for_key_spec(c),
    {
        match c {
            'h' => Some(Tab::Home),
            'c' => Some(Tab::Cpu),
            'm' => Some(Tab::Memory),
            'n' => Some(Tab::Network),
            'p' => Some(Tab::Process),
            'd' => Some(Tab::Disk),
            't' => Some(Tab::Temperature),
            'b' => Some(Tab::Battery),
            _ => None,
        }
    }
}

} // verus!
