//! State of the add-source menu: which screen is open, where the cursors
//! stand, and which discovered items are selected.

use vstd::prelude::*;
use crate::discovery::{AzureContainerApp, DockerContainer};

verus! {

/// The screens of the add-source menu.
#[derive(Debug, Clone, Copy, PartialEq, Eq, Structural)]
pub enum SourceMenuScreen {
    MainMenu,
    DockerDiscovery,
    AzureDiscovery,
    FileInput,
    CommandInput,
}

/// Number of entries in the menu's main screen: one per source kind.
pub const MAIN_MENU_COUNT: usize = 4;

/// State of the add-source menu.
pub struct SourceMenuState {
    pub screen: SourceMenuScreen,
    pub main_cursor: usize,
    pub discovery_cursor: usize,
    /// Positions of the discovered items chosen for spawning; no duplicates.
    pub selected: Vec<usize>,
    pub text_input: String,
    pub docker_containers: Vec<DockerContainer>,
    pub azure_apps: Vec<AzureContainerApp>,
    pub docker_loading: bool,
    pub azure_loading: bool,
    pub docker_error: Option<String>,
    pub azure_error: Option<String>,
}

/// Index of the first occurrence of `x`, or `-1`.
pub open spec fn find_val(s: Seq<usize>, x: usize) -> int
    decreases s.len(),
{
    if s.len() == 0 {
        -1
    } else if s[0] == x {
        0
    } else {
        let r = find_val(s.drop_first(), x);
        if r < 0 {
            -1
        } else {
            1 + r
        }
    }
}

pub proof fn lemma_find_val(s: Seq<usize>, x: usize)
    ensures
        find_val(s, x) >= 0 ==> 0 <= find_val(s, x) < s.len() && s[find_val(s, x)] == x && (forall|
            m: int,
        | 0 <= m < find_val(s, x) ==> s[m] != x),
        find_val(s, x) < 0 ==> forall|m: int| 0 <= m < s.len() ==> s[m] != x,
    decreases s.len(),
{
    if s.len() == 0 {
    } else if s[0] == x {
    } else {
        lemma_find_val(s.drop_first(), x);
        assert forall|m: int| 1 <= m < s.len() implies s.drop_first()[m - 1] == s[m] by {}
    }
}

impl SourceMenuState {
    /// The menu as it opens: main screen, cursors at the top, nothing
    /// selected, nothing loaded.
    pub fn new() -> (r: SourceMenuState)
        ensures
            r.screen is MainMenu,
            r.main_cursor == 0,
            r.discovery_cursor == 0,
            r.selected@.len() == 0,
            r.text_input@.len() == 0,
            r.docker_containers@.len() == 0,
            r.azure_apps@.len() == 0,
            !r.docker_loading,
            !r.azure_loading,
            r.docker_error is None,
            r.azure_error is None,
    {
        SourceMenuState {
            screen: SourceMenuScreen::MainMenu,
            main_cursor: 0,
            discovery_cursor: 0,
            selected: Vec::new(),
            text_input: String::new(),
            docker_containers: Vec::new(),
            azure_apps: Vec::new(),
            docker_loading: false,
            azure_loading: false,
            docker_error: None,
            azure_error: None,
        }
    }

    /// Return the menu to its opening state.
    pub fn reset(&mut self)
        ensures
            final(self).screen is MainMenu,
            final(self).main_cursor == 0,
            final(self).discovery_cursor == 0,
            final(self).selected@.len() == 0,
            final(self).text_input@.len() == 0,
            final(self).docker_containers@.len() == 0,
            final(self).azure_apps@.len() == 0,
            !final(self).docker_loading,
            !final(self).azure_loading,
            final(self).docker_error is None,
            final(self).azure_error is None,
    {
        self.screen = SourceMenuScreen::MainMenu;
        self.main_cursor = 0;
        self.discovery_cursor = 0;
        self.selected = Vec::new();
        self.text_input = String::new();
        self.docker_containers = Vec::new();
        self.azure_apps = Vec::new();
        self.docker_loading = false;
        self.azure_loading = false;
        self.docker_error = None;
        self.azure_error = None;
    }

    /// How many items the open discovery screen lists.
    pub open spec fn spec_item_count(&self) -> int {
        match self.screen {
            SourceMenuScreen::DockerDiscovery => self.docker_containers@.len() as int,
            SourceMenuScreen::AzureDiscovery => self.azure_apps@.len() as int,
            _ => 0,
        }
    }

    /// Number of items on the open discovery screen.
    pub fn discovery_item_count(&self) -> (r: usize)
        ensures
            r == self.spec_item_count(),
    {
        match self.screen {
            SourceMenuScreen::DockerDiscovery => self.docker_containers.len(),
            SourceMenuScreen::AzureDiscovery => self.azure_apps.len(),
            _ => 0,
        }
    }

    /// Toggle selection of the item under the discovery cursor: select it if
    /// it is not selected, deselect it if it is. Off-range cursors and empty
    /// screens change nothing.
    pub fn toggle_selection(&mut self)
        ensures
            final(self).screen == old(self).screen,
            final(self).main_cursor == old(self).main_cursor,
            final(self).discovery_cursor == old(self).discovery_cursor,
            final(self).text_input == old(self).text_input,
            final(self).docker_containers == old(self).docker_containers,
            final(self).azure_apps == old(self).azure_apps,
            final(self).docker_loading == old(self).docker_loading,
            final(self).azure_loading == old(self).azure_loading,
            final(self).docker_error == old(self).docker_error,
            final(self).azure_error == old(self).azure_error,
            old(self).spec_item_count() == 0 || old(self).discovery_cursor >= old(
                self,
            ).spec_item_count() ==> final(self).selected == old(self).selected,
            old(self).spec_item_count() > 0 && old(self).discovery_cursor < old(
                self,
            ).spec_item_count() ==> final(self).selected@ == (if find_val(
                old(self).selected@,
                old(self).discovery_cursor,
            ) >= 0 {
                old(self).selected@.remove(find_val(old(self).selected@, old(self).discovery_cursor))
            } else {
                old(self).selected@.push(old(self).discovery_cursor)
            }),
    {
        let count = self.discovery_item_count();
        if count > 0 && self.discovery_cursor < count {
            let ghost s0 = self.selected@;
            let cur = self.discovery_cursor;
            let mut j: usize = 0;
            let n = self.selected.len();
            while j < n
                invariant
                    j <= n,
                    n == self.selected@.len(),
                    s0 == self.selected@,
                    s0 == old(self).selected@,
                    cur == self.discovery_cursor,
                    cur == old(self).discovery_cursor,
                    self.screen == old(self).screen,
                    self.main_cursor == old(self).main_cursor,
                    self.text_input == old(self).text_input,
                    self.docker_containers == old(self).docker_containers,
                    self.azure_apps == old(self).azure_apps,
                    self.docker_loading == old(self).docker_loading,
                    self.azure_loading == old(self).azure_loading,
                    self.docker_error == old(self).docker_error,
                    self.azure_error == old(self).azure_error,
                    self.selected == old(self).selected,
                    old(self).spec_item_count() > 0,
                    old(self).discovery_cursor < old(self).spec_item_count(),
                    forall|m: int| 0 <= m < j ==> s0[m] != cur,
                decreases n - j,
            {
                if self.selected[j] == cur {
                    proof {
                        lemma_find_val(s0, cur);
                        assert(find_val(s0, cur) == j as int);
                    }
                    self.selected.remove(j);
                    return ;
                }
                j = j + 1;
            }
            proof {
                lemma_find_val(s0, cur);
                if find_val(s0, cur) >= 0 {
                    assert(s0[find_val(s0, cur)] == cur);
                    assert(false);
                }
            }
            self.selected.push(cur);
        }
    }
}

} // verus!
