use vstd::prelude::*;

use crate::newsroomcore::datasources::DataSourceView;
use crate::settings::{Settings, SettingsView};

verus! {

/// The settings tab: a snapshot of the settings it presents.
#[derive(Debug)]
pub struct SettingsTab {
    settings: Settings,
}

impl View for SettingsTab {
    type V = SettingsView;

    closed spec fn view(&self) -> SettingsView {
        self.settings@
    }
}

impl SettingsTab {
    /// A settings tab presenting the given settings.
    pub fn new(settings: Settings) -> (t: SettingsTab)
        ensures
            t@ == settings@,
    {
        SettingsTab { settings }
    }

    /// The entries of the sources list: every configured source's name, in
    /// configuration order.
    pub fn source_names(&self) -> (names: Vec<String>)
        ensures
            names.deep_view() == self@.sources.map_values(|s: DataSourceView| s.name),
    {
        let mut names: Vec<String> = Vec::new();
        let mut i: usize = 0;
        while i < self.settings.sources.len()
            invariant
                i <= self.settings.sources.len(),
                names.deep_view().len() == i as int,
                forall|k: int| 0 <= k < i ==> names.deep_view()[k] == self@.sources[k].name,
            decreases self.settings.sources.len() - i,
        {
            let ghost pre = names.deep_view();
            names.push(self.settings.sources[i].name.clone());
            i = i + 1;
            proof {
                assert(names.deep_view() =~= pre.push(self@.sources[i - 1].name));
            }
        }
        proof {
            assert(names.deep_view() =~= self@.sources.map_values(|s: DataSourceView| s.name));
        }
        names
    }

    /// The text of the active-theme box: the theme's name.
    pub fn theme_name(&self) -> (name: String)
        ensures
            name@ == self@.theme.name,
    {
        self.settings.theme.name.clone()
    }
}

} // verus!
