//! The plugin registry and its lifecycle: records built from the two
//! stores, toggling between them, and deletion behind a confirmation.
//!
//! The library decides; the host touches the disk. It lists the stores
//! before a refresh, and performs the move or removal that an action calls
//! for between asking for its effect and applying it.

use crate::logo::{LogoImage, LogoView};
use crate::text::{same_text, trim, trimmed};
use crate::xml::{
    element_text, event_views, lemma_text_by_prefix, open_elements, read_events, text_of,
    through_terminal, xml_events, XmlEvent, XmlEventView,
};
use vstd::prelude::*;
use vstd::string::*;

verus! {

/// One of the two directories that hold plugins. Which of them holds a
/// plugin is what makes it enabled or disabled.
#[derive(Clone, Copy, Debug, PartialEq, Eq, Structural)]
pub enum Store {
    Active,
    Disabled,
}

impl Store {
    /// The store's directory name under the configuration root.
    pub open spec fn spec_dir_name(self) -> Seq<char> {
        match self {
            Store::Active => "plugins"@,
            Store::Disabled => "wastebasket"@,
        }
    }

    /// The store that a toggle moves a plugin to.
    pub open spec fn spec_other(self) -> Store {
        match self {
            Store::Active => Store::Disabled,
            Store::Disabled => Store::Active,
        }
    }

    /// Whether plugins of this store are enabled.
    pub open spec fn spec_enabled(self) -> bool {
        self == Store::Active
    }

    pub fn dir_name(self) -> (name: &'static str)
        ensures
            name@ == self.spec_dir_name(),
    {
        match self {
            Store::Active => "plugins",
            Store::Disabled => "wastebasket",
        }
    }

    #[verifier::when_used_as_spec(spec_other)]
    pub fn other(self) -> (store: Store)
        ensures
            store == self.spec_other(),
    {
        match self {
            Store::Active => Store::Disabled,
            Store::Disabled => Store::Active,
        }
    }

    #[verifier::when_used_as_spec(spec_enabled)]
    pub fn enabled(self) -> (enabled: bool)
        ensures
            enabled == self.spec_enabled(),
    {
        match self {
            Store::Active => true,
            Store::Disabled => false,
        }
    }
}

/// The file name of the manifest inside a plugin's directory.
pub fn manifest_name() -> (name: &'static str)
    ensures
        name@ == "index.xml"@,
{
    "index.xml"
}

/// What the host found of the manifest inside a directory.
#[derive(Debug)]
pub enum ManifestFile {
    /// There is none.
    Missing,
    /// It is there but could not be read; the text says why.
    Unreadable(String),
    /// Its text.
    Text(String),
}

/// One entry found directly under a store.
#[derive(Debug)]
pub struct DirEntry {
    /// The entry's file name.
    pub name: String,
    /// Whether the entry is a directory.
    pub is_dir: bool,
    /// The manifest inside it.
    pub manifest: ManifestFile,
}

/// What the host found under the two stores.
#[derive(Debug)]
pub struct StoreListing {
    pub active: Vec<DirEntry>,
    pub disabled: Vec<DirEntry>,
}

/// A manifest file as plain values.
pub enum ManifestView {
    Missing,
    Unreadable(Seq<char>),
    Text(Seq<char>),
}

impl View for ManifestFile {
    type V = ManifestView;

    open spec fn view(&self) -> ManifestView {
        match self {
            ManifestFile::Missing => ManifestView::Missing,
            ManifestFile::Unreadable(cause) => ManifestView::Unreadable(cause@),
            ManifestFile::Text(text) => ManifestView::Text(text@),
        }
    }
}

impl ManifestView {
    /// The manifest's text, where it could be read.
    pub open spec fn text(self) -> Option<Seq<char>> {
        match self {
            ManifestView::Text(text) => Some(text),
            _ => None,
        }
    }
}

impl ManifestFile {
    /// The manifest's text, where it could be read.
    pub fn text(&self) -> (text: Option<&str>)
        ensures
            text.deep_view() == self@.text(),
    {
        match self {
            ManifestFile::Text(text) => Some(text.as_str()),
            _ => None,
        }
    }
}

/// A directory entry as plain values.
pub struct DirEntryView {
    pub name: Seq<char>,
    pub is_dir: bool,
    pub manifest: ManifestView,
}

/// A listing as plain values.
pub struct StoreListingView {
    pub active: Seq<DirEntryView>,
    pub disabled: Seq<DirEntryView>,
}

impl View for DirEntry {
    type V = DirEntryView;

    open spec fn view(&self) -> DirEntryView {
        DirEntryView { name: self.name@, is_dir: self.is_dir, manifest: self.manifest@ }
    }
}

impl View for StoreListing {
    type V = StoreListingView;

    open spec fn view(&self) -> StoreListingView {
        StoreListingView {
            active: self.active@.map_values(|e: DirEntry| e@),
            disabled: self.disabled@.map_values(|e: DirEntry| e@),
        }
    }
}

impl DeepView for StoreListing {
    type V = StoreListingView;

    open spec fn deep_view(&self) -> StoreListingView {
        self@
    }
}

/// One plugin as the registry knows it.
#[derive(Debug)]
pub struct Plugin {
    /// The identifier: the name of the plugin's directory.
    pub name: String,
    /// The name shown to the user.
    pub display_name: String,
    pub description: String,
    /// Where the logo lies, relative to the plugin's directory.
    pub logo_path: Option<String>,
    /// The store that holds the plugin's directory.
    pub store: Store,
    /// The decoded logo, once it has been loaded.
    pub texture: Option<LogoImage>,
}

/// A plugin record as plain values.
pub struct PluginView {
    pub name: Seq<char>,
    pub display_name: Seq<char>,
    pub description: Seq<char>,
    pub logo_path: Option<Seq<char>>,
    pub store: Store,
    pub texture: Option<LogoView>,
}

impl View for Plugin {
    type V = PluginView;

    open spec fn view(&self) -> PluginView {
        PluginView {
            name: self.name@,
            display_name: self.display_name@,
            description: self.description@,
            logo_path: self.logo_path.deep_view(),
            store: self.store,
            texture: self.texture.deep_view(),
        }
    }
}

/// The text of an element, or the empty text where it has none.
pub open spec fn text_or_empty(text: Option<Seq<char>>) -> Seq<char> {
    match text {
        Some(t) => t,
        None => Seq::empty(),
    }
}

/// The metadata that a run of events carries: display name and description,
/// trimmed, and the logo's path as written.
pub open spec fn metadata_of_events(events: Seq<XmlEventView>) -> (
    Seq<char>,
    Seq<char>,
    Option<Seq<char>>,
) {
    (
        trimmed(text_or_empty(element_text(events, "name"@))),
        trimmed(text_or_empty(element_text(events, "description"@))),
        element_text(events, "logo"@),
    )
}

/// The metadata of a plugin whose manifest has the given text, or none.
pub open spec fn metadata_of(manifest: Option<Seq<char>>) -> (
    Seq<char>,
    Seq<char>,
    Option<Seq<char>>,
) {
    match manifest {
        Some(xml) => metadata_of_events(through_terminal(xml_events(xml))),
        None => (Seq::empty(), Seq::empty(), None),
    }
}

/// The record for a directory found under `store`.
pub open spec fn record_of(entry: DirEntryView, store: Store) -> PluginView {
    let meta = metadata_of(entry.manifest.text());
    PluginView {
        name: entry.name,
        display_name: if meta.0.len() == 0 {
            entry.name
        } else {
            meta.0
        },
        description: meta.1,
        logo_path: meta.2,
        store,
        texture: None,
    }
}

/// The records for the directories among `entries`, in their order.
pub open spec fn records_of(entries: Seq<DirEntryView>, store: Store) -> Seq<PluginView>
    decreases entries.len(),
{
    if entries.len() == 0 {
        Seq::empty()
    } else {
        let before = records_of(entries.drop_last(), store);
        if entries.last().is_dir {
            before.push(record_of(entries.last(), store))
        } else {
            before
        }
    }
}

impl Plugin {
    /// The metadata that a plugin's manifest holds, from the events read from it.
    pub fn metadata_from_events(events: &Vec<XmlEvent>) -> (meta: (String, String, Option<String>))
        ensures
            (meta.0@, meta.1@, meta.2.deep_view()) == metadata_of_events(event_views(events@)),
    {
        let display_name = match text_of(events, "name") {
            Some(text) => trim(text.as_str()).to_owned(),
            None => String::new(),
        };
        let description = match text_of(events, "description") {
            Some(text) => trim(text.as_str()).to_owned(),
            None => String::new(),
        };
        let logo_path = text_of(events, "logo");
        proof {
            assert(trimmed(Seq::<char>::empty()) =~= Seq::<char>::empty());
        }
        (display_name, description, logo_path)
    }

    /// Reads a plugin's metadata from the text of its manifest. A plugin
    /// without a readable manifest has empty metadata; a malformed manifest
    /// gives what was read before the fault.
    pub fn load_metadata(manifest: Option<&str>) -> (meta: (String, String, Option<String>))
        ensures
            (meta.0@, meta.1@, meta.2.deep_view()) == metadata_of(manifest.deep_view()),
    {
        match manifest {
            Some(xml) => {
                let events = read_events(xml);
                Self::metadata_from_events(&events)
            },
            None => (String::new(), String::new(), None),
        }
    }

    /// The record for a directory found under `store`.
    pub fn from_entry(entry: &DirEntry, store: Store) -> (plugin: Plugin)
        ensures
            plugin@ == record_of(entry@, store),
    {
        let (display_name, description, logo_path) = Self::load_metadata(entry.manifest.text());
        let shown = if display_name.as_str().is_empty() {
            entry.name.clone()
        } else {
            display_name
        };
        Plugin {
            name: entry.name.clone(),
            display_name: shown,
            description,
            logo_path,
            store,
            texture: None,
        }
    }

    /// Whether the plugin is enabled: whether the active store holds it.
    pub fn enabled(&self) -> (enabled: bool)
        ensures
            enabled == self.store.spec_enabled(),
    {
        self.store.enabled()
    }
}

/// Why the host could not move or remove a directory.
#[derive(Clone, Copy, Debug, PartialEq, Eq, Structural)]
pub enum IoFailure {
    /// Something already lies where the directory was to go.
    DestinationExists,
    PermissionDenied,
    /// The directory is no longer there.
    NotFound,
    Other,
}

/// Why a toggle changed nothing.
#[derive(Clone, Copy, Debug, PartialEq, Eq, Structural)]
pub enum ToggleError {
    /// The registry has no record at that index.
    NoSuchPlugin,
    /// The directory could not be moved.
    MoveFailed(IoFailure),
}

/// Why a deletion removed no record.
#[derive(Clone, Copy, Debug, PartialEq, Eq, Structural)]
pub enum DeleteError {
    /// The registry has no record at that index.
    NoSuchPlugin,
    /// The directory tree could not be removed.
    RemoveFailed(IoFailure),
}

/// What the user asked for in the plugin window.
#[derive(Debug)]
pub enum Action {
    /// Delete the plugin at this index; the confirmation has been given.
    DeletePlugin(usize),
    /// Ask for confirmation before deleting the plugin of this name.
    ConfirmDelete(String),
    /// Withdraw the pending confirmation.
    CancelDelete,
    /// Move the plugin at this index to the other store.
    TogglePlugin(usize),
}

/// An action as plain values.
pub enum ActionView {
    DeletePlugin(int),
    ConfirmDelete(Seq<char>),
    CancelDelete,
    TogglePlugin(int),
}

impl View for Action {
    type V = ActionView;

    open spec fn view(&self) -> ActionView {
        match self {
            Action::DeletePlugin(index) => ActionView::DeletePlugin(*index as int),
            Action::ConfirmDelete(name) => ActionView::ConfirmDelete(name@),
            Action::CancelDelete => ActionView::CancelDelete,
            Action::TogglePlugin(index) => ActionView::TogglePlugin(*index as int),
        }
    }
}

/// What the host has to do on disk before an action can be applied.
#[derive(Debug)]
pub enum Effect {
    /// Nothing.
    Nothing,
    /// Move the directory `identifier` from one store to the other.
    Move { identifier: String, from: Store, to: Store },
    /// Remove the directory `identifier`, with all that is in it, from `store`.
    Remove { identifier: String, store: Store },
}

/// An effect as plain values.
pub enum EffectView {
    Nothing,
    Move { identifier: Seq<char>, from: Store, to: Store },
    Remove { identifier: Seq<char>, store: Store },
}

impl View for Effect {
    type V = EffectView;

    open spec fn view(&self) -> EffectView {
        match self {
            Effect::Nothing => EffectView::Nothing,
            Effect::Move { identifier, from, to } => EffectView::Move {
                identifier: identifier@,
                from: *from,
                to: *to,
            },
            Effect::Remove { identifier, store } => EffectView::Remove {
                identifier: identifier@,
                store: *store,
            },
        }
    }
}

/// The registry: the plugin records, the pending delete confirmation, and
/// whether the plugin window is open.
#[derive(Debug)]
pub struct PluginManager {
    pub show: bool,
    pub plugins: Vec<Plugin>,
    pub config_dir: String,
    pub confirm_delete: Option<String>,
}

/// The registry as plain values.
pub struct PluginManagerView {
    pub show: bool,
    pub plugins: Seq<PluginView>,
    pub config_dir: Seq<char>,
    pub confirm_delete: Option<Seq<char>>,
}

impl View for PluginManager {
    type V = PluginManagerView;

    open spec fn view(&self) -> PluginManagerView {
        PluginManagerView {
            show: self.show,
            plugins: self.plugins@.map_values(|p: Plugin| p@),
            config_dir: self.config_dir@,
            confirm_delete: self.confirm_delete.deep_view(),
        }
    }
}

impl PluginManagerView {
    /// The registry after a refresh. Without a listing (the stores could not
    /// be made ready) it is empty; with one it holds the directories of the
    /// active store, then those of the disabled store. No confirmation
    /// survives a refresh.
    pub open spec fn refreshed(self, listing: Option<StoreListingView>) -> PluginManagerView {
        PluginManagerView {
            plugins: match listing {
                Some(found) => records_of(found.active, Store::Active) + records_of(
                    found.disabled,
                    Store::Disabled,
                ),
                None => Seq::empty(),
            },
            confirm_delete: None,
            ..self
        }
    }

    /// The registry after a toggle of the record at `index`, given whether
    /// its directory was moved.
    pub open spec fn toggled(self, index: int, moved: bool) -> PluginManagerView {
        if 0 <= index < self.plugins.len() && moved {
            let record = self.plugins[index];
            PluginManagerView {
                plugins: self.plugins.update(
                    index,
                    PluginView { store: record.store.spec_other(), ..record },
                ),
                ..self
            }
        } else {
            self
        }
    }

    /// The registry after a confirmed deletion of the record at `index`,
    /// given whether its directory tree was removed.
    pub open spec fn deleted(self, index: int, removed: bool) -> PluginManagerView {
        PluginManagerView {
            plugins: if 0 <= index < self.plugins.len() && removed {
                self.plugins.remove(index)
            } else {
                self.plugins
            },
            confirm_delete: None,
            ..self
        }
    }

    /// The registry after a request to delete the plugin `name`.
    pub open spec fn requested(self, name: Seq<char>) -> PluginManagerView {
        PluginManagerView { confirm_delete: Some(name), ..self }
    }

    /// The registry after the pending confirmation was withdrawn.
    pub open spec fn cancelled(self) -> PluginManagerView {
        PluginManagerView { confirm_delete: None, ..self }
    }

    /// What has to happen on disk for an action.
    pub open spec fn effect_of(self, action: ActionView) -> EffectView {
        match action {
            ActionView::TogglePlugin(index) => if 0 <= index < self.plugins.len() {
                EffectView::Move {
                    identifier: self.plugins[index].name,
                    from: self.plugins[index].store,
                    to: self.plugins[index].store.spec_other(),
                }
            } else {
                EffectView::Nothing
            },
            ActionView::DeletePlugin(index) => if 0 <= index < self.plugins.len() {
                EffectView::Remove {
                    identifier: self.plugins[index].name,
                    store: self.plugins[index].store,
                }
            } else {
                EffectView::Nothing
            },
            _ => EffectView::Nothing,
        }
    }

    /// The registry after an action, given whether its effect succeeded.
    pub open spec fn applied(self, action: ActionView, done: bool) -> PluginManagerView {
        match action {
            ActionView::DeletePlugin(index) => self.deleted(index, done),
            ActionView::ConfirmDelete(name) => self.requested(name),
            ActionView::CancelDelete => self.cancelled(),
            ActionView::TogglePlugin(index) => self.toggled(index, done),
        }
    }

    /// Whether the row at `index` waits for the deletion to be confirmed.
    pub open spec fn confirming(self, index: int) -> bool {
        0 <= index < self.plugins.len() && self.confirm_delete == Some(self.plugins[index].name)
    }

    /// Whether no two records share an identifier.
    pub open spec fn distinct_names(self) -> bool {
        forall|i: int, j: int|
            0 <= i < j < self.plugins.len() ==> self.plugins[i].name != self.plugins[j].name
    }

    /// Whether some record has the identifier `name`.
    pub open spec fn has_plugin(self, name: Seq<char>) -> bool {
        exists|i: int| 0 <= i < self.plugins.len() && self.plugins[i].name == name
    }
}

impl PluginManager {
    /// An empty registry for the given configuration root, its window closed.
    pub fn new(config_dir: String) -> (manager: PluginManager)
        ensures
            manager@ == (PluginManagerView {
                show: false,
                plugins: Seq::empty(),
                config_dir: config_dir@,
                confirm_delete: None,
            }),
    {
        let manager = PluginManager {
            show: false,
            plugins: Vec::new(),
            config_dir,
            confirm_delete: None,
        };
        assert(manager@.plugins =~= Seq::empty());
        manager
    }

    /// Rebuilds the records from what the host found under the two stores.
    /// `listing` is none where the stores could not be made ready.
    pub fn refresh_plugins(&mut self, listing: Option<&StoreListing>)
        ensures
            final(self)@ == old(self)@.refreshed(listing.deep_view()),
    {
        self.plugins.clear();
        self.confirm_delete = None;
        assert(self@.plugins =~= Seq::empty());
        if let Some(found) = listing {
            self.add_records(&found.active, Store::Active);
            self.add_records(&found.disabled, Store::Disabled);
            assert(self@.plugins =~= records_of(found@.active, Store::Active) + records_of(
                found@.disabled,
                Store::Disabled,
            ));
        }
    }

    /// Appends the records of the directories among `entries`.
    fn add_records(&mut self, entries: &Vec<DirEntry>, store: Store)
        ensures
            final(self)@ == (PluginManagerView {
                plugins: old(self)@.plugins + records_of(
                    entries@.map_values(|e: DirEntry| e@),
                    store,
                ),
                ..old(self)@
            }),
    {
        let ghost all = entries@.map_values(|e: DirEntry| e@);
        let ghost start = self@;
        let mut i: usize = 0;
        assert(all.take(0) =~= Seq::empty());
        assert(self@.plugins =~= start.plugins + records_of(all.take(0), store));
        while i < entries.len()
            invariant
                i <= entries.len(),
                all == entries@.map_values(|e: DirEntry| e@),
                self@ == (PluginManagerView {
                    plugins: start.plugins + records_of(all.take(i as int), store),
                    ..start
                }),
            decreases entries.len() - i,
        {
            proof {
                assert(all.take(i + 1).drop_last() =~= all.take(i as int));
                assert(all.take(i + 1).last() == entries[i as int]@);
            }
            if entries[i].is_dir {
                let plugin = Plugin::from_entry(&entries[i], store);
                let ghost before = self@.plugins;
                let ghost record = plugin@;
                self.plugins.push(plugin);
                assert(self@.plugins =~= before.push(record));
                assert(records_of(all.take(i + 1), store) == records_of(
                    all.take(i as int),
                    store,
                ).push(record));
                assert(self@.plugins =~= start.plugins + records_of(all.take(i + 1), store));
            }
            i += 1;
        }
        assert(all.take(entries.len() as int) =~= all);
    }
}

/// A button of a plugin's row in the plugin window.
#[derive(Clone, Copy, Debug, PartialEq, Eq, Structural)]
pub enum RowButton {
    /// "Delete", shown while the row does not wait for a confirmation.
    Delete,
    /// "Cancel", shown while it does.
    Cancel,
    /// "Confirm Delete", shown while it does.
    ConfirmDelete,
    /// "Enable" or "Disable".
    Toggle,
}

/// What the plugin window shows of one plugin.
#[derive(Debug)]
pub struct PluginRow {
    pub heading: String,
    pub description: String,
    /// Whether the row offers "Cancel" and "Confirm Delete" in place of "Delete".
    pub confirming: bool,
    /// The caption of the toggle button.
    pub toggle_text: String,
    /// Whether a decoded logo is at hand.
    pub has_logo: bool,
}

/// A row as plain values.
pub struct PluginRowView {
    pub heading: Seq<char>,
    pub description: Seq<char>,
    pub confirming: bool,
    pub toggle_text: Seq<char>,
    pub has_logo: bool,
}

impl View for PluginRow {
    type V = PluginRowView;

    open spec fn view(&self) -> PluginRowView {
        PluginRowView {
            heading: self.heading@,
            description: self.description@,
            confirming: self.confirming,
            toggle_text: self.toggle_text@,
            has_logo: self.has_logo,
        }
    }
}

impl PluginManagerView {
    /// The row of the record at `index`.
    pub open spec fn row(self, index: int) -> PluginRowView {
        let record = self.plugins[index];
        PluginRowView {
            heading: record.display_name,
            description: record.description,
            confirming: self.confirming(index),
            toggle_text: if record.store.spec_enabled() {
                "Disable"@
            } else {
                "Enable"@
            },
            has_logo: record.texture is Some,
        }
    }

    /// The action that a press of `button` in the row at `index` asks for;
    /// none where there is no such row or the row does not show the button.
    pub open spec fn clicked(self, index: int, button: RowButton) -> Option<ActionView> {
        if !(0 <= index < self.plugins.len()) {
            None
        } else {
            match button {
                RowButton::Toggle => Some(ActionView::TogglePlugin(index)),
                RowButton::Delete => if self.confirming(index) {
                    None
                } else {
                    Some(ActionView::ConfirmDelete(self.plugins[index].name))
                },
                RowButton::Cancel => if self.confirming(index) {
                    Some(ActionView::CancelDelete)
                } else {
                    None
                },
                RowButton::ConfirmDelete => if self.confirming(index) {
                    Some(ActionView::DeletePlugin(index))
                } else {
                    None
                },
            }
        }
    }
}

impl Plugin {
    /// Whether the logo has yet to be loaded: the plugin names one and none
    /// is at hand.
    pub fn wants_logo(&self) -> (wanted: bool)
        ensures
            wanted == (self.texture is None && self.logo_path is Some),
    {
        self.texture.is_none() && self.logo_path.is_some()
    }

    /// Takes what the host made of the logo's file: the decoded image, or
    /// nothing where the file did not decode. Where the logo was wanted, the
    /// plugin now holds that; else nothing changes.
    pub fn load_logo(&mut self, logo: Option<LogoImage>)
        ensures
            final(self)@ == (PluginView {
                texture: if old(self).texture is None && old(self).logo_path is Some {
                    logo.deep_view()
                } else {
                    old(self)@.texture
                },
                ..old(self)@
            }),
    {
        if self.texture.is_none() && self.logo_path.is_some() {
            self.texture = logo;
        }
    }
}

/// Whether a move may be tried, given whether something already lies where
/// the directory is to go: a move never replaces what is there.
pub fn move_allowed(destination_taken: bool) -> (allowed: Result<(), IoFailure>)
    ensures
        allowed == if destination_taken {
            Err::<(), IoFailure>(IoFailure::DestinationExists)
        } else {
            Ok(())
        },
{
    if destination_taken {
        Err(IoFailure::DestinationExists)
    } else {
        Ok(())
    }
}

impl PluginManager {
    /// Whether the row at `index` waits for the deletion to be confirmed.
    pub fn confirming(&self, index: usize) -> (confirming: bool)
        ensures
            confirming == self@.confirming(index as int),
    {
        if index >= self.plugins.len() {
            return false;
        }
        match &self.confirm_delete {
            Some(pending) => same_text(pending.as_str(), self.plugins[index].name.as_str()),
            None => false,
        }
    }

    /// Two records that share an identifier, if there are any. The two stores
    /// are listed apart, so one name may turn up in both; which of the two
    /// directories an action then means is for the caller to settle.
    pub fn name_conflict(&self) -> (found: Option<(usize, usize)>)
        ensures
            found is None <==> self@.distinct_names(),
            found matches Some((i, j)) ==> i < j < self.plugins.len() && self@.plugins[i as int].name
                == self@.plugins[j as int].name,
    {
        let mut i: usize = 0;
        while i < self.plugins.len()
            invariant
                i <= self.plugins.len(),
                forall|a: int, b: int|
                    0 <= a < i && a < b < self.plugins.len() ==> self@.plugins[a].name
                        != self@.plugins[b].name,
            decreases self.plugins.len() - i,
        {
            let mut j: usize = i + 1;
            while j < self.plugins.len()
                invariant
                    i < self.plugins.len(),
                    i < j <= self.plugins.len(),
                    forall|b: int| i < b < j ==> self@.plugins[i as int].name != self@.plugins[b].name,
                decreases self.plugins.len() - j,
            {
                if same_text(self.plugins[i].name.as_str(), self.plugins[j].name.as_str()) {
                    return Some((i, j));
                }
                j += 1;
            }
            i += 1;
        }
        None
    }

    /// Moves the record at `index` to the other store, if the host moved its
    /// directory there; a failed move leaves the registry as it was.
    pub fn toggle_plugin(&mut self, index: usize, outcome: Result<(), IoFailure>) -> (result:
        Result<Store, ToggleError>)
        ensures
            final(self)@ == old(self)@.toggled(index as int, outcome is Ok),
            outcome is Err ==> final(self)@ == old(self)@,
            index >= old(self).plugins.len() ==> result == Err::<Store, ToggleError>(
                ToggleError::NoSuchPlugin,
            ),
            index < old(self).plugins.len() ==> result == match outcome {
                Ok(_) => Ok::<Store, ToggleError>(old(self)@.plugins[index as int].store.spec_other()),
                Err(cause) => Err(ToggleError::MoveFailed(cause)),
            },
    {
        if index >= self.plugins.len() {
            return Err(ToggleError::NoSuchPlugin);
        }
        match outcome {
            Err(cause) => Err(ToggleError::MoveFailed(cause)),
            Ok(_) => {
                let to = self.plugins[index].store.other();
                self.plugins[index].store = to;
                assert(self@.plugins =~= old(self)@.toggled(index as int, true).plugins);
                Ok(to)
            },
        }
    }

    /// Asks for confirmation before the plugin `name` is deleted. An earlier
    /// request is forgotten.
    pub fn request_delete(&mut self, name: String)
        ensures
            final(self)@ == old(self)@.requested(name@),
    {
        self.confirm_delete = Some(name);
    }

    /// Withdraws the pending confirmation, if there is one.
    pub fn cancel_delete(&mut self)
        ensures
            final(self)@ == old(self)@.cancelled(),
    {
        self.confirm_delete = None;
    }

    /// Drops the record at `index`, if the host removed its directory tree.
    /// Whatever came of it, no confirmation is pending afterwards.
    pub fn delete_plugin(&mut self, index: usize, outcome: Result<(), IoFailure>) -> (result:
        Result<(), DeleteError>)
        ensures
            final(self)@ == old(self)@.deleted(index as int, outcome is Ok),
            index >= old(self).plugins.len() ==> result == Err::<(), DeleteError>(
                DeleteError::NoSuchPlugin,
            ),
            index < old(self).plugins.len() ==> result == match outcome {
                Ok(_) => Ok::<(), DeleteError>(()),
                Err(cause) => Err(DeleteError::RemoveFailed(cause)),
            },
    {
        self.confirm_delete = None;
        if index >= self.plugins.len() {
            return Err(DeleteError::NoSuchPlugin);
        }
        match outcome {
            Err(cause) => Err(DeleteError::RemoveFailed(cause)),
            Ok(_) => {
                self.plugins.remove(index);
                assert(self@.plugins =~= old(self)@.plugins.remove(index as int));
                Ok(())
            },
        }
    }

    /// What the host has to do on disk before `action` is applied.
    pub fn effect_of(&self, action: &Action) -> (effect: Effect)
        ensures
            effect@ == self@.effect_of(action@),
    {
        match action {
            Action::TogglePlugin(index) => {
                if *index < self.plugins.len() {
                    let record = &self.plugins[*index];
                    Effect::Move {
                        identifier: record.name.clone(),
                        from: record.store,
                        to: record.store.other(),
                    }
                } else {
                    Effect::Nothing
                }
            },
            Action::DeletePlugin(index) => {
                if *index < self.plugins.len() {
                    let record = &self.plugins[*index];
                    Effect::Remove { identifier: record.name.clone(), store: record.store }
                } else {
                    Effect::Nothing
                }
            },
            _ => Effect::Nothing,
        }
    }

    /// Applies an action, given how its effect on disk went. For an action
    /// without an effect the outcome is not looked at.
    pub fn apply(&mut self, action: Action, outcome: Result<(), IoFailure>)
        ensures
            final(self)@ == old(self)@.applied(action@, outcome is Ok),
    {
        match action {
            Action::DeletePlugin(index) => {
                let _ = self.delete_plugin(index, outcome);
            },
            Action::ConfirmDelete(name) => self.request_delete(name),
            Action::CancelDelete => self.cancel_delete(),
            Action::TogglePlugin(index) => {
                let _ = self.toggle_plugin(index, outcome);
            },
        }
    }

    /// The action that a press of `button` in the row at `index` asks for.
    pub fn click(&self, index: usize, button: RowButton) -> (action: Option<Action>)
        ensures
            action.deep_view() == self@.clicked(index as int, button),
    {
        if index >= self.plugins.len() {
            return None;
        }
        let confirming = self.confirming(index);
        match button {
            RowButton::Toggle => Some(Action::TogglePlugin(index)),
            RowButton::Delete => if confirming {
                None
            } else {
                Some(Action::ConfirmDelete(self.plugins[index].name.clone()))
            },
            RowButton::Cancel => if confirming {
                Some(Action::CancelDelete)
            } else {
                None
            },
            RowButton::ConfirmDelete => if confirming {
                Some(Action::DeletePlugin(index))
            } else {
                None
            },
        }
    }

    /// The close button of the plugin window was pressed.
    pub fn close(&mut self)
        ensures
            final(self)@ == (PluginManagerView { show: false, ..old(self)@ }),
    {
        self.show = false;
    }

    /// What the plugin window shows this frame: nothing while it is closed,
    /// else one row for each record, in the registry's order.
    pub fn draw(&self) -> (rows: Option<Vec<PluginRow>>)
        ensures
            rows is Some <==> self.show,
            self.show ==> rows->0@.len() == self.plugins.len(),
            self.show ==> forall|i: int|
                0 <= i < self.plugins.len() ==> (#[trigger] rows->0@[i])@ == self@.row(i),
    {
        if !self.show {
            return None;
        }
        let mut rows: Vec<PluginRow> = Vec::new();
        let mut i: usize = 0;
        while i < self.plugins.len()
            invariant
                i <= self.plugins.len(),
                rows.len() == i,
                forall|k: int| 0 <= k < i ==> (#[trigger] rows@[k])@ == self@.row(k),
            decreases self.plugins.len() - i,
        {
            let record = &self.plugins[i];
            let toggle_text = if record.store.enabled() {
                "Disable"
            } else {
                "Enable"
            };
            rows.push(
                PluginRow {
                    heading: record.display_name.clone(),
                    description: record.description.clone(),
                    confirming: self.confirming(i),
                    toggle_text: String::from_str(toggle_text),
                    has_logo: record.texture.is_some(),
                },
            );
            i += 1;
        }
        Some(rows)
    }
}

impl DeepView for Action {
    type V = ActionView;

    open spec fn deep_view(&self) -> ActionView {
        self@
    }
}

/// Every record built from the entries of a store lies in that store and is
/// the record of a directory among the entries.
pub proof fn lemma_records_come_from_directories(
    entries: Seq<DirEntryView>,
    store: Store,
    i: int,
)
    requires
        0 <= i < records_of(entries, store).len(),
    ensures
        records_of(entries, store)[i].store == store,
        exists|j: int|
            0 <= j < entries.len() && entries[j].is_dir && records_of(entries, store)[i]
                == record_of(#[trigger] entries[j], store),
    decreases entries.len(),
{
    let before = records_of(entries.drop_last(), store);
    if i < before.len() {
        lemma_records_come_from_directories(entries.drop_last(), store, i);
        let j = choose|j: int|
            0 <= j < entries.drop_last().len() && entries.drop_last()[j].is_dir && before[i]
                == record_of(#[trigger] entries.drop_last()[j], store);
        assert(entries[j] == entries.drop_last()[j]);
    } else {
        assert(entries.last().is_dir);
        assert(entries[entries.len() - 1] == entries.last());
    }
}

/// After a refresh a record is enabled exactly if its directory was found
/// under the active store, and each record stems from a directory of the
/// store that it is marked with.
pub proof fn lemma_refresh_enabled_iff_active(
    manager: PluginManagerView,
    listing: StoreListingView,
    i: int,
)
    requires
        0 <= i < manager.refreshed(Some(listing)).plugins.len(),
    ensures
        ({
            let record = manager.refreshed(Some(listing)).plugins[i];
            &&& record.store.spec_enabled() == (i < records_of(listing.active, Store::Active).len())
            &&& record.store == Store::Active ==> exists|j: int|
                0 <= j < listing.active.len() && listing.active[j].is_dir && record == record_of(
                    #[trigger] listing.active[j],
                    Store::Active,
                )
            &&& record.store == Store::Disabled ==> exists|j: int|
                0 <= j < listing.disabled.len() && listing.disabled[j].is_dir && record
                    == record_of(#[trigger] listing.disabled[j], Store::Disabled)
        }),
{
    let active = records_of(listing.active, Store::Active);
    let disabled = records_of(listing.disabled, Store::Disabled);
    let record = manager.refreshed(Some(listing)).plugins[i];
    if i < active.len() {
        assert(record == active[i]);
        lemma_records_come_from_directories(listing.active, Store::Active, i);
        let j = choose|j: int|
            0 <= j < listing.active.len() && listing.active[j].is_dir && active[i] == record_of(
                #[trigger] listing.active[j],
                Store::Active,
            );
        assert(record == record_of(listing.active[j], record.store));
    } else {
        let at = i - active.len();
        assert(record == disabled[at]);
        lemma_records_come_from_directories(listing.disabled, Store::Disabled, at);
        let j = choose|j: int|
            0 <= j < listing.disabled.len() && listing.disabled[j].is_dir && disabled[at]
                == record_of(#[trigger] listing.disabled[j], Store::Disabled);
        assert(record == record_of(listing.disabled[j], record.store));
    }
}

/// A directory without a readable manifest gets empty metadata, and its
/// record shows the directory's name.
pub proof fn lemma_no_manifest_falls_back_to_name(entry: DirEntryView, store: Store)
    requires
        !(entry.manifest is Text),
    ensures
        metadata_of(entry.manifest.text()) == (
            Seq::<char>::empty(),
            Seq::<char>::empty(),
            None::<Seq<char>>,
        ),
        record_of(entry, store).name == entry.name,
        record_of(entry, store).display_name == entry.name,
        record_of(entry, store).description == Seq::<char>::empty(),
        record_of(entry, store).logo_path is None,
{
}

/// A toggle whose move failed changes nothing, however often it is tried.
pub proof fn lemma_failed_toggle_changes_nothing(manager: PluginManagerView, index: int)
    ensures
        manager.toggled(index, false) == manager,
        manager.toggled(index, false).toggled(index, false) == manager,
{
}

/// Two successful toggles of one record bring the registry back to where it was.
pub proof fn lemma_toggle_twice_is_identity(manager: PluginManagerView, index: int)
    ensures
        manager.toggled(index, true).toggled(index, true) == manager,
{
    if 0 <= index < manager.plugins.len() {
        let once = manager.toggled(index, true);
        let twice = once.toggled(index, true);
        assert(twice.plugins =~= manager.plugins);
    }
}

/// A successful toggle flips the record's store and nothing else.
pub proof fn lemma_toggle_flips_store(manager: PluginManagerView, index: int)
    requires
        0 <= index < manager.plugins.len(),
    ensures
        manager.toggled(index, true).plugins.len() == manager.plugins.len(),
        manager.toggled(index, true).plugins[index].store.spec_enabled()
            != manager.plugins[index].store.spec_enabled(),
        manager.toggled(index, true).plugins[index].name == manager.plugins[index].name,
        forall|k: int|
            0 <= k < manager.plugins.len() && k != index ==> manager.toggled(index, true).plugins[k]
                == manager.plugins[k],
{
}

/// A successful deletion removes the record at `index` and no other; where
/// identifiers are distinct, none of the plugin's name is left. A failed
/// deletion keeps every record. Either way no confirmation is pending.
pub proof fn lemma_delete_removes_exactly_one(manager: PluginManagerView, index: int)
    requires
        0 <= index < manager.plugins.len(),
    ensures
        manager.deleted(index, true).plugins.len() == manager.plugins.len() - 1,
        forall|k: int|
            0 <= k < index ==> manager.deleted(index, true).plugins[k] == manager.plugins[k],
        forall|k: int|
            index <= k < manager.plugins.len() - 1 ==> manager.deleted(index, true).plugins[k]
                == manager.plugins[k + 1],
        manager.distinct_names() ==> !manager.deleted(index, true).has_plugin(
            manager.plugins[index].name,
        ),
        manager.deleted(index, false).plugins == manager.plugins,
        manager.deleted(index, false).has_plugin(manager.plugins[index].name),
        manager.deleted(index, true).confirm_delete is None,
        manager.deleted(index, false).confirm_delete is None,
{
    let after = manager.deleted(index, true);
    if manager.distinct_names() && after.has_plugin(manager.plugins[index].name) {
        let k = choose|k: int|
            0 <= k < after.plugins.len() && after.plugins[k].name == manager.plugins[index].name;
        if k < index {
            assert(manager.plugins[k].name != manager.plugins[index].name);
        } else {
            assert(manager.plugins[index].name != manager.plugins[k + 1].name);
        }
    }
}

/// Only the request made last is pending.
pub proof fn lemma_last_request_wins(manager: PluginManagerView, a: Seq<char>, b: Seq<char>)
    ensures
        manager.requested(a).requested(b).confirm_delete == Some(b),
        manager.requested(a).requested(b) == manager.requested(b),
{
}

/// A confirmation, a cancellation and a refresh each leave nothing pending.
pub proof fn lemma_confirmation_ends(
    manager: PluginManagerView,
    index: int,
    removed: bool,
    listing: Option<StoreListingView>,
)
    ensures
        manager.deleted(index, removed).confirm_delete is None,
        manager.cancelled().confirm_delete is None,
        manager.refreshed(listing).confirm_delete is None,
{
}

/// The events of an element that holds character data and nothing else.
pub open spec fn element(tag: Seq<char>, text: Seq<char>) -> Seq<XmlEventView> {
    seq![XmlEventView::Start(tag), XmlEventView::Text(text), XmlEventView::End]
}

/// A manifest of a name and a description yields both, trimmed, whichever
/// of the two elements comes first.
pub proof fn lemma_metadata_ignores_element_order(name: Seq<char>, description: Seq<char>)
    ensures
        metadata_of_events(
            element("name"@, name) + element("description"@, description) + seq![XmlEventView::Eof],
        ) == (trimmed(name), trimmed(description), None::<Seq<char>>),
        metadata_of_events(
            element("description"@, description) + element("name"@, name) + seq![XmlEventView::Eof],
        ) == (trimmed(name), trimmed(description), None::<Seq<char>>),
{
    lemma_field_names_differ();
    let n = "name"@;
    let d = "description"@;
    let first = element(n, name) + element(d, description) + seq![XmlEventView::Eof];
    let second = element(d, description) + element(n, name) + seq![XmlEventView::Eof];
    assert(first =~= element(n, name) + Seq::<XmlEventView>::empty() + element(d, description)
        + seq![XmlEventView::Eof]);
    assert(second =~= element(d, description) + Seq::<XmlEventView>::empty() + element(n, name)
        + seq![XmlEventView::Eof]);
    lemma_text_of_two_elements(n, d, name, description, Seq::empty());
    lemma_text_of_two_elements(d, n, description, name, Seq::empty());
}

/// Text that stands between two elements, inside neither, reaches no field.
pub proof fn lemma_text_between_elements_reaches_no_field(
    name: Seq<char>,
    stray: Seq<char>,
    description: Seq<char>,
)
    ensures
        metadata_of_events(
            element("name"@, name) + seq![XmlEventView::Text(stray)] + element(
                "description"@,
                description,
            ) + seq![XmlEventView::Eof],
        ) == (trimmed(name), trimmed(description), None::<Seq<char>>),
{
    lemma_field_names_differ();
    lemma_text_of_two_elements(
        "name"@,
        "description"@,
        name,
        description,
        seq![XmlEventView::Text(stray)],
    );
}

/// The three element names of a manifest differ from each other.
proof fn lemma_field_names_differ()
    ensures
        "name"@ != "description"@,
        "name"@ != "logo"@,
        "description"@ != "logo"@,
{
    reveal_strlit("name");
    reveal_strlit("description");
    reveal_strlit("logo");
    assert("name"@.len() == 4 && "description"@.len() == 11 && "logo"@.len() == 4);
    assert("name"@[0] == 'n' && "logo"@[0] == 'l');
}

/// In the events of two elements of different names, with at most one text
/// between them, each name has its own element's text and any other name
/// has none.
proof fn lemma_text_of_two_elements(
    a: Seq<char>,
    b: Seq<char>,
    x: Seq<char>,
    y: Seq<char>,
    between: Seq<XmlEventView>,
)
    requires
        a != b,
        between.len() == 0 || (between.len() == 1 && between[0] is Text),
    ensures
        ({
            let events = element(a, x) + between + element(b, y) + seq![XmlEventView::Eof];
            &&& element_text(events, a) == Some(x)
            &&& element_text(events, b) == Some(y)
            &&& forall|c: Seq<char>| c != a && c != b ==> element_text(events, c) is None
        }),
{
    let events = element(a, x) + between + element(b, y) + seq![XmlEventView::Eof];
    let m = between.len() as int;
    assert(events.len() == 7 + m);
    assert(events[0] == XmlEventView::Start(a));
    assert(events[1] == XmlEventView::Text(x));
    assert(events[2] == XmlEventView::End);
    if m == 1 {
        assert(events[3] == between[0]);
    }
    assert(events[3 + m] == XmlEventView::Start(b));
    assert(events[4 + m] == XmlEventView::Text(y));
    assert(events[5 + m] == XmlEventView::End);
    assert(events[6 + m] == XmlEventView::Eof);
    assert(open_elements(events, 0) =~= Seq::<Seq<char>>::empty());
    assert(open_elements(events, 1) =~= seq![a]);
    assert(open_elements(events, 2) =~= seq![a]);
    assert(open_elements(events, 3) =~= Seq::<Seq<char>>::empty());
    assert(open_elements(events, 3 + m) =~= Seq::<Seq<char>>::empty());
    assert(open_elements(events, 4 + m) =~= seq![b]);
    assert(open_elements(events, 5 + m) =~= seq![b]);
    assert(open_elements(events, 6 + m) =~= Seq::<Seq<char>>::empty());
    assert forall|c: Seq<char>| true implies #[trigger] element_text(events, c) == if c == b {
        Some(y)
    } else if c == a {
        Some(x)
    } else {
        None
    } by {
        lemma_text_by_prefix(events, c, 0);
        lemma_text_by_prefix(events, c, 1);
        lemma_text_by_prefix(events, c, 2);
        lemma_text_by_prefix(events, c, 3);
        if m == 1 {
            lemma_text_by_prefix(events, c, 4);
        }
        lemma_text_by_prefix(events, c, 3 + m + 1);
        lemma_text_by_prefix(events, c, 4 + m + 1);
        lemma_text_by_prefix(events, c, 5 + m + 1);
        lemma_text_by_prefix(events, c, 6 + m + 1);
        assert(events.take(events.len() as int) =~= events);
    }
}

} // verus!
