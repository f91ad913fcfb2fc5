//! The icon in the system tray and its menu.

use crate::daemon::DaemonStatus;
use crate::paths::branding;
use crate::settings::TraySettings;
use crate::text::cat;
use vstd::prelude::*;

verus! {

/// The seconds between two looks at the load that the daemon causes.
pub const TRAY_POLL_S: u64 = 5;

/// What the tray shows of the daemon.
#[derive(Debug)]
pub struct TrayStats {
    /// What it does.
    pub status: String,
    /// How much of the processor it takes.
    pub cpu: String,
    /// How much memory it takes.
    pub ram: String,
}

/// What an entry of the menu does.
#[derive(Clone, Copy, Debug, PartialEq, Eq, Structural)]
pub enum TrayAction {
    /// Nothing.
    Idle,
    /// It saves a clip.
    SaveClip,
    /// It restarts the daemon.
    Restart,
    /// It stops the daemon.
    Exit,
}

/// An entry of the menu.
#[derive(Debug)]
pub enum MenuEntry {
    /// A line between entries.
    Separator,
    /// An entry with a text.
    Item {
        /// The text.
        label: String,
        /// Whether it can be clicked.
        enabled: bool,
        /// Whether it is shown.
        visible: bool,
        /// Whether it carries the logo.
        logo: bool,
        /// What it does.
        action: TrayAction,
    },
}

/// What a [`MenuEntry`] says.
pub enum EntryView {
    /// A line between entries.
    Separator,
    /// An entry with a text.
    Item {
        /// The text.
        label: Seq<char>,
        /// Whether it can be clicked.
        enabled: bool,
        /// Whether it is shown.
        visible: bool,
        /// Whether it carries the logo.
        logo: bool,
        /// What it does.
        action: TrayAction,
    },
}

impl View for MenuEntry {
    type V = EntryView;

    open spec fn view(&self) -> EntryView {
        match self {
            MenuEntry::Separator => EntryView::Separator,
            MenuEntry::Item { label, enabled, visible, logo, action } => EntryView::Item {
                label: label@,
                enabled: *enabled,
                visible: *visible,
                logo: *logo,
                action: *action,
            },
        }
    }
}

/// What a menu says.
pub open spec fn menu_view(menu: Seq<MenuEntry>) -> Seq<EntryView> {
    menu.map_values(|e: MenuEntry| e@)
}

/// The tray.
#[derive(Debug)]
pub struct WayclipTray {
    /// What it shows of the daemon, once that was looked at.
    pub stats: Option<TrayStats>,
    /// What it is to show.
    pub config: TraySettings,
}

/// An entry that does something.
pub open spec fn command_entry(label: Seq<char>, visible: bool, action: TrayAction) -> EntryView {
    EntryView::Item { label, enabled: true, visible, logo: false, action }
}

/// An entry that tells something.
pub open spec fn info_entry(label: Seq<char>, visible: bool, logo: bool) -> EntryView {
    EntryView::Item { label, enabled: false, visible, logo, action: TrayAction::Idle }
}

fn make_command_entry(label: &str, visible: bool, action: TrayAction) -> (r: MenuEntry)
    ensures
        r@ == command_entry(label@, visible, action),
{
    MenuEntry::Item { label: label.to_owned(), enabled: true, visible, logo: false, action }
}

fn make_info_entry(label: &str, visible: bool, logo: bool) -> (r: MenuEntry)
    ensures
        r@ == info_entry(label@, visible, logo),
{
    MenuEntry::Item {
        label: label.to_owned(),
        enabled: false,
        visible,
        logo,
        action: TrayAction::Idle,
    }
}

impl WayclipTray {
    /// Starts the tray, if it is wanted.
    pub fn run_tray(config: TraySettings) -> (r: Option<WayclipTray>)
        ensures
            match r {
                Some(tray) => config.enabled && tray.config == config && tray.stats is None,
                None => !config.enabled,
            },
    {
        if !config.enabled {
            return None;
        }
        Some(WayclipTray { stats: None, config })
    }

    /// Whether the tray needs to look at the daemon from time to time.
    pub fn polls(&self) -> (r: bool)
        ensures
            r == (self.config.show_stats || self.config.show_status),
    {
        self.config.show_stats || self.config.show_status
    }

    /// Whether `self` is `before` after it took over what was seen of the daemon.
    pub open spec fn has_seen(
        &self,
        before: &WayclipTray,
        status: Option<DaemonStatus>,
        cpu: String,
        ram: String,
    ) -> bool {
        &&& self.config == before.config
        &&& self.stats matches Some(s) && s.status@ == (match status {
            Some(d) => d.word(),
            None => DaemonStatus::Inactive.word(),
        }) && s.cpu == cpu && s.ram == ram
    }

    /// Takes over what was seen of the daemon. What it does counts as nothing where it
    /// could not be told.
    pub fn update(&mut self, status: Option<DaemonStatus>, cpu: String, ram: String)
        ensures
            final(self).has_seen(old(self), status, cpu, ram),
    {
        let shown: DaemonStatus = match status {
            Some(d) => d,
            None => DaemonStatus::Inactive,
        };
        self.stats = Some(TrayStats { status: shown.name().to_owned(), cpu, ram });
    }

    /// The name of the tray on the bus.
    pub fn id(&self) -> (r: String)
        ensures
            r@ == "org.wayclip.Tray"@,
    {
        "org.wayclip.Tray".to_owned()
    }

    /// The name that people read.
    pub fn title(&self) -> (r: String)
        ensures
            r@ == "Wayclip"@,
    {
        "Wayclip".to_owned()
    }

    /// The icon, given the directory of the daemon's package.
    pub fn icon_name(&self, package_dir: &str) -> (r: String)
        ensures
            r@ == crate::paths::branding_path(package_dir@, "svgs"@, "wayclip.svg"@),
    {
        branding(package_dir, "svgs", "wayclip.svg")
    }

    /// The file of the logo, given the directory of the daemon's package.
    pub fn png_path(&self, package_dir: &str) -> (r: String)
        ensures
            r@ == crate::paths::branding_path(package_dir@, "pngs"@, "wayclip-256x256-p8.png"@),
    {
        branding(package_dir, "pngs", "wayclip-256x256-p8.png")
    }

    /// The text that tells what the daemon does.
    pub open spec fn status_label(&self) -> Seq<char> {
        "Status: "@ + match self.stats {
            Some(s) => s.status@,
            None => ""@,
        }
    }

    /// The text that tells the load that the daemon causes.
    pub open spec fn load_label(&self) -> Seq<char> {
        match self.stats {
            Some(s) => "CPU: "@ + s.cpu@ + " • RAM: "@ + s.ram@,
            None => "CPU: "@ + ""@ + " • RAM: "@ + ""@,
        }
    }

    /// The entries of the menu.
    pub open spec fn entries(&self) -> Seq<EntryView> {
        seq![
            info_entry("Wayclip"@, self.config.show_logo, true),
            EntryView::Separator,
            command_entry("Save Clip"@, self.config.show_save_clip, TrayAction::SaveClip),
            command_entry("Restart Daemon"@, self.config.show_restart, TrayAction::Restart),
            command_entry("Exit Tray & Daemon"@, self.config.show_exit, TrayAction::Exit),
            EntryView::Separator,
            info_entry(
                self.status_label(),
                self.stats is Some && self.config.show_status,
                false,
            ),
            info_entry(self.load_label(), self.stats is Some && self.config.show_stats, false),
        ]
    }

    /// The entries of the menu.
    pub fn menu(&self) -> (r: Vec<MenuEntry>)
        ensures
            menu_view(r@) == self.entries(),
    {
        let (status, cpu, ram) = match &self.stats {
            Some(s) => (s.status.as_str(), s.cpu.as_str(), s.ram.as_str()),
            None => ("", "", ""),
        };
        let known: bool = self.stats.is_some();
        let status_label: String = cat("Status: ", status);
        let load_label: String = cat(cat(cat("CPU: ", cpu).as_str(), " • RAM: ").as_str(), ram);
        let mut r: Vec<MenuEntry> = Vec::new();
        r.push(make_info_entry("Wayclip", self.config.show_logo, true));
        r.push(MenuEntry::Separator);
        r.push(make_command_entry("Save Clip", self.config.show_save_clip, TrayAction::SaveClip));
        r.push(make_command_entry("Restart Daemon", self.config.show_restart, TrayAction::Restart));
        r.push(make_command_entry("Exit Tray & Daemon", self.config.show_exit, TrayAction::Exit));
        r.push(MenuEntry::Separator);
        r.push(make_info_entry(status_label.as_str(), known && self.config.show_status, false));
        r.push(make_info_entry(load_label.as_str(), known && self.config.show_stats, false));
        assert(menu_view(r@) =~= self.entries());
        r
    }

    /// Whether the daemon stops itself when it is asked to: only where the service manager
    /// did not stop it.
    pub fn stops_itself(stopped_by_manager: bool) -> (r: bool)
        ensures
            r == !stopped_by_manager,
    {
        !stopped_by_manager
    }
}

/// Nothing is told of the daemon before it was looked at.
pub proof fn law_nothing_told_before_a_look(tray: WayclipTray)
    requires
        tray.stats is None,
    ensures
        tray.entries()[6] matches EntryView::Item { visible, .. } && !visible,
        tray.entries()[7] matches EntryView::Item { visible, .. } && !visible,
{
}

/// An entry can be clicked exactly when it does something.
pub proof fn law_clickable_entries_act(tray: WayclipTray, i: int)
    requires
        0 <= i < tray.entries().len(),
    ensures
        tray.entries()[i] matches EntryView::Item { enabled, action, .. } ==> (enabled
            <==> action != TrayAction::Idle),
{
}

/// The menu shows an entry exactly where its own setting says so; what tells of the daemon
/// needs a look at it as well.
pub proof fn law_each_entry_has_its_setting(tray: WayclipTray)
    ensures
        tray.entries().len() == 8,
        tray.entries()[0] matches EntryView::Item { visible, logo, .. } && visible
            == tray.config.show_logo && logo,
        tray.entries()[2] matches EntryView::Item { visible, action, .. } && visible
            == tray.config.show_save_clip && action is SaveClip,
        tray.entries()[3] matches EntryView::Item { visible, action, .. } && visible
            == tray.config.show_restart && action is Restart,
        tray.entries()[4] matches EntryView::Item { visible, action, .. } && visible
            == tray.config.show_exit && action is Exit,
        tray.entries()[6] matches EntryView::Item { visible, .. } && (visible <==> (
        tray.config.show_status && tray.stats is Some)),
        tray.entries()[7] matches EntryView::Item { visible, .. } && (visible <==> (
        tray.config.show_stats && tray.stats is Some)),
{
}

/// Once the daemon was looked at, the menu tells what was seen, whole: what it does, and its
/// load.
pub proof fn law_menu_tells_what_was_seen(tray: WayclipTray)
    requires
        tray.stats is Some,
    ensures
        tray.entries()[6] matches EntryView::Item { label, .. } && label == "Status: "@
            + tray.stats.unwrap().status@,
        tray.entries()[7] matches EntryView::Item { label, .. } && label == "CPU: "@
            + tray.stats.unwrap().cpu@ + " • RAM: "@ + tray.stats.unwrap().ram@,
{
}

/// After a look at the daemon the menu tells what it does and its load, as far as the settings
/// show them, and the settings stay; a daemon of which nothing could be told counts as inactive.
pub proof fn law_look_changes_the_menu(
    before: WayclipTray,
    after: WayclipTray,
    status: Option<DaemonStatus>,
    cpu: String,
    ram: String,
)
    requires
        after.has_seen(&before, status, cpu, ram),
    ensures
        after.config == before.config,
        after.entries()[6] matches EntryView::Item { label, visible, .. } && visible
            == before.config.show_status && label == "Status: "@ + (match status {
            Some(d) => d.word(),
            None => "Inactive"@,
        }),
        after.entries()[7] matches EntryView::Item { label, visible, .. } && visible
            == before.config.show_stats && label == "CPU: "@ + cpu@ + " • RAM: "@ + ram@,
{
}

} // verus!
