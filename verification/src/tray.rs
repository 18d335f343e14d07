//! The tray controller: the icon's lifecycle, the menu surface, and what
//! each incoming event does to the displayed title.
//!
//! The toolkit that owns the real icon runs outside. The controller here is
//! the decision half: the event loop feeds it each event and executes the
//! action it hands back.

use vstd::prelude::*;

use crate::durations::ApiResponse;
use crate::durations::sum_millis;
use crate::durations::title_spec;
use crate::durations::total_seconds_spec;
use crate::durations::lemma_sum_millis_bounds;

verus! {

/// Where the controller stands in the icon's lifecycle.
pub enum TrayPhase {
    /// Before the UI loop's first tick: the menu is built, no icon yet.
    PreInit,
    /// The icon shows the startup title; no response has arrived yet.
    Running,
    /// The icon shows a formatted total.
    Updated,
    /// Quit was chosen: the icon is released and the loop asked to exit.
    ShuttingDown,
}

/// The controller's state: the lifecycle phase and the title the icon
/// shows while it lives.
pub struct TrayModel {
    pub phase: TrayPhase,
    pub title: String,
}

/// The orders the controller hands back to the event loop.
pub enum UiAction {
    /// Construct the icon with the pre-built menu, this title and this
    /// tooltip.
    CreateIcon { title: String, tooltip: String },
    /// Replace the icon's title.
    SetTitle { title: String },
    /// Launch the OS opener on the configuration file, so the user edits
    /// the API key externally.
    OpenConfig,
    /// Release the icon and exit the event loop.
    ReleaseIconAndExit,
    /// Nothing to do.
    Nothing,
}

/// The menu's entries, in display order.
#[derive(Clone, Copy)]
pub enum MenuEntry {
    /// The predefined About item.
    About,
    Separator,
    /// Opens the configuration file in the OS default editor.
    EnterApiKey,
    Quit,
}

/// The menu surface, top to bottom.
pub fn menu_layout() -> (v: Vec<MenuEntry>)
    ensures
        v@ == seq![
            MenuEntry::About,
            MenuEntry::Separator,
            MenuEntry::EnterApiKey,
            MenuEntry::Quit,
        ],
{
    let mut v: Vec<MenuEntry> = Vec::new();
    v.push(MenuEntry::About);
    v.push(MenuEntry::Separator);
    v.push(MenuEntry::EnterApiKey);
    v.push(MenuEntry::Quit);
    proof {
        assert(v@ =~= seq![
            MenuEntry::About,
            MenuEntry::Separator,
            MenuEntry::EnterApiKey,
            MenuEntry::Quit,
        ]);
    }
    v
}

/// The label each menu entry shows (the separator has none).
pub fn menu_label(entry: &MenuEntry) -> (r: &'static str)
    ensures
        entry is About ==> r@ == "About waka tray"@,
        entry is Separator ==> r@ == ""@,
        entry is EnterApiKey ==> r@ == "Enter WakaTime API key"@,
        entry is Quit ==> r@ == "Quit"@,
{
    match entry {
        MenuEntry::About => "About waka tray",
        MenuEntry::Separator => "",
        MenuEntry::EnterApiKey => "Enter WakaTime API key",
        MenuEntry::Quit => "Quit",
    }
}

/// The application name the About item shows.
pub fn about_name() -> (r: &'static str)
    ensures
        r@ == "waka tray"@,
{
    "waka tray"
}

/// The copyright line the About item shows.
pub fn about_copyright() -> (r: &'static str)
    ensures
        r@ == "@2024 goverclock"@,
{
    "@2024 goverclock"
}

/// The icon's tooltip.
pub fn tooltip() -> (r: &'static str)
    ensures
        r@ == "waka tray - coding time at tray"@,
{
    "waka tray - coding time at tray"
}

/// The title the icon shows until the first response arrives.
pub fn startup_title() -> (r: &'static str)
    ensures
        r@ == "startup"@,
{
    "startup"
}

impl TrayModel {
    /// Exactly one icon exists while this holds: from the loop's first
    /// tick until Quit releases it.
    pub open spec fn icon_live(self) -> bool {
        self.phase is Running || self.phase is Updated
    }

    /// The title reflects the most recent successful response: `startup`
    /// until one arrives, afterwards a formatted total (last writer wins).
    pub open spec fn wf(self) -> bool {
        &&& self.phase is Running ==> self.title@ == "startup"@
        &&& self.phase is Updated ==> exists|seconds: int|
            0 <= seconds <= u32::MAX && self.title@ == title_spec(seconds)
    }

    /// The controller as bootstrap builds it, before the loop runs.
    pub fn new() -> (r: TrayModel)
        ensures
            r.phase is PreInit,
            !r.icon_live(),
            r.wf(),
    {
        TrayModel { phase: TrayPhase::PreInit, title: String::new() }
    }

    /// The UI loop's first tick: construct the icon — not earlier — with
    /// the startup title and the tooltip.
    pub fn on_init(&mut self) -> (a: UiAction)
        requires
            old(self).phase is PreInit,
        ensures
            final(self).phase is Running,
            final(self).icon_live(),
            final(self).wf(),
            (a matches UiAction::CreateIcon { title, tooltip } && title@ == "startup"@
                && tooltip@ == "waka tray - coding time at tray"@),
    {
        self.phase = TrayPhase::Running;
        self.title = String::from_str(startup_title());
        UiAction::CreateIcon {
            title: String::from_str(startup_title()),
            tooltip: String::from_str(tooltip()),
        }
    }

    /// A decoded response arrived from the worker: recompute the total and
    /// replace the title.
    pub fn on_response(&mut self, resp: &ApiResponse) -> (a: UiAction)
        requires
            old(self).icon_live(),
            old(self).wf(),
        ensures
            final(self).phase is Updated,
            final(self).icon_live(),
            final(self).wf(),
            final(self).title@ == title_spec(total_seconds_spec(*resp)),
            (a matches UiAction::SetTitle { title } && title@ == title_spec(
                total_seconds_spec(*resp),
            )),
    {
        let title = resp.title();
        self.title = title.clone();
        self.phase = TrayPhase::Updated;
        proof {
            lemma_sum_millis_bounds(resp.data@);
            assert(0 <= total_seconds_spec(*resp) <= u32::MAX);
        }
        UiAction::SetTitle { title }
    }

    /// A menu event. Quit releases the icon and asks the loop to exit; the
    /// API-key entry opens the configuration file and changes nothing
    /// in-process; the rest is handled by the toolkit itself.
    pub fn on_menu(&mut self, entry: MenuEntry) -> (a: UiAction)
        requires
            old(self).wf(),
        ensures
            final(self).wf(),
            entry is Quit ==> final(self).phase is ShuttingDown && !final(self).icon_live()
                && a is ReleaseIconAndExit,
            !(entry is Quit) ==> *final(self) == *old(self),
            entry is EnterApiKey ==> a is OpenConfig,
            !(entry is Quit) && !(entry is EnterApiKey) ==> a is Nothing,
    {
        match entry {
            MenuEntry::Quit => {
                self.phase = TrayPhase::ShuttingDown;
                UiAction::ReleaseIconAndExit
            },
            MenuEntry::EnterApiKey => UiAction::OpenConfig,
            _ => UiAction::Nothing,
        }
    }
}

} // verus!
