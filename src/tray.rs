//! The tray controller: its identity, its menu, and the dispatch of a menu
//! activation to exactly one effect.
use crate::descriptor::RegistrationDescriptor;
use crate::signal::{fire_step, ShutdownSignal};
use vstd::prelude::*;

verus! {

/// The link opened by the "License" entry.
pub open spec fn license_url_text() -> Seq<char> {
    "https://github.com/lichess-org/external-engine/blob/main/COPYING.md"@
}

/// The link opened by the "License" entry.
pub fn license_url() -> (r: &'static str)
    ensures
        r@ == license_url_text(),
{
    "https://github.com/lichess-org/external-engine/blob/main/COPYING.md"
}

/// The tray's status as shown by the host.
#[derive(Clone, Copy, Debug, PartialEq, Eq, Structural)]
pub enum TrayStatus {
    Passive,
}

/// What activating a menu entry does.
#[derive(Clone, Copy, Debug, PartialEq, Eq, Structural)]
pub enum MenuAction {
    OpenRegistrationUrl,
    OpenLicenseUrl,
    RequestShutdown,
}

/// One entry of the tray menu: an item with a label, styling and action, or a
/// separator line.
#[derive(Debug)]
pub enum MenuEntry {
    Standard { label: String, informative: bool, action: MenuAction },
    Separator,
}

/// The effect that an activation leaves for the host to carry out.
#[derive(Debug)]
pub enum Effect {
    /// Open this link in the user's default handler.
    OpenUrl(String),
    /// The shutdown signal was fired; `first` tells whether this activation
    /// was the one that moved it to the fired state.
    ShutdownRequested { first: bool },
}

/// Whether `e` is an item with exactly this label, styling and action.
pub open spec fn entry_is(e: MenuEntry, label: Seq<char>, informative: bool, action: MenuAction) -> bool {
    &&& e matches MenuEntry::Standard { label: l, informative: i, action: a }
    &&& l@ == label
    &&& i == informative
    &&& a == action
}

/// The menu, in order: Connect, License (informative), a separator, Shutdown.
pub open spec fn is_tray_menu(m: Seq<MenuEntry>) -> bool {
    &&& m.len() == 4
    &&& entry_is(m[0], "Connect"@, false, MenuAction::OpenRegistrationUrl)
    &&& entry_is(m[1], "License"@, true, MenuAction::OpenLicenseUrl)
    &&& m[2] is Separator
    &&& entry_is(m[3], "Shutdown"@, false, MenuAction::RequestShutdown)
}

/// The tray: it holds the producer side of the shutdown signal and the
/// registration descriptor.
pub struct TrayController {
    signal: ShutdownSignal,
    descriptor: RegistrationDescriptor,
}

impl TrayController {
    /// The shutdown signal that the controller fires.
    pub closed spec fn signal_of(&self) -> ShutdownSignal {
        self.signal
    }

    /// The descriptor that the controller reads the registration link from.
    pub closed spec fn descriptor_of(&self) -> RegistrationDescriptor {
        self.descriptor
    }

    /// A controller over `signal` and `descriptor`.
    pub fn new(signal: ShutdownSignal, descriptor: RegistrationDescriptor) -> (r: TrayController)
        ensures
            r.signal_of() == signal,
            r.descriptor_of() == descriptor,
    {
        TrayController { signal, descriptor }
    }

    /// The tray's unique id.
    pub fn id(&self) -> (r: String)
        ensures
            r@ == "remote-uci-applet"@,
    {
        String::from_str("remote-uci-applet")
    }

    /// The tray's title.
    pub fn title(&self) -> (r: String)
        ensures
            r@ == "External Lichess Engine"@,
    {
        String::from_str("External Lichess Engine")
    }

    /// The tray's status, always passive.
    pub fn status(&self) -> (r: TrayStatus)
        ensures
            r == TrayStatus::Passive,
    {
        TrayStatus::Passive
    }

    /// The menu description. The entries and their order never change; the
    /// registration link is read when "Connect" is activated, not here.
    pub fn menu(&self) -> (r: Vec<MenuEntry>)
        ensures
            is_tray_menu(r@),
    {
        let mut m: Vec<MenuEntry> = Vec::new();
        m.push(
            MenuEntry::Standard {
                label: String::from_str("Connect"),
                informative: false,
                action: MenuAction::OpenRegistrationUrl,
            },
        );
        m.push(
            MenuEntry::Standard {
                label: String::from_str("License"),
                informative: true,
                action: MenuAction::OpenLicenseUrl,
            },
        );
        m.push(MenuEntry::Separator);
        m.push(
            MenuEntry::Standard {
                label: String::from_str("Shutdown"),
                informative: false,
                action: MenuAction::RequestShutdown,
            },
        );
        m
    }

    /// Carries out the activation of the entry whose action is `action`. The
    /// two link entries leave the link to open, the registration link read
    /// from the descriptor now, and the license link; "Shutdown" fires the
    /// shutdown signal, which changes nothing after its first time.
    pub fn activate(&mut self, action: MenuAction) -> (r: Effect)
        ensures
            final(self).descriptor_of() == old(self).descriptor_of(),
            action == MenuAction::OpenRegistrationUrl ==> {
                &&& r matches Effect::OpenUrl(u)
                &&& u@ == old(self).descriptor_of().url_view()
                &&& final(self).signal_of() == old(self).signal_of()
            },
            action == MenuAction::OpenLicenseUrl ==> {
                &&& r matches Effect::OpenUrl(u)
                &&& u@ == license_url_text()
                &&& final(self).signal_of() == old(self).signal_of()
            },
            action == MenuAction::RequestShutdown ==> {
                &&& r matches Effect::ShutdownRequested { first }
                &&& (final(self).signal_of().is_fired(), first) == fire_step(
                    old(self).signal_of().is_fired(),
                )
                &&& final(self).signal_of().channel() == old(self).signal_of().channel()
            },
    {
        match action {
            MenuAction::OpenRegistrationUrl => Effect::OpenUrl(self.descriptor.registration_url()),
            MenuAction::OpenLicenseUrl => Effect::OpenUrl(String::from_str(license_url())),
            MenuAction::RequestShutdown => {
                let first = self.signal.fire();
                Effect::ShutdownRequested { first }
            },
        }
    }
}

} // verus!
