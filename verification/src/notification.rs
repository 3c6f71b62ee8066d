//! Events sent to the user interface, and the notification routes, each created
//! on first use and shared afterwards.
use vstd::prelude::*;
use std::sync::Arc;

verus! {

/// An event the user interface listens for.
#[derive(Clone, Copy, Debug, PartialEq, Eq, Structural)]
pub enum UIEvent {
    OnStartingUp,
    UpdateUser,
    OnError,
    OnBanned,
    UpdateLiveScraperRunningState,
    SendLiveScraperMessage,
    RefreshStockItems,
    RefreshStockRivens,
    RefreshWishListItems,
    RefreshWfmOrders,
    OnDeleteWfmOrders,
    OnDeleteWfmAuctions,
    RefreshWfmAuctions,
}

/// The channel name of an event.
pub open spec fn ui_event_name(e: UIEvent) -> Seq<char> {
    match e {
        UIEvent::OnStartingUp => "App:StartingUp"@,
        UIEvent::UpdateUser => "User:Update"@,
        UIEvent::OnError => "App:Error"@,
        UIEvent::OnBanned => "User:Banned"@,
        UIEvent::UpdateLiveScraperRunningState => "LiveScraper:UpdateRunningState"@,
        UIEvent::SendLiveScraperMessage => "LiveScraper:OnMessage"@,
        UIEvent::RefreshStockItems => "LiveScraper:RefreshStockItems"@,
        UIEvent::RefreshStockRivens => "LiveScraper:RefreshStockRivens"@,
        UIEvent::RefreshWishListItems => "LiveScraper:RefreshWishListItems"@,
        UIEvent::RefreshWfmOrders => "LiveScraper:RefreshWfmOrders"@,
        UIEvent::OnDeleteWfmOrders => "Wfm:OnDeleteOrders"@,
        UIEvent::OnDeleteWfmAuctions => "Wfm:OnDeleteAuctions"@,
        UIEvent::RefreshWfmAuctions => "Wfm:RefreshAuctions"@,
    }
}

impl UIEvent {
    /// The channel name of the event.
    pub fn as_str(&self) -> (res: &'static str)
        ensures
            res@ == ui_event_name(*self),
    {
        match *self {
            UIEvent::OnStartingUp => "App:StartingUp",
            UIEvent::UpdateUser => "User:Update",
            UIEvent::OnError => "App:Error",
            UIEvent::OnBanned => "User:Banned",
            UIEvent::UpdateLiveScraperRunningState => "LiveScraper:UpdateRunningState",
            UIEvent::SendLiveScraperMessage => "LiveScraper:OnMessage",
            UIEvent::RefreshStockItems => "LiveScraper:RefreshStockItems",
            UIEvent::RefreshStockRivens => "LiveScraper:RefreshStockRivens",
            UIEvent::RefreshWishListItems => "LiveScraper:RefreshWishListItems",
            UIEvent::RefreshWfmOrders => "LiveScraper:RefreshWfmOrders",
            UIEvent::OnDeleteWfmOrders => "Wfm:OnDeleteOrders",
            UIEvent::OnDeleteWfmAuctions => "Wfm:OnDeleteAuctions",
            UIEvent::RefreshWfmAuctions => "Wfm:RefreshAuctions",
        }
    }
}

/// What an update event does to the listed data.
#[derive(Clone, Copy, Debug, PartialEq, Eq, Structural)]
pub enum UIOperationEvent {
    CreateOrUpdate,
    Delete,
    SetAll,
}

impl UIOperationEvent {
    /// The operation's name.
    pub fn as_str(&self) -> (res: &'static str)
        ensures
            res@ == match *self {
                UIOperationEvent::CreateOrUpdate => "CREATE_OR_UPDATE"@,
                UIOperationEvent::Delete => "DELETE"@,
                UIOperationEvent::SetAll => "SET"@,
            },
    {
        match *self {
            UIOperationEvent::CreateOrUpdate => "CREATE_OR_UPDATE",
            UIOperationEvent::Delete => "DELETE",
            UIOperationEvent::SetAll => "SET",
        }
    }
}

/// The Discord notification route; it keeps no reference back to the routing
/// state.
#[derive(Debug)]
pub struct DiscordModel {}

/// The user-interface notification route; it keeps no reference back to the routing
/// state.
#[derive(Debug)]
pub struct GuiModel {}

/// The operating-system notification route; it keeps no reference back to the routing
/// state.
#[derive(Debug)]
pub struct SystemModel {}

impl DiscordModel {
    /// A new route.
    pub fn new() -> (res: Arc<DiscordModel>) {
        Arc::new(DiscordModel {})
    }

    /// A new route replacing `_old`.
    pub fn from_existing(_old: &DiscordModel) -> (res: Arc<DiscordModel>) {
        Arc::new(DiscordModel {})
    }
}

impl GuiModel {
    /// A new route.
    pub fn new() -> (res: Arc<GuiModel>) {
        Arc::new(GuiModel {})
    }

    /// A new route replacing `_old`.
    pub fn from_existing(_old: &GuiModel) -> (res: Arc<GuiModel>) {
        Arc::new(GuiModel {})
    }
}

impl SystemModel {
    /// A new route.
    pub fn new() -> (res: Arc<SystemModel>) {
        Arc::new(SystemModel {})
    }

    /// A new route replacing `_old`.
    pub fn from_existing(_old: &SystemModel) -> (res: Arc<SystemModel>) {
        Arc::new(SystemModel {})
    }
}

/// The notification routes, each created on first use.
#[derive(Debug)]
pub struct NotificationState {
    discord_model: Option<Arc<DiscordModel>>,
    gui_model: Option<Arc<GuiModel>>,
    system_model: Option<Arc<SystemModel>>,
}

impl NotificationState {
    /// The routes created so far.
    pub closed spec fn routes(&self) -> (Option<Arc<DiscordModel>>, Option<Arc<GuiModel>>, Option<Arc<SystemModel>>) {
        (self.discord_model, self.gui_model, self.system_model)
    }

    /// A state with no route created yet.
    pub fn new() -> (res: NotificationState)
        ensures
            res.routes() == (None::<Arc<DiscordModel>>, None::<Arc<GuiModel>>, None::<Arc<SystemModel>>),
    {
        NotificationState { discord_model: None, gui_model: None, system_model: None }
    }

    /// The Discord route: created and stored on the first call; later calls hand
    /// out the stored route (stated as equality of values: the contract does not
    /// speak of pointer identity). The other routes are untouched.
    pub fn discord(&mut self) -> (res: Arc<DiscordModel>)
        ensures
            final(self).routes().0 == Some(res),
            old(self).routes().0 matches Some(r) ==> res == r,
            final(self).routes().1 == old(self).routes().1,
            final(self).routes().2 == old(self).routes().2,
    {
        match &self.discord_model {
            Some(m) => m.clone(),
            None => {
                let m = DiscordModel::new();
                self.discord_model = Some(m.clone());
                m
            },
        }
    }

    /// The user-interface route: created and stored on the first call; later calls
    /// hand out the stored route (stated as equality of values: the contract does
    /// not speak of pointer identity). The other routes are untouched.
    pub fn gui(&mut self) -> (res: Arc<GuiModel>)
        ensures
            final(self).routes().1 == Some(res),
            old(self).routes().1 matches Some(r) ==> res == r,
            final(self).routes().0 == old(self).routes().0,
            final(self).routes().2 == old(self).routes().2,
    {
        match &self.gui_model {
            Some(m) => m.clone(),
            None => {
                let m = GuiModel::new();
                self.gui_model = Some(m.clone());
                m
            },
        }
    }

    /// The operating-system route: created and stored on the first call; later
    /// calls hand out the stored route (stated as equality of values: the
    /// contract does not speak of pointer identity). The other routes are
    /// untouched.
    pub fn system(&mut self) -> (res: Arc<SystemModel>)
        ensures
            final(self).routes().2 == Some(res),
            old(self).routes().2 matches Some(r) ==> res == r,
            final(self).routes().0 == old(self).routes().0,
            final(self).routes().1 == old(self).routes().1,
    {
        match &self.system_model {
            Some(m) => m.clone(),
            None => {
                let m = SystemModel::new();
                self.system_model = Some(m.clone());
                m
            },
        }
    }
}

} // verus!
