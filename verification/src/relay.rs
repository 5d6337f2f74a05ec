//! Reaching players through a relay.
//!
//! A server that cannot be reached directly registers with a relay, which
//! gives it a reachable endpoint and forwards the connections that come in
//! there. A forwarded connection gets a session like any other. When the
//! relay cannot be reached, or gives no endpoint, the server goes on
//! without it.

use crate::server::ProxySettings;
use vstd::prelude::*;

verus! {

/// How the server names itself to the relay.
pub const APP_USER_AGENT: &'static str = "ambient_network/0.1.0";

/// First of the two directories that a relay fetches ahead of the players.
pub const PRE_CACHE_ASSETS: &'static str = "assets";

/// Second of the two directories that a relay fetches ahead of the players.
pub const PRE_CACHE_CLIENT: &'static str = "client";

/// Where the relay finds the project's assets.
pub enum AssetsSource {
    /// In a local directory, which the relay serves itself.
    Path(String),
    /// Under the given url.
    RootOverride(String),
}

/// How far the registration with the relay has come.
#[derive(Clone, Copy, Debug, PartialEq, Eq, Structural)]
pub enum RelayPhase {
    /// The relay is being connected to.
    Connecting,
    /// The relay is asked for an endpoint.
    Allocating,
    /// The registration has run its course; forwarded connections may come.
    Serving,
    /// The relay could not be reached. Direct connections still work.
    Unavailable,
}

/// What the relay's client reports.
pub enum RelayEvent {
    /// The relay was connected to, or could not be.
    Connected(bool),
    /// The request for an endpoint has gone through, or has not.
    AllocationRequested(bool),
    /// The relay has allocated an endpoint. With it comes the root of the
    /// assets as the relay serves them, if it could be read as a url.
    EndpointAllocated(Option<String>),
    /// The relay was asked to fetch the assets ahead of the players.
    AssetsPreCached,
}

/// What to do next about the relay.
#[derive(Clone, Copy, Debug, PartialEq, Eq, Structural)]
pub enum RelayCommand {
    /// Ask the relay for an endpoint.
    AllocateEndpoint,
    /// Ask the relay to fetch the two asset directories ahead of the
    /// players.
    PreCacheAssets,
    /// Nothing.
    Idle,
    /// Go on without the relay.
    GiveUp,
}

/// The server's registration with a relay.
pub struct RelayFallback {
    /// How to reach the relay.
    pub settings: ProxySettings,
    /// Base url of the content for players who come through the relay.
    pub content_base_url: String,
    /// How far the registration has come.
    pub phase: RelayPhase,
}

impl RelayFallback {
    /// A registration that is about to connect to the relay. Players who
    /// come through the relay are pointed to `content_base_url`, as those
    /// who come directly, until the relay names another root.
    pub fn new(settings: ProxySettings, content_base_url: String) -> (relay: Self)
        ensures
            relay.settings == settings,
            relay.content_base_url == content_base_url,
            relay.phase == RelayPhase::Connecting,
    {
        RelayFallback { settings, content_base_url, phase: RelayPhase::Connecting }
    }

    /// Where the relay is to find the assets: in the project's local build
    /// directory if there is one, else under the content's base url.
    pub fn assets_source(&self, build_dir: Option<String>) -> (source: AssetsSource)
        ensures
            match build_dir {
                Some(dir) => source == AssetsSource::Path(dir),
                None => source matches AssetsSource::RootOverride(url) && url
                    == self.content_base_url,
            },
    {
        match build_dir {
            Some(dir) => AssetsSource::Path(dir),
            None => AssetsSource::RootOverride(self.content_base_url.clone()),
        }
    }

    /// The state and the command that follow when `event` comes in state
    /// `self`.
    pub open spec fn next(self, event: RelayEvent) -> (RelayFallback, RelayCommand) {
        match (self.phase, event) {
            (RelayPhase::Connecting, RelayEvent::Connected(true)) => (
                RelayFallback { phase: RelayPhase::Allocating, ..self },
                RelayCommand::AllocateEndpoint,
            ),
            (RelayPhase::Connecting, RelayEvent::Connected(false)) => (
                RelayFallback { phase: RelayPhase::Unavailable, ..self },
                RelayCommand::GiveUp,
            ),
            (RelayPhase::Allocating, RelayEvent::AllocationRequested(_)) => (
                RelayFallback { phase: RelayPhase::Serving, ..self },
                if self.settings.pre_cache_assets {
                    RelayCommand::PreCacheAssets
                } else {
                    RelayCommand::Idle
                },
            ),
            (RelayPhase::Unavailable, _) => (self, RelayCommand::GiveUp),
            (_, RelayEvent::EndpointAllocated(Some(url))) => (
                RelayFallback { content_base_url: url, ..self },
                RelayCommand::Idle,
            ),
            _ => (self, RelayCommand::Idle),
        }
    }

    /// Takes in what the relay's client reports and says what to do next.
    ///
    /// A relay that cannot be reached is given up. A request for an
    /// endpoint that fails is not: the registration goes on to serve, and
    /// to the fetching of assets if that is asked for. An endpoint that the
    /// relay allocates moves the content's base url to the root that the
    /// relay names, if it names one that reads as a url. Once the assets
    /// are asked for, there is nothing to do but to wait.
    pub fn advance(&mut self, event: RelayEvent) -> (command: RelayCommand)
        ensures
            (*final(self), command) == (*old(self)).next(event),
    {
        match self.phase {
            RelayPhase::Unavailable => {
                return RelayCommand::GiveUp;
            },
            _ => {},
        }
        match event {
            RelayEvent::Connected(reached) => {
                match self.phase {
                    RelayPhase::Connecting => {
                        if reached {
                            self.phase = RelayPhase::Allocating;
                            RelayCommand::AllocateEndpoint
                        } else {
                            self.phase = RelayPhase::Unavailable;
                            RelayCommand::GiveUp
                        }
                    },
                    _ => RelayCommand::Idle,
                }
            },
            RelayEvent::AllocationRequested(_) => {
                match self.phase {
                    RelayPhase::Allocating => {
                        self.phase = RelayPhase::Serving;
                        if self.settings.pre_cache_assets {
                            RelayCommand::PreCacheAssets
                        } else {
                            RelayCommand::Idle
                        }
                    },
                    _ => RelayCommand::Idle,
                }
            },
            RelayEvent::EndpointAllocated(root) => {
                match root {
                    Some(url) => {
                        self.content_base_url = url;
                    },
                    None => {},
                }
                RelayCommand::Idle
            },
            RelayEvent::AssetsPreCached => RelayCommand::Idle,
        }
    }

    /// Base url of the content for a player who has come through the relay
    /// just now.
    pub fn on_player_connected(&self) -> (url: String)
        ensures
            url == self.content_base_url,
    {
        self.content_base_url.clone()
    }
}

} // verus!
