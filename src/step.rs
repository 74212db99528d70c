use vstd::prelude::*;

use crate::finalize::Error;
use crate::message::{Message, StepMessage};
use crate::network::Network;

verus! {

/// Poll interval that a new daemon configuration starts with, in seconds.
pub const DEFAULT_POLL_INTERVAL_SECS: u64 = 30;

/// File name of the daemon's configuration file.
pub const DAEMON_CONFIG_FILE_NAME: &'static str = "daemon.toml";

/// How the daemon reaches its bitcoind.
#[derive(Clone, Debug, PartialEq, Eq)]
pub struct BitcoindConfig {
    /// Socket address of bitcoind's RPC interface.
    pub addr: String,
    /// Path to bitcoind's cookie file.
    pub cookie_path: String,
}

/// The daemon configuration that the wizard assembles.
#[derive(Clone, Debug, PartialEq, Eq)]
pub struct DaemonConfig {
    pub data_dir: Option<String>,
    pub network: Network,
    pub poll_interval_secs: u64,
    pub main_descriptor: Option<String>,
    /// `None` lets the daemon find bitcoind with its own defaults.
    pub bitcoind_config: Option<BitcoindConfig>,
}

impl DaemonConfig {
    pub fn new(data_dir: String, network: Network) -> (r: Self)
        ensures
            r.data_dir == Some(data_dir),
            r.network == network,
            r.poll_interval_secs == DEFAULT_POLL_INTERVAL_SECS,
            r.main_descriptor is None,
            r.bitcoind_config is None,
    {
        DaemonConfig {
            data_dir: Some(data_dir),
            network,
            poll_interval_secs: DEFAULT_POLL_INTERVAL_SECS,
            main_descriptor: None,
            bitcoind_config: None,
        }
    }
}

/// What the steps have decided so far; the only channel from one step to the next.
#[derive(Clone, Debug, PartialEq, Eq)]
pub struct Context {
    pub network: Network,
    pub descriptor: Option<String>,
    pub bitcoind: Option<BitcoindConfig>,
    /// The operator leaves the bitcoind settings to the daemon.
    pub use_default_bitcoind: bool,
}

impl Context {
    pub fn new(network: Network) -> (r: Self)
        ensures
            r == (Context {
                network,
                descriptor: None,
                bitcoind: None,
                use_default_bitcoind: false,
            }),
    {
        Context { network, descriptor: None, bitcoind: None, use_default_bitcoind: false }
    }
}

/// First step: states the network and asks whether bitcoind is left to its defaults.
#[derive(Clone, Debug, PartialEq, Eq)]
pub struct Welcome {
    pub network: Network,
    pub use_default_bitcoind: bool,
}

/// Asks for the wallet's main descriptor.
#[derive(Clone, Debug, PartialEq, Eq)]
pub struct DefineDescriptor {
    pub descriptor: String,
    /// Whether `descriptor` parses as a descriptor.
    pub valid: bool,
}

/// Asks how to reach bitcoind.
#[derive(Clone, Debug, PartialEq, Eq)]
pub struct DefineBitcoind {
    pub address: String,
    /// Whether `address` is a socket address.
    pub address_valid: bool,
    pub cookie_path: String,
}

/// Where the last step stands with the finalization.
#[derive(Clone, Debug, PartialEq, Eq)]
pub enum FinalStatus {
    Ready,
    Installing,
    Installed(String),
    Failed(Error),
}

/// Last step: shows a summary and starts the finalization.
#[derive(Clone, Debug, PartialEq, Eq)]
pub struct Final {
    pub status: FinalStatus,
}

impl Welcome {
    pub fn new(network: Network) -> (r: Self)
        ensures
            r == (Welcome { network, use_default_bitcoind: false }),
    {
        Welcome { network, use_default_bitcoind: false }
    }
}

impl DefineDescriptor {
    pub fn new() -> (r: Self)
        ensures
            r.descriptor@.len() == 0,
            !r.valid,
    {
        DefineDescriptor { descriptor: String::new(), valid: false }
    }
}

impl DefineBitcoind {
    pub fn new() -> (r: Self)
        ensures
            r.address@.len() == 0,
            !r.address_valid,
            r.cookie_path@.len() == 0,
    {
        DefineBitcoind { address: String::new(), address_valid: false, cookie_path: String::new() }
    }
}

impl Final {
    pub fn new() -> (r: Self)
        ensures
            r.status is Ready,
    {
        Final { status: FinalStatus::Ready }
    }
}

/// One screen of the wizard.
#[derive(Clone, Debug, PartialEq, Eq)]
pub enum Step {
    Welcome(Welcome),
    DefineDescriptor(DefineDescriptor),
    DefineBitcoind(DefineBitcoind),
    Final(Final),
}

impl Step {
    /// Whether the step's pending input is valid and complete, so that it can be committed.
    pub open spec fn is_complete(&self) -> bool {
        match self {
            Step::Welcome(_) => true,
            Step::DefineDescriptor(d) => d.valid && d.descriptor@.len() > 0,
            Step::DefineBitcoind(b) => b.address_valid && b.address@.len() > 0
                && b.cookie_path@.len() > 0,
            Step::Final(_) => false,
        }
    }

    /// The context once the step's input is committed to it.
    pub open spec fn committed_context(&self, ctx: Context) -> Context {
        match self {
            Step::Welcome(w) => Context {
                network: w.network,
                use_default_bitcoind: w.use_default_bitcoind,
                ..ctx
            },
            Step::DefineDescriptor(d) => Context { descriptor: Some(d.descriptor), ..ctx },
            Step::DefineBitcoind(b) => Context {
                bitcoind: Some(BitcoindConfig { addr: b.address, cookie_path: b.cookie_path }),
                ..ctx
            },
            Step::Final(_) => ctx,
        }
    }

    /// The daemon configuration once the step's input is committed to it.
    pub open spec fn committed_config(&self, cfg: DaemonConfig) -> DaemonConfig {
        match self {
            Step::Welcome(w) => DaemonConfig { network: w.network, ..cfg },
            Step::DefineDescriptor(d) => DaemonConfig { main_descriptor: Some(d.descriptor), ..cfg },
            Step::DefineBitcoind(b) => DaemonConfig {
                bitcoind_config: Some(
                    BitcoindConfig { addr: b.address, cookie_path: b.cookie_path },
                ),
                ..cfg
            },
            Step::Final(_) => cfg,
        }
    }

    /// Whether the step is bypassed given what is known so far.
    pub open spec fn skipped(&self, ctx: Context) -> bool {
        match self {
            Step::DefineBitcoind(_) => ctx.use_default_bitcoind,
            _ => false,
        }
    }

    /// The step once it has taken up what the context holds for it.
    pub open spec fn loaded(&self, ctx: Context) -> Step {
        match self {
            Step::Welcome(w) => Step::Welcome(
                Welcome { use_default_bitcoind: ctx.use_default_bitcoind, ..*w },
            ),
            Step::DefineDescriptor(_) => match ctx.descriptor {
                Some(d) => Step::DefineDescriptor(DefineDescriptor { descriptor: d, valid: true }),
                None => *self,
            },
            Step::DefineBitcoind(_) => match ctx.bitcoind {
                Some(c) => Step::DefineBitcoind(
                    DefineBitcoind {
                        address: c.addr,
                        address_valid: true,
                        cookie_path: c.cookie_path,
                    },
                ),
                None => *self,
            },
            Step::Final(_) => *self,
        }
    }

    /// The step once it has handled `m`; events meant for another kind of step leave it as it is.
    pub open spec fn updated(&self, m: Message) -> Step {
        match self {
            Step::Welcome(w) => match m {
                Message::Step(StepMessage::UseDefaultBitcoind(b)) => Step::Welcome(
                    Welcome { use_default_bitcoind: b, ..*w },
                ),
                _ => *self,
            },
            Step::DefineDescriptor(_) => match m {
                Message::Step(StepMessage::DescriptorEdited(s, v)) => Step::DefineDescriptor(
                    DefineDescriptor { descriptor: s, valid: v },
                ),
                _ => *self,
            },
            Step::DefineBitcoind(b) => match m {
                Message::Step(StepMessage::AddressEdited(s, v)) => Step::DefineBitcoind(
                    DefineBitcoind { address: s, address_valid: v, ..*b },
                ),
                Message::Step(StepMessage::CookiePathEdited(s)) => Step::DefineBitcoind(
                    DefineBitcoind { cookie_path: s, ..*b },
                ),
                _ => *self,
            },
            Step::Final(_) => match m {
                Message::Install => Step::Final(Final { status: FinalStatus::Installing }),
                Message::Installed(Ok(p)) => Step::Final(Final { status: FinalStatus::Installed(p) }),
                Message::Installed(Err(e)) => Step::Final(Final { status: FinalStatus::Failed(e) }),
                _ => *self,
            },
        }
    }

    /// Commits the pending input into `ctx` and `cfg` when it is complete; on
    /// failure neither is touched.
    pub fn apply(&self, ctx: &mut Context, cfg: &mut DaemonConfig) -> (r: bool)
        ensures
            r == self.is_complete(),
            r ==> *final(ctx) == self.committed_context(*old(ctx)),
            r ==> *final(cfg) == self.committed_config(*old(cfg)),
            !r ==> *final(ctx) == *old(ctx),
            !r ==> *final(cfg) == *old(cfg),
    {
        match self {
            Step::Welcome(w) => {
                ctx.network = w.network;
                ctx.use_default_bitcoind = w.use_default_bitcoind;
                cfg.network = w.network;
                true
            },
            Step::DefineDescriptor(d) => {
                if d.valid && !d.descriptor.as_str().is_empty() {
                    ctx.descriptor = Some(d.descriptor.clone());
                    cfg.main_descriptor = Some(d.descriptor.clone());
                    true
                } else {
                    false
                }
            },
            Step::DefineBitcoind(b) => {
                if b.address_valid && !b.address.as_str().is_empty()
                    && !b.cookie_path.as_str().is_empty() {
                    ctx.bitcoind = Some(
                        BitcoindConfig { addr: b.address.clone(), cookie_path: b.cookie_path.clone() },
                    );
                    cfg.bitcoind_config = Some(
                        BitcoindConfig { addr: b.address.clone(), cookie_path: b.cookie_path.clone() },
                    );
                    true
                } else {
                    false
                }
            },
            Step::Final(_) => false,
        }
    }

    /// Whether the step is bypassed given `ctx`.
    pub fn skip(&self, ctx: &Context) -> (r: bool)
        ensures
            r == self.skipped(*ctx),
    {
        match self {
            Step::DefineBitcoind(_) => ctx.use_default_bitcoind,
            _ => false,
        }
    }

    /// Takes up what `ctx` holds for this step, before it becomes current.
    pub fn load_context(&mut self, ctx: &Context)
        ensures
            *final(self) == old(self).loaded(*ctx),
    {
        match self {
            Step::Welcome(w) => {
                w.use_default_bitcoind = ctx.use_default_bitcoind;
            },
            Step::DefineDescriptor(d) => {
                if let Some(s) = &ctx.descriptor {
                    d.descriptor = s.clone();
                    d.valid = true;
                }
            },
            Step::DefineBitcoind(b) => {
                if let Some(c) = &ctx.bitcoind {
                    b.address = c.addr.clone();
                    b.address_valid = true;
                    b.cookie_path = c.cookie_path.clone();
                }
            },
            Step::Final(_) => {},
        }
    }

    /// Handles an event on the step's own state.
    pub fn update(&mut self, message: Message)
        ensures
            *final(self) == old(self).updated(message),
    {
        match self {
            Step::Welcome(w) => {
                if let Message::Step(StepMessage::UseDefaultBitcoind(b)) = message {
                    w.use_default_bitcoind = b;
                }
            },
            Step::DefineDescriptor(d) => {
                if let Message::Step(StepMessage::DescriptorEdited(s, v)) = message {
                    d.descriptor = s;
                    d.valid = v;
                }
            },
            Step::DefineBitcoind(b) => {
                match message {
                    Message::Step(StepMessage::AddressEdited(s, v)) => {
                        b.address = s;
                        b.address_valid = v;
                    },
                    Message::Step(StepMessage::CookiePathEdited(s)) => {
                        b.cookie_path = s;
                    },
                    _ => {},
                }
            },
            Step::Final(f) => {
                match message {
                    Message::Install => {
                        f.status = FinalStatus::Installing;
                    },
                    Message::Installed(Ok(p)) => {
                        f.status = FinalStatus::Installed(p);
                    },
                    Message::Installed(Err(e)) => {
                        f.status = FinalStatus::Failed(e);
                    },
                    _ => {},
                }
            },
        }
    }
}

} // verus!
