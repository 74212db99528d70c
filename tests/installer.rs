use minisafe_gui::installer::{Command, Installer};
use minisafe_gui::message::{Message, StepMessage};
use minisafe_gui::network::Network;
use minisafe_gui::step::{
    BitcoindConfig, Context, DaemonConfig, DefineBitcoind, DefineDescriptor, Final, FinalStatus,
    Step, Welcome,
};

const DESCRIPTOR: &str = "wsh(or_d(pk(tpubDCbK3Ysvk8HjcF6mPyrgMu3KgLiaaP19RjKpNezd8GrbAbNg6v5BtWLaCt8FNm6QkLseopKLf5MNYQFtochDTKHdfgG6iqJ8cqnLNAwtXuP/*),and_v(v:pkh(tpubDDtb2WPYwEWw2WWDV7reLV348iJHw2HmhzvPysKKrJw3hYmvrd4jasyoioVPdKGQqjyaBMEvTn1HvHWDSVqQ6amyyxRZ5YjpPBBGjJ8yu8S/*),older(100))))#459t6xxr";

fn edit(installer: &mut Installer, m: StepMessage) {
    assert_eq!(installer.update(Message::Step(m)), Command::Idle);
}

fn forward_path() -> Vec<Message> {
    vec![
        Message::Next,
        Message::Step(StepMessage::DescriptorEdited(DESCRIPTOR.to_string(), true)),
        Message::Next,
        Message::Step(StepMessage::AddressEdited("127.0.0.1:9001".to_string(), true)),
        Message::Step(StepMessage::CookiePathEdited("/tmp/x/.cookie".to_string())),
        Message::Next,
    ]
}

#[test]
fn new_installer_starts_at_welcome() {
    let installer = Installer::new("/tmp/x".to_string(), Network::Regtest);
    assert_eq!(installer.current(), 0);
    assert_eq!(installer.len(), 4);
    assert!(!installer.should_exit());
    assert_eq!(
        installer.step(0),
        Some(&Step::Welcome(Welcome { network: Network::Regtest, use_default_bitcoind: false }))
    );
    assert!(matches!(installer.step(3), Some(Step::Final(_))));
    assert_eq!(installer.step(4), None);
    assert_eq!(installer.context(), &Context::new(Network::Regtest));
    let cfg = installer.daemon_config();
    assert_eq!(cfg.data_dir, Some("/tmp/x".to_string()));
    assert_eq!(cfg.network, Network::Regtest);
    assert_eq!(cfg.poll_interval_secs, 30);
    assert_eq!(cfg.main_descriptor, None);
    assert_eq!(cfg.bitcoind_config, None);
}

#[test]
fn previous_at_first_step_is_noop() {
    let mut installer = Installer::new("/tmp/x".to_string(), Network::Regtest);
    installer.previous();
    assert_eq!(installer.current(), 0);
    assert_eq!(installer.update(Message::Previous), Command::Idle);
    assert_eq!(installer.current(), 0);
}

#[test]
fn next_at_last_step_is_noop() {
    let mut installer = Installer::new("/tmp/x".to_string(), Network::Regtest);
    installer.next();
    installer.next();
    installer.next();
    assert_eq!(installer.current(), 3);
    installer.next();
    assert_eq!(installer.current(), 3);
    installer.previous();
    assert_eq!(installer.current(), 2);
}

#[test]
fn forward_path_reaches_final_step() {
    let mut installer = Installer::new("/tmp/x".to_string(), Network::Regtest);
    for m in forward_path() {
        installer.update(m);
    }
    assert_eq!(installer.current(), 3);
    let cfg = installer.daemon_config();
    assert_eq!(cfg.main_descriptor, Some(DESCRIPTOR.to_string()));
    assert_eq!(cfg.network, Network::Regtest);
    assert_eq!(
        cfg.bitcoind_config,
        Some(BitcoindConfig {
            addr: "127.0.0.1:9001".to_string(),
            cookie_path: "/tmp/x/.cookie".to_string(),
        })
    );
    assert_eq!(installer.context().descriptor, Some(DESCRIPTOR.to_string()));
    // Next on the last step commits nothing and stays there.
    assert_eq!(installer.update(Message::Next), Command::Idle);
    assert_eq!(installer.current(), 3);
}

#[test]
fn invalid_descriptor_is_refused() {
    let mut installer = Installer::new("/tmp/x".to_string(), Network::Regtest);
    installer.update(Message::Next);
    assert_eq!(installer.current(), 1);
    let ctx_before = installer.context().clone();
    let cfg_before = installer.daemon_config().clone();
    edit(&mut installer, StepMessage::DescriptorEdited("not a descriptor".to_string(), false));
    installer.update(Message::Next);
    assert_eq!(installer.current(), 1);
    assert_eq!(installer.context(), &ctx_before);
    assert_eq!(installer.daemon_config(), &cfg_before);
    // The typed text is kept so that it can be corrected.
    assert_eq!(
        installer.step(1),
        Some(&Step::DefineDescriptor(DefineDescriptor {
            descriptor: "not a descriptor".to_string(),
            valid: false,
        }))
    );
}

#[test]
fn empty_descriptor_is_refused() {
    let mut installer = Installer::new("/tmp/x".to_string(), Network::Regtest);
    installer.update(Message::Next);
    edit(&mut installer, StepMessage::DescriptorEdited(String::new(), true));
    installer.update(Message::Next);
    assert_eq!(installer.current(), 1);
    assert_eq!(installer.context().descriptor, None);
}

#[test]
fn incomplete_bitcoind_settings_are_refused() {
    let mut installer = Installer::new("/tmp/x".to_string(), Network::Regtest);
    installer.update(Message::Next);
    edit(&mut installer, StepMessage::DescriptorEdited(DESCRIPTOR.to_string(), true));
    installer.update(Message::Next);
    assert_eq!(installer.current(), 2);
    edit(&mut installer, StepMessage::AddressEdited("127.0.0.1:9001".to_string(), true));
    installer.update(Message::Next);
    assert_eq!(installer.current(), 2);
    edit(&mut installer, StepMessage::CookiePathEdited("/c".to_string()));
    edit(&mut installer, StepMessage::AddressEdited("nowhere".to_string(), false));
    installer.update(Message::Next);
    assert_eq!(installer.current(), 2);
    assert_eq!(installer.daemon_config().bitcoind_config, None);
}

#[test]
fn apply_refused_leaves_context_and_config() {
    let step = Step::DefineDescriptor(DefineDescriptor { descriptor: "x".to_string(), valid: false });
    let mut ctx = Context::new(Network::Testnet);
    let mut cfg = DaemonConfig::new("/d".to_string(), Network::Testnet);
    let (c0, f0) = (ctx.clone(), cfg.clone());
    assert!(!step.apply(&mut ctx, &mut cfg));
    assert_eq!(ctx, c0);
    assert_eq!(cfg, f0);
    let last = Step::Final(Final::new());
    assert!(!last.apply(&mut ctx, &mut cfg));
    assert_eq!(ctx, c0);
    assert_eq!(cfg, f0);
}

#[test]
fn default_bitcoind_bypasses_its_step() {
    let mut installer = Installer::new("/tmp/x".to_string(), Network::Regtest);
    edit(&mut installer, StepMessage::UseDefaultBitcoind(true));
    installer.update(Message::Next);
    assert!(installer.context().use_default_bitcoind);
    edit(&mut installer, StepMessage::DescriptorEdited(DESCRIPTOR.to_string(), true));
    installer.update(Message::Next);
    assert_eq!(installer.current(), 3);
    assert_eq!(installer.step(2), Some(&Step::DefineBitcoind(DefineBitcoind::new())));
    assert_eq!(installer.daemon_config().bitcoind_config, None);
    // Going back does not pass over the bypassed step.
    installer.update(Message::Previous);
    assert_eq!(installer.current(), 2);
}

#[test]
fn skipped_step_is_not_loaded_from_context() {
    let mut installer = Installer::new("/tmp/x".to_string(), Network::Regtest);
    for m in forward_path() {
        installer.update(m);
    }
    // Back to the welcome step, then choose the defaults and go forward again.
    installer.update(Message::Previous);
    installer.update(Message::Previous);
    installer.update(Message::Previous);
    assert_eq!(installer.current(), 0);
    edit(&mut installer, StepMessage::UseDefaultBitcoind(true));
    edit(&mut installer, StepMessage::AddressEdited("ignored".to_string(), true));
    installer.update(Message::Next);
    assert_eq!(installer.current(), 1);
    // The descriptor step took up what the context holds.
    assert_eq!(
        installer.step(1),
        Some(&Step::DefineDescriptor(DefineDescriptor {
            descriptor: DESCRIPTOR.to_string(),
            valid: true,
        }))
    );
    edit(&mut installer, StepMessage::CookiePathEdited("/changed".to_string()));
    installer.update(Message::Next);
    assert_eq!(installer.current(), 3);
    assert_eq!(
        installer.step(2),
        Some(&Step::DefineBitcoind(DefineBitcoind {
            address: "127.0.0.1:9001".to_string(),
            address_valid: true,
            cookie_path: "/tmp/x/.cookie".to_string(),
        }))
    );
}

#[test]
fn replaying_inputs_gives_same_result() {
    let mut a = Installer::new("/tmp/x".to_string(), Network::Regtest);
    let mut b = Installer::new("/tmp/x".to_string(), Network::Regtest);
    for m in forward_path() {
        a.update(m);
    }
    for m in forward_path() {
        b.update(m);
    }
    assert_eq!(a.context(), b.context());
    assert_eq!(a.daemon_config(), b.daemon_config());
    assert_eq!(a.current(), b.current());
}

#[test]
fn install_is_forwarded_to_final_step() {
    let mut installer = Installer::new("/tmp/x".to_string(), Network::Regtest);
    for m in forward_path() {
        installer.update(m);
    }
    assert_eq!(installer.update(Message::Install), Command::Install);
    assert_eq!(installer.current_step(), &Step::Final(Final { status: FinalStatus::Installing }));
    let done = Message::Installed(Ok("/tmp/x/regtest/gui.toml".to_string()));
    assert_eq!(installer.update(done), Command::Idle);
    assert_eq!(
        installer.current_step(),
        &Step::Final(Final { status: FinalStatus::Installed("/tmp/x/regtest/gui.toml".to_string()) })
    );
}

#[test]
fn close_request_stops_for_good() {
    let mut installer = Installer::new("/tmp/x".to_string(), Network::Bitcoin);
    assert_eq!(installer.update(Message::CloseRequested), Command::Idle);
    assert!(installer.should_exit());
    installer.update(Message::Next);
    assert!(installer.should_exit());
    installer.stop();
    assert!(installer.should_exit());
}

#[test]
fn step_events_for_other_steps_are_ignored() {
    let mut installer = Installer::new("/tmp/x".to_string(), Network::Signet);
    edit(&mut installer, StepMessage::DescriptorEdited("x".to_string(), true));
    assert_eq!(
        installer.current_step(),
        &Step::Welcome(Welcome { network: Network::Signet, use_default_bitcoind: false })
    );
    let mut step = Step::Final(Final::new());
    step.update(Message::Installed(Err(minisafe_gui::finalize::Error::Unexpected("e".to_string()))));
    assert_eq!(
        step,
        Step::Final(Final {
            status: FinalStatus::Failed(minisafe_gui::finalize::Error::Unexpected("e".to_string()))
        })
    );
}
