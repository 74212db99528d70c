use minisafe_gui::config::Config;
use minisafe_gui::finalize::{Action, Error, Finalization, Phase};
use minisafe_gui::network::Network;
use minisafe_gui::step::DaemonConfig;

fn ok(s: &str) -> Result<String, String> {
    Ok(s.to_string())
}

fn err(s: &str) -> Result<String, String> {
    Err(s.to_string())
}

fn regtest_config() -> DaemonConfig {
    let mut cfg = DaemonConfig::new("/tmp/x".to_string(), Network::Regtest);
    cfg.main_descriptor = Some("wsh(pk(A))".to_string());
    cfg
}

#[test]
fn finalization_full_run() {
    let (mut f, first) = Finalization::start(regtest_config());
    assert_eq!(first, Action::ValidateConfig);
    assert_eq!(f.phase(), Phase::Validating);
    assert_eq!(f.resume(ok("")), Action::Canonicalize("/tmp/x".to_string()));
    assert_eq!(
        f.resume(ok("/private/tmp/x")),
        Action::CreateFile("/private/tmp/x/regtest/daemon.toml".to_string())
    );
    assert_eq!(f.daemon_config().data_dir, Some("/private/tmp/x".to_string()));
    assert_eq!(f.daemon_config().main_descriptor, Some("wsh(pk(A))".to_string()));
    assert_eq!(f.daemon_config().network, Network::Regtest);
    assert_eq!(f.resume(ok("")), Action::WriteDaemonConfig);
    assert_eq!(
        f.resume(ok("")),
        Action::CreateFile("/private/tmp/x/regtest/gui.toml".to_string())
    );
    assert_eq!(
        f.resume(ok("")),
        Action::Canonicalize("/private/tmp/x/regtest/daemon.toml".to_string())
    );
    assert_eq!(
        f.resume(ok("/real/regtest/daemon.toml")),
        Action::WriteAppConfig(Config::new("/real/regtest/daemon.toml".to_string()))
    );
    assert_eq!(
        f.resume(ok("")),
        Action::Done(Ok("/private/tmp/x/regtest/gui.toml".to_string()))
    );
    assert_eq!(f.phase(), Phase::Finished);
}

#[test]
fn finalization_validation_failure_twice() {
    for _ in 0..2 {
        let (mut f, first) = Finalization::start(regtest_config());
        assert_eq!(first, Action::ValidateConfig);
        assert_eq!(
            f.resume(err("bad descriptor")),
            Action::Done(Err(Error::Unexpected(
                "Failed to start daemon with entered config: bad descriptor".to_string()
            )))
        );
        assert_eq!(f.phase(), Phase::Finished);
    }
}

#[test]
fn finalization_datadir_not_resolved() {
    let (mut f, _) = Finalization::start(regtest_config());
    f.resume(ok(""));
    assert_eq!(
        f.resume(err("No such file or directory")),
        Action::Done(Err(Error::Unexpected(
            "Failed to canonicalize datadir path: No such file or directory".to_string()
        )))
    );
}

#[test]
fn finalization_missing_datadir() {
    let mut cfg = regtest_config();
    cfg.data_dir = None;
    let (mut f, _) = Finalization::start(cfg);
    assert_eq!(
        f.resume(ok("")),
        Action::Done(Err(Error::Unexpected("No data directory was given".to_string())))
    );
}

#[test]
fn finalization_create_and_write_failures() {
    let (mut f, _) = Finalization::start(regtest_config());
    f.resume(ok(""));
    f.resume(ok("/d"));
    assert_eq!(
        f.resume(err("denied")),
        Action::Done(Err(Error::CannotCreateFile("denied".to_string())))
    );

    let (mut f, _) = Finalization::start(regtest_config());
    f.resume(ok(""));
    f.resume(ok("/d"));
    f.resume(ok(""));
    assert_eq!(
        f.resume(err("disk full")),
        Action::Done(Err(Error::CannotWriteToFile("disk full".to_string())))
    );

    let (mut f, _) = Finalization::start(regtest_config());
    for o in ["", "/d", "", ""] {
        f.resume(ok(o));
    }
    assert_eq!(
        f.resume(err("exists")),
        Action::Done(Err(Error::CannotCreateFile("exists".to_string())))
    );

    let (mut f, _) = Finalization::start(regtest_config());
    for o in ["", "/d", "", "", ""] {
        f.resume(ok(o));
    }
    assert_eq!(
        f.resume(err("gone")),
        Action::Done(Err(Error::Unexpected(
            "Failed to canonicalize minisafed config path: gone".to_string()
        )))
    );

    let (mut f, _) = Finalization::start(regtest_config());
    for o in ["", "/d", "", "", "", "/d/regtest/daemon.toml"] {
        f.resume(ok(o));
    }
    assert_eq!(
        f.resume(err("io")),
        Action::Done(Err(Error::CannotWriteToFile("io".to_string())))
    );
}

#[test]
fn finalization_uses_network_directory() {
    let (mut f, _) = Finalization::start(DaemonConfig::new("/srv".to_string(), Network::Testnet));
    f.resume(ok(""));
    assert_eq!(
        f.resume(ok("/srv")),
        Action::CreateFile("/srv/testnet/daemon.toml".to_string())
    );
}

#[test]
fn error_messages() {
    assert_eq!(Error::CannotCreateDatadir("a".to_string()).message(), "Failed to create datadir: a");
    assert_eq!(Error::CannotCreateFile("b".to_string()).message(), "Failed to create file: b");
    assert_eq!(Error::CannotWriteToFile("c".to_string()).message(), "Failed to write to file: c");
    assert_eq!(Error::Unexpected("d".to_string()).message(), "Unexpected: d");
}
