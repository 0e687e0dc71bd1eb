use zhuque::cli::{Args, IpAddress, ResolveError};

#[test]
fn config_file_rejects_cli_options() {
    let args = Args {
        config: Some("mixed.toml".to_string()),
        addr: Some(IpAddress::V4(0x7f00_0001)),
        port: None,
        cert: None,
        key: None,
        trace: None,
        level: None,
        root: None,
        index: None,
        badge: None,
        footer: None,
    };

    let err = args.resolve().unwrap_err();
    assert_eq!(err, ResolveError::ConfigWithCliOptions);
    assert!(err.message().contains("--config cannot be used together"));
}

use zhuque::cli::{ConfigFile, Level, Resolution, Trace};

fn bare_args() -> Args {
    Args {
        config: None,
        addr: None,
        port: None,
        cert: None,
        key: None,
        trace: None,
        level: None,
        root: None,
        index: None,
        badge: None,
        footer: None,
    }
}

#[test]
fn cli_resolution_fills_defaults() {
    let mut a = bare_args();
    a.cert = Some("cert.pem".to_string());
    a.key = Some("key.pem".to_string());
    a.root = Some("gemcap".to_string());
    match a.resolve().unwrap() {
        Resolution::Ready(r) => {
            assert_eq!(r.addr, IpAddress::V4(0x7f00_0001));
            assert_eq!(r.port, 1965);
            assert_eq!(r.trace, Trace::Stderr);
            assert_eq!(r.level, Level::Info);
            assert_eq!(r.index, "index.gmi");
            assert_eq!(r.root, "gemcap");
            assert_eq!(r.badge, None);
        }
        Resolution::LoadConfig(_) => panic!("no config was named"),
    }
}

#[test]
fn cli_resolution_requires_cert_key_root_in_order() {
    let a = bare_args();
    assert_eq!(a.resolve().unwrap_err(), ResolveError::MissingCert);
    let mut a = bare_args();
    a.cert = Some("c".to_string());
    assert_eq!(a.resolve().unwrap_err(), ResolveError::MissingKey);
    let mut a = bare_args();
    a.cert = Some("c".to_string());
    a.key = Some("k".to_string());
    let e = a.resolve().unwrap_err();
    assert_eq!(e, ResolveError::MissingRoot);
    assert_eq!(e.message(), "missing root");
}

#[test]
fn config_with_badge_or_footer_is_refused() {
    let mut a = bare_args();
    a.config = Some("server.toml".to_string());
    a.badge = Some("hello".to_string());
    assert_eq!(a.resolve().unwrap_err(), ResolveError::ConfigWithCliOptions);

    let mut a = bare_args();
    a.config = Some("server.toml".to_string());
    a.footer = Some("bye".to_string());
    assert_eq!(a.resolve().unwrap_err(), ResolveError::ConfigWithCliOptions);
}

#[test]
fn config_alone_is_loaded() {
    let mut a = bare_args();
    a.config = Some("server.toml".to_string());
    match a.resolve().unwrap() {
        Resolution::LoadConfig(p) => assert_eq!(p, "server.toml"),
        Resolution::Ready(_) => panic!("config must be read"),
    }
}

#[test]
fn config_file_resolution() {
    let c = ConfigFile {
        addr: Some(IpAddress::V6(1)),
        port: Some(1966),
        cert: Some("cert.pem".to_string()),
        key: Some("key.pem".to_string()),
        trace: Some(Trace::Tmp),
        level: Some(Level::Warn),
        root: Some("gemcap".to_string()),
        index: Some("home.gmi".to_string()),
        badge: Some("startup badge".to_string()),
        footer: Some("server footer".to_string()),
    };
    let r = c.resolve().unwrap();
    assert_eq!(r.addr, IpAddress::V6(1));
    assert_eq!(r.port, 1966);
    assert_eq!(r.trace, Trace::Tmp);
    assert_eq!(r.level, Level::Warn);
    assert_eq!(r.index, "home.gmi");
    assert_eq!(r.footer.as_deref(), Some("server footer"));

    let c = ConfigFile {
        addr: None,
        port: None,
        cert: Some("cert.pem".to_string()),
        key: None,
        trace: None,
        level: None,
        root: None,
        index: None,
        badge: None,
        footer: None,
    };
    let e = c.resolve().unwrap_err();
    assert_eq!(e, ResolveError::MissingKeyInConfig);
    assert_eq!(e.message(), "missing key in config");
}

#[test]
fn error_messages() {
    assert_eq!(ResolveError::MissingCert.message(), "missing cert");
    assert_eq!(ResolveError::MissingKey.message(), "missing key");
    assert_eq!(ResolveError::MissingCertInConfig.message(), "missing cert in config");
    assert_eq!(ResolveError::MissingRootInConfig.message(), "missing root in config");
    assert_eq!(
        ResolveError::ConfigWithCliOptions.message(),
        "--config cannot be used together with CLI options"
    );
}
