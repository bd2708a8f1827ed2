use shutdown_handler::sysproxy::{report, Autoproxy, Error, Sysproxy, TargetOs};

#[test]
fn proxy_settings_are_supported_on_the_three_systems() {
    assert!(Sysproxy::is_support(TargetOs::Linux));
    assert!(Sysproxy::is_support(TargetOs::MacOs));
    assert!(Sysproxy::is_support(TargetOs::Windows));
    assert!(!Sysproxy::is_support(TargetOs::Other));
    assert!(Autoproxy::is_support(TargetOs::Linux));
    assert!(Autoproxy::is_support(TargetOs::MacOs));
    assert!(Autoproxy::is_support(TargetOs::Windows));
    assert!(!Autoproxy::is_support(TargetOs::Other));
}

#[test]
fn defaults_are_disabled_and_empty() {
    assert_eq!(
        Sysproxy::default(),
        Sysproxy { enable: false, host: String::new(), port: None, bypass: String::new() }
    );
    assert_eq!(Autoproxy::default(), Autoproxy { enable: false, url: String::new() });
}

#[test]
fn manual_settings_carry_host_and_port() {
    let settings =
        Sysproxy::manual(true, String::from("127.0.0.1"), 7890, String::from("localhost"));
    assert_eq!(
        settings,
        Sysproxy {
            enable: true,
            host: String::from("127.0.0.1"),
            port: Some(7890),
            bypass: String::from("localhost"),
        }
    );
}

#[test]
fn settings_by_url_carry_no_port() {
    let settings = Sysproxy::by_url(false, String::from("http://proxy:8080"), String::new());
    assert_eq!(
        settings,
        Sysproxy {
            enable: false,
            host: String::from("http://proxy:8080"),
            port: None,
            bypass: String::new(),
        }
    );
}

#[test]
fn automatic_settings_carry_the_url() {
    assert_eq!(
        Autoproxy::new(true, String::from("http://host/proxy.pac")),
        Autoproxy { enable: true, url: String::from("http://host/proxy.pac") }
    );
}

#[test]
fn every_error_has_its_message() {
    assert_eq!(
        Error::ParseStr(String::from("12x")).message(),
        "failed to parse string `12x`"
    );
    assert_eq!(Error::ParseStr(String::new()).message(), "failed to parse string ``");
    assert_eq!(Error::Io(String::from("broken pipe")).message(), "broken pipe");
    assert_eq!(Error::NetworkInterface.message(), "failed to get default network interface");
    assert_eq!(Error::NotSupport.message(), "failed to set proxy for this environment");
    assert_eq!(Error::Xdg(String::from("$HOME must be set")).message(), "$HOME must be set");
    assert_eq!(Error::SystemCall.message(), "system call failed");
}

#[test]
fn report_passes_success_and_names_the_failure() {
    assert_eq!(report(Ok(())), Ok(()));
    assert_eq!(
        report(Err(Error::NotSupport)),
        Err(String::from("failed to set proxy for this environment"))
    );
    assert_eq!(
        report(Err(Error::ParseStr(String::from("a:b")))),
        Err(String::from("failed to parse string `a:b`"))
    );
}
