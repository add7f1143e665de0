use clap::{App, Arg, ArgMatches};
use deadmock::{Error, Files, Mapping, Mappings, Proxy};
use std::cmp::Ordering;

#[test]
fn default_is_disabled() {
    let proxy_config = Proxy::default();
    assert!(!proxy_config.use_proxy());
}

#[test]
fn load_test_files() {
    let files = Files::from_root(Some("files"));
    assert_eq!(files.path, "files/files");
    assert_eq!(Files::from_root(None).path, "files");
}

fn test_cli() -> App<'static, 'static> {
    App::new("proxy-config-test")
        .version("1")
        .author("Yoda")
        .about("command line for proxy config testing")
        .arg(Arg::with_name("proxy").short("p").long("proxy").requires("proxy-url").help("Use a proxy"))
        .arg(Arg::with_name("proxy-url").long("proxy-url").takes_value(true).value_name("PROXY_URL"))
        .arg(
            Arg::with_name("proxy-username")
                .long("proxy-username")
                .takes_value(true)
                .value_name("PROXY_USER"),
        )
        .arg(
            Arg::with_name("proxy-password")
                .long("proxy-password")
                .takes_value(true)
                .value_name("PROXY_PASS"),
        )
}

fn test_cli_no_requires() -> App<'static, 'static> {
    App::new("proxy-config-test")
        .arg(Arg::with_name("proxy").short("p").long("proxy").help("Use a proxy"))
        .arg(Arg::with_name("proxy-url").long("proxy-url").takes_value(true).value_name("PROXY_URL"))
}

fn proxy_from(matches: &ArgMatches<'_>) -> Result<Proxy, Error> {
    Proxy::from_options(
        matches.is_present("proxy"),
        matches.value_of("proxy-url").map(str::to_string),
        matches.value_of("proxy-username").map(str::to_string),
        matches.value_of("proxy-password").map(str::to_string),
    )
}

#[test]
fn from_all_args() {
    let arg_vec = vec![
        "test-cli",
        "-p",
        "--proxy-url",
        "http://a.proxy.com",
        "--proxy-username",
        "test",
        "--proxy-password",
        "test",
    ];
    let matches = test_cli().get_matches_from(arg_vec);
    match proxy_from(&matches) {
        Ok(proxy_config) => {
            assert!(proxy_config.use_proxy());
            assert_eq!(proxy_config.proxy_url(), &Some("http://a.proxy.com".to_string()));
            assert_eq!(proxy_config.proxy_username(), &Some("test".to_string()));
            assert_eq!(proxy_config.proxy_password(), &Some("test".to_string()));
            assert!(proxy_config.has_credentials());
        }
        Err(_) => panic!("Not expected to error!"),
    }
}

#[test]
fn no_username_password() {
    let arg_vec = vec!["test-cli", "-p", "--proxy-url", "http://a.proxy.com"];
    let matches = test_cli().get_matches_from(arg_vec);
    match proxy_from(&matches) {
        Ok(proxy_config) => {
            assert!(proxy_config.use_proxy());
            assert_eq!(proxy_config.proxy_url(), &Some("http://a.proxy.com".to_string()));
            assert!(proxy_config.proxy_username().is_none());
            assert!(proxy_config.proxy_password().is_none());
        }
        Err(_) => panic!("Not expected to error!"),
    }
}

#[test]
fn proxy_requires_proxy_url() {
    let arg_vec = vec!["test-cli", "-p", "--proxy-username", "password"];
    assert!(test_cli().get_matches_from_safe(arg_vec).is_err());
}

#[test]
fn proxy_config_requires_proxy_url() {
    let arg_vec = vec!["test-cli", "-p"];
    let matches = test_cli_no_requires().get_matches_from(arg_vec);
    match proxy_from(&matches) {
        Ok(_) => panic!("Not expected to succeed!"),
        Err(e) => {
            assert_eq!(e, Error::InvalidProxyConfig);
            assert_eq!(e.message(), "invalid proxy configuration! proxy url is required");
        }
    }
    assert!(Proxy::from_options(false, None, None, None).is_ok());
}

#[test]
fn order() {
    let mut first = Mapping::default();
    first.priority = 5;
    let mut second = Mapping::default();
    second.priority = 1;
    let mut third = Mapping::default();
    third.priority = 3;

    let mut mappings = vec![(first, "first"), (second, "second"), (third, "third")];
    mappings.sort_by(|a, b| {
        if a.0.precedes(&b.0) {
            Ordering::Less
        } else if b.0.precedes(&a.0) {
            Ordering::Greater
        } else {
            Ordering::Equal
        }
    });
    let priorities: Vec<(u8, &str)> = mappings.iter().map(|(k, v)| (k.priority, *v)).collect();
    assert_eq!(priorities, vec![(1, "second"), (3, "third"), (5, "first")]);
}

#[test]
fn proxy_new_has_no_credentials() {
    let proxy = Proxy::new(true, Some("http://a.proxyurl.com".to_string()));
    assert!(proxy.use_proxy());
    assert!(proxy.proxy_username().is_none());
    assert!(!proxy.has_credentials());
}

#[test]
fn mapping_ids_are_unique() {
    let mut store = Mappings::new();
    assert!(store.insert(7, Mapping::default()).is_ok());
    assert_eq!(store.insert(7, Mapping::default()), Err(Error::MappingKeyCollision));
    assert_eq!(store.len(), 1);
    let a = store.add(Mapping::default()).unwrap();
    let b = store.add(Mapping::default()).unwrap();
    assert_ne!(a, b);
    assert_eq!(store.len(), 3);
    assert_eq!(store.id(0), 7);
}

#[test]
fn mapping_order_is_by_priority() {
    let mut first = Mapping::default();
    first.priority = 5;
    let mut second = Mapping::default();
    second.priority = 10;
    assert!(first.precedes(&second));
    assert!(!second.precedes(&first));
    assert!(!first.precedes(&first));
}

#[test]
fn error_messages() {
    assert_eq!(Error::MappingKeyCollision.message(), "mapping key collision");
    assert_eq!(Error::InvalidRuntimeConfig.message(), "invalid runtime configuration!");
    assert_eq!(Error::MappingNotFound.message(), "No mapping found");
}
