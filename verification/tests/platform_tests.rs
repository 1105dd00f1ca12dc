use raijin::platform::{first_present, sqlite_url, PlatformError};

#[test]
fn first_present_picks_the_first_available_folder() {
    let none: [Option<&str>; 0] = [];
    assert_eq!(first_present(&none), None);
    assert_eq!(first_present(&[None::<&str>, None]), None);
    assert_eq!(first_present(&[Some("/data"), Some("/appdata")]), Some(0));
    assert_eq!(first_present(&[None, Some("/xdg"), Some("/home")]), Some(1));
    assert_eq!(first_present(&[None, None, None, Some("/cwd")]), Some(3));
}

#[test]
fn sqlite_url_prefixes_the_path() {
    assert_eq!(sqlite_url("/tmp/raijin.sqlite"), "sqlite:///tmp/raijin.sqlite");
    assert_eq!(sqlite_url(""), "sqlite://");
}

#[test]
fn platform_errors_render_their_messages() {
    assert_eq!(
        PlatformError::DataDirectoryUnavailable.to_string(),
        "no usable application data directory found"
    );
    assert_eq!(PlatformError::Io("denied".to_owned()).to_string(), "denied");
    assert_eq!(
        PlatformError::NonUtf8Path("a\u{fffd}b".to_owned()).to_string(),
        "path is not valid UTF-8: a\u{fffd}b"
    );
}
