use browsers::{launch_outcome, open, LSLaunchFlags, Openable};

#[test]
fn zero_status_is_success() {
    assert_eq!(launch_outcome(0), Ok(()));
}

#[test]
fn nonzero_status_is_passed_on() {
    assert_eq!(launch_outcome(-10814), Err(-10814));
    assert_eq!(launch_outcome(-43), Err(-43));
    assert_eq!(launch_outcome(1), Err(1));
}

#[test]
fn open_single_url_with_app() {
    let spec = open(Some("https://example.com/"), Some("file:///Applications/Safari.app/".to_string()), LSLaunchFlags::defaults());
    assert_eq!(spec.app, Some("file:///Applications/Safari.app/".to_string()));
    assert_eq!(spec.urls, Some(vec!["https://example.com/".to_string()]));
    assert_eq!(spec.flags, LSLaunchFlags::defaults());
}

#[test]
fn open_without_urls_or_app() {
    let spec = open::<String>(None, None, LSLaunchFlags::launch_async());
    assert_eq!(spec.app, None);
    assert_eq!(spec.urls, None);
    assert_eq!(spec.flags.bits(), 0x00010000);
}

#[test]
fn openable_forms() {
    let owned = "http://a/".to_string();
    assert_eq!(owned.into_openable(), vec!["http://a/".to_string()]);
    assert_eq!("http://b/".into_openable(), vec!["http://b/".to_string()]);
    let s: &str = "http://c/";
    assert_eq!(Openable::into_openable(&s), vec!["http://c/".to_string()]);
    let v = vec!["http://d/".to_string(), "http://e/".to_string()];
    assert_eq!(v.into_openable(), v);
    let refs = vec![&owned, &owned];
    assert_eq!(refs.into_openable(), vec!["http://a/".to_string(), "http://a/".to_string()]);
    let empty: Vec<String> = vec![];
    assert_eq!(empty.into_openable(), Vec::<String>::new());
}

