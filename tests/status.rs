use massrebuild::{CommitStatus, StatusState};

#[test]
fn new_status_holds_its_fields() {
    let s = CommitStatus::new(
        String::from("abc"),
        String::from("ctx"),
        String::from("desc"),
        Some(String::from("http://u")),
    );
    let u = s.set(StatusState::Success);
    assert_eq!(u.sha, "abc");
    assert_eq!(u.context, "ctx");
    assert_eq!(u.description, "desc");
    assert_eq!(u.target_url, "http://u");
    assert_eq!(u.state, StatusState::Success);
}

#[test]
fn set_with_description_keeps_the_new_description() {
    let mut s = CommitStatus::new(String::from("abc"), String::from("ctx"), String::from("old"), None);
    let u = s.set_with_description("new", StatusState::Error);
    assert_eq!(u.description, "new");
    assert_eq!(u.state, StatusState::Error);
    assert_eq!(u.target_url, "");
    let later = s.set(StatusState::Pending);
    assert_eq!(later.description, "new");
    assert_eq!(s.description(), "new");
    assert_eq!(s.context(), "ctx");
}

#[test]
fn state_may_go_back() {
    let mut s = CommitStatus::new(String::from("abc"), String::from("ctx"), String::from("d"), None);
    assert_eq!(s.set(StatusState::Success).state, StatusState::Success);
    s.set_description(String::from("again"));
    s.set_url(None);
    let u = s.set(StatusState::Pending);
    assert_eq!(u.state, StatusState::Pending);
    assert_eq!(u.description, "again");
}
