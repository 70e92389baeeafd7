use host_router::lookup::Lookup;

#[test]
fn a_value_is_found() {
    assert_eq!(
        Lookup::from_reply(Ok(Some("rs1".to_string()))),
        Lookup::Found("rs1".to_string())
    );
}

#[test]
fn no_value_is_absence_of_configuration() {
    assert_eq!(Lookup::<String>::from_reply(Ok(None)), Lookup::NotConfigured);
}

#[test]
fn a_failure_leaves_the_store_unavailable() {
    assert_eq!(
        Lookup::<String>::from_reply(Err("timeout".to_string())),
        Lookup::BackendUnavailable("timeout".to_string())
    );
}

#[test]
fn a_store_that_is_there_is_handed_on() {
    let opened: Result<u8, Lookup<String>> = Lookup::opened(Ok(Some(7u8)));
    assert_eq!(opened, Ok(7u8));
}

#[test]
fn a_missing_store_is_unavailable() {
    let opened: Result<u8, Lookup<String>> = Lookup::opened(Ok(None));
    assert_eq!(opened, Err(Lookup::BackendUnavailable("No KV store found".to_string())));
}

#[test]
fn a_store_that_fails_to_open_is_unavailable() {
    let opened: Result<u8, Lookup<String>> = Lookup::opened(Err("denied".to_string()));
    assert_eq!(opened, Err(Lookup::BackendUnavailable("denied".to_string())));
}
