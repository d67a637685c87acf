use xtask::exit::Exit;

#[test]
fn exit_without_a_mode() {
    assert_eq!(
        Exit::undefined_mode(),
        Exit { success: false, diagnostic: Some("undefined mode".to_string()) }
    );
}

#[test]
fn exit_after_success_prints_nothing() {
    assert_eq!(Exit::of(Ok(())), Exit { success: true, diagnostic: None });
}

#[test]
fn exit_after_an_error_prints_its_message() {
    assert_eq!(
        Exit::of(Err("failed to install miniserve".to_string())),
        Exit { success: false, diagnostic: Some("error: failed to install miniserve".to_string()) }
    );
    assert_eq!(
        Exit::of(Err(String::new())),
        Exit { success: false, diagnostic: Some("error: ".to_string()) }
    );
}
