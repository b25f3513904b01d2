use signature_patcher::service::{exclusion_verdict, persistence_verdict};

#[test]
fn exclusion_that_succeeded() {
    assert_eq!(exclusion_verdict(true, true, ""), Ok("Defender exclusion added".to_string()));
    assert_eq!(exclusion_verdict(false, true, ""), Ok("Defender exclusion removed".to_string()));
    assert_eq!(
        exclusion_verdict(true, true, "a warning"),
        Ok("Defender exclusion added".to_string())
    );
}

#[test]
fn exclusion_that_failed() {
    assert_eq!(
        exclusion_verdict(true, false, "Access denied"),
        Err("Access denied".to_string())
    );
    assert_eq!(exclusion_verdict(false, false, ""), Err(String::new()));
}

#[test]
fn task_that_was_created_or_not() {
    assert_eq!(
        persistence_verdict(true, true, ""),
        Ok("Persistence scheduled task created.".to_string())
    );
    assert_eq!(
        persistence_verdict(true, false, "ERROR: Access is denied."),
        Err("ERROR: Access is denied.".to_string())
    );
    assert_eq!(
        persistence_verdict(true, false, "ERROR: The specified task name is invalid"),
        Err("ERROR: The specified task name is invalid".to_string())
    );
}

#[test]
fn task_that_was_removed_or_was_not_there() {
    assert_eq!(
        persistence_verdict(false, true, ""),
        Ok("Persistence scheduled task removed.".to_string())
    );
    assert_eq!(
        persistence_verdict(
            false,
            false,
            "ERROR: The specified task name \"RDP-MultiSession-Persistence\" does not exist in the system.\r\n"
        ),
        Ok("Persistence scheduled task removed.".to_string())
    );
    assert_eq!(
        persistence_verdict(false, false, "\u{fffd}\u{e9} ERROR: The specified task name"),
        Ok("Persistence scheduled task removed.".to_string())
    );
}

#[test]
fn task_that_could_not_be_removed() {
    assert_eq!(
        persistence_verdict(false, false, "ERROR: Access is denied."),
        Err("ERROR: Access is denied.".to_string())
    );
    assert_eq!(
        persistence_verdict(false, false, "error: the specified task name"),
        Err("error: the specified task name".to_string())
    );
    assert_eq!(persistence_verdict(false, false, ""), Err(String::new()));
}
