use typora_image_upload::context::{PublicHost, RunContext};
use typora_image_upload::driver::{Action, Driver, Event};
use typora_image_upload::error::ErrorKind;
use typora_image_upload::loader::FetchResponse;
use typora_image_upload::mime::DeclaredType;
use typora_image_upload::provision::PublicAccess;

fn context() -> RunContext {
    RunContext::new(
        "2024/01/15/10".to_string(),
        "images".to_string(),
        PublicHost::Account("acct".to_string()),
    )
    .unwrap()
}

fn run(inputs: &[&str]) -> Driver {
    Driver::new(context(), inputs.iter().map(|s| s.to_string()).collect()).unwrap()
}

fn provisioned(inputs: &[&str]) -> (Driver, Action) {
    let (driver, action) = run(inputs).step(Event::Started);
    assert!(matches!(action, Action::CheckContainer));
    driver.step(Event::ContainerFound(true))
}

#[test]
fn local_file_is_uploaded_and_its_address_printed() {
    let (driver, action) = provisioned(&["photo.png"]);
    assert!(matches!(action, Action::ReadFile(ref path) if path == "photo.png"));

    let (driver, action) = driver.step(Event::FileRead(vec![0x89, 0x50, 0x4E, 0x47]));
    match action {
        Action::Upload(request) => {
            assert_eq!(request.container, "images");
            assert_eq!(request.key, "2024/01/15/10/photo----7FDFB5MJGMC8NHTPRCWZD7TWF4.png");
            assert_eq!(request.content_type, "image/png");
            assert_eq!(
                request.metadata,
                vec![("source".to_string(), "photo.png".to_string())]
            );
            assert_eq!(request.body, vec![0x89, 0x50, 0x4E, 0x47]);
        }
        other => panic!("unexpected action {:?}", other),
    }
    assert_eq!(driver.done(), 0);

    let (driver, action) = driver.step(Event::Uploaded);
    match action {
        Action::Print(line) => assert_eq!(
            line,
            "https://acct.blob.core.windows.net/images/2024/01/15/10/photo----7FDFB5MJGMC8NHTPRCWZD7TWF4.png"
        ),
        other => panic!("unexpected action {:?}", other),
    }

    let (driver, action) = driver.step(Event::Printed);
    assert!(matches!(action, Action::Finish));
    assert_eq!(driver.done(), 1);
    assert!(driver.is_over());
}

#[test]
fn refused_fetch_prints_one_empty_line_and_writes_nothing() {
    let (driver, action) = provisioned(&["https://example.com/pics/cat.jpg"]);
    assert!(matches!(action, Action::Fetch(ref address) if address == "https://example.com/pics/cat.jpg"));

    let response = FetchResponse { status: 404, declared: DeclaredType::Absent, body: Vec::new() };
    let (driver, action) = driver.step(Event::Fetched(response));
    assert!(matches!(action, Action::Print(ref line) if line.is_empty()));

    let (driver, action) = driver.step(Event::Printed);
    assert!(matches!(action, Action::Finish));
    assert_eq!(driver.done(), 1);
}

#[test]
fn fetched_body_is_uploaded_with_the_declared_type() {
    let (driver, _) = provisioned(&["https://example.com/pics/cat.jpg"]);
    let response = FetchResponse {
        status: 200,
        declared: DeclaredType::Text("image/jpeg".to_string()),
        body: b"hello".to_vec(),
    };
    let (driver, action) = driver.step(Event::Fetched(response));
    match action {
        Action::Upload(request) => {
            assert_eq!(request.key, "2024/01/15/10/cat----BN0M0ANW9CN7DEBHKP8H05Y5J8.jpg");
            assert_eq!(request.content_type, "image/jpeg");
            assert_eq!(
                request.metadata,
                vec![("source".to_string(), "https://example.com/pics/cat.jpg".to_string())]
            );
        }
        other => panic!("unexpected action {:?}", other),
    }
    let (_, action) = driver.step(Event::Uploaded);
    assert!(matches!(
        action,
        Action::Print(ref line)
            if line == "https://acct.blob.core.windows.net/images/2024/01/15/10/cat----BN0M0ANW9CN7DEBHKP8H05Y5J8.jpg"
    ));
}

#[test]
fn two_inputs_give_two_lines_in_order() {
    let mut lines: Vec<String> = Vec::new();
    let mut keys: Vec<String> = Vec::new();
    let (mut driver, mut action) = provisioned(&["a.png", "b.png"]);
    let contents: [&[u8]; 2] = [b"first", b"second"];
    let mut reads = 0;
    let mut guard = 0;
    loop {
        guard += 1;
        assert!(guard < 20);
        let event = match action {
            Action::ReadFile(path) => {
                assert_eq!(path, ["a.png", "b.png"][reads]);
                reads += 1;
                Event::FileRead(contents[reads - 1].to_vec())
            }
            Action::Upload(request) => {
                keys.push(request.key);
                Event::Uploaded
            }
            Action::Print(line) => {
                lines.push(line);
                Event::Printed
            }
            Action::Finish => break,
            other => panic!("unexpected action {:?}", other),
        };
        let next = driver.step(event);
        driver = next.0;
        action = next.1;
    }
    assert_eq!(
        keys,
        vec![
            "2024/01/15/10/a----HC2DBRVQBMMRWY25BVY5S904TM.png",
            "2024/01/15/10/b----N7REC6GKFP3AN7DN6HJY100P28.png"
        ]
    );
    assert_eq!(
        lines,
        vec![
            "https://acct.blob.core.windows.net/images/2024/01/15/10/a----HC2DBRVQBMMRWY25BVY5S904TM.png",
            "https://acct.blob.core.windows.net/images/2024/01/15/10/b----N7REC6GKFP3AN7DN6HJY100P28.png"
        ]
    );
    assert_eq!(driver.done(), 2);
}

#[test]
fn missing_container_is_created_once_before_the_first_input() {
    let (driver, action) = run(&["a.png"]).step(Event::Started);
    assert!(matches!(action, Action::CheckContainer));
    let (driver, action) = driver.step(Event::ContainerFound(false));
    assert!(matches!(action, Action::CreateContainer(PublicAccess::Blob)));
    let (_, action) = driver.step(Event::ContainerCreated);
    assert!(matches!(action, Action::ReadFile(ref path) if path == "a.png"));
}

#[test]
fn existing_container_is_not_created_again() {
    let (_, action) = provisioned(&["a.png"]);
    assert!(matches!(action, Action::ReadFile(_)));
    let (_, action) = provisioned(&["a.png"]);
    assert!(matches!(action, Action::ReadFile(_)));
}

#[test]
fn run_without_inputs_finishes_after_provisioning() {
    let (driver, action) = provisioned(&[]);
    assert!(matches!(action, Action::Finish));
    assert!(driver.is_over());
    assert_eq!(driver.done(), 0);
}

#[test]
fn failures_end_the_run_with_their_kind() {
    let (driver, _) = run(&["a.png"]).step(Event::Started);
    let (driver, action) = driver.step(Event::Failed);
    assert!(matches!(action, Action::Abort(ErrorKind::ProvisioningError)));
    assert!(driver.is_over());

    let (driver, _) = run(&["a.png"]).step(Event::Started);
    let (driver, _) = driver.step(Event::ContainerFound(false));
    let (_, action) = driver.step(Event::Failed);
    assert!(matches!(action, Action::Abort(ErrorKind::ProvisioningError)));

    let (driver, _) = provisioned(&["a.png"]);
    let (_, action) = driver.step(Event::Failed);
    assert!(matches!(action, Action::Abort(ErrorKind::IoError)));

    let (driver, _) = provisioned(&["a.png"]);
    let (driver, _) = driver.step(Event::FileRead(vec![1]));
    let (_, action) = driver.step(Event::Failed);
    assert!(matches!(action, Action::Abort(ErrorKind::UploadError)));
}

#[test]
fn unresolvable_input_ends_the_run() {
    let (driver, action) = provisioned(&["http://[bad", "a.png"]);
    assert!(matches!(action, Action::Abort(ErrorKind::InvalidUrl)));
    assert!(driver.is_over());
    assert_eq!(driver.done(), 0);

    let (_, action) = provisioned(&["/"]);
    assert!(matches!(action, Action::Abort(ErrorKind::IoError)));
}

#[test]
fn failed_run_ignores_further_events() {
    let (driver, _) = provisioned(&["http://[bad"]);
    let (driver, action) = driver.step(Event::Printed);
    assert!(matches!(action, Action::Ignore));
    assert!(driver.is_over());
}

#[test]
fn unawaited_events_change_nothing() {
    let (driver, action) = run(&["a.png"]).step(Event::Uploaded);
    assert!(matches!(action, Action::Ignore));
    let (driver, action) = driver.step(Event::Started);
    assert!(matches!(action, Action::CheckContainer));
    let (driver, action) = driver.step(Event::Printed);
    assert!(matches!(action, Action::Ignore));
    let (_, action) = driver.step(Event::ContainerFound(true));
    assert!(matches!(action, Action::ReadFile(_)));
}

#[test]
fn run_refuses_a_malformed_context() {
    let context = RunContext {
        run_timestamp: "today".to_string(),
        container_name: "images".to_string(),
        host: PublicHost::Account("acct".to_string()),
    };
    assert_eq!(Driver::new(context, Vec::new()).unwrap_err(), ErrorKind::ConfigurationError);
}

#[test]
fn creation_refused_because_the_container_exists_goes_on() {
    let (driver, _) = run(&["a.png"]).step(Event::Started);
    let (driver, action) = driver.step(Event::ContainerFound(false));
    assert!(matches!(action, Action::CreateContainer(PublicAccess::Blob)));
    let (driver, action) = driver.step(Event::CreationRefused("ContainerAlreadyExists".to_string()));
    assert!(matches!(action, Action::ReadFile(ref path) if path == "a.png"));
    assert!(!driver.is_over());
}

#[test]
fn creation_refused_for_another_reason_ends_the_run() {
    let (driver, _) = run(&["a.png"]).step(Event::Started);
    let (driver, _) = driver.step(Event::ContainerFound(false));
    let (driver, action) = driver.step(Event::CreationRefused("AuthorizationFailure".to_string()));
    assert!(matches!(action, Action::Abort(ErrorKind::ProvisioningError)));
    assert!(driver.is_over());
}

#[test]
fn refused_creation_is_awaited_only_while_creating() {
    let (driver, _) = run(&["a.png"]).step(Event::Started);
    let (_, action) = driver.step(Event::CreationRefused("ContainerAlreadyExists".to_string()));
    assert!(matches!(action, Action::Ignore));
}

#[test]
fn run_refuses_an_unusable_host_before_any_work() {
    let context = RunContext::new(
        "2024/01/15/10".to_string(),
        "images".to_string(),
        PublicHost::Vanity("[".to_string()),
    )
    .unwrap();
    assert_eq!(
        Driver::new(context, vec!["a.png".to_string()]).unwrap_err(),
        ErrorKind::ConfigurationError
    );
}

#[test]
fn plain_local_names_are_read_as_given() {
    let (driver, action) = provisioned(&["notes", "b.tar.gz"]);
    assert!(matches!(action, Action::ReadFile(ref path) if path == "notes"));
    let (driver, action) = driver.step(Event::FileRead(Vec::new()));
    match action {
        Action::Upload(request) => {
            assert_eq!(request.key, "2024/01/15/10/notes----TGERSPCF02S09TC016CESY22FR");
            assert_eq!(request.content_type, "application/octet-stream");
        }
        other => panic!("unexpected action {:?}", other),
    }
    let (driver, _) = driver.step(Event::Uploaded);
    let (driver, action) = driver.step(Event::Printed);
    assert!(matches!(action, Action::ReadFile(ref path) if path == "b.tar.gz"));
    let (_, action) = driver.step(Event::FileRead(Vec::new()));
    match action {
        Action::Upload(request) => {
            assert_eq!(request.key, "2024/01/15/10/b.tar----TGERSPCF02S09TC016CESY22FR.gz");
            assert_eq!(request.content_type, "application/gzip");
        }
        other => panic!("unexpected action {:?}", other),
    }
}
