use grading_client::authentication::AuthResp;
use grading_client::files::{FileDescription, LocalFile, ValidationError};
use grading_client::session::{Action, Config, Event, Phase, RunError, Session, TestRequest};

fn local(name: &str, size: u64) -> LocalFile {
    LocalFile { path: name.to_string(), file_name: name.to_string(), is_file: true, size }
}

fn bundle(test_env: Vec<FileDescription>) -> AuthResp {
    AuthResp {
        message: None,
        submission_id: Some("S1".to_string()),
        bucket: Some("b".to_string()),
        dir: Some("u/S1".to_string()),
        oss_access_key_id: Some("k".to_string()),
        policy: Some("p".to_string()),
        signature: Some("s".to_string()),
        runner_location: Some("https://run/x".to_string()),
        test_entry: Some("main".to_string()),
        test_env: Some(test_env),
    }
}

fn refusal(message: Option<&str>) -> AuthResp {
    AuthResp {
        message: message.map(|m| m.to_string()),
        submission_id: None,
        bucket: None,
        dir: None,
        oss_access_key_id: None,
        policy: None,
        signature: None,
        runner_location: None,
        test_entry: None,
        test_env: None,
    }
}

fn config(files: Vec<LocalFile>) -> Config {
    Config { test_set_id: "abc123".to_string(), phone: "13800000000".to_string(), files }
}

fn authenticated(files: Vec<LocalFile>, test_env: Vec<FileDescription>) -> (Session, Action) {
    let (mut s, a) = Session::start(config(files), None);
    assert!(matches!(a, Action::Authenticate(_)));
    let a = s.step(Event::Authenticated(bundle(test_env)));
    (s, a)
}

fn is_request(a: &Action) -> bool {
    !matches!(a, Action::Abort(_))
}

#[test]
fn end_to_end_single_file_passes() {
    let c = Config::build(
        "abc123".to_string(),
        "13800000000".to_string(),
        vec![local("sol.py", 800)],
    )
    .unwrap();
    let (mut s, a) = Session::start(c, None);
    match a {
        Action::Authenticate(q) => {
            assert_eq!(q.set_id, "abc123");
            assert_eq!(q.phone, "13800000000");
            assert_eq!(q.mac, "unknown");
        }
        _ => panic!("expected a credential request"),
    }
    let a = s.step(Event::Authenticated(bundle(vec![])));
    match a {
        Action::Upload(job) => {
            assert_eq!(job.key, "u/S1/sol.py");
            assert_eq!(job.destination, "https://b.oss-accelerate.aliyuncs.com");
        }
        _ => panic!("expected an upload"),
    }
    let a = s.step(Event::Uploaded(200));
    match a {
        Action::RunTest(req) => {
            assert_eq!(req.url, "https://run/x");
            assert_eq!(req.body.test_entry, "main");
            assert!(req.body.test_env.is_empty());
            assert_eq!(req.body.files.len(), 1);
            assert_eq!(req.body.files[0].key, "u/S1/sol.py");
            assert_eq!(req.body.files[0].bucket, "b");
        }
        _ => panic!("expected a test request"),
    }
    let a = s.step(Event::Tested("PASS".to_string()));
    match a {
        Action::Report(body) => {
            assert_eq!(body.result, "PASS");
            assert_eq!(body.submission_id, "S1");
            assert_eq!(body.files.len(), 1);
            assert_eq!(body.files[0].key, "u/S1/sol.py");
            assert_eq!(body.files[0].bucket, "b");
        }
        _ => panic!("expected the summary"),
    }
    assert_eq!(s.phase, Phase::Finished);
}

#[test]
fn invalid_files_stop_before_any_request() {
    let mut files = vec![local("a.py", 10), local("big.py", 2_000_000)];
    files.push(LocalFile { path: "x".to_string(), file_name: "x".to_string(), is_file: false, size: 0 });
    assert_eq!(
        Config::build("t".to_string(), "p".to_string(), files.clone()).err(),
        Some(ValidationError::TooLarge)
    );
    let (mut s, a) = Session::start(config(files), None);
    assert!(matches!(a, Action::Abort(RunError::Validation(ValidationError::TooLarge))));
    assert_eq!(s.phase, Phase::Stopped);
    assert_eq!(s.uploads_issued, 0);
    for e in [Event::Authenticated(bundle(vec![])), Event::Uploaded(200), Event::Tested("x".to_string())] {
        let a = s.step(e);
        assert!(!is_request(&a));
        assert_eq!(s.phase, Phase::Stopped);
    }
}

#[test]
fn refusal_surfaces_message_and_stops() {
    let (mut s, _) = Session::start(config(vec![local("sol.py", 800)]), None);
    let a = s.step(Event::Authenticated(refusal(Some("wrong test-set id"))));
    match a {
        Action::Abort(RunError::Authorization(e)) => assert_eq!(e.reason, "wrong test-set id"),
        _ => panic!("expected an authorization failure"),
    }
    assert_eq!(s.uploads_issued, 0);
    let a = s.step(Event::Uploaded(200));
    assert!(!is_request(&a));
}

#[test]
fn refusal_without_message_is_malformed() {
    let (mut s, _) = Session::start(config(vec![local("sol.py", 800)]), None);
    let a = s.step(Event::Authenticated(refusal(None)));
    assert!(matches!(a, Action::Abort(RunError::MalformedResponse)));
}

#[test]
fn incomplete_bundle_is_malformed() {
    let (mut s, _) = Session::start(config(vec![local("sol.py", 800)]), None);
    let mut r = bundle(vec![]);
    r.signature = None;
    let a = s.step(Event::Authenticated(r));
    assert!(matches!(a, Action::Abort(RunError::MalformedResponse)));
    assert_eq!(s.phase, Phase::Stopped);
}

#[test]
fn every_file_is_uploaded_once_in_order() {
    let names = ["a.py", "b.py", "c.py"];
    let (mut s, mut a) = authenticated(names.iter().map(|n| local(n, 5)).collect(), vec![]);
    let mut keys = Vec::new();
    loop {
        match a {
            Action::Upload(job) => {
                assert_eq!(job.bucket, "b");
                keys.push(job.key);
                a = s.step(Event::Uploaded(201));
            }
            Action::RunTest(req) => {
                assert_eq!(req.body.files.len(), 3);
                for (i, d) in req.body.files.iter().enumerate() {
                    assert_eq!(d.key, format!("u/S1/{}", names[i]));
                    assert_eq!(d.bucket, "b");
                }
                break;
            }
            _ => panic!("unexpected action"),
        }
    }
    assert_eq!(keys, vec!["u/S1/a.py", "u/S1/b.py", "u/S1/c.py"]);
    assert_eq!(s.uploads_issued, 3);
    assert_eq!(s.phase, Phase::Testing);
}

#[test]
fn refused_upload_ends_batch() {
    let (mut s, a) = authenticated(vec![local("a.py", 5), local("b.py", 5), local("c.py", 5)], vec![]);
    assert!(matches!(a, Action::Upload(_)));
    let a = s.step(Event::Uploaded(200));
    assert!(matches!(a, Action::Upload(_)));
    let a = s.step(Event::Uploaded(403));
    match a {
        Action::Abort(RunError::Server(m)) => {
            assert_eq!(m, "Impeded communication, please try again later.")
        }
        _ => panic!("expected a server error"),
    }
    assert_eq!(s.uploads_issued, 2);
    assert_eq!(s.phase, Phase::Stopped);
    let a = s.step(Event::Uploaded(200));
    assert!(matches!(a, Action::Abort(RunError::OutOfOrder)));
    assert_eq!(s.uploads_issued, 2);
}

#[test]
fn status_just_outside_success_fails() {
    let (mut s, _) = authenticated(vec![local("a.py", 5)], vec![]);
    assert!(matches!(s.step(Event::Uploaded(300)), Action::Abort(RunError::Server(_))));
    let (mut s, _) = authenticated(vec![local("a.py", 5)], vec![]);
    assert!(matches!(s.step(Event::Uploaded(199)), Action::Abort(RunError::Server(_))));
    let (mut s, _) = authenticated(vec![local("a.py", 5)], vec![]);
    assert!(matches!(s.step(Event::Uploaded(299)), Action::RunTest(_)));
}

#[test]
fn test_request_keeps_environment() {
    let env = vec![
        FileDescription { key: "env/helper.py".to_string(), bucket: "shared".to_string() },
        FileDescription { key: "env/data.csv".to_string(), bucket: "shared2".to_string() },
    ];
    let (mut s, _) = authenticated(vec![local("x.py", 5), local("y.py", 5)], env);
    s.step(Event::Uploaded(200));
    match s.step(Event::Uploaded(200)) {
        Action::RunTest(req) => {
            assert_eq!(req.body.test_env.len(), 2);
            assert_eq!(req.body.test_env[0].key, "env/helper.py");
            assert_eq!(req.body.test_env[0].bucket, "shared");
            assert_eq!(req.body.test_env[1].key, "env/data.csv");
            assert_eq!(req.body.test_env[1].bucket, "shared2");
            assert_eq!(req.body.files[0].key, "u/S1/x.py");
            assert_eq!(req.body.files[1].key, "u/S1/y.py");
        }
        _ => panic!("expected a test request"),
    }
}

#[test]
fn no_files_go_straight_to_tests() {
    let (s, a) = authenticated(vec![], vec![]);
    assert!(matches!(a, Action::RunTest(ref r) if r.body.files.is_empty()));
    assert_eq!(s.uploads_issued, 0);
}

#[test]
fn transport_failure_stops() {
    let (mut s, _) = authenticated(vec![local("a.py", 5)], vec![]);
    match s.step(Event::TransportFailed("connection reset".to_string())) {
        Action::Abort(e) => {
            assert!(matches!(e, RunError::Transport(_)));
            assert_eq!(e.message(), "connection reset");
        }
        _ => panic!("expected a transport error"),
    }
    assert_eq!(s.phase, Phase::Stopped);
}

#[test]
fn unexpected_event_stops() {
    let (mut s, _) = Session::start(config(vec![local("a.py", 5)]), None);
    assert!(matches!(s.step(Event::Tested("PASS".to_string())), Action::Abort(RunError::OutOfOrder)));
    assert_eq!(s.phase, Phase::Stopped);
}

#[test]
fn test_request_build() {
    let files = vec![FileDescription { key: "u/S1/a.py".to_string(), bucket: "b".to_string() }];
    let req = TestRequest::build(&bundle(vec![]), &files);
    assert_eq!(req.url, "https://run/x");
    assert_eq!(req.body.files[0].key, "u/S1/a.py");
    assert_eq!(req.body.test_entry, "main");
}
