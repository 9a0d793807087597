use minio_dashboard::errors::ErrorKind;
use minio_dashboard::export::Action;
use minio_dashboard::export::Event;
use minio_dashboard::export::ExportRun;
use minio_dashboard::export::Phase;

fn strings(v: &[&str]) -> Vec<String> {
    v.iter().map(|s| s.to_string()).collect()
}

#[test]
fn export_of_two_objects_with_nested_key() {
    let (run, a) = ExportRun::start("/out".to_string(), '/');
    assert!(matches!(a, Action::ListBuckets));

    let (run, a) = run.step(Event::BucketsListed(strings(&["photos"])));
    match a {
        Action::ListObjects(b) => assert_eq!(b, "photos"),
        _ => panic!("expected an object listing request"),
    }

    let (run, a) = run.step(Event::ObjectsListed(strings(&["img1.jpg", "sub/img2.jpg"])));
    match a {
        Action::CreateDirs(p) => assert_eq!(p, "/out/photos"),
        _ => panic!("expected directory creation"),
    }

    let (run, a) = run.step(Event::DirsCreated);
    match a {
        Action::Fetch(b, k) => {
            assert_eq!(b, "photos");
            assert_eq!(k, "img1.jpg");
        }
        _ => panic!("expected a fetch"),
    }

    let (run, a) = run.step(Event::DataFetched(vec![0xFF, 0xD8]));
    match a {
        Action::Write(p, d) => {
            assert_eq!(p, "/out/photos/img1.jpg");
            assert_eq!(d, vec![0xFF, 0xD8]);
        }
        _ => panic!("expected a write"),
    }

    // The nested directory is requested before the second write.
    let (run, a) = run.step(Event::Written);
    match a {
        Action::CreateDirs(p) => assert_eq!(p, "/out/photos/sub"),
        _ => panic!("expected directory creation for the nested key"),
    }

    let (run, a) = run.step(Event::DirsCreated);
    match a {
        Action::Fetch(b, k) => {
            assert_eq!(b, "photos");
            assert_eq!(k, "sub/img2.jpg");
        }
        _ => panic!("expected a fetch"),
    }

    let (run, a) = run.step(Event::DataFetched(vec![0x89, 0x50]));
    match a {
        Action::Write(p, d) => {
            assert_eq!(p, "/out/photos/sub/img2.jpg");
            assert_eq!(d, vec![0x89, 0x50]);
        }
        _ => panic!("expected a write"),
    }

    let (run, a) = run.step(Event::Written);
    assert!(matches!(a, Action::Finish));
    assert_eq!(run.phase, Phase::Finished);
}

#[test]
fn empty_bucket_creates_nothing_and_finishes() {
    let (run, _) = ExportRun::start("/out".to_string(), '/');
    let (run, a) = run.step(Event::BucketsListed(strings(&["empty-bucket"])));
    assert!(matches!(a, Action::ListObjects(_)));

    // No objects: no directory is ever requested for this bucket.
    let (run, a) = run.step(Event::ObjectsListed(Vec::new()));
    assert!(matches!(a, Action::Finish));
    assert_eq!(run.phase, Phase::Finished);
}

#[test]
fn empty_store_finishes_at_once() {
    let (run, _) = ExportRun::start("/out".to_string(), '/');
    let (run, a) = run.step(Event::BucketsListed(Vec::new()));
    assert!(matches!(a, Action::Finish));
    assert_eq!(run.phase, Phase::Finished);
}

#[test]
fn fetch_failure_aborts_with_pending_work() {
    let (run, _) = ExportRun::start("/out".to_string(), '/');
    // A second bucket and a second object are still pending when the
    // fetch of corrupt.bin fails: the run aborts at once anyway.
    let (run, _) = run.step(Event::BucketsListed(strings(&["b1", "b2"])));
    let (run, _) = run.step(Event::ObjectsListed(strings(&["corrupt.bin", "ok.txt"])));
    let (run, _) = run.step(Event::DirsCreated);
    let (run, a) = run.step(Event::FetchFailed("transport error".to_string()));
    match a {
        Action::Abort(e) => {
            assert_eq!(e.kind, ErrorKind::Transport);
            assert_eq!(e.message, "transport error");
        }
        _ => panic!("expected the run to abort"),
    }
    assert_eq!(run.phase, Phase::Aborted);
}

#[test]
fn listing_failure_aborts() {
    let (run, _) = ExportRun::start("/out".to_string(), '/');
    let (run, a) = run.step(Event::BucketListingFailed("auth failure".to_string()));
    match a {
        Action::Abort(e) => assert_eq!(e.kind, ErrorKind::Transport),
        _ => panic!("expected the run to abort"),
    }
    assert_eq!(run.phase, Phase::Aborted);

    let (run, _) = ExportRun::start("/out".to_string(), '/');
    let (run, _) = run.step(Event::BucketsListed(strings(&["b1"])));
    let (run, a) = run.step(Event::ObjectListingFailed("no such bucket".to_string()));
    assert!(matches!(a, Action::Abort(_)));
    assert_eq!(run.phase, Phase::Aborted);
}

#[test]
fn dir_creation_failure_aborts_as_io() {
    let (run, _) = ExportRun::start("/out".to_string(), '/');
    let (run, _) = run.step(Event::BucketsListed(strings(&["b1"])));
    let (run, _) = run.step(Event::ObjectsListed(strings(&["k1"])));
    let (run, a) = run.step(Event::DirsFailed("permission denied".to_string()));
    match a {
        Action::Abort(e) => assert_eq!(e.kind, ErrorKind::Io),
        _ => panic!("expected the run to abort"),
    }
    assert_eq!(run.phase, Phase::Aborted);
}

#[test]
fn write_failure_moves_to_next_object() {
    let (run, _) = ExportRun::start("/out".to_string(), '/');
    let (run, _) = run.step(Event::BucketsListed(strings(&["docs"])));
    let (run, _) = run.step(Event::ObjectsListed(strings(&["locked.txt", "next.txt"])));
    let (run, _) = run.step(Event::DirsCreated);
    let (run, _) = run.step(Event::DataFetched(vec![1, 2, 3]));

    // Writing locked.txt fails: the run keeps going with next.txt.
    let (run, a) = run.step(Event::WriteFailed("permission denied".to_string()));
    assert_eq!(run.phase, Phase::AwaitingDirs);
    match a {
        Action::CreateDirs(p) => assert_eq!(p, "/out/docs"),
        _ => panic!("expected the traversal to continue"),
    }

    let (run, a) = run.step(Event::DirsCreated);
    match a {
        Action::Fetch(_, k) => assert_eq!(k, "next.txt"),
        _ => panic!("expected a fetch of the next object"),
    }
    let (run, a) = run.step(Event::DataFetched(vec![9]));
    match a {
        Action::Write(p, d) => {
            assert_eq!(p, "/out/docs/next.txt");
            assert_eq!(d, vec![9]);
        }
        _ => panic!("expected a write"),
    }
    let (run, a) = run.step(Event::Written);
    assert!(matches!(a, Action::Finish));
    assert_eq!(run.phase, Phase::Finished);
}

#[test]
fn two_identical_drives_produce_identical_actions() {
    // The machine is a pure function of its inputs: replaying the same
    // listings and payloads plans the same writes to the same paths.
    let drive = || {
        let mut writes: Vec<(String, Vec<u8>)> = Vec::new();
        let (run, _) = ExportRun::start("/out".to_string(), '/');
        let (run, _) = run.step(Event::BucketsListed(strings(&["b"])));
        let (run, _) = run.step(Event::ObjectsListed(strings(&["x", "d/y"])));
        let (run, _) = run.step(Event::DirsCreated);
        let (run, a) = run.step(Event::DataFetched(vec![1]));
        if let Action::Write(p, d) = a {
            writes.push((p, d));
        }
        let (run, _) = run.step(Event::Written);
        let (run, _) = run.step(Event::DirsCreated);
        let (run, a) = run.step(Event::DataFetched(vec![2]));
        if let Action::Write(p, d) = a {
            writes.push((p, d));
        }
        let (_, _) = run.step(Event::Written);
        writes
    };
    let first = drive();
    let second = drive();
    assert_eq!(first, second);
    assert_eq!(first[0], ("/out/b/x".to_string(), vec![1]));
    assert_eq!(first[1], ("/out/b/d/y".to_string(), vec![2]));
}
