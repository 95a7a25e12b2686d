use mx::eligibility::{is_video, is_video_mime, select_eligible};
use mx::executor::{Executor, DEFAULT_WORKERS};
use mx::protocol::{
    bearer_header, finalize_endpoint, initiate_endpoint, interpret_finalize, interpret_initiate,
    interpret_transfer, FinalizeUploadRequest, FinalizeUploadResponse, NewUploadError,
    NewUploadRequest, NewUploadResponse, ProtocolError, UploadTarget,
};
use mx::task::{Call, Phase, Reply, TaskOutcome, TaskState, UploadTask};

/// A stand-in for the remote service: it answers each call by status code and
/// body, counts the calls, and remembers which session each call named.
struct FakeService {
    initiate_status: u16,
    reject_name: Option<(String, String)>,
    transfer_status: u16,
    initiates: usize,
    transfers: usize,
    finalizes: usize,
    sessions_issued: usize,
    transfer_urls: Vec<String>,
    finalized_ids: Vec<String>,
}

impl FakeService {
    fn new() -> FakeService {
        FakeService {
            initiate_status: 200,
            reject_name: None,
            transfer_status: 200,
            initiates: 0,
            transfers: 0,
            finalizes: 0,
            sessions_issued: 0,
            transfer_urls: Vec::new(),
            finalized_ids: Vec::new(),
        }
    }

    fn calls(&self) -> usize {
        self.initiates + self.transfers + self.finalizes
    }

    fn answer(&mut self, call: Call) -> Reply {
        match call {
            Call::Initiate(req) => {
                self.initiates += 1;
                if let Some((name, reason)) = &self.reject_name {
                    if &req.file_name == name {
                        let body = NewUploadError { status: "error".to_string(), reason: reason.clone() };
                        return Reply::Initiate(interpret_initiate(400, Some(body), None));
                    }
                }
                if self.initiate_status != 200 {
                    return Reply::Initiate(interpret_initiate(self.initiate_status, None, None));
                }
                self.sessions_issued += 1;
                let n = self.sessions_issued;
                let session = NewUploadResponse {
                    id: format!("s{}", n),
                    url: format!("https://store.example/put/s{}", n),
                };
                Reply::Initiate(interpret_initiate(200, None, Some(session)))
            }
            Call::Transfer { url, .. } => {
                self.transfers += 1;
                self.transfer_urls.push(url);
                Reply::Transfer(interpret_transfer(self.transfer_status))
            }
            Call::Finalize(req) => {
                self.finalizes += 1;
                self.finalized_ids.push(req.id.clone());
                let body = FinalizeUploadResponse {
                    id: req.id.clone(),
                    url: format!("https://archive.example/v/{}", req.id),
                };
                Reply::Finalize(interpret_finalize(200, Some(body)))
            }
        }
    }
}

fn targets(n: usize) -> Vec<UploadTarget> {
    (0..n)
        .map(|i| UploadTarget::new(format!("/media/clip{}.mp4", i), format!("clip{}.mp4", i), 1000 + i as u64))
        .collect()
}

/// Runs the pool against the service, one call per task in flight per round,
/// and returns the outcomes with the largest number of tasks seen in flight.
fn run_pool(mut pool: Executor, service: &mut FakeService) -> (Vec<TaskOutcome>, usize) {
    let mut active: Vec<(usize, UploadTask)> = Vec::new();
    let mut most_in_flight = 0;
    while !pool.is_finished() {
        while let Some(started) = pool.start_next() {
            active.push(started);
        }
        most_in_flight = most_in_flight.max(active.len());
        let mut still_active = Vec::new();
        for (index, mut task) in active.into_iter() {
            match task.next_call() {
                Some(call) => {
                    let reply = service.answer(call);
                    task.advance(reply);
                    still_active.push((index, task));
                }
                None => {
                    let outcome = task.outcome().unwrap();
                    assert!(pool.complete(index, outcome));
                }
            }
        }
        active = still_active;
    }
    (pool.outcomes(), most_in_flight)
}

#[test]
fn every_target_gets_exactly_one_outcome() {
    let mut service = FakeService::new();
    let pool = Executor::new(targets(7), "dance".to_string());
    let (outcomes, _) = run_pool(pool, &mut service);
    assert_eq!(outcomes.len(), 7);
    for (i, o) in outcomes.iter().enumerate() {
        assert_eq!(o.path(), &format!("/media/clip{}.mp4", i));
        assert!(o.is_success());
    }
    assert_eq!(service.initiates, 7);
    assert_eq!(service.transfers, 7);
    assert_eq!(service.finalizes, 7);
}

#[test]
fn in_flight_tasks_stay_within_budget() {
    let mut service = FakeService::new();
    let pool = Executor::new(targets(11), "t".to_string());
    let (outcomes, most) = run_pool(pool, &mut service);
    assert_eq!(outcomes.len(), 11);
    assert_eq!(most, DEFAULT_WORKERS);
    assert_eq!(DEFAULT_WORKERS, 4);

    let mut service = FakeService::new();
    let pool = Executor::with_budget(targets(5), "t".to_string(), 2);
    let (outcomes, most) = run_pool(pool, &mut service);
    assert_eq!(outcomes.len(), 5);
    assert_eq!(most, 2);
}

#[test]
fn failed_initiate_issues_no_further_call() {
    let target = UploadTarget::new("/m/a.mp4".to_string(), "a.mp4".to_string(), 10);
    let mut task = UploadTask::new(target, "x".to_string());
    assert!(matches!(task.next_call(), Some(Call::Initiate(_))));
    task.advance(Reply::Initiate(interpret_initiate(403, None, None)));
    assert!(task.next_call().is_none());
    task.advance(Reply::Transfer(Ok(())));
    assert!(task.next_call().is_none());
    match task.outcome() {
        Some(TaskOutcome::Failure { path, error: ProtocolError::Auth }) => assert_eq!(path, "/m/a.mp4"),
        _ => panic!("expected an authentication failure"),
    }
}

#[test]
fn failed_transfer_issues_no_finalize() {
    let mut service = FakeService::new();
    service.transfer_status = 502;
    let pool = Executor::new(targets(3), "x".to_string());
    let (outcomes, _) = run_pool(pool, &mut service);
    assert_eq!(outcomes.len(), 3);
    assert_eq!(service.transfers, 3);
    assert_eq!(service.finalizes, 0);
    for o in outcomes.iter() {
        match o {
            TaskOutcome::Failure { error: ProtocolError::Transport { .. }, .. } => {}
            _ => panic!("expected a transport failure"),
        }
    }
}

#[test]
fn empty_target_set_does_nothing() {
    let mut service = FakeService::new();
    let mut pool = Executor::new(Vec::new(), "x".to_string());
    assert!(pool.nothing_to_do());
    assert!(pool.is_finished());
    assert!(pool.start_next().is_none());
    assert_eq!(pool.exit_code(), 1);
    let (outcomes, most) = run_pool(pool, &mut service);
    assert!(outcomes.is_empty());
    assert_eq!(most, 0);
    assert_eq!(service.calls(), 0);
}

#[test]
fn one_rejected_file_among_ten() {
    let mut service = FakeService::new();
    service.reject_name = Some(("clip3.mp4".to_string(), "duplicate file".to_string()));
    let pool = Executor::new(targets(10), "tags".to_string());
    let code = pool.exit_code();
    let (outcomes, _) = run_pool(pool, &mut service);
    assert_eq!(outcomes.len(), 10);
    let mut urls: Vec<String> = Vec::new();
    let mut failures = 0;
    for o in outcomes.iter() {
        match o {
            TaskOutcome::Success { final_url, .. } => urls.push(final_url.clone()),
            TaskOutcome::Failure { path, error } => {
                failures += 1;
                assert_eq!(path, "/media/clip3.mp4");
                assert_eq!(error.reason(), "duplicate file");
            }
        }
    }
    assert_eq!(failures, 1);
    assert_eq!(urls.len(), 9);
    urls.sort();
    urls.dedup();
    assert_eq!(urls.len(), 9);
    assert_eq!(code, 0);
}

#[test]
fn invalid_credential_fails_every_file() {
    let mut service = FakeService::new();
    service.initiate_status = 403;
    let pool = Executor::new(targets(6), "tags".to_string());
    let (outcomes, _) = run_pool(pool, &mut service);
    assert_eq!(outcomes.len(), 6);
    for o in outcomes.iter() {
        match o {
            TaskOutcome::Failure { error: ProtocolError::Auth, .. } => {}
            _ => panic!("expected an authentication failure"),
        }
    }
    assert_eq!(service.initiates, 6);
    assert_eq!(service.transfers, 0);
    assert_eq!(service.finalizes, 0);
}

#[test]
fn each_task_uses_its_own_session() {
    let mut service = FakeService::new();
    let pool = Executor::new(targets(8), "x".to_string());
    let (outcomes, _) = run_pool(pool, &mut service);
    assert_eq!(outcomes.len(), 8);
    let mut urls = service.transfer_urls.clone();
    urls.sort();
    urls.dedup();
    assert_eq!(urls.len(), 8);
    let mut ids = service.finalized_ids.clone();
    ids.sort();
    ids.dedup();
    assert_eq!(ids.len(), 8);
}

#[test]
fn task_walks_the_three_phases() {
    let target = UploadTarget::new("/v/b.mkv".to_string(), "b.mkv".to_string(), 42);
    let mut task = UploadTask::new(target, "fun, dance".to_string());
    match task.next_call() {
        Some(Call::Initiate(NewUploadRequest { file_name, content_length })) => {
            assert_eq!(file_name, "b.mkv");
            assert_eq!(content_length, 42);
        }
        _ => panic!("expected the opening call"),
    }
    let session = NewUploadResponse { id: "abc".to_string(), url: "https://put.example/abc".to_string() };
    task.advance(Reply::Initiate(Ok(session)));
    assert!(matches!(task.state, TaskState::Initiated { .. }));
    match task.next_call() {
        Some(Call::Transfer { path, url }) => {
            assert_eq!(path, "/v/b.mkv");
            assert_eq!(url, "https://put.example/abc");
        }
        _ => panic!("expected the transfer"),
    }
    task.advance(Reply::Transfer(Ok(())));
    match task.next_call() {
        Some(Call::Finalize(FinalizeUploadRequest { id, tags, source, description, original_upload_date })) => {
            assert_eq!(id, "abc");
            assert_eq!(tags, "fun, dance");
            assert_eq!(source, "");
            assert_eq!(description, "");
            assert!(original_upload_date.is_none());
        }
        _ => panic!("expected the completion"),
    }
    assert!(task.outcome().is_none());
    task.advance(Reply::Finalize(Ok(FinalizeUploadResponse {
        id: "abc".to_string(),
        url: "https://archive.example/v/abc".to_string(),
    })));
    assert!(task.next_call().is_none());
    let outcome = task.outcome().unwrap();
    assert_eq!(outcome.report_line(), "[/v/b.mkv] Uploaded: https://archive.example/v/abc");
}

#[test]
fn mismatched_reply_is_ignored() {
    let target = UploadTarget::new("/v/c.mp4".to_string(), "c.mp4".to_string(), 1);
    let mut task = UploadTask::new(target, "x".to_string());
    task.advance(Reply::Finalize(Err(ProtocolError::Auth)));
    assert!(matches!(task.state, TaskState::Pending));
}

#[test]
fn completion_is_taken_once_and_for_the_right_target() {
    let mut pool = Executor::new(targets(2), "x".to_string());
    let (i, _) = pool.start_next().unwrap();
    assert_eq!(i, 0);
    let wrong = TaskOutcome::Failure { path: "/elsewhere.mp4".to_string(), error: ProtocolError::Auth };
    assert!(!pool.complete(0, wrong));
    assert!(!pool.complete(1, TaskOutcome::Failure { path: "/media/clip1.mp4".to_string(), error: ProtocolError::Auth }));
    let ok = TaskOutcome::Success { path: "/media/clip0.mp4".to_string(), final_url: "u".to_string() };
    assert!(pool.complete(0, ok));
    let again = TaskOutcome::Success { path: "/media/clip0.mp4".to_string(), final_url: "u".to_string() };
    assert!(!pool.complete(0, again));
    assert!(!pool.complete(5, TaskOutcome::Success { path: "x".to_string(), final_url: "u".to_string() }));
    assert!(!pool.is_finished());
}

#[test]
fn initiate_replies_are_read_by_status() {
    assert!(matches!(interpret_initiate(403, None, None), Err(ProtocolError::Auth)));
    let body = NewUploadError { status: "error".to_string(), reason: "too large".to_string() };
    match interpret_initiate(400, Some(body), None) {
        Err(ProtocolError::Validation { reason }) => assert_eq!(reason, "too large"),
        _ => panic!("expected a validation failure"),
    }
    match interpret_initiate(400, None, None) {
        Err(e @ ProtocolError::Transport { .. }) => assert_eq!(e.reason(), "malformed response body"),
        _ => panic!("expected a transport failure"),
    }
    assert!(matches!(interpret_initiate(200, None, None), Err(ProtocolError::Transport { .. })));
    let session = NewUploadResponse { id: "i".to_string(), url: "u".to_string() };
    match interpret_initiate(201, None, Some(session)) {
        Ok(s) => {
            assert_eq!(s.id, "i");
            assert_eq!(s.url, "u");
        }
        _ => panic!("expected a session"),
    }
}

#[test]
fn transfer_and_finalize_replies() {
    assert!(interpret_transfer(200).is_ok());
    assert!(interpret_transfer(204).is_ok());
    match interpret_transfer(500) {
        Err(e @ ProtocolError::Transport { .. }) => assert_eq!(e.reason(), "transfer rejected by the destination"),
        _ => panic!("expected a transport failure"),
    }
    assert!(interpret_transfer(403).is_err());
    let body = FinalizeUploadResponse { id: "i".to_string(), url: "https://a/v/i".to_string() };
    assert!(matches!(interpret_finalize(403, Some(body)), Err(ProtocolError::Auth)));
    assert!(matches!(interpret_finalize(200, None), Err(ProtocolError::Transport { .. })));
    let body = FinalizeUploadResponse { id: "i".to_string(), url: "https://a/v/i".to_string() };
    match interpret_finalize(200, Some(body)) {
        Ok(b) => assert_eq!(b.url, "https://a/v/i"),
        _ => panic!("expected a completion"),
    }
}

#[test]
fn request_addresses_and_credential() {
    assert_eq!(initiate_endpoint("https://spin-archive.org"), "https://spin-archive.org/api/v1/uploads");
    assert_eq!(finalize_endpoint("http://h"), "http://h/api/v1/uploads/finalize");
    assert_eq!(bearer_header("SECRET-REDACTED"), "Bearer SECRET-REDACTED");
}

#[test]
fn failure_reasons_and_report_lines() {
    assert_eq!(ProtocolError::Auth.reason(), "Invalid API key");
    let v = ProtocolError::Validation { reason: "duplicate file".to_string() };
    assert_eq!(v.reason(), "duplicate file");
    let o = TaskOutcome::Failure { path: "/a.mp4".to_string(), error: ProtocolError::Auth };
    assert_eq!(o.report_line(), "[/a.mp4] Error: Invalid API key");
    assert!(!o.is_success());
    let t = ProtocolError::transport("connection reset".to_string());
    assert_eq!(t.reason(), "connection reset");
}

#[test]
fn video_files_are_eligible() {
    assert!(is_video("/x/clip.mp4"));
    assert!(is_video("movie.MKV"));
    assert!(is_video("a/b/c.webm"));
    assert!(!is_video("notes.txt"));
    assert!(!is_video("picture.png"));
    assert!(!is_video("no_extension"));
    assert!(is_video_mime("video/mp4"));
    assert!(!is_video_mime("video"));
    assert!(!is_video_mime("audio/mpeg"));
    assert!(!is_video_mime(""));
}

#[test]
fn eligible_paths_keep_their_order() {
    let paths = vec![
        "a.mp4".to_string(),
        "b.txt".to_string(),
        "c.mov".to_string(),
        "d".to_string(),
        "e.avi".to_string(),
    ];
    assert_eq!(select_eligible(&paths), vec!["a.mp4".to_string(), "c.mov".to_string(), "e.avi".to_string()]);
    assert!(select_eligible(&Vec::new()).is_empty());
}
