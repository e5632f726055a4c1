use bosonnlp::rep::documents_from_texts;
use bosonnlp::task::{
    endpoint, resolve_task_id, split_chunks, status_from_reply, status_of, Action, Backoff,
    ClusterTask, CommentsTask, Namespace, Operation, Poll, Stage,
};
use bosonnlp::{ClusterContent, Error, TaskStatus, TextCluster};

fn docs(n: usize) -> Vec<ClusterContent> {
    (0..n)
        .map(|i| ClusterContent { _id: format!("d{}", i), text: format!("text {}", i) })
        .collect()
}

fn json_error() -> Error {
    Error::Json(serde_json::from_str::<serde_json::Value>("{").unwrap_err())
}

fn is_random_hex(s: &str) -> bool {
    s.len() == 32 && s.chars().all(|c| c.is_ascii_digit() || ('a'..='f').contains(&c))
}

#[test]
fn endpoint_paths() {
    assert_eq!(endpoint(Namespace::Cluster, Operation::Push, "t1"), "/cluster/push/t1");
    assert_eq!(endpoint(Namespace::Comments, Operation::Analysis, "t1"), "/comments/analysis/t1");
    assert_eq!(endpoint(Namespace::Cluster, Operation::Status, "abc"), "/cluster/status/abc");
    assert_eq!(endpoint(Namespace::Comments, Operation::Results, "abc"), "/comments/result/abc");
    assert_eq!(endpoint(Namespace::Cluster, Operation::Clear, "x"), "/cluster/clear/x");
}

#[test]
fn chunks_of_250_documents() {
    let batch = docs(250);
    let chunks = split_chunks(&batch);
    assert_eq!(chunks.len(), 3);
    assert_eq!(chunks[0].len(), 100);
    assert_eq!(chunks[1].len(), 100);
    assert_eq!(chunks[2].len(), 50);
    let joined: Vec<ClusterContent> = chunks.into_iter().flatten().collect();
    assert_eq!(joined, batch);
}

#[test]
fn chunks_at_exact_multiples() {
    assert_eq!(split_chunks(&docs(0)).len(), 0);
    assert_eq!(split_chunks(&docs(1)).len(), 1);
    assert_eq!(split_chunks(&docs(100)).len(), 1);
    assert_eq!(split_chunks(&docs(101)).len(), 2);
    assert_eq!(split_chunks(&docs(200)).len(), 2);
}

#[test]
fn push_sends_every_chunk_in_order() {
    let batch = docs(250);
    let mut task = ClusterTask::new("t".to_string());
    let mut action = task.start(&batch, "0.8".to_string(), "0.45".to_string(), Backoff::new(None));
    let mut sent: Vec<ClusterContent> = Vec::new();
    let mut uploads = 0;
    loop {
        match action {
            Action::Push { endpoint, documents } => {
                assert_eq!(endpoint, "/cluster/push/t");
                assert!(documents.len() <= 100);
                uploads += 1;
                sent.extend(documents);
                assert!(task.contents().is_empty());
                action = task.pushed(Ok(()));
            }
            Action::Analyze { .. } => break,
            other => panic!("unexpected {:?}", other),
        }
    }
    assert_eq!(uploads, 3);
    assert_eq!(sent, batch);
    assert_eq!(task.contents(), &batch);
    assert_eq!(task.stage(), Stage::Analyzing);
}

#[test]
fn push_stops_at_first_failure() {
    let batch = docs(250);
    let mut task = ClusterTask::new("t".to_string());
    let first = task.start(&batch, "0.8".to_string(), "0.45".to_string(), Backoff::new(None));
    assert!(matches!(first, Action::Push { .. }));
    let second = task.pushed(Ok(()));
    assert!(matches!(second, Action::Push { .. }));
    let failure = Error::Api { code: 500, reason: "boom".to_string() };
    match task.pushed(Err(failure)) {
        Action::Finish(Err(Error::Api { code, reason })) => {
            assert_eq!(code, 500);
            assert_eq!(reason, "boom");
        }
        other => panic!("unexpected {:?}", other),
    }
    assert_eq!(task.stage(), Stage::Finished);
    assert!(task.contents().is_empty());
}

#[test]
fn push_of_nothing_sends_nothing() {
    let mut task = ClusterTask::new("t".to_string());
    let action = task.start(&Vec::new(), "0.8".to_string(), "0.45".to_string(), Backoff::new(None));
    match action {
        Action::Finish(Ok(v)) => assert!(v.is_empty()),
        other => panic!("unexpected {:?}", other),
    }
    assert_eq!(task.stage(), Stage::Finished);
}

#[test]
fn comments_with_empty_input_returns_empty_result() {
    let texts: Vec<String> = Vec::new();
    let id = resolve_task_id(None);
    let mut task = CommentsTask::new(id);
    let documents = documents_from_texts(&texts);
    let action = task.start(&documents, "0.8".to_string(), "0.45".to_string(), Backoff::new(Some(10)));
    match action {
        Action::Finish(Ok(v)) => assert!(v.is_empty()),
        other => panic!("unexpected {:?}", other),
    }
    assert!(task.contents().is_empty());
}

#[test]
fn status_names_in_any_case() {
    assert!(matches!(status_of("t", "Received"), Some(Ok(TaskStatus::Received))));
    assert!(matches!(status_of("t", "RUNNING"), Some(Ok(TaskStatus::Running))));
    assert!(matches!(status_of("t", "done"), Some(Ok(TaskStatus::Done))));
    assert!(matches!(status_of("t", "ErRoR"), Some(Ok(TaskStatus::Error))));
    assert!(status_of("t", "finished").is_none());
}

#[test]
fn status_not_found_is_task_not_found() {
    match status_of("task-7", "not found") {
        Some(Err(Error::TaskNotFound(id))) => assert_eq!(id, "task-7"),
        other => panic!("unexpected {:?}", other),
    }
    assert!(status_of("task-7", "NOT FOUND").is_none());
}

#[test]
fn status_from_lowered_text() {
    assert!(matches!(status_from_reply("t", "DONE", "done"), Some(Ok(TaskStatus::Done))));
    assert!(status_from_reply("t", "DONE", "DONE").is_none());
    assert!(matches!(status_from_reply("t", "not found", "not found"), Some(Err(Error::TaskNotFound(_)))));
}

#[test]
fn wait_without_timeout_checks_until_done() {
    let mut backoff = Backoff::new(None);
    let statuses = [TaskStatus::Received, TaskStatus::Running, TaskStatus::Running, TaskStatus::Done];
    let mut sleeps = Vec::new();
    let mut checks = 0;
    let mut outcome = Poll::Continue;
    for s in statuses.iter() {
        sleeps.push(backoff.delay());
        checks += 1;
        outcome = backoff.observe(*s);
        if outcome != Poll::Continue {
            break;
        }
    }
    assert_eq!(outcome, Poll::Finished);
    assert_eq!(checks, 4);
    assert_eq!(sleeps, vec![0, 0, 0, 0]);
    assert_eq!(backoff.elapsed(), 0);
}

#[test]
fn backoff_doubles_every_third_check_up_to_64() {
    let mut backoff = Backoff::with_interval(None, 1);
    let mut pauses = Vec::new();
    for _ in 0..24 {
        assert_eq!(backoff.observe(TaskStatus::Running), Poll::Continue);
        pauses.push(backoff.delay());
    }
    let every_third: Vec<u64> = pauses.iter().skip(2).step_by(3).cloned().collect();
    assert_eq!(every_third, vec![2, 4, 8, 16, 32, 64, 64, 64]);
    assert_eq!(&pauses[0..2], &[1, 1]);
    assert_eq!(&pauses[3..5], &[2, 2]);
}

#[test]
fn backoff_skips_a_double_past_64() {
    let mut backoff = Backoff::with_interval(None, 48);
    for _ in 0..3 {
        backoff.observe(TaskStatus::Running);
    }
    assert_eq!(backoff.delay(), 48);
}

#[test]
fn wait_times_out_at_a_check() {
    let mut backoff = Backoff::with_interval(Some(10), 4);
    assert_eq!(backoff.observe(TaskStatus::Running), Poll::Continue);
    assert_eq!(backoff.elapsed(), 4);
    assert_eq!(backoff.observe(TaskStatus::Running), Poll::Continue);
    assert_eq!(backoff.elapsed(), 8);
    assert_eq!(backoff.observe(TaskStatus::Error), Poll::TimedOut);
    assert_eq!(backoff.elapsed(), 12);
}

#[test]
fn zero_timeout_times_out_after_first_check() {
    let mut backoff = Backoff::new(Some(0));
    assert_eq!(backoff.observe(TaskStatus::Running), Poll::TimedOut);
    let mut backoff = Backoff::new(Some(0));
    assert_eq!(backoff.observe(TaskStatus::Done), Poll::Finished);
}

#[test]
fn cluster_of_seven_documents_end_to_end() {
    let texts: Vec<String> = ["今天天气好", "今天天气好", "今天天气不错", "点点楼头细雨", "重重江外平湖", "当年戏马会东徐", "今日凄凉南浦"]
        .iter()
        .map(|s| s.to_string())
        .collect();
    let id = resolve_task_id(None);
    assert!(is_random_hex(&id));
    let mut task = ClusterTask::new(id.clone());
    let documents = documents_from_texts(&texts);
    assert_eq!(documents.len(), 7);
    for (d, t) in documents.iter().zip(texts.iter()) {
        assert_eq!(&d.text, t);
        assert!(is_random_hex(&d._id));
    }
    let mut action =
        task.start(&documents, "0.8".to_string(), "0.45".to_string(), Backoff::with_interval(Some(10), 1));
    let mut uploads = 0;
    let mut analyses = 0;
    let mut checks = 0;
    let mut clears = 0;
    let result = loop {
        action = match action {
            Action::Push { endpoint, documents: chunk } => {
                assert_eq!(endpoint, format!("/cluster/push/{}", id));
                assert_eq!(chunk, documents);
                uploads += 1;
                task.pushed(Ok(()))
            }
            Action::Analyze { endpoint, params } => {
                assert_eq!(endpoint, format!("/cluster/analysis/{}", id));
                assert_eq!(
                    params,
                    vec![("alpha".to_string(), "0.8".to_string()), ("beta".to_string(), "0.45".to_string())]
                );
                analyses += 1;
                task.analysis_started(Ok(()))
            }
            Action::Poll { endpoint, .. } => {
                assert_eq!(endpoint, format!("/cluster/status/{}", id));
                checks += 1;
                let status = if checks < 3 { TaskStatus::Running } else { TaskStatus::Done };
                task.status_checked(Ok(status))
            }
            Action::Fetch { endpoint } => {
                assert_eq!(endpoint, format!("/cluster/result/{}", id));
                let cluster = TextCluster { _id: documents[0]._id.clone(), list: vec![documents[0]._id.clone()], num: 1 };
                task.fetched(Ok(vec![cluster]))
            }
            Action::Clear { endpoint } => {
                assert_eq!(endpoint, format!("/cluster/clear/{}", id));
                clears += 1;
                task.cleared(Ok(()))
            }
            Action::Finish(outcome) => break outcome,
        };
    };
    let clusters = result.unwrap();
    assert_eq!(clusters.len(), 1);
    assert_eq!(clusters[0].num, 1);
    assert_eq!((uploads, analyses, checks, clears), (1, 1, 3, 1));
    assert_eq!(task.contents(), &documents);
}

#[test]
fn cluster_times_out_after_ten_seconds() {
    let mut task = ClusterTask::new("slow".to_string());
    let mut action = task.start(&docs(7), "0.8".to_string(), "0.45".to_string(), Backoff::with_interval(Some(10), 1));
    let mut checks = 0;
    let outcome = loop {
        action = match action {
            Action::Push { .. } => task.pushed(Ok(())),
            Action::Analyze { .. } => task.analysis_started(Ok(())),
            Action::Poll { .. } => {
                checks += 1;
                task.status_checked(Ok(TaskStatus::Running))
            }
            Action::Finish(outcome) => break outcome,
            other => panic!("unexpected {:?}", other),
        };
    };
    match outcome {
        Err(Error::Timeout(id)) => assert_eq!(id, "slow"),
        other => panic!("unexpected {:?}", other),
    }
    assert_eq!(task.backoff().elapsed(), 13);
    assert_eq!(checks, 7);
}

#[test]
fn task_not_found_during_wait_ends_the_task() {
    let mut task = ClusterTask::new("gone".to_string());
    task.start(&docs(3), "0.8".to_string(), "0.45".to_string(), Backoff::new(None));
    task.pushed(Ok(()));
    task.analysis_started(Ok(()));
    let reply = status_of("gone", "not found").unwrap();
    match task.status_checked(reply) {
        Action::Finish(Err(Error::TaskNotFound(id))) => assert_eq!(id, "gone"),
        other => panic!("unexpected {:?}", other),
    }
}

#[test]
fn fetch_failure_skips_clear() {
    let mut task = CommentsTask::new("c".to_string());
    task.start(&docs(3), "0.8".to_string(), "0.45".to_string(), Backoff::new(None));
    task.pushed(Ok(()));
    task.analysis_started(Ok(()));
    assert!(matches!(task.status_checked(Ok(TaskStatus::Done)), Action::Fetch { .. }));
    assert!(matches!(task.fetched(Err(json_error())), Action::Finish(Err(Error::Json(_)))));
    assert_eq!(task.stage(), Stage::Finished);
}

#[test]
fn clear_tolerates_an_unreadable_body() {
    let mut task = CommentsTask::new("c".to_string());
    task.start(&docs(3), "0.8".to_string(), "0.45".to_string(), Backoff::new(None));
    task.pushed(Ok(()));
    task.analysis_started(Ok(()));
    task.status_checked(Ok(TaskStatus::Done));
    assert!(matches!(task.fetched(Ok(Vec::new())), Action::Clear { .. }));
    assert!(matches!(task.cleared(Err(json_error())), Action::Finish(Ok(_))));
}

#[test]
fn clear_reports_other_failures() {
    let mut task = CommentsTask::new("c".to_string());
    task.start(&docs(3), "0.8".to_string(), "0.45".to_string(), Backoff::new(None));
    task.pushed(Ok(()));
    task.analysis_started(Ok(()));
    task.status_checked(Ok(TaskStatus::Done));
    task.fetched(Ok(Vec::new()));
    let failure = Error::Io(std::io::Error::new(std::io::ErrorKind::Other, "reset"));
    assert!(matches!(task.cleared(Err(failure)), Action::Finish(Err(Error::Io(_)))));
}

#[test]
fn error_status_keeps_polling() {
    let mut task = ClusterTask::new("e".to_string());
    task.start(&docs(1), "0.8".to_string(), "0.45".to_string(), Backoff::new(None));
    task.pushed(Ok(()));
    task.analysis_started(Ok(()));
    assert!(matches!(task.status_checked(Ok(TaskStatus::Error)), Action::Poll { delay: 0, .. }));
    assert_eq!(task.stage(), Stage::Polling);
}

#[test]
fn given_task_id_is_kept() {
    assert_eq!(resolve_task_id(Some("mine")), "mine");
    let a = resolve_task_id(None);
    let b = resolve_task_id(None);
    assert!(is_random_hex(&a) && is_random_hex(&b));
    assert_ne!(a, b);
}

#[test]
fn document_from_text_gets_random_id() {
    let d = ClusterContent::from("hello".to_string());
    assert_eq!(d.text, "hello");
    assert!(is_random_hex(&d._id));
}
