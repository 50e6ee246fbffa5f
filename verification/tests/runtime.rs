use ruskit::cache::config::{select_store, CacheBackend, CacheConfig, CacheDriver};
use ruskit::cache::facade::{add_writes, flexible_step, pull_forgets, remember_answer, remember_step, FlexibleStep, RememberStep};
use ruskit::cache::entries::{decrement_step, expiration_for, increment_result, is_expired, next_counter};
use ruskit::cache::redis::RedisStore;
use ruskit::http::client::{
    after_enqueue, after_failure, bearer, endpoint_index, on_arrival, request_url, Admission, RetryDecision,
};
use ruskit::http::mock::{json_response, MockHttp, MockResponse};
use ruskit::inertia::{app_vite_settings, InertiaConfig};
use ruskit::middleware::internal::{layering_order, Middleware, MiddlewareStack};
use ruskit::middleware::presets::{Cors, TrimStrings};
use ruskit::queue::config::{QueueConfig, QueueConfigError, QueueDriverType};
use ruskit::queue::job::JobWrapper;
use ruskit::queue::sqs::SqsDriver;
use ruskit::queue::store::{clear_queue, delete_job, next_job, pushed_job, queue_size, release, reserve, JobRecord};
use ruskit::queue::worker::{DeleteReason, Worker, WorkerAction, WorkerEvent};
use ruskit::queue::Queue;
use ruskit::schedule::{cron_expression, Moment, Task, TaskBuilder, TimeOfDay};
use ruskit::storage::config::{default_local_config, StorageConfig};
use ruskit::storage::local::LocalDriver;
use ruskit::text::{i64_to_decimal, join_path, join_strings, u64_to_decimal};
use ruskit::validation::rules::{email, max, min, required};
use ruskit::validation::{LoginRequest, Rules as RequestRules, ValidationErrors};
use std::time::Duration;

#[test]
fn text_helpers() {
    assert_eq!(join_strings(&vec!["a".to_string(), "b".to_string(), "c".to_string()], ", "), "a, b, c");
    assert_eq!(join_strings(&vec![], ", "), "");
    assert_eq!(u64_to_decimal(0), "0");
    assert_eq!(u64_to_decimal(18446744073709551615), "18446744073709551615");
    assert_eq!(i64_to_decimal(-9223372036854775808), "-9223372036854775808");
    assert_eq!(join_path("root", "a/b"), "root/a/b");
    assert_eq!(join_path("root/", "a"), "root/a");
    assert_eq!(join_path("", "a"), "a");
    assert_eq!(join_path("root", "/abs"), "/abs");
}

#[test]
fn validation_errors_group_by_field() {
    let mut e = ValidationErrors::new();
    assert!(!e.has_errors());
    e.add("email", "required");
    e.add("password", "min");
    e.add("email", "email");
    assert!(e.has_errors());
    assert_eq!(
        e.errors(),
        &vec![
            ("email".to_string(), vec!["required".to_string(), "email".to_string()]),
            ("password".to_string(), vec!["min".to_string()]),
        ]
    );
}

#[test]
fn single_value_rules() {
    assert_eq!(required("   ").unwrap_err().code(), "required");
    assert!(required(" x ").is_ok());
    assert!(email("a.b@example.org").is_ok());
    assert_eq!(email("nobody").unwrap_err().code(), "email");
    assert_eq!(min("abc", 4).unwrap_err().code(), "min");
    assert!(min("abcd", 4).is_ok());
    assert_eq!(max("abcde", 4).unwrap_err().code(), "max");
    assert!(max("é", 2).is_ok());
    assert_eq!(max("éé", 3).unwrap_err().code(), "max");
    let rules = <LoginRequest as RequestRules>::rules();
    assert_eq!(rules[0].0, "email");
    assert_eq!(rules[1].1, vec!["required", "min:6"]);
}

#[test]
fn cache_defaults_and_store_choice() {
    let c = CacheConfig::default();
    assert_eq!(c.driver, CacheDriver::Database);
    assert!(c.redis_url.is_none());
    assert_eq!(c.default_ttl, Some(Duration::from_secs(3600)));
    assert!(matches!(select_store(CacheConfig::default()), Ok(CacheBackend::Database)));
    let no_url = CacheConfig { driver: CacheDriver::Redis, redis_url: None, default_ttl: None };
    match select_store(no_url) {
        Err(m) => assert_eq!(m, "Redis URL not configured"),
        Ok(_) => panic!("expected an error"),
    }
    let ok = CacheConfig { driver: CacheDriver::Redis, redis_url: Some("redis://127.0.0.1/".to_string()), default_ttl: None };
    assert!(matches!(select_store(ok), Ok(CacheBackend::Redis(_))));
    let bad = CacheConfig { driver: CacheDriver::Redis, redis_url: Some("http://example.com".to_string()), default_ttl: None };
    assert!(select_store(bad).is_err());
    assert!(RedisStore::new("redis://localhost:6379").is_ok());
    assert!(RedisStore::new("not a url").is_err());
}

#[test]
fn cache_entry_expiry() {
    assert_eq!(expiration_for(1000, 0, Some((60, 0))), Some(1060));
    assert_eq!(expiration_for(1000, 600_000_000, Some((60, 500_000_000))), Some(1061));
    assert_eq!(expiration_for(1000, 5, None), None);
    assert!(!is_expired(1060, Some(1060)));
    assert!(is_expired(1061, Some(1060)));
    assert!(!is_expired(i64::MAX, None));
    assert_eq!(next_counter(Some(5), 3), Some(8));
    assert_eq!(next_counter(None, 3), None);
    assert_eq!(next_counter(Some(5), decrement_step(7)), Some(-2));
    assert_eq!(increment_result(Some(8), true), 8);
    assert_eq!(increment_result(Some(8), false), 0);
    assert_eq!(increment_result(None, true), 0);
}

#[test]
fn http_decisions() {
    assert_eq!(endpoint_index(0, 3), 0);
    assert_eq!(endpoint_index(4, 3), 1);
    let served: Vec<usize> = (7..10).map(|c| endpoint_index(c, 3)).collect();
    assert_eq!(served, vec![1, 2, 0]);
    assert_eq!(after_failure(None, 0), RetryDecision::GiveUp);
    assert_eq!(after_failure(Some(3), 2), RetryDecision::RetryAfterDelay);
    assert_eq!(after_failure(Some(3), 3), RetryDecision::GiveUp);
    assert_eq!(on_arrival(1, 2), Admission::RunNow);
    assert_eq!(on_arrival(2, 2), Admission::Wait);
    assert_eq!(after_enqueue(1000), Admission::Wait);
    assert_eq!(after_enqueue(1001), Admission::QueueFull);
    assert_eq!(request_url("https://api.example.com", "/users"), "https://api.example.com/users");
    assert_eq!(bearer("t0k"), "Bearer t0k");
}

#[test]
fn mock_http_answers_with_the_first_response() {
    let mut mock = MockHttp::new();
    assert!(mock.response_for("/users").is_none());
    mock.mock_json("/users", 200, "[1]".to_string());
    mock.mock_response("/users", MockResponse { status: 500, body: "oops".to_string(), headers: vec![] });
    mock.mock_response("/posts", MockResponse { status: 201, body: "{}".to_string(), headers: vec![] });
    let r = mock.response_for("/users").unwrap();
    assert_eq!(r.status, 200);
    assert_eq!(r.body, "[1]");
    assert_eq!(r.headers, vec![("content-type".to_string(), "application/json".to_string())]);
    assert_eq!(mock.response_for("/posts").unwrap().status, 201);
    let j = json_response(404, "{}".to_string());
    assert_eq!(j.status, 404);
}

#[test]
fn middleware_stack_and_cors() {
    let cors = Cors::new("https://example.com").with_methods("GET").with_headers("X-Token");
    assert_eq!(cors.allow_origin(), "https://example.com");
    assert_eq!(
        cors.response_headers(),
        vec![
            ("access-control-allow-origin", "https://example.com".to_string()),
            ("access-control-allow-methods", "GET".to_string()),
            ("access-control-allow-headers", "X-Token".to_string()),
        ]
    );
    let default_cors = Cors::new("*");
    assert_eq!(default_cors.allow_methods(), "GET, POST, PUT, DELETE, OPTIONS");
    assert_eq!(default_cors.allow_headers(), "Content-Type, Authorization");

    let mut stack = MiddlewareStack::new();
    stack.add(Middleware::from(TrimStrings::new()));
    stack.group("api", vec![Middleware::from(Cors::new("a"))]);
    stack.group("api", vec![]);
    assert_eq!(stack.global().len(), 1);
    match stack.group_middlewares("api") {
        Some(v) => {
            assert_eq!(v.len(), 1);
            assert!(matches!(&v[0], Middleware::Cors(c) if c.allow_origin() == "a"));
        },
        None => panic!("the group exists"),
    }
    assert!(stack.group_middlewares("web").is_none());
    let order = layering_order(&vec![Middleware::from(Cors::new("first")), Middleware::from(TrimStrings::new())]);
    assert!(matches!(order[0], Middleware::TrimStrings(_)));
    assert!(matches!(&order[1], Middleware::Cors(c) if c.allow_origin() == "first"));
}

#[test]
fn inertia_settings() {
    let c = InertiaConfig::new();
    assert_eq!(c.version(), None);
    assert_eq!(c.root_view(), "app");
    let c = c.with_version("v1".to_string()).with_root_view("main".to_string());
    assert_eq!(c.version(), Some("v1"));
    assert_eq!(c.root_view(), "main");
    let v = c.to_vite_settings();
    assert_eq!(v.port, 3000);
    assert_eq!(v.main, "resources/js/app.jsx");
    assert!(!v.react);
    let a = app_vite_settings();
    assert_eq!(a.main, "resources/js/app.tsx");
    assert!(a.react);
    assert_eq!(a.title, "Ruskit");
}

#[test]
fn queue_configuration() {
    let c = QueueConfig::default();
    assert_eq!(c.driver, QueueDriverType::Database);
    assert_eq!(c.default_queue, "default");
    assert_eq!(c.sqs_settings().unwrap_err(), QueueConfigError::MissingSqsRegion);
    assert_eq!(QueueConfigError::MissingSqsQueueUrl.message(), "SQS queue URL not configured");
    let sqs = QueueConfig {
        driver: QueueDriverType::Sqs,
        sqs_region: Some("eu-west-1".to_string()),
        sqs_queue_url: None,
        default_queue: "default".to_string(),
    };
    assert_eq!(sqs.sqs_settings().unwrap_err(), QueueConfigError::MissingSqsQueueUrl);
    assert!(SqsDriver::new("eu-west-1", "https://sqs/q").is_ok());
    let plan = Queue::dispatch_plan(None, Some(5));
    assert_eq!(plan.queue, "default");
    assert_eq!(plan.delay_secs, Some(5));
    let w = JobWrapper::new("SendMail".to_string(), "{}".to_string());
    assert_eq!(w.job_type, "SendMail");
}

#[test]
fn worker_decisions() {
    let w = Queue::worker("emails").max_tries(2);
    assert_eq!(w.queue(), "emails");
    assert_eq!(w.idle_duration(), Duration::from_secs(1));
    assert_eq!(w.next_action(WorkerEvent::QueueEmpty), WorkerAction::Sleep);
    assert_eq!(w.next_action(WorkerEvent::Popped { attempts: 2 }), WorkerAction::Decode);
    assert_eq!(
        w.next_action(WorkerEvent::Popped { attempts: 3 }),
        WorkerAction::Delete(DeleteReason::TooManyAttempts)
    );
    assert_eq!(w.next_action(WorkerEvent::Decoded { valid: false }), WorkerAction::Delete(DeleteReason::Malformed));
    assert_eq!(w.next_action(WorkerEvent::Decoded { valid: true }), WorkerAction::Process);
    assert_eq!(w.next_action(WorkerEvent::Handled { succeeded: true }), WorkerAction::Delete(DeleteReason::Completed));
    assert_eq!(w.next_action(WorkerEvent::Handled { succeeded: false }), WorkerAction::Release { delay_secs: 30 });
    let w = Worker::new("x").sleep_duration(Duration::from_millis(250));
    assert_eq!(w.idle_duration(), Duration::from_millis(250));
    assert!(w.is_running());
    w.stop();
    assert!(!w.is_running());
}

fn job(id: u128, queue: &str, available_at: i64) -> JobRecord {
    pushed_job(id, queue, "{}".to_string(), available_at, None)
}

#[test]
fn queue_store_hands_out_the_oldest_available_job() {
    let jobs = vec![job(7, "mail", 0), job(3, "mail", 100), job(5, "mail", 10), job(1, "other", 0)];
    assert_eq!(next_job(&jobs, "mail", 50), Some(2));
    assert_eq!(next_job(&jobs, "mail", 100), Some(1));
    assert_eq!(next_job(&jobs, "mail", -1), None);
    assert_eq!(next_job(&jobs, "none", 1000), None);
    assert_eq!(queue_size(&jobs, "mail"), 3);
    let left = clear_queue(jobs.clone(), "mail");
    assert_eq!(left.len(), 1);
    assert_eq!(left[0].id, 1);
    let left = delete_job(jobs, 5);
    assert_eq!(left.iter().map(|j| j.id).collect::<Vec<u128>>(), vec![7, 3, 1]);
}

#[test]
fn reserved_jobs_wait_for_release() {
    let mut jobs = vec![pushed_job(1, "mail", "{}".to_string(), 100, Some(20))];
    assert_eq!(jobs[0].available_at, 120);
    assert_eq!(jobs[0].attempts, 0);
    assert_eq!(next_job(&jobs, "mail", 119), None);
    assert_eq!(next_job(&jobs, "mail", 120), Some(0));
    reserve(&mut jobs[0], 120);
    assert_eq!(next_job(&jobs, "mail", 500), None);
    release(&mut jobs[0], 130, Some(30));
    assert_eq!(jobs[0].attempts, 1);
    assert_eq!(jobs[0].reserved_at, None);
    assert_eq!(next_job(&jobs, "mail", 159), None);
    assert_eq!(next_job(&jobs, "mail", 160), Some(0));
}

#[test]
fn schedule_expressions() {
    let t = TaskBuilder::new("report", ()).daily().ok().unwrap();
    assert_eq!(t.cron_expression(), "0 0 0 * * *");
    assert_eq!(t.name(), "report");
    let at = TimeOfDay::from_hm(14, 30).unwrap();
    assert_eq!(TaskBuilder::new("a", ()).dailyAt(at).ok().unwrap().cron_expression(), "0 30 14 * * *");
    assert_eq!(TaskBuilder::new("a", ()).weeklyOn(3, at).ok().unwrap().cron_expression(), "0 30 14 * * 3");
    assert_eq!(TaskBuilder::new("a", ()).monthlyOn(15, at).ok().unwrap().cron_expression(), "0 30 14 15 * *");
    assert_eq!(TaskBuilder::new("a", ()).hourlyAt(45).ok().unwrap().cron_expression(), "0 45 * * * *");
    assert_eq!(TaskBuilder::new("a", ()).everyFiveMinutes().ok().unwrap().cron_expression(), "0 */5 * * * *");
    assert_eq!(TaskBuilder::new("a", ()).quarterly().ok().unwrap().cron_expression(), "0 0 0 1 */3 *");
    assert_eq!(TaskBuilder::new("a", ()).yearly().ok().unwrap().cron_expression(), "0 0 0 1 1 *");
    assert_eq!(TaskBuilder::new("a", ()).timezone("Europe/Paris").cron("1 2 3 4 5 6").ok().unwrap().cron_expression(), "1 2 3 4 5 6");
    assert!(TimeOfDay::from_hm(24, 0).is_none());
    assert!(TimeOfDay::from_hm(23, 60).is_none());
    assert_eq!(cron_expression("5", "4", "3", "2", "1"), "0 5 4 3 2 1");
}

#[test]
fn tasks_without_a_planned_run_are_not_due() {
    let mut t = Task::new("t", "0 * * * * *", ()).ok().unwrap();
    assert!(!t.should_run_at(Moment { secs: i64::MAX, nanos: 0 }));
    assert!(!t.should_run());
    t.record_run(Moment { secs: 10, nanos: 5 });
    assert!(!t.should_run_at(Moment { secs: 11, nanos: 0 }));
    assert!(Moment { secs: 1, nanos: 999 }.is_before(Moment { secs: 2, nanos: 0 }));
    assert!(!Moment { secs: 2, nanos: 0 }.is_before(Moment { secs: 2, nanos: 0 }));
}

#[test]
fn storage_paths_and_urls() {
    let d = LocalDriver::with_root("storage".to_string(), "http://localhost:3000/storage/");
    assert_eq!(d.root(), "storage");
    assert_eq!(d.ensure_path("avatars/a.png"), "storage/avatars/a.png");
    assert_eq!(d.ensure_path("/tmp/x"), "/tmp/x");
    assert_eq!(d.url("//avatars/a.png"), "http://localhost:3000/storage/avatars/a.png");
    let c = StorageConfig::from_settings(None, None, None);
    assert_eq!(c.default, "local");
    assert_eq!(c.disks.local.root, "storage");
    assert_eq!(c.disks.local.url, "http://localhost:3000/storage");
    assert!(c.selected_disk().is_ok());
    let s3 = StorageConfig::from_settings(Some("s3".to_string()), None, None);
    match s3.selected_disk() {
        Err(m) => assert_eq!(m, "Unsupported storage driver: s3"),
        Ok(_) => panic!("only the local disk is supported"),
    }
    let l = default_local_config(Some("/data".to_string()), None);
    assert_eq!(l.root, "/data");
}

#[test]
fn cache_facade_steps() {
    assert!(matches!(remember_step(Some(5)), RememberStep::Answer(5)));
    assert!(matches!(remember_step::<i32>(None), RememberStep::ComputeAndStore));
    assert_eq!(remember_answer(7, true), Some(7));
    assert_eq!(remember_answer(7, false), None);
    assert!(pull_forgets(&Some("v")));
    assert!(!pull_forgets::<&str>(&None));
    assert!(add_writes(false));
    assert!(!add_writes(true));
    assert!(matches!(flexible_step(Some("x")), FlexibleStep::AnswerAndRefresh("x")));
    assert!(matches!(flexible_step::<&str>(None), FlexibleStep::ComputeAndStoreWithGrace));
}
