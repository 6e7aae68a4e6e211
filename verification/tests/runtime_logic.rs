use std::collections::HashMap;

use openworkers_runtime::boot::{BootAbort, BootCommand, BootEvent, BootStep, RuntimeSetup, WorkerBoot};
use openworkers_runtime::decimal::render_decimal;
use openworkers_runtime::env::{json_or_undefined, ToJsonString};
use openworkers_runtime::ext::event_scheduled::{ScheduledEvent, ScheduledInit};
use openworkers_runtime::ext::fetch_init::{FetchInit, FetchReply, FetchResource};
use openworkers_runtime::ext::permissions::Permissions as TimerPermissions;
use openworkers_runtime::ext::runtime::{deliver_log, LogDelivery, LogEvent, LogSender};
use openworkers_runtime::extensions::{extension_order, extensions, ExtensionId, ExtensionSpec};
use openworkers_runtime::permissions::Permissions;
use openworkers_runtime::runtime::{runtime_snapshot, user_agent, Script};
use openworkers_runtime::task::{rid_to_smi, trigger_script, Task, TaskInit, TaskType};

#[test]
fn permissions_grant_net_and_read_but_not_hrtime() {
    let mut p = Permissions::new();
    assert!(!p.allow_hrtime());
    assert!(p.check_net_url("https://example.com/", "fetch()").is_ok());
    assert!(p.check_read("/etc/hosts", "fetch()").is_ok());
    let mut t = TimerPermissions {};
    assert!(!t.allow_hrtime());
}

#[test]
fn decimal_rendering_matches_std_formatting() {
    for n in [0u32, 7, 9, 10, 42, 100, 65535, 1_000_000, 2_147_483_647, 4_294_967_295] {
        assert_eq!(render_decimal(n), n.to_string());
    }
    assert_eq!(render_decimal(0), "0");
    assert_eq!(render_decimal(4_294_967_295), "4294967295");
}

#[test]
fn trigger_scripts_name_kind_and_rid() {
    assert_eq!(trigger_script(TaskType::Fetch, 0), "globalThis.triggerFetchEvent(0)");
    assert_eq!(trigger_script(TaskType::Scheduled, 123), "globalThis.triggerScheduledEvent(123)");
    assert_ne!(trigger_script(TaskType::Fetch, 12), trigger_script(TaskType::Fetch, 21));
    assert_ne!(trigger_script(TaskType::Fetch, 5), trigger_script(TaskType::Scheduled, 5));
}

#[test]
fn rid_conversion_is_a_plain_cast() {
    assert_eq!(rid_to_smi(0), 0);
    assert_eq!(rid_to_smi(5), 5);
    assert_eq!(rid_to_smi(2_147_483_647), i32::MAX);
    assert_eq!(rid_to_smi(2_147_483_648), i32::MIN);
    assert_eq!(rid_to_smi(u32::MAX), -1);
}

fn scheduled_task(time: u64) -> (Task, tokio::sync::oneshot::Receiver<()>) {
    let (tx, rx) = tokio::sync::oneshot::channel::<()>();
    (Task::Scheduled(Some(ScheduledInit::new(tx, time))), rx)
}

#[test]
fn task_payload_is_taken_once() {
    let (mut task, _rx) = scheduled_task(1_700_000_000);
    assert!(matches!(task.task_type(), TaskType::Scheduled));
    assert!(task.has_payload());
    match task.take_init() {
        TaskInit::Scheduled(init) => assert_eq!(init.time, 1_700_000_000),
        TaskInit::Fetch(_) => panic!("wrong payload"),
    }
    assert!(!task.has_payload());
    assert!(matches!(task.task_type(), TaskType::Scheduled));
    assert_eq!(task.trigger_script(3), "globalThis.triggerScheduledEvent(3)");

    let (res_tx, _res_rx) = tokio::sync::oneshot::channel::<FetchReply>();
    let mut fetch = Task::Fetch(Some(FetchInit {
        res_tx: Some(res_tx),
        req: FetchResource { req: String::from("GET /") },
    }));
    assert_eq!(fetch.task_type(), TaskType::Fetch);
    match fetch.take_init() {
        TaskInit::Fetch(init) => assert_eq!(init.req.req, "GET /"),
        TaskInit::Scheduled(_) => panic!("wrong payload"),
    }
    assert_eq!(fetch.trigger_script(0), "globalThis.triggerFetchEvent(0)");
}

#[test]
fn user_agent_and_bootstrap_script() {
    assert_eq!(user_agent(), "OpenWorkers/0.1.0");
    let script = Script { specifier: String::from("file:///w.js"), code: None, env: None };
    assert_eq!(script.bootstrap_script(), "globalThis.bootstrap('OpenWorkers/0.1.0', undefined)");
    let script = Script {
        specifier: String::from("file:///w.js"),
        code: Some(String::from("export default {}")),
        env: Some(String::from("{\"KEY\":\"v\"}")),
    };
    assert_eq!(script.bootstrap_script(), "globalThis.bootstrap('OpenWorkers/0.1.0', {\"KEY\":\"v\"})");
}

static EMPTY_IMAGE: [u8; 0] = [];
static IMAGE: [u8; 3] = [1, 2, 3];

#[test]
fn snapshot_present_only_when_image_is_not_empty() {
    assert!(runtime_snapshot(&EMPTY_IMAGE).is_none());
    assert_eq!(runtime_snapshot(&IMAGE), Some(&IMAGE[..]));
}

fn spec(id: ExtensionId, js: &[&str], esm: &[&str], entry: Option<&str>) -> ExtensionSpec {
    ExtensionSpec {
        id,
        js_files: js.iter().map(|s| s.to_string()).collect(),
        esm_files: esm.iter().map(|s| s.to_string()).collect(),
        esm_entry_point: entry.map(|s| s.to_string()),
    }
}

#[test]
fn extensions_in_dependency_order() {
    assert_eq!(
        extension_order(),
        vec![
            ExtensionId::DenoWebidl,
            ExtensionId::DenoConsole,
            ExtensionId::DenoUrl,
            ExtensionId::DenoWeb,
            ExtensionId::DenoCrypto,
            ExtensionId::DenoFetch,
            ExtensionId::FetchEvent,
            ExtensionId::ScheduledEvent,
            ExtensionId::Runtime,
            ExtensionId::Permissions,
        ]
    );
}

#[test]
fn snapshot_extensions_lose_their_sources() {
    let exts = vec![
        spec(ExtensionId::DenoConsole, &["01_console.js"], &[], None),
        spec(ExtensionId::Runtime, &[], &["ext:runtime.js"], Some("ext:runtime.js")),
    ];
    let fresh = extensions(exts.clone(), false);
    assert_eq!(fresh.len(), 2);
    assert_eq!(fresh[0].js_files, vec!["01_console.js".to_string()]);
    assert_eq!(fresh[1].esm_entry_point.as_deref(), Some("ext:runtime.js"));

    let stripped = extensions(exts, true);
    assert_eq!(stripped.len(), 2);
    assert_eq!(stripped[0].id, ExtensionId::DenoConsole);
    assert_eq!(stripped[1].id, ExtensionId::Runtime);
    for e in &stripped {
        assert!(e.js_files.is_empty());
        assert!(e.esm_files.is_empty());
        assert!(e.esm_entry_point.is_none());
    }
    let again = extensions(stripped.clone(), true);
    assert_eq!(again.len(), stripped.len());
    assert!(again.iter().zip(stripped.iter()).all(|(a, b)| a.id == b.id && a.js_files.is_empty()));
}

fn boot() -> WorkerBoot {
    let script = Script { specifier: String::from("file:///w.js"), code: None, env: None };
    let (b, setup) = WorkerBoot::start(&script, true);
    assert_eq!(setup, RuntimeSetup { strip_extension_sources: true, use_startup_snapshot: true });
    assert_eq!(b.bootstrap, "globalThis.bootstrap('OpenWorkers/0.1.0', undefined)");
    b
}

const ALL_TRIGGERS: BootEvent = BootEvent::TriggersExtracted { is_object: true, fetch: true, scheduled: true };

#[test]
fn boot_success_path_reaches_ready() {
    let script = Script { specifier: String::from("file:///w.js"), code: None, env: None };
    let (_, setup) = WorkerBoot::start(&script, false);
    assert_eq!(setup, RuntimeSetup { strip_extension_sources: false, use_startup_snapshot: false });

    let mut b = boot();
    assert_eq!(b.on_event(BootEvent::RuntimeCreated), BootCommand::ExecuteBootstrap);
    assert_eq!(b.on_event(BootEvent::BootstrapFinished { ok: true }), BootCommand::ExtractTriggers);
    assert_eq!(b.on_event(ALL_TRIGGERS), BootCommand::LoadMainModule);
    assert_eq!(b.on_event(BootEvent::ModuleLoaded { ok: true }), BootCommand::RunEventLoop);
    assert_eq!(b.on_event(BootEvent::EventLoopFinished { ok: true }), BootCommand::AwaitEvaluation);
    assert_eq!(b.on_event(BootEvent::EvaluationFinished { ok: true }), BootCommand::Finish);
    assert_eq!(b.step, BootStep::Ready);
    assert_eq!(b.on_event(BootEvent::RuntimeCreated), BootCommand::Ignore);
    assert_eq!(b.step, BootStep::Ready);
}

#[test]
fn boot_aborts_on_broken_runtime() {
    let mut b = boot();
    b.on_event(BootEvent::RuntimeCreated);
    assert_eq!(
        b.on_event(BootEvent::BootstrapFinished { ok: false }),
        BootCommand::Abort(BootAbort::BootstrapFailed)
    );
    assert_eq!(b.step, BootStep::Aborted);
    assert_eq!(b.on_event(ALL_TRIGGERS), BootCommand::Ignore);

    let cases = [
        (BootEvent::TriggersExtracted { is_object: false, fetch: true, scheduled: true }, BootAbort::TriggersNotObject),
        (BootEvent::TriggersExtracted { is_object: true, fetch: false, scheduled: true }, BootAbort::FetchTriggerMissing),
        (BootEvent::TriggersExtracted { is_object: true, fetch: false, scheduled: false }, BootAbort::FetchTriggerMissing),
        (BootEvent::TriggersExtracted { is_object: true, fetch: true, scheduled: false }, BootAbort::ScheduledTriggerMissing),
    ];
    for (event, why) in cases {
        let mut b = boot();
        b.on_event(BootEvent::RuntimeCreated);
        b.on_event(BootEvent::BootstrapFinished { ok: true });
        assert_eq!(b.on_event(event), BootCommand::Abort(why));
        assert_eq!(b.step, BootStep::Aborted);
    }
}

#[test]
fn boot_fails_on_module_errors() {
    let failing = [
        BootEvent::ModuleLoaded { ok: false },
        BootEvent::EventLoopFinished { ok: false },
        BootEvent::EvaluationFinished { ok: false },
    ];
    let good = [
        BootEvent::ModuleLoaded { ok: true },
        BootEvent::EventLoopFinished { ok: true },
        BootEvent::EvaluationFinished { ok: true },
    ];
    for k in 0..3 {
        let mut b = boot();
        b.on_event(BootEvent::RuntimeCreated);
        b.on_event(BootEvent::BootstrapFinished { ok: true });
        b.on_event(ALL_TRIGGERS);
        for g in &good[..k] {
            b.on_event(*g);
        }
        assert_eq!(b.on_event(failing[k]), BootCommand::Fail);
        assert_eq!(b.step, BootStep::Failed);
        assert_eq!(b.on_event(good[k]), BootCommand::Ignore);
        assert_eq!(b.step, BootStep::Failed);
    }
}

#[test]
fn boot_ignores_events_out_of_turn() {
    let mut b = boot();
    assert_eq!(b.on_event(BootEvent::ModuleLoaded { ok: true }), BootCommand::Ignore);
    assert_eq!(b.step, BootStep::CreatingRuntime);
    b.on_event(BootEvent::RuntimeCreated);
    assert_eq!(b.on_event(BootEvent::RuntimeCreated), BootCommand::Ignore);
    assert_eq!(b.step, BootStep::Bootstrapping);
}

#[test]
fn log_lines_reach_the_host() {
    let e = LogEvent::new("info", "hello");
    assert_eq!(e.level, "info");
    assert_eq!(e.message, "hello");

    assert_eq!(deliver_log(None, "info", "hello"), LogDelivery::NoSender);

    let (tx, rx) = std::sync::mpsc::channel::<LogEvent>();
    let mut sender = LogSender::new(tx);
    assert_eq!(deliver_log(Some(&mut sender), "warn", "careful"), LogDelivery::Delivered);
    assert_eq!(deliver_log(Some(&mut sender), "info", "second"), LogDelivery::Delivered);
    let first = rx.recv().unwrap();
    assert_eq!((first.level.as_str(), first.message.as_str()), ("warn", "careful"));
    let second = rx.recv().unwrap();
    assert_eq!((second.level.as_str(), second.message.as_str()), ("info", "second"));
    assert!(rx.try_recv().is_err());

    drop(rx);
    assert_eq!(deliver_log(Some(&mut sender), "error", "lost"), LogDelivery::ReceiverGone);
}

#[test]
fn scheduled_run_reports_completion() {
    let (tx, mut rx) = tokio::sync::oneshot::channel::<()>();
    let init = ScheduledInit::new(tx, 42);
    assert_eq!(init.event(7), ScheduledEvent { rid: 7, time: 42 });
    assert!(init.respond().is_ok());
    assert_eq!(rx.try_recv(), Ok(()));

    let (tx, rx) = tokio::sync::oneshot::channel::<()>();
    drop(rx);
    assert!(ScheduledInit::new(tx, 0).respond().is_err());
}

#[test]
fn fetch_resource_description() {
    let r = FetchResource { req: String::from("GET /index.html") };
    assert_eq!(r.describe(), "FetchResource req: GET /index.html");
    assert_eq!(FetchResource { req: String::new() }.describe(), "FetchResource req: ");
}

#[test]
fn environment_as_json() {
    assert_eq!(json_or_undefined::<()>(Ok(String::from("{}"))), "{}");
    assert_eq!(json_or_undefined::<()>(Err(())), "undefined");

    let mut map = HashMap::new();
    map.insert(String::from("KEY"), String::from("value"));
    assert_eq!(map.to_json_string(), "{\"KEY\":\"value\"}");
    assert_eq!(HashMap::<String, String>::new().to_json_string(), "{}");
    assert_eq!(Some(map).to_json_string(), "{\"KEY\":\"value\"}");
    assert_eq!(None::<HashMap<String, String>>.to_json_string(), "undefined");
}

#[test]
fn decimal_reads_back_and_has_no_leading_zero() {
    for n in [0u32, 1, 10, 99, 1000, 40_000_000, u32::MAX] {
        let s = render_decimal(n);
        assert_eq!(s.parse::<u32>().unwrap(), n);
        assert!(s.chars().all(|c| c.is_ascii_digit()));
        assert!(!s.is_empty());
        assert_eq!(s.starts_with('0'), n == 0);
    }
    assert_ne!(render_decimal(100), render_decimal(10));
}

#[test]
fn rid_conversion_distinguishes_ids() {
    let ids = [0u32, 1, 2_147_483_647, 2_147_483_648, 4_294_967_294, u32::MAX];
    for a in ids {
        for b in ids {
            assert_eq!(rid_to_smi(a) == rid_to_smi(b), a == b);
        }
    }
}

#[test]
fn environment_json_is_an_object() {
    let mut map = HashMap::new();
    map.insert(String::from("A"), String::from("1"));
    map.insert(String::from("B"), String::from("2"));
    let s = map.to_json_string();
    assert!(s.starts_with('{') && s.ends_with('}'));
    assert_ne!(s, "{}");
    assert!(s == "{\"A\":\"1\",\"B\":\"2\"}" || s == "{\"B\":\"2\",\"A\":\"1\"}");
    let o = Some(map).to_json_string();
    assert!(o.starts_with('{') && o.ends_with('}'));
    assert_eq!(Some(HashMap::<String, String>::new()).to_json_string(), "{}");
}

#[test]
fn environment_json_escapes_and_lists_each_entry() {
    let mut map = HashMap::new();
    map.insert(String::from("A"), String::from("1"));
    assert_eq!(map.to_json_string(), "{\"A\":\"1\"}");

    let mut map = HashMap::new();
    map.insert(String::from("q\"b\\"), String::from("t\tn\nc\u{1}x\u{7f}é"));
    assert_eq!(map.to_json_string(), "{\"q\\\"b\\\\\":\"t\\tn\\nc\\u0001x\u{7f}é\"}");

    let mut map = HashMap::new();
    for i in 0..5 {
        map.insert(format!("k{}", i), format!("v{}", i));
    }
    let s = map.to_json_string();
    let back: HashMap<String, String> = serde_json::from_str(&s).unwrap();
    assert_eq!(back, map);
    assert_eq!(s.matches(',').count(), 4);
}
