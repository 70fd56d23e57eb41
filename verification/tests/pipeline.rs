use transr::errhuman::ErrorKind;
use transr::errhuman::TransRError;
use transr::func::rnet::Response;
use transr::task::Task;
use transr::transr::parse_http_method;
use transr::transr::parse_math_op;
use transr::transr::settle;
use transr::transr::HttpMethod;
use transr::transr::MathOp;
use transr::transr::Reply;
use transr::transr::Request;
use transr::transr::TransRPipeline;

/// Serves requests without touching the outside world: arithmetic is done
/// here, every port counts as closed, no page answers.
fn offline(request: Request) -> Reply {
    match request {
        Request::Display { .. } => Reply::Done,
        Request::Math { operation, args } => {
            let numbers: Vec<f64> = args.iter().map(|bits| f64::from_bits(*bits)).collect();
            let value = match operation {
                MathOp::Sum => numbers.iter().sum::<f64>(),
                MathOp::Mean => numbers.iter().sum::<f64>() / numbers.len() as f64,
                MathOp::Max => numbers.iter().copied().reduce(f64::max).unwrap(),
                MathOp::Min => numbers.iter().copied().reduce(f64::min).unwrap(),
            };
            Reply::Number(format!("{}", value))
        }
        Request::Http { url, .. } => Reply::Http(Response::new(200, String::new(), url)),
        Request::Connect { ports, .. } => Reply::Open(ports.iter().map(|_| false).collect()),
        Request::Fetch { urls } => Reply::Pages(urls.iter().map(|_| None).collect()),
    }
}

/// Refuses every request.
fn unreachable_network(_request: Request) -> Reply {
    Reply::Failed(TransRError::NetworkError("GET request failed: no route".to_string()))
}

fn bits(numbers: &[f64]) -> Vec<u64> {
    numbers.iter().map(|x| x.to_bits()).collect()
}

fn single_output(task: Task) -> String {
    let mut pipeline = TransRPipeline::new();
    pipeline.add_task(task);
    pipeline.run(offline).unwrap();
    assert_eq!(pipeline.get_results().len(), 1);
    pipeline.get_results()[0].output.clone()
}

#[test]
fn new_pipeline_is_empty_at_verbosity_one() {
    let pipeline = TransRPipeline::new();
    assert!(pipeline.tasks.is_empty());
    assert!(pipeline.results.is_empty());
    assert_eq!(pipeline.verbose_level, 1);
    assert!(!pipeline.debug_mode);
}

#[test]
fn settings_are_stored() {
    let mut pipeline = TransRPipeline::new();
    pipeline.set_verbose(3);
    pipeline.set_debug(true);
    assert_eq!(pipeline.verbose_level, 3);
    assert!(pipeline.debug_mode);
    pipeline.set_debug(false);
    assert!(!pipeline.debug_mode);
}

#[test]
fn empty_queue_runs_trivially() {
    let mut pipeline = TransRPipeline::new();
    assert!(pipeline.run(offline).is_ok());
    assert!(pipeline.get_results().is_empty());
}

#[test]
fn results_follow_enqueue_order() {
    let mut pipeline = TransRPipeline::new();
    pipeline.print("hello".to_string());
    pipeline.heavy_loop(3);
    pipeline.add_task(Task::Custom { name: "job".to_string(), args: vec![] });
    assert!(pipeline.run(offline).is_ok());
    let results = pipeline.get_results();
    assert_eq!(results.len(), 3);
    assert_eq!(results[0].output, "Printed: hello");
    assert_eq!(results[0].task_name, "Print(\"hello\")");
    assert!(results[0].success);
    assert_eq!(results[1].task_name, "Loop { iterations: 3, operation: \"xor\" }");
    assert_eq!(results[1].output, "305419899");
    assert_eq!(results[2].output, "Executed: job");
    assert!(results.iter().all(|r| r.success));
    assert!(pipeline.tasks.is_empty());
}

#[test]
fn results_accumulate_over_runs() {
    let mut pipeline = TransRPipeline::new();
    pipeline.print("one".to_string());
    pipeline.run(offline).unwrap();
    pipeline.print("two".to_string());
    pipeline.run(offline).unwrap();
    let results = pipeline.get_results();
    assert_eq!(results.len(), 2);
    assert_eq!(results[0].output, "Printed: one");
    assert_eq!(results[1].output, "Printed: two");
}

#[test]
fn failing_task_aborts_the_run() {
    let mut pipeline = TransRPipeline::new();
    pipeline.print("first".to_string());
    pipeline.math("bogus".to_string(), bits(&[1.0]));
    pipeline.print("never".to_string());
    let outcome = pipeline.run(offline);
    match outcome {
        Err(TransRError::MathError(message)) => assert_eq!(message, "Unknown operation: bogus"),
        other => panic!("unexpected outcome: {:?}", other),
    }
    assert_eq!(pipeline.get_results().len(), 1);
    assert_eq!(pipeline.get_results()[0].output, "Printed: first");
    assert!(pipeline.tasks.is_empty());
}

#[test]
fn failed_reply_aborts_the_run_with_its_error() {
    let mut pipeline = TransRPipeline::new();
    pipeline.heavy_loop(1);
    pipeline.http_get("http://example.invalid".to_string());
    pipeline.heavy_loop(2);
    let error = pipeline.run(unreachable_network).unwrap_err();
    assert_eq!(error.kind(), ErrorKind::Network);
    assert_eq!(error.detail(), "GET request failed: no route");
    assert_eq!(pipeline.get_results().len(), 1);
    assert_eq!(pipeline.get_results()[0].output, "305419896");
    assert!(pipeline.tasks.is_empty());
}

#[test]
fn clear_resets_queue_and_results() {
    let mut pipeline = TransRPipeline::new();
    pipeline.print("a".to_string());
    assert!(pipeline.run(offline).is_ok());
    pipeline.print("b".to_string());
    pipeline.set_verbose(2);
    pipeline.clear();
    assert!(pipeline.tasks.is_empty());
    assert!(pipeline.get_results().is_empty());
    assert_eq!(pipeline.verbose_level, 2);
}

#[test]
fn clear_after_a_failed_run_resets_too() {
    let mut pipeline = TransRPipeline::new();
    pipeline.print("a".to_string());
    pipeline.hash("crc32".to_string(), "x".to_string());
    assert!(pipeline.run(offline).is_err());
    pipeline.clear();
    assert!(pipeline.tasks.is_empty());
    assert!(pipeline.get_results().is_empty());
}

#[test]
fn mean_of_nothing_is_a_math_error() {
    let mut pipeline = TransRPipeline::new();
    pipeline.math("mean".to_string(), vec![]);
    let error = pipeline.run(offline).unwrap_err();
    assert_eq!(error.kind(), ErrorKind::Math);
    assert_eq!(error.detail(), "Cannot calculate mean of empty array");
}

#[test]
fn max_and_min_of_nothing_are_math_errors() {
    let max = Task::MathCalc { operation: "max".to_string(), args: vec![] };
    let min = Task::MathCalc { operation: "min".to_string(), args: vec![] };
    assert_eq!(max.check().unwrap_err().detail(), "Cannot find max of empty array");
    assert_eq!(min.check().unwrap_err().detail(), "Cannot find min of empty array");
    assert!(max.request().is_none());
}

#[test]
fn sum_of_nothing_is_no_error() {
    let task = Task::MathCalc { operation: "sum".to_string(), args: vec![] };
    assert!(task.check().is_ok());
    let nothing: Vec<f64> = Vec::new();
    assert_eq!(single_output(task), format!("{}", nothing.iter().sum::<f64>()));
}

#[test]
fn mean_of_two_four_six_is_four() {
    let mut pipeline = TransRPipeline::new();
    pipeline.math("mean".to_string(), bits(&[2.0, 4.0, 6.0]));
    assert!(pipeline.run(offline).is_ok());
    assert_eq!(pipeline.get_results()[0].output, "4");
}

#[test]
fn math_request_carries_operation_and_numbers() {
    let task = Task::MathCalc { operation: "max".to_string(), args: bits(&[1.5, -2.0]) };
    match task.request() {
        Some(Request::Math { operation, args }) => {
            assert_eq!(operation, MathOp::Max);
            assert_eq!(args, bits(&[1.5, -2.0]));
        }
        _ => panic!("a math request was expected"),
    }
    assert_eq!(single_output(task), "1.5");
}

#[test]
fn operation_and_method_words() {
    assert_eq!(parse_math_op("sum"), Some(MathOp::Sum));
    assert_eq!(parse_math_op("mean"), Some(MathOp::Mean));
    assert_eq!(parse_math_op("max"), Some(MathOp::Max));
    assert_eq!(parse_math_op("min"), Some(MathOp::Min));
    assert_eq!(parse_math_op("Sum"), None);
    assert_eq!(parse_http_method("GET"), Some(HttpMethod::Get));
    assert_eq!(parse_http_method("POST"), Some(HttpMethod::Post));
    assert_eq!(parse_http_method("get"), None);
}

#[test]
fn xor_loop_follows_the_wrapping_formula() {
    for n in [0u32, 1, 2, 3, 10, 1000] {
        let mut expected: u32 = 0;
        for i in 0..n {
            expected = expected.wrapping_add(i) ^ 0x12345678;
        }
        let task = Task::Loop { iterations: n, operation: "xor".to_string() };
        assert_eq!(single_output(task), expected.to_string());
    }
    assert_eq!(transr::looping::xor_loop(0), 0);
    assert_eq!(transr::looping::xor_loop(1), 305419896);
    assert_eq!(transr::looping::xor_loop(2), 1);
    assert_eq!(transr::looping::xor_loop(3), 305419899);
}

#[test]
fn xor_loop_is_reproducible() {
    let first = single_output(Task::Loop { iterations: 777, operation: "xor".to_string() });
    let second = single_output(Task::Loop { iterations: 777, operation: "xor".to_string() });
    assert_eq!(first, second);
}

#[test]
fn plain_loop_sums_the_indices() {
    let task = Task::Loop { iterations: 5, operation: "plain".to_string() };
    assert_eq!(single_output(task), "10");
    assert_eq!(transr::looping::sum_loop(0), 0);
    assert_eq!(transr::looping::sum_loop(100), 4950);
    // 92682 * 92681 / 2 = 4294930221 < 2^32 <= 92683 * 92682 / 2
    assert_eq!(transr::looping::sum_loop(92682), 4294930221);
    assert_eq!(transr::looping::sum_loop(92683), 55607);
}

#[test]
fn blockchain_loop_folds_its_draws() {
    assert_eq!(transr::looping::chain_step(0, 0), 0xDEADBEEF);
    assert_eq!(transr::looping::chain_step(0xFFFF_FFFF, 1), 0xDEADBEEF);
    assert_eq!(transr::looping::chain_fold(&vec![]), 0);
    assert_eq!(transr::looping::chain_fold(&vec![0, 0]), 0xDEADBEEFu32.wrapping_add(0) ^ 0xDEADBEEF);
    assert_eq!(transr::looping::chain_fold(&vec![5, 7]), (5u32 ^ 0xDEADBEEF).wrapping_add(7) ^ 0xDEADBEEF);
    assert_eq!(transr::looping::chain_loop(0), 0);
    assert_eq!(transr::looping::run_loop(0, "blockchain"), 0);
    let output = single_output(Task::Loop { iterations: 4, operation: "blockchain".to_string() });
    assert!(output.parse::<u32>().is_ok());
}

#[test]
fn blockchain_loop_enqueues_one_loop_of_fifty() {
    let mut pipeline = TransRPipeline::new();
    pipeline.blockchain_loop(10, 5);
    assert_eq!(pipeline.tasks.len(), 1);
    match &pipeline.tasks[0] {
        Task::Loop { iterations, operation } => {
            assert_eq!(*iterations, 50);
            assert_eq!(operation, "blockchain");
        }
        other => panic!("unexpected task: {:?}", other),
    }
}

#[test]
fn blockchain_loop_wraps_its_product() {
    let mut pipeline = TransRPipeline::new();
    pipeline.blockchain_loop(65536, 65536);
    pipeline.blockchain_loop(65536, 65537);
    match (&pipeline.tasks[0], &pipeline.tasks[1]) {
        (Task::Loop { iterations: a, .. }, Task::Loop { iterations: b, .. }) => {
            assert_eq!(*a, 0);
            assert_eq!(*b, 65536);
        }
        _ => panic!("two loops were expected"),
    }
}

#[test]
fn builders_enqueue_the_matching_task() {
    let mut pipeline = TransRPipeline::new();
    pipeline.print("t".to_string());
    pipeline.system_check();
    pipeline.time_check();
    pipeline.math("sum".to_string(), vec![]);
    pipeline.http_get("http://h".to_string());
    pipeline.port_scan("h".to_string(), vec![80, 443]);
    pipeline.vuln_scan("http://h".to_string());
    pipeline.hash("md5".to_string(), "d".to_string());
    pipeline.heavy_loop(7);
    let labels: Vec<String> = pipeline.tasks.iter().map(|t| t.label()).collect();
    assert_eq!(
        labels,
        vec![
            "Print(\"t\")",
            "SystemCheck",
            "TimeCheck",
            "MathCalc { operation: \"sum\", args: [] }",
            "NetworkRequest { method: \"GET\", url: \"http://h\", data: None }",
            "PortScan { host: \"h\", ports: [80, 443] }",
            "VulnScan { url: \"http://h\" }",
            "CryptoHash { algorithm: \"md5\", data: \"d\" }",
            "Loop { iterations: 7, operation: \"xor\" }",
        ]
    );
}

#[test]
fn labels_show_every_field() {
    let math = Task::MathCalc { operation: "sum".to_string(), args: vec![1, 20, 300] };
    assert_eq!(math.label(), "MathCalc { operation: \"sum\", args: [1, 20, 300] }");
    let post = Task::NetworkRequest {
        method: "POST".to_string(),
        url: "u".to_string(),
        data: Some("{\"a\":1}".to_string()),
    };
    assert_eq!(
        post.label(),
        "NetworkRequest { method: \"POST\", url: \"u\", data: Some(\"{\"a\":1}\") }"
    );
    let custom = Task::Custom {
        name: "n".to_string(),
        args: vec![("k".to_string(), "v".to_string()), ("x".to_string(), "".to_string())],
    };
    assert_eq!(custom.label(), "Custom { name: \"n\", args: {\"k\": \"v\", \"x\": \"\"} }");
    let bare = Task::Custom { name: "".to_string(), args: vec![] };
    assert_eq!(bare.label(), "Custom { name: \"\", args: {} }");
    let ports = Task::PortScan { host: "h".to_string(), ports: vec![65535] };
    assert_eq!(ports.label(), "PortScan { host: \"h\", ports: [65535] }");
}

#[test]
fn sha256_digest_is_lowercase_hex() {
    let task = Task::CryptoHash { algorithm: "sha256".to_string(), data: "abc".to_string() };
    assert_eq!(
        single_output(task),
        "ba7816bf8f01cfea414140de5dae2223b00361a396177a9cb410ff61f20015ad"
    );
    let empty = Task::CryptoHash { algorithm: "sha256".to_string(), data: String::new() };
    assert_eq!(
        single_output(empty),
        "e3b0c44298fc1c149afbf4c8996fb92427ae41e4649b934ca495991b7852b855"
    );
}

#[test]
fn md5_digest_is_lowercase_hex() {
    let task = Task::CryptoHash { algorithm: "md5".to_string(), data: "abc".to_string() };
    assert_eq!(single_output(task), "900150983cd24fb0d6963f7d28e17f72");
}

#[test]
fn unknown_algorithm_is_a_crypto_error() {
    let task = Task::CryptoHash { algorithm: "sha1".to_string(), data: "abc".to_string() };
    let error = TransRPipeline::new().execute_task(&task, &offline).unwrap_err();
    assert_eq!(error.kind(), ErrorKind::Crypto);
    assert_eq!(error.detail(), "Unknown algorithm: sha1");
    assert_eq!(error.to_string(), "❌ Crypto Error: Unknown algorithm: sha1");
}

#[test]
fn unsupported_method_is_a_network_error() {
    let task = Task::NetworkRequest {
        method: "PATCH".to_string(),
        url: "http://h".to_string(),
        data: None,
    };
    let error = TransRPipeline::new().execute_task(&task, &offline).unwrap_err();
    assert_eq!(error.kind(), ErrorKind::Network);
    assert_eq!(error.detail(), "Unsupported method: PATCH");
}

#[test]
fn network_request_reports_the_status() {
    let task = Task::NetworkRequest {
        method: "GET".to_string(),
        url: "http://h".to_string(),
        data: None,
    };
    assert_eq!(single_output(task), "Status: 200");
    let post = Task::NetworkRequest {
        method: "POST".to_string(),
        url: "http://h".to_string(),
        data: None,
    };
    let reply = Reply::Http(Response::new(404, "gone".to_string(), "http://h".to_string()));
    assert_eq!(settle(&post, reply).unwrap(), "Status: 404");
}

#[test]
fn post_without_data_sends_an_empty_object() {
    let post = Task::NetworkRequest {
        method: "POST".to_string(),
        url: "http://h".to_string(),
        data: None,
    };
    match post.request() {
        Some(Request::Http { method, url, body }) => {
            assert_eq!(method, HttpMethod::Post);
            assert_eq!(url, "http://h");
            assert_eq!(body, Some("{}".to_string()));
        }
        _ => panic!("an HTTP request was expected"),
    }
    let with_data = Task::NetworkRequest {
        method: "POST".to_string(),
        url: "http://h".to_string(),
        data: Some("x=1".to_string()),
    };
    match with_data.request() {
        Some(Request::Http { body, .. }) => assert_eq!(body, Some("x=1".to_string())),
        _ => panic!("an HTTP request was expected"),
    }
    let get = Task::NetworkRequest {
        method: "GET".to_string(),
        url: "http://h".to_string(),
        data: Some("ignored".to_string()),
    };
    match get.request() {
        Some(Request::Http { method, body, .. }) => {
            assert_eq!(method, HttpMethod::Get);
            assert_eq!(body, None);
        }
        _ => panic!("an HTTP request was expected"),
    }
}

#[test]
fn port_scan_counts_the_open_ports() {
    let task = Task::PortScan { host: "h".to_string(), ports: vec![22, 80, 443] };
    match task.request() {
        Some(Request::Connect { host, ports }) => {
            assert_eq!(host, "h");
            assert_eq!(ports, vec![22, 80, 443]);
        }
        _ => panic!("a connect request was expected"),
    }
    assert_eq!(settle(&task, Reply::Open(vec![true, false, true])).unwrap(), "2 open ports");
    assert_eq!(settle(&task, Reply::Open(vec![])).unwrap(), "0 open ports");
    assert_eq!(settle(&task, Reply::Open(vec![true; 5])).unwrap(), "3 open ports");
    assert_eq!(single_output(task), "0 open ports");
}

#[test]
fn vuln_scan_counts_the_findings() {
    let task = Task::VulnScan { url: "http://h".to_string() };
    match task.request() {
        Some(Request::Fetch { urls }) => {
            assert_eq!(urls.len(), 10);
            assert_eq!(urls[0], "http://h/../../../etc/passwd");
            assert_eq!(urls[3], "http://h");
        }
        _ => panic!("a fetch request was expected"),
    }
    assert_eq!(settle(&task, Reply::Pages(vec![])).unwrap(), "0 vulnerabilities");
    let mut pages: Vec<Option<Response>> = Vec::new();
    // The passwd probe finds its phrase; the injection probe its pattern.
    pages.push(Some(Response::new(200, "root:x:0:0:root".to_string(), "u".to_string())));
    pages.push(Some(Response::new(500, "You have an error in your SQL syntax".to_string(), "u".to_string())));
    pages.push(None);
    // A redirect is what the fourth probe looks for.
    pages.push(Some(Response::new(302, String::new(), "u".to_string())));
    assert_eq!(settle(&task, Reply::Pages(pages)).unwrap(), "3 vulnerabilities");
}

#[test]
fn a_reply_of_the_wrong_sort_is_a_pipeline_error() {
    let print = Task::Print("x".to_string());
    let error = settle(&print, Reply::Number("1".to_string())).unwrap_err();
    assert_eq!(error.kind(), ErrorKind::Pipeline);
    assert_eq!(error.detail(), "Unexpected reply");
    let local = Task::Custom { name: "c".to_string(), args: vec![] };
    assert_eq!(settle(&local, Reply::Done).unwrap_err().kind(), ErrorKind::Pipeline);
    let bogus = Task::MathCalc { operation: "bogus".to_string(), args: vec![] };
    assert_eq!(settle(&bogus, Reply::Number("1".to_string())).unwrap_err().kind(), ErrorKind::Pipeline);
}

#[test]
fn a_failed_reply_settles_to_its_error() {
    let print = Task::Print("x".to_string());
    let error = settle(&print, Reply::Failed(TransRError::IoError("closed".to_string()))).unwrap_err();
    assert_eq!(error.kind(), ErrorKind::Io);
    assert_eq!(error.detail(), "closed");
}

#[test]
fn local_tasks_ask_nothing() {
    assert!(Task::SystemCheck.request().is_none());
    assert!(Task::TimeCheck.request().is_none());
    assert!(Task::Loop { iterations: 1, operation: "xor".to_string() }.request().is_none());
    assert!(Task::Custom { name: "c".to_string(), args: vec![] }.request().is_none());
    match Task::Print("p".to_string()).request() {
        Some(Request::Display { text }) => assert_eq!(text, "p"),
        _ => panic!("a display request was expected"),
    }
}

#[test]
fn time_check_reports_the_local_time() {
    let output = single_output(Task::TimeCheck);
    assert!(output.starts_with("Time: "));
    // YYYY-MM-DD HH:MM:SS
    assert_eq!(output.len(), "Time: ".len() + 19);
}

#[test]
fn system_check_reports_a_summary() {
    let output = single_output(Task::SystemCheck);
    assert!(output.starts_with("System: "));
    assert!(output.contains("; CPU: "));
    assert!(output.contains(" cores); RAM: "));
    assert!(output.ends_with(" bytes"));
}

#[test]
fn method_on_the_pipeline_executes_one_task() {
    let pipeline = TransRPipeline::new();
    let task = Task::Custom { name: "solo".to_string(), args: vec![] };
    assert_eq!(pipeline.execute_task(&task, &offline).unwrap(), "Executed: solo");
    assert!(pipeline.get_results().is_empty());
}

#[test]
fn digests_by_algorithm() {
    assert_eq!(
        transr::crypto::hash("sha256", "abc").unwrap(),
        "ba7816bf8f01cfea414140de5dae2223b00361a396177a9cb410ff61f20015ad"
    );
    assert_eq!(transr::crypto::hash("md5", "").unwrap(), "d41d8cd98f00b204e9800998ecf8427e");
    assert_eq!(transr::crypto::hash_md5("abc"), "900150983cd24fb0d6963f7d28e17f72");
    assert_eq!(transr::crypto::hash_sha256("abc").len(), 64);
    let error = transr::crypto::hash("SHA256", "abc").unwrap_err();
    assert_eq!(error.kind(), ErrorKind::Crypto);
    assert_eq!(error.detail(), "Unknown algorithm: SHA256");
}

#[test]
fn plain_loop_has_a_closed_form() {
    for n in [0u64, 1, 2, 77, 65536, 92682, 92683, 100000, 300001] {
        let expected = (n * n.saturating_sub(1) / 2) % (1u64 << 32);
        assert_eq!(transr::looping::sum_loop(n as u32) as u64, expected);
    }
}
