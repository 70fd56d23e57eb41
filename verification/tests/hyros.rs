use transr::func::rnet::Response;
use transr::plugins::hyros::HyrOS;
use transr::plugins::hyros::MatcherType;
use transr::plugins::hyros::Severity;
use transr::plugins::hyros::VulnTemplate;

fn page(status: u16, body: &str) -> Response {
    Response::new(status, body.to_string(), "http://h".to_string())
}

#[test]
fn default_templates_are_ten() {
    let hyros = HyrOS::new().unwrap();
    let ids: Vec<&str> = hyros.templates.iter().map(|t| t.id.as_str()).collect();
    assert_eq!(
        ids,
        vec![
            "dir-traversal-1",
            "sql-injection-1",
            "xss-reflected-1",
            "open-redirect-1",
            "exposed-git-1",
            "exposed-env-1",
            "debug-mode-1",
            "default-creds-1",
            "api-exposure-1",
            "missing-sec-headers-1",
        ]
    );
    assert_eq!(hyros.templates[1].severity, Severity::Critical);
    assert_eq!(hyros.templates[8].severity, Severity::Info);
    assert_eq!(hyros.templates[0].name, "Directory Traversal - Linux");
    assert_eq!(hyros.templates[0].description, "Tests for directory traversal vulnerability");
    assert!(matches!(&hyros.templates[3].matcher, MatcherType::StatusCode(302)));
    match &hyros.templates[9].matcher {
        MatcherType::Header(key, value) => {
            assert_eq!(key, "X-Content-Type-Options");
            assert_eq!(value, "");
        }
        other => panic!("unexpected matcher: {:?}", other),
    }
    let mut twice = HyrOS::new().unwrap();
    twice.load_default_templates();
    assert_eq!(twice.templates.len(), 20);
}

#[test]
fn test_urls_follow_the_template_ids() {
    let hyros = HyrOS::new().unwrap();
    assert_eq!(
        hyros.test_urls("http://h"),
        vec![
            "http://h/../../../etc/passwd",
            "http://h?id=1'",
            "http://h?q=<script>alert(1)</script>",
            "http://h",
            "http://h/.git/config",
            "http://h/.env",
            "http://h",
            "http://h",
            "http://h/swagger-ui.html",
            "http://h",
        ]
    );
    assert_eq!(hyros.build_test_url("b", "exposed-env-1"), "b/.env");
    assert_eq!(hyros.build_test_url("b", "anything"), "b");
}

#[test]
fn status_and_phrase_matchers() {
    let hyros = HyrOS::new().unwrap();
    assert!(hyros.check_matcher(&MatcherType::StatusCode(200), &page(200, "")));
    assert!(!hyros.check_matcher(&MatcherType::StatusCode(200), &page(201, "")));
    let phrase = MatcherType::Contains("swagger".to_string());
    assert!(hyros.check_matcher(&phrase, &page(200, "the swagger ui")));
    assert!(hyros.check_matcher(&phrase, &page(200, "swagger")));
    assert!(!hyros.check_matcher(&phrase, &page(200, "swagge")));
    assert!(!hyros.check_matcher(&phrase, &page(200, "")));
    assert!(hyros.check_matcher(&MatcherType::Contains(String::new()), &page(200, "")));
}

#[test]
fn regex_matchers() {
    let hyros = HyrOS::new().unwrap();
    let debug = MatcherType::Regex("(DEBUG|debug_mode|DEBUG_MODE).*true".to_string());
    assert!(hyros.check_matcher(&debug, &page(200, "DEBUG = true")));
    assert!(!hyros.check_matcher(&debug, &page(200, "DEBUG = false")));
    assert!(!hyros.check_matcher(&debug, &page(200, "true DEBUG")));
    // The pattern itself is not what is looked for.
    assert!(!hyros.check_matcher(&debug, &page(200, "(DEBUG|debug_mode|DEBUG_MODE).*tru")));
    let broken = MatcherType::Regex("foo(bar".to_string());
    assert!(!hyros.check_matcher(&broken, &page(200, "foo(bar")));
}

#[test]
fn header_matchers() {
    let hyros = HyrOS::new().unwrap();
    let missing = MatcherType::Header("X-Content-Type-Options".to_string(), String::new());
    let mut with = page(200, "");
    assert!(hyros.check_matcher(&missing, &with));
    with.set_header("X-Content-Type-Options".to_string(), "nosniff".to_string());
    assert!(!hyros.check_matcher(&missing, &with));
    let exact = MatcherType::Header("X-Content-Type-Options".to_string(), "nosniff".to_string());
    assert!(hyros.check_matcher(&exact, &with));
    let other = MatcherType::Header("X-Content-Type-Options".to_string(), "sniff".to_string());
    assert!(!hyros.check_matcher(&other, &with));
    assert!(!hyros.check_matcher(&exact, &page(200, "")));
}

#[test]
fn evidence_cuts_long_bodies() {
    let hyros = HyrOS::new().unwrap();
    assert_eq!(hyros.extract_evidence(&page(200, "ok")), "Status: 200, Body: ok");
    let exactly = "a".repeat(200);
    assert_eq!(
        hyros.extract_evidence(&page(404, &exactly)),
        format!("Status: 404, Body: {}", exactly)
    );
    let longer = format!("{}b", exactly);
    assert_eq!(
        hyros.extract_evidence(&page(500, &longer)),
        format!("Status: 500, Body: {}...", exactly)
    );
}

#[test]
fn one_probe() {
    let hyros = HyrOS::new().unwrap();
    let template = &hyros.templates[0];
    let hit = page(200, "root:x:0:0:root:/root");
    let found = hyros.test_template("http://h", template, Some(&hit)).unwrap();
    assert_eq!(found.template_id, "dir-traversal-1");
    assert_eq!(found.template_name, "Directory Traversal - Linux");
    assert_eq!(found.severity, Severity::High);
    assert_eq!(found.url, "http://h/../../../etc/passwd");
    assert!(found.matched);
    assert_eq!(found.evidence, Some("Status: 200, Body: root:x:0:0:root:/root".to_string()));
    assert!(!found.timestamp.is_empty());
    let miss = hyros.test_template("http://h", template, Some(&page(200, "nothing"))).unwrap();
    assert!(!miss.matched);
    assert_eq!(miss.evidence, None);
    let silent = hyros.test_template("http://h", template, None).unwrap();
    assert!(!silent.matched);
    assert_eq!(silent.evidence, None);
    assert_eq!(silent.url, "http://h/../../../etc/passwd");
    let copy = found.duplicate();
    assert_eq!(copy.template_id, found.template_id);
    assert_eq!(copy.evidence, found.evidence);
    assert_eq!(copy.timestamp, found.timestamp);
}

#[test]
fn a_scan_has_one_outcome_per_template() {
    let hyros = HyrOS::new().unwrap();
    let pages = vec![
        Some(page(200, "root:x:0:0")),
        None,
        Some(page(200, "<b>safe</b>")),
        Some(page(302, "")),
    ];
    let results = hyros.scan("http://h", &pages);
    assert_eq!(results.len(), 10);
    let matched: Vec<bool> = results.iter().map(|r| r.matched).collect();
    assert_eq!(
        matched,
        vec![true, false, false, true, false, false, false, false, false, false]
    );
    assert_eq!(HyrOS::count_matched(&results), 2);
    assert_eq!(HyrOS::count_matched(&vec![]), 0);
    let critical = hyros.retain_severity(&results, Severity::Critical);
    let ids: Vec<&str> = critical.iter().map(|r| r.template_id.as_str()).collect();
    assert_eq!(ids, vec!["sql-injection-1", "exposed-env-1", "default-creds-1"]);
    let medium = hyros.scan_with_severity("http://h", Severity::Medium, &pages);
    assert_eq!(medium.len(), 8);
    assert_eq!(hyros.scan_with_severity("http://h", Severity::Info, &pages).len(), 10);
}

#[test]
fn severities_are_ordered() {
    let hyros = HyrOS::new().unwrap();
    let order = [Severity::Info, Severity::Low, Severity::Medium, Severity::High, Severity::Critical];
    for (i, a) in order.iter().enumerate() {
        assert_eq!(a.rank() as usize, i);
        for (j, b) in order.iter().enumerate() {
            assert_eq!(hyros.is_severity_sufficient(a, b), i >= j);
        }
    }
    assert_eq!(Severity::Critical.icon(), "🔴");
    assert_eq!(Severity::High.icon(), "🟠");
    assert_eq!(Severity::Medium.icon(), "🟡");
    assert_eq!(Severity::Low.icon(), "🔵");
    assert_eq!(Severity::Info.icon(), "⚪");
}

#[test]
fn templates_are_listed_with_sign_id_and_name() {
    let mut hyros = HyrOS { templates: Vec::new() };
    assert!(hyros.list_templates().is_empty());
    hyros.templates.push(VulnTemplate {
        id: "x-1".to_string(),
        name: "Example".to_string(),
        severity: Severity::Low,
        description: String::new(),
        matcher: MatcherType::StatusCode(200),
    });
    assert_eq!(hyros.list_templates(), vec!["🔵 [x-1] Example"]);
    let defaults = HyrOS::new().unwrap().list_templates();
    assert_eq!(defaults.len(), 10);
    assert_eq!(defaults[0], "🟠 [dir-traversal-1] Directory Traversal - Linux");
    assert_eq!(defaults[8], "⚪ [api-exposure-1] Exposed API Documentation");
}
