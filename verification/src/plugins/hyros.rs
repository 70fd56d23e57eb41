//! The vulnerability matcher: a list of templates, the address that each one
//! probes, and the rule by which a response counts as a finding. Fetching the
//! addresses is the caller's work.
use vstd::prelude::*;
use vstd::string::*;
use crate::errhuman::TransRResult;
use crate::func::rnet::Response;
use crate::func::rnet::ResponseModel;
use crate::outside::local_timestamp;
use crate::outside::occurs_in;
use crate::outside::regex_is_match;
use crate::outside::regex_verdict;
use crate::outside::text_contains;
use crate::text::decimal_digits;
use crate::text::render_decimal;
use crate::text::same_text;

verus! {

/// How grave a finding is.
#[derive(Debug, Clone, Copy, PartialEq, Eq, Structural)]
pub enum Severity {
    Critical,
    High,
    Medium,
    Low,
    Info,
}

/// The rule by which a template judges a response: its status code, a
/// regular expression or a phrase found in its body, or a header. A header
/// rule with an empty value holds when the header is missing.
#[derive(Debug, Clone)]
pub enum MatcherType {
    StatusCode(u16),
    Regex(String),
    Contains(String),
    Header(String, String),
}

/// A rule as contracts see it.
pub enum MatcherModel {
    StatusCode(u16),
    Regex(Seq<char>),
    Contains(Seq<char>),
    Header(Seq<char>, Seq<char>),
}

impl View for MatcherType {
    type V = MatcherModel;

    open spec fn view(&self) -> MatcherModel {
        match self {
            MatcherType::StatusCode(code) => MatcherModel::StatusCode(*code),
            MatcherType::Regex(pattern) => MatcherModel::Regex(pattern@),
            MatcherType::Contains(text) => MatcherModel::Contains(text@),
            MatcherType::Header(key, value) => MatcherModel::Header(key@, value@),
        }
    }
}

/// One probe: what it looks for and how to tell that it was found.
#[derive(Debug, Clone)]
pub struct VulnTemplate {
    pub id: String,
    pub name: String,
    pub severity: Severity,
    pub description: String,
    pub matcher: MatcherType,
}

/// A template as contracts see it.
pub struct TemplateModel {
    pub id: Seq<char>,
    pub name: Seq<char>,
    pub severity: Severity,
    pub description: Seq<char>,
    pub matcher: MatcherModel,
}

impl View for VulnTemplate {
    type V = TemplateModel;

    open spec fn view(&self) -> TemplateModel {
        TemplateModel {
            id: self.id@,
            name: self.name@,
            severity: self.severity,
            description: self.description@,
            matcher: self.matcher@,
        }
    }
}

impl DeepView for VulnTemplate {
    type V = TemplateModel;

    open spec fn deep_view(&self) -> TemplateModel {
        self@
    }
}

/// The outcome of one probe: the template, the address probed, whether the
/// rule held, the evidence if it did, and when the outcome was recorded.
#[derive(Debug, Clone)]
pub struct VulnResult {
    pub template_id: String,
    pub template_name: String,
    pub severity: Severity,
    pub url: String,
    pub matched: bool,
    pub evidence: Option<String>,
    pub timestamp: String,
}

/// An outcome as contracts see it.
pub struct VulnModel {
    pub template_id: Seq<char>,
    pub template_name: Seq<char>,
    pub severity: Severity,
    pub url: Seq<char>,
    pub matched: bool,
    pub evidence: Option<Seq<char>>,
    pub timestamp: Seq<char>,
}

impl View for VulnResult {
    type V = VulnModel;

    open spec fn view(&self) -> VulnModel {
        VulnModel {
            template_id: self.template_id@,
            template_name: self.template_name@,
            severity: self.severity,
            url: self.url@,
            matched: self.matched,
            evidence: self.evidence.deep_view(),
            timestamp: self.timestamp@,
        }
    }
}

impl DeepView for VulnResult {
    type V = VulnModel;

    open spec fn deep_view(&self) -> VulnModel {
        self@
    }
}

/// The sign shown beside a severity.
pub open spec fn icon_of(severity: Severity) -> Seq<char> {
    match severity {
        Severity::Critical => "🔴"@,
        Severity::High => "🟠"@,
        Severity::Medium => "🟡"@,
        Severity::Low => "🔵"@,
        Severity::Info => "⚪"@,
    }
}

/// The place of a severity in the order from `Info`, 0, up to `Critical`, 4.
pub open spec fn rank(severity: Severity) -> nat {
    match severity {
        Severity::Info => 0,
        Severity::Low => 1,
        Severity::Medium => 2,
        Severity::High => 3,
        Severity::Critical => 4,
    }
}

/// The address that a template probes: the base address, with the path or
/// query that belongs to the template's id; the base itself for any other id.
pub open spec fn test_url(base: Seq<char>, id: Seq<char>) -> Seq<char> {
    if id == "dir-traversal-1"@ {
        base + "/../../../etc/passwd"@
    } else if id == "sql-injection-1"@ {
        base + "?id=1'"@
    } else if id == "xss-reflected-1"@ {
        base + "?q=<script>alert(1)</script>"@
    } else if id == "exposed-git-1"@ {
        base + "/.git/config"@
    } else if id == "exposed-env-1"@ {
        base + "/.env"@
    } else if id == "api-exposure-1"@ {
        base + "/swagger-ui.html"@
    } else {
        base
    }
}

/// Whether a rule holds of a response. A pattern that is no regular
/// expression holds of nothing.
pub open spec fn matcher_holds(matcher: MatcherModel, response: ResponseModel) -> bool {
    match matcher {
        MatcherModel::StatusCode(code) => response.status == code,
        MatcherModel::Contains(text) => occurs_in(response.body, text),
        MatcherModel::Regex(pattern) => regex_verdict(pattern, response.body) == Some(true),
        MatcherModel::Header(key, value) => if value.len() == 0 {
            !response.headers.contains_key(key)
        } else {
            response.headers.contains_key(key) && response.headers[key] == value
        },
    }
}

/// The evidence kept of a response: its status, and its body cut after 200
/// characters, with three dots where it was cut.
pub open spec fn evidence_of(response: ResponseModel) -> Seq<char> {
    "Status: "@ + decimal_digits(response.status as nat) + ", Body: "@ + (if response.body.len()
        > 200 {
        response.body.subrange(0, 200) + "..."@
    } else {
        response.body
    })
}

/// The outcome of probing `base` with `template`, given the response to the
/// probe, or `None` if no response came: a probe without a response found
/// nothing.
pub open spec fn finding(
    template: TemplateModel,
    base: Seq<char>,
    page: Option<ResponseModel>,
    timestamp: Seq<char>,
) -> VulnModel {
    let matched = page is Some && matcher_holds(template.matcher, page->Some_0);
    VulnModel {
        template_id: template.id,
        template_name: template.name,
        severity: template.severity,
        url: test_url(base, template.id),
        matched,
        evidence: if matched {
            Some(evidence_of(page->Some_0))
        } else {
            None
        },
        timestamp,
    }
}

/// The response to probe `i`. A probe that was not reported has none.
pub open spec fn page_at(pages: Seq<Option<ResponseModel>>, i: int) -> Option<ResponseModel> {
    if 0 <= i < pages.len() {
        pages[i]
    } else {
        None
    }
}

/// An outcome that is a finding.
pub open spec fn matched_only() -> spec_fn(VulnModel) -> Option<VulnModel> {
    |r: VulnModel|
        if r.matched {
            Some(r)
        } else {
            None
        }
}

/// How many of the outcomes are findings.
pub open spec fn matched_count(results: Seq<VulnModel>) -> nat {
    results.filter_map(matched_only()).len()
}

/// An outcome at least as grave as `min`.
pub open spec fn grave_enough(min: Severity) -> spec_fn(VulnModel) -> Option<VulnModel> {
    |r: VulnModel|
        if rank(r.severity) >= rank(min) {
            Some(r)
        } else {
            None
        }
}

/// The line that lists a template: sign, id in brackets, name.
pub open spec fn template_line(t: TemplateModel) -> Seq<char> {
    icon_of(t.severity) + " ["@ + t.id + "] "@ + t.name
}

/// The ten templates that a matcher starts with.
pub open spec fn default_templates() -> Seq<TemplateModel> {
    seq![
        TemplateModel {
            id: "dir-traversal-1"@,
            name: "Directory Traversal - Linux"@,
            severity: Severity::High,
            description: "Tests for directory traversal vulnerability"@,
            matcher: MatcherModel::Contains("root:x:0:0"@),
        },
        TemplateModel {
            id: "sql-injection-1"@,
            name: "SQL Injection - Error Based"@,
            severity: Severity::Critical,
            description: "Tests for SQL injection vulnerability"@,
            matcher: MatcherModel::Regex("(SQL syntax|mysql_fetch|PostgreSQL query)"@),
        },
        TemplateModel {
            id: "xss-reflected-1"@,
            name: "Reflected XSS"@,
            severity: Severity::High,
            description: "Tests for reflected XSS vulnerability"@,
            matcher: MatcherModel::Contains("<script>alert"@),
        },
        TemplateModel {
            id: "open-redirect-1"@,
            name: "Open Redirect"@,
            severity: Severity::Medium,
            description: "Tests for open redirect vulnerability"@,
            matcher: MatcherModel::StatusCode(302),
        },
        TemplateModel {
            id: "exposed-git-1"@,
            name: "Exposed .git Directory"@,
            severity: Severity::High,
            description: "Checks for exposed .git directory"@,
            matcher: MatcherModel::StatusCode(200),
        },
        TemplateModel {
            id: "exposed-env-1"@,
            name: "Exposed .env File"@,
            severity: Severity::Critical,
            description: "Checks for exposed .env file"@,
            matcher: MatcherModel::Contains("DB_PASSWORD"@),
        },
        TemplateModel {
            id: "debug-mode-1"@,
            name: "Debug Mode Enabled"@,
            severity: Severity::Medium,
            description: "Checks if debug mode is enabled"@,
            matcher: MatcherModel::Regex("(DEBUG|debug_mode|DEBUG_MODE).*true"@),
        },
        TemplateModel {
            id: "default-creds-1"@,
            name: "Default Admin Credentials"@,
            severity: Severity::Critical,
            description: "Tests for default admin credentials"@,
            matcher: MatcherModel::StatusCode(200),
        },
        TemplateModel {
            id: "api-exposure-1"@,
            name: "Exposed API Documentation"@,
            severity: Severity::Info,
            description: "Checks for exposed API documentation"@,
            matcher: MatcherModel::Contains("swagger"@),
        },
        TemplateModel {
            id: "missing-sec-headers-1"@,
            name: "Missing Security Headers"@,
            severity: Severity::Low,
            description: "Checks for missing security headers"@,
            matcher: MatcherModel::Header("X-Content-Type-Options"@, Seq::<char>::empty()),
        },
    ]
}

impl VulnResult {
    /// A copy of this outcome.
    pub fn duplicate(&self) -> (r: VulnResult)
        ensures
            r@ == self@,
    {
        VulnResult {
            template_id: self.template_id.clone(),
            template_name: self.template_name.clone(),
            severity: self.severity,
            url: self.url.clone(),
            matched: self.matched,
            evidence: match &self.evidence {
                Some(e) => Some(e.clone()),
                None => None,
            },
            timestamp: self.timestamp.clone(),
        }
    }
}

impl Severity {
    /// The sign shown beside this severity.
    pub fn icon(&self) -> (r: &'static str)
        ensures
            r@ == icon_of(*self),
    {
        match self {
            Severity::Critical => "🔴",
            Severity::High => "🟠",
            Severity::Medium => "🟡",
            Severity::Low => "🔵",
            Severity::Info => "⚪",
        }
    }

    /// The place of this severity in the order from `Info` up to `Critical`.
    pub fn rank(&self) -> (r: u8)
        ensures
            r == rank(*self),
    {
        match self {
            Severity::Info => 0,
            Severity::Low => 1,
            Severity::Medium => 2,
            Severity::High => 3,
            Severity::Critical => 4,
        }
    }
}

/// Builds a template from its parts.
fn template(
    id: &str,
    name: &str,
    severity: Severity,
    description: &str,
    matcher: MatcherType,
) -> (r: VulnTemplate)
    ensures
        r@ == (TemplateModel {
            id: id@,
            name: name@,
            severity,
            description: description@,
            matcher: matcher@,
        }),
{
    VulnTemplate {
        id: String::from_str(id),
        name: String::from_str(name),
        severity,
        description: String::from_str(description),
        matcher,
    }
}

/// The vulnerability matcher: its templates, in the order in which they are
/// probed.
pub struct HyrOS {
    pub templates: Vec<VulnTemplate>,
}

impl HyrOS {
    /// A matcher with the ten default templates.
    pub fn new() -> (r: TransRResult<HyrOS>)
        ensures
            r is Ok,
            r->Ok_0.templates.deep_view() == default_templates(),
    {
        let mut hyros = HyrOS { templates: Vec::new() };
        hyros.load_default_templates();
        assert(hyros.templates.deep_view() =~= default_templates());
        Ok(hyros)
    }

    /// Appends the ten default templates.
    pub fn load_default_templates(&mut self)
        ensures
            final(self).templates.deep_view() == old(self).templates.deep_view()
                + default_templates(),
    {
        let empty = String::new();
        assert(empty@ =~= Seq::<char>::empty());
        self.templates.push(
            template(
                "dir-traversal-1",
                "Directory Traversal - Linux",
                Severity::High,
                "Tests for directory traversal vulnerability",
                MatcherType::Contains(String::from_str("root:x:0:0")),
            ),
        );
        self.templates.push(
            template(
                "sql-injection-1",
                "SQL Injection - Error Based",
                Severity::Critical,
                "Tests for SQL injection vulnerability",
                MatcherType::Regex(String::from_str("(SQL syntax|mysql_fetch|PostgreSQL query)")),
            ),
        );
        self.templates.push(
            template(
                "xss-reflected-1",
                "Reflected XSS",
                Severity::High,
                "Tests for reflected XSS vulnerability",
                MatcherType::Contains(String::from_str("<script>alert")),
            ),
        );
        self.templates.push(
            template(
                "open-redirect-1",
                "Open Redirect",
                Severity::Medium,
                "Tests for open redirect vulnerability",
                MatcherType::StatusCode(302),
            ),
        );
        self.templates.push(
            template(
                "exposed-git-1",
                "Exposed .git Directory",
                Severity::High,
                "Checks for exposed .git directory",
                MatcherType::StatusCode(200),
            ),
        );
        self.templates.push(
            template(
                "exposed-env-1",
                "Exposed .env File",
                Severity::Critical,
                "Checks for exposed .env file",
                MatcherType::Contains(String::from_str("DB_PASSWORD")),
            ),
        );
        self.templates.push(
            template(
                "debug-mode-1",
                "Debug Mode Enabled",
                Severity::Medium,
                "Checks if debug mode is enabled",
                MatcherType::Regex(String::from_str("(DEBUG|debug_mode|DEBUG_MODE).*true")),
            ),
        );
        self.templates.push(
            template(
                "default-creds-1",
                "Default Admin Credentials",
                Severity::Critical,
                "Tests for default admin credentials",
                MatcherType::StatusCode(200),
            ),
        );
        self.templates.push(
            template(
                "api-exposure-1",
                "Exposed API Documentation",
                Severity::Info,
                "Checks for exposed API documentation",
                MatcherType::Contains(String::from_str("swagger")),
            ),
        );
        self.templates.push(
            template(
                "missing-sec-headers-1",
                "Missing Security Headers",
                Severity::Low,
                "Checks for missing security headers",
                MatcherType::Header(String::from_str("X-Content-Type-Options"), empty),
            ),
        );
        assert(self.templates.deep_view() =~= old(self).templates.deep_view()
            + default_templates());
    }

    /// The address that the template with the given id probes.
    pub fn build_test_url(&self, base_url: &str, template_id: &str) -> (r: String)
        ensures
            r@ == test_url(base_url@, template_id@),
    {
        let mut out = String::from_str(base_url);
        if same_text(template_id, "dir-traversal-1") {
            out.append("/../../../etc/passwd");
        } else if same_text(template_id, "sql-injection-1") {
            out.append("?id=1'");
        } else if same_text(template_id, "xss-reflected-1") {
            out.append("?q=<script>alert(1)</script>");
        } else if same_text(template_id, "exposed-git-1") {
            out.append("/.git/config");
        } else if same_text(template_id, "exposed-env-1") {
            out.append("/.env");
        } else if same_text(template_id, "api-exposure-1") {
            out.append("/swagger-ui.html");
        }
        out
    }

    /// The addresses to fetch for a scan of `base_url`: one per template, in
    /// the templates' order.
    pub fn test_urls(&self, base_url: &str) -> (r: Vec<String>)
        ensures
            r.len() == self.templates.len(),
            forall|i: int|
                0 <= i < r.len() ==> (#[trigger] r[i])@ == test_url(
                    base_url@,
                    self.templates[i].id@,
                ),
    {
        let mut out: Vec<String> = Vec::new();
        let mut i: usize = 0;
        while i < self.templates.len()
            invariant
                i <= self.templates.len(),
                out.len() == i,
                forall|k: int|
                    0 <= k < i ==> (#[trigger] out[k])@ == test_url(
                        base_url@,
                        self.templates[k].id@,
                    ),
            decreases self.templates.len() - i,
        {
            out.push(self.build_test_url(base_url, self.templates[i].id.as_str()));
            i = i + 1;
        }
        out
    }

    /// Whether a rule holds of a response.
    pub fn check_matcher(&self, matcher: &MatcherType, response: &Response) -> (r: bool)
        ensures
            r == matcher_holds(matcher@, response@),
    {
        match matcher {
            MatcherType::StatusCode(code) => response.status == *code,
            MatcherType::Contains(text) => text_contains(response.body.as_str(), text.as_str()),
            MatcherType::Regex(pattern) => {
                match regex_is_match(pattern.as_str(), response.body.as_str()) {
                    Some(found) => found,
                    None => false,
                }
            },
            MatcherType::Header(key, value) => {
                if value.as_str().unicode_len() == 0 {
                    !response.headers.contains_key(key.as_str())
                } else {
                    match response.headers.get(key.as_str()) {
                        Some(v) => same_text(v.as_str(), value.as_str()),
                        None => false,
                    }
                }
            },
        }
    }

    /// The evidence kept of a response.
    pub fn extract_evidence(&self, response: &Response) -> (r: String)
        ensures
            r@ == evidence_of(response@),
    {
        let mut out = String::from_str("Status: ");
        out.append(render_decimal(response.status as u128).as_str());
        out.append(", Body: ");
        let body = response.body.as_str();
        if body.unicode_len() > 200 {
            out.append(body.substring_char(0, 200));
            out.append("...");
        } else {
            out.append(body);
        }
        assert(out@ =~= evidence_of(response@));
        out
    }

    /// The outcome of one probe, given the response to it, or `None` if no
    /// response came. It never fails.
    pub fn test_template(
        &self,
        base_url: &str,
        template: &VulnTemplate,
        page: Option<&Response>,
    ) -> (r: TransRResult<VulnResult>)
        ensures
            r is Ok,
            r->Ok_0@ == finding(
                template@,
                base_url@,
                match page {
                    Some(p) => Some(p@),
                    None => None,
                },
                r->Ok_0.timestamp@,
            ),
    {
        let url = self.build_test_url(base_url, template.id.as_str());
        let (matched, evidence) = match page {
            Some(response) => {
                if self.check_matcher(&template.matcher, response) {
                    (true, Some(self.extract_evidence(response)))
                } else {
                    (false, None)
                }
            },
            None => (false, None),
        };
        Ok(
            VulnResult {
                template_id: template.id.clone(),
                template_name: template.name.clone(),
                severity: template.severity,
                url,
                matched,
                evidence,
                timestamp: local_timestamp(),
            },
        )
    }

    /// The outcomes of a scan of `url`, one per template: `pages[i]` is the
    /// response to the probe of template `i`, or `None` if none came.
    pub fn scan(&self, url: &str, pages: &Vec<Option<Response>>) -> (r: Vec<VulnResult>)
        ensures
            r.len() == self.templates.len(),
            forall|i: int|
                0 <= i < r.len() ==> (#[trigger] r[i])@ == finding(
                    self.templates[i]@,
                    url@,
                    page_at(pages.deep_view(), i),
                    r[i].timestamp@,
                ),
    {
        let mut out: Vec<VulnResult> = Vec::new();
        let mut i: usize = 0;
        while i < self.templates.len()
            invariant
                i <= self.templates.len(),
                out.len() == i,
                forall|k: int|
                    0 <= k < i ==> (#[trigger] out[k])@ == finding(
                        self.templates[k]@,
                        url@,
                        page_at(pages.deep_view(), k),
                        out[k].timestamp@,
                    ),
            decreases self.templates.len() - i,
        {
            let page: Option<&Response> = if i < pages.len() {
                pages[i].as_ref()
            } else {
                None
            };
            match self.test_template(url, &self.templates[i], page) {
                Ok(result) => {
                    out.push(result);
                },
                Err(_) => {
                    assert(false);
                },
            }
            i = i + 1;
        }
        out
    }

    /// One line per template: sign, id in brackets, name.
    pub fn list_templates(&self) -> (r: Vec<String>)
        ensures
            r.deep_view() == self.templates.deep_view().map_values(
                |t: TemplateModel| template_line(t),
            ),
    {
        let mut out: Vec<String> = Vec::new();
        let mut i: usize = 0;
        while i < self.templates.len()
            invariant
                i <= self.templates.len(),
                out.len() == i,
                forall|k: int|
                    0 <= k < i ==> (#[trigger] out[k])@ == template_line(self.templates[k]@),
            decreases self.templates.len() - i,
        {
            let t = &self.templates[i];
            let mut line = String::from_str(t.severity.icon());
            line.append(" [");
            line.append(t.id.as_str());
            line.append("] ");
            line.append(t.name.as_str());
            out.push(line);
            i = i + 1;
        }
        assert(out.deep_view() =~= self.templates.deep_view().map_values(
            |t: TemplateModel| template_line(t),
        ));
        out
    }

    /// Whether a finding of severity `result_sev` is at least as grave as
    /// `min_sev`.
    pub fn is_severity_sufficient(&self, result_sev: &Severity, min_sev: &Severity) -> (r: bool)
        ensures
            r == (rank(*result_sev) >= rank(*min_sev)),
    {
        result_sev.rank() >= min_sev.rank()
    }

    /// Of the given outcomes, those at least as grave as `min_severity`, in
    /// their order.
    pub fn retain_severity(&self, results: &Vec<VulnResult>, min_severity: Severity) -> (r: Vec<
        VulnResult,
    >)
        ensures
            r.deep_view() == results.deep_view().filter_map(grave_enough(min_severity)),
    {
        let ghost all = results.deep_view();
        let mut out: Vec<VulnResult> = Vec::new();
        let mut i: usize = 0;
        while i < results.len()
            invariant
                i <= results.len(),
                all == results.deep_view(),
                all.len() == results.len(),
                out.deep_view() == all.take(i as int).filter_map(grave_enough(min_severity)),
            decreases results.len() - i,
        {
            let ghost before = out.deep_view();
            proof {
                all.lemma_filter_map_take_succ(grave_enough(min_severity), i as int);
                assert(all[i as int] == results[i as int]@);
            }
            if self.is_severity_sufficient(&results[i].severity, &min_severity) {
                let kept = results[i].duplicate();
                out.push(kept);
                assert(out.deep_view() =~= before.push(kept@));
            }
            i = i + 1;
        }
        assert(all.take(i as int) =~= all);
        out
    }

    /// The outcomes of a scan that are at least as grave as `min_severity`.
    pub fn scan_with_severity(
        &self,
        url: &str,
        min_severity: Severity,
        pages: &Vec<Option<Response>>,
    ) -> (r: Vec<VulnResult>)
        ensures
            exists|all: Seq<VulnModel>|
                all.len() == self.templates.len() && (forall|i: int|
                    0 <= i < all.len() ==> #[trigger] all[i] == finding(
                        self.templates[i]@,
                        url@,
                        page_at(pages.deep_view(), i),
                        all[i].timestamp,
                    )) && r.deep_view() == all.filter_map(grave_enough(min_severity)),
    {
        let all_results = self.scan(url, pages);
        let ghost all = all_results.deep_view();
        let r = self.retain_severity(&all_results, min_severity);
        assert(all.len() == self.templates.len() && (forall|i: int|
            0 <= i < all.len() ==> #[trigger] all[i] == finding(
                self.templates[i]@,
                url@,
                page_at(pages.deep_view(), i),
                all[i].timestamp,
            )) && r.deep_view() == all.filter_map(grave_enough(min_severity)));
        r
    }

    /// How many of the outcomes are findings.
    pub fn count_matched(results: &Vec<VulnResult>) -> (n: usize)
        ensures
            n == matched_count(results.deep_view()),
    {
        let ghost all = results.deep_view();
        let mut n: usize = 0;
        let mut i: usize = 0;
        while i < results.len()
            invariant
                i <= results.len(),
                all == results.deep_view(),
                all.len() == results.len(),
                n == all.take(i as int).filter_map(matched_only()).len(),
                n <= i,
            decreases results.len() - i,
        {
            proof {
                all.lemma_filter_map_take_succ(matched_only(), i as int);
                assert(all[i as int] == results[i as int]@);
            }
            if results[i].matched {
                n = n + 1;
            }
            i = i + 1;
        }
        assert(all.take(i as int) =~= all);
        n
    }
}

/// The number of findings depends only on which outcomes are findings.
pub proof fn lemma_matched_count_by_flags(a: Seq<VulnModel>, b: Seq<VulnModel>)
    requires
        a.len() == b.len(),
        forall|i: int| 0 <= i < a.len() ==> a[i].matched == b[i].matched,
    ensures
        matched_count(a) == matched_count(b),
    decreases a.len(),
{
    if a.len() > 0 {
        lemma_matched_count_by_flags(a.drop_last(), b.drop_last());
    }
}

/// The outcomes that a scan of `url` with the default templates records
/// for the given responses, each with an empty timestamp.
pub open spec fn default_findings(url: Seq<char>, pages: Seq<Option<ResponseModel>>) -> Seq<
    VulnModel,
> {
    Seq::new(
        default_templates().len(),
        |i: int| finding(default_templates()[i], url, page_at(pages, i), Seq::<char>::empty()),
    )
}

} // verus!
