//! The health-check engine: turns the configured probe targets and the
//! outcome of each probe into an ordered failure report.

use vstd::prelude::*;
use vstd::string::*;
use crate::config::Config;
use crate::monitor::utils::{md_escape, ToMarkdown};
use crate::text::{dec_str, u64_to_string};

verus! {

/// A probe that posts a body to a URL.
#[derive(Clone, Debug)]
pub struct Post {
    pub url: String,
    pub body: String,
    pub content_type: String,
}

/// A probe that fetches a URL.
#[derive(Clone, Debug)]
pub struct Get {
    pub url: String,
}

/// One configured probe target.
#[derive(Clone, Debug)]
pub enum RouteTest {
    POST(Post),
    GET(Get),
}

/// What one probe ultimately produced: the status of the first response
/// received, or a transport failure after the retry budget was exhausted.
#[derive(Clone, Copy, Debug)]
pub enum ProbeOutcome {
    Response { status: u16 },
    TransportFailure,
}

/// The URL a probe targets.
pub open spec fn route_url(t: RouteTest) -> Seq<char> {
    match t {
        RouteTest::POST(p) => p.url@,
        RouteTest::GET(g) => g.url@,
    }
}

/// The method name a probe's failure line shows.
pub open spec fn route_method(t: RouteTest) -> Seq<char> {
    match t {
        RouteTest::POST(_) => "POST"@,
        RouteTest::GET(_) => "GET"@,
    }
}

/// Whether a response status counts as probe success.
pub open spec fn is_success_status(status: u16) -> bool {
    200 <= status <= 299
}

/// The failure line one probe contributes: none on a success response, a
/// line naming the URL and the status on any other response, and a line
/// naming the URL alone when no response came back at all.
pub open spec fn probe_line_spec(t: RouteTest, o: ProbeOutcome) -> Option<Seq<char>> {
    match o {
        ProbeOutcome::Response { status } => if is_success_status(status) {
            None
        } else {
            Some(
                md_escape(
                    "❌ The url "@ + route_method(t) + " ["@ + route_url(t)
                        + "] fails and return an status "@ + dec_str(status as nat) + "."@,
                ),
            )
        },
        ProbeOutcome::TransportFailure => Some(
            md_escape("❌ The url "@ + route_method(t) + " ["@ + route_url(t) + "] fails."@),
        ),
    }
}

/// The report for a list of probes, one outcome each, in configuration
/// order.
pub open spec fn routes_report_spec(ts: Seq<RouteTest>, os: Seq<ProbeOutcome>) -> Seq<Seq<char>>
    decreases ts.len(),
{
    if ts.len() == 0 || os.len() == 0 {
        Seq::empty()
    } else {
        routes_report_spec(ts.drop_last(), os.drop_last()) + match probe_line_spec(
            ts.last(),
            os.last(),
        ) {
            Some(l) => seq![l],
            None => Seq::empty(),
        }
    }
}

/// The failure line one certificate check contributes.
pub open spec fn cert_line_spec(g: Get) -> Seq<char> {
    md_escape("❌ Error with cert, url: "@ + g.url@ + "."@)
}

/// The report for the certificate hostnames, one validity verdict each.
pub open spec fn certs_report_spec(gs: Seq<Get>, oks: Seq<bool>) -> Seq<Seq<char>>
    decreases gs.len(),
{
    if gs.len() == 0 || oks.len() == 0 {
        Seq::empty()
    } else {
        certs_report_spec(gs.drop_last(), oks.drop_last()) + if oks.last() {
            Seq::empty()
        } else {
            seq![cert_line_spec(gs.last())]
        }
    }
}

/// The configured probes of an optional list.
pub open spec fn opt_routes(o: Option<Vec<RouteTest>>) -> Seq<RouteTest> {
    match o {
        Some(v) => v@,
        None => Seq::empty(),
    }
}

/// The configured hostnames of an optional list.
pub open spec fn opt_gets(o: Option<Vec<Get>>) -> Seq<Get> {
    match o {
        Some(v) => v@,
        None => Seq::empty(),
    }
}

/// Builds the failure line for one probe, already escaped, or nothing on a
/// success response.
pub fn route_failure_line(t: &RouteTest, o: &ProbeOutcome) -> (r: Option<String>)
    ensures
        match r {
            Some(l) => probe_line_spec(*t, *o) == Some(l@),
            None => probe_line_spec(*t, *o) is None,
        },
{
    match o {
        ProbeOutcome::Response { status } => {
            if *status >= 200 && *status <= 299 {
                None
            } else {
                let mut line = String::from_str("❌ The url ");
                match t {
                    RouteTest::POST(p) => {
                        line.append("POST");
                        line.append(" [");
                        line.append(p.url.as_str());
                    },
                    RouteTest::GET(g) => {
                        line.append("GET");
                        line.append(" [");
                        line.append(g.url.as_str());
                    },
                }
                line.append("] fails and return an status ");
                let digits = u64_to_string(*status as u64);
                line.append(digits.as_str());
                line.append(".");
                assert(line@ =~= "❌ The url "@ + route_method(*t) + " ["@ + route_url(*t)
                    + "] fails and return an status "@ + dec_str(*status as nat) + "."@);
                Some(line.parse_text_to_markdown())
            }
        },
        ProbeOutcome::TransportFailure => {
            let mut line = String::from_str("❌ The url ");
            match t {
                RouteTest::POST(p) => {
                    line.append("POST");
                    line.append(" [");
                    line.append(p.url.as_str());
                },
                RouteTest::GET(g) => {
                    line.append("GET");
                    line.append(" [");
                    line.append(g.url.as_str());
                },
            }
            line.append("] fails.");
            assert(line@ =~= "❌ The url "@ + route_method(*t) + " ["@ + route_url(*t)
                + "] fails."@);
            Some(line.parse_text_to_markdown())
        },
    }
}

/// Builds the report for a list of probes and their outcomes, in order.
pub fn check_routes(ts: &Vec<RouteTest>, os: &Vec<ProbeOutcome>) -> (r: Vec<String>)
    requires
        ts@.len() == os@.len(),
    ensures
        r.deep_view() == routes_report_spec(ts@, os@),
{
    let mut out: Vec<String> = Vec::new();
    let mut i: usize = 0;
    proof {
        assert(out.deep_view() =~= routes_report_spec(ts@.take(0), os@.take(0)));
    }
    while i < ts.len()
        invariant
            0 <= i <= ts@.len(),
            ts@.len() == os@.len(),
            out.deep_view() == routes_report_spec(ts@.take(i as int), os@.take(i as int)),
        decreases ts@.len() - i,
    {
        if let Some(line) = route_failure_line(&ts[i], &os[i]) {
            out.push(line);
        }
        proof {
            assert(ts@.take(i + 1).drop_last() =~= ts@.take(i as int));
            assert(os@.take(i + 1).drop_last() =~= os@.take(i as int));
            assert(ts@.take(i + 1).last() == ts@[i as int]);
            assert(os@.take(i + 1).last() == os@[i as int]);
            assert(out.deep_view() =~= routes_report_spec(ts@.take(i + 1), os@.take(i + 1)));
        }
        i = i + 1;
    }
    proof {
        assert(ts@.take(ts@.len() as int) =~= ts@);
        assert(os@.take(os@.len() as int) =~= os@);
    }
    out
}

/// The health-check engine over one configuration snapshot.
pub struct WebsiteService {
    configs: Config,
}

impl WebsiteService {
    /// The configuration snapshot the engine was created with.
    pub closed spec fn spec_configs(&self) -> Config {
        self.configs
    }

    pub fn new(configs: Config) -> (r: WebsiteService)
        ensures
            r.spec_configs() == configs,
    {
        WebsiteService { configs }
    }

    /// The report of the API probes, given each probe's outcome.
    pub fn api_vitally(&self, outcomes: &Vec<ProbeOutcome>) -> (r: Vec<String>)
        requires
            outcomes@.len() == opt_routes(self.spec_configs().api_tests).len(),
        ensures
            r.deep_view() == routes_report_spec(opt_routes(self.spec_configs().api_tests), outcomes@),
    {
        match &self.configs.api_tests {
            Some(tests) => check_routes(tests, outcomes),
            None => Vec::new(),
        }
    }

    /// The report of the frontend probes, given each probe's outcome.
    pub fn frontend_vitaly(&self, outcomes: &Vec<ProbeOutcome>) -> (r: Vec<String>)
        requires
            outcomes@.len() == opt_routes(self.spec_configs().frontend_tests).len(),
        ensures
            r.deep_view() == routes_report_spec(
                opt_routes(self.spec_configs().frontend_tests),
                outcomes@,
            ),
    {
        match &self.configs.frontend_tests {
            Some(tests) => check_routes(tests, outcomes),
            None => Vec::new(),
        }
    }

    /// The report of the certificate checks, given each hostname's validity
    /// verdict.
    pub fn certificates_vitaly(&self, results: &Vec<bool>) -> (r: Vec<String>)
        requires
            results@.len() == opt_gets(self.spec_configs().ssl_tests).len(),
        ensures
            r.deep_view() == certs_report_spec(opt_gets(self.spec_configs().ssl_tests), results@),
    {
        let mut out: Vec<String> = Vec::new();
        match &self.configs.ssl_tests {
            Some(gets) => {
                let mut i: usize = 0;
                proof {
                    assert(out.deep_view() =~= certs_report_spec(gets@.take(0), results@.take(0)));
                }
                while i < gets.len()
                    invariant
                        0 <= i <= gets@.len(),
                        gets@.len() == results@.len(),
                        out.deep_view() == certs_report_spec(
                            gets@.take(i as int),
                            results@.take(i as int),
                        ),
                    decreases gets@.len() - i,
                {
                    if !results[i] {
                        let mut line = String::from_str("❌ Error with cert, url: ");
                        line.append(gets[i].url.as_str());
                        line.append(".");
                        assert(line@ =~= "❌ Error with cert, url: "@ + gets@[i as int].url@
                            + "."@);
                        out.push(line.parse_text_to_markdown());
                    }
                    proof {
                        assert(gets@.take(i + 1).drop_last() =~= gets@.take(i as int));
                        assert(results@.take(i + 1).drop_last() =~= results@.take(i as int));
                        assert(gets@.take(i + 1).last() == gets@[i as int]);
                        assert(results@.take(i + 1).last() == results@[i as int]);
                        assert(out.deep_view() =~= certs_report_spec(
                            gets@.take(i + 1),
                            results@.take(i + 1),
                        ));
                    }
                    i = i + 1;
                }
                proof {
                    assert(gets@.take(gets@.len() as int) =~= gets@);
                    assert(results@.take(results@.len() as int) =~= results@);
                }
            },
            None => {
            },
        }
        out
    }

    /// The whole probe pass: API report, then frontend report, then
    /// certificate report.
    pub fn summary(
        &self,
        api_outcomes: &Vec<ProbeOutcome>,
        frontend_outcomes: &Vec<ProbeOutcome>,
        cert_results: &Vec<bool>,
    ) -> (r: Vec<String>)
        requires
            api_outcomes@.len() == opt_routes(self.spec_configs().api_tests).len(),
            frontend_outcomes@.len() == opt_routes(self.spec_configs().frontend_tests).len(),
            cert_results@.len() == opt_gets(self.spec_configs().ssl_tests).len(),
        ensures
            r.deep_view() == routes_report_spec(
                opt_routes(self.spec_configs().api_tests),
                api_outcomes@,
            ) + routes_report_spec(opt_routes(self.spec_configs().frontend_tests), frontend_outcomes@)
                + certs_report_spec(opt_gets(self.spec_configs().ssl_tests), cert_results@),
    {
        let mut errors = self.api_vitally(api_outcomes);
        let mut frontend = self.frontend_vitaly(frontend_outcomes);
        let mut certs = self.certificates_vitaly(cert_results);
        errors.append(&mut frontend);
        errors.append(&mut certs);
        proof {
            assert(errors.deep_view() =~= routes_report_spec(
                opt_routes(self.spec_configs().api_tests),
                api_outcomes@,
            ) + routes_report_spec(opt_routes(self.spec_configs().frontend_tests), frontend_outcomes@)
                + certs_report_spec(opt_gets(self.spec_configs().ssl_tests), cert_results@));
        }
        errors
    }
}

} // verus!
