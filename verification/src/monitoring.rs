//! Inspection of the compose-driven deployment: status and log reports, the
//! Grafana readiness check, the metrics-listing parser and the service URLs.
//! The commands that produce the inspected text are run by the caller.

use crate::compose::RethConfig;
use crate::decimal::{dec_rep, u16_to_string, usize_to_string};
use crate::text::{blank, has_pattern, is_blank, str_contains};
use vstd::prelude::*;

verus! {

/// The status report built from the container listing.
pub fn status_report(output: &str) -> (r: String)
    ensures
        blank(output@) ==> r@ == "No Reth services are currently running."@,
        !blank(output@) ==> r@ == "Reth services status:\n"@ + output@,
{
    if is_blank(output) {
        String::from_str("No Reth services are currently running.")
    } else {
        let mut s = String::from_str("Reth services status:\n");
        s.append(output);
        s
    }
}

/// The status failure report around the runner's error text.
pub fn status_failure(err: &str) -> (r: String)
    ensures
        r@ == "Failed to get Reth status: "@ + err@,
{
    let mut s = String::from_str("Failed to get Reth status: ");
    s.append(err);
    s
}

/// The log report built from the fetched log text.
pub fn logs_report(output: &str) -> (r: String)
    ensures
        blank(output@) ==> r@ == "No logs available from Reth node."@,
        !blank(output@) ==> r@ == "Reth node logs:\n"@ + output@,
{
    if is_blank(output) {
        String::from_str("No logs available from Reth node.")
    } else {
        let mut s = String::from_str("Reth node logs:\n");
        s.append(output);
        s
    }
}

/// The log-fetch failure report around the runner's error text.
pub fn logs_failure(err: &str) -> (r: String)
    ensures
        r@ == "Failed to get Reth logs: "@ + err@,
{
    let mut s = String::from_str("Failed to get Reth logs: ");
    s.append(err);
    s
}

/// The compose arguments of the log fetch: an optional tail count before the
/// service name.
pub fn compose_logs_args(lines: &Option<usize>) -> (args: Vec<String>)
    ensures
        (*lines) matches Some(n) ==> crate::container::seq_views(args@) == seq![
            "logs"@,
            "--tail"@,
            dec_rep(n as nat),
            "reth"@,
        ],
        (*lines) is None ==> crate::container::seq_views(args@) == seq!["logs"@, "reth"@],
{
    let mut args: Vec<String> = Vec::new();
    args.push(String::from_str("logs"));
    match lines {
        Some(n) => {
            args.push(String::from_str("--tail"));
            args.push(usize_to_string(*n));
            args.push(String::from_str("reth"));
            proof {
                assert(crate::container::seq_views(args@) =~~= seq![
                    "logs"@,
                    "--tail"@,
                    dec_rep(*n as nat),
                    "reth"@,
                ]);
            }
        },
        None => {
            args.push(String::from_str("reth"));
            proof {
                assert(crate::container::seq_views(args@) =~~= seq!["logs"@, "reth"@]);
            }
        },
    }
    args
}

/// The Grafana readiness report: the dashboard is ready exactly when the
/// container listing marks it "Up".
pub fn grafana_report(status: &str, grafana_port: u16) -> (r: Result<String, String>)
    ensures
        has_pattern(status@, "Up"@) ==> (r matches Ok(m) && m@
            == "Grafana is running and available at http://localhost:"@ + dec_rep(
            grafana_port as nat,
        )
            + "\nLogin with username: admin, password: admin\nThe Reth dashboard should be available after login."@),
        !has_pattern(status@, "Up"@) ==> (r matches Err(m) && m@
            == "Grafana is not running. Please start the Reth node first."@),
{
    if str_contains(status, "Up") {
        let mut m = String::from_str("Grafana is running and available at http://localhost:");
        let port = u16_to_string(grafana_port);
        m.append(port.as_str());
        m.append(
            "\nLogin with username: admin, password: admin\nThe Reth dashboard should be available after login.",
        );
        Ok(m)
    } else {
        Err(String::from_str("Grafana is not running. Please start the Reth node first."))
    }
}

/// The Grafana failure report around the runner's error text.
pub fn grafana_failure(err: &str) -> (r: String)
    ensures
        r@ == "Failed to check Grafana status: "@ + err@,
{
    let mut s = String::from_str("Failed to check Grafana status: ");
    s.append(err);
    s
}

/// Whether the node counts as running for the metrics fetch: a status answer
/// that is not the "no services" report.
pub fn metrics_precheck(status: &Result<String, String>) -> (ok: bool)
    ensures
        ok <==> (status matches Ok(s) && !has_pattern(s@, "No Reth services"@)),
{
    match status {
        Ok(s) => !str_contains(s.as_str(), "No Reth services"),
        Err(_) => false,
    }
}

/// The refusal handed back when the node is not running.
pub fn metrics_not_running_message() -> (r: String)
    ensures
        r@ == "Reth node is not running. Please start it first."@,
{
    String::from_str("Reth node is not running. Please start it first.")
}

/// The metrics failure report around the runner's error text.
pub fn metrics_failure(err: &str) -> (r: String)
    ensures
        r@ == "Failed to get metrics: "@ + err@,
{
    let mut s = String::from_str("Failed to get metrics: ");
    s.append(err);
    s
}

/// The address the metrics endpoint is fetched from.
pub fn metrics_endpoint(monitoring_port: u16) -> (r: String)
    ensures
        r@ == "localhost:"@ + dec_rep(monitoring_port as nat),
{
    let mut s = String::from_str("localhost:");
    let port = u16_to_string(monitoring_port);
    s.append(port.as_str());
    s
}

/// The position of the first occurrence of `c` in `s`, or `s.len()` when `c`
/// does not occur.
pub open spec fn index_of_char(s: Seq<char>, c: char) -> nat
    decreases s.len(),
{
    if s.len() == 0 {
        0
    } else if s[0] == c {
        0
    } else {
        1 + index_of_char(s.skip(1), c)
    }
}

pub proof fn lemma_index_of_char_le_len(s: Seq<char>, c: char)
    ensures
        index_of_char(s, c) <= s.len(),
    decreases s.len(),
{
    if s.len() > 0 && s[0] != c {
        lemma_index_of_char_le_len(s.skip(1), c);
    }
}

/// Finds the first occurrence of `c` in `s` between `from` and `to`,
/// answering `to` when there is none.
fn find_char_in(s: &str, from: usize, to: usize, c: char) -> (idx: usize)
    requires
        from <= to <= s@.len(),
    ensures
        from <= idx <= to,
        idx - from == index_of_char(s@.subrange(from as int, to as int), c),
{
    let s_len = s.unicode_len();
    let mut i: usize = from;
    while i < to
        invariant
            s_len == s@.len(),
            from <= i <= to <= s@.len(),
            index_of_char(s@.subrange(from as int, to as int), c) == (i - from) + index_of_char(
                s@.subrange(i as int, to as int),
                c,
            ),
        decreases to - i,
    {
        proof {
            assert(s@.subrange(i as int, to as int)[0] == s@[i as int]);
        }
        if s.get_char(i) == c {
            return i;
        }
        proof {
            assert(s@.subrange(i as int, to as int).skip(1) =~= s@.subrange(i + 1, to as int));
        }
        i += 1;
    }
    proof {
        assert(s@.subrange(to as int, to as int) =~= Seq::<char>::empty());
    }
    to
}

/// The entry one metrics line yields: nothing for an empty or comment line
/// or one without a space; otherwise the key before the first space and the
/// value after it.
pub open spec fn metric_entry(line: Seq<char>) -> Seq<(Seq<char>, Seq<char>)> {
    if line.len() == 0 || line[0] == '#' {
        Seq::empty()
    } else {
        let p = index_of_char(line, ' ');
        if p >= line.len() {
            Seq::empty()
        } else {
            seq![(line.subrange(0, p as int), line.subrange(p as int + 1, line.len() as int))]
        }
    }
}

/// A newline-terminated line as the line iterator yields it: the trailing
/// carriage return of a CRLF ending is dropped.
pub open spec fn line_text(raw: Seq<char>) -> Seq<char> {
    if raw.len() > 0 && raw[raw.len() - 1] == '\r' {
        raw.drop_last()
    } else {
        raw
    }
}

/// The key/value entries of a metrics listing, line by line. A final line
/// without a newline is taken as it stands.
pub open spec fn metrics_of(s: Seq<char>) -> Seq<(Seq<char>, Seq<char>)>
    decreases s.len(),
{
    if s.len() == 0 {
        Seq::empty()
    } else {
        let k = index_of_char(s, '\n');
        if k >= s.len() {
            metric_entry(s)
        } else {
            metric_entry(line_text(s.subrange(0, k as int))) + metrics_of(s.skip(k as int + 1))
        }
    }
}

/// The views of a sequence of string pairs.
pub open spec fn pair_views(v: Seq<(String, String)>) -> Seq<(Seq<char>, Seq<char>)> {
    v.map_values(|p: (String, String)| (p.0@, p.1@))
}

/// Parses a metrics listing into its key/value entries, in listing order:
/// comment and empty lines are skipped, and each remaining line with a space
/// splits at its first space into key and value.
pub fn parse_metrics(output: &str) -> (r: Vec<(String, String)>)
    ensures
        pair_views(r@) == metrics_of(output@),
{
    let len = output.unicode_len();
    let mut r: Vec<(String, String)> = Vec::new();
    let mut pos: usize = 0;
    proof {
        assert(output@.skip(0) =~= output@);
        assert(pair_views(r@) + metrics_of(output@) =~= metrics_of(output@));
    }
    while pos < len
        invariant
            len == output@.len(),
            pos <= len,
            metrics_of(output@) == pair_views(r@) + metrics_of(output@.skip(pos as int)),
        decreases len - pos,
    {
        let ghost rest = output@.skip(pos as int);
        proof {
            assert(output@.subrange(pos as int, len as int) =~= rest);
        }
        let nl = find_char_in(output, pos, len, '\n');
        let line_end: usize = if nl < len && nl > pos && output.get_char(nl - 1) == '\r' {
            nl - 1
        } else {
            nl
        };
        let ghost line = if nl == len {
            rest
        } else {
            line_text(output@.subrange(pos as int, nl as int))
        };
        proof {
            if nl < len {
                assert(output@.subrange(pos as int, nl as int) =~= rest.subrange(
                    0,
                    (nl - pos) as int,
                ));
                if nl > pos {
                    assert(output@.subrange(pos as int, nl as int)[(nl - pos - 1) as int]
                        == output@[nl - 1]);
                }
                if nl > pos && output@[nl - 1] == '\r' {
                    assert(line =~= output@.subrange(pos as int, (nl - 1) as int));
                }
            }
            assert(line =~= output@.subrange(pos as int, line_end as int));
        }
        let ghost before = r@;
        if line_end == pos {
            assert(metric_entry(line) =~= Seq::<(Seq<char>, Seq<char>)>::empty());
        } else if output.get_char(pos) == '#' {
            proof {
                assert(line[0] == output@[pos as int]);
            }
        } else {
            proof {
                assert(line[0] == output@[pos as int]);
            }
            let sp = find_char_in(output, pos, line_end, ' ');
            proof {
                assert(output@.subrange(pos as int, line_end as int) =~= line);
            }
            if sp < line_end {
                let key = output.substring_char(pos, sp).to_owned();
                let value = output.substring_char(sp + 1, line_end).to_owned();
                proof {
                    assert(key@ =~= line.subrange(0, (sp - pos) as int));
                    assert(value@ =~= line.subrange((sp - pos) as int + 1, line.len() as int));
                }
                r.push((key, value));
                proof {
                    assert(metric_entry(line) =~= seq![(key@, value@)]);
                    assert(pair_views(r@) =~= pair_views(before).push((key@, value@)));
                }
            }
        }
        let new_pos: usize = if nl < len {
            nl + 1
        } else {
            len
        };
        proof {
            if nl < len {
                assert(rest.skip((nl - pos) as int + 1) =~= output@.skip(new_pos as int));
                assert(metrics_of(rest) =~= metric_entry(line) + metrics_of(
                    output@.skip(new_pos as int),
                ));
            } else {
                assert(output@.skip(new_pos as int) =~= Seq::<char>::empty());
                assert(metrics_of(rest) =~= metric_entry(line) + metrics_of(
                    output@.skip(new_pos as int),
                ));
            }
            assert(pair_views(r@) =~= pair_views(before) + metric_entry(line));
            assert(pair_views(r@) + metrics_of(output@.skip(new_pos as int)) =~= pair_views(before)
                + metrics_of(rest));
        }
        pos = new_pos;
    }
    proof {
        assert(output@.skip(pos as int) =~= Seq::<char>::empty());
        assert(pair_views(r@) + metrics_of(Seq::<char>::empty()) =~= pair_views(r@));
    }
    r
}

/// The addresses of the deployment's services: the Grafana dashboard, the
/// Prometheus server and the metrics endpoint.
pub fn service_urls(config: &RethConfig) -> (urls: Vec<(String, String)>)
    ensures
        urls@.len() == 3,
        urls@[0].0@ == "grafana"@,
        urls@[0].1@ == "http://localhost:"@ + dec_rep(config.grafana_port as nat),
        urls@[1].0@ == "prometheus"@,
        urls@[1].1@ == "http://localhost:9090"@,
        urls@[2].0@ == "metrics"@,
        urls@[2].1@ == "http://localhost:"@ + dec_rep(config.monitoring_port as nat),
{
    let mut urls: Vec<(String, String)> = Vec::new();
    let mut grafana = String::from_str("http://localhost:");
    let gport = u16_to_string(config.grafana_port);
    grafana.append(gport.as_str());
    urls.push((String::from_str("grafana"), grafana));
    urls.push((String::from_str("prometheus"), String::from_str("http://localhost:9090")));
    let mut metrics = String::from_str("http://localhost:");
    let mport = u16_to_string(config.monitoring_port);
    metrics.append(mport.as_str());
    urls.push((String::from_str("metrics"), metrics));
    urls
}

} // verus!
