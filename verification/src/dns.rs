//! DNS servers of a network service: reading what `networksetup` prints,
//! planning the commands that change them, and the flush of the resolver
//! cache.

use crate::command::{
    invoke, owned, result_text, spec_invoke, step_views, Invocation, Plan, PlanView, Step,
    StepView,
};
use crate::text::{
    append, append_str, chars_of, contains, join, lemma_filter_map_all, lines, spec_contains,
    spec_join, spec_lines,
    spec_trim, string_of, strings, texts, trim,
};
use vstd::prelude::*;

verus! {

/// The DNS servers of a network service.
#[derive(Debug, PartialEq, Eq)]
pub struct DnsSettings {
    pub servers: Vec<String>,
    pub service_name: String,
}

/// What a `DnsSettings` holds, as mathematical values.
pub struct DnsSettingsView {
    pub servers: Seq<Seq<char>>,
    pub service_name: Seq<char>,
}

impl View for DnsSettings {
    type V = DnsSettingsView;

    open spec fn view(&self) -> DnsSettingsView {
        DnsSettingsView { servers: strings(self.servers@), service_name: self.service_name@ }
    }
}

/// The step that asks for the DNS servers of `service`.
pub open spec fn spec_dns_query_step(service: Seq<char>) -> StepView {
    StepView {
        invocation: spec_invoke("networksetup"@, seq!["-getdnsservers"@, service]),
        failure: Some("Failed to execute command: "@),
    }
}

/// Builds the step that asks for the DNS servers of `service`.
pub fn dns_query_step(service: &str) -> (step: Step)
    ensures
        step@ == spec_dns_query_step(service@),
{
    let inv = invoke("networksetup", &["-getdnsservers", service]);
    assert(inv@.args =~= seq!["-getdnsservers"@, service@]);
    Step::required(inv, "Failed to execute command: ")
}

/// The server that a line of the answer names: the trimmed line, unless it
/// is empty or says that there aren't any servers.
pub open spec fn spec_dns_server(line: Seq<char>) -> Option<Seq<char>> {
    let name = spec_trim(line);
    if name.len() > 0 && !spec_contains(name, "aren't any"@) && !spec_contains(
        name,
        "There aren't"@,
    ) {
        Some(name)
    } else {
        None
    }
}

/// The servers that the given lines name, in order.
pub open spec fn spec_dns_servers_in(lines: Seq<Seq<char>>) -> Seq<Seq<char>> {
    lines.filter_map(|l: Seq<char>| spec_dns_server(l))
}

/// The servers that the answer to the query names, in order.
pub open spec fn spec_dns_servers(output: Seq<char>) -> Seq<Seq<char>> {
    spec_dns_servers_in(spec_lines(output))
}

/// No server that is read is without a name.
pub proof fn lemma_dns_servers_named(output: Seq<char>)
    ensures
        forall|k: int|
            0 <= k < spec_dns_servers(output).len() ==> (#[trigger] spec_dns_servers(
                output,
            )[k]).len() > 0,
{
    lemma_filter_map_all(
        spec_lines(output),
        |l: Seq<char>| spec_dns_server(l),
        |name: Seq<char>| name.len() > 0,
    );
}

/// Reads the DNS servers of `service` from what `networksetup` prints for
/// it.
pub fn dns_settings(service: &str, output: &str) -> (settings: DnsSettings)
    ensures
        settings@ == (DnsSettingsView {
            servers: spec_dns_servers(output@),
            service_name: service@,
        }),
{
    let text = chars_of(output);
    let all = lines(text.as_slice());
    let none = chars_of("aren't any");
    let there = chars_of("There aren't");
    let mut servers: Vec<String> = Vec::new();
    let mut i: usize = 0;
    while i < all.len()
        invariant
            i <= all.len(),
            none@ == "aren't any"@,
            there@ == "There aren't"@,
            strings(servers@) == spec_dns_servers_in(texts(all@).take(i as int)),
        decreases all.len() - i,
    {
        assert(texts(all@).take(i + 1).drop_last() =~= texts(all@).take(i as int));
        let name = trim(all[i].as_slice());
        if name.len() > 0 && !contains(name.as_slice(), none.as_slice()) && !contains(
            name.as_slice(),
            there.as_slice(),
        ) {
            servers.push(string_of(name.as_slice()));
        }
        i += 1;
    }
    assert(texts(all@).take(all@.len() as int) =~= texts(all@));
    DnsSettings { servers, service_name: service.to_owned() }
}

/// The step that sets the DNS servers of `service`. The word `Empty` in
/// place of the servers clears them.
pub open spec fn spec_set_dns_step(service: Seq<char>, servers: Seq<Seq<char>>) -> StepView {
    StepView {
        invocation: spec_invoke(
            "networksetup"@,
            seq!["-setdnsservers"@, service] + if servers.len() == 0 {
                seq!["Empty"@]
            } else {
                servers
            },
        ),
        failure: Some("Failed to execute command: "@),
    }
}

/// Builds the step that sets the DNS servers of `service`.
pub fn set_dns_step(service: &str, servers: &Vec<String>) -> (step: Step)
    ensures
        step@ == spec_set_dns_step(service@, strings(servers@)),
{
    let mut args = owned(&["-setdnsservers", service]);
    assert(strings(args@) =~= seq!["-setdnsservers"@, service@]);
    if servers.len() == 0 {
        args.push("Empty".to_owned());
        assert(strings(args@) =~= seq!["-setdnsservers"@, service@] + seq!["Empty"@]);
    } else {
        let mut i: usize = 0;
        while i < servers.len()
            invariant
                i <= servers.len(),
                strings(args@) == seq!["-setdnsservers"@, service@] + strings(servers@).take(
                    i as int,
                ),
            decreases servers.len() - i,
        {
            let ghost before = strings(args@);
            let server = servers[i].clone();
            args.push(server);
            assert(strings(args@) =~= before.push(servers@[i as int]@));
            i += 1;
        }
        assert(strings(servers@).take(servers@.len() as int) =~= strings(servers@));
    }
    let inv = Invocation { program: "networksetup".to_owned(), args, directory: None };
    Step::required(inv, "Failed to execute command: ")
}

/// What `{:?}` prints for a string: the string between double quotes, with
/// the characters escaped that Rust escapes in a string literal.
pub uninterp spec fn spec_debug_str(s: Seq<char>) -> Seq<char>;

/// `format!("{:?}", s)` for a string `s`: the `Debug` form of `str`. The
/// contract gives that form a name and claims nothing more of it.
#[verifier::external_body]
fn debug_str(s: &str) -> (text: String)
    ensures
        text@ == spec_debug_str(s@),
{
    format!("{:?}", s)
}

/// What is reported once the servers of `service` have been set, given the
/// `Debug` form of each server: the forms stand in square brackets, with a
/// comma and a space between each two.
pub open spec fn spec_servers_set(rendered: Seq<Seq<char>>, service: Seq<char>) -> Seq<char> {
    "DNS servers set to ["@ + spec_join(rendered, ", "@) + "] for "@ + service
}

/// Writes the message that reports the servers set for `service`.
/// `rendered` holds the `Debug` form of each server.
pub fn servers_set(rendered: &Vec<String>, service: &str) -> (message: String)
    ensures
        message@ == spec_servers_set(strings(rendered@), service@),
{
    let mut forms: Vec<Vec<char>> = Vec::new();
    let mut i: usize = 0;
    while i < rendered.len()
        invariant
            i <= rendered.len(),
            texts(forms@) == strings(rendered@).take(i as int),
        decreases rendered.len() - i,
    {
        let ghost before = texts(forms@);
        let form = chars_of(rendered[i].as_str());
        forms.push(form);
        assert(texts(forms@) =~= before.push(form@));
        i += 1;
    }
    assert(strings(rendered@).take(rendered@.len() as int) =~= strings(rendered@));
    let mut message = chars_of("DNS servers set to [");
    let listed = join(&forms, chars_of(", ").as_slice());
    append(&mut message, listed.as_slice());
    append_str(&mut message, "] for ");
    append_str(&mut message, service);
    string_of(message.as_slice())
}

/// The `Debug` form of each of the given strings.
pub open spec fn spec_debug_forms(items: Seq<Seq<char>>) -> Seq<Seq<char>> {
    items.map_values(|s: Seq<char>| spec_debug_str(s))
}

/// How the setting of the DNS servers of `service` ended, given whether
/// the command succeeded and what it wrote to its error stream.
pub open spec fn spec_set_dns_outcome(
    service: Seq<char>,
    servers: Seq<Seq<char>>,
    succeeded: bool,
    stderr: Seq<char>,
) -> Result<Seq<char>, Seq<char>> {
    if !succeeded {
        Err("Failed to set DNS servers: "@ + stderr)
    } else if servers.len() == 0 {
        Ok("DNS servers cleared for "@ + service)
    } else {
        Ok(spec_servers_set(spec_debug_forms(servers), service))
    }
}

/// Tells how the setting of the DNS servers of `service` ended.
pub fn set_dns_outcome(service: &str, servers: &Vec<String>, succeeded: bool, stderr: &str) -> (r:
    Result<String, String>)
    ensures
        result_text(r) == spec_set_dns_outcome(service@, strings(servers@), succeeded, stderr@),
{
    if !succeeded {
        let mut message = chars_of("Failed to set DNS servers: ");
        append_str(&mut message, stderr);
        return Err(string_of(message.as_slice()));
    }
    if servers.len() == 0 {
        let mut message = chars_of("DNS servers cleared for ");
        append_str(&mut message, service);
        return Ok(string_of(message.as_slice()));
    }
    let mut rendered: Vec<String> = Vec::new();
    let mut i: usize = 0;
    while i < servers.len()
        invariant
            i <= servers.len(),
            strings(rendered@) == spec_debug_forms(strings(servers@)).take(i as int),
        decreases servers.len() - i,
    {
        let ghost before = strings(rendered@);
        let form = debug_str(servers[i].as_str());
        rendered.push(form);
        assert(strings(rendered@) =~= before.push(form@));
        i += 1;
    }
    assert(spec_debug_forms(strings(servers@)).take(servers@.len() as int) =~= spec_debug_forms(
        strings(servers@),
    ));
    Ok(servers_set(&rendered, service))
}

/// The plan that flushes the resolver cache and then asks the multicast
/// DNS responder to start afresh. Whether the responder could be asked
/// does not matter.
pub open spec fn spec_flush_plan() -> PlanView {
    PlanView {
        steps: seq![
            StepView {
                invocation: spec_invoke("dscacheutil"@, seq!["-flushcache"@]),
                failure: Some("Failed to flush DNS cache: "@),
            },
            StepView {
                invocation: spec_invoke("killall"@, seq!["-HUP"@, "mDNSResponder"@]),
                failure: None,
            },
        ],
        success: "DNS cache flushed successfully"@,
    }
}

/// Plans the flush of the resolver cache.
pub fn flush_plan() -> (plan: Plan)
    ensures
        plan@ == spec_flush_plan(),
{
    let flush = invoke("dscacheutil", &["-flushcache"]);
    assert(flush@.args =~= seq!["-flushcache"@]);
    let restart = invoke("killall", &["-HUP", "mDNSResponder"]);
    assert(restart@.args =~= seq!["-HUP"@, "mDNSResponder"@]);
    let first = Step::required(flush, "Failed to flush DNS cache: ");
    let second = Step::optional(restart);
    let mut steps: Vec<Step> = Vec::new();
    steps.push(first);
    steps.push(second);
    assert(step_views(steps@) =~= seq![first@, second@]);
    Plan { steps, success: "DNS cache flushed successfully".to_owned() }
}

} // verus!
