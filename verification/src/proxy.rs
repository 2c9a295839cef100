//! Proxy settings of a network service: reading what `networksetup` prints
//! and planning the commands that change them.

use crate::command::{
    invoke, option_str, spec_invoke, step_views, Invocation, InvocationView, Plan, PlanView,
    Step, StepView,
};
use crate::text::{
    append_str, chars_of, contains, decimal, lines, parse_u16, spec_contains, spec_decimal,
    spec_lines, spec_parse_u16, spec_starts_with, spec_strip_label, spec_trim, starts_with,
    string_of, strip_label, texts, trim,
};
use vstd::prelude::*;

verus! {

/// One proxy of a network service.
#[derive(Debug, PartialEq, Eq)]
pub struct ProxyConfig {
    pub enabled: bool,
    pub server: String,
    pub port: u16,
}

/// What a `ProxyConfig` holds, as mathematical values.
pub struct ProxyConfigView {
    pub enabled: bool,
    pub server: Seq<char>,
    pub port: u16,
}

impl View for ProxyConfig {
    type V = ProxyConfigView;

    open spec fn view(&self) -> ProxyConfigView {
        ProxyConfigView { enabled: self.enabled, server: self.server@, port: self.port }
    }
}

/// The proxy that is switched off and names no server.
pub open spec fn spec_no_proxy() -> ProxyConfigView {
    ProxyConfigView { enabled: false, server: Seq::empty(), port: 0 }
}

impl Default for ProxyConfig {
    fn default() -> (config: ProxyConfig)
        ensures
            config@ == spec_no_proxy(),
    {
        ProxyConfig { enabled: false, server: String::new(), port: 0 }
    }
}

/// The three proxies of a network service.
#[derive(Debug, PartialEq, Eq)]
pub struct ProxySettings {
    pub http_proxy: ProxyConfig,
    pub https_proxy: ProxyConfig,
    pub socks_proxy: ProxyConfig,
    pub service_name: String,
}

/// What a `ProxySettings` holds, as mathematical values.
pub struct ProxySettingsView {
    pub http_proxy: ProxyConfigView,
    pub https_proxy: ProxyConfigView,
    pub socks_proxy: ProxyConfigView,
    pub service_name: Seq<char>,
}

impl View for ProxySettings {
    type V = ProxySettingsView;

    open spec fn view(&self) -> ProxySettingsView {
        ProxySettingsView {
            http_proxy: self.http_proxy@,
            https_proxy: self.https_proxy@,
            socks_proxy: self.socks_proxy@,
            service_name: self.service_name@,
        }
    }
}

impl Default for ProxySettings {
    fn default() -> (settings: ProxySettings)
        ensures
            settings@ == (ProxySettingsView {
                http_proxy: spec_no_proxy(),
                https_proxy: spec_no_proxy(),
                socks_proxy: spec_no_proxy(),
                service_name: Seq::empty(),
            }),
    {
        ProxySettings {
            http_proxy: ProxyConfig::default(),
            https_proxy: ProxyConfig::default(),
            socks_proxy: ProxyConfig::default(),
            service_name: String::new(),
        }
    }
}

/// Whether a trimmed line tells if the proxy is enabled.
pub open spec fn is_enabled_line(line: Seq<char>) -> bool {
    spec_starts_with(line, "Enabled:"@)
}

/// Whether a trimmed line names the server.
pub open spec fn is_server_line(line: Seq<char>) -> bool {
    !is_enabled_line(line) && spec_starts_with(line, "Server:"@)
}

/// The port that a trimmed line gives, where it gives one that is a `u16`.
pub open spec fn spec_port_of(line: Seq<char>) -> Option<u16> {
    if !is_enabled_line(line) && !is_server_line(line) && spec_starts_with(line, "Port:"@) {
        spec_parse_u16(spec_strip_label(line, "Port:"@))
    } else {
        None
    }
}

/// Whether the proxy is enabled: the last line that tells holds `Yes`.
/// Without such a line it is not.
pub open spec fn spec_enabled_in(lines: Seq<Seq<char>>) -> bool
    decreases lines.len(),
{
    if lines.len() == 0 {
        false
    } else if is_enabled_line(spec_trim(lines.last())) {
        spec_contains(spec_trim(lines.last()), "Yes"@)
    } else {
        spec_enabled_in(lines.drop_last())
    }
}

/// The server: what the last line that names it holds besides the label.
/// Without such a line it is empty.
pub open spec fn spec_server_in(lines: Seq<Seq<char>>) -> Seq<char>
    decreases lines.len(),
{
    if lines.len() == 0 {
        Seq::empty()
    } else if is_server_line(spec_trim(lines.last())) {
        spec_strip_label(spec_trim(lines.last()), "Server:"@)
    } else {
        spec_server_in(lines.drop_last())
    }
}

/// The port: what the last line that gives a port gives. Without such a
/// line it is 0.
pub open spec fn spec_port_in(lines: Seq<Seq<char>>) -> u16
    decreases lines.len(),
{
    if lines.len() == 0 {
        0
    } else {
        match spec_port_of(spec_trim(lines.last())) {
            Some(port) => port,
            None => spec_port_in(lines.drop_last()),
        }
    }
}

/// The proxy that the given lines describe.
pub open spec fn spec_proxy_in(lines: Seq<Seq<char>>) -> ProxyConfigView {
    ProxyConfigView {
        enabled: spec_enabled_in(lines),
        server: spec_server_in(lines),
        port: spec_port_in(lines),
    }
}

/// The proxy that the output of a proxy query describes.
pub open spec fn spec_proxy_config(output: Seq<char>) -> ProxyConfigView {
    spec_proxy_in(spec_lines(output))
}

/// Reads one proxy from what `networksetup` prints for it.
pub fn parse_proxy_output(output: &str) -> (config: ProxyConfig)
    ensures
        config@ == spec_proxy_config(output@),
{
    let text = chars_of(output);
    let all = lines(text.as_slice());
    let enabled_label = chars_of("Enabled:");
    let server_label = chars_of("Server:");
    let port_label = chars_of("Port:");
    let yes = chars_of("Yes");
    let mut enabled = false;
    let mut server: Vec<char> = Vec::new();
    let mut port: u16 = 0;
    let mut i: usize = 0;
    while i < all.len()
        invariant
            i <= all.len(),
            enabled_label@ == "Enabled:"@,
            server_label@ == "Server:"@,
            port_label@ == "Port:"@,
            yes@ == "Yes"@,
            (ProxyConfigView { enabled, server: server@, port }) == spec_proxy_in(
                texts(all@).take(i as int),
            ),
        decreases all.len() - i,
    {
        assert(texts(all@).take(i + 1).drop_last() =~= texts(all@).take(i as int));
        let line = trim(all[i].as_slice());
        let line = line.as_slice();
        if starts_with(line, enabled_label.as_slice()) {
            enabled = contains(line, yes.as_slice());
        } else if starts_with(line, server_label.as_slice()) {
            server = strip_label(line, server_label.as_slice());
        } else if starts_with(line, port_label.as_slice()) {
            let digits = strip_label(line, port_label.as_slice());
            if let Some(number) = parse_u16(digits.as_slice()) {
                port = number;
            }
        }
        i += 1;
    }
    assert(texts(all@).take(all@.len() as int) =~= texts(all@));
    ProxyConfig { enabled, server: string_of(server.as_slice()), port }
}

/// The proxies that a network service can have.
#[derive(Debug, Clone, Copy, PartialEq, Eq, Structural)]
pub enum ProxyKind {
    Http,
    Https,
    Socks,
}

/// The flag with which `networksetup` prints a proxy.
pub open spec fn spec_get_flag(kind: ProxyKind) -> Seq<char> {
    match kind {
        ProxyKind::Http => "-getwebproxy"@,
        ProxyKind::Https => "-getsecurewebproxy"@,
        ProxyKind::Socks => "-getsocksfirewallproxy"@,
    }
}

/// The flag with which `networksetup` sets a proxy and switches it on.
pub open spec fn spec_set_flag(kind: ProxyKind) -> Seq<char> {
    match kind {
        ProxyKind::Http => "-setwebproxy"@,
        ProxyKind::Https => "-setsecurewebproxy"@,
        ProxyKind::Socks => "-setsocksfirewallproxy"@,
    }
}

/// The flag with which `networksetup` switches a proxy on or off.
pub open spec fn spec_state_flag(kind: ProxyKind) -> Seq<char> {
    match kind {
        ProxyKind::Http => "-setwebproxystate"@,
        ProxyKind::Https => "-setsecurewebproxystate"@,
        ProxyKind::Socks => "-setsocksfirewallproxystate"@,
    }
}

/// The name of a proxy in messages.
pub open spec fn spec_label(kind: ProxyKind) -> Seq<char> {
    match kind {
        ProxyKind::Http => "HTTP"@,
        ProxyKind::Https => "HTTPS"@,
        ProxyKind::Socks => "SOCKS"@,
    }
}

impl ProxyKind {
    fn get_flag(self) -> (flag: &'static str)
        ensures
            flag@ == spec_get_flag(self),
    {
        match self {
            ProxyKind::Http => "-getwebproxy",
            ProxyKind::Https => "-getsecurewebproxy",
            ProxyKind::Socks => "-getsocksfirewallproxy",
        }
    }

    fn set_flag(self) -> (flag: &'static str)
        ensures
            flag@ == spec_set_flag(self),
    {
        match self {
            ProxyKind::Http => "-setwebproxy",
            ProxyKind::Https => "-setsecurewebproxy",
            ProxyKind::Socks => "-setsocksfirewallproxy",
        }
    }

    fn state_flag(self) -> (flag: &'static str)
        ensures
            flag@ == spec_state_flag(self),
    {
        match self {
            ProxyKind::Http => "-setwebproxystate",
            ProxyKind::Https => "-setsecurewebproxystate",
            ProxyKind::Socks => "-setsocksfirewallproxystate",
        }
    }

    fn label(self) -> (label: &'static str)
        ensures
            label@ == spec_label(self),
    {
        match self {
            ProxyKind::Http => "HTTP",
            ProxyKind::Https => "HTTPS",
            ProxyKind::Socks => "SOCKS",
        }
    }
}

/// The command that prints proxy `kind` of `service`.
pub open spec fn spec_proxy_query(kind: ProxyKind, service: Seq<char>) -> InvocationView {
    spec_invoke("networksetup"@, seq![spec_get_flag(kind), service])
}

/// Builds the command that prints proxy `kind` of `service`.
pub fn proxy_query(kind: ProxyKind, service: &str) -> (inv: Invocation)
    ensures
        inv@ == spec_proxy_query(kind, service@),
{
    let inv = invoke("networksetup", &[kind.get_flag(), service]);
    assert(inv@.args =~= seq![spec_get_flag(kind), service@]);
    inv
}

/// The proxy that an optional output of a proxy query describes: none
/// where the query could not be run.
pub open spec fn spec_queried_proxy(output: Option<Seq<char>>) -> ProxyConfigView {
    match output {
        Some(text) => spec_proxy_config(text),
        None => spec_no_proxy(),
    }
}

/// Reads one proxy from the output of its query, if there is any.
fn queried_proxy(output: Option<&str>) -> (config: ProxyConfig)
    ensures
        config@ == spec_queried_proxy(option_str(output)),
{
    match output {
        Some(text) => parse_proxy_output(text),
        None => ProxyConfig::default(),
    }
}

/// Puts together the proxy settings of `service` from the outputs of the
/// three proxy queries. `None` stands for a query that could not be run,
/// and leaves that proxy switched off and without a server.
pub fn proxy_settings(
    service: &str,
    http: Option<&str>,
    https: Option<&str>,
    socks: Option<&str>,
) -> (settings: ProxySettings)
    ensures
        settings@ == (ProxySettingsView {
            http_proxy: spec_queried_proxy(option_str(http)),
            https_proxy: spec_queried_proxy(option_str(https)),
            socks_proxy: spec_queried_proxy(option_str(socks)),
            service_name: service@,
        }),
{
    ProxySettings {
        http_proxy: queried_proxy(http),
        https_proxy: queried_proxy(https),
        socks_proxy: queried_proxy(socks),
        service_name: service.to_owned(),
    }
}

/// The step that switches proxy `kind` of `service` off.
pub open spec fn spec_disable_step(kind: ProxyKind, service: Seq<char>) -> StepView {
    StepView {
        invocation: spec_invoke("networksetup"@, seq![spec_state_flag(kind), service, "off"@]),
        failure: Some("Failed to disable "@ + spec_label(kind) + " proxy: "@),
    }
}

/// The step that points proxy `kind` of `service` to `server` and `port`
/// and switches it on.
pub open spec fn spec_enable_step(
    kind: ProxyKind,
    service: Seq<char>,
    server: Seq<char>,
    port: u16,
) -> StepView {
    StepView {
        invocation: spec_invoke(
            "networksetup"@,
            seq![spec_set_flag(kind), service, server, spec_decimal(port as nat)],
        ),
        failure: Some("Failed to set "@ + spec_label(kind) + " proxy: "@),
    }
}

/// The plan that sets proxy `kind` of `service`: to `server` and `port`
/// where it is to be enabled, and off where it is not.
pub open spec fn spec_set_proxy_plan(
    kind: ProxyKind,
    service: Seq<char>,
    enabled: bool,
    server: Seq<char>,
    port: u16,
) -> PlanView {
    PlanView {
        steps: seq![
            if enabled {
                spec_enable_step(kind, service, server, port)
            } else {
                spec_disable_step(kind, service)
            },
        ],
        success: spec_label(kind) + " proxy updated for "@ + service,
    }
}

/// A message made of three parts.
fn message(a: &str, b: &str, c: &str) -> (m: String)
    ensures
        m@ == a@ + b@ + c@,
{
    let mut m = chars_of(a);
    append_str(&mut m, b);
    append_str(&mut m, c);
    string_of(m.as_slice())
}

/// Builds the step that switches proxy `kind` of `service` off.
fn disable_step(kind: ProxyKind, service: &str) -> (step: Step)
    ensures
        step@ == spec_disable_step(kind, service@),
{
    let inv = invoke("networksetup", &[kind.state_flag(), service, "off"]);
    assert(inv@.args =~= seq![spec_state_flag(kind), service@, "off"@]);
    let failure = message("Failed to disable ", kind.label(), " proxy: ");
    Step::required(inv, failure.as_str())
}

/// Builds the step that sets proxy `kind` of `service` and switches it on.
fn enable_step(kind: ProxyKind, service: &str, server: &str, port: u16) -> (step: Step)
    ensures
        step@ == spec_enable_step(kind, service@, server@, port),
{
    let digits = string_of(decimal(port as u32).as_slice());
    let inv = invoke("networksetup", &[kind.set_flag(), service, server, digits.as_str()]);
    assert(inv@.args =~= seq![spec_set_flag(kind), service@, server@, spec_decimal(port as nat)]);
    let failure = message("Failed to set ", kind.label(), " proxy: ");
    Step::required(inv, failure.as_str())
}

/// Plans the command that sets proxy `kind` of `service`.
pub fn set_proxy_plan(kind: ProxyKind, service: &str, enabled: bool, server: &str, port: u16) -> (plan:
    Plan)
    ensures
        plan@ == spec_set_proxy_plan(kind, service@, enabled, server@, port),
{
    let step = if enabled {
        enable_step(kind, service, server, port)
    } else {
        disable_step(kind, service)
    };
    let mut steps: Vec<Step> = Vec::new();
    steps.push(step);
    assert(step_views(steps@) =~= seq![step@]);
    Plan { steps, success: message(kind.label(), " proxy updated for ", service) }
}

/// The step that switches the automatic proxy configuration of `service`
/// off.
pub open spec fn spec_auto_proxy_off(service: Seq<char>) -> StepView {
    StepView {
        invocation: spec_invoke("networksetup"@, seq!["-setautoproxystate"@, service, "off"@]),
        failure: Some("Failed to disable auto proxy: "@),
    }
}

/// The plan that switches every proxy of `service` off: HTTP, HTTPS, SOCKS
/// and the automatic configuration, in this order.
pub open spec fn spec_clear_proxies_plan(service: Seq<char>) -> PlanView {
    PlanView {
        steps: seq![
            spec_disable_step(ProxyKind::Http, service),
            spec_disable_step(ProxyKind::Https, service),
            spec_disable_step(ProxyKind::Socks, service),
            spec_auto_proxy_off(service),
        ],
        success: "All proxies cleared for "@ + service,
    }
}

/// Plans the commands that switch every proxy of `service` off.
pub fn clear_proxies_plan(service: &str) -> (plan: Plan)
    ensures
        plan@ == spec_clear_proxies_plan(service@),
{
    let http = disable_step(ProxyKind::Http, service);
    let https = disable_step(ProxyKind::Https, service);
    let socks = disable_step(ProxyKind::Socks, service);
    let inv = invoke("networksetup", &["-setautoproxystate", service, "off"]);
    assert(inv@.args =~= seq!["-setautoproxystate"@, service@, "off"@]);
    let auto = Step::required(inv, "Failed to disable auto proxy: ");
    let mut steps: Vec<Step> = Vec::new();
    steps.push(http);
    steps.push(https);
    steps.push(socks);
    steps.push(auto);
    assert(step_views(steps@) =~= seq![http@, https@, socks@, auto@]);
    let mut success = chars_of("All proxies cleared for ");
    append_str(&mut success, service);
    Plan { steps, success: string_of(success.as_slice()) }
}

} // verus!
