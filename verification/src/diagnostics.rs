//! Connectivity checks and the reset of the network stack.

use crate::command::{
    invoke, option_str, option_text, spec_invoke, Invocation, InvocationView, Step, StepView,
};
use crate::network::{
    is_device_line, is_port_line, read_port_line, spec_device_name, spec_port_name, PortLine,
};
use crate::text::{
    append, chars_of, contains, decimal, join, lines, same, spec_contains, spec_decimal,
    spec_join, spec_lines, spec_split, spec_trim, split, string_of, strings, texts, trim,
};
use vstd::prelude::*;

verus! {

/// The number of echo requests sent when none is asked for.
pub const DEFAULT_PING_COUNT: u32 = 4;

/// The step that sends `count` echo requests to `target`, or as many as
/// `DEFAULT_PING_COUNT` says where no count is given.
pub open spec fn spec_ping_step(target: Seq<char>, count: Option<u32>) -> StepView {
    let n = match count {
        Some(n) => n,
        None => DEFAULT_PING_COUNT,
    };
    StepView {
        invocation: spec_invoke("ping"@, seq!["-c"@, spec_decimal(n as nat), target]),
        failure: Some("Failed to execute ping: "@),
    }
}

/// Builds the step that sends echo requests to `target`.
pub fn ping_step(target: &str, count: Option<u32>) -> (step: Step)
    ensures
        step@ == spec_ping_step(target@, count),
{
    let n = match count {
        Some(n) => n,
        None => DEFAULT_PING_COUNT,
    };
    let digits = string_of(decimal(n).as_slice());
    let inv = invoke("ping", &["-c", digits.as_str(), target]);
    assert(inv@.args =~= seq!["-c"@, spec_decimal(n as nat), target@]);
    Step::required(inv, "Failed to execute ping: ")
}

/// The text in which a line of `ping`'s summary gives the average round
/// trip time: on a line that holds `avg` or its Chinese counterpart, what
/// stands between the first and the second `=`, trimmed, is cut at each
/// `/`, and the second piece, trimmed, is the field.
pub open spec fn spec_average_field(line: Seq<char>) -> Option<Seq<char>> {
    if spec_contains(line, "avg"@) || spec_contains(line, "平均"@) {
        let parts = spec_split(line, seq!['=']);
        if parts.len() >= 2 {
            let fields = spec_split(spec_trim(parts[1]), seq!['/']);
            if fields.len() >= 2 {
                Some(spec_trim(fields[1]))
            } else {
                None
            }
        } else {
            None
        }
    } else {
        None
    }
}

/// The average fields of the given lines, in order.
pub open spec fn spec_average_fields_in(lines: Seq<Seq<char>>) -> Seq<Seq<char>> {
    lines.filter_map(|l: Seq<char>| spec_average_field(l))
}

/// The average fields that `ping`'s output holds, in order.
pub open spec fn spec_average_fields(stdout: Seq<char>) -> Seq<Seq<char>> {
    spec_average_fields_in(spec_lines(stdout))
}

/// Finds the average field of one line.
fn average_field(line: &[char]) -> (r: Option<Vec<char>>)
    ensures
        match r {
            Some(f) => spec_average_field(line@) == Some(f@),
            None => spec_average_field(line@) is None,
        },
{
    let latin = chars_of("avg");
    let chinese = chars_of("平均");
    if contains(line, latin.as_slice()) || contains(line, chinese.as_slice()) {
        let equals: Vec<char> = vec!['='];
        let slash: Vec<char> = vec!['/'];
        assert(equals@ =~= seq!['=']);
        assert(slash@ =~= seq!['/']);
        let parts = split(line, equals.as_slice());
        if parts.len() >= 2 {
            let stats = trim(parts[1].as_slice());
            let fields = split(stats.as_slice(), slash.as_slice());
            if fields.len() >= 2 {
                return Some(trim(fields[1].as_slice()));
            }
        }
    }
    None
}

/// Collects from `ping`'s output every text that may give the average
/// round trip time. The last one that reads as a number is the average.
pub fn average_fields(stdout: &str) -> (fields: Vec<String>)
    ensures
        strings(fields@) == spec_average_fields(stdout@),
{
    let text = chars_of(stdout);
    let all = lines(text.as_slice());
    let mut fields: Vec<String> = Vec::new();
    let mut i: usize = 0;
    while i < all.len()
        invariant
            i <= all.len(),
            strings(fields@) == spec_average_fields_in(texts(all@).take(i as int)),
        decreases all.len() - i,
    {
        assert(texts(all@).take(i + 1).drop_last() =~= texts(all@).take(i as int));
        match average_field(all[i].as_slice()) {
            Some(field) => {
                fields.push(string_of(field.as_slice()));
            },
            None => {},
        }
        i += 1;
    }
    assert(texts(all@).take(all@.len() as int) =~= texts(all@));
    fields
}

/// What is reported when `ping` ran and failed: what it wrote to its error
/// stream, or a fixed text where it wrote nothing.
pub open spec fn spec_ping_failure(stderr: Seq<char>) -> Seq<char> {
    if stderr.len() == 0 {
        "Ping failed - host unreachable"@
    } else {
        stderr
    }
}

/// The reason to report when `ping` ran and failed.
pub fn ping_failure(stderr: &str) -> (reason: String)
    ensures
        reason@ == spec_ping_failure(stderr@),
{
    if stderr.is_empty() {
        "Ping failed - host unreachable".to_owned()
    } else {
        stderr.to_owned()
    }
}

/// The interface that the first line of `route`'s answer holding
/// `interface:` names: what stands between the first and the second colon
/// of that line, trimmed.
pub open spec fn spec_default_interface_in(lines: Seq<Seq<char>>) -> Option<Seq<char>>
    decreases lines.len(),
{
    if lines.len() == 0 {
        None
    } else if spec_contains(lines[0], "interface:"@) {
        let parts = spec_split(lines[0], seq![':']);
        if parts.len() >= 2 {
            Some(spec_trim(parts[1]))
        } else {
            None
        }
    } else {
        spec_default_interface_in(lines.drop_first())
    }
}

/// The interface of the default route, as `route -n get default` names it.
pub open spec fn spec_default_interface(route: Seq<char>) -> Option<Seq<char>> {
    spec_default_interface_in(spec_lines(route))
}

/// Reads the interface of the default route from the output of
/// `route -n get default`.
pub fn default_interface(route: &str) -> (r: Option<String>)
    ensures
        option_text(r) == spec_default_interface(route@),
{
    let text = chars_of(route);
    let all = lines(text.as_slice());
    let key = chars_of("interface:");
    let colon: Vec<char> = vec![':'];
    let mut i: usize = 0;
    assert(texts(all@).skip(0) =~= texts(all@));
    while i < all.len()
        invariant
            i <= all.len(),
            key@ == "interface:"@,
            colon@ == seq![':'],
            spec_default_interface(route@) == spec_default_interface_in(
                texts(all@).skip(i as int),
            ),
        decreases all.len() - i,
    {
        let line = all[i].as_slice();
        assert(texts(all@).skip(i as int).drop_first() =~= texts(all@).skip(i + 1));
        if contains(line, key.as_slice()) {
            let parts = split(line, colon.as_slice());
            if parts.len() >= 2 {
                let name = trim(parts[1].as_slice());
                return Some(string_of(name.as_slice()));
            } else {
                return None;
            }
        }
        i += 1;
    }
    None
}

/// The port that the last port line of `lines` names; empty where there is
/// none.
pub open spec fn spec_current_port(lines: Seq<Seq<char>>) -> Seq<char>
    decreases lines.len(),
{
    if lines.len() == 0 {
        Seq::empty()
    } else if is_port_line(lines.last()) {
        spec_port_name(lines.last())
    } else {
        spec_current_port(lines.drop_last())
    }
}

/// Whether line `k` names the device `interface` under a port with a name.
pub open spec fn names_interface(lines: Seq<Seq<char>>, k: int, interface: Seq<char>) -> bool {
    &&& 0 <= k < lines.len()
    &&& is_device_line(lines[k])
    &&& spec_device_name(lines[k]) == interface
    &&& spec_current_port(lines.take(k)).len() > 0
}

/// Whether the hardware port listing holds `interface` as the device of a
/// named port.
pub open spec fn spec_port_listed(listing: Seq<char>, interface: Seq<char>) -> bool {
    exists|k: int| names_interface(spec_lines(listing), k, interface)
}

/// Looks `interface` up among the devices of the hardware port listing.
pub fn port_listed(listing: &str, interface: &str) -> (found: bool)
    ensures
        found == spec_port_listed(listing@, interface@),
{
    let text = chars_of(listing);
    let all = lines(text.as_slice());
    let wanted = chars_of(interface);
    let mut current: Vec<char> = Vec::new();
    let mut i: usize = 0;
    while i < all.len()
        invariant
            i <= all.len(),
            wanted@ == interface@,
            texts(all@) == spec_lines(listing@),
            current@ == spec_current_port(texts(all@).take(i as int)),
            forall|k: int| 0 <= k < i ==> !names_interface(texts(all@), k, interface@),
        decreases all.len() - i,
    {
        assert(texts(all@).take(i + 1).drop_last() =~= texts(all@).take(i as int));
        match read_port_line(all[i].as_slice()) {
            PortLine::Port(name) => {
                current = name;
            },
            PortLine::Device(device) => {
                if same(device.as_slice(), wanted.as_slice()) && current.len() > 0 {
                    assert(names_interface(texts(all@), i as int, interface@));
                    return true;
                }
            },
            PortLine::Other => {},
        }
        i += 1;
    }
    false
}

/// Where the reset of the network stack stands.
#[derive(Debug, Clone, Copy, PartialEq, Eq, Structural)]
pub enum ResetStage {
    /// The resolver cache is to be flushed.
    FlushCache,
    /// The multicast DNS responder is to be restarted.
    RestartResponder,
    /// The ARP cache is to be cleared.
    ClearArp,
    /// The interface of the default route is to be found.
    FindRoute,
    /// That interface is to be looked up among the hardware ports.
    ListPorts,
    /// The DHCP lease of that interface is to be renewed.
    RenewLease,
    /// Nothing is left to do.
    Finished,
}

/// The state of a reset of the network stack: the stage it has reached,
/// the interface of the default route once it is known, and which of the
/// four repairs could be run.
#[derive(Debug, PartialEq, Eq)]
pub struct ResetProgress {
    pub stage: ResetStage,
    pub interface: String,
    pub flushed: bool,
    pub restarted: bool,
    pub cleared: bool,
    pub renewed: bool,
}

/// What a `ResetProgress` holds, as mathematical values.
pub struct ResetProgressView {
    pub stage: ResetStage,
    pub interface: Seq<char>,
    pub flushed: bool,
    pub restarted: bool,
    pub cleared: bool,
    pub renewed: bool,
}

impl View for ResetProgress {
    type V = ResetProgressView;

    open spec fn view(&self) -> ResetProgressView {
        ResetProgressView {
            stage: self.stage,
            interface: self.interface@,
            flushed: self.flushed,
            restarted: self.restarted,
            cleared: self.cleared,
            renewed: self.renewed,
        }
    }
}

/// How many commands a reset at this stage may still run.
pub open spec fn remaining(stage: ResetStage) -> nat {
    match stage {
        ResetStage::FlushCache => 6,
        ResetStage::RestartResponder => 5,
        ResetStage::ClearArp => 4,
        ResetStage::FindRoute => 3,
        ResetStage::ListPorts => 2,
        ResetStage::RenewLease => 1,
        ResetStage::Finished => 0,
    }
}

/// The state in which every reset begins.
pub open spec fn spec_reset_start() -> ResetProgressView {
    ResetProgressView {
        stage: ResetStage::FlushCache,
        interface: Seq::empty(),
        flushed: false,
        restarted: false,
        cleared: false,
        renewed: false,
    }
}

/// The command to run in state `p`; `None` once the reset has finished.
pub open spec fn spec_reset_action(p: ResetProgressView) -> Option<InvocationView> {
    match p.stage {
        ResetStage::FlushCache => Some(spec_invoke("dscacheutil"@, seq!["-flushcache"@])),
        ResetStage::RestartResponder => Some(
            spec_invoke("killall"@, seq!["-HUP"@, "mDNSResponder"@]),
        ),
        ResetStage::ClearArp => Some(spec_invoke("arp"@, seq!["-d"@, "-a"@])),
        ResetStage::FindRoute => Some(spec_invoke("route"@, seq!["-n"@, "get"@, "default"@])),
        ResetStage::ListPorts => Some(
            spec_invoke("networksetup"@, seq!["-listallhardwareports"@]),
        ),
        ResetStage::RenewLease => Some(
            spec_invoke("ipconfig"@, seq!["set"@, p.interface, "DHCP"@]),
        ),
        ResetStage::Finished => None,
    }
}

/// The state after the command of state `p` has been tried. `output` is
/// what the command printed, or `None` where it could not be run. A repair
/// counts as done when its command could be run. The lease is renewed only
/// for an interface that the default route names and the hardware port
/// listing holds.
pub open spec fn spec_reset_advance(
    p: ResetProgressView,
    output: Option<Seq<char>>,
) -> ResetProgressView {
    match p.stage {
        ResetStage::FlushCache => ResetProgressView {
            stage: ResetStage::RestartResponder,
            flushed: output is Some,
            ..p
        },
        ResetStage::RestartResponder => ResetProgressView {
            stage: ResetStage::ClearArp,
            restarted: output is Some,
            ..p
        },
        ResetStage::ClearArp => ResetProgressView {
            stage: ResetStage::FindRoute,
            cleared: output is Some,
            ..p
        },
        ResetStage::FindRoute => match output {
            Some(route) => match spec_default_interface(route) {
                Some(interface) => ResetProgressView {
                    stage: ResetStage::ListPorts,
                    interface,
                    ..p
                },
                None => ResetProgressView { stage: ResetStage::Finished, ..p },
            },
            None => ResetProgressView { stage: ResetStage::Finished, ..p },
        },
        ResetStage::ListPorts => match output {
            Some(listing) => if spec_port_listed(listing, p.interface) {
                ResetProgressView { stage: ResetStage::RenewLease, ..p }
            } else {
                ResetProgressView { stage: ResetStage::Finished, ..p }
            },
            None => ResetProgressView { stage: ResetStage::Finished, ..p },
        },
        ResetStage::RenewLease => ResetProgressView {
            stage: ResetStage::Finished,
            renewed: output is Some,
            ..p
        },
        ResetStage::Finished => p,
    }
}

/// The repairs that could be run, in the order in which they are tried.
pub open spec fn spec_reset_results(p: ResetProgressView) -> Seq<Seq<char>> {
    (if p.flushed {
        seq!["DNS cache flushed"@]
    } else {
        Seq::empty()
    }) + (if p.restarted {
        seq!["mDNSResponder restarted"@]
    } else {
        Seq::empty()
    }) + (if p.cleared {
        seq!["ARP cache cleared"@]
    } else {
        Seq::empty()
    }) + (if p.renewed {
        seq!["DHCP renewed"@]
    } else {
        Seq::empty()
    })
}

/// What the reset reports: the repairs that could be run, or that it was
/// attempted where none could.
pub open spec fn spec_reset_summary(p: ResetProgressView) -> Seq<char> {
    let results = spec_reset_results(p);
    if results.len() == 0 {
        "Network reset attempted"@
    } else {
        "Network reset completed: "@ + spec_join(results, ", "@)
    }
}

/// Every reset begins six commands from its end at most, and each outcome
/// taken in before the end brings it at least one command closer: no reset
/// runs more than six commands.
pub proof fn lemma_reset_ends(p: ResetProgressView, output: Option<Seq<char>>)
    ensures
        remaining(spec_reset_start().stage) == 6,
        remaining(p.stage) == 0 <==> spec_reset_action(p) is None,
        remaining(p.stage) > 0 ==> remaining(spec_reset_advance(p, output).stage) < remaining(
            p.stage,
        ),
        remaining(p.stage) == 0 ==> spec_reset_advance(p, output) == p,
{
}

/// Whether a state can come about in a reset: no repair counts as done
/// before its stage is over, and no interface is known before the route
/// has been looked at.
pub open spec fn consistent(p: ResetProgressView) -> bool {
    &&& remaining(p.stage) >= 6 ==> !p.flushed
    &&& remaining(p.stage) >= 5 ==> !p.restarted
    &&& remaining(p.stage) >= 4 ==> !p.cleared
    &&& remaining(p.stage) >= 3 ==> p.interface.len() == 0
    &&& remaining(p.stage) >= 1 ==> !p.renewed
}

/// A reset begins in a consistent state.
pub proof fn lemma_reset_starts_consistent()
    ensures
        consistent(spec_reset_start()),
{
}

/// A reset stays in a consistent state, and in such a state no outcome
/// undoes a repair: what was done stays done.
pub proof fn lemma_reset_stays_consistent(p: ResetProgressView, output: Option<Seq<char>>)
    requires
        consistent(p),
    ensures
        consistent(spec_reset_advance(p, output)),
        p.flushed ==> spec_reset_advance(p, output).flushed,
        p.restarted ==> spec_reset_advance(p, output).restarted,
        p.cleared ==> spec_reset_advance(p, output).cleared,
        p.renewed ==> spec_reset_advance(p, output).renewed,
{
}

impl ResetProgress {
    /// The state in which every reset begins.
    pub fn start() -> (p: ResetProgress)
        ensures
            p@ == spec_reset_start(),
    {
        ResetProgress {
            stage: ResetStage::FlushCache,
            interface: String::new(),
            flushed: false,
            restarted: false,
            cleared: false,
            renewed: false,
        }
    }

    /// The command to run next; `None` once the reset has finished.
    pub fn action(&self) -> (inv: Option<Invocation>)
        ensures
            match inv {
                Some(i) => spec_reset_action(self@) == Some(i@),
                None => spec_reset_action(self@) is None,
            },
    {
        match self.stage {
            ResetStage::FlushCache => {
                let inv = invoke("dscacheutil", &["-flushcache"]);
                assert(inv@.args =~= seq!["-flushcache"@]);
                Some(inv)
            },
            ResetStage::RestartResponder => {
                let inv = invoke("killall", &["-HUP", "mDNSResponder"]);
                assert(inv@.args =~= seq!["-HUP"@, "mDNSResponder"@]);
                Some(inv)
            },
            ResetStage::ClearArp => {
                let inv = invoke("arp", &["-d", "-a"]);
                assert(inv@.args =~= seq!["-d"@, "-a"@]);
                Some(inv)
            },
            ResetStage::FindRoute => {
                let inv = invoke("route", &["-n", "get", "default"]);
                assert(inv@.args =~= seq!["-n"@, "get"@, "default"@]);
                Some(inv)
            },
            ResetStage::ListPorts => {
                let inv = invoke("networksetup", &["-listallhardwareports"]);
                assert(inv@.args =~= seq!["-listallhardwareports"@]);
                Some(inv)
            },
            ResetStage::RenewLease => {
                let inv = invoke("ipconfig", &["set", self.interface.as_str(), "DHCP"]);
                assert(inv@.args =~= seq!["set"@, self.interface@, "DHCP"@]);
                Some(inv)
            },
            ResetStage::Finished => None,
        }
    }

    /// Takes in the outcome of the command that `action` gave: what it
    /// printed, or `None` where it could not be run. Every call brings the
    /// reset closer to its end.
    pub fn advance(self, output: Option<&str>) -> (next: ResetProgress)
        ensures
            next@ == spec_reset_advance(self@, option_str(output)),
            self.stage == ResetStage::Finished || remaining(next.stage) < remaining(self.stage),
    {
        let mut p = self;
        match p.stage {
            ResetStage::FlushCache => {
                p.flushed = output.is_some();
                p.stage = ResetStage::RestartResponder;
            },
            ResetStage::RestartResponder => {
                p.restarted = output.is_some();
                p.stage = ResetStage::ClearArp;
            },
            ResetStage::ClearArp => {
                p.cleared = output.is_some();
                p.stage = ResetStage::FindRoute;
            },
            ResetStage::FindRoute => {
                p.stage = ResetStage::Finished;
                if let Some(route) = output {
                    if let Some(interface) = default_interface(route) {
                        p.interface = interface;
                        p.stage = ResetStage::ListPorts;
                    }
                }
            },
            ResetStage::ListPorts => {
                p.stage = ResetStage::Finished;
                if let Some(listing) = output {
                    if port_listed(listing, p.interface.as_str()) {
                        p.stage = ResetStage::RenewLease;
                    }
                }
            },
            ResetStage::RenewLease => {
                p.renewed = output.is_some();
                p.stage = ResetStage::Finished;
            },
            ResetStage::Finished => {},
        }
        p
    }

    /// What the reset reports.
    pub fn summary(&self) -> (message: String)
        ensures
            message@ == spec_reset_summary(self@),
    {
        let mut results: Vec<Vec<char>> = Vec::new();
        if self.flushed {
            results.push(chars_of("DNS cache flushed"));
        }
        if self.restarted {
            results.push(chars_of("mDNSResponder restarted"));
        }
        if self.cleared {
            results.push(chars_of("ARP cache cleared"));
        }
        if self.renewed {
            results.push(chars_of("DHCP renewed"));
        }
        assert(texts(results@) =~= spec_reset_results(self@));
        if results.len() == 0 {
            "Network reset attempted".to_owned()
        } else {
            let mut message = chars_of("Network reset completed: ");
            let listed = join(&results, chars_of(", ").as_slice());
            append(&mut message, listed.as_slice());
            string_of(message.as_slice())
        }
    }
}

} // verus!
