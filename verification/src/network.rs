//! Network services and hardware ports, as `networksetup` lists them, and
//! the commands that change them.

use crate::admin::{append_quoted, plan_result, spec_quote, AdminPlan, AdminPlanView};
use crate::command::{
    invoke, option_str, spec_invoke, Invocation, InvocationView, Step, StepView,
};
use crate::text::{
    append, append_str, chars_of, contains, join, lemma_filter_map_all, lines, same,
    spec_contains, spec_join,
    spec_lines, spec_split, spec_starts_with, spec_strip_label,
    spec_trim, spec_trim_end_char, spec_trim_start_matches, split, starts_with, string_of,
    strings, strip_label, texts, trim, trim_end_char, trim_start_matches,
};
use vstd::prelude::*;

verus! {

/// Whether an interface carries traffic.
#[derive(Debug, Clone, Copy, PartialEq, Eq, Structural)]
pub enum InterfaceStatus {
    Connected,
    Disconnected,
    Unavailable,
}

/// A network service, with its place in the service order and the state of
/// its interface.
#[derive(Debug, PartialEq, Eq)]
pub struct NetworkService {
    pub name: String,
    pub hardware_port: String,
    pub device: String,
    pub enabled: bool,
    pub is_default: bool,
    pub order: i32,
    pub status: InterfaceStatus,
}

/// What a `NetworkService` holds, as mathematical values.
pub struct NetworkServiceView {
    pub name: Seq<char>,
    pub hardware_port: Seq<char>,
    pub device: Seq<char>,
    pub enabled: bool,
    pub is_default: bool,
    pub order: i32,
    pub status: InterfaceStatus,
}

impl View for NetworkService {
    type V = NetworkServiceView;

    open spec fn view(&self) -> NetworkServiceView {
        NetworkServiceView {
            name: self.name@,
            hardware_port: self.hardware_port@,
            device: self.device@,
            enabled: self.enabled,
            is_default: self.is_default,
            order: self.order,
            status: self.status,
        }
    }
}

/// A hardware port, and whether a network service bears its name.
#[derive(Debug, PartialEq, Eq)]
pub struct HardwarePort {
    pub name: String,
    pub device: String,
    pub in_use: bool,
}

/// What a `HardwarePort` holds, as mathematical values.
pub struct HardwarePortView {
    pub name: Seq<char>,
    pub device: Seq<char>,
    pub in_use: bool,
}

impl View for HardwarePort {
    type V = HardwarePortView;

    open spec fn view(&self) -> HardwarePortView {
        HardwarePortView { name: self.name@, device: self.device@, in_use: self.in_use }
    }
}

/// A network service as the service order listing gives it.
#[derive(Debug, PartialEq, Eq)]
pub struct ListedService {
    pub name: String,
    pub hardware_port: String,
    pub device: String,
    pub enabled: bool,
}

/// What a `ListedService` holds, as mathematical values.
pub struct ListedServiceView {
    pub name: Seq<char>,
    pub hardware_port: Seq<char>,
    pub device: Seq<char>,
    pub enabled: bool,
}

impl View for ListedService {
    type V = ListedServiceView;

    open spec fn view(&self) -> ListedServiceView {
        ListedServiceView {
            name: self.name@,
            hardware_port: self.hardware_port@,
            device: self.device@,
            enabled: self.enabled,
        }
    }
}

/// The views of a sequence of listed services.
pub open spec fn listed_views(v: Seq<ListedService>) -> Seq<ListedServiceView> {
    v.map_values(|s: ListedService| s@)
}

/// The views of a sequence of network services.
pub open spec fn service_views(v: Seq<NetworkService>) -> Seq<NetworkServiceView> {
    v.map_values(|s: NetworkService| s@)
}

/// The views of a sequence of hardware ports.
pub open spec fn port_views(v: Seq<HardwarePort>) -> Seq<HardwarePortView> {
    v.map_values(|p: HardwarePort| p@)
}

/// The step that asks for the service order listing.
pub open spec fn spec_service_listing_step() -> StepView {
    StepView {
        invocation: spec_invoke("networksetup"@, seq!["-listnetworkserviceorder"@]),
        failure: Some("Failed to execute command: "@),
    }
}

/// Builds the step that asks for the service order listing.
pub fn service_listing_step() -> (step: Step)
    ensures
        step@ == spec_service_listing_step(),
{
    let inv = invoke("networksetup", &["-listnetworkserviceorder"]);
    assert(inv@.args =~= seq!["-listnetworkserviceorder"@]);
    Step::required(inv, "Failed to execute command: ")
}

/// The step that asks for the hardware port listing.
pub open spec fn spec_port_listing_step() -> StepView {
    StepView {
        invocation: spec_invoke("networksetup"@, seq!["-listallhardwareports"@]),
        failure: Some("Failed to execute command: "@),
    }
}

/// Builds the step that asks for the hardware port listing.
pub fn port_listing_step() -> (step: Step)
    ensures
        step@ == spec_port_listing_step(),
{
    let inv = invoke("networksetup", &["-listallhardwareports"]);
    assert(inv@.args =~= seq!["-listallhardwareports"@]);
    Step::required(inv, "Failed to execute command: ")
}

/// The name that a line of the service order listing gives to a service:
/// on a line that begins with `(` and holds `)`, what stands between the
/// first and the second `)`, trimmed, unless that is empty.
pub open spec fn spec_listed_name(line: Seq<char>) -> Option<Seq<char>> {
    if spec_starts_with(line, "("@) && spec_contains(line, ")"@) {
        let pieces = spec_split(line, ")"@);
        if pieces.len() >= 2 && spec_trim(pieces[1]).len() > 0 {
            Some(spec_trim(pieces[1]))
        } else {
            None
        }
    } else {
        None
    }
}

/// Reads the name that a line of the service order listing gives to a
/// service.
fn listed_name(line: &[char]) -> (r: Option<Vec<char>>)
    ensures
        match r {
            Some(name) => spec_listed_name(line@) == Some(name@),
            None => spec_listed_name(line@) is None,
        },
{
    let close = chars_of(")");
    if starts_with(line, chars_of("(").as_slice()) && contains(line, close.as_slice()) {
        let pieces = split(line, close.as_slice());
        if pieces.len() >= 2 {
            let name = trim(pieces[1].as_slice());
            if name.len() > 0 {
                return Some(name);
            }
        }
    }
    None
}

/// The name of the service that a line of the service order listing
/// announces: the name it gives, unless that begins with `Hardware Port`.
pub open spec fn spec_service_name(line: Seq<char>) -> Option<Seq<char>> {
    match spec_listed_name(line) {
        Some(name) => if spec_starts_with(name, "Hardware Port"@) {
            None
        } else {
            Some(name)
        },
        None => None,
    }
}

/// The names of the given lines' services, in order.
pub open spec fn spec_service_names(lines: Seq<Seq<char>>) -> Seq<Seq<char>> {
    lines.filter_map(|l: Seq<char>| spec_service_name(l))
}

/// The names of the network services in the order of the listing.
pub open spec fn spec_service_order(listing: Seq<char>) -> Seq<Seq<char>> {
    spec_service_names(spec_lines(listing))
}

/// No service of the service order is without a name.
pub proof fn lemma_service_order_names(listing: Seq<char>)
    ensures
        forall|k: int|
            0 <= k < spec_service_order(listing).len() ==> (#[trigger] spec_service_order(
                listing,
            )[k]).len() > 0,
{
    lemma_filter_map_all(
        spec_lines(listing),
        |l: Seq<char>| spec_service_name(l),
        |name: Seq<char>| name.len() > 0,
    );
}

/// Reads the names of the network services, in order, from the service
/// order listing.
pub fn service_order(listing: &str) -> (names: Vec<String>)
    ensures
        strings(names@) == spec_service_order(listing@),
{
    let text = chars_of(listing);
    let all = lines(text.as_slice());
    let mut names: Vec<String> = Vec::new();
    let mut i: usize = 0;
    while i < all.len()
        invariant
            i <= all.len(),
            strings(names@) == spec_service_names(texts(all@).take(i as int)),
        decreases all.len() - i,
    {
        assert(texts(all@).take(i + 1).drop_last() =~= texts(all@).take(i as int));
        match listed_name(all[i].as_slice()) {
            Some(name) => {
                if !starts_with(name.as_slice(), chars_of("Hardware Port").as_slice()) {
                    names.push(string_of(name.as_slice()));
                }
            },
            None => {},
        }
        i += 1;
    }
    assert(texts(all@).take(all@.len() as int) =~= texts(all@));
    names
}

/// Whether `name` is among `names`.
pub fn is_listed(names: &Vec<String>, name: &str) -> (found: bool)
    ensures
        found == strings(names@).contains(name@),
{
    let wanted = chars_of(name);
    let mut i: usize = 0;
    while i < names.len()
        invariant
            i <= names.len(),
            wanted@ == name@,
            forall|k: int| 0 <= k < i ==> strings(names@)[k] != name@,
        decreases names.len() - i,
    {
        let candidate = chars_of(names[i].as_str());
        if same(candidate.as_slice(), wanted.as_slice()) {
            assert(strings(names@)[i as int] == name@);
            return true;
        }
        i += 1;
    }
    false
}

/// The state of a device, as the output of `ifconfig` for it tells. `None`
/// stands for a command that could not be run. A device without a name is
/// unavailable, whatever the output.
pub open spec fn spec_interface_status(device: Seq<char>, output: Option<Seq<char>>)
    -> InterfaceStatus {
    if device.len() == 0 {
        InterfaceStatus::Unavailable
    } else {
        match output {
            None => InterfaceStatus::Unavailable,
            Some(text) => if spec_contains(text, "status: active"@) {
                InterfaceStatus::Connected
            } else if spec_contains(text, "status: inactive"@) {
                InterfaceStatus::Disconnected
            } else if spec_contains(text, "flags="@) {
                if spec_contains(text, "inet "@) && !spec_contains(text, "inet 127."@) {
                    InterfaceStatus::Connected
                } else {
                    InterfaceStatus::Disconnected
                }
            } else {
                InterfaceStatus::Unavailable
            },
        }
    }
}

/// Tells the state of a device from the output of `ifconfig` for it.
pub fn interface_status(device: &str, output: Option<&str>) -> (status: InterfaceStatus)
    ensures
        status == spec_interface_status(device@, option_str(output)),
{
    if device.is_empty() {
        return InterfaceStatus::Unavailable;
    }
    match output {
        None => InterfaceStatus::Unavailable,
        Some(text) => {
            let text = chars_of(text);
            let text = text.as_slice();
            if contains(text, chars_of("status: active").as_slice()) {
                InterfaceStatus::Connected
            } else if contains(text, chars_of("status: inactive").as_slice()) {
                InterfaceStatus::Disconnected
            } else if contains(text, chars_of("flags=").as_slice()) {
                if contains(text, chars_of("inet ").as_slice()) && !contains(
                    text,
                    chars_of("inet 127.").as_slice(),
                ) {
                    InterfaceStatus::Connected
                } else {
                    InterfaceStatus::Disconnected
                }
            } else {
                InterfaceStatus::Unavailable
            }
        },
    }
}

/// The command that asks for the state of `device`; none for a device
/// without a name.
pub open spec fn spec_status_probe(device: Seq<char>) -> Option<InvocationView> {
    if device.len() == 0 {
        None
    } else {
        Some(spec_invoke("ifconfig"@, seq![device]))
    }
}

/// Builds the command that asks for the state of `device`, if there is
/// anything to ask.
pub fn status_probe(device: &str) -> (inv: Option<Invocation>)
    ensures
        match inv {
            Some(i) => spec_status_probe(device@) == Some(i@),
            None => spec_status_probe(device@) is None,
        },
{
    if device.is_empty() {
        None
    } else {
        let inv = invoke("ifconfig", &[device]);
        assert(inv@.args =~= seq![device@]);
        Some(inv)
    }
}

/// How far the reading of the service order listing has come: the service
/// that was announced and still waits for its hardware port, and the
/// services read so far.
pub struct ListingState {
    pub pending: Option<(Seq<char>, bool)>,
    pub services: Seq<ListedServiceView>,
}

/// The hardware port and the device that a hardware port line of the
/// service order listing names, where it names both: the line without its
/// label and without the brackets that end it is cut at `, Device:`, and
/// must fall into two pieces.
pub open spec fn spec_port_and_device(line: Seq<char>) -> Option<(Seq<char>, Seq<char>)> {
    let inner = spec_trim_end_char(spec_trim_start_matches(line, "(Hardware Port:"@), ')');
    let parts = spec_split(inner, ", Device:"@);
    if parts.len() == 2 {
        Some((spec_trim(parts[0]), spec_trim(parts[1])))
    } else {
        None
    }
}

/// The state after one more line of the service order listing. A hardware
/// port line completes the service that waits for it, and that service is
/// kept where the line names port and device. Any other line that gives a
/// name announces a service, which is enabled unless the line begins with
/// `(*)`.
pub open spec fn spec_listing_step(state: ListingState, raw: Seq<char>) -> ListingState {
    let line = spec_trim(raw);
    if spec_starts_with(line, "(Hardware Port:"@) && state.pending is Some {
        let (name, enabled) = state.pending.unwrap();
        match spec_port_and_device(line) {
            Some((hardware_port, device)) => ListingState {
                pending: None,
                services: state.services.push(
                    ListedServiceView { name, hardware_port, device, enabled },
                ),
            },
            None => ListingState { pending: None, services: state.services },
        }
    } else {
        match spec_listed_name(line) {
            Some(name) => ListingState {
                pending: Some((name, !spec_starts_with(line, "(*)"@))),
                services: state.services,
            },
            None => state,
        }
    }
}

/// The state after the given lines of the service order listing.
pub open spec fn spec_listing_state(lines: Seq<Seq<char>>) -> ListingState
    decreases lines.len(),
{
    if lines.len() == 0 {
        ListingState { pending: None, services: Seq::empty() }
    } else {
        spec_listing_step(spec_listing_state(lines.drop_last()), lines.last())
    }
}

/// The services that the service order listing holds, in order.
pub open spec fn spec_listed_services(listing: Seq<char>) -> Seq<ListedServiceView> {
    spec_listing_state(spec_lines(listing)).services
}

/// Whether the service that waits and the services read so far all have a
/// name.
pub open spec fn all_services_named(state: ListingState) -> bool {
    &&& state.pending is Some ==> state.pending.unwrap().0.len() > 0
    &&& forall|k: int|
        0 <= k < state.services.len() ==> (#[trigger] state.services[k]).name.len() > 0
}

/// After any lines, the service that waits and the services read so far all
/// have a name.
proof fn lemma_listing_state_named(lines: Seq<Seq<char>>)
    ensures
        all_services_named(spec_listing_state(lines)),
    decreases lines.len(),
{
    if lines.len() > 0 {
        lemma_listing_state_named(lines.drop_last());
    }
}

/// No service of the service order listing is without a name.
pub proof fn lemma_listed_services_named(listing: Seq<char>)
    ensures
        forall|k: int|
            0 <= k < spec_listed_services(listing).len() ==> (#[trigger] spec_listed_services(
                listing,
            )[k]).name.len() > 0,
{
    lemma_listing_state_named(spec_lines(listing));
}

/// The service that waits for its hardware port, as mathematical values.
pub open spec fn pending_view(pending: Option<(Vec<char>, bool)>) -> Option<(Seq<char>, bool)> {
    match pending {
        Some((name, enabled)) => Some((name@, enabled)),
        None => None,
    }
}

/// Reads the hardware port and the device from a hardware port line of the
/// service order listing.
fn port_and_device(line: &[char]) -> (r: Option<(Vec<char>, Vec<char>)>)
    ensures
        match r {
            Some((port, device)) => spec_port_and_device(line@) == Some((port@, device@)),
            None => spec_port_and_device(line@) is None,
        },
{
    let unlabelled = trim_start_matches(line, chars_of("(Hardware Port:").as_slice());
    let inner = trim_end_char(unlabelled.as_slice(), ')');
    let parts = split(inner.as_slice(), chars_of(", Device:").as_slice());
    if parts.len() == 2 {
        Some((trim(parts[0].as_slice()), trim(parts[1].as_slice())))
    } else {
        None
    }
}

/// Takes in one more line of the service order listing.
fn listing_step(
    pending: Option<(Vec<char>, bool)>,
    services: &mut Vec<ListedService>,
    raw: &[char],
) -> (next: Option<(Vec<char>, bool)>)
    ensures
        (ListingState { pending: pending_view(next), services: listed_views(final(services)@) })
            == spec_listing_step(
            ListingState { pending: pending_view(pending), services: listed_views(old(services)@) },
            raw@,
        ),
{
    let line = trim(raw);
    let line = line.as_slice();
    let ghost before = listed_views(services@);
    if starts_with(line, chars_of("(Hardware Port:").as_slice()) && pending.is_some() {
        let (name, enabled) = pending.unwrap();
        match port_and_device(line) {
            Some((hardware_port, device)) => {
                let service = ListedService {
                    name: string_of(name.as_slice()),
                    hardware_port: string_of(hardware_port.as_slice()),
                    device: string_of(device.as_slice()),
                    enabled,
                };
                services.push(service);
                assert(listed_views(services@) =~= before.push(service@));
            },
            None => {},
        }
        None
    } else {
        match listed_name(line) {
            Some(name) => {
                let disabled = starts_with(line, chars_of("(*)").as_slice());
                Some((name, !disabled))
            },
            None => pending,
        }
    }
}

/// Reads the network services, in order, from the service order listing.
pub fn listed_services(listing: &str) -> (services: Vec<ListedService>)
    ensures
        listed_views(services@) == spec_listed_services(listing@),
{
    let text = chars_of(listing);
    let all = lines(text.as_slice());
    let mut services: Vec<ListedService> = Vec::new();
    let mut pending: Option<(Vec<char>, bool)> = None;
    let mut i: usize = 0;
    assert(listed_views(services@) =~= Seq::<ListedServiceView>::empty());
    while i < all.len()
        invariant
            i <= all.len(),
            (ListingState { pending: pending_view(pending), services: listed_views(services@) })
                == spec_listing_state(texts(all@).take(i as int)),
        decreases all.len() - i,
    {
        assert(texts(all@).take(i + 1).drop_last() =~= texts(all@).take(i as int));
        pending = listing_step(pending, &mut services, all[i].as_slice());
        i += 1;
    }
    assert(texts(all@).take(all@.len() as int) =~= texts(all@));
    services
}

/// The truncation of an index to `i32`.
pub open spec fn spec_order(index: int) -> i32 {
    index as i32
}

/// The order of a service is its index, wherever that fits in an `i32`.
pub proof fn lemma_order_is_index(index: int)
    requires
        0 <= index <= i32::MAX,
    ensures
        spec_order(index) == index,
{
}

/// The network service that service `index` of the listing becomes once
/// the state of its interface is known: the first service is the default
/// one, and the order of each is its index.
pub open spec fn spec_network_service(
    listed: ListedServiceView,
    index: int,
    probe: Option<Seq<char>>,
) -> NetworkServiceView {
    NetworkServiceView {
        name: listed.name,
        hardware_port: listed.hardware_port,
        device: listed.device,
        enabled: listed.enabled,
        is_default: index == 0,
        order: spec_order(index),
        status: spec_interface_status(listed.device, probe),
    }
}

/// The output of the probe of service `index`, where there is one.
pub open spec fn probe_at(probes: Seq<Option<String>>, index: int) -> Option<Seq<char>> {
    if 0 <= index < probes.len() {
        match probes[index] {
            Some(text) => Some(text@),
            None => None,
        }
    } else {
        None
    }
}

/// The network services that the listed services become, given the output
/// of the status probe of each, in the same order. A service without a
/// probe counts as one whose probe could not be run.
pub open spec fn spec_network_services(
    listed: Seq<ListedServiceView>,
    probes: Seq<Option<String>>,
) -> Seq<NetworkServiceView> {
    Seq::new(listed.len(), |i: int| spec_network_service(listed[i], i, probe_at(probes, i)))
}

/// Completes the listed services with their place in the order and the
/// state of their interfaces. `probes[i]` is what the status probe of
/// service `i` printed, or `None` where none was run or it could not be
/// run.
pub fn network_services(listed: &Vec<ListedService>, probes: &Vec<Option<String>>) -> (services:
    Vec<NetworkService>)
    ensures
        service_views(services@) == spec_network_services(listed_views(listed@), probes@),
{
    let mut services: Vec<NetworkService> = Vec::new();
    let mut i: usize = 0;
    while i < listed.len()
        invariant
            i <= listed.len(),
            services@.len() == i,
            forall|k: int|
                0 <= k < i ==> (#[trigger] services@[k])@ == spec_network_service(
                    listed@[k]@,
                    k,
                    probe_at(probes@, k),
                ),
        decreases listed.len() - i,
    {
        let entry = &listed[i];
        let status = if i < probes.len() {
            match &probes[i] {
                Some(text) => interface_status(entry.device.as_str(), Some(text.as_str())),
                None => interface_status(entry.device.as_str(), None),
            }
        } else {
            interface_status(entry.device.as_str(), None)
        };
        let order: i32 = #[verifier::truncate]
        (i as i32);
        services.push(
            NetworkService {
                name: entry.name.clone(),
                hardware_port: entry.hardware_port.clone(),
                device: entry.device.clone(),
                enabled: entry.enabled,
                is_default: i == 0,
                order,
                status,
            },
        );
        i += 1;
    }
    services
}

/// Whether a line of the hardware port listing names a port.
pub open spec fn is_port_line(line: Seq<char>) -> bool {
    spec_starts_with(line, "Hardware Port:"@)
}

/// Whether a line of the hardware port listing names a device.
pub open spec fn is_device_line(line: Seq<char>) -> bool {
    !is_port_line(line) && spec_starts_with(line, "Device:"@)
}

/// The port that a port line names.
pub open spec fn spec_port_name(line: Seq<char>) -> Seq<char> {
    spec_strip_label(line, "Hardware Port: "@)
}

/// The device that a device line names.
pub open spec fn spec_device_name(line: Seq<char>) -> Seq<char> {
    spec_strip_label(line, "Device: "@)
}

/// What a line of the hardware port listing says.
pub(crate) enum PortLine {
    /// The name of a hardware port.
    Port(Vec<char>),
    /// The name of the device behind the port named last.
    Device(Vec<char>),
    /// Anything else.
    Other,
}

/// Reads one line of the hardware port listing.
pub(crate) fn read_port_line(line: &[char]) -> (r: PortLine)
    ensures
        match r {
            PortLine::Port(name) => is_port_line(line@) && name@ == spec_port_name(line@),
            PortLine::Device(name) => is_device_line(line@) && name@ == spec_device_name(line@),
            PortLine::Other => !is_port_line(line@) && !is_device_line(line@),
        },
{
    if starts_with(line, chars_of("Hardware Port:").as_slice()) {
        PortLine::Port(strip_label(line, chars_of("Hardware Port: ").as_slice()))
    } else if starts_with(line, chars_of("Device:").as_slice()) {
        PortLine::Device(strip_label(line, chars_of("Device: ").as_slice()))
    } else {
        PortLine::Other
    }
}

/// How far the reading of the hardware port listing has come: the port and
/// the device named last, and the ports read so far.
pub struct PortScan {
    pub port: Seq<char>,
    pub device: Seq<char>,
    pub ports: Seq<HardwarePortView>,
}

/// Whether one of `ports` bears `name`.
pub open spec fn has_name(ports: Seq<HardwarePortView>, name: Seq<char>) -> bool {
    exists|k: int| 0 <= k < ports.len() && (#[trigger] ports[k]).name == name
}

/// Whether no two of `ports` bear the same name.
pub open spec fn distinct_names(ports: Seq<HardwarePortView>) -> bool {
    forall|j: int, k: int|
        0 <= j < k < ports.len() ==> (#[trigger] ports[j]).name != (#[trigger] ports[k]).name
}

/// Whether every one of `ports` has a name and a device.
pub open spec fn all_named(ports: Seq<HardwarePortView>) -> bool {
    forall|k: int|
        0 <= k < ports.len() ==> (#[trigger] ports[k]).name.len() > 0 && ports[k].device.len()
            > 0
}

/// Whether a port counts as in use: a service bears its name, or the
/// services are not known.
pub open spec fn spec_in_use(services: Option<Seq<Seq<char>>>, name: Seq<char>) -> bool {
    match services {
        Some(names) => names.contains(name),
        None => true,
    }
}

/// The state after one more line of the hardware port listing. A port line
/// and a device line set the name they give. A line that begins with
/// `Ethernet Address:` and an empty line close the entry: where port and
/// device are named and no port read so far bears that name, the port is
/// kept. An empty line also forgets both names.
pub open spec fn spec_port_step(
    state: PortScan,
    line: Seq<char>,
    services: Option<Seq<Seq<char>>>,
) -> PortScan {
    if is_port_line(line) {
        PortScan { port: spec_port_name(line), ..state }
    } else if is_device_line(line) {
        PortScan { device: spec_device_name(line), ..state }
    } else if spec_starts_with(line, "Ethernet Address:"@) || line.len() == 0 {
        let ports = if state.port.len() > 0 && state.device.len() > 0 && !has_name(
            state.ports,
            state.port,
        ) {
            state.ports.push(
                HardwarePortView {
                    name: state.port,
                    device: state.device,
                    in_use: spec_in_use(services, state.port),
                },
            )
        } else {
            state.ports
        };
        if line.len() == 0 {
            PortScan { port: Seq::empty(), device: Seq::empty(), ports }
        } else {
            PortScan { ports, ..state }
        }
    } else {
        state
    }
}

/// The state after the given lines of the hardware port listing.
pub open spec fn spec_port_scan(lines: Seq<Seq<char>>, services: Option<Seq<Seq<char>>>)
    -> PortScan
    decreases lines.len(),
{
    if lines.len() == 0 {
        PortScan { port: Seq::empty(), device: Seq::empty(), ports: Seq::empty() }
    } else {
        spec_port_step(spec_port_scan(lines.drop_last(), services), lines.last(), services)
    }
}

/// The names of the services in an optional service order listing.
pub open spec fn spec_known_services(order_listing: Option<Seq<char>>) -> Option<Seq<Seq<char>>> {
    match order_listing {
        Some(listing) => Some(spec_service_order(listing)),
        None => None,
    }
}

/// The hardware ports that the hardware port listing holds, each once and
/// in the order of the listing. A port is in use where a service of the
/// service order listing bears its name, and also where that listing could
/// not be had.
pub open spec fn spec_hardware_ports(listing: Seq<char>, order_listing: Option<Seq<char>>)
    -> Seq<HardwarePortView> {
    spec_port_scan(spec_lines(listing), spec_known_services(order_listing)).ports
}

/// Whether one of `ports` bears `name`.
fn bears_name(ports: &Vec<HardwarePort>, name: &[char]) -> (found: bool)
    ensures
        found == has_name(port_views(ports@), name@),
{
    let mut i: usize = 0;
    while i < ports.len()
        invariant
            i <= ports.len(),
            forall|k: int| 0 <= k < i ==> (#[trigger] port_views(ports@)[k]).name != name@,
        decreases ports.len() - i,
    {
        let candidate = chars_of(ports[i].name.as_str());
        if same(candidate.as_slice(), name) {
            assert(port_views(ports@)[i as int].name == name@);
            return true;
        }
        i += 1;
    }
    false
}

/// Reads the hardware ports from the hardware port listing and marks those
/// in use. `order_listing` is the service order listing, or `None` where it
/// could not be had. Every port has a name and a device, and no two of
/// them bear the same name.
pub fn hardware_ports(listing: &str, order_listing: Option<&str>) -> (ports: Vec<HardwarePort>)
    ensures
        port_views(ports@) == spec_hardware_ports(listing@, option_str(order_listing)),
        distinct_names(port_views(ports@)),
        all_named(port_views(ports@)),
{
    let services: Option<Vec<String>> = match order_listing {
        Some(order) => Some(service_order(order)),
        None => None,
    };
    let ghost known = spec_known_services(option_str(order_listing));
    let text = chars_of(listing);
    let all = lines(text.as_slice());
    let ethernet = chars_of("Ethernet Address:");
    let mut ports: Vec<HardwarePort> = Vec::new();
    let mut port: Vec<char> = Vec::new();
    let mut device: Vec<char> = Vec::new();
    let mut i: usize = 0;
    assert(port_views(ports@) =~= Seq::<HardwarePortView>::empty());
    while i < all.len()
        invariant
            i <= all.len(),
            ethernet@ == "Ethernet Address:"@,
            match services {
                Some(names) => known == Some(strings(names@)),
                None => known is None,
            },
            (PortScan { port: port@, device: device@, ports: port_views(ports@) })
                == spec_port_scan(texts(all@).take(i as int), known),
            distinct_names(port_views(ports@)),
            all_named(port_views(ports@)),
        decreases all.len() - i,
    {
        assert(texts(all@).take(i + 1).drop_last() =~= texts(all@).take(i as int));
        let line = all[i].as_slice();
        match read_port_line(line) {
            PortLine::Port(name) => {
                port = name;
            },
            PortLine::Device(name) => {
                device = name;
            },
            PortLine::Other => {
                if starts_with(line, ethernet.as_slice()) || line.len() == 0 {
                    if port.len() > 0 && device.len() > 0 && !bears_name(&ports, port.as_slice()) {
                        let ghost before = port_views(ports@);
                        let name = string_of(port.as_slice());
                        let in_use = match &services {
                            Some(names) => is_listed(names, name.as_str()),
                            None => true,
                        };
                        let entry = HardwarePort {
                            name,
                            device: string_of(device.as_slice()),
                            in_use,
                        };
                        ports.push(entry);
                        assert(port_views(ports@) =~= before.push(entry@));
                    }
                    if line.len() == 0 {
                        port = Vec::new();
                        device = Vec::new();
                    }
                }
            },
        }
        i += 1;
    }
    assert(texts(all@).take(all@.len() as int) =~= texts(all@));
    ports
}

/// The plan that puts the services in the given order. An empty list is
/// refused. Each name is one quoted word of the command.
pub open spec fn spec_order_plan(services: Seq<Seq<char>>) -> Result<AdminPlanView, Seq<char>> {
    if services.len() == 0 {
        Err("Service list cannot be empty"@)
    } else {
        Ok(
            AdminPlanView {
                command: "networksetup -ordernetworkservices "@ + spec_join(
                    spec_quoted(services),
                    " "@,
                ),
                success: "Service order updated successfully"@,
            },
        )
    }
}

/// Each of the given names as one quoted word.
pub open spec fn spec_quoted(names: Seq<Seq<char>>) -> Seq<Seq<char>> {
    names.map_values(|name: Seq<char>| spec_quote(name))
}

/// Plans the command that puts the services in the given order.
pub fn order_plan(services: &Vec<String>) -> (r: Result<AdminPlan, String>)
    ensures
        plan_result(r) == spec_order_plan(strings(services@)),
{
    if services.len() == 0 {
        return Err("Service list cannot be empty".to_owned());
    }
    let mut words: Vec<Vec<char>> = Vec::new();
    let mut i: usize = 0;
    while i < services.len()
        invariant
            i <= services.len(),
            texts(words@) == spec_quoted(strings(services@)).take(i as int),
        decreases services.len() - i,
    {
        let ghost before = texts(words@);
        let mut word: Vec<char> = Vec::new();
        append_quoted(&mut word, chars_of(services[i].as_str()).as_slice());
        words.push(word);
        assert(texts(words@) =~= before.push(word@));
        i += 1;
    }
    assert(spec_quoted(strings(services@)).take(services@.len() as int) =~= spec_quoted(
        strings(services@),
    ));
    let mut command = chars_of("networksetup -ordernetworkservices ");
    let listed = join(&words, chars_of(" ").as_slice());
    append(&mut command, listed.as_slice());
    Ok(
        AdminPlan {
            command: string_of(command.as_slice()),
            success: "Service order updated successfully".to_owned(),
        },
    )
}

/// The names that an optional list of strings holds.
pub open spec fn option_strings(names: Option<&Vec<String>>) -> Option<Seq<Seq<char>>> {
    match names {
        Some(v) => Some(strings(v@)),
        None => None,
    }
}

/// The message of a refusal.
pub open spec fn refusal_text(r: Result<(), String>) -> Result<(), Seq<char>> {
    match r {
        Ok(_) => Ok(()),
        Err(e) => Err(e@),
    }
}

/// What of the creation of the service `name` on `hardware_port` is
/// refused before the services there are have been asked for: an empty
/// name, then an empty port.
pub open spec fn spec_create_request(name: Seq<char>, hardware_port: Seq<char>) -> Result<
    (),
    Seq<char>,
> {
    if name.len() == 0 {
        Err("Service name cannot be empty"@)
    } else if hardware_port.len() == 0 {
        Err("Hardware port cannot be empty"@)
    } else {
        Ok(())
    }
}

/// Checks the name and the port of a service to create, before anything is
/// asked of the system.
pub fn create_request(name: &str, hardware_port: &str) -> (r: Result<(), String>)
    ensures
        refusal_text(r) == spec_create_request(name@, hardware_port@),
{
    if name.is_empty() {
        Err("Service name cannot be empty".to_owned())
    } else if hardware_port.is_empty() {
        Err("Hardware port cannot be empty".to_owned())
    } else {
        Ok(())
    }
}

/// The plan that creates the service `name` on `hardware_port`. `existing`
/// holds the names of the services there are, where they are known. What
/// `spec_create_request` refuses is refused, and then a name that a known
/// service bears.
pub open spec fn spec_create_plan(
    name: Seq<char>,
    hardware_port: Seq<char>,
    existing: Option<Seq<Seq<char>>>,
) -> Result<AdminPlanView, Seq<char>> {
    match spec_create_request(name, hardware_port) {
        Err(refusal) => Err(refusal),
        Ok(_) => if existing is Some && existing.unwrap().contains(name) {
            Err("Service name already exists"@)
        } else {
            Ok(
                AdminPlanView {
                    command: "networksetup -createnetworkservice "@ + spec_quote(name) + " "@
                        + spec_quote(hardware_port),
                    success: "Network service '"@ + name + "' created successfully"@,
                },
            )
        },
    }
}

/// Plans the command that creates the service `name` on `hardware_port`.
pub fn create_plan(name: &str, hardware_port: &str, existing: Option<&Vec<String>>) -> (r: Result<
    AdminPlan,
    String,
>)
    ensures
        plan_result(r) == spec_create_plan(name@, hardware_port@, option_strings(existing)),
{
    if let Err(refusal) = create_request(name, hardware_port) {
        return Err(refusal);
    }
    if let Some(names) = existing {
        if is_listed(names, name) {
            return Err("Service name already exists".to_owned());
        }
    }
    let mut command = chars_of("networksetup -createnetworkservice ");
    append_quoted(&mut command, chars_of(name).as_slice());
    append_str(&mut command, " ");
    append_quoted(&mut command, chars_of(hardware_port).as_slice());
    let mut success = chars_of("Network service '");
    append_str(&mut success, name);
    append_str(&mut success, "' created successfully");
    Ok(
        AdminPlan {
            command: string_of(command.as_slice()),
            success: string_of(success.as_slice()),
        },
    )
}

/// What of the removal of the service `name` is refused before the
/// services there are have been asked for: an empty name.
pub open spec fn spec_remove_request(name: Seq<char>) -> Result<(), Seq<char>> {
    if name.len() == 0 {
        Err("Service name cannot be empty"@)
    } else {
        Ok(())
    }
}

/// Checks the name of a service to remove, before anything is asked of the
/// system.
pub fn remove_request(name: &str) -> (r: Result<(), String>)
    ensures
        refusal_text(r) == spec_remove_request(name@),
{
    if name.is_empty() {
        Err("Service name cannot be empty".to_owned())
    } else {
        Ok(())
    }
}

/// The plan that removes the service `name`. `existing` holds the names of
/// the services there are, where they are known. What `spec_remove_request`
/// refuses is refused; then, where the services are known, the removal of
/// the only service, and a name that none of them bears.
pub open spec fn spec_remove_plan(name: Seq<char>, existing: Option<Seq<Seq<char>>>) -> Result<
    AdminPlanView,
    Seq<char>,
> {
    match spec_remove_request(name) {
        Err(refusal) => Err(refusal),
        Ok(_) => if existing is Some && existing.unwrap().len() <= 1 {
            Err("Cannot remove the only network service"@)
        } else if existing is Some && !existing.unwrap().contains(name) {
            Err("Network service '"@ + name + "' does not exist"@)
        } else {
            Ok(
                AdminPlanView {
                    command: "networksetup -removenetworkservice "@ + spec_quote(name),
                    success: "Network service '"@ + name + "' removed successfully"@,
                },
            )
        },
    }
}

/// Plans the command that removes the service `name`.
pub fn remove_plan(name: &str, existing: Option<&Vec<String>>) -> (r: Result<AdminPlan, String>)
    ensures
        plan_result(r) == spec_remove_plan(name@, option_strings(existing)),
{
    if let Err(refusal) = remove_request(name) {
        return Err(refusal);
    }
    if let Some(names) = existing {
        if names.len() <= 1 {
            return Err("Cannot remove the only network service".to_owned());
        }
        if !is_listed(names, name) {
            let mut message = chars_of("Network service '");
            append_str(&mut message, name);
            append_str(&mut message, "' does not exist");
            return Err(string_of(message.as_slice()));
        }
    }
    let mut command = chars_of("networksetup -removenetworkservice ");
    append_quoted(&mut command, chars_of(name).as_slice());
    let mut success = chars_of("Network service '");
    append_str(&mut success, name);
    append_str(&mut success, "' removed successfully");
    Ok(
        AdminPlan {
            command: string_of(command.as_slice()),
            success: string_of(success.as_slice()),
        },
    )
}

} // verus!
