use mac_net_repair::diagnostics::{average_fields, default_interface, port_listed};
use mac_net_repair::dns::dns_settings;
use mac_net_repair::network::{
    hardware_ports, interface_status, listed_services, service_order, HardwarePort,
    InterfaceStatus, ListedService,
};
use mac_net_repair::proxy::{parse_proxy_output, ProxyConfig};
use mac_net_repair::text::{
    contains, find, lines, parse_u16, replace, split, starts_with, trim, trim_end_char,
    trim_start_matches,
};
use std::collections::HashSet;

/// A small generator of repeatable pseudo-random numbers.
struct Generator(u64);

impl Generator {
    fn next(&mut self) -> u64 {
        self.0 ^= self.0 << 13;
        self.0 ^= self.0 >> 7;
        self.0 ^= self.0 << 17;
        self.0
    }

    fn below(&mut self, n: usize) -> usize {
        (self.next() % n as u64) as usize
    }

    /// A text of up to `most` tokens, each drawn from `tokens`.
    fn text(&mut self, tokens: &[&str], most: usize) -> String {
        let count = self.below(most + 1);
        let mut out = String::new();
        for _ in 0..count {
            out.push_str(tokens[self.below(tokens.len())]);
        }
        out
    }
}

fn cs(s: &str) -> Vec<char> {
    s.chars().collect()
}

fn st(v: &[char]) -> String {
    v.iter().collect()
}

const TEXT_TOKENS: [&str; 14] =
    ["a", "b", "ab", "ba", " ", "\t", "\n", "\r", "\r\n", "\u{a0}", "é", ")", "::", "\""];

const TEXT_PATTERNS: [&str; 10] = ["a", "b", "ab", "aba", "abab", "\n", " ", ")", "::", "é"];

#[test]
fn text_operations_agree_with_std_on_generated_texts() {
    let mut g = Generator(0x9E3779B97F4A7C15);
    for _ in 0..3000 {
        let s = g.text(&TEXT_TOKENS, 12);
        let p = TEXT_PATTERNS[g.below(TEXT_PATTERNS.len())];
        let w = g.text(&TEXT_TOKENS, 2);
        let chars = cs(&s);
        assert_eq!(st(&trim(&chars)), s.trim(), "trim {:?}", s);
        let got: Vec<String> = lines(&chars).iter().map(|l| st(l)).collect();
        let want: Vec<String> = s.lines().map(|l| l.to_string()).collect();
        assert_eq!(got, want, "lines {:?}", s);
        let got: Vec<String> = split(&chars, &cs(p)).iter().map(|l| st(l)).collect();
        let want: Vec<String> = s.split(p).map(|l| l.to_string()).collect();
        assert_eq!(got, want, "split {:?} by {:?}", s, p);
        assert_eq!(st(&replace(&chars, &cs(p), &cs(&w))), s.replace(p, &w), "replace in {:?}", s);
        assert_eq!(find(&chars, &cs(p)), s.find(p).map(|b| s[..b].chars().count()));
        assert_eq!(contains(&chars, &cs(p)), s.contains(p));
        assert_eq!(starts_with(&chars, &cs(p)), s.starts_with(p));
        assert_eq!(st(&trim_start_matches(&chars, &cs(p))), s.trim_start_matches(p));
        assert_eq!(st(&trim_end_char(&chars, ')')), s.trim_end_matches(')'));
    }
}

#[test]
fn parse_u16_agrees_with_std_on_generated_texts() {
    let tokens = ["0", "1", "5", "6", "9", "+", "-", " ", "x", "٣"];
    let mut g = Generator(0xD1B54A32D192ED03);
    for _ in 0..20000 {
        let s = g.text(&tokens, 7);
        assert_eq!(parse_u16(&cs(&s)), s.parse::<u16>().ok(), "on {:?}", s);
    }
}

/// The same reading, written with the standard library's string methods.
fn proxy_with_std(output: &str) -> ProxyConfig {
    let mut config = ProxyConfig::default();
    for line in output.lines() {
        let line = line.trim();
        if line.starts_with("Enabled:") {
            config.enabled = line.contains("Yes");
        } else if line.starts_with("Server:") {
            config.server = line.replace("Server:", "").trim().to_string();
        } else if line.starts_with("Port:") {
            if let Ok(port) = line.replace("Port:", "").trim().parse() {
                config.port = port;
            }
        }
    }
    config
}

#[test]
fn proxy_reading_agrees_with_std_on_generated_outputs() {
    let tokens = [
        "Enabled:", "Server:", "Port:", "Yes", "No", " ", "\n", "\n", "\r\n", "\t", "8", "0",
        "65535", "7", "+", "proxy.example", "Port", ":", "x",
    ];
    let mut g = Generator(0xA0761D6478BD642F);
    for _ in 0..4000 {
        let output = g.text(&tokens, 14);
        assert_eq!(parse_proxy_output(&output), proxy_with_std(&output), "on {:?}", output);
    }
}

/// The same reading, written with the standard library's string methods.
fn dns_with_std(output: &str) -> Vec<String> {
    let mut servers = Vec::new();
    for line in output.lines() {
        let line = line.trim();
        if !line.is_empty() && !line.contains("aren't any") && !line.contains("There aren't") {
            servers.push(line.to_string());
        }
    }
    servers
}

#[test]
fn dns_reading_agrees_with_std_on_generated_outputs() {
    let tokens = [
        "There", " ", "aren't", "any", "There aren't", " any", "\n", "\n", "\r\n", "8.8.8.8",
        "1.1.1.1", "\t", "are",
    ];
    let mut g = Generator(0xE7037ED1A0B428DB);
    for _ in 0..4000 {
        let output = g.text(&tokens, 12);
        assert_eq!(dns_settings("s", &output).servers, dns_with_std(&output), "on {:?}", output);
    }
}

/// The same reading, written with the standard library's string methods.
fn listed_with_std(stdout: &str) -> Vec<ListedService> {
    let mut services = Vec::new();
    let mut current_service: Option<(String, bool)> = None;
    for line in stdout.lines() {
        let line = line.trim();
        if line.starts_with("(Hardware Port:") && current_service.is_some() {
            let (service_name, enabled) = current_service.take().unwrap();
            let inner = line.trim_start_matches("(Hardware Port:").trim_end_matches(')');
            let parts: Vec<&str> = inner.split(", Device:").collect();
            if parts.len() == 2 {
                services.push(ListedService {
                    name: service_name,
                    hardware_port: parts[0].trim().to_string(),
                    device: parts[1].trim().to_string(),
                    enabled,
                });
            }
        } else if line.starts_with('(') && line.contains(')') {
            let is_disabled = line.starts_with("(*)");
            if let Some(name) = line.split(')').nth(1) {
                let name = name.trim().to_string();
                if !name.is_empty() {
                    current_service = Some((name, !is_disabled));
                }
            }
        }
    }
    services
}

/// The same reading, written with the standard library's string methods.
fn order_with_std(stdout: &str) -> Vec<String> {
    let mut services = Vec::new();
    for line in stdout.lines() {
        if line.starts_with('(') && line.contains(')') {
            if let Some(name) = line.split(')').nth(1) {
                let name = name.trim().to_string();
                if !name.is_empty() && !name.starts_with("Hardware Port") {
                    services.push(name);
                }
            }
        }
    }
    services
}

const ORDER_TOKENS: [&str; 20] = [
    "(1)", "(2)", "(*)", "(", ")", " ", "\n", "\n", "\n", "\r\n", "(Hardware Port:",
    "Hardware Port", ", Device:", " Wi-Fi", " Ethernet", "en0", "en1", ",", "Device:", "x",
];

#[test]
fn service_listing_agrees_with_std_on_generated_listings() {
    let mut g = Generator(0x589965CC75374CC3);
    for _ in 0..5000 {
        let listing = g.text(&ORDER_TOKENS, 16);
        assert_eq!(listed_services(&listing), listed_with_std(&listing), "on {:?}", listing);
        assert_eq!(service_order(&listing), order_with_std(&listing), "on {:?}", listing);
    }
}

/// The same reading, written with the standard library's string methods
/// and a hash set.
fn ports_with_std(stdout: &str, order: Option<&str>) -> Vec<HardwarePort> {
    let mut ports = Vec::new();
    let mut seen_names = HashSet::new();
    let mut current_port = String::new();
    let mut current_device = String::new();
    for line in stdout.lines() {
        if line.starts_with("Hardware Port:") {
            current_port = line.replace("Hardware Port: ", "").trim().to_string();
        } else if line.starts_with("Device:") {
            current_device = line.replace("Device: ", "").trim().to_string();
        } else if line.starts_with("Ethernet Address:") || line.is_empty() {
            if !current_port.is_empty() && !current_device.is_empty() {
                if !seen_names.contains(&current_port) {
                    seen_names.insert(current_port.clone());
                    ports.push(HardwarePort {
                        name: current_port.clone(),
                        device: current_device.clone(),
                        in_use: true,
                    });
                }
            }
            if line.is_empty() {
                current_port.clear();
                current_device.clear();
            }
        }
    }
    if let Some(order) = order {
        let services = order_with_std(order);
        for port in &mut ports {
            port.in_use = services.iter().any(|s| s == &port.name);
        }
    }
    ports
}

/// The same search, written with the standard library's string methods.
fn port_listed_with_std(listing: &str, iface: &str) -> bool {
    let mut current_port = String::new();
    for svc_line in listing.lines() {
        if svc_line.starts_with("Hardware Port:") {
            current_port = svc_line.replace("Hardware Port: ", "").trim().to_string();
        } else if svc_line.starts_with("Device:") {
            let device = svc_line.replace("Device: ", "").trim().to_string();
            if device == iface && !current_port.is_empty() {
                return true;
            }
        }
    }
    false
}

const PORT_TOKENS: [&str; 18] = [
    "Hardware Port:", "Hardware Port: ", "Device:", "Device: ", "Ethernet Address:", "\n", "\n",
    "\n", "\n\n", "\r\n", " ", "Wi-Fi", "Ethernet", "en0", "en1", "x", ":", "N/A",
];

#[test]
fn port_listing_agrees_with_std_on_generated_listings() {
    let mut g = Generator(0x1D8E4E27C47D124F);
    for _ in 0..4000 {
        let listing = g.text(&PORT_TOKENS, 18);
        let order = g.text(&ORDER_TOKENS, 10);
        let ports = hardware_ports(&listing, Some(&order));
        assert_eq!(ports, ports_with_std(&listing, Some(&order)), "on {:?}", listing);
        assert_eq!(
            hardware_ports(&listing, None),
            ports_with_std(&listing, None),
            "on {:?}",
            listing
        );
        let names: HashSet<&String> = ports.iter().map(|p| &p.name).collect();
        assert_eq!(names.len(), ports.len());
        for iface in ["en0", "en1", "", "x"] {
            assert_eq!(
                port_listed(&listing, iface),
                port_listed_with_std(&listing, iface),
                "{:?} in {:?}",
                iface,
                listing
            );
        }
    }
}

/// The same judgement, written with the standard library's string methods.
fn status_with_std(device: &str, output: Option<&str>) -> InterfaceStatus {
    if device.is_empty() {
        return InterfaceStatus::Unavailable;
    }
    match output {
        Some(stdout) => {
            if stdout.contains("status: active") {
                InterfaceStatus::Connected
            } else if stdout.contains("status: inactive") {
                InterfaceStatus::Disconnected
            } else if stdout.contains("flags=") {
                if stdout.contains("inet ") && !stdout.contains("inet 127.") {
                    InterfaceStatus::Connected
                } else {
                    InterfaceStatus::Disconnected
                }
            } else {
                InterfaceStatus::Unavailable
            }
        }
        None => InterfaceStatus::Unavailable,
    }
}

#[test]
fn interface_status_agrees_with_std_on_generated_outputs() {
    let tokens = [
        "status:", " ", "active", "inactive", "flags=", "inet", "inet ", "127.", "10.", "\n",
        "in", "et", "status: ",
    ];
    let mut g = Generator(0xEB44ACCAB455D165);
    for _ in 0..4000 {
        let output = g.text(&tokens, 10);
        for device in ["", "en0"] {
            assert_eq!(
                interface_status(device, Some(&output)),
                status_with_std(device, Some(&output)),
                "on {:?}",
                output
            );
        }
    }
}

/// The same reading, written with the standard library's string methods.
fn fields_with_std(stdout: &str) -> Vec<String> {
    let mut fields = Vec::new();
    for line in stdout.lines() {
        if line.contains("avg") || line.contains("平均") {
            if let Some(stats) = line.split('=').nth(1) {
                let parts: Vec<&str> = stats.trim().split('/').collect();
                if parts.len() >= 2 {
                    fields.push(parts[1].trim().to_string());
                }
            }
        }
    }
    fields
}

/// The same reading, written with the standard library's string methods.
fn interface_with_std(stdout: &str) -> Option<String> {
    for line in stdout.lines() {
        if line.contains("interface:") {
            return line.split(':').nth(1).map(|s| s.trim().to_string());
        }
    }
    None
}

#[test]
fn diagnostics_agree_with_std_on_generated_outputs() {
    let ping_tokens =
        ["avg", "平均", "av", "g", "=", "/", " ", "\n", "\r\n", "1.5", "2", "min", "\t", "平"];
    let route_tokens =
        ["interface:", "interface", ":", " ", "\n", "\r\n", "en0", "gateway:", "x", "\t"];
    let mut g = Generator(0x2545F4914F6CDD1D);
    for _ in 0..4000 {
        let output = g.text(&ping_tokens, 14);
        assert_eq!(average_fields(&output), fields_with_std(&output), "on {:?}", output);
        let route = g.text(&route_tokens, 10);
        assert_eq!(default_interface(&route), interface_with_std(&route), "on {:?}", route);
    }
}
