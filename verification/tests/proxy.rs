use mac_net_repair::command::{Invocation, Plan, Step};
use mac_net_repair::proxy::{
    clear_proxies_plan, parse_proxy_output, proxy_query, proxy_settings, set_proxy_plan,
    ProxyConfig, ProxyKind, ProxySettings,
};

fn config(enabled: bool, server: &str, port: u16) -> ProxyConfig {
    ProxyConfig { enabled, server: server.to_string(), port }
}

fn networksetup(args: &[&str]) -> Invocation {
    Invocation {
        program: "networksetup".to_string(),
        args: args.iter().map(|a| a.to_string()).collect(),
        directory: None,
    }
}

fn step(args: &[&str], failure: &str) -> Step {
    Step { invocation: networksetup(args), failure: Some(failure.to_string()) }
}

/// The same reading, written with the standard library's string methods.
fn read_with_std(output: &str) -> ProxyConfig {
    let mut config = ProxyConfig::default();
    for line in output.lines() {
        let line = line.trim();
        if line.starts_with("Enabled:") {
            config.enabled = line.contains("Yes");
        } else if line.starts_with("Server:") {
            config.server = line.replace("Server:", "").trim().to_string();
        } else if line.starts_with("Port:") {
            if let Ok(port) = line.replace("Port:", "").trim().parse() {
                config.port = port;
            }
        }
    }
    config
}

#[test]
fn default_proxy_is_off() {
    assert_eq!(ProxyConfig::default(), config(false, "", 0));
    let settings = ProxySettings::default();
    assert_eq!(settings.http_proxy, config(false, "", 0));
    assert_eq!(settings.https_proxy, config(false, "", 0));
    assert_eq!(settings.socks_proxy, config(false, "", 0));
    assert_eq!(settings.service_name, "");
}

#[test]
fn reads_an_enabled_proxy() {
    let output = "Enabled: Yes\nServer: proxy.example.com\nPort: 8080\nAuthenticated Proxy Enabled: 0\n";
    assert_eq!(parse_proxy_output(output), config(true, "proxy.example.com", 8080));
}

#[test]
fn reads_a_disabled_proxy() {
    let output = "Enabled: No\nServer: \nPort: 0\nAuthenticated Proxy Enabled: 0\n";
    assert_eq!(parse_proxy_output(output), config(false, "", 0));
}

#[test]
fn reads_nothing_from_empty_output() {
    assert_eq!(parse_proxy_output(""), config(false, "", 0));
    assert_eq!(parse_proxy_output("\n\n"), config(false, "", 0));
    assert_eq!(parse_proxy_output("** Error: The parameters were not valid.\n"), config(false, "", 0));
}

#[test]
fn last_line_of_a_kind_wins() {
    let output = "Enabled: Yes\nServer: a\nPort: 1\nEnabled: No\nServer: b\nPort: 2\n";
    assert_eq!(parse_proxy_output(output), config(false, "b", 2));
}

#[test]
fn port_that_is_no_u16_is_passed_over() {
    assert_eq!(parse_proxy_output("Port: 80\nPort: 65536\n").port, 80);
    assert_eq!(parse_proxy_output("Port: 80\nPort: -1\n").port, 80);
    assert_eq!(parse_proxy_output("Port: 80\nPort: abc\n").port, 80);
    assert_eq!(parse_proxy_output("Port: 80\nPort:\n").port, 80);
    assert_eq!(parse_proxy_output("Port: 80\nPort: 8 0\n").port, 80);
    assert_eq!(parse_proxy_output("Port: 65535\n").port, 65535);
    assert_eq!(parse_proxy_output("Port: +443\n").port, 443);
    assert_eq!(parse_proxy_output("Port: 0443\n").port, 443);
}

#[test]
fn label_is_taken_out_wherever_it_stands() {
    assert_eq!(parse_proxy_output("Server: Server:x Server:\n").server, "x");
    assert_eq!(parse_proxy_output("Port: 1Port:2\n").port, 12);
    assert_eq!(parse_proxy_output("  \tServer:   spaced.example  \r\n").server, "spaced.example");
}

#[test]
fn enabled_asks_for_yes_anywhere_in_the_line() {
    assert!(parse_proxy_output("Enabled: Yes\n").enabled);
    assert!(parse_proxy_output("Enabled:Yes").enabled);
    assert!(parse_proxy_output("Enabled: No, not Yes\n").enabled);
    assert!(!parse_proxy_output("Enabled: yes\n").enabled);
    assert!(!parse_proxy_output("Enabled: YES\n").enabled);
    assert!(!parse_proxy_output("enabled: Yes\n").enabled);
    assert!(!parse_proxy_output("x Enabled: Yes\n").enabled);
}

#[test]
fn parse_proxy_output_agrees_with_std() {
    let outputs = [
        "",
        "Enabled: Yes\nServer: proxy.example.com\nPort: 8080\nAuthenticated Proxy Enabled: 0\n",
        "Enabled: No\nServer: \nPort: 0\n",
        "Enabled: Yes\r\nServer: 10.0.0.1\r\nPort: 3128\r\n",
        "Server: one\nServer: two\nPort: x\nPort: 70000\nPort: 7\nEnabled: Yes\nEnabled:\n",
        "  Enabled: Yes  \n\tServer:\ta b\t\n Port:\u{a0}9\u{a0}\n",
        "Enabled: Yes Server: s Port: 1\n",
        "Port: Port: 5\nServer:Server:\nEnabled:Enabled: Yes",
        "Port: ٣\nServer: 服务器\nEnabled: 是 Yes\n",
        "Port:+\nPort:+0\nPort:00000000000000000001\n",
        "Port: 99999999999999999999\n",
    ];
    for output in outputs {
        assert_eq!(parse_proxy_output(output), read_with_std(output), "on {:?}", output);
    }
}

#[test]
fn proxy_queries() {
    assert_eq!(proxy_query(ProxyKind::Http, "Wi-Fi"), networksetup(&["-getwebproxy", "Wi-Fi"]));
    assert_eq!(
        proxy_query(ProxyKind::Https, "Wi-Fi"),
        networksetup(&["-getsecurewebproxy", "Wi-Fi"])
    );
    assert_eq!(
        proxy_query(ProxyKind::Socks, "USB 10/100 LAN"),
        networksetup(&["-getsocksfirewallproxy", "USB 10/100 LAN"])
    );
}

#[test]
fn settings_from_three_answers() {
    let settings = proxy_settings(
        "Wi-Fi",
        Some("Enabled: Yes\nServer: h\nPort: 80\n"),
        None,
        Some("Enabled: No\nServer: s\nPort: 1080\n"),
    );
    assert_eq!(settings.service_name, "Wi-Fi");
    assert_eq!(settings.http_proxy, config(true, "h", 80));
    assert_eq!(settings.https_proxy, config(false, "", 0));
    assert_eq!(settings.socks_proxy, config(false, "s", 1080));
}

#[test]
fn plan_to_enable_a_proxy() {
    assert_eq!(
        set_proxy_plan(ProxyKind::Http, "Wi-Fi", true, "proxy.example.com", 8080),
        Plan {
            steps: vec![step(
                &["-setwebproxy", "Wi-Fi", "proxy.example.com", "8080"],
                "Failed to set HTTP proxy: "
            )],
            success: "HTTP proxy updated for Wi-Fi".to_string(),
        }
    );
    assert_eq!(
        set_proxy_plan(ProxyKind::Https, "Wi-Fi", true, "p", 0),
        Plan {
            steps: vec![step(&["-setsecurewebproxy", "Wi-Fi", "p", "0"], "Failed to set HTTPS proxy: ")],
            success: "HTTPS proxy updated for Wi-Fi".to_string(),
        }
    );
    assert_eq!(
        set_proxy_plan(ProxyKind::Socks, "Wi-Fi", true, "", 65535),
        Plan {
            steps: vec![step(
                &["-setsocksfirewallproxy", "Wi-Fi", "", "65535"],
                "Failed to set SOCKS proxy: "
            )],
            success: "SOCKS proxy updated for Wi-Fi".to_string(),
        }
    );
}

#[test]
fn plan_to_disable_a_proxy() {
    assert_eq!(
        set_proxy_plan(ProxyKind::Http, "Wi-Fi", false, "ignored", 1),
        Plan {
            steps: vec![step(&["-setwebproxystate", "Wi-Fi", "off"], "Failed to disable HTTP proxy: ")],
            success: "HTTP proxy updated for Wi-Fi".to_string(),
        }
    );
    assert_eq!(
        set_proxy_plan(ProxyKind::Https, "Wi-Fi", false, "", 0),
        Plan {
            steps: vec![step(
                &["-setsecurewebproxystate", "Wi-Fi", "off"],
                "Failed to disable HTTPS proxy: "
            )],
            success: "HTTPS proxy updated for Wi-Fi".to_string(),
        }
    );
    assert_eq!(
        set_proxy_plan(ProxyKind::Socks, "Wi-Fi", false, "", 0),
        Plan {
            steps: vec![step(
                &["-setsocksfirewallproxystate", "Wi-Fi", "off"],
                "Failed to disable SOCKS proxy: "
            )],
            success: "SOCKS proxy updated for Wi-Fi".to_string(),
        }
    );
}

#[test]
fn plan_to_clear_all_proxies() {
    assert_eq!(
        clear_proxies_plan("Ethernet"),
        Plan {
            steps: vec![
                step(&["-setwebproxystate", "Ethernet", "off"], "Failed to disable HTTP proxy: "),
                step(
                    &["-setsecurewebproxystate", "Ethernet", "off"],
                    "Failed to disable HTTPS proxy: "
                ),
                step(
                    &["-setsocksfirewallproxystate", "Ethernet", "off"],
                    "Failed to disable SOCKS proxy: "
                ),
                step(&["-setautoproxystate", "Ethernet", "off"], "Failed to disable auto proxy: "),
            ],
            success: "All proxies cleared for Ethernet".to_string(),
        }
    );
}
