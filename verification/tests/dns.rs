use mac_net_repair::command::{Invocation, Plan, Step};
use mac_net_repair::dns::{
    dns_query_step, dns_settings, flush_plan, servers_set, set_dns_outcome, set_dns_step,
    DnsSettings,
};

fn strings(items: &[&str]) -> Vec<String> {
    items.iter().map(|s| s.to_string()).collect()
}

fn invocation(program: &str, args: &[&str]) -> Invocation {
    Invocation { program: program.to_string(), args: strings(args), directory: None }
}

/// The same reading, written with the standard library's string methods.
fn read_with_std(output: &str) -> Vec<String> {
    let mut servers = Vec::new();
    for line in output.lines() {
        let line = line.trim();
        if !line.is_empty() && !line.contains("aren't any") && !line.contains("There aren't") {
            servers.push(line.to_string());
        }
    }
    servers
}

#[test]
fn dns_query() {
    assert_eq!(
        dns_query_step("Wi-Fi"),
        Step {
            invocation: invocation("networksetup", &["-getdnsservers", "Wi-Fi"]),
            failure: Some("Failed to execute command: ".to_string()),
        }
    );
}

#[test]
fn reads_the_servers_in_order() {
    assert_eq!(
        dns_settings("Wi-Fi", "8.8.8.8\n1.1.1.1\n2001:4860:4860::8888\n"),
        DnsSettings {
            servers: strings(&["8.8.8.8", "1.1.1.1", "2001:4860:4860::8888"]),
            service_name: "Wi-Fi".to_string(),
        }
    );
}

#[test]
fn reads_no_servers_from_the_notice() {
    let settings = dns_settings("Wi-Fi", "There aren't any DNS Servers set on Wi-Fi.\n");
    assert_eq!(settings, DnsSettings { servers: vec![], service_name: "Wi-Fi".to_string() });
    assert_eq!(dns_settings("x", "").servers, Vec::<String>::new());
    assert_eq!(dns_settings("x", "\n  \n\t\n").servers, Vec::<String>::new());
    assert_eq!(dns_settings("x", "There aren't servers\n").servers, Vec::<String>::new());
    assert_eq!(dns_settings("x", "they aren't any good\n").servers, Vec::<String>::new());
    assert_eq!(dns_settings("x", "there aren't\n").servers, strings(&["there aren't"]));
}

#[test]
fn servers_are_trimmed_and_blank_lines_dropped() {
    assert_eq!(
        dns_settings("s", "  8.8.8.8 \r\n\r\n\t9.9.9.9\n").servers,
        strings(&["8.8.8.8", "9.9.9.9"])
    );
}

#[test]
fn dns_settings_agree_with_std() {
    let outputs = [
        "",
        "8.8.8.8\n",
        "8.8.8.8\r\n8.8.4.4\r\n",
        "There aren't any DNS Servers set on Ethernet.\n",
        " a \n\n b\n There aren't\n aren't any\n c",
        "** Error: The parameters were not valid.\n",
        "\u{3000}x\u{3000}\n\u{85}\n",
    ];
    for output in outputs {
        assert_eq!(dns_settings("svc", output).servers, read_with_std(output), "on {:?}", output);
    }
}

#[test]
fn step_that_sets_servers() {
    assert_eq!(
        set_dns_step("Wi-Fi", &strings(&["8.8.8.8", "1.1.1.1"])),
        Step {
            invocation: invocation("networksetup", &["-setdnsservers", "Wi-Fi", "8.8.8.8", "1.1.1.1"]),
            failure: Some("Failed to execute command: ".to_string()),
        }
    );
}

#[test]
fn step_that_clears_servers() {
    assert_eq!(
        set_dns_step("Wi-Fi", &vec![]),
        Step {
            invocation: invocation("networksetup", &["-setdnsservers", "Wi-Fi", "Empty"]),
            failure: Some("Failed to execute command: ".to_string()),
        }
    );
}

#[test]
fn outcome_of_setting_servers() {
    assert_eq!(
        set_dns_outcome("Wi-Fi", &strings(&["8.8.8.8", "1.1.1.1"]), true, ""),
        Ok("DNS servers set to [\"8.8.8.8\", \"1.1.1.1\"] for Wi-Fi".to_string())
    );
    assert_eq!(
        set_dns_outcome("Wi-Fi", &strings(&["8.8.8.8"]), true, "ignored"),
        Ok("DNS servers set to [\"8.8.8.8\"] for Wi-Fi".to_string())
    );
}

#[test]
fn outcome_renders_servers_as_debug_does() {
    let lists = [
        strings(&["8.8.8.8"]),
        strings(&["a\"b", "c\\d", "tab\there", "line\nfeed", "é", "\u{7f}", "'", "\u{200b}"]),
        strings(&["", " "]),
    ];
    for servers in lists {
        assert_eq!(
            set_dns_outcome("Wi-Fi", &servers, true, ""),
            Ok(format!("DNS servers set to {:?} for {}", servers, "Wi-Fi"))
        );
    }
}

#[test]
fn outcome_of_clearing_servers() {
    assert_eq!(
        set_dns_outcome("Wi-Fi", &vec![], true, ""),
        Ok("DNS servers cleared for Wi-Fi".to_string())
    );
}

#[test]
fn outcome_of_a_failed_command() {
    assert_eq!(
        set_dns_outcome("Nope", &strings(&["8.8.8.8"]), false, "Nope is not a recognized network service.\n"),
        Err("Failed to set DNS servers: Nope is not a recognized network service.\n".to_string())
    );
    assert_eq!(
        set_dns_outcome("Nope", &vec![], false, ""),
        Err("Failed to set DNS servers: ".to_string())
    );
}

#[test]
fn message_for_servers_set() {
    assert_eq!(servers_set(&strings(&["\"a\"", "\"b\""]), "Wi-Fi"), "DNS servers set to [\"a\", \"b\"] for Wi-Fi");
    assert_eq!(servers_set(&strings(&["x"]), ""), "DNS servers set to [x] for ");
    assert_eq!(servers_set(&vec![], "s"), "DNS servers set to [] for s");
}

#[test]
fn plan_to_flush_the_cache() {
    assert_eq!(
        flush_plan(),
        Plan {
            steps: vec![
                Step {
                    invocation: invocation("dscacheutil", &["-flushcache"]),
                    failure: Some("Failed to flush DNS cache: ".to_string()),
                },
                Step { invocation: invocation("killall", &["-HUP", "mDNSResponder"]), failure: None },
            ],
            success: "DNS cache flushed successfully".to_string(),
        }
    );
}

#[test]
fn no_server_is_without_a_name() {
    for output in ["", "\n\n", " \n8.8.8.8\n\t\n", "There aren't any\n\r\n"] {
        for server in dns_settings("s", output).servers {
            assert!(!server.is_empty());
        }
    }
}
