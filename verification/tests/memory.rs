use dink_bridge::memory::parse_vm_rss_kb;

/// The same reading with the standard library's string functions.
fn by_std(contents: &str) -> Option<u64> {
    for line in contents.lines() {
        if let Some(val) = line.strip_prefix("VmRSS:") {
            let kb_str = val.trim().trim_end_matches(" kB").trim();
            if let Ok(kb) = kb_str.parse::<u64>() {
                return Some(kb);
            }
        }
    }
    None
}

#[test]
fn reads_the_resident_set_size() {
    let status = "Name:\tdaemon\nVmPeak:\t  204800 kB\nVmRSS:\t   51200 kB\nThreads:\t8\n";
    assert_eq!(parse_vm_rss_kb(status), Some(51200));
    assert_eq!(parse_vm_rss_kb("VmRSS: 7 kB"), Some(7));
    assert_eq!(parse_vm_rss_kb("VmRSS:7"), Some(7));
    assert_eq!(parse_vm_rss_kb("VmRSS: 12 kB kB\n"), Some(12));
    assert_eq!(parse_vm_rss_kb("VmRSS:\t+12   kB  \r\nVmRSS: 3 kB"), Some(12));
}

#[test]
fn skips_lines_that_state_no_number() {
    assert_eq!(parse_vm_rss_kb("VmRSS: lots kB\nVmRSS: 9 kB\n"), Some(9));
    assert_eq!(parse_vm_rss_kb("VmRSS:\nVmRSS: 4\n"), Some(4));
    assert_eq!(parse_vm_rss_kb(" VmRSS: 4 kB\n"), None);
    assert_eq!(parse_vm_rss_kb("vmrss: 4 kB\n"), None);
    assert_eq!(parse_vm_rss_kb("VmRSS: 4 KB\n"), None);
    assert_eq!(parse_vm_rss_kb("VmRSS: 4kB\n"), None);
    assert_eq!(parse_vm_rss_kb("VmRSS: 18446744073709551616 kB\n"), None);
    assert_eq!(parse_vm_rss_kb("VmRSS: 18446744073709551615 kB\n"), Some(u64::MAX));
    assert_eq!(parse_vm_rss_kb(""), None);
    assert_eq!(parse_vm_rss_kb("\n\n"), None);
}

#[test]
fn agrees_with_the_standard_string_functions() {
    let cases = [
        "VmRSS:\t   51200 kB\n",
        "VmRSS: 1 kB\r\n",
        "VmRSS: 1 kB\r",
        "VmRSS: 1\r",
        "VmRSS:\r\n",
        "VmRSS: 1 kB \u{a0}\n",
        "VmRSS:\u{2003}22 kB\n",
        "VmRSS: 5 kB kB kB",
        "VmRSS: kB",
        "VmRSS:  kB 5",
        "VmRSS: 5  kB",
        "VmRSS: 5 kB\u{b}\n",
        "A\rVmRSS: 5\n",
        "A\r\nVmRSS: 5\n",
        "A\n\rVmRSS: 5\n",
        "VmRSS: 0005\nVmRSS: 6",
        "VmRSS: -5\nX\nVmRSS: 6",
        "VmRSS:5 kBkB",
        "VmRSS",
        "VmRSS:",
        "VmRSS: \n",
        "\nVmRSS: 8",
    ];
    for c in cases {
        assert_eq!(parse_vm_rss_kb(c), by_std(c), "on {c:?}");
    }
}
