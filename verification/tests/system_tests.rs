use phantom::capture::screen_text;
use phantom::display::{describe_display, enumerate_displays, secondary_display};
use phantom::env_report::{calculate_stealth_score, detect_vm_indicators, generate_report, vm_kext_paths};
use phantom::network::{
    jitter_delay_ms, keystroke_delay_bounds, keystroke_delay_ms, proxy_to_use, stealth_user_agent, JITTER_MAX_MS,
    JITTER_MIN_MS,
};
use phantom::proctor::{
    classify_application, copy_proctors, full_scan, is_proctor_launch_agent, scan_proctoring_software, scan_running_processes,
    suspect_ports, DetectedProctor,
};

#[test]
fn score_for_a_clean_mac() {
    assert_eq!(calculate_stealth_score("MacBookPro18,3", &[]), 100);
}

#[test]
fn score_penalties() {
    let one = vec!["x".to_string()];
    assert_eq!(calculate_stealth_score("MacBookPro18,3", &one), 65);
    assert_eq!(calculate_stealth_score("VMware7,1", &one), 55);
    assert_eq!(calculate_stealth_score("iMac", &[]), 90);
    let many: Vec<String> = (0..20).map(|i| i.to_string()).collect();
    assert_eq!(calculate_stealth_score("Mac", &many), 0);
    let wrap: Vec<String> = (0..257).map(|i| i.to_string()).collect();
    assert_eq!(calculate_stealth_score("Mac", &wrap), 65);
}

#[test]
fn vm_signs_in_order() {
    let signs = detect_vm_indicators(
        "VMware7,1",
        &vec![false, true, false],
        Some("launchd\nVBoxService\n".to_string()),
        Some("ether 00:50:56:aa:bb:cc\nether 08:00:27:00:00:01".to_string()),
    );
    assert_eq!(
        signs,
        vec![
            "hw.model contains 'vmware'".to_string(),
            "VM kext found: /Library/Extensions/VBoxGuest.kext".to_string(),
            "VM process running: vboxservice".to_string(),
            "VMware MAC OUI detected: 00:50:56".to_string(),
            "VirtualBox MAC OUI detected: 08:00:27".to_string(),
        ]
    );
    assert_eq!(vm_kext_paths().len(), 3);
}

#[test]
fn no_vm_signs_on_real_hardware() {
    let signs = detect_vm_indicators("MacBookAir10,1", &vec![false, false, false], None, None);
    assert!(signs.is_empty());
    let r = generate_report("MacBookAir10,1".to_string(), signs);
    assert!(!r.is_vm);
    assert_eq!(r.stealth_score, 100);
    let r = generate_report("QEMU".to_string(), vec!["hw.model contains 'qemu'".to_string()]);
    assert!(r.is_vm);
    assert_eq!(r.stealth_score, 55);
    assert_eq!(r.hw_model, "QEMU");
}

#[test]
fn process_listing_scan() {
    let found = scan_running_processes("launchd\n/Applications/Respondus LockDown Browser\nProctorio Helper");
    assert_eq!(found, vec!["respondus".to_string(), "lockdown".to_string(), "proctorio".to_string()]);
    assert!(scan_running_processes("launchd\nFinder").is_empty());
}

#[test]
fn launch_agents() {
    assert!(is_proctor_launch_agent("com.Honorlock.agent.plist"));
    assert!(!is_proctor_launch_agent("com.apple.backupd.plist"));
}

#[test]
fn ports() {
    assert_eq!(suspect_ports(), vec![11750, 11751, 23456, 23457, 18700, 18701, 21150, 21151]);
}

#[test]
fn applications_are_classified() {
    let p = classify_application("com.Proctorio.Helper", "Proctorio").unwrap();
    assert_eq!(p.name, "Proctorio");
    assert_eq!(p.bundle_id, "com.proctorio.helper");
    assert_eq!(p.process_name, "proctorio");
    let p = classify_application("org.example.app", "Examplify").unwrap();
    assert_eq!(p.name, "ExamSoft");
    assert!(classify_application("com.apple.finder", "Finder").is_none());
    let copies = copy_proctors(&vec![DetectedProctor {
        name: "a".to_string(),
        bundle_id: "b".to_string(),
        process_name: "c".to_string(),
    }]);
    assert_eq!(copies[0].process_name, "c");
}

#[test]
fn displays() {
    let d = describe_display(2, 1920, 1080, 1, true, 0);
    assert!(!d.is_primary);
    assert!(d.is_virtual);
    assert!(d.is_mirror);
    let main = describe_display(1, 2560, 1600, 1, false, 42);
    assert!(main.is_primary && !main.is_virtual);
    assert_eq!(secondary_display(&vec![main, d]), Some(1));
    assert_eq!(secondary_display(&vec![]), None);
}

#[test]
fn delays_stay_in_their_ranges() {
    for _ in 0..200 {
        let d = keystroke_delay_ms('a');
        assert!((40..160).contains(&d));
        let d = keystroke_delay_ms(' ');
        assert!((100..400).contains(&d));
        let d = keystroke_delay_ms('\n');
        assert!((100..400).contains(&d));
        let d = jitter_delay_ms();
        assert!((50..500).contains(&d));
    }
}

#[test]
fn proxy_and_agent() {
    assert_eq!(proxy_to_use(Some("http://p:8080")), Some("http://p:8080"));
    assert_eq!(proxy_to_use(Some("")), None);
    assert_eq!(proxy_to_use(None), None);
    assert!(stealth_user_agent().starts_with("Mozilla/5.0 (Macintosh; Intel Mac OS X 14_5)"));
}

#[test]
fn recognised_screen_text() {
    assert_eq!(screen_text("  hello\n"), Ok("hello".to_string()));
    assert_eq!(screen_text(" \n\t"), Err("OCR extracted no text from screenshot.".to_string()));
}

#[test]
fn running_applications_are_scanned() {
    let apps = vec![
        (Some("com.apple.Finder".to_string()), Some("Finder".to_string())),
        (None, Some("Proctorio".to_string())),
        (Some("com.Proctorio.Helper".to_string()), None),
        (Some("org.example.tool".to_string()), Some("HonorLock Agent".to_string())),
    ];
    let found = scan_proctoring_software(&apps);
    assert_eq!(found.len(), 2);
    assert_eq!(found[0].name, "Proctorio");
    assert_eq!(found[0].bundle_id, "com.proctorio.helper");
    assert_eq!(found[0].process_name, "");
    assert_eq!(found[1].name, "Honorlock");
    assert_eq!(found[1].process_name, "honorlock agent");
    assert!(scan_proctoring_software(&Vec::new()).is_empty());
}

#[test]
fn full_scan_combines_the_findings() {
    let open = vec![false, true, false, false, false, false, false, true];
    let agents = vec![
        ("/Library/LaunchAgents/com.respondus.plist".to_string(), "com.Respondus.plist".to_string()),
        ("/Library/LaunchAgents/com.apple.x.plist".to_string(), "com.apple.x.plist".to_string()),
    ];
    let r = full_scan(Some("Finder\nExamplify".to_string()), &open, &agents);
    assert_eq!(r.running_proctors, vec!["examplify".to_string()]);
    assert_eq!(r.suspicious_ports, vec![11751, 21151]);
    assert_eq!(r.launch_agents, vec!["/Library/LaunchAgents/com.respondus.plist".to_string()]);

    let none = full_scan(None, &vec![true], &Vec::new());
    assert!(none.running_proctors.is_empty());
    assert_eq!(none.suspicious_ports, vec![11750]);
    assert!(none.launch_agents.is_empty());
}

#[test]
fn displays_are_listed_in_order() {
    let raw = vec![(1u32, 1440u32, 900u32, false, 0u32), (7u32, 2560u32, 1440u32, true, 42u32)];
    let list = enumerate_displays(&raw, 7);
    assert_eq!(list.len(), 2);
    assert!(!list[0].is_primary && list[0].is_virtual);
    assert!(list[1].is_primary && list[1].is_mirror && !list[1].is_virtual);
    assert_eq!(list[1].width, 2560);
    assert_eq!(secondary_display(&list), Some(0));
}

#[test]
fn delay_ranges() {
    assert_eq!(keystroke_delay_bounds('x'), (40, 160));
    assert_eq!(keystroke_delay_bounds(' '), (100, 400));
    assert_eq!(keystroke_delay_bounds('\n'), (100, 400));
    assert_eq!(keystroke_delay_bounds('\t'), (40, 160));
    assert_eq!((JITTER_MIN_MS, JITTER_MAX_MS), (50, 500));
}
