//! How `nmcli` is invoked.

use evo_device_audio::error::PluginError;
use evo_device_audio::network::nmcli_dispatch::{
    linux_effective_uid, process_needs_sudo, AutoNmcliDispatcher, CapabilityEntry, CapabilityResolution,
    DirectNmcliDispatcher, Strategy, SudoNmcliDispatcher, INTENT_NMCLI_INVOCATION,
};
use evo_device_audio::network::transcript::{Action, CommandOutput, Halt, Reply, Run};

const ALWAYS_ROOT: bool = false;
const ALWAYS_NON_ROOT: bool = true;

#[test]
fn resolve_with_available_strategy_sudo() {
    let resolution = CapabilityResolution::Available {
        evidence: "sudo -l -n permits: /usr/bin/nmcli".into(),
        strategy: Some("sudo".into()),
    };
    let auto = AutoNmcliDispatcher::resolve_with_eject(Some(&resolution), ALWAYS_ROOT);
    assert_eq!(auto.strategy_name(), "sudo");
    assert!(auto.rationale().contains("framework-resolved strategy=sudo"));
}

#[test]
fn resolve_with_available_strategy_direct() {
    let resolution = CapabilityResolution::Available {
        evidence: "binary present: /usr/bin/nmcli".into(),
        strategy: Some("direct".into()),
    };
    let auto = AutoNmcliDispatcher::resolve_with_eject(Some(&resolution), ALWAYS_NON_ROOT);
    assert_eq!(auto.strategy_name(), "direct");
    assert!(auto.rationale().contains("framework-resolved strategy=direct"));
}

#[test]
fn resolve_with_available_no_strategy_falls_back_to_euid_root() {
    let resolution = CapabilityResolution::Available { evidence: "present".into(), strategy: None };
    let auto = AutoNmcliDispatcher::resolve_with_eject(Some(&resolution), ALWAYS_ROOT);
    assert_eq!(auto.strategy_name(), "direct");
    assert!(auto.rationale().contains("EUID detection selected direct"));
}

#[test]
fn resolve_with_available_no_strategy_falls_back_to_euid_non_root() {
    let resolution = CapabilityResolution::Available { evidence: "present".into(), strategy: None };
    let auto = AutoNmcliDispatcher::resolve_with_eject(Some(&resolution), ALWAYS_NON_ROOT);
    assert_eq!(auto.strategy_name(), "sudo");
    assert!(auto.rationale().contains("EUID detection selected sudo"));
}

#[test]
fn resolve_with_unrecognised_strategy_falls_back_to_euid() {
    let resolution = CapabilityResolution::Available { evidence: "huh".into(), strategy: Some("weird".into()) };
    let auto = AutoNmcliDispatcher::resolve_with_eject(Some(&resolution), ALWAYS_ROOT);
    assert_eq!(auto.strategy_name(), "direct");
    assert!(auto.rationale().contains("not recognised by this build"));
    // The name is shown as it is written in source text.
    assert!(auto.rationale().contains("\"weird\""));
}

#[test]
fn resolve_with_unavailable_keeps_direct_with_remedy() {
    let resolution = CapabilityResolution::Unavailable {
        reason: "nmcli not on PATH".into(),
        remedy: "install network-manager".into(),
    };
    let auto = AutoNmcliDispatcher::resolve_with_eject(Some(&resolution), ALWAYS_NON_ROOT);
    assert_eq!(auto.strategy_name(), "direct");
    assert!(auto.rationale().contains("framework refused"));
    assert!(auto.rationale().contains("install network-manager"));
}

#[test]
fn resolve_with_degraded_direct() {
    let resolution = CapabilityResolution::Degraded {
        fallback_strategy: "direct".into(),
        reason: "sudo refused but binary present".into(),
    };
    let auto = AutoNmcliDispatcher::resolve_with_eject(Some(&resolution), ALWAYS_NON_ROOT);
    assert_eq!(auto.strategy_name(), "direct");
    assert!(auto.rationale().contains("framework degraded"));
}

#[test]
fn resolve_with_degraded_sudo() {
    let resolution =
        CapabilityResolution::Degraded { fallback_strategy: "sudo".into(), reason: "primary failed".into() };
    let auto = AutoNmcliDispatcher::resolve_with_eject(Some(&resolution), ALWAYS_ROOT);
    assert_eq!(auto.strategy_name(), "sudo");
}

#[test]
fn resolve_with_degraded_unknown_falls_back_to_euid() {
    let resolution = CapabilityResolution::Degraded { fallback_strategy: "exotic".into(), reason: "weird".into() };
    let auto = AutoNmcliDispatcher::resolve_with_eject(Some(&resolution), ALWAYS_ROOT);
    assert_eq!(auto.strategy_name(), "direct");
    assert!(auto.rationale().contains("unrecognised fallback"));
}

#[test]
fn resolve_with_not_probed_falls_back_to_euid() {
    let resolution = CapabilityResolution::NotProbed { reason: "probe skipped".into() };
    let auto = AutoNmcliDispatcher::resolve_with_eject(Some(&resolution), ALWAYS_NON_ROOT);
    assert_eq!(auto.strategy_name(), "sudo");
    assert!(auto.rationale().contains("did not probe"));
}

#[test]
fn resolve_with_no_resolution_falls_back_to_euid() {
    let auto = AutoNmcliDispatcher::resolve_with_eject(None, ALWAYS_ROOT);
    assert_eq!(auto.strategy_name(), "direct");
    assert!(auto.rationale().contains("did not contain nmcli_invocation"));
}

#[test]
fn resolve_from_empty_map_uses_euid_fallback() {
    for needs_sudo in [ALWAYS_ROOT, ALWAYS_NON_ROOT] {
        let auto = AutoNmcliDispatcher::resolve(&vec![], needs_sudo);
        assert!(matches!(auto.strategy_name(), "direct" | "sudo"));
        assert!(auto.rationale().contains("EUID detection"));
    }
}

#[test]
fn only_the_finding_on_nmcli_counts() {
    let found = |intent: &str| CapabilityEntry {
        intent: intent.to_string(),
        resolution: CapabilityResolution::Available { evidence: "x".into(), strategy: Some("sudo".into()) },
    };
    assert_eq!(AutoNmcliDispatcher::resolve(&vec![found("other")], ALWAYS_ROOT).inner, Strategy::Direct);
    assert_eq!(AutoNmcliDispatcher::resolve(&vec![found(INTENT_NMCLI_INVOCATION)], ALWAYS_ROOT).inner, Strategy::Sudo);
}

fn words(args: &[&str]) -> Vec<String> {
    args.iter().map(|a| a.to_string()).collect()
}

#[test]
fn direct_dispatcher_invokes_binary_directly() {
    let d = DirectNmcliDispatcher::new().strategy();
    let replies = vec![];
    match d.dispatch(&mut Run::new(&replies), "/bin/true", words(&[]), 2000) {
        Err(Halt::Need(Action::Run { program, args, timeout_ms })) => {
            assert_eq!(program, "/bin/true");
            assert!(args.is_empty());
            assert_eq!(timeout_ms, Some(2000));
        }
        _ => panic!("expected a program to run"),
    }
    let output = CommandOutput { success: true, code: Some(0), stdout: String::new(), stderr: String::new() };
    let replies = vec![Reply::Ran(output)];
    let mut run = Run::new(&replies);
    let out = d.dispatch(&mut run, "/bin/true", words(&[]), 2000);
    match out {
        Ok(Ok(out)) => assert!(out.success),
        _ => panic!("direct dispatch should succeed against /bin/true"),
    }
}

#[test]
fn sudo_comes_before_the_program() {
    let d = SudoNmcliDispatcher::new().strategy();
    let replies = vec![];
    match d.dispatch(&mut Run::new(&replies), "/usr/bin/nmcli", words(&["general", "status"]), 50) {
        Err(Halt::Need(Action::Run { program, args, .. })) => {
            assert_eq!(program, "sudo");
            assert_eq!(args, words(&["-n", "/usr/bin/nmcli", "general", "status"]));
        }
        _ => panic!("expected a program to run"),
    }
}

#[test]
fn dispatcher_timeout_surfaces_transient_error() {
    let d = DirectNmcliDispatcher::new().strategy();
    let replies = vec![Reply::TimedOut];
    let mut run = Run::new(&replies);
    match d.dispatch(&mut run, "/bin/sleep", words(&["10"]), 50) {
        Ok(Err(PluginError::Transient(msg))) => {
            assert!(msg.contains("timed out"));
        }
        _ => panic!("expected Transient timeout"),
    };
}

#[test]
fn the_effective_user_is_the_second_number() {
    assert_eq!(linux_effective_uid("Name:\tx\nUid:\t1000\t0\t1000\t1000\n"), Some(0));
    assert_eq!(linux_effective_uid("Name:\tx\n"), None);
    assert!(!process_needs_sudo(Some("Uid:\t0\t0\t0\t0\n"), None));
    assert!(process_needs_sudo(Some("Uid:\t1000\t1000\t1000\t1000\n"), None));
}
