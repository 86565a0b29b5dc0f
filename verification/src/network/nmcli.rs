//! Commands: running `nmcli`, with `sudo` where it refuses, and asking it about
//! devices, networks and connections.

use crate::error::{ErrorView, PluginError};
use crate::network::config::{ConfigView, PluginConfig};
use crate::network::intent::Ipv4Mode;
use crate::network::readings::{
    active_names, candidate_rows, candidate_views, connectivity_in, device_rows, device_views, parse_active_names,
    parse_candidates, parse_connectivity, parse_device_table, parse_scan_rows, scan_rows, scan_views, CandidateView,
    DeviceRow, DeviceView, ScanRow, ScanRowView, WifiStaCandidate,
};
use crate::network::transcript::{ran, reply_at, slept, Ask, CommandOutput, Finished, Halt, Mark, OutputView, Progress, Reply, Run, RunView};
use crate::number::{debug_text, decimal, quoted, to_decimal};
use crate::text::{
    blank, cat, cat3, cat4, cat5, copy_texts, extend_texts, is_blank, lines, opt_slice, opt_text, owned, push_text,
    texts, trim, trimmed,
};
use vstd::prelude::*;

verus! {

/// The profile of the wired interface.
pub const NM_CON_ETHERNET: &'static str = "evo-network-ethernet";

/// The profile of the Wi-Fi client.
pub const NM_CON_WIFI_STA: &'static str = "evo-network-wifi-sta";

/// How often bringing a hotspot up is tried.
pub const HOTSPOT_BRINGUP_ATTEMPTS: u32 = 4;

/// The pause between two tries, in milliseconds.
pub const HOTSPOT_BRINGUP_DELAY_MS: u64 = 400;

/// The view of a command's result.
pub open spec fn output_result(r: Result<&CommandOutput, PluginError>) -> Result<OutputView, ErrorView> {
    match r {
        Ok(o) => Ok(o@),
        Err(e) => Err(e@),
    }
}

/// A command with a time limit: its output, or a transient error where it could not be
/// started or did not end in time.
pub open spec fn command(
    h: Seq<Reply>,
    m: Mark,
    program: Seq<char>,
    args: Seq<Seq<char>>,
    timeout_ms: u64,
    label: Seq<char>,
) -> Progress<Result<OutputView, ErrorView>> {
    match ran(h, m, program, args, Some(timeout_ms)) {
        Progress::Go(m1, RunView::Output(o)) => Progress::Go(m1, Ok(o)),
        Progress::Go(m1, RunView::SpawnFailed(e)) => Progress::Go(
            m1,
            Err(ErrorView::Transient("spawn "@ + label + " failed: "@ + e)),
        ),
        Progress::Go(m1, RunView::TimedOut) => Progress::Go(
            m1,
            Err(ErrorView::Transient(label + " timed out after "@ + decimal(timeout_ms as nat) + "ms"@)),
        ),
        Progress::Need(a) => Progress::Need(a),
        Progress::Fail(e) => Progress::Fail(e),
    }
}

/// Runs a command with a time limit.
pub fn run_command_output_with_timeout<'a>(
    run: &mut Run<'a>,
    program: &str,
    args: Vec<String>,
    timeout_ms: u64,
    label: &str,
) -> (r: Result<Result<&'a CommandOutput, PluginError>, Halt>)
    requires
        old(run).wf(),
    ensures
        final(run).follows(old(run)),
        match r {
            Ok(v) => command(old(run).replies@, old(run)@, program@, texts(args@), timeout_ms, label@) == Progress::Go(
                final(run)@,
                output_result(v),
            ),
            Err(h) => command(old(run).replies@, old(run)@, program@, texts(args@), timeout_ms, label@) == h.stop::<
                Result<OutputView, ErrorView>,
            >(),
        },
{
    match run.run(program, args, Some(timeout_ms)) {
        Ok(Finished::Output(o)) => Ok(Ok(o)),
        Ok(Finished::SpawnFailed(e)) => Ok(
            Err(PluginError::Transient(cat4("spawn ", label, " failed: ", e.as_str()))),
        ),
        Ok(Finished::TimedOut) => Ok(
            Err(PluginError::Transient(cat4(label, " timed out after ", to_decimal(timeout_ms).as_str(), "ms"))),
        ),
        Err(h) => Err(h),
    }
}

/// A list of texts as `{:?}` writes it, without its brackets.
pub open spec fn debug_items(args: Seq<Seq<char>>) -> Seq<char>
    decreases args.len(),
{
    if args.len() == 0 {
        seq![]
    } else if args.len() == 1 {
        debug_text(args[0])
    } else {
        debug_items(args.drop_last()) + ", "@ + debug_text(args.last())
    }
}

fn quoted_items(args: &Vec<String>) -> (r: String)
    ensures
        r@ == debug_items(texts(args@)),
{
    let mut out = String::new();
    let mut i: usize = 0;
    proof {
        assert(texts(args@).take(0) =~= Seq::<Seq<char>>::empty());
        assert(out@ =~= debug_items(texts(args@).take(0)));
    }
    while i < args.len()
        invariant
            i <= args.len(),
            out@ == debug_items(texts(args@).take(i as int)),
        decreases args.len() - i,
    {
        let q = quoted(args[i].as_str());
        proof {
            let t = texts(args@).take(i as int + 1);
            assert(t.drop_last() =~= texts(args@).take(i as int));
            assert(t.last() == args@[i as int]@);
        }
        if i == 0 {
            out = q;
        } else {
            out = cat3(out.as_str(), ", ", q.as_str());
        }
        i += 1;
    }
    proof {
        assert(texts(args@).take(i as int) =~= texts(args@));
    }
    out
}

/// The arguments that make `sudo` run `nmcli` without asking.
pub open spec fn sudo_args(cfg: ConfigView, args: Seq<Seq<char>>) -> Seq<Seq<char>> {
    seq!["-n"@, cfg.nmcli_path] + args
}

/// What `nmcli` prints: run directly, and where it exits with an error, through
/// `sudo`. The error is that of the direct run.
pub open spec fn nmcli(h: Seq<Reply>, m: Mark, cfg: ConfigView, args: Seq<Seq<char>>) -> Progress<Result<Seq<char>, ErrorView>> {
    match command(h, m, cfg.nmcli_path, args, cfg.nmcli_timeout_ms, "nmcli direct"@) {
        Progress::Go(m1, Ok(direct)) => if direct.success {
            Progress::Go(m1, Ok(direct.stdout))
        } else {
            let refused = ErrorView::Transient(
                "nmcli failed (args ["@ + debug_items(args) + "]): "@ + trimmed(direct.stderr) + " "@ + trimmed(
                    direct.stdout,
                ),
            );
            match command(h, m1, "sudo"@, sudo_args(cfg, args), cfg.nmcli_timeout_ms, "nmcli sudo fallback"@) {
                Progress::Go(m2, Ok(o)) => if o.success {
                    Progress::Go(m2, Ok(o.stdout))
                } else {
                    Progress::Go(m2, Err(refused))
                },
                Progress::Go(m2, Err(_)) => Progress::Go(m2, Err(refused)),
                Progress::Need(a) => Progress::Need(a),
                Progress::Fail(e) => Progress::Fail(e),
            }
        },
        Progress::Go(m1, Err(e)) => Progress::Go(m1, Err(e)),
        Progress::Need(a) => Progress::Need(a),
        Progress::Fail(e) => Progress::Fail(e),
    }
}

/// The view of a result that is a text in the replies.
pub open spec fn stdout_result(r: Result<&String, PluginError>) -> Result<Seq<char>, ErrorView> {
    match r {
        Ok(s) => Ok(s@),
        Err(e) => Err(e@),
    }
}

/// Runs `nmcli`, as [`nmcli`] says.
pub fn nmcli_output<'a>(run: &mut Run<'a>, cfg: &PluginConfig, args: Vec<String>) -> (r: Result<
    Result<&'a String, PluginError>,
    Halt,
>)
    requires
        old(run).wf(),
    ensures
        final(run).follows(old(run)),
        match r {
            Ok(v) => nmcli(old(run).replies@, old(run)@, cfg@, texts(args@)) == Progress::Go(
                final(run)@,
                stdout_result(v),
            ),
            Err(h) => nmcli(old(run).replies@, old(run)@, cfg@, texts(args@)) == h.stop::<Result<Seq<char>, ErrorView>>(),
        },
{
    let again = copy_texts(&args);
    let shown = quoted_items(&args);
    let direct = match run_command_output_with_timeout(
        run,
        cfg.nmcli_path.as_str(),
        args,
        cfg.nmcli_timeout_ms,
        "nmcli direct",
    ) {
        Ok(Ok(o)) => o,
        Ok(Err(e)) => return Ok(Err(e)),
        Err(h) => return Err(h),
    };
    if direct.success {
        return Ok(Ok(&direct.stdout));
    }
    let mut escalated = owned(vec!["-n", cfg.nmcli_path.as_str()]);
    extend_texts(&mut escalated, again);
    proof {
        assert(texts(escalated@) =~= sudo_args(cfg@, texts(args@)));
    }
    match run_command_output_with_timeout(run, "sudo", escalated, cfg.nmcli_timeout_ms, "nmcli sudo fallback") {
        Ok(Ok(o)) => {
            if o.success {
                return Ok(Ok(&o.stdout));
            }
        },
        Ok(Err(_)) => {},
        Err(h) => return Err(h),
    }
    let head = cat3("nmcli failed (args [", shown.as_str(), "]): ");
    Ok(
        Err(
            PluginError::Transient(
                cat4(head.as_str(), trim(direct.stderr.as_str()), " ", trim(direct.stdout.as_str())),
            ),
        ),
    )
}

/// Whether `nmcli` knows a connection of the name.
pub open spec fn connection_exists(h: Seq<Reply>, m: Mark, cfg: ConfigView, name: Seq<char>) -> Progress<bool> {
    match command(
        h,
        m,
        cfg.nmcli_path,
        seq!["connection"@, "show"@, name],
        cfg.nmcli_timeout_ms,
        "nmcli connection show"@,
    ) {
        Progress::Go(m1, Ok(o)) => Progress::Go(m1, o.success),
        Progress::Go(m1, Err(_)) => Progress::Go(m1, false),
        Progress::Need(a) => Progress::Need(a),
        Progress::Fail(e) => Progress::Fail(e),
    }
}

/// Asks whether a connection of the name exists.
pub fn nm_connection_exists(run: &mut Run, cfg: &PluginConfig, name: &str) -> (r: Result<bool, Halt>)
    requires
        old(run).wf(),
    ensures
        final(run).follows(old(run)),
        match r {
            Ok(v) => connection_exists(old(run).replies@, old(run)@, cfg@, name@) == Progress::Go(final(run)@, v),
            Err(h) => connection_exists(old(run).replies@, old(run)@, cfg@, name@) == h.stop::<bool>(),
        },
{
    let args = owned(vec!["connection", "show", name]);
    proof {
        assert(texts(args@) =~= seq!["connection"@, "show"@, name@]);
    }
    match run_command_output_with_timeout(
        run,
        cfg.nmcli_path.as_str(),
        args,
        cfg.nmcli_timeout_ms,
        "nmcli connection show",
    ) {
        Ok(Ok(o)) => Ok(o.success),
        Ok(Err(_)) => Ok(false),
        Err(h) => Err(h),
    }
}

/// The device table at this point.
pub open spec fn device_table(h: Seq<Reply>, m: Mark, cfg: ConfigView) -> Progress<Result<Seq<DeviceView>, ErrorView>> {
    match nmcli(h, m, cfg, seq!["-t"@, "-f"@, "DEVICE,TYPE,STATE,CONNECTION"@, "device"@]) {
        Progress::Go(m1, Ok(raw)) => Progress::Go(m1, Ok(device_rows(lines(raw)))),
        Progress::Go(m1, Err(e)) => Progress::Go(m1, Err(e)),
        Progress::Need(a) => Progress::Need(a),
        Progress::Fail(e) => Progress::Fail(e),
    }
}

/// The view of a device table.
pub open spec fn devices_result(r: Result<Vec<DeviceRow>, PluginError>) -> Result<Seq<DeviceView>, ErrorView> {
    match r {
        Ok(v) => Ok(device_views(v@)),
        Err(e) => Err(e@),
    }
}

/// Asks for the device table.
pub fn nm_device_table(run: &mut Run, cfg: &PluginConfig) -> (r: Result<Result<Vec<DeviceRow>, PluginError>, Halt>)
    requires
        old(run).wf(),
    ensures
        final(run).follows(old(run)),
        match r {
            Ok(v) => device_table(old(run).replies@, old(run)@, cfg@) == Progress::Go(final(run)@, devices_result(v)),
            Err(h) => device_table(old(run).replies@, old(run)@, cfg@) == h.stop::<Result<Seq<DeviceView>, ErrorView>>(),
        },
{
    let args = owned(vec!["-t", "-f", "DEVICE,TYPE,STATE,CONNECTION", "device"]);
    proof {
        assert(texts(args@) =~= seq!["-t"@, "-f"@, "DEVICE,TYPE,STATE,CONNECTION"@, "device"@]);
    }
    match nmcli_output(run, cfg, args) {
        Ok(Ok(raw)) => Ok(Ok(parse_device_table(raw.as_str()))),
        Ok(Err(e)) => Ok(Err(e)),
        Err(h) => Err(h),
    }
}

/// The arguments that list networks by the given columns, on one interface where one
/// is named.
pub open spec fn wifi_list_args(columns: Seq<char>, ifname: Option<Seq<char>>) -> Seq<Seq<char>> {
    let base = seq!["-t"@, "-f"@, columns, "dev"@, "wifi"@, "list"@];
    match ifname {
        Some(i) => if is_blank(i) {
            base
        } else {
            base + seq!["ifname"@, trimmed(i)]
        },
        None => base,
    }
}

fn list_args(columns: &str, ifname: Option<&str>) -> (r: Vec<String>)
    ensures
        texts(r@) == wifi_list_args(columns@, opt_slice(ifname)),
{
    let mut args = owned(vec!["-t", "-f", columns, "dev", "wifi", "list"]);
    let ghost base = texts(args@);
    proof {
        assert(base =~= seq!["-t"@, "-f"@, columns@, "dev"@, "wifi"@, "list"@]);
    }
    if let Some(i) = ifname {
        let t = trim(i);
        if !t.is_empty() {
            push_text(&mut args, "ifname");
            push_text(&mut args, t);
            proof {
                assert(texts(args@) =~= base + seq!["ifname"@, t@]);
            }
        }
    }
    args
}

/// The networks that an interface sees, at this point.
pub open spec fn scan(h: Seq<Reply>, m: Mark, cfg: ConfigView, ifname: Option<Seq<char>>) -> Progress<
    Result<Seq<ScanRowView>, ErrorView>,
> {
    match nmcli(h, m, cfg, wifi_list_args("SSID,SIGNAL,SECURITY,ACTIVE"@, ifname)) {
        Progress::Go(m1, Ok(raw)) => Progress::Go(m1, Ok(scan_rows(lines(raw)))),
        Progress::Go(m1, Err(e)) => Progress::Go(m1, Err(e)),
        Progress::Need(a) => Progress::Need(a),
        Progress::Fail(e) => Progress::Fail(e),
    }
}

/// The view of a list of networks.
pub open spec fn scan_result(r: Result<Vec<ScanRow>, PluginError>) -> Result<Seq<ScanRowView>, ErrorView> {
    match r {
        Ok(v) => Ok(scan_views(v@)),
        Err(e) => Err(e@),
    }
}

/// Asks for the networks that an interface sees.
pub fn wifi_scan(run: &mut Run, cfg: &PluginConfig, ifname: Option<&str>) -> (r: Result<
    Result<Vec<ScanRow>, PluginError>,
    Halt,
>)
    requires
        old(run).wf(),
    ensures
        final(run).follows(old(run)),
        match r {
            Ok(v) => scan(old(run).replies@, old(run)@, cfg@, opt_slice(ifname)) == Progress::Go(
                final(run)@,
                scan_result(v),
            ),
            Err(h) => scan(old(run).replies@, old(run)@, cfg@, opt_slice(ifname)) == h.stop::<
                Result<Seq<ScanRowView>, ErrorView>,
            >(),
        },
{
    match nmcli_output(run, cfg, list_args("SSID,SIGNAL,SECURITY,ACTIVE", ifname)) {
        Ok(Ok(raw)) => Ok(Ok(parse_scan_rows(raw.as_str()))),
        Ok(Err(e)) => Ok(Err(e)),
        Err(h) => Err(h),
    }
}

/// The access points that an interface sees, at this point.
pub open spec fn scan_candidates(h: Seq<Reply>, m: Mark, cfg: ConfigView, ifname: Option<Seq<char>>) -> Progress<
    Result<Seq<CandidateView>, ErrorView>,
> {
    match nmcli(h, m, cfg, wifi_list_args("BSSID,SSID,SIGNAL,FREQ,ACTIVE"@, ifname)) {
        Progress::Go(m1, Ok(raw)) => Progress::Go(m1, Ok(candidate_rows(lines(raw)))),
        Progress::Go(m1, Err(e)) => Progress::Go(m1, Err(e)),
        Progress::Need(a) => Progress::Need(a),
        Progress::Fail(e) => Progress::Fail(e),
    }
}

/// The view of a list of access points.
pub open spec fn candidates_result(r: Result<Vec<WifiStaCandidate>, PluginError>) -> Result<Seq<CandidateView>, ErrorView> {
    match r {
        Ok(v) => Ok(candidate_views(v@)),
        Err(e) => Err(e@),
    }
}

/// Asks for the access points that an interface sees.
pub fn wifi_scan_candidates(run: &mut Run, cfg: &PluginConfig, ifname: Option<&str>) -> (r: Result<
    Result<Vec<WifiStaCandidate>, PluginError>,
    Halt,
>)
    requires
        old(run).wf(),
    ensures
        final(run).follows(old(run)),
        match r {
            Ok(v) => scan_candidates(old(run).replies@, old(run)@, cfg@, opt_slice(ifname)) == Progress::Go(
                final(run)@,
                candidates_result(v),
            ),
            Err(h) => scan_candidates(old(run).replies@, old(run)@, cfg@, opt_slice(ifname)) == h.stop::<
                Result<Seq<CandidateView>, ErrorView>,
            >(),
        },
{
    match nmcli_output(run, cfg, list_args("BSSID,SSID,SIGNAL,FREQ,ACTIVE", ifname)) {
        Ok(Ok(raw)) => Ok(Ok(parse_candidates(raw.as_str()))),
        Ok(Err(e)) => Ok(Err(e)),
        Err(h) => Err(h),
    }
}

/// NetworkManager's connectivity at this point, where it has one.
pub open spec fn connectivity(h: Seq<Reply>, m: Mark, cfg: ConfigView) -> Progress<Option<Seq<char>>> {
    match nmcli(h, m, cfg, seq!["-t"@, "-f"@, "CONNECTIVITY"@, "general"@]) {
        Progress::Go(m1, Ok(raw)) => Progress::Go(m1, connectivity_in(raw)),
        Progress::Go(m1, Err(_)) => Progress::Go(m1, None),
        Progress::Need(a) => Progress::Need(a),
        Progress::Fail(e) => Progress::Fail(e),
    }
}

/// Asks for NetworkManager's connectivity.
pub fn nm_connectivity(run: &mut Run, cfg: &PluginConfig) -> (r: Result<Option<String>, Halt>)
    requires
        old(run).wf(),
    ensures
        final(run).follows(old(run)),
        match r {
            Ok(v) => connectivity(old(run).replies@, old(run)@, cfg@) == Progress::Go(final(run)@, opt_text(v)),
            Err(h) => connectivity(old(run).replies@, old(run)@, cfg@) == h.stop::<Option<Seq<char>>>(),
        },
{
    let args = owned(vec!["-t", "-f", "CONNECTIVITY", "general"]);
    proof {
        assert(texts(args@) =~= seq!["-t"@, "-f"@, "CONNECTIVITY"@, "general"@]);
    }
    match nmcli_output(run, cfg, args) {
        Ok(Ok(raw)) => Ok(parse_connectivity(raw.as_str())),
        Ok(Err(_)) => Ok(None),
        Err(h) => Err(h),
    }
}

/// The connections that are active on an interface, at this point; none where
/// `nmcli` fails.
pub open spec fn active_on_device(h: Seq<Reply>, m: Mark, cfg: ConfigView, ifname: Seq<char>) -> Progress<Seq<Seq<char>>> {
    match nmcli(h, m, cfg, seq!["-t"@, "-f"@, "NAME,DEVICE"@, "connection"@, "show"@, "--active"@]) {
        Progress::Go(m1, Ok(raw)) => Progress::Go(m1, active_names(lines(raw), ifname)),
        Progress::Go(m1, Err(_)) => Progress::Go(m1, seq![]),
        Progress::Need(a) => Progress::Need(a),
        Progress::Fail(e) => Progress::Fail(e),
    }
}

/// Asks for the connections that are active on an interface.
pub fn nm_active_connection_names_on_device(run: &mut Run, cfg: &PluginConfig, ifname: &str) -> (r: Result<
    Vec<String>,
    Halt,
>)
    requires
        old(run).wf(),
    ensures
        final(run).follows(old(run)),
        match r {
            Ok(v) => active_on_device(old(run).replies@, old(run)@, cfg@, ifname@) == Progress::Go(
                final(run)@,
                texts(v@),
            ),
            Err(h) => active_on_device(old(run).replies@, old(run)@, cfg@, ifname@) == h.stop::<Seq<Seq<char>>>(),
        },
{
    let args = owned(vec!["-t", "-f", "NAME,DEVICE", "connection", "show", "--active"]);
    proof {
        assert(texts(args@) =~= seq!["-t"@, "-f"@, "NAME,DEVICE"@, "connection"@, "show"@, "--active"@]);
    }
    match nmcli_output(run, cfg, args) {
        Ok(Ok(raw)) => Ok(parse_active_names(raw.as_str(), ifname)),
        Ok(Err(_)) => {
            let none: Vec<String> = Vec::new();
            proof {
                assert(texts(none@) =~= Seq::<Seq<char>>::empty());
            }
            Ok(none)
        },
        Err(h) => Err(h),
    }
}

/// Takes a connection down; whatever comes of it is left at that.
pub open spec fn connection_down(h: Seq<Reply>, m: Mark, cfg: ConfigView, name: Seq<char>) -> Progress<()> {
    if is_blank(name) {
        Progress::Go(m, ())
    } else {
        match command(
            h,
            m,
            cfg.nmcli_path,
            seq!["connection"@, "down"@, name],
            cfg.nmcli_timeout_ms,
            "nmcli connection down"@,
        ) {
            Progress::Go(m1, _) => Progress::Go(m1, ()),
            Progress::Need(a) => Progress::Need(a),
            Progress::Fail(e) => Progress::Fail(e),
        }
    }
}

/// Takes a connection down, best effort.
pub fn connection_down_lossy(run: &mut Run, cfg: &PluginConfig, name: &str) -> (r: Result<(), Halt>)
    requires
        old(run).wf(),
    ensures
        final(run).follows(old(run)),
        match r {
            Ok(v) => connection_down(old(run).replies@, old(run)@, cfg@, name@) == Progress::Go(final(run)@, v),
            Err(h) => connection_down(old(run).replies@, old(run)@, cfg@, name@) == h.stop::<()>(),
        },
{
    if blank(name) {
        return Ok(());
    }
    let args = owned(vec!["connection", "down", name]);
    proof {
        assert(texts(args@) =~= seq!["connection"@, "down"@, name@]);
    }
    match run_command_output_with_timeout(
        run,
        cfg.nmcli_path.as_str(),
        args,
        cfg.nmcli_timeout_ms,
        "nmcli connection down",
    ) {
        Ok(_) => Ok(()),
        Err(h) => Err(h),
    }
}

/// Brings a connection up: what `nmcli` left behind.
pub open spec fn connection_up(h: Seq<Reply>, m: Mark, cfg: ConfigView, name: Seq<char>) -> Progress<
    Result<OutputView, ErrorView>,
> {
    command(h, m, cfg.nmcli_path, seq!["connection"@, "up"@, name], cfg.nmcli_timeout_ms, "nmcli spawn output"@)
}

/// Brings a connection up.
pub fn nmcli_connection_up<'a>(run: &mut Run<'a>, cfg: &PluginConfig, name: &str) -> (r: Result<
    Result<&'a CommandOutput, PluginError>,
    Halt,
>)
    requires
        old(run).wf(),
    ensures
        final(run).follows(old(run)),
        match r {
            Ok(v) => connection_up(old(run).replies@, old(run)@, cfg@, name@) == Progress::Go(
                final(run)@,
                output_result(v),
            ),
            Err(h) => connection_up(old(run).replies@, old(run)@, cfg@, name@) == h.stop::<
                Result<OutputView, ErrorView>,
            >(),
        },
{
    let args = owned(vec!["connection", "up", name]);
    proof {
        assert(texts(args@) =~= seq!["connection"@, "up"@, name@]);
    }
    run_command_output_with_timeout(run, cfg.nmcli_path.as_str(), args, cfg.nmcli_timeout_ms, "nmcli spawn output")
}

/// What is reported when a hotspot came up at the given try.
pub open spec fn brought_up(name: Seq<char>, attempt: nat) -> Seq<char> {
    if attempt > 1 {
        "brought up "@ + name + " (attempt "@ + decimal(attempt) + " of 4)"@
    } else {
        "brought up "@ + name
    }
}

/// Tries from the `attempt`-th on to bring a hotspot up, with a pause between two
/// tries, until it is up or four tries are over.
pub open spec fn hotspot_up_from(h: Seq<Reply>, m: Mark, cfg: ConfigView, name: Seq<char>, attempt: nat) -> Progress<bool>
    decreases 5 - attempt,
{
    if attempt > 4 {
        Progress::Go(m.said("warning: "@ + name + " failed connection up after 4 attempts"@), false)
    } else {
        match connection_up(h, m, cfg, name) {
            Progress::Go(m1, r) => if r matches Ok(o) && o.success {
                Progress::Go(m1.said(brought_up(name, attempt)), true)
            } else if attempt < 4 {
                match slept(h, m1, HOTSPOT_BRINGUP_DELAY_MS) {
                    Progress::Go(m2, _) => hotspot_up_from(h, m2, cfg, name, attempt + 1),
                    Progress::Need(a) => Progress::Need(a),
                    Progress::Fail(e) => Progress::Fail(e),
                }
            } else {
                hotspot_up_from(h, m1, cfg, name, attempt + 1)
            },
            Progress::Need(a) => Progress::Need(a),
            Progress::Fail(e) => Progress::Fail(e),
        }
    }
}

/// Brings a hotspot up with at most four tries; a profile without a name is not
/// tried.
pub open spec fn hotspot_up(h: Seq<Reply>, m: Mark, cfg: ConfigView, name: Seq<char>) -> Progress<bool> {
    if is_blank(name) {
        Progress::Go(m, false)
    } else {
        hotspot_up_from(h, m, cfg, name, 1)
    }
}

fn hotspot_attempts(run: &mut Run, cfg: &PluginConfig, name: &str, attempt: u32) -> (r: Result<bool, Halt>)
    requires
        old(run).wf(),
        1 <= attempt <= HOTSPOT_BRINGUP_ATTEMPTS + 1,
    ensures
        final(run).follows(old(run)),
        match r {
            Ok(v) => hotspot_up_from(old(run).replies@, old(run)@, cfg@, name@, attempt as nat) == Progress::Go(
                final(run)@,
                v,
            ),
            Err(h) => hotspot_up_from(old(run).replies@, old(run)@, cfg@, name@, attempt as nat) == h.stop::<bool>(),
        },
    decreases 5 - attempt,
{
    if attempt > HOTSPOT_BRINGUP_ATTEMPTS {
        run.say(cat3("warning: ", name, " failed connection up after 4 attempts").as_str());
        return Ok(false);
    }
    let up = match nmcli_connection_up(run, cfg, name) {
        Ok(Ok(o)) => o.success,
        Ok(Err(_)) => false,
        Err(h) => return Err(h),
    };
    if up {
        if attempt > 1 {
            run.say(
                cat5("brought up ", name, " (attempt ", to_decimal(attempt as u64).as_str(), " of 4)").as_str(),
            );
        } else {
            run.say(cat("brought up ", name).as_str());
        }
        return Ok(true);
    }
    if attempt < HOTSPOT_BRINGUP_ATTEMPTS {
        match run.sleep(HOTSPOT_BRINGUP_DELAY_MS) {
            Ok(_) => {},
            Err(h) => return Err(h),
        }
    }
    hotspot_attempts(run, cfg, name, attempt + 1)
}

/// Brings a hotspot up with at most four tries.
pub fn connection_up_hotspot_with_retries(run: &mut Run, cfg: &PluginConfig, con_name: &str) -> (r: Result<bool, Halt>)
    requires
        old(run).wf(),
    ensures
        final(run).follows(old(run)),
        match r {
            Ok(v) => hotspot_up(old(run).replies@, old(run)@, cfg@, con_name@) == Progress::Go(final(run)@, v),
            Err(h) => hotspot_up(old(run).replies@, old(run)@, cfg@, con_name@) == h.stop::<bool>(),
        },
{
    if blank(con_name) {
        return Ok(false);
    }
    hotspot_attempts(run, cfg, con_name, 1)
}

/// The name servers that are not blank, with a space between two.
pub open spec fn dns_joined(dns: Seq<Seq<char>>) -> Seq<char>
    decreases dns.len(),
{
    if dns.len() == 0 {
        seq![]
    } else {
        let before = dns_joined(dns.drop_last());
        if is_blank(dns.last()) {
            before
        } else if before.len() == 0 {
            trimmed(dns.last())
        } else {
            before + " "@ + trimmed(dns.last())
        }
    }
}

fn join_dns(dns: &Vec<String>) -> (r: String)
    ensures
        r@ == dns_joined(texts(dns@)),
{
    let mut out = String::new();
    let mut i: usize = 0;
    proof {
        assert(texts(dns@).take(0) =~= Seq::<Seq<char>>::empty());
        assert(out@ =~= dns_joined(texts(dns@).take(0)));
    }
    while i < dns.len()
        invariant
            i <= dns.len(),
            out@ == dns_joined(texts(dns@).take(i as int)),
        decreases dns.len() - i,
    {
        proof {
            let t = texts(dns@).take(i as int + 1);
            assert(t.drop_last() =~= texts(dns@).take(i as int));
            assert(t.last() == dns@[i as int]@);
        }
        let t = trim(dns[i].as_str());
        if !t.is_empty() {
            if out.as_str().is_empty() {
                out = t.to_owned();
            } else {
                out = cat3(out.as_str(), " ", t);
            }
        }
        i += 1;
    }
    proof {
        assert(texts(dns@).take(i as int) =~= texts(dns@));
    }
    out
}

/// The IPv4 arguments of a profile.
pub open spec fn ipv4_args(mode: Ipv4Mode, address: Seq<char>, gateway: Seq<char>, dns: Seq<Seq<char>>) -> Seq<Seq<char>> {
    match mode {
        Ipv4Mode::Dhcp => seq!["ipv4.method"@, "auto"@],
        Ipv4Mode::Static => seq!["ipv4.method"@, "manual"@, "ipv4.addresses"@, trimmed(address)] + (if is_blank(gateway) {
            seq![]
        } else {
            seq!["ipv4.gateway"@, trimmed(gateway)]
        }) + (if dns_joined(dns).len() == 0 {
            seq![]
        } else {
            seq!["ipv4.dns"@, dns_joined(dns)]
        }),
    }
}

/// The IPv4 arguments of a profile.
pub fn nm_ipv4_args(mode: &Ipv4Mode, address: &str, gateway: &str, dns: &Vec<String>) -> (r: Vec<String>)
    ensures
        texts(r@) == ipv4_args(*mode, address@, gateway@, texts(dns@)),
{
    match mode {
        Ipv4Mode::Dhcp => {
            let out = owned(vec!["ipv4.method", "auto"]);
            proof {
                assert(texts(out@) =~= seq!["ipv4.method"@, "auto"@]);
            }
            out
        },
        Ipv4Mode::Static => {
            let mut out = owned(vec!["ipv4.method", "manual", "ipv4.addresses", trim(address)]);
            let g = trim(gateway);
            if !g.is_empty() {
                push_text(&mut out, "ipv4.gateway");
                push_text(&mut out, g);
            }
            let joined = join_dns(dns);
            if !joined.as_str().is_empty() {
                push_text(&mut out, "ipv4.dns");
                push_text(&mut out, joined.as_str());
            }
            proof {
                assert(texts(out@) =~= ipv4_args(*mode, address@, gateway@, texts(dns@)));
            }
            out
        },
    }
}

/// `nmcli` is asked by the configured path within the configured time; where it ends
/// badly, it is asked the same once more through `sudo` without a prompt. What it printed
/// where it ended well is the answer.
pub proof fn questions_are_asked_twice(h: Seq<Reply>, m: Mark, cfg: ConfigView, args: Seq<Seq<char>>)
    ensures
        reply_at(h, m.pos) is None ==> nmcli(h, m, cfg, args) == Progress::<Result<Seq<char>, ErrorView>>::Need(
            Ask::Run { program: cfg.nmcli_path, args, timeout_ms: Some(cfg.nmcli_timeout_ms) },
        ),
        reply_at(h, m.pos) matches Some(Reply::Ran(o)) ==> {
            &&& o@.success ==> nmcli(h, m, cfg, args) == Progress::Go(m.read(), Ok::<Seq<char>, ErrorView>(o@.stdout))
            &&& !o@.success ==> {
                &&& reply_at(h, m.pos + 1) is None ==> nmcli(h, m, cfg, args) == Progress::<
                    Result<Seq<char>, ErrorView>,
                >::Need(
                    Ask::Run {
                        program: "sudo"@,
                        args: seq!["-n"@, cfg.nmcli_path] + args,
                        timeout_ms: Some(cfg.nmcli_timeout_ms),
                    },
                )
                &&& reply_at(h, m.pos + 1) matches Some(Reply::Ran(q)) ==> {
                    &&& q@.success ==> nmcli(h, m, cfg, args) == Progress::Go(
                        m.read().read(),
                        Ok::<Seq<char>, ErrorView>(q@.stdout),
                    )
                    &&& !q@.success ==> (nmcli(h, m, cfg, args) matches Progress::Go(n, r) && n == m.read().read() && r
                        == Err::<Seq<char>, ErrorView>(
                        ErrorView::Transient(
                            "nmcli failed (args ["@ + debug_items(args) + "]): "@ + trimmed(o@.stderr) + " "@ + trimmed(
                                o@.stdout,
                            ),
                        ),
                    ))
                }
            }
        },
        reply_at(h, m.pos) matches Some(Reply::SpawnFailed(_)) ==> (nmcli(h, m, cfg, args) matches Progress::Go(n, r) && n
            == m.read() && r is Err),
        reply_at(h, m.pos) == Some(Reply::TimedOut) ==> (nmcli(h, m, cfg, args) matches Progress::Go(n, r) && n == m.read()
            && r is Err),
{
}

/// Each reading asks for its own columns, of the interface where one is named, and its
/// answer is read line by line.
pub proof fn readings_ask_for_their_columns(
    h: Seq<Reply>,
    m: Mark,
    cfg: ConfigView,
    ifname: Seq<char>,
    m1: Mark,
    raw: Seq<char>,
)
    requires
        !is_blank(ifname),
    ensures
        nmcli(
            h,
            m,
            cfg,
            seq!["-t"@, "-f"@, "SSID,SIGNAL,SECURITY,ACTIVE"@, "dev"@, "wifi"@, "list"@, "ifname"@, trimmed(ifname)],
        ) == Progress::Go(m1, Ok::<Seq<char>, ErrorView>(raw)) ==> scan(h, m, cfg, Some(ifname)) == Progress::Go(
            m1,
            Ok::<Seq<ScanRowView>, ErrorView>(scan_rows(lines(raw))),
        ),
        nmcli(h, m, cfg, seq!["-t"@, "-f"@, "SSID,SIGNAL,SECURITY,ACTIVE"@, "dev"@, "wifi"@, "list"@]) == Progress::Go(
            m1,
            Ok::<Seq<char>, ErrorView>(raw),
        ) ==> scan(h, m, cfg, None) == Progress::Go(m1, Ok::<Seq<ScanRowView>, ErrorView>(scan_rows(lines(raw)))),
        nmcli(
            h,
            m,
            cfg,
            seq!["-t"@, "-f"@, "BSSID,SSID,SIGNAL,FREQ,ACTIVE"@, "dev"@, "wifi"@, "list"@, "ifname"@, trimmed(ifname)],
        ) == Progress::Go(m1, Ok::<Seq<char>, ErrorView>(raw)) ==> scan_candidates(h, m, cfg, Some(ifname))
            == Progress::Go(m1, Ok::<Seq<CandidateView>, ErrorView>(candidate_rows(lines(raw)))),
        nmcli(h, m, cfg, seq!["-t"@, "-f"@, "DEVICE,TYPE,STATE,CONNECTION"@, "device"@]) == Progress::Go(
            m1,
            Ok::<Seq<char>, ErrorView>(raw),
        ) ==> device_table(h, m, cfg) == Progress::Go(m1, Ok::<Seq<DeviceView>, ErrorView>(device_rows(lines(raw)))),
        nmcli(h, m, cfg, seq!["-t"@, "-f"@, "CONNECTIVITY"@, "general"@]) == Progress::Go(
            m1,
            Ok::<Seq<char>, ErrorView>(raw),
        ) ==> connectivity(h, m, cfg) == Progress::Go(m1, connectivity_in(raw)),
        nmcli(h, m, cfg, seq!["-t"@, "-f"@, "NAME,DEVICE"@, "connection"@, "show"@, "--active"@]) == Progress::Go(
            m1,
            Ok::<Seq<char>, ErrorView>(raw),
        ) ==> active_on_device(h, m, cfg, ifname) == Progress::Go(m1, active_names(lines(raw), ifname)),
{
    assert(wifi_list_args("SSID,SIGNAL,SECURITY,ACTIVE"@, Some(ifname)) =~= seq![
        "-t"@,
        "-f"@,
        "SSID,SIGNAL,SECURITY,ACTIVE"@,
        "dev"@,
        "wifi"@,
        "list"@,
        "ifname"@,
        trimmed(ifname),
    ]);
    assert(wifi_list_args("BSSID,SSID,SIGNAL,FREQ,ACTIVE"@, Some(ifname)) =~= seq![
        "-t"@,
        "-f"@,
        "BSSID,SSID,SIGNAL,FREQ,ACTIVE"@,
        "dev"@,
        "wifi"@,
        "list"@,
        "ifname"@,
        trimmed(ifname),
    ]);
}

/// A profile is looked up, brought up and taken down by its name. Whether it came down
/// does not matter, and a profile without a name is left alone.
pub proof fn profiles_are_handled_by_name(h: Seq<Reply>, m: Mark, cfg: ConfigView, name: Seq<char>)
    ensures
        reply_at(h, m.pos) is None ==> {
            &&& connection_exists(h, m, cfg, name) == Progress::<bool>::Need(
                Ask::Run {
                    program: cfg.nmcli_path,
                    args: seq!["connection"@, "show"@, name],
                    timeout_ms: Some(cfg.nmcli_timeout_ms),
                },
            )
            &&& connection_up(h, m, cfg, name) == Progress::<Result<OutputView, ErrorView>>::Need(
                Ask::Run {
                    program: cfg.nmcli_path,
                    args: seq!["connection"@, "up"@, name],
                    timeout_ms: Some(cfg.nmcli_timeout_ms),
                },
            )
            &&& !is_blank(name) ==> connection_down(h, m, cfg, name) == Progress::<()>::Need(
                Ask::Run {
                    program: cfg.nmcli_path,
                    args: seq!["connection"@, "down"@, name],
                    timeout_ms: Some(cfg.nmcli_timeout_ms),
                },
            )
        },
        reply_at(h, m.pos) matches Some(Reply::Ran(o)) ==> {
            &&& connection_exists(h, m, cfg, name) == Progress::Go(m.read(), o@.success)
            &&& connection_up(h, m, cfg, name) == Progress::Go(m.read(), Ok::<OutputView, ErrorView>(o@))
            &&& !is_blank(name) ==> connection_down(h, m, cfg, name) == Progress::Go(m.read(), ())
        },
        is_blank(name) ==> connection_down(h, m, cfg, name) == Progress::Go(m, ()),
{
}

/// Name servers are set in their order with a space between; blank ones are left out.
pub proof fn name_servers_are_joined(dns: Seq<Seq<char>>, one: Seq<char>)
    ensures
        dns_joined(Seq::<Seq<char>>::empty()).len() == 0,
        is_blank(one) ==> dns_joined(dns.push(one)) == dns_joined(dns),
        !is_blank(one) && dns_joined(dns).len() == 0 ==> dns_joined(dns.push(one)) == trimmed(one),
        !is_blank(one) && dns_joined(dns).len() > 0 ==> dns_joined(dns.push(one)) == dns_joined(dns) + " "@ + trimmed(one),
{
    assert(dns.push(one).drop_last() =~= dns);
}

/// An address is got by DHCP and nothing else is set; or it is set by hand, with the
/// gateway and the name servers where there are any.
pub proof fn addresses_are_set_by_their_mode(address: Seq<char>, gateway: Seq<char>, dns: Seq<Seq<char>>)
    ensures
        ipv4_args(Ipv4Mode::Dhcp, address, gateway, dns) == seq!["ipv4.method"@, "auto"@],
        is_blank(gateway) && dns_joined(dns).len() == 0 ==> ipv4_args(Ipv4Mode::Static, address, gateway, dns) == seq![
            "ipv4.method"@,
            "manual"@,
            "ipv4.addresses"@,
            trimmed(address),
        ],
        !is_blank(gateway) && dns_joined(dns).len() == 0 ==> ipv4_args(Ipv4Mode::Static, address, gateway, dns) == seq![
            "ipv4.method"@,
            "manual"@,
            "ipv4.addresses"@,
            trimmed(address),
            "ipv4.gateway"@,
            trimmed(gateway),
        ],
        is_blank(gateway) && dns_joined(dns).len() > 0 ==> ipv4_args(Ipv4Mode::Static, address, gateway, dns) == seq![
            "ipv4.method"@,
            "manual"@,
            "ipv4.addresses"@,
            trimmed(address),
            "ipv4.dns"@,
            dns_joined(dns),
        ],
        !is_blank(gateway) && dns_joined(dns).len() > 0 ==> ipv4_args(Ipv4Mode::Static, address, gateway, dns) == seq![
            "ipv4.method"@,
            "manual"@,
            "ipv4.addresses"@,
            trimmed(address),
            "ipv4.gateway"@,
            trimmed(gateway),
            "ipv4.dns"@,
            dns_joined(dns),
        ],
{
}

} // verus!
