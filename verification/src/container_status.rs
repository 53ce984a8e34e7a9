//! The status report of one container: identity, state, process, networks,
//! published ports and restart policy, as the `ContainerStatus` command prints
//! it.
use crate::cli_errors::CliErrors;
use crate::text::{names, opt_text};
use vstd::prelude::*;

verus! {

/// The decimal digits, in order.
pub open spec fn digit_chars() -> Seq<char> {
    seq!['0', '1', '2', '3', '4', '5', '6', '7', '8', '9']
}

/// The decimal text of a natural number, without leading zeros.
pub open spec fn decimal(n: nat) -> Seq<char>
    decreases n,
{
    if n < 10 {
        seq![digit_chars()[n as int]]
    } else {
        decimal(n / 10).push(digit_chars()[(n % 10) as int])
    }
}

/// The decimal text of an `i64`, as `Display` writes it: a `-` before the
/// digits of a negative number.
pub open spec fn i64_text(n: i64) -> Seq<char> {
    if n < 0 {
        seq!['-'] + decimal((-(n as int)) as nat)
    } else {
        decimal(n as nat)
    }
}

fn digit_str(d: u64) -> (res: &'static str)
    requires
        d < 10,
    ensures
        res@ == seq![digit_chars()[d as int]],
{
    proof {
        reveal_strlit("0");
        reveal_strlit("1");
        reveal_strlit("2");
        reveal_strlit("3");
        reveal_strlit("4");
        reveal_strlit("5");
        reveal_strlit("6");
        reveal_strlit("7");
        reveal_strlit("8");
        reveal_strlit("9");
    }
    let res = if d == 0 {
        "0"
    } else if d == 1 {
        "1"
    } else if d == 2 {
        "2"
    } else if d == 3 {
        "3"
    } else if d == 4 {
        "4"
    } else if d == 5 {
        "5"
    } else if d == 6 {
        "6"
    } else if d == 7 {
        "7"
    } else if d == 8 {
        "8"
    } else {
        "9"
    };
    assert(res@ =~= seq![digit_chars()[d as int]]);
    res
}

fn decimal_text(n: u64) -> (res: String)
    ensures
        res@ == decimal(n as nat),
    decreases n,
{
    if n < 10 {
        String::from_str(digit_str(n))
    } else {
        let mut s = decimal_text(n / 10);
        s.append(digit_str(n % 10));
        assert(s@ =~= decimal(n as nat));
        s
    }
}

/// The decimal text of an `i64`.
fn i64_to_text(n: i64) -> (res: String)
    ensures
        res@ == i64_text(n),
{
    if n < 0 {
        let m: u64 = if n == i64::MIN {
            9223372036854775808u64
        } else {
            (-n) as u64
        };
        assert(m as int == -(n as int));
        let digits = decimal_text(m);
        proof {
            reveal_strlit("-");
        }
        let res = String::from_str("-").concat(digits.as_str());
        assert(res@ =~= i64_text(n));
        res
    } else {
        decimal_text(n as u64)
    }
}

/// One network a container is attached to.
pub struct NetworkInfo {
    pub name: String,
    pub ip_address: Option<String>,
    pub gateway: Option<String>,
}

/// One published container port and its host bindings `(host_ip, host_port)`.
pub struct PortBindingInfo {
    pub container_port: String,
    pub bindings: Option<Vec<(Option<String>, Option<String>)>>,
}

/// The host settings of a container.
pub struct HostInfo {
    pub port_bindings: Option<Vec<PortBindingInfo>>,
    /// The restart policy's name as Docker displays it, when a policy is set.
    pub restart_policy: Option<String>,
}

/// The state of a container. The status and health are the names of Docker's
/// status values as `Debug` writes them.
pub struct StateInfo {
    pub status: Option<String>,
    /// `Some` when the container has a health record; inside, its status if set.
    pub health: Option<Option<String>>,
    pub pid: Option<i64>,
    pub started_at: Option<String>,
    pub oom_killed: Option<bool>,
    pub restarting: Option<bool>,
    pub exit_code: Option<i64>,
}

/// What inspecting a container gives, as plain values.
pub struct ContainerStatusInfo {
    pub id: Option<String>,
    pub name: Option<String>,
    pub image: Option<String>,
    pub created: Option<String>,
    /// `(os, architecture)` of the image's platform, when known.
    pub platform: Option<(Option<String>, Option<String>)>,
    pub state: Option<StateInfo>,
    pub path: Option<String>,
    pub args: Option<Vec<String>>,
    pub networks: Option<Vec<NetworkInfo>>,
    pub host: Option<HostInfo>,
    pub restart_count: Option<i64>,
}

/// An optional text, or the empty text.
pub open spec fn text_or_empty(o: Option<String>) -> Seq<char> {
    match o {
        Some(s) => s@,
        None => Seq::<char>::empty(),
    }
}

/// An optional number, or zero.
pub open spec fn i64_or_zero(o: Option<i64>) -> i64 {
    match o {
        Some(n) => n,
        None => 0,
    }
}

/// How `Display` writes a `bool`.
pub open spec fn bool_text(b: bool) -> Seq<char> {
    if b {
        "true"@
    } else {
        "false"@
    }
}

/// A text with its leading `/` characters taken off.
pub open spec fn trim_leading_slashes(s: Seq<char>) -> Seq<char>
    decreases s.len(),
{
    if s.len() > 0 && s[0] == '/' {
        trim_leading_slashes(s.drop_first())
    } else {
        s
    }
}

/// Texts joined with single spaces.
pub open spec fn join_spaces(parts: Seq<Seq<char>>) -> Seq<char>
    decreases parts.len(),
{
    if parts.len() == 0 {
        Seq::<char>::empty()
    } else if parts.len() == 1 {
        parts[0]
    } else {
        join_spaces(parts.drop_last()) + " "@ + parts.last()
    }
}

/// `os/architecture`, or `unknown` without a platform.
pub open spec fn platform_text(p: Option<(Option<String>, Option<String>)>) -> Seq<char> {
    match p {
        Some((os, arch)) => text_or_empty(os) + "/"@ + text_or_empty(arch),
        None => "unknown"@,
    }
}

/// The health shown: the health record's status, or `NONE`.
pub open spec fn health_text(h: Option<Option<String>>) -> Seq<char> {
    match h {
        Some(Some(s)) => s@,
        _ => "NONE"@,
    }
}

/// The heading and identity part of the report.
pub open spec fn identity_section(info: ContainerStatusInfo) -> Seq<char> {
    "\nContainer Status\n"@ + "================\n\n"@ + "ID            : "@ + text_or_empty(info.id)
        + "\n"@ + "Name          : "@ + trim_leading_slashes(text_or_empty(info.name)) + "\n"@
        + "Image         : "@ + text_or_empty(info.image) + "\n"@ + "Created       : "@
        + text_or_empty(info.created) + "\n"@ + "Platform      : "@ + platform_text(
        info.platform,
    ) + "\n\n"@
}

/// The state part of the report.
pub open spec fn state_section(state: StateInfo) -> Seq<char> {
    "State\n"@ + "-----\n"@ + "Status        : "@ + text_or_empty(state.status) + "\n"@
        + "Health        : "@ + health_text(state.health) + "\n"@ + "PID           : "@ + i64_text(
        i64_or_zero(state.pid),
    ) + "\n"@ + "Started At    : "@ + text_or_empty(state.started_at) + "\n"@
        + "OOM Killed    : "@ + bool_text(state.oom_killed == Some(true)) + "\n"@
        + "Restarting    : "@ + bool_text(state.restarting == Some(true)) + "\n"@
        + "Exit Code     : "@ + i64_text(i64_or_zero(state.exit_code)) + "\n\n"@
}

/// The process part of the report.
pub open spec fn process_section(info: ContainerStatusInfo) -> Seq<char> {
    "Process\n"@ + "-------\n"@ + "Entrypoint    : "@ + text_or_empty(info.path) + "\n"@ + match info.args {
        Some(a) => "Command       : "@ + join_spaces(names(a@)) + "\n"@,
        None => Seq::<char>::empty(),
    }
}

/// The lines of one network.
pub open spec fn network_text(n: NetworkInfo) -> Seq<char> {
    "Network       : "@ + n.name@ + "\n"@ + "IP Address    : "@ + text_or_empty(n.ip_address)
        + "\n"@ + "Gateway       : "@ + text_or_empty(n.gateway) + "\n"@
}

/// The lines of a list of networks.
pub open spec fn networks_text(ns: Seq<NetworkInfo>) -> Seq<char>
    decreases ns.len(),
{
    if ns.len() == 0 {
        Seq::<char>::empty()
    } else {
        networks_text(ns.drop_last()) + network_text(ns.last())
    }
}

/// The network part of the report.
pub open spec fn network_section(info: ContainerStatusInfo) -> Seq<char> {
    "\nNetwork\n"@ + "-------\n"@ + match info.networks {
        Some(ns) => networks_text(ns@),
        None => Seq::<char>::empty(),
    }
}

/// The line of one host binding of a container port.
pub open spec fn binding_text(port: Seq<char>, b: (Option<String>, Option<String>)) -> Seq<char> {
    port + " -> "@ + text_or_empty(b.0) + ":"@ + text_or_empty(b.1) + "\n"@
}

/// The lines of the host bindings of a container port.
pub open spec fn bindings_text(port: Seq<char>, bs: Seq<(Option<String>, Option<String>)>) -> Seq<char>
    decreases bs.len(),
{
    if bs.len() == 0 {
        Seq::<char>::empty()
    } else {
        bindings_text(port, bs.drop_last()) + binding_text(port, bs.last())
    }
}

/// The lines of one published container port.
pub open spec fn port_text(p: PortBindingInfo) -> Seq<char> {
    match p.bindings {
        Some(bs) => bindings_text(p.container_port@, bs@),
        None => Seq::<char>::empty(),
    }
}

/// The lines of a list of published ports.
pub open spec fn ports_text(ps: Seq<PortBindingInfo>) -> Seq<char>
    decreases ps.len(),
{
    if ps.len() == 0 {
        Seq::<char>::empty()
    } else {
        ports_text(ps.drop_last()) + port_text(ps.last())
    }
}

/// The lines of the published ports of a container's host settings.
pub open spec fn host_ports_text(h: HostInfo) -> Seq<char> {
    match h.port_bindings {
        Some(ps) => ports_text(ps@),
        None => Seq::<char>::empty(),
    }
}

/// The line of the restart policy, when one is set.
pub open spec fn policy_text(h: HostInfo) -> Seq<char> {
    match h.restart_policy {
        Some(p) => "Policy        : "@ + p@ + "\n"@,
        None => Seq::<char>::empty(),
    }
}

/// The ports and restart-policy lines of a container's host settings.
pub open spec fn host_text(h: HostInfo) -> Seq<char> {
    host_ports_text(h) + "\nRestart Policy\n"@ + "--------------\n"@ + policy_text(h)
}

/// The ports and restart-policy part of the report.
pub open spec fn host_section(info: ContainerStatusInfo) -> Seq<char> {
    "\nPorts\n"@ + "-----\n"@ + match info.host {
        Some(h) => host_text(h),
        None => Seq::<char>::empty(),
    }
}

/// The whole report of a container with a known state.
pub open spec fn status_report(info: ContainerStatusInfo) -> Seq<char> {
    identity_section(info) + state_section(info.state->Some_0) + process_section(info)
        + network_section(info) + host_section(info) + "Restart Count : "@ + i64_text(
        i64_or_zero(info.restart_count),
    ) + "\n"@
}

/// Error text when Docker reports no state for a container.
pub open spec fn missing_state_text() -> Seq<char> {
    "Missing container state"@
}

fn opt_or_empty(o: &Option<String>) -> (res: String)
    ensures
        res@ == text_or_empty(*o),
{
    match o {
        Some(s) => s.clone(),
        None => String::new(),
    }
}

fn bool_to_text(b: bool) -> (res: &'static str)
    ensures
        res@ == bool_text(b),
{
    if b {
        "true"
    } else {
        "false"
    }
}

fn trim_start_slashes(s: &str) -> (res: String)
    ensures
        res@ == trim_leading_slashes(s@),
{
    let n = s.unicode_len();
    let mut i: usize = 0;
    assert(s@.subrange(0, n as int) =~= s@);
    while i < n && s.get_char(i) == '/'
        invariant
            0 <= i <= n,
            n == s@.len(),
            trim_leading_slashes(s@) == trim_leading_slashes(s@.subrange(i as int, n as int)),
        decreases n - i,
    {
        let ghost rest = s@.subrange(i as int, n as int);
        assert(rest.drop_first() =~= s@.subrange(i + 1, n as int));
        i = i + 1;
    }
    proof {
        let rest = s@.subrange(i as int, n as int);
        if i < n {
            assert(rest[0] == s@[i as int]);
        }
    }
    s.substring_char(i, n).to_owned()
}

fn join_with_spaces(parts: &Vec<String>) -> (res: String)
    ensures
        res@ == join_spaces(names(parts@)),
{
    let mut out = String::new();
    let mut i: usize = 0;
    assert(names(parts@).take(0) =~= Seq::<Seq<char>>::empty());
    while i < parts.len()
        invariant
            0 <= i <= parts.len(),
            out@ == join_spaces(names(parts@).take(i as int)),
        decreases parts.len() - i,
    {
        let ghost before = names(parts@).take(i as int);
        let ghost after = names(parts@).take(i + 1);
        assert(after.drop_last() =~= before);
        if i > 0 {
            out.append(" ");
        }
        out.append(parts[i].as_str());
        proof {
            if i == 0 {
                assert(out@ =~= after[0]);
            }
        }
        i = i + 1;
    }
    assert(names(parts@).take(parts.len() as int) =~= names(parts@));
    out
}

fn identity_text(info: &ContainerStatusInfo) -> (res: String)
    ensures
        res@ == identity_section(*info),
{
    let mut out = String::from_str("\nContainer Status\n");
    out.append("================\n\n");
    out.append("ID            : ");
    out.append(opt_or_empty(&info.id).as_str());
    out.append("\n");
    out.append("Name          : ");
    out.append(trim_start_slashes(opt_or_empty(&info.name).as_str()).as_str());
    out.append("\n");
    out.append("Image         : ");
    out.append(opt_or_empty(&info.image).as_str());
    out.append("\n");
    out.append("Created       : ");
    out.append(opt_or_empty(&info.created).as_str());
    out.append("\n");
    out.append("Platform      : ");
    let platform = match &info.platform {
        Some((os, arch)) => opt_or_empty(os).concat("/").concat(opt_or_empty(arch).as_str()),
        None => String::from_str("unknown"),
    };
    out.append(platform.as_str());
    out.append("\n\n");
    out
}

fn state_text(state: &StateInfo) -> (res: String)
    ensures
        res@ == state_section(*state),
{
    let mut out = String::from_str("State\n");
    out.append("-----\n");
    out.append("Status        : ");
    out.append(opt_or_empty(&state.status).as_str());
    out.append("\n");
    out.append("Health        : ");
    let health = match &state.health {
        Some(Some(s)) => s.clone(),
        _ => String::from_str("NONE"),
    };
    out.append(health.as_str());
    out.append("\n");
    out.append("PID           : ");
    let pid = match state.pid {
        Some(p) => p,
        None => 0,
    };
    out.append(i64_to_text(pid).as_str());
    out.append("\n");
    out.append("Started At    : ");
    out.append(opt_or_empty(&state.started_at).as_str());
    out.append("\n");
    out.append("OOM Killed    : ");
    let oom = match state.oom_killed {
        Some(b) => b,
        None => false,
    };
    out.append(bool_to_text(oom));
    out.append("\n");
    out.append("Restarting    : ");
    let restarting = match state.restarting {
        Some(b) => b,
        None => false,
    };
    out.append(bool_to_text(restarting));
    out.append("\n");
    out.append("Exit Code     : ");
    let exit_code = match state.exit_code {
        Some(c) => c,
        None => 0,
    };
    out.append(i64_to_text(exit_code).as_str());
    out.append("\n\n");
    out
}

fn process_text(info: &ContainerStatusInfo) -> (res: String)
    ensures
        res@ == process_section(*info),
{
    let mut out = String::from_str("Process\n");
    out.append("-------\n");
    out.append("Entrypoint    : ");
    out.append(opt_or_empty(&info.path).as_str());
    out.append("\n");
    let command = match &info.args {
        Some(a) => String::from_str("Command       : ").concat(join_with_spaces(a).as_str()).concat(
            "\n",
        ),
        None => String::new(),
    };
    out.append(command.as_str());
    out
}

fn network_lines(info: &ContainerStatusInfo) -> (res: String)
    ensures
        res@ == network_section(*info),
{
    let mut out = String::from_str("\nNetwork\n");
    out.append("-------\n");
    let mut lines = String::new();
    match &info.networks {
        Some(ns) => {
            let mut i: usize = 0;
            assert(ns@.take(0) =~= Seq::<NetworkInfo>::empty());
            while i < ns.len()
                invariant
                    0 <= i <= ns.len(),
                    lines@ == networks_text(ns@.take(i as int)),
                decreases ns.len() - i,
            {
                assert(ns@.take(i + 1).drop_last() =~= ns@.take(i as int));
                let n = &ns[i];
                lines.append("Network       : ");
                lines.append(n.name.as_str());
                lines.append("\n");
                lines.append("IP Address    : ");
                lines.append(opt_or_empty(&n.ip_address).as_str());
                lines.append("\n");
                lines.append("Gateway       : ");
                lines.append(opt_or_empty(&n.gateway).as_str());
                lines.append("\n");
                proof {
                    let t = network_text(ns@[i as int]);
                    assert(lines@ =~= networks_text(ns@.take(i as int)) + t);
                }
                i = i + 1;
            }
            assert(ns@.take(ns.len() as int) =~= ns@);
        },
        None => {},
    }
    out.append(lines.as_str());
    out
}

fn bindings_lines(port: &str, bs: &Vec<(Option<String>, Option<String>)>) -> (res: String)
    ensures
        res@ == bindings_text(port@, bs@),
{
    let mut lines = String::new();
    let mut i: usize = 0;
    assert(bs@.take(0) =~= Seq::<(Option<String>, Option<String>)>::empty());
    while i < bs.len()
        invariant
            0 <= i <= bs.len(),
            lines@ == bindings_text(port@, bs@.take(i as int)),
        decreases bs.len() - i,
    {
        assert(bs@.take(i + 1).drop_last() =~= bs@.take(i as int));
        let b = &bs[i];
        lines.append(port);
        lines.append(" -> ");
        lines.append(opt_or_empty(&b.0).as_str());
        lines.append(":");
        lines.append(opt_or_empty(&b.1).as_str());
        lines.append("\n");
        proof {
            let t = binding_text(port@, bs@[i as int]);
            assert(lines@ =~= bindings_text(port@, bs@.take(i as int)) + t);
        }
        i = i + 1;
    }
    assert(bs@.take(bs.len() as int) =~= bs@);
    lines
}

fn ports_lines(ps: &Vec<PortBindingInfo>) -> (res: String)
    ensures
        res@ == ports_text(ps@),
{
    let mut lines = String::new();
    let mut i: usize = 0;
    assert(ps@.take(0) =~= Seq::<PortBindingInfo>::empty());
    while i < ps.len()
        invariant
            0 <= i <= ps.len(),
            lines@ == ports_text(ps@.take(i as int)),
        decreases ps.len() - i,
    {
        assert(ps@.take(i + 1).drop_last() =~= ps@.take(i as int));
        let p = &ps[i];
        let t = match &p.bindings {
            Some(bs) => bindings_lines(p.container_port.as_str(), bs),
            None => String::new(),
        };
        lines.append(t.as_str());
        i = i + 1;
    }
    assert(ps@.take(ps.len() as int) =~= ps@);
    lines
}

fn host_lines(info: &ContainerStatusInfo) -> (res: String)
    ensures
        res@ == host_section(*info),
{
    let mut out = String::from_str("\nPorts\n");
    out.append("-----\n");
    let rest = match &info.host {
        Some(h) => {
            let mut r = match &h.port_bindings {
                Some(ps) => ports_lines(ps),
                None => String::new(),
            };
            r.append("\nRestart Policy\n");
            r.append("--------------\n");
            let policy = match &h.restart_policy {
                Some(p) => String::from_str("Policy        : ").concat(p.as_str()).concat("\n"),
                None => String::new(),
            };
            r.append(policy.as_str());
            r
        },
        None => String::new(),
    };
    out.append(rest.as_str());
    out
}

/// Error text when Docker reports a state without a status.
pub open spec fn missing_status_text() -> Seq<char> {
    "Missing container status"@
}

/// The status report of a container, or an error when Docker reports no state
/// for it, or a state without a status.
pub fn docker_conatiner_status(info: &ContainerStatusInfo) -> (res: Result<String, CliErrors>)
    ensures
        info.state is None ==> res is Err && res->Err_0.message@ == missing_state_text(),
        info.state matches Some(s) && s.status is None ==> res is Err && res->Err_0.message@
            == missing_status_text(),
        info.state matches Some(s) && s.status is Some ==> res is Ok && res->Ok_0@ == status_report(
            *info,
        ),
{
    let state = match &info.state {
        Some(s) => s,
        None => {
            return Err(CliErrors::new(String::from_str("Missing container state")));
        },
    };
    if state.status.is_none() {
        return Err(CliErrors::new(String::from_str("Missing container status")));
    }
    let mut out = identity_text(info);
    out.append(state_text(state).as_str());
    out.append(process_text(info).as_str());
    out.append(network_lines(info).as_str());
    out.append(host_lines(info).as_str());
    out.append("Restart Count : ");
    let count = match info.restart_count {
        Some(c) => c,
        None => 0,
    };
    out.append(i64_to_text(count).as_str());
    out.append("\n");
    Ok(out)
}

/// The network part of the report lists every network the container is
/// attached to, in order: the lines for a list followed by one more network
/// are the lines for the list and then that network's three lines, and the
/// lines for two lists one after the other are the lines of each.
pub proof fn law_network_lines_concatenate(ns: Seq<NetworkInfo>, more: Seq<NetworkInfo>)
    ensures
        networks_text(Seq::<NetworkInfo>::empty()) == Seq::<char>::empty(),
        forall|n: NetworkInfo| #[trigger] networks_text(ns.push(n)) == networks_text(ns) + network_text(n),
        networks_text(ns + more) == networks_text(ns) + networks_text(more),
    decreases more.len(),
{
    assert forall|n: NetworkInfo| #[trigger] networks_text(ns.push(n)) == networks_text(ns) + network_text(n) by {
        assert(ns.push(n).drop_last() =~= ns);
    }
    if more.len() == 0 {
        assert(ns + more =~= ns);
        assert(networks_text(ns) + networks_text(more) =~= networks_text(ns));
    } else {
        let rest = more.drop_last();
        law_network_lines_concatenate(ns, rest);
        assert((ns + more).drop_last() =~= ns + rest);
        assert(more.drop_last() =~= rest);
        assert(networks_text(ns) + networks_text(more) =~= networks_text(ns) + networks_text(rest)
            + network_text(more.last()));
    }
}

/// The lines of one published port have one line per host binding, in order.
pub proof fn law_binding_lines_concatenate(
    port: Seq<char>,
    bs: Seq<(Option<String>, Option<String>)>,
    more: Seq<(Option<String>, Option<String>)>,
)
    ensures
        bindings_text(port, Seq::<(Option<String>, Option<String>)>::empty()) == Seq::<char>::empty(),
        forall|b: (Option<String>, Option<String>)| #[trigger] bindings_text(port, bs.push(b))
            == bindings_text(port, bs) + binding_text(port, b),
        bindings_text(port, bs + more) == bindings_text(port, bs) + bindings_text(port, more),
    decreases more.len(),
{
    assert forall|b: (Option<String>, Option<String>)| #[trigger] bindings_text(port, bs.push(b))
        == bindings_text(port, bs) + binding_text(port, b) by {
        assert(bs.push(b).drop_last() =~= bs);
    }
    if more.len() == 0 {
        assert(bs + more =~= bs);
        assert(bindings_text(port, bs) + bindings_text(port, more) =~= bindings_text(port, bs));
    } else {
        let rest = more.drop_last();
        law_binding_lines_concatenate(port, bs, rest);
        assert((bs + more).drop_last() =~= bs + rest);
        assert(more.drop_last() =~= rest);
        assert(bindings_text(port, bs) + bindings_text(port, more) =~= bindings_text(port, bs)
            + bindings_text(port, rest) + binding_text(port, more.last()));
    }
}

/// The ports part of the report holds the lines of every published port, in
/// order: the lines for a list followed by one more port are the lines for the
/// list and then that port's lines, and the lines for two lists one after the
/// other are the lines of each.
pub proof fn law_port_lines_concatenate(ps: Seq<PortBindingInfo>, more: Seq<PortBindingInfo>)
    ensures
        ports_text(Seq::<PortBindingInfo>::empty()) == Seq::<char>::empty(),
        forall|p: PortBindingInfo| #[trigger] ports_text(ps.push(p)) == ports_text(ps) + port_text(p),
        ports_text(ps + more) == ports_text(ps) + ports_text(more),
    decreases more.len(),
{
    assert forall|p: PortBindingInfo| #[trigger] ports_text(ps.push(p)) == ports_text(ps) + port_text(p) by {
        assert(ps.push(p).drop_last() =~= ps);
    }
    if more.len() == 0 {
        assert(ps + more =~= ps);
        assert(ports_text(ps) + ports_text(more) =~= ports_text(ps));
    } else {
        let rest = more.drop_last();
        law_port_lines_concatenate(ps, rest);
        assert((ps + more).drop_last() =~= ps + rest);
        assert(more.drop_last() =~= rest);
        assert(ports_text(ps) + ports_text(more) =~= ports_text(ps) + ports_text(rest) + port_text(
            more.last(),
        ));
    }
}

/// A port with bindings gets one line `<port> -> <ip>:<host port>` for each
/// of them; a port without bindings gets none.
pub proof fn law_port_binding_lines(p: PortBindingInfo)
    ensures
        p.bindings is None ==> port_text(p) == Seq::<char>::empty(),
        p.bindings matches Some(bs) ==> port_text(p) == bindings_text(p.container_port@, bs@),
        forall|port: Seq<char>, b: (Option<String>, Option<String>)| #[trigger] binding_text(port, b)
            == port + " -> "@ + text_or_empty(b.0) + ":"@ + text_or_empty(b.1) + "\n"@,
{
}

/// The command line of the report is the arguments joined by single spaces:
/// one more argument adds a space and that argument.
pub proof fn law_command_joins_arguments(parts: Seq<Seq<char>>, part: Seq<char>)
    ensures
        join_spaces(Seq::<Seq<char>>::empty()) == Seq::<char>::empty(),
        join_spaces(seq![part]) == part,
        parts.len() > 0 ==> join_spaces(parts.push(part)) == join_spaces(parts) + " "@ + part,
{
    assert(parts.push(part).drop_last() =~= parts);
}

/// A number is written in decimal: the text of `10 * n + d` is the text of
/// `n` followed by the digit `d`, and a single digit is written alone.
pub proof fn law_decimal_digits(n: nat, d: nat)
    requires
        d < 10,
    ensures
        decimal(d) == seq![digit_chars()[d as int]],
        n > 0 ==> decimal(10 * n + d) == decimal(n).push(digit_chars()[d as int]),
{
    if n > 0 {
        assert((10 * n + d) / 10 == n);
        assert((10 * n + d) % 10 == d);
    }
}

/// The name shown is the container's name without its leading slashes: the
/// name is some slashes followed by what is shown, and what is shown does not
/// begin with a slash.
pub proof fn law_name_without_leading_slashes(s: Seq<char>)
    ensures
        trim_leading_slashes(s).len() == 0 || trim_leading_slashes(s)[0] != '/',
        s.len() >= trim_leading_slashes(s).len(),
        s == Seq::new((s.len() - trim_leading_slashes(s).len()) as nat, |i: int| '/')
            + trim_leading_slashes(s),
    decreases s.len(),
{
    if s.len() > 0 && s[0] == '/' {
        law_name_without_leading_slashes(s.drop_first());
        let t = trim_leading_slashes(s);
        let k = (s.len() - t.len()) as nat;
        let rest = s.drop_first();
        assert(trim_leading_slashes(rest) == t);
        assert(rest == Seq::new((k - 1) as nat, |i: int| '/') + t);
        assert forall|i: int| 0 <= i < s.len() implies s[i] == (Seq::new(k, |i: int| '/') + t)[i] by {
            if i == 0 {
            } else {
                assert(s[i] == rest[i - 1]);
                if i < k {
                    assert((Seq::new((k - 1) as nat, |i: int| '/') + t)[i - 1] == '/');
                } else {
                    assert((Seq::new((k - 1) as nat, |i: int| '/') + t)[i - 1] == t[i - k]);
                }
            }
        }
        assert(s =~= Seq::new(k, |i: int| '/') + t);
    } else {
        assert(s =~= Seq::new(0nat, |i: int| '/') + s);
    }
}

} // verus!
