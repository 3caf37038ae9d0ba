use vstd::prelude::*;
use crate::number::{decimal, parse_u16, parse_u16_chars, push_decimal, lemma_decimal, is_digit};
use crate::number::{parse_u32, parse_u32_chars};
use crate::text::{
    split_on, split_chars, trim, trim_chars, views, chars_of, string_from, string_of, is_ws,
    trim_start, trim_end, words, words_of, lines, lines_of, contains, contains_chars, str_contains,
    trim_end_char, trim_end_char_chars,
};
use crate::container::{lowercase, to_lowercase};

verus! {

/// The two panes of the network view.
#[derive(Debug, Clone, Copy, PartialEq, Eq, Structural)]
pub enum NetworkSubView {
    Manager,
    PortChecker,
}

impl Default for NetworkSubView {
    fn default() -> (r: Self)
        ensures
            r == NetworkSubView::Manager,
    {
        NetworkSubView::Manager
    }
}

/// Which input field of the port checker receives typed characters.
#[derive(Debug, Clone, Copy, PartialEq, Eq, Structural)]
pub enum PortInputFocus {
    Host,
    Ports,
}

impl Default for PortInputFocus {
    fn default() -> (r: Self)
        ensures
            r == PortInputFocus::Host,
    {
        PortInputFocus::Host
    }
}

/// A network interface of the host.
#[derive(Debug, Clone)]
pub struct NetworkInterface {
    pub name: String,
    pub ip: String,
    pub mac: String,
    pub is_up: bool,
}

/// An open socket of the host.
#[derive(Debug, Clone)]
pub struct NetworkConnection {
    pub protocol: String,
    pub local_addr: String,
    pub remote_addr: String,
    pub state: String,
    pub pid: u32,
}

/// A port found open by the port checker, with its well-known service.
#[derive(Debug, Clone)]
pub struct PortScanResult {
    pub port: u16,
    pub service: String,
}

/// The port sets that the port checker offers.
#[derive(Debug, Clone, Copy, PartialEq, Eq, Structural)]
pub enum PortPreset {
    Custom,
    Common,
    Web,
    Database,
    All,
}

impl Default for PortPreset {
    fn default() -> (r: Self)
        ensures
            r == PortPreset::Custom,
    {
        PortPreset::Custom
    }
}

/// The ports of a preset.
pub open spec fn preset_ports(p: PortPreset) -> Seq<u16> {
    match p {
        PortPreset::Custom => seq![],
        PortPreset::Common => seq![
            21u16,
            22,
            23,
            25,
            53,
            80,
            110,
            143,
            443,
            993,
            995,
            3306,
            3389,
            5432,
            8080,
            8443,
        ],
        PortPreset::Web => seq![80u16, 443, 8080, 8443, 3000, 4000, 5000, 8000, 9000],
        PortPreset::Database => seq![3306u16, 5432, 27017, 6379, 11211, 9200, 9300],
        PortPreset::All => Seq::new(1024, |i: int| (i + 1) as u16),
    }
}

/// The display name of a preset.
pub open spec fn preset_label(p: PortPreset) -> Seq<char> {
    match p {
        PortPreset::Custom => "Custom"@,
        PortPreset::Common => "Common"@,
        PortPreset::Web => "Web"@,
        PortPreset::Database => "Database"@,
        PortPreset::All => "All (1-1024)"@,
    }
}

/// The preset that follows `p` when the user cycles presets.
pub open spec fn preset_after(p: PortPreset) -> PortPreset {
    match p {
        PortPreset::Custom => PortPreset::Common,
        PortPreset::Common => PortPreset::Web,
        PortPreset::Web => PortPreset::Database,
        PortPreset::Database => PortPreset::All,
        PortPreset::All => PortPreset::Custom,
    }
}

impl PortPreset {
    /// The ports that this preset selects.
    pub fn ports(&self) -> (r: Vec<u16>)
        ensures
            r@ == preset_ports(*self),
    {
        match self {
            PortPreset::Custom => Vec::new(),
            PortPreset::Common => {
                let v: Vec<u16> = vec![
                    21,
                    22,
                    23,
                    25,
                    53,
                    80,
                    110,
                    143,
                    443,
                    993,
                    995,
                    3306,
                    3389,
                    5432,
                    8080,
                    8443,
                ];
                assert(v@ =~= preset_ports(*self));
                v
            },
            PortPreset::Web => {
                let v: Vec<u16> = vec![80, 443, 8080, 8443, 3000, 4000, 5000, 8000, 9000];
                assert(v@ =~= preset_ports(*self));
                v
            },
            PortPreset::Database => {
                let v: Vec<u16> = vec![3306, 5432, 27017, 6379, 11211, 9200, 9300];
                assert(v@ =~= preset_ports(*self));
                v
            },
            PortPreset::All => {
                let mut v: Vec<u16> = Vec::new();
                let mut p: u16 = 1;
                while p <= 1024
                    invariant
                        1 <= p <= 1025,
                        v@ =~= Seq::new((p - 1) as nat, |i: int| (i + 1) as u16),
                    decreases 1025 - p,
                {
                    v.push(p);
                    p = p + 1;
                }
                v
            },
        }
    }

    /// The name of this preset as shown in the port checker.
    pub fn label(&self) -> (r: &'static str)
        ensures
            r@ == preset_label(*self),
    {
        match self {
            PortPreset::Custom => "Custom",
            PortPreset::Common => "Common",
            PortPreset::Web => "Web",
            PortPreset::Database => "Database",
            PortPreset::All => "All (1-1024)",
        }
    }
}

} // verus!

verus! {

/// The well-known service usually listening on a port, or `Unknown`.
pub open spec fn service_name(port: u16) -> Seq<char> {
    match port {
        20 => "FTP Data"@,
        21 => "FTP"@,
        22 => "SSH"@,
        23 => "Telnet"@,
        25 => "SMTP"@,
        53 => "DNS"@,
        67 => "DHCP"@,
        68 => "DHCP"@,
        69 => "TFTP"@,
        80 => "HTTP"@,
        110 => "POP3"@,
        119 => "NNTP"@,
        123 => "NTP"@,
        135 => "RPC"@,
        137 => "NetBIOS"@,
        138 => "NetBIOS"@,
        139 => "NetBIOS"@,
        143 => "IMAP"@,
        161 => "SNMP"@,
        162 => "SNMP Trap"@,
        389 => "LDAP"@,
        443 => "HTTPS"@,
        445 => "SMB"@,
        465 => "SMTPS"@,
        514 => "Syslog"@,
        587 => "SMTP"@,
        636 => "LDAPS"@,
        993 => "IMAPS"@,
        995 => "POP3S"@,
        1433 => "MSSQL"@,
        1521 => "Oracle"@,
        3306 => "MySQL"@,
        3389 => "RDP"@,
        5432 => "PostgreSQL"@,
        5900 => "VNC"@,
        6379 => "Redis"@,
        8080 => "HTTP Alt"@,
        8443 => "HTTPS Alt"@,
        9200 => "Elasticsearch"@,
        9300 => "Elasticsearch"@,
        27017 => "MongoDB"@,
        _ => "Unknown"@,
    }
}

/// The well-known service usually listening on `port` ("Unknown" for others).
pub fn get_service_name(port: u16) -> (r: &'static str)
    ensures
        r@ == service_name(port),
{
    match port {
        20 => "FTP Data",
        21 => "FTP",
        22 => "SSH",
        23 => "Telnet",
        25 => "SMTP",
        53 => "DNS",
        67 => "DHCP",
        68 => "DHCP",
        69 => "TFTP",
        80 => "HTTP",
        110 => "POP3",
        119 => "NNTP",
        123 => "NTP",
        135 => "RPC",
        137 => "NetBIOS",
        138 => "NetBIOS",
        139 => "NetBIOS",
        143 => "IMAP",
        161 => "SNMP",
        162 => "SNMP Trap",
        389 => "LDAP",
        443 => "HTTPS",
        445 => "SMB",
        465 => "SMTPS",
        514 => "Syslog",
        587 => "SMTP",
        636 => "LDAPS",
        993 => "IMAPS",
        995 => "POP3S",
        1433 => "MSSQL",
        1521 => "Oracle",
        3306 => "MySQL",
        3389 => "RDP",
        5432 => "PostgreSQL",
        5900 => "VNC",
        6379 => "Redis",
        8080 => "HTTP Alt",
        8443 => "HTTPS Alt",
        9200 => "Elasticsearch",
        9300 => "Elasticsearch",
        27017 => "MongoDB",
        _ => "Unknown",
    }
}

} // verus!

verus! {

/// The port that the scanner reads from one comma-separated piece of its input.
pub open spec fn port_of_piece(p: Seq<char>) -> Option<u16> {
    parse_u16(trim(p))
}

/// The ports read from a sequence of pieces, skipping pieces that are no port.
pub open spec fn ports_of_pieces(ps: Seq<Seq<char>>) -> Seq<u16>
    decreases ps.len(),
{
    if ps.len() == 0 {
        seq![]
    } else {
        let init = ports_of_pieces(ps.drop_last());
        match port_of_piece(ps.last()) {
            Some(p) => init.push(p),
            None => init,
        }
    }
}

/// The ports that a comma-separated port list names: each piece is trimmed and
/// read as a 16-bit number, and pieces that are no number are skipped.
pub open spec fn port_list(s: Seq<char>) -> Seq<u16> {
    ports_of_pieces(split_on(s, ','))
}

/// Ports written in decimal and joined by commas.
pub open spec fn join_ports(p: Seq<u16>) -> Seq<char>
    decreases p.len(),
{
    if p.len() == 0 {
        seq![]
    } else if p.len() == 1 {
        decimal(p[0] as nat)
    } else {
        join_ports(p.drop_last()) + seq![','] + decimal(p.last() as nat)
    }
}

/// Reads the ports of a comma-separated list as the port scanner does.
pub fn parse_port_list(s: &str) -> (r: Vec<u16>)
    ensures
        r@ == port_list(s@),
{
    let cs = chars_of(s);
    let pieces = split_chars(&cs, ',');
    let mut out: Vec<u16> = Vec::new();
    for i in 0..pieces.len()
        invariant
            views(pieces@) == split_on(s@, ','),
            out@ == ports_of_pieces(views(pieces@).take(i as int)),
    {
        let t = trim_chars(&pieces[i]);
        let p = parse_u16_chars(&t);
        assert(views(pieces@).take(i + 1).drop_last() =~= views(pieces@).take(i as int));
        assert(views(pieces@)[i as int] == pieces@[i as int]@);
        if let Some(port) = p {
            out.push(port);
        }
    }
    assert(views(pieces@).take(pieces@.len() as int) =~= views(pieces@));
    out
}

/// Writes ports in decimal, separated by commas, as the preset selector does.
pub fn format_port_list(ports: &Vec<u16>) -> (r: String)
    ensures
        r@ == join_ports(ports@),
{
    let mut out: Vec<char> = Vec::new();
    for i in 0..ports.len()
        invariant
            out@ == join_ports(ports@.take(i as int)),
    {
        assert(ports@.take(i + 1).drop_last() =~= ports@.take(i as int));
        if i > 0 {
            out.push(',');
        }
        let ghost before = out@;
        push_decimal(&mut out, ports[i] as u64);
        if i == 0 {
            assert(out@ =~= decimal(ports@[0] as nat));
        } else {
            assert(out@ =~= before + decimal(ports@[i as int] as nat));
        }
    }
    assert(ports@.take(ports@.len() as int) =~= ports@);
    string_from(out.as_slice())
}

/// Splitting always yields at least one piece.
pub proof fn lemma_split_on_nonempty(s: Seq<char>, sep: char)
    ensures
        split_on(s, sep).len() >= 1,
    decreases s.len(),
{
    if s.len() > 0 {
        lemma_split_on_nonempty(s.drop_last(), sep);
    }
}

/// A string without separators is a single piece.
pub proof fn lemma_split_on_single(b: Seq<char>, sep: char)
    requires
        forall|i: int| 0 <= i < b.len() ==> b[i] != sep,
    ensures
        split_on(b, sep) == seq![b],
    decreases b.len(),
{
    if b.len() > 0 {
        lemma_split_on_single(b.drop_last(), sep);
        assert(b.drop_last().push(b.last()) =~= b);
        assert(seq![b.drop_last()].update(0, b.drop_last().push(b.last())) =~= seq![b]);
    } else {
        assert(b =~= Seq::<char>::empty());
    }
}

/// Splitting at a separator splits the two sides independently.
pub proof fn lemma_split_on_append(a: Seq<char>, b: Seq<char>, sep: char)
    ensures
        split_on(a + seq![sep] + b, sep) == split_on(a, sep) + split_on(b, sep),
    decreases b.len(),
{
    let t = a + seq![sep] + b;
    lemma_split_on_nonempty(a, sep);
    if b.len() == 0 {
        assert(t.drop_last() =~= a);
        assert(split_on(a, sep).push(Seq::<char>::empty()) =~= split_on(a, sep) + split_on(
            b,
            sep,
        ));
    } else {
        assert(t.drop_last() =~= a + seq![sep] + b.drop_last());
        lemma_split_on_append(a, b.drop_last(), sep);
        lemma_split_on_nonempty(b.drop_last(), sep);
        let x = split_on(b.drop_last(), sep);
        if b.last() == sep {
            assert((split_on(a, sep) + x).push(Seq::<char>::empty()) =~= split_on(a, sep)
                + x.push(Seq::<char>::empty()));
        } else {
            let y = split_on(a, sep) + x;
            assert(y.update(y.len() - 1, y.last().push(b.last())) =~= split_on(a, sep)
                + x.update(x.len() - 1, x.last().push(b.last())));
        }
    }
}

/// A decimal representation is left unchanged by trimming.
pub proof fn lemma_trim_decimal(n: nat)
    ensures
        trim(decimal(n)) == decimal(n),
{
    lemma_decimal(n);
    let d = decimal(n);
    assert(is_digit(d[0]));
    assert(!is_ws(d[0]));
    assert(trim_start(d) == d);
    assert(is_digit(d[d.len() - 1]));
    assert(trim_end(d) == d);
}

/// The pieces of a joined port list are the decimal representations of the ports.
pub proof fn lemma_split_join_ports(p: Seq<u16>)
    requires
        p.len() > 0,
    ensures
        split_on(join_ports(p), ',') == Seq::new(p.len(), |i: int| decimal(p[i] as nat)),
    decreases p.len(),
{
    lemma_decimal(p.last() as nat);
    let dl = decimal(p.last() as nat);
    assert forall|i: int| 0 <= i < dl.len() implies dl[i] != ',' by {
        assert(is_digit(dl[i]));
    }
    lemma_split_on_single(dl, ',');
    if p.len() == 1 {
        assert(seq![dl] =~= Seq::new(p.len(), |i: int| decimal(p[i] as nat)));
    } else {
        lemma_split_join_ports(p.drop_last());
        lemma_split_on_append(join_ports(p.drop_last()), dl, ',');
        assert(Seq::new(p.drop_last().len(), |i: int| decimal(p.drop_last()[i] as nat)) + seq![
            dl,
        ] =~= Seq::new(p.len(), |i: int| decimal(p[i] as nat)));
    }
}

/// Reading back a sequence of decimal representations gives the ports.
pub proof fn lemma_ports_of_decimals(p: Seq<u16>)
    ensures
        ports_of_pieces(Seq::new(p.len(), |i: int| decimal(p[i] as nat))) == p,
    decreases p.len(),
{
    if p.len() > 0 {
        let ps = Seq::new(p.len(), |i: int| decimal(p[i] as nat));
        assert(ps.drop_last() =~= Seq::new(
            p.drop_last().len(),
            |i: int| decimal(p.drop_last()[i] as nat),
        ));
        lemma_ports_of_decimals(p.drop_last());
        lemma_trim_decimal(p.last() as nat);
        lemma_decimal(p.last() as nat);
        let d = decimal(p.last() as nat);
        assert(crate::number::unsigned_digits(d) == d);
        assert(port_of_piece(ps.last()) == Some(p.last()));
        assert(p.drop_last().push(p.last()) =~= p);
    } else {
        assert(p =~= Seq::<u16>::empty());
    }
}

/// Law: reading back a port list that the preset selector wrote gives exactly
/// the ports it was written from, in order.
pub proof fn law_port_list_round_trip(p: Seq<u16>)
    ensures
        port_list(join_ports(p)) == p,
{
    if p.len() == 0 {
        assert(split_on(Seq::<char>::empty(), ',') =~= seq![Seq::<char>::empty()]);
        let e = Seq::<char>::empty();
        assert(join_ports(p) =~= e);
        assert(trim_start(e) == e);
        assert(trim_end(e) == e);
        assert(seq![e].drop_last() =~= Seq::<Seq<char>>::empty());
        assert(port_of_piece(e) is None);
        assert(seq![e].last() == e);
        assert(ports_of_pieces(seq![e].drop_last()) =~= Seq::<u16>::empty());
        assert(ports_of_pieces(seq![e]) =~= Seq::<u16>::empty());
        assert(port_list(join_ports(p)) =~= Seq::<u16>::empty());
        assert(p =~= Seq::<u16>::empty());
    } else {
        lemma_split_join_ports(p);
        lemma_ports_of_decimals(p);
        assert(port_list(join_ports(p)) == p);
    }
}

} // verus!

verus! {

/// The content of a network interface.
#[verifier::ext_equal]
pub struct InterfaceView {
    pub name: Seq<char>,
    pub ip: Seq<char>,
    pub mac: Seq<char>,
    pub is_up: bool,
}

/// The content of a network connection.
#[verifier::ext_equal]
pub struct ConnectionView {
    pub protocol: Seq<char>,
    pub local_addr: Seq<char>,
    pub remote_addr: Seq<char>,
    pub state: Seq<char>,
    pub pid: u32,
}

/// The contents of a sequence of interfaces.
pub open spec fn iface_views(v: Seq<NetworkInterface>) -> Seq<InterfaceView> {
    Seq::new(
        v.len(),
        |i: int| InterfaceView { name: v[i].name@, ip: v[i].ip@, mac: v[i].mac@, is_up: v[i].is_up },
    )
}

/// The contents of a sequence of connections.
pub open spec fn conn_views(v: Seq<NetworkConnection>) -> Seq<ConnectionView> {
    Seq::new(
        v.len(),
        |i: int|
            ConnectionView {
                protocol: v[i].protocol@,
                local_addr: v[i].local_addr@,
                remote_addr: v[i].remote_addr@,
                state: v[i].state@,
                pid: v[i].pid,
            },
    )
}

/// Whether an interface state reads as up, given the state and the state in
/// lower case: it is "UP", or its lower-case form mentions "up".
pub open spec fn state_is_up(state: Seq<char>, lowered: Seq<char>) -> bool {
    state == "UP"@ || contains(lowered, "up"@)
}

/// Whether an interface state reads as up, from the state and its lower-case form.
pub fn interface_is_up(state: &str, state_lower: &str) -> (b: bool)
    ensures
        b == state_is_up(state@, state_lower@),
{
    let st = string_of(state);
    let up_lit = string_of("UP");
    st == up_lit || str_contains(state_lower, "up")
}

/// The interface that a line of `ip -br addr show` describes: its words are
/// name, state and addresses; the interface is up when the state is "UP" or
/// mentions "up" in lower case; its address is the first one, without prefix
/// length. Lines of fewer than two words describe none.
pub open spec fn ip_brief_entry(line: Seq<char>) -> Option<InterfaceView> {
    let w = words(line);
    if w.len() >= 2 {
        Some(
            InterfaceView {
                name: w[0],
                ip: if w.len() > 2 {
                    split_on(w[2], '/')[0]
                } else {
                    seq![]
                },
                mac: seq![],
                is_up: state_is_up(w[1], lowercase(w[1])),
            },
        )
    } else {
        None
    }
}

/// The interfaces that lines of `ip -br addr show` describe.
pub open spec fn ip_brief_interfaces(ls: Seq<Seq<char>>) -> Seq<InterfaceView>
    decreases ls.len(),
{
    if ls.len() == 0 {
        seq![]
    } else {
        let init = ip_brief_interfaces(ls.drop_last());
        match ip_brief_entry(ls.last()) {
            Some(e) => init.push(e),
            None => init,
        }
    }
}

fn ip_brief_line(line: &Vec<char>, out: &mut Vec<NetworkInterface>)
    ensures
        iface_views(final(out)@) == match ip_brief_entry(line@) {
            Some(e) => iface_views(old(out)@).push(e),
            None => iface_views(old(out)@),
        },
{
    let w = words_of(line);
    if w.len() >= 2 {
        assert(views(w@)[0] == w@[0]@);
        assert(views(w@)[1] == w@[1]@);
        let name = string_from(w[0].as_slice());
        let status = string_from(w[1].as_slice());
        let lowered = to_lowercase(status.as_str());
        let is_up = interface_is_up(status.as_str(), lowered.as_str());
        let ip = if w.len() > 2 {
            assert(views(w@)[2] == w@[2]@);
            let pieces = split_chars(&w[2], '/');
            assert(views(pieces@)[0] == pieces@[0]@);
            string_from(pieces[0].as_slice())
        } else {
            String::new()
        };
        let ghost before = iface_views(out@);
        out.push(NetworkInterface { name, ip, mac: String::new(), is_up });
        assert(iface_views(out@) =~= before.push(ip_brief_entry(line@)->0));
    }
}

/// Reads the interfaces out of `ip -br addr show` output (their MAC addresses
/// are left empty).
pub fn parse_ip_brief(out: &str) -> (r: Vec<NetworkInterface>)
    ensures
        iface_views(r@) == ip_brief_interfaces(lines(out@)),
{
    let ls = lines_of(out);
    let mut r: Vec<NetworkInterface> = Vec::new();
    for i in 0..ls.len()
        invariant
            views(ls@) == lines(out@),
            iface_views(r@) == ip_brief_interfaces(views(ls@).take(i as int)),
    {
        assert(views(ls@).take(i + 1).drop_last() =~= views(ls@).take(i as int));
        assert(views(ls@)[i as int] == ls@[i as int]@);
        ip_brief_line(&ls[i], &mut r);
    }
    assert(views(ls@).take(ls@.len() as int) =~= views(ls@));
    r
}

/// The MAC address read from an interface's `address` file: its text, trimmed.
pub fn mac_from_sysfs(raw: &str) -> (r: String)
    ensures
        r@ == trim(raw@),
{
    crate::text::trim_str(raw)
}

/// The process id at the end of an `ss` line: its last word up to the first
/// `,`, read as a number, or 0.
pub open spec fn ss_pid(last_word: Seq<char>) -> u32 {
    match parse_u32(split_on(last_word, ',')[0]) {
        Some(p) => p,
        None => 0,
    }
}

/// The connection that a line of `ss -tunap` describes: its words are
/// protocol, state, queues, local and remote address, and process; TCP when
/// the protocol mentions `t`, else UDP. Lines of fewer than five words
/// describe none.
pub open spec fn ss_entry(line: Seq<char>) -> Option<ConnectionView> {
    let w = words(line);
    if w.len() >= 5 {
        Some(
            ConnectionView {
                protocol: if contains(w[0], "t"@) {
                    "TCP"@
                } else {
                    "UDP"@
                },
                local_addr: w[4],
                remote_addr: if w.len() > 5 {
                    w[5]
                } else {
                    "*"@
                },
                state: w[1],
                pid: ss_pid(w.last()),
            },
        )
    } else {
        None
    }
}

/// The connection that a line of `netstat -ano` describes: its words are
/// protocol, local and remote address and state, and the last is the process
/// id (0 when it is no number). Lines of fewer than four words describe none.
pub open spec fn netstat_entry(line: Seq<char>) -> Option<ConnectionView> {
    let w = words(line);
    if w.len() >= 4 {
        Some(
            ConnectionView {
                protocol: w[0],
                local_addr: w[1],
                remote_addr: w[2],
                state: w[3],
                pid: match parse_u32(w.last()) {
                    Some(p) => p,
                    None => 0,
                },
            },
        )
    } else {
        None
    }
}

/// Which tool printed a connection table.
#[derive(Debug, Clone, Copy, PartialEq, Eq, Structural)]
pub enum ConnectionTable {
    /// `ss -tunap`, with one header line.
    Ss,
    /// `netstat -ano`, with four header lines.
    Netstat,
}

/// The connection a line of a table describes.
pub open spec fn table_entry(t: ConnectionTable, line: Seq<char>) -> Option<ConnectionView> {
    match t {
        ConnectionTable::Ss => ss_entry(line),
        ConnectionTable::Netstat => netstat_entry(line),
    }
}

/// How many header lines a table starts with.
pub open spec fn header_lines(t: ConnectionTable) -> nat {
    match t {
        ConnectionTable::Ss => 1,
        ConnectionTable::Netstat => 4,
    }
}

/// The connections that lines of a table describe.
pub open spec fn table_connections(t: ConnectionTable, ls: Seq<Seq<char>>) -> Seq<ConnectionView>
    decreases ls.len(),
{
    if ls.len() == 0 {
        seq![]
    } else {
        let init = table_connections(t, ls.drop_last());
        match table_entry(t, ls.last()) {
            Some(e) => init.push(e),
            None => init,
        }
    }
}

/// The connections that a table lists below its header.
pub open spec fn connections_of(t: ConnectionTable, out: Seq<char>) -> Seq<ConnectionView> {
    let ls = lines(out);
    table_connections(
        t,
        if ls.len() > header_lines(t) {
            ls.skip(header_lines(t) as int)
        } else {
            seq![]
        },
    )
}

fn connection_line(t: ConnectionTable, line: &Vec<char>, out: &mut Vec<NetworkConnection>)
    ensures
        conn_views(final(out)@) == match table_entry(t, line@) {
            Some(e) => conn_views(old(out)@).push(e),
            None => conn_views(old(out)@),
        },
{
    let w = words_of(line);
    let n = w.len();
    let min = match t {
        ConnectionTable::Ss => 5,
        ConnectionTable::Netstat => 4,
    };
    if n < min {
        return;
    }
    assert(views(w@)[0] == w@[0]@);
    assert(views(w@)[1] == w@[1]@);
    assert(views(w@)[2] == w@[2]@);
    assert(views(w@)[3] == w@[3]@);
    assert(views(w@)[n - 1] == w@[n - 1]@);
    let ghost before = conn_views(out@);
    match t {
        ConnectionTable::Ss => {
            assert(views(w@)[4] == w@[4]@);
            let tee = chars_of("t");
            let protocol = if contains_chars(&w[0], &tee) {
                string_of("TCP")
            } else {
                string_of("UDP")
            };
            let remote = if n > 5 {
                assert(views(w@)[5] == w@[5]@);
                string_from(w[5].as_slice())
            } else {
                string_of("*")
            };
            let pieces = split_chars(&w[n - 1], ',');
            assert(views(pieces@)[0] == pieces@[0]@);
            let pid = match parse_u32_chars(&pieces[0]) {
                Some(p) => p,
                None => 0,
            };
            out.push(
                NetworkConnection {
                    protocol,
                    local_addr: string_from(w[4].as_slice()),
                    remote_addr: remote,
                    state: string_from(w[1].as_slice()),
                    pid,
                },
            );
        },
        ConnectionTable::Netstat => {
            let pid = match parse_u32_chars(&w[n - 1]) {
                Some(p) => p,
                None => 0,
            };
            out.push(
                NetworkConnection {
                    protocol: string_from(w[0].as_slice()),
                    local_addr: string_from(w[1].as_slice()),
                    remote_addr: string_from(w[2].as_slice()),
                    state: string_from(w[3].as_slice()),
                    pid,
                },
            );
        },
    }
    assert(conn_views(out@) =~= before.push(table_entry(t, line@)->0));
}

/// Reads the connections out of the output of `ss -tunap` or `netstat -ano`.
pub fn parse_connections(t: ConnectionTable, out: &str) -> (r: Vec<NetworkConnection>)
    ensures
        conn_views(r@) == connections_of(t, out@),
{
    let ls = lines_of(out);
    let skip: usize = match t {
        ConnectionTable::Ss => 1,
        ConnectionTable::Netstat => 4,
    };
    let mut r: Vec<NetworkConnection> = Vec::new();
    if ls.len() <= skip {
        return r;
    }
    let ghost body = views(ls@).skip(skip as int);
    let mut i = skip;
    assert(body.take(0) =~= Seq::<Seq<char>>::empty());
    while i < ls.len()
        invariant
            skip <= i <= ls@.len(),
            skip == header_lines(t),
            views(ls@) == lines(out@),
            body == views(ls@).skip(skip as int),
            conn_views(r@) == table_connections(t, body.take(i - skip)),
        decreases ls@.len() - i,
    {
        assert(body.take(i - skip + 1).drop_last() =~= body.take(i - skip));
        assert(body.take(i - skip + 1).last() == ls@[i as int]@);
        connection_line(t, &ls[i], &mut r);
        i = i + 1;
    }
    assert(body.take(ls@.len() - skip) =~= body);
    r
}

/// What the `ipconfig` reader holds while it reads: the interfaces it has
/// finished and the one it is reading.
pub struct IpconfigState {
    pub done: Seq<InterfaceView>,
    pub current: InterfaceView,
}

/// The value after the last `:` of a line, trimmed.
pub open spec fn after_last_colon(t: Seq<char>) -> Seq<char> {
    trim(split_on(t, ':').last())
}

/// One line of `ipconfig` output: a line that ends in `:` starts a new adapter
/// (finishing the current one, if it has a name); an IPv4 line sets the
/// address and marks the adapter up; a physical-address or MAC line sets the
/// MAC address; other lines are skipped.
pub open spec fn ipconfig_line(st: IpconfigState, line: Seq<char>) -> IpconfigState {
    let t = trim(line);
    if t.len() > 0 && t.last() == ':' && !(t[0] == ' ') {
        IpconfigState {
            done: if st.current.name.len() > 0 {
                st.done.push(st.current)
            } else {
                st.done
            },
            current: InterfaceView { name: trim_end_char(t, ':'), ip: seq![], mac: seq![], is_up: false },
        }
    } else if contains(t, "IPv4 Address"@) || contains(t, "IPv4"@) {
        IpconfigState {
            current: InterfaceView { ip: after_last_colon(t), is_up: true, ..st.current },
            ..st
        }
    } else if contains(t, "Physical Address"@) || contains(t, "MAC"@) {
        IpconfigState { current: InterfaceView { mac: after_last_colon(t), ..st.current }, ..st }
    } else {
        st
    }
}

/// The reader's state after some lines of `ipconfig` output.
pub open spec fn ipconfig_fold(ls: Seq<Seq<char>>) -> IpconfigState
    decreases ls.len(),
{
    if ls.len() == 0 {
        IpconfigState {
            done: seq![],
            current: InterfaceView { name: seq![], ip: seq![], mac: seq![], is_up: false },
        }
    } else {
        ipconfig_line(ipconfig_fold(ls.drop_last()), ls.last())
    }
}

/// The adapters that `ipconfig` output describes.
pub open spec fn ipconfig_interfaces(out: Seq<char>) -> Seq<InterfaceView> {
    let st = ipconfig_fold(lines(out));
    if st.current.name.len() > 0 {
        st.done.push(st.current)
    } else {
        st.done
    }
}

fn last_value(t: &Vec<char>) -> (r: String)
    ensures
        r@ == after_last_colon(t@),
{
    let pieces = split_chars(t, ':');
    let k = pieces.len() - 1;
    assert(views(pieces@)[k as int] == pieces@[k as int]@);
    let v = trim_chars(&pieces[k]);
    string_from(v.as_slice())
}

/// Reads the adapters out of `ipconfig` output.
pub fn parse_ipconfig(out: &str) -> (r: Vec<NetworkInterface>)
    ensures
        iface_views(r@) == ipconfig_interfaces(out@),
{
    let ls = lines_of(out);
    let ipv4a = chars_of("IPv4 Address");
    let ipv4 = chars_of("IPv4");
    let phys = chars_of("Physical Address");
    let mac_lit = chars_of("MAC");
    let mut r: Vec<NetworkInterface> = Vec::new();
    let mut name = String::new();
    let mut ip = String::new();
    let mut mac = String::new();
    let mut is_up = false;
    assert(views(ls@).take(0) =~= Seq::<Seq<char>>::empty());
    assert(iface_views(r@) =~= Seq::<InterfaceView>::empty());
    for i in 0..ls.len()
        invariant
            views(ls@) == lines(out@),
            ipv4a@ == "IPv4 Address"@,
            ipv4@ == "IPv4"@,
            phys@ == "Physical Address"@,
            mac_lit@ == "MAC"@,
            ipconfig_fold(views(ls@).take(i as int)) == (IpconfigState {
                done: iface_views(r@),
                current: InterfaceView { name: name@, ip: ip@, mac: mac@, is_up },
            }),
    {
        assert(views(ls@).take(i + 1).drop_last() =~= views(ls@).take(i as int));
        assert(views(ls@)[i as int] == ls@[i as int]@);
        let t = trim_chars(&ls[i]);
        let n = t.len();
        if n > 0 && t[n - 1] == ':' && !(t[0] == ' ') {
            if !name.as_str().is_empty() {
                let ghost before = iface_views(r@);
                r.push(NetworkInterface { name: name.clone(), ip: ip.clone(), mac: mac.clone(), is_up });
                assert(iface_views(r@) =~= before.push(
                    InterfaceView { name: name@, ip: ip@, mac: mac@, is_up },
                ));
            }
            let stripped = trim_end_char_chars(&t, ':');
            name = string_from(stripped.as_slice());
            ip = String::new();
            mac = String::new();
            is_up = false;
        } else if contains_chars(&t, &ipv4a) || contains_chars(&t, &ipv4) {
            ip = last_value(&t);
            is_up = true;
        } else if contains_chars(&t, &phys) || contains_chars(&t, &mac_lit) {
            mac = last_value(&t);
        }
    }
    assert(views(ls@).take(ls@.len() as int) =~= views(ls@));
    if !name.as_str().is_empty() {
        let ghost before = iface_views(r@);
        r.push(NetworkInterface { name, ip, mac, is_up });
        assert(iface_views(r@) =~= before.push(ipconfig_fold(lines(out@)).current));
    }
    r
}

} // verus!

verus! {

/// Lines of a table of which every one describes a connection give one
/// connection each, in order.
proof fn lemma_table_rows(t: ConnectionTable, ls: Seq<Seq<char>>)
    requires
        forall|k: int| 0 <= k < ls.len() ==> (#[trigger] table_entry(t, ls[k])) is Some,
    ensures
        table_connections(t, ls).len() == ls.len(),
        forall|k: int|
            0 <= k < ls.len() ==> table_connections(t, ls)[k] == (#[trigger] table_entry(
                t,
                ls[k],
            ))->0,
    decreases ls.len(),
{
    if ls.len() > 0 {
        let init = ls.drop_last();
        assert forall|k: int| 0 <= k < init.len() implies (#[trigger] table_entry(
            t,
            init[k],
        )) is Some by {
            assert(init[k] == ls[k]);
        }
        lemma_table_rows(t, init);
        assert forall|k: int| 0 <= k < ls.len() implies table_connections(t, ls)[k] == (
        #[trigger] table_entry(t, ls[k]))->0 by {
            if k < ls.len() - 1 {
                assert(init[k] == ls[k]);
            }
        }
    }
}

/// The words of the `k`-th line of a table below its header.
pub open spec fn row_words(t: ConnectionTable, out: Seq<char>, k: int) -> Seq<Seq<char>> {
    words(lines(out)[k + header_lines(t)])
}

/// How many lines a table has below its header.
pub open spec fn row_count(t: ConnectionTable, out: Seq<char>) -> int {
    if lines(out).len() > header_lines(t) {
        lines(out).len() - header_lines(t)
    } else {
        0
    }
}

/// Law: the columns of `netstat -ano`. A line of at least four words lists
/// the protocol, the local address, the foreign address and the state in its
/// first four words, and the process id as its last word (0 when that is no
/// number); a shorter line lists no connection. When every line below the
/// four header lines has four words, each gives one connection, in order.
pub proof fn law_netstat_columns(line: Seq<char>, out: Seq<char>)
    ensures
        words(line).len() >= 4 ==> (table_entry(ConnectionTable::Netstat, line) matches Some(c)
            && c.protocol == words(line)[0] && c.local_addr == words(line)[1] && c.remote_addr
            == words(line)[2] && c.state == words(line)[3] && c.pid == (match parse_u32(
            words(line).last(),
        ) {
            Some(p) => p,
            None => 0u32,
        })),
        words(line).len() < 4 ==> table_entry(ConnectionTable::Netstat, line) is None,
        (forall|k: int|
            0 <= k < row_count(ConnectionTable::Netstat, out) ==> (#[trigger] row_words(
                ConnectionTable::Netstat,
                out,
                k,
            )).len() >= 4) ==> {
            let cs = connections_of(ConnectionTable::Netstat, out);
            &&& cs.len() == row_count(ConnectionTable::Netstat, out)
            &&& forall|k: int|
                0 <= k < cs.len() ==> (#[trigger] cs[k]).local_addr == row_words(
                    ConnectionTable::Netstat,
                    out,
                    k,
                )[1] && cs[k].remote_addr == row_words(ConnectionTable::Netstat, out, k)[2]
                    && cs[k].protocol == row_words(ConnectionTable::Netstat, out, k)[0]
                    && cs[k].state == row_words(ConnectionTable::Netstat, out, k)[3]
        },
{
    law_table_rows(ConnectionTable::Netstat, out, 4);
}

/// Law: the columns of `ss -tunap`. A line of at least five words lists the
/// state as its second word, the local address as its fifth and the peer
/// address as its sixth (`*` when there is none); it is TCP when its first
/// word mentions `t`, else UDP; a shorter line lists no connection. When every
/// line below the header line has five words, each gives one connection, in
/// order.
pub proof fn law_ss_columns(line: Seq<char>, out: Seq<char>)
    ensures
        words(line).len() >= 5 ==> (table_entry(ConnectionTable::Ss, line) matches Some(c)
            && c.state == words(line)[1] && c.local_addr == words(line)[4] && c.remote_addr == (
        if words(line).len() > 5 {
            words(line)[5]
        } else {
            "*"@
        }) && c.protocol == (if contains(words(line)[0], "t"@) {
            "TCP"@
        } else {
            "UDP"@
        })),
        words(line).len() < 5 ==> table_entry(ConnectionTable::Ss, line) is None,
        (forall|k: int|
            0 <= k < row_count(ConnectionTable::Ss, out) ==> (#[trigger] row_words(
                ConnectionTable::Ss,
                out,
                k,
            )).len() >= 5) ==> {
            let cs = connections_of(ConnectionTable::Ss, out);
            &&& cs.len() == row_count(ConnectionTable::Ss, out)
            &&& forall|k: int|
                0 <= k < cs.len() ==> (#[trigger] cs[k]).local_addr == row_words(
                    ConnectionTable::Ss,
                    out,
                    k,
                )[4] && cs[k].state == row_words(ConnectionTable::Ss, out, k)[1]
        },
{
    law_table_rows(ConnectionTable::Ss, out, 5);
}

/// When every line below the header has at least `min` words, the lines give
/// one connection each, in order.
proof fn law_table_rows(t: ConnectionTable, out: Seq<char>, min: int)
    requires
        min == (match t {
            ConnectionTable::Ss => 5int,
            ConnectionTable::Netstat => 4int,
        }),
    ensures
        (forall|k: int|
            0 <= k < row_count(t, out) ==> (#[trigger] row_words(t, out, k)).len() >= min) ==> {
            let cs = connections_of(t, out);
            &&& cs.len() == row_count(t, out)
            &&& forall|k: int|
                0 <= k < cs.len() ==> #[trigger] cs[k] == table_entry(
                    t,
                    lines(out)[k + header_lines(t)],
                )->0
        },
{
    if forall|k: int| 0 <= k < row_count(t, out) ==> (#[trigger] row_words(t, out, k)).len() >= min {
        let ls = lines(out);
        let h = header_lines(t) as int;
        let body = if ls.len() > h {
            ls.skip(h)
        } else {
            seq![]
        };
        assert forall|k: int| 0 <= k < body.len() implies (#[trigger] table_entry(
            t,
            body[k],
        )) is Some by {
            assert(body[k] == ls[k + h]);
            assert(row_words(t, out, k).len() >= min);
        }
        lemma_table_rows(t, body);
        assert forall|k: int| 0 <= k < body.len() implies #[trigger] table_connections(t, body)[k]
            == table_entry(t, ls[k + h])->0 by {
            assert(body[k] == ls[k + h]);
        }
    }
}

/// Whether a line of `ipconfig` output starts an adapter: trimmed, it ends
/// in `:`.
pub open spec fn adapter_header(line: Seq<char>) -> bool {
    trim(line).len() > 0 && trim(line).last() == ':'
}

/// Whether a line of `ipconfig` output carries nothing the reader takes: it
/// starts no adapter and names no IPv4 address, physical address or MAC.
pub open spec fn plain_ipconfig_line(line: Seq<char>) -> bool {
    !adapter_header(line) && !contains(trim(line), "IPv4 Address"@) && !contains(
        trim(line),
        "IPv4"@,
    ) && !contains(
        trim(line),
        "Physical Address"@,
    ) && !contains(trim(line), "MAC"@)
}

/// A trimmed text does not start with white space.
proof fn lemma_trim_first(s: Seq<char>)
    ensures
        trim(s).len() > 0 ==> !is_ws(trim(s)[0]),
    decreases s.len(),
{
    lemma_trim_start_first(s);
    lemma_trim_end_prefix(trim_start(s));
}

proof fn lemma_trim_start_first(s: Seq<char>)
    ensures
        trim_start(s).len() > 0 ==> !is_ws(trim_start(s)[0]),
    decreases s.len(),
{
    if s.len() > 0 && is_ws(s[0]) {
        lemma_trim_start_first(s.drop_first());
    }
}

proof fn lemma_trim_end_prefix(s: Seq<char>)
    ensures
        trim_end(s).len() <= s.len(),
        forall|k: int| 0 <= k < trim_end(s).len() ==> trim_end(s)[k] == s[k],
    decreases s.len(),
{
    if s.len() > 0 && is_ws(s.last()) {
        lemma_trim_end_prefix(s.drop_last());
        assert forall|k: int| 0 <= k < trim_end(s).len() implies trim_end(s)[k] == s[k] by {
            assert(s.drop_last()[k] == s[k]);
        }
    }
}

/// Law: each adapter of `ipconfig` output takes its address and MAC only from
/// the lines under its own header. Right after a header, and after any lines
/// that carry nothing the reader takes, the adapter being read has the
/// header's name (without its colon), no address, no MAC and is down; the
/// adapters before it are those the earlier lines gave, ended by the one being
/// read there (when it had a name). So an adapter whose block has no IPv4 or
/// MAC line is listed with both empty, whatever came before it.
pub proof fn law_ipconfig_blocks(ls: Seq<Seq<char>>, h: Seq<char>, rest: Seq<Seq<char>>)
    requires
        adapter_header(h),
        forall|k: int| 0 <= k < rest.len() ==> plain_ipconfig_line(#[trigger] rest[k]),
    ensures
        ipconfig_fold(ls + seq![h] + rest).current == (InterfaceView {
            name: trim_end_char(trim(h), ':'),
            ip: seq![],
            mac: seq![],
            is_up: false,
        }),
        ipconfig_fold(ls + seq![h] + rest).done == (if ipconfig_fold(ls).current.name.len() > 0 {
            ipconfig_fold(ls).done.push(ipconfig_fold(ls).current)
        } else {
            ipconfig_fold(ls).done
        }),
    decreases rest.len(),
{
    if rest.len() == 0 {
        assert(ls + seq![h] + rest =~= ls.push(h));
        assert(ls.push(h).drop_last() =~= ls);
        lemma_trim_first(h);
        assert((' ' as u32) == 0x20u32);
        assert(is_ws(' '));
        assert(trim(h)[0] != ' ');
        assert(ipconfig_fold(ls.push(h)) == ipconfig_line(ipconfig_fold(ls), h));
    } else {
        let init = rest.drop_last();
        assert forall|k: int| 0 <= k < init.len() implies plain_ipconfig_line(
            #[trigger] init[k],
        ) by {
            assert(init[k] == rest[k]);
        }
        law_ipconfig_blocks(ls, h, init);
        assert((ls + seq![h] + rest).drop_last() =~= ls + seq![h] + init);
        assert(plain_ipconfig_line(rest[rest.len() - 1]));
        assert(rest.last() == rest[rest.len() - 1]);
    }
}

/// Law: in the listing of `ipconfig` output, an adapter whose header is
/// followed to the end by lines that carry nothing the reader takes is listed
/// last, with its name and with no address and no MAC, down.
pub proof fn law_ipconfig_last_adapter(
    out: Seq<char>,
    ls: Seq<Seq<char>>,
    h: Seq<char>,
    rest: Seq<Seq<char>>,
)
    requires
        lines(out) == ls + seq![h] + rest,
        adapter_header(h),
        trim_end_char(trim(h), ':').len() > 0,
        forall|k: int| 0 <= k < rest.len() ==> plain_ipconfig_line(#[trigger] rest[k]),
    ensures
        ipconfig_interfaces(out).len() > 0,
        ipconfig_interfaces(out).last() == (InterfaceView {
            name: trim_end_char(trim(h), ':'),
            ip: seq![],
            mac: seq![],
            is_up: false,
        }),
{
    law_ipconfig_blocks(ls, h, rest);
}

/// Law: the columns of `ip -br addr show`. A line of at least two words lists
/// an interface named by its first word, up exactly when its second word is
/// "UP" or mentions "up" in lower case, with the address of its third word
/// without the prefix length (none when there is no third word) and no MAC; a
/// line of fewer words lists nothing. Each such line gives one interface, in
/// the order of the lines.
pub proof fn law_ip_brief_columns(line: Seq<char>, ls: Seq<Seq<char>>)
    ensures
        words(line).len() >= 2 ==> (ip_brief_entry(line) matches Some(e) && e.name == words(
            line,
        )[0] && e.mac.len() == 0 && e.is_up == (words(line)[1] == "UP"@ || contains(
            lowercase(words(line)[1]),
            "up"@,
        )) && e.ip == (if words(line).len() > 2 {
            split_on(words(line)[2], '/')[0]
        } else {
            seq![]
        })),
        words(line).len() < 2 ==> ip_brief_entry(line) is None,
        ip_brief_interfaces(ls.push(line)) == (match ip_brief_entry(line) {
            Some(e) => ip_brief_interfaces(ls).push(e),
            None => ip_brief_interfaces(ls),
        }),
{
    assert(ls.push(line).drop_last() =~= ls);
}

} // verus!
