use vstd::prelude::*;
use crate::ansi::TermColor;
use crate::number::{decimal_hundredths, format_hundredths, hundredths_text, parse_hundredths};
use crate::text::{
    chars_of, contains, find, find_chars, lines, lines_of, replace_char, replace_char_chars,
    split_chars, split_on, str_contains, str_views, string_from, string_of, trim, trim_chars,
    trim_end_char, trim_end_char_chars, trim_end_newlines, trim_end_newlines_chars,
    trim_start_char, trim_start_char_chars, views,
};

verus! {

/// A Docker container as the dashboard lists it.
///
/// The CPU load is kept in hundredths of a percent, the precision with which
/// `docker stats` reports it.
#[derive(Debug, Clone)]
pub struct Container {
    pub id: String,
    pub name: String,
    pub image: String,
    pub status: String,
    pub cpu_hundredths: u64,
    pub memory: String,
    pub uptime: String,
}

} // verus!

verus! {

/// The text of a line of console output without its line ending: every
/// trailing `\r` and `\n` is removed.
pub fn keep_ansi_line(s: &str) -> (r: String)
    ensures
        r@ == trim_end_newlines(s@),
{
    let v = chars_of(s);
    let t = trim_end_newlines_chars(&v);
    string_from(t.as_slice())
}

/// The uptime that a container's status text shows: what follows the first
/// "Up ", trimmed, or "n/a" when the status has no "Up ".
pub open spec fn uptime_from_status(s: Seq<char>) -> Seq<char> {
    match find(s, "Up "@) {
        Some(i) => trim(s.skip(i + "Up "@.len())),
        None => "n/a"@,
    }
}

/// The uptime shown for a container, read from its status text.
pub fn derive_uptime_from_status(status: &str) -> (r: String)
    ensures
        r@ == uptime_from_status(status@),
{
    let v = chars_of(status);
    let pat = chars_of("Up ");
    let n = v.len();
    match find_chars(&v, &pat) {
        Some(i) => {
            proof {
                crate::text::lemma_find_from(v@, pat@, 0);
            }
            let mut rest: Vec<char> = Vec::new();
            let mut j = i + pat.len();
            while j < v.len()
                invariant
                    i + pat@.len() <= j <= v@.len(),
                    rest@ == v@.subrange(i + pat@.len(), j as int),
                decreases v@.len() - j,
            {
                rest.push(v[j]);
                assert(v@.subrange(i + pat@.len(), j + 1) =~= v@.subrange(
                    i + pat@.len(),
                    j as int,
                ).push(v@[j as int]));
                j = j + 1;
            }
            assert(rest@ =~= v@.skip(i + pat@.len()));
            let t = trim_chars(&rest);
            string_from(t.as_slice())
        },
        None => string_of("n/a"),
    }
}

/// One key of the CPU and memory figures read from `docker stats`.
#[derive(Debug, Clone)]
pub struct StatsEntry {
    pub key: String,
    pub cpu_hundredths: u64,
    pub memory: String,
}

/// The content of a stats entry.
pub struct StatsEntryView {
    pub key: Seq<char>,
    pub cpu_hundredths: u64,
    pub memory: Seq<char>,
}

/// The contents of a sequence of stats entries.
pub open spec fn stats_views(v: Seq<StatsEntry>) -> Seq<StatsEntryView> {
    Seq::new(
        v.len(),
        |i: int|
            StatsEntryView {
                key: v[i].key@,
                cpu_hundredths: v[i].cpu_hundredths,
                memory: v[i].memory@,
            },
    )
}

/// The CPU load of a stats field such as " 12,5% ": trimmed, without its `%`
/// signs, with `,` read as the decimal point; 0 when it is no number.
pub open spec fn stats_cpu(field: Seq<char>) -> u64 {
    match decimal_hundredths(replace_char(trim(trim_end_char(trim(field), '%')), ',', '.')) {
        Some(v) => v,
        None => 0,
    }
}

/// The entries that one line of `docker stats` output gives: its tab-separated
/// fields are id, name, CPU and memory; the line is keyed by its id and by its
/// name without leading `/`, each when not empty. Lines with fewer than four
/// fields give none.
pub open spec fn stats_line_entries(line: Seq<char>) -> Seq<StatsEntryView> {
    let parts = split_on(line, '\t');
    if parts.len() < 4 {
        seq![]
    } else {
        let id = trim(parts[0]);
        let name = trim(parts[1]);
        let cpu = stats_cpu(parts[2]);
        let mem = trim(parts[3]);
        (if id.len() > 0 {
            seq![StatsEntryView { key: id, cpu_hundredths: cpu, memory: mem }]
        } else {
            seq![]
        }) + (if name.len() > 0 {
            seq![StatsEntryView { key: trim_start_char(name, '/'), cpu_hundredths: cpu, memory: mem }]
        } else {
            seq![]
        })
    }
}

/// The entries of all lines, in order.
pub open spec fn stats_entries(ls: Seq<Seq<char>>) -> Seq<StatsEntryView>
    decreases ls.len(),
{
    if ls.len() == 0 {
        seq![]
    } else {
        stats_entries(ls.drop_last()) + stats_line_entries(ls.last())
    }
}

/// The stats entries of the output of `docker stats --format
/// "{{.ID}}\t{{.Name}}\t{{.CPUPerc}}\t{{.MemUsage}}"`.
pub open spec fn docker_stats(out: Seq<char>) -> Seq<StatsEntryView> {
    stats_entries(lines(out))
}

fn cpu_of_field(field: &Vec<char>) -> (r: u64)
    ensures
        r == stats_cpu(field@),
{
    let t = trim_chars(field);
    let u = trim_end_char_chars(&t, '%');
    let w = trim_chars(&u);
    let x = replace_char_chars(&w, ',', '.');
    match parse_hundredths(&x) {
        Some(v) => v,
        None => 0,
    }
}

fn line_entries(line: &Vec<char>, out: &mut Vec<StatsEntry>)
    ensures
        stats_views(final(out)@) == stats_views(old(out)@) + stats_line_entries(line@),
{
    let parts = split_chars(line, '\t');
    if parts.len() < 4 {
        assert(stats_views(out@) =~= stats_views(out@) + stats_line_entries(line@));
        return;
    }
    assert(views(parts@)[0] == parts@[0]@);
    assert(views(parts@)[1] == parts@[1]@);
    assert(views(parts@)[2] == parts@[2]@);
    assert(views(parts@)[3] == parts@[3]@);
    let id = trim_chars(&parts[0]);
    let name = trim_chars(&parts[1]);
    let cpu = cpu_of_field(&parts[2]);
    let mem = trim_chars(&parts[3]);
    let ghost before = stats_views(out@);
    if id.len() > 0 {
        out.push(
            StatsEntry {
                key: string_from(id.as_slice()),
                cpu_hundredths: cpu,
                memory: string_from(mem.as_slice()),
            },
        );
    }
    let ghost mid = stats_views(out@);
    if name.len() > 0 {
        let key = trim_start_char_chars(&name, '/');
        out.push(
            StatsEntry {
                key: string_from(key.as_slice()),
                cpu_hundredths: cpu,
                memory: string_from(mem.as_slice()),
            },
        );
    }
    assert(stats_views(out@) =~= before + stats_line_entries(line@));
}

/// Reads the CPU and memory figures out of `docker stats` output.
pub fn parse_docker_stats(out: &str) -> (r: Vec<StatsEntry>)
    ensures
        stats_views(r@) == docker_stats(out@),
{
    let ls = lines_of(out);
    let mut entries: Vec<StatsEntry> = Vec::new();
    for i in 0..ls.len()
        invariant
            views(ls@) == lines(out@),
            stats_views(entries@) == stats_entries(views(ls@).take(i as int)),
    {
        assert(views(ls@).take(i + 1).drop_last() =~= views(ls@).take(i as int));
        assert(views(ls@)[i as int] == ls@[i as int]@);
        line_entries(&ls[i], &mut entries);
    }
    assert(views(ls@).take(ls@.len() as int) =~= views(ls@));
    entries
}

/// The latest entry for `key`: later output replaces earlier output.
pub open spec fn latest_for(es: Seq<StatsEntryView>, key: Seq<char>) -> Option<StatsEntryView>
    decreases es.len(),
{
    if es.len() == 0 {
        None
    } else if es.last().key == key {
        Some(es.last())
    } else {
        latest_for(es.drop_last(), key)
    }
}

fn find_latest(es: &Vec<StatsEntry>, key: &String) -> (r: Option<usize>)
    ensures
        match r {
            Some(i) => i < es@.len() && latest_for(stats_views(es@), key@) == Some(
                stats_views(es@)[i as int],
            ),
            None => latest_for(stats_views(es@), key@) is None,
        },
{
    let mut i = es.len();
    assert(stats_views(es@).take(i as int) =~= stats_views(es@));
    while i > 0
        invariant
            i <= es@.len(),
            latest_for(stats_views(es@), key@) == latest_for(
                stats_views(es@).take(i as int),
                key@,
            ),
        decreases i,
    {
        let ghost t = stats_views(es@).take(i as int);
        assert(t.last() == stats_views(es@)[i - 1]);
        assert(t.drop_last() =~= stats_views(es@).take(i - 1));
        if es[i - 1].key == *key {
            return Some(i - 1);
        }
        i = i - 1;
    }
    None
}

/// The figures shown for a container: the latest entry keyed by its id, else
/// the latest keyed by its name, else 0 and "n/a".
pub open spec fn stats_for(es: Seq<StatsEntryView>, id: Seq<char>, name: Seq<char>) -> (u64, Seq<char>) {
    match latest_for(es, id) {
        Some(e) => (e.cpu_hundredths, e.memory),
        None => match latest_for(es, name) {
            Some(e) => (e.cpu_hundredths, e.memory),
            None => (0, "n/a"@),
        },
    }
}

/// The content of an optional string, empty when absent.
pub open spec fn text_or_empty(o: Option<String>) -> Seq<char> {
    match o {
        Some(s) => s@,
        None => seq![],
    }
}

/// The name under which a container is listed: its first name (else its id)
/// without leading `/`.
pub open spec fn listed_name(id: Seq<char>, names: Option<Vec<String>>) -> Seq<char> {
    let raw = match names {
        Some(ns) => if ns@.len() > 0 {
            ns@[0]@
        } else {
            id
        },
        None => id,
    };
    trim_start_char(raw, '/')
}

/// A container as listed, built from what the Docker API reports of it and the
/// figures read from `docker stats`.
pub fn container_from_summary(
    id: Option<String>,
    names: Option<Vec<String>>,
    image: Option<String>,
    status: Option<String>,
    stats: &Vec<StatsEntry>,
) -> (c: Container)
    ensures
        c.id@ == text_or_empty(id),
        c.name@ == listed_name(text_or_empty(id), names),
        c.image@ == text_or_empty(image),
        c.status@ == (match status {
            Some(s) => s@,
            None => "unknown"@,
        }),
        (c.cpu_hundredths, c.memory@) == stats_for(stats_views(stats@), c.id@, c.name@),
        c.uptime@ == uptime_from_status(c.status@),
{
    let id = match id {
        Some(s) => s,
        None => String::new(),
    };
    let raw = match &names {
        Some(ns) => if ns.len() > 0 {
            ns[0].clone()
        } else {
            id.clone()
        },
        None => id.clone(),
    };
    let rv = chars_of(raw.as_str());
    let nv = trim_start_char_chars(&rv, '/');
    let name = string_from(nv.as_slice());
    let image = match image {
        Some(s) => s,
        None => String::new(),
    };
    let status = match status {
        Some(s) => s,
        None => string_of("unknown"),
    };
    let (cpu, memory) = match find_latest(stats, &id) {
        Some(i) => (stats[i].cpu_hundredths, stats[i].memory.clone()),
        None => match find_latest(stats, &name) {
            Some(i) => (stats[i].cpu_hundredths, stats[i].memory.clone()),
            None => (0, string_of("n/a")),
        },
    };
    let uptime = derive_uptime_from_status(status.as_str());
    Container { id, name, image, status, cpu_hundredths: cpu, memory, uptime }
}

/// The text shown for a container's CPU load, as in "12.5%".
pub fn cpu_text(c: &Container) -> (r: String)
    ensures
        r@ == hundredths_text(c.cpu_hundredths as nat).push('%'),
{
    let mut v = format_hundredths(c.cpu_hundredths);
    v.push('%');
    string_from(v.as_slice())
}

/// The last `n` items of `s`.
pub open spec fn last_items<A>(s: Seq<A>, n: nat) -> Seq<A> {
    if s.len() > n {
        s.skip(s.len() - n)
    } else {
        s
    }
}

/// The most log lines that a console starts with.
pub const MAX_LOG_LINES: usize = 2000;

/// The console lines made of `docker logs` output: its lines without line
/// endings, the last `MAX_LOG_LINES` of them.
pub fn console_log_lines(out: &str) -> (r: Vec<String>)
    ensures
        str_views(r@) == last_items(
            Seq::new(lines(out@).len(), |i: int| trim_end_newlines(lines(out@)[i])),
            MAX_LOG_LINES as nat,
        ),
{
    let ls = lines_of(out);
    let ghost all = Seq::new(lines(out@).len(), |i: int| trim_end_newlines(lines(out@)[i]));
    let n = ls.len();
    let start = if n > MAX_LOG_LINES {
        n - MAX_LOG_LINES
    } else {
        0
    };
    let mut r: Vec<String> = Vec::new();
    let mut i = start;
    while i < n
        invariant
            start <= i <= n == ls@.len(),
            views(ls@) == lines(out@),
            all == Seq::new(lines(out@).len(), |i: int| trim_end_newlines(lines(out@)[i])),
            str_views(r@) == all.subrange(start as int, i as int),
        decreases n - i,
    {
        let t = trim_end_newlines_chars(&ls[i]);
        let ghost before = str_views(r@);
        r.push(string_from(t.as_slice()));
        assert(views(ls@)[i as int] == ls@[i as int]@);
        assert(str_views(r@) =~= before.push(all[i as int]));
        assert(all.subrange(start as int, i + 1) =~= all.subrange(start as int, i as int).push(
            all[i as int],
        ));
        i = i + 1;
    }
    assert(all.subrange(start as int, n as int) =~= last_items(all, MAX_LOG_LINES as nat));
    r
}

/// How a container's status reads.
#[derive(Debug, Clone, Copy, PartialEq, Eq, Structural)]
pub enum StatusKind {
    Running,
    Stopped,
    Other,
}

/// Running when the status mentions "Up" or "running", else stopped when it
/// mentions "Exited" or "stopped", else other.
pub open spec fn status_kind_of(s: Seq<char>) -> StatusKind {
    if contains(s, "Up"@) || contains(s, "running"@) {
        StatusKind::Running
    } else if contains(s, "Exited"@) || contains(s, "stopped"@) {
        StatusKind::Stopped
    } else {
        StatusKind::Other
    }
}

/// How a container's status text reads.
pub fn status_kind(status: &str) -> (k: StatusKind)
    ensures
        k == status_kind_of(status@),
{
    if str_contains(status, "Up") || str_contains(status, "running") {
        StatusKind::Running
    } else if str_contains(status, "Exited") || str_contains(status, "stopped") {
        StatusKind::Stopped
    } else {
        StatusKind::Other
    }
}

/// The text in lower case (`str::to_lowercase`).
pub uninterp spec fn lowercase(s: Seq<char>) -> Seq<char>;

/// `str::to_lowercase`: the text with every character mapped to lower case by
/// the Unicode tables of std. The contract names the result and says nothing of it.
#[verifier::external_body]
pub fn to_lowercase(s: &str) -> (r: String)
    ensures
        r@ == lowercase(s@),
{
    s.to_lowercase()
}

/// The accent colour of a container from its name and image already in lower
/// case: green for game servers (name or image mentions "minecraft", or the
/// name mentions "eefoc"), teal for terminals and shells, none for others.
pub open spec fn accent_of_lowered(n: Seq<char>, i: Seq<char>) -> Option<TermColor> {
    if contains(n, "minecraft"@) || contains(i, "minecraft"@) || contains(n, "eefoc"@) {
        Some(TermColor::Rgb(85, 170, 85))
    } else if contains(n, "terminal"@) || contains(i, "terminal"@) || contains(n, "ttyd"@)
        || contains(i, "tty"@) || contains(n, "shell"@) || contains(n, "bash"@) || contains(
        n,
        "console"@,
    ) || contains(n, "alpine"@) {
        Some(TermColor::Rgb(100, 200, 220))
    } else {
        None
    }
}

/// The accent colour of a container; names and images are compared in lower case.
pub open spec fn accent_of(name: Seq<char>, image: Seq<char>) -> Option<TermColor> {
    accent_of_lowered(lowercase(name), lowercase(image))
}

/// The accent colour of a container whose name and image were put in lower case.
pub fn accent_of_lowercase(name_lower: &str, image_lower: &str) -> (r: Option<TermColor>)
    ensures
        r == accent_of_lowered(name_lower@, image_lower@),
{
    let n = name_lower;
    let i = image_lower;
    if str_contains(n, "minecraft") || str_contains(i, "minecraft") || str_contains(n, "eefoc") {
        Some(TermColor::Rgb(85, 170, 85))
    } else if str_contains(n, "terminal") || str_contains(i, "terminal") || str_contains(n, "ttyd")
        || str_contains(i, "tty") || str_contains(n, "shell") || str_contains(n, "bash")
        || str_contains(n, "console") || str_contains(n, "alpine") {
        Some(TermColor::Rgb(100, 200, 220))
    } else {
        None
    }
}

/// The accent colour of a container, from its name and image.
pub fn get_container_color(name: &str, image: &str) -> (r: Option<TermColor>)
    ensures
        r == accent_of(name@, image@),
{
    let n = to_lowercase(name);
    let i = to_lowercase(image);
    accent_of_lowercase(n.as_str(), i.as_str())
}

/// Law: the fields of a `docker stats` line, separated by tabs, are the id,
/// the name, the CPU load and the memory use. A line of four fields with an id
/// and a name gives two entries with the same figures: one keyed by the id,
/// then one keyed by the name without its leading `/`; its memory text is the
/// fourth field, trimmed. A line of fewer fields gives none.
pub proof fn law_stats_fields(line: Seq<char>)
    ensures
        split_on(line, '\t').len() < 4 ==> stats_line_entries(line).len() == 0,
        split_on(line, '\t').len() >= 4 && trim(split_on(line, '\t')[0]).len() > 0 && trim(
            split_on(line, '\t')[1],
        ).len() > 0 ==> {
            let es = stats_line_entries(line);
            let f = split_on(line, '\t');
            &&& es.len() == 2
            &&& es[0].key == trim(f[0])
            &&& es[1].key == trim_start_char(trim(f[1]), '/')
            &&& es[0].memory == trim(f[3]) && es[1].memory == trim(f[3])
            &&& es[0].cpu_hundredths == stats_cpu(f[2]) && es[1].cpu_hundredths == stats_cpu(f[2])
        },
{
}

/// Law: the figures shown for a container come from the latest entry keyed by
/// its id, and only when there is none from the latest keyed by its name; an
/// entry added later for a key replaces the earlier ones.
pub proof fn law_stats_lookup(es: Seq<StatsEntryView>, e: StatsEntryView, id: Seq<char>, name: Seq<char>)
    ensures
        latest_for(es.push(e), e.key) == Some(e),
        e.key != id ==> latest_for(es.push(e), id) == latest_for(es, id),
        e.key == id ==> stats_for(es.push(e), id, name) == (e.cpu_hundredths, e.memory),
        latest_for(es, id) is None && latest_for(es, name) is None ==> stats_for(es, id, name) == (
            0u64,
            "n/a"@,
        ),
{
    assert(es.push(e).drop_last() =~= es);
}

} // verus!
