use vstd::prelude::*;
use crate::container::{lowercase, to_lowercase};
use crate::number::{decimal, push_decimal};
use crate::text::{chars_of, string_from, string_of};

verus! {

/// Load of one CPU core, in whole percent.
#[derive(Debug, Clone)]
pub struct CpuCoreUsage {
    pub name: String,
    pub usage: u64,
}

/// Memory in use and installed, in bytes.
#[derive(Debug, Clone, Copy)]
pub struct MemoryUsage {
    pub used: u64,
    pub total: u64,
}

/// Space of one mounted disk, in bytes.
#[derive(Debug, Clone)]
pub struct DiskUsage {
    pub name: String,
    pub mount_point: String,
    pub used: u64,
    pub total: u64,
}

/// Bytes received and transmitted over all interfaces.
#[derive(Debug, Clone, Copy)]
pub struct NetworkUsage {
    pub received: u64,
    pub transmitted: u64,
}

/// One sample of the host's metrics. CPU loads are in whole percent.
#[derive(Debug, Clone)]
pub struct SystemMetrics {
    pub cpu_total: u64,
    pub cpu_cores: Vec<CpuCoreUsage>,
    pub memory: MemoryUsage,
    pub disks: Vec<DiskUsage>,
    pub network: NetworkUsage,
}

} // verus!

verus! {

/// Whether `a` comes before `b` in the order of strings (`String`'s `Ord`):
/// lexicographic by character, a proper prefix coming first.
pub open spec fn lex_lt(a: Seq<char>, b: Seq<char>) -> bool
    decreases a.len(),
{
    if a.len() == 0 {
        b.len() > 0
    } else if b.len() == 0 {
        false
    } else if a[0] != b[0] {
        (a[0] as u32) < (b[0] as u32)
    } else {
        lex_lt(a.drop_first(), b.drop_first())
    }
}

/// No string comes before itself.
pub proof fn lemma_lex_irrefl(a: Seq<char>)
    ensures
        !lex_lt(a, a),
    decreases a.len(),
{
    if a.len() > 0 {
        lemma_lex_irrefl(a.drop_first());
    }
}

/// The order of strings is strict and total.
pub proof fn lemma_lex_total(a: Seq<char>, b: Seq<char>)
    ensures
        !(lex_lt(a, b) && lex_lt(b, a)),
        !lex_lt(a, a),
        a != b ==> lex_lt(a, b) || lex_lt(b, a),
    decreases a.len(),
{
    lemma_lex_irrefl(a);
    if a.len() > 0 && b.len() > 0 {
        if a[0] == b[0] {
            lemma_lex_total(a.drop_first(), b.drop_first());
            if a != b {
                assert(a.drop_first() != b.drop_first()) by {
                    if a.drop_first() == b.drop_first() {
                        assert(a =~= seq![a[0]] + a.drop_first());
                        assert(b =~= seq![b[0]] + b.drop_first());
                    }
                }
            }
        } else {
            vstd::utf8::char_u32_cast(a[0], a[0] as u32);
            vstd::utf8::char_u32_cast(b[0], b[0] as u32);
            assert((a[0] as u32) != (b[0] as u32));
        }
    } else if a.len() == 0 && b.len() == 0 {
        assert(a =~= b);
    }
}

/// The order of strings is transitive.
pub proof fn lemma_lex_trans(a: Seq<char>, b: Seq<char>, c: Seq<char>)
    requires
        lex_lt(a, b),
        lex_lt(b, c),
    ensures
        lex_lt(a, c),
    decreases a.len(),
{
    if a.len() > 0 && b.len() > 0 && c.len() > 0 && a[0] == b[0] && b[0] == c[0] {
        lemma_lex_trans(a.drop_first(), b.drop_first(), c.drop_first());
    }
}

/// Whether `a` comes before `b` in the order of strings.
pub fn lex_less(a: &Vec<char>, b: &Vec<char>) -> (r: bool)
    ensures
        r == lex_lt(a@, b@),
{
    let mut i: usize = 0;
    let na = a.len();
    let nb = b.len();
    assert(a@.skip(0) =~= a@);
    assert(b@.skip(0) =~= b@);
    while i < na && i < nb && a[i] == b[i]
        invariant
            i <= na == a@.len(),
            i <= nb == b@.len(),
            lex_lt(a@, b@) == lex_lt(a@.skip(i as int), b@.skip(i as int)),
        decreases na - i,
    {
        assert(a@.skip(i as int).drop_first() =~= a@.skip(i + 1));
        assert(b@.skip(i as int).drop_first() =~= b@.skip(i + 1));
        i = i + 1;
    }
    if i == na {
        i < nb
    } else if i == nb {
        false
    } else {
        (a[i] as u32) < (b[i] as u32)
    }
}

/// Space in use on a disk: its size less its free space, or 0.
pub fn disk_usage(name: String, mount_point: String, total: u64, available: u64) -> (d: DiskUsage)
    ensures
        d.name == name,
        d.mount_point == mount_point,
        d.total == total,
        d.used == if total > available {
            total - available
        } else {
            0
        },
{
    DiskUsage { name, mount_point, used: total.saturating_sub(available), total }
}

/// The mount points of a sequence of disks.
pub open spec fn mounts(s: Seq<DiskUsage>) -> Seq<Seq<char>> {
    Seq::new(s.len(), |i: int| s[i].mount_point@)
}

/// The first disk listed at each mount point, in order.
pub open spec fn first_per_mount(s: Seq<DiskUsage>) -> Seq<DiskUsage>
    decreases s.len(),
{
    if s.len() == 0 {
        seq![]
    } else {
        let init = first_per_mount(s.drop_last());
        if mounts(init).contains(s.last().mount_point@) {
            init
        } else {
            init.push(s.last())
        }
    }
}

/// Whether the disks are in strictly increasing order of mount point.
pub open spec fn sorted_by_mount(s: Seq<DiskUsage>) -> bool {
    forall|i: int, j: int|
        0 <= i < j < s.len() ==> lex_lt(#[trigger] s[i].mount_point@, #[trigger] s[j].mount_point@)
}

fn copy_disk(d: &DiskUsage) -> (r: DiskUsage)
    ensures
        r == *d,
{
    DiskUsage {
        name: d.name.clone(),
        mount_point: d.mount_point.clone(),
        used: d.used,
        total: d.total,
    }
}

/// The disk list that the system view shows: one disk per mount point, the
/// first listed there, in order of mount point (a stable sort by mount point
/// followed by dropping neighbours with the same mount point).
pub fn dedup_disks(disks: &Vec<DiskUsage>) -> (r: Vec<DiskUsage>)
    ensures
        sorted_by_mount(r@),
        forall|x: DiskUsage| r@.contains(x) <==> first_per_mount(disks@).contains(x),
{
    let mut out: Vec<DiskUsage> = Vec::new();
    for i in 0..disks.len()
        invariant
            sorted_by_mount(out@),
            forall|x: DiskUsage| out@.contains(x) <==> first_per_mount(disks@.take(i as int)).contains(x),
    {
        let d = &disks[i];
        let ghost f = first_per_mount(disks@.take(i as int));
        assert(disks@.take(i + 1).drop_last() =~= disks@.take(i as int));
        assert(disks@.take(i + 1).last() == *d);
        let dm = chars_of(d.mount_point.as_str());
        let mut p: usize = 0;
        while p < out.len() && lex_less(&chars_of(out[p].mount_point.as_str()), &dm)
            invariant
                p <= out@.len(),
                dm@ == d.mount_point@,
                sorted_by_mount(out@),
                forall|k: int| 0 <= k < p ==> lex_lt(#[trigger] out@[k].mount_point@, dm@),
            decreases out@.len() - p,
        {
            p = p + 1;
        }
        let same = p < out.len() && !lex_less(&dm, &chars_of(out[p].mount_point.as_str()));
        proof {
            if p < out@.len() {
                lemma_lex_total(out@[p as int].mount_point@, dm@);
            }
        }
        if same {
            proof {
                let w = out@[p as int];
                assert(out@.contains(w));
                assert(f.contains(w));
                let k = choose|k: int| 0 <= k < f.len() && f[k] == w;
                assert(mounts(f)[k] == d.mount_point@);
                assert(mounts(f).contains(d.mount_point@));
                assert(first_per_mount(disks@.take(i + 1)) == f);
            }
        } else {
            proof {
                assert forall|k: int| 0 <= k < out@.len() implies out@[k].mount_point@
                    != d.mount_point@ by {
                    if k > p {
                        assert(lex_lt(out@[p as int].mount_point@, out@[k].mount_point@));
                        lemma_lex_trans(dm@, out@[p as int].mount_point@, out@[k].mount_point@);
                        lemma_lex_irrefl(dm@);
                    } else if k == p {
                        lemma_lex_irrefl(dm@);
                    } else {
                        lemma_lex_irrefl(dm@);
                    }
                }
                assert(!mounts(f).contains(d.mount_point@)) by {
                    if mounts(f).contains(d.mount_point@) {
                        let k = choose|k: int| 0 <= k < mounts(f).len() && mounts(f)[k] == d.mount_point@;
                        assert(f.contains(f[k]));
                        assert(out@.contains(f[k]));
                        let j = choose|j: int| 0 <= j < out@.len() && out@[j] == f[k];
                        assert(out@[j].mount_point@ == d.mount_point@);
                    }
                }
                assert(first_per_mount(disks@.take(i + 1)) == f.push(*d));
            }
            let ghost before = out@;
            let c = copy_disk(d);
            out.insert(p, c);
            proof {
                assert(out@ =~= before.insert(p as int, *d));
                assert forall|a: int, b: int| 0 <= a < b < out@.len() implies lex_lt(
                    #[trigger] out@[a].mount_point@,
                    #[trigger] out@[b].mount_point@,
                ) by {
                    if p < before.len() {
                        lemma_lex_total(before[p as int].mount_point@, dm@);
                    }
                    if a < p && b == p {
                    } else if a < p && b > p {
                        assert(out@[b] == before[b - 1]);
                        if b - 1 > a {
                            assert(lex_lt(before[a].mount_point@, before[b - 1].mount_point@));
                        }
                    } else if a == p {
                        assert(out@[b] == before[b - 1]);
                        if b - 1 > p {
                            assert(lex_lt(before[p as int].mount_point@, before[b - 1].mount_point@));
                            lemma_lex_trans(dm@, before[p as int].mount_point@, before[b - 1].mount_point@);
                        }
                    } else if a > p {
                        assert(out@[a] == before[a - 1]);
                        assert(out@[b] == before[b - 1]);
                    } else {
                        assert(out@[a] == before[a]);
                        assert(out@[b] == before[b]);
                    }
                }
                assert forall|x: DiskUsage| out@.contains(x) <==> f.push(*d).contains(x) by {
                    if out@.contains(x) {
                        let j = choose|j: int| 0 <= j < out@.len() && out@[j] == x;
                        if j < p {
                            assert(before[j] == x);
                            assert(before.contains(x));
                        } else if j > p {
                            assert(before[j - 1] == x);
                            assert(before.contains(x));
                        }
                        if x != *d {
                            assert(f.contains(x));
                            let m = choose|m: int| 0 <= m < f.len() && f[m] == x;
                            assert(f.push(*d)[m] == x);
                        } else {
                            assert(f.push(*d)[f.len() as int] == x);
                        }
                    }
                    if f.push(*d).contains(x) {
                        let m = choose|m: int| 0 <= m < f.len() + 1 && f.push(*d)[m] == x;
                        if m < f.len() {
                            assert(f.contains(x));
                            assert(before.contains(x));
                            let j = choose|j: int| 0 <= j < before.len() && before[j] == x;
                            if j < p {
                                assert(out@[j] == x);
                            } else {
                                assert(out@[j + 1] == x);
                            }
                        } else {
                            assert(out@[p as int] == x);
                        }
                    }
                }
            }
        }
    }
    assert(disks@.take(disks@.len() as int) =~= disks@);
    out
}

/// Adds up the bytes received and transmitted over all interfaces; the sums
/// stop at the largest value instead of overflowing.
pub fn network_totals(per_interface: &Vec<(u64, u64)>) -> (r: NetworkUsage)
    ensures
        r.received == sat_total(Seq::new(per_interface@.len(), |i: int| per_interface@[i].0)),
        r.transmitted == sat_total(Seq::new(per_interface@.len(), |i: int| per_interface@[i].1)),
{
    let ghost rx = Seq::new(per_interface@.len(), |i: int| per_interface@[i].0);
    let ghost tx = Seq::new(per_interface@.len(), |i: int| per_interface@[i].1);
    let mut received: u64 = 0;
    let mut transmitted: u64 = 0;
    for i in 0..per_interface.len()
        invariant
            rx == Seq::new(per_interface@.len(), |i: int| per_interface@[i].0),
            tx == Seq::new(per_interface@.len(), |i: int| per_interface@[i].1),
            received == sat_total(rx.take(i as int)),
            transmitted == sat_total(tx.take(i as int)),
    {
        assert(rx.take(i + 1).drop_last() =~= rx.take(i as int));
        assert(tx.take(i + 1).drop_last() =~= tx.take(i as int));
        received = received.saturating_add(per_interface[i].0);
        transmitted = transmitted.saturating_add(per_interface[i].1);
    }
    assert(rx.take(per_interface@.len() as int) =~= rx);
    assert(tx.take(per_interface@.len() as int) =~= tx);
    NetworkUsage { received, transmitted }
}

/// The sum of counters, stopping at `u64::MAX` (added up with `saturating_add`).
pub open spec fn sat_total(s: Seq<u64>) -> u64
    decreases s.len(),
{
    if s.len() == 0 {
        0
    } else {
        let t = sat_total(s.drop_last()) + s.last();
        if t > u64::MAX {
            u64::MAX
        } else {
            t as u64
        }
    }
}

/// The name under which a CPU core is shown: "CPU " and its index.
pub fn cpu_core_name(index: u64) -> (r: String)
    ensures
        r@ == "CPU "@ + decimal(index as nat),
{
    let mut v = chars_of("CPU ");
    push_decimal(&mut v, index);
    string_from(v.as_slice())
}

/// The label of a disk in the disk list, given its name in lower case: its
/// mount point alone for overlay and unnamed disks, else "name (mount point)".
pub open spec fn disk_label_from(name: Seq<char>, lowered: Seq<char>, mount: Seq<char>) -> Seq<
    char,
> {
    if lowered == "overlay"@ || name.len() == 0 {
        mount
    } else {
        name + " ("@ + mount + ")"@
    }
}

/// The label of a disk in the disk list; the name is compared in lower case.
pub open spec fn disk_label_of(name: Seq<char>, mount: Seq<char>) -> Seq<char> {
    disk_label_from(name, lowercase(name), mount)
}

/// The label of a disk whose name was put in lower case.
pub fn disk_label_lowered(d: &DiskUsage, name_lower: &str) -> (r: String)
    ensures
        r@ == disk_label_from(d.name@, name_lower@, d.mount_point@),
{
    let lower = string_of(name_lower);
    let overlay = string_of("overlay");
    if lower == overlay || d.name.as_str().is_empty() {
        d.mount_point.clone()
    } else {
        let mut v = chars_of(d.name.as_str());
        let mut open = chars_of(" (");
        let mut mp = chars_of(d.mount_point.as_str());
        let mut close = chars_of(")");
        v.append(&mut open);
        v.append(&mut mp);
        v.append(&mut close);
        string_from(v.as_slice())
    }
}

/// The label of a disk in the disk list.
pub fn disk_label(d: &DiskUsage) -> (r: String)
    ensures
        r@ == disk_label_of(d.name@, d.mount_point@),
{
    let lower = to_lowercase(d.name.as_str());
    disk_label_lowered(d, lower.as_str())
}

} // verus!
