//! The panels: from a snapshot category to the renderer's instructions.
//!
//! Each `display_*` function reduces one tab's data to an ordered list of
//! draw instructions whose content — every rendered character, bar value,
//! gauge fraction, and the region each instruction targets, as an element
//! of the fixed proportional splits in `layout` — is pinned by a
//! `*_body_matches` predicate.  The three scrollable panels (network,
//! process, temperature) also re-clamp the scroll cursor against the fresh
//! content, as the render contract demands.

use vstd::prelude::*;
use vstd::string::StringExecFns;

use crate::draw::{Align, DrawCmd};
use crate::fmt::{
    dec_spec, fixed1_spec, fixed2_spec, fmt_fixed1, fmt_fixed2, fmt_u64, pad_right, pad_right_spec,
};
use crate::layout::{
    columns_20_80, columns_20_80_spec, columns_30_70, columns_30_70_spec, gauge_bands,
    gauge_bands_spec, halves_vertical, halves_vertical_spec, Region,
};
use crate::scroll::App;
use crate::snapshot::{
    batteries_wf, cpus_wf, temps_wf, BatteryLoad, CpuLoad, DiskLoad, MemoryLoad, NetLoad, ProcLoad,
    TempLoad,
};
use crate::units::{
    avg_round, avg_round_spec, gib_centi, gib_centi_spec, kbit_centi, kbit_centi_spec, mib_centi,
    mib_centi_spec,
};

verus! {

// ------------------------------------------------------------------
// Home
// ------------------------------------------------------------------
/// The static welcome text of the Home tab.
pub open spec fn home_lines() -> Seq<Seq<char>> {
    seq![
        "🖥️  Welcome to System Monitor! 🖥️"@,
        "\n"@,
        "Press q to exit."@,
        "\n"@,
        "Press ↑, ↓ to scroll."@,
        "\n"@,
        "Press c, m, n, p, d, t and b to choose what to display."@,
    ]
}

/// The Home panel: a titled block, then the centered welcome text over
/// it, both covering the whole body area.  It renders static content with
/// no snapshot dependency.
pub open spec fn home_body_matches(cmds: Seq<DrawCmd>, area: Region) -> bool {
    &&& cmds.len() == 2
    &&& cmds[0] matches DrawCmd::Block { title, region } && title@ == "Home"@ && region == area
    &&& cmds[1] matches DrawCmd::Paragraph { title, align, lines, scroll, region }
        && title@ == "Home"@ && align == Align::Center && scroll == 0 && region == area
        && lines.deep_view() == home_lines()
}

/// Draw the Home tab.
pub fn display_home(area: Region) -> (r: Vec<DrawCmd>)
    ensures
        home_body_matches(r@, area),
{
    let mut lines: Vec<String> = Vec::new();
    lines.push("🖥️  Welcome to System Monitor! 🖥️".to_owned());
    lines.push("\n".to_owned());
    lines.push("Press q to exit.".to_owned());
    lines.push("\n".to_owned());
    lines.push("Press ↑, ↓ to scroll.".to_owned());
    lines.push("\n".to_owned());
    lines.push("Press c, m, n, p, d, t and b to choose what to display.".to_owned());
    proof {
        assert(lines.deep_view() =~= home_lines());
    }
    let mut r: Vec<DrawCmd> = Vec::new();
    r.push(DrawCmd::Block { title: "Home".to_owned(), region: area });
    r.push(
        DrawCmd::Paragraph {
            title: "Home".to_owned(),
            align: Align::Center,
            lines,
            scroll: 0,
            region: area,
        },
    );
    r
}

// ------------------------------------------------------------------
// Memory
// ------------------------------------------------------------------
/// "Memory: U.UU / T.TT GB", both figures in hundredths of a gibibyte.
pub open spec fn memory_usage_line(used: int, total: int) -> Seq<char> {
    "Memory: "@ + fixed2_spec(gib_centi_spec(used)) + " / "@ + fixed2_spec(gib_centi_spec(total))
        + " GB"@
}

/// "Available memory: A.AA GB", where available is total minus used.
pub open spec fn memory_available_line(used: int, total: int) -> Seq<char> {
    "Available memory: "@ + fixed2_spec(gib_centi_spec(total - used)) + " GB"@
}

/// The Memory panel: a gauge showing used over total in the middle band
/// of the wide column, then the two stat lines in the narrow column.  The
/// cursor is neither consulted nor changed.
pub open spec fn memory_body_matches(cmds: Seq<DrawCmd>, mem: MemoryLoad, area: Region) -> bool {
    let cols = columns_20_80_spec(area);
    let bands = gauge_bands_spec(cols[1]);
    &&& cmds.len() == 2
    &&& cmds[0] matches DrawCmd::Gauge { title, numerator, denominator, region }
        && title@ == "Memory Gauge"@ && numerator == mem.used_bytes && denominator
        == mem.total_bytes && region == bands[1]
    &&& cmds[1] matches DrawCmd::Paragraph { title, align, lines, scroll, region }
        && title@ == "Memory"@ && align == Align::Left && scroll == 0 && region == cols[0]
        && lines.deep_view() == seq![
        memory_usage_line(mem.used_bytes as int, mem.total_bytes as int),
        memory_available_line(mem.used_bytes as int, mem.total_bytes as int),
    ]
}

/// Draw the Memory tab.
pub fn display_memory(mem: &MemoryLoad, area: Region) -> (r: Vec<DrawCmd>)
    requires
        mem.wf(),
    ensures
        memory_body_matches(r@, *mem, area),
{
    let cols = columns_20_80(area);
    let bands = gauge_bands(cols[1]);

    let mut line1 = "Memory: ".to_owned();
    line1.append(fmt_fixed2(gib_centi(mem.used_bytes)).as_str());
    line1.append(" / ");
    line1.append(fmt_fixed2(gib_centi(mem.total_bytes)).as_str());
    line1.append(" GB");
    let mut line2 = "Available memory: ".to_owned();
    line2.append(fmt_fixed2(gib_centi(mem.total_bytes - mem.used_bytes)).as_str());
    line2.append(" GB");
    proof {
        assert(line1@ =~= memory_usage_line(mem.used_bytes as int, mem.total_bytes as int));
        assert(line2@ =~= memory_available_line(mem.used_bytes as int, mem.total_bytes as int));
    }
    let mut lines: Vec<String> = Vec::new();
    lines.push(line1);
    lines.push(line2);
    proof {
        assert(lines.deep_view() =~= seq![
            memory_usage_line(mem.used_bytes as int, mem.total_bytes as int),
            memory_available_line(mem.used_bytes as int, mem.total_bytes as int),
        ]);
    }
    let mut r: Vec<DrawCmd> = Vec::new();
    r.push(
        DrawCmd::Gauge {
            title: "Memory Gauge".to_owned(),
            numerator: mem.used_bytes,
            denominator: mem.total_bytes,
            region: bands[1],
        },
    );
    r.push(
        DrawCmd::Paragraph {
            title: "Memory".to_owned(),
            align: Align::Left,
            lines,
            scroll: 0,
            region: cols[0],
        },
    );
    r
}

// ------------------------------------------------------------------
// Disk
// ------------------------------------------------------------------
/// The five stat lines of the first disk: its rendered name and kind, and
/// its total, used and free space in hundredths of a gibibyte.
pub open spec fn disk_lines(d: DiskLoad) -> Seq<Seq<char>> {
    seq![
        "Name: "@ + d.name@,
        "Type: "@ + d.kind@,
        "Total space: "@ + fixed2_spec(gib_centi_spec(d.total_bytes as int)) + " GB"@,
        "Used space: "@ + fixed2_spec(gib_centi_spec(d.total_bytes - d.available_bytes)) + " GB"@,
        "Free space: "@ + fixed2_spec(gib_centi_spec(d.available_bytes as int)) + " GB"@,
    ]
}

/// The Disk panel: the first disk's stat lines in the narrow column, then
/// a gauge showing used over total space in the middle band of the wide
/// column.  The cursor is neither consulted nor changed.
pub open spec fn disk_body_matches(cmds: Seq<DrawCmd>, d: DiskLoad, area: Region) -> bool {
    let cols = columns_20_80_spec(area);
    let bands = gauge_bands_spec(cols[1]);
    &&& cmds.len() == 2
    &&& cmds[0] matches DrawCmd::Paragraph { title, align, lines, scroll, region }
        && title@ == "Disk"@ && align == Align::Left && scroll == 0 && region == cols[0]
        && lines.deep_view() == disk_lines(d)
    &&& cmds[1] matches DrawCmd::Gauge { title, numerator, denominator, region }
        && title@ == "Disk Gauge"@ && numerator == d.total_bytes - d.available_bytes
        && denominator == d.total_bytes && region == bands[1]
}

/// Draw the Disk tab.  There must be a first disk to describe.
pub fn display_disk(disks: &Vec<DiskLoad>, area: Region) -> (r: Vec<DrawCmd>)
    requires
        disks@.len() >= 1,
        disks@[0].wf(),
    ensures
        disk_body_matches(r@, disks@[0], area),
{
    let cols = columns_20_80(area);
    let bands = gauge_bands(cols[1]);
    let d = &disks[0];

    let mut line1 = "Name: ".to_owned();
    line1.append(d.name.as_str());
    let mut line2 = "Type: ".to_owned();
    line2.append(d.kind.as_str());
    let mut line3 = "Total space: ".to_owned();
    line3.append(fmt_fixed2(gib_centi(d.total_bytes)).as_str());
    line3.append(" GB");
    let mut line4 = "Used space: ".to_owned();
    line4.append(fmt_fixed2(gib_centi(d.total_bytes - d.available_bytes)).as_str());
    line4.append(" GB");
    let mut line5 = "Free space: ".to_owned();
    line5.append(fmt_fixed2(gib_centi(d.available_bytes)).as_str());
    line5.append(" GB");

    let mut lines: Vec<String> = Vec::new();
    lines.push(line1);
    lines.push(line2);
    lines.push(line3);
    lines.push(line4);
    lines.push(line5);
    proof {
        assert(lines.deep_view() =~= disk_lines(disks@[0]));
    }
    let mut r: Vec<DrawCmd> = Vec::new();
    r.push(
        DrawCmd::Paragraph {
            title: "Disk".to_owned(),
            align: Align::Left,
            lines,
            scroll: 0,
            region: cols[0],
        },
    );
    r.push(
        DrawCmd::Gauge {
            title: "Disk Gauge".to_owned(),
            numerator: d.total_bytes - d.available_bytes,
            denominator: d.total_bytes,
            region: bands[1],
        },
    );
    r
}

// ------------------------------------------------------------------
// CPU
// ------------------------------------------------------------------
/// The summed load of all cores, in hundredths of a percent.
pub open spec fn cpu_total_centi(cpus: Seq<CpuLoad>) -> int
    decreases cpus.len(),
{
    if cpus.len() == 0 {
        0
    } else {
        cpu_total_centi(cpus.drop_last()) + cpus.last().usage_centi
    }
}

/// "Average CPU Usage: A.AA%".
pub open spec fn cpu_avg_line(avg_centi: int) -> Seq<char> {
    "Average CPU Usage: "@ + fixed2_spec(avg_centi) + "%"@
}

/// "CPU N U.UU%" for core `i`.
pub open spec fn cpu_stat_line(i: int, centi: int) -> Seq<char> {
    "CPU "@ + dec_spec(i) + " "@ + fixed2_spec(centi) + "%"@
}

/// The average line first, then one line per core, in order.
pub open spec fn cpu_lines(cpus: Seq<CpuLoad>) -> Seq<Seq<char>> {
    Seq::new(
        cpus.len() + 1,
        |i: int|
            if i == 0 {
                cpu_avg_line(avg_round_spec(cpu_total_centi(cpus), cpus.len() as int))
            } else {
                cpu_stat_line(i - 1, cpus[i - 1].usage_centi as int)
            },
    )
}

/// One bar per core, labeled "CN", holding the load in whole percent
/// (hundredths truncated).
pub open spec fn cpu_bars(cpus: Seq<CpuLoad>) -> Seq<(Seq<char>, u64)> {
    Seq::new(cpus.len(), |i: int| ("C"@ + dec_spec(i), (cpus[i].usage_centi / 100) as u64))
}

/// The CPU panel: the per-core stats in the narrow column, a chart
/// holding the average load as a level line from 0 to the core count in
/// the wide column's top half, and one bar per core in its bottom half.
/// The cursor is neither consulted nor changed.
pub open spec fn cpu_body_matches(cmds: Seq<DrawCmd>, cpus: Seq<CpuLoad>, area: Region) -> bool {
    let avg = avg_round_spec(cpu_total_centi(cpus), cpus.len() as int);
    let cols = columns_30_70_spec(area);
    let rows = halves_vertical_spec(cols[1]);
    &&& cmds.len() == 3
    &&& cmds[0] matches DrawCmd::Paragraph { title, align, lines, scroll, region }
        && title@ == "CPU Usage"@ && align == Align::Left && scroll == 0 && region == cols[0]
        && lines.deep_view() == cpu_lines(cpus)
    &&& cmds[1] matches DrawCmd::Chart { title, points, region } && title@ == "CPU Chart"@
        && region == rows[0] && points@ == seq![
        (0u64, avg as u64),
        (cpus.len() as u64, avg as u64),
    ]
    &&& cmds[2] matches DrawCmd::BarChart { title, bars, region } && title@ == "CPU Bar Graph"@
        && region == rows[1] && bars.deep_view() == cpu_bars(cpus)
}

/// Draw the CPU tab.  A host has at least one core; the average is over
/// all of them.
pub fn display_cpu(cpus: &Vec<CpuLoad>, area: Region) -> (r: Vec<DrawCmd>)
    requires
        cpus@.len() >= 1,
        cpus_wf(cpus@),
    ensures
        cpu_body_matches(r@, cpus@, area),
{
    let cols = columns_30_70(area);
    let rows = halves_vertical(cols[1]);

    let mut sum: u128 = 0;
    let mut i: usize = 0;
    while i < cpus.len()
        invariant
            i <= cpus@.len(),
            cpus_wf(cpus@),
            sum == cpu_total_centi(cpus@.take(i as int)),
            sum <= 10_000 * (i as int),
        decreases cpus@.len() - i,
    {
        proof {
            assert(cpus@.take(i + 1).drop_last() =~= cpus@.take(i as int));
            assert(cpus@[i as int].wf());
        }
        sum = sum + (cpus[i].usage_centi as u128);
        i = i + 1;
    }
    proof {
        assert(cpus@.take(cpus@.len() as int) =~= cpus@);
    }
    let avg = avg_round(sum, cpus.len() as u64);

    let ghost glines = cpu_lines(cpus@);
    let mut lines: Vec<String> = Vec::new();
    let mut avg_line = "Average CPU Usage: ".to_owned();
    avg_line.append(fmt_fixed2(avg).as_str());
    avg_line.append("%");
    proof {
        assert(avg_line@ =~= cpu_avg_line(avg_round_spec(cpu_total_centi(cpus@), cpus@.len() as int)));
    }
    lines.push(avg_line);
    proof {
        assert(lines.deep_view() =~= glines.take(1));
    }
    let mut i: usize = 0;
    while i < cpus.len()
        invariant
            i <= cpus@.len(),
            cpus_wf(cpus@),
            glines == cpu_lines(cpus@),
            lines.deep_view() =~= glines.take(i + 1),
        decreases cpus@.len() - i,
    {
        let mut s = "CPU ".to_owned();
        s.append(fmt_u64(i as u64).as_str());
        s.append(" ");
        s.append(fmt_fixed2(cpus[i].usage_centi).as_str());
        s.append("%");
        proof {
            assert(s@ =~= cpu_stat_line(i as int, cpus@[i as int].usage_centi as int));
            assert(glines.take(i + 2) =~= glines.take(i + 1).push(glines[i + 1]));
        }
        lines.push(s);
        i = i + 1;
    }
    proof {
        assert(lines.deep_view() =~= cpu_lines(cpus@));
    }

    let ghost gbars = cpu_bars(cpus@);
    let mut bars: Vec<(String, u64)> = Vec::new();
    let mut i: usize = 0;
    while i < cpus.len()
        invariant
            i <= cpus@.len(),
            gbars == cpu_bars(cpus@),
            bars.deep_view() =~= gbars.take(i as int),
        decreases cpus@.len() - i,
    {
        let mut label = "C".to_owned();
        label.append(fmt_u64(i as u64).as_str());
        let value = cpus[i].usage_centi / 100;
        proof {
            assert(label@ =~= "C"@ + dec_spec(i as int));
            assert(gbars.take(i + 1) =~= gbars.take(i as int).push(gbars[i as int]));
        }
        bars.push((label, value));
        i = i + 1;
    }
    proof {
        assert(bars.deep_view() =~= cpu_bars(cpus@));
    }

    let mut points: Vec<(u64, u64)> = Vec::new();
    points.push((0, avg));
    points.push((cpus.len() as u64, avg));

    let mut r: Vec<DrawCmd> = Vec::new();
    r.push(
        DrawCmd::Paragraph {
            title: "CPU Usage".to_owned(),
            align: Align::Left,
            lines,
            scroll: 0,
            region: cols[0],
        },
    );
    r.push(DrawCmd::Chart { title: "CPU Chart".to_owned(), points, region: rows[0] });
    r.push(DrawCmd::BarChart { title: "CPU Bar Graph".to_owned(), bars, region: rows[1] });
    proof {
        assert(r@[1]->Chart_points@ =~= seq![
            (0u64, avg_round_spec(cpu_total_centi(cpus@), cpus@.len() as int) as u64),
            (
                cpus@.len() as u64,
                avg_round_spec(cpu_total_centi(cpus@), cpus@.len() as int) as u64,
            ),
        ]);
    }
    r
}

// ------------------------------------------------------------------
// Network
// ------------------------------------------------------------------
/// "Network [name]".
pub open spec fn net_name_line(name: Seq<char>) -> Seq<char> {
    "Network ["@ + name + "]"@
}

/// "Received: R.RR KB Transmitted: T.TT KB", both counters as hundredths
/// of a kilobit.
pub open spec fn net_counts_line(received: int, transmitted: int) -> Seq<char> {
    "Received: "@ + fixed2_spec(kbit_centi_spec(received)) + " KB Transmitted: "@ + fixed2_spec(
        kbit_centi_spec(transmitted),
    ) + " KB"@
}

/// Three lines per interface, in order: its name, its counters, and a
/// blank spacer.
pub open spec fn net_lines(nets: Seq<NetLoad>) -> Seq<Seq<char>> {
    Seq::new(
        3 * nets.len(),
        |i: int|
            {
                let j = i / 3;
                if i % 3 == 0 {
                    net_name_line(nets[j].name@)
                } else if i % 3 == 1 {
                    net_counts_line(
                        nets[j].received_bytes as int,
                        nets[j].transmitted_bytes as int,
                    )
                } else {
                    " "@
                }
            },
    )
}

/// One bar per interface, labeled with its name, holding the received
/// byte counter.
pub open spec fn net_bars(nets: Seq<NetLoad>) -> Seq<(Seq<char>, u64)> {
    Seq::new(nets.len(), |i: int| (nets[i].name@, nets[i].received_bytes))
}

/// The Network panel: the interface lines scrolled to the cursor in the
/// narrow column, a scrollbar sized to them in its one-cell inset, and
/// one bar per interface in the wide column.
pub open spec fn net_body_matches(
    cmds: Seq<DrawCmd>,
    nets: Seq<NetLoad>,
    cursor: App,
    area: Region,
) -> bool {
    let cols = columns_30_70_spec(area);
    &&& cmds.len() == 3
    &&& cmds[0] matches DrawCmd::Paragraph { title, align, lines, scroll, region }
        && title@ == "Network"@ && align == Align::Left && scroll == cursor.vertical_scroll
        && region == cols[0] && lines.deep_view() == net_lines(nets)
    &&& cmds[1] matches DrawCmd::Scrollbar { position, content_length, region }
        && position == cursor.vertical_scroll_state.position && content_length
        == cursor.vertical_scroll_state.content_length && region == cols[0].inner_spec(1, 0)
    &&& cmds[2] matches DrawCmd::BarChart { title, bars, region } && title@
        == "Network Bar Graph"@ && region == cols[1] && bars.deep_view() == net_bars(nets)
}

/// Draw the Network tab: record the fresh line count, clamp the cursor
/// against it, and hand the renderer the clamped offset and a scrollbar
/// sized to the content.
pub fn display_network(nets: &Vec<NetLoad>, area: Region, app: &mut App) -> (r: Vec<DrawCmd>)
    requires
        3 * nets@.len() <= usize::MAX,
    ensures
        *final(app) == old(app).synced_spec((3 * nets@.len()) as usize),
        net_body_matches(r@, nets@, *final(app), area),
{
    let cols = columns_30_70(area);
    let ghost glines = net_lines(nets@);

    let mut lines: Vec<String> = Vec::new();
    let mut i: usize = 0;
    while i < nets.len()
        invariant
            i <= nets@.len(),
            3 * nets@.len() <= usize::MAX,
            glines == net_lines(nets@),
            lines.deep_view() =~= glines.take(3 * i),
        decreases nets@.len() - i,
    {
        let n = &nets[i];
        let mut name_line = "Network [".to_owned();
        name_line.append(n.name.as_str());
        name_line.append("]");
        let mut counts = "Received: ".to_owned();
        counts.append(fmt_fixed2(kbit_centi(n.received_bytes)).as_str());
        counts.append(" KB Transmitted: ");
        counts.append(fmt_fixed2(kbit_centi(n.transmitted_bytes)).as_str());
        counts.append(" KB");
        proof {
            assert(name_line@ =~= net_name_line(nets@[i as int].name@));
            assert(counts@ =~= net_counts_line(
                nets@[i as int].received_bytes as int,
                nets@[i as int].transmitted_bytes as int,
            ));
            assert(glines[3 * i] == net_name_line(nets@[i as int].name@));
            assert(glines[3 * i + 1] == net_counts_line(
                nets@[i as int].received_bytes as int,
                nets@[i as int].transmitted_bytes as int,
            ));
            assert(glines[3 * i + 2] == " "@);
            assert(glines.take(3 * (i + 1)) =~= glines.take(3 * i).push(glines[3 * i]).push(
                glines[3 * i + 1],
            ).push(glines[3 * i + 2]));
        }
        lines.push(name_line);
        lines.push(counts);
        lines.push(" ".to_owned());
        i = i + 1;
    }
    proof {
        assert(lines.deep_view() =~= net_lines(nets@));
    }

    let ghost gbars = net_bars(nets@);
    let mut bars: Vec<(String, u64)> = Vec::new();
    let mut i: usize = 0;
    while i < nets.len()
        invariant
            i <= nets@.len(),
            gbars == net_bars(nets@),
            bars.deep_view() =~= gbars.take(i as int),
        decreases nets@.len() - i,
    {
        proof {
            assert(gbars.take(i + 1) =~= gbars.take(i as int).push(gbars[i as int]));
        }
        bars.push((nets[i].name.clone(), nets[i].received_bytes));
        i = i + 1;
    }
    proof {
        assert(bars.deep_view() =~= net_bars(nets@));
    }

    app.sync_to_content(lines.len());

    let mut r: Vec<DrawCmd> = Vec::new();
    r.push(
        DrawCmd::Paragraph {
            title: "Network".to_owned(),
            align: Align::Left,
            lines,
            scroll: app.vertical_scroll,
            region: cols[0],
        },
    );
    r.push(
        DrawCmd::Scrollbar {
            position: app.vertical_scroll_state.position,
            content_length: app.vertical_scroll_state.content_length,
            region: cols[0].inner(1, 0),
        },
    );
    r.push(
        DrawCmd::BarChart { title: "Network Bar Graph".to_owned(), bars, region: cols[1] },
    );
    r
}

// ------------------------------------------------------------------
// Process
// ------------------------------------------------------------------
/// "[Process ID: P] NAME M.MM MB": the captioned identifier left-aligned
/// to seventeen cells, the name left-aligned to forty cells, and the
/// resident memory in hundredths of a mebibyte.
pub open spec fn proc_line(p: ProcLoad) -> Seq<char> {
    "["@ + pad_right_spec("Process ID: "@ + dec_spec(p.pid as int), 17) + "] "@ + pad_right_spec(
        p.name@,
        40,
    ) + " "@ + fixed2_spec(mib_centi_spec(p.memory_bytes as int)) + " MB"@
}

/// One line per process, in order.
pub open spec fn proc_lines(ps: Seq<ProcLoad>) -> Seq<Seq<char>> {
    Seq::new(ps.len(), |i: int| proc_line(ps[i]))
}

/// The Process panel: the process lines scrolled to the cursor over the
/// whole body area, and a scrollbar sized to them in its one-cell inset.
pub open spec fn proc_body_matches(
    cmds: Seq<DrawCmd>,
    ps: Seq<ProcLoad>,
    cursor: App,
    area: Region,
) -> bool {
    &&& cmds.len() == 2
    &&& cmds[0] matches DrawCmd::Paragraph { title, align, lines, scroll, region }
        && title@ == "Process"@ && align == Align::Left && scroll == cursor.vertical_scroll
        && region == area && lines.deep_view() == proc_lines(ps)
    &&& cmds[1] matches DrawCmd::Scrollbar { position, content_length, region }
        && position == cursor.vertical_scroll_state.position && content_length
        == cursor.vertical_scroll_state.content_length && region == area.inner_spec(1, 0)
}

/// Draw the Process tab: record the fresh process count, clamp the cursor
/// against it, and hand the renderer the clamped offset and a scrollbar
/// sized to the content.
pub fn display_process(procs: &Vec<ProcLoad>, area: Region, app: &mut App) -> (r: Vec<DrawCmd>)
    ensures
        *final(app) == old(app).synced_spec(procs@.len() as usize),
        proc_body_matches(r@, procs@, *final(app), area),
{
    let ghost glines = proc_lines(procs@);
    let mut lines: Vec<String> = Vec::new();
    let mut i: usize = 0;
    while i < procs.len()
        invariant
            i <= procs@.len(),
            glines == proc_lines(procs@),
            lines.deep_view() =~= glines.take(i as int),
        decreases procs@.len() - i,
    {
        let p = &procs[i];
        let mut id_text = "Process ID: ".to_owned();
        id_text.append(fmt_u64(p.pid).as_str());
        let mut s = "[".to_owned();
        s.append(pad_right(id_text, 17).as_str());
        s.append("] ");
        s.append(pad_right(p.name.clone(), 40).as_str());
        s.append(" ");
        s.append(fmt_fixed2(mib_centi(p.memory_bytes)).as_str());
        s.append(" MB");
        proof {
            assert(s@ =~= proc_line(procs@[i as int]));
            assert(glines.take(i + 1) =~= glines.take(i as int).push(glines[i as int]));
        }
        lines.push(s);
        i = i + 1;
    }
    proof {
        assert(lines.deep_view() =~= proc_lines(procs@));
    }

    app.sync_to_content(lines.len());

    let mut r: Vec<DrawCmd> = Vec::new();
    r.push(
        DrawCmd::Paragraph {
            title: "Process".to_owned(),
            align: Align::Left,
            lines,
            scroll: app.vertical_scroll,
            region: area,
        },
    );
    r.push(
        DrawCmd::Scrollbar {
            position: app.vertical_scroll_state.position,
            content_length: app.vertical_scroll_state.content_length,
            region: area.inner(1, 0),
        },
    );
    r
}

// ------------------------------------------------------------------
// Temperature
// ------------------------------------------------------------------
/// "[LABEL], D.D°C": the label left-aligned to seventeen cells, the
/// reading in tenths of a degree with its sign.
pub open spec fn temp_line(t: TempLoad) -> Seq<char> {
    "["@ + pad_right_spec(t.label@, 17) + "], "@ + fixed1_spec(t.celsius_deci as int) + "°C"@
}

/// One line per sensor, in order.
pub open spec fn temp_lines(ts: Seq<TempLoad>) -> Seq<Seq<char>> {
    Seq::new(ts.len(), |i: int| temp_line(ts[i]))
}

/// A sensor reading as a bar height: whole degrees, truncated toward
/// zero, and zero for readings below freezing.
pub open spec fn temp_bar_value(deci: int) -> int {
    if deci < 0 {
        0
    } else {
        deci / 10
    }
}

/// One bar per sensor, labeled with its name left-aligned to ten cells.
pub open spec fn temp_bars(ts: Seq<TempLoad>) -> Seq<(Seq<char>, u64)> {
    Seq::new(
        ts.len(),
        |i: int|
            (pad_right_spec(ts[i].label@, 10), temp_bar_value(ts[i].celsius_deci as int) as u64),
    )
}

/// The Temperature panel: one bar per sensor in the wide column, the
/// sensor lines scrolled to the cursor in the narrow column, and a
/// scrollbar sized to them in its one-cell inset.
pub open spec fn temp_body_matches(
    cmds: Seq<DrawCmd>,
    ts: Seq<TempLoad>,
    cursor: App,
    area: Region,
) -> bool {
    let cols = columns_30_70_spec(area);
    &&& cmds.len() == 3
    &&& cmds[0] matches DrawCmd::BarChart { title, bars, region } && title@
        == "Temperature Bar Graph"@ && region == cols[1] && bars.deep_view() == temp_bars(ts)
    &&& cmds[1] matches DrawCmd::Paragraph { title, align, lines, scroll, region }
        && title@ == "Temperature"@ && align == Align::Left && scroll == cursor.vertical_scroll
        && region == cols[0] && lines.deep_view() == temp_lines(ts)
    &&& cmds[2] matches DrawCmd::Scrollbar { position, content_length, region }
        && position == cursor.vertical_scroll_state.position && content_length
        == cursor.vertical_scroll_state.content_length && region == cols[0].inner_spec(1, 0)
}

/// Draw the Temperature tab: record the fresh sensor count, clamp the
/// cursor against it, and hand the renderer the clamped offset and a
/// scrollbar sized to the content.
pub fn display_temperature(temps: &Vec<TempLoad>, area: Region, app: &mut App) -> (r: Vec<
    DrawCmd,
>)
    requires
        temps_wf(temps@),
    ensures
        *final(app) == old(app).synced_spec(temps@.len() as usize),
        temp_body_matches(r@, temps@, *final(app), area),
{
    let cols = columns_30_70(area);

    let ghost glines = temp_lines(temps@);
    let mut lines: Vec<String> = Vec::new();
    let mut i: usize = 0;
    while i < temps.len()
        invariant
            i <= temps@.len(),
            temps_wf(temps@),
            glines == temp_lines(temps@),
            lines.deep_view() =~= glines.take(i as int),
        decreases temps@.len() - i,
    {
        let t = &temps[i];
        proof {
            assert(temps@[i as int].wf());
        }
        let mut s = "[".to_owned();
        s.append(pad_right(t.label.clone(), 17).as_str());
        s.append("], ");
        s.append(fmt_fixed1(t.celsius_deci).as_str());
        s.append("°C");
        proof {
            assert(s@ =~= temp_line(temps@[i as int]));
            assert(glines.take(i + 1) =~= glines.take(i as int).push(glines[i as int]));
        }
        lines.push(s);
        i = i + 1;
    }
    proof {
        assert(lines.deep_view() =~= temp_lines(temps@));
    }

    let ghost gbars = temp_bars(temps@);
    let mut bars: Vec<(String, u64)> = Vec::new();
    let mut i: usize = 0;
    while i < temps.len()
        invariant
            i <= temps@.len(),
            temps_wf(temps@),
            gbars == temp_bars(temps@),
            bars.deep_view() =~= gbars.take(i as int),
        decreases temps@.len() - i,
    {
        let t = &temps[i];
        let label = pad_right(t.label.clone(), 10);
        let value: u64 = if t.celsius_deci < 0 {
            0
        } else {
            (t.celsius_deci / 10) as u64
        };
        proof {
            assert(gbars.take(i + 1) =~= gbars.take(i as int).push(gbars[i as int]));
        }
        bars.push((label, value));
        i = i + 1;
    }
    proof {
        assert(bars.deep_view() =~= temp_bars(temps@));
    }

    app.sync_to_content(lines.len());

    let mut r: Vec<DrawCmd> = Vec::new();
    r.push(
        DrawCmd::BarChart {
            title: "Temperature Bar Graph".to_owned(),
            bars,
            region: cols[1],
        },
    );
    r.push(
        DrawCmd::Paragraph {
            title: "Temperature".to_owned(),
            align: Align::Left,
            lines,
            scroll: app.vertical_scroll,
            region: cols[0],
        },
    );
    r.push(
        DrawCmd::Scrollbar {
            position: app.vertical_scroll_state.position,
            content_length: app.vertical_scroll_state.content_length,
            region: cols[0].inner(1, 0),
        },
    );
    r
}

// ------------------------------------------------------------------
// Battery
// ------------------------------------------------------------------
/// "Battery N: State, Current Battery C.CC%" for the battery at position
/// `i` (counted from one in the text).
pub open spec fn battery_line(i: int, b: BatteryLoad) -> Seq<char> {
    "Battery "@ + dec_spec(i + 1) + ": "@ + b.state.name_spec() + ", Current Battery "@
        + fixed2_spec(b.charge_permyriad as int) + "%"@
}

/// One line per battery, in order.
pub open spec fn battery_lines(bs: Seq<BatteryLoad>) -> Seq<Seq<char>> {
    Seq::new(bs.len(), |i: int| battery_line(i, bs[i]))
}

/// The Battery panel: one stat line per battery in the narrow column,
/// then a gauge showing the first battery's charge (zero with no battery)
/// in the middle band of the wide column.  The cursor is neither
/// consulted nor changed.
pub open spec fn battery_body_matches(cmds: Seq<DrawCmd>, bs: Seq<BatteryLoad>, area: Region) -> bool {
    let cols = columns_30_70_spec(area);
    let bands = gauge_bands_spec(cols[1]);
    &&& cmds.len() == 2
    &&& cmds[0] matches DrawCmd::Paragraph { title, align, lines, scroll, region }
        && title@ == "Battery"@ && align == Align::Left && scroll == 0 && region == cols[0]
        && lines.deep_view() == battery_lines(bs)
    &&& cmds[1] matches DrawCmd::Gauge { title, numerator, denominator, region }
        && title@ == "Battery Gauge"@ && region == bands[1] && numerator == (if bs.len() > 0 {
        bs[0].charge_permyriad as int
    } else {
        0
    }) && denominator == 10_000
}

/// Draw the Battery tab.
pub fn display_battery(batts: &Vec<BatteryLoad>, area: Region) -> (r: Vec<DrawCmd>)
    requires
        batteries_wf(batts@),
    ensures
        battery_body_matches(r@, batts@, area),
{
    let cols = columns_30_70(area);
    let bands = gauge_bands(cols[1]);
    let ghost glines = battery_lines(batts@);

    let mut lines: Vec<String> = Vec::new();
    let mut i: usize = 0;
    while i < batts.len()
        invariant
            i <= batts@.len(),
            glines == battery_lines(batts@),
            lines.deep_view() =~= glines.take(i as int),
        decreases batts@.len() - i,
    {
        let b = batts[i];
        let mut s = "Battery ".to_owned();
        s.append(fmt_u64((i as u64) + 1).as_str());
        s.append(": ");
        s.append(b.state.name());
        s.append(", Current Battery ");
        s.append(fmt_fixed2(b.charge_permyriad).as_str());
        s.append("%");
        proof {
            assert(s@ =~= battery_line(i as int, batts@[i as int]));
            assert(glines.take(i + 1) =~= glines.take(i as int).push(
                battery_line(i as int, batts@[i as int]),
            ));
        }
        lines.push(s);
        i = i + 1;
    }
    proof {
        assert(lines.deep_view() =~= battery_lines(batts@));
    }
    let charge = if batts.len() > 0 {
        batts[0].charge_permyriad
    } else {
        0
    };
    let mut r: Vec<DrawCmd> = Vec::new();
    r.push(
        DrawCmd::Paragraph {
            title: "Battery".to_owned(),
            align: Align::Left,
            lines,
            scroll: 0,
            region: cols[0],
        },
    );
    r.push(
        DrawCmd::Gauge {
            title: "Battery Gauge".to_owned(),
            numerator: charge,
            denominator: 10_000,
            region: bands[1],
        },
    );
    r
}

} // verus!
