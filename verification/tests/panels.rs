use systemmor::dispatch::render_frame;
use systemmor::display::{
    display_battery, display_cpu, display_disk, display_home, display_memory, display_network,
    display_process, display_temperature,
};
use systemmor::draw::{Align, DrawCmd};
use systemmor::layout::{
    columns_20_80, columns_30_70, gauge_bands, halves_vertical, root_regions, Region,
};
use systemmor::scroll::{App, ScrollState};
use systemmor::snapshot::{
    BatteryLoad, BatteryState, CpuLoad, DiskLoad, MemoryLoad, NetLoad, ProcLoad, Snapshot,
    TempLoad,
};
use systemmor::tab::Tab;

fn screen() -> Region {
    Region { x: 0, y: 0, width: 120, height: 40 }
}

fn empty_snapshot() -> Snapshot {
    Snapshot {
        cpus: Vec::new(),
        memory: MemoryLoad { total_bytes: 1, used_bytes: 0 },
        networks: Vec::new(),
        processes: Vec::new(),
        disks: Vec::new(),
        temperatures: Vec::new(),
        batteries: Vec::new(),
    }
}

#[test]
fn layout_produces_one_region_per_slice() {
    let area = screen();
    assert_eq!(root_regions(area).len(), 3);
    assert_eq!(columns_30_70(area).len(), 2);
    assert_eq!(columns_20_80(area).len(), 2);
    assert_eq!(gauge_bands(area).len(), 3);
}

#[test]
fn root_layout_keeps_fixed_header_and_footer() {
    let rows = root_regions(screen());
    // margin of two cells, then rows of 3, the rest, and 3
    assert_eq!(rows[0].height, 3);
    assert_eq!(rows[2].height, 3);
    assert_eq!(rows[0].y, 2);
    assert!(rows[1].height >= 2);
}

#[test]
fn region_inner_insets_by_the_margin() {
    let r = Region { x: 0, y: 0, width: 80, height: 24 };
    assert_eq!(r.inner(1, 0), Region { x: 0, y: 1, width: 80, height: 22 });
    let tiny = Region { x: 5, y: 5, width: 3, height: 1 };
    assert_eq!(tiny.inner(1, 0), Region { x: 0, y: 0, width: 0, height: 0 });
}

#[test]
fn home_panel_shows_the_welcome_text() {
    let cmds = display_home(screen());
    assert_eq!(cmds.len(), 2);
    match &cmds[0] {
        DrawCmd::Block { region, .. } => assert_eq!(*region, screen()),
        other => panic!("expected the home block, got {:?}", other),
    }
    match &cmds[1] {
        DrawCmd::Paragraph { title, align, lines, scroll, region } => {
            assert_eq!(*region, screen());
            assert_eq!(title, "Home");
            assert_eq!(*align, Align::Center);
            assert_eq!(*scroll, 0);
            assert_eq!(lines.len(), 7);
            assert_eq!(lines[0], "🖥️  Welcome to System Monitor! 🖥️");
            assert_eq!(lines[2], "Press q to exit.");
            assert_eq!(lines[4], "Press ↑, ↓ to scroll.");
            assert_eq!(lines[6], "Press c, m, n, p, d, t and b to choose what to display.");
        }
        other => panic!("expected the welcome paragraph, got {:?}", other),
    }
}

#[test]
fn cpu_panel_stats_chart_and_bars() {
    let cpus = vec![CpuLoad { usage_centi: 2550 }, CpuLoad { usage_centi: 7450 }];
    let cmds = display_cpu(&cpus, screen());
    assert_eq!(cmds.len(), 3);
    let cols = columns_30_70(screen());
    let rows = halves_vertical(cols[1]);
    match &cmds[0] {
        DrawCmd::Paragraph { title, lines, region, .. } => {
            assert_eq!(title, "CPU Usage");
            assert_eq!(*region, cols[0]);
            assert_eq!(
                lines,
                &vec![
                    "Average CPU Usage: 50.00%".to_string(),
                    "CPU 0 25.50%".to_string(),
                    "CPU 1 74.50%".to_string(),
                ]
            );
        }
        other => panic!("expected the stats paragraph, got {:?}", other),
    }
    match &cmds[1] {
        DrawCmd::Chart { title, points, region } => {
            assert_eq!(title, "CPU Chart");
            assert_eq!(points, &vec![(0, 5000), (2, 5000)]);
            assert_eq!(*region, rows[0]);
        }
        other => panic!("expected the average chart, got {:?}", other),
    }
    match &cmds[2] {
        DrawCmd::BarChart { title, bars, region } => {
            assert_eq!(title, "CPU Bar Graph");
            assert_eq!(bars, &vec![("C0".to_string(), 25), ("C1".to_string(), 74)]);
            assert_eq!(*region, rows[1]);
        }
        other => panic!("expected the bar chart, got {:?}", other),
    }
}

#[test]
fn memory_panel_lines_and_gauge() {
    let mem = MemoryLoad { total_bytes: 4_294_967_296, used_bytes: 1_610_612_736 };
    let cmds = display_memory(&mem, screen());
    assert_eq!(cmds.len(), 2);
    let cols = columns_20_80(screen());
    let bands = gauge_bands(cols[1]);
    match &cmds[0] {
        DrawCmd::Gauge { title, numerator, denominator, region } => {
            assert_eq!(title, "Memory Gauge");
            assert_eq!(*numerator, 1_610_612_736);
            assert_eq!(*denominator, 4_294_967_296);
            assert_eq!(*region, bands[1]);
        }
        other => panic!("expected the memory gauge, got {:?}", other),
    }
    match &cmds[1] {
        DrawCmd::Paragraph { lines, region, .. } => {
            assert_eq!(*region, cols[0]);
            assert_eq!(
                lines,
                &vec![
                    "Memory: 1.50 / 4.00 GB".to_string(),
                    "Available memory: 2.50 GB".to_string(),
                ]
            );
        }
        other => panic!("expected the memory paragraph, got {:?}", other),
    }
}

#[test]
fn network_panel_lines_scrollbar_and_bars() {
    let nets = vec![
        NetLoad { name: "eth0".to_string(), received_bytes: 1000, transmitted_bytes: 500 },
        NetLoad { name: "lo".to_string(), received_bytes: 0, transmitted_bytes: 0 },
    ];
    let mut app = App::new();
    let cmds = display_network(&nets, screen(), &mut app);
    assert_eq!(cmds.len(), 3);
    assert_eq!(app.vertical_scroll_state.content_length, 6);
    let cols = columns_30_70(screen());
    match &cmds[0] {
        DrawCmd::Paragraph { title, lines, scroll, region, .. } => {
            assert_eq!(title, "Network");
            assert_eq!(*scroll, 0);
            assert_eq!(*region, cols[0]);
            assert_eq!(
                lines,
                &vec![
                    "Network [eth0]".to_string(),
                    "Received: 8.00 KB Transmitted: 4.00 KB".to_string(),
                    " ".to_string(),
                    "Network [lo]".to_string(),
                    "Received: 0.00 KB Transmitted: 0.00 KB".to_string(),
                    " ".to_string(),
                ]
            );
        }
        other => panic!("expected the interface paragraph, got {:?}", other),
    }
    match &cmds[1] {
        DrawCmd::Scrollbar { position, content_length, region } => {
            assert_eq!(*position, 0);
            assert_eq!(*content_length, 6);
            assert_eq!(*region, cols[0].inner(1, 0));
        }
        other => panic!("expected the scrollbar, got {:?}", other),
    }
    match &cmds[2] {
        DrawCmd::BarChart { title, bars, region } => {
            assert_eq!(title, "Network Bar Graph");
            assert_eq!(bars, &vec![("eth0".to_string(), 1000), ("lo".to_string(), 0)]);
            assert_eq!(*region, cols[1]);
        }
        other => panic!("expected the bar chart, got {:?}", other),
    }
}

#[test]
fn process_panel_line_format_and_clamp() {
    let procs = vec![ProcLoad {
        pid: 42,
        name: "init".to_string(),
        memory_bytes: 2_097_152,
    }];
    let mut app = App {
        vertical_scroll: 7,
        vertical_scroll_state: ScrollState { position: 7, content_length: 0 },
    };
    let cmds = display_process(&procs, screen(), &mut app);
    assert_eq!(cmds.len(), 2);
    // one process: the offset clamps to the last valid index, 0
    assert_eq!(app.vertical_scroll, 0);
    match &cmds[0] {
        DrawCmd::Paragraph { title, lines, scroll, region, .. } => {
            assert_eq!(title, "Process");
            assert_eq!(*scroll, 0);
            assert_eq!(*region, screen());
            let expected =
                format!("[{:17}] {:40} 2.00 MB", "Process ID: 42", "init");
            assert_eq!(lines, &vec![expected]);
        }
        other => panic!("expected the process paragraph, got {:?}", other),
    }
    match &cmds[1] {
        DrawCmd::Scrollbar { position, content_length, region } => {
            assert_eq!(*position, 0);
            assert_eq!(*content_length, 1);
            assert_eq!(*region, screen().inner(1, 0));
        }
        other => panic!("expected the scrollbar, got {:?}", other),
    }
}

#[test]
fn temperature_panel_lines_and_bars() {
    let temps = vec![
        TempLoad { label: "cpu_thermal".to_string(), celsius_deci: 421 },
        TempLoad { label: "nvme".to_string(), celsius_deci: -53 },
    ];
    let mut app = App::new();
    let cmds = display_temperature(&temps, screen(), &mut app);
    assert_eq!(cmds.len(), 3);
    let cols = columns_30_70(screen());
    match &cmds[2] {
        DrawCmd::Scrollbar { region, .. } => assert_eq!(*region, cols[0].inner(1, 0)),
        other => panic!("expected the scrollbar, got {:?}", other),
    }
    match &cmds[0] {
        DrawCmd::BarChart { title, bars, region } => {
            assert_eq!(title, "Temperature Bar Graph");
            assert_eq!(*region, cols[1]);
            assert_eq!(
                bars,
                &vec![("cpu_thermal".to_string(), 42), ("nvme      ".to_string(), 0)]
            );
        }
        other => panic!("expected the bar chart, got {:?}", other),
    }
    match &cmds[1] {
        DrawCmd::Paragraph { lines, .. } => {
            assert_eq!(
                lines,
                &vec![
                    "[cpu_thermal      ], 42.1°C".to_string(),
                    "[nvme             ], -5.3°C".to_string(),
                ]
            );
        }
        other => panic!("expected the sensor paragraph, got {:?}", other),
    }
}

#[test]
fn disk_panel_lines_and_gauge() {
    let disks = vec![DiskLoad {
        name: "\"sda\"".to_string(),
        kind: "SSD".to_string(),
        total_bytes: 4_294_967_296,
        available_bytes: 1_073_741_824,
    }];
    let cmds = display_disk(&disks, screen());
    assert_eq!(cmds.len(), 2);
    let cols = columns_20_80(screen());
    let bands = gauge_bands(cols[1]);
    match &cmds[0] {
        DrawCmd::Paragraph { lines, region, .. } => {
            assert_eq!(*region, cols[0]);
            assert_eq!(
                lines,
                &vec![
                    "Name: \"sda\"".to_string(),
                    "Type: SSD".to_string(),
                    "Total space: 4.00 GB".to_string(),
                    "Used space: 3.00 GB".to_string(),
                    "Free space: 1.00 GB".to_string(),
                ]
            );
        }
        other => panic!("expected the disk paragraph, got {:?}", other),
    }
    match &cmds[1] {
        DrawCmd::Gauge { numerator, denominator, region, .. } => {
            assert_eq!(*numerator, 3_221_225_472);
            assert_eq!(*denominator, 4_294_967_296);
            assert_eq!(*region, bands[1]);
        }
        other => panic!("expected the disk gauge, got {:?}", other),
    }
}

#[test]
fn battery_panel_lines_and_gauge() {
    let batts = vec![
        BatteryLoad { state: BatteryState::Charging, charge_permyriad: 7550 },
        BatteryLoad { state: BatteryState::Full, charge_permyriad: 10_000 },
    ];
    let cmds = display_battery(&batts, screen());
    assert_eq!(cmds.len(), 2);
    let cols = columns_30_70(screen());
    let bands = gauge_bands(cols[1]);
    match &cmds[0] {
        DrawCmd::Paragraph { lines, region, .. } => {
            assert_eq!(*region, cols[0]);
            assert_eq!(
                lines,
                &vec![
                    "Battery 1: Charging, Current Battery 75.50%".to_string(),
                    "Battery 2: Full, Current Battery 100.00%".to_string(),
                ]
            );
        }
        other => panic!("expected the battery paragraph, got {:?}", other),
    }
    match &cmds[1] {
        DrawCmd::Gauge { numerator, denominator, region, .. } => {
            assert_eq!(*numerator, 7550);
            assert_eq!(*denominator, 10_000);
            assert_eq!(*region, bands[1]);
        }
        other => panic!("expected the battery gauge, got {:?}", other),
    }
}

#[test]
fn battery_panel_without_batteries_shows_empty_gauge() {
    let cmds = display_battery(&Vec::new(), screen());
    match &cmds[1] {
        DrawCmd::Gauge { numerator, denominator, .. } => {
            assert_eq!(*numerator, 0);
            assert_eq!(*denominator, 10_000);
        }
        other => panic!("expected the battery gauge, got {:?}", other),
    }
}

#[test]
fn frame_ends_with_the_highlighted_tab_bar() {
    let mut app = App::new();
    let cmds = render_frame(Tab::Home, &mut app, &empty_snapshot(), screen());
    assert_eq!(cmds.len(), 3);
    let rows = root_regions(screen());
    match &cmds[0] {
        DrawCmd::Block { region, .. } => assert_eq!(*region, rows[1]),
        other => panic!("expected the home block, got {:?}", other),
    }
    match cmds.last().unwrap() {
        DrawCmd::TabBar { titles, selected, region } => {
            assert_eq!(*region, rows[0]);
            assert_eq!(
                titles,
                &vec![
                    "Home".to_string(),
                    "CPU".to_string(),
                    "Memory".to_string(),
                    "Network".to_string(),
                    "Process".to_string(),
                    "Disk".to_string(),
                    "Temperature".to_string(),
                    "Battery".to_string(),
                    "Quit".to_string(),
                ]
            );
            assert_eq!(*selected, 0);
        }
        other => panic!("expected the tab bar, got {:?}", other),
    }
}

#[test]
fn frame_reclamps_only_the_active_scrollable_tab() {
    let mut snap = empty_snapshot();
    snap.processes = (0..50)
        .map(|i| ProcLoad { pid: i, name: format!("p{}", i), memory_bytes: 0 })
        .collect();
    let mut app = App {
        vertical_scroll: 60,
        vertical_scroll_state: ScrollState { position: 60, content_length: 0 },
    };
    // a non-scrollable tab leaves the cursor alone
    let cmds = render_frame(Tab::Memory, &mut app, &empty_snapshot(), screen());
    assert_eq!(app.vertical_scroll, 60);
    assert_eq!(cmds.len(), 3);
    // the process tab clamps against the fresh process count
    let cmds = render_frame(Tab::Process, &mut app, &snap, screen());
    assert_eq!(app.vertical_scroll, 49);
    assert_eq!(app.vertical_scroll_state.content_length, 50);
    match &cmds[0] {
        DrawCmd::Paragraph { scroll, lines, .. } => {
            assert_eq!(*scroll, 49);
            assert_eq!(lines.len(), 50);
        }
        other => panic!("expected the process paragraph, got {:?}", other),
    }
    // the count shrinks on the next snapshot: the offset follows it down
    snap.processes.truncate(10);
    render_frame(Tab::Process, &mut app, &snap, screen());
    assert_eq!(app.vertical_scroll, 9);

    let cmds = render_frame(Tab::Quit, &mut app, &empty_snapshot(), screen());
    assert_eq!(app.vertical_scroll, 9);
    assert_eq!(cmds.len(), 2);
    match &cmds[0] {
        DrawCmd::Block { title, .. } => assert_eq!(title, "Quit"),
        other => panic!("expected the quit block, got {:?}", other),
    }
}
