//! The render dispatcher: from view state and snapshot to a full frame.
//!
//! Given the active tab, the scroll cursor and a fresh snapshot, one call
//! produces the whole frame's instructions: the active tab's panel in the
//! body region, then the tab bar with the active entry highlighted.  Only
//! the active tab's category of the snapshot is consulted, so a stale tab's
//! content length never changes until it is revisited; for the scrollable
//! tabs the cursor is re-clamped against the fresh content, and for every
//! other tab it is left untouched.

use vstd::prelude::*;

use crate::display::{
    battery_body_matches, cpu_body_matches, disk_body_matches, display_battery, display_cpu,
    display_disk, display_home, display_memory, display_network, display_process,
    display_temperature, home_body_matches, memory_body_matches, net_body_matches,
    proc_body_matches, temp_body_matches,
};
use crate::draw::DrawCmd;
use crate::layout::{root_regions, root_regions_spec, Region};
use crate::scroll::App;
use crate::snapshot::{batteries_wf, cpus_wf, disks_wf, temps_wf, Snapshot};
use crate::tab::Tab;

verus! {

/// The nine menu entries, in tab order.
pub open spec fn menu_titles() -> Seq<Seq<char>> {
    seq![
        "Home"@,
        "CPU"@,
        "Memory"@,
        "Network"@,
        "Process"@,
        "Disk"@,
        "Temperature"@,
        "Battery"@,
        "Quit"@,
    ]
}

/// The Quit tab's body: a titled empty block covering the body area.
pub open spec fn quit_body_matches(cmds: Seq<DrawCmd>, area: Region) -> bool {
    &&& cmds.len() == 1
    &&& cmds[0] matches DrawCmd::Block { title, region } && title@ == "Quit"@ && region == area
}

/// Build the menu entry strings, in tab order.
fn menu_title_strings() -> (titles: Vec<String>)
    ensures
        titles.deep_view() == menu_titles(),
{
    let mut titles: Vec<String> = Vec::new();
    titles.push("Home".to_owned());
    titles.push("CPU".to_owned());
    titles.push("Memory".to_owned());
    titles.push("Network".to_owned());
    titles.push("Process".to_owned());
    titles.push("Disk".to_owned());
    titles.push("Temperature".to_owned());
    titles.push("Battery".to_owned());
    titles.push("Quit".to_owned());
    proof {
        assert(titles.deep_view() =~= menu_titles());
    }
    titles
}

/// Paint one frame: the active tab's panel in the body row of the screen
/// split, then the tab bar in the header row.
///
/// The preconditions ask only for what the active tab will read: a
/// well-formed category for it, a first core or disk where the panel
/// unconditionally shows one, and a line count that fits the machine.
pub fn render_frame(tab: Tab, app: &mut App, snap: &Snapshot, area: Region) -> (r: Vec<DrawCmd>)
    requires
        tab is Cpu ==> snap.cpus@.len() >= 1 && cpus_wf(snap.cpus@),
        tab is Memory ==> snap.memory.wf(),
        tab is Network ==> 3 * snap.networks@.len() <= usize::MAX,
        tab is Disk ==> snap.disks@.len() >= 1 && disks_wf(snap.disks@),
        tab is Temperature ==> temps_wf(snap.temperatures@),
        tab is Battery ==> batteries_wf(snap.batteries@),
    ensures
        r@.len() >= 1,
        r@.last() matches DrawCmd::TabBar { titles, selected, region } && titles.deep_view()
            == menu_titles() && selected == tab.index_spec() && region == root_regions_spec(
            area,
        )[0],
        !tab.scrollable_spec() ==> *final(app) == *old(app),
        tab is Home ==> home_body_matches(r@.drop_last(), root_regions_spec(area)[1]),
        tab is Cpu ==> cpu_body_matches(r@.drop_last(), snap.cpus@, root_regions_spec(area)[1]),
        tab is Memory ==> memory_body_matches(
            r@.drop_last(),
            snap.memory,
            root_regions_spec(area)[1],
        ),
        tab is Network ==> net_body_matches(
            r@.drop_last(),
            snap.networks@,
            *final(app),
            root_regions_spec(area)[1],
        ) && *final(app) == old(app).synced_spec((3 * snap.networks@.len()) as usize),
        tab is Process ==> proc_body_matches(
            r@.drop_last(),
            snap.processes@,
            *final(app),
            root_regions_spec(area)[1],
        ) && *final(app) == old(app).synced_spec(snap.processes@.len() as usize),
        tab is Disk ==> disk_body_matches(
            r@.drop_last(),
            snap.disks@[0],
            root_regions_spec(area)[1],
        ),
        tab is Temperature ==> temp_body_matches(
            r@.drop_last(),
            snap.temperatures@,
            *final(app),
            root_regions_spec(area)[1],
        ) && *final(app) == old(app).synced_spec(snap.temperatures@.len() as usize),
        tab is Battery ==> battery_body_matches(
            r@.drop_last(),
            snap.batteries@,
            root_regions_spec(area)[1],
        ),
        tab is Quit ==> quit_body_matches(r@.drop_last(), root_regions_spec(area)[1]),
{
    let chunks = root_regions(area);
    let header = chunks[0];
    let body = chunks[1];

    let mut r: Vec<DrawCmd> = match tab {
        Tab::Home => display_home(body),
        Tab::Cpu => display_cpu(&snap.cpus, body),
        Tab::Memory => display_memory(&snap.memory, body),
        Tab::Network => display_network(&snap.networks, body, app),
        Tab::Process => display_process(&snap.processes, body, app),
        Tab::Disk => display_disk(&snap.disks, body),
        Tab::Temperature => display_temperature(&snap.temperatures, body, app),
        Tab::Battery => display_battery(&snap.batteries, body),
        Tab::Quit => {
            let mut v: Vec<DrawCmd> = Vec::new();
            v.push(DrawCmd::Block { title: "Quit".to_owned(), region: body });
            v
        },
    };
    let ghost bodycmds = r@;
    r.push(
        DrawCmd::TabBar { titles: menu_title_strings(), selected: tab.index(), region: header },
    );
    proof {
        assert(r@.drop_last() =~= bodycmds);
    }
    r
}

} // verus!
