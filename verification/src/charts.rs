//! The series of the store grouped into charts: what the dashboard draws.

use crate::database::Database;
use crate::errors::Error;
use crate::snapshot::SnapShot;
use vstd::prelude::*;
use vstd::string::StringExecFns;

verus! {

/// Seconds between two reloads of the store by the dashboard.
pub const ACTUALIZATION_INTERVAL_SECS: u64 = 120;

/// One point of a chart: a value, in thousandths of the chart's unit, and
/// the second at which it was measured.
#[derive(Clone, Copy, Debug, PartialEq, Eq, Structural)]
pub struct ChartPoint {
    pub value: Option<u64>,
    pub time: i64,
}

/// One line of a chart.
#[derive(Clone, Debug, PartialEq, Eq)]
pub struct ChartLine {
    pub color: String,
    pub label: Option<String>,
    pub points: Vec<ChartPoint>,
}

/// The lines that are drawn together, with the title and unit of the chart
/// and the largest value on it.
#[derive(Clone, Debug, PartialEq, Eq)]
pub struct ChartContext {
    pub title: String,
    pub unit: String,
    pub max_value: u64,
    pub collections: Vec<ChartLine>,
}

/// The charts of one store.
#[derive(Clone, Debug, PartialEq, Eq)]
pub struct ChartsData {
    pub metrics: Vec<ChartContext>,
}

/// What a line of a chart says.
pub struct LineModel {
    pub color: Seq<char>,
    pub label: Option<Seq<char>>,
    pub points: Seq<ChartPoint>,
}

/// What a chart says.
pub struct ChartModel {
    pub title: Seq<char>,
    pub unit: Seq<char>,
    pub max_value: u64,
    pub lines: Seq<LineModel>,
}

/// The largest value among `points`, zero where none has a value.
pub open spec fn points_max(points: Seq<ChartPoint>) -> u64
    decreases points.len(),
{
    if points.len() == 0 {
        0
    } else {
        let rest = points_max(points.drop_last());
        match points.last().value {
            Some(v) => if v > rest {
                v
            } else {
                rest
            },
            None => rest,
        }
    }
}

impl ChartModel {
    /// The chart without lines.
    pub open spec fn empty(title: Seq<char>, unit: Seq<char>) -> ChartModel {
        ChartModel { title, unit, max_value: 0, lines: Seq::empty() }
    }

    /// The chart with one more line. A line without points is not drawn.
    pub open spec fn with_line(self, line: LineModel) -> ChartModel {
        ChartModel {
            title: self.title,
            unit: self.unit,
            max_value: if points_max(line.points) > self.max_value {
                points_max(line.points)
            } else {
                self.max_value
            },
            lines: if line.points.len() == 0 {
                self.lines
            } else {
                self.lines.push(line)
            },
        }
    }
}

impl View for ChartLine {
    type V = LineModel;

    open spec fn view(&self) -> LineModel {
        LineModel {
            color: self.color@,
            label: match self.label {
                Some(text) => Some(text@),
                None => None,
            },
            points: self.points@,
        }
    }
}

impl View for ChartContext {
    type V = ChartModel;

    open spec fn view(&self) -> ChartModel {
        ChartModel {
            title: self.title@,
            unit: self.unit@,
            max_value: self.max_value,
            lines: Seq::new(self.collections@.len(), |i: int| self.collections@[i]@),
        }
    }
}

/// Every value of `points` is at most `points_max(points)`.
pub proof fn lemma_points_max_bounds(points: Seq<ChartPoint>, i: int)
    requires
        0 <= i < points.len(),
        points[i].value is Some,
    ensures
        points[i].value.unwrap() <= points_max(points),
    decreases points.len(),
{
    if i < points.len() - 1 {
        lemma_points_max_bounds(points.drop_last(), i);
    }
}

/// The largest value of a chart is at least every value on a line added to
/// it, and adding a line never lowers it.
pub proof fn lemma_chart_max_bounds_line(chart: ChartModel, line: LineModel, i: int)
    requires
        0 <= i < line.points.len(),
        line.points[i].value is Some,
    ensures
        line.points[i].value.unwrap() <= chart.with_line(line).max_value,
        chart.max_value <= chart.with_line(line).max_value,
{
    lemma_points_max_bounds(line.points, i);
}

/// The largest value among `points`.
pub fn max_of_points(points: &Vec<ChartPoint>) -> (max: u64)
    ensures
        max == points_max(points@),
{
    let mut max: u64 = 0;
    let mut i: usize = 0;
    while i < points.len()
        invariant
            i <= points.len(),
            max == points_max(points@.take(i as int)),
        decreases points.len() - i,
    {
        proof {
            assert(points@.take(i + 1).drop_last() =~= points@.take(i as int));
        }
        match points[i].value {
            Some(v) => {
                if v > max {
                    max = v;
                }
            },
            None => {},
        }
        i += 1;
    }
    proof {
        assert(points@.take(points@.len() as int) =~= points@);
    }
    max
}

impl ChartContext {
    /// A chart without lines.
    pub fn new(title: &str, unit: &str) -> (chart: ChartContext)
        ensures
            chart@ == ChartModel::empty(title@, unit@),
    {
        let chart = ChartContext {
            title: String::from_str(title),
            unit: String::from_str(unit),
            max_value: 0,
            collections: Vec::new(),
        };
        proof {
            assert(chart@.lines =~= Seq::empty());
        }
        chart
    }

    /// Adds a line to the chart and raises the chart's largest value to the
    /// line's. A line without points is left out.
    pub fn add_line(&mut self, color: &str, label: Option<&str>, points: Vec<ChartPoint>)
        ensures
            final(self)@ == old(self)@.with_line(
                LineModel {
                    color: color@,
                    label: match label {
                        Some(text) => Some(text@),
                        None => None,
                    },
                    points: points@,
                },
            ),
    {
        let ghost before = self@;
        let max = max_of_points(&points);
        if max > self.max_value {
            self.max_value = max;
        }
        if points.len() > 0 {
            let label = match label {
                Some(text) => Some(String::from_str(text)),
                None => None,
            };
            let line = ChartLine { color: String::from_str(color), label, points };
            self.collections.push(line);
            proof {
                assert(self@.lines =~= before.lines.push(line@));
            }
        } else {
            proof {
                assert(self@.lines =~= before.lines);
            }
        }
    }
}

/// The CPU usage of each snapshot.
pub open spec fn cpu_points(snaps: Seq<SnapShot>) -> Seq<ChartPoint> {
    Seq::new(
        snaps.len(),
        |i: int| ChartPoint { value: snaps[i].spec_cpu_usage(), time: snaps[i].time.secs },
    )
}

/// The used share of RAM of each snapshot.
pub open spec fn ram_points(snaps: Seq<SnapShot>) -> Seq<ChartPoint> {
    Seq::new(
        snaps.len(),
        |i: int|
            ChartPoint {
                value: Some(snaps[i].memory.used_millipercent as u64),
                time: snaps[i].time.secs,
            },
    )
}

/// The used share of swap of each snapshot.
pub open spec fn swap_points(snaps: Seq<SnapShot>) -> Seq<ChartPoint> {
    Seq::new(
        snaps.len(),
        |i: int|
            ChartPoint {
                value: Some(snaps[i].swap.used_millipercent as u64),
                time: snaps[i].time.secs,
            },
    )
}

/// The 1-minute load of each snapshot.
pub open spec fn load_one_points(snaps: Seq<SnapShot>) -> Seq<ChartPoint> {
    Seq::new(
        snaps.len(),
        |i: int| ChartPoint { value: snaps[i].spec_load().0, time: snaps[i].time.secs },
    )
}

/// The 5-minute load of each snapshot.
pub open spec fn load_five_points(snaps: Seq<SnapShot>) -> Seq<ChartPoint> {
    Seq::new(
        snaps.len(),
        |i: int| ChartPoint { value: snaps[i].spec_load().1, time: snaps[i].time.secs },
    )
}

/// The 15-minute load of each snapshot.
pub open spec fn load_fifteen_points(snaps: Seq<SnapShot>) -> Seq<ChartPoint> {
    Seq::new(
        snaps.len(),
        |i: int| ChartPoint { value: snaps[i].spec_load().2, time: snaps[i].time.secs },
    )
}

/// The received traffic of each snapshot.
pub open spec fn received_points(snaps: Seq<SnapShot>) -> Seq<ChartPoint> {
    Seq::new(
        snaps.len(),
        |i: int| ChartPoint { value: Some(snaps[i].spec_network().0), time: snaps[i].time.secs },
    )
}

/// The sent traffic of each snapshot.
pub open spec fn sent_points(snaps: Seq<SnapShot>) -> Seq<ChartPoint> {
    Seq::new(
        snaps.len(),
        |i: int| ChartPoint { value: Some(snaps[i].spec_network().1), time: snaps[i].time.secs },
    )
}

/// The volume read from disk of each snapshot.
pub open spec fn disk_read_points(snaps: Seq<SnapShot>) -> Seq<ChartPoint> {
    Seq::new(
        snaps.len(),
        |i: int|
            ChartPoint { value: Some(snaps[i].spec_disks_speed().0), time: snaps[i].time.secs },
    )
}

/// The volume written to disk of each snapshot.
pub open spec fn disk_write_points(snaps: Seq<SnapShot>) -> Seq<ChartPoint> {
    Seq::new(
        snaps.len(),
        |i: int|
            ChartPoint { value: Some(snaps[i].spec_disks_speed().1), time: snaps[i].time.secs },
    )
}

/// The added-up used disk shares of each snapshot.
pub open spec fn disk_used_points(snaps: Seq<SnapShot>) -> Seq<ChartPoint> {
    Seq::new(
        snaps.len(),
        |i: int| ChartPoint { value: Some(snaps[i].spec_disks_used()), time: snaps[i].time.secs },
    )
}

/// A line with the given color, label and points.
pub open spec fn line(color: Seq<char>, label: Option<Seq<char>>, points: Seq<ChartPoint>) -> LineModel {
    LineModel { color, label, points }
}

/// The six charts of a store that holds `snaps`, in the order in which the
/// dashboard shows them.
pub open spec fn charts_of(snaps: Seq<SnapShot>) -> Seq<ChartModel> {
    seq![
        ChartModel::empty("CPU Usage"@, "%"@).with_line(line("#e00"@, None, cpu_points(snaps))),
        ChartModel::empty("RAM Usage"@, "%"@).with_line(
            line("#0e0"@, Some("RAM"@), ram_points(snaps)),
        ).with_line(line("#e0e"@, Some("Swap"@), swap_points(snaps))),
        ChartModel::empty("Load Average"@, "%"@).with_line(
            line("#a0a"@, Some("1 minutes"@), load_one_points(snaps)),
        ).with_line(line("#0a0"@, Some("5 minutes"@), load_five_points(snaps))).with_line(
            line("#00e"@, Some("15 minutes"@), load_fifteen_points(snaps)),
        ),
        ChartModel::empty("Network"@, "MiB"@).with_line(
            line("#faa"@, Some("Received"@), received_points(snaps)),
        ).with_line(line("#aaf"@, Some("Sent"@), sent_points(snaps))),
        ChartModel::empty("Disks Speed Usage"@, "KiB"@).with_line(
            line("#afa"@, Some("Read"@), disk_read_points(snaps)),
        ).with_line(line("#faf"@, Some("Write"@), disk_write_points(snaps))),
        ChartModel::empty("Disks Memory Usage"@, "%"@).with_line(
            line("#a4f"@, Some("Usage"@), disk_used_points(snaps)),
        ),
    ]
}

/// The points of every series of a store, one vector per line.
pub struct SeriesPoints {
    pub cpu: Vec<ChartPoint>,
    pub ram: Vec<ChartPoint>,
    pub swap: Vec<ChartPoint>,
    pub load_one: Vec<ChartPoint>,
    pub load_five: Vec<ChartPoint>,
    pub load_fifteen: Vec<ChartPoint>,
    pub received: Vec<ChartPoint>,
    pub sent: Vec<ChartPoint>,
    pub disk_read: Vec<ChartPoint>,
    pub disk_write: Vec<ChartPoint>,
    pub disk_used: Vec<ChartPoint>,
}

impl SeriesPoints {
    /// Whether these are the points of the series of `snaps`.
    pub open spec fn drawn_from(self, snaps: Seq<SnapShot>) -> bool {
        &&& self.cpu@ == cpu_points(snaps)
        &&& self.ram@ == ram_points(snaps)
        &&& self.swap@ == swap_points(snaps)
        &&& self.load_one@ == load_one_points(snaps)
        &&& self.load_five@ == load_five_points(snaps)
        &&& self.load_fifteen@ == load_fifteen_points(snaps)
        &&& self.received@ == received_points(snaps)
        &&& self.sent@ == sent_points(snaps)
        &&& self.disk_read@ == disk_read_points(snaps)
        &&& self.disk_write@ == disk_write_points(snaps)
        &&& self.disk_used@ == disk_used_points(snaps)
    }

    /// No point yet.
    pub fn new() -> (points: SeriesPoints)
        ensures
            points.drawn_from(Seq::empty()),
    {
        let points = SeriesPoints {
            cpu: Vec::new(),
            ram: Vec::new(),
            swap: Vec::new(),
            load_one: Vec::new(),
            load_five: Vec::new(),
            load_fifteen: Vec::new(),
            received: Vec::new(),
            sent: Vec::new(),
            disk_read: Vec::new(),
            disk_write: Vec::new(),
            disk_used: Vec::new(),
        };
        proof {
            let none = Seq::<SnapShot>::empty();
            assert(points.cpu@ =~= cpu_points(none));
            assert(points.ram@ =~= ram_points(none));
            assert(points.swap@ =~= swap_points(none));
            assert(points.load_one@ =~= load_one_points(none));
            assert(points.load_five@ =~= load_five_points(none));
            assert(points.load_fifteen@ =~= load_fifteen_points(none));
            assert(points.received@ =~= received_points(none));
            assert(points.sent@ =~= sent_points(none));
            assert(points.disk_read@ =~= disk_read_points(none));
            assert(points.disk_write@ =~= disk_write_points(none));
            assert(points.disk_used@ =~= disk_used_points(none));
        }
        points
    }

    /// Adds the points of one more snapshot to every series.
    fn push_snapshot(&mut self, snap: &SnapShot, Ghost(seen): Ghost<Seq<SnapShot>>)
        requires
            old(self).drawn_from(seen),
        ensures
            final(self).drawn_from(seen.push(*snap)),
    {
        let time = snap.time.timestamp();
        let (ram, swap) = snap.get_ram_usage();
        let (one, five, fifteen) = snap.load_percent();
        let (received, sent) = snap.network_mib();
        let (read, written) = snap.disks_speed_kib();
        self.cpu.push(ChartPoint { value: snap.cpu_usage(), time });
        self.ram.push(ChartPoint { value: Some(ram), time });
        self.swap.push(ChartPoint { value: Some(swap), time });
        self.load_one.push(ChartPoint { value: one, time });
        self.load_five.push(ChartPoint { value: five, time });
        self.load_fifteen.push(ChartPoint { value: fifteen, time });
        self.received.push(ChartPoint { value: Some(received), time });
        self.sent.push(ChartPoint { value: Some(sent), time });
        self.disk_read.push(ChartPoint { value: Some(read), time });
        self.disk_write.push(ChartPoint { value: Some(written), time });
        self.disk_used.push(ChartPoint { value: Some(snap.get_disks_used_total()), time });
        proof {
            let next = seen.push(*snap);
            assert(self.cpu@ =~= cpu_points(next));
            assert(self.ram@ =~= ram_points(next));
            assert(self.swap@ =~= swap_points(next));
            assert(self.load_one@ =~= load_one_points(next));
            assert(self.load_five@ =~= load_five_points(next));
            assert(self.load_fifteen@ =~= load_fifteen_points(next));
            assert(self.received@ =~= received_points(next));
            assert(self.sent@ =~= sent_points(next));
            assert(self.disk_read@ =~= disk_read_points(next));
            assert(self.disk_write@ =~= disk_write_points(next));
            assert(self.disk_used@ =~= disk_used_points(next));
        }
    }

    /// The points of every series of `database`.
    pub fn of(database: &Database) -> (points: SeriesPoints)
        ensures
            points.drawn_from(database.snapshots@),
    {
        let mut points = SeriesPoints::new();
        let mut i: usize = 0;
        proof {
            assert(database.snapshots@.take(0) =~= Seq::empty());
        }
        while i < database.snapshots.len()
            invariant
                i <= database.snapshots.len(),
                points.drawn_from(database.snapshots@.take(i as int)),
            decreases database.snapshots.len() - i,
        {
            proof {
                assert(database.snapshots@.take(i as int).push(database.snapshots@[i as int])
                    =~= database.snapshots@.take(i + 1));
            }
            points.push_snapshot(
                &database.snapshots[i],
                Ghost(database.snapshots@.take(i as int)),
            );
            i += 1;
        }
        proof {
            assert(database.snapshots@.take(database.snapshots@.len() as int)
                =~= database.snapshots@);
        }
        points
    }
}

impl Default for ChartsData {
    /// No chart.
    fn default() -> (data: ChartsData)
        ensures
            data.metrics@.len() == 0,
    {
        ChartsData { metrics: Vec::new() }
    }
}

impl ChartsData {
    /// What the charts say, in order.
    pub open spec fn models(self) -> Seq<ChartModel> {
        Seq::new(self.metrics@.len(), |i: int| self.metrics@[i]@)
    }

    /// The charts to show after an attempt to reload the store: those of
    /// the store where it loaded, else the ones shown so far.
    pub fn refreshed(self, loaded: Result<Database, Error>) -> (data: ChartsData)
        ensures
            match loaded {
                Ok(database) => data.models() == charts_of(database.snapshots@),
                Err(_) => data == self,
            },
    {
        match loaded {
            Ok(database) => ChartsData::from_database(&database),
            Err(_) => self,
        }
    }

    /// The six charts of `database`: CPU, memory, load, network, disk
    /// volume and disk use, each with one point per snapshot on every line,
    /// in the order of the store.
    pub fn from_database(database: &Database) -> (data: ChartsData)
        ensures
            data.models() == charts_of(database.snapshots@),
    {
        let points = SeriesPoints::of(database);
        let mut cpu = ChartContext::new("CPU Usage", "%");
        cpu.add_line("#e00", None, points.cpu);
        let mut ram = ChartContext::new("RAM Usage", "%");
        ram.add_line("#0e0", Some("RAM"), points.ram);
        ram.add_line("#e0e", Some("Swap"), points.swap);
        let mut load = ChartContext::new("Load Average", "%");
        load.add_line("#a0a", Some("1 minutes"), points.load_one);
        load.add_line("#0a0", Some("5 minutes"), points.load_five);
        load.add_line("#00e", Some("15 minutes"), points.load_fifteen);
        let mut network = ChartContext::new("Network", "MiB");
        network.add_line("#faa", Some("Received"), points.received);
        network.add_line("#aaf", Some("Sent"), points.sent);
        let mut disks_speed = ChartContext::new("Disks Speed Usage", "KiB");
        disks_speed.add_line("#afa", Some("Read"), points.disk_read);
        disks_speed.add_line("#faf", Some("Write"), points.disk_write);
        let mut disks_memory = ChartContext::new("Disks Memory Usage", "%");
        disks_memory.add_line("#a4f", Some("Usage"), points.disk_used);
        let mut metrics: Vec<ChartContext> = Vec::new();
        metrics.push(cpu);
        metrics.push(ram);
        metrics.push(load);
        metrics.push(network);
        metrics.push(disks_speed);
        metrics.push(disks_memory);
        let data = ChartsData { metrics };
        proof {
            assert(data.models() =~= charts_of(database.snapshots@));
        }
        data
    }
}

} // verus!
