use photosort::relocate::{
    fetched_line, moved_line, plan_batch, plan_relocation, process_file, summary_line, Examined, Relocation,
    RunCounters,
};
use photosort::timestamp::{CaptureTimestamp, TimestampOutcome};
use photosort::walker::{Listed, WalkStep, Walker};

fn tiff_dated(text: &[u8]) -> Vec<u8> {
    let mut bytes: Vec<u8> = vec![0x49, 0x49, 0x2a, 0x00, 8, 0, 0, 0, 1, 0, 0x32, 0x01, 2, 0];
    bytes.extend_from_slice(&((text.len() + 1) as u32).to_le_bytes());
    bytes.extend_from_slice(&26u32.to_le_bytes());
    bytes.extend_from_slice(&0u32.to_le_bytes());
    bytes.extend_from_slice(text);
    bytes.push(0);
    bytes
}

fn decoded(year: u16, month: u8) -> TimestampOutcome {
    TimestampOutcome::Decoded(CaptureTimestamp {
        year,
        month,
        day: 1,
        hour: 0,
        minute: 0,
        second: 0,
    })
}

fn entry(path: &str, is_dir: bool) -> Listed {
    Listed { path: path.to_string(), is_dir }
}

#[test]
fn counters_start_at_zero() {
    assert_eq!(RunCounters::new(), RunCounters { sorted: 0, unknown: 0 });
}

#[test]
fn record_counts_each_outcome_once() {
    let mut counters = RunCounters::new();
    counters.record(decoded(2021, 6));
    assert_eq!(counters, RunCounters { sorted: 1, unknown: 0 });
    counters.record(TimestampOutcome::NoContainer);
    counters.record(TimestampOutcome::NoField);
    counters.record(TimestampOutcome::UnparsableField);
    assert_eq!(counters, RunCounters { sorted: 1, unknown: 3 });
}

#[test]
fn relocation_of_a_dated_file() {
    let planned = plan_relocation("output", "input/photo1.jpg", "photo1.jpg", decoded(2021, 6));
    assert_eq!(
        planned,
        Relocation {
            source: "input/photo1.jpg".to_string(),
            directory: "output/2021/June".to_string(),
            destination: "output/2021/June/photo1.jpg".to_string(),
            dated: true,
        }
    );
}

#[test]
fn relocation_of_an_undated_file() {
    let planned =
        plan_relocation("output", "input/note.txt", "note.txt", TimestampOutcome::NoContainer);
    assert_eq!(
        planned,
        Relocation {
            source: "input/note.txt".to_string(),
            directory: "output/unknown".to_string(),
            destination: "output/unknown/note.txt".to_string(),
            dated: false,
        }
    );
}

#[test]
fn scenario_photo_with_timestamp() {
    let mut counters = RunCounters::new();
    let bytes = tiff_dated(b"2021:06:15 10:00:00");
    let planned = process_file("output", "input/photo1.jpg", "photo1.jpg", &bytes, &mut counters);
    assert_eq!(planned.destination, "output/2021/June/photo1.jpg");
    assert_eq!(planned.directory, "output/2021/June");
    assert_eq!(planned.source, "input/photo1.jpg");
    assert!(planned.dated);
    assert_eq!(counters.sorted, 1);
    assert_eq!(counters.unknown, 0);
}

#[test]
fn scenario_text_file_without_container() {
    let mut counters = RunCounters::new();
    let planned =
        process_file("output", "input/note.txt", "note.txt", b"remember the milk", &mut counters);
    assert_eq!(planned.destination, "output/unknown/note.txt");
    assert!(!planned.dated);
    assert_eq!(counters.sorted, 0);
    assert_eq!(counters.unknown, 1);
}

#[test]
fn scenario_nested_photo() {
    let mut walker = Walker::new();
    walker.listed(vec![entry("input/a", true)]);
    assert_eq!(walker.advance(), WalkStep::List("input/a".to_string()));
    walker.listed(vec![entry("input/a/b", true)]);
    assert_eq!(walker.advance(), WalkStep::List("input/a/b".to_string()));
    walker.listed(vec![entry("input/a/b/photo2.jpg", false)]);
    assert_eq!(walker.advance(), WalkStep::Done);
    let files = walker.into_files();
    assert_eq!(files, vec!["input/a/b/photo2.jpg".to_string()]);

    let mut counters = RunCounters::new();
    let bytes = tiff_dated(b"1999:12:31 00:00:00");
    let planned = process_file("output", &files[0], "photo2.jpg", &bytes, &mut counters);
    assert_eq!(planned.destination, "output/1999/December/photo2.jpg");
    assert_eq!(counters, RunCounters { sorted: 1, unknown: 0 });
}

#[test]
fn scenario_batch_of_three() {
    let mut counters = RunCounters::new();
    let dated = tiff_dated(b"2015:03:02 12:30:00");
    let blank = tiff_dated(b"    :  :     :  :  ");
    let a = process_file("out", "in/a.jpg", "a.jpg", &dated, &mut counters);
    let b = process_file("out", "in/b.jpg", "b.jpg", &blank, &mut counters);
    let c = process_file("out", "in/c.txt", "c.txt", b"text", &mut counters);
    assert_eq!(a.destination, "out/2015/March/a.jpg");
    assert_eq!(b.destination, "out/unknown/b.jpg");
    assert_eq!(c.destination, "out/unknown/c.txt");
    assert_eq!(counters.sorted, 1);
    assert_eq!(counters.unknown, 2);
}

#[test]
fn batch_plans_one_move_per_file_in_order() {
    let files = vec![
        Examined {
            source: "in/a.jpg".to_string(),
            file_name: "a.jpg".to_string(),
            outcome: TimestampOutcome::NoField,
        },
        Examined {
            source: "in/d/b.jpg".to_string(),
            file_name: "b.jpg".to_string(),
            outcome: decoded(2020, 2),
        },
        Examined {
            source: "in/c.jpg".to_string(),
            file_name: "c.jpg".to_string(),
            outcome: TimestampOutcome::UnparsableField,
        },
    ];
    let (moves, counters) = plan_batch("out", &files);
    assert_eq!(moves.len(), 3);
    assert_eq!(moves[0].source, "in/a.jpg");
    assert_eq!(moves[0].destination, "out/unknown/a.jpg");
    assert_eq!(moves[1].source, "in/d/b.jpg");
    assert_eq!(moves[1].destination, "out/2020/February/b.jpg");
    assert_eq!(moves[1].directory, "out/2020/February");
    assert_eq!(moves[2].destination, "out/unknown/c.jpg");
    assert_eq!(counters, RunCounters { sorted: 1, unknown: 2 });
    assert_eq!(counters.sorted + counters.unknown, files.len());
}

#[test]
fn batch_of_nothing() {
    let (moves, counters) = plan_batch("out", &Vec::new());
    assert!(moves.is_empty());
    assert_eq!(counters, RunCounters { sorted: 0, unknown: 0 });
}

#[test]
fn moved_line_names_source_and_destination() {
    let planned = plan_relocation("output", "input/photo1.jpg", "photo1.jpg", decoded(2021, 6));
    assert_eq!(
        moved_line(&planned, "photo1.jpg"),
        "Moved photo1.jpg from 'input/photo1.jpg' to 'output/2021/June/photo1.jpg'"
    );
}

#[test]
fn summary_line_reports_totals() {
    let counters = RunCounters { sorted: 1, unknown: 2 };
    assert_eq!(summary_line(&counters, 0), "Sorted 1 photos with 2 unknowns in 0 seconds.");
    let counters = RunCounters { sorted: 120, unknown: 0 };
    assert_eq!(summary_line(&counters, 75), "Sorted 120 photos with 0 unknowns in 75 seconds.");
}

#[test]
fn walk_of_an_empty_root() {
    let mut walker = Walker::new();
    assert!(walker.is_done());
    walker.listed(Vec::new());
    assert_eq!(walker.advance(), WalkStep::Done);
    assert!(walker.into_files().is_empty());
}

#[test]
fn walk_expands_a_directory_before_its_siblings() {
    let mut walker = Walker::new();
    walker.listed(vec![
        entry("in/1.jpg", false),
        entry("in/d", true),
        entry("in/2.jpg", false),
        entry("in/e", true),
        entry("in/3.jpg", false),
    ]);
    assert!(!walker.is_done());
    assert_eq!(walker.advance(), WalkStep::List("in/d".to_string()));
    walker.listed(vec![entry("in/d/x.jpg", false), entry("in/d/sub", true), entry("in/d/y.jpg", false)]);
    assert_eq!(walker.advance(), WalkStep::List("in/d/sub".to_string()));
    walker.listed(vec![entry("in/d/sub/deep.jpg", false)]);
    assert_eq!(walker.advance(), WalkStep::List("in/e".to_string()));
    walker.listed(Vec::new());
    assert_eq!(walker.advance(), WalkStep::Done);
    assert!(walker.is_done());
    assert_eq!(
        walker.into_files(),
        vec![
            "in/1.jpg".to_string(),
            "in/d/x.jpg".to_string(),
            "in/d/sub/deep.jpg".to_string(),
            "in/d/y.jpg".to_string(),
            "in/2.jpg".to_string(),
            "in/3.jpg".to_string(),
        ]
    );
}

#[test]
fn fetched_line_reports_the_count() {
    assert_eq!(fetched_line(0), "Fetched 0 input files.");
    assert_eq!(fetched_line(3), "Fetched 3 input files.");
    assert_eq!(fetched_line(1024), "Fetched 1024 input files.");
}
