use rs_fstat2json::stat::error::StatError;
use rs_fstat2json::stat::least::filenames2stats2writer;
use rs_fstat2json::stat::least::stat2writer_new;
use rs_fstat2json::stat::least::FileType;
use rs_fstat2json::stat::least::LeastStat;
use rs_fstat2json::stat::least::Lookup;
use rs_fstat2json::stat::least::Permissions;
use rs_fstat2json::stat::probe::FileTypeProbe;
use rs_fstat2json::stat::probe::Metadata;
use rs_fstat2json::stat::probe::PermissionsProbe;
use rs_fstat2json::stat::probe::Timestamp;

const README_LINE: &str = "{\"name\":\"./README.md\",\"size\":1024,\"mode\":{\"Mode\":33188},\"modified\":\"2024-03-11T08:22:01Z\",\"file_type\":\"Regular\"}\n";

fn stamp(secs: i64, nanos: u32) -> Timestamp {
    Timestamp { unix_nanos: i128::from(secs) * 1_000_000_000 + i128::from(nanos) }
}

fn file(len: u64, secs: i64) -> Metadata {
    Metadata {
        len,
        permissions: PermissionsProbe { mode: Some(0o100644), readonly: false },
        modified: Some(stamp(secs, 0)),
        file_type: FileTypeProbe {
            is_dir: false,
            is_file: true,
            is_symlink: false,
            is_block_device: false,
            is_char_device: false,
            is_fifo: false,
            is_socket: false,
        },
    }
}

fn found(name: &str, len: u64) -> Result<Lookup, String> {
    Ok(Lookup { name: String::from(name), query: Ok(file(len, 1710145321)) })
}

fn missing(name: &str) -> Result<Lookup, String> {
    Ok(Lookup {
        name: String::from(name),
        query: Err(String::from("No such file or directory (os error 2)")),
    })
}

fn run(entries: Vec<Result<Lookup, String>>) -> (String, Result<(), StatError>) {
    let mut writer = stat2writer_new(String::new());
    let verdict = filenames2stats2writer(entries, &mut writer);
    (writer.into_inner(), verdict)
}

#[test]
fn writer_appends_one_line_per_record() {
    let mut writer = stat2writer_new(String::from("# start\n"));
    let least = LeastStat {
        name: String::from("./README.md"),
        size: 1024,
        mode: Permissions::Mode(0o100644),
        modified: stamp(1710145321, 0),
        file_type: FileType::Regular,
    };
    assert_eq!(writer.write(least.clone()), Ok(()));
    assert_eq!(writer.write(least), Ok(()));
    assert_eq!(writer.into_inner(), format!("# start\n{}{}", README_LINE, README_LINE));
}

#[test]
fn writer_writes_nothing_for_a_record_that_fails() {
    let mut writer = stat2writer_new(String::from("kept"));
    let least = LeastStat {
        name: String::from("late"),
        size: 0,
        mode: Permissions::ReadOnly(false),
        modified: stamp(253402300800, 0),
        file_type: FileType::Unknown,
    };
    assert_eq!(
        writer.write(least),
        Err(StatError::TimeFormat {
            path: String::from("late"),
            modified: stamp(253402300800, 0),
        })
    );
    assert_eq!(writer.into_inner(), "kept");
}

#[test]
fn writer_hands_out_what_it_wrote_and_starts_anew() {
    let mut writer = stat2writer_new(String::new());
    let verdict = filenames2stats2writer(vec![found("./README.md", 1024)], &mut writer);
    assert_eq!(verdict, Ok(()));
    assert_eq!(writer.take_output(), README_LINE);
    assert_eq!(writer.take_output(), "");
    let verdict = filenames2stats2writer(vec![found("./README.md", 1024)], &mut writer);
    assert_eq!(verdict, Ok(()));
    assert_eq!(writer.into_inner(), README_LINE);
}

#[test]
fn run_over_no_input_writes_nothing_and_ends_well() {
    let (text, verdict) = run(vec![]);
    assert_eq!(text, "");
    assert_eq!(verdict, Ok(()));
}

#[test]
fn run_writes_one_line_for_an_existing_file_then_fails_on_a_missing_one() {
    let (text, verdict) = run(vec![found("./README.md", 1024), missing("./missing-file")]);
    assert_eq!(text, README_LINE);
    assert_eq!(text.lines().count(), 1);
    let error = verdict.unwrap_err();
    assert_eq!(
        error,
        StatError::Query {
            path: String::from("./missing-file"),
            reason: String::from("No such file or directory (os error 2)"),
        }
    );
    assert!(error.message().contains("missing-file"));
    assert!(!error.message().contains('\n'));
}

#[test]
fn run_writes_every_line_in_the_order_of_the_input() {
    let (text, verdict) = run(vec![found("b", 2), found("a", 1), found("c", 3)]);
    assert_eq!(verdict, Ok(()));
    let names: Vec<String> = text
        .lines()
        .map(|line| {
            let value: serde_json::Value = serde_json::from_str(line).unwrap();
            String::from(value.get("name").unwrap().as_str().unwrap())
        })
        .collect();
    assert_eq!(names, vec!["b", "a", "c"]);
    assert!(text.ends_with('\n'));
    assert_eq!(text.matches('\n').count(), 3);
}

#[test]
fn run_stops_at_the_first_failure_wherever_it_is() {
    for k in 0..5_usize {
        let mut entries = Vec::new();
        for i in 0..5_usize {
            let name = format!("file{}", i);
            if i == k {
                entries.push(missing(&name));
            } else {
                entries.push(found(&name, 1));
            }
        }
        let (text, verdict) = run(entries);
        assert_eq!(text.matches('\n').count(), k);
        assert_eq!(text.lines().count(), k);
        assert_eq!(
            verdict,
            Err(StatError::Query {
                path: format!("file{}", k),
                reason: String::from("No such file or directory (os error 2)"),
            })
        );
    }
}

#[test]
fn run_reports_the_first_of_two_failures() {
    let (text, verdict) =
        run(vec![found("a", 1), Err(String::from("broken pipe")), missing("b"), found("c", 1)]);
    assert_eq!(text.lines().count(), 1);
    assert_eq!(verdict, Err(StatError::Read { reason: String::from("broken pipe") }));
}

#[test]
fn run_fails_on_a_line_that_could_not_be_read() {
    let (text, verdict) = run(vec![Err(String::from("stream did not contain valid UTF-8"))]);
    assert_eq!(text, "");
    assert_eq!(
        verdict,
        Err(StatError::Read { reason: String::from("stream did not contain valid UTF-8") })
    );
}

#[test]
fn run_fails_on_a_file_without_modification_time() {
    let entry = Ok(Lookup {
        name: String::from("a"),
        query: Ok(Metadata { modified: None, ..file(1, 1) }),
    });
    let (text, verdict) = run(vec![found("x", 1), entry, found("y", 1)]);
    assert_eq!(text.lines().count(), 1);
    assert_eq!(verdict, Err(StatError::NoModifiedTime { path: String::from("a") }));
}

#[test]
fn run_fails_on_a_time_that_cannot_be_written() {
    let entry = Ok(Lookup { name: String::from("a"), query: Ok(file(1, 253402300800)) });
    let (text, verdict) = run(vec![entry, found("y", 1)]);
    assert_eq!(text, "");
    assert_eq!(
        verdict,
        Err(StatError::TimeFormat {
            path: String::from("a"),
            modified: stamp(253402300800, 0),
        })
    );
}

#[test]
fn run_fails_on_an_empty_line() {
    let (text, verdict) = run(vec![found("", 1)]);
    assert_eq!(text, "");
    assert_eq!(verdict, Err(StatError::InvalidPath));
}

#[test]
fn run_twice_over_the_same_input_writes_the_same_bytes() {
    let entries = || vec![found("./README.md", 1024), found("dir/", 4096), missing("gone")];
    let (first_text, first_verdict) = run(entries());
    let (second_text, second_verdict) = run(entries());
    assert_eq!(first_text.as_bytes(), second_text.as_bytes());
    assert_eq!(first_verdict, second_verdict);
}

#[test]
fn run_line_by_line_writes_what_one_run_writes() {
    let entries = || vec![found("a", 1), found("b", 2), missing("c"), found("d", 4)];
    let (whole, verdict) = run(entries());
    let mut writer = stat2writer_new(String::new());
    let mut stepwise = Ok(());
    for entry in entries() {
        stepwise = filenames2stats2writer(vec![entry], &mut writer);
        if stepwise.is_err() {
            break;
        }
    }
    assert_eq!(writer.into_inner(), whole);
    assert_eq!(stepwise, verdict);
}

#[test]
fn run_keeps_a_name_with_a_line_feed_on_one_line() {
    let (text, verdict) = run(vec![found("two\nlines", 1), found("./trailing/", 1)]);
    assert_eq!(verdict, Ok(()));
    assert_eq!(text.matches('\n').count(), 2);
    let mut lines = text.lines();
    let first: serde_json::Value = serde_json::from_str(lines.next().unwrap()).unwrap();
    let second: serde_json::Value = serde_json::from_str(lines.next().unwrap()).unwrap();
    assert_eq!(first.get("name").unwrap().as_str(), Some("two\nlines"));
    assert_eq!(second.get("name").unwrap().as_str(), Some("./trailing/"));
}

#[test]
fn run_writes_a_directory_with_its_type_and_a_size() {
    let dir = Metadata {
        len: 4096,
        permissions: PermissionsProbe { mode: Some(0o40755), readonly: false },
        modified: Some(stamp(0, 0)),
        file_type: FileTypeProbe {
            is_dir: true,
            is_file: false,
            is_symlink: false,
            is_block_device: false,
            is_char_device: false,
            is_fifo: false,
            is_socket: false,
        },
    };
    let (text, verdict) = run(vec![Ok(Lookup { name: String::from("/tmp"), query: Ok(dir) })]);
    assert_eq!(verdict, Ok(()));
    let value: serde_json::Value = serde_json::from_str(text.trim_end()).unwrap();
    assert_eq!(value.get("file_type").unwrap().as_str(), Some("Directory"));
    assert!(value.get("size").unwrap().is_u64());
}
