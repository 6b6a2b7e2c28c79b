use rustfs_launcher::capture::capture_lines;
use rustfs_launcher::capture::format_captured_line;
use rustfs_launcher::capture::StreamSource;

#[test]
fn lines_are_tagged_with_their_stream() {
    assert_eq!(
        format_captured_line(StreamSource::Stdout, "ready"),
        Some(String::from("[STDOUT] ready"))
    );
    assert_eq!(
        format_captured_line(StreamSource::Stderr, "oops"),
        Some(String::from("[STDERR] oops"))
    );
}

#[test]
fn empty_lines_are_skipped() {
    assert_eq!(format_captured_line(StreamSource::Stdout, ""), None);
    assert_eq!(format_captured_line(StreamSource::Stderr, ""), None);
}

#[test]
fn one_stream_keeps_its_order() {
    let lines = vec![
        String::from("first"),
        String::from(""),
        String::from("second"),
        String::from("third"),
        String::from(""),
    ];
    assert_eq!(
        capture_lines(StreamSource::Stdout, &lines),
        vec![
            String::from("[STDOUT] first"),
            String::from("[STDOUT] second"),
            String::from("[STDOUT] third"),
        ]
    );
    assert_eq!(
        capture_lines(StreamSource::Stderr, &lines),
        vec![
            String::from("[STDERR] first"),
            String::from("[STDERR] second"),
            String::from("[STDERR] third"),
        ]
    );
}

#[test]
fn a_stream_of_empty_lines_forwards_nothing() {
    let lines = vec![String::from(""), String::from("")];
    assert_eq!(capture_lines(StreamSource::Stdout, &lines), Vec::<String>::new());
    assert_eq!(capture_lines(StreamSource::Stdout, &Vec::new()), Vec::<String>::new());
}
