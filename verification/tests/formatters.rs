use rtbox::cli::Output;
use rtbox::engine::{RtBox, RtBoxExecOutput};
use rtbox::error::RtBoxError;
use rtbox::formatters::{HumanFormatter, JsonFormatter, OutputFormatter};
use rtbox::text::{i64_string, u64_string};

fn record(id: &str, name: &str, status: &str, image: &str) -> RtBox {
    RtBox {
        id: id.to_string(),
        name: name.to_string(),
        image: image.to_string(),
        status: status.to_string(),
    }
}

#[test]
fn decimal_rendering() {
    assert_eq!(u64_string(0), "0");
    assert_eq!(u64_string(12345), "12345");
    assert_eq!(u64_string(u64::MAX), "18446744073709551615");
    assert_eq!(i64_string(-42), "-42");
    assert_eq!(i64_string(7), "7");
    assert_eq!(i64_string(i64::MIN), "-9223372036854775808");
}

#[test]
fn human_create_notice() {
    let out = Output::Create(record("abc", "dev", "created", "fedora-toolbox:38"));
    let text = HumanFormatter {}.format(&out).expect("create has a human rendering");
    assert_eq!(
        text,
        "Successfully created 'dev' using image fedora-toolbox:38. \
         To enter please run:\n> rtbox enter dev"
    );
}

#[test]
fn human_listing_pads_and_truncates_like_a_table() {
    let long_id = "0123456789abcdef";
    let out = Output::List(vec![
        record(long_id, "dev", "running", "fedora-toolbox:38"),
        record("short", "two", "exited", "img"),
    ]);
    let text = HumanFormatter {}.format(&out).expect("listing has a human rendering");
    let expected_header = format!("{:<12} | {:<20} | {:<20} | {}\n", "ID", "NAME", "STATUS", "IMAGE");
    let row1 = format!(
        "{:<12} | {:<20} | {:<20} | {}",
        "0123456789ab", "dev", "running", "fedora-toolbox:38"
    );
    let row2 = format!("{:<12} | {:<20} | {:<20} | {}", "short", "two", "exited", "img");
    assert_eq!(text, format!("{}{}\n{}", expected_header, row1, row2));
}

#[test]
fn human_listing_of_nothing_is_just_the_header() {
    let out = Output::List(vec![]);
    let text = HumanFormatter {}.format(&out).expect("listing has a human rendering");
    assert_eq!(text, format!("{:<12} | {:<20} | {:<20} | {}\n", "ID", "NAME", "STATUS", "IMAGE"));
}

#[test]
fn human_error_is_debug_shaped() {
    let out = Output::Error(RtBoxError {
        command: Some("create".to_string()),
        message: None,
        root_cause: Some("line one\nline \"two\"".to_string()),
    });
    let text = HumanFormatter {}.format(&out).expect("errors have a human rendering");
    assert_eq!(
        text,
        "RtBoxError { command: Some(\"create\"), message: None, \
         root_cause: Some(\"line one\\nline \\\"two\\\"\") }"
    );
}

#[test]
fn human_formatter_is_silent_for_run_and_rm() {
    let run = Output::Run(RtBoxExecOutput { stdout: vec![], stderr: vec![], return_code: 0 });
    assert!(HumanFormatter {}.format(&run).is_none());
    assert!(HumanFormatter {}.format(&Output::Rm(())).is_none());
}

#[test]
fn json_error_object() {
    let e = RtBoxError {
        command: Some("create".to_string()),
        message: None,
        root_cause: Some("boom".to_string()),
    };
    assert_eq!(
        e.to_text(),
        "{\"command\":\"create\",\"message\":null,\"root_cause\":\"boom\"}"
    );
}

#[test]
fn json_escapes_special_characters() {
    let e = RtBoxError {
        command: Some("a\"b\\c\nd".to_string()),
        message: Some("\u{1}".to_string()),
        root_cause: None,
    };
    assert_eq!(
        e.to_text(),
        "{\"command\":\"a\\\"b\\\\c\\nd\",\"message\":\"\\u0001\",\"root_cause\":null}"
    );
}

#[test]
fn json_output_is_variant_tagged() {
    let create = Output::Create(record("abc", "dev", "created", "img"));
    assert_eq!(
        JsonFormatter {}.format(&create).expect("json renders everything"),
        "{\"Create\":{\"id\":\"abc\",\"name\":\"dev\",\"image\":\"img\",\"status\":\"created\"}}"
    );
    let empty = Output::List(vec![]);
    assert_eq!(
        JsonFormatter {}.format(&empty).expect("json renders everything"),
        "{\"List\":[]}"
    );
    let list = Output::List(vec![record("a", "one", "running", "i1"), record("b", "two", "exited", "i2")]);
    assert_eq!(
        JsonFormatter {}.format(&list).expect("json renders everything"),
        "{\"List\":[{\"id\":\"a\",\"name\":\"one\",\"image\":\"i1\",\"status\":\"running\"},\
         {\"id\":\"b\",\"name\":\"two\",\"image\":\"i2\",\"status\":\"exited\"}]}"
    );
    assert_eq!(
        JsonFormatter {}.format(&Output::Rm(())).expect("json renders everything"),
        "{\"Rm\":null}"
    );
}

#[test]
fn json_exec_output_renders_characters_and_code() {
    let run = Output::Run(RtBoxExecOutput {
        stdout: vec!['h', 'i'],
        stderr: vec!['\u{0}'],
        return_code: 3,
    });
    assert_eq!(
        JsonFormatter {}.format(&run).expect("json renders everything"),
        "{\"Run\":{\"stdout\":[\"h\",\"i\"],\"stderr\":[\"\\u0000\"],\"return_code\":3}}"
    );
}
