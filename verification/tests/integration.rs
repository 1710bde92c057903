use sub::job::Input;
use sub::job::Sub;

fn run_to_string(
    pattern: &str,
    replacement: &str,
    ignore_case: bool,
    whole_word: bool,
    line_match: Option<&str>,
    input: &str,
) -> String {
    let job = Sub::init(
        pattern.to_string(),
        replacement.to_string(),
        false,
        whole_word,
        ignore_case,
        line_match.map(|p| p.to_string()),
        vec![Input::StdIn],
    );
    let engine = job.plan().expect("patterns must compile");
    engine.process_text(input)
}

fn expect_output(pattern: &str, replacement: &str, ignore_case: bool, input: &str, output: &str) {
    assert_eq!(
        run_to_string(pattern, replacement, ignore_case, false, None, input),
        output
    );
}

#[test]
fn basic_replacement() {
    expect_output("foo", "bar", false, "foo dummy foo\n", "bar dummy bar\n");
}

#[test]
fn no_trailing_newline() {
    expect_output("foo", "bar", false, "foo dummy foo\nfoo", "bar dummy bar\nbar");
}

#[test]
fn windows_newline() {
    expect_output(
        "foo",
        "bar",
        false,
        "foo dummy foo\r\nfoo\r\n",
        "bar dummy bar\r\nbar\r\n",
    );
}

#[test]
fn case_insensitive_replacement() {
    expect_output(
        "Foo",
        "bar",
        true,
        "foo dummy foo\r\nfoo\r\n",
        "bar dummy bar\r\nbar\r\n",
    );
}

#[test]
fn regex_replacement() {
    expect_output("\\w+", "x", true, "foo dummy foo\r\nfoo\r\n", "x x x\r\nx\r\n");
}

#[test]
fn whole_word_prevents_substring_match() {
    assert_eq!(
        run_to_string("foo", "bar", false, true, None, "foobar foo\n"),
        "foobar bar\n"
    );
}

#[test]
fn whole_word_composes_with_ignore_case() {
    assert_eq!(
        run_to_string("Foo", "bar", true, true, None, "foo foobar Foo\n"),
        "bar foobar bar\n"
    );
}

#[test]
fn ignore_case_keeps_replacement_case() {
    assert_eq!(
        run_to_string("foo", "BaR", true, false, None, "FOO and foo\n"),
        "BaR and BaR\n"
    );
}

#[test]
fn line_filter_gates_substitution() {
    assert_eq!(
        run_to_string("foo", "bar", false, false, Some("keep"), "foo keep\nfoo drop\n"),
        "bar keep\nfoo drop\n"
    );
}

#[test]
fn line_filter_match_with_zero_occurrences() {
    assert_eq!(
        run_to_string("zzz", "bar", false, false, Some("keep"), "keep this\n"),
        "keep this\n"
    );
}

#[test]
fn capture_group_backreference() {
    assert_eq!(
        run_to_string("(f)oo", "${1}x", false, false, None, "foo\n"),
        "fx\n"
    );
}

#[test]
fn empty_input_stays_empty() {
    assert_eq!(run_to_string("foo", "bar", false, false, None, ""), "");
}

#[test]
fn crlf_terminator_kept_with_filter_rejection() {
    assert_eq!(
        run_to_string("foo", "bar", false, false, Some("keep"), "foo one\r\nfoo keep\r\n"),
        "foo one\r\nbar keep\r\n"
    );
}

#[test]
fn per_line_processing_keeps_terminator() {
    let job = Sub::init(
        "foo".to_string(),
        "bar".to_string(),
        false,
        false,
        false,
        None,
        vec![Input::StdIn],
    );
    let engine = job.plan().unwrap();
    assert_eq!(engine.process_line("foo\r\n"), "bar\r\n");
    assert_eq!(engine.process_line("foo\n"), "bar\n");
    assert_eq!(engine.process_line("foo"), "bar");
}
