use rrrestic::lines::last_line;
use rrrestic::lines::split_lines;

#[test]
fn splits_simple_lines() {
    let r = split_lines(b"a\nb");
    assert_eq!(r, vec![b"a".to_vec(), b"b".to_vec()]);
}

#[test]
fn trailing_newline_opens_no_empty_line() {
    let r = split_lines(b"a\nb\n");
    assert_eq!(r, vec![b"a".to_vec(), b"b".to_vec()]);
}

#[test]
fn carriage_return_before_line_feed_is_dropped() {
    let r = split_lines(b"a\r\nb\r\n");
    assert_eq!(r, vec![b"a".to_vec(), b"b".to_vec()]);
}

#[test]
fn bare_carriage_return_stays_in_the_line() {
    let r = split_lines(b"a\rb");
    assert_eq!(r, vec![b"a\rb".to_vec()]);
}

#[test]
fn empty_input_has_no_lines() {
    assert_eq!(split_lines(b""), Vec::<Vec<u8>>::new());
    assert_eq!(last_line(b""), None);
}

#[test]
fn single_newline_is_one_empty_line() {
    assert_eq!(split_lines(b"\n"), vec![b"".to_vec()]);
    assert_eq!(last_line(b"\n"), Some(b"".to_vec()));
}

#[test]
fn last_line_takes_the_final_record() {
    assert_eq!(last_line(b"one\ntwo\nthree"), Some(b"three".to_vec()));
    assert_eq!(last_line(b"one\ntwo\nthree\n"), Some(b"three".to_vec()));
    assert_eq!(last_line(b"only"), Some(b"only".to_vec()));
}
