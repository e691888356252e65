use rust_text_editor::buffer::Buffer;

fn lines(v: &[&str]) -> Vec<String> {
    v.iter().map(|s| s.to_string()).collect()
}

fn buf(v: &[&str]) -> Buffer {
    Buffer::new(lines(v))
}

#[test]
fn line_count_counts_lines() {
    assert_eq!(buf(&["a", "bb", "ccc"]).line_count(), 3);
    assert_eq!(buf(&[]).line_count(), 0);
}

#[test]
fn line_length_in_and_out_of_range() {
    let b = buf(&["abc", "", "de"]);
    assert_eq!(b.line_length(0), 3);
    assert_eq!(b.line_length(1), 0);
    assert_eq!(b.line_length(2), 2);
    assert_eq!(b.line_length(3), 0);
    assert_eq!(b.line_length(u16::MAX), 0);
}

#[test]
fn line_length_counts_characters() {
    let b = buf(&["héllo", "日本"]);
    assert_eq!(b.line_length(0), 5);
    assert_eq!(b.line_length(1), 2);
}

#[test]
fn insert_in_middle_start_and_end() {
    let b = buf(&["abc", "def"]);
    assert_eq!(b.insert('X', 0, 1).lines(), &lines(&["aXbc", "def"]));
    assert_eq!(b.insert('X', 1, 0).lines(), &lines(&["abc", "Xdef"]));
    assert_eq!(b.insert('X', 1, 3).lines(), &lines(&["abc", "defX"]));
    assert_eq!(b.lines(), &lines(&["abc", "def"]));
}

#[test]
fn insert_on_missing_row_is_a_no_op() {
    let b = buf(&["abc"]);
    assert_eq!(b.insert('X', 1, 0).lines(), &lines(&["abc"]));
    assert_eq!(buf(&[]).insert('X', 0, 0).line_count(), 0);
}

#[test]
fn insert_counts_columns_in_characters() {
    let b = buf(&["héllo"]);
    assert_eq!(b.insert('!', 0, 2).lines(), &lines(&["hé!llo"]));
}

#[test]
fn delete_existing_character() {
    let b = buf(&["abc", "def"]);
    assert_eq!(b.delete(0, 0).lines(), &lines(&["bc", "def"]));
    assert_eq!(b.delete(1, 2).lines(), &lines(&["abc", "de"]));
}

#[test]
fn delete_past_end_or_missing_row_is_a_no_op() {
    let b = buf(&["abc"]);
    assert_eq!(b.delete(0, 3).lines(), &lines(&["abc"]));
    assert_eq!(b.delete(0, 9).lines(), &lines(&["abc"]));
    assert_eq!(b.delete(1, 0).lines(), &lines(&["abc"]));
}

#[test]
fn split_line_middle_start_end() {
    let b = buf(&["abc", "def", "ghi"]);
    assert_eq!(b.split_line(1, 1).lines(), &lines(&["abc", "d", "ef", "ghi"]));
    assert_eq!(b.split_line(0, 0).lines(), &lines(&["", "abc", "def", "ghi"]));
    assert_eq!(b.split_line(2, 3).lines(), &lines(&["abc", "def", "ghi", ""]));
}

#[test]
fn insert_then_delete_round_trip() {
    let b = buf(&["abc", "de"]);
    for row in 0..2u16 {
        for col in 0..=b.line_length(row) {
            let back = b.insert('Z', row, col).delete(row, col);
            assert_eq!(back.lines(), b.lines());
        }
    }
}

#[test]
fn split_then_rejoin_gives_original_line() {
    let b = buf(&["hello", "world"]);
    for col in 0..=5u16 {
        let s = b.split_line(0, col);
        assert_eq!(s.line_count(), 3);
        let joined = format!("{}{}", s.lines()[0], s.lines()[1]);
        assert_eq!(joined, "hello");
        assert_eq!(s.lines()[2], "world");
    }
}

#[test]
fn render_ends_each_line_with_crlf() {
    assert_eq!(buf(&["ab", "", "c"]).render(), "ab\r\n\r\nc\r\n");
    assert_eq!(buf(&[]).render(), "");
}

#[test]
fn duplicate_keeps_lines() {
    let b = buf(&["x", "y"]);
    assert_eq!(b.duplicate().lines(), b.lines());
}
