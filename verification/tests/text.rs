use triangle_gl::command::{Reply, NO_OBJECT};
use triangle_gl::text::{log_buffer, log_capacity, whitespace, BLANK};

#[test]
fn blank_is_a_space() {
    assert_eq!(BLANK, b' ');
}

#[test]
fn whitespace_is_blanks_only() {
    assert_eq!(whitespace(0), Vec::<u8>::new());
    assert_eq!(whitespace(1), vec![b' ']);
    assert_eq!(whitespace(5), b"     ".to_vec());
    assert_eq!(whitespace(4096), vec![b' '; 4096]);
}

#[test]
fn log_capacity_is_the_reported_length_or_nothing() {
    assert_eq!(log_capacity(0), 0);
    assert_eq!(log_capacity(1), 1);
    assert_eq!(log_capacity(512), 512);
    assert_eq!(log_capacity(i32::MAX), i32::MAX);
    assert_eq!(log_capacity(-1), 0);
    assert_eq!(log_capacity(i32::MIN), 0);
}

#[test]
fn log_buffer_has_the_capacity_asked_for() {
    assert_eq!(log_buffer(3), b"   ".to_vec());
    assert_eq!(log_buffer(0), Vec::<u8>::new());
    assert_eq!(log_buffer(-3), Vec::<u8>::new());
    assert_eq!(log_buffer(100).len(), log_capacity(100) as usize);
}

#[test]
fn reply_reads_as_what_it_carries() {
    assert_eq!(Reply::Name(7).name(), 7);
    assert_eq!(Reply::Value(-3).value_or(1), -3);
    assert_eq!(Reply::Value(0).value_or(1), 0);
    assert_eq!(Reply::Text(vec![1, 2, 3]).text_over(vec![b' '; 3]), vec![1, 2, 3]);
}

#[test]
fn reply_reads_as_the_preset_where_it_carries_nothing() {
    assert_eq!(NO_OBJECT, 0);
    assert_eq!(Reply::Done.name(), NO_OBJECT);
    assert_eq!(Reply::Value(5).name(), NO_OBJECT);
    assert_eq!(Reply::Text(vec![9]).name(), NO_OBJECT);
    assert_eq!(Reply::Done.value_or(1), 1);
    assert_eq!(Reply::Name(5).value_or(0), 0);
    assert_eq!(Reply::Text(vec![9]).value_or(-4), -4);
    assert_eq!(Reply::Done.text_over(vec![b' '; 2]), vec![b' '; 2]);
    assert_eq!(Reply::Name(5).text_over(Vec::new()), Vec::<u8>::new());
    assert_eq!(Reply::Value(5).text_over(vec![7]), vec![7]);
}

#[test]
fn written_bytes_lie_over_the_start_of_the_buffer() {
    assert_eq!(Reply::Text(b"ab".to_vec()).text_over(b"     ".to_vec()), b"ab   ".to_vec());
    assert_eq!(Reply::Text(Vec::new()).text_over(b"   ".to_vec()), b"   ".to_vec());
}

#[test]
fn written_bytes_are_cut_at_the_end_of_the_buffer() {
    assert_eq!(Reply::Text(b"abcdef".to_vec()).text_over(b"   ".to_vec()), b"abc".to_vec());
    assert_eq!(Reply::Text(b"abc".to_vec()).text_over(Vec::new()), Vec::<u8>::new());
}
