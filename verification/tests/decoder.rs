use river_status::tags::{decode_tags, split_view_tags, word_from_le};
use river_status::text::{render_tags, render_view_tags, orphan_message};
use river_status::parse::parse_monitor_index;

#[test]
fn decode_zero_is_empty() {
    assert_eq!(decode_tags(0), Vec::<u32>::new());
}

#[test]
fn decode_single_bits() {
    assert_eq!(decode_tags(1), vec![1]);
    assert_eq!(decode_tags(2), vec![2]);
    assert_eq!(decode_tags(1u32 << 31), vec![32]);
}

#[test]
fn decode_small_masks() {
    assert_eq!(decode_tags(3), vec![1, 2]);
    assert_eq!(decode_tags(5), vec![1, 3]);
}

#[test]
fn decode_is_ascending_positive_and_sums_back() {
    for &m in &[0u32, 1, 2, 3, 5, 6, 0b1010110, 0x8000_0001, 0xFFFF_FFFF, 0xDEAD_BEEF] {
        let tags = decode_tags(m);
        assert_eq!(tags.len() as u32, m.count_ones());
        let mut sum: u64 = 0;
        for w in tags.windows(2) {
            assert!(w[0] < w[1]);
        }
        for &t in &tags {
            assert!(1 <= t && t <= 32);
            sum += 1u64 << (t - 1);
        }
        assert_eq!(sum, m as u64);
    }
}

#[test]
fn decode_all_bits() {
    let tags = decode_tags(u32::MAX);
    let expected: Vec<u32> = (1..=32).collect();
    assert_eq!(tags, expected);
}

#[test]
fn word_from_le_reads_little_endian() {
    assert_eq!(word_from_le(1, 0, 0, 0), 1);
    assert_eq!(word_from_le(0, 1, 0, 0), 256);
    assert_eq!(word_from_le(0x78, 0x56, 0x34, 0x12), 0x12345678);
    assert_eq!(word_from_le(0xFF, 0xFF, 0xFF, 0xFF), u32::MAX);
}

#[test]
fn split_groups_match_single_mask_path() {
    let payload: Vec<u8> = vec![1, 0, 0, 0, 4, 0, 0, 0, 0xFF, 0xFF, 0xFF, 0xFF];
    let masks = split_view_tags(&payload);
    assert_eq!(masks, vec![1, 4, u32::MAX]);
    for (k, &m) in masks.iter().enumerate() {
        let direct = word_from_le(
            payload[4 * k],
            payload[4 * k + 1],
            payload[4 * k + 2],
            payload[4 * k + 3],
        );
        assert_eq!(decode_tags(m), decode_tags(direct));
    }
}

#[test]
fn split_empty_payload() {
    let payload: Vec<u8> = vec![];
    assert_eq!(split_view_tags(&payload), Vec::<u32>::new());
}

#[test]
fn render_tags_lines() {
    assert_eq!(render_tags(5), "1 3 ");
    assert_eq!(render_tags(0), "");
    assert_eq!(render_tags(1u32 << 31), "32 ");
    assert_eq!(render_tags(3), "1 2 ");
}

#[test]
fn render_view_tags_concatenates_groups() {
    let payload: Vec<u8> = vec![1, 0, 0, 0, 4, 0, 0, 0];
    assert_eq!(render_view_tags(&payload), "1 3 ");
    let empty: Vec<u8> = vec![];
    assert_eq!(render_view_tags(&empty), "");
}

#[test]
fn orphan_message_reports_all_identifiers() {
    let m = orphan_message(&String::from("wl_seat"), 7, &String::from("name"));
    assert_eq!(m, "Encountered an orphan event: wl_seat@7: name");
}

#[test]
fn parse_monitor_index_accepts_numerals() {
    assert_eq!(parse_monitor_index(&String::from("0")), Some(0));
    assert_eq!(parse_monitor_index(&String::from("17")), Some(17));
    assert_eq!(
        parse_monitor_index(&format!("{}", usize::MAX)),
        Some(usize::MAX)
    );
}

#[test]
fn parse_monitor_index_falls_back_on_anything_else() {
    assert_eq!(parse_monitor_index(&String::new()), None);
    assert_eq!(parse_monitor_index(&String::from("abc")), None);
    assert_eq!(parse_monitor_index(&String::from("-1")), None);
    assert_eq!(parse_monitor_index(&String::from("3x")), None);
    assert_eq!(parse_monitor_index(&String::from("1 ")), None);
    assert_eq!(
        parse_monitor_index(&String::from("999999999999999999999999999999")),
        None
    );
}
