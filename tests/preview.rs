use simple_rt::build_packet_string;

#[test]
fn preview_of_31_bytes_shows_24_and_counts_the_rest() {
    let data: Vec<u8> = (0x01u8..=0x1F).collect();
    assert_eq!(data.len(), 31);
    assert_eq!(
        build_packet_string(&data),
        "01 02 03 04  05 06 07 08  09 0A 0B 0C  0D 0E 0F 10  11 12 13 14  15 16 17 18 ... +7 bytes"
    );
}

#[test]
fn preview_of_empty_buffer_is_empty() {
    assert_eq!(build_packet_string(&[]), "");
}

#[test]
fn preview_of_one_byte() {
    assert_eq!(build_packet_string(&[0xAB]), "AB");
}

#[test]
fn preview_of_exactly_24_bytes_has_no_suffix() {
    let data = [0xFFu8; 24];
    let s = build_packet_string(&data);
    assert!(!s.contains("..."));
    assert_eq!(s.len(), 24 * 2 + 23 + 5);
}

#[test]
fn preview_of_25_bytes_counts_one() {
    let data = [0x00u8; 25];
    assert!(build_packet_string(&data).ends_with("00 ... +1 bytes"));
}

#[test]
fn preview_of_full_buffer_counts_in_decimal() {
    let data = [0x7Fu8; 4096];
    assert!(build_packet_string(&data).ends_with("7F 7F ... +4072 bytes"));
}

#[test]
fn preview_groups_by_four() {
    assert_eq!(
        build_packet_string(&[0x00, 0x10, 0x9A, 0xFE, 0x0F]),
        "00 10 9A FE  0F"
    );
}
