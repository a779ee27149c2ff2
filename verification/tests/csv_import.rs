use map_stop_api::csv_import::{
    assemble, ensure_csv_size, scan_avoid_points_csv, strip_utf8_bom, ParseOutcome, RowNumbers,
    ScanItem, MAX_CSV_BYTES,
};
use map_stop_api::error::ErrorStatus;

fn number_bits(text: &str) -> Option<u64> {
    text.parse::<f64>().ok().map(f64::to_bits)
}

/// Reads the number texts of every candidate, as the server does, and
/// gathers the outcome.
fn parse_avoid_points_csv(bytes: &[u8]) -> ParseOutcome {
    let scan = scan_avoid_points_csv(bytes).unwrap();
    let nums: Vec<RowNumbers> = scan
        .items
        .iter()
        .map(|it| match it {
            ScanItem::Candidate(c) => RowNumbers {
                lat: number_bits(&c.lat_text),
                lon: number_bits(&c.lon_text),
                radius: c.radius_text.as_deref().and_then(number_bits),
            },
            _ => RowNumbers { lat: None, lon: None, radius: None },
        })
        .collect();
    assemble(scan, &nums)
}

#[test]
fn parses_chinese_headers_and_skips_blank() {
    let csv = "\u{feff}名称,纬度,经度,半径米,备注\n好点,30.25,120.15,80,注\n,,,\n坏点,999,120.15,80,\n";
    let out = parse_avoid_points_csv(csv.as_bytes());
    assert_eq!(out.rows.len(), 1);
    assert_eq!(out.rows[0].name, "好点");
    assert_eq!(out.errors.len(), 1);
    assert_eq!(out.errors[0].line, 4);
}

#[test]
fn accepts_english_aliases() {
    let csv = "name,lat,lng,radius_m,note\nA,30.1,120.1,50,\n";
    let out = parse_avoid_points_csv(csv.as_bytes());
    assert_eq!(out.rows.len(), 1);
    assert!((f64::from_bits(out.rows[0].lon) - 120.1).abs() < 1e-9);
}

#[test]
fn csv_size_limit_is_two_mebibytes() {
    assert_eq!(MAX_CSV_BYTES, 2 * 1024 * 1024);
    assert!(ensure_csv_size(&vec![b'a'; MAX_CSV_BYTES]).is_ok());
    let err = ensure_csv_size(&vec![b'a'; MAX_CSV_BYTES + 1]).unwrap_err();
    assert_eq!(err.status, ErrorStatus::BadRequest);
    assert_eq!(err.message, "CSV 文件过大（最大 2048 KB）");
}

#[test]
fn strips_one_bom_only() {
    assert_eq!(strip_utf8_bom("\u{feff}名称"), "名称");
    assert_eq!(strip_utf8_bom("\u{feff}\u{feff}x"), "\u{feff}x");
    assert_eq!(strip_utf8_bom("plain"), "plain");
}

#[test]
fn missing_columns_are_refused_in_order() {
    let err = scan_avoid_points_csv("lat,lon\n1,2\n".as_bytes()).unwrap_err();
    assert_eq!(err.status, ErrorStatus::BadRequest);
    assert_eq!(err.message, "缺少列：名称（或 name）");
    let err = scan_avoid_points_csv("name,lon\nA,2\n".as_bytes()).unwrap_err();
    assert_eq!(err.message, "缺少列：纬度（或 lat）");
    let err = scan_avoid_points_csv("name,latitude\nA,2\n".as_bytes()).unwrap_err();
    assert_eq!(err.message, "缺少列：经度（或 lon/lng）");
    let err = scan_avoid_points_csv("".as_bytes()).unwrap_err();
    assert_eq!(err.message, "缺少列：名称（或 name）");
}

#[test]
fn header_matching_ignores_case_whitespace_and_marks() {
    let csv = " NAME , Latitude,\u{feff}LNG\nA,30,120\n";
    let out = parse_avoid_points_csv(csv.as_bytes());
    assert_eq!(out.rows.len(), 1);
    assert_eq!(out.rows[0].name, "A");
    assert_eq!(f64::from_bits(out.rows[0].lat), 30.0);
    assert_eq!(f64::from_bits(out.rows[0].lon), 120.0);
}

#[test]
fn each_record_error_has_its_message_and_line() {
    let csv = "name,lat,lon,radius,note\n\
               ,1,2,3,x\n\
               B,abc,2,3,\n\
               C,1,abc,3,\n\
               D,1,2,abc,\n\
               E,91,2,3,\n\
               F,1,181,3,\n\
               G,1,2,0,\n\
               H,1,2,50001,\n\
               I,1,2,-5,\n";
    let out = parse_avoid_points_csv(csv.as_bytes());
    assert_eq!(out.rows.len(), 0);
    let got: Vec<(usize, &str)> = out.errors.iter().map(|e| (e.line, e.message.as_str())).collect();
    assert_eq!(
        got,
        vec![
            (2, "名称为空"),
            (3, "纬度无效"),
            (4, "经度无效"),
            (5, "半径无效"),
            (6, "经纬度超出范围"),
            (7, "经纬度超出范围"),
            (8, "半径必须大于 0 且不超过 50000 米"),
            (9, "半径必须大于 0 且不超过 50000 米"),
            (10, "半径必须大于 0 且不超过 50000 米"),
        ]
    );
}

#[test]
fn radius_defaults_to_eighty_and_note_is_kept_when_present() {
    let csv = "名称,纬度,经度,半径米,备注\nA,30,120,,  \nB,-90,180,50000, 备注 \n";
    let out = parse_avoid_points_csv(csv.as_bytes());
    assert_eq!(out.errors.len(), 0);
    assert_eq!(out.rows.len(), 2);
    assert_eq!(f64::from_bits(out.rows[0].radius_m), 80.0);
    assert_eq!(out.rows[0].note, None);
    assert_eq!(out.rows[0].line, 2);
    assert_eq!(f64::from_bits(out.rows[1].radius_m), 50000.0);
    assert_eq!(out.rows[1].note.as_deref(), Some("备注"));
    assert_eq!(out.rows[1].line, 3);
}

#[test]
fn short_records_read_missing_fields_as_empty() {
    let csv = "name,lat,lon,radius\nA,30\nB\n";
    let out = parse_avoid_points_csv(csv.as_bytes());
    let got: Vec<(usize, &str)> = out.errors.iter().map(|e| (e.line, e.message.as_str())).collect();
    assert_eq!(got, vec![(2, "经度无效"), (3, "纬度无效")]);
}

#[test]
fn invalid_utf8_is_replaced_not_refused() {
    let mut bytes = b"name,lat,lon\n".to_vec();
    bytes.extend_from_slice(&[b'X', 0xff, b',', b'1', b',', b'2', b'\n']);
    let out = parse_avoid_points_csv(&bytes);
    assert_eq!(out.rows.len(), 1);
    assert_eq!(out.rows[0].name, "X\u{fffd}");
}

#[test]
fn scan_keeps_number_texts_for_the_caller() {
    let scan = scan_avoid_points_csv("name,lat,lon,radius\nA, 30.5 ,120,\n\n,,,\n".as_bytes()).unwrap();
    assert_eq!(scan.items.len(), 2);
    match &scan.items[0] {
        ScanItem::Candidate(c) => {
            assert_eq!(c.line, 2);
            assert_eq!(c.name, "A");
            assert_eq!(c.lat_text, "30.5");
            assert_eq!(c.lon_text, "120");
            assert_eq!(c.radius_text, None);
        }
        other => panic!("unexpected {:?}", other),
    }
    assert!(matches!(scan.items[1], ScanItem::Skip));
}

#[test]
fn every_record_is_a_row_an_error_or_blank() {
    let csv = "name,lat,lon\nA,1,2\n,,\nB,x,2\n  ,  ,  \nC,3,4\n,1,2\n";
    let scan = scan_avoid_points_csv(csv.as_bytes()).unwrap();
    let records = scan.items.len();
    let blanks = scan.items.iter().filter(|it| matches!(it, ScanItem::Skip)).count();
    assert_eq!((records, blanks), (6, 2));
    let out = parse_avoid_points_csv(csv.as_bytes());
    assert_eq!(out.rows.len() + out.errors.len() + blanks, records);
    let row_lines: Vec<usize> = out.rows.iter().map(|r| r.line).collect();
    let error_lines: Vec<usize> = out.errors.iter().map(|e| e.line).collect();
    assert_eq!(row_lines, vec![2, 6]);
    assert_eq!(error_lines, vec![4, 7]);
}

#[test]
fn a_leading_byte_order_mark_changes_nothing() {
    let body: &[u8] = b"name,lat,lon\nA,1,2\n\xffB,x,3\n";
    let mut with_bom = vec![0xEF, 0xBB, 0xBF];
    with_bom.extend_from_slice(body);
    let a = parse_avoid_points_csv(body);
    let b = parse_avoid_points_csv(&with_bom);
    assert_eq!(a.rows.len(), b.rows.len());
    assert_eq!(a.rows[0].name, b.rows[0].name);
    let ea: Vec<(usize, String)> = a.errors.iter().map(|e| (e.line, e.message.clone())).collect();
    let eb: Vec<(usize, String)> = b.errors.iter().map(|e| (e.line, e.message.clone())).collect();
    assert_eq!(ea, eb);
    assert_eq!(ea, vec![(3, "纬度无效".to_string())]);
}
