use map_stop_api::csv_import::{scan_avoid_points_csv, RowNumbers, ScanItem};
use map_stop_api::error::ErrorStatus;
use map_stop_api::routes::system_points::{
    accept_upload_field, assemble_system, system_point_not_found, EnabledBody, SystemImport,
};

fn number_bits(text: &str) -> Option<u64> {
    text.parse::<f64>().ok().map(f64::to_bits)
}

fn import(bytes: &[u8]) -> SystemImport {
    let scan = scan_avoid_points_csv(bytes).unwrap();
    let nums: Vec<RowNumbers> = scan
        .items
        .iter()
        .map(|it| match it {
            ScanItem::Candidate(c) => RowNumbers {
                lat: number_bits(&c.lat_text),
                lon: number_bits(&c.lon_text),
                radius: c.radius_text.as_deref().and_then(number_bits),
            },
            _ => RowNumbers { lat: None, lon: None, radius: None },
        })
        .collect();
    assemble_system(scan, &nums)
}

#[test]
fn system_import_messages_carry_line_numbers() {
    let csv = "\u{feff}名称,纬度,经度,半径米,备注\n甲,30,120,,\n,,,\n乙,x,120,80,\n丙,30,y,80,\n丁,95,120,80,\n戊,30,120,abc,注\n己,30,120,90,注\n";
    let out = import(csv.as_bytes());
    assert_eq!(
        out.errors,
        vec![
            "第4行: 纬度无效".to_string(),
            "第5行: 经度无效".to_string(),
            "第6行: 经纬度超出范围".to_string(),
            "第7行: 半径无效".to_string(),
        ]
    );
    assert_eq!(out.rows.len(), 2);
    assert_eq!(out.rows[0].name, "甲");
    assert_eq!(f64::from_bits(out.rows[0].radius_m), 80.0);
    assert_eq!(out.rows[1].name, "己");
    assert_eq!(f64::from_bits(out.rows[1].radius_m), 90.0);
    assert_eq!(out.rows[1].note.as_deref(), Some("注"));
}

#[test]
fn system_import_reads_like_a_user_upload() {
    let out = import("NAME,Latitude,LNG\nA,1,2\n".as_bytes());
    assert_eq!(out.rows.len(), 1);
    assert!(out.errors.is_empty());
    let err = scan_avoid_points_csv("title,lat,lon\nA,1,2\n".as_bytes()).unwrap_err();
    assert_eq!(err.status, ErrorStatus::BadRequest);
    assert_eq!(err.message, "缺少列：名称（或 name）");
}

#[test]
fn system_import_fields_are_trimmed_and_big_lines_numbered() {
    let mut csv = String::from("name,lat,lon\n");
    for _ in 0..11 {
        csv.push_str(" A , 30 , 120 \n");
    }
    csv.push_str(",1,2\n");
    csv.push_str("B,1000,1\n");
    let out = import(csv.as_bytes());
    assert_eq!(out.rows.len(), 11);
    assert_eq!(out.rows[0].name, "A");
    assert_eq!(
        out.errors,
        vec!["第13行: 名称为空".to_string(), "第14行: 经纬度超出范围".to_string()]
    );
}

#[test]
fn upload_field_choice() {
    assert!(accept_upload_field("file", true));
    assert!(accept_upload_field("csv", true));
    assert!(accept_upload_field("other", false));
    assert!(!accept_upload_field("other", true));
}

#[test]
fn system_point_messages() {
    let e = system_point_not_found();
    assert_eq!(e.status, ErrorStatus::NotFound);
    assert_eq!(e.message, "系统点不存在");
    let b = EnabledBody { enabled: false };
    assert!(!b.enabled);
}
