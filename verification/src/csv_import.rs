//! Reading avoid-point CSV uploads: size limit, header aliases, and the
//! record-by-record rules that turn each record into a row, an error, or
//! nothing (blank records).
//!
//! Reading runs in two steps. `scan_avoid_points_csv` decodes the bytes, reads
//! the CSV table and classifies each record; a record that names a point
//! becomes a `RowCandidate` carrying the texts of its numbers. The caller reads
//! those texts as binary64 numbers and hands their bit patterns to `assemble`,
//! which applies the number rules and gathers rows and errors in record order.
use vstd::prelude::*;
use crate::config::opt_view;
use vstd::utf8::{decode_utf8, valid_utf8};
use crate::coord::{coords_in_range, coords_ok, radius_in_range, radius_ok, DEFAULT_RADIUS_BITS};
use crate::error::{AppError, ErrorStatus};
use crate::text::{
    concatenate, decimal, decimal_spec, eq_ignore_ascii_case, is_blank, lower_seq, strip_leading,
    strip_one_prefix, trim, trim_start_matches, trimmed,
};

verus! {

/// Largest accepted CSV upload, in bytes (2 MiB).
pub const MAX_CSV_BYTES: usize = 2 * 1024 * 1024;

/// The message for an upload over the size limit.
pub open spec fn too_large_message() -> Seq<char> {
    "CSV 文件过大（最大 "@ + decimal_spec((MAX_CSV_BYTES / 1024) as nat) + " KB）"@
}

/// Refuses an upload larger than `MAX_CSV_BYTES`.
pub fn ensure_csv_size(bytes: &[u8]) -> (r: Result<(), AppError>)
    ensures
        r is Ok <==> bytes@.len() <= MAX_CSV_BYTES,
        r matches Err(e) ==> e.status == ErrorStatus::BadRequest && e.message@
            == too_large_message(),
{
    if bytes.len() > MAX_CSV_BYTES {
        let kb = decimal(MAX_CSV_BYTES / 1024);
        let head = concatenate("CSV 文件过大（最大 ", kb.as_str());
        let msg = concatenate(head.as_str(), " KB）");
        return Err(AppError::bad_request(msg.as_str()));
    }
    Ok(())
}

/// A record that could not be taken, with its 1-based line (the header is
/// line 1, the first record line 2).
#[derive(Clone, Debug)]
pub struct RowError {
    pub line: usize,
    pub message: String,
}

impl View for RowError {
    type V = (usize, Seq<char>);

    open spec fn view(&self) -> (usize, Seq<char>) {
        (self.line, self.message@)
    }
}

/// A record taken as an avoid point. `lat`, `lon` and `radius_m` are binary64
/// bit patterns (degrees, degrees, metres).
#[derive(Clone, Debug)]
pub struct ParsedRow {
    pub line: usize,
    pub name: String,
    pub lat: u64,
    pub lon: u64,
    pub radius_m: u64,
    pub note: Option<String>,
}

/// The value of a `ParsedRow`.
pub struct ParsedRowView {
    pub line: usize,
    pub name: Seq<char>,
    pub lat: u64,
    pub lon: u64,
    pub radius_m: u64,
    pub note: Option<Seq<char>>,
}

impl View for ParsedRow {
    type V = ParsedRowView;

    open spec fn view(&self) -> ParsedRowView {
        ParsedRowView {
            line: self.line,
            name: self.name@,
            lat: self.lat,
            lon: self.lon,
            radius_m: self.radius_m,
            note: opt_view(self.note),
        }
    }
}

/// Rows taken and records refused, each in record order.
#[derive(Debug)]
pub struct ParseOutcome {
    pub rows: Vec<ParsedRow>,
    pub errors: Vec<RowError>,
}

/// `text` without one leading byte-order mark.
pub open spec fn spec_strip_bom(text: Seq<char>) -> Seq<char> {
    if text.len() > 0 && text[0] == '\u{feff}' {
        text.drop_first()
    } else {
        text
    }
}

/// Drops one leading UTF-8 byte-order mark.
pub fn strip_utf8_bom(text: &str) -> (r: &str)
    ensures
        r@ == spec_strip_bom(text@),
{
    strip_one_prefix(text, '\u{feff}')
}

/// The message for coordinates or a radius out of range, if any.
pub open spec fn coords_message(lat: u64, lon: u64, radius: u64) -> Option<Seq<char>> {
    if !coords_ok(lat, lon) {
        Some("经纬度超出范围"@)
    } else if !radius_ok(radius) {
        Some("半径必须大于 0 且不超过 50000 米"@)
    } else {
        None
    }
}

/// Checks latitude and longitude ranges, then the radius range.
pub fn validate_coords(lat: u64, lon: u64, radius_m: u64) -> (r: Result<(), String>)
    ensures
        r is Ok <==> coords_message(lat, lon, radius_m) is None,
        r matches Err(m) ==> coords_message(lat, lon, radius_m) == Some(m@),
{
    if !coords_in_range(lat, lon) {
        return Err("经纬度超出范围".to_owned());
    }
    if !radius_in_range(radius_m) {
        return Err("半径必须大于 0 且不超过 50000 米".to_owned());
    }
    Ok(())
}

/// The characters of each string.
pub open spec fn strings_view(v: Seq<String>) -> Seq<Seq<char>> {
    v.map_values(|s: String| s@)
}

/// The characters of each string slice.
pub open spec fn strs_view(v: Seq<&str>) -> Seq<Seq<char>> {
    v.map_values(|s: &str| s@)
}

/// Whether every field of a record is blank.
pub open spec fn blank_record(rec: Seq<Seq<char>>) -> bool {
    forall|k: int| 0 <= k < rec.len() ==> trimmed(#[trigger] rec[k]).len() == 0
}

/// Whether every field of a record is blank.
pub fn is_blank_record(rec: &Vec<String>) -> (b: bool)
    ensures
        b == blank_record(strings_view(rec@)),
{
    for k in 0..rec.len()
        invariant
            forall|t: int| 0 <= t < k ==> trimmed(#[trigger] strings_view(rec@)[t]).len() == 0,
    {
        if !is_blank(rec[k].as_str()) {
            assert(strings_view(rec@)[k as int] == rec@[k as int]@);
            assert(trimmed(strings_view(rec@)[k as int]).len() != 0);
            return false;
        }
    }
    true
}

/// A header cell as compared with column names: trimmed, then without
/// leading byte-order marks.
pub open spec fn header_key(h: Seq<char>) -> Seq<char> {
    strip_leading(trimmed(h), '\u{feff}')
}

/// Whether a header cell names one of `names`, ignoring ASCII case.
pub open spec fn header_matches(h: Seq<char>, names: Seq<Seq<char>>) -> bool {
    exists|k: int| 0 <= k < names.len() && lower_seq(header_key(h)) == lower_seq(#[trigger] names[k])
}

/// The first header cell at or after `from` that names one of `names`.
pub open spec fn find_col(headers: Seq<Seq<char>>, names: Seq<Seq<char>>, from: int) -> Option<usize>
    decreases headers.len() - from,
{
    if from < 0 || from >= headers.len() {
        None
    } else if header_matches(headers[from], names) {
        Some(from as usize)
    } else {
        find_col(headers, names, from + 1)
    }
}

fn key_matches(key: &str, names: &[&str]) -> (b: bool)
    ensures
        b == exists|k: int| 0 <= k < names@.len() && lower_seq(key@) == lower_seq(#[trigger] strs_view(names@)[k]),
{
    for k in 0..names.len()
        invariant
            forall|t: int| 0 <= t < k ==> lower_seq(key@) != lower_seq(#[trigger] strs_view(names@)[t]),
    {
        if eq_ignore_ascii_case(key, names[k]) {
            assert(lower_seq(key@) == lower_seq(strs_view(names@)[k as int]));
            return true;
        }
    }
    false
}

/// The index of the first header cell that names one of `names`.
pub fn col_index(headers: &Vec<String>, names: &[&str]) -> (r: Option<usize>)
    ensures
        r == find_col(strings_view(headers@), strs_view(names@), 0),
{
    let ghost hv = strings_view(headers@);
    let ghost nv = strs_view(names@);
    for i in 0..headers.len()
        invariant
            hv == strings_view(headers@),
            nv == strs_view(names@),
            find_col(hv, nv, 0) == find_col(hv, nv, i as int),
    {
        let t = trim(headers[i].as_str());
        let key = trim_start_matches(t, '\u{feff}');
        if key_matches(key, names) {
            assert(header_matches(hv[i as int], nv));
            return Some(i);
        }
        assert(!header_matches(hv[i as int], nv));
    }
    None
}


/// The text that `String::from_utf8_lossy` makes of `bytes`.
pub uninterp spec fn lossy_text(bytes: Seq<u8>) -> Seq<char>;

/// Whether `bytes` starts with EF BB BF, the UTF-8 encoding of U+FEFF.
pub open spec fn starts_with_bom(bytes: Seq<u8>) -> bool {
    bytes.len() >= 3 && bytes[0] == 0xEFu8 && bytes[1] == 0xBBu8 && bytes[2] == 0xBFu8
}

/// `String::from_utf8_lossy`: the bytes decoded as UTF-8 from the front, each
/// invalid sequence replaced by U+FFFD. Claimed: the result is
/// `lossy_text(bytes)`; for valid UTF-8 it is the decoded text; a leading
/// EF BB BF, being a complete character, decodes to U+FEFF and the rest is
/// decoded as it would be alone; and the text starts with U+FEFF only when the
/// bytes start with its encoding (a replacement is U+FFFD).
#[verifier::external_body]
pub(crate) fn decode_lossy(bytes: &[u8]) -> (s: String)
    ensures
        s@ == lossy_text(bytes@),
        valid_utf8(bytes@) ==> s@ == decode_utf8(bytes@),
        starts_with_bom(bytes@) ==> s@ == seq!['\u{feff}'] + lossy_text(bytes@.skip(3)),
        s@.len() > 0 && s@[0] == '\u{feff}' ==> starts_with_bom(bytes@),
{
    String::from_utf8_lossy(bytes).into_owned()
}

/// The fields of a CSV record, or the reader's error message.
pub open spec fn record_view(r: Result<Vec<String>, String>) -> Result<Seq<Seq<char>>, Seq<char>> {
    match r {
        Ok(f) => Ok(strings_view(f@)),
        Err(e) => Err(e@),
    }
}

/// A CSV text read by the `csv` crate: the header record (or the reader's
/// error) and every later record (or the reader's error for it), in order.
pub struct CsvTable {
    pub headers: Result<Vec<String>, String>,
    pub records: Vec<Result<Vec<String>, String>>,
}

impl CsvTable {
    /// The header record as characters.
    pub open spec fn headers_view(&self) -> Result<Seq<Seq<char>>, Seq<char>> {
        record_view(self.headers)
    }

    /// The later records as characters.
    pub open spec fn records_view(&self) -> Seq<Result<Seq<Seq<char>>, Seq<char>>> {
        self.records@.map_values(|r: Result<Vec<String>, String>| record_view(r))
    }
}

/// What the `csv` crate reads from `text` as a flexible reader with every
/// field trimmed: the headers and the records.
pub uninterp spec fn csv_table_trimmed(text: Seq<char>) -> (
    Result<Seq<Seq<char>>, Seq<char>>,
    Seq<Result<Seq<Seq<char>>, Seq<char>>>,
);

/// `csv::ReaderBuilder` with `flexible(true)` and `trim(Trim::All)`, then
/// `headers()` and every item of `records()`, errors as their `Display` text.
/// Claimed: the result is `csv_table_trimmed(text)`.
#[verifier::external_body]
pub(crate) fn read_csv_trimmed(text: &str) -> (t: CsvTable)
    ensures
        (t.headers_view(), t.records_view()) == csv_table_trimmed(text@),
{
    let mut rdr = csv::ReaderBuilder::new().flexible(true).trim(csv::Trim::All).from_reader(
        text.as_bytes(),
    );
    let headers = rdr.headers().map(|h| h.iter().map(String::from).collect()).map_err(
        |e| e.to_string(),
    );
    let records = rdr.records().map(
        |r| r.map(|rec| rec.iter().map(String::from).collect()).map_err(|e| e.to_string()),
    ).collect();
    CsvTable { headers, records }
}

/// The columns of an avoid-point CSV.
#[derive(Clone, Copy, Debug)]
pub struct Columns {
    pub name: usize,
    pub lat: usize,
    pub lon: usize,
    pub radius: Option<usize>,
    pub note: Option<usize>,
}

/// Field `i` of a record, or the empty text when the record is shorter.
pub open spec fn field_or_empty(rec: Seq<Seq<char>>, i: usize) -> Seq<char> {
    if i < rec.len() {
        rec[i as int]
    } else {
        Seq::empty()
    }
}

/// The trimmed field of an optional column, when it exists and is not empty.
pub open spec fn optional_field(rec: Seq<Seq<char>>, i: Option<usize>) -> Option<Seq<char>> {
    match i {
        Some(k) => if k < rec.len() && trimmed(rec[k as int]).len() > 0 {
            Some(trimmed(rec[k as int]))
        } else {
            None
        },
        None => None,
    }
}

/// A record that names a point, with the texts of its numbers still unread.
#[derive(Debug)]
pub struct RowCandidate {
    pub line: usize,
    pub name: String,
    pub lat_text: String,
    pub lon_text: String,
    pub radius_text: Option<String>,
    pub note: Option<String>,
}

/// The value of a `RowCandidate`.
pub struct CandidateView {
    pub line: usize,
    pub name: Seq<char>,
    pub lat_text: Seq<char>,
    pub lon_text: Seq<char>,
    pub radius_text: Option<Seq<char>>,
    pub note: Option<Seq<char>>,
}

impl View for RowCandidate {
    type V = CandidateView;

    open spec fn view(&self) -> CandidateView {
        CandidateView {
            line: self.line,
            name: self.name@,
            lat_text: self.lat_text@,
            lon_text: self.lon_text@,
            radius_text: opt_view(self.radius_text),
            note: opt_view(self.note),
        }
    }
}

/// What one record becomes.
#[derive(Debug)]
pub enum ScanItem {
    /// A record whose fields are all blank.
    Skip,
    /// A record refused before its numbers are read.
    Error(RowError),
    /// A record that names a point.
    Candidate(RowCandidate),
}

/// The value of a `ScanItem`.
pub enum ScanItemView {
    Skip,
    Error((usize, Seq<char>)),
    Candidate(CandidateView),
}

impl View for ScanItem {
    type V = ScanItemView;

    open spec fn view(&self) -> ScanItemView {
        match self {
            ScanItem::Skip => ScanItemView::Skip,
            ScanItem::Error(e) => ScanItemView::Error(e@),
            ScanItem::Candidate(c) => ScanItemView::Candidate(c@),
        }
    }
}

/// What the record read at `line` becomes, before its numbers are read.
pub open spec fn scan_record_spec(
    cols: Columns,
    r: Result<Seq<Seq<char>>, Seq<char>>,
    line: usize,
) -> ScanItemView {
    match r {
        Err(e) => ScanItemView::Error((line, "解析失败: "@ + e)),
        Ok(rec) => if blank_record(rec) {
            ScanItemView::Skip
        } else if trimmed(field_or_empty(rec, cols.name)).len() == 0 {
            ScanItemView::Error((line, "名称为空"@))
        } else {
            ScanItemView::Candidate(
                CandidateView {
                    line,
                    name: trimmed(field_or_empty(rec, cols.name)),
                    lat_text: trimmed(field_or_empty(rec, cols.lat)),
                    lon_text: trimmed(field_or_empty(rec, cols.lon)),
                    radius_text: optional_field(rec, cols.radius),
                    note: optional_field(rec, cols.note),
                },
            )
        },
    }
}

/// The items of a table's records; record `i` is on line `i + 2`.
pub open spec fn scan_items_spec(
    cols: Columns,
    records: Seq<Result<Seq<Seq<char>>, Seq<char>>>,
) -> Seq<ScanItemView> {
    Seq::new(records.len(), |i: int| scan_record_spec(cols, records[i], (i + 2) as usize))
}

fn field_text(rec: &Vec<String>, i: usize) -> (r: &str)
    ensures
        r@ == field_or_empty(strings_view(rec@), i),
{
    if i < rec.len() {
        rec[i].as_str()
    } else {
        proof {
            reveal_strlit("");
        }
        ""
    }
}

fn optional_text(rec: &Vec<String>, i: Option<usize>) -> (r: Option<String>)
    ensures
        opt_view(r) == optional_field(strings_view(rec@), i),
{
    match i {
        Some(k) => if k < rec.len() {
            let t = trim(rec[k].as_str());
            if t.unicode_len() > 0 {
                Some(t.to_owned())
            } else {
                None
            }
        } else {
            None
        },
        None => None,
    }
}

fn scan_record(cols: Columns, r: &Result<Vec<String>, String>, line: usize) -> (s: ScanItem)
    ensures
        s@ == scan_record_spec(cols, record_view(*r), line),
{
    match r {
        Err(e) => ScanItem::Error(RowError { line, message: concatenate("解析失败: ", e.as_str()) }),
        Ok(rec) => {
            if is_blank_record(rec) {
                return ScanItem::Skip;
            }
            let name = trim(field_text(rec, cols.name));
            if name.unicode_len() == 0 {
                return ScanItem::Error(RowError { line, message: "名称为空".to_owned() });
            }
            let lat_text = trim(field_text(rec, cols.lat)).to_owned();
            let lon_text = trim(field_text(rec, cols.lon)).to_owned();
            ScanItem::Candidate(
                RowCandidate {
                    line,
                    name: name.to_owned(),
                    lat_text,
                    lon_text,
                    radius_text: optional_text(rec, cols.radius),
                    note: optional_text(rec, cols.note),
                },
            )
        },
    }
}

/// The records of an avoid-point CSV, classified, in record order.
#[derive(Debug)]
pub struct CsvScan {
    pub items: Vec<ScanItem>,
}

/// The decoded text of an avoid-point upload: the bytes decoded with invalid
/// UTF-8 replaced, without one leading byte-order mark.
pub open spec fn upload_text(bytes: Seq<u8>) -> Seq<char> {
    if starts_with_bom(bytes) {
        lossy_text(bytes.skip(3))
    } else {
        lossy_text(bytes)
    }
}

/// Column names accepted for the name, latitude, longitude, radius and note.
pub open spec fn name_aliases() -> Seq<Seq<char>> {
    seq!["名称"@, "name"@]
}

pub open spec fn lat_aliases() -> Seq<Seq<char>> {
    seq!["纬度"@, "lat"@, "latitude"@]
}

pub open spec fn lon_aliases() -> Seq<Seq<char>> {
    seq!["经度"@, "lon"@, "lng"@, "longitude"@]
}

pub open spec fn radius_aliases() -> Seq<Seq<char>> {
    seq!["半径米"@, "radius"@, "radius_m"@, "radius_meters"@]
}

pub open spec fn note_aliases() -> Seq<Seq<char>> {
    seq!["备注"@, "note"@, "comment"@, "description"@]
}

/// The outcome of scanning upload bytes: the header error, a missing column,
/// or the columns found.
pub open spec fn scan_columns_spec(bytes: Seq<u8>) -> Result<Columns, Seq<char>> {
    let table = csv_table_trimmed(upload_text(bytes));
    match table.0 {
        Err(e) => Err("CSV 表头错误: "@ + e),
        Ok(h) => {
            let name = find_col(h, name_aliases(), 0);
            let lat = find_col(h, lat_aliases(), 0);
            let lon = find_col(h, lon_aliases(), 0);
            if name is None {
                Err("缺少列：名称（或 name）"@)
            } else if lat is None {
                Err("缺少列：纬度（或 lat）"@)
            } else if lon is None {
                Err("缺少列：经度（或 lon/lng）"@)
            } else {
                Ok(
                    Columns {
                        name: name->0,
                        lat: lat->0,
                        lon: lon->0,
                        radius: find_col(h, radius_aliases(), 0),
                        note: find_col(h, note_aliases(), 0),
                    },
                )
            }
        },
    }
}

/// Decodes upload bytes (invalid UTF-8 replaced, one byte-order mark dropped),
/// reads them as CSV with trimmed fields, finds the columns by their Chinese
/// or English names (ASCII case ignored) and classifies every record.
pub fn scan_avoid_points_csv(bytes: &[u8]) -> (r: Result<CsvScan, AppError>)
    ensures
        scan_columns_spec(bytes@) matches Err(m) ==> r matches Err(e) && e.status
            == ErrorStatus::BadRequest && e.message@ == m,
        scan_columns_spec(bytes@) matches Ok(cols) ==> {
            let records = csv_table_trimmed(upload_text(bytes@)).1;
            if records.len() + 2 > usize::MAX {
                r matches Err(e) && e.status == ErrorStatus::Internal
            } else {
                r matches Ok(scan) && scan.items@.map_values(|it: ScanItem| it@) == scan_items_spec(
                    cols,
                    records,
                )
            }
        },
{
    let decoded = decode_lossy(bytes);
    let text = strip_utf8_bom(decoded.as_str());
    proof {
        if starts_with_bom(bytes@) {
            assert((seq!['\u{feff}'] + lossy_text(bytes@.skip(3))).drop_first() =~= lossy_text(
                bytes@.skip(3),
            ));
        }
    }
    assert(text@ == upload_text(bytes@));
    let table = read_csv_trimmed(text);
    let headers = match &table.headers {
        Ok(h) => h,
        Err(e) => {
            let msg = concatenate("CSV 表头错误: ", e.as_str());
            return Err(AppError::bad_request(msg.as_str()));
        },
    };
    let ghost hv = strings_view(headers@);
    let i_name = col_index(headers, &["名称", "name"]);
    let i_lat = col_index(headers, &["纬度", "lat", "latitude"]);
    let i_lon = col_index(headers, &["经度", "lon", "lng", "longitude"]);
    let i_r = col_index(headers, &["半径米", "radius", "radius_m", "radius_meters"]);
    let i_note = col_index(headers, &["备注", "note", "comment", "description"]);
    proof {
        assert(strs_view(seq!["名称", "name"]) =~= name_aliases());
        assert(strs_view(seq!["纬度", "lat", "latitude"]) =~= lat_aliases());
        assert(strs_view(seq!["经度", "lon", "lng", "longitude"]) =~= lon_aliases());
        assert(strs_view(seq!["半径米", "radius", "radius_m", "radius_meters"]) =~= radius_aliases());
        assert(strs_view(seq!["备注", "note", "comment", "description"]) =~= note_aliases());
    }
    let name = match i_name {
        Some(i) => i,
        None => {
            return Err(AppError::bad_request("缺少列：名称（或 name）"));
        },
    };
    let lat = match i_lat {
        Some(i) => i,
        None => {
            return Err(AppError::bad_request("缺少列：纬度（或 lat）"));
        },
    };
    let lon = match i_lon {
        Some(i) => i,
        None => {
            return Err(AppError::bad_request("缺少列：经度（或 lon/lng）"));
        },
    };
    let cols = Columns { name, lat, lon, radius: i_r, note: i_note };
    let n = table.records.len();
    if n > usize::MAX - 2 {
        return Err(AppError::internal("CSV 记录过多"));
    }
    let ghost rv = table.records_view();
    let mut items: Vec<ScanItem> = Vec::new();
    for idx in 0..n
        invariant
            n == table.records@.len(),
            n <= usize::MAX - 2,
            rv == table.records_view(),
            items@.len() == idx,
            forall|k: int| 0 <= k < idx ==> (#[trigger] items@[k])@ == scan_record_spec(cols, rv[k], (k + 2) as usize),
    {
        let item = scan_record(cols, &table.records[idx], idx + 2);
        items.push(item);
    }
    assert(items@.map_values(|it: ScanItem| it@) =~= scan_items_spec(cols, rv));
    Ok(CsvScan { items })
}


/// The binary64 bit patterns read from a candidate's number texts: `None`
/// where a text is not a number. `radius` is used only when the candidate
/// has a radius text.
#[derive(Clone, Copy, Debug)]
pub struct RowNumbers {
    pub lat: Option<u64>,
    pub lon: Option<u64>,
    pub radius: Option<u64>,
}

/// What a candidate becomes once its numbers are read: latitude, longitude
/// and radius are checked in that order, a missing radius meaning eighty
/// metres, and then their ranges.
pub open spec fn finish_spec(c: CandidateView, n: RowNumbers) -> Result<ParsedRowView, (usize, Seq<char>)> {
    match n.lat {
        None => Err((c.line, "纬度无效"@)),
        Some(lat) => match n.lon {
            None => Err((c.line, "经度无效"@)),
            Some(lon) => {
                let radius = if c.radius_text is None {
                    Some(DEFAULT_RADIUS_BITS)
                } else {
                    n.radius
                };
                match radius {
                    None => Err((c.line, "半径无效"@)),
                    Some(r) => match coords_message(lat, lon, r) {
                        Some(m) => Err((c.line, m)),
                        None => Ok(
                            ParsedRowView {
                                line: c.line,
                                name: c.name,
                                lat,
                                lon,
                                radius_m: r,
                                note: c.note,
                            },
                        ),
                    },
                }
            },
        },
    }
}

impl RowCandidate {
    /// The row or the error that this candidate gives with numbers `n`.
    pub fn finish(self, n: RowNumbers) -> (r: Result<ParsedRow, RowError>)
        ensures
            r matches Ok(row) ==> finish_spec(self@, n) == Ok::<ParsedRowView, (usize, Seq<char>)>(row@),
            r matches Err(e) ==> finish_spec(self@, n) == Err::<ParsedRowView, (usize, Seq<char>)>(e@),
    {
        let line = self.line;
        let lat = match n.lat {
            Some(v) => v,
            None => {
                return Err(RowError { line, message: "纬度无效".to_owned() });
            },
        };
        let lon = match n.lon {
            Some(v) => v,
            None => {
                return Err(RowError { line, message: "经度无效".to_owned() });
            },
        };
        let radius = match self.radius_text {
            None => DEFAULT_RADIUS_BITS,
            Some(_) => match n.radius {
                Some(v) => v,
                None => {
                    return Err(RowError { line, message: "半径无效".to_owned() });
                },
            },
        };
        match validate_coords(lat, lon, radius) {
            Err(m) => Err(RowError { line, message: m }),
            Ok(()) => Ok(
                ParsedRow { line, name: self.name, lat, lon, radius_m: radius, note: self.note },
            ),
        }
    }
}

/// Rows and errors gathered from `items`, `nums[i]` giving the numbers of
/// item `i`.
pub open spec fn outcome_spec(items: Seq<ScanItemView>, nums: Seq<RowNumbers>) -> (
    Seq<ParsedRowView>,
    Seq<(usize, Seq<char>)>,
)
    decreases items.len(),
{
    if items.len() == 0 {
        (Seq::empty(), Seq::empty())
    } else {
        let prev = outcome_spec(items.drop_last(), nums);
        match items.last() {
            ScanItemView::Skip => prev,
            ScanItemView::Error(e) => (prev.0, prev.1.push(e)),
            ScanItemView::Candidate(c) => match finish_spec(c, nums[items.len() - 1]) {
                Ok(row) => (prev.0.push(row), prev.1),
                Err(e) => (prev.0, prev.1.push(e)),
            },
        }
    }
}

/// The values of a list of items.
pub open spec fn items_view(items: Seq<ScanItem>) -> Seq<ScanItemView> {
    items.map_values(|it: ScanItem| it@)
}

/// Finishes every candidate of `scan` with the numbers at its position in
/// `nums` (entries at other positions are not used) and gathers rows and
/// errors in record order.
pub fn assemble(scan: CsvScan, nums: &Vec<RowNumbers>) -> (out: ParseOutcome)
    requires
        nums@.len() == scan.items@.len(),
    ensures
        out.rows@.map_values(|r: ParsedRow| r@) == outcome_spec(items_view(scan.items@), nums@).0,
        out.errors@.map_values(|e: RowError| e@) == outcome_spec(items_view(scan.items@), nums@).1,
{
    let ghost all = items_view(scan.items@);
    let ghost orig = scan.items@;
    let mut rows: Vec<ParsedRow> = Vec::new();
    let mut errors: Vec<RowError> = Vec::new();
    let mut i: usize = 0;
    let nl = nums.len();
    for item in it: scan.items.into_iter()
        invariant
            nl == nums@.len(),
            all == items_view(orig),
            it.seq() == orig,
            i == it.index(),
            nums@.len() == orig.len(),
            rows@.map_values(|r: ParsedRow| r@) == outcome_spec(all.take(i as int), nums@).0,
            errors@.map_values(|e: RowError| e@) == outcome_spec(all.take(i as int), nums@).1,
    {
        assert(i < nums@.len());
        proof {
            assert(all.take(i + 1).drop_last() =~= all.take(i as int));
            assert(all.take(i + 1).last() == item@);
        }
        match item {
            ScanItem::Skip => {},
            ScanItem::Error(e) => {
                errors.push(e);
            },
            ScanItem::Candidate(c) => {
                match c.finish(nums[i]) {
                    Ok(row) => rows.push(row),
                    Err(e) => errors.push(e),
                }
            },
        }
        i = i + 1;
        proof {
            assert(rows@.map_values(|r: ParsedRow| r@) =~= outcome_spec(all.take(i as int), nums@).0);
            assert(errors@.map_values(|e: RowError| e@) =~= outcome_spec(all.take(i as int), nums@).1);
        }
    }
    proof {
        assert(all.take(orig.len() as int) =~= all);
    }
    ParseOutcome { rows, errors }
}


/// The line an item carries (blank records carry none).
pub open spec fn item_line(it: ScanItemView) -> Option<usize> {
    match it {
        ScanItemView::Skip => None,
        ScanItemView::Error(e) => Some(e.0),
        ScanItemView::Candidate(c) => Some(c.line),
    }
}

/// Item `i` is on line `i + 2`, and every candidate has a non-empty name.
pub open spec fn items_well_formed(items: Seq<ScanItemView>) -> bool {
    &&& forall|i: int| 0 <= i < items.len() ==> match #[trigger] item_line(items[i]) {
        Some(l) => l == i + 2,
        None => true,
    }
    &&& forall|i: int|
        0 <= i < items.len() ==> (#[trigger] items[i] matches ScanItemView::Candidate(c)
            ==> c.name.len() > 0)
}

/// The number of blank records among `items`.
pub open spec fn skip_count(items: Seq<ScanItemView>) -> nat
    decreases items.len(),
{
    if items.len() == 0 {
        0
    } else {
        skip_count(items.drop_last()) + if items.last() is Skip {
            1nat
        } else {
            0nat
        }
    }
}

/// What holds of every outcome: each row has a name and coordinates and a
/// radius in range; rows and errors are in strictly increasing line order,
/// on lines `2 ..= items.len() + 1`, no line giving both; and every item that is not blank gives
/// exactly one row or one error.
pub open spec fn outcome_laws(items: Seq<ScanItemView>, nums: Seq<RowNumbers>) -> bool {
    let out = outcome_spec(items, nums);
    &&& forall|k: int|
        0 <= k < out.0.len() ==> {
            &&& 2 <= (#[trigger] out.0[k]).line < items.len() + 2
            &&& out.0[k].name.len() > 0
            &&& coords_ok(out.0[k].lat, out.0[k].lon)
            &&& radius_ok(out.0[k].radius_m)
        }
    &&& forall|k: int| 0 <= k < out.1.len() ==> 2 <= (#[trigger] out.1[k]).0 < items.len() + 2
    &&& forall|j: int, k: int| 0 <= j < k < out.0.len() ==> out.0[j].line < out.0[k].line
    &&& forall|j: int, k: int| 0 <= j < k < out.1.len() ==> out.1[j].0 < out.1[k].0
    &&& forall|j: int, k: int|
        0 <= j < out.0.len() && 0 <= k < out.1.len() ==> (#[trigger] out.0[j]).line != (
        #[trigger] out.1[k]).0
    &&& out.0.len() + out.1.len() + skip_count(items) == items.len()
}

proof fn lemma_outcome_laws(items: Seq<ScanItemView>, nums: Seq<RowNumbers>)
    requires
        items_well_formed(items),
    ensures
        outcome_laws(items, nums),
    decreases items.len(),
{
    if items.len() > 0 {
        let d = items.drop_last();
        assert forall|i: int| 0 <= i < d.len() implies match #[trigger] item_line(d[i]) {
            Some(l) => l == i + 2,
            None => true,
        } by {
            assert(d[i] == items[i]);
        }
        assert forall|i: int|
            0 <= i < d.len() implies (#[trigger] d[i] matches ScanItemView::Candidate(c)
                ==> c.name.len() > 0) by {
            assert(d[i] == items[i]);
        }
        lemma_outcome_laws(d, nums);
        let last = items.len() - 1;
        assert(item_line(items[last]) matches Some(l) ==> l == last + 2);
        assert(items[last] matches ScanItemView::Candidate(c) ==> c.name.len() > 0);
    }
}

/// The rows and errors gathered from a scanned table obey `outcome_laws`.
pub proof fn lemma_scan_outcome_laws(
    cols: Columns,
    records: Seq<Result<Seq<Seq<char>>, Seq<char>>>,
    nums: Seq<RowNumbers>,
)
    requires
        records.len() + 2 <= usize::MAX,
    ensures
        outcome_laws(scan_items_spec(cols, records), nums),
{
    let items = scan_items_spec(cols, records);
    assert forall|i: int| 0 <= i < items.len() implies match #[trigger] item_line(items[i]) {
        Some(l) => l == i + 2,
        None => true,
    } by {
        assert(items[i] == scan_record_spec(cols, records[i], (i + 2) as usize));
    }
    assert forall|i: int|
        0 <= i < items.len() implies (#[trigger] items[i] matches ScanItemView::Candidate(c)
            ==> c.name.len() > 0) by {
        assert(items[i] == scan_record_spec(cols, records[i], (i + 2) as usize));
    }
    lemma_outcome_laws(items, nums);
}


/// Whether header cell `k` is the first that names one of `names`.
pub open spec fn first_naming(h: Seq<Seq<char>>, k: int, names: Seq<Seq<char>>) -> bool {
    &&& 0 <= k < h.len()
    &&& header_matches(h[k], names)
    &&& forall|t: int| 0 <= t < k ==> !header_matches(#[trigger] h[t], names)
}

/// Whether no header cell names one of `names`.
pub open spec fn none_naming(h: Seq<Seq<char>>, names: Seq<Seq<char>>) -> bool {
    forall|t: int| 0 <= t < h.len() ==> !header_matches(#[trigger] h[t], names)
}

/// The search from `from` stops at the first cell at or after it that names
/// one of `names`.
proof fn lemma_find_col_stops_at(h: Seq<Seq<char>>, names: Seq<Seq<char>>, from: int, k: int)
    requires
        0 <= from <= k < h.len(),
        header_matches(h[k], names),
        forall|t: int| from <= t < k ==> !header_matches(#[trigger] h[t], names),
    ensures
        find_col(h, names, from) == Some(k as usize),
    decreases k - from,
{
    if from < k {
        assert(!header_matches(h[from], names));
        lemma_find_col_stops_at(h, names, from + 1, k);
    }
}

/// The search from `from` finds nothing when no cell names one of `names`.
proof fn lemma_find_col_none(h: Seq<Seq<char>>, names: Seq<Seq<char>>, from: int)
    requires
        0 <= from,
        none_naming(h, names),
    ensures
        find_col(h, names, from) is None,
    decreases h.len() - from,
{
    if from < h.len() {
        assert(!header_matches(h[from], names));
        lemma_find_col_none(h, names, from + 1);
    }
}

/// Each column is found at the first header cell that names it by any of its
/// documented names, ASCII case ignored, surrounding whitespace and leading
/// byte-order marks dropped: the name as `名称` or `name`; the latitude as
/// `纬度`, `lat` or `latitude`; the longitude as `经度`, `lon`, `lng` or
/// `longitude`; the radius as `半径米`, `radius`, `radius_m` or
/// `radius_meters`; the note as `备注`, `note`, `comment` or `description`.
/// The optional columns are absent exactly when no cell names them.
pub proof fn lemma_columns_found_by_documented_names(bytes: Seq<u8>, h: Seq<Seq<char>>, i: int, j: int, k: int)
    requires
        csv_table_trimmed(upload_text(bytes)).0 == Ok::<Seq<Seq<char>>, Seq<char>>(h),
        h.len() <= usize::MAX,
        first_naming(h, i, seq!["名称"@, "name"@]),
        first_naming(h, j, seq!["纬度"@, "lat"@, "latitude"@]),
        first_naming(h, k, seq!["经度"@, "lon"@, "lng"@, "longitude"@]),
    ensures
        scan_columns_spec(bytes) matches Ok(cols) && {
            &&& cols.name == i
            &&& cols.lat == j
            &&& cols.lon == k
            &&& forall|r: int| first_naming(h, r, seq!["半径米"@, "radius"@, "radius_m"@, "radius_meters"@])
                ==> cols.radius == Some(r as usize)
            &&& none_naming(h, seq!["半径米"@, "radius"@, "radius_m"@, "radius_meters"@]) ==> cols.radius is None
            &&& forall|n: int| first_naming(h, n, seq!["备注"@, "note"@, "comment"@, "description"@])
                ==> cols.note == Some(n as usize)
            &&& none_naming(h, seq!["备注"@, "note"@, "comment"@, "description"@]) ==> cols.note is None
        },
{
    assert(name_aliases() =~= seq!["名称"@, "name"@]);
    assert(lat_aliases() =~= seq!["纬度"@, "lat"@, "latitude"@]);
    assert(lon_aliases() =~= seq!["经度"@, "lon"@, "lng"@, "longitude"@]);
    assert(radius_aliases() =~= seq!["半径米"@, "radius"@, "radius_m"@, "radius_meters"@]);
    assert(note_aliases() =~= seq!["备注"@, "note"@, "comment"@, "description"@]);
    lemma_find_col_stops_at(h, name_aliases(), 0, i);
    lemma_find_col_stops_at(h, lat_aliases(), 0, j);
    lemma_find_col_stops_at(h, lon_aliases(), 0, k);
    let rn = seq!["半径米"@, "radius"@, "radius_m"@, "radius_meters"@];
    assert forall|r: int| #[trigger] first_naming(h, r, rn) implies find_col(h, radius_aliases(), 0)
        == Some(r as usize) by {
        lemma_find_col_stops_at(h, rn, 0, r);
    }
    if none_naming(h, radius_aliases()) {
        lemma_find_col_none(h, radius_aliases(), 0);
    }
    let nn = seq!["备注"@, "note"@, "comment"@, "description"@];
    assert forall|n: int| #[trigger] first_naming(h, n, nn) implies find_col(h, note_aliases(), 0)
        == Some(n as usize) by {
        lemma_find_col_stops_at(h, nn, 0, n);
    }
    if none_naming(h, note_aliases()) {
        lemma_find_col_none(h, note_aliases(), 0);
    }
}

/// A header row with no cell naming the longitude by any of `经度`, `lon`,
/// `lng` or `longitude` is refused for that column, once the name and latitude
/// are found.
pub proof fn lemma_missing_longitude_refused(bytes: Seq<u8>, h: Seq<Seq<char>>, i: int, j: int)
    requires
        csv_table_trimmed(upload_text(bytes)).0 == Ok::<Seq<Seq<char>>, Seq<char>>(h),
        first_naming(h, i, seq!["名称"@, "name"@]),
        first_naming(h, j, seq!["纬度"@, "lat"@, "latitude"@]),
        none_naming(h, seq!["经度"@, "lon"@, "lng"@, "longitude"@]),
    ensures
        scan_columns_spec(bytes) == Err::<Columns, Seq<char>>("缺少列：经度（或 lon/lng）"@),
{
    assert(name_aliases() =~= seq!["名称"@, "name"@]);
    assert(lat_aliases() =~= seq!["纬度"@, "lat"@, "latitude"@]);
    assert(lon_aliases() =~= seq!["经度"@, "lon"@, "lng"@, "longitude"@]);
    lemma_find_col_stops_at(h, name_aliases(), 0, i);
    lemma_find_col_stops_at(h, lat_aliases(), 0, j);
    lemma_find_col_none(h, lon_aliases(), 0);
}

/// A leading byte-order mark does not change what an upload reads: the text,
/// hence the columns and the records, are those of the bytes without it.
pub proof fn lemma_bom_is_ignored(b: Seq<u8>)
    requires
        !starts_with_bom(b),
    ensures
        upload_text(seq![0xEFu8, 0xBBu8, 0xBFu8] + b) == upload_text(b),
        scan_columns_spec(seq![0xEFu8, 0xBBu8, 0xBFu8] + b) == scan_columns_spec(b),
        csv_table_trimmed(upload_text(seq![0xEFu8, 0xBBu8, 0xBFu8] + b)) == csv_table_trimmed(
            upload_text(b),
        ),
{
    let w = seq![0xEFu8, 0xBBu8, 0xBFu8] + b;
    assert(starts_with_bom(w));
    assert(w.skip(3) =~= b);
}

} // verus!
