use mixfam::error::ExtractError;
use mixfam::payload::{assemble, build_payload};
use mixfam::period::{
    dated_text_of, decimal_text, first_word_of, resolution_year, year_from, resolve_period,
    resolve_window_end, split_window,
};
use mixfam::roster::{extract_persons, find_attribute, read_column, ProfileColumn, SITE_ORIGIN};
use mixfam::schedule::{extract_schedule, read_table, CellRow, RawTable, TableGroup, TimeSlot};

fn s(t: &str) -> String {
    t.to_string()
}

fn strings(items: &[&str]) -> Vec<String> {
    items.iter().map(|t| t.to_string()).collect()
}

fn is_period_shape(p: &str) -> bool {
    let b = p.as_bytes();
    b.len() == 17
        && b[8] == b'-'
        && b.iter().enumerate().all(|(i, c)| i == 8 || c.is_ascii_digit())
}

fn column(src: Option<&str>, name: Option<&str>, description: Option<&str>) -> ProfileColumn {
    ProfileColumn {
        image_attributes: src.map(|v| strings(&["alt", "portrait", "src", v])),
        name: name.map(s),
        description: description.map(s),
    }
}

fn row(title: &str, artist: &str) -> CellRow {
    strings(&[title, artist])
}

fn table(prefix: &str, n: usize) -> RawTable {
    (0..n)
        .map(|i| row(&format!("{} song {}", prefix, i), &format!("{} artist {}", prefix, i)))
        .collect()
}

fn layout() -> Vec<TableGroup> {
    vec![
        vec![],
        vec![table("all", 3)],
        vec![table("morning", 2), table("daytime", 1)],
        vec![table("night", 4), table("midnight", 2)],
    ]
}

#[test]
fn period_of_example_heading() {
    assert_eq!(
        resolve_period("3/1\u{FF5E}3/31放送", 2024),
        Ok(s("20240301-20240331"))
    );
}

#[test]
fn period_across_year_end_keeps_one_year() {
    assert_eq!(
        resolve_period("12/28\u{FF5E}1/3放送", 2024),
        Ok(s("20241228-20240103"))
    );
}

#[test]
fn period_has_digit_shape() {
    for heading in [
        "3/1\u{FF5E}3/31放送",
        "1/5\u{FF5E}2/29 放送予定",
        "  10/01\u{FF5E}11/9\tmore",
    ] {
        let p = resolve_period(heading, 2024).unwrap();
        assert!(is_period_shape(&p), "{}", p);
    }
}

#[test]
fn period_reads_only_first_word() {
    assert_eq!(
        resolve_period("  4/1\u{FF5E}4/30 放送 5/1\u{FF5E}5/2", 2025),
        Ok(s("20250401-20250430"))
    );
}

#[test]
fn period_without_separator_fails() {
    assert_eq!(resolve_period("3/1-3/31放送", 2024), Err(ExtractError::DateParseError));
}

#[test]
fn period_with_two_separators_fails() {
    assert_eq!(
        resolve_period("3/1\u{FF5E}3/31\u{FF5E}4/1", 2024),
        Err(ExtractError::DateParseError)
    );
}

#[test]
fn period_of_blank_heading_fails() {
    assert_eq!(resolve_period("   ", 2024), Err(ExtractError::DateParseError));
}

#[test]
fn period_without_month_day_fails() {
    assert_eq!(resolve_period("3月1日\u{FF5E}3/31", 2024), Err(ExtractError::DateParseError));
}

#[test]
fn period_with_impossible_day_fails() {
    assert_eq!(resolve_period("2/30\u{FF5E}3/1", 2024), Err(ExtractError::DateParseError));
    assert_eq!(resolve_period("2/29\u{FF5E}3/1", 2023), Err(ExtractError::DateParseError));
    assert_eq!(resolve_period("2/29\u{FF5E}3/1", 2024), Ok(s("20240229-20240301")));
}

#[test]
fn window_end_is_written_as_eight_digits() {
    assert_eq!(resolve_window_end("放送3/1から", 2024), Ok(s("20240301")));
    assert_eq!(resolve_window_end("12/9", 987), Ok(s("09871209")));
    assert_eq!(resolve_window_end("no date", 2024), Err(ExtractError::DateParseError));
}

#[test]
fn decimal_text_writes_numbers() {
    assert_eq!(decimal_text(0), "0");
    assert_eq!(decimal_text(7), "7");
    assert_eq!(decimal_text(2024), "2024");
    assert_eq!(decimal_text(u32::MAX), u32::MAX.to_string());
}

#[test]
fn dated_text_joins_year_and_month_day() {
    assert_eq!(dated_text_of(2024, "3/1"), "2024/3/1");
}

#[test]
fn first_word_skips_leading_space() {
    assert_eq!(first_word_of(" \t3/1\u{FF5E}3/31 放送"), "3/1\u{FF5E}3/31");
    assert_eq!(first_word_of(""), "");
    assert_eq!(first_word_of("   "), "");
}

#[test]
fn split_window_needs_one_separator() {
    assert_eq!(split_window("3/1\u{FF5E}3/31"), Some((s("3/1"), s("3/31"))));
    assert_eq!(split_window("3/1"), None);
    assert_eq!(split_window("\u{FF5E}\u{FF5E}"), None);
    assert_eq!(split_window("\u{FF5E}"), Some((s(""), s(""))));
}

#[test]
fn resolution_year_is_read() {
    let y = resolution_year().unwrap();
    assert!(y >= 2024 && y <= 262143);
}

#[test]
fn year_from_keeps_non_negative_years() {
    assert_eq!(year_from(2024), Some(2024));
    assert_eq!(year_from(0), Some(0));
    assert_eq!(year_from(-1), None);
    assert_eq!(year_from(i32::MIN), None);
}

#[test]
fn attribute_lookup_reads_pairs() {
    let attrs = strings(&["alt", "src", "src", "/img/a.png", "class", "pic"]);
    assert_eq!(find_attribute(&attrs, "src"), Some(s("/img/a.png")));
    assert_eq!(find_attribute(&attrs, "class"), Some(s("pic")));
    assert_eq!(find_attribute(&attrs, "width"), None);
    assert_eq!(find_attribute(&strings(&["src"]), "src"), None);
    assert_eq!(find_attribute(&vec![], "src"), None);
}

#[test]
fn column_becomes_person_with_absolute_url() {
    let p = read_column(&column(Some("/img/a.png"), Some("Aoi"), Some("DJ of the week"))).unwrap();
    assert_eq!(p.name, "Aoi");
    assert_eq!(p.description, "DJ of the week");
    assert_eq!(p.image_url, "https://www.family.co.jp/img/a.png");
}

#[test]
fn absolute_source_still_gets_origin() {
    let p = read_column(&column(Some("https://cdn.example/a.png"), Some("B"), Some("d"))).unwrap();
    assert!(p.image_url.starts_with(SITE_ORIGIN));
    assert_eq!(p.image_url, "https://www.family.co.jphttps://cdn.example/a.png");
}

#[test]
fn column_errors() {
    assert_eq!(
        read_column(&column(None, Some("n"), Some("d"))).err(),
        Some(ExtractError::ElementNotFound)
    );
    let no_src = ProfileColumn {
        image_attributes: Some(strings(&["alt", "x"])),
        name: Some(s("n")),
        description: Some(s("d")),
    };
    assert_eq!(read_column(&no_src).err(), Some(ExtractError::AttributeMissing));
    assert_eq!(
        read_column(&column(Some("/a"), None, Some("d"))).err(),
        Some(ExtractError::ElementNotFound)
    );
    assert_eq!(
        read_column(&column(Some("/a"), Some("n"), None)).err(),
        Some(ExtractError::ElementNotFound)
    );
}

#[test]
fn roster_has_one_person_per_column() {
    let cols = vec![
        column(Some("/a.png"), Some("A"), Some("first")),
        column(Some("/b.png"), Some("B"), Some("second")),
        column(Some("c.png"), Some("C"), Some("third")),
    ];
    let persons = extract_persons(&cols).unwrap();
    assert_eq!(persons.len(), 3);
    for p in &persons {
        assert!(p.image_url.starts_with(SITE_ORIGIN));
    }
    assert_eq!(persons[1].name, "B");
    assert_eq!(persons[2].image_url, "https://www.family.co.jpc.png");
    assert_eq!(extract_persons(&vec![]).unwrap().len(), 0);
}

#[test]
fn roster_fails_on_first_bad_column() {
    let cols = vec![
        column(Some("/a.png"), Some("A"), Some("first")),
        ProfileColumn { image_attributes: Some(vec![]), name: None, description: None },
        column(None, Some("C"), Some("third")),
    ];
    assert_eq!(extract_persons(&cols).err(), Some(ExtractError::AttributeMissing));
}

#[test]
fn schedule_has_five_tables_in_slot_order() {
    let tables = extract_schedule(&layout()).unwrap();
    let slots: Vec<TimeSlot> = tables.iter().map(|t| t.time).collect();
    assert_eq!(
        slots,
        vec![
            TimeSlot::AllTime,
            TimeSlot::Morning,
            TimeSlot::Daytime,
            TimeSlot::Night,
            TimeSlot::Midnight
        ]
    );
    let counts: Vec<usize> = tables.iter().map(|t| t.musics.len()).collect();
    assert_eq!(counts, vec![3, 2, 1, 4, 2]);
    assert_eq!(tables[3].musics[2].title, "night song 2");
    assert_eq!(tables[3].musics[2].artist, "night artist 2");
    assert_eq!(tables[2].musics[0].title, "daytime song 0");
}

#[test]
fn schedule_keeps_repeated_tracks_and_ignores_extra_cells() {
    let mut groups = layout();
    groups[1][0] = vec![
        strings(&["Same", "Band", "extra"]),
        strings(&["Same", "Band"]),
    ];
    let tables = extract_schedule(&groups).unwrap();
    assert_eq!(tables[0].musics.len(), 2);
    assert_eq!(tables[0].musics[1].title, "Same");
    assert_eq!(tables[0].musics[0].artist, "Band");
}

#[test]
fn schedule_with_empty_tables() {
    let groups: Vec<TableGroup> = vec![vec![], vec![vec![]], vec![vec![], vec![]], vec![vec![], vec![]]];
    let tables = extract_schedule(&groups).unwrap();
    assert_eq!(tables.len(), 5);
    assert!(tables.iter().all(|t| t.musics.is_empty()));
}

#[test]
fn schedule_structure_errors() {
    let mut short = layout();
    short.pop();
    assert_eq!(extract_schedule(&short).err(), Some(ExtractError::StructuralMismatch));

    let mut one_morning_table = layout();
    one_morning_table[2].pop();
    assert_eq!(extract_schedule(&one_morning_table).err(), Some(ExtractError::StructuralMismatch));

    let mut short_row = layout();
    short_row[3][1].push(strings(&["only title"]));
    assert_eq!(extract_schedule(&short_row).err(), Some(ExtractError::StructuralMismatch));
}

#[test]
fn table_rows_become_tracks() {
    let t = read_table(&vec![row("T1", "A1"), row("T2", "A2")]).unwrap();
    assert_eq!(t.len(), 2);
    assert_eq!(t[1].title, "T2");
    assert_eq!(t[1].artist, "A2");
    assert_eq!(read_table(&vec![strings(&[])]).err(), Some(ExtractError::StructuralMismatch));
}

#[test]
fn slot_names_and_locations() {
    assert_eq!(TimeSlot::AllTime.name(), "all_time");
    assert_eq!(TimeSlot::Midnight.name(), "midnight");
    assert_eq!(TimeSlot::Daytime.location(), (2, 1));
    assert_eq!(TimeSlot::at(3), TimeSlot::Night);
}

#[test]
fn payload_from_all_parts() {
    let cols = vec![column(Some("/a.png"), Some("A"), Some("first"))];
    let p = build_payload(&Some(s("3/1\u{FF5E}3/31放送")), 2024, &Some(cols), &Some(layout()))
        .unwrap();
    assert_eq!(p.period, "20240301-20240331");
    assert_eq!(p.persons.len(), 1);
    assert_eq!(p.musics.len(), 5);
}

#[test]
fn payload_is_all_or_nothing() {
    let heading = Some(s("3/1\u{FF5E}3/31放送"));
    let cols = Some(vec![column(Some("/a.png"), Some("A"), Some("first"))]);
    let groups = Some(layout());
    assert_eq!(
        build_payload(&None, 2024, &cols, &groups).err(),
        Some(ExtractError::ElementNotFound)
    );
    assert_eq!(
        build_payload(&Some(s("no window")), 2024, &cols, &groups).err(),
        Some(ExtractError::DateParseError)
    );
    assert_eq!(
        build_payload(&heading, 2024, &None, &groups).err(),
        Some(ExtractError::ElementNotFound)
    );
    assert_eq!(
        build_payload(&heading, 2024, &cols, &None).err(),
        Some(ExtractError::ElementNotFound)
    );
    let bad_cols = Some(vec![column(Some("/a.png"), None, Some("first"))]);
    assert_eq!(
        build_payload(&heading, 2024, &bad_cols, &groups).err(),
        Some(ExtractError::ElementNotFound)
    );
    let mut short = layout();
    short.truncate(2);
    assert_eq!(
        build_payload(&heading, 2024, &cols, &Some(short)).err(),
        Some(ExtractError::StructuralMismatch)
    );
}

#[test]
fn assemble_keeps_parts() {
    let persons = extract_persons(&vec![column(Some("/a"), Some("A"), Some("d"))]).unwrap();
    let musics = extract_schedule(&layout()).unwrap();
    let p = assemble(s("20240301-20240331"), persons, musics);
    assert_eq!(p.period, "20240301-20240331");
    assert_eq!(p.persons[0].image_url, "https://www.family.co.jp/a");
    assert_eq!(p.musics[4].time, TimeSlot::Midnight);
}
