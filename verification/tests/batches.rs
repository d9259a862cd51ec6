use loggen::batch::benchmark_log_schema;
use loggen::batch::collect_batches;
use loggen::batch::generate_columnar_batches;
use loggen::batch::ConfigError;
use loggen::batch::FieldType;

#[test]
fn three_chunks_of_quarter_million() {
    let batches = collect_batches(250_000, 100_000).unwrap();
    assert_eq!(batches.len(), 3);
    assert_eq!(batches[0].row_count(), 100_000);
    assert_eq!(batches[1].row_count(), 100_000);
    assert_eq!(batches[2].row_count(), 50_000);
    let last = &batches[2];
    assert_eq!(last.id[last.id.len() - 1], 249_999);
    assert_eq!(last.severity[last.severity.len() - 1], (249_999 % 5) + 1);
    assert_eq!(last.severity[last.severity.len() - 1], 5);
}

#[test]
fn zero_rows_yield_zero_batches() {
    let batches = collect_batches(0, 100_000).unwrap();
    assert_eq!(batches.len(), 0);
}

#[test]
fn single_row_yields_one_short_batch() {
    let batches = collect_batches(1, 100_000).unwrap();
    assert_eq!(batches.len(), 1);
    let b = &batches[0];
    assert_eq!(b.row_count(), 1);
    assert_eq!(b.id[0], 0);
    assert_eq!(b.severity[0], 1);
    assert_eq!(b.country[0], "United States");
    assert!(b.message[0].starts_with("The research team discovered"));
    assert!(b.message_matches_research[0]);
    assert!(b.message_matches_team[0]);
}

#[test]
fn zero_chunk_size_is_rejected() {
    assert_eq!(collect_batches(5, 0).unwrap_err(), ConfigError::ZeroChunkSize);
    assert!(matches!(
        generate_columnar_batches(5, 0),
        Err(ConfigError::ZeroChunkSize)
    ));
}

#[test]
fn batch_counts_match_ceiling_and_total() {
    for n in 0..=12u64 {
        for c in 1..=5usize {
            let batches = collect_batches(n, c).unwrap();
            let expected = (n as usize).div_ceil(c);
            assert_eq!(batches.len(), expected);
            let total: usize = batches.iter().map(|b| b.row_count()).sum();
            assert_eq!(total as u64, n);
            for (k, b) in batches.iter().enumerate() {
                if k + 1 < batches.len() {
                    assert_eq!(b.row_count(), c);
                } else {
                    assert_eq!(b.row_count(), n as usize - c * (batches.len() - 1));
                }
            }
        }
    }
}

#[test]
fn columns_are_equal_length_and_in_order() {
    let batches = collect_batches(10, 4).unwrap();
    assert_eq!(batches.len(), 3);
    let mut expected_id: u64 = 0;
    for b in &batches {
        let rows = b.row_count();
        assert_eq!(b.id.len(), rows);
        assert_eq!(b.message.len(), rows);
        assert_eq!(b.message_matches_research.len(), rows);
        assert_eq!(b.message_matches_team.len(), rows);
        assert_eq!(b.country.len(), rows);
        assert_eq!(b.severity.len(), rows);
        assert_eq!(b.timestamp.len(), rows);
        assert_eq!(b.metadata.len(), rows);
        for j in 0..rows {
            assert_eq!(b.id[j], expected_id);
            expected_id += 1;
        }
    }
    assert_eq!(expected_id, 10);
}

#[test]
fn derived_flags_follow_the_corpus() {
    let batches = collect_batches(10, 10).unwrap();
    let b = &batches[0];
    for j in 0..10usize {
        assert!(b.message_matches_research[j], "every corpus entry mentions research");
        let expect_team = j == 0 || j == 9;
        assert_eq!(b.message_matches_team[j], expect_team);
        assert_eq!(b.message_matches_research[j], b.message[j].contains("research"));
        assert_eq!(b.message_matches_team[j], b.message[j].contains("team"));
    }
}

#[test]
fn stream_yields_batches_in_chunk_order() {
    let mut stream = generate_columnar_batches(7, 3).unwrap();
    let b0 = stream.next_batch().unwrap();
    let b1 = stream.next_batch().unwrap();
    let b2 = stream.next_batch().unwrap();
    assert!(stream.next_batch().is_none());
    assert!(stream.next_batch().is_none());
    assert_eq!(b0.row_count(), 3);
    assert_eq!(b1.row_count(), 3);
    assert_eq!(b2.row_count(), 1);
    assert_eq!(b0.id, vec![0, 1, 2]);
    assert_eq!(b1.id, vec![3, 4, 5]);
    assert_eq!(b2.id, vec![6]);
}

#[test]
fn schema_is_fixed_and_ordered() {
    let s = benchmark_log_schema();
    let names: Vec<&str> = s.iter().map(|f| f.name).collect();
    assert_eq!(
        names,
        vec![
            "id",
            "message",
            "message_matches_research",
            "message_matches_team",
            "country",
            "severity",
            "timestamp",
            "metadata"
        ]
    );
    assert_eq!(s[0].dtype, FieldType::U64);
    assert_eq!(s[1].dtype, FieldType::Utf8);
    assert_eq!(s[2].dtype, FieldType::Bool);
    assert_eq!(s[3].dtype, FieldType::Bool);
    assert_eq!(s[4].dtype, FieldType::Utf8);
    assert_eq!(s[5].dtype, FieldType::I32);
    assert_eq!(s[6].dtype, FieldType::U64);
    assert_eq!(s[7].dtype, FieldType::Utf8);
    for f in &s {
        assert!(!f.nullable);
    }
}
