use serein::{decode_last_viewed, encode_last_viewed, Id, LastViewedChannels, LastViewedWrite, StoreError};

fn record(pairs: &[(u64, u64)]) -> LastViewedChannels {
    LastViewedChannels {
        pairs: pairs.iter().map(|&(g, c)| (Id(g), Id(c))).collect(),
    }
}

#[test]
fn validity_rejects_zero_ids_duplicate_guilds_and_overflow() {
    assert!(LastViewedChannels::default().is_valid());
    assert!(record(&[(1, 2), (3, 4)]).is_valid());
    assert!(record(&[(1, 2), (3, 2)]).is_valid());
    assert!(!record(&[(0, 2)]).is_valid());
    assert!(!record(&[(1, 0)]).is_valid());
    assert!(!record(&[(1, 2), (3, 4), (1, 5)]).is_valid());
    let full: Vec<(u64, u64)> = (1..=1024).map(|g| (g, g)).collect();
    assert!(record(&full).is_valid());
    let over: Vec<(u64, u64)> = (1..=1025).map(|g| (g, g)).collect();
    assert!(!record(&over).is_valid());
    assert_eq!(LastViewedChannels::MAX_ENTRIES, 1024);
    assert_eq!(LastViewedChannels::MAX_JSON_BYTES, 65536);
}

#[test]
fn saving_an_empty_record_deletes_and_loading_nothing_is_empty() {
    assert!(matches!(
        encode_last_viewed(&LastViewedChannels::default()),
        Ok(LastViewedWrite::Delete)
    ));
    assert!(decode_last_viewed(None).unwrap().pairs.is_empty());
}

#[test]
fn saved_text_is_json_pairs_and_reads_back() {
    let value = record(&[(10, 20), (30, 40)]);
    let Ok(LastViewedWrite::Upsert(text)) = encode_last_viewed(&value) else {
        panic!("a valid record is written");
    };
    assert_eq!(text, "[[10,20],[30,40]]");
    let back = decode_last_viewed(Some(Some(text))).unwrap();
    assert_eq!(back, value);
}

#[test]
fn invalid_records_are_refused_for_capacity() {
    assert!(matches!(
        encode_last_viewed(&record(&[(1, 2), (1, 3)])),
        Err(StoreError::Capacity)
    ));
}

#[test]
fn the_largest_valid_record_fits_the_byte_limit() {
    let big: Vec<(u64, u64)> = (1..=1024)
        .map(|g| (u64::MAX - g, u64::MAX - g))
        .collect();
    let value = record(&big);
    let Ok(LastViewedWrite::Upsert(text)) = encode_last_viewed(&value) else {
        panic!("the largest valid record is written");
    };
    assert!(text.len() <= LastViewedChannels::MAX_JSON_BYTES);
    assert_eq!(decode_last_viewed(Some(Some(text))).unwrap().pairs, value.pairs);
}

#[test]
fn unreadable_rows_are_incompatible() {
    assert_eq!(decode_last_viewed(Some(None)).unwrap_err(), StoreError::Incompatible);
    assert_eq!(
        decode_last_viewed(Some(Some("not json".to_string()))).unwrap_err(),
        StoreError::Incompatible
    );
    assert_eq!(
        decode_last_viewed(Some(Some("[[0,1]]".to_string()))).unwrap_err(),
        StoreError::Incompatible
    );
    assert_eq!(
        decode_last_viewed(Some(Some("[[5,1],[5,2]]".to_string()))).unwrap_err(),
        StoreError::Incompatible
    );
    assert_eq!(
        decode_last_viewed(Some(Some("[[5,1,3]]".to_string()))).unwrap_err(),
        StoreError::Incompatible
    );
    let ok = decode_last_viewed(Some(Some(" [ [5, 1] ] ".to_string()))).unwrap();
    assert_eq!(ok.pairs, vec![(Id(5), Id(1))]);
}
