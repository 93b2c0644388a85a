use cryptocrate::secure_delete::{
    fill_pattern, next_chunk_len, overwrite_schedule, parse_delete_mode, OverwritePattern,
    SecureDeleteMode, WipeAction, Wiper, OVERWRITE_CHUNK_SIZE,
};

#[test]
fn passes_per_mode() {
    assert_eq!(SecureDeleteMode::Quick.passes(), 1);
    assert_eq!(SecureDeleteMode::Standard.passes(), 3);
    assert_eq!(SecureDeleteMode::Paranoid.passes(), 7);
}

#[test]
fn schedules_per_mode() {
    assert_eq!(overwrite_schedule(SecureDeleteMode::Quick, 10), vec![OverwritePattern::Random]);
    assert_eq!(overwrite_schedule(SecureDeleteMode::Standard, 10), vec![OverwritePattern::Random, OverwritePattern::Zeros, OverwritePattern::Random]);
    assert_eq!(
        overwrite_schedule(SecureDeleteMode::Paranoid, 10),
        vec![
            OverwritePattern::Random,
            OverwritePattern::Ones,
            OverwritePattern::Random,
            OverwritePattern::Pattern(0xAA),
            OverwritePattern::Pattern(0x55),
            OverwritePattern::Random,
            OverwritePattern::Random
        ]
    );
}

#[test]
fn empty_file_gets_no_pass() {
    assert!(overwrite_schedule(SecureDeleteMode::Paranoid, 0).is_empty());
}

#[test]
fn chunking() {
    assert_eq!(next_chunk_len(10), 10);
    assert_eq!(next_chunk_len(OVERWRITE_CHUNK_SIZE as u64), OVERWRITE_CHUNK_SIZE);
    assert_eq!(next_chunk_len(100 * 1024), OVERWRITE_CHUNK_SIZE);
}

#[test]
fn fill_patterns() {
    assert_eq!(fill_pattern(OverwritePattern::Zeros, 4), vec![0, 0, 0, 0]);
    assert_eq!(fill_pattern(OverwritePattern::Ones, 2), vec![0xFF, 0xFF]);
    assert_eq!(fill_pattern(OverwritePattern::Pattern(0xAA), 3), vec![0xAA; 3]);
    let r = fill_pattern(OverwritePattern::Random, 4096);
    assert_eq!(r.len(), 4096);
    assert!(r.iter().any(|&b| b != r[0]));
}

#[test]
fn mode_names() {
    assert_eq!(parse_delete_mode("quick"), SecureDeleteMode::Quick);
    assert_eq!(parse_delete_mode("Q"), SecureDeleteMode::Quick);
    assert_eq!(parse_delete_mode("PARANOID"), SecureDeleteMode::Paranoid);
    assert_eq!(parse_delete_mode("p"), SecureDeleteMode::Paranoid);
    assert_eq!(parse_delete_mode("s"), SecureDeleteMode::Standard);
    assert_eq!(parse_delete_mode("whatever"), SecureDeleteMode::Standard);
}

#[test]
fn wiper_standard_mode_actions() {
    let size = (OVERWRITE_CHUNK_SIZE + 10) as u64;
    let mut wiper = Wiper::new(SecureDeleteMode::Standard, size);
    let mut trace = Vec::new();
    let mut pass_bytes = Vec::new();
    loop {
        match wiper.next_action() {
            WipeAction::SeekStart => {
                trace.push("seek");
                pass_bytes.push(Vec::new());
            }
            WipeAction::Write(buf) => {
                trace.push("write");
                pass_bytes.last_mut().unwrap().extend_from_slice(&buf);
            }
            WipeAction::Sync => trace.push("sync"),
            WipeAction::Remove => trace.push("remove"),
            WipeAction::Done => break,
        }
    }
    assert_eq!(
        trace,
        vec![
            "seek", "write", "write", "sync", "seek", "write", "write", "sync", "seek", "write", "write", "sync",
            "remove"
        ]
    );
    assert_eq!(pass_bytes.len(), 3);
    assert!(pass_bytes.iter().all(|p| p.len() as u64 == size));
    assert!(pass_bytes[1].iter().all(|&b| b == 0));
    assert!(matches!(wiper.next_action(), WipeAction::Done));
}

#[test]
fn wiper_empty_file_is_removed_without_passes() {
    let mut wiper = Wiper::new(SecureDeleteMode::Paranoid, 0);
    assert!(matches!(wiper.next_action(), WipeAction::Remove));
    assert!(matches!(wiper.next_action(), WipeAction::Done));
}

#[test]
fn wiper_paranoid_patterns() {
    let mut wiper = Wiper::new(SecureDeleteMode::Paranoid, 3);
    let mut passes = Vec::new();
    loop {
        match wiper.next_action() {
            WipeAction::Write(buf) => passes.push(buf),
            WipeAction::Done => break,
            _ => {}
        }
    }
    assert_eq!(passes.len(), 7);
    assert_eq!(passes[1], vec![0xFF; 3]);
    assert_eq!(passes[3], vec![0xAA; 3]);
    assert_eq!(passes[4], vec![0x55; 3]);
}
