use bambumate::commands::profile::ProfileMetadataInfo;
use bambumate::profile::info::{parse_profile_info, to_info_string};

fn meta() -> ProfileMetadataInfo {
    ProfileMetadataInfo {
        sync_info: String::new(),
        user_id: "12345".to_string(),
        setting_id: "PFUS0123456789abcd".to_string(),
        base_id: "GFSA04".to_string(),
        updated_time: 1_714_000_000,
    }
}

#[test]
fn info_text_has_one_line_per_field() {
    assert_eq!(
        to_info_string(&meta()),
        "sync_info = \nuser_id = 12345\nsetting_id = PFUS0123456789abcd\nbase_id = GFSA04\nupdated_time = 1714000000\n"
    );
}

#[test]
fn info_text_reads_back() {
    let m = meta();
    let back = parse_profile_info(&to_info_string(&m));
    assert_eq!(back.sync_info, m.sync_info);
    assert_eq!(back.user_id, m.user_id);
    assert_eq!(back.setting_id, m.setting_id);
    assert_eq!(back.base_id, m.base_id);
    assert_eq!(back.updated_time, m.updated_time);
}

#[test]
fn info_lines_are_trimmed_and_last_wins() {
    let m = parse_profile_info("  user_id=  7 \nnot a field\nbase_id = a=b\nuser_id = 8\nupdated_time = soon\n");
    assert_eq!(m.user_id, "8");
    assert_eq!(m.base_id, "a=b");
    assert_eq!(m.setting_id, "");
    assert_eq!(m.sync_info, "");
    assert_eq!(m.updated_time, 0);
}

#[test]
fn info_time_fills_sixty_four_bits() {
    let m = parse_profile_info("updated_time = 18446744073709551615");
    assert_eq!(m.updated_time, u64::MAX);
    let m = parse_profile_info("updated_time = 18446744073709551616");
    assert_eq!(m.updated_time, 0);
}
