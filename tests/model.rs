use text_vc_error_bomber::Model;

#[test]
fn normal_case_1() {
    let mut m = Model::new();
    m.add_channel_name_pair(0, 1, "VC1".to_string()); // VC
    m.add_channel_name_pair(0, 2, "VC1".to_string()); // Text

    m.add_or_update_user_voice_status(2, 0, 1);

    // User is in VC, and write text channel for VC.
    assert_eq!(m.msg_is_out_of_vc(&2, 0, 2), false);
    // User is in VC, but write text channel that is not for VC.
    assert_eq!(m.msg_is_out_of_vc(&2, 0, 3), true);
    // User is not in VC, and write text channel for VC.
    assert_eq!(m.msg_is_out_of_vc(&3, 0, 2), false);
    // User is not in VC, and write text channel that is not for VC.
    assert_eq!(m.msg_is_out_of_vc(&3, 0, 3), false);
}

fn names_of(m: &Model) -> Vec<(u64, u64, String)> {
    let mut v = m.channel_name_entries();
    v.sort();
    v
}

fn presences_of(m: &Model) -> Vec<(u64, u64, u64)> {
    let mut v = m.voice_presence_entries();
    v.sort();
    v
}

#[test]
fn channel_name_upsert_then_remove() {
    let mut m = Model::new();
    m.add_channel_name_pair(5, 7, "general".to_string());
    assert_eq!(names_of(&m), vec![(5, 7, "general".to_string())]);
    m.add_channel_name_pair(5, 7, "renamed".to_string());
    assert_eq!(names_of(&m), vec![(5, 7, "renamed".to_string())]);
    m.remove_channel_name_pair(5, 7);
    assert!(names_of(&m).is_empty());
}

#[test]
fn empty_channel_name_is_a_name() {
    let mut m = Model::new();
    m.add_channel_name_pair(0, 1, String::new());
    m.add_channel_name_pair(0, 2, String::new());
    m.add_or_update_user_voice_status(9, 0, 1);
    assert_eq!(m.msg_is_out_of_vc(&9, 0, 2), false);
}

#[test]
fn voice_presence_overwrite_then_remove() {
    let mut m = Model::new();
    m.add_or_update_user_voice_status(4, 1, 10);
    assert_eq!(presences_of(&m), vec![(4, 1, 10)]);
    m.add_or_update_user_voice_status(4, 2, 20);
    assert_eq!(presences_of(&m), vec![(4, 2, 20)]);
    m.remove_user_voice_status(&4);
    assert!(presences_of(&m).is_empty());
}

#[test]
fn reset_forgets_both_tables() {
    let mut m = Model::new();
    m.add_channel_name_pair(0, 1, "VC1".to_string());
    m.add_channel_name_pair(0, 2, "VC1".to_string());
    m.add_or_update_user_voice_status(2, 0, 1);
    m.clear();
    assert!(names_of(&m).is_empty());
    assert!(presences_of(&m).is_empty());
    assert_eq!(m.msg_is_out_of_vc(&2, 0, 2), false);
}

#[test]
fn repeated_updates_are_idempotent() {
    let mut once = Model::new();
    let mut twice = Model::new();
    once.add_channel_name_pair(1, 2, "a".to_string());
    twice.add_channel_name_pair(1, 2, "a".to_string());
    twice.add_channel_name_pair(1, 2, "a".to_string());
    once.add_or_update_user_voice_status(3, 1, 2);
    twice.add_or_update_user_voice_status(3, 1, 2);
    twice.add_or_update_user_voice_status(3, 1, 2);
    assert_eq!(names_of(&once), names_of(&twice));
    assert_eq!(presences_of(&once), presences_of(&twice));
    once.remove_channel_name_pair(1, 2);
    twice.remove_channel_name_pair(1, 2);
    twice.remove_channel_name_pair(1, 2);
    once.remove_user_voice_status(&3);
    twice.remove_user_voice_status(&3);
    twice.remove_user_voice_status(&3);
    assert_eq!(names_of(&once), names_of(&twice));
    assert_eq!(presences_of(&once), presences_of(&twice));
    assert_eq!(once.dump(), twice.dump());
}

#[test]
fn removing_unknown_entries_is_a_no_op() {
    let mut m = Model::new();
    m.add_channel_name_pair(0, 1, "x".to_string());
    m.remove_channel_name_pair(0, 2);
    m.remove_user_voice_status(&8);
    assert_eq!(names_of(&m), vec![(0, 1, "x".to_string())]);
    assert!(presences_of(&m).is_empty());
}

#[test]
fn same_name_in_other_channel_matches() {
    let mut m = Model::new();
    m.add_channel_name_pair(0, 10, "Lounge".to_string());
    m.add_channel_name_pair(0, 20, "Lounge".to_string());
    m.add_or_update_user_voice_status(1, 0, 10);
    assert_eq!(m.msg_is_out_of_vc(&1, 0, 20), false);
}

#[test]
fn different_name_is_out_of_vc() {
    let mut m = Model::new();
    m.add_channel_name_pair(0, 10, "Lounge".to_string());
    m.add_channel_name_pair(0, 20, "Chat".to_string());
    m.add_or_update_user_voice_status(1, 0, 10);
    assert_eq!(m.msg_is_out_of_vc(&1, 0, 20), true);
}

#[test]
fn unresolved_names_never_match() {
    let mut m = Model::new();
    m.add_or_update_user_voice_status(1, 0, 10);
    // Neither the voice channel nor the text channel has a known name.
    assert_eq!(m.msg_is_out_of_vc(&1, 0, 20), true);
    m.add_channel_name_pair(0, 20, "Lounge".to_string());
    // Only the text channel has a known name.
    assert_eq!(m.msg_is_out_of_vc(&1, 0, 20), true);
}

#[test]
fn resync_with_names_only_leaves_no_presence() {
    let mut m = Model::new();
    m.add_channel_name_pair(0, 1, "VC1".to_string());
    m.add_or_update_user_voice_status(2, 0, 1);
    m.clear();
    m.add_guild_snapshot(
        0,
        &vec![(0, 1, "VC1".to_string()), (0, 2, "text".to_string())],
        &vec![(2, None)],
    );
    assert_eq!(
        names_of(&m),
        vec![(0, 1, "VC1".to_string()), (0, 2, "text".to_string())]
    );
    assert!(presences_of(&m).is_empty());
}

#[test]
fn guild_snapshot_records_channels_and_voice() {
    let mut m = Model::new();
    m.add_guild_snapshot(
        7,
        &vec![(7, 1, "a".to_string()), (7, 1, "b".to_string()), (7, 2, "c".to_string())],
        &vec![(11, Some(1)), (12, None), (11, Some(2))],
    );
    assert_eq!(
        names_of(&m),
        vec![(7, 1, "b".to_string()), (7, 2, "c".to_string())]
    );
    assert_eq!(presences_of(&m), vec![(11, 7, 2)]);
}

#[test]
fn voice_state_update_moves_and_leaves() {
    let mut m = Model::new();
    m.update_voice_state(5, Some(1), Some(2));
    assert_eq!(presences_of(&m), vec![(5, 1, 2)]);
    m.update_voice_state(5, Some(1), Some(3));
    assert_eq!(presences_of(&m), vec![(5, 1, 3)]);
    m.update_voice_state(5, Some(1), None);
    assert!(presences_of(&m).is_empty());
    m.update_voice_state(5, Some(1), Some(3));
    m.update_voice_state(5, None, Some(3));
    assert!(presences_of(&m).is_empty());
}

#[test]
fn warnings_only_for_guild_messages() {
    let mut m = Model::new();
    m.add_channel_name_pair(0, 1, "VC1".to_string());
    m.add_or_update_user_voice_status(2, 0, 1);
    assert_eq!(m.should_warn(&2, Some(0), 3), true);
    assert_eq!(m.should_warn(&2, None, 3), false);
    assert_eq!(m.should_warn(&2, Some(0), 1), false);
}
