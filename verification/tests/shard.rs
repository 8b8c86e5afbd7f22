use gateway_bot::shard::{resolve_shard_stages, stage_text, ConnectionStage};

fn all_stages() -> Vec<ConnectionStage> {
    vec![
        ConnectionStage::Connecting,
        ConnectionStage::Handshake,
        ConnectionStage::Identifying,
        ConnectionStage::Resuming,
        ConnectionStage::Connected,
        ConnectionStage::Disconnected,
        ConnectionStage::Unknown,
    ]
}

#[test]
fn status_line_holds_the_shard_id_for_every_stage() {
    for stage in all_stages() {
        for id in [0u64, 7, 42, 1024, u64::MAX] {
            let line = resolve_shard_stages(stage, id);
            assert!(!line.is_empty());
            assert!(line.contains(&format!("Shard {} is in stage ", id)));
        }
    }
}

#[test]
fn unknown_stage_has_the_literal_label() {
    assert_eq!(stage_text(ConnectionStage::Unknown), "unknown");
    assert_eq!(
        resolve_shard_stages(ConnectionStage::Unknown, 3),
        "\x1b[0;33m[SHARD]\x1b[0m Shard 3 is in stage unknown"
    );
}

#[test]
fn connected_stage_line_is_exact() {
    assert_eq!(
        resolve_shard_stages(ConnectionStage::Connected, 0),
        "\x1b[0;33m[SHARD]\x1b[0m Shard 0 is in stage \u{1f7e2} \x1b[0;32mConnected\x1b[0m"
    );
}

#[test]
fn each_stage_has_its_label() {
    assert_eq!(stage_text(ConnectionStage::Connected), "\u{1f7e2} \x1b[0;32mConnected\x1b[0m");
    assert_eq!(stage_text(ConnectionStage::Connecting), "\u{1f7e1} \x1b[0;32mConnecting\x1b[0m");
    assert_eq!(
        stage_text(ConnectionStage::Disconnected),
        "\u{1f525} \x1b[0;31mDisconnected\x1b[0m"
    );
    assert_eq!(stage_text(ConnectionStage::Handshake), "\u{1f91d} \x1b[0;32mhandshaking\x1b[0m");
    assert_eq!(
        stage_text(ConnectionStage::Identifying),
        "\u{1f50e} \x1b[0;32mIdentifying\x1b[0m"
    );
    assert_eq!(stage_text(ConnectionStage::Resuming), "\u{1f7e1} \x1b[0;32mResuming\x1b[0m");
}

#[test]
fn status_line_ends_with_the_stage_label() {
    for stage in all_stages() {
        let line = resolve_shard_stages(stage, 12);
        assert!(line.ends_with(stage_text(stage)));
        assert!(line.starts_with("\x1b[0;33m[SHARD]\x1b[0m Shard 12 is in stage "));
    }
}
