use tip_term::session::{classify_read, interactive_env, plan_tick, PtyRead, ReadOutcome};
use tip_term::process::{choose_probe_pid, compose_process_info};
use tip_term::{get_process_info_by_pid, Color};

#[test]
fn classify_data_passes_bytes_through_unchanged() {
    let r = classify_read(ReadOutcome::Bytes(vec![1, 2, 3]));
    match r {
        PtyRead::Data(v) => assert_eq!(v, vec![1, 2, 3]),
        _ => panic!("expected data"),
    }
}

#[test]
fn classify_empty_read_means_closed() {
    assert!(matches!(classify_read(ReadOutcome::Bytes(Vec::new())), PtyRead::Closed));
}

#[test]
fn classify_would_block_and_busy_mean_empty() {
    assert!(matches!(classify_read(ReadOutcome::WouldBlock), PtyRead::Empty));
    assert!(matches!(classify_read(ReadOutcome::Busy), PtyRead::Empty));
}

#[test]
fn classify_fault_means_failed() {
    assert!(matches!(classify_read(ReadOutcome::Fault), PtyRead::Failed));
}

#[test]
fn one_of_two_concurrent_reads_gets_the_data() {
    // The pty has one chunk buffered; two attempts race, the mutex
    // serializes them.  The winner's read returns the chunk, the loser sees
    // the contended reader (or an already drained descriptor).
    let winner = classify_read(ReadOutcome::Bytes(vec![b'x', b'y']));
    let loser = classify_read(ReadOutcome::Busy);
    match winner {
        PtyRead::Data(v) => assert_eq!(v, b"xy".to_vec()),
        _ => panic!("the winning attempt must carry the chunk"),
    }
    assert!(matches!(loser, PtyRead::Empty));
}

#[test]
fn tick_plan_feeds_data_and_exits_on_death() {
    let t = plan_tick(&PtyRead::Data(vec![1]), true);
    assert!(t.feed);
    assert!(!t.exit);
    let t = plan_tick(&PtyRead::Empty, true);
    assert!(!t.feed);
    assert!(!t.exit);
    let t = plan_tick(&PtyRead::Closed, true);
    assert!(!t.feed);
    assert!(t.exit);
    let t = plan_tick(&PtyRead::Failed, true);
    assert!(t.exit);
    let t = plan_tick(&PtyRead::Empty, false);
    assert!(t.exit);
    let t = plan_tick(&PtyRead::Data(vec![1]), false);
    assert!(t.feed);
    assert!(t.exit);
}

#[test]
fn interactive_env_forces_terminal_type_color_and_locale() {
    let env = interactive_env();
    assert_eq!(env.len(), 3);
    assert_eq!(env[0], ("TERM".to_string(), "xterm-256color".to_string()));
    assert_eq!(env[1], ("COLORTERM".to_string(), "truecolor".to_string()));
    assert_eq!(env[2], ("LANG".to_string(), "en_US.UTF-8".to_string()));
}

#[test]
fn compose_info_requires_a_name_and_defaults_the_directory() {
    assert!(compose_process_info(None, Some("/tmp".to_string())).is_none());
    let info = compose_process_info(Some("zsh".to_string()), Some("/home/u".to_string())).unwrap();
    assert_eq!(info.name, "zsh");
    assert_eq!(info.cwd, "/home/u");
    let info = compose_process_info(Some("zsh".to_string()), None).unwrap();
    assert_eq!(info.cwd, "~");
}

#[test]
fn probe_pid_prefers_the_foreground_group() {
    assert_eq!(choose_probe_pid(Some(55), 10), 55);
    assert_eq!(choose_probe_pid(None, 10), 10);
}

#[test]
fn process_info_for_absent_pid_is_none() {
    // The largest pid value exists on no supported platform.
    assert!(get_process_info_by_pid(u32::MAX).is_none());
}

#[test]
fn color_hex_matches_the_palette() {
    assert_eq!(Color::Red.hex(), "#cd3131");
    assert_eq!(Color::White.hex(), "#e5e5e5");
    assert_eq!(Color::DefaultFg.hex(), "#e5e5e5");
    assert_eq!(Color::DefaultBg.hex(), "#0a0a0a");
    assert_eq!(Color::BrightBlack.hex(), "#666666");
    assert_eq!(Color::BrightWhite.hex(), "#ffffff");
}
