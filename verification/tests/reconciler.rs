use hh_notifier::config::BotConfig;
use hh_notifier::messages_generator::MessageManager;
use hh_notifier::notifier::Action;
use hh_notifier::notifier::ChannelState;
use hh_notifier::notifier::Message;
use hh_notifier::notifier::Notifier;
use hh_notifier::notifier::Trigger;

const BOT: u64 = 1000;
const ROLE: u64 = 99;
// 2024-01-01T10:00:00Z, before the 18:00-22:00 window.
const NOW: u64 = 1704103200;
const INFO: &str = "Happy Hour starts <t:1704132000:R> at <t:1704132000:t>";
const NOTIFY: &str = "<@&99> Happy Hour!";

fn notifier() -> Notifier {
    let config = BotConfig {
        role_id: ROLE,
        start: 18,
        end: 22,
        notify_shift: 10,
        channel_id: 7,
    };
    Notifier::new(BOT, MessageManager::new(config), config)
}

fn msg(id: u64, author_id: u64, content: &str) -> Message {
    Message {
        id,
        author_id,
        content: content.to_string(),
    }
}

/// What executing a plan does to a channel observed newest-first:
/// the check the ghost channel model makes, replayed on real values.
fn apply(mut channel: Vec<(u64, u64, String)>, acts: &[Action], mut fresh: u64) -> Vec<(u64, u64, String)> {
    for act in acts {
        match act {
            Action::Delete { message_id } => channel.retain(|m| m.0 != *message_id),
            Action::Edit { message_id, body } => {
                for m in channel.iter_mut() {
                    if m.0 == *message_id {
                        m.2 = body.clone();
                    }
                }
            }
            Action::Send { body, .. } => {
                channel.insert(0, (fresh, BOT, body.clone()));
                fresh += 1;
            }
        }
    }
    channel
}

#[test]
fn classify_shapes() {
    let n = notifier();
    assert_eq!(n.state(&vec![]), ChannelState::Uninitialized);
    assert_eq!(n.state(&vec![msg(1, BOT, "a")]), ChannelState::NonNotified);
    assert_eq!(n.state(&vec![msg(1, 5, "a")]), ChannelState::Uninitialized);
    assert_eq!(n.state(&vec![msg(1, BOT, "a"), msg(2, BOT, "b")]), ChannelState::Notified);
    assert_eq!(n.state(&vec![msg(1, BOT, "a"), msg(2, 5, "b")]), ChannelState::Uninitialized);
    assert_eq!(
        n.state(&vec![msg(1, BOT, "a"), msg(2, BOT, "b"), msg(3, BOT, "c")]),
        ChannelState::Uninitialized
    );
}

#[test]
fn channel_accessor() {
    assert_eq!(notifier().channel(), 7);
}

#[test]
fn notify_from_uninitialized_rebuilds_channel() {
    let n = notifier();
    let observed = vec![msg(41, 5, "someone else's message")];
    let acts = n.notify(&observed, NOW);
    assert_eq!(acts.len(), 3);
    assert!(matches!(&acts[0], Action::Delete { message_id: 41 }));
    match &acts[1] {
        Action::Send { body, ping_role } => {
            assert_eq!(body, INFO);
            assert_eq!(*ping_role, None);
        }
        _ => panic!("expected a send"),
    }
    match &acts[2] {
        Action::Send { body, ping_role } => {
            assert_eq!(body, NOTIFY);
            assert_eq!(*ping_role, Some(ROLE));
        }
        _ => panic!("expected a send"),
    }
    let after = apply(vec![(41, 5, "someone else's message".to_string())], &acts, 100);
    assert_eq!(after.len(), 2);
    assert_eq!(after[0].1, BOT);
    assert_eq!(after[1].1, BOT);
    assert_eq!(after[0].2, NOTIFY);
    assert_eq!(after[1].2, INFO);
}

#[test]
fn end_from_notified_deletes_the_notify_message() {
    let n = notifier();
    let observed = vec![msg(9, BOT, NOTIFY), msg(8, BOT, "old info")];
    let acts = n.unnotify(&observed, NOW);
    assert_eq!(acts.len(), 1);
    assert!(matches!(&acts[0], Action::Delete { message_id: 9 }));
    let after = apply(
        vec![(9, BOT, NOTIFY.to_string()), (8, BOT, "old info".to_string())],
        &acts,
        100,
    );
    assert_eq!(after.len(), 1);
    assert_eq!(after[0], (8, BOT, "old info".to_string()));
}

#[test]
fn refresh_from_non_notified_edits_in_place() {
    let n = notifier();
    let observed = vec![msg(8, BOT, "old info")];
    let acts = n.update_time(&observed, NOW);
    assert_eq!(acts.len(), 1);
    match &acts[0] {
        Action::Edit { message_id, body } => {
            assert_eq!(*message_id, 8);
            assert_eq!(body, INFO);
        }
        _ => panic!("expected an edit"),
    }
}

#[test]
fn refresh_is_idempotent_from_non_notified() {
    let n = notifier();
    let c0 = vec![(8, BOT, "old info".to_string())];
    let acts1 = n.update_time(&vec![msg(8, BOT, "old info")], NOW);
    let c1 = apply(c0, &acts1, 100);
    let observed: Vec<Message> = c1.iter().map(|m| msg(m.0, m.1, &m.2)).collect();
    let acts2 = n.update_time(&observed, NOW);
    let c2 = apply(c1.clone(), &acts2, 200);
    assert_eq!(c2, c1);
}

#[test]
fn refresh_from_notified_edits_the_info_message() {
    let n = notifier();
    let observed = vec![msg(9, BOT, NOTIFY), msg(8, BOT, "old info")];
    let acts = n.update_time(&observed, NOW);
    assert_eq!(acts.len(), 1);
    match &acts[0] {
        Action::Edit { message_id, body } => {
            assert_eq!(*message_id, 8);
            assert_eq!(body, INFO);
        }
        _ => panic!("expected an edit"),
    }
}

#[test]
fn refresh_from_uninitialized_reinitializes() {
    let n = notifier();
    let observed = vec![msg(1, 5, "x"), msg(2, BOT, "y"), msg(3, 6, "z")];
    let acts = n.update_time(&observed, NOW);
    assert_eq!(acts.len(), 4);
    assert!(matches!(&acts[0], Action::Delete { message_id: 1 }));
    assert!(matches!(&acts[1], Action::Delete { message_id: 2 }));
    assert!(matches!(&acts[2], Action::Delete { message_id: 3 }));
    match &acts[3] {
        Action::Send { body, ping_role } => {
            assert_eq!(body, INFO);
            assert_eq!(*ping_role, None);
        }
        _ => panic!("expected a send"),
    }
}

#[test]
fn end_from_uninitialized_reinitializes() {
    let n = notifier();
    let observed = vec![msg(1, 5, "x"), msg(2, 6, "y")];
    let acts = n.unnotify(&observed, NOW);
    assert_eq!(acts.len(), 3);
    assert!(matches!(&acts[0], Action::Delete { message_id: 1 }));
    assert!(matches!(&acts[1], Action::Delete { message_id: 2 }));
    match &acts[2] {
        Action::Send { body, ping_role } => {
            assert_eq!(body, INFO);
            assert_eq!(*ping_role, None);
        }
        _ => panic!("expected a send"),
    }
    let after = apply(
        vec![(1, 5, "x".to_string()), (2, 6, "y".to_string())],
        &acts,
        100,
    );
    assert_eq!(after.len(), 1);
    assert_eq!(after[0].1, BOT);
    assert_eq!(after[0].2, INFO);
}

#[test]
fn refresh_body_during_window_through_reconcile() {
    let n = notifier();
    // 2024-01-01T20:00:00Z, inside the 18:00-22:00 window.
    let acts = n.update_time(&vec![msg(8, BOT, "old info")], 1704139200);
    match &acts[0] {
        Action::Edit { body, .. } => {
            assert_eq!(body, "Happy Hour ends <t:1704146400:R> at <t:1704146400:t>");
        }
        _ => panic!("expected an edit"),
    }
}

#[test]
fn notify_from_non_notified_sends_one_ping() {
    let n = notifier();
    let acts = n.notify(&vec![msg(8, BOT, "old info")], NOW);
    assert_eq!(acts.len(), 1);
    match &acts[0] {
        Action::Send { body, ping_role } => {
            assert_eq!(body, NOTIFY);
            assert_eq!(*ping_role, Some(ROLE));
        }
        _ => panic!("expected a send"),
    }
}

#[test]
fn notify_from_notified_is_a_no_op() {
    let n = notifier();
    let acts = n.notify(&vec![msg(9, BOT, NOTIFY), msg(8, BOT, "info")], NOW);
    assert!(acts.is_empty());
}

#[test]
fn end_from_non_notified_is_a_no_op() {
    let n = notifier();
    let acts = n.unnotify(&vec![msg(8, BOT, "info")], NOW);
    assert!(acts.is_empty());
}

#[test]
fn only_the_notify_send_pings() {
    let n = notifier();
    let observations = [
        vec![],
        vec![msg(1, 5, "foreign")],
        vec![msg(8, BOT, "info")],
        vec![msg(9, BOT, NOTIFY), msg(8, BOT, "info")],
    ];
    for obs in observations {
        for trigger in [Trigger::Refresh, Trigger::Notify, Trigger::End] {
            for act in n.reconcile(trigger, &obs, NOW) {
                if let Action::Send { body, ping_role } = act {
                    if ping_role.is_some() {
                        assert_eq!(trigger, Trigger::Notify);
                        assert_eq!(body, NOTIFY);
                    } else {
                        assert_ne!(body, NOTIFY);
                    }
                }
            }
        }
    }
}
