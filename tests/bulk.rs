use hyperview::alarms::{alarm_filter_expression, plan_alarm_batches, AlarmBody, ACKNOWLEDGED_STATE};
use hyperview::batch::{make_batches, BULK_ACTION_BATCH_SIZE};
use hyperview::cli_data::{AlarmEventFilterOptions, ManageActionOptions};

fn ids(n: usize) -> Vec<String> {
    (0..n).map(|i| format!("event-{i}")).collect()
}

#[test]
fn two_hundred_fifty_ids_make_three_batches() {
    let work = ids(250);
    let batches = make_batches(&work, BULK_ACTION_BATCH_SIZE);
    let sizes: Vec<usize> = batches.iter().map(|b| b.len()).collect();
    assert_eq!(sizes, vec![100, 100, 50]);
    let joined: Vec<String> = batches.concat();
    assert_eq!(joined, work);
}

#[test]
fn batches_cover_input_in_order() {
    for (len, size) in [(0, 3), (1, 3), (3, 3), (7, 3), (9, 1), (5, 10)] {
        let work = ids(len);
        let batches = make_batches(&work, size);
        assert_eq!(batches.len(), (len + size - 1) / size);
        for (k, b) in batches.iter().enumerate() {
            if k + 1 < batches.len() {
                assert_eq!(b.len(), size);
            } else {
                assert!(!b.is_empty() && b.len() <= size);
            }
        }
        assert_eq!(batches.concat(), work);
    }
}

#[test]
fn empty_input_makes_no_batch() {
    assert!(make_batches(&Vec::new(), BULK_ACTION_BATCH_SIZE).is_empty());
}

#[test]
fn alarm_plan_uses_action_endpoint() {
    let plan = plan_alarm_batches("https://host", &ids(250), ManageActionOptions::Close);
    assert_eq!(plan.url, "https://host/api/asset/alarmEvents/bulkClose");
    assert_eq!(plan.batches.len(), 3);
    assert_eq!(plan.batches[2].len(), 50);
    let ack = plan_alarm_batches("https://host", &ids(1), ManageActionOptions::Acknowledge);
    assert_eq!(ack.url, "https://host/api/asset/alarmEvents/bulkAcknowledgementStates");
    assert_eq!(ack.action, ManageActionOptions::Acknowledge);
    assert_eq!(ack.batches, vec![vec!["event-0".to_string()]]);
}

#[test]
fn alarm_filter_expressions() {
    assert_eq!(
        alarm_filter_expression(AlarmEventFilterOptions::Unacknowledged),
        "[\"acknowledgementState\", \"=\", \"unacknowledged\"]"
    );
    assert_eq!(
        alarm_filter_expression(AlarmEventFilterOptions::Active),
        "[\"isActive\", \"=\", true]"
    );
}

#[test]
fn alarm_body_follows_action() {
    let close = plan_alarm_batches("h", &ids(2), ManageActionOptions::Close);
    assert_eq!(close.body, AlarmBody::EventIds);
    let ack = plan_alarm_batches("h", &ids(2), ManageActionOptions::Acknowledge);
    assert_eq!(ack.body, AlarmBody::Acknowledgement);
    assert_eq!(ACKNOWLEDGED_STATE, "acknowledged");
}
