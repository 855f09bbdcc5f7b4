use vstd::prelude::*;

use crate::api_constants::{
    ASSET_ALARM_EVENT_BULK_ACKNOWLEDGE_API_PREFIX, ASSET_ALARM_EVENT_BULK_CLOSE_API_PREFIX,
};
use crate::batch::{batches_of, make_batches, BULK_ACTION_BATCH_SIZE};
use crate::cli_data::{AlarmEventFilterOptions, ManageActionOptions};

verus! {

/// An alarm event as the service lists it.
#[derive(Debug, Clone, Default)]
pub struct AlarmEventDto {
    pub id: String,
    pub severity: String,
    pub asset_name: String,
    pub asset_location_path: String,
    pub alarm_event_setting_id: String,
    pub asset_id: String,
    pub start_timestamp: String,
    pub end_timestamp: String,
    pub acknowledgement_state: String,
    pub acknowledged_by: String,
    pub acknowledged_timestamp: String,
    pub closed_by: String,
    pub alarm_event_category: String,
    pub is_active: bool,
    pub property_values: String,
    pub text_template: String,
}

/// One page of alarm events.
#[derive(Debug, Clone, Default)]
pub struct AlarmListResponse {
    pub data: Vec<AlarmEventDto>,
    pub group_count: i64,
    pub total_count: i64,
}

/// The filter expression of an alarm listing.
pub open spec fn alarm_filter_text(o: AlarmEventFilterOptions) -> Seq<char> {
    match o {
        AlarmEventFilterOptions::Unacknowledged => "[\"acknowledgementState\", \"=\", \"unacknowledged\"]"@,
        AlarmEventFilterOptions::Active => "[\"isActive\", \"=\", true]"@,
    }
}

/// The filter expression that selects the alarm events of option `o`.
pub fn alarm_filter_expression(o: AlarmEventFilterOptions) -> (r: &'static str)
    ensures
        r@ == alarm_filter_text(o),
{
    match o {
        AlarmEventFilterOptions::Unacknowledged => "[\"acknowledgementState\", \"=\", \"unacknowledged\"]",
        AlarmEventFilterOptions::Active => "[\"isActive\", \"=\", true]",
    }
}

/// The endpoint path of a bulk alarm action.
pub open spec fn alarm_action_path(a: ManageActionOptions) -> Seq<char> {
    match a {
        ManageActionOptions::Close => ASSET_ALARM_EVENT_BULK_CLOSE_API_PREFIX@,
        ManageActionOptions::Acknowledge => ASSET_ALARM_EVENT_BULK_ACKNOWLEDGE_API_PREFIX@,
    }
}

/// The acknowledgement state an acknowledging run sets.
pub const ACKNOWLEDGED_STATE: &'static str = "acknowledged";

/// The shape of the body of one bulk alarm call.
#[derive(Debug, Clone, Copy, PartialEq, Eq, Structural)]
pub enum AlarmBody {
    /// The batch of event ids itself.
    EventIds,
    /// The batch of event ids with the acknowledgement state to set.
    Acknowledgement,
}

/// The body shape of action `a`.
pub open spec fn alarm_body_of(a: ManageActionOptions) -> AlarmBody {
    match a {
        ManageActionOptions::Close => AlarmBody::EventIds,
        ManageActionOptions::Acknowledge => AlarmBody::Acknowledgement,
    }
}

/// The calls of a bulk alarm run: one to `url` per batch, in order, each with
/// a body of shape `body`.
#[derive(Debug, Clone)]
pub struct AlarmBatchPlan {
    pub url: String,
    pub action: ManageActionOptions,
    pub body: AlarmBody,
    pub batches: Vec<Vec<String>>,
}

/// Plans a bulk alarm run over the event ids `ids`: the action's endpoint on
/// the instance, and the ids in batches of the bulk batch size.
pub fn plan_alarm_batches(instance_url: &str, ids: &Vec<String>, action: ManageActionOptions) -> (r:
    AlarmBatchPlan)
    ensures
        r.url@ == instance_url@ + alarm_action_path(action),
        r.action == action,
        r.body == alarm_body_of(action),
        r.batches@.map_values(|b: Vec<String>| b@) == batches_of(
            ids@,
            BULK_ACTION_BATCH_SIZE as int,
        ),
{
    let mut url = String::from_str(instance_url);
    match action {
        ManageActionOptions::Close => url.append(ASSET_ALARM_EVENT_BULK_CLOSE_API_PREFIX),
        ManageActionOptions::Acknowledge => url.append(
            ASSET_ALARM_EVENT_BULK_ACKNOWLEDGE_API_PREFIX,
        ),
    }
    let body = match action {
        ManageActionOptions::Close => AlarmBody::EventIds,
        ManageActionOptions::Acknowledge => AlarmBody::Acknowledgement,
    };
    AlarmBatchPlan { url, action, body, batches: make_batches(ids, BULK_ACTION_BATCH_SIZE) }
}

} // verus!
