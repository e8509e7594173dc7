use xmip_journey::{
    ChainCause, ChainLimit, ExecutionId, Journey, JourneyEntry, JourneyId, JourneyMessageRef,
    JourneyState, MessageId, StreamId,
};

#[test]
fn a_new_journey_is_active_and_has_no_predecessor() {
    let journey = Journey::new(JourneyId::new(1));

    assert_eq!(journey.state, JourneyState::Active);
    assert!(journey.previous_journey_id.is_none());
    assert!(!journey.state.is_terminal());
}

fn caused_by(previous: &Journey, id: u128) -> Journey {
    Journey::following(
        JourneyId::new(id),
        previous,
        ChainCause::subscription("billing"),
        ChainLimit::default(),
    )
    .expect("the default limit permits this depth")
}

#[test]
fn a_following_journey_names_the_one_before_it() {
    let first = Journey::new(JourneyId::new(1));
    let second = caused_by(&first, 2);

    assert_eq!(second.previous_journey_id, Some(first.journey_id));
    assert_eq!(second.cause, Some(ChainCause::subscription("billing")));
}

#[test]
fn several_journeys_may_share_one_previous() {
    // One Publication matching three Subscriptions. Each Journey is a
    // line; the relationships between them are not.
    let first = Journey::new(JourneyId::new(1));
    let journeys: Vec<Journey> = (2..5).map(|n| caused_by(&first, n)).collect();

    assert!(
        journeys
            .iter()
            .all(|j| j.previous_journey_id == Some(first.journey_id))
    );

    // Siblings, not a deepening chain. Three matches of one Publication
    // are all one link from the Journey that published.
    assert!(journeys.iter().all(|j| j.depth == 1));
}

#[test]
fn a_journey_that_arrived_from_outside_is_at_depth_zero() {
    let journey = Journey::new(JourneyId::new(1));

    assert_eq!(journey.depth, 0);
    assert!(journey.cause.is_none());
}

#[test]
fn each_link_deepens_the_chain_by_one() {
    let mut journey = Journey::new(JourneyId::new(1));

    for id in 2..12 {
        journey = caused_by(&journey, id);
    }

    assert_eq!(journey.depth, 10);
}

#[test]
fn the_chain_is_refused_at_the_limit_and_says_what_formed_it() {
    let limit = ChainLimit::new(2);
    let mut journey = Journey::new(JourneyId::new(1));

    for id in 2..4 {
        journey = Journey::following(
            JourneyId::new(id),
            &journey,
            ChainCause::process("billing", "Approval"),
            limit,
        )
        .expect("within the limit");
    }

    let refused = Journey::following(
        JourneyId::new(4),
        &journey,
        ChainCause::process("billing", "Approval"),
        limit,
    )
    .expect_err("the third link is past a limit of two");

    assert_eq!(refused.depth, 2);
    assert_eq!(refused.limit, limit);
    assert_eq!(refused.previous_journey_id, journey.journey_id);
    assert_eq!(refused.cause.subscription_id, "billing");
    assert_eq!(refused.cause.xmip_process.as_deref(), Some("Approval"));
}

#[test]
fn a_refused_link_leaves_the_previous_journey_untouched() {
    // Refusing to extend a chain is not a failure of the Journey that
    // published. It goes on being whatever it was.
    let journey = Journey::new(JourneyId::new(1));
    let before = journey.clone();

    let refused = Journey::following(
        JourneyId::new(2),
        &journey,
        ChainCause::subscription("billing"),
        ChainLimit::new(0),
    );

    assert!(refused.is_err());
    assert_eq!(journey, before);
}

#[test]
fn dismissed_is_terminal_but_is_not_a_failure() {
    assert!(JourneyState::Dismissed.is_terminal());
    assert!(JourneyState::Dismissed.is_incomplete());
    assert_ne!(JourneyState::Dismissed, JourneyState::Failed);
}

#[test]
fn suspended_and_recovering_are_not_terminal() {
    assert!(!JourneyState::Suspended.is_terminal());
    assert!(!JourneyState::Recovering.is_terminal());
}

#[test]
fn every_state_is_terminal_or_incomplete_as_documented() {
    let cases = [
        (JourneyState::Active, false, false),
        (JourneyState::Waiting, false, false),
        (JourneyState::Suspended, false, false),
        (JourneyState::Recovering, false, false),
        (JourneyState::Completed, true, false),
        (JourneyState::Failed, true, true),
        (JourneyState::Dismissed, true, true),
    ];
    for (state, terminal, incomplete) in cases {
        assert_eq!(state.is_terminal(), terminal);
        assert_eq!(state.is_incomplete(), incomplete);
        // An incomplete Journey has always stopped for good.
        assert!(!state.is_incomplete() || state.is_terminal());
    }
}

#[test]
fn a_new_journey_has_no_history() {
    let journey = Journey::new(JourneyId::new(9));
    assert_eq!(journey.journey_id, JourneyId::new(9));
    assert!(journey.entries.is_empty());
    assert!(journey.messages.is_empty());
    assert!(journey.current_xmip_process.is_none());
}

#[test]
fn a_following_journey_starts_fresh() {
    let mut first = Journey::new(JourneyId::new(1));
    first = first.append(entry(1, "start"), JourneyState::Waiting);
    let second = Journey::following(
        JourneyId::new(2),
        &first,
        ChainCause::process("orders", "Fulfil"),
        ChainLimit::new(1),
    )
    .expect("one link is within a limit of one");

    assert_eq!(second.journey_id, JourneyId::new(2));
    assert_eq!(second.state, JourneyState::Active);
    assert_eq!(second.depth, 1);
    assert!(second.entries.is_empty());
    assert!(second.messages.is_empty());
    assert_eq!(second.cause, Some(ChainCause::process("orders", "Fulfil")));

    let refused = Journey::following(
        JourneyId::new(3),
        &second,
        ChainCause::subscription("orders"),
        ChainLimit::new(1),
    )
    .expect_err("a second link is past a limit of one");
    assert_eq!(refused.depth, 1);
    assert_eq!(refused.limit.links(), 1);
    assert_eq!(refused.previous_journey_id, JourneyId::new(2));
    assert_eq!(refused.cause, ChainCause::subscription("orders"));
}

#[test]
fn a_limit_of_n_permits_n_links() {
    let limit = ChainLimit::new(3);
    let mut journey = Journey::new(JourneyId::new(1));
    for id in 2..5 {
        journey = Journey::following(
            JourneyId::new(id),
            &journey,
            ChainCause::subscription("loop"),
            limit,
        )
        .expect("within the limit");
    }
    assert_eq!(journey.depth, 3);
    let refused = Journey::following(
        JourneyId::new(5),
        &journey,
        ChainCause::subscription("loop"),
        limit,
    )
    .expect_err("the fourth link is past a limit of three");
    assert_eq!(refused.depth, limit.links());
}

fn entry(n: u128, action: &str) -> JourneyEntry {
    JourneyEntry {
        execution_id: ExecutionId::new(n),
        message_id: MessageId::new(n),
        action: action.to_string(),
        outcome: "ok".to_string(),
        timestamp_unix_nanos: -5,
    }
}

#[test]
fn append_adds_to_the_record_and_moves_the_state() {
    let journey = Journey::new(JourneyId::new(1))
        .append(entry(1, "receive"), JourneyState::Waiting)
        .append(entry(2, "deliver"), JourneyState::Completed);

    assert_eq!(journey.entries.len(), 2);
    assert_eq!(journey.entries[0], entry(1, "receive"));
    assert_eq!(journey.entries[1], entry(2, "deliver"));
    assert_eq!(journey.state, JourneyState::Completed);
    assert_eq!(journey.journey_id, JourneyId::new(1));
    assert_eq!(journey.depth, 0);
    assert!(journey.messages.is_empty());
}

#[test]
fn holding_records_each_message_generation() {
    let first = JourneyMessageRef {
        message_id: MessageId::new(10),
        stream_id: StreamId::new(20),
    };
    let second = JourneyMessageRef {
        message_id: MessageId::new(11),
        stream_id: StreamId::new(20),
    };
    let journey = Journey::new(JourneyId::new(1)).holding(first).holding(second);

    assert_eq!(journey.messages, vec![first, second]);
    assert_eq!(journey.state, JourneyState::Active);
    assert!(journey.entries.is_empty());
    assert_eq!(journey.messages[0].message_id.get(), 10);
    assert_eq!(journey.messages[1].stream_id.get(), 20);
}

#[test]
fn a_refusal_reports_the_limit_in_force_as_its_depth() {
    // A Journey grown under the default limit, then refused under a lower one.
    let mut journey = Journey::new(JourneyId::new(1));
    for id in 2..7 {
        journey = caused_by(&journey, id);
    }
    assert_eq!(journey.depth, 5);

    let refused = Journey::following(
        JourneyId::new(7),
        &journey,
        ChainCause::subscription("billing"),
        ChainLimit::new(2),
    )
    .expect_err("depth five is past a limit of two");

    assert_eq!(refused.depth, 2);
    assert_eq!(refused.limit, ChainLimit::new(2));
    assert!(refused.to_string().contains("depth 2 of 2"));
    assert_eq!(journey.depth, 5);
}
