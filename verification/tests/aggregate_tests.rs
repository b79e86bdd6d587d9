use ironbridge::access::{
    aggregate, to_failed_result, to_succeeded_result, to_target_list, AccessChangeOutcome,
    DocAccessEditErr, UserOrGroup,
};
use ironbridge::ids::{GroupId, UserId};

fn user(raw: &str) -> UserOrGroup {
    UserOrGroup::User { id: UserId::validate(raw).unwrap() }
}

fn group(raw: &str) -> UserOrGroup {
    UserOrGroup::Group { id: GroupId::validate(raw).unwrap() }
}

#[test]
fn grant_scenario_partitions_by_kind_and_status() {
    // Batch grant targeting users [A, B] and groups [G1]: A succeeded,
    // B failed with "not found", G1 succeeded.
    let outcomes = vec![
        AccessChangeOutcome::Succeeded { target: user("A") },
        AccessChangeOutcome::Failed { target: user("B"), err: "not found".to_string() },
        AccessChangeOutcome::Succeeded { target: group("G1") },
    ];
    let (succeeded, failed) = aggregate(&outcomes);

    let su: Vec<String> = succeeded.users().iter().map(|u| u.id()).collect();
    let sg: Vec<String> = succeeded.groups().iter().map(|g| g.id()).collect();
    assert_eq!(su, vec!["A".to_string()]);
    assert_eq!(sg, vec!["G1".to_string()]);

    let fu: Vec<(String, String)> = failed.users().iter().map(|e| (e.id().id(), e.err())).collect();
    assert_eq!(fu, vec![("B".to_string(), "not found".to_string())]);
    assert!(failed.groups().is_empty());
    assert!(!failed.is_empty());
}

#[test]
fn aggregation_is_a_total_partition() {
    let outcomes = vec![
        AccessChangeOutcome::Succeeded { target: user("u1") },
        AccessChangeOutcome::Failed { target: group("g1"), err: "denied".to_string() },
        AccessChangeOutcome::Succeeded { target: group("g2") },
        AccessChangeOutcome::Failed { target: user("u2"), err: "missing".to_string() },
        AccessChangeOutcome::Succeeded { target: user("u3") },
        AccessChangeOutcome::Failed { target: user("u4"), err: "denied".to_string() },
    ];
    let (succeeded, failed) = aggregate(&outcomes);
    let total = succeeded.users().len() + succeeded.groups().len() + failed.users().len()
        + failed.groups().len();
    assert_eq!(total, outcomes.len());
}

#[test]
fn aggregation_preserves_order_within_each_group() {
    let outcomes = vec![
        AccessChangeOutcome::Succeeded { target: user("first") },
        AccessChangeOutcome::Failed { target: user("e1"), err: "a".to_string() },
        AccessChangeOutcome::Succeeded { target: group("ga") },
        AccessChangeOutcome::Succeeded { target: user("second") },
        AccessChangeOutcome::Failed { target: user("e2"), err: "b".to_string() },
        AccessChangeOutcome::Succeeded { target: group("gb") },
        AccessChangeOutcome::Succeeded { target: user("third") },
    ];
    let (succeeded, failed) = aggregate(&outcomes);
    let su: Vec<String> = succeeded.users().iter().map(|u| u.id()).collect();
    assert_eq!(su, vec!["first".to_string(), "second".to_string(), "third".to_string()]);
    let sg: Vec<String> = succeeded.groups().iter().map(|g| g.id()).collect();
    assert_eq!(sg, vec!["ga".to_string(), "gb".to_string()]);
    let fu: Vec<String> = failed.users().iter().map(|e| e.id().id()).collect();
    assert_eq!(fu, vec!["e1".to_string(), "e2".to_string()]);
}

#[test]
fn empty_batch_gives_empty_results() {
    let (succeeded, failed) = aggregate(&[]);
    assert!(succeeded.users().is_empty());
    assert!(succeeded.groups().is_empty());
    assert!(failed.is_empty());
}

#[test]
fn failed_result_is_empty_iff_both_sides_empty() {
    let none: Vec<AccessChangeOutcome> = vec![
        AccessChangeOutcome::Succeeded { target: user("u") },
    ];
    let (_, failed_none) = aggregate(&none);
    assert!(failed_none.is_empty());

    let user_only = vec![AccessChangeOutcome::Failed {
        target: user("u"),
        err: "x".to_string(),
    }];
    let (_, failed_user) = aggregate(&user_only);
    assert!(!failed_user.is_empty());

    let group_only = vec![AccessChangeOutcome::Failed {
        target: group("g"),
        err: "y".to_string(),
    }];
    let (_, failed_group) = aggregate(&group_only);
    assert!(!failed_group.is_empty());
}

#[test]
fn target_list_tags_users_then_groups_in_order() {
    let users = vec![
        UserId::validate("u1").unwrap(),
        UserId::validate("u2").unwrap(),
    ];
    let groups = vec![GroupId::validate("g1").unwrap()];
    let list = to_target_list(&users, &groups);
    assert_eq!(list.len(), 3);
    assert_eq!(list[0], UserOrGroup::User { id: UserId::validate("u1").unwrap() });
    assert_eq!(list[1], UserOrGroup::User { id: UserId::validate("u2").unwrap() });
    assert_eq!(list[2], UserOrGroup::Group { id: GroupId::validate("g1").unwrap() });
}

#[test]
fn succeeded_list_partitions_by_kind() {
    let successes = vec![user("u1"), group("g1"), user("u2")];
    let r = to_succeeded_result(&successes);
    let us: Vec<String> = r.users().iter().map(|u| u.id()).collect();
    let gs: Vec<String> = r.groups().iter().map(|g| g.id()).collect();
    assert_eq!(us, vec!["u1".to_string(), "u2".to_string()]);
    assert_eq!(gs, vec!["g1".to_string()]);
}

#[test]
fn failure_list_partitions_by_kind_and_keeps_messages() {
    let errs = vec![
        DocAccessEditErr { user_or_group: group("g1"), err: "no access".to_string() },
        DocAccessEditErr { user_or_group: user("u1"), err: "not found".to_string() },
    ];
    let r = to_failed_result(&errs);
    let us: Vec<(String, String)> = r.users().iter().map(|e| (e.id().id(), e.err())).collect();
    let gs: Vec<(String, String)> = r.groups().iter().map(|e| (e.id().id(), e.err())).collect();
    assert_eq!(us, vec![("u1".to_string(), "not found".to_string())]);
    assert_eq!(gs, vec![("g1".to_string(), "no access".to_string())]);
    assert!(!r.is_empty());
}
