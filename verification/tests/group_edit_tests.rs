use ironbridge::group_edit::{aggregate_user_outcomes, GroupUserList, UserAccessOutcome};
use ironbridge::ids::UserId;

fn uid(raw: &str) -> UserId {
    UserId::validate(raw).unwrap()
}

#[test]
fn member_remove_all_succeeded() {
    // Group-member-remove batch with users [X, Y], both succeeded: the
    // single-kind result carries only user sequences, no group-shaped fields.
    let outcomes = vec![
        UserAccessOutcome::Succeeded { id: uid("X") },
        UserAccessOutcome::Succeeded { id: uid("Y") },
    ];
    let r = aggregate_user_outcomes(&outcomes);
    let s: Vec<String> = r.succeeded().iter().map(|u| u.id()).collect();
    assert_eq!(s, vec!["X".to_string(), "Y".to_string()]);
    assert!(r.failed().is_empty());
}

#[test]
fn mixed_user_outcomes_partition_and_keep_order() {
    let outcomes = vec![
        UserAccessOutcome::Failed { id: uid("a"), err: "permission denied".to_string() },
        UserAccessOutcome::Succeeded { id: uid("b") },
        UserAccessOutcome::Failed { id: uid("c"), err: "not found".to_string() },
        UserAccessOutcome::Succeeded { id: uid("d") },
    ];
    let r = aggregate_user_outcomes(&outcomes);
    let s: Vec<String> = r.succeeded().iter().map(|u| u.id()).collect();
    assert_eq!(s, vec!["b".to_string(), "d".to_string()]);
    let f: Vec<(String, String)> = r.failed().iter().map(|e| (e.user().id(), e.error())).collect();
    assert_eq!(
        f,
        vec![
            ("a".to_string(), "permission denied".to_string()),
            ("c".to_string(), "not found".to_string()),
        ]
    );
    assert_eq!(r.succeeded().len() + r.failed().len(), outcomes.len());
}

#[test]
fn empty_user_batch_gives_empty_result() {
    let r = aggregate_user_outcomes(&[]);
    assert!(r.succeeded().is_empty());
    assert!(r.failed().is_empty());
}

#[test]
fn group_user_list_carries_members() {
    let list = GroupUserList::new(vec![uid("m1"), uid("m2")]);
    let back: Vec<String> = list.list().iter().map(|u| u.id()).collect();
    assert_eq!(back, vec!["m1".to_string(), "m2".to_string()]);
}
