use ut_verification::ignore_set::IgnoreSet;
use ut_verification::reconcile::{
    desired_name_of, evaluate_member, handle_member_status, has_tag, holds, Claims, MemberWrites,
    UserData,
};
use ut_verification::roles::RoleMapping;

fn tags(list: &[&str]) -> Vec<String> {
    list.iter().map(|t| t.to_string()).collect()
}

fn student() -> Claims {
    Claims {
        major: tags(&["Computer Science"]),
        school: tags(&["Engineering"]),
        affiliation: tags(&["student"]),
    }
}

fn mapping(entries: &[(&str, u64)]) -> RoleMapping {
    let mut mapping = RoleMapping::new();
    for (tag, role) in entries {
        mapping.insert(tag.to_string(), *role);
    }
    mapping
}

#[test]
fn member_without_record_is_left_alone() {
    let mapping = mapping(&[("student", 11)]);
    let plan = evaluate_member("abc", &[], None, &mapping);
    assert_eq!(plan.desired_name, "abc");
    assert!(plan.role_additions.is_empty());
    let writes = plan.writes("abc");
    assert!(writes.is_empty());
    assert_eq!(writes, MemberWrites { nickname: None, roles: vec![] });
}

#[test]
fn verified_student_gains_marker_and_role() {
    let mapping = mapping(&[("student", 11)]);
    let record = student();
    let plan = evaluate_member("abc", &[], Some(&record), &mapping);
    assert_eq!(plan.desired_name, "abc \u{2713}");
    assert_eq!(plan.role_additions, vec![11]);
    let writes = plan.writes("abc");
    assert_eq!(writes.nickname, Some("abc \u{2713}".to_string()));
    assert_eq!(writes.roles, vec![11]);
}

#[test]
fn verified_student_without_configured_role_gains_only_the_marker() {
    let record = student();
    let plan = evaluate_member("abc", &[], Some(&record), &RoleMapping::new());
    assert_eq!(plan.desired_name, "abc \u{2713}");
    assert!(plan.role_additions.is_empty());
}

#[test]
fn second_pass_writes_nothing() {
    let mapping = mapping(&[("student", 11), ("Computer Science", 22), ("Engineering", 33)]);
    let record = student();
    let held = vec![5u64];
    let first = evaluate_member("  J\u{fc}rgen \u{1f600} ", &held, Some(&record), &mapping);
    assert_eq!(first.desired_name, "Jrgen \u{2713}");
    assert_eq!(first.role_additions, vec![11, 22, 33]);
    let mut now = held.clone();
    now.extend(first.role_additions.iter().copied());
    let name = first.desired_name.clone();
    let second = evaluate_member(&name, &now, Some(&record), &mapping).writes(&name);
    assert!(second.is_empty());
}

#[test]
fn second_pass_without_record_writes_nothing() {
    let first = evaluate_member(" \u{2713} hi \u{2713} ", &[], None, &RoleMapping::new());
    assert_eq!(first.desired_name, "hi");
    let second = evaluate_member("hi", &[], None, &RoleMapping::new()).writes("hi");
    assert!(second.is_empty());
}

#[test]
fn marker_is_not_doubled() {
    let record = student();
    assert_eq!(desired_name_of("abc \u{2713}", Some(&record)), "abc \u{2713}");
    assert_eq!(desired_name_of("abc \u{2713} \u{2713}", Some(&record)), "abc \u{2713}");
    assert_eq!(desired_name_of("abc\u{2713}", Some(&record)), "abc \u{2713}");
    assert_eq!(desired_name_of("", Some(&record)), " \u{2713}");
}

#[test]
fn verified_member_who_is_no_student_gets_no_marker() {
    let record = Claims {
        major: vec![],
        school: tags(&["Engineering"]),
        affiliation: tags(&["staff", "member"]),
    };
    let mapping = mapping(&[("staff", 1), ("member", 2), ("Engineering", 3)]);
    let plan = evaluate_member("abc \u{2713}", &[2], Some(&record), &mapping);
    assert_eq!(plan.desired_name, "abc");
    assert_eq!(plan.role_additions, vec![1, 3]);
}

#[test]
fn roles_are_looked_up_by_affiliation_then_major_then_school() {
    let record = Claims {
        major: tags(&["m1", "m2"]),
        school: tags(&["s1"]),
        affiliation: tags(&["a1", "a2"]),
    };
    let mapping = mapping(&[("s1", 1), ("m2", 2), ("a2", 3), ("m1", 4), ("a1", 5)]);
    let plan = evaluate_member("x", &[], Some(&record), &mapping);
    assert_eq!(plan.role_additions, vec![5, 3, 4, 2, 1]);
}

#[test]
fn roles_already_held_are_not_granted_again() {
    let record = student();
    let mapping = mapping(&[("student", 11), ("Computer Science", 22), ("Engineering", 33)]);
    let plan = evaluate_member("x", &[22, 11], Some(&record), &mapping);
    assert_eq!(plan.role_additions, vec![33]);
    let plan = evaluate_member("x", &[33, 22, 11], Some(&record), &mapping);
    assert!(plan.role_additions.is_empty());
}

#[test]
fn unmapped_tags_grant_nothing() {
    let record = student();
    let mapping = mapping(&[("faculty", 1)]);
    let plan = evaluate_member("x", &[], Some(&record), &mapping);
    assert!(plan.role_additions.is_empty());
}

#[test]
fn handle_member_status_arms_the_guard_only_for_a_rename() {
    let mapping = mapping(&[("student", 11)]);
    let record = student();
    let mut guard = IgnoreSet::new(4);

    let writes = handle_member_status(9, "abc", &[], Some(&record), &mapping, &mut guard);
    assert_eq!(writes.nickname, Some("abc \u{2713}".to_string()));
    assert_eq!(writes.roles, vec![11]);
    assert!(guard.contains(9));

    let mut guard = IgnoreSet::new(4);
    let writes = handle_member_status(9, "abc \u{2713}", &[], Some(&record), &mapping, &mut guard);
    assert_eq!(writes.nickname, None);
    assert_eq!(writes.roles, vec![11]);
    assert!(!guard.contains(9));

    let writes = handle_member_status(9, "abc", &[], None, &mapping, &mut guard);
    assert!(writes.is_empty());
    assert_eq!(guard.len(), 0);
}

#[test]
fn holds_and_has_tag() {
    assert!(holds(&[1, 2, 3], 2));
    assert!(!holds(&[1, 2, 3], 4));
    assert!(!holds(&[], 0));
    assert!(has_tag(&tags(&["staff", "student"]), "student"));
    assert!(!has_tag(&tags(&["staff", "Student"]), "student"));
    assert!(!has_tag(&tags(&[]), "student"));
}

#[test]
fn user_data_holds_a_record() {
    let data = UserData { discord_id: "340580932480".to_string(), claims: student() };
    assert_eq!(data.discord_id, "340580932480");
    assert_eq!(data.claims.affiliation, tags(&["student"]));
}

#[test]
fn two_tags_for_one_role_grant_it_once() {
    let record = Claims {
        major: tags(&["Computer Science"]),
        school: vec![],
        affiliation: tags(&["student"]),
    };
    let mapping = mapping(&[("student", 42), ("Computer Science", 42)]);
    let plan = evaluate_member("abc \u{2713}", &[], Some(&record), &mapping);
    assert_eq!(plan.role_additions, vec![42]);
    assert_eq!(plan.desired_name, "abc \u{2713}");
    let mut guard = IgnoreSet::new(4);
    let writes =
        handle_member_status(1, "abc \u{2713}", &[], Some(&record), &mapping, &mut guard);
    assert_eq!(writes.roles, vec![42]);
    assert_eq!(writes.nickname, None);
    assert_eq!(guard.len(), 0);
}

#[test]
fn repeated_tags_and_shared_roles_are_granted_in_order_of_first_mention() {
    let record = Claims {
        major: tags(&["m1", "a1", "m2"]),
        school: tags(&["s1", "m1"]),
        affiliation: tags(&["a1", "a2", "a1"]),
    };
    let mapping = mapping(&[("a1", 1), ("a2", 2), ("m1", 2), ("m2", 3), ("s1", 1)]);
    let plan = evaluate_member("x", &[], Some(&record), &mapping);
    assert_eq!(plan.role_additions, vec![1, 2, 3]);
    let plan = evaluate_member("x", &[2], Some(&record), &mapping);
    assert_eq!(plan.role_additions, vec![1, 3]);
}
