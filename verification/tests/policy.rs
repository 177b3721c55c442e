use sputnikdao2::policy::{
    copy_names, default_policy, has_name, position_of, ActionPattern, KindPattern,
    Permission, Role, RuleOverride, Threshold, VoteRule, WeightBasis,
};
use sputnikdao2::types::{copy_items, KindLabel};
use sputnikdao2::{Action, DaoError, Policy, RoleKind, VersionedPolicy};

fn grant(kind: KindPattern, action: ActionPattern) -> Permission {
    Permission { kind, action }
}

fn rule(n: u64, d: u64) -> VoteRule {
    VoteRule { weight_basis: WeightBasis::RoleWeight, threshold: Threshold::Ratio(n, d), quorum: None }
}

fn ledger_rule(count: u128) -> VoteRule {
    VoteRule {
        weight_basis: WeightBasis::LedgerWeight,
        threshold: Threshold::FixedCount(count),
        quorum: Some(10),
    }
}

fn names(list: &[&str]) -> Vec<String> {
    list.iter().map(|s| s.to_string()).collect()
}

/// Three roles: everyone may propose; the council votes on everything,
/// with a rule of its own for transfers; holders of 100 vote on transfers.
fn sample_policy() -> Policy {
    Policy {
        roles: vec![
            Role {
                name: "all".to_string(),
                kind: RoleKind::Everyone,
                permissions: vec![grant(KindPattern::Any, ActionPattern::Action(Action::AddProposal))],
                vote_rules: vec![],
            },
            Role {
                name: "council".to_string(),
                kind: RoleKind::Group(names(&["bob", "charlie"])),
                permissions: vec![
                    grant(KindPattern::Any, ActionPattern::Action(Action::VoteApprove)),
                    grant(KindPattern::Any, ActionPattern::Action(Action::VoteReject)),
                    grant(KindPattern::Kind(KindLabel::Transfer), ActionPattern::Any),
                ],
                vote_rules: vec![
                    RuleOverride { kind: KindLabel::Transfer, rule: rule(2, 3) },
                    RuleOverride { kind: KindLabel::Transfer, rule: rule(1, 1) },
                ],
            },
            Role {
                name: "holders".to_string(),
                kind: RoleKind::Member(100),
                permissions: vec![grant(
                    KindPattern::Kind(KindLabel::Transfer),
                    ActionPattern::Action(Action::VoteApprove),
                )],
                vote_rules: vec![RuleOverride { kind: KindLabel::Transfer, rule: ledger_rule(3) }],
            },
        ],
        default_vote_rule: rule(1, 2),
    }
}

#[test]
fn grants_match_by_kind_and_action() {
    let any = grant(KindPattern::Any, ActionPattern::Any);
    assert!(any.covers(KindLabel::Vote, Action::Finalize));
    let one = grant(KindPattern::Kind(KindLabel::Transfer), ActionPattern::Action(Action::VoteApprove));
    assert!(one.covers(KindLabel::Transfer, Action::VoteApprove));
    assert!(!one.covers(KindLabel::Transfer, Action::VoteReject));
    assert!(!one.covers(KindLabel::AddBounty, Action::VoteApprove));
    let kind = grant(KindPattern::Kind(KindLabel::Transfer), ActionPattern::Any);
    assert!(kind.covers(KindLabel::Transfer, Action::RemoveProposal));
    assert!(!kind.covers(KindLabel::ChangePolicy, Action::RemoveProposal));
    let action = grant(KindPattern::Any, ActionPattern::Action(Action::AddProposal));
    assert!(action.covers(KindLabel::UpgradeSelf, Action::AddProposal));
    assert!(!action.covers(KindLabel::UpgradeSelf, Action::VoteRemove));
}

#[test]
fn membership_by_kind_of_role() {
    let p = sample_policy();
    assert!(p.roles[0].has_member(&"zed".to_string(), 0));
    assert!(p.roles[1].has_member(&"bob".to_string(), 0));
    assert!(!p.roles[1].has_member(&"alice".to_string(), u128::MAX));
    assert!(p.roles[2].has_member(&"alice".to_string(), 100));
    assert!(!p.roles[2].has_member(&"bob".to_string(), 99));
    assert!(p.roles[1].allows(KindLabel::Transfer, Action::Finalize));
    assert!(!p.roles[1].allows(KindLabel::Vote, Action::Finalize));
    assert_eq!(p.roles[1].rule_for(KindLabel::Transfer), Some(rule(2, 3)));
    assert_eq!(p.roles[1].rule_for(KindLabel::Vote), None);
    assert_eq!(p.roles[1].size(1_000), 2);
    assert_eq!(p.roles[0].size(1_000), 1_000);
    assert_eq!(p.roles[2].size(1_000), 1_000);
}

#[test]
fn resolve_collects_the_roles_and_picks_the_first_rule() {
    let p = sample_policy();
    // bob with 100 tokens: council and holders both apply; the council's rule comes first
    let res = p.resolve(&"bob".to_string(), 100, KindLabel::Transfer, Action::VoteApprove).unwrap();
    assert_eq!(res.roles, vec![1, 2]);
    assert_eq!(res.rule, rule(2, 3));
    // alice with 100 tokens: only holders
    let res = p.resolve(&"alice".to_string(), 100, KindLabel::Transfer, Action::VoteApprove).unwrap();
    assert_eq!(res.roles, vec![2]);
    assert_eq!(res.rule, ledger_rule(3));
    // anyone may propose; no role sets a rule for that kind
    let res = p.resolve(&"zed".to_string(), 0, KindLabel::AddBounty, Action::AddProposal).unwrap();
    assert_eq!(res.roles, vec![0]);
    assert_eq!(res.rule, rule(1, 2));
    // bob proposing a transfer: everyone and council apply; the council sets the rule
    let res = p.resolve(&"bob".to_string(), 0, KindLabel::Transfer, Action::AddProposal).unwrap();
    assert_eq!(res.roles, vec![0, 1]);
    assert_eq!(res.rule, rule(2, 3));
    // council voting on another kind falls back to the default
    let res = p.resolve(&"charlie".to_string(), 0, KindLabel::Vote, Action::VoteReject).unwrap();
    assert_eq!(res.roles, vec![1]);
    assert_eq!(res.rule, rule(1, 2));
}

#[test]
fn resolve_denies_without_a_granting_role() {
    let p = sample_policy();
    let r = p.resolve(&"alice".to_string(), 99, KindLabel::Transfer, Action::VoteApprove);
    assert_eq!(r.err(), Some(DaoError::PermissionDenied));
    let r = p.resolve(&"alice".to_string(), 100, KindLabel::Transfer, Action::VoteReject);
    assert_eq!(r.err(), Some(DaoError::PermissionDenied));
    let r = p.resolve(&"bob".to_string(), 0, KindLabel::Vote, Action::VoteRemove);
    assert_eq!(r.err(), Some(DaoError::PermissionDenied));
    let empty = Policy { roles: vec![], default_vote_rule: rule(1, 2) };
    let r = empty.resolve(&"bob".to_string(), 0, KindLabel::Vote, Action::AddProposal);
    assert_eq!(r.err(), Some(DaoError::PermissionDenied));
}

#[test]
fn ballot_weights_by_basis() {
    let p = sample_policy();
    let bob = "bob".to_string();
    // by ledger: the balance
    assert_eq!(p.ballot_weight(&bob, 250, KindLabel::Transfer, Action::VoteApprove, &ledger_rule(3)), 250);
    // by role under the council's rule: only the council votes under it
    assert_eq!(p.ballot_weight(&bob, 250, KindLabel::Transfer, Action::VoteApprove, &rule(2, 3)), 1);
    // under the default rule on another kind: the council
    assert_eq!(p.ballot_weight(&bob, 0, KindLabel::Vote, Action::VoteApprove, &rule(1, 2)), 1);
    // one who is in no qualifying role weighs nothing
    assert_eq!(
        p.ballot_weight(&"zed".to_string(), 0, KindLabel::Vote, Action::VoteApprove, &rule(1, 2)),
        0
    );
    // two roles under one rule: two units
    let mut twice = sample_policy();
    twice.roles[2].vote_rules = vec![RuleOverride { kind: KindLabel::Transfer, rule: rule(2, 3) }];
    assert_eq!(twice.ballot_weight(&bob, 100, KindLabel::Transfer, Action::VoteApprove, &rule(2, 3)), 2);
    assert_eq!(twice.ballot_weight(&bob, 99, KindLabel::Transfer, Action::VoteApprove, &rule(2, 3)), 1);
}

#[test]
fn electorates_by_basis() {
    let p = sample_policy();
    assert_eq!(
        p.electorate_weights(KindLabel::Transfer, Action::VoteApprove, &ledger_rule(3), 5_000),
        vec![5_000]
    );
    assert_eq!(p.electorate_weights(KindLabel::Transfer, Action::VoteApprove, &rule(2, 3), 5_000), vec![2]);
    assert_eq!(p.electorate_weights(KindLabel::Vote, Action::VoteApprove, &rule(1, 2), 5_000), vec![2]);
    assert_eq!(
        p.electorate_weights(KindLabel::Vote, Action::AddProposal, &rule(1, 2), 5_000),
        vec![5_000]
    );
    assert_eq!(
        p.electorate_weights(KindLabel::Vote, Action::VoteRemove, &rule(1, 2), 5_000),
        Vec::<u128>::new()
    );
    let mut twice = sample_policy();
    twice.roles[2].vote_rules = vec![RuleOverride { kind: KindLabel::Transfer, rule: rule(2, 3) }];
    assert_eq!(
        twice.electorate_weights(KindLabel::Transfer, Action::VoteApprove, &rule(2, 3), 5_000),
        vec![2, 5_000]
    );
}

#[test]
fn the_default_policy() {
    let p = VersionedPolicy::Default(names(&["bob"])).upgrade();
    assert_eq!(p.roles.len(), 2);
    assert_eq!(p.roles[0].name, "all");
    assert!(matches!(p.roles[0].kind, RoleKind::Everyone));
    assert_eq!(
        p.roles[0].permissions,
        vec![grant(KindPattern::Any, ActionPattern::Action(Action::AddProposal))]
    );
    assert_eq!(p.roles[1].name, "council");
    assert!(matches!(&p.roles[1].kind, RoleKind::Group(g) if g == &names(&["bob"])));
    assert_eq!(p.roles[1].permissions.len(), 5);
    assert!(p.roles[1].allows(KindLabel::Transfer, Action::VoteRemove));
    assert!(p.roles[1].allows(KindLabel::Vote, Action::Finalize));
    assert!(!p.roles[1].allows(KindLabel::Transfer, Action::RemoveProposal));
    assert_eq!(p.default_vote_rule, rule(1, 2));
    let same = default_policy(names(&["bob"]));
    assert_eq!(same.roles[1].permissions, p.roles[1].permissions);
    // a policy in full is taken as it is
    let full = VersionedPolicy::Current(sample_policy()).upgrade();
    assert_eq!(full.roles.len(), 3);
    assert_eq!(full.roles[2].name, "holders");
}

#[test]
fn members_join_and_leave() {
    let mut p = sample_policy();
    p.add_member_to_role(&"council".to_string(), "danny".to_string());
    assert!(matches!(&p.roles[1].kind, RoleKind::Group(g) if g == &names(&["bob", "charlie", "danny"])));
    // joining twice changes nothing
    p.add_member_to_role(&"council".to_string(), "bob".to_string());
    assert!(matches!(&p.roles[1].kind, RoleKind::Group(g) if g == &names(&["bob", "charlie", "danny"])));
    // an open role and a missing role cannot be joined
    p.add_member_to_role(&"all".to_string(), "danny".to_string());
    p.add_member_to_role(&"nobody".to_string(), "danny".to_string());
    assert!(matches!(p.roles[0].kind, RoleKind::Everyone));
    assert_eq!(p.roles.len(), 3);
    p.remove_member_from_role(&"council".to_string(), &"charlie".to_string());
    assert!(matches!(&p.roles[1].kind, RoleKind::Group(g) if g == &names(&["bob", "danny"])));
    p.remove_member_from_role(&"council".to_string(), &"zed".to_string());
    p.remove_member_from_role(&"holders".to_string(), &"bob".to_string());
    assert!(matches!(&p.roles[1].kind, RoleKind::Group(g) if g == &names(&["bob", "danny"])));
    assert!(matches!(p.roles[2].kind, RoleKind::Member(100)));
    assert_eq!(p.roles[1].name, "council");
    assert_eq!(p.roles[1].permissions.len(), 3);
    assert_eq!(p.roles[1].vote_rules.len(), 2);
    assert_eq!(p.find_role(&"holders".to_string()), 2);
    assert_eq!(p.find_role(&"nobody".to_string()), 3);
}

#[test]
fn copies_have_the_same_content() {
    let p = sample_policy();
    let q = p.duplicate();
    assert_eq!(q.roles.len(), 3);
    for i in 0..3 {
        assert_eq!(q.roles[i].name, p.roles[i].name);
        assert_eq!(q.roles[i].permissions, p.roles[i].permissions);
        assert_eq!(q.roles[i].vote_rules, p.roles[i].vote_rules);
    }
    assert!(matches!(&q.roles[1].kind, RoleKind::Group(g) if g == &names(&["bob", "charlie"])));
    assert!(matches!(q.roles[2].kind, RoleKind::Member(100)));
    assert!(matches!(q.roles[0].kind, RoleKind::Everyone));
    assert_eq!(q.default_vote_rule, p.default_vote_rule);
    assert_eq!(copy_names(&names(&["a", "b"])), names(&["a", "b"]));
    assert_eq!(copy_items(&vec![1u8, 2, 3]), vec![1u8, 2, 3]);
    assert!(has_name(&names(&["a", "b"]), &"b".to_string()));
    assert!(!has_name(&names(&["a", "b"]), &"c".to_string()));
    assert_eq!(position_of(&names(&["a", "b", "b"]), &"b".to_string()), 1);
    assert_eq!(position_of(&names(&["a", "b"]), &"c".to_string()), 2);
}
