//! The policy: roles with their members and grants, the vote rule per
//! proposal kind, and the resolution of what an actor may do.

use vstd::prelude::*;
use crate::types::copy_items;
use crate::types::Action;
use crate::types::DaoError;
use crate::types::KindLabel;

verus! {

/// How much a vote weighs.
#[derive(Clone, Copy, Debug, PartialEq, Eq, Structural)]
pub enum WeightBasis {
    /// One unit for each qualifying role the voter belongs to.
    RoleWeight,
    /// The voter's balance in the ledger.
    LedgerWeight,
}

/// What a side needs to win.
#[derive(Clone, Copy, Debug, PartialEq, Eq, Structural)]
pub enum Threshold {
    /// `Ratio(n, d)`: the side's weight times `d` reaches `n` times the
    /// weight of the whole electorate.
    Ratio(u64, u64),
    /// The number of votes for the side reaches the count, whatever
    /// they weigh.
    FixedCount(u128),
}

/// How votes on a proposal are counted and decided.
#[derive(Clone, Copy, Debug, PartialEq, Eq, Structural)]
pub struct VoteRule {
    pub weight_basis: WeightBasis,
    pub threshold: Threshold,
    /// Weight that must have been cast before either side can win.
    pub quorum: Option<u128>,
}

/// Which proposal kinds a grant covers.
#[derive(Clone, Copy, Debug, PartialEq, Eq, Structural)]
pub enum KindPattern {
    /// Every kind.
    Any,
    /// The proposals of one kind, whatever their payload.
    Kind(KindLabel),
}

/// Which actions a grant covers.
#[derive(Clone, Copy, Debug, PartialEq, Eq, Structural)]
pub enum ActionPattern {
    /// Every action.
    Any,
    /// One action.
    Action(Action),
}

/// A grant: the actions it covers on the proposal kinds it covers.
#[derive(Clone, Copy, Debug, PartialEq, Eq, Structural)]
pub struct Permission {
    pub kind: KindPattern,
    pub action: ActionPattern,
}

/// The vote rule a role sets for one proposal kind in place of the
/// policy's default.
#[derive(Clone, Copy, Debug, PartialEq, Eq, Structural)]
pub struct RuleOverride {
    pub kind: KindLabel,
    pub rule: VoteRule,
}

/// Who belongs to a role.
pub enum RoleKind {
    /// Every actor.
    Everyone,
    /// The actors listed.
    Group(Vec<String>),
    /// The actors whose balance in the ledger is at least the minimum.
    Member(u128),
}

/// Mathematical content of a [`RoleKind`].
pub enum RoleKindView {
    Everyone,
    Group(Seq<Seq<char>>),
    Member(u128),
}

/// A named group of actors with what it is granted.
pub struct Role {
    pub name: String,
    pub kind: RoleKind,
    pub permissions: Vec<Permission>,
    pub vote_rules: Vec<RuleOverride>,
}

/// Mathematical content of a [`Role`].
pub struct RoleView {
    pub name: Seq<char>,
    pub kind: RoleKindView,
    pub permissions: Seq<Permission>,
    pub vote_rules: Seq<RuleOverride>,
}

/// The roles in the order in which they are consulted, and the vote rule
/// that holds where no role sets its own.
pub struct Policy {
    pub roles: Vec<Role>,
    pub default_vote_rule: VoteRule,
}

/// Mathematical content of a [`Policy`].
pub struct PolicyView {
    pub roles: Seq<RoleView>,
    pub default_vote_rule: VoteRule,
}

/// A policy as it may be handed in: the short form that names only a
/// council, or a policy in full.
pub enum VersionedPolicy {
    /// The default policy with these actors as its council.
    Default(Vec<String>),
    /// A policy in its current form.
    Current(Policy),
}

/// What the policy lets an actor do with a proposal kind.
pub struct Resolution {
    /// Positions in the policy of the roles that the actor belongs to and
    /// that grant the action, in the policy's order.
    pub roles: Vec<usize>,
    /// The vote rule that governs.
    pub rule: VoteRule,
}

/// Content of a list of names.
pub open spec fn names_view(names: Seq<String>) -> Seq<Seq<char>> {
    Seq::new(names.len(), |i: int| names[i]@)
}

/// Content of a list of roles.
pub open spec fn roles_view(roles: Seq<Role>) -> Seq<RoleView> {
    Seq::new(roles.len(), |i: int| roles[i]@)
}

impl View for RoleKind {
    type V = RoleKindView;

    open spec fn view(&self) -> RoleKindView {
        match self {
            RoleKind::Everyone => RoleKindView::Everyone,
            RoleKind::Group(members) => RoleKindView::Group(names_view(members@)),
            RoleKind::Member(min) => RoleKindView::Member(*min),
        }
    }
}

impl View for Role {
    type V = RoleView;

    open spec fn view(&self) -> RoleView {
        RoleView {
            name: self.name@,
            kind: self.kind@,
            permissions: self.permissions@,
            vote_rules: self.vote_rules@,
        }
    }
}

impl View for Policy {
    type V = PolicyView;

    open spec fn view(&self) -> PolicyView {
        PolicyView { roles: roles_view(self.roles@), default_vote_rule: self.default_vote_rule }
    }
}

/// Whether the grant covers the action on the kind.
pub open spec fn grants(p: Permission, kind: KindLabel, action: Action) -> bool {
    &&& (p.kind == KindPattern::Any || p.kind == KindPattern::Kind(kind))
    &&& (p.action == ActionPattern::Any || p.action == ActionPattern::Action(action))
}

/// Whether one of the grants covers the action on the kind.
pub open spec fn permits(perms: Seq<Permission>, kind: KindLabel, action: Action) -> bool {
    exists|i: int| 0 <= i < perms.len() && grants(#[trigger] perms[i], kind, action)
}

/// Whether an actor with this balance belongs to a role of this kind.
pub open spec fn is_member(kind: RoleKindView, actor: Seq<char>, weight: u128) -> bool {
    match kind {
        RoleKindView::Everyone => true,
        RoleKindView::Group(members) => members.contains(actor),
        RoleKindView::Member(min) => weight >= min,
    }
}

/// The first of the overrides from position `from` on that is for the
/// kind.
pub open spec fn override_from(rules: Seq<RuleOverride>, kind: KindLabel, from: int) -> Option<
    VoteRule,
>
    decreases rules.len() - from,
{
    if from < 0 || from >= rules.len() {
        None
    } else if rules[from].kind == kind {
        Some(rules[from].rule)
    } else {
        override_from(rules, kind, from + 1)
    }
}

/// The rule a role sets for the kind, if it sets one.
pub open spec fn override_for(role: RoleView, kind: KindLabel) -> Option<VoteRule> {
    override_from(role.vote_rules, kind, 0)
}

/// The rule under which a role votes on the kind: its own, or the
/// default.
pub open spec fn effective_rule(role: RoleView, kind: KindLabel, default: VoteRule) -> VoteRule {
    match override_for(role, kind) {
        Some(rule) => rule,
        None => default,
    }
}

/// Whether the role at position `i` has the actor as a member and grants
/// the action on the kind.
pub open spec fn applicable(
    p: PolicyView,
    actor: Seq<char>,
    weight: u128,
    kind: KindLabel,
    action: Action,
    i: int,
) -> bool {
    &&& 0 <= i < p.roles.len()
    &&& is_member(p.roles[i].kind, actor, weight)
    &&& permits(p.roles[i].permissions, kind, action)
}

/// The rule set by the first role from position `from` on that is
/// applicable and sets one for the kind; the default where there is none.
pub open spec fn rule_from(
    p: PolicyView,
    actor: Seq<char>,
    weight: u128,
    kind: KindLabel,
    action: Action,
    from: int,
) -> VoteRule
    decreases p.roles.len() - from,
{
    if from < 0 || from >= p.roles.len() {
        p.default_vote_rule
    } else if applicable(p, actor, weight, kind, action, from) && override_for(
        p.roles[from],
        kind,
    ).is_some() {
        override_for(p.roles[from], kind).unwrap()
    } else {
        rule_from(p, actor, weight, kind, action, from + 1)
    }
}

/// The vote rule that governs an action of the actor on the kind.
pub open spec fn governing_rule(
    p: PolicyView,
    actor: Seq<char>,
    weight: u128,
    kind: KindLabel,
    action: Action,
) -> VoteRule {
    rule_from(p, actor, weight, kind, action, 0)
}

/// Whether any role lets the actor take the action on the kind.
pub open spec fn allowed(
    p: PolicyView,
    actor: Seq<char>,
    weight: u128,
    kind: KindLabel,
    action: Action,
) -> bool {
    exists|i: int| applicable(p, actor, weight, kind, action, i)
}

/// Whether the positions rise strictly.
pub open spec fn rising(positions: Seq<usize>) -> bool {
    forall|a: int, b: int| 0 <= a < b < positions.len() ==> positions[a] < positions[b]
}

impl Permission {
    /// Whether the grant covers the action on the kind.
    pub fn covers(&self, kind: KindLabel, action: Action) -> (yes: bool)
        ensures
            yes == grants(*self, kind, action),
    {
        let kind_ok: bool = match self.kind {
            KindPattern::Any => true,
            KindPattern::Kind(k) => k == kind,
        };
        let action_ok: bool = match self.action {
            ActionPattern::Any => true,
            ActionPattern::Action(a) => a == action,
        };
        kind_ok && action_ok
    }
}

/// Whether `name` is among `names`.
pub fn has_name(names: &Vec<String>, name: &String) -> (yes: bool)
    ensures
        yes == names_view(names@).contains(name@),
{
    let mut i: usize = 0;
    while i < names.len()
        invariant
            i <= names.len(),
            forall|j: int| 0 <= j < i ==> names_view(names@)[j] != name@,
        decreases names.len() - i,
    {
        if names[i] == *name {
            assert(names_view(names@)[i as int] == name@);
            return true;
        }
        i = i + 1;
    }
    false
}

impl Role {
    /// Whether an actor with this balance in the ledger belongs to the
    /// role.
    pub fn has_member(&self, actor: &String, weight: u128) -> (yes: bool)
        ensures
            yes == is_member(self@.kind, actor@, weight),
    {
        match &self.kind {
            RoleKind::Everyone => true,
            RoleKind::Group(members) => has_name(members, actor),
            RoleKind::Member(min) => weight >= *min,
        }
    }

    /// Whether the role grants the action on the kind.
    pub fn allows(&self, kind: KindLabel, action: Action) -> (yes: bool)
        ensures
            yes == permits(self@.permissions, kind, action),
    {
        let mut i: usize = 0;
        while i < self.permissions.len()
            invariant
                i <= self.permissions.len(),
                forall|j: int| 0 <= j < i ==> !grants(#[trigger] self.permissions@[j], kind, action),
            decreases self.permissions.len() - i,
        {
            if self.permissions[i].covers(kind, action) {
                return true;
            }
            i = i + 1;
        }
        false
    }

    /// The rule the role sets for the kind, if it sets one.
    pub fn rule_for(&self, kind: KindLabel) -> (rule: Option<VoteRule>)
        ensures
            rule == override_for(self@, kind),
    {
        let mut i: usize = 0;
        while i < self.vote_rules.len()
            invariant
                i <= self.vote_rules.len(),
                override_for(self@, kind) == override_from(self.vote_rules@, kind, i as int),
            decreases self.vote_rules.len() - i,
        {
            if self.vote_rules[i].kind == kind {
                return Some(self.vote_rules[i].rule);
            }
            i = i + 1;
        }
        None
    }
}

impl Policy {
    /// Resolves what the actor may do: the roles that apply and the vote
    /// rule that governs. The roles are consulted in the policy's order;
    /// the rule is that of the first applicable role that sets one for the
    /// kind, else the default. Fails with `PermissionDenied` exactly when
    /// no role both has the actor as a member and grants the action.
    pub fn resolve(&self, actor: &String, weight: u128, kind: KindLabel, action: Action) -> (r:
        Result<Resolution, DaoError>)
        ensures
            r.is_ok() == allowed(self@, actor@, weight, kind, action),
            match r {
                Ok(res) => {
                    &&& rising(res.roles@)
                    &&& forall|i: int|
                        0 <= i < self.roles.len() ==> (res.roles@.contains(i as usize)
                            <==> #[trigger] applicable(self@, actor@, weight, kind, action, i))
                    &&& forall|j: int|
                        0 <= j < res.roles.len() ==> (#[trigger] res.roles@[j]) < self.roles.len()
                    &&& res.rule == governing_rule(self@, actor@, weight, kind, action)
                },
                Err(e) => e == DaoError::PermissionDenied,
            },
    {
        let mut found: Vec<usize> = Vec::new();
        let mut rule: Option<VoteRule> = None;
        let mut i: usize = 0;
        while i < self.roles.len()
            invariant
                i <= self.roles.len(),
                rising(found@),
                forall|j: int| 0 <= j < found.len() ==> (#[trigger] found@[j]) < i,
                forall|k: int|
                    0 <= k < i ==> (found@.contains(k as usize) <==> #[trigger] applicable(
                        self@,
                        actor@,
                        weight,
                        kind,
                        action,
                        k,
                    )),
                governing_rule(self@, actor@, weight, kind, action) == (match rule {
                    Some(set) => set,
                    None => rule_from(self@, actor@, weight, kind, action, i as int),
                }),
            decreases self.roles.len() - i,
        {
            let role: &Role = &self.roles[i];
            assert(self@.roles[i as int] == role@);
            let applies: bool = role.has_member(actor, weight) && role.allows(kind, action);
            assert(applies == applicable(self@, actor@, weight, kind, action, i as int));
            if applies {
                let ghost before = found@;
                found.push(i);
                proof {
                    assert(found@[before.len() as int] == i);
                    assert forall|k: int| 0 <= k < i + 1 implies (found@.contains(k as usize)
                        <==> #[trigger] applicable(self@, actor@, weight, kind, action, k)) by {
                        if k < i {
                            if before.contains(k as usize) {
                                let j = choose|j: int| 0 <= j < before.len() && before[j] == k as usize;
                                assert(found@[j] == k as usize);
                            }
                            if found@.contains(k as usize) {
                                let j = choose|j: int| 0 <= j < found@.len() && found@[j] == k as usize;
                                assert(j < before.len());
                                assert(before[j] == k as usize);
                            }
                        }
                    }
                }
                if rule.is_none() {
                    rule = role.rule_for(kind);
                }
            }
            i = i + 1;
        }
        if found.len() == 0 {
            proof {
                assert forall|k: int| !applicable(self@, actor@, weight, kind, action, k) by {
                    if 0 <= k < self.roles.len() {
                        assert(!found@.contains(k as usize));
                    }
                }
            }
            Err(DaoError::PermissionDenied)
        } else {
            proof {
                let k = found@[0] as int;
                assert(found@.contains(k as usize));
                assert(applicable(self@, actor@, weight, kind, action, k));
            }
            let rule: VoteRule = match rule {
                Some(set) => set,
                None => self.default_vote_rule,
            };
            Ok(Resolution { roles: found, rule })
        }
    }
}

/// Whether the role at position `i` takes part in a tally under `rule`:
/// it grants the action on the kind and votes on the kind under that rule.
pub open spec fn qualifies(p: PolicyView, kind: KindLabel, action: Action, rule: VoteRule, i: int) -> bool {
    &&& 0 <= i < p.roles.len()
    &&& permits(p.roles[i].permissions, kind, action)
    &&& effective_rule(p.roles[i], kind, p.default_vote_rule) == rule
}

/// Number of the first `n` roles that qualify and have the actor as a
/// member: the units the actor's vote weighs by role.
pub open spec fn role_units(
    p: PolicyView,
    actor: Seq<char>,
    weight: u128,
    kind: KindLabel,
    action: Action,
    rule: VoteRule,
    n: int,
) -> nat
    decreases n,
{
    if n <= 0 {
        0
    } else {
        role_units(p, actor, weight, kind, action, rule, n - 1) + if qualifies(
            p,
            kind,
            action,
            rule,
            n - 1,
        ) && is_member(p.roles[n - 1].kind, actor, weight) {
            1nat
        } else {
            0nat
        }
    }
}

/// What a vote of the actor weighs under the rule: the balance in the
/// ledger, or one unit for each qualifying role of the actor.
pub open spec fn voter_weight(
    p: PolicyView,
    actor: Seq<char>,
    weight: u128,
    kind: KindLabel,
    action: Action,
    rule: VoteRule,
) -> nat {
    match rule.weight_basis {
        WeightBasis::LedgerWeight => weight as nat,
        WeightBasis::RoleWeight => role_units(p, actor, weight, kind, action, rule, p.roles.len() as int),
    }
}

/// The most a role's members can weigh by role: their number where they
/// are listed; where the role is open, the ledger's total supply stands
/// for their number.
pub open spec fn role_size(kind: RoleKindView, total_supply: u128) -> u128 {
    match kind {
        RoleKindView::Group(members) => members.len() as u128,
        _ => total_supply,
    }
}

/// The sizes of those of the first `n` roles that qualify.
pub open spec fn role_sizes(
    p: PolicyView,
    kind: KindLabel,
    action: Action,
    rule: VoteRule,
    total_supply: u128,
    n: int,
) -> Seq<u128>
    decreases n,
{
    if n <= 0 {
        Seq::empty()
    } else if qualifies(p, kind, action, rule, n - 1) {
        role_sizes(p, kind, action, rule, total_supply, n - 1).push(
            role_size(p.roles[n - 1].kind, total_supply),
        )
    } else {
        role_sizes(p, kind, action, rule, total_supply, n - 1)
    }
}

/// The weights of the electorate in a tally under the rule: the total
/// supply where votes weigh by balance, the sizes of the qualifying roles
/// where they weigh by role.
pub open spec fn electorate_of(
    p: PolicyView,
    kind: KindLabel,
    action: Action,
    rule: VoteRule,
    total_supply: u128,
) -> Seq<u128> {
    match rule.weight_basis {
        WeightBasis::LedgerWeight => seq![total_supply],
        WeightBasis::RoleWeight => role_sizes(p, kind, action, rule, total_supply, p.roles.len() as int),
    }
}

impl Role {
    /// The most the role's members can weigh by role.
    pub fn size(&self, total_supply: u128) -> (n: u128)
        ensures
            n == role_size(self@.kind, total_supply),
    {
        match &self.kind {
            RoleKind::Group(members) => members.len() as u128,
            _ => total_supply,
        }
    }

    /// Whether the role takes part in a tally under `rule`.
    pub fn votes_under(&self, kind: KindLabel, action: Action, rule: &VoteRule, default: &VoteRule) -> (yes:
        bool)
        ensures
            yes == (permits(self@.permissions, kind, action) && effective_rule(self@, kind, *default)
                == *rule),
    {
        if !self.allows(kind, action) {
            return false;
        }
        let own: VoteRule = match self.rule_for(kind) {
            Some(set) => set,
            None => *default,
        };
        own == *rule
    }
}

impl Policy {
    /// What a vote of the actor weighs under the rule.
    pub fn ballot_weight(
        &self,
        actor: &String,
        weight: u128,
        kind: KindLabel,
        action: Action,
        rule: &VoteRule,
    ) -> (w: u128)
        ensures
            w == voter_weight(self@, actor@, weight, kind, action, *rule),
    {
        match rule.weight_basis {
            WeightBasis::LedgerWeight => weight,
            WeightBasis::RoleWeight => {
                let mut units: u128 = 0;
                let mut i: usize = 0;
                while i < self.roles.len()
                    invariant
                        i <= self.roles.len(),
                        units <= i,
                        units == role_units(self@, actor@, weight, kind, action, *rule, i as int),
                    decreases self.roles.len() - i,
                {
                    let role: &Role = &self.roles[i];
                    assert(self@.roles[i as int] == role@);
                    if role.votes_under(kind, action, rule, &self.default_vote_rule) && role.has_member(
                        actor,
                        weight,
                    ) {
                        units = units + 1;
                    }
                    i = i + 1;
                }
                units
            },
        }
    }

    /// The weights of the electorate in a tally under the rule.
    pub fn electorate_weights(&self, kind: KindLabel, action: Action, rule: &VoteRule, total_supply: u128) -> (ws:
        Vec<u128>)
        ensures
            ws@ == electorate_of(self@, kind, action, *rule, total_supply),
    {
        let mut ws: Vec<u128> = Vec::new();
        match rule.weight_basis {
            WeightBasis::LedgerWeight => {
                ws.push(total_supply);
                assert(ws@ == seq![total_supply]);
            },
            WeightBasis::RoleWeight => {
                let mut i: usize = 0;
                while i < self.roles.len()
                    invariant
                        i <= self.roles.len(),
                        ws@ == role_sizes(self@, kind, action, *rule, total_supply, i as int),
                    decreases self.roles.len() - i,
                {
                    let role: &Role = &self.roles[i];
                    assert(self@.roles[i as int] == role@);
                    if role.votes_under(kind, action, rule, &self.default_vote_rule) {
                        ws.push(role.size(total_supply));
                    }
                    i = i + 1;
                }
            },
        }
        ws
    }
}

/// Position of the first role from `from` on with the name, or the
/// number of roles where there is none.
pub open spec fn first_named(roles: Seq<RoleView>, name: Seq<char>, from: int) -> int
    decreases roles.len() - from,
{
    if from < 0 || from >= roles.len() {
        roles.len() as int
    } else if roles[from].name == name {
        from
    } else {
        first_named(roles, name, from + 1)
    }
}

/// Position of the first entry from `from` on that is `name`, or the
/// number of entries where there is none.
pub open spec fn first_position(names: Seq<Seq<char>>, name: Seq<char>, from: int) -> int
    decreases names.len() - from,
{
    if from < 0 || from >= names.len() {
        names.len() as int
    } else if names[from] == name {
        from
    } else {
        first_position(names, name, from + 1)
    }
}

/// The role with another membership.
pub open spec fn with_kind(role: RoleView, kind: RoleKindView) -> RoleView {
    RoleView { name: role.name, kind, permissions: role.permissions, vote_rules: role.vote_rules }
}

/// The policy after `member` joined the first role named `role`. Only a
/// role with listed members can be joined, and only by one who is not
/// yet listed; otherwise the policy stays as it is.
pub open spec fn with_member(p: PolicyView, role: Seq<char>, member: Seq<char>) -> PolicyView {
    let i = first_named(p.roles, role, 0);
    if i < p.roles.len() {
        match p.roles[i].kind {
            RoleKindView::Group(members) => if members.contains(member) {
                p
            } else {
                PolicyView {
                    roles: p.roles.update(
                        i,
                        with_kind(p.roles[i], RoleKindView::Group(members.push(member))),
                    ),
                    default_vote_rule: p.default_vote_rule,
                }
            },
            _ => p,
        }
    } else {
        p
    }
}

/// The policy after `member` left the first role named `role`: the
/// member's first entry in the role's list is taken out. Where the role
/// or the entry is missing the policy stays as it is.
pub open spec fn without_member(p: PolicyView, role: Seq<char>, member: Seq<char>) -> PolicyView {
    let i = first_named(p.roles, role, 0);
    if i < p.roles.len() {
        match p.roles[i].kind {
            RoleKindView::Group(members) => if members.contains(member) {
                PolicyView {
                    roles: p.roles.update(
                        i,
                        with_kind(
                            p.roles[i],
                            RoleKindView::Group(members.remove(first_position(members, member, 0))),
                        ),
                    ),
                    default_vote_rule: p.default_vote_rule,
                }
            } else {
                p
            },
            _ => p,
        }
    } else {
        p
    }
}

/// The grants of the default policy's council: every action on every
/// kind but the removal of proposals.
pub open spec fn council_grants() -> Seq<Permission> {
    seq![
        Permission { kind: KindPattern::Any, action: ActionPattern::Action(Action::AddProposal) },
        Permission { kind: KindPattern::Any, action: ActionPattern::Action(Action::VoteApprove) },
        Permission { kind: KindPattern::Any, action: ActionPattern::Action(Action::VoteReject) },
        Permission { kind: KindPattern::Any, action: ActionPattern::Action(Action::VoteRemove) },
        Permission { kind: KindPattern::Any, action: ActionPattern::Action(Action::Finalize) },
    ]
}

/// The default vote rule: by role, half of the electorate, no quorum.
pub open spec fn default_rule() -> VoteRule {
    VoteRule { weight_basis: WeightBasis::RoleWeight, threshold: Threshold::Ratio(1, 2), quorum: None }
}

/// The default policy: everyone may add proposals; the council may also
/// vote and finalize.
pub open spec fn default_policy_view(council: Seq<Seq<char>>) -> PolicyView {
    PolicyView {
        roles: seq![
            RoleView {
                name: "all"@,
                kind: RoleKindView::Everyone,
                permissions: seq![
                    Permission {
                        kind: KindPattern::Any,
                        action: ActionPattern::Action(Action::AddProposal),
                    },
                ],
                vote_rules: Seq::empty(),
            },
            RoleView {
                name: "council"@,
                kind: RoleKindView::Group(council),
                permissions: council_grants(),
                vote_rules: Seq::empty(),
            },
        ],
        default_vote_rule: default_rule(),
    }
}

/// The policy that a versioned policy stands for.
pub open spec fn upgraded(v: VersionedPolicy) -> PolicyView {
    match v {
        VersionedPolicy::Default(council) => default_policy_view(names_view(council@)),
        VersionedPolicy::Current(policy) => policy@,
    }
}

/// A fresh list with the same names.
pub fn copy_names(names: &Vec<String>) -> (out: Vec<String>)
    ensures
        names_view(out@) == names_view(names@),
{
    let mut out: Vec<String> = Vec::new();
    let mut i: usize = 0;
    while i < names.len()
        invariant
            i <= names.len(),
            out.len() == i,
            forall|j: int| 0 <= j < i ==> out@[j]@ == names@[j]@,
        decreases names.len() - i,
    {
        out.push(names[i].clone());
        i = i + 1;
    }
    assert(names_view(out@) =~= names_view(names@));
    out
}

/// The default policy with `council` as its council.
pub fn default_policy(council: Vec<String>) -> (p: Policy)
    ensures
        p@ == default_policy_view(names_view(council@)),
{
    let mut open_grants: Vec<Permission> = Vec::new();
    open_grants.push(
        Permission { kind: KindPattern::Any, action: ActionPattern::Action(Action::AddProposal) },
    );
    let mut grants: Vec<Permission> = Vec::new();
    grants.push(
        Permission { kind: KindPattern::Any, action: ActionPattern::Action(Action::AddProposal) },
    );
    grants.push(
        Permission { kind: KindPattern::Any, action: ActionPattern::Action(Action::VoteApprove) },
    );
    grants.push(
        Permission { kind: KindPattern::Any, action: ActionPattern::Action(Action::VoteReject) },
    );
    grants.push(
        Permission { kind: KindPattern::Any, action: ActionPattern::Action(Action::VoteRemove) },
    );
    grants.push(Permission { kind: KindPattern::Any, action: ActionPattern::Action(Action::Finalize) });
    let everyone: Role = Role {
        name: "all".to_string(),
        kind: RoleKind::Everyone,
        permissions: open_grants,
        vote_rules: Vec::new(),
    };
    let members: Role = Role {
        name: "council".to_string(),
        kind: RoleKind::Group(council),
        permissions: grants,
        vote_rules: Vec::new(),
    };
    assert(everyone@ == default_policy_view(names_view(council@)).roles[0]) by {
        assert(everyone@.permissions =~= default_policy_view(names_view(council@)).roles[0].permissions);
        assert(everyone@.vote_rules =~= Seq::<RuleOverride>::empty());
    }
    assert(members@ == default_policy_view(names_view(council@)).roles[1]) by {
        assert(members@.permissions =~= council_grants());
        assert(members@.vote_rules =~= Seq::<RuleOverride>::empty());
    }
    let mut roles: Vec<Role> = Vec::new();
    roles.push(everyone);
    roles.push(members);
    let p: Policy = Policy {
        roles,
        default_vote_rule: VoteRule {
            weight_basis: WeightBasis::RoleWeight,
            threshold: Threshold::Ratio(1, 2),
            quorum: None,
        },
    };
    assert(p@.roles =~= default_policy_view(names_view(council@)).roles);
    p
}

impl VersionedPolicy {
    /// The policy in its current form.
    pub fn upgrade(self) -> (p: Policy)
        ensures
            p@ == upgraded(self),
    {
        match self {
            VersionedPolicy::Default(council) => default_policy(council),
            VersionedPolicy::Current(policy) => policy,
        }
    }
}

impl RoleKind {
    /// A membership of its own with the same content.
    pub fn duplicate(&self) -> (k: RoleKind)
        ensures
            k@ == self@,
    {
        match self {
            RoleKind::Everyone => RoleKind::Everyone,
            RoleKind::Group(members) => RoleKind::Group(copy_names(members)),
            RoleKind::Member(min) => RoleKind::Member(*min),
        }
    }
}

impl Role {
    /// A role of its own with the same content.
    pub fn duplicate(&self) -> (r: Role)
        ensures
            r@ == self@,
    {
        Role {
            name: self.name.clone(),
            kind: self.kind.duplicate(),
            permissions: copy_items(&self.permissions),
            vote_rules: copy_items(&self.vote_rules),
        }
    }
}

impl Policy {
    /// A policy of its own with the same content.
    pub fn duplicate(&self) -> (p: Policy)
        ensures
            p@ == self@,
    {
        let mut roles: Vec<Role> = Vec::new();
        let mut i: usize = 0;
        while i < self.roles.len()
            invariant
                i <= self.roles.len(),
                roles.len() == i,
                forall|j: int| 0 <= j < i ==> roles@[j]@ == self.roles@[j]@,
            decreases self.roles.len() - i,
        {
            roles.push(self.roles[i].duplicate());
            i = i + 1;
        }
        assert(roles_view(roles@) =~= roles_view(self.roles@));
        Policy { roles, default_vote_rule: self.default_vote_rule }
    }

    /// Position of the first role with the name, or the number of roles
    /// where there is none.
    pub fn find_role(&self, name: &String) -> (i: usize)
        ensures
            i == first_named(self@.roles, name@, 0),
            i <= self.roles.len(),
    {
        let mut i: usize = 0;
        while i < self.roles.len()
            invariant
                i <= self.roles.len(),
                first_named(self@.roles, name@, 0) == first_named(self@.roles, name@, i as int),
            decreases self.roles.len() - i,
        {
            assert(self@.roles[i as int] == self.roles@[i as int]@);
            if self.roles[i].name == *name {
                return i;
            }
            i = i + 1;
        }
        i
    }
}

/// Position of the first entry that is `name`, or the number of entries
/// where there is none.
pub fn position_of(names: &Vec<String>, name: &String) -> (i: usize)
    ensures
        i == first_position(names_view(names@), name@, 0),
        i <= names.len(),
        i < names.len() <==> names_view(names@).contains(name@),
{
    let mut i: usize = 0;
    while i < names.len()
        invariant
            i <= names.len(),
            first_position(names_view(names@), name@, 0) == first_position(
                names_view(names@),
                name@,
                i as int,
            ),
            forall|j: int| 0 <= j < i ==> names_view(names@)[j] != name@,
        decreases names.len() - i,
    {
        assert(names_view(names@)[i as int] == names@[i as int]@);
        if names[i] == *name {
            return i;
        }
        i = i + 1;
    }
    i
}

impl Policy {
    /// Lets `member` join the first role named `role`.
    pub fn add_member_to_role(&mut self, role: &String, member: String)
        ensures
            final(self)@ == with_member(old(self)@, role@, member@),
    {
        let i: usize = self.find_role(role);
        if i < self.roles.len() {
            let ghost before = self.roles@;
            let taken: Role = self.roles.remove(i);
            let Role { name, kind, permissions, vote_rules } = taken;
            let kind: RoleKind = match kind {
                RoleKind::Group(mut members) => {
                    if !has_name(&members, &member) {
                        let ghost listed = members@;
                        members.push(member);
                        assert(names_view(members@) =~= names_view(listed).push(member@));
                    }
                    RoleKind::Group(members)
                },
                other => other,
            };
            self.roles.insert(i, Role { name, kind, permissions, vote_rules });
            assert(self@.roles =~= with_member(old(self)@, role@, member@).roles) by {
                assert(old(self)@.roles[i as int] == before[i as int]@);
                assert forall|j: int| 0 <= j < before.len() && j != i implies self.roles@[j]
                    == before[j] by {}
            }
        }
    }

    /// Lets `member` leave the first role named `role`.
    pub fn remove_member_from_role(&mut self, role: &String, member: &String)
        ensures
            final(self)@ == without_member(old(self)@, role@, member@),
    {
        let i: usize = self.find_role(role);
        if i < self.roles.len() {
            let ghost before = self.roles@;
            let taken: Role = self.roles.remove(i);
            let Role { name, kind, permissions, vote_rules } = taken;
            let kind: RoleKind = match kind {
                RoleKind::Group(mut members) => {
                    let at: usize = position_of(&members, member);
                    if at < members.len() {
                        let ghost listed = members@;
                        members.remove(at);
                        assert(names_view(members@) =~= names_view(listed).remove(at as int));
                    }
                    RoleKind::Group(members)
                },
                other => other,
            };
            self.roles.insert(i, Role { name, kind, permissions, vote_rules });
            assert(self@.roles =~= without_member(old(self)@, role@, member@).roles) by {
                assert(old(self)@.roles[i as int] == before[i as int]@);
                assert forall|j: int| 0 <= j < before.len() && j != i implies self.roles@[j]
                    == before[j] by {}
            }
        }
    }
}

} // verus!
