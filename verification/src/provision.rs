use vstd::prelude::*;

verus! {

/// The schema objects a backend may have to create: the enumerated types
/// (bridged backend only) and the certificate table itself.
#[derive(Clone, Copy, Debug, PartialEq, Eq, Structural)]
pub enum ProvisionAction {
    CreateTypes,
    CreateTable,
}

/// What provisioning can observe of the store: whether the certificate
/// table exists, and whether the enumerated types exist. The two are
/// independent, so a partially provisioned store (types without table) is
/// a legal state.
#[derive(Clone, Copy, Debug, PartialEq, Eq, Structural)]
pub struct SchemaState {
    pub table_exists: bool,
    pub types_exist: bool,
}

/// The creation statements a provisioning run issues, given the
/// provisioning flag and what it observed of the store. Nothing is issued
/// when provisioning is disabled or the table already exists; types are
/// created only when missing, and always before the table.
pub open spec fn spec_provision_plan(
    enabled: bool,
    table_exists: bool,
    types_exist: bool,
) -> Seq<ProvisionAction> {
    if !enabled || table_exists {
        Seq::empty()
    } else if types_exist {
        seq![ProvisionAction::CreateTable]
    } else {
        seq![ProvisionAction::CreateTypes, ProvisionAction::CreateTable]
    }
}

/// Computes the provisioning plan. The blocking backend, which needs no
/// enumerated types, calls this with `types_exist` true.
pub fn provision_plan(enabled: bool, table_exists: bool, types_exist: bool) -> (acts: Vec<
    ProvisionAction,
>)
    ensures
        acts@ == spec_provision_plan(enabled, table_exists, types_exist),
{
    let mut acts: Vec<ProvisionAction> = Vec::new();
    if !enabled || table_exists {
        proof {
            assert(acts@ =~= spec_provision_plan(enabled, table_exists, types_exist));
        }
        return acts;
    }
    if !types_exist {
        acts.push(ProvisionAction::CreateTypes);
    }
    acts.push(ProvisionAction::CreateTable);
    proof {
        assert(acts@ =~= spec_provision_plan(enabled, table_exists, types_exist));
    }
    acts
}

/// Effect of one creation statement on the store.
pub open spec fn spec_apply_action(s: SchemaState, a: ProvisionAction) -> SchemaState {
    match a {
        ProvisionAction::CreateTypes => SchemaState { types_exist: true, ..s },
        ProvisionAction::CreateTable => SchemaState { table_exists: true, ..s },
    }
}

/// A creation statement succeeds only against a store that does not
/// already hold the object: creating an existing type or table errors.
pub open spec fn spec_action_ok(s: SchemaState, a: ProvisionAction) -> bool {
    match a {
        ProvisionAction::CreateTypes => !s.types_exist,
        ProvisionAction::CreateTable => !s.table_exists,
    }
}

/// Effect of a sequence of creation statements, applied in order.
pub open spec fn spec_apply_plan(s: SchemaState, acts: Seq<ProvisionAction>) -> SchemaState
    decreases acts.len(),
{
    if acts.len() == 0 {
        s
    } else {
        spec_apply_plan(spec_apply_action(s, acts[0]), acts.skip(1))
    }
}

/// Every statement of a sequence succeeds when run in order from `s`.
pub open spec fn spec_plan_ok(s: SchemaState, acts: Seq<ProvisionAction>) -> bool
    decreases acts.len(),
{
    acts.len() == 0 || (spec_action_ok(s, acts[0]) && spec_plan_ok(
        spec_apply_action(s, acts[0]),
        acts.skip(1),
    ))
}

/// Provisioning is idempotent. From any store state: every statement of
/// the plan succeeds (a run never errors); no existing object is dropped;
/// an enabled run leaves the table in place; and a second run right after
/// plans no statements at all, so it neither errors nor duplicates schema
/// objects.
pub proof fn lemma_provision_idempotent(enabled: bool, s: SchemaState)
    ensures
        ({
            let acts = spec_provision_plan(enabled, s.table_exists, s.types_exist);
            let s1 = spec_apply_plan(s, acts);
            &&& spec_plan_ok(s, acts)
            &&& (enabled ==> s1.table_exists)
            &&& (s.table_exists ==> s1.table_exists)
            &&& (s.types_exist ==> s1.types_exist)
            &&& spec_provision_plan(enabled, s1.table_exists, s1.types_exist) == Seq::<
                ProvisionAction,
            >::empty()
        }),
{
    let acts = spec_provision_plan(enabled, s.table_exists, s.types_exist);
    if !enabled || s.table_exists {
        assert(acts =~= Seq::<ProvisionAction>::empty());
        assert(spec_apply_plan(s, acts) == s);
    } else if s.types_exist {
        let s1 = spec_apply_action(s, ProvisionAction::CreateTable);
        assert(acts[0] == ProvisionAction::CreateTable);
        assert(acts.skip(1) =~= Seq::<ProvisionAction>::empty());
        assert(spec_apply_plan(s1, acts.skip(1)) == s1);
        assert(spec_apply_plan(s, acts) == s1);
        assert(spec_plan_ok(s1, acts.skip(1)));
        assert(spec_plan_ok(s, acts));
        assert(s1.table_exists && s1.types_exist);
    } else {
        let s1 = spec_apply_action(s, ProvisionAction::CreateTypes);
        let s2 = spec_apply_action(s1, ProvisionAction::CreateTable);
        assert(acts[0] == ProvisionAction::CreateTypes);
        assert(acts.skip(1) =~= seq![ProvisionAction::CreateTable]);
        assert(acts.skip(1)[0] == ProvisionAction::CreateTable);
        assert(acts.skip(1).skip(1) =~= Seq::<ProvisionAction>::empty());
        assert(spec_apply_plan(s2, acts.skip(1).skip(1)) == s2);
        assert(spec_apply_plan(s1, acts.skip(1)) == s2);
        assert(spec_apply_plan(s, acts) == s2);
        assert(spec_plan_ok(s2, acts.skip(1).skip(1)));
        assert(spec_plan_ok(s1, acts.skip(1)));
        assert(spec_plan_ok(s, acts));
        assert(s2.table_exists && s2.types_exist);
    }
}

} // verus!
