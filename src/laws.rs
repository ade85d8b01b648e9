use vstd::prelude::*;
use crate::config::identity_of;
use crate::domain::{is_filled, IdentityView};
use crate::gitconfig::{
    ConfigKey, OpView, apply_op, apply_ops, field_plan, lemma_apply_ops_concat, signing_plan,
    write_plan,
};

verus! {

proof fn lemma_apply_two(m: Map<ConfigKey, Seq<char>>, x: OpView, y: OpView)
    ensures
        apply_ops(m, seq![x, y]) == apply_op(apply_op(m, x), y),
{
    reveal_with_fuel(apply_ops, 3);
    let s = seq![x, y];
    assert(s.drop_last() =~= seq![x]);
    assert(seq![x].drop_last() =~= Seq::<OpView>::empty());
}

proof fn lemma_apply_field(m: Map<ConfigKey, Seq<char>>, k: ConfigKey, v: Option<Seq<char>>)
    ensures
        apply_ops(m, field_plan(k, v)) == (match v {
            Some(s) => m.insert(k, s),
            None => m,
        }),
{
    reveal_with_fuel(apply_ops, 2);
    if v is Some {
        assert(field_plan(k, v).drop_last() =~= Seq::<OpView>::empty());
    }
}

/// Where the plan of an identity leaves the configuration: the signing pair
/// written last, over the name and email written first.
proof fn lemma_apply_write_plan(m: Map<ConfigKey, Seq<char>>, r: IdentityView)
    ensures
        apply_ops(m, write_plan(r)) == apply_ops(
            apply_ops(apply_ops(m, field_plan(ConfigKey::UserName, r.name)), field_plan(ConfigKey::UserEmail, r.email)),
            signing_plan(r.signing_key),
        ),
{
    let a = field_plan(ConfigKey::UserName, r.name);
    let b = field_plan(ConfigKey::UserEmail, r.email);
    let c = signing_plan(r.signing_key);
    lemma_apply_ops_concat(m, a + b, c);
    lemma_apply_ops_concat(m, a, b);
}

/// Applying an identity whose signing key is absent or empty leaves signing
/// disabled and no signing key configured, whatever the configuration held.
pub proof fn law_signing_disabled_without_key(m: Map<ConfigKey, Seq<char>>, r: IdentityView)
    requires
        !is_filled(r.signing_key),
    ensures
        !apply_ops(m, write_plan(r)).contains_key(ConfigKey::UserSigningKey),
        apply_ops(m, write_plan(r)).contains_key(ConfigKey::CommitGpgSign),
        apply_ops(m, write_plan(r))[ConfigKey::CommitGpgSign] == "false"@,
{
    lemma_apply_write_plan(m, r);
    let mid = apply_ops(apply_ops(m, field_plan(ConfigKey::UserName, r.name)), field_plan(ConfigKey::UserEmail, r.email));
    lemma_apply_two(
        mid,
        OpView::UnsetAll(ConfigKey::UserSigningKey),
        OpView::Assign(ConfigKey::CommitGpgSign, "false"@),
    );
}

/// Applying an identity with a non-empty signing key configures exactly that
/// key and enables signing.
pub proof fn law_signing_enabled_with_key(m: Map<ConfigKey, Seq<char>>, r: IdentityView)
    requires
        is_filled(r.signing_key),
    ensures
        apply_ops(m, write_plan(r)).contains_key(ConfigKey::UserSigningKey),
        apply_ops(m, write_plan(r))[ConfigKey::UserSigningKey] == r.signing_key->Some_0,
        apply_ops(m, write_plan(r)).contains_key(ConfigKey::CommitGpgSign),
        apply_ops(m, write_plan(r))[ConfigKey::CommitGpgSign] == "true"@,
{
    lemma_apply_write_plan(m, r);
    let mid = apply_ops(apply_ops(m, field_plan(ConfigKey::UserName, r.name)), field_plan(ConfigKey::UserEmail, r.email));
    lemma_apply_two(
        mid,
        OpView::Assign(ConfigKey::UserSigningKey, r.signing_key->Some_0),
        OpView::Assign(ConfigKey::CommitGpgSign, "true"@),
    );
}

/// Applying an identity writes its name and email where they are given and
/// leaves them untouched where they are absent.
pub proof fn law_fields_written_when_given(m: Map<ConfigKey, Seq<char>>, r: IdentityView)
    ensures
        identity_of(apply_ops(m, write_plan(r))).name == (if r.name is Some {
            r.name
        } else {
            identity_of(m).name
        }),
        identity_of(apply_ops(m, write_plan(r))).email == (if r.email is Some {
            r.email
        } else {
            identity_of(m).email
        }),
{
    lemma_apply_write_plan(m, r);
    let m1 = apply_ops(m, field_plan(ConfigKey::UserName, r.name));
    let m2 = apply_ops(m1, field_plan(ConfigKey::UserEmail, r.email));
    lemma_apply_field(m, ConfigKey::UserName, r.name);
    lemma_apply_field(m1, ConfigKey::UserEmail, r.email);
    if is_filled(r.signing_key) {
        lemma_apply_two(
            m2,
            OpView::Assign(ConfigKey::UserSigningKey, r.signing_key->Some_0),
            OpView::Assign(ConfigKey::CommitGpgSign, "true"@),
        );
    } else {
        lemma_apply_two(
            m2,
            OpView::UnsetAll(ConfigKey::UserSigningKey),
            OpView::Assign(ConfigKey::CommitGpgSign, "false"@),
        );
    }
}

/// Saving an identity under a name and then using that name gives back
/// exactly the identity saved; the live configuration then shows its name
/// and email where given, and its signing key when that is non-empty.
pub proof fn law_save_then_use(
    profiles: Map<Seq<char>, IdentityView>,
    live: Map<ConfigKey, Seq<char>>,
    name: Seq<char>,
    config: IdentityView,
)
    ensures
        profiles.insert(name, config).contains_key(name),
        profiles.insert(name, config)[name] == config,
        config.name is Some ==> identity_of(apply_ops(live, write_plan(config))).name
            == config.name,
        config.email is Some ==> identity_of(apply_ops(live, write_plan(config))).email
            == config.email,
        is_filled(config.signing_key) ==> identity_of(
            apply_ops(live, write_plan(config)),
        ).signing_key == config.signing_key,
        !is_filled(config.signing_key) ==> identity_of(
            apply_ops(live, write_plan(config)),
        ).signing_key is None,
{
    law_fields_written_when_given(live, config);
    if is_filled(config.signing_key) {
        law_signing_enabled_with_key(live, config);
    } else {
        law_signing_disabled_without_key(live, config);
    }
}

} // verus!
