use vstd::prelude::*;
use crate::domain::{copy_opt, opt_view, is_filled, IdentityView, GitUserConfig};
use crate::error::AppError;

verus! {

/// The keys of the VCS's global configuration that an identity touches.
#[derive(Debug, Clone, Copy, PartialEq, Eq, Structural)]
pub enum ConfigKey {
    UserName,
    UserEmail,
    UserSigningKey,
    CommitGpgSign,
}

/// The name of a key in the VCS's configuration.
pub open spec fn key_name(k: ConfigKey) -> Seq<char> {
    match k {
        ConfigKey::UserName => "user.name"@,
        ConfigKey::UserEmail => "user.email"@,
        ConfigKey::UserSigningKey => "user.signingkey"@,
        ConfigKey::CommitGpgSign => "commit.gpgsign"@,
    }
}

impl ConfigKey {
    pub fn as_str(&self) -> (r: &'static str)
        ensures
            r@ == key_name(*self),
    {
        match self {
            ConfigKey::UserName => "user.name",
            ConfigKey::UserEmail => "user.email",
            ConfigKey::UserSigningKey => "user.signingkey",
            ConfigKey::CommitGpgSign => "commit.gpgsign",
        }
    }
}

/// One write to the global configuration.
#[derive(Debug, Clone, PartialEq, Eq)]
pub enum ConfigOp {
    /// Give `key` the value `value`.
    Assign { key: ConfigKey, value: String },
    /// Remove every value of `key`.
    UnsetAll { key: ConfigKey },
}

pub enum OpView {
    Assign(ConfigKey, Seq<char>),
    UnsetAll(ConfigKey),
}

impl View for ConfigOp {
    type V = OpView;

    open spec fn view(&self) -> OpView {
        match self {
            ConfigOp::Assign { key, value } => OpView::Assign(*key, value@),
            ConfigOp::UnsetAll { key } => OpView::UnsetAll(*key),
        }
    }
}

pub open spec fn ops_view(ops: Seq<ConfigOp>) -> Seq<OpView> {
    ops.map_values(|o: ConfigOp| o@)
}

/// The arguments of the VCS command that performs an operation.
pub open spec fn op_args(op: OpView) -> Seq<Seq<char>> {
    match op {
        OpView::Assign(k, v) => seq!["config"@, "--global"@, key_name(k), v],
        OpView::UnsetAll(k) => seq!["config"@, "--global"@, "--unset-all"@, key_name(k)],
    }
}

impl ConfigOp {
    /// A failure of this operation is tolerated: unsetting a key that may
    /// never have been set.
    pub fn tolerates_failure(&self) -> (r: bool)
        ensures
            r == (self@ is UnsetAll),
    {
        match self {
            ConfigOp::Assign { .. } => false,
            ConfigOp::UnsetAll { .. } => true,
        }
    }

    /// The arguments to hand to the VCS binary for this operation.
    pub fn args(&self) -> (r: Vec<String>)
        ensures
            r@.map_values(|s: String| s@) == op_args(self@),
    {
        let mut r: Vec<String> = Vec::new();
        r.push("config".to_owned());
        r.push("--global".to_owned());
        match self {
            ConfigOp::Assign { key, value } => {
                r.push(key.as_str().to_owned());
                r.push(value.clone());
            },
            ConfigOp::UnsetAll { key } => {
                r.push("--unset-all".to_owned());
                r.push(key.as_str().to_owned());
            },
        }
        assert(r@.map_values(|s: String| s@) =~= op_args(self@));
        r
    }
}

/// What applying one operation does to the configuration.
pub open spec fn apply_op(m: Map<ConfigKey, Seq<char>>, op: OpView) -> Map<ConfigKey, Seq<char>> {
    match op {
        OpView::Assign(k, v) => m.insert(k, v),
        OpView::UnsetAll(k) => m.remove(k),
    }
}

/// What applying a sequence of operations in order does.
pub open spec fn apply_ops(m: Map<ConfigKey, Seq<char>>, ops: Seq<OpView>) -> Map<
    ConfigKey,
    Seq<char>,
>
    decreases ops.len(),
{
    if ops.len() == 0 {
        m
    } else {
        apply_op(apply_ops(m, ops.drop_last()), ops.last())
    }
}

/// Applying `a` then `b` is applying their concatenation.
pub proof fn lemma_apply_ops_concat(m: Map<ConfigKey, Seq<char>>, a: Seq<OpView>, b: Seq<OpView>)
    ensures
        apply_ops(m, a + b) == apply_ops(apply_ops(m, a), b),
    decreases b.len(),
{
    if b.len() == 0 {
        assert(a + b =~= a);
    } else {
        lemma_apply_ops_concat(m, a, b.drop_last());
        assert((a + b).drop_last() =~= a + b.drop_last());
        assert((a + b).last() == b.last());
    }
}

/// The operation for one plain field: written when present, else untouched.
pub open spec fn field_plan(k: ConfigKey, v: Option<Seq<char>>) -> Seq<OpView> {
    match v {
        Some(s) => seq![OpView::Assign(k, s)],
        None => Seq::empty(),
    }
}

/// A non-empty key is set and signing enabled; otherwise the key is
/// cleared and signing disabled.
pub open spec fn signing_plan(key: Option<Seq<char>>) -> Seq<OpView> {
    if is_filled(key) {
        seq![
            OpView::Assign(ConfigKey::UserSigningKey, key->Some_0),
            OpView::Assign(ConfigKey::CommitGpgSign, "true"@),
        ]
    } else {
        seq![OpView::UnsetAll(ConfigKey::UserSigningKey), OpView::Assign(ConfigKey::CommitGpgSign, "false"@)]
    }
}

/// The writes that apply an identity, in order.
pub open spec fn write_plan(r: IdentityView) -> Seq<OpView> {
    field_plan(ConfigKey::UserName, r.name) + field_plan(ConfigKey::UserEmail, r.email)
        + signing_plan(r.signing_key)
}

pub(crate) fn push_field_op(plan: &mut Vec<ConfigOp>, key: ConfigKey, v: &Option<String>)
    ensures
        ops_view(final(plan)@) == ops_view(old(plan)@) + field_plan(key, opt_view(*v)),
{
    match v {
        Some(s) => {
            plan.push(ConfigOp::Assign { key, value: s.clone() });
        },
        None => {},
    }
    assert(ops_view(final(plan)@) =~= ops_view(old(plan)@) + field_plan(key, opt_view(*v)));
}

pub(crate) fn push_signing_ops(plan: &mut Vec<ConfigOp>, key: &Option<String>)
    ensures
        ops_view(final(plan)@) == ops_view(old(plan)@) + signing_plan(opt_view(*key)),
{
    let filled = match key {
        Some(k) => !k.as_str().is_empty(),
        None => false,
    };
    if filled {
        let k = key.as_ref().unwrap();
        plan.push(ConfigOp::Assign { key: ConfigKey::UserSigningKey, value: k.clone() });
        plan.push(ConfigOp::Assign { key: ConfigKey::CommitGpgSign, value: "true".to_owned() });
    } else {
        plan.push(ConfigOp::UnsetAll { key: ConfigKey::UserSigningKey });
        plan.push(ConfigOp::Assign { key: ConfigKey::CommitGpgSign, value: "false".to_owned() });
    }
    assert(ops_view(final(plan)@) =~= ops_view(old(plan)@) + signing_plan(opt_view(*key)));
}

/// The writes that apply `config` to the global configuration: name and
/// email when present, then the coupled signing-key and signing-flag pair.
pub fn identity_write_plan(config: &GitUserConfig) -> (r: Vec<ConfigOp>)
    ensures
        ops_view(r@) == write_plan(config@),
{
    let mut plan: Vec<ConfigOp> = Vec::new();
    assert(ops_view(plan@) =~= Seq::empty());
    push_field_op(&mut plan, ConfigKey::UserName, &config.name);
    push_field_op(&mut plan, ConfigKey::UserEmail, &config.email);
    push_signing_ops(&mut plan, &config.signing_key);
    assert(ops_view(plan@) =~= write_plan(config@));
    plan
}

/// The result of one operation as the write reports it: a failure of a
/// tolerated operation counts as success, any other failure is passed on.
pub fn op_outcome(op: &ConfigOp, result: Result<(), AppError>) -> (r: Result<(), AppError>)
    ensures
        r is Ok <==> (result is Ok || op@ is UnsetAll),
        r is Err ==> r == result,
{
    match result {
        Ok(()) => Ok(()),
        Err(e) => {
            if op.tolerates_failure() {
                Ok(())
            } else {
                Err(e)
            }
        },
    }
}

/// The value of `k` in a configuration, if it has one.
pub open spec fn lookup(m: Map<ConfigKey, Seq<char>>, k: ConfigKey) -> Option<Seq<char>> {
    if m.contains_key(k) {
        Some(m[k])
    } else {
        None
    }
}

/// The part of the VCS's global configuration that identities touch.
#[derive(Debug, Clone, Default, PartialEq, Eq)]
pub struct GitGlobalConfig {
    pub user_name: Option<String>,
    pub user_email: Option<String>,
    pub user_signingkey: Option<String>,
    pub commit_gpgsign: Option<String>,
}

impl View for GitGlobalConfig {
    type V = Map<ConfigKey, Seq<char>>;

    open spec fn view(&self) -> Map<ConfigKey, Seq<char>> {
        Map::new(|k: ConfigKey| self.field(k) is Some, |k: ConfigKey| self.field(k)->Some_0@)
    }
}

impl GitGlobalConfig {
    pub open spec fn field(&self, k: ConfigKey) -> Option<String> {
        match k {
            ConfigKey::UserName => self.user_name,
            ConfigKey::UserEmail => self.user_email,
            ConfigKey::UserSigningKey => self.user_signingkey,
            ConfigKey::CommitGpgSign => self.commit_gpgsign,
        }
    }

    /// A configuration with no key set.
    pub fn new() -> (r: GitGlobalConfig)
        ensures
            r@ == Map::<ConfigKey, Seq<char>>::empty(),
    {
        let r = GitGlobalConfig {
            user_name: None,
            user_email: None,
            user_signingkey: None,
            commit_gpgsign: None,
        };
        assert(r@ =~= Map::<ConfigKey, Seq<char>>::empty());
        r
    }

    /// The value of `key`, if set.
    pub fn get(&self, key: ConfigKey) -> (r: Option<String>)
        ensures
            opt_view(r) == lookup(self@, key),
    {
        match key {
            ConfigKey::UserName => copy_opt(&self.user_name),
            ConfigKey::UserEmail => copy_opt(&self.user_email),
            ConfigKey::UserSigningKey => copy_opt(&self.user_signingkey),
            ConfigKey::CommitGpgSign => copy_opt(&self.commit_gpgsign),
        }
    }

    fn put(&mut self, key: ConfigKey, value: Option<String>)
        ensures
            final(self).field(key) == value,
            forall|k: ConfigKey| k != key ==> final(self).field(k) == old(self).field(k),
    {
        match key {
            ConfigKey::UserName => self.user_name = value,
            ConfigKey::UserEmail => self.user_email = value,
            ConfigKey::UserSigningKey => self.user_signingkey = value,
            ConfigKey::CommitGpgSign => self.commit_gpgsign = value,
        }
    }

    /// Gives `key` the value `value`.
    pub fn assign(&mut self, key: ConfigKey, value: String)
        ensures
            final(self)@ == old(self)@.insert(key, value@),
    {
        self.put(key, Some(value));
        assert(final(self)@ =~= old(self)@.insert(key, value@));
    }

    /// Removes `key`; returns whether it had a value.
    pub fn unset_all(&mut self, key: ConfigKey) -> (r: bool)
        ensures
            r == old(self)@.contains_key(key),
            final(self)@ == old(self)@.remove(key),
    {
        let had = self.get(key).is_some();
        self.put(key, None);
        assert(final(self)@ =~= old(self)@.remove(key));
        had
    }

    /// Performs one operation. As the VCS does, unsetting a key without a
    /// value fails (exit code 5) and changes nothing.
    pub fn apply(&mut self, op: &ConfigOp) -> (r: Result<(), AppError>)
        ensures
            final(self)@ == apply_op(old(self)@, op@),
            r is Ok <==> !(op@ is UnsetAll && !old(self)@.contains_key(op@->UnsetAll_0)),
    {
        match op {
            ConfigOp::Assign { key, value } => {
                self.assign(*key, value.clone());
                Ok(())
            },
            ConfigOp::UnsetAll { key } => {
                if self.unset_all(*key) {
                    Ok(())
                } else {
                    Err(
                        AppError::CommandFailed {
                            command: key.as_str().to_owned(),
                            code: 5,
                            stderr: String::new(),
                        },
                    )
                }
            },
        }
    }

    /// Runs a plan of operations in order, as a write of the VCS's
    /// configuration does: a failure that is not tolerated stops it.
    pub fn run_plan(&mut self, plan: &Vec<ConfigOp>) -> (r: Result<(), AppError>)
        ensures
            r is Ok,
            final(self)@ == apply_ops(old(self)@, ops_view(plan@)),
    {
        let ghost start = self@;
        let mut i: usize = 0;
        assert(ops_view(plan@).take(0) =~= Seq::<OpView>::empty());
        while i < plan.len()
            invariant
                i <= plan.len(),
                self@ == apply_ops(start, ops_view(plan@).take(i as int)),
            decreases plan.len() - i,
        {
            let res = self.apply(&plan[i]);
            if let Err(e) = op_outcome(&plan[i], res) {
                return Err(e);
            }
            proof {
                let t = ops_view(plan@).take(i as int + 1);
                assert(t.drop_last() =~= ops_view(plan@).take(i as int));
                assert(t.last() == plan@[i as int]@);
            }
            i = i + 1;
        }
        assert(ops_view(plan@).take(i as int) =~= ops_view(plan@));
        Ok(())
    }
}

} // verus!
